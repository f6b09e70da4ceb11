//! Error taxonomy of the driver.
//!
//! Transport failures (framing, I/O, serial-port configuration), protocol
//! failures (unknown identifiers, malformed or unexpected frames), and
//! coordination failures (closed channels, timeouts). The I/O and
//! serial-port variants carry a message supplied by the unverified edge of
//! the driver; the verified core never constructs them.

use vstd::prelude::*;

use crate::parameters::ParameterId;
use crate::protocol::CommandId;
use crate::slip::SlipError;

verus! {

/// Why an operation of the driver failed.
#[derive(Debug)]
pub enum ErrorKind {
    /// A sequence id was allocated while still in flight.
    DuplicateSequenceId(u8),
    /// A solicited response arrived whose sequence id has no waiter.
    UnsolicitedResponse(u8),
    /// A confirmation arrived whose request id has no waiter.
    UnsolicitedConfirm(u8),
    /// A response of the wrong kind answered a request.
    UnexpectedResponse(CommandId),
    /// A frame carried a command id outside the documented set.
    UnsupportedCommand(u8),
    /// A frame carried a parameter id outside the documented set.
    UnsupportedParameter(u8),
    /// A frame carried an address-mode tag outside the documented set.
    UnsupportedAddressMode(u8),
    /// A parameter payload could not be decoded.
    InvalidParameter { parameter_id: ParameterId, inner: Box<Error> },
    /// A frame ended before the field being read was complete.
    Truncated,
    /// The framer rejected the byte stream.
    Slip(SlipError),
    /// The serial port could not be opened or configured.
    SerialPort(String),
    /// The transport failed while reading or writing.
    Io(String),
    /// A task or caller hung up its channel.
    ChannelError,
    /// No response arrived before the deadline.
    Timeout,
}

/// An error surfaced by the driver.
#[derive(Debug)]
pub struct Error {
    pub kind: ErrorKind,
}

impl From<ErrorKind> for Error {
    fn from(kind: ErrorKind) -> (r: Error) {
        Error { kind }
    }
}

impl vstd::std_specs::convert::FromSpecImpl<ErrorKind> for Error {
    open spec fn obeys_from_spec() -> bool {
        true
    }

    open spec fn from_spec(kind: ErrorKind) -> Error {
        Error { kind }
    }
}

impl From<SlipError> for Error {
    fn from(error: SlipError) -> (r: Error) {
        Error { kind: ErrorKind::Slip(error) }
    }
}

impl vstd::std_specs::convert::FromSpecImpl<SlipError> for Error {
    open spec fn obeys_from_spec() -> bool {
        true
    }

    open spec fn from_spec(error: SlipError) -> Error {
        Error { kind: ErrorKind::Slip(error) }
    }
}

} // verus!
