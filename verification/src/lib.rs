//! Host-side driver core for a serial mesh-network coordinator stick.
//!
//! The stick speaks a framed binary protocol over a raw serial link: frames
//! are delimiter-escaped with a trailing checksum, and carry little-endian
//! commands and responses. This crate holds the verified core of the driver:
//! the byte-level framer, the wire codec for requests and responses, the
//! request/response multiplexer's correlation logic, and the application-data
//! coordinator's state machine. Serial I/O and task plumbing live outside the
//! crate and drive these functions with plain values.

pub mod aps;
pub mod errors;
pub mod helpers;
pub mod mux;
pub mod parameters;
pub mod protocol;
pub mod slip;
pub mod types;
pub mod wire;

pub use crate::aps::Aps;
pub use crate::errors::{Error, ErrorKind};
pub use crate::helpers::{Awaiting, IncrementingId};
pub use crate::mux::SerialMux;
pub use crate::parameters::{Parameter, ParameterId};
pub use crate::protocol::{CommandId, Request, RequestId, Response};
pub use crate::slip::{crc16, SlipDecoder, SlipError, SlipStep};
pub use crate::types::{
    ApsDataConfirm, ApsDataIndication, ApsDataRequest, ClusterId, Destination, DestinationAddress,
    DeviceState, Endpoint, ExtendedAddress, NetworkState, Platform, ProfileId, SequenceId,
    ShortAddress, SourceAddress, Version,
};
pub use crate::wire::{ReadWire, ReadWireExt, WireReader, WriteWire, WriteWireExt};
