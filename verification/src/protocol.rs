//! The serial wire codec: typed requests and responses, and their frame
//! encodings.
//!
//! A frame starts with a five-byte header: command id, sequence id, a
//! reserved zero byte, and the 16-bit total frame length. Requests that
//! carry a payload add a 16-bit payload length before the payload bytes.

use vstd::prelude::*;

use crate::errors::{Error, ErrorKind};
use crate::parameters::{
    parameter_bytes, parameter_decoded, parameter_id, parameter_id_byte, parameter_id_of,
    parameter_len, Parameter, ParameterId,
};
use crate::types::{
    ApsDataConfirm, ApsDataIndication, ApsDataRequest, ClusterId, Destination,
    DestinationAddress, DeviceState, Endpoint, ExtendedAddress, Platform, ProfileId, SequenceId,
    ShortAddress, SourceAddress, Version,
};
use crate::types::{device_state_of, platform_of};
use crate::wire::{
    u16_le_bytes, u16_of_le, u64_of_le, push_u16_le, push_u64_le, WireReader,
};

verus! {

/// 8-bit correlator for application-layer request/confirmation matching.
pub type RequestId = u8;

/// The commands of the serial protocol.
#[derive(Clone, Copy, Debug, PartialEq, Eq, Structural)]
pub enum CommandId {
    Version,
    ReadParameter,
    WriteParameter,
    DeviceState,
    DeviceStateChanged,
    ApsDataIndication,
    ApsDataRequest,
    ApsDataConfirm,
    MacPoll,
}

/// The wire byte of each command.
pub open spec fn command_id_byte(c: CommandId) -> u8 {
    match c {
        CommandId::Version => 0x0D,
        CommandId::ReadParameter => 0x0A,
        CommandId::WriteParameter => 0x0B,
        CommandId::DeviceState => 0x07,
        CommandId::DeviceStateChanged => 0x0E,
        CommandId::ApsDataIndication => 0x17,
        CommandId::ApsDataRequest => 0x12,
        CommandId::ApsDataConfirm => 0x04,
        CommandId::MacPoll => 0x1C,
    }
}

/// The command named by a wire byte, if any.
pub open spec fn command_id_of(byte: u8) -> Option<CommandId> {
    if byte == 0x0D {
        Some(CommandId::Version)
    } else if byte == 0x0A {
        Some(CommandId::ReadParameter)
    } else if byte == 0x0B {
        Some(CommandId::WriteParameter)
    } else if byte == 0x07 {
        Some(CommandId::DeviceState)
    } else if byte == 0x0E {
        Some(CommandId::DeviceStateChanged)
    } else if byte == 0x17 {
        Some(CommandId::ApsDataIndication)
    } else if byte == 0x12 {
        Some(CommandId::ApsDataRequest)
    } else if byte == 0x04 {
        Some(CommandId::ApsDataConfirm)
    } else if byte == 0x1C {
        Some(CommandId::MacPoll)
    } else {
        None
    }
}

impl CommandId {
    /// Whether a response of this kind was solicited by a request. Only a
    /// device-state-changed notification arrives unsolicited.
    pub fn solicited(&self) -> (r: bool)
        ensures
            r == (*self != CommandId::DeviceStateChanged),
    {
        match self {
            CommandId::DeviceStateChanged => false,
            _ => true,
        }
    }

    /// The wire byte of this command.
    pub fn to_byte(self) -> (r: u8)
        ensures
            r == command_id_byte(self),
    {
        match self {
            CommandId::Version => 0x0D,
            CommandId::ReadParameter => 0x0A,
            CommandId::WriteParameter => 0x0B,
            CommandId::DeviceState => 0x07,
            CommandId::DeviceStateChanged => 0x0E,
            CommandId::ApsDataIndication => 0x17,
            CommandId::ApsDataRequest => 0x12,
            CommandId::ApsDataConfirm => 0x04,
            CommandId::MacPoll => 0x1C,
        }
    }

    /// Decode a command byte; a byte outside the documented set is rejected.
    pub fn from_byte(byte: u8) -> (r: Result<CommandId, Error>)
        ensures
            match r {
                Ok(c) => command_id_of(byte) == Some(c),
                Err(e) => {
                    &&& command_id_of(byte) is None
                    &&& e.kind matches ErrorKind::UnsupportedCommand(b) && b == byte
                },
            },
    {
        if byte == 0x0D {
            Ok(CommandId::Version)
        } else if byte == 0x0A {
            Ok(CommandId::ReadParameter)
        } else if byte == 0x0B {
            Ok(CommandId::WriteParameter)
        } else if byte == 0x07 {
            Ok(CommandId::DeviceState)
        } else if byte == 0x0E {
            Ok(CommandId::DeviceStateChanged)
        } else if byte == 0x17 {
            Ok(CommandId::ApsDataIndication)
        } else if byte == 0x12 {
            Ok(CommandId::ApsDataRequest)
        } else if byte == 0x04 {
            Ok(CommandId::ApsDataConfirm)
        } else if byte == 0x1C {
            Ok(CommandId::MacPoll)
        } else {
            Err(Error { kind: ErrorKind::UnsupportedCommand(byte) })
        }
    }
}

/// A serial request to the stick.
#[derive(Clone, Debug)]
pub enum Request {
    Version,
    ReadParameter { parameter_id: ParameterId },
    WriteParameter { parameter: Parameter },
    DeviceState,
    ApsDataIndication,
    ApsDataRequest(RequestId, ApsDataRequest),
    ApsDataConfirm,
}

/// The command each request is carried by.
pub open spec fn request_command(req: Request) -> CommandId {
    match req {
        Request::Version => CommandId::Version,
        Request::ReadParameter { .. } => CommandId::ReadParameter,
        Request::WriteParameter { .. } => CommandId::WriteParameter,
        Request::DeviceState => CommandId::DeviceState,
        Request::ApsDataIndication => CommandId::ApsDataIndication,
        Request::ApsDataRequest(_, _) => CommandId::ApsDataRequest,
        Request::ApsDataConfirm => CommandId::ApsDataConfirm,
    }
}

/// How many bytes a destination occupies on the wire beyond its mode tag:
/// the address, and the endpoint where the mode carries one.
pub open spec fn destination_len(d: Destination) -> int {
    match d {
        Destination::Group(_) => 2,
        Destination::Nwk(_, _) => 3,
        Destination::Ieee(_, _) => 9,
    }
}

/// The wire form of a destination: a mode tag, the address, and, for the
/// endpoint-bearing modes, the endpoint.
pub open spec fn destination_bytes(d: Destination) -> Seq<u8> {
    match d {
        Destination::Group(a) => seq![1u8] + u16_le_bytes(a.0),
        Destination::Nwk(a, e) => seq![2u8] + u16_le_bytes(a.0) + seq![e.0],
        Destination::Ieee(a, e) => seq![3u8] + crate::wire::u64_le_bytes(a.0) + seq![e.0],
    }
}

/// The payload of an outbound data request: request id, zero flags, the
/// destination, profile and cluster ids, source endpoint, the counted
/// application bytes, then fixed transmit options and an unlimited radius.
pub open spec fn aps_request_payload(rid: RequestId, r: ApsDataRequest) -> Seq<u8> {
    seq![rid, 0u8] + destination_bytes(r.destination) + u16_le_bytes(r.profile_id.0) + u16_le_bytes(
        r.cluster_id.0,
    ) + seq![r.source_endpoint.0] + u16_le_bytes(r.asdu@.len() as u16) + r.asdu@ + seq![
        0x04u8,
        0u8,
    ]
}

/// The payload bytes of a request, or `None` for the requests that send a
/// bare header. A data-confirm poll sends an empty payload, with the
/// two-byte payload length still present.
pub open spec fn request_payload(req: Request) -> Option<Seq<u8>> {
    match req {
        Request::Version => None,
        Request::ReadParameter { parameter_id } => Some(seq![parameter_id_byte(parameter_id)]),
        Request::WriteParameter { parameter } => Some(
            seq![parameter_id_byte(parameter_id(parameter))] + parameter_bytes(parameter),
        ),
        Request::DeviceState => None,
        Request::ApsDataIndication => Some(seq![4u8]),
        Request::ApsDataRequest(rid, r) => Some(aps_request_payload(rid, r)),
        Request::ApsDataConfirm => Some(Seq::empty()),
    }
}

/// The total frame length: the five-byte header, and, when a payload is
/// present, its two-byte length and its bytes.
pub open spec fn request_frame_len(req: Request) -> int {
    match request_payload(req) {
        None => 5,
        Some(p) => 7 + p.len() as int,
    }
}

/// Whether the frame length fits the 16-bit length field. Only an outbound
/// data request with an enormous application payload can exceed it.
pub open spec fn request_len_ok(req: Request) -> bool {
    request_frame_len(req) <= 0xFFFF
}

/// The whole frame a request encodes to: command id, sequence id, a zero
/// status byte, the 16-bit frame length, then the payload behind its own
/// 16-bit length when one is present.
pub open spec fn request_frame(req: Request, sequence_id: u8) -> Seq<u8> {
    let header = seq![command_id_byte(request_command(req)), sequence_id, 0u8] + u16_le_bytes(
        request_frame_len(req) as u16,
    );
    match request_payload(req) {
        None => header,
        Some(p) => header + u16_le_bytes(p.len() as u16) + p,
    }
}

impl Destination {
    /// How many bytes this destination occupies beyond its mode tag.
    pub fn wire_len(&self) -> (r: u16)
        ensures
            r == destination_len(*self),
    {
        match self {
            Destination::Group(_) => 2,
            Destination::Nwk(_, _) => 3,
            Destination::Ieee(_, _) => 9,
        }
    }

    /// Append this destination's wire form.
    pub fn write_wire(self, out: &mut Vec<u8>)
        ensures
            final(out)@ == old(out)@ + destination_bytes(self),
    {
        match self {
            Destination::Group(a) => {
                out.push(1);
                push_u16_le(out, a.0);
            },
            Destination::Nwk(a, e) => {
                out.push(2);
                push_u16_le(out, a.0);
                out.push(e.0);
            },
            Destination::Ieee(a, e) => {
                out.push(3);
                push_u64_le(out, a.0);
                out.push(e.0);
            },
        }
        assert(out@ =~= old(out)@ + destination_bytes(self));
    }
}

impl Request {
    /// The command this request is carried by.
    pub fn command_id(&self) -> (r: CommandId)
        ensures
            r == request_command(*self),
    {
        match self {
            Request::Version => CommandId::Version,
            Request::ReadParameter { .. } => CommandId::ReadParameter,
            Request::WriteParameter { .. } => CommandId::WriteParameter,
            Request::DeviceState => CommandId::DeviceState,
            Request::ApsDataIndication => CommandId::ApsDataIndication,
            Request::ApsDataRequest(_, _) => CommandId::ApsDataRequest,
            Request::ApsDataConfirm => CommandId::ApsDataConfirm,
        }
    }

    /// Whether this request's frame fits the 16-bit length field.
    pub fn fits_frame(&self) -> (r: bool)
        ensures
            r == request_len_ok(*self),
    {
        match self {
            Request::ApsDataRequest(_, r) => {
                let dest_len = r.destination.wire_len();
                r.asdu.len() <= 0xFFFF - 19 - dest_len as usize
            },
            _ => true,
        }
    }

    /// The length of this request's payload, or `None` when the frame is a
    /// bare header.
    pub fn payload_len(&self) -> (r: Option<u16>)
        requires
            request_len_ok(*self),
        ensures
            match r {
                None => request_payload(*self) is None,
                Some(n) => request_payload(*self) matches Some(p) && n == p.len(),
            },
    {
        match self {
            Request::Version => None,
            Request::ReadParameter { .. } => Some(1),
            Request::WriteParameter { parameter } => Some(1 + parameter.wire_len()),
            Request::DeviceState => None,
            Request::ApsDataIndication => Some(1),
            Request::ApsDataRequest(_, r) => {
                let dest_len = r.destination.wire_len();
                proof {
                    assert(aps_request_payload(0, *r).len() == 12 + destination_len(r.destination)
                        + r.asdu@.len());
                }
                Some(12 + dest_len + r.asdu.len() as u16)
            },
            Request::ApsDataConfirm => Some(0),
        }
    }

    /// Append this request's payload bytes.
    pub fn write_payload(self, buffer: &mut Vec<u8>)
        requires
            request_len_ok(self),
        ensures
            final(buffer)@ == old(buffer)@ + match request_payload(self) {
                None => Seq::<u8>::empty(),
                Some(p) => p,
            },
    {
        match self {
            Request::Version => {
                assert(buffer@ =~= old(buffer)@ + Seq::<u8>::empty());
            },
            Request::ReadParameter { parameter_id } => {
                buffer.push(parameter_id.to_byte());
                assert(buffer@ =~= old(buffer)@ + seq![parameter_id_byte(parameter_id)]);
            },
            Request::WriteParameter { parameter } => {
                buffer.push(parameter.id().to_byte());
                parameter.write_wire(buffer);
                assert(buffer@ =~= old(buffer)@ + (seq![parameter_id_byte(parameter_id(parameter))]
                    + parameter_bytes(parameter)));
            },
            Request::DeviceState => {
                assert(buffer@ =~= old(buffer)@ + Seq::<u8>::empty());
            },
            Request::ApsDataIndication => {
                buffer.push(4);
                assert(buffer@ =~= old(buffer)@ + seq![4u8]);
            },
            Request::ApsDataRequest(request_id, r) => {
                buffer.push(request_id);
                buffer.push(0);
                r.destination.write_wire(buffer);
                push_u16_le(buffer, r.profile_id.0);
                push_u16_le(buffer, r.cluster_id.0);
                buffer.push(r.source_endpoint.0);
                push_u16_le(buffer, r.asdu.len() as u16);
                let mut asdu = r.asdu;
                buffer.append(&mut asdu);
                buffer.push(0x04);
                buffer.push(0);
                assert(buffer@ =~= old(buffer)@ + aps_request_payload(request_id, r));
            },
            Request::ApsDataConfirm => {
                assert(buffer@ =~= old(buffer)@ + Seq::<u8>::empty());
            },
        }
    }

    /// Encode this request into the frame that carries it, under the given
    /// sequence id.
    pub fn into_frame(self, sequence_id: SequenceId) -> (r: Result<Vec<u8>, Error>)
        requires
            request_len_ok(self),
        ensures
            r matches Ok(f) && f@ == request_frame(self, sequence_id),
    {
        let payload_len = self.payload_len();
        let frame_len: u16 = match payload_len {
            Some(n) => 7 + n,
            None => 5,
        };
        let mut buffer: Vec<u8> = Vec::new();
        buffer.push(self.command_id().to_byte());
        buffer.push(sequence_id);
        buffer.push(0);
        push_u16_le(&mut buffer, frame_len);
        if let Some(n) = payload_len {
            push_u16_le(&mut buffer, n);
        }
        self.write_payload(&mut buffer);
        assert(buffer@ =~= request_frame(self, sequence_id));
        Ok(buffer)
    }
}

/// A serial response from the stick.
#[derive(Clone, Debug)]
pub enum Response {
    Version { version: Version, platform: Platform },
    Parameter(Parameter),
    WriteParameter(ParameterId),
    DeviceState(DeviceState),
    DeviceStateChanged(DeviceState),
    ApsDataIndication { device_state: DeviceState, aps_data_indication: ApsDataIndication },
    ApsDataRequest { device_state: DeviceState, request_id: RequestId },
    ApsDataConfirm {
        device_state: DeviceState,
        request_id: RequestId,
        aps_data_confirm: ApsDataConfirm,
    },
    MacPoll { address: u16 },
}

/// The command each response is carried by.
pub open spec fn response_command(resp: Response) -> CommandId {
    match resp {
        Response::Version { .. } => CommandId::Version,
        Response::Parameter(_) => CommandId::ReadParameter,
        Response::WriteParameter(_) => CommandId::WriteParameter,
        Response::DeviceState(_) => CommandId::DeviceState,
        Response::DeviceStateChanged(_) => CommandId::DeviceStateChanged,
        Response::ApsDataIndication { .. } => CommandId::ApsDataIndication,
        Response::ApsDataRequest { .. } => CommandId::ApsDataRequest,
        Response::ApsDataConfirm { .. } => CommandId::ApsDataConfirm,
        Response::MacPoll { .. } => CommandId::MacPoll,
    }
}

/// The device state a response carries, if its kind carries one.
pub open spec fn response_device_state(resp: Response) -> Option<DeviceState> {
    match resp {
        Response::DeviceState(ds) => Some(ds),
        Response::DeviceStateChanged(ds) => Some(ds),
        Response::ApsDataIndication { device_state, .. } => Some(device_state),
        Response::ApsDataRequest { device_state, .. } => Some(device_state),
        _ => None,
    }
}

/// How many bytes an indication's destination address occupies for a given
/// mode tag: eight for an extended address, two otherwise.
pub open spec fn dest_mode_len(mode: u8) -> int {
    if mode == 3 {
        8
    } else {
        2
    }
}

/// How many bytes a confirmation's destination occupies for a given mode
/// tag, endpoint included where the mode carries one.
pub open spec fn confirm_dest_len(mode: u8) -> int {
    if mode == 1 {
        2
    } else if mode == 2 {
        3
    } else {
        9
    }
}

/// Whether an indication frame has its documented shape: a known
/// destination mode at offset 8, the combined short-and-extended source
/// mode after the destination, and enough bytes for every field through the
/// counted application payload.
pub open spec fn indication_well_formed(s: Seq<u8>) -> bool {
    &&& s.len() >= 9
    &&& (s[8] == 1 || s[8] == 2 || s[8] == 3)
    &&& {
        let d = dest_mode_len(s[8]);
        &&& s.len() >= 11 + d
        &&& s[10 + d] == 4
        &&& s.len() >= 28 + d
        &&& s.len() >= 28 + d + u16_of_le(s[26 + d], s[27 + d])
    }
}

/// The indication decoded from an indication frame.
pub open spec fn indication_matches(s: Seq<u8>, ind: ApsDataIndication) -> bool {
    let mode = s[8];
    let d = dest_mode_len(mode);
    let asdu_len = u16_of_le(s[26 + d], s[27 + d]);
    &&& ind.destination_address == (if mode == 1 {
        DestinationAddress::Group(ShortAddress(u16_of_le(s[9], s[10])))
    } else if mode == 2 {
        DestinationAddress::Nwk(ShortAddress(u16_of_le(s[9], s[10])))
    } else {
        DestinationAddress::Ieee(
            ExtendedAddress(u64_of_le(s[9], s[10], s[11], s[12], s[13], s[14], s[15], s[16])),
        )
    })
    &&& ind.destination_endpoint == Endpoint(s[9 + d])
    &&& ind.source_address == (SourceAddress {
        short: ShortAddress(u16_of_le(s[11 + d], s[12 + d])),
        extended: ExtendedAddress(
            u64_of_le(
                s[13 + d],
                s[14 + d],
                s[15 + d],
                s[16 + d],
                s[17 + d],
                s[18 + d],
                s[19 + d],
                s[20 + d],
            ),
        ),
    })
    &&& ind.source_endpoint == Endpoint(s[21 + d])
    &&& ind.profile_id == ProfileId(u16_of_le(s[22 + d], s[23 + d]))
    &&& ind.cluster_id == ClusterId(u16_of_le(s[24 + d], s[25 + d]))
    &&& ind.asdu@ == s.subrange(28 + d, 28 + d + asdu_len)
}

/// Whether a confirmation frame has its documented shape: a known
/// destination mode at offset 9 and enough bytes for the destination, the
/// source endpoint, and the status.
pub open spec fn confirm_well_formed(s: Seq<u8>) -> bool {
    &&& s.len() >= 10
    &&& (s[9] == 1 || s[9] == 2 || s[9] == 3)
    &&& s.len() >= 12 + confirm_dest_len(s[9])
}

/// The confirmation decoded from a confirmation frame.
pub open spec fn confirm_matches(s: Seq<u8>, conf: ApsDataConfirm) -> bool {
    let mode = s[9];
    let d = confirm_dest_len(mode);
    &&& conf.destination == (if mode == 1 {
        Destination::Group(ShortAddress(u16_of_le(s[10], s[11])))
    } else if mode == 2 {
        Destination::Nwk(ShortAddress(u16_of_le(s[10], s[11])), Endpoint(s[12]))
    } else {
        Destination::Ieee(
            ExtendedAddress(u64_of_le(s[10], s[11], s[12], s[13], s[14], s[15], s[16], s[17])),
            Endpoint(s[18]),
        )
    })
    &&& conf.source_endpoint == Endpoint(s[10 + d])
    &&& conf.status == s[11 + d]
}

/// Whether a frame decodes to a response: the five-byte header is present,
/// the command byte is known, and the command's own fields fit. The
/// reserved byte and the frame-length field are carried but not checked.
pub open spec fn response_well_formed(s: Seq<u8>) -> bool {
    &&& s.len() >= 5
    &&& match command_id_of(s[0]) {
        Some(c) => match c {
            CommandId::Version => s.len() >= 8,
            CommandId::ReadParameter => {
                &&& s.len() >= 8
                &&& match parameter_id_of(s[7]) {
                    Some(pid) => s.len() >= 8 + parameter_len(pid),
                    None => false,
                }
            },
            CommandId::WriteParameter => s.len() >= 8 && parameter_id_of(s[7]) is Some,
            CommandId::DeviceState => s.len() >= 6,
            CommandId::DeviceStateChanged => s.len() >= 6,
            CommandId::ApsDataIndication => indication_well_formed(s),
            CommandId::ApsDataRequest => s.len() >= 9,
            CommandId::ApsDataConfirm => confirm_well_formed(s),
            CommandId::MacPoll => s.len() >= 10,
        },
        None => false,
    }
}

/// The response decoded from a well-formed frame: each field of each kind
/// equals the little-endian value at its documented offset.
pub open spec fn response_matches(s: Seq<u8>, resp: Response) -> bool {
    &&& command_id_of(s[0]) == Some(response_command(resp))
    &&& match resp {
        Response::Version { version, platform } => {
            &&& platform == platform_of(s[5])
            &&& version == (Version { minor: s[6], major: s[7] })
        },
        Response::Parameter(p) => match parameter_id_of(s[7]) {
            Some(pid) => p == parameter_decoded(
                pid,
                s.subrange(8, 8 + parameter_len(pid)),
            ),
            None => false,
        },
        Response::WriteParameter(pid) => parameter_id_of(s[7]) == Some(pid),
        Response::DeviceState(ds) => ds == device_state_of(s[5]),
        Response::DeviceStateChanged(ds) => ds == device_state_of(s[5]),
        Response::ApsDataIndication { device_state, aps_data_indication } => {
            &&& device_state == device_state_of(s[7])
            &&& indication_matches(s, aps_data_indication)
        },
        Response::ApsDataRequest { device_state, request_id } => {
            &&& device_state == device_state_of(s[7])
            &&& request_id == s[8]
        },
        Response::ApsDataConfirm { device_state, request_id, aps_data_confirm } => {
            &&& device_state == device_state_of(s[7])
            &&& request_id == s[8]
            &&& confirm_matches(s, aps_data_confirm)
        },
        Response::MacPoll { address } => address == u16_of_le(s[8], s[9]),
    }
}

/// Whether an indication frame ends before a field its shape requires.
pub open spec fn indication_short(s: Seq<u8>) -> bool {
    ||| s.len() < 9
    ||| ((s[8] == 1 || s[8] == 2 || s[8] == 3) && {
        let d = dest_mode_len(s[8]);
        ||| s.len() < 11 + d
        ||| (s[10 + d] == 4 && (s.len() < 28 + d || s.len() < 28 + d + u16_of_le(
            s[26 + d],
            s[27 + d],
        )))
    })
}

/// Whether a frame ends before a field its command requires.
pub open spec fn response_is_short(s: Seq<u8>) -> bool {
    ||| (s.len() < 5 && (s.len() == 0 || command_id_of(s[0]) is Some))
    ||| (s.len() >= 5 && match command_id_of(s[0]) {
        Some(c) => match c {
            CommandId::Version => s.len() < 8,
            CommandId::ReadParameter => s.len() < 8,
            CommandId::WriteParameter => s.len() < 8,
            CommandId::DeviceState => s.len() < 6,
            CommandId::DeviceStateChanged => s.len() < 6,
            CommandId::ApsDataIndication => indication_short(s),
            CommandId::ApsDataRequest => s.len() < 9,
            CommandId::ApsDataConfirm => {
                ||| s.len() < 10
                ||| ((s[9] == 1 || s[9] == 2 || s[9] == 3) && s.len() < 12 + confirm_dest_len(
                    s[9],
                ))
            },
            CommandId::MacPoll => s.len() < 10,
        },
        None => false,
    })
}

/// Which malformation each parse error reports: an unknown command or
/// parameter byte names the byte, a bad address mode names the mode tag, a
/// parameter cut short is wrapped as invalid, and anything else cut short
/// is reported truncated.
pub open spec fn response_error_matches(s: Seq<u8>, e: Error) -> bool {
    match e.kind {
        ErrorKind::Truncated => response_is_short(s),
        ErrorKind::UnsupportedCommand(b) => s.len() >= 1 && b == s[0] && command_id_of(b) is None,
        ErrorKind::UnsupportedParameter(b) => {
            &&& s.len() >= 8
            &&& (command_id_of(s[0]) == Some(CommandId::ReadParameter) || command_id_of(s[0])
                == Some(CommandId::WriteParameter))
            &&& b == s[7]
            &&& parameter_id_of(b) is None
        },
        ErrorKind::InvalidParameter { parameter_id, inner } => {
            &&& command_id_of(s[0]) == Some(CommandId::ReadParameter)
            &&& s.len() >= 8
            &&& parameter_id_of(s[7]) == Some(parameter_id)
            &&& s.len() < 8 + parameter_len(parameter_id)
            &&& inner.kind is Truncated
        },
        ErrorKind::UnsupportedAddressMode(m) => {
            ||| (command_id_of(s[0]) == Some(CommandId::ApsDataIndication) && s.len() >= 9 && (
            (m == s[8] && s[8] != 1 && s[8] != 2 && s[8] != 3) || ((s[8] == 1 || s[8] == 2 || s[8]
                == 3) && s.len() >= 11 + dest_mode_len(s[8]) && m == s[10 + dest_mode_len(s[8])]
                && m != 4)))
            ||| (command_id_of(s[0]) == Some(CommandId::ApsDataConfirm) && s.len() >= 10 && m
                == s[9] && s[9] != 1 && s[9] != 2 && s[9] != 3)
        },
        _ => false,
    }
}

impl Response {
    /// The command this response is carried by.
    pub fn command_id(&self) -> (r: CommandId)
        ensures
            r == response_command(*self),
    {
        match self {
            Response::Version { .. } => CommandId::Version,
            Response::Parameter(_) => CommandId::ReadParameter,
            Response::WriteParameter(_) => CommandId::WriteParameter,
            Response::DeviceState(_) => CommandId::DeviceState,
            Response::DeviceStateChanged(_) => CommandId::DeviceStateChanged,
            Response::ApsDataIndication { .. } => CommandId::ApsDataIndication,
            Response::ApsDataRequest { .. } => CommandId::ApsDataRequest,
            Response::ApsDataConfirm { .. } => CommandId::ApsDataConfirm,
            Response::MacPoll { .. } => CommandId::MacPoll,
        }
    }

    /// Whether this response answers a request. Only a device-state-changed
    /// notification does not.
    pub fn solicited(&self) -> (r: bool)
        ensures
            r == (response_command(*self) != CommandId::DeviceStateChanged),
    {
        self.command_id().solicited()
    }

    /// The device state this response carries, if its kind carries one.
    pub fn device_state(&self) -> (r: Option<DeviceState>)
        ensures
            r == response_device_state(*self),
    {
        match self {
            Response::DeviceState(device_state) => Some(*device_state),
            Response::DeviceStateChanged(device_state) => Some(*device_state),
            Response::ApsDataIndication { device_state, .. } => Some(*device_state),
            Response::ApsDataRequest { device_state, .. } => Some(*device_state),
            _ => None,
        }
    }

    /// Decode a frame into the sequence id it answers and the response it
    /// carries. Exactly the well-formed frames decode; a malformed frame
    /// reports the malformation the error map describes.
    pub fn from_frame(frame: Vec<u8>) -> (r: Result<(SequenceId, Response), Error>)
        ensures
            match r {
                Ok((sid, resp)) => {
                    &&& response_well_formed(frame@)
                    &&& sid == frame@[1]
                    &&& response_matches(frame@, resp)
                },
                Err(e) => !response_well_formed(frame@) && response_error_matches(frame@, e),
            },
    {
        let ghost s = frame@;
        let mut rd = WireReader::new(frame.as_slice());
        let command_byte = match rd.read_u8() {
            Ok(b) => b,
            Err(e) => {
                return Err(e);
            },
        };
        let command_id = match CommandId::from_byte(command_byte) {
            Ok(c) => c,
            Err(e) => {
                return Err(e);
            },
        };
        let sequence_id = match rd.read_u8() {
            Ok(b) => b,
            Err(e) => {
                return Err(e);
            },
        };
        let _reserved = match rd.read_u8() {
            Ok(b) => b,
            Err(e) => {
                return Err(e);
            },
        };
        let _frame_len = match rd.read_u16() {
            Ok(v) => v,
            Err(e) => {
                return Err(e);
            },
        };
        let kind = match command_id {
            CommandId::Version => {
                let platform_byte = match rd.read_u8() {
                    Ok(b) => b,
                    Err(e) => {
                        return Err(e);
                    },
                };
                let minor = match rd.read_u8() {
                    Ok(b) => b,
                    Err(e) => {
                        return Err(e);
                    },
                };
                let major = match rd.read_u8() {
                    Ok(b) => b,
                    Err(e) => {
                        return Err(e);
                    },
                };
                Response::Version {
                    version: Version { major, minor },
                    platform: Platform::from_byte(platform_byte),
                }
            },
            CommandId::ReadParameter => {
                let _payload_len = match rd.read_u16() {
                    Ok(v) => v,
                    Err(e) => {
                        return Err(e);
                    },
                };
                let id_byte = match rd.read_u8() {
                    Ok(b) => b,
                    Err(e) => {
                        return Err(e);
                    },
                };
                let parameter_id = match ParameterId::from_byte(id_byte) {
                    Ok(id) => id,
                    Err(e) => {
                        return Err(e);
                    },
                };
                let parameter = match parameter_id.read_parameter(&mut rd) {
                    Ok(p) => p,
                    Err(e) => {
                        return Err(e);
                    },
                };
                Response::Parameter(parameter)
            },
            CommandId::WriteParameter => {
                let _payload_len = match rd.read_u16() {
                    Ok(v) => v,
                    Err(e) => {
                        return Err(e);
                    },
                };
                let id_byte = match rd.read_u8() {
                    Ok(b) => b,
                    Err(e) => {
                        return Err(e);
                    },
                };
                let parameter_id = match ParameterId::from_byte(id_byte) {
                    Ok(id) => id,
                    Err(e) => {
                        return Err(e);
                    },
                };
                Response::WriteParameter(parameter_id)
            },
            CommandId::DeviceState => {
                let ds = match rd.read_u8() {
                    Ok(b) => b,
                    Err(e) => {
                        return Err(e);
                    },
                };
                Response::DeviceState(DeviceState::from_byte(ds))
            },
            CommandId::DeviceStateChanged => {
                let ds = match rd.read_u8() {
                    Ok(b) => b,
                    Err(e) => {
                        return Err(e);
                    },
                };
                Response::DeviceStateChanged(DeviceState::from_byte(ds))
            },
            CommandId::ApsDataIndication => {
                let _payload_len = match rd.read_u16() {
                    Ok(v) => v,
                    Err(e) => {
                        return Err(e);
                    },
                };
                let ds = match rd.read_u8() {
                    Ok(b) => b,
                    Err(e) => {
                        return Err(e);
                    },
                };
                let dest_mode = match rd.read_u8() {
                    Ok(b) => b,
                    Err(e) => {
                        return Err(e);
                    },
                };
                let destination_address = if dest_mode == 1 {
                    match rd.read_u16() {
                        Ok(v) => DestinationAddress::Group(ShortAddress(v)),
                        Err(e) => {
                            return Err(e);
                        },
                    }
                } else if dest_mode == 2 {
                    match rd.read_u16() {
                        Ok(v) => DestinationAddress::Nwk(ShortAddress(v)),
                        Err(e) => {
                            return Err(e);
                        },
                    }
                } else if dest_mode == 3 {
                    match rd.read_u64() {
                        Ok(v) => DestinationAddress::Ieee(ExtendedAddress(v)),
                        Err(e) => {
                            return Err(e);
                        },
                    }
                } else {
                    return Err(Error { kind: ErrorKind::UnsupportedAddressMode(dest_mode) });
                };
                let destination_endpoint = match rd.read_u8() {
                    Ok(b) => Endpoint(b),
                    Err(e) => {
                        return Err(e);
                    },
                };
                let source_mode = match rd.read_u8() {
                    Ok(b) => b,
                    Err(e) => {
                        return Err(e);
                    },
                };
                if source_mode != 4 {
                    return Err(Error { kind: ErrorKind::UnsupportedAddressMode(source_mode) });
                }
                let short = match rd.read_u16() {
                    Ok(v) => ShortAddress(v),
                    Err(e) => {
                        return Err(e);
                    },
                };
                let extended = match rd.read_u64() {
                    Ok(v) => ExtendedAddress(v),
                    Err(e) => {
                        return Err(e);
                    },
                };
                let source_endpoint = match rd.read_u8() {
                    Ok(b) => Endpoint(b),
                    Err(e) => {
                        return Err(e);
                    },
                };
                let profile_id = match rd.read_u16() {
                    Ok(v) => ProfileId(v),
                    Err(e) => {
                        return Err(e);
                    },
                };
                let cluster_id = match rd.read_u16() {
                    Ok(v) => ClusterId(v),
                    Err(e) => {
                        return Err(e);
                    },
                };
                let asdu_len = match rd.read_u16() {
                    Ok(v) => v,
                    Err(e) => {
                        return Err(e);
                    },
                };
                let asdu = match rd.read_bytes(asdu_len as usize) {
                    Ok(v) => v,
                    Err(e) => {
                        return Err(e);
                    },
                };
                let aps_data_indication = ApsDataIndication {
                    destination_address,
                    destination_endpoint,
                    source_address: SourceAddress { short, extended },
                    source_endpoint,
                    profile_id,
                    cluster_id,
                    asdu,
                };
                Response::ApsDataIndication {
                    device_state: DeviceState::from_byte(ds),
                    aps_data_indication,
                }
            },
            CommandId::ApsDataRequest => {
                let _payload_len = match rd.read_u16() {
                    Ok(v) => v,
                    Err(e) => {
                        return Err(e);
                    },
                };
                let ds = match rd.read_u8() {
                    Ok(b) => b,
                    Err(e) => {
                        return Err(e);
                    },
                };
                let request_id = match rd.read_u8() {
                    Ok(b) => b,
                    Err(e) => {
                        return Err(e);
                    },
                };
                Response::ApsDataRequest { device_state: DeviceState::from_byte(ds), request_id }
            },
            CommandId::MacPoll => {
                let _payload_len = match rd.read_u16() {
                    Ok(v) => v,
                    Err(e) => {
                        return Err(e);
                    },
                };
                let _enum_byte = match rd.read_u8() {
                    Ok(b) => b,
                    Err(e) => {
                        return Err(e);
                    },
                };
                let address = match rd.read_u16() {
                    Ok(v) => v,
                    Err(e) => {
                        return Err(e);
                    },
                };
                Response::MacPoll { address }
            },
            CommandId::ApsDataConfirm => {
                let _payload_len = match rd.read_u16() {
                    Ok(v) => v,
                    Err(e) => {
                        return Err(e);
                    },
                };
                let ds = match rd.read_u8() {
                    Ok(b) => b,
                    Err(e) => {
                        return Err(e);
                    },
                };
                let request_id = match rd.read_u8() {
                    Ok(b) => b,
                    Err(e) => {
                        return Err(e);
                    },
                };
                let dest_mode = match rd.read_u8() {
                    Ok(b) => b,
                    Err(e) => {
                        return Err(e);
                    },
                };
                let destination = if dest_mode == 1 {
                    match rd.read_u16() {
                        Ok(v) => Destination::Group(ShortAddress(v)),
                        Err(e) => {
                            return Err(e);
                        },
                    }
                } else if dest_mode == 2 {
                    let addr = match rd.read_u16() {
                        Ok(v) => ShortAddress(v),
                        Err(e) => {
                            return Err(e);
                        },
                    };
                    let endpoint = match rd.read_u8() {
                        Ok(b) => Endpoint(b),
                        Err(e) => {
                            return Err(e);
                        },
                    };
                    Destination::Nwk(addr, endpoint)
                } else if dest_mode == 3 {
                    let addr = match rd.read_u64() {
                        Ok(v) => ExtendedAddress(v),
                        Err(e) => {
                            return Err(e);
                        },
                    };
                    let endpoint = match rd.read_u8() {
                        Ok(b) => Endpoint(b),
                        Err(e) => {
                            return Err(e);
                        },
                    };
                    Destination::Ieee(addr, endpoint)
                } else {
                    return Err(Error { kind: ErrorKind::UnsupportedAddressMode(dest_mode) });
                };
                let source_endpoint = match rd.read_u8() {
                    Ok(b) => Endpoint(b),
                    Err(e) => {
                        return Err(e);
                    },
                };
                let status = match rd.read_u8() {
                    Ok(b) => b,
                    Err(e) => {
                        return Err(e);
                    },
                };
                let aps_data_confirm = ApsDataConfirm { destination, source_endpoint, status };
                Response::ApsDataConfirm {
                    device_state: DeviceState::from_byte(ds),
                    request_id,
                    aps_data_confirm,
                }
            },
        };
        Ok((sequence_id, kind))
    }
}

} // verus!
