//! Network parameters readable and writable over the serial protocol.
//!
//! Each parameter has a one-byte identifier and a fixed-width little-endian
//! value.

use vstd::prelude::*;

use crate::errors::{Error, ErrorKind};
use crate::wire::{
    u16_le_bytes, u16_of_le, u32_le_bytes, u32_of_le, u64_le_bytes, u64_of_le, ReadWireExt,
    WireReader, WriteWireExt,
};

verus! {

/// Identifier of a network parameter.
#[derive(Clone, Copy, Debug, PartialEq, Eq, Structural)]
pub enum ParameterId {
    MacAddress,
    NwkPanId,
    NwkAddress,
    NwkExtendedPanId,
    ApsDesignatedCoordinator,
    ChannelMask,
    ApsExtendedPanId,
    TrustCenterAddress,
    SecurityMode,
    NetworkKey,
    CurrentChannel,
    ProtocolVersion,
    NwkUpdateId,
    WatchdogTtl,
}

/// A network parameter together with its value.
#[derive(Clone, Copy, Debug, PartialEq, Eq, Structural)]
pub enum Parameter {
    MacAddress(u64),
    NwkPanId(u16),
    NwkAddress(u16),
    NwkExtendedPanId(u64),
    ApsDesignatedCoordinator(u8),
    ChannelMask(u32),
    ApsExtendedPanId(u64),
    TrustCenterAddress(u64),
    SecurityMode(u8),
    NetworkKey(u8),
    CurrentChannel(u8),
    ProtocolVersion(u16),
    NwkUpdateId(u8),
    WatchdogTtl(u32),
}

/// The wire byte that names each parameter.
pub open spec fn parameter_id_byte(id: ParameterId) -> u8 {
    match id {
        ParameterId::MacAddress => 0x01,
        ParameterId::NwkPanId => 0x05,
        ParameterId::NwkAddress => 0x07,
        ParameterId::NwkExtendedPanId => 0x08,
        ParameterId::ApsDesignatedCoordinator => 0x09,
        ParameterId::ChannelMask => 0x0A,
        ParameterId::ApsExtendedPanId => 0x0B,
        ParameterId::TrustCenterAddress => 0x0E,
        ParameterId::SecurityMode => 0x10,
        ParameterId::NetworkKey => 0x18,
        ParameterId::CurrentChannel => 0x1C,
        ParameterId::ProtocolVersion => 0x22,
        ParameterId::NwkUpdateId => 0x24,
        ParameterId::WatchdogTtl => 0x26,
    }
}

/// The parameter named by a wire byte, if any.
pub open spec fn parameter_id_of(byte: u8) -> Option<ParameterId> {
    if byte == 0x01 {
        Some(ParameterId::MacAddress)
    } else if byte == 0x05 {
        Some(ParameterId::NwkPanId)
    } else if byte == 0x07 {
        Some(ParameterId::NwkAddress)
    } else if byte == 0x08 {
        Some(ParameterId::NwkExtendedPanId)
    } else if byte == 0x09 {
        Some(ParameterId::ApsDesignatedCoordinator)
    } else if byte == 0x0A {
        Some(ParameterId::ChannelMask)
    } else if byte == 0x0B {
        Some(ParameterId::ApsExtendedPanId)
    } else if byte == 0x0E {
        Some(ParameterId::TrustCenterAddress)
    } else if byte == 0x10 {
        Some(ParameterId::SecurityMode)
    } else if byte == 0x18 {
        Some(ParameterId::NetworkKey)
    } else if byte == 0x1C {
        Some(ParameterId::CurrentChannel)
    } else if byte == 0x22 {
        Some(ParameterId::ProtocolVersion)
    } else if byte == 0x24 {
        Some(ParameterId::NwkUpdateId)
    } else if byte == 0x26 {
        Some(ParameterId::WatchdogTtl)
    } else {
        None
    }
}

/// The width in bytes of each parameter's value.
pub open spec fn parameter_len(id: ParameterId) -> int {
    match id {
        ParameterId::MacAddress => 8,
        ParameterId::NwkPanId => 2,
        ParameterId::NwkAddress => 2,
        ParameterId::NwkExtendedPanId => 8,
        ParameterId::ApsDesignatedCoordinator => 1,
        ParameterId::ChannelMask => 4,
        ParameterId::ApsExtendedPanId => 8,
        ParameterId::TrustCenterAddress => 8,
        ParameterId::SecurityMode => 1,
        ParameterId::NetworkKey => 1,
        ParameterId::CurrentChannel => 1,
        ParameterId::ProtocolVersion => 2,
        ParameterId::NwkUpdateId => 1,
        ParameterId::WatchdogTtl => 4,
    }
}

/// The identifier of a parameter value.
pub open spec fn parameter_id(p: Parameter) -> ParameterId {
    match p {
        Parameter::MacAddress(_) => ParameterId::MacAddress,
        Parameter::NwkPanId(_) => ParameterId::NwkPanId,
        Parameter::NwkAddress(_) => ParameterId::NwkAddress,
        Parameter::NwkExtendedPanId(_) => ParameterId::NwkExtendedPanId,
        Parameter::ApsDesignatedCoordinator(_) => ParameterId::ApsDesignatedCoordinator,
        Parameter::ChannelMask(_) => ParameterId::ChannelMask,
        Parameter::ApsExtendedPanId(_) => ParameterId::ApsExtendedPanId,
        Parameter::TrustCenterAddress(_) => ParameterId::TrustCenterAddress,
        Parameter::SecurityMode(_) => ParameterId::SecurityMode,
        Parameter::NetworkKey(_) => ParameterId::NetworkKey,
        Parameter::CurrentChannel(_) => ParameterId::CurrentChannel,
        Parameter::ProtocolVersion(_) => ParameterId::ProtocolVersion,
        Parameter::NwkUpdateId(_) => ParameterId::NwkUpdateId,
        Parameter::WatchdogTtl(_) => ParameterId::WatchdogTtl,
    }
}

/// The little-endian bytes of a parameter's value.
pub open spec fn parameter_bytes(p: Parameter) -> Seq<u8> {
    match p {
        Parameter::MacAddress(v) => u64_le_bytes(v),
        Parameter::NwkPanId(v) => u16_le_bytes(v),
        Parameter::NwkAddress(v) => u16_le_bytes(v),
        Parameter::NwkExtendedPanId(v) => u64_le_bytes(v),
        Parameter::ApsDesignatedCoordinator(v) => seq![v],
        Parameter::ChannelMask(v) => u32_le_bytes(v),
        Parameter::ApsExtendedPanId(v) => u64_le_bytes(v),
        Parameter::TrustCenterAddress(v) => u64_le_bytes(v),
        Parameter::SecurityMode(v) => seq![v],
        Parameter::NetworkKey(v) => seq![v],
        Parameter::CurrentChannel(v) => seq![v],
        Parameter::ProtocolVersion(v) => u16_le_bytes(v),
        Parameter::NwkUpdateId(v) => seq![v],
        Parameter::WatchdogTtl(v) => u32_le_bytes(v),
    }
}

/// The parameter with identifier `id` whose value bytes are `bytes`.
pub open spec fn parameter_decoded(id: ParameterId, bytes: Seq<u8>) -> Parameter {
    match id {
        ParameterId::MacAddress => Parameter::MacAddress(
            u64_of_le(
                bytes[0],
                bytes[1],
                bytes[2],
                bytes[3],
                bytes[4],
                bytes[5],
                bytes[6],
                bytes[7],
            ),
        ),
        ParameterId::NwkPanId => Parameter::NwkPanId(u16_of_le(bytes[0], bytes[1])),
        ParameterId::NwkAddress => Parameter::NwkAddress(u16_of_le(bytes[0], bytes[1])),
        ParameterId::NwkExtendedPanId => Parameter::NwkExtendedPanId(
            u64_of_le(
                bytes[0],
                bytes[1],
                bytes[2],
                bytes[3],
                bytes[4],
                bytes[5],
                bytes[6],
                bytes[7],
            ),
        ),
        ParameterId::ApsDesignatedCoordinator => Parameter::ApsDesignatedCoordinator(bytes[0]),
        ParameterId::ChannelMask => Parameter::ChannelMask(
            u32_of_le(bytes[0], bytes[1], bytes[2], bytes[3]),
        ),
        ParameterId::ApsExtendedPanId => Parameter::ApsExtendedPanId(
            u64_of_le(
                bytes[0],
                bytes[1],
                bytes[2],
                bytes[3],
                bytes[4],
                bytes[5],
                bytes[6],
                bytes[7],
            ),
        ),
        ParameterId::TrustCenterAddress => Parameter::TrustCenterAddress(
            u64_of_le(
                bytes[0],
                bytes[1],
                bytes[2],
                bytes[3],
                bytes[4],
                bytes[5],
                bytes[6],
                bytes[7],
            ),
        ),
        ParameterId::SecurityMode => Parameter::SecurityMode(bytes[0]),
        ParameterId::NetworkKey => Parameter::NetworkKey(bytes[0]),
        ParameterId::CurrentChannel => Parameter::CurrentChannel(bytes[0]),
        ParameterId::ProtocolVersion => Parameter::ProtocolVersion(u16_of_le(bytes[0], bytes[1])),
        ParameterId::NwkUpdateId => Parameter::NwkUpdateId(bytes[0]),
        ParameterId::WatchdogTtl => Parameter::WatchdogTtl(
            u32_of_le(bytes[0], bytes[1], bytes[2], bytes[3]),
        ),
    }
}

/// Decoding the bytes a parameter writes yields the parameter back.
pub proof fn lemma_parameter_round_trip(p: Parameter)
    ensures
        parameter_bytes(p).len() == parameter_len(parameter_id(p)),
        parameter_decoded(parameter_id(p), parameter_bytes(p)) == p,
{
    match p {
        Parameter::MacAddress(v) => crate::wire::lemma_u64_le_round_trip(v),
        Parameter::NwkPanId(v) => crate::wire::lemma_u16_le_round_trip(v),
        Parameter::NwkAddress(v) => crate::wire::lemma_u16_le_round_trip(v),
        Parameter::NwkExtendedPanId(v) => crate::wire::lemma_u64_le_round_trip(v),
        Parameter::ApsDesignatedCoordinator(_) => {},
        Parameter::ChannelMask(v) => crate::wire::lemma_u32_le_round_trip(v),
        Parameter::ApsExtendedPanId(v) => crate::wire::lemma_u64_le_round_trip(v),
        Parameter::TrustCenterAddress(v) => crate::wire::lemma_u64_le_round_trip(v),
        Parameter::SecurityMode(_) => {},
        Parameter::NetworkKey(_) => {},
        Parameter::CurrentChannel(_) => {},
        Parameter::ProtocolVersion(v) => crate::wire::lemma_u16_le_round_trip(v),
        Parameter::NwkUpdateId(_) => {},
        Parameter::WatchdogTtl(v) => crate::wire::lemma_u32_le_round_trip(v),
    }
}

/// Every parameter the stick knows, in wire-identifier order.
pub fn parameters() -> (r: Vec<ParameterId>)
    ensures
        r@ == seq![
            ParameterId::MacAddress,
            ParameterId::NwkPanId,
            ParameterId::NwkAddress,
            ParameterId::NwkExtendedPanId,
            ParameterId::ApsDesignatedCoordinator,
            ParameterId::ChannelMask,
            ParameterId::ApsExtendedPanId,
            ParameterId::TrustCenterAddress,
            ParameterId::SecurityMode,
            ParameterId::NetworkKey,
            ParameterId::CurrentChannel,
            ParameterId::ProtocolVersion,
            ParameterId::NwkUpdateId,
            ParameterId::WatchdogTtl,
        ],
{
    let r = vec![
        ParameterId::MacAddress,
        ParameterId::NwkPanId,
        ParameterId::NwkAddress,
        ParameterId::NwkExtendedPanId,
        ParameterId::ApsDesignatedCoordinator,
        ParameterId::ChannelMask,
        ParameterId::ApsExtendedPanId,
        ParameterId::TrustCenterAddress,
        ParameterId::SecurityMode,
        ParameterId::NetworkKey,
        ParameterId::CurrentChannel,
        ParameterId::ProtocolVersion,
        ParameterId::NwkUpdateId,
        ParameterId::WatchdogTtl,
    ];
    assert(r@ =~= seq![
        ParameterId::MacAddress,
        ParameterId::NwkPanId,
        ParameterId::NwkAddress,
        ParameterId::NwkExtendedPanId,
        ParameterId::ApsDesignatedCoordinator,
        ParameterId::ChannelMask,
        ParameterId::ApsExtendedPanId,
        ParameterId::TrustCenterAddress,
        ParameterId::SecurityMode,
        ParameterId::NetworkKey,
        ParameterId::CurrentChannel,
        ParameterId::ProtocolVersion,
        ParameterId::NwkUpdateId,
        ParameterId::WatchdogTtl,
    ]);
    r
}

impl ParameterId {
    /// Decode a parameter-identifier byte; an unknown byte is rejected.
    pub fn from_byte(byte: u8) -> (r: Result<ParameterId, Error>)
        ensures
            match r {
                Ok(id) => parameter_id_of(byte) == Some(id),
                Err(e) => {
                    &&& parameter_id_of(byte) is None
                    &&& e.kind matches ErrorKind::UnsupportedParameter(b) && b == byte
                },
            },
    {
        if byte == 0x01 {
            Ok(ParameterId::MacAddress)
        } else if byte == 0x05 {
            Ok(ParameterId::NwkPanId)
        } else if byte == 0x07 {
            Ok(ParameterId::NwkAddress)
        } else if byte == 0x08 {
            Ok(ParameterId::NwkExtendedPanId)
        } else if byte == 0x09 {
            Ok(ParameterId::ApsDesignatedCoordinator)
        } else if byte == 0x0A {
            Ok(ParameterId::ChannelMask)
        } else if byte == 0x0B {
            Ok(ParameterId::ApsExtendedPanId)
        } else if byte == 0x0E {
            Ok(ParameterId::TrustCenterAddress)
        } else if byte == 0x10 {
            Ok(ParameterId::SecurityMode)
        } else if byte == 0x18 {
            Ok(ParameterId::NetworkKey)
        } else if byte == 0x1C {
            Ok(ParameterId::CurrentChannel)
        } else if byte == 0x22 {
            Ok(ParameterId::ProtocolVersion)
        } else if byte == 0x24 {
            Ok(ParameterId::NwkUpdateId)
        } else if byte == 0x26 {
            Ok(ParameterId::WatchdogTtl)
        } else {
            Err(Error { kind: ErrorKind::UnsupportedParameter(byte) })
        }
    }

    /// The wire byte that names this parameter.
    pub fn to_byte(self) -> (r: u8)
        ensures
            r == parameter_id_byte(self),
    {
        match self {
            ParameterId::MacAddress => 0x01,
            ParameterId::NwkPanId => 0x05,
            ParameterId::NwkAddress => 0x07,
            ParameterId::NwkExtendedPanId => 0x08,
            ParameterId::ApsDesignatedCoordinator => 0x09,
            ParameterId::ChannelMask => 0x0A,
            ParameterId::ApsExtendedPanId => 0x0B,
            ParameterId::TrustCenterAddress => 0x0E,
            ParameterId::SecurityMode => 0x10,
            ParameterId::NetworkKey => 0x18,
            ParameterId::CurrentChannel => 0x1C,
            ParameterId::ProtocolVersion => 0x22,
            ParameterId::NwkUpdateId => 0x24,
            ParameterId::WatchdogTtl => 0x26,
        }
    }

    /// Read this parameter's value from the frame. A short frame is reported
    /// as an invalid parameter carrying the underlying read error.
    pub fn read_parameter(self, rd: &mut WireReader<'_>) -> (r: Result<Parameter, Error>)
        requires
            old(rd).wf(),
        ensures
            final(rd).wf(),
            final(rd).data() == old(rd).data(),
            match r {
                Ok(p) => {
                    &&& old(rd).pos() + parameter_len(self) <= old(rd).data().len()
                    &&& p == parameter_decoded(
                        self,
                        old(rd).data().subrange(
                            old(rd).pos(),
                            old(rd).pos() + parameter_len(self),
                        ),
                    )
                    &&& final(rd).pos() == old(rd).pos() + parameter_len(self)
                },
                Err(e) => {
                    &&& old(rd).pos() + parameter_len(self) > old(rd).data().len()
                    &&& final(rd).pos() == old(rd).pos()
                    &&& e.kind matches ErrorKind::InvalidParameter { parameter_id, inner }
                        && parameter_id == self && inner.kind is Truncated
                },
            },
    {
        match self {
            ParameterId::MacAddress => match rd.read_wire() {
                Ok(v) => Ok(Parameter::MacAddress(v)),
                Err(e) => Err(invalid_parameter(self, e)),
            },
            ParameterId::NwkPanId => match rd.read_wire() {
                Ok(v) => Ok(Parameter::NwkPanId(v)),
                Err(e) => Err(invalid_parameter(self, e)),
            },
            ParameterId::NwkAddress => match rd.read_wire() {
                Ok(v) => Ok(Parameter::NwkAddress(v)),
                Err(e) => Err(invalid_parameter(self, e)),
            },
            ParameterId::NwkExtendedPanId => match rd.read_wire() {
                Ok(v) => Ok(Parameter::NwkExtendedPanId(v)),
                Err(e) => Err(invalid_parameter(self, e)),
            },
            ParameterId::ApsDesignatedCoordinator => match rd.read_wire() {
                Ok(v) => Ok(Parameter::ApsDesignatedCoordinator(v)),
                Err(e) => Err(invalid_parameter(self, e)),
            },
            ParameterId::ChannelMask => match rd.read_wire() {
                Ok(v) => Ok(Parameter::ChannelMask(v)),
                Err(e) => Err(invalid_parameter(self, e)),
            },
            ParameterId::ApsExtendedPanId => match rd.read_wire() {
                Ok(v) => Ok(Parameter::ApsExtendedPanId(v)),
                Err(e) => Err(invalid_parameter(self, e)),
            },
            ParameterId::TrustCenterAddress => match rd.read_wire() {
                Ok(v) => Ok(Parameter::TrustCenterAddress(v)),
                Err(e) => Err(invalid_parameter(self, e)),
            },
            ParameterId::SecurityMode => match rd.read_wire() {
                Ok(v) => Ok(Parameter::SecurityMode(v)),
                Err(e) => Err(invalid_parameter(self, e)),
            },
            ParameterId::NetworkKey => match rd.read_wire() {
                Ok(v) => Ok(Parameter::NetworkKey(v)),
                Err(e) => Err(invalid_parameter(self, e)),
            },
            ParameterId::CurrentChannel => match rd.read_wire() {
                Ok(v) => Ok(Parameter::CurrentChannel(v)),
                Err(e) => Err(invalid_parameter(self, e)),
            },
            ParameterId::ProtocolVersion => match rd.read_wire() {
                Ok(v) => Ok(Parameter::ProtocolVersion(v)),
                Err(e) => Err(invalid_parameter(self, e)),
            },
            ParameterId::NwkUpdateId => match rd.read_wire() {
                Ok(v) => Ok(Parameter::NwkUpdateId(v)),
                Err(e) => Err(invalid_parameter(self, e)),
            },
            ParameterId::WatchdogTtl => match rd.read_wire() {
                Ok(v) => Ok(Parameter::WatchdogTtl(v)),
                Err(e) => Err(invalid_parameter(self, e)),
            },
        }
    }
}

/// Wrap a failed value read in the invalid-parameter error that names the
/// parameter being read.
fn invalid_parameter(id: ParameterId, inner: Error) -> (r: Error)
    ensures
        r.kind matches ErrorKind::InvalidParameter { parameter_id, inner: boxed }
            && parameter_id == id && boxed.kind == inner.kind,
{
    Error { kind: ErrorKind::InvalidParameter { parameter_id: id, inner: Box::new(inner) } }
}

impl Parameter {
    /// The identifier of this parameter.
    pub fn id(&self) -> (r: ParameterId)
        ensures
            r == parameter_id(*self),
    {
        match self {
            Parameter::MacAddress(_) => ParameterId::MacAddress,
            Parameter::NwkPanId(_) => ParameterId::NwkPanId,
            Parameter::NwkAddress(_) => ParameterId::NwkAddress,
            Parameter::NwkExtendedPanId(_) => ParameterId::NwkExtendedPanId,
            Parameter::ApsDesignatedCoordinator(_) => ParameterId::ApsDesignatedCoordinator,
            Parameter::ChannelMask(_) => ParameterId::ChannelMask,
            Parameter::ApsExtendedPanId(_) => ParameterId::ApsExtendedPanId,
            Parameter::TrustCenterAddress(_) => ParameterId::TrustCenterAddress,
            Parameter::SecurityMode(_) => ParameterId::SecurityMode,
            Parameter::NetworkKey(_) => ParameterId::NetworkKey,
            Parameter::CurrentChannel(_) => ParameterId::CurrentChannel,
            Parameter::ProtocolVersion(_) => ParameterId::ProtocolVersion,
            Parameter::NwkUpdateId(_) => ParameterId::NwkUpdateId,
            Parameter::WatchdogTtl(_) => ParameterId::WatchdogTtl,
        }
    }

    /// The width in bytes of this parameter's value on the wire.
    pub fn wire_len(&self) -> (r: u16)
        ensures
            r == parameter_len(parameter_id(*self)),
    {
        match self {
            Parameter::MacAddress(_) => 8,
            Parameter::NwkPanId(_) => 2,
            Parameter::NwkAddress(_) => 2,
            Parameter::NwkExtendedPanId(_) => 8,
            Parameter::ApsDesignatedCoordinator(_) => 1,
            Parameter::ChannelMask(_) => 4,
            Parameter::ApsExtendedPanId(_) => 8,
            Parameter::TrustCenterAddress(_) => 8,
            Parameter::SecurityMode(_) => 1,
            Parameter::NetworkKey(_) => 1,
            Parameter::CurrentChannel(_) => 1,
            Parameter::ProtocolVersion(_) => 2,
            Parameter::NwkUpdateId(_) => 1,
            Parameter::WatchdogTtl(_) => 4,
        }
    }

    /// Append this parameter's value bytes to a frame under construction.
    pub fn write_wire(self, out: &mut Vec<u8>)
        ensures
            final(out)@ == old(out)@ + parameter_bytes(self),
    {
        match self {
            Parameter::MacAddress(v) => out.write_wire(v),
            Parameter::NwkPanId(v) => out.write_wire(v),
            Parameter::NwkAddress(v) => out.write_wire(v),
            Parameter::NwkExtendedPanId(v) => out.write_wire(v),
            Parameter::ApsDesignatedCoordinator(v) => {
                out.push(v);
                assert(out@ =~= old(out)@ + seq![v]);
            },
            Parameter::ChannelMask(v) => out.write_wire(v),
            Parameter::ApsExtendedPanId(v) => out.write_wire(v),
            Parameter::TrustCenterAddress(v) => out.write_wire(v),
            Parameter::SecurityMode(v) => {
                out.push(v);
                assert(out@ =~= old(out)@ + seq![v]);
            },
            Parameter::NetworkKey(v) => {
                out.push(v);
                assert(out@ =~= old(out)@ + seq![v]);
            },
            Parameter::CurrentChannel(v) => {
                out.push(v);
                assert(out@ =~= old(out)@ + seq![v]);
            },
            Parameter::ProtocolVersion(v) => out.write_wire(v),
            Parameter::NwkUpdateId(v) => {
                out.push(v);
                assert(out@ =~= old(out)@ + seq![v]);
            },
            Parameter::WatchdogTtl(v) => out.write_wire(v),
        }
    }
}

} // verus!
