//! Data model of the driver: addresses, device state, and the
//! application-data records exchanged with the coordinator stick.

use vstd::prelude::*;

verus! {

/// 8-bit correlator for serial-layer request/response matching.
pub type SequenceId = u8;

/// A service endpoint on a mesh device.
#[derive(Clone, Copy, Debug, PartialEq, Eq, Structural, PartialOrd, Ord)]
pub struct Endpoint(pub u8);

/// An application profile identifier.
#[derive(Clone, Copy, Debug, PartialEq, Eq, Structural, PartialOrd, Ord)]
pub struct ProfileId(pub u16);

/// A cluster identifier within a profile.
#[derive(Clone, Copy, Debug, PartialEq, Eq, Structural, PartialOrd, Ord)]
pub struct ClusterId(pub u16);

/// A 16-bit network address.
#[derive(Clone, Copy, Debug, PartialEq, Eq, Structural)]
pub struct ShortAddress(pub u16);

/// A 64-bit hardware address.
#[derive(Clone, Copy, Debug, PartialEq, Eq, Structural)]
pub struct ExtendedAddress(pub u64);

/// The microcontroller family the stick reports in a version response.
#[derive(Clone, Copy, Debug, PartialEq, Eq, Structural)]
pub enum Platform {
    Avr,
    Arm,
    Unknown(u8),
}

/// The platform encoded by a version-response byte.
pub open spec fn platform_of(byte: u8) -> Platform {
    if byte == 0x05 {
        Platform::Avr
    } else if byte == 0x07 {
        Platform::Arm
    } else {
        Platform::Unknown(byte)
    }
}

impl Platform {
    /// Decode the platform byte of a version response.
    pub fn from_byte(byte: u8) -> (r: Platform)
        ensures
            r == platform_of(byte),
    {
        if byte == 0x05 {
            Platform::Avr
        } else if byte == 0x07 {
            Platform::Arm
        } else {
            Platform::Unknown(byte)
        }
    }
}

/// The firmware version the stick reports.
#[derive(Clone, Copy, Debug, PartialEq, Eq, Structural, PartialOrd, Ord)]
pub struct Version {
    pub major: u8,
    pub minor: u8,
}

/// The stick's mesh-network membership.
#[derive(Clone, Copy, Debug, PartialEq, Eq, Structural)]
pub enum NetworkState {
    Offline,
    Joining,
    Connected,
    Leaving,
}

/// The network state encoded by the low two bits of a device-state byte.
pub open spec fn network_state_of(bits: u8) -> NetworkState {
    if bits == 0 {
        NetworkState::Offline
    } else if bits == 1 {
        NetworkState::Joining
    } else if bits == 2 {
        NetworkState::Connected
    } else {
        NetworkState::Leaving
    }
}

/// A snapshot of what the stick is currently willing to do, decoded from a
/// single bitfield byte.
#[derive(Clone, Copy, Debug, PartialEq, Eq, Structural)]
pub struct DeviceState {
    pub network_state: NetworkState,
    pub data_confirm: bool,
    pub data_indication: bool,
    pub data_request_free_slots: bool,
    pub configuration_changed: bool,
}

/// The device state encoded by one bitfield byte: network state in the low
/// two bits, then one flag bit each for a fetchable confirmation (bit 2), a
/// fetchable indication (bit 3), a configuration change (bit 4), and a free
/// data-request slot (bit 5).
pub open spec fn device_state_of(byte: u8) -> DeviceState {
    DeviceState {
        network_state: network_state_of(byte & 0b11),
        data_confirm: byte & 0b100 != 0,
        data_indication: byte & 0b1000 != 0,
        data_request_free_slots: byte & 0b100000 != 0,
        configuration_changed: byte & 0b10000 != 0,
    }
}

impl DeviceState {
    /// Decode a device-state bitfield byte.
    pub fn from_byte(byte: u8) -> (r: DeviceState)
        ensures
            r == device_state_of(byte),
    {
        let bits = byte & 0b11;
        assert(bits < 4) by (bit_vector)
            requires
                bits == byte & 0b11,
        ;
        let network_state = if bits == 0 {
            NetworkState::Offline
        } else if bits == 1 {
            NetworkState::Joining
        } else if bits == 2 {
            NetworkState::Connected
        } else {
            NetworkState::Leaving
        };
        DeviceState {
            network_state,
            data_confirm: byte & 0b100 != 0,
            data_indication: byte & 0b1000 != 0,
            data_request_free_slots: byte & 0b100000 != 0,
            configuration_changed: byte & 0b10000 != 0,
        }
    }
}

impl Default for DeviceState {
    /// The state assumed before the stick has reported anything: offline,
    /// with nothing to fetch and no free request slot.
    fn default() -> (r: DeviceState)
        ensures
            r == (DeviceState {
                network_state: NetworkState::Offline,
                data_confirm: false,
                data_indication: false,
                data_request_free_slots: false,
                configuration_changed: false,
            }),
    {
        DeviceState {
            network_state: NetworkState::Offline,
            data_confirm: false,
            data_indication: false,
            data_request_free_slots: false,
            configuration_changed: false,
        }
    }
}

/// The destination carried by an inbound indication.
#[derive(Clone, Copy, Debug, PartialEq, Eq, Structural)]
pub enum DestinationAddress {
    Group(ShortAddress),
    Nwk(ShortAddress),
    Ieee(ExtendedAddress),
}

/// The source carried by an inbound indication: the sender's short and
/// extended addresses together.
#[derive(Clone, Copy, Debug, PartialEq, Eq, Structural)]
pub struct SourceAddress {
    pub short: ShortAddress,
    pub extended: ExtendedAddress,
}

/// An inbound application message fetched from the stick.
#[derive(Clone, Debug)]
pub struct ApsDataIndication {
    pub destination_address: DestinationAddress,
    pub destination_endpoint: Endpoint,
    pub source_address: SourceAddress,
    pub source_endpoint: Endpoint,
    pub profile_id: ProfileId,
    pub cluster_id: ClusterId,
    pub asdu: Vec<u8>,
}

/// Where an outbound data request is addressed.
#[derive(Clone, Copy, Debug, PartialEq, Eq, Structural)]
pub enum Destination {
    Group(ShortAddress),
    Nwk(ShortAddress, Endpoint),
    Ieee(ExtendedAddress, Endpoint),
}

/// An outbound application message to be sent by the stick.
#[derive(Clone, Debug)]
pub struct ApsDataRequest {
    pub destination: Destination,
    pub profile_id: ProfileId,
    pub cluster_id: ClusterId,
    pub source_endpoint: Endpoint,
    pub asdu: Vec<u8>,
}

/// The stick's local acknowledgement of an outbound data request.
#[derive(Clone, Copy, Debug, PartialEq, Eq, Structural)]
pub struct ApsDataConfirm {
    pub destination: Destination,
    pub source_endpoint: Endpoint,
    pub status: u8,
}

} // verus!
