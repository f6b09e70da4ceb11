use deconz::parameters::{Parameter, ParameterId};
use deconz::protocol::{CommandId, Request, Response};
use deconz::types::{
    ApsDataRequest, ClusterId, Destination, DestinationAddress, DeviceState, Endpoint,
    ExtendedAddress, NetworkState, Platform, ProfileId, ShortAddress, Version,
};
use deconz::wire::WireReader;
use deconz::{Error, ErrorKind};

fn s3_data_request() -> ApsDataRequest {
    ApsDataRequest {
        destination: Destination::Nwk(ShortAddress(0x0159), Endpoint(1)),
        profile_id: ProfileId(0x0104),
        cluster_id: ClusterId(0x0006),
        source_endpoint: Endpoint(1),
        asdu: vec![0x01, 0x00, 0x00],
    }
}

#[test]
fn command_ids_match_the_documented_bytes() {
    assert_eq!(CommandId::Version.to_byte(), 0x0D);
    assert_eq!(CommandId::ReadParameter.to_byte(), 0x0A);
    assert_eq!(CommandId::WriteParameter.to_byte(), 0x0B);
    assert_eq!(CommandId::DeviceState.to_byte(), 0x07);
    assert_eq!(CommandId::DeviceStateChanged.to_byte(), 0x0E);
    assert_eq!(CommandId::ApsDataConfirm.to_byte(), 0x04);
    assert_eq!(CommandId::ApsDataRequest.to_byte(), 0x12);
    assert_eq!(CommandId::ApsDataIndication.to_byte(), 0x17);
    assert_eq!(CommandId::MacPoll.to_byte(), 0x1C);
    assert!(CommandId::Version.solicited());
    assert!(!CommandId::DeviceStateChanged.solicited());
    assert!(matches!(CommandId::from_byte(0x0D), Ok(CommandId::Version)));
    assert!(matches!(
        CommandId::from_byte(0xFF),
        Err(Error { kind: ErrorKind::UnsupportedCommand(0xFF) })
    ));
}

#[test]
fn version_request_encodes_to_a_bare_header() {
    let frame = Request::Version.into_frame(0).unwrap();
    assert_eq!(frame, vec![0x0D, 0x00, 0x00, 0x05, 0x00]);
}

#[test]
fn device_state_request_encodes_to_a_bare_header() {
    let frame = Request::DeviceState.into_frame(5).unwrap();
    assert_eq!(frame, vec![0x07, 0x05, 0x00, 0x05, 0x00]);
}

#[test]
fn indication_poll_encodes_with_its_flag_byte() {
    let frame = Request::ApsDataIndication.into_frame(10).unwrap();
    assert_eq!(frame, vec![0x17, 0x0A, 0x00, 0x08, 0x00, 0x01, 0x00, 0x04]);
}

#[test]
fn confirm_poll_encodes_with_an_empty_counted_payload() {
    let frame = Request::ApsDataConfirm.into_frame(15).unwrap();
    assert_eq!(frame, vec![0x04, 0x0F, 0x00, 0x07, 0x00, 0x00, 0x00]);
}

#[test]
fn read_parameter_request_encodes_the_parameter_id() {
    let frame = Request::ReadParameter { parameter_id: ParameterId::NwkPanId }
        .into_frame(0)
        .unwrap();
    assert_eq!(frame, vec![0x0A, 0x00, 0x00, 0x08, 0x00, 0x01, 0x00, 0x05]);
}

#[test]
fn write_parameter_request_encodes_id_and_value() {
    let frame = Request::WriteParameter { parameter: Parameter::NwkPanId(0x1234) }
        .into_frame(0)
        .unwrap();
    assert_eq!(frame, vec![0x0B, 0x00, 0x00, 0x0A, 0x00, 0x03, 0x00, 0x05, 0x34, 0x12]);
}

#[test]
fn data_request_encodes_every_field_at_its_offset() {
    let frame = Request::ApsDataRequest(0, s3_data_request()).into_frame(0).unwrap();
    assert_eq!(
        frame,
        vec![
            0x12, 0x00, 0x00, 0x19, 0x00, // header, frame length 25
            0x12, 0x00, // payload length 18
            0x00, // request id
            0x00, // flags
            0x02, 0x59, 0x01, 0x01, // destination: short 0x0159, endpoint 1
            0x04, 0x01, // profile 0x0104
            0x06, 0x00, // cluster 0x0006
            0x01, // source endpoint
            0x03, 0x00, // asdu length
            0x01, 0x00, 0x00, // asdu
            0x04, // tx options: aps acks
            0x00, // radius: unlimited
        ]
    );
}

#[test]
fn oversized_asdu_is_detected_before_encoding() {
    let mut request = s3_data_request();
    assert!(Request::ApsDataRequest(0, request.clone()).fits_frame());
    request.asdu = vec![0; 0x10000];
    assert!(!Request::ApsDataRequest(0, request).fits_frame());
}

#[test]
fn version_response_parses_platform_and_version() {
    // platform 0x07 (arm), minor 0x0A, major 0x01
    let frame = vec![0x0D, 0x00, 0x00, 0x08, 0x00, 0x07, 0x0A, 0x01];
    let (sid, response) = Response::from_frame(frame).unwrap();
    assert_eq!(sid, 0);
    match response {
        Response::Version { version, platform } => {
            assert_eq!(version, Version { major: 1, minor: 10 });
            assert_eq!(platform, Platform::Arm);
        }
        other => panic!("unexpected response: {:?}", other),
    }
}

#[test]
fn device_state_response_decodes_the_bitfield() {
    let frame = vec![0x07, 0x00, 0x00, 0x06, 0x00, 0b0010_1110];
    let (_, response) = Response::from_frame(frame).unwrap();
    match response {
        Response::DeviceState(state) => {
            assert_eq!(state.network_state, NetworkState::Connected);
            assert!(state.data_confirm);
            assert!(state.data_indication);
            assert!(!state.configuration_changed);
            assert!(state.data_request_free_slots);
        }
        other => panic!("unexpected response: {:?}", other),
    }
}

#[test]
fn device_state_changed_response_is_unsolicited() {
    let frame = vec![0x0E, 0x22, 0x00, 0x06, 0x00, 0x22];
    let (sid, response) = Response::from_frame(frame).unwrap();
    assert_eq!(sid, 0x22);
    assert!(!response.solicited());
    let state = response.device_state().unwrap();
    assert_eq!(state.network_state, NetworkState::Connected);
    assert!(state.data_request_free_slots);
}

#[test]
fn data_request_ack_parses_state_and_request_id() {
    let frame = vec![0x12, 0x00, 0x00, 0x09, 0x00, 0x02, 0x00, 0x02, 0x07];
    let (_, response) = Response::from_frame(frame).unwrap();
    match response {
        Response::ApsDataRequest { device_state, request_id } => {
            assert!(!device_state.data_request_free_slots);
            assert_eq!(request_id, 7);
        }
        other => panic!("unexpected response: {:?}", other),
    }
}

#[test]
fn confirm_response_parses_destination_and_status() {
    let frame = vec![
        0x04, 0x05, 0x00, 0x0F, 0x00, 0x08, 0x00, 0x04, 0x00, 0x02, 0x59, 0x01, 0x01, 0x01, 0x00,
    ];
    let (sid, response) = Response::from_frame(frame).unwrap();
    assert_eq!(sid, 5);
    match response {
        Response::ApsDataConfirm { request_id, aps_data_confirm, .. } => {
            assert_eq!(request_id, 0);
            assert_eq!(
                aps_data_confirm.destination,
                Destination::Nwk(ShortAddress(0x0159), Endpoint(1))
            );
            assert_eq!(aps_data_confirm.source_endpoint, Endpoint(1));
            assert_eq!(aps_data_confirm.status, 0);
        }
        other => panic!("unexpected response: {:?}", other),
    }
}

#[test]
fn indication_response_parses_every_field() {
    let frame = vec![
        0x17, 0x0A, 0x00, 0x21, 0x00, // header
        0x1A, 0x00, // payload length
        0x2E, // device state
        0x02, 0x59, 0x01, // destination: short 0x0159
        0x01, // destination endpoint
        0x04, // source mode: short + extended
        0x34, 0x12, // source short 0x1234
        0x88, 0x77, 0x66, 0x55, 0x44, 0x33, 0x22, 0x11, // source extended
        0x02, // source endpoint
        0x04, 0x01, // profile
        0x06, 0x00, // cluster
        0x03, 0x00, // asdu length
        0x01, 0x02, 0x03, // asdu
    ];
    let (sid, response) = Response::from_frame(frame).unwrap();
    assert_eq!(sid, 0x0A);
    match response {
        Response::ApsDataIndication { device_state, aps_data_indication } => {
            assert!(device_state.data_indication);
            assert_eq!(
                aps_data_indication.destination_address,
                DestinationAddress::Nwk(ShortAddress(0x0159))
            );
            assert_eq!(aps_data_indication.destination_endpoint, Endpoint(1));
            assert_eq!(aps_data_indication.source_address.short, ShortAddress(0x1234));
            assert_eq!(
                aps_data_indication.source_address.extended,
                ExtendedAddress(0x1122_3344_5566_7788)
            );
            assert_eq!(aps_data_indication.source_endpoint, Endpoint(2));
            assert_eq!(aps_data_indication.profile_id, ProfileId(0x0104));
            assert_eq!(aps_data_indication.cluster_id, ClusterId(0x0006));
            assert_eq!(aps_data_indication.asdu, vec![0x01, 0x02, 0x03]);
        }
        other => panic!("unexpected response: {:?}", other),
    }
}

#[test]
fn mac_poll_response_parses_the_address() {
    let frame = vec![0x1C, 0x00, 0x00, 0x0A, 0x00, 0x03, 0x00, 0x00, 0x34, 0x12];
    let (_, response) = Response::from_frame(frame).unwrap();
    match response {
        Response::MacPoll { address } => assert_eq!(address, 0x1234),
        other => panic!("unexpected response: {:?}", other),
    }
}

#[test]
fn parameter_response_parses_the_value() {
    let frame = vec![0x0A, 0x00, 0x00, 0x0A, 0x00, 0x03, 0x00, 0x05, 0xAB, 0xCD];
    let (_, response) = Response::from_frame(frame).unwrap();
    match response {
        Response::Parameter(p) => assert_eq!(p, Parameter::NwkPanId(0xCDAB)),
        other => panic!("unexpected response: {:?}", other),
    }
}

#[test]
fn write_parameter_response_parses_the_id() {
    let frame = vec![0x0B, 0x00, 0x00, 0x08, 0x00, 0x02, 0x00, 0x05];
    let (_, response) = Response::from_frame(frame).unwrap();
    match response {
        Response::WriteParameter(id) => assert_eq!(id, ParameterId::NwkPanId),
        other => panic!("unexpected response: {:?}", other),
    }
}

#[test]
fn unknown_command_byte_is_rejected() {
    let err = Response::from_frame(vec![0xFF, 0x00, 0x00, 0x05, 0x00]).unwrap_err();
    assert!(matches!(err.kind, ErrorKind::UnsupportedCommand(0xFF)));
}

#[test]
fn unknown_parameter_byte_is_rejected() {
    let err = Response::from_frame(vec![0x0A, 0x00, 0x00, 0x08, 0x00, 0x02, 0x00, 0xFF])
        .unwrap_err();
    assert!(matches!(err.kind, ErrorKind::UnsupportedParameter(0xFF)));
}

#[test]
fn short_parameter_value_is_an_invalid_parameter() {
    let err = Response::from_frame(vec![0x0A, 0x00, 0x00, 0x0A, 0x00, 0x03, 0x00, 0x01, 0xAB])
        .unwrap_err();
    match err.kind {
        ErrorKind::InvalidParameter { parameter_id, inner } => {
            assert_eq!(parameter_id, ParameterId::MacAddress);
            assert!(matches!(inner.kind, ErrorKind::Truncated));
        }
        other => panic!("unexpected error: {:?}", other),
    }
}

#[test]
fn truncated_frames_are_rejected() {
    assert!(matches!(
        Response::from_frame(vec![]).unwrap_err().kind,
        ErrorKind::Truncated
    ));
    assert!(matches!(
        Response::from_frame(vec![0x0D, 0x00, 0x00]).unwrap_err().kind,
        ErrorKind::Truncated
    ));
    assert!(matches!(
        Response::from_frame(vec![0x07, 0x00, 0x00, 0x05, 0x00]).unwrap_err().kind,
        ErrorKind::Truncated
    ));
}

#[test]
fn unknown_destination_mode_is_rejected() {
    let err = Response::from_frame(vec![0x17, 0x00, 0x00, 0x09, 0x00, 0x02, 0x00, 0x2E, 0x07])
        .unwrap_err();
    assert!(matches!(err.kind, ErrorKind::UnsupportedAddressMode(0x07)));
}

#[test]
fn unknown_source_mode_is_rejected() {
    let frame = vec![
        0x17, 0x00, 0x00, 0x0D, 0x00, 0x06, 0x00, 0x2E, 0x02, 0x59, 0x01, 0x01, 0x05,
    ];
    let err = Response::from_frame(frame).unwrap_err();
    assert!(matches!(err.kind, ErrorKind::UnsupportedAddressMode(0x05)));
}

#[test]
fn unknown_confirm_destination_mode_is_rejected() {
    let frame = vec![0x04, 0x00, 0x00, 0x0A, 0x00, 0x03, 0x00, 0x04, 0x00, 0x09];
    let err = Response::from_frame(frame).unwrap_err();
    assert!(matches!(err.kind, ErrorKind::UnsupportedAddressMode(0x09)));
}

#[test]
fn parameters_round_trip_through_the_wire_form() {
    let cases = vec![
        Parameter::MacAddress(0x0011_2233_4455_6677),
        Parameter::NwkPanId(0x1234),
        Parameter::ApsDesignatedCoordinator(1),
        Parameter::ChannelMask(0xDEAD_BEEF),
        Parameter::ProtocolVersion(0x010E),
        Parameter::WatchdogTtl(600),
    ];
    for parameter in cases {
        let mut bytes = Vec::new();
        parameter.write_wire(&mut bytes);
        assert_eq!(bytes.len(), parameter.wire_len() as usize);
        let mut reader = WireReader::new(&bytes);
        let read_back = parameter.id().read_parameter(&mut reader).unwrap();
        assert_eq!(read_back, parameter);
    }
}

#[test]
fn parameter_table_lists_the_documented_ids() {
    let ids = deconz::parameters::parameters();
    assert_eq!(ids.len(), 14);
    assert_eq!(ids[0], ParameterId::MacAddress);
    assert_eq!(ids[0].to_byte(), 0x01);
    assert_eq!(ids[13], ParameterId::WatchdogTtl);
    assert_eq!(ids[13].to_byte(), 0x26);
    for id in ids {
        assert!(matches!(ParameterId::from_byte(id.to_byte()), Ok(back) if back == id));
    }
    assert!(matches!(
        ParameterId::from_byte(0x42),
        Err(Error { kind: ErrorKind::UnsupportedParameter(0x42) })
    ));
}

#[test]
fn device_state_default_is_idle_and_offline() {
    let state = DeviceState::default();
    assert_eq!(state.network_state, NetworkState::Offline);
    assert!(!state.data_confirm);
    assert!(!state.data_indication);
    assert!(!state.data_request_free_slots);
    assert!(!state.configuration_changed);
}
