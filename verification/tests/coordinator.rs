use deconz::aps::{
    data_confirm_response, data_indication_response, data_request_response, device_state_response,
    version_response, Aps,
};
use deconz::protocol::{Request, Response};
use deconz::types::{
    ApsDataRequest, ClusterId, Destination, DeviceState, Endpoint, Platform, ProfileId,
    ShortAddress, Version,
};
use deconz::ErrorKind;

fn request_to(short: u16, endpoint: u8) -> ApsDataRequest {
    ApsDataRequest {
        destination: Destination::Nwk(ShortAddress(short), Endpoint(endpoint)),
        profile_id: ProfileId(0x0104),
        cluster_id: ClusterId(0x0006),
        source_endpoint: Endpoint(1),
        asdu: vec![0x01, 0x00, 0x00],
    }
}

#[test]
fn submissions_wait_until_the_stick_reports_a_free_slot() {
    let mut aps: Aps<u32> = Aps::new();
    // Two submissions are queued while no slot is free: neither may be
    // dispatched.
    assert!(!aps.can_accept());
    let polls = aps.handle_device_state(DeviceState::from_byte(0x00));
    assert!(!polls.poll_indication && !polls.poll_confirm);
    assert!(!aps.can_accept());

    // A free-slot broadcast lets exactly one through.
    aps.handle_device_state(DeviceState::from_byte(0b10_0000));
    assert!(aps.can_accept());
    let (rid, _) = aps.begin_data_request(request_to(0x0159, 1), 100);
    assert_eq!(rid, 0);
    assert!(!aps.can_accept());

    // The second waits for the next free-slot broadcast.
    aps.handle_device_state(DeviceState::from_byte(0b10_0000));
    assert!(aps.can_accept());
    let (rid2, _) = aps.begin_data_request(request_to(0x0159, 1), 200);
    assert_eq!(rid2, 1);
    assert!(!aps.can_accept());
}

#[test]
fn device_state_flags_request_the_matching_polls() {
    let mut aps: Aps<u32> = Aps::new();
    let polls = aps.handle_device_state(DeviceState::from_byte(0b0000_1100));
    assert!(polls.poll_indication);
    assert!(polls.poll_confirm);
    let polls = aps.handle_device_state(DeviceState::from_byte(0b0000_0100));
    assert!(!polls.poll_indication);
    assert!(polls.poll_confirm);
}

#[test]
fn confirmations_are_routed_by_request_id_in_any_order() {
    let mut aps: Aps<u32> = Aps::new();
    aps.handle_device_state(DeviceState::from_byte(0b10_0000));
    let (rid1, _) = aps.begin_data_request(request_to(1, 1), 100);
    aps.handle_device_state(DeviceState::from_byte(0b10_0000));
    let (rid2, _) = aps.begin_data_request(request_to(2, 1), 200);

    // The second confirmation arrives first; each reaches its submitter.
    assert_eq!(aps.route_confirm(rid2), Some(200));
    assert_eq!(aps.route_confirm(rid1), Some(100));
}

#[test]
fn confirmation_with_no_waiter_is_unsolicited() {
    let mut aps: Aps<u32> = Aps::new();
    assert_eq!(aps.route_confirm(99), None);
}

#[test]
fn failed_submission_hands_its_slot_back() {
    let mut aps: Aps<u32> = Aps::new();
    aps.handle_device_state(DeviceState::from_byte(0b10_0000));
    let (rid, _) = aps.begin_data_request(request_to(1, 1), 77);
    assert_eq!(aps.submission_failed(rid), Some(77));
    // The waiter is gone; a late confirmation for it finds nobody.
    assert_eq!(aps.route_confirm(rid), None);
    // The slot stays blocked until the next broadcast.
    assert!(!aps.can_accept());
}

#[test]
fn data_request_happy_path_resolves_the_submitter() {
    // A device state with a free slot arrives; a caller submits a data
    // request; the stick acknowledges it; a later device state announces a
    // confirmation, which is polled and routed back to the caller.
    let mut aps: Aps<u32> = Aps::new();
    let polls = aps.handle_device_state(DeviceState::from_byte(0b10_0000));
    assert!(!polls.poll_confirm);
    assert!(aps.can_accept());

    let (rid, request) = aps.begin_data_request(request_to(0x0159, 1), 42);
    assert_eq!(rid, 0);
    assert!(matches!(request, Request::ApsDataRequest(0, _)));

    // The serial layer answers with a data-request acknowledgement whose
    // device state reports no free slot.
    let ack = vec![0x12, 0x00, 0x00, 0x09, 0x00, 0x02, 0x00, 0x02, 0x00];
    let (_, ack_response) = Response::from_frame(ack).unwrap();
    let state = ack_response.device_state().unwrap();
    assert!(data_request_response(ack_response).is_ok());
    aps.handle_device_state(state);
    assert!(!aps.can_accept());

    // A later device state announces a fetchable confirmation.
    let polls = aps.handle_device_state(DeviceState::from_byte(0b0000_0100));
    assert!(polls.poll_confirm);

    // The confirm poll returns request id 0 with a success status.
    let confirm_frame = vec![
        0x04, 0x05, 0x00, 0x0F, 0x00, 0x08, 0x00, 0x04, 0x00, 0x02, 0x59, 0x01, 0x01, 0x01, 0x00,
    ];
    let (_, confirm) = Response::from_frame(confirm_frame).unwrap();
    let (confirm_rid, confirm_value) = data_confirm_response(confirm).unwrap();
    assert_eq!(confirm_rid, 0);
    assert_eq!(confirm_value.status, 0x00);
    assert_eq!(aps.route_confirm(confirm_rid), Some(42));
}

#[test]
fn facade_checks_accept_the_matching_kind() {
    let version = Response::Version {
        version: Version { major: 1, minor: 10 },
        platform: Platform::Arm,
    };
    assert_eq!(
        version_response(version).unwrap(),
        (Version { major: 1, minor: 10 }, Platform::Arm)
    );

    let state = Response::DeviceState(DeviceState::from_byte(0x22));
    let decoded = device_state_response(state).unwrap();
    assert!(decoded.data_request_free_slots);
}

#[test]
fn facade_checks_reject_the_wrong_kind() {
    let state = Response::DeviceState(DeviceState::from_byte(0x22));
    let err = version_response(state).unwrap_err();
    assert!(matches!(
        err.kind,
        ErrorKind::UnexpectedResponse(deconz::CommandId::DeviceState)
    ));

    let version = Response::Version {
        version: Version { major: 1, minor: 10 },
        platform: Platform::Avr,
    };
    let err = device_state_response(version).unwrap_err();
    assert!(matches!(
        err.kind,
        ErrorKind::UnexpectedResponse(deconz::CommandId::Version)
    ));

    let indication_err = data_indication_response(Response::MacPoll { address: 1 }).unwrap_err();
    assert!(matches!(
        indication_err.kind,
        ErrorKind::UnexpectedResponse(deconz::CommandId::MacPoll)
    ));

    let confirm_err = data_confirm_response(Response::MacPoll { address: 1 }).unwrap_err();
    assert!(matches!(
        confirm_err.kind,
        ErrorKind::UnexpectedResponse(deconz::CommandId::MacPoll)
    ));

    let request_err = data_request_response(Response::MacPoll { address: 1 }).unwrap_err();
    assert!(matches!(
        request_err.kind,
        ErrorKind::UnexpectedResponse(deconz::CommandId::MacPoll)
    ));
}

#[test]
fn indication_poll_result_is_extracted() {
    let frame = vec![
        0x17, 0x0A, 0x00, 0x21, 0x00, 0x1A, 0x00, 0x2E, 0x02, 0x59, 0x01, 0x01, 0x04, 0x34, 0x12,
        0x88, 0x77, 0x66, 0x55, 0x44, 0x33, 0x22, 0x11, 0x02, 0x04, 0x01, 0x06, 0x00, 0x03, 0x00,
        0x01, 0x02, 0x03,
    ];
    let (_, response) = Response::from_frame(frame).unwrap();
    let indication = data_indication_response(response).unwrap();
    assert_eq!(indication.asdu, vec![0x01, 0x02, 0x03]);
    assert_eq!(indication.profile_id, ProfileId(0x0104));
}
