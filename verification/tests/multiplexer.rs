use deconz::mux::{CommandAction, SerialMux};
use deconz::protocol::{Request, Response};
use deconz::types::NetworkState;
use deconz::ErrorKind;

fn emit(action: CommandAction<u32>) -> (u8, Vec<u8>) {
    match action {
        CommandAction::Emit { sequence_id, frame } => (sequence_id, frame),
        CommandAction::Reject { .. } => panic!("submission was rejected"),
    }
}

fn version_response_frame(sequence_id: u8) -> Vec<u8> {
    vec![0x0D, sequence_id, 0x00, 0x08, 0x00, 0x07, 0x0A, 0x01]
}

fn device_state_response_frame(sequence_id: u8, bits: u8) -> Vec<u8> {
    vec![0x07, sequence_id, 0x00, 0x06, 0x00, bits]
}

#[test]
fn sequence_ids_step_by_five_and_wrap() {
    let mut mux: SerialMux<u32> = SerialMux::new();
    assert_eq!(mux.next_sequence_id(), 0);
    assert_eq!(mux.next_sequence_id(), 5);
    assert_eq!(mux.next_sequence_id(), 10);
    for _ in 3..52 {
        mux.next_sequence_id();
    }
    assert_eq!(mux.next_sequence_id(), 4); // 52 * 5 mod 256
}

#[test]
fn submissions_are_encoded_and_registered_in_order() {
    let mut mux: SerialMux<u32> = SerialMux::new();
    let (sid1, frame1) = emit(mux.process_command(Request::DeviceState, 100));
    let (sid2, frame2) = emit(mux.process_command(Request::Version, 200));
    assert_eq!(sid1, 0);
    assert_eq!(sid2, 5);
    assert_eq!(frame1, vec![0x07, 0x00, 0x00, 0x05, 0x00]);
    assert_eq!(frame2, vec![0x0D, 0x05, 0x00, 0x05, 0x00]);
}

#[test]
fn responses_in_reversed_order_reach_the_matching_callers() {
    let mut mux: SerialMux<u32> = SerialMux::new();
    let (sid1, _) = emit(mux.process_command(Request::DeviceState, 100));
    let (sid2, _) = emit(mux.process_command(Request::Version, 200));

    // The adapter answers the second request first.
    let d2 = mux.handle_frame(version_response_frame(sid2));
    let (slot2, result2) = d2.deliver.expect("second response should be routed");
    assert_eq!(slot2, 200);
    assert!(matches!(result2, Ok(Response::Version { .. })));

    let d1 = mux.handle_frame(device_state_response_frame(sid1, 0x22));
    let (slot1, result1) = d1.deliver.expect("first response should be routed");
    assert_eq!(slot1, 100);
    assert!(matches!(result1, Ok(Response::DeviceState(_))));
}

#[test]
fn unsolicited_notification_is_broadcast_and_routed_to_nobody() {
    let mut mux: SerialMux<u32> = SerialMux::new();
    let (_, _) = emit(mux.process_command(Request::Version, 1));
    let d = mux.handle_frame(vec![0x0E, 0x63, 0x00, 0x06, 0x00, 0x22]);
    let state = d.broadcast.expect("the carried device state is broadcast");
    assert_eq!(state.network_state, NetworkState::Connected);
    assert!(state.data_request_free_slots);
    assert!(d.deliver.is_none());
    assert!(d.dropped.is_none());
}

#[test]
fn response_with_no_waiter_is_dropped_as_unsolicited() {
    let mut mux: SerialMux<u32> = SerialMux::new();
    let d = mux.handle_frame(version_response_frame(0x2A));
    assert!(d.deliver.is_none());
    let dropped = d.dropped.expect("an unsolicited response is noted");
    assert!(matches!(dropped.kind, ErrorKind::UnsolicitedResponse(0x2A)));
}

#[test]
fn parse_error_is_routed_to_the_waiter_of_its_sequence_byte() {
    let mut mux: SerialMux<u32> = SerialMux::new();
    let (sid, _) = emit(mux.process_command(Request::Version, 9));
    // A frame for that sequence id with an unknown command byte.
    let d = mux.handle_frame(vec![0xFF, sid, 0x00, 0x05, 0x00]);
    assert!(d.broadcast.is_none());
    let (slot, result) = d.deliver.expect("the parse error reaches the waiter");
    assert_eq!(slot, 9);
    match result {
        Err(e) => assert!(matches!(e.kind, ErrorKind::UnsupportedCommand(0xFF))),
        Ok(r) => panic!("unexpected response: {:?}", r),
    }
}

#[test]
fn parse_error_with_no_sequence_byte_is_only_noted() {
    let mut mux: SerialMux<u32> = SerialMux::new();
    let d = mux.handle_frame(vec![0x0D]);
    assert!(d.broadcast.is_none());
    assert!(d.deliver.is_none());
    assert!(matches!(d.dropped.expect("noted").kind, ErrorKind::Truncated));
}

#[test]
fn timed_out_waiter_is_removed_and_late_response_is_unsolicited() {
    let mut mux: SerialMux<u32> = SerialMux::new();
    let (sid, _) = emit(mux.process_command(Request::Version, 400));
    assert_eq!(mux.remove_waiter(sid), Some(400));
    // The entry is gone: removing again yields nothing.
    assert_eq!(mux.remove_waiter(sid), None);
    // A late response for that id is treated as unsolicited.
    let d = mux.handle_frame(version_response_frame(sid));
    assert!(d.deliver.is_none());
    assert!(matches!(
        d.dropped.expect("late response noted").kind,
        ErrorKind::UnsolicitedResponse(s) if s == sid
    ));
}

#[test]
fn colliding_sequence_id_rejects_the_new_submission() {
    let mut mux: SerialMux<u32> = SerialMux::new();
    // Leave the first submission in flight and walk the counter through a
    // whole wrap: 256 allocations later the same id comes up again.
    let (sid, _) = emit(mux.process_command(Request::Version, 1));
    assert_eq!(sid, 0);
    for i in 1..256u32 {
        match mux.process_command(Request::Version, i + 1) {
            CommandAction::Emit { sequence_id, .. } => {
                let _ = mux.handle_frame(version_response_frame(sequence_id));
            }
            CommandAction::Reject { .. } => panic!("no collision expected yet"),
        }
    }
    match mux.process_command(Request::Version, 999) {
        CommandAction::Reject { slot, error } => {
            assert_eq!(slot, 999);
            assert!(matches!(error.kind, ErrorKind::DuplicateSequenceId(0)));
        }
        CommandAction::Emit { .. } => panic!("expected a duplicate sequence id"),
    }
}
