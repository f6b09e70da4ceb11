use deconz::slip::{check_and_remove_crc, crc16, encode_frame, SlipDecoder, SlipError, SlipStep};

fn decode_all(bytes: &[u8]) -> Vec<SlipStep> {
    let mut decoder = SlipDecoder::new();
    bytes.iter().map(|b| decoder.push_byte(*b)).collect()
}

fn last_step(bytes: &[u8]) -> SlipStep {
    decode_all(bytes).pop().expect("no bytes fed")
}

#[test]
fn crc16_of_empty_is_zero() {
    assert_eq!(crc16(&[]), 0);
}

#[test]
fn crc16_is_twos_complement_of_byte_sum() {
    // sum = 1 + 2 + 3 = 6; checksum = (~6 + 1) mod 2^16
    assert_eq!(crc16(&[1, 2, 3]), 0xFFFA);
    // sum of the version-request header bytes
    assert_eq!(crc16(&[0x0D, 0x00, 0x00, 0x05, 0x00]), 0xFFEE);
    // sum wraps modulo 2^16: 255 * 257 == 65535, so the checksum is 1
    let big = vec![0xFF; 257];
    assert_eq!(crc16(&big), 1);
}

#[test]
fn encode_wraps_payload_with_delimiters_and_checksum() {
    let framed = encode_frame(&[0x0D, 0x00, 0x00, 0x05, 0x00]);
    assert_eq!(framed, vec![0xC0, 0x0D, 0x00, 0x00, 0x05, 0x00, 0xEE, 0xFF, 0xC0]);
}

#[test]
fn encode_escapes_delimiter_and_escape_bytes() {
    // END (0xC0) becomes ESC ESC_END, ESC (0xDB) becomes ESC ESC_ESC; the
    // checksum bytes are written raw.
    let framed = encode_frame(&[0xC0, 0xDB, 0x01]);
    assert_eq!(framed, vec![0xC0, 0xDB, 0xDC, 0xDB, 0xDD, 0x01, 0x64, 0xFE, 0xC0]);
}

#[test]
fn decode_round_trips_plain_payload() {
    let payload = vec![0x0D, 0x00, 0x00, 0x05, 0x00];
    let framed = encode_frame(&payload);
    match last_step(&framed) {
        SlipStep::Frame(body) => assert_eq!(body, payload),
        _ => panic!("expected a completed frame"),
    }
}

#[test]
fn decode_round_trips_escaped_payload() {
    let payload = vec![0xC0, 0xDB, 0x01];
    let framed = encode_frame(&payload);
    match last_step(&framed) {
        SlipStep::Frame(body) => assert_eq!(body, payload),
        _ => panic!("expected a completed frame"),
    }
}

#[test]
fn decode_round_trips_empty_payload() {
    let framed = encode_frame(&[]);
    assert_eq!(framed, vec![0xC0, 0x00, 0x00, 0xC0]);
    match last_step(&framed) {
        SlipStep::Frame(body) => assert_eq!(body, Vec::<u8>::new()),
        _ => panic!("expected a completed frame"),
    }
}

#[test]
fn decoder_skips_leading_idle_delimiters() {
    let mut framed = vec![0xC0, 0xC0, 0xC0];
    framed.extend(encode_frame(&[0x07, 0x00]));
    match last_step(&framed) {
        SlipStep::Frame(body) => assert_eq!(body, vec![0x07, 0x00]),
        _ => panic!("expected a completed frame"),
    }
}

#[test]
fn corrupting_one_body_byte_yields_mismatched_crc() {
    let mut framed = encode_frame(&[0x0D, 0x00, 0x00, 0x05, 0x00]);
    framed[1] ^= 0x01;
    match last_step(&framed) {
        SlipStep::Failed(e) => assert_eq!(e, SlipError::MismatchedCrc),
        _ => panic!("expected a checksum failure"),
    }
}

#[test]
fn one_byte_frame_is_missing_its_crc() {
    match last_step(&[0xC0, 0x42, 0xC0]) {
        SlipStep::Failed(e) => assert_eq!(e, SlipError::MissingCrc),
        _ => panic!("expected a missing-checksum failure"),
    }
}

#[test]
fn undefined_escape_code_is_rejected() {
    match last_step(&[0xC0, 0x01, 0xDB, 0x42]) {
        SlipStep::Failed(e) => assert_eq!(e, SlipError::InvalidEscape),
        _ => panic!("expected an invalid-escape failure"),
    }
}

#[test]
fn decoder_recovers_after_a_failed_frame() {
    let mut bytes = vec![0xC0, 0x01, 0xDB, 0x42];
    bytes.extend(encode_frame(&[0x07, 0x00]));
    let steps = decode_all(&bytes);
    assert!(matches!(steps[3], SlipStep::Failed(SlipError::InvalidEscape)));
    match steps.last().unwrap() {
        SlipStep::Frame(body) => assert_eq!(*body, vec![0x07, 0x00]),
        _ => panic!("expected a completed frame after the failure"),
    }
}

#[test]
fn framed_response_survives_the_wire() {
    // A version response, wrapped by the framer, decoded byte by byte, and
    // parsed: the fields come back out.
    let response_frame = vec![0x0D, 0x00, 0x00, 0x08, 0x00, 0x07, 0x0A, 0x01];
    let framed = encode_frame(&response_frame);
    let body = match last_step(&framed) {
        SlipStep::Frame(body) => body,
        _ => panic!("expected a completed frame"),
    };
    let (sid, response) = deconz::protocol::Response::from_frame(body).unwrap();
    assert_eq!(sid, 0);
    match response {
        deconz::protocol::Response::Version { version, platform } => {
            assert_eq!(version.major, 1);
            assert_eq!(version.minor, 10);
            assert_eq!(platform, deconz::types::Platform::Arm);
        }
        other => panic!("unexpected response: {:?}", other),
    }
}

#[test]
fn check_and_remove_crc_strips_matching_checksum() {
    let body = check_and_remove_crc(vec![0x01, 0x02, 0x03, 0xFA, 0xFF]).unwrap();
    assert_eq!(body, vec![0x01, 0x02, 0x03]);
}

#[test]
fn check_and_remove_crc_rejects_short_and_mismatched_frames() {
    assert_eq!(check_and_remove_crc(vec![0x01]).unwrap_err(), SlipError::MissingCrc);
    assert_eq!(
        check_and_remove_crc(vec![0x01, 0x02, 0x03, 0xFA, 0xFE]).unwrap_err(),
        SlipError::MismatchedCrc
    );
}
