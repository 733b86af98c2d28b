use fingerprint::codec::{
    build_command, checksum, checksum_matches, decode, parse_ack, AckCode, DecodeError, Frame,
    FRAME_END, FRAME_START,
};
use fingerprint::device::{
    delete_all_request, delete_user_request, enroll_request, join_user_id, permission_request,
    permission_result, split_user_id, status_result, user_count_request, user_count_result,
    verify_1_1_request, verify_1n_request, verify_1n_result, CountOutcome, EnrollStep,
    MatchOutcome, PermissionOutcome,
};
use fingerprint::enroll::{Enrollment, StepOutcome};

fn reply(cmd: u8, b2: u8, b3: u8, b4: u8) -> Vec<u8> {
    vec![0xF5, cmd, b2, b3, b4, cmd ^ b2 ^ b3 ^ b4, 0x00, 0xF5]
}

#[test]
fn sentinels_are_f5() {
    assert_eq!(FRAME_START, 0xF5);
    assert_eq!(FRAME_END, 0xF5);
}

#[test]
fn checksum_xors_bytes_one_to_five() {
    let p = [0xF5u8, 0x01, 0x02, 0x04, 0x08, 0x10, 0xAA, 0xF5];
    assert_eq!(checksum(&p), 0x1F);
}

#[test]
fn build_command_layout() {
    let f = build_command(0x01, 0x0A, 0xBC, 0x03);
    assert_eq!(f, vec![0xF5, 0x01, 0x0A, 0xBC, 0x03, 0x01 ^ 0x0A ^ 0xBC ^ 0x03, 0x00, 0xF5]);
    assert_eq!(f.len(), 8);
}

#[test]
fn encoded_frames_are_consistent() {
    for cmd in [0x00u8, 0x01, 0x0C, 0x7F, 0xFF] {
        for p in [0x00u8, 0x05, 0xA5, 0xFF] {
            let f = build_command(cmd, p, p ^ 0x3C, 0xFF - p);
            assert_eq!(f.len(), 8);
            assert_eq!(f[0], 0xF5);
            assert_eq!(f[7], 0xF5);
            assert_eq!(f[6], 0x00);
            assert_eq!(f[5], f[1] ^ f[2] ^ f[3] ^ f[4]);
            assert!(checksum_matches(&f));
            let d = decode(&f).unwrap();
            assert_eq!(d.command, cmd);
            assert_eq!(d.param1, p);
            assert_eq!(d.param2, p ^ 0x3C);
            assert_eq!(d.param3, 0xFF - p);
        }
    }
}

#[test]
fn decode_splits_fields() {
    let d = decode(&[0xF5, 0x09, 0x01, 0x02, 0x03, 0x77, 0x00, 0xF5]);
    assert_eq!(
        d,
        Ok(Frame { command: 0x09, param1: 0x01, param2: 0x02, param3: 0x03, checksum: 0x77 })
    );
}

#[test]
fn decode_does_not_check_checksum() {
    let bad = [0xF5u8, 0x0C, 0x00, 0x2A, 0x00, 0x99, 0x00, 0xF5];
    assert!(decode(&bad).is_ok());
    assert_eq!(parse_ack(&bad), Ok(AckCode::Success));
    assert!(!checksum_matches(&bad));
}

#[test]
fn malformed_frames_are_rejected() {
    let short = [0xF5u8, 0x0C, 0x00, 0x2A, 0x00, 0xF5];
    assert_eq!(parse_ack(&short), Err(DecodeError::MalformedFrame));
    assert_eq!(decode(&short), Err(DecodeError::MalformedFrame));
    assert_eq!(verify_1n_result(&short), Err(DecodeError::MalformedFrame));
    let long = [0xF5u8, 0x0C, 0x00, 0x2A, 0x00, 0x26, 0x00, 0xF5, 0x00];
    assert_eq!(parse_ack(&long), Err(DecodeError::MalformedFrame));
    let bad_start = [0xF4u8, 0x0C, 0x00, 0x2A, 0x00, 0x26, 0x00, 0xF5];
    assert_eq!(parse_ack(&bad_start), Err(DecodeError::MalformedFrame));
    let bad_end = [0xF5u8, 0x0C, 0x00, 0x2A, 0x00, 0x26, 0x00, 0x00];
    assert_eq!(parse_ack(&bad_end), Err(DecodeError::MalformedFrame));
    assert_eq!(parse_ack(&[]), Err(DecodeError::MalformedFrame));
    assert!(!checksum_matches(&short));
}

#[test]
fn ack_codes_map_to_names() {
    let table = [
        (0x00u8, AckCode::Success),
        (0x01, AckCode::Fail),
        (0x04, AckCode::DatabaseFull),
        (0x05, AckCode::NoUser),
        (0x06, AckCode::UserIdOccupied),
        (0x07, AckCode::FingerprintOccupied),
        (0x08, AckCode::Timeout),
    ];
    for (b, a) in table {
        assert_eq!(parse_ack(&reply(0x0B, 0, 0, b)), Ok(a));
        assert_eq!(AckCode::from_byte(b), a);
    }
}

#[test]
fn unknown_ack_keeps_its_value() {
    for b in [0x02u8, 0x03, 0x09, 0x42, 0xFF] {
        assert_eq!(parse_ack(&reply(0x0B, 0, 0, b)), Ok(AckCode::Unknown(b)));
    }
}

#[test]
fn user_id_round_trip() {
    assert_eq!(split_user_id(0x0ABC), (0x0A, 0xBC));
    assert_eq!(join_user_id(0x0A, 0xBC), 0x0ABC);
    assert_eq!(split_user_id(0x0000), (0x00, 0x00));
    assert_eq!(split_user_id(0xFFFF), (0xFF, 0xFF));
    assert_eq!(join_user_id(0xFF, 0xFF), 0xFFFF);
    for u in [0u16, 1, 255, 256, 4095, 0x8001, 0xFFFF] {
        let (h, l) = split_user_id(u);
        assert_eq!(join_user_id(h, l), u);
    }
}

#[test]
fn request_frames() {
    assert_eq!(verify_1n_request(), vec![0xF5, 0x0C, 0, 0, 0, 0x0C, 0, 0xF5]);
    assert_eq!(verify_1_1_request(0x0ABC), build_command(0x0B, 0x0A, 0xBC, 0));
    assert_eq!(delete_user_request(0x0123), vec![0xF5, 0x04, 0x01, 0x23, 0, 0x04 ^ 0x01 ^ 0x23, 0, 0xF5]);
    assert_eq!(delete_all_request(), vec![0xF5, 0x05, 0, 0, 0, 0x05, 0, 0xF5]);
    assert_eq!(user_count_request(), vec![0xF5, 0x09, 0, 0, 0, 0x09, 0, 0xF5]);
    assert_eq!(permission_request(7), build_command(0x0A, 0x00, 0x07, 0));
    assert_eq!(enroll_request(EnrollStep::First, 0x0ABC, 2), build_command(0x01, 0x0A, 0xBC, 2));
    assert_eq!(enroll_request(EnrollStep::Second, 0x0ABC, 2), build_command(0x02, 0x0A, 0xBC, 2));
    assert_eq!(enroll_request(EnrollStep::Third, 0x0ABC, 2), build_command(0x03, 0x0A, 0xBC, 2));
}

#[test]
fn verify_1n_match() {
    let resp = [0xF5u8, 0x0C, 0x00, 0x2A, 0x00, 0x0C ^ 0x2A, 0x00, 0xF5];
    assert_eq!(
        verify_1n_result(&resp),
        Ok(MatchOutcome::Matched { user_id: 0x002A, permission: 0x00 })
    );
}

#[test]
fn verify_1n_match_carries_permission_byte() {
    assert_eq!(
        verify_1n_result(&reply(0x0C, 0x0A, 0xBC, 0x03)),
        Ok(MatchOutcome::Matched { user_id: 0x0ABC, permission: 0x03 })
    );
}

#[test]
fn verify_1n_no_user_is_no_match() {
    assert_eq!(verify_1n_result(&reply(0x0C, 0, 0, 0x05)), Ok(MatchOutcome::NoMatch));
}

#[test]
fn verify_1n_timeout_is_no_finger() {
    assert_eq!(verify_1n_result(&reply(0x0C, 0, 0, 0x08)), Ok(MatchOutcome::NoFinger));
}

#[test]
fn user_count_success() {
    assert_eq!(user_count_result(&reply(0x09, 0x00, 0x0A, 0x00)), Ok(CountOutcome::Count(10)));
    assert_eq!(user_count_result(&reply(0x09, 0x01, 0x00, 0x00)), Ok(CountOutcome::Count(256)));
}

#[test]
fn user_count_failure_reports_status() {
    assert_eq!(
        user_count_result(&reply(0x09, 0x00, 0x0A, 0x01)),
        Ok(CountOutcome::Status(AckCode::Fail))
    );
    assert_eq!(
        user_count_result(&reply(0x09, 0x00, 0x00, 0x33)),
        Ok(CountOutcome::Status(AckCode::Unknown(0x33)))
    );
}

#[test]
fn permission_query() {
    assert_eq!(permission_result(&reply(0x0A, 0, 7, 0x02)), Ok(PermissionOutcome::Level(2)));
    assert_eq!(
        permission_result(&reply(0x0A, 0, 7, 0x05)),
        Ok(PermissionOutcome::Status(AckCode::NoUser))
    );
    assert_eq!(permission_result(&[0xF5, 0x0A]), Err(DecodeError::MalformedFrame));
}

#[test]
fn status_replies() {
    assert_eq!(status_result(&reply(0x04, 0, 0, 0x00)), Ok(AckCode::Success));
    assert_eq!(status_result(&reply(0x05, 0, 0, 0x01)), Ok(AckCode::Fail));
    assert_eq!(status_result(&reply(0x01, 0, 0, 0x06)), Ok(AckCode::UserIdOccupied));
    assert_eq!(status_result(&[0x00; 8]), Err(DecodeError::MalformedFrame));
}

#[test]
fn enrollment_continues_after_failed_step() {
    let mut e = Enrollment::new(0x0ABC, 1);
    assert_eq!(e.next_step(), Some(EnrollStep::First));
    assert_eq!(e.next_request(), Some(build_command(0x01, 0x0A, 0xBC, 1)));
    e.record_reply(&reply(0x01, 0, 0, 0x00));
    assert_eq!(e.next_request(), Some(build_command(0x02, 0x0A, 0xBC, 1)));
    e.record_reply(&reply(0x02, 0, 0, 0x01));
    assert!(!e.is_done());
    assert_eq!(e.next_step(), Some(EnrollStep::Third));
    assert_eq!(e.next_request(), Some(build_command(0x03, 0x0A, 0xBC, 1)));
    e.record_reply(&reply(0x03, 0, 0, 0x07));
    assert!(e.is_done());
    assert_eq!(e.next_request(), None);
    assert_eq!(
        e.outcomes(),
        vec![
            StepOutcome::Ack(AckCode::Success),
            StepOutcome::Ack(AckCode::Fail),
            StepOutcome::Ack(AckCode::FingerprintOccupied),
        ]
    );
}

#[test]
fn enrollment_records_transport_and_framing_failures() {
    let mut e = Enrollment::new(3, 2);
    e.record_transport_failure();
    e.record_reply(&[0xF5, 0x02, 0x00]);
    e.record(StepOutcome::Ack(AckCode::Success));
    e.record(StepOutcome::Ack(AckCode::Fail));
    assert!(e.is_done());
    assert_eq!(e.user_id(), 3);
    assert_eq!(e.permission(), 2);
    assert_eq!(
        e.outcomes(),
        vec![
            StepOutcome::TransportFailure,
            StepOutcome::Malformed,
            StepOutcome::Ack(AckCode::Success),
        ]
    );
}
