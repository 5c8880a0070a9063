use zkteco::attendance::{decode_attendance, Attendance};
use zkteco::consts::{CMD_ACK_OK, CMD_DATA, CMD_PREPARE_DATA, FRAGMENT_SIZE, MAX_CHUNK};
use zkteco::error::ZKError;
use zkteco::finger::Finger;
use zkteco::frame::{create_checksum, parse_response, reply_answers, Response};
use zkteco::session::Session;
use zkteco::time::{decode_time, encode_time, DeviceTime};
use zkteco::transfer::{Action, BufferedRead, Stage};
use zkteco::user::User;

fn reply(status: u16, payload: &[u8]) -> Vec<u8> {
    let mut r = Vec::new();
    r.extend_from_slice(&status.to_le_bytes());
    r.extend_from_slice(&[0, 0, 0, 0, 0, 0]);
    r.extend_from_slice(payload);
    r
}

fn fixture_user() -> User {
    User::new(
        1,
        "JohnDoe123".to_string(),
        0,
        "1234".to_string(),
        "7".to_string(),
        42,
        0x1234,
    )
}

fn user_with(uid: u16, user_id: u32) -> User {
    User::new(uid, String::new(), 0, String::new(), "0".to_string(), user_id, 0)
}

fn attendance_payload(packed: u32) -> Vec<u8> {
    let mut data = vec![8, 0, 0, 0];
    data.extend_from_slice(&[5, 0, 1]);
    data.extend_from_slice(&packed.to_le_bytes());
    data.push(0);
    data
}

#[test]
fn time_codec_round_trip() {
    let t = DeviceTime { year: 2024, month: 5, day: 17, hour: 13, minute: 45, second: 30 };
    let packed = encode_time(&t);
    assert_eq!(packed, 783524730);
    assert_eq!(decode_time(packed), t);
}

#[test]
fn time_codec_epoch_and_top() {
    let epoch = DeviceTime { year: 2000, month: 1, day: 1, hour: 0, minute: 0, second: 0 };
    assert_eq!(decode_time(0), epoch);
    let top = decode_time(u32::MAX);
    assert_eq!(encode_time(&top), u32::MAX);
}

#[test]
fn checksum_values() {
    assert_eq!(create_checksum(&[]), 0xFFFF);
    assert_eq!(create_checksum(&[0x01, 0x02]), 0xFDFE);
    assert_eq!(create_checksum(&[0x05]), 0xFFFA);
    assert_eq!(create_checksum(&[0xE8, 0x03, 0, 0, 0x34, 0x12, 0x05, 0x00, 1, 2, 3]), 59354);
}

#[test]
fn checksum_detects_single_byte_change() {
    let buf: Vec<u8> = (0u8..37).map(|b| b.wrapping_mul(7)).collect();
    let base = create_checksum(&buf);
    for i in 0..buf.len() {
        for v in [0u8, 1, 0x7F, 0x80, 0xFF] {
            if v == buf[i] {
                continue;
            }
            let mut other = buf.clone();
            other[i] = v;
            assert_ne!(create_checksum(&other), base);
        }
    }
}

#[test]
fn reply_id_wraps_after_one_build() {
    let mut s = Session::new();
    assert_eq!(s.reply_id, 0xFFFE);
    let frame = s.create_header(1000, &[]);
    assert_eq!(s.reply_id, 0);
    assert_eq!(frame, vec![0xE8, 0x03, 0x18, 0xFC, 0, 0, 0xFE, 0xFF]);
    s.create_header(1000, &[]);
    assert_eq!(s.reply_id, 1);
}

#[test]
fn parse_response_strips_header() {
    assert_eq!(parse_response(&[1, 2, 3]).err(), Some(ZKError::ResponseError));
    let r = parse_response(&reply(CMD_ACK_OK, &[9, 8])).ok().unwrap();
    assert_eq!(r.status, CMD_ACK_OK);
    assert_eq!(r.payload, vec![9, 8]);
    assert!(r.is_success());
    let refused = Response { status: 2001, payload: vec![] };
    assert!(!refused.is_success());
}

#[test]
fn read_sizes_short_reply_leaves_counts() {
    let mut s = Session::new();
    let resp = Response { status: CMD_ACK_OK, payload: vec![7; 40] };
    assert_eq!(s.read_sizes(&resp), Ok(()));
    assert_eq!(s.users, 0);
    assert_eq!(s.records, 0);
}

#[test]
fn read_sizes_reads_fields() {
    let mut s = Session::new();
    let mut payload = vec![0u8; 80];
    payload[16..20].copy_from_slice(&12i32.to_le_bytes());
    payload[32..36].copy_from_slice(&345i32.to_le_bytes());
    let resp = Response { status: CMD_ACK_OK, payload: payload.clone() };
    assert_eq!(s.read_sizes(&resp), Ok(()));
    assert_eq!(s.users, 12);
    assert_eq!(s.records, 345);
    let refused = Response { status: 2001, payload };
    assert_eq!(s.read_sizes(&refused), Err(ZKError::ResponseError));
    let mut negative = vec![0u8; 80];
    negative[16..20].copy_from_slice(&(-1i32).to_le_bytes());
    let resp = Response { status: CMD_ACK_OK, payload: negative };
    assert_eq!(s.read_sizes(&resp), Ok(()));
    assert_eq!(s.users, -1i32 as usize);
    assert_eq!(s.records, 0);
}

#[test]
fn attendance_resolves_user_id() {
    let packed = 783524730u32;
    let users = vec![user_with(3, 7), user_with(5, 42)];
    let got = decode_attendance(&attendance_payload(packed), 1, &users).ok().unwrap();
    assert_eq!(got.len(), 1);
    let expected = Attendance::new(42, decode_time(packed), 1, 0, 5);
    assert_eq!(got[0], expected);
    assert_eq!(got[0].user_id, 42);
    assert_eq!(got[0].status, 1);
    assert_eq!(got[0].punch, 0);
}

#[test]
fn attendance_falls_back_to_uid() {
    let packed = 783524730u32;
    let users = vec![user_with(3, 7)];
    let got = decode_attendance(&attendance_payload(packed), 1, &users).ok().unwrap();
    assert_eq!(got[0].user_id, 5);
    assert_eq!(got[0].uid, 5);
    assert_eq!(got[0].timestamp, decode_time(packed));
}

#[test]
fn attendance_unsupported_width() {
    let mut data = vec![24, 0, 0, 0];
    data.extend_from_slice(&[0xAB; 24]);
    assert_eq!(decode_attendance(&data, 1, &[]).err(), Some(ZKError::UnsupportedRecordSize));
    let short = vec![48, 0, 0, 0];
    assert_eq!(decode_attendance(&short, 2, &[]).err(), Some(ZKError::UnsupportedRecordSize));
}

#[test]
fn attendance_malformed_and_empty() {
    let uneven = vec![9, 0, 0, 0, 1, 2, 3, 4, 5, 6, 7, 8, 9];
    assert_eq!(decode_attendance(&uneven, 2, &[]).err(), Some(ZKError::ResponseError));
    let truncated = vec![16, 0, 0, 0, 1, 2, 3, 4, 5, 6, 7, 8];
    assert_eq!(decode_attendance(&truncated, 2, &[]).err(), Some(ZKError::ResponseError));
    assert_eq!(decode_attendance(&[1, 2], 3, &[]).err(), Some(ZKError::ResponseError));
    assert_eq!(decode_attendance(&[1, 2], 0, &[]).ok().unwrap().len(), 0);
    assert_eq!(decode_attendance(&[48, 0, 0, 0], 2, &[]).err(), Some(ZKError::UnsupportedRecordSize));
    let mut trailing = attendance_payload(783524730);
    trailing.extend_from_slice(&[1, 2, 3]);
    assert_eq!(decode_attendance(&trailing, 1, &[]).err(), Some(ZKError::ResponseError));
    assert_eq!(decode_attendance(&attendance_payload(0), 0, &[]).ok().unwrap().len(), 0);
}

#[test]
fn repack29_golden_bytes() {
    let expected: Vec<u8> = vec![
        2, 1, 0, 0, 0, 49, 50, 51, 52, 0, 74, 111, 104, 110, 68, 111, 101, 49, 52, 18, 0, 0, 0, 0,
        0, 0, 7, 0, 0, 0, 0, 42, 0, 0, 0,
    ];
    assert_eq!(fixture_user().repack29(), expected);
}

#[test]
fn repack29_non_numeric_group() {
    let mut u = fixture_user();
    u.group_id = "staff".to_string();
    let bytes = u.repack29();
    assert_eq!(&bytes[26..30], &[0, 0, 0, 0]);
    u.group_id = "+300".to_string();
    assert_eq!(&u.repack29()[26..30], &[44, 1, 0, 0]);
}

#[test]
fn repack73_golden_bytes() {
    let expected: Vec<u8> = vec![
        2, 1, 0, 0, 0, 49, 50, 51, 52, 0, 119, 0, 0, 74, 111, 104, 110, 68, 111, 101, 49, 50, 51,
        0, 0, 0, 0, 0, 0, 0, 0, 0, 0, 0, 0, 0, 0, 52, 18, 0, 0, 0, 0, 0, 0, 1, 55, 0, 0, 0, 0, 0,
        0, 0, 52, 50, 0, 0, 0, 0, 0, 0, 0, 0, 0, 0, 0, 0, 0, 0, 0, 0, 0, 0, 0, 0, 0, 0,
    ];
    assert_eq!(fixture_user().repack73(), expected);
}

#[test]
fn repack73_long_password() {
    let mut u = fixture_user();
    u.password = "abcdefghij".to_string();
    let bytes = u.repack73();
    assert_eq!(&bytes[5..13], &[97, 98, 99, 100, 101, 102, 0, 0x77]);
}

#[test]
fn user_privilege_bits() {
    let mut u = fixture_user();
    u.privilege = 0b1111;
    assert!(u.is_disabled());
    assert!(!u.is_enabled());
    assert_eq!(u.usertype(), 0b1110);
    u.privilege = 14 | 16;
    assert!(!u.is_disabled());
    assert!(u.is_enabled());
    assert_eq!(u.usertype(), 14);
}

#[test]
fn decode_users_short_layout() {
    let mut s = Session::new();
    s.users = 1;
    let mut data = vec![28, 0, 0, 0];
    let mut rec = vec![0u8; 28];
    rec[0] = 5;
    rec[2] = 14;
    rec[3..6].copy_from_slice(b"123");
    rec[8..12].copy_from_slice(b"Anna");
    rec[16..20].copy_from_slice(&777u32.to_le_bytes());
    rec[20] = 3;
    rec[24..28].copy_from_slice(&9001u32.to_le_bytes());
    data.extend_from_slice(&rec);
    let users = s.decode_users(&data).ok().unwrap();
    assert_eq!(users.len(), 1);
    let u = &users[0];
    assert_eq!(u.uid, 5);
    assert_eq!(u.privilege, 14);
    assert_eq!(u.password, "123");
    assert_eq!(u.name, "Anna");
    assert_eq!(u.card, 777);
    assert_eq!(u.group_id, "3");
    assert_eq!(u.user_id, 9001);
    assert_eq!(s.user_packet_size, 28);
}

#[test]
fn decode_users_errors() {
    let mut s = Session::new();
    s.users = 2;
    let mut long = vec![144, 0, 0, 0];
    long.extend_from_slice(&[0u8; 144]);
    assert_eq!(s.decode_users(&long).err(), Some(ZKError::UnsupportedRecordSize));
    assert_eq!(s.user_packet_size, 72);
    assert_eq!(s.decode_users(&[57, 0, 0, 0, 1]).err(), Some(ZKError::ResponseError));
    assert_eq!(s.decode_users(&[56, 0, 0, 0, 1]).err(), Some(ZKError::ResponseError));
    assert_eq!(s.decode_users(&[56, 0, 0]).err(), Some(ZKError::ResponseError));
    assert_eq!(s.decode_users(&[57, 0, 0, 0]).err(), Some(ZKError::ResponseError));
    assert_eq!(s.decode_users(&[144, 0, 0, 0]).err(), Some(ZKError::UnsupportedRecordSize));
    assert_eq!(s.decode_users(&[56, 0, 0, 0]).err(), Some(ZKError::ResponseError));
    s.users = 1;
    let mut trailing = vec![28, 0, 0, 0];
    trailing.extend_from_slice(&[0u8; 31]);
    assert_eq!(s.decode_users(&trailing).err(), Some(ZKError::ResponseError));
    s.user_packet_size = 40;
    s.users = 2;
    assert_eq!(s.decode_users(&[57, 0, 0, 0, 1]).err(), Some(ZKError::ResponseError));
    assert_eq!(s.user_packet_size, 40);
    let mut invalid = vec![28, 0, 0, 0];
    let mut rec = vec![0u8; 28];
    rec[8] = 0xFF;
    invalid.extend_from_slice(&rec);
    s.users = 1;
    assert_eq!(s.decode_users(&invalid).ok().unwrap()[0].name, "");
}

#[test]
fn finger_mark_and_records() {
    let template: Vec<u8> = (0u8..20).collect();
    let f = Finger::new(3, 6, 1, template.clone());
    assert_eq!(f.size, 20);
    assert_eq!(f.mark, "0001020304050607...0c0d0e0f10111213");
    let mut full = vec![26, 0, 3, 0, 6, 1];
    full.extend_from_slice(&template);
    assert_eq!(f.repack(), full);
    let mut body = vec![20, 0];
    body.extend_from_slice(&template);
    assert_eq!(f.repack_only(), body);
    let short = Finger::new(1, 0, 1, vec![0xAB, 0x01]);
    assert_eq!(short.mark, "ab01...ab01");
}

#[test]
fn finger_equality() {
    let a = Finger::new(3, 6, 1, vec![1, 2, 3]);
    let b = Finger::new(3, 6, 1, vec![1, 2, 3]);
    let c = Finger::new(3, 6, 1, vec![1, 2, 4]);
    let d = Finger::new(3, 7, 1, vec![1, 2, 3]);
    assert!(a == b);
    assert!(a != c);
    assert!(a != d);
}

#[test]
fn error_messages() {
    assert_eq!(ZKError::UnsupportedRecordSize.message(), "Unsupported Record Size");
    assert_eq!(ZKError::NetworkError.message(), "Network error");
}

fn expect_send(a: &Action, capacity: usize) -> Vec<u8> {
    match a {
        Action::Send { frame, capacity: c } => {
            assert_eq!(*c, capacity);
            frame.clone()
        }
        other => panic!("expected a send, got {:?}", other),
    }
}

#[test]
fn read_with_buffer_reassembles_chunks() {
    let total: usize = MAX_CHUNK * 2 + 500;
    let source: Vec<u8> = (0..total).map(|i| (i % 251) as u8).collect();
    let mut s = Session::new();
    let (mut b, a) = BufferedRead::start(&mut s, 13, 0, 0);
    let frame = expect_send(&a, 1024);
    assert_eq!(&frame[8..], &[1, 13, 0, 0, 0, 0, 0, 0, 0, 0, 0]);

    let mut prepared = vec![0u8];
    prepared.extend_from_slice(&(total as u32).to_le_bytes());
    let a = b.step(&mut s, &reply(CMD_ACK_OK, &prepared));
    let frame = expect_send(&a, MAX_CHUNK + 8);
    assert_eq!(&frame[8..], &[0, 0, 0, 0, 0, 0x40, 0, 0]);

    // first chunk inline
    let a = b.step(&mut s, &reply(CMD_DATA, &source[..MAX_CHUNK]));
    let frame = expect_send(&a, MAX_CHUNK + 8);
    assert_eq!(&frame[8..], &[0, 0x40, 0, 0, 0, 0x40, 0, 0]);

    // second chunk streamed in fragments
    let mut a = b.step(&mut s, &reply(CMD_PREPARE_DATA, &(MAX_CHUNK as u32).to_le_bytes()));
    let body = FRAGMENT_SIZE - 8;
    let mut off = MAX_CHUNK;
    while off < 2 * MAX_CHUNK {
        match a {
            Action::Receive { capacity } => assert_eq!(capacity, FRAGMENT_SIZE),
            other => panic!("expected a receive, got {:?}", other),
        }
        a = b.step(&mut s, &reply(CMD_DATA, &source[off..off + body]));
        off += body;
    }
    match a {
        Action::Receive { capacity } => assert_eq!(capacity, 16),
        other => panic!("expected the closing receive, got {:?}", other),
    }
    assert_eq!(b.stage, Stage::Ack);
    let a = b.step(&mut s, &reply(CMD_ACK_OK, &[]));
    let frame = expect_send(&a, 500 + 8);
    assert_eq!(&frame[8..], &[0, 0x80, 0, 0, 0xF4, 0x01, 0, 0]);

    // last, short chunk
    let a = b.step(&mut s, &reply(CMD_DATA, &source[2 * MAX_CHUNK..]));
    let frame = expect_send(&a, 8);
    assert_eq!(&frame[0..2], &[0xDE, 0x05]);

    match b.step(&mut s, &reply(CMD_ACK_OK, &[])) {
        Action::Done { data, size } => {
            assert_eq!(size, total);
            assert_eq!(data.len(), total);
            assert_eq!(data, source);
        }
        other => panic!("expected completion, got {:?}", other),
    }
}

#[test]
fn read_with_buffer_inline_and_failures() {
    let mut s = Session::new();
    let (mut b, _) = BufferedRead::start(&mut s, 13, 0, 0);
    match b.step(&mut s, &reply(CMD_DATA, &[4, 5, 6])) {
        Action::Done { data, size } => {
            assert_eq!(data, vec![4, 5, 6]);
            assert_eq!(size, 3);
        }
        other => panic!("expected completion, got {:?}", other),
    }

    let (mut b, _) = BufferedRead::start(&mut s, 13, 0, 0);
    match b.step(&mut s, &reply(2001, &[])) {
        Action::Fail(e) => assert_eq!(e, ZKError::ResponseError),
        other => panic!("expected failure, got {:?}", other),
    }

    let (mut b, _) = BufferedRead::start(&mut s, 13, 0, 0);
    b.step(&mut s, &reply(CMD_ACK_OK, &[0, 10, 0, 0, 0]));
    b.step(&mut s, &reply(CMD_PREPARE_DATA, &[10, 0, 0, 0]));
    match b.step(&mut s, &reply(CMD_ACK_OK, &[1, 2, 3])) {
        Action::Fail(e) => assert_eq!(e, ZKError::ResponseError),
        other => panic!("expected failure, got {:?}", other),
    }
}

#[test]
fn reply_matching_by_reply_id() {
    let mut s = Session::new();
    let frame = s.create_header(50, &[]);
    let mut answer = reply(CMD_ACK_OK, &[]);
    answer[6] = 0xFE;
    answer[7] = 0xFF;
    assert!(reply_answers(&answer, &frame));
    answer[6] = 0;
    assert!(!reply_answers(&answer, &frame));
    assert!(!reply_answers(&[1, 2], &frame));
}

fn expect_failure(a: Action) {
    match a {
        Action::Fail(e) => assert_eq!(e, ZKError::ResponseError),
        other => panic!("expected failure, got {:?}", other),
    }
}

fn prepared_transfer(s: &mut Session, total: u32) -> BufferedRead {
    let (mut b, _) = BufferedRead::start(s, 13, 0, 0);
    let mut prepared = vec![0u8];
    prepared.extend_from_slice(&total.to_le_bytes());
    b.step(s, &reply(CMD_ACK_OK, &prepared));
    b
}

#[test]
fn read_with_buffer_refuses_short_chunk() {
    let mut s = Session::new();
    let mut b = prepared_transfer(&mut s, 100);
    expect_failure(b.step(&mut s, &reply(CMD_DATA, &[7u8; 50])));
    assert_eq!(b.stage, Stage::Finished);
}

#[test]
fn read_with_buffer_refuses_oversize_fragment() {
    let mut s = Session::new();
    let mut b = prepared_transfer(&mut s, 10);
    b.step(&mut s, &reply(CMD_PREPARE_DATA, &[10, 0, 0, 0]));
    assert_eq!(b.stage, Stage::Fragments);
    expect_failure(b.step(&mut s, &reply(CMD_DATA, &[1u8; 11])));
}

#[test]
fn read_with_buffer_refuses_wrong_sub_size() {
    let mut s = Session::new();
    let mut b = prepared_transfer(&mut s, 10);
    expect_failure(b.step(&mut s, &reply(CMD_PREPARE_DATA, &[9, 0, 0, 0])));
}

#[test]
fn read_with_buffer_streamed_exact_size() {
    let mut s = Session::new();
    let mut b = prepared_transfer(&mut s, 10);
    b.step(&mut s, &reply(CMD_PREPARE_DATA, &[10, 0, 0, 0]));
    b.step(&mut s, &reply(CMD_DATA, &[1, 2, 3, 4]));
    assert_eq!(b.stage, Stage::Fragments);
    b.step(&mut s, &reply(CMD_DATA, &[5, 6, 7, 8, 9, 10]));
    assert_eq!(b.stage, Stage::Ack);
    b.step(&mut s, &reply(CMD_ACK_OK, &[]));
    match b.step(&mut s, &reply(CMD_ACK_OK, &[])) {
        Action::Done { data, size } => {
            assert_eq!(size, 10);
            assert_eq!(data, vec![1, 2, 3, 4, 5, 6, 7, 8, 9, 10]);
        }
        other => panic!("expected completion, got {:?}", other),
    }
}

#[test]
fn decode_users_without_users() {
    let mut s = Session::new();
    assert_eq!(s.decode_users(&[1, 2]).ok().unwrap().len(), 0);
    assert_eq!(s.user_packet_size, 28);
}
