//! The byte codec: big-endian fields, the envelope header, framing, and
//! the expect call contracts.

use gnunet::service::connection::encode_frame;
use gnunet::service::connection::recv_step;
use gnunet::service::connection::EncodeError;
use gnunet::service::connection::FramingError;
use gnunet::service::connection::RecvStep;
use gnunet::util::message::expect;
use gnunet::util::message::expect_either;
use gnunet::util::message::Either;
use gnunet::util::message::ExpectError;
use gnunet::util::message::MessageHeader;
use gnunet::util::message_type::MessageType;
use gnunet::util::serial::push_u16_be;
use gnunet::util::serial::push_u32_be;
use gnunet::util::serial::push_u64_be;
use gnunet::util::serial::read_u16_be;
use gnunet::util::serial::read_u32_be;
use gnunet::util::serial::read_u64_be;
use gnunet::service::peerinfo::msg::InfoEnd;
use gnunet::service::identity::msg::SetDefault;
use gnunet::util::message::MessageIn;

#[test]
fn big_endian_roundtrip() {
    let mut out: Vec<u8> = Vec::new();
    push_u16_be(&mut out, 0x1234);
    push_u32_be(&mut out, 0xdeadbeef);
    push_u64_be(&mut out, 0x0102030405060708);
    assert_eq!(out[..2], [0x12, 0x34]);
    assert_eq!(out[2..6], [0xde, 0xad, 0xbe, 0xef]);
    assert_eq!(read_u16_be(&out, 0), 0x1234);
    assert_eq!(read_u32_be(&out, 2), 0xdeadbeef);
    assert_eq!(read_u64_be(&out, 6), 0x0102030405060708);
}

#[test]
fn test_message_to_slice() {
    // A six-byte record of one u16 and one u32 field, all zero.
    let mut out: Vec<u8> = Vec::new();
    push_u16_be(&mut out, 0);
    push_u32_be(&mut out, 0);
    assert!(out.iter().all(|&x| x == 0));
    assert_eq!(out.len(), 6);
}

#[test]
fn header_encode_parse() {
    let h = MessageHeader::new(40, MessageType::TRANSPORT_START);
    let mut out: Vec<u8> = Vec::new();
    h.encode(&mut out);
    assert_eq!(out, vec![0, 40, 1, 104]);
    let (parsed, rest) = MessageHeader::parse(&out).unwrap();
    assert_eq!(parsed.length(), 40);
    assert_eq!(parsed.msg_type_u16(), 360);
    assert_eq!(parsed.msg_type(), Some(MessageType::TRANSPORT_START));
    assert!(rest.is_empty());
    assert!(MessageHeader::parse(&out[..3]).is_none());
}

#[test]
fn message_type_registry() {
    assert_eq!(MessageType::from_u16(17), Some(MessageType::HELLO));
    assert_eq!(MessageType::HELLO.to_u16(), 17);
    assert_eq!(MessageType::from_u16(628), Some(MessageType::IDENTITY_SET_DEFAULT));
    assert_eq!(MessageType::from_u16(20), None);
    assert_eq!(MessageType::from_u16(65535), Some(MessageType::ALL));
}

#[test]
fn frame_end_to_end() {
    // Encode a fixed record with body [2,4,6,8] under wire type 7; the
    // receiving end gets exactly (7, [2,4,6,8]) with the header stripped.
    let frame = encode_frame(7, &[2, 4, 6, 8]).unwrap();
    assert_eq!(frame, vec![0, 8, 0, 7, 2, 4, 6, 8]);
    match recv_step(&frame).unwrap() {
        RecvStep::Message { typ, body, consumed } => {
            assert_eq!(typ, 7);
            assert_eq!(body, vec![2, 4, 6, 8]);
            assert_eq!(consumed, 8);
        }
        RecvStep::NeedMore { .. } => panic!("message should be complete"),
    }
}

#[test]
fn frame_needs_more() {
    let frame = encode_frame(7, &[2, 4, 6, 8]).unwrap();
    match recv_step(&frame[..2]).unwrap() {
        RecvStep::NeedMore { missing } => assert_eq!(missing, 2),
        RecvStep::Message { .. } => panic!("header is incomplete"),
    }
    match recv_step(&frame[..6]).unwrap() {
        RecvStep::NeedMore { missing } => assert_eq!(missing, 2),
        RecvStep::Message { .. } => panic!("body is incomplete"),
    }
}

#[test]
fn recv_rejects_short_claimed_length() {
    // A header claiming length 0, 1, 2 or 3 is a short-message error and
    // never a negative remainder.
    for claimed in 0u16..4 {
        let mut stream: Vec<u8> = Vec::new();
        push_u16_be(&mut stream, claimed);
        push_u16_be(&mut stream, 7);
        match recv_step(&stream) {
            Err(FramingError::ShortMessage { claimed: c }) => assert_eq!(c, claimed),
            _ => panic!("length {} must be rejected", claimed),
        }
    }
}

#[test]
fn encode_frame_refuses_oversize() {
    let body = vec![0u8; 65532];
    match encode_frame(1, &body) {
        Err(EncodeError::TooLong { body_len }) => assert_eq!(body_len, 65532),
        Ok(_) => panic!("a frame of 65536 bytes must be refused"),
    }
    assert!(encode_frame(1, &vec![0u8; 65531]).is_ok());
}

#[test]
fn expect_checks_the_wire_type() {
    // An empty body parses as InfoEnd only under its own wire type.
    let ok: Result<InfoEnd, _> = expect(333, &[]);
    assert!(ok.is_ok());
    let wrong: Result<InfoEnd, _> = expect(334, &[]);
    match wrong {
        Err(ExpectError::UnexpectedMessage { msg_type }) => assert_eq!(msg_type, 334),
        _ => panic!("the wrong wire type must be refused"),
    }
    let bad: Result<InfoEnd, _> = expect(333, &[1]);
    match bad {
        Err(ExpectError::ParseFailure { msg_type }) => {
            assert_eq!(msg_type, MessageType::PEERINFO_INFO_END)
        }
        _ => panic!("a non-empty body must fail the parse"),
    }
}

#[test]
fn expect_either_unmatched_type_is_unexpected() {
    // A wire type matching neither alternative answers UnexpectedMessage
    // without attempting any decode.
    let r: Result<Either<SetDefault, InfoEnd>, _> = expect_either(999, &[1, 2, 3]);
    match r {
        Err(ExpectError::UnexpectedMessage { msg_type }) => assert_eq!(msg_type, 999),
        _ => panic!("a type matching neither shape must be unexpected"),
    }
}

#[test]
fn expect_either_picks_the_matching_side() {
    let r: Result<Either<SetDefault, InfoEnd>, _> = expect_either(333, &[]);
    match r {
        Ok(Either::Right(_)) => {}
        _ => panic!("the second alternative should match"),
    }
}
