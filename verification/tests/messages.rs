//! The typed messages of the services: byte images of outbound shapes,
//! bounds-checked parses of inbound ones.

use gnunet::crypto::EcdsaPrivateKey;
use gnunet::gns::absorb_lookup_result;
use gnunet::gns::parse_lookup_result;
use gnunet::gns::LookupError;
use gnunet::gns::RecordType;
use gnunet::hello::Hello;
use gnunet::service::cadet::msg::ChannelId;
use gnunet::service::cadet::msg::ChannelOptions;
use gnunet::service::cadet::msg::LocalChannelCreate;
use gnunet::service::gns::master_options;
use gnunet::service::gns::msg::LocalOptions;
use gnunet::service::identity::msg::GetDefault;
use gnunet::service::identity::msg::ResultCode;
use gnunet::service::identity::msg::SetDefault;
use gnunet::service::identity::msg::Update;
use gnunet::service::identity::parse_get_default_response;
use gnunet::service::identity::parse_update_message;
use gnunet::service::identity::GetDefaultEgoError;
use gnunet::service::peerinfo::msg::Info;
use gnunet::service::peerinfo::msg::ListAllPeers;
use gnunet::service::peerinfo::msg::ListPeer;
use gnunet::service::peerinfo::parse_peer_listing;
use gnunet::service::pending::Multiplexer;
use gnunet::service::pending::Waiter;
use gnunet::service::transport::msg::Start;
use gnunet::service::transport::parse_hello_response;
use gnunet::transport::parse_self_hello;
use gnunet::transport::TransportServiceInitError;
use gnunet::util::hello::HelloMessage;
use gnunet::util::io::ByteReader;
use gnunet::util::message::MessageIn;
use gnunet::util::message::MessageOutCompound;
use gnunet::util::message::MessageTrait;
use gnunet::util::peerid::PeerIdentity;
use gnunet::util::serial::push_u16_be;
use gnunet::util::serial::push_u32_be;
use gnunet::util::serial::push_u64_be;

fn test_peer() -> PeerIdentity {
    let bytes: Vec<u8> = (0u8..32).collect();
    PeerIdentity::from_bytes(&bytes).unwrap()
}

fn test_key() -> EcdsaPrivateKey {
    let bytes = [7u8; 32];
    EcdsaPrivateKey::from_bytes(&bytes).unwrap()
}

#[test]
fn start_message_bytes() {
    let start = Start::new(0, test_peer());
    let bytes = start.into_slice();
    assert_eq!(bytes.len(), 40);
    assert_eq!(&bytes[..4], &[0, 40, 1, 104]);
    assert_eq!(&bytes[4..8], &[0, 0, 0, 0]);
    let expected: Vec<u8> = (0u8..32).collect();
    assert_eq!(&bytes[8..], &expected[..]);
}

#[test]
fn peerinfo_request_bytes() {
    let all = ListAllPeers::new(true).into_slice();
    assert_eq!(all, vec![0, 8, 1, 75, 0, 0, 0, 1]);
    let one = ListPeer::new(false, test_peer()).into_slice();
    assert_eq!(one.len(), 40);
    assert_eq!(&one[..4], &[0, 40, 1, 74]);
    assert_eq!(&one[4..8], &[0, 0, 0, 0]);
}

#[test]
fn channel_create_bytes() {
    let opts = ChannelOptions { no_buffer: true, reliable: true, out_of_order: false };
    assert_eq!(opts.as_u32(), 3);
    let msg = LocalChannelCreate::new(ChannelId(9), test_peer(), 80, opts);
    let bytes = msg.into_slice();
    assert_eq!(bytes.len(), 48);
    assert_eq!(&bytes[..4], &[0, 48, 4, 0]);
    assert_eq!(&bytes[4..8], &[0, 0, 0, 9]);
    assert_eq!(&bytes[40..44], &[0, 0, 0, 80]);
    assert_eq!(&bytes[44..48], &[0, 0, 0, 3]);
}

#[test]
fn channel_options_every_combination() {
    for no_buffer in [false, true] {
        for reliable in [false, true] {
            for out_of_order in [false, true] {
                let opts = ChannelOptions { no_buffer, reliable, out_of_order };
                let mut expected = 0u32;
                if no_buffer {
                    expected |= 1;
                }
                if reliable {
                    expected |= 2;
                }
                if out_of_order {
                    expected |= 4;
                }
                assert_eq!(opts.as_u32(), expected);
            }
        }
    }
}

#[test]
fn get_default_chunks() {
    let msg = GetDefault::new(String::from("gns-master")).unwrap();
    let chunks = msg.as_byte_chunks();
    assert_eq!(chunks.len(), 3);
    // Prefix: total length 19, name length 11 (terminator included).
    assert_eq!(chunks[0], vec![0, 19, 2, 115, 0, 11, 0, 0]);
    assert_eq!(chunks[1], b"gns-master".to_vec());
    assert_eq!(chunks[2], vec![0]);
}

fn set_default_body(name_len: u16, payload: &[u8]) -> Vec<u8> {
    let mut body: Vec<u8> = Vec::new();
    push_u16_be(&mut body, name_len);
    push_u16_be(&mut body, 0);
    body.extend_from_slice(&[7u8; 32]);
    body.extend_from_slice(payload);
    body
}

#[test]
fn set_default_roundtrip() {
    // A well-formed reply parses back to exactly the fields written.
    let body = set_default_body(4, b"gns\0");
    let msg = SetDefault::from_bytes(&body).unwrap();
    let (name, key) = msg.into_name_and_key();
    assert_eq!(name, "gns");
    assert_eq!(key.bytes(), &[7u8; 32]);
}

#[test]
fn set_default_length_mismatch_fails() {
    // A prefix declaring name_len = 6 over the payload "foo\0" disagrees
    // with the bytes that follow: the decode fails cleanly instead of
    // reading past the buffer.
    let body = set_default_body(6, b"foo\0");
    assert!(SetDefault::from_bytes(&body).is_none());
}

#[test]
fn set_default_interior_nul_fails() {
    let body = set_default_body(6, b"f\0oo\0\0");
    assert!(SetDefault::from_bytes(&body).is_none());
}

#[test]
fn set_default_truncated_bodies_fail() {
    // Every truncation of a valid message, short of the whole, fails the
    // parse; none crashes or reads out of bounds.
    let body = set_default_body(4, b"gns\0");
    for len in 0..body.len() {
        assert!(SetDefault::from_bytes(&body[..len]).is_none());
    }
    assert!(SetDefault::from_bytes(&body).is_some());
}

#[test]
fn framed_reply_decodes_end_to_end() {
    // A full loop: frame a SetDefault reply, split it back off the
    // stream, and decode the body as the expected shape.
    let body = set_default_body(4, b"gns\0");
    let frame = gnunet::service::connection::encode_frame(628, &body).unwrap();
    match gnunet::service::connection::recv_step(&frame).unwrap() {
        gnunet::service::connection::RecvStep::Message { typ, body: received, .. } => {
            let msg: SetDefault = gnunet::util::message::expect(typ, &received).unwrap();
            let (name, key) = msg.into_name_and_key();
            assert_eq!(name, "gns");
            assert_eq!(key.bytes(), &[7u8; 32]);
        }
        gnunet::service::connection::RecvStep::NeedMore { .. } => {
            panic!("the frame is complete")
        }
    }
}

#[test]
fn result_code_parses() {
    let mut body: Vec<u8> = Vec::new();
    push_u32_be(&mut body, 1);
    body.extend_from_slice(b"no such ego\0");
    let rc = ResultCode::from_bytes(&body).unwrap();
    assert_eq!(rc.result_code, 1);
    assert_eq!(rc.err_msg, "no such ego");
    for len in 0..5 {
        assert!(ResultCode::from_bytes(&body[..len]).is_none());
    }
}

#[test]
fn result_code_without_terminator_fails() {
    // A text field that does not end in its NUL terminator fails the
    // parse; its last byte is never silently discarded.
    let mut body: Vec<u8> = Vec::new();
    push_u32_be(&mut body, 1);
    body.extend_from_slice(b"no such ego");
    assert!(ResultCode::from_bytes(&body).is_none());
}

#[test]
fn update_end_of_list() {
    let mut body: Vec<u8> = Vec::new();
    push_u16_be(&mut body, 0);
    push_u16_be(&mut body, 1);
    body.extend_from_slice(&[7u8; 32]);
    let upd = Update::from_bytes(&body).unwrap();
    assert!(upd.end_of_list());
    assert_eq!(upd.name, "");
}

#[test]
fn update_with_name() {
    let mut body: Vec<u8> = Vec::new();
    push_u16_be(&mut body, 5);
    push_u16_be(&mut body, 0);
    body.extend_from_slice(&[7u8; 32]);
    body.extend_from_slice(b"mail\0");
    let upd = Update::from_bytes(&body).unwrap();
    assert!(!upd.end_of_list());
    assert_eq!(upd.name, "mail");
}

fn hello_body(addresses: &[(&str, u64, &[u8])]) -> Vec<u8> {
    let mut body: Vec<u8> = Vec::new();
    push_u32_be(&mut body, 0);
    body.extend_from_slice(&(0u8..32).collect::<Vec<u8>>());
    for (name, expiration, addr) in addresses {
        body.extend_from_slice(name.as_bytes());
        body.push(0);
        push_u16_be(&mut body, addr.len() as u16);
        push_u64_be(&mut body, *expiration);
        body.extend_from_slice(addr);
    }
    body
}

#[test]
fn hello_parses_addresses() {
    let body = hello_body(&[("tcp", 99, &[10, 0, 0, 1]), ("udp", 7, &[])]);
    let hello = HelloMessage::from_bytes(&body).unwrap();
    assert!(!hello.friend_only());
    assert_eq!(hello.peer_id().bytes(), &(0u8..32).collect::<Vec<u8>>()[..]);
    assert_eq!(hello.addresses.len(), 2);
    assert_eq!(hello.addresses[0].transport_name, "tcp");
    assert_eq!(hello.addresses[0].expiration.micros(), 99);
    assert_eq!(hello.addresses[0].address, vec![10, 0, 0, 1]);
    assert_eq!(hello.addresses[1].transport_name, "udp");
    assert!(hello.addresses[1].address.is_empty());
}

#[test]
fn hello_truncated_bodies_fail() {
    let body = hello_body(&[("tcp", 99, &[10, 0, 0, 1])]);
    // Anything short of the fixed prefix fails; the bare prefix is a
    // HELLO with no addresses; any partial address fails.
    for len in 0..36 {
        assert!(HelloMessage::from_bytes(&body[..len]).is_none());
    }
    let bare = HelloMessage::from_bytes(&body[..36]).unwrap();
    assert!(bare.addresses.is_empty());
    for len in 37..body.len() {
        assert!(HelloMessage::from_bytes(&body[..len]).is_none());
    }
    assert!(HelloMessage::from_bytes(&body).is_some());
}

#[test]
fn hello_overlong_address_length_fails() {
    // A declared address length running past the end of the buffer fails
    // the parse instead of reading out of bounds.
    let mut body = hello_body(&[]);
    body.extend_from_slice(b"tcp\0");
    push_u16_be(&mut body, 200);
    push_u64_be(&mut body, 0);
    body.extend_from_slice(&[1, 2, 3]);
    assert!(HelloMessage::from_bytes(&body).is_none());
}

#[test]
fn old_hello_prefix_parses() {
    let body = hello_body(&[]);
    let mut reader = ByteReader::new(&body);
    let hello = Hello::deserialize(&mut reader).unwrap();
    assert!(!hello.friend_only);
    let short = [0u8; 35];
    let mut reader = ByteReader::new(&short);
    assert!(Hello::deserialize(&mut reader).is_err());
}

#[test]
fn transport_handshake_parses() {
    let body = hello_body(&[]);
    let hello = parse_hello_response(17, &body).unwrap();
    assert!(!hello.friend_only());
    assert!(parse_hello_response(18, &body).is_err());
    let old = parse_self_hello(17, &body).unwrap();
    assert!(!old.friend_only);
    match parse_self_hello(360, &body) {
        Err(TransportServiceInitError::NonHelloMessage { typ }) => assert_eq!(typ, 360),
        _ => panic!("a non-HELLO answer must be refused"),
    }
}

fn record_bytes(expiration: u64, type_code: u32, flags: u32, data: &[u8]) -> Vec<u8> {
    let mut out: Vec<u8> = Vec::new();
    push_u64_be(&mut out, expiration);
    push_u32_be(&mut out, data.len() as u32);
    push_u32_be(&mut out, type_code);
    push_u32_be(&mut out, flags);
    out.extend_from_slice(data);
    out
}

#[test]
fn record_parses() {
    let bytes = record_bytes(1234, 1, 2, &[192, 0, 2, 1]);
    let mut reader = ByteReader::new(&bytes);
    let rec = gnunet::gns::Record::deserialize(&mut reader).unwrap();
    assert_eq!(rec.expiration_time, 1234);
    assert_eq!(rec.record_type(), RecordType::A);
    assert_eq!(rec.flags, 2);
    assert_eq!(rec.data, vec![192, 0, 2, 1]);
    assert_eq!(rec.data_size, 4);
}

#[test]
fn record_unknown_type_fails() {
    let bytes = record_bytes(0, 999, 0, &[]);
    let mut reader = ByteReader::new(&bytes);
    assert!(gnunet::gns::Record::deserialize(&mut reader).is_none());
}

#[test]
fn record_truncated_fails() {
    let bytes = record_bytes(0, 1, 0, &[1, 2, 3, 4]);
    for len in 0..bytes.len() {
        let mut reader = ByteReader::new(&bytes[..len]);
        assert!(gnunet::gns::Record::deserialize(&mut reader).is_none());
    }
}

#[test]
fn lookup_result_parses() {
    let mut body: Vec<u8> = Vec::new();
    push_u32_be(&mut body, 42);
    push_u32_be(&mut body, 2);
    body.extend_from_slice(&record_bytes(5, 1, 0, &[192, 0, 2, 1]));
    body.extend_from_slice(&record_bytes(6, 16, 0, b"hi"));
    let (id, records) = parse_lookup_result(501, &body).unwrap();
    assert_eq!(id, 42);
    assert_eq!(records.len(), 2);
    assert_eq!(records[0].record_type(), RecordType::A);
    assert_eq!(records[1].record_type(), RecordType::TXT);
    assert_eq!(records[1].data, b"hi".to_vec());
    match parse_lookup_result(500, &body) {
        Err(LookupError::InvalidType { tpe }) => assert_eq!(tpe, 500),
        _ => panic!("the wrong kind must be refused"),
    }
    let mut short = body.clone();
    short.truncate(body.len() - 1);
    assert!(parse_lookup_result(501, &short).is_err());
}

#[test]
fn gns_lookup_chunks() {
    let zone = gnunet::crypto::EcdsaPublicKey::from_bytes(&[9u8; 32]).unwrap();
    let msg = gnunet::service::gns::msg::Lookup::new(
        5,
        zone,
        gnunet::service::gns::msg::LocalOptions::LocalMaster,
        Some(test_key()),
        RecordType::A,
        String::from("gnu.org"),
    )
    .unwrap();
    let chunks = msg.as_byte_chunks();
    assert_eq!(chunks.len(), 3);
    assert_eq!(chunks[0].len(), 80);
    // Total length 88 = 80 + 7 name bytes + 1 terminator; type 500.
    assert_eq!(&chunks[0][..4], &[0, 88, 1, 244]);
    assert_eq!(&chunks[0][4..8], &[0, 0, 0, 5]);
    assert_eq!(&chunks[0][40..44], &[0, 2, 0, 1]);
    assert_eq!(&chunks[0][44..48], &[0, 0, 0, 1]);
    assert_eq!(&chunks[0][48..80], &[7u8; 32]);
    assert_eq!(chunks[1], b"gnu.org".to_vec());
    assert_eq!(chunks[2], vec![0]);
}

#[test]
fn lookup_name_length_limit() {
    // The DNS name limit is enforced by the verified constructor, not
    // only by the caller: 253 bytes pass, 254 are refused.
    let zone = gnunet::crypto::EcdsaPublicKey::from_bytes(&[9u8; 32]).unwrap();
    let fits = "x".repeat(253);
    assert!(gnunet::service::gns::msg::Lookup::new(
        1,
        zone,
        gnunet::service::gns::msg::LocalOptions::Default,
        None,
        RecordType::A,
        fits,
    )
    .is_some());
    let too_long = "x".repeat(254);
    assert!(gnunet::service::gns::msg::Lookup::new(
        1,
        zone,
        gnunet::service::gns::msg::LocalOptions::Default,
        None,
        RecordType::A,
        too_long,
    )
    .is_none());
}

#[test]
fn master_zone_options() {
    assert_eq!(master_options("www.gnu"), LocalOptions::NoDHT);
    assert_eq!(master_options("gnu.org"), LocalOptions::LocalMaster);
    assert_eq!(master_options("a.b.gnu"), LocalOptions::LocalMaster);
    assert_eq!(master_options("gnu"), LocalOptions::LocalMaster);
    assert_eq!(master_options(""), LocalOptions::LocalMaster);
}

#[test]
fn empty_lookup_results_are_discarded() {
    // A lookup result with an empty record list resolves no waiter: the
    // caller keeps waiting for a later, non-empty result.
    let mut mux: Multiplexer<Vec<gnunet::gns::Record>> = Multiplexer::new();
    assert!(mux.register(42));

    let mut empty_body: Vec<u8> = Vec::new();
    push_u32_be(&mut empty_body, 42);
    push_u32_be(&mut empty_body, 0);
    assert!(mux.begin_read());
    assert!(!absorb_lookup_result(&mut mux, 501, &empty_body).unwrap());
    assert!(mux.take(42).is_none());

    let mut full_body: Vec<u8> = Vec::new();
    push_u32_be(&mut full_body, 42);
    push_u32_be(&mut full_body, 1);
    full_body.extend_from_slice(&record_bytes(5, 1, 0, &[192, 0, 2, 1]));
    assert!(mux.begin_read());
    assert!(absorb_lookup_result(&mut mux, 501, &full_body).unwrap());
    match mux.take(42) {
        Some(Waiter::Delivered(records)) => assert_eq!(records.len(), 1),
        _ => panic!("the non-empty result must resolve the waiter"),
    }
}

#[test]
fn identity_get_default_decision() {
    let body = set_default_body(4, b"gns\0");
    let ego = parse_get_default_response(628, &body).unwrap();
    assert_eq!(ego.get_name(), Some(String::from("gns")));
    assert_eq!(ego.get_private_key().bytes(), &[7u8; 32]);

    let mut err_body: Vec<u8> = Vec::new();
    push_u32_be(&mut err_body, 1);
    err_body.extend_from_slice(b"no default known\0");
    match parse_get_default_response(625, &err_body) {
        Err(GetDefaultEgoError::ServiceResponse { response }) => {
            assert_eq!(response, "no default known")
        }
        _ => panic!("a result code must surface the service's text"),
    }
    match parse_get_default_response(17, &body) {
        Err(GetDefaultEgoError::InvalidResponse) => {}
        _ => panic!("an unrelated kind is incoherent"),
    }
}

#[test]
fn identity_update_decision() {
    let mut body: Vec<u8> = Vec::new();
    push_u16_be(&mut body, 5);
    push_u16_be(&mut body, 0);
    body.extend_from_slice(&[7u8; 32]);
    body.extend_from_slice(b"mail\0");
    let ego = parse_update_message(626, &body).unwrap().unwrap();
    assert_eq!(ego.get_name(), Some(String::from("mail")));

    let mut end: Vec<u8> = Vec::new();
    push_u16_be(&mut end, 0);
    push_u16_be(&mut end, 1);
    end.extend_from_slice(&[7u8; 32]);
    assert!(parse_update_message(626, &end).unwrap().is_none());
    assert!(parse_update_message(17, &end).is_err());
}

fn info_body() -> Vec<u8> {
    let mut body: Vec<u8> = Vec::new();
    push_u32_be(&mut body, 0);
    body.extend_from_slice(&(0u8..32).collect::<Vec<u8>>());
    // The embedded HELLO travels with its own envelope header.
    push_u16_be(&mut body, 40);
    push_u16_be(&mut body, 17);
    body.extend_from_slice(&hello_body(&[]));
    body
}

#[test]
fn peerinfo_listing_decision() {
    let hello = parse_peer_listing(332, &info_body()).unwrap().unwrap();
    assert_eq!(hello.peer_id().bytes(), &(0u8..32).collect::<Vec<u8>>()[..]);
    assert!(parse_peer_listing(333, &[]).unwrap().is_none());
    assert!(parse_peer_listing(17, &[]).is_err());
}

#[test]
fn info_truncated_bodies_fail() {
    let body = info_body();
    for len in 0..body.len() {
        assert!(Info::from_bytes(&body[..len]).is_none());
    }
    assert!(Info::from_bytes(&body).is_some());
}

#[test]
fn old_peer_listing_decision() {
    let mut body: Vec<u8> = Vec::new();
    push_u32_be(&mut body, 0);
    body.extend_from_slice(&(0u8..32).collect::<Vec<u8>>());
    let entry = gnunet::peerinfo::parse_peer(332, &body).unwrap().unwrap();
    let mut written: Vec<u8> = Vec::new();
    entry.0.serialize(&mut written);
    assert_eq!(written, (0u8..32).collect::<Vec<u8>>());
    assert!(entry.1.is_none());
    assert!(gnunet::peerinfo::parse_peer(333, &[]).unwrap().is_none());
    assert!(gnunet::peerinfo::parse_peer(17, &[]).is_err());
    let mut nonzero = body.clone();
    nonzero[3] = 1;
    assert!(gnunet::peerinfo::parse_peer(332, &nonzero).is_err());
}

#[test]
fn peers_fold() {
    let mut body: Vec<u8> = Vec::new();
    push_u32_be(&mut body, 0);
    body.extend_from_slice(&(0u8..32).collect::<Vec<u8>>());
    let mut peers = gnunet::peerinfo::Peers::new();
    assert!(!peers.absorb(332, &body).unwrap());
    assert!(!peers.absorb(332, &body).unwrap());
    assert!(peers.absorb(333, &[]).unwrap());
    assert_eq!(peers.into_vec().len(), 2);
}
