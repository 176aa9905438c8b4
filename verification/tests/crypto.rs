//! Key types, hashing, and the text form of binary values.

use gnunet::crypto::EcdsaPrivateKey;
use gnunet::crypto::EcdsaPublicKey;
use gnunet::crypto::HashCode;
use gnunet::service::identity::Ego;
use gnunet::util::serial::parse_leading_cstr;
use gnunet::util::serial::split_on;
use gnunet::util::serial::str_from_cstr;
use gnunet::util::serial::try_split_at;
use gnunet::util::strings::crockford_base32_decode;
use gnunet::util::strings::crockford_base32_encode;
use gnunet::util::strings::str_eq;
use gnunet::util::c_strings::ReadCString;
use gnunet::util::c_strings::ReadCStringError;
use gnunet::util::c_strings::ReadCStringWithLenError;
use gnunet::util::io::ByteReader;
use std::str::FromStr;

#[test]
fn test_ecdsa_to_from_string() {
    let s0: &str = "JK55QA8J1A164MB08VM209KE93M9JBB07M2VB8M3M03FKRFSV0MG";
    let key: EcdsaPublicKey = FromStr::from_str(s0).unwrap();
    let s1: String = key.to_text();
    println!("{} {}", s0, s0.len());
    println!("{} {}", s1, s1.len());
    assert!(s0 == &s1[..]);
}

#[test]
fn crockford_text() {
    assert_eq!(crockford_base32_encode(&[0xF8, 0x3E, 0x0F, 0x83, 0xE0]), "Z0Z0Z0Z0");
    assert_eq!(
        crockford_base32_decode("Z0Z0Z0Z0").unwrap(),
        vec![0xF8, 0x3E, 0x0F, 0x83, 0xE0]
    );
    assert!(crockford_base32_decode("!!!").is_none());
}

#[test]
fn sha512_known_digest() {
    let h = HashCode::from_buffer(b"abc");
    let expected: [u8; 64] = [
        221, 175, 53, 161, 147, 97, 122, 186, 204, 65, 115, 73, 174, 32, 65, 49, 18, 230, 250,
        78, 137, 169, 126, 162, 10, 158, 238, 230, 75, 85, 211, 154, 33, 146, 153, 42, 39, 79,
        193, 168, 54, 186, 60, 35, 163, 254, 235, 189, 69, 77, 68, 35, 100, 60, 232, 14, 42, 154,
        201, 79, 165, 76, 164, 159,
    ];
    assert_eq!(h.bytes(), &expected[..]);
    let again = HashCode::from_buffer(b"abc");
    assert!(h.same_as(&again));
    assert!(!h.same_as(&HashCode::from_buffer(b"abd")));
}

#[test]
fn anonymous_key_derives_the_base_point() {
    // The anonymous ego's scalar is one, so its public key is the curve's
    // base point in compressed form.
    let ego = Ego::anonymous();
    let pk = ego.get_public_key();
    let mut expected = vec![0x58u8];
    expected.extend_from_slice(&[0x66u8; 31]);
    assert_eq!(pk.bytes(), &expected[..]);
    assert!(ego.get_name().is_none());
    // The id is the hash of the public key.
    let direct = pk.hash();
    assert!(ego.get_id().same_as(&direct));
}

#[test]
fn key_byte_constructors() {
    let bytes: Vec<u8> = (0u8..32).collect();
    let pk = EcdsaPublicKey::from_bytes(&bytes).unwrap();
    assert_eq!(pk.bytes(), &bytes[..]);
    assert!(EcdsaPublicKey::from_bytes(&bytes[..31]).is_none());
    let sk = EcdsaPrivateKey::from_bytes(&bytes).unwrap();
    assert_eq!(sk.bytes(), &bytes[..]);
    let zeros = EcdsaPrivateKey::zeros();
    assert!(zeros.bytes().iter().all(|&b| b == 0));
}

#[test]
fn peer_identity_text() {
    let bytes: Vec<u8> = (0u8..32).collect();
    let id = gnunet::util::peerid::PeerIdentity::from_bytes(&bytes).unwrap();
    let text = id.to_text();
    let back = gnunet::util::peerid::PeerIdentity::from_str(&text).unwrap();
    assert_eq!(back.bytes(), &bytes[..]);
    assert!(gnunet::util::peerid::PeerIdentity::from_str("tooshort").is_err());
}

#[test]
fn test_split_on() {
    assert!(split_on(&[], 123).is_none());

    let b = ['a', 'b', '\0', 'c', 'd'];
    let (head, tail) = split_on(&b, '\0').unwrap();
    assert_eq!(head, &['a', 'b']);
    assert_eq!(tail, &['c', 'd']);

    assert!(split_on(&b, 'x').is_none());
    assert_eq!(split_on(&b, 'a').unwrap(), (&[][..], &b[1..]));
    assert_eq!(split_on(&b, 'd').unwrap(), (&b[..4], &[][..]));
}

#[test]
fn c_string_helpers() {
    assert_eq!(str_from_cstr(b"foo\0").unwrap(), "foo");
    assert_eq!(str_from_cstr(b"\0").unwrap(), "");
    // A field without its NUL terminator is refused, the empty buffer
    // included.
    assert!(str_from_cstr(b"").is_none());
    assert!(str_from_cstr(b"foo").is_none());
    assert!(str_from_cstr(&[0xff, 0xfe, 0x00]).is_none());
    let (s, rest) = parse_leading_cstr(b"tcp\0rest").unwrap();
    assert_eq!(s, "tcp");
    assert_eq!(rest, b"rest");
    assert!(parse_leading_cstr(b"\0rest").is_none());
    assert!(parse_leading_cstr(b"no terminator").is_none());
    let (a, b) = try_split_at(b"abcdef", 2).unwrap();
    assert_eq!((a, b), (&b"ab"[..], &b"cdef"[..]));
    assert!(try_split_at(b"abc", 4).is_none());
}

#[test]
fn string_equality() {
    assert!(str_eq("min", "min"));
    assert!(!str_eq("min", "mine"));
    assert!(!str_eq("min", "mit"));
}

#[test]
fn reading_c_strings() {
    let data = b"hello\0world\0";
    let mut r = ByteReader::new(data);
    assert_eq!(r.read_c_string().unwrap(), "hello");
    assert_eq!(r.read_c_string_with_len(5).unwrap(), "world");

    let mut r = ByteReader::new(b"no nul");
    assert!(matches!(r.read_c_string(), Err(ReadCStringError::Disconnected)));

    let mut r = ByteReader::new(b"ab\0xy");
    match r.read_c_string_with_len(4) {
        Err(ReadCStringWithLenError::InteriorNul { pos }) => assert_eq!(pos, 2),
        _ => panic!("an interior NUL must be reported with its position"),
    }

    let mut r = ByteReader::new(b"abcdX");
    assert!(matches!(
        r.read_c_string_with_len(4),
        Err(ReadCStringWithLenError::NoTerminator)
    ));

    let mut r = ByteReader::new(b"ab");
    assert!(matches!(
        r.read_c_string_with_len(4),
        Err(ReadCStringWithLenError::Disconnected)
    ));
}
