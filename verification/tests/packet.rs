use uci_decode::packet::hex_digit_value;
use uci_decode::{
    parse_hexstr, to_packet, ErrorKind, Packet, PacketId, UciPacketParseError,
};

#[test]
fn hex_text_is_read_two_digits_to_a_byte() {
    assert_eq!(parse_hexstr(b"4000000100").ok(), Some(vec![0x40, 0x00, 0x00, 0x01, 0x00]));
    assert_eq!(parse_hexstr(b"").ok(), Some(vec![]));
    assert_eq!(parse_hexstr(b"00ff7F80aBCd").ok(), Some(vec![0x00, 0xff, 0x7f, 0x80, 0xab, 0xcd]));
}

#[test]
fn hex_digits_in_both_cases() {
    assert_eq!(hex_digit_value(b'0'), Some(0));
    assert_eq!(hex_digit_value(b'9'), Some(9));
    assert_eq!(hex_digit_value(b'a'), Some(10));
    assert_eq!(hex_digit_value(b'f'), Some(15));
    assert_eq!(hex_digit_value(b'A'), Some(10));
    assert_eq!(hex_digit_value(b'F'), Some(15));
    assert_eq!(hex_digit_value(b'g'), None);
    assert_eq!(hex_digit_value(b'G'), None);
    assert_eq!(hex_digit_value(b'/'), None);
    assert_eq!(hex_digit_value(b':'), None);
    assert_eq!(hex_digit_value(b'@'), None);
    assert_eq!(hex_digit_value(b'`'), None);
    assert_eq!(hex_digit_value(b'+'), None);
    assert_eq!(hex_digit_value(b' '), None);
}

#[test]
fn odd_text_drops_the_last_character() {
    assert_eq!(parse_hexstr(b"abc").ok(), Some(vec![0xab]));
    assert_eq!(parse_hexstr(b"abz").ok(), Some(vec![0xab]));
    assert_eq!(parse_hexstr(b"a").ok(), Some(vec![]));
    for text in ["4000000100f", "123", "zz1", "0", "40000002a"] {
        let shorter = &text[..text.len() - 1];
        match (parse_hexstr(text.as_bytes()), parse_hexstr(shorter.as_bytes())) {
            (Ok(a), Ok(b)) => assert_eq!(a, b),
            (Err(a), Err(b)) => assert_eq!(a, b),
            _ => panic!("{} and {} are read differently", text, shorter),
        }
    }
}

#[test]
fn a_pair_that_is_not_hex_fails() {
    let expected = UciPacketParseError::new(ErrorKind::HexParseError);
    assert_eq!(parse_hexstr(b"zz").err(), Some(expected));
    assert_eq!(parse_hexstr(b"0g").err(), Some(expected));
    assert_eq!(parse_hexstr(b"400x").err(), Some(expected));
    assert_eq!(parse_hexstr(b"+f").err(), Some(expected));
    assert_eq!(parse_hexstr(b"40 00").err(), Some(expected));
    assert_eq!(parse_hexstr("00\u{e9}".as_bytes()).err(), Some(expected));
    assert_eq!(expected.to_string(), "Failed to parse hex string");
    assert_eq!(to_packet(String::from("4000zz0100")).err(), Some(expected));
}

#[test]
fn three_bytes_are_too_short() {
    let expected = UciPacketParseError::new(ErrorKind::TooShort);
    assert_eq!(to_packet(String::from("400000")).err(), Some(expected));
    assert_eq!(expected.to_string(), "packet length is less than 4 bytes");
}

#[test]
fn fewer_than_four_bytes_are_too_short() {
    let expected = UciPacketParseError::new(ErrorKind::TooShort);
    assert_eq!(Packet::from_bytes(vec![]).err(), Some(expected));
    assert_eq!(Packet::from_bytes(vec![0x40]).err(), Some(expected));
    assert_eq!(Packet::from_bytes(vec![0x40, 0x00]).err(), Some(expected));
    assert_eq!(Packet::from_bytes(vec![0xff, 0xff, 0xff]).err(), Some(expected));
    assert_eq!(to_packet(String::from("")).err(), Some(expected));
    assert_eq!(to_packet(String::from("4000000")).err(), Some(expected));
}

#[test]
fn declared_length_two_without_payload() {
    let expected =
        UciPacketParseError::new(ErrorKind::PayloadLengthMismatch { declared: 2, actual: 0 });
    assert_eq!(to_packet(String::from("40000002")).err(), Some(expected));
    assert_eq!(expected.to_string(), "payload length mismatch: packet_len=2 actual=0");
}

#[test]
fn declared_length_must_be_the_actual_length() {
    let e = Packet::from_bytes(vec![0x40, 0x00, 0x00, 0x00, 0x01]).err().unwrap();
    assert_eq!(e.kind, ErrorKind::PayloadLengthMismatch { declared: 0, actual: 1 });
    assert_eq!(e.to_string(), "payload length mismatch: packet_len=0 actual=1");
    let e = Packet::from_bytes(vec![0x21, 0x03, 0x00, 0xff, 0x01, 0x02]).err().unwrap();
    assert_eq!(e.kind, ErrorKind::PayloadLengthMismatch { declared: 255, actual: 2 });
    assert!(Packet::from_bytes(vec![0x40, 0x00, 0x00, 0x00]).is_ok());
    assert!(Packet::from_bytes(vec![0x40, 0x00, 0x00, 0x02, 0x01, 0x02]).is_ok());
}

#[test]
fn header_of_a_status_response() {
    let pkt = to_packet(String::from("4000000100")).ok().unwrap();
    assert_eq!(pkt.mt(), 2);
    assert_eq!(pkt.gid(), 0);
    assert_eq!(pkt.oid(), 0);
    assert_eq!(pkt.len(), 1);
    assert_eq!(pkt.get(0), 0);
    assert_eq!(pkt.to_string(), "mt:0x2 gid:0x0 oid:0x0 len: 0x1");
}

#[test]
fn header_fields_and_payload_access() {
    let mut bytes = vec![0x7e, 0x13, 0xaa, 0x12];
    bytes.extend(0..0x12u8);
    let pkt = Packet::new(bytes);
    assert_eq!(pkt.mt(), 3);
    assert_eq!(pkt.gid(), 0x0e);
    assert_eq!(pkt.oid(), 0x13);
    assert_eq!(pkt.len(), 0x12);
    assert_eq!(pkt.get(0), 0);
    assert_eq!(pkt.get(0x11), 0x11);
    assert_eq!(pkt.slice(3, 4), &[3, 4, 5, 6]);
    assert_eq!(pkt.slice(0x12, 0), &[] as &[u8]);
    assert_eq!(pkt.to_string(), "mt:0x3 gid:0xe oid:0x13 len:0x12");
    let high = Packet::new(vec![0xff, 0xff, 0x00, 0x00]);
    assert_eq!(high.mt(), 7);
    assert_eq!(high.gid(), 0xf);
    assert_eq!(high.to_string(), "mt:0x7 gid:0xf oid:0xff len: 0x0");
}

#[test]
fn identity_from_a_triple() {
    assert_eq!(PacketId::from((1, 2, 3)), PacketId(1, 2, 3));
    assert_ne!(PacketId::from((1, 2, 3)), PacketId(3, 2, 1));
}
