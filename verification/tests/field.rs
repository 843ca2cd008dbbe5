use std::collections::HashMap;
use uci_decode::{print_field, print_hexarr, Field, FracBits, Packet, ParamType};

fn packet(payload: &[u8]) -> Packet {
    let mut bytes = vec![0x20, 0x00, 0x00, payload.len() as u8];
    bytes.extend_from_slice(payload);
    Packet::new(bytes)
}

fn colours() -> HashMap<u8, &'static str> {
    let mut m = HashMap::new();
    m.insert(1u8, "red");
    m.insert(0x20u8, "green");
    m
}

#[test]
fn sizes_of_the_encodings() {
    let codes = colours();
    assert_eq!(Field("a", ParamType::Hex8).size(), 1);
    assert_eq!(Field("a", ParamType::Dec8).size(), 1);
    assert_eq!(Field("a", ParamType::Hex16).size(), 2);
    assert_eq!(Field("a", ParamType::Dec16).size(), 2);
    assert_eq!(Field("a", ParamType::Hex32).size(), 4);
    assert_eq!(Field("a", ParamType::Dec32).size(), 4);
    assert_eq!(Field("a", ParamType::Q16(FracBits::new(7).unwrap())).size(), 2);
    assert_eq!(Field("a", ParamType::RFU(8)).size(), 8);
    assert_eq!(Field("a", ParamType::RFU(0)).size(), 0);
    assert_eq!(Field("a", ParamType::HexArray(72)).size(), 72);
    assert_eq!(Field("a", ParamType::HexArray(0)).size(), 0);
    assert_eq!(Field("a", ParamType::CharArray(5)).size(), 5);
    assert_eq!(Field("a", ParamType::Table8(&[(0, "x")])).size(), 1);
    assert_eq!(Field("a", ParamType::Map8(&codes)).size(), 1);
}

#[test]
fn fixed_size_takes_its_own_length_only() {
    let f = Field("a", ParamType::Hex16);
    for len in 0..20usize {
        assert_eq!(f.length_compatible(len), len == 2);
    }
    let f = Field("a", ParamType::HexArray(6));
    for len in 0..20usize {
        assert_eq!(f.length_compatible(len), len == 6);
    }
}

#[test]
fn size_zero_takes_every_length() {
    for f in [
        Field("a", ParamType::HexArray(0)),
        Field("a", ParamType::CharArray(0)),
        Field("a", ParamType::RFU(0)),
    ] {
        for len in 0..300usize {
            assert!(f.length_compatible(len));
        }
    }
}

#[test]
fn numbers_are_read_least_significant_byte_first() {
    let pkt = packet(&[0xff, 0x78, 0x56, 0x34, 0x12, 0x07]);
    assert_eq!(print_field(&Field("a", ParamType::Hex8), &pkt, 5, 1).unwrap(), "0x7");
    assert_eq!(print_field(&Field("a", ParamType::Hex8), &pkt, 0, 1).unwrap(), "0xff");
    assert_eq!(print_field(&Field("a", ParamType::Hex16), &pkt, 1, 2).unwrap(), "0x5678");
    assert_eq!(print_field(&Field("a", ParamType::Hex16), &pkt, 3, 2).unwrap(), "0x1234");
    assert_eq!(print_field(&Field("a", ParamType::Hex32), &pkt, 1, 4).unwrap(), "0x12345678");
    assert_eq!(print_field(&Field("a", ParamType::Hex32), &pkt, 0, 4).unwrap(), "0x345678ff");
    assert_eq!(print_field(&Field("a", ParamType::Dec8), &pkt, 0, 1).unwrap(), "255");
    assert_eq!(print_field(&Field("a", ParamType::Dec16), &pkt, 1, 2).unwrap(), "22136");
    assert_eq!(print_field(&Field("a", ParamType::Dec32), &pkt, 1, 4).unwrap(), "305419896");
    assert_eq!(print_field(&Field("a", ParamType::Dec32), &pkt, 2, 4).unwrap(), "118633558");
}

#[test]
fn fixed_point_is_signed() {
    let q7 = ParamType::Q16(FracBits::new(7).unwrap());
    let pkt = packet(&[0xc0, 0x00, 0x80, 0xff, 0x01, 0x00]);
    assert_eq!(print_field(&Field("a", q7), &pkt, 0, 2).unwrap(), "1.5");
    assert_eq!(print_field(&Field("a", q7), &pkt, 2, 2).unwrap(), "-1");
    assert_eq!(print_field(&Field("a", q7), &pkt, 4, 2).unwrap(), "0.0078125");
    assert_eq!(print_field(&Field("a", q7), &pkt, 1, 2).unwrap(), "-256");
}

#[test]
fn reserved_bytes_are_not_shown() {
    let pkt = packet(&[1, 2, 3, 4]);
    assert!(print_field(&Field("", ParamType::RFU(2)), &pkt, 0, 2).is_none());
    assert!(print_field(&Field("", ParamType::RFU(2)), &pkt, 0, 3).is_none());
    assert!(print_field(&Field("", ParamType::RFU(0)), &pkt, 4, 0).is_none());
}

#[test]
fn byte_arrays_in_braces() {
    let pkt = packet(&[0x01, 0xab, 0xff, 0x00]);
    assert_eq!(print_hexarr(&pkt, 0, 4), "{ 0x01 0xab 0xff 0x00 }");
    assert_eq!(print_hexarr(&pkt, 1, 2), "{ 0xab 0xff }");
    assert_eq!(print_hexarr(&pkt, 4, 0), "{ }");
    assert_eq!(print_field(&Field("a", ParamType::HexArray(3)), &pkt, 1, 3).unwrap(),
        "{ 0xab 0xff 0x00 }");
    assert_eq!(print_field(&Field("a", ParamType::HexArray(0)), &pkt, 0, 2).unwrap(),
        "{ 0x01 0xab }");
    assert_eq!(print_field(&Field("a", ParamType::HexArray(0)), &pkt, 2, 0).unwrap(), "{ }");
}

#[test]
fn text_is_decoded_with_replacement() {
    let pkt = packet(&[b'U', b'W', b'B', 0xff, b'!', 0xc3, 0xa9]);
    assert_eq!(print_field(&Field("a", ParamType::CharArray(3)), &pkt, 0, 3).unwrap(), "UWB");
    assert_eq!(print_field(&Field("a", ParamType::CharArray(0)), &pkt, 0, 5).unwrap(),
        "UWB\u{fffd}!");
    assert_eq!(print_field(&Field("a", ParamType::CharArray(2)), &pkt, 5, 2).unwrap(), "\u{e9}");
    assert_eq!(print_field(&Field("a", ParamType::CharArray(0)), &pkt, 5, 1).unwrap(), "\u{fffd}");
    assert_eq!(print_field(&Field("a", ParamType::CharArray(0)), &pkt, 7, 0).unwrap(), "");
}

#[test]
fn code_in_a_list_first_match_wins() {
    let list = ParamType::Table8(&[(0, "zero"), (5, "five"), (5, "again"), (0x1f, "last")]);
    let pkt = packet(&[0x00, 0x05, 0x1f, 0x07]);
    assert_eq!(print_field(&Field("a", list), &pkt, 0, 1).unwrap(), "0x0 (zero)");
    assert_eq!(print_field(&Field("a", list), &pkt, 1, 1).unwrap(), "0x5 (five)");
    assert_eq!(print_field(&Field("a", list), &pkt, 2, 1).unwrap(), "0x1f (last)");
    assert_eq!(print_field(&Field("a", list), &pkt, 3, 1).unwrap(), "0x7 (Unknown)");
    let empty = ParamType::Table8(&[]);
    assert_eq!(print_field(&Field("a", empty), &pkt, 0, 1).unwrap(), "0x0 (Unknown)");
}

#[test]
fn code_in_a_shared_map() {
    let codes = colours();
    let map = ParamType::Map8(&codes);
    let pkt = packet(&[0x01, 0x20, 0x02]);
    assert_eq!(print_field(&Field("a", map), &pkt, 0, 1).unwrap(), "0x1 (red)");
    assert_eq!(print_field(&Field("b", map), &pkt, 1, 1).unwrap(), "0x20 (green)");
    assert_eq!(print_field(&Field("c", map), &pkt, 2, 1).unwrap(), "0x2 (Unknown)");
}

#[test]
fn wrong_length_is_noted_in_place_of_the_value() {
    let codes = colours();
    let pkt = packet(&[1, 2, 3, 4, 5, 6, 7, 8]);
    assert_eq!(print_field(&Field("a", ParamType::Hex8), &pkt, 0, 2).unwrap(),
        "length mismatch expected=1, actual=2");
    assert_eq!(print_field(&Field("a", ParamType::Hex32), &pkt, 0, 0).unwrap(),
        "length mismatch expected=4, actual=0");
    assert_eq!(print_field(&Field("a", ParamType::Dec16), &pkt, 0, 8).unwrap(),
        "length mismatch expected=2, actual=8");
    assert_eq!(print_field(&Field("a", ParamType::HexArray(72)), &pkt, 0, 8).unwrap(),
        "length mismatch expected=72, actual=8");
    assert_eq!(print_field(&Field("a", ParamType::CharArray(3)), &pkt, 0, 4).unwrap(),
        "length mismatch expected=3, actual=4");
    assert_eq!(print_field(&Field("a", ParamType::Map8(&codes)), &pkt, 0, 2).unwrap(),
        "length mismatch expected=1, actual=2");
    assert_eq!(print_field(&Field("a", ParamType::Table8(&[])), &pkt, 0, 0).unwrap(),
        "length mismatch expected=1, actual=0");
    let q7 = ParamType::Q16(FracBits::new(7).unwrap());
    assert_eq!(print_field(&Field("a", q7), &pkt, 0, 1).unwrap(),
        "length mismatch expected=2, actual=1");
}

#[test]
fn nothing_is_read_for_reserved_bytes_or_a_wrong_length() {
    let pkt = packet(&[1, 2]);
    assert!(print_field(&Field("", ParamType::RFU(2)), &pkt, 100, 50).is_none());
    assert!(print_field(&Field("", ParamType::RFU(0)), &pkt, usize::MAX, usize::MAX).is_none());
    assert_eq!(print_field(&Field("a", ParamType::Hex8), &pkt, 100, 2).unwrap(),
        "length mismatch expected=1, actual=2");
    assert_eq!(print_field(&Field("a", ParamType::Dec32), &pkt, 0, 300).unwrap(),
        "length mismatch expected=4, actual=300");
    assert_eq!(print_field(&Field("a", ParamType::HexArray(6)), &pkt, 2, 5).unwrap(),
        "length mismatch expected=6, actual=5");
    assert!(Field("", ParamType::RFU(1)).is_reserved());
    assert!(!Field("", ParamType::HexArray(1)).is_reserved());
}
