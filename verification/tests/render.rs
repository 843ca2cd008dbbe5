use uci_decode::render::{
    dec_string, digit_str, fixed_string, hex_array_string, hex_padded_string, hex_string,
    push_dec, push_hex_byte, push_hex_digits,
};
use uci_decode::FracBits;

#[test]
fn digits_are_lower_case() {
    let all: Vec<&str> = (0..16u8).map(digit_str).collect();
    assert_eq!(all.concat(), "0123456789abcdef");
}

#[test]
fn decimal_matches_the_standard_form() {
    for n in [0u64, 1, 9, 10, 11, 99, 100, 255, 256, 65535, 65536, 4294967295, u64::MAX] {
        assert_eq!(dec_string(n), format!("{}", n));
    }
    for n in 0..3000u64 {
        assert_eq!(dec_string(n), format!("{}", n));
    }
}

#[test]
fn decimal_is_appended() {
    let mut s = String::from("n=");
    push_dec(&mut s, 1234567890);
    assert_eq!(s, "n=1234567890");
}

#[test]
fn hexadecimal_has_prefix_and_no_leading_zeros() {
    assert_eq!(hex_string(0), "0x0");
    assert_eq!(hex_string(0xf), "0xf");
    assert_eq!(hex_string(0x10), "0x10");
    assert_eq!(hex_string(0x12345678), "0x12345678");
    assert_eq!(hex_string(0xffffffff), "0xffffffff");
    for n in 0..70000u64 {
        assert_eq!(hex_string(n), format!("{:#x}", n));
    }
}

#[test]
fn hexadecimal_digits_are_appended() {
    let mut s = String::from("id ");
    push_hex_digits(&mut s, 0xABCDEF);
    assert_eq!(s, "id abcdef");
}

#[test]
fn byte_has_two_digits() {
    let mut s = String::from("<");
    push_hex_byte(&mut s, 0x07);
    assert_eq!(s, "<0x07");
    push_hex_byte(&mut s, 0xe4);
    assert_eq!(s, "<0x070xe4");
    for b in 0..=255u8 {
        let mut s = String::new();
        push_hex_byte(&mut s, b);
        assert_eq!(s, format!("{:#04x}", b));
    }
}

#[test]
fn padded_byte_is_four_wide() {
    assert_eq!(hex_padded_string(0x5), " 0x5");
    assert_eq!(hex_padded_string(0x12), "0x12");
    for b in 0..=255u8 {
        assert_eq!(hex_padded_string(b), format!("{:#4x}", b));
    }
}

#[test]
fn byte_array_in_braces() {
    assert_eq!(hex_array_string(&[]), "{ }");
    assert_eq!(hex_array_string(&[0x00]), "{ 0x00 }");
    assert_eq!(hex_array_string(&[0x01, 0xab, 0xff]), "{ 0x01 0xab 0xff }");
}

#[test]
fn fraction_bits_are_at_most_sixteen() {
    for bits in 0..=16u8 {
        assert_eq!(FracBits::new(bits).unwrap().bits(), bits);
    }
    for bits in 17..=255u8 {
        assert!(FracBits::new(bits).is_none());
    }
}

#[test]
fn fixed_point_exact_values() {
    let q7 = FracBits::new(7).unwrap();
    assert_eq!(fixed_string(0x0000, q7), "0");
    assert_eq!(fixed_string(0x0080, q7), "1");
    assert_eq!(fixed_string(0x00c0, q7), "1.5");
    assert_eq!(fixed_string(0x0001, q7), "0.0078125");
    assert_eq!(fixed_string(0xff80, q7), "-1");
    assert_eq!(fixed_string(0xffff, q7), "-0.0078125");
    assert_eq!(fixed_string(0x8000, q7), "-256");
    assert_eq!(fixed_string(0x7fff, q7), "255.9921875");
    let q0 = FracBits::new(0).unwrap();
    assert_eq!(fixed_string(0x7fff, q0), "32767");
    assert_eq!(fixed_string(0x8000, q0), "-32768");
    let q16 = FracBits::new(16).unwrap();
    assert_eq!(fixed_string(0x0001, q16), "0.0000152587890625");
    assert_eq!(fixed_string(0x8000, q16), "-0.5");
    assert_eq!(fixed_string(0x4000, q16), "0.25");
}

#[test]
fn fixed_point_is_the_quotient() {
    for bits in [0u8, 1, 4, 7, 8, 12] {
        let format = FracBits::new(bits).unwrap();
        let scale = (1u32 << bits) as f64;
        let mut raw: u32 = 0;
        while raw <= 0xffff {
            let value = (raw as u16 as i16) as f64 / scale;
            let expected = if value == 0.0 { String::from("0") } else { format!("{}", value) };
            assert_eq!(fixed_string(raw as u16, format), expected, "raw {} bits {}", raw, bits);
            raw += 7;
        }
    }
}
