//! Text forms of numbers and byte strings.

use vstd::arithmetic::power2::{lemma_pow2_unfold, lemma2_to64, pow2};
use vstd::prelude::*;
use vstd::string::StringExecFns;
use vstd::string::StrSliceExecFns;

verus! {

/// The character of the digit `d`, for `0 <= d < 16`, in lower case.
pub open spec fn digit_char(d: int) -> char {
    "0123456789abcdef"@[d]
}

/// The decimal digits of `n`, most significant first, without leading
/// zeros; zero is the single digit `0`.
pub open spec fn dec_digits(n: nat) -> Seq<char>
    decreases n,
{
    if n < 10 {
        seq![digit_char(n as int)]
    } else {
        dec_digits(n / 10).push(digit_char((n % 10) as int))
    }
}

/// The hexadecimal digits of `n`, most significant first, without leading
/// zeros; zero is the single digit `0`.
pub open spec fn hex_digits(n: nat) -> Seq<char>
    decreases n,
{
    if n < 16 {
        seq![digit_char(n as int)]
    } else {
        hex_digits(n / 16).push(digit_char((n % 16) as int))
    }
}

/// `n` in decimal.
pub open spec fn dec_text(n: nat) -> Seq<char> {
    dec_digits(n)
}

/// `n` in hexadecimal behind the prefix `0x`.
pub open spec fn hex_text(n: nat) -> Seq<char> {
    "0x"@ + hex_digits(n)
}

/// A byte as `0x` and exactly two hexadecimal digits.
pub open spec fn hex_byte_text(b: u8) -> Seq<char> {
    "0x"@.push(digit_char(b as int / 16)).push(digit_char(b as int % 16))
}

/// A byte in hexadecimal behind `0x`, with a blank in front where that
/// takes fewer than four characters.
pub open spec fn hex_padded_text(b: u8) -> Seq<char> {
    if b < 16 {
        " "@ + hex_text(b as nat)
    } else {
        hex_text(b as nat)
    }
}

/// What stands between the braces of a byte array's text: each byte as two
/// hexadecimal digits, with a blank in front.
pub open spec fn hex_array_body(bytes: Seq<u8>) -> Seq<char>
    decreases bytes.len(),
{
    if bytes.len() == 0 {
        Seq::empty()
    } else {
        hex_array_body(bytes.drop_last()) + " "@ + hex_byte_text(bytes.last())
    }
}

/// A byte array as `{ 0xNN 0xNN }`; the empty array is `{ }`.
pub open spec fn hex_array_text(bytes: Seq<u8>) -> Seq<char> {
    "{"@ + hex_array_body(bytes) + " }"@
}

/// The decimal places of `rem / scale`, at most `places` of them, ending
/// where nothing is left to divide.
pub open spec fn fraction_digits(rem: nat, scale: nat, places: nat) -> Seq<char>
    decreases places,
{
    if places == 0 || rem == 0 || scale == 0 {
        Seq::empty()
    } else {
        seq![digit_char((rem * 10 / scale) as int)] + fraction_digits(
            rem * 10 % scale,
            scale,
            (places - 1) as nat,
        )
    }
}

/// What is left to divide behind the decimal places of `rem / scale`.
pub open spec fn fraction_rest(rem: nat, scale: nat, places: nat) -> nat
    decreases places,
{
    if places == 0 || rem == 0 || scale == 0 {
        rem
    } else {
        fraction_rest(rem * 10 % scale, scale, (places - 1) as nat)
    }
}

/// The two's-complement value of a 16-bit word.
pub open spec fn signed_value(raw: u16) -> int {
    if raw >= 0x8000 {
        raw as int - 0x10000
    } else {
        raw as int
    }
}

/// A signed 16-bit fixed-point number with `bits` fractional bits, that is
/// `signed_value(raw) / 2^bits`, written out exactly in decimal: a minus sign
/// where it is negative, the whole part, and, unless the fraction is zero, a
/// point and the decimal places it takes.
pub open spec fn fixed_text(raw: u16, bits: nat) -> Seq<char> {
    let value = signed_value(raw);
    let magnitude = if value < 0 { (-value) as nat } else { value as nat };
    let scale = pow2(bits);
    let sign = if value < 0 { "-"@ } else { Seq::<char>::empty() };
    let fraction = if magnitude % scale == 0 {
        Seq::<char>::empty()
    } else {
        "."@ + fraction_digits(magnitude % scale, scale, bits)
    };
    sign + dec_text(magnitude / scale) + fraction
}

/// The one-character string of a digit.
pub fn digit_str(d: u8) -> (r: &'static str)
    requires
        d < 16,
    ensures
        r@ == seq![digit_char(d as int)],
{
    let all = "0123456789abcdef";
    proof {
        reveal_strlit("0123456789abcdef");
        assert(all.is_ascii());
    }
    let r = all.substring_ascii(d as usize, d as usize + 1);
    assert(r@ =~= seq![digit_char(d as int)]);
    r
}

/// Appends `n` in decimal.
pub fn push_dec(s: &mut String, n: u64)
    ensures
        final(s)@ == old(s)@ + dec_text(n as nat),
    decreases n,
{
    if n < 10 {
        s.append(digit_str(n as u8));
        assert(s@ =~= old(s)@ + dec_digits(n as nat));
    } else {
        push_dec(s, n / 10);
        s.append(digit_str((n % 10) as u8));
        assert(s@ =~= old(s)@ + dec_digits(n as nat));
    }
}

/// Appends the hexadecimal digits of `n`, without a prefix.
pub fn push_hex_digits(s: &mut String, n: u64)
    ensures
        final(s)@ == old(s)@ + hex_digits(n as nat),
    decreases n,
{
    if n < 16 {
        s.append(digit_str(n as u8));
        assert(s@ =~= old(s)@ + hex_digits(n as nat));
    } else {
        push_hex_digits(s, n / 16);
        s.append(digit_str((n % 16) as u8));
        assert(s@ =~= old(s)@ + hex_digits(n as nat));
    }
}

/// `n` in decimal.
pub fn dec_string(n: u64) -> (s: String)
    ensures
        s@ == dec_text(n as nat),
{
    let mut s = String::new();
    push_dec(&mut s, n);
    assert(s@ =~= dec_text(n as nat));
    s
}

/// `n` in hexadecimal behind `0x`.
pub fn hex_string(n: u64) -> (s: String)
    ensures
        s@ == hex_text(n as nat),
{
    let mut s = String::from_str("0x");
    push_hex_digits(&mut s, n);
    s
}

/// Appends a byte as `0x` and two hexadecimal digits.
pub fn push_hex_byte(s: &mut String, b: u8)
    ensures
        final(s)@ == old(s)@ + hex_byte_text(b),
{
    s.append("0x");
    s.append(digit_str(b / 16));
    s.append(digit_str(b % 16));
    assert(s@ =~= old(s)@ + hex_byte_text(b));
}

/// A byte in hexadecimal behind `0x`, at least four characters wide.
pub fn hex_padded_string(b: u8) -> (s: String)
    ensures
        s@ == hex_padded_text(b),
{
    let mut s = String::new();
    if b < 16 {
        s.append(" ");
    }
    s.append("0x");
    push_hex_digits(&mut s, b as u64);
    assert(s@ =~= hex_padded_text(b));
    s
}

/// A byte array as `{ 0xNN 0xNN }`.
pub fn hex_array_string(bytes: &[u8]) -> (s: String)
    ensures
        s@ == hex_array_text(bytes@),
{
    let mut s = String::from_str("{");
    let mut i: usize = 0;
    while i < bytes.len()
        invariant
            i <= bytes@.len(),
            s@ == "{"@ + hex_array_body(bytes@.take(i as int)),
        decreases bytes@.len() - i,
    {
        let ghost before = s@;
        s.append(" ");
        push_hex_byte(&mut s, bytes[i]);
        proof {
            let next = bytes@.take(i + 1);
            assert(next.drop_last() =~= bytes@.take(i as int));
            assert(next.last() == bytes@[i as int]);
            assert(s@ =~= "{"@ + hex_array_body(next));
        }
        i = i + 1;
    }
    assert(bytes@.take(i as int) =~= bytes@);
    s.append(" }");
    s
}

/// The number of fractional bits of a 16-bit fixed-point format: at most 16.
#[derive(Clone, Copy, Debug)]
pub struct FracBits {
    bits: u8,
}

impl FracBits {
    #[verifier::type_invariant]
    spec fn in_range(self) -> bool {
        self.bits <= 16
    }

    /// The number of fractional bits.
    pub closed spec fn count(self) -> nat {
        self.bits as nat
    }

    /// The format with `bits` fractional bits, if there is one.
    pub fn new(bits: u8) -> (r: Option<FracBits>)
        ensures
            r is Some <==> bits <= 16,
            r is Some ==> r->0.count() == bits,
    {
        if bits <= 16 {
            Some(FracBits { bits })
        } else {
            None
        }
    }

    /// The number of fractional bits.
    pub fn bits(&self) -> (r: u8)
        ensures
            r == self.count(),
            r <= 16,
    {
        proof {
            use_type_invariant(self);
        }
        self.bits
    }
}

/// Two to the power `bits`.
fn scale_of(bits: u8) -> (scale: u32)
    requires
        bits <= 16,
    ensures
        scale == pow2(bits as nat),
        1 <= scale <= 0x10000,
{
    let mut scale: u32 = 1;
    let mut i: u8 = 0;
    proof {
        lemma2_to64();
    }
    while i < bits
        invariant
            i <= bits <= 16,
            scale == pow2(i as nat),
            1 <= scale,
            i < 16 ==> scale <= 0x8000,
            scale <= 0x10000,
        decreases bits - i,
    {
        proof {
            lemma_pow2_unfold((i + 1) as nat);
            lemma2_to64();
        }
        scale = scale * 2;
        i = i + 1;
    }
    scale
}

/// A signed 16-bit fixed-point number written out exactly in decimal.
pub fn fixed_string(raw: u16, format: FracBits) -> (s: String)
    ensures
        s@ == fixed_text(raw, format.count()),
{
    let bits = format.bits();
    let scale = scale_of(bits);
    let mut s = String::new();
    let magnitude: u32 = if raw >= 0x8000 {
        s.append("-");
        0x10000 - raw as u32
    } else {
        raw as u32
    };
    push_dec(&mut s, (magnitude / scale) as u64);
    let mut rem: u32 = magnitude % scale;
    let ghost head = s@;
    if rem != 0 {
        s.append(".");
        let mut places: u8 = bits;
        while places > 0 && rem != 0
            invariant
                1 <= scale <= 0x10000,
                rem < scale,
                s@ + fraction_digits(rem as nat, scale as nat, places as nat) == head + "."@
                    + fraction_digits(
                    (magnitude % scale) as nat,
                    scale as nat,
                    bits as nat,
                ),
            decreases places,
        {
            let ghost before = s@;
            let ghost tail = fraction_digits(
                ((rem as nat) * 10 % (scale as nat)) as nat,
                scale as nat,
                (places - 1) as nat,
            );
            assert((rem as int) * 10 / (scale as int) < 10) by (nonlinear_arith)
                requires
                    rem < scale,
                    scale >= 1,
            ;
            s.append(digit_str((rem * 10 / scale) as u8));
            assert(s@ + tail =~= before + fraction_digits(
                rem as nat,
                scale as nat,
                places as nat,
            ));
            rem = rem * 10 % scale;
            places = places - 1;
        }
        assert(fraction_digits(rem as nat, scale as nat, places as nat) =~= Seq::<char>::empty());
        assert(s@ =~= s@ + Seq::<char>::empty());
    }
    assert(s@ =~= fixed_text(raw, format.count()));
    s
}

} // verus!
