//! Fields: a name and the encoding of a value, and the text of such a value
//! as it stands in a payload.

use std::collections::HashMap;
use byteorder::ByteOrder;
use vstd::prelude::*;
use vstd::string::StringExecFns;
use vstd::utf8::{decode_utf8, valid_utf8};
use crate::packet::Packet;
use crate::render::{
    dec_string, dec_text, fixed_string, fixed_text, hex_array_string, hex_array_text, hex_string,
    hex_text, push_dec, FracBits,
};

verus! {

/// How a value is encoded in a payload and how it is shown.
#[derive(Clone, Copy, Debug)]
pub enum ParamType<'a> {
    /// One byte, shown in hexadecimal.
    Hex8,
    /// Two bytes, least significant first, shown in hexadecimal.
    Hex16,
    /// Four bytes, least significant first, shown in hexadecimal.
    Hex32,
    /// One byte, shown in decimal.
    Dec8,
    /// Two bytes, least significant first, shown in decimal.
    Dec16,
    /// Four bytes, least significant first, shown in decimal.
    Dec32,
    /// A signed fixed-point number in two bytes, least significant first.
    Q16(FracBits),
    /// Bytes kept for later use: passed over and never shown.
    RFU(usize),
    /// An array of bytes of the given length, or, where that is zero, of
    /// the length that the payload gives for it.
    HexArray(u16),
    /// Text in UTF-8 of the given length in bytes, or, where that is zero,
    /// of the length that the payload gives for it.
    CharArray(u16),
    /// One byte, a code in a list of codes and labels.
    Table8(&'static [(u8, &'static str)]),
    /// One byte, a code in a shared map from codes to labels.
    Map8(&'a HashMap<u8, &'static str>),
}

/// The mathematical content of a [`ParamType`].
pub enum Encoding {
    Hex8,
    Hex16,
    Hex32,
    Dec8,
    Dec16,
    Dec32,
    Q16(nat),
    RFU(nat),
    HexArray(nat),
    CharArray(nat),
    Table8(Seq<(u8, Seq<char>)>),
    Map8(Map<u8, Seq<char>>),
}

/// A list of codes and labels as plain values.
pub open spec fn list_labels(entries: Seq<(u8, &'static str)>) -> Seq<(u8, Seq<char>)> {
    entries.map_values(|e: (u8, &'static str)| (e.0, e.1@))
}

/// A map from codes to labels as plain values.
pub open spec fn map_labels(entries: Map<u8, &'static str>) -> Map<u8, Seq<char>> {
    entries.map_values(|label: &'static str| label@)
}

impl<'a> View for ParamType<'a> {
    type V = Encoding;

    open spec fn view(&self) -> Encoding {
        match *self {
            ParamType::Hex8 => Encoding::Hex8,
            ParamType::Hex16 => Encoding::Hex16,
            ParamType::Hex32 => Encoding::Hex32,
            ParamType::Dec8 => Encoding::Dec8,
            ParamType::Dec16 => Encoding::Dec16,
            ParamType::Dec32 => Encoding::Dec32,
            ParamType::Q16(format) => Encoding::Q16(format.count()),
            ParamType::RFU(n) => Encoding::RFU(n as nat),
            ParamType::HexArray(n) => Encoding::HexArray(n as nat),
            ParamType::CharArray(n) => Encoding::CharArray(n as nat),
            ParamType::Table8(entries) => Encoding::Table8(list_labels(entries@)),
            ParamType::Map8(entries) => Encoding::Map8(map_labels(entries@)),
        }
    }
}

/// A named value and its encoding.
#[derive(Clone, Copy, Debug)]
pub struct Field<'a>(pub &'static str, pub ParamType<'a>);

/// The mathematical content of a [`Field`].
pub struct FieldModel {
    pub name: Seq<char>,
    pub encoding: Encoding,
}

impl<'a> View for Field<'a> {
    type V = FieldModel;

    open spec fn view(&self) -> FieldModel {
        FieldModel { name: self.0@, encoding: self.1@ }
    }
}

impl FieldModel {
    /// The number of bytes that the value takes, or zero where the payload
    /// says how many.
    pub open spec fn size(self) -> nat {
        match self.encoding {
            Encoding::Hex8 | Encoding::Dec8 => 1,
            Encoding::Hex16 | Encoding::Dec16 => 2,
            Encoding::Hex32 | Encoding::Dec32 => 4,
            Encoding::Q16(_) => 2,
            Encoding::RFU(n) => n,
            Encoding::HexArray(n) => n,
            Encoding::CharArray(n) => n,
            Encoding::Table8(_) => 1,
            Encoding::Map8(_) => 1,
        }
    }

    /// Whether a value of `len` bytes can be one of this field.
    pub open spec fn length_compatible(self, len: nat) -> bool {
        self.size() == 0 || self.size() == len
    }
}

impl<'a> Field<'a> {
    /// The number of bytes that the value takes, or zero where the payload
    /// says how many.
    pub fn size(&self) -> (r: usize)
        ensures
            r == self@.size(),
    {
        match self.1 {
            ParamType::Hex8 | ParamType::Dec8 => 1,
            ParamType::Hex16 | ParamType::Dec16 => 2,
            ParamType::Hex32 | ParamType::Dec32 => 4,
            ParamType::Q16(_) => 2,
            ParamType::RFU(n) => n,
            ParamType::HexArray(n) => n as usize,
            ParamType::CharArray(n) => n as usize,
            ParamType::Table8(_) => 1,
            ParamType::Map8(_) => 1,
        }
    }

    /// Whether the field is of bytes kept for later use.
    pub fn is_reserved(&self) -> (r: bool)
        ensures
            r == (self@.encoding is RFU),
    {
        match self.1 {
            ParamType::RFU(_) => true,
            _ => false,
        }
    }

    /// Whether a value of `len` bytes can be one of this field.
    pub fn length_compatible(&self, len: usize) -> (r: bool)
        ensures
            r == self@.length_compatible(len as nat),
    {
        let size = self.size();
        size == 0 || size == len
    }
}

/// The number that `bytes` hold, least significant byte first.
pub open spec fn le_value(bytes: Seq<u8>) -> nat
    decreases bytes.len(),
{
    if bytes.len() == 0 {
        0
    } else {
        bytes[0] as nat + 256 * le_value(bytes.drop_first())
    }
}

/// The label of the first entry of `entries` with the given code.
pub open spec fn list_label(entries: Seq<(u8, Seq<char>)>, code: u8) -> Option<Seq<char>>
    decreases entries.len(),
{
    if entries.len() == 0 {
        None
    } else if entries[0].0 == code {
        Some(entries[0].1)
    } else {
        list_label(entries.drop_first(), code)
    }
}

/// The label of `code` in `entries`, if it has one.
pub open spec fn map_label(entries: Map<u8, Seq<char>>, code: u8) -> Option<Seq<char>> {
    if entries.contains_key(code) {
        Some(entries[code])
    } else {
        None
    }
}

/// A code with its label, or with the word `Unknown` where it has none.
pub open spec fn code_text(code: u8, label: Option<Seq<char>>) -> Seq<char> {
    hex_text(code as nat) + " ("@ + (match label {
        Some(l) => l,
        None => "Unknown"@,
    }) + ")"@
}

/// What is shown in place of a value whose length does not fit its field.
pub open spec fn mismatch_text(expected: nat, actual: nat) -> Seq<char> {
    "length mismatch expected="@ + dec_text(expected) + ", actual="@ + dec_text(actual)
}

/// The text that `String::from_utf8_lossy` of the standard library makes of
/// `bytes`: valid UTF-8 as it stands, with U+FFFD in place of what is not.
pub uninterp spec fn utf8_lossy(bytes: Seq<u8>) -> Seq<char>;

/// The text that `bytes` hold in UTF-8: what they encode where they are
/// valid UTF-8, else what the lossy decoding makes of them.
pub open spec fn lossy_text(bytes: Seq<u8>) -> Seq<char> {
    if valid_utf8(bytes) {
        decode_utf8(bytes)
    } else {
        utf8_lossy(bytes)
    }
}

/// The text of a value of the given encoding that is held in `bytes`.
pub open spec fn value_text(encoding: Encoding, bytes: Seq<u8>) -> Seq<char> {
    match encoding {
        Encoding::Hex8 | Encoding::Hex16 | Encoding::Hex32 => hex_text(le_value(bytes)),
        Encoding::Dec8 | Encoding::Dec16 | Encoding::Dec32 => dec_text(le_value(bytes)),
        Encoding::Q16(bits) => fixed_text(le_value(bytes) as u16, bits),
        Encoding::RFU(_) | Encoding::HexArray(_) => hex_array_text(bytes),
        Encoding::CharArray(_) => lossy_text(bytes),
        Encoding::Table8(entries) => code_text(bytes[0], list_label(entries, bytes[0])),
        Encoding::Map8(entries) => code_text(bytes[0], map_label(entries, bytes[0])),
    }
}

/// What is shown for `field` where its value is the `len` bytes of
/// `payload` from `offset` on: nothing for bytes kept for later use, a note
/// where `len` does not fit the field, else the text of the value.  Only the
/// last of these looks at the payload.
pub open spec fn field_value(field: FieldModel, payload: Seq<u8>, offset: int, len: int) -> Option<
    Seq<char>,
> {
    if field.encoding is RFU {
        None
    } else if !field.length_compatible(len as nat) {
        Some(mismatch_text(field.size(), len as nat))
    } else {
        Some(value_text(field.encoding, payload.subrange(offset, offset + len)))
    }
}

/// `LittleEndian::read_u16` of the crate byteorder: the first two bytes of
/// `buf` as a number, least significant byte first.  It panics where `buf`
/// has fewer than two bytes.
#[verifier::external_body]
fn read_u16(buf: &[u8]) -> (r: u16)
    requires
        buf@.len() >= 2,
    ensures
        r == buf@[0] + 256 * buf@[1],
{
    byteorder::LittleEndian::read_u16(buf)
}

/// `LittleEndian::read_u32` of the crate byteorder: the first four bytes of
/// `buf` as a number, least significant byte first.  It panics where `buf`
/// has fewer than four bytes.
#[verifier::external_body]
fn read_u32(buf: &[u8]) -> (r: u32)
    requires
        buf@.len() >= 4,
    ensures
        r == buf@[0] + 256 * buf@[1] + 65536 * buf@[2] + 16777216 * buf@[3],
{
    byteorder::LittleEndian::read_u32(buf)
}

/// `String::from_utf8_lossy` of the standard library, as an owned string.
/// Its result depends on `bytes` alone and goes by the name `utf8_lossy`.
/// Valid UTF-8 comes back as the text that it encodes; of other bytes
/// nothing more is claimed.
#[verifier::external_body]
fn from_utf8_lossy(bytes: &[u8]) -> (r: String)
    ensures
        r@ == utf8_lossy(bytes@),
        valid_utf8(bytes@) ==> r@ == decode_utf8(bytes@),
{
    String::from_utf8_lossy(bytes).into_owned()
}

proof fn lemma_le_value(bytes: Seq<u8>)
    ensures
        bytes.len() == 1 ==> le_value(bytes) == bytes[0],
        bytes.len() == 2 ==> le_value(bytes) == bytes[0] + 256 * bytes[1],
        bytes.len() == 4 ==> le_value(bytes) == bytes[0] + 256 * bytes[1] + 65536 * bytes[2]
            + 16777216 * bytes[3],
{
    reveal_with_fuel(le_value, 5);
    if bytes.len() == 1 {
        assert(bytes.drop_first().len() == 0);
    } else if bytes.len() == 2 {
        assert(bytes.drop_first().drop_first().len() == 0);
    } else if bytes.len() == 4 {
        let b1 = bytes.drop_first();
        let b2 = b1.drop_first();
        let b3 = b2.drop_first();
        assert(b3.drop_first().len() == 0);
    }
}

/// The number in the `len` payload bytes from `offset` on.
fn read_number(pkt: &Packet, offset: usize, len: usize) -> (r: u32)
    requires
        pkt.wf(),
        len == 1 || len == 2 || len == 4,
        offset + len <= pkt.payload().len(),
    ensures
        r == le_value(pkt.payload().subrange(offset as int, offset + len)),
        len == 1 ==> r < 0x100,
        len == 2 ==> r < 0x10000,
{
    proof {
        lemma_le_value(pkt.payload().subrange(offset as int, offset + len));
    }
    if len == 1 {
        pkt.get(offset) as u32
    } else if len == 2 {
        read_u16(pkt.slice(offset, 2)) as u32
    } else {
        read_u32(pkt.slice(offset, 4))
    }
}

/// The label of the first entry with the given code.
fn find_label(entries: &'static [(u8, &'static str)], code: u8) -> (r: Option<&'static str>)
    ensures
        match list_label(list_labels(entries@), code) {
            Some(label) => r is Some && r->0@ == label,
            None => r is None,
        },
{
    let ghost all = list_labels(entries@);
    let mut i: usize = 0;
    assert(all.skip(0) =~= all);
    while i < entries.len()
        invariant
            i <= entries@.len(),
            all == list_labels(entries@),
            list_label(all, code) == list_label(all.skip(i as int), code),
        decreases entries@.len() - i,
    {
        proof {
            assert(all.skip(i as int).drop_first() =~= all.skip(i + 1));
            assert(all.skip(i as int)[0] == all[i as int]);
        }
        if entries[i].0 == code {
            return Some(entries[i].1);
        }
        i = i + 1;
    }
    assert(all.skip(i as int).len() == 0);
    None
}

/// A code with its label, or with the word `Unknown`.
fn code_string(code: u8, label: Option<&'static str>) -> (s: String)
    ensures
        s@ == code_text(
            code,
            match label {
                Some(l) => Some(l@),
                None => None,
            },
        ),
{
    let mut s = hex_string(code as u64);
    s.append(" (");
    match label {
        Some(l) => s.append(l),
        None => s.append("Unknown"),
    }
    s.append(")");
    s
}

/// The payload bytes from `offset` on, `len` of them, as `{ 0xNN 0xNN }`.
pub fn print_hexarr(pkt: &Packet, offset: usize, len: usize) -> (s: String)
    requires
        pkt.wf(),
        offset + len <= pkt.payload().len(),
    ensures
        s@ == hex_array_text(pkt.payload().subrange(offset as int, offset + len)),
{
    hex_array_string(pkt.slice(offset, len))
}

/// Whether the text of `field` is made from bytes of the payload: it is
/// not for bytes kept for later use, nor where `len` does not fit the field.
pub open spec fn reads_value(field: FieldModel, len: nat) -> bool {
    !(field.encoding is RFU) && field.length_compatible(len)
}

/// What is shown for `field` where its value is the `len` payload bytes from
/// `offset` on.  The bytes have to lie in the payload only where they are
/// read.
pub fn print_field(field: &Field, pkt: &Packet, offset: usize, len: usize) -> (r: Option<String>)
    requires
        pkt.wf(),
        reads_value(field@, len as nat) ==> offset + len <= pkt.payload().len(),
    ensures
        match field_value(field@, pkt.payload(), offset as int, len as int) {
            Some(text) => r is Some && r->0@ == text,
            None => r is None,
        },
{
    if field.is_reserved() {
        return None;
    }
    let ghost bytes = pkt.payload().subrange(offset as int, offset + len);
    let ret = if !field.length_compatible(len) {
        let mut s = String::from_str("length mismatch expected=");
        push_dec(&mut s, field.size() as u64);
        s.append(", actual=");
        push_dec(&mut s, len as u64);
        s
    } else {
        match field.1 {
            ParamType::Hex8 | ParamType::Hex16 | ParamType::Hex32 => {
                hex_string(read_number(pkt, offset, len) as u64)
            },
            ParamType::Dec8 | ParamType::Dec16 | ParamType::Dec32 => {
                dec_string(read_number(pkt, offset, len) as u64)
            },
            ParamType::Q16(format) => fixed_string(read_number(pkt, offset, len) as u16, format),
            ParamType::CharArray(_) => from_utf8_lossy(pkt.slice(offset, len)),
            ParamType::Table8(entries) => {
                let code = pkt.get(offset);
                code_string(code, find_label(entries, code))
            },
            ParamType::Map8(entries) => {
                let code = pkt.get(offset);
                match entries.get(&code) {
                    Some(label) => code_string(code, Some(*label)),
                    None => code_string(code, None),
                }
            },
            _ => print_hexarr(pkt, offset, len),
        }
    };
    Some(ret)
}

} // verus!
