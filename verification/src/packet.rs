//! The packet: four header bytes and the payload they announce.

use vstd::prelude::*;
use vstd::slice::slice_subrange;
use vstd::string::StringExecFns;
use vstd::utf8::encode_utf8;
use crate::error::{ErrorKind, UciPacketParseError};
use crate::render::{hex_padded_text, hex_text, push_hex_digits};

verus! {

/// The value of a hexadecimal digit, in either case.
pub open spec fn hex_value(c: u8) -> Option<u8> {
    if 0x30 <= c <= 0x39 {
        Some((c - 0x30) as u8)
    } else if 0x61 <= c <= 0x66 {
        Some((c - 0x61 + 10) as u8)
    } else if 0x41 <= c <= 0x46 {
        Some((c - 0x41 + 10) as u8)
    } else {
        None
    }
}

/// Whether every character of every pair is a hexadecimal digit.  A last
/// character without a partner is not looked at.
pub open spec fn is_hex_text(text: Seq<u8>) -> bool {
    forall|i: int| 0 <= i < 2 * (text.len() / 2) ==> (#[trigger] hex_value(text[i])) is Some
}

/// The bytes that the pairs of digits stand for, in order.
pub open spec fn hex_bytes(text: Seq<u8>) -> Seq<u8> {
    Seq::new(
        text.len() / 2,
        |i: int| (16 * hex_value(text[2 * i])->0 + hex_value(text[2 * i + 1])->0) as u8,
    )
}

/// The bytes that a text of hexadecimal digits stands for, two digits to a
/// byte, or `None` where a pair holds anything else.
pub open spec fn hex_decode(text: Seq<u8>) -> Option<Seq<u8>> {
    if is_hex_text(text) {
        Some(hex_bytes(text))
    } else {
        None
    }
}

/// What is wrong with `bytes` as a packet, if anything.
pub open spec fn packet_error(bytes: Seq<u8>) -> Option<ErrorKind> {
    if bytes.len() < 4 {
        Some(ErrorKind::TooShort)
    } else if bytes[3] as int != bytes.len() - 4 {
        Some(
            ErrorKind::PayloadLengthMismatch {
                declared: bytes[3],
                actual: (bytes.len() - 4) as usize,
            },
        )
    } else {
        None
    }
}

/// The bytes of the packet that a text of hexadecimal digits stands for, or
/// what is wrong with it.
pub open spec fn packet_of_text(text: Seq<u8>) -> Result<Seq<u8>, ErrorKind> {
    match hex_decode(text) {
        None => Err(ErrorKind::HexParseError),
        Some(bytes) => match packet_error(bytes) {
            Some(kind) => Err(kind),
            None => Ok(bytes),
        },
    }
}

/// The header of a packet in words.
pub open spec fn header_text(bytes: Seq<u8>) -> Seq<char> {
    "mt:"@ + hex_text((bytes[0] >> 5) as nat) + " gid:"@ + hex_text((bytes[0] & 0xf) as nat)
        + " oid:"@ + hex_text(bytes[1] as nat) + " len:"@ + hex_padded_text(bytes[3])
}

/// A packet whose header agrees with its length.
pub struct Packet {
    bytes: Vec<u8>,
}

impl View for Packet {
    type V = Seq<u8>;

    /// All bytes of the packet, header first.
    closed spec fn view(&self) -> Seq<u8> {
        self.bytes@
    }
}

impl Packet {
    /// At least a header, and as many payload bytes as it announces.
    pub open spec fn wf(&self) -> bool {
        packet_error(self@) is None
    }

    /// The bytes behind the header.
    pub open spec fn payload(&self) -> Seq<u8> {
        self@.subrange(4, self@.len() as int)
    }

    /// The message type: the three highest bits of the first byte.
    pub open spec fn spec_mt(&self) -> u8 {
        self@[0] >> 5
    }

    /// The group: the four lowest bits of the first byte.
    pub open spec fn spec_gid(&self) -> u8 {
        self@[0] & 0xf
    }

    /// The operation: the second byte.
    pub open spec fn spec_oid(&self) -> u8 {
        self@[1]
    }

    pub fn new(bytes: Vec<u8>) -> (p: Packet)
        requires
            packet_error(bytes@) is None,
        ensures
            p@ == bytes@,
            p.wf(),
    {
        Packet { bytes }
    }

    /// The packet made of `bytes`, if they are one.
    pub fn from_bytes(bytes: Vec<u8>) -> (r: Result<Packet, UciPacketParseError>)
        ensures
            match packet_error(bytes@) {
                Some(kind) => r == Err::<Packet, _>(UciPacketParseError { kind }),
                None => r is Ok && r->Ok_0@ == bytes@ && r->Ok_0.wf(),
            },
    {
        if bytes.len() < 4 {
            return Err(UciPacketParseError::new(ErrorKind::TooShort));
        }
        let declared = bytes[3];
        let actual = bytes.len() - 4;
        if actual != declared as usize {
            return Err(
                UciPacketParseError::new(ErrorKind::PayloadLengthMismatch { declared, actual }),
            );
        }
        Ok(Packet::new(bytes))
    }

    pub fn mt(&self) -> (r: u8)
        requires
            self.wf(),
        ensures
            r == self.spec_mt(),
            r < 8,
    {
        let b = self.bytes[0];
        assert(b >> 5 < 8) by (bit_vector);
        b >> 5
    }

    pub fn gid(&self) -> (r: u8)
        requires
            self.wf(),
        ensures
            r == self.spec_gid(),
            r < 16,
    {
        let b = self.bytes[0];
        assert(b & 0xf < 16) by (bit_vector);
        b & 0xf
    }

    pub fn oid(&self) -> (r: u8)
        requires
            self.wf(),
        ensures
            r == self.spec_oid(),
    {
        self.bytes[1]
    }

    /// The length of the payload.
    pub fn len(&self) -> (r: u8)
        requires
            self.wf(),
        ensures
            r == self.payload().len(),
            r == self@[3],
    {
        self.bytes[3]
    }

    /// The payload byte at `idx`.
    pub fn get(&self, idx: usize) -> (r: u8)
        requires
            self.wf(),
            idx < self.payload().len(),
        ensures
            r == self.payload()[idx as int],
    {
        self.bytes[idx + 4]
    }

    /// The `len` payload bytes from `idx` on.
    pub fn slice<'a>(&'a self, idx: usize, len: usize) -> (r: &'a [u8])
        requires
            self.wf(),
            idx + len <= self.payload().len(),
        ensures
            r@ == self.payload().subrange(idx as int, idx + len),
    {
        let r = slice_subrange(self.bytes.as_slice(), idx + 4, idx + len + 4);
        assert(r@ =~= self.payload().subrange(idx as int, idx + len));
        r
    }

    /// The header in words.
    pub fn to_string(&self) -> (s: String)
        requires
            self.wf(),
        ensures
            s@ == header_text(self@),
    {
        let mut s = String::from_str("mt:0x");
        push_hex_digits(&mut s, self.mt() as u64);
        s.append(" gid:0x");
        push_hex_digits(&mut s, self.gid() as u64);
        s.append(" oid:0x");
        push_hex_digits(&mut s, self.oid() as u64);
        s.append(" len:");
        if self.len() < 16 {
            s.append(" ");
        }
        s.append("0x");
        push_hex_digits(&mut s, self.len() as u64);
        proof {
            reveal_strlit("mt:0x");
            reveal_strlit("mt:");
            reveal_strlit("0x");
            reveal_strlit(" gid:0x");
            reveal_strlit(" gid:");
            reveal_strlit(" oid:0x");
            reveal_strlit(" oid:");
            assert("mt:0x"@ =~= "mt:"@ + "0x"@);
            assert(" gid:0x"@ =~= " gid:"@ + "0x"@);
            assert(" oid:0x"@ =~= " oid:"@ + "0x"@);
            assert(s@ =~= header_text(self@));
        }
        s
    }
}

/// The group, operation and message type of a packet: what it is looked up
/// by.
#[derive(Clone, Copy, Debug, PartialEq, Eq, Hash, Structural)]
pub struct PacketId(pub u8, pub u8, pub u8);

impl From<(u8, u8, u8)> for PacketId {
    fn from(v: (u8, u8, u8)) -> (id: PacketId) {
        PacketId(v.0, v.1, v.2)
    }
}

impl vstd::std_specs::convert::FromSpecImpl<(u8, u8, u8)> for PacketId {
    open spec fn obeys_from_spec() -> bool {
        true
    }

    open spec fn from_spec(v: (u8, u8, u8)) -> PacketId {
        PacketId(v.0, v.1, v.2)
    }
}

/// The value of a hexadecimal digit, in either case.
pub fn hex_digit_value(c: u8) -> (r: Option<u8>)
    ensures
        r == hex_value(c),
{
    if 0x30 <= c && c <= 0x39 {
        Some(c - 0x30)
    } else if 0x61 <= c && c <= 0x66 {
        Some(c - 0x61 + 10)
    } else if 0x41 <= c && c <= 0x46 {
        Some(c - 0x41 + 10)
    } else {
        None
    }
}

/// Reads a text of hexadecimal digits, two to a byte.  A last character
/// without a partner is dropped.
pub fn parse_hexstr(text: &[u8]) -> (r: Result<Vec<u8>, UciPacketParseError>)
    ensures
        match hex_decode(text@) {
            Some(bytes) => r is Ok && r->Ok_0@ == bytes,
            None => r == Err::<Vec<u8>, _>(UciPacketParseError { kind: ErrorKind::HexParseError }),
        },
{
    let pairs = text.len() / 2;
    let mut bytes: Vec<u8> = Vec::new();
    let mut i: usize = 0;
    while i < pairs
        invariant
            pairs == text@.len() / 2,
            text@.len() <= usize::MAX,
            i <= pairs,
            bytes@.len() == i,
            forall|j: int| 0 <= j < 2 * i ==> (#[trigger] hex_value(text@[j])) is Some,
            forall|j: int| 0 <= j < i ==> bytes@[j] == hex_bytes(text@)[j],
        decreases pairs - i,
    {
        let high = hex_digit_value(text[2 * i]);
        let low = hex_digit_value(text[2 * i + 1]);
        match (high, low) {
            (Some(h), Some(l)) => {
                bytes.push(16 * h + l);
            },
            _ => {
                assert(!is_hex_text(text@));
                return Err(UciPacketParseError::new(ErrorKind::HexParseError));
            },
        }
        i = i + 1;
    }
    assert(is_hex_text(text@));
    assert(bytes@ =~= hex_bytes(text@));
    Ok(bytes)
}

/// Reads a packet from its text in hexadecimal digits.
pub fn to_packet(s: String) -> (r: Result<Packet, UciPacketParseError>)
    ensures
        match packet_of_text(encode_utf8(s@)) {
            Ok(bytes) => r is Ok && r->Ok_0@ == bytes && r->Ok_0.wf(),
            Err(kind) => r == Err::<Packet, _>(UciPacketParseError { kind }),
        },
{
    match parse_hexstr(s.as_str().as_bytes()) {
        Ok(bytes) => Packet::from_bytes(bytes),
        Err(e) => Err(e),
    }
}

} // verus!
