//! What holds of the decoder on every input.

use vstd::arithmetic::div_mod::{lemma_fundamental_div_mod, lemma_mod_multiples_basic};
use vstd::arithmetic::power2::{
    lemma2_to64, lemma_pow2_adds, lemma_pow2_pos, lemma_pow2_unfold, pow2,
};
use vstd::prelude::*;
use crate::decode::{
    config_result, has_param_list, is_extended, known_id_text, param_field, param_fits,
    param_lines, residue_line, unknown_name, value_len, value_start, ParamTables,
    EXTENDED_ID_START,
};
use crate::error::{ErrorKind, UciPacketParseError};
use crate::field::{field_value, mismatch_text, FieldModel};
use crate::packet::{hex_bytes, hex_decode, is_hex_text, packet_error, packet_of_text};
use crate::registry::{packet_id, packet_outcome, parse_outcome, registered, unrecognized_line};
use crate::render::{fraction_rest, hex_array_text};
use crate::report::Line;

verus! {

/// A text of odd length is read as the same text without its last
/// character.
pub proof fn odd_text_drops_last_character(text: Seq<u8>)
    requires
        text.len() % 2 == 1,
    ensures
        hex_decode(text) == hex_decode(text.drop_last()),
        packet_of_text(text) == packet_of_text(text.drop_last()),
        parse_outcome(text) == parse_outcome(text.drop_last()),
{
    let shorter = text.drop_last();
    assert(shorter.len() / 2 == text.len() / 2);
    assert(is_hex_text(text) == is_hex_text(shorter)) by {
        assert forall|i: int| 0 <= i < 2 * (text.len() / 2) implies text[i] == shorter[i] by {}
    }
    assert(hex_bytes(text) =~= hex_bytes(shorter));
}

/// Fewer than four bytes are no packet: they are too short, whatever they
/// hold.
pub proof fn short_packet_is_too_short(bytes: Seq<u8>)
    requires
        bytes.len() < 4,
    ensures
        packet_error(bytes) == Some(ErrorKind::TooShort),
        forall|text: Seq<u8>|
            hex_decode(text) == Some(bytes) ==> #[trigger] packet_of_text(text) == Err::<
                Seq<u8>,
                _,
            >(ErrorKind::TooShort),
        forall|text: Seq<u8>|
            hex_decode(text) == Some(bytes) ==> (#[trigger] parse_outcome(text)).result == Err::<
                (),
                _,
            >(UciPacketParseError { kind: ErrorKind::TooShort }),
{
}

/// Bytes whose fourth byte is not the number of bytes behind it are no
/// packet: the error names both numbers.
pub proof fn wrong_length_is_a_mismatch(bytes: Seq<u8>)
    requires
        bytes.len() >= 4,
        bytes[3] as int != bytes.len() - 4,
    ensures
        packet_error(bytes) == Some(
            ErrorKind::PayloadLengthMismatch {
                declared: bytes[3],
                actual: (bytes.len() - 4) as usize,
            },
        ),
        forall|text: Seq<u8>|
            hex_decode(text) == Some(bytes) ==> #[trigger] packet_of_text(text) == Err::<
                Seq<u8>,
                _,
            >(
                ErrorKind::PayloadLengthMismatch {
                    declared: bytes[3],
                    actual: (bytes.len() - 4) as usize,
                },
            ),
{
}

/// A field of a fixed size takes values of that length and of no other; a
/// field of size zero takes values of every length.
pub proof fn compatible_lengths(field: FieldModel, len: nat)
    ensures
        field.size() != 0 ==> (field.length_compatible(len) <==> len == field.size()),
        field.size() == 0 ==> field.length_compatible(len),
        field.length_compatible(field.size()),
{
}

/// Where fewer than two bytes are left for a parameter that the count asks
/// for, the line of the residue closes the list, and the list is read
/// without an error.
pub proof fn short_residue_closes_the_list(
    payload: Seq<u8>,
    offset: int,
    count: nat,
    tables: ParamTables,
)
    requires
        count > 0,
        payload.len() - offset < 2,
    ensures
        param_lines(payload, offset, count, tables) == seq![residue_line()],
        forall|off: int| has_param_list(payload, off) ==> #[trigger] config_result(payload, off) is Ok,
{
}

/// A parameter has the header of three bytes if and only if its first id
/// byte is `0xe0` or more, three bytes or more are left, and there is a table
/// of the vendor's parameters.  Any other parameter has the header of two
/// bytes and is looked up by its first byte alone, whatever that byte is.
pub proof fn extended_header_rule(payload: Seq<u8>, offset: int, tables: ParamTables)
    requires
        0 <= offset,
        offset + 2 <= payload.len(),
    ensures
        is_extended(payload, offset, tables) <==> (payload[offset] >= 0xe0 && payload.len() - offset
            >= 3 && tables.extended is Some),
        is_extended(payload, offset, tables) ==> {
            &&& value_start(payload, offset, tables) == offset + 3
            &&& value_len(payload, offset, tables) == payload[offset + 2]
            &&& param_field(payload, offset, tables) is Some
                <==> tables.extended->0.contains_key((payload[offset], payload[offset + 1]))
        },
        !is_extended(payload, offset, tables) ==> {
            &&& value_start(payload, offset, tables) == offset + 2
            &&& value_len(payload, offset, tables) == payload[offset + 1]
            &&& param_field(payload, offset, tables) is Some <==> tables.standard.contains_key(
                payload[offset],
            )
        },
{
    assert(EXTENDED_ID_START == 0xe0);
}

/// A parameter that no table holds is shown under `Unknown` as the byte
/// array of its value; the parameters behind it are read as they would be
/// without it, and the list is read without an error.
pub proof fn unknown_parameter_is_dumped(
    payload: Seq<u8>,
    offset: int,
    count: nat,
    tables: ParamTables,
)
    requires
        count > 0,
        0 <= offset,
        param_fits(payload, offset, tables),
        param_field(payload, offset, tables) is None,
    ensures
        ({
            let start = value_start(payload, offset, tables);
            let len = value_len(payload, offset, tables);
            param_lines(payload, offset, count, tables) == seq![
                Line::Param(
                    unknown_name(payload, offset, tables),
                    hex_array_text(payload.subrange(start, start + len)),
                ),
            ] + param_lines(payload, start + len, (count - 1) as nat, tables)
        }),
        forall|off: int| has_param_list(payload, off) ==> #[trigger] config_result(payload, off) is Ok,
{
}

/// Bytes kept for later use are never shown, and every other field is,
/// whatever offset and length it is given.
pub proof fn only_reserved_bytes_are_hidden(
    field: FieldModel,
    payload: Seq<u8>,
    offset: int,
    len: int,
)
    ensures
        field_value(field, payload, offset, len) is None <==> field.encoding is RFU,
        !(field.encoding is RFU) && !field.length_compatible(len as nat) ==> field_value(
            field,
            payload,
            offset,
            len,
        ) == Some(mismatch_text(field.size(), len as nat)),
{
}

/// A parameter whose length does not fit its field is shown by a note in
/// place of its value, wherever the length leads; the list goes on behind
/// that length.
pub proof fn misfit_parameter_is_noted(
    payload: Seq<u8>,
    offset: int,
    count: nat,
    tables: ParamTables,
)
    requires
        count > 0,
        0 <= offset,
        offset + 2 <= payload.len(),
        param_field(payload, offset, tables) is Some,
        !(param_field(payload, offset, tables)->0.encoding is RFU),
        !param_field(payload, offset, tables)->0.length_compatible(
            value_len(payload, offset, tables) as nat,
        ),
    ensures
        ({
            let field = param_field(payload, offset, tables)->0;
            let start = value_start(payload, offset, tables);
            let len = value_len(payload, offset, tables);
            param_lines(payload, offset, count, tables) == seq![
                Line::Param(
                    field.name + known_id_text(payload, offset, tables),
                    mismatch_text(field.size(), len as nat),
                ),
            ] + param_lines(payload, start + len, (count - 1) as nat, tables)
        }),
{
}

/// A packet that the registry does not hold gives one line, its header and
/// its payload as a byte array, and no error.
pub proof fn unknown_packet_is_dumped(bytes: Seq<u8>)
    requires
        packet_error(bytes) is None,
        registered(packet_id(bytes)) is None,
    ensures
        packet_outcome(bytes).lines == seq![unrecognized_line(bytes)],
        packet_outcome(bytes).result is Ok,
{
}

/// A remainder that is a multiple of `2^done` leaves nothing to divide
/// behind as many decimal places as `2^bits` has more factors of two.
proof fn fraction_ends(rem: nat, bits: nat, done: nat, places: nat)
    requires
        done <= bits,
        rem < pow2(bits),
        rem % pow2(done) == 0,
        places >= bits - done,
    ensures
        fraction_rest(rem, pow2(bits), places) == 0,
    decreases places,
{
    let scale = pow2(bits);
    lemma_pow2_pos(bits);
    lemma_pow2_pos(done);
    if rem == 0 {
    } else if done == bits {
        lemma_fundamental_div_mod(rem as int, scale as int);
        assert(rem / scale == 0) by (nonlinear_arith)
            requires
                rem < scale,
                0 < scale,
        ;
    } else {
        let half = pow2(done);
        let step = pow2(done + 1);
        let others = pow2((bits - done - 1) as nat);
        lemma_pow2_unfold(done + 1);
        lemma_pow2_adds(done + 1, (bits - done - 1) as nat);
        lemma_pow2_pos(done + 1);
        let m = rem as int / half as int;
        let q = (rem * 10) as int / scale as int;
        let next = rem * 10 % scale;
        lemma_fundamental_div_mod(rem as int, half as int);
        lemma_fundamental_div_mod((rem * 10) as int, scale as int);
        assert(next as int == (5 * m - others * q) * step) by (nonlinear_arith)
            requires
                rem == half * m,
                step == 2 * half,
                scale == step * others,
                rem * 10 == scale * q + next,
        ;
        lemma_mod_multiples_basic(5 * m - others * q, step as int);
        fraction_ends(next, bits, done + 1, (places - 1) as nat);
    }
}

/// The decimal places of a fixed-point number are all there are: behind as
/// many places as the format has fractional bits, nothing is left to divide.
pub proof fn fixed_point_fraction_is_exact(rem: nat, bits: nat)
    requires
        rem < pow2(bits),
    ensures
        fraction_rest(rem, pow2(bits), bits) == 0,
{
    lemma2_to64();
    fraction_ends(rem, bits, 0, bits);
}

} // verus!
