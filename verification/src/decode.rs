//! The two ways of reading a payload: as fields in a fixed order, and as a
//! counted list of parameters, each with its id and length.

use std::collections::HashMap;
use vstd::prelude::*;
use vstd::string::StringExecFns;
use crate::error::{ErrorKind, UciPacketParseError};
use crate::field::{field_value, print_field, print_hexarr, reads_value, Field, FieldModel};
use crate::packet::Packet;
use crate::render::{dec_string, dec_text, hex_array_text, hex_byte_text, push_hex_byte};
use crate::report::{Line, Report};

verus! {

/// The fields of a list as plain values.
pub open spec fn field_models(fields: Seq<Field>) -> Seq<FieldModel> {
    fields.map_values(|f: Field| f@)
}

/// What a walk over fields in a fixed order gives: the lines it adds, the
/// offset it reaches, and whether it got through all fields.
pub struct StaticWalk {
    pub lines: Seq<Line>,
    pub offset: int,
    pub complete: bool,
}

/// The line that a field adds to a report: none for bytes kept for later
/// use, else its name and the text of its value.
pub open spec fn field_lines(field: FieldModel, payload: Seq<u8>, offset: int, len: int) -> Seq<
    Line,
> {
    match field_value(field, payload, offset, len) {
        Some(text) => seq![Line::Param(field.name, text)],
        None => Seq::empty(),
    }
}

/// The walk over `fields` from `offset` on: one field after the other, each
/// of its own size, up to the first that would end behind the payload.
pub open spec fn static_walk(fields: Seq<FieldModel>, payload: Seq<u8>, offset: int) -> StaticWalk
    decreases fields.len(),
{
    if fields.len() == 0 {
        StaticWalk { lines: Seq::empty(), offset, complete: true }
    } else {
        let len = fields[0].size() as int;
        if offset + len > payload.len() {
            StaticWalk { lines: Seq::empty(), offset, complete: false }
        } else {
            let rest = static_walk(fields.drop_first(), payload, offset + len);
            StaticWalk {
                lines: field_lines(fields[0], payload, offset, len) + rest.lines,
                offset: rest.offset,
                complete: rest.complete,
            }
        }
    }
}

/// The result of a walk: an error where a field did not fit.
pub open spec fn static_result(walk: StaticWalk) -> Result<(), UciPacketParseError> {
    if walk.complete {
        Ok(())
    } else {
        Err(UciPacketParseError { kind: ErrorKind::LengthMismatch })
    }
}

/// What a decode gives: the lines it adds to the report, and how it ends.
pub struct Outcome {
    pub lines: Seq<Line>,
    pub result: Result<(), UciPacketParseError>,
}

/// The outcome of reading fields in a fixed order from the start of the
/// payload.
pub open spec fn static_outcome(fields: Seq<FieldModel>, payload: Seq<u8>) -> Outcome {
    let walk = static_walk(fields, payload, 0);
    Outcome { lines: walk.lines, result: static_result(walk) }
}

/// Reads `fields` in their order from `offset` on and adds each to the
/// report.  At the first field that would end behind the payload it stops
/// with an error; what was added before stays.
pub fn _print_static(
    report: &mut Report,
    pkt: &Packet,
    fields: &Vec<Field>,
    offset: &mut usize,
) -> (r: Result<(), UciPacketParseError>)
    requires
        pkt.wf(),
    ensures
        ({
            let walk = static_walk(field_models(fields@), pkt.payload(), *old(offset) as int);
            &&& final(report)@ == old(report)@ + walk.lines
            &&& *final(offset) == walk.offset
            &&& r == static_result(walk)
        }),
{
    let ghost models = field_models(fields@);
    let ghost total = static_walk(models, pkt.payload(), *offset as int);
    let ghost mut added = Seq::<Line>::empty();
    let size = pkt.len() as usize;
    let mut i: usize = 0;
    assert(models.skip(0) =~= models);
    assert(report@ + added =~= report@);
    while i < fields.len()
        invariant
            pkt.wf(),
            size == pkt.payload().len(),
            i <= fields@.len(),
            models == field_models(fields@),
            total == static_walk(models, pkt.payload(), *old(offset) as int),
            report@ == old(report)@ + added,
            ({
                let rest = static_walk(models.skip(i as int), pkt.payload(), *offset as int);
                &&& total.lines == added + rest.lines
                &&& total.offset == rest.offset
                &&& total.complete == rest.complete
            }),
        decreases fields@.len() - i,
    {
        let field = &fields[i];
        let len = field.size();
        proof {
            assert(models.skip(i as int).drop_first() =~= models.skip(i + 1));
            assert(models.skip(i as int)[0] == fields@[i as int]@);
        }
        if len > size || *offset > size - len {
            proof {
                assert(added + Seq::<Line>::empty() =~= added);
            }
            return Err(UciPacketParseError::new(ErrorKind::LengthMismatch));
        }
        let ghost lines = field_lines(field@, pkt.payload(), *offset as int, len as int);
        if let Some(v) = print_field(field, pkt, *offset, len) {
            report.print_param(field.0, v.as_str());
        }
        proof {
            assert(report@ =~= old(report)@ + (added + lines));
            let rest = static_walk(models.skip(i + 1), pkt.payload(), *offset + len);
            assert(added + (lines + rest.lines) =~= (added + lines) + rest.lines);
            added = added + lines;
        }
        *offset = *offset + len;
        i = i + 1;
    }
    proof {
        assert(added + Seq::<Line>::empty() =~= added);
    }
    Ok(())
}

/// Reads `fields` in their order from the start of the payload and adds each
/// to the report.
pub fn print_static(report: &mut Report, pkt: &Packet, fields: &Vec<Field>) -> (r: Result<
    (),
    UciPacketParseError,
>)
    requires
        pkt.wf(),
    ensures
        ({
            let walk = static_walk(field_models(fields@), pkt.payload(), 0);
            &&& final(report)@ == old(report)@ + walk.lines
            &&& r == static_result(walk)
        }),
{
    let mut offset: usize = 0;
    _print_static(report, pkt, fields, &mut offset)
}

/// The first byte of an id from which on a parameter is a vendor's own.
pub const EXTENDED_ID_START: u8 = 0xe0;

/// The key of a vendor's parameter in a table: its two id bytes in one
/// number, the first as the high byte.
pub open spec fn extended_key(id0: u8, id1: u8) -> u16 {
    (id0 as int * 256 + id1 as int) as u16
}

/// A table of parameters by their id, as plain values.
pub open spec fn standard_models(table: Map<u8, Field>) -> Map<u8, FieldModel> {
    table.map_values(|f: Field| f@)
}

/// A table of a vendor's parameters by their two id bytes, as plain values.
pub open spec fn extended_models(table: Map<u16, Field>) -> Map<(u8, u8), FieldModel> {
    Map::new(
        |id: (u8, u8)| table.contains_key(extended_key(id.0, id.1)),
        |id: (u8, u8)| table[extended_key(id.0, id.1)]@,
    )
}

/// The tables that a list of parameters is read with.
pub struct ParamTables {
    pub standard: Map<u8, FieldModel>,
    pub extended: Option<Map<(u8, u8), FieldModel>>,
}

/// Whether the parameter at `offset` has the header of three bytes: its
/// first id byte is a vendor's, three bytes are left, and there is a table
/// of the vendor's parameters.
pub open spec fn is_extended(payload: Seq<u8>, offset: int, tables: ParamTables) -> bool {
    &&& payload[offset] >= EXTENDED_ID_START
    &&& offset + 3 <= payload.len()
    &&& tables.extended is Some
}

/// Where the value of the parameter at `offset` starts.
pub open spec fn value_start(payload: Seq<u8>, offset: int, tables: ParamTables) -> int {
    if is_extended(payload, offset, tables) {
        offset + 3
    } else {
        offset + 2
    }
}

/// The length that the parameter at `offset` gives for its value.
pub open spec fn value_len(payload: Seq<u8>, offset: int, tables: ParamTables) -> int {
    if is_extended(payload, offset, tables) {
        payload[offset + 2] as int
    } else {
        payload[offset + 1] as int
    }
}

/// The field that the tables hold for the parameter at `offset`, if any.
pub open spec fn param_field(payload: Seq<u8>, offset: int, tables: ParamTables) -> Option<
    FieldModel,
> {
    let id0 = payload[offset];
    let id1 = payload[offset + 1];
    if is_extended(payload, offset, tables) {
        if tables.extended->0.contains_key((id0, id1)) {
            Some(tables.extended->0[(id0, id1)])
        } else {
            None
        }
    } else {
        if tables.standard.contains_key(id0) {
            Some(tables.standard[id0])
        } else {
            None
        }
    }
}

/// The id of the parameter at `offset` as it is shown behind a known name.
pub open spec fn known_id_text(payload: Seq<u8>, offset: int, tables: ParamTables) -> Seq<char> {
    if is_extended(payload, offset, tables) {
        "("@ + hex_byte_text(payload[offset]) + ":"@ + hex_byte_text(payload[offset + 1]) + ")"@
    } else {
        "("@ + hex_byte_text(payload[offset]) + ")"@
    }
}

/// The name under which a parameter stands that no table holds.
pub open spec fn unknown_name(payload: Seq<u8>, offset: int, tables: ParamTables) -> Seq<char> {
    if is_extended(payload, offset, tables) {
        "Unknown("@ + hex_byte_text(payload[offset]) + ","@ + hex_byte_text(payload[offset + 1])
            + ")"@
    } else {
        "Unknown("@ + hex_byte_text(payload[offset]) + ")"@
    }
}

/// The line of the parameter at `offset`: under the name of its field and
/// its id where a table holds it, else under `Unknown` as a byte array.  A
/// field of bytes kept for later use has no line.
pub open spec fn entry_lines(payload: Seq<u8>, offset: int, tables: ParamTables) -> Seq<Line> {
    let start = value_start(payload, offset, tables);
    let len = value_len(payload, offset, tables);
    match param_field(payload, offset, tables) {
        Some(field) => match field_value(field, payload, start, len) {
            Some(text) => seq![
                Line::Param(field.name + known_id_text(payload, offset, tables), text),
            ],
            None => Seq::empty(),
        },
        None => seq![
            Line::Param(
                unknown_name(payload, offset, tables),
                hex_array_text(payload.subrange(start, start + len)),
            ),
        ],
    }
}

/// The line that stands for what is left of a payload where no further
/// parameter can be read from it.
pub open spec fn residue_line() -> Line {
    Line::Param("RESIDUE"@, "parse error"@)
}

/// Whether the value of the parameter at `offset` is read: it is for a
/// parameter that no table holds, which is shown byte by byte, and for one
/// whose length fits its field, unless the field is of bytes kept for later
/// use.
pub open spec fn value_is_read(payload: Seq<u8>, offset: int, tables: ParamTables) -> bool {
    match param_field(payload, offset, tables) {
        Some(field) => reads_value(field, value_len(payload, offset, tables) as nat),
        None => true,
    }
}

/// Whether the parameter at `offset` can be shown: its header lies in the
/// payload, and so does its value where that is read.
pub open spec fn param_fits(payload: Seq<u8>, offset: int, tables: ParamTables) -> bool {
    &&& offset + 2 <= payload.len()
    &&& value_is_read(payload, offset, tables) ==> value_start(payload, offset, tables)
        + value_len(payload, offset, tables) <= payload.len()
}

/// The lines of `count` parameters from `offset` on.  Each parameter is
/// followed by the next behind the length that it gives for its value,
/// whether that length fits its field or not.  Where the payload ends before
/// the header of a parameter, or before a value that is read, the line of the
/// residue stands in its place and nothing follows.
pub open spec fn param_lines(payload: Seq<u8>, offset: int, count: nat, tables: ParamTables) -> Seq<
    Line,
>
    decreases count,
{
    if count == 0 {
        Seq::empty()
    } else if !param_fits(payload, offset, tables) {
        seq![residue_line()]
    } else {
        entry_lines(payload, offset, tables) + param_lines(
            payload,
            value_start(payload, offset, tables) + value_len(payload, offset, tables),
            (count - 1) as nat,
            tables,
        )
    }
}

/// Whether a list of parameters can be read at `off`: the payload has five
/// bytes or more, and the count of the list lies in it.
pub open spec fn has_param_list(payload: Seq<u8>, off: int) -> bool {
    payload.len() >= 5 && 0 <= off < payload.len()
}

/// The lines of the list of parameters at `off`: their number, then the
/// lines of the parameters.
pub open spec fn config_lines(payload: Seq<u8>, off: int, tables: ParamTables) -> Seq<Line> {
    if has_param_list(payload, off) {
        seq![Line::Param("Number of parameters"@, dec_text(payload[off] as nat))] + param_lines(
            payload,
            off + 1,
            payload[off] as nat,
            tables,
        )
    } else {
        Seq::empty()
    }
}

/// The result of reading the list of parameters at `off`: an error for a
/// payload of fewer than five bytes, and another where the count of the list
/// would lie behind the payload.
pub open spec fn config_result(payload: Seq<u8>, off: int) -> Result<(), UciPacketParseError> {
    if payload.len() < 5 {
        Err(UciPacketParseError { kind: ErrorKind::EmptyPayload })
    } else if !has_param_list(payload, off) {
        Err(UciPacketParseError { kind: ErrorKind::LengthMismatch })
    } else {
        Ok(())
    }
}

/// The tables that `print_config` is given, as plain values.
pub open spec fn param_tables(
    table: &HashMap<u8, Field>,
    ext_table: Option<&HashMap<u16, Field>>,
) -> ParamTables {
    ParamTables {
        standard: standard_models(table@),
        extended: match ext_table {
            Some(t) => Some(extended_models(t@)),
            None => None,
        },
    }
}

/// The key of a vendor's parameter in a table.
pub fn ext_key(id0: u8, id1: u8) -> (key: u16)
    ensures
        key == extended_key(id0, id1),
{
    id0 as u16 * 256 + id1 as u16
}

/// Reads the list of parameters at `off` and adds it to the report: the
/// count, then each parameter under the name that the tables give it.
///
/// A parameter whose first id byte is `0xe0` or more has a header of three
/// bytes, two of id and one of length, if three bytes are left and
/// `ext_table` is given; any other has one byte of id and one of length.  A
/// parameter that no table holds is shown as a byte array, and one whose
/// length does not fit its field by a note in place of its value; either way
/// the list goes on behind it.  Where the payload ends before the header of
/// a parameter, or before a value that is to be read, a line `RESIDUE` closes
/// the list.
pub fn print_config(
    report: &mut Report,
    pkt: &Packet,
    off: usize,
    table: &HashMap<u8, Field>,
    ext_table: Option<&HashMap<u16, Field>>,
) -> (r: Result<(), UciPacketParseError>)
    requires
        pkt.wf(),
    ensures
        final(report)@ == old(report)@ + config_lines(
            pkt.payload(),
            off as int,
            param_tables(table, ext_table),
        ),
        r == config_result(pkt.payload(), off as int),
{
    let size = pkt.len() as usize;
    if size < 5 {
        assert(report@ + Seq::<Line>::empty() =~= report@);
        return Err(UciPacketParseError::new(ErrorKind::EmptyPayload));
    }
    if off >= size {
        assert(report@ + Seq::<Line>::empty() =~= report@);
        return Err(UciPacketParseError::new(ErrorKind::LengthMismatch));
    }
    let ghost payload = pkt.payload();
    let ghost tables = param_tables(table, ext_table);
    let num: u8 = pkt.get(off);
    let mut n: u8 = 0;
    let mut offset: usize = off + 1;

    report.print_param("Number of parameters", dec_string(num as u64).as_str());
    let ghost head = report@;
    let ghost mut added = Seq::<Line>::empty();
    let ghost total = param_lines(payload, off + 1, num as nat, tables);
    assert(head + added =~= head);
    assert(added + total =~= total);

    while n < num
        invariant_except_break
            report@ == head + added,
            total == added + param_lines(payload, offset as int, (num - n) as nat, tables),
        invariant
            pkt.wf(),
            payload == pkt.payload(),
            tables == param_tables(table, ext_table),
            size == payload.len(),
            size <= 255,
            n <= num,
            offset <= size + 256,
        ensures
            report@ == head + total,
        decreases num - n,
    {
        if offset + 2 > size {
            report.print_param("RESIDUE", "parse error");
            proof {
                assert(report@ =~= head + (added + seq![residue_line()]));
            }
            break;
        }
        let b0 = pkt.get(offset);
        let b1 = pkt.get(offset + 1);
        let extended = b0 >= EXTENDED_ID_START && offset + 3 <= size && ext_table.is_some();
        assert(extended == is_extended(payload, offset as int, tables));
        let len: usize = if extended {
            pkt.get(offset + 2) as usize
        } else {
            b1 as usize
        };
        let start: usize = if extended {
            offset + 3
        } else {
            offset + 2
        };
        let found: Option<&Field> = if extended {
            let key = ext_key(b0, b1);
            ext_table.unwrap().get(&key)
        } else {
            table.get(&b0)
        };
        proof {
            if extended {
                assert(tables.extended->0.contains_key((b0, b1)) == ext_table->0@.contains_key(
                    extended_key(b0, b1),
                ));
            }
        }
        let reads = match found {
            Some(field) => !field.is_reserved() && field.length_compatible(len),
            None => true,
        };
        assert(reads == value_is_read(payload, offset as int, tables));
        if reads && start + len > size {
            report.print_param("RESIDUE", "parse error");
            proof {
                assert(report@ =~= head + (added + seq![residue_line()]));
            }
            break;
        }
        match found {
            Some(field) => {
                assert(param_field(payload, offset as int, tables) == Some(field@));
                if let Some(val) = print_field(field, pkt, start, len) {
                    let mut name = String::from_str(field.0);
                    name.append("(");
                    push_hex_byte(&mut name, b0);
                    if extended {
                        name.append(":");
                        push_hex_byte(&mut name, b1);
                    }
                    name.append(")");
                    assert(name@ =~= field@.name + known_id_text(payload, offset as int, tables));
                    report.print_param(name.as_str(), val.as_str());
                }
            },
            None => {
                assert(param_field(payload, offset as int, tables) is None);
                let mut name = String::from_str("Unknown(");
                push_hex_byte(&mut name, b0);
                if extended {
                    name.append(",");
                    push_hex_byte(&mut name, b1);
                }
                name.append(")");
                assert(name@ =~= unknown_name(payload, offset as int, tables));
                report.print_param(name.as_str(), print_hexarr(pkt, start, len).as_str());
            },
        }
        proof {
            let lines = entry_lines(payload, offset as int, tables);
            let rest = param_lines(payload, start + len, (num - n - 1) as nat, tables);
            assert(report@ =~= head + (added + lines));
            assert(added + (lines + rest) =~= (added + lines) + rest);
            added = added + lines;
        }
        offset = start + len;
        n = n + 1;
    }
    proof {
        assert(head =~= old(report)@ + seq![
            Line::Param("Number of parameters"@, dec_text(num as nat)),
        ]);
        assert(report@ =~= old(report)@ + config_lines(payload, off as int, tables));
    }
    Ok(())
}

} // verus!
