//! Which packets are known, by name, and how each is decoded.

use vstd::prelude::*;
use vstd::string::StringExecFns;
use vstd::utf8::encode_utf8;
use crate::decode::{
    config_lines, config_result, field_models, print_config, print_static, static_outcome,
    Outcome, ParamTables,
};
use crate::error::{ErrorKind, UciPacketParseError};
use crate::field::{
    field_value, list_labels, print_field, print_hexarr, Encoding, Field, FieldModel, ParamType,
};
use crate::packet::{header_text, packet_of_text, to_packet, Packet, PacketId};
use crate::protocol::{
    GID_CORE, GID_PROPRIETARY, GID_RANGING, GID_SESSION, MT_CMD, MT_NTF, MT_RSP,
    OID_CORE_DEVICE_RESET, OID_CORE_DEVICE_STATUS, OID_CORE_SET_CONFIG, OID_NXP_BINDING_STAT,
    OID_NXP_CORE_DEVICE_INIT, OID_NXP_SE_COMM_ERROR, OID_NXP_SET_CALIBRATION, OID_RANGE_DATA,
    OID_RANGE_START, OID_SESSION_INIT, OID_SESSION_SET_APP_CONFIG, OID_SESSION_STATUS,
};
use crate::range_data::{print_range_data, range_data_outcome};
use crate::render::{
    dec_string, dec_text, hex_array_text, hex_byte_text, hex_padded_string, hex_padded_text,
    push_hex_byte,
};
use crate::report::{Line, Report};
use crate::tables::{
    app_conf_models, app_conf_params, devcal_models_nxp, devcal_params_nxp, device_conf_models,
    device_conf_models_nxp, device_conf_params, device_conf_params_nxp, device_status_codes,
    device_status_labels, field, session_state_codes, session_state_labels, status_code_labels,
    status_codes,
};

verus! {

/// The ways of decoding a payload.
#[derive(Clone, Copy, Debug, PartialEq, Eq, Structural)]
pub enum Decoder {
    /// A status code and nothing else.
    Status,
    /// The state of the device.
    DeviceStatus,
    /// A list of configuration parameters of the device.
    DeviceConfig,
    /// The id and the type of a new session.
    SessionInit,
    /// The state of a session and the reason for it.
    SessionStatus,
    /// The id of a session, then a list of its configuration parameters.
    SessionConfig,
    /// The version that the device is started with.
    DeviceInit,
    /// A channel, then one calibration parameter that fills the payload.
    Calibration,
    /// An error in talking to the secure element.
    SeCommError,
    /// The state of the binding to the secure element.
    BindingStatus,
    /// The id of the session to start ranging in.
    RangeStart,
    /// A ranging report.
    RangeData,
}

/// A known packet: its name and the way to decode its payload.
#[derive(Clone, Copy, Debug)]
pub struct PacketDesc {
    pub name: &'static str,
    pub print: Decoder,
}

/// The mathematical content of a [`PacketDesc`].
pub struct PacketModel {
    pub name: Seq<char>,
    pub print: Decoder,
}

impl View for PacketDesc {
    type V = PacketModel;

    open spec fn view(&self) -> PacketModel {
        PacketModel { name: self.name@, print: self.print }
    }
}

/// A known packet as plain values.
pub open spec fn known(name: Seq<char>, print: Decoder) -> Option<PacketModel> {
    Some(PacketModel { name, print })
}

/// The registry: the known packet with the given identity, if there is one.
pub open spec fn registered(id: PacketId) -> Option<PacketModel> {
    if id == PacketId(GID_CORE, OID_CORE_DEVICE_RESET, MT_RSP) {
        known("CORE_DEVICE_RESET_RSP"@, Decoder::Status)
    } else if id == PacketId(GID_CORE, OID_CORE_DEVICE_STATUS, MT_NTF) {
        known("CORE_DEVICE_STATUS_NTF"@, Decoder::DeviceStatus)
    } else if id == PacketId(GID_CORE, OID_CORE_SET_CONFIG, MT_CMD) {
        known("CORE_SET_CONFIG_CMD"@, Decoder::DeviceConfig)
    } else if id == PacketId(GID_CORE, OID_CORE_SET_CONFIG, MT_RSP) {
        known("CORE_SET_CONFIG_RSP"@, Decoder::Status)
    } else if id == PacketId(GID_SESSION, OID_SESSION_INIT, MT_CMD) {
        known("SESSION_INIT_CMD"@, Decoder::SessionInit)
    } else if id == PacketId(GID_SESSION, OID_SESSION_INIT, MT_RSP) {
        known("SESSION_INIT_RSP"@, Decoder::Status)
    } else if id == PacketId(GID_SESSION, OID_SESSION_STATUS, MT_NTF) {
        known("SESSION_STATUS_NTF"@, Decoder::SessionStatus)
    } else if id == PacketId(GID_SESSION, OID_SESSION_SET_APP_CONFIG, MT_CMD) {
        known("SESSION_SET_APP_CONFIG_CMD"@, Decoder::SessionConfig)
    } else if id == PacketId(GID_SESSION, OID_SESSION_SET_APP_CONFIG, MT_RSP) {
        known("SESSION_SET_APP_CONFIG_RSP"@, Decoder::Status)
    } else if id == PacketId(GID_PROPRIETARY, OID_NXP_CORE_DEVICE_INIT, MT_CMD) {
        known("NXP_CORE_DEVICE_INIT_CMD"@, Decoder::DeviceInit)
    } else if id == PacketId(GID_PROPRIETARY, OID_NXP_CORE_DEVICE_INIT, MT_RSP) {
        known("NXP_CORE_DEVICE_INIT_RSP"@, Decoder::Status)
    } else if id == PacketId(GID_PROPRIETARY, OID_NXP_SET_CALIBRATION, MT_CMD) {
        known("NXP_SET_CALIBRATION_CMD"@, Decoder::Calibration)
    } else if id == PacketId(GID_PROPRIETARY, OID_NXP_SET_CALIBRATION, MT_RSP) {
        known("NXP_SET_CALIBRATION_RSP"@, Decoder::Status)
    } else if id == PacketId(GID_PROPRIETARY, OID_NXP_SE_COMM_ERROR, MT_NTF) {
        known("NXP_SE_COMM_ERROR_NTF"@, Decoder::SeCommError)
    } else if id == PacketId(GID_PROPRIETARY, OID_NXP_BINDING_STAT, MT_NTF) {
        known("NXP_BINDING_STAT_NTF"@, Decoder::BindingStatus)
    } else if id == PacketId(GID_RANGING, OID_RANGE_START, MT_RSP) {
        known("RANGE_START_RSP"@, Decoder::Status)
    } else if id == PacketId(GID_RANGING, OID_RANGE_START, MT_CMD) {
        known("RANGE_START_CMD"@, Decoder::RangeStart)
    } else if id == PacketId(GID_RANGING, OID_RANGE_DATA, MT_NTF) {
        known("RANGE_DATA_NTF"@, Decoder::RangeData)
    } else {
        None
    }
}

/// Looks a packet up in the registry by its identity.
pub fn find_packet(id: PacketId) -> (r: Option<PacketDesc>)
    ensures
        match registered(id) {
            Some(model) => r is Some && r->0@ == model,
            None => r is None,
        },
{
    if id == PacketId(GID_CORE, OID_CORE_DEVICE_RESET, MT_RSP) {
        Some(PacketDesc { name: "CORE_DEVICE_RESET_RSP", print: Decoder::Status })
    } else if id == PacketId(GID_CORE, OID_CORE_DEVICE_STATUS, MT_NTF) {
        Some(PacketDesc { name: "CORE_DEVICE_STATUS_NTF", print: Decoder::DeviceStatus })
    } else if id == PacketId(GID_CORE, OID_CORE_SET_CONFIG, MT_CMD) {
        Some(PacketDesc { name: "CORE_SET_CONFIG_CMD", print: Decoder::DeviceConfig })
    } else if id == PacketId(GID_CORE, OID_CORE_SET_CONFIG, MT_RSP) {
        Some(PacketDesc { name: "CORE_SET_CONFIG_RSP", print: Decoder::Status })
    } else if id == PacketId(GID_SESSION, OID_SESSION_INIT, MT_CMD) {
        Some(PacketDesc { name: "SESSION_INIT_CMD", print: Decoder::SessionInit })
    } else if id == PacketId(GID_SESSION, OID_SESSION_INIT, MT_RSP) {
        Some(PacketDesc { name: "SESSION_INIT_RSP", print: Decoder::Status })
    } else if id == PacketId(GID_SESSION, OID_SESSION_STATUS, MT_NTF) {
        Some(PacketDesc { name: "SESSION_STATUS_NTF", print: Decoder::SessionStatus })
    } else if id == PacketId(GID_SESSION, OID_SESSION_SET_APP_CONFIG, MT_CMD) {
        Some(PacketDesc { name: "SESSION_SET_APP_CONFIG_CMD", print: Decoder::SessionConfig })
    } else if id == PacketId(GID_SESSION, OID_SESSION_SET_APP_CONFIG, MT_RSP) {
        Some(PacketDesc { name: "SESSION_SET_APP_CONFIG_RSP", print: Decoder::Status })
    } else if id == PacketId(GID_PROPRIETARY, OID_NXP_CORE_DEVICE_INIT, MT_CMD) {
        Some(PacketDesc { name: "NXP_CORE_DEVICE_INIT_CMD", print: Decoder::DeviceInit })
    } else if id == PacketId(GID_PROPRIETARY, OID_NXP_CORE_DEVICE_INIT, MT_RSP) {
        Some(PacketDesc { name: "NXP_CORE_DEVICE_INIT_RSP", print: Decoder::Status })
    } else if id == PacketId(GID_PROPRIETARY, OID_NXP_SET_CALIBRATION, MT_CMD) {
        Some(PacketDesc { name: "NXP_SET_CALIBRATION_CMD", print: Decoder::Calibration })
    } else if id == PacketId(GID_PROPRIETARY, OID_NXP_SET_CALIBRATION, MT_RSP) {
        Some(PacketDesc { name: "NXP_SET_CALIBRATION_RSP", print: Decoder::Status })
    } else if id == PacketId(GID_PROPRIETARY, OID_NXP_SE_COMM_ERROR, MT_NTF) {
        Some(PacketDesc { name: "NXP_SE_COMM_ERROR_NTF", print: Decoder::SeCommError })
    } else if id == PacketId(GID_PROPRIETARY, OID_NXP_BINDING_STAT, MT_NTF) {
        Some(PacketDesc { name: "NXP_BINDING_STAT_NTF", print: Decoder::BindingStatus })
    } else if id == PacketId(GID_RANGING, OID_RANGE_START, MT_RSP) {
        Some(PacketDesc { name: "RANGE_START_RSP", print: Decoder::Status })
    } else if id == PacketId(GID_RANGING, OID_RANGE_START, MT_CMD) {
        Some(PacketDesc { name: "RANGE_START_CMD", print: Decoder::RangeStart })
    } else if id == PacketId(GID_RANGING, OID_RANGE_DATA, MT_NTF) {
        Some(PacketDesc { name: "RANGE_DATA_NTF", print: Decoder::RangeData })
    } else {
        None
    }
}

/// The states of the binding to the secure element.
pub open spec fn binding_labels() -> Seq<(u8, Seq<char>)> {
    seq![
        (0u8, "Not bound"@),
        (1u8, "Bound,unlocked"@),
        (2u8, "Bound,locked"@),
        (3u8, "Unknown"@),
    ]
}

/// The fields of a payload that is decoded in a fixed order, for the ways
/// of decoding that have such an order.
pub open spec fn decoder_fields(decoder: Decoder) -> Seq<FieldModel> {
    match decoder {
        Decoder::Status => seq![field("STATUS"@, Encoding::Map8(status_code_labels()))],
        Decoder::DeviceStatus => seq![field("STATUS"@, Encoding::Map8(device_status_labels()))],
        Decoder::SessionInit => seq![
            field("SESSION_ID"@, Encoding::Hex32),
            field("SESSION_TYPE"@, Encoding::Hex8),
        ],
        Decoder::SessionStatus => seq![
            field("SESSION_ID"@, Encoding::Hex32),
            field("SESSION_STATE"@, Encoding::Map8(session_state_labels())),
            field("REASON_CODE"@, Encoding::Hex8),
        ],
        Decoder::SessionConfig => seq![field("SESSION_ID"@, Encoding::Hex32)],
        Decoder::DeviceInit => seq![
            field("MAJOR_VER"@, Encoding::Hex8),
            field("MINOR_VER"@, Encoding::Hex8),
        ],
        Decoder::SeCommError => seq![
            field("STATUS"@, Encoding::Map8(status_code_labels())),
            field("CLA_INS"@, Encoding::Hex16),
            field("T=1_STATUS_CODE"@, Encoding::Hex16),
        ],
        Decoder::BindingStatus => seq![
            field("STATUS"@, Encoding::Table8(binding_labels())),
            field("SE binding count"@, Encoding::Dec8),
            field("UWBS binding count"@, Encoding::Dec8),
        ],
        Decoder::RangeStart => seq![field("SESSION_ID"@, Encoding::Hex32)],
        _ => Seq::empty(),
    }
}

/// The outcome of reading a list of parameters at `off`.
pub open spec fn config_outcome(payload: Seq<u8>, off: int, tables: ParamTables) -> Outcome {
    Outcome { lines: config_lines(payload, off, tables), result: config_result(payload, off) }
}

/// The tables of the configuration parameters of the device.
pub open spec fn device_tables() -> ParamTables {
    ParamTables { standard: device_conf_models(), extended: Some(device_conf_models_nxp()) }
}

/// The table of the configuration parameters of a session.
pub open spec fn session_tables() -> ParamTables {
    ParamTables { standard: app_conf_models(), extended: None }
}

/// The line of the calibration parameter behind the channel: under the name
/// of its field and its id where the table holds it, else under its id as a
/// byte array.  A field of bytes kept for later use has no line.
pub open spec fn calibration_lines(payload: Seq<u8>) -> Seq<Line> {
    let id = payload[1];
    let len = payload.len() - 2;
    match map_field(devcal_models_nxp(), id) {
        Some(f) => match field_value(f, payload, 2, len) {
            Some(text) => seq![Line::Param(f.name + "("@ + hex_byte_text(id) + ")"@, text)],
            None => Seq::empty(),
        },
        None => seq![
            Line::Param(
                hex_padded_text(id) + ":Unknown"@,
                hex_array_text(payload.subrange(2, 2 + len)),
            ),
        ],
    }
}

/// The field of `id` in `table`, if it has one.
pub open spec fn map_field(table: Map<u8, FieldModel>, id: u8) -> Option<FieldModel> {
    if table.contains_key(id) {
        Some(table[id])
    } else {
        None
    }
}

/// The outcome of decoding a calibration command.
pub open spec fn calibration_outcome(payload: Seq<u8>) -> Outcome {
    if payload.len() < 3 {
        Outcome {
            lines: Seq::empty(),
            result: Err(UciPacketParseError { kind: ErrorKind::CalibrationTooShort }),
        }
    } else {
        Outcome {
            lines: seq![Line::Param("Channel"@, dec_text(payload[0] as nat))] + calibration_lines(
                payload,
            ),
            result: Ok(()),
        }
    }
}

/// The outcome of decoding a payload in the given way.
pub open spec fn decoder_outcome(decoder: Decoder, payload: Seq<u8>) -> Outcome {
    match decoder {
        Decoder::DeviceConfig => config_outcome(payload, 0, device_tables()),
        Decoder::SessionConfig => {
            let head = static_outcome(decoder_fields(decoder), payload);
            if head.result is Err {
                head
            } else {
                let list = config_outcome(payload, 4, session_tables());
                Outcome { lines: head.lines + list.lines, result: list.result }
            }
        },
        Decoder::Calibration => calibration_outcome(payload),
        Decoder::RangeData => range_data_outcome(payload),
        _ => static_outcome(decoder_fields(decoder), payload),
    }
}

/// The one line that stands for a packet that the registry does not hold:
/// its header in words and all of its payload as a byte array.
pub open spec fn unrecognized_line(bytes: Seq<u8>) -> Line {
    Line::Comment(
        "unrecognized packet "@ + header_text(bytes) + " => payload: "@ + hex_array_text(
            bytes.subrange(4, bytes.len() as int),
        ),
    )
}

/// The identity of the packet made of `bytes`.
pub open spec fn packet_id(bytes: Seq<u8>) -> PacketId {
    PacketId(bytes[0] & 0xf, bytes[1], bytes[0] >> 5)
}

/// The outcome of decoding the packet made of `bytes`: for a known packet
/// its name and what its way of decoding gives, for any other the one line
/// that stands for it.
pub open spec fn packet_outcome(bytes: Seq<u8>) -> Outcome {
    match registered(packet_id(bytes)) {
        Some(desc) => {
            let body = decoder_outcome(desc.print, bytes.subrange(4, bytes.len() as int));
            Outcome { lines: seq![Line::Id(desc.name)] + body.lines, result: body.result }
        },
        None => Outcome { lines: seq![unrecognized_line(bytes)], result: Ok(()) },
    }
}

/// The outcome of decoding a packet from its text in hexadecimal digits.
pub open spec fn parse_outcome(text: Seq<u8>) -> Outcome {
    match packet_of_text(text) {
        Ok(bytes) => packet_outcome(bytes),
        Err(kind) => Outcome { lines: Seq::empty(), result: Err(UciPacketParseError { kind }) },
    }
}

/// The states of the binding to the secure element.
fn binding_list() -> (t: &'static [(u8, &'static str)])
    ensures
        list_labels(t@) == binding_labels(),
{
    let t: &'static [(u8, &'static str)] = &[
        (0u8, "Not bound"),
        (1u8, "Bound,unlocked"),
        (2u8, "Bound,locked"),
        (3u8, "Unknown"),
    ];
    assert(list_labels(t@) =~= binding_labels());
    t
}

/// Decodes a calibration command: the channel, then the one parameter that
/// fills the rest of the payload.
pub fn print_calibration(report: &mut Report, pkt: &Packet) -> (r: Result<
    (),
    UciPacketParseError,
>)
    requires
        pkt.wf(),
    ensures
        final(report)@ == old(report)@ + calibration_outcome(pkt.payload()).lines,
        r == calibration_outcome(pkt.payload()).result,
{
    if pkt.len() < 3 {
        assert(report@ + Seq::<Line>::empty() =~= report@);
        return Err(UciPacketParseError::new(ErrorKind::CalibrationTooShort));
    }
    report.print_param("Channel", dec_string(pkt.get(0) as u64).as_str());
    let id = pkt.get(1);
    let len = (pkt.len() - 2) as usize;
    let table = devcal_params_nxp();
    match table.get(&id) {
        Some(f) => {
            assert(map_field(devcal_models_nxp(), id) == Some(f@));
            if let Some(val) = print_field(f, pkt, 2, len) {
                let mut name = String::from_str(f.0);
                name.append("(");
                push_hex_byte(&mut name, id);
                name.append(")");
                report.print_param(name.as_str(), val.as_str());
            }
        },
        None => {
            let mut name = hex_padded_string(id);
            name.append(":Unknown");
            assert(map_field(devcal_models_nxp(), id) is None);
            report.print_param(name.as_str(), print_hexarr(pkt, 2, len).as_str());
        },
    }
    assert(report@ =~= old(report)@ + calibration_outcome(pkt.payload()).lines);
    Ok(())
}

/// Decodes the payload of a packet in the given way and adds what it holds
/// to the report.
pub fn print_payload(report: &mut Report, pkt: &Packet, decoder: Decoder) -> (r: Result<
    (),
    UciPacketParseError,
>)
    requires
        pkt.wf(),
    ensures
        final(report)@ == old(report)@ + decoder_outcome(decoder, pkt.payload()).lines,
        r == decoder_outcome(decoder, pkt.payload()).result,
{
    match decoder {
        Decoder::Status => {
            let codes = status_codes();
            let fields = vec![Field("STATUS", ParamType::Map8(&codes))];
            assert(field_models(fields@) =~= decoder_fields(decoder));
            print_static(report, pkt, &fields)
        },
        Decoder::DeviceStatus => {
            let codes = device_status_codes();
            let fields = vec![Field("STATUS", ParamType::Map8(&codes))];
            assert(field_models(fields@) =~= decoder_fields(decoder));
            print_static(report, pkt, &fields)
        },
        Decoder::DeviceConfig => {
            let table = device_conf_params();
            let ext_table = device_conf_params_nxp();
            print_config(report, pkt, 0, &table, Some(&ext_table))
        },
        Decoder::SessionInit => {
            let fields = vec![
                Field("SESSION_ID", ParamType::Hex32),
                Field("SESSION_TYPE", ParamType::Hex8),
            ];
            assert(field_models(fields@) =~= decoder_fields(decoder));
            print_static(report, pkt, &fields)
        },
        Decoder::SessionStatus => {
            let codes = session_state_codes();
            let fields = vec![
                Field("SESSION_ID", ParamType::Hex32),
                Field("SESSION_STATE", ParamType::Map8(&codes)),
                Field("REASON_CODE", ParamType::Hex8),
            ];
            assert(field_models(fields@) =~= decoder_fields(decoder));
            print_static(report, pkt, &fields)
        },
        Decoder::SessionConfig => {
            let fields = vec![Field("SESSION_ID", ParamType::Hex32)];
            assert(field_models(fields@) =~= decoder_fields(decoder));
            if let Err(e) = print_static(report, pkt, &fields) {
                return Err(e);
            }
            let ghost head = report@;
            let table = app_conf_params();
            let r = print_config(report, pkt, 4, &table, None);
            proof {
                let first = static_outcome(decoder_fields(decoder), pkt.payload());
                let list = config_outcome(pkt.payload(), 4, session_tables());
                assert(report@ =~= old(report)@ + (first.lines + list.lines));
            }
            r
        },
        Decoder::DeviceInit => {
            let fields = vec![
                Field("MAJOR_VER", ParamType::Hex8),
                Field("MINOR_VER", ParamType::Hex8),
            ];
            assert(field_models(fields@) =~= decoder_fields(decoder));
            print_static(report, pkt, &fields)
        },
        Decoder::Calibration => print_calibration(report, pkt),
        Decoder::SeCommError => {
            let codes = status_codes();
            let fields = vec![
                Field("STATUS", ParamType::Map8(&codes)),
                Field("CLA_INS", ParamType::Hex16),
                Field("T=1_STATUS_CODE", ParamType::Hex16),
            ];
            assert(field_models(fields@) =~= decoder_fields(decoder));
            print_static(report, pkt, &fields)
        },
        Decoder::BindingStatus => {
            let fields = vec![
                Field("STATUS", ParamType::Table8(binding_list())),
                Field("SE binding count", ParamType::Dec8),
                Field("UWBS binding count", ParamType::Dec8),
            ];
            assert(field_models(fields@) =~= decoder_fields(decoder));
            print_static(report, pkt, &fields)
        },
        Decoder::RangeStart => {
            let fields = vec![Field("SESSION_ID", ParamType::Hex32)];
            assert(field_models(fields@) =~= decoder_fields(decoder));
            print_static(report, pkt, &fields)
        },
        Decoder::RangeData => print_range_data(report, pkt),
    }
}

/// Decodes a packet into a report.  A packet that the registry holds gives
/// its name and what its payload holds; any other gives one line with its
/// header and its payload as a byte array, and no error.
pub fn print_packet(pkt: Packet) -> (r: (Report, Result<(), UciPacketParseError>))
    requires
        pkt.wf(),
    ensures
        r.0@ == packet_outcome(pkt@).lines,
        r.1 == packet_outcome(pkt@).result,
{
    let mut report = Report::new();
    let id = PacketId::from((pkt.gid(), pkt.oid(), pkt.mt()));
    assert(id == packet_id(pkt@));
    match find_packet(id) {
        Some(desc) => {
            report.print_id(desc.name);
            let result = print_payload(&mut report, &pkt, desc.print);
            assert(report@ =~= packet_outcome(pkt@).lines);
            (report, result)
        },
        None => {
            let mut line = String::from_str("unrecognized packet ");
            line.append(pkt.to_string().as_str());
            line.append(" => payload: ");
            line.append(print_hexarr(&pkt, 0, pkt.len() as usize).as_str());
            report.print_comment(line.as_str());
            assert(pkt.payload().subrange(0, pkt.payload().len() as int) =~= pkt.payload());
            assert(report@ =~= packet_outcome(pkt@).lines);
            (report, Ok(()))
        },
    }
}

/// Decodes a packet from its text in hexadecimal digits: the report, and
/// the error that ended the decode, if one did.
pub fn parse(s: String) -> (r: (Report, Result<(), UciPacketParseError>))
    ensures
        r.0@ == parse_outcome(encode_utf8(s@)).lines,
        r.1 == parse_outcome(encode_utf8(s@)).result,
{
    match to_packet(s) {
        Ok(pkt) => print_packet(pkt),
        Err(e) => (Report::new(), Err(e)),
    }
}

} // verus!
