//! Ranging reports: a fixed head, then one record for each measurement.

use vstd::prelude::*;
use vstd::string::StringExecFns;
use crate::decode::{
    _print_static, field_models, print_static, static_outcome, static_result, static_walk, Outcome,
};
use crate::error::{ErrorKind, UciPacketParseError};
use crate::field::{list_labels, Encoding, Field, FieldModel, ParamType};
use crate::packet::Packet;
use crate::render::{dec_text, push_dec, FracBits};
use crate::report::{Line, Report};
use crate::tables::{field, status_code_labels, status_codes};

verus! {

/// How long the addresses in a ranging report are.
#[derive(Clone, Copy, Debug, PartialEq, Eq, Structural)]
pub enum MacType {
    Short,
    Long,
    Unknown,
}

impl From<u8> for MacType {
    fn from(v: u8) -> (t: MacType) {
        match v {
            2 => MacType::Short,
            1 => MacType::Long,
            _ => MacType::Unknown,
        }
    }
}

impl vstd::std_specs::convert::FromSpecImpl<u8> for MacType {
    open spec fn obeys_from_spec() -> bool {
        true
    }

    open spec fn from_spec(v: u8) -> MacType {
        mac_type_of(v)
    }
}

/// The length of the addresses that the byte `v` stands for.
pub open spec fn mac_type_of(v: u8) -> MacType {
    if v == 2 {
        MacType::Short
    } else if v == 1 {
        MacType::Long
    } else {
        MacType::Unknown
    }
}

/// What kind of measurement a ranging report holds.
#[derive(Clone, Copy, Debug, PartialEq, Eq, Structural)]
pub enum ReportType {
    Tdoa,
    Twr,
    DownTdoa,
    Unknown,
}

impl From<u8> for ReportType {
    fn from(v: u8) -> (t: ReportType) {
        match v {
            0 => ReportType::Tdoa,
            1 => ReportType::Twr,
            2 => ReportType::DownTdoa,
            _ => ReportType::Unknown,
        }
    }
}

impl vstd::std_specs::convert::FromSpecImpl<u8> for ReportType {
    open spec fn obeys_from_spec() -> bool {
        true
    }

    open spec fn from_spec(v: u8) -> ReportType {
        report_type_of(v)
    }
}

/// The kind of measurement that the byte `v` stands for.
pub open spec fn report_type_of(v: u8) -> ReportType {
    if v == 0 {
        ReportType::Tdoa
    } else if v == 1 {
        ReportType::Twr
    } else if v == 2 {
        ReportType::DownTdoa
    } else {
        ReportType::Unknown
    }
}

impl ReportType {
    /// The place of the kind in the list of kinds, from zero.
    pub open spec fn spec_index(self) -> u8 {
        match self {
            ReportType::Tdoa => 0,
            ReportType::Twr => 1,
            ReportType::DownTdoa => 2,
            ReportType::Unknown => 3,
        }
    }

    /// The place of the kind in the list of kinds, from zero.
    pub fn index(self) -> (r: u8)
        ensures
            r == self.spec_index(),
    {
        match self {
            ReportType::Tdoa => 0,
            ReportType::Twr => 1,
            ReportType::DownTdoa => 2,
            ReportType::Unknown => 3,
        }
    }
}

/// Line of sight or not.
pub open spec fn nlos_labels() -> Seq<(u8, Seq<char>)> {
    seq![(0u8, "LoS"@), (1u8, "NLoS"@)]
}

/// The kinds of measurement.
pub open spec fn ranging_type_labels() -> Seq<(u8, Seq<char>)> {
    seq![(0u8, "TDoA"@), (1u8, "TWR"@), (2u8, "Down TDoA"@)]
}

/// The lengths of addresses.
pub open spec fn mac_mode_labels() -> Seq<(u8, Seq<char>)> {
    seq![(0u8, "short"@), (1u8, "long"@)]
}

/// The fields of one two-way ranging measurement.  The address is one byte
/// for short addresses and eight bytes otherwise.
pub open spec fn twr_fields(mac_type: MacType) -> Seq<FieldModel> {
    seq![
        field(
            "Mac Address"@,
            if mac_type == MacType::Short {
                Encoding::Hex8
            } else {
                Encoding::HexArray(8)
            },
        ),
        field("Status"@, Encoding::Map8(status_code_labels())),
        field("NLoS"@, Encoding::Table8(nlos_labels())),
        field("Distance"@, Encoding::Dec16),
        field("AoA Azimuth"@, Encoding::Q16(7)),
        field("AoA Azimuth FOM"@, Encoding::Dec8),
        field("AoA Elevation"@, Encoding::Q16(7)),
        field("AoA Elevation FOM"@, Encoding::Dec8),
        field("AoA Destination Azimuth"@, Encoding::Q16(7)),
        field("AoA Destination Azimuth FOMR"@, Encoding::Dec8),
        field("AoA Destination Elevation"@, Encoding::Q16(7)),
        field("AoA Destination Elevation FOMR"@, Encoding::Dec8),
        field("Slot Index"@, Encoding::Dec8),
    ]
}

/// The fields of the head of a ranging report: twenty-five bytes.
pub open spec fn range_data_fields() -> Seq<FieldModel> {
    seq![
        field("Sequence number"@, Encoding::Dec32),
        field("Session ID"@, Encoding::Hex32),
        field(""@, Encoding::RFU(1)),
        field("Ranging interval"@, Encoding::Dec32),
        field("Ranging type"@, Encoding::Table8(ranging_type_labels())),
        field(""@, Encoding::RFU(1)),
        field("Mac addressing mode"@, Encoding::Table8(mac_mode_labels())),
        field(""@, Encoding::RFU(8)),
        field("Number of Ranging Measurements"@, Encoding::Dec8),
    ]
}

/// The heading of the measurement with the given index.
pub open spec fn measurement_heading(index: nat) -> Line {
    Line::Comment("Report "@ + dec_text(index))
}

/// The outcome of reading the measurements from `index` up to `count`, the
/// first of them at `offset`.  Each has its heading.  Only two-way ranging
/// has a layout: any other kind ends the decode behind the first heading.
pub open spec fn measurements(
    payload: Seq<u8>,
    offset: int,
    index: nat,
    count: nat,
    report_type: ReportType,
    mac_type: MacType,
) -> Outcome
    decreases count - index,
{
    if index >= count {
        Outcome { lines: Seq::empty(), result: Ok(()) }
    } else if report_type != ReportType::Twr {
        Outcome {
            lines: seq![measurement_heading(index)],
            result: Err(
                UciPacketParseError {
                    kind: ErrorKind::UnsupportedMeasurement {
                        report_type: report_type.spec_index(),
                    },
                },
            ),
        }
    } else {
        let walk = static_walk(twr_fields(mac_type), payload, offset);
        if !walk.complete {
            Outcome {
                lines: seq![measurement_heading(index)] + walk.lines,
                result: static_result(walk),
            }
        } else {
            let rest = measurements(
                payload,
                walk.offset,
                index + 1,
                count,
                report_type,
                mac_type,
            );
            Outcome {
                lines: seq![measurement_heading(index)] + walk.lines + rest.lines,
                result: rest.result,
            }
        }
    }
}

/// Where the number of measurements stands in a ranging report, and where
/// the first measurement is read from.
pub const MEASUREMENTS_AT: usize = 24;

/// Where the byte stands that tells the kind of measurement.
pub const REPORT_TYPE_AT: usize = 13;

/// Where the byte stands that tells the length of the addresses.
pub const MAC_TYPE_AT: usize = 16;

/// The outcome of decoding a ranging report: its head, the number of
/// measurements on a line of its own, then the measurements.
pub open spec fn range_data_outcome(payload: Seq<u8>) -> Outcome {
    if payload.len() < 25 {
        Outcome {
            lines: Seq::empty(),
            result: Err(UciPacketParseError { kind: ErrorKind::RangingTooShort }),
        }
    } else {
        let head = static_outcome(range_data_fields(), payload);
        if head.result is Err {
            head
        } else {
            let count = payload[MEASUREMENTS_AT as int];
            let rest = measurements(
                payload,
                MEASUREMENTS_AT as int,
                0,
                count as nat,
                report_type_of(payload[REPORT_TYPE_AT as int]),
                mac_type_of(payload[MAC_TYPE_AT as int]),
            );
            Outcome {
                lines: head.lines + seq![Line::Comment("nr = "@ + dec_text(count as nat))]
                    + rest.lines,
                result: rest.result,
            }
        }
    }
}

/// Line of sight or not.
fn nlos_list() -> (t: &'static [(u8, &'static str)])
    ensures
        list_labels(t@) == nlos_labels(),
{
    let t: &'static [(u8, &'static str)] = &[(0u8, "LoS"), (1u8, "NLoS")];
    assert(list_labels(t@) =~= nlos_labels());
    t
}

/// The kinds of measurement.
fn ranging_type_list() -> (t: &'static [(u8, &'static str)])
    ensures
        list_labels(t@) == ranging_type_labels(),
{
    let t: &'static [(u8, &'static str)] = &[(0u8, "TDoA"), (1u8, "TWR"), (2u8, "Down TDoA")];
    assert(list_labels(t@) =~= ranging_type_labels());
    t
}

/// The lengths of addresses.
fn mac_mode_list() -> (t: &'static [(u8, &'static str)])
    ensures
        list_labels(t@) == mac_mode_labels(),
{
    let t: &'static [(u8, &'static str)] = &[(0u8, "short"), (1u8, "long")];
    assert(list_labels(t@) =~= mac_mode_labels());
    t
}

/// The format of an angle: seven fractional bits.
fn angle_format() -> (f: FracBits)
    ensures
        f.count() == 7,
{
    match FracBits::new(7) {
        Some(f) => f,
        None => unreached(),
    }
}

/// Reads one two-way ranging measurement from `offset` on and adds its
/// fields to the report.
pub fn print_range_data_twr(
    report: &mut Report,
    pkt: &Packet,
    offset: &mut usize,
    mac_type: MacType,
) -> (r: Result<(), UciPacketParseError>)
    requires
        pkt.wf(),
    ensures
        ({
            let walk = static_walk(twr_fields(mac_type), pkt.payload(), *old(offset) as int);
            &&& final(report)@ == old(report)@ + walk.lines
            &&& *final(offset) == walk.offset
            &&& r == static_result(walk)
        }),
{
    let codes = status_codes();
    let angle = angle_format();
    let arr = vec![
        Field(
            "Mac Address",
            match mac_type {
                MacType::Short => ParamType::Hex8,
                _ => ParamType::HexArray(8),
            },
        ),
        Field("Status", ParamType::Map8(&codes)),
        Field("NLoS", ParamType::Table8(nlos_list())),
        Field("Distance", ParamType::Dec16),
        Field("AoA Azimuth", ParamType::Q16(angle)),
        Field("AoA Azimuth FOM", ParamType::Dec8),
        Field("AoA Elevation", ParamType::Q16(angle)),
        Field("AoA Elevation FOM", ParamType::Dec8),
        Field("AoA Destination Azimuth", ParamType::Q16(angle)),
        Field("AoA Destination Azimuth FOMR", ParamType::Dec8),
        Field("AoA Destination Elevation", ParamType::Q16(angle)),
        Field("AoA Destination Elevation FOMR", ParamType::Dec8),
        Field("Slot Index", ParamType::Dec8),
    ];
    assert(field_models(arr@) =~= twr_fields(mac_type));
    _print_static(report, pkt, &arr, offset)
}

/// Decodes a ranging report.
pub fn print_range_data(report: &mut Report, pkt: &Packet) -> (r: Result<(), UciPacketParseError>)
    requires
        pkt.wf(),
    ensures
        final(report)@ == old(report)@ + range_data_outcome(pkt.payload()).lines,
        r == range_data_outcome(pkt.payload()).result,
{
    let len = pkt.len();
    if len < 25 {
        assert(report@ + Seq::<Line>::empty() =~= report@);
        return Err(UciPacketParseError::new(ErrorKind::RangingTooShort));
    }
    let ghost payload = pkt.payload();
    let nr: u8 = pkt.get(MEASUREMENTS_AT);
    let mut offset: usize = MEASUREMENTS_AT;
    let mac_type: MacType = MacType::from(pkt.get(MAC_TYPE_AT));
    let report_type: ReportType = ReportType::from(pkt.get(REPORT_TYPE_AT));

    let arr = vec![
        Field("Sequence number", ParamType::Dec32),
        Field("Session ID", ParamType::Hex32),
        Field("", ParamType::RFU(1)),
        Field("Ranging interval", ParamType::Dec32),
        Field("Ranging type", ParamType::Table8(ranging_type_list())),
        Field("", ParamType::RFU(1)),
        Field("Mac addressing mode", ParamType::Table8(mac_mode_list())),
        Field("", ParamType::RFU(8)),
        Field("Number of Ranging Measurements", ParamType::Dec8),
    ];
    assert(field_models(arr@) =~= range_data_fields());
    if let Err(e) = print_static(report, pkt, &arr) {
        return Err(e);
    }
    let ghost head = static_outcome(range_data_fields(), payload);
    let mut heading = String::from_str("nr = ");
    push_dec(&mut heading, nr as u64);
    report.print_comment(heading.as_str());

    let ghost base = report@;
    let ghost total = measurements(payload, offset as int, 0, nr as nat, report_type, mac_type);
    let ghost mut added = Seq::<Line>::empty();
    assert(base + added =~= base);
    assert(added + total.lines =~= total.lines);
    assert(base + total.lines =~= old(report)@ + range_data_outcome(payload).lines);
    let mut i: u8 = 0;
    while i < nr
        invariant
            pkt.wf(),
            payload == pkt.payload(),
            i <= nr,
            base + total.lines == old(report)@ + range_data_outcome(payload).lines,
            total.result == range_data_outcome(payload).result,
            report@ == base + added,
            ({
                let rest = measurements(
                    payload,
                    offset as int,
                    i as nat,
                    nr as nat,
                    report_type,
                    mac_type,
                );
                &&& total.lines == added + rest.lines
                &&& total.result == rest.result
            }),
        decreases nr - i,
    {
        let mut heading = String::from_str("Report ");
        push_dec(&mut heading, i as u64);
        report.print_comment(heading.as_str());
        let ghost title = seq![measurement_heading(i as nat)];
        match report_type {
            ReportType::Twr => {
                let ghost walk = static_walk(twr_fields(mac_type), payload, offset as int);
                let ghost rest = measurements(
                    payload,
                    walk.offset,
                    (i + 1) as nat,
                    nr as nat,
                    report_type,
                    mac_type,
                );
                let r = print_range_data_twr(report, pkt, &mut offset, mac_type);
                proof {
                    assert(report@ =~= base + (added + (title + walk.lines)));
                    assert(added + (title + walk.lines + rest.lines) =~= (added + (title
                        + walk.lines)) + rest.lines);
                    added = added + (title + walk.lines);
                }
                if let Err(e) = r {
                    return Err(e);
                }
            },
            _ => {
                proof {
                    assert(report@ =~= base + (added + title));
                    assert(total.lines == added + title);
                }
                return Err(
                    UciPacketParseError::new(
                        ErrorKind::UnsupportedMeasurement { report_type: report_type.index() },
                    ),
                );
            },
        }
        i = i + 1;
    }
    proof {
        assert(added + Seq::<Line>::empty() =~= added);
    }
    Ok(())
}

} // verus!
