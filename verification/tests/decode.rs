use std::collections::HashMap;
use uci_decode::tables::{app_conf_params, device_conf_params, device_conf_params_nxp};
use uci_decode::{
    _print_static, ext_key, print_config, print_static, ErrorKind, Field, Packet, ParamType,
    Record, Report, UciPacketParseError,
};

fn packet(payload: &[u8]) -> Packet {
    let mut bytes = vec![0x20, 0x04, 0x00, payload.len() as u8];
    bytes.extend_from_slice(payload);
    Packet::new(bytes)
}

fn param(name: &str, value: &str) -> Record {
    Record::Param(String::from(name), String::from(value))
}

#[test]
fn fields_in_their_order() {
    let pkt = packet(&[0x78, 0x56, 0x34, 0x12, 0x03, 0xee]);
    let fields = vec![Field("SESSION_ID", ParamType::Hex32), Field("SESSION_TYPE", ParamType::Hex8)];
    let mut report = Report::new();
    assert_eq!(print_static(&mut report, &pkt, &fields), Ok(()));
    assert_eq!(report.records,
        vec![param("SESSION_ID", "0x12345678"), param("SESSION_TYPE", "0x3")]);
}

#[test]
fn no_fields_no_lines() {
    let pkt = packet(&[]);
    let mut report = Report::new();
    assert_eq!(print_static(&mut report, &pkt, &vec![]), Ok(()));
    assert!(report.records.is_empty());
}

#[test]
fn a_field_behind_the_payload_stops_the_walk() {
    let pkt = packet(&[0x01, 0x02, 0x03]);
    let fields = vec![
        Field("A", ParamType::Hex8),
        Field("B", ParamType::Dec16),
        Field("C", ParamType::Hex8),
        Field("D", ParamType::Hex8),
    ];
    let mut report = Report::new();
    report.print_id("BEFORE");
    let r = print_static(&mut report, &pkt, &fields);
    assert_eq!(r, Err(UciPacketParseError::new(ErrorKind::LengthMismatch)));
    assert_eq!(r.err().unwrap().to_string(), "length mismatch");
    assert_eq!(report.records,
        vec![Record::Id(String::from("BEFORE")), param("A", "0x1"), param("B", "770")]);
}

#[test]
fn reserved_bytes_are_passed_over() {
    let pkt = packet(&[0x01, 0xaa, 0xbb, 0x02]);
    let fields =
        vec![Field("A", ParamType::Hex8), Field("", ParamType::RFU(2)), Field("B", ParamType::Hex8)];
    let mut report = Report::new();
    assert_eq!(print_static(&mut report, &pkt, &fields), Ok(()));
    assert_eq!(report.records, vec![param("A", "0x1"), param("B", "0x2")]);
}

#[test]
fn the_offset_is_moved_behind_the_fields() {
    let pkt = packet(&[0, 1, 2, 3, 4, 5, 6, 7]);
    let fields = vec![Field("A", ParamType::Hex16), Field("B", ParamType::HexArray(3))];
    let mut report = Report::new();
    let mut offset = 2usize;
    assert_eq!(_print_static(&mut report, &pkt, &fields, &mut offset), Ok(()));
    assert_eq!(offset, 7);
    assert_eq!(report.records, vec![param("A", "0x302"), param("B", "{ 0x04 0x05 0x06 }")]);
    let r = _print_static(&mut report, &pkt, &fields, &mut offset);
    assert_eq!(r, Err(UciPacketParseError::new(ErrorKind::LengthMismatch)));
    assert_eq!(offset, 7);
    assert_eq!(report.records.len(), 2);
}

#[test]
fn an_offset_behind_the_payload_is_a_mismatch() {
    let pkt = packet(&[0, 1]);
    let mut report = Report::new();
    let mut offset = 3usize;
    let r = _print_static(&mut report, &pkt, &vec![Field("Z", ParamType::HexArray(0))], &mut offset);
    assert_eq!(r, Err(UciPacketParseError::new(ErrorKind::LengthMismatch)));
    let mut offset = usize::MAX;
    let r = _print_static(&mut report, &pkt, &vec![Field("", ParamType::RFU(usize::MAX))], &mut offset);
    assert_eq!(r, Err(UciPacketParseError::new(ErrorKind::LengthMismatch)));
    assert_eq!(offset, usize::MAX);
    assert!(report.records.is_empty());
}

#[test]
fn unknown_standard_id_is_dumped() {
    let pkt = packet(&[0x01, 0x00, 0x02, 0xaa, 0xbb]);
    let table: HashMap<u8, Field> = HashMap::new();
    let mut report = Report::new();
    assert_eq!(print_config(&mut report, &pkt, 0, &table, None), Ok(()));
    assert_eq!(report.records,
        vec![param("Number of parameters", "1"), param("Unknown(0x00)", "{ 0xaa 0xbb }")]);
}

#[test]
fn unknown_ids_do_not_stop_the_list() {
    let pkt = packet(&[0x03, 0x7f, 0x01, 0x09, 0x00, 0x01, 0x02, 0x55, 0x00]);
    let table = device_conf_params();
    let ext = device_conf_params_nxp();
    let mut report = Report::new();
    assert_eq!(print_config(&mut report, &pkt, 0, &table, Some(&ext)), Ok(()));
    assert_eq!(report.records, vec![
        param("Number of parameters", "3"),
        param("Unknown(0x7f)", "{ 0x09 }"),
        param("DEVICE_STATE(0x00)", "0x2"),
        param("Unknown(0x55)", "{ }"),
    ]);
}

#[test]
fn known_parameters_under_their_names() {
    let pkt = packet(&[0x02, 0x00, 0x01, 0x02, 0xe4, 0x03, 0x01, 0x05]);
    let table = device_conf_params();
    let ext = device_conf_params_nxp();
    let mut report = Report::new();
    assert_eq!(print_config(&mut report, &pkt, 0, &table, Some(&ext)), Ok(()));
    assert_eq!(report.records, vec![
        param("Number of parameters", "2"),
        param("DEVICE_STATE(0x00)", "0x2"),
        param("WTX_COUNT_CONFIG(0xe4:0x03)", "5"),
    ]);
}

#[test]
fn unknown_vendor_id_is_dumped() {
    let pkt = packet(&[0x02, 0xe4, 0x99, 0x02, 0xaa, 0xbb, 0xe0, 0x00, 0x00]);
    let table = device_conf_params();
    let ext = device_conf_params_nxp();
    let mut report = Report::new();
    assert_eq!(print_config(&mut report, &pkt, 0, &table, Some(&ext)), Ok(()));
    assert_eq!(report.records, vec![
        param("Number of parameters", "2"),
        param("Unknown(0xe4,0x99)", "{ 0xaa 0xbb }"),
        param("Unknown(0xe0,0x00)", "{ }"),
    ]);
}

#[test]
fn vendor_id_without_a_vendor_table_is_standard() {
    let pkt = packet(&[0x01, 0xe4, 0x03, 0x01, 0x05, 0x06]);
    let table = device_conf_params();
    let mut report = Report::new();
    assert_eq!(print_config(&mut report, &pkt, 0, &table, None), Ok(()));
    assert_eq!(report.records,
        vec![param("Number of parameters", "1"), param("Unknown(0xe4)", "{ 0x01 0x05 0x06 }")]);
}

#[test]
fn vendor_id_with_two_bytes_left_is_standard() {
    let pkt = packet(&[0x02, 0x00, 0x01, 0x01, 0xe4, 0x00]);
    let table = device_conf_params();
    let ext = device_conf_params_nxp();
    let mut report = Report::new();
    assert_eq!(print_config(&mut report, &pkt, 0, &table, Some(&ext)), Ok(()));
    assert_eq!(report.records, vec![
        param("Number of parameters", "2"),
        param("DEVICE_STATE(0x00)", "0x1"),
        param("Unknown(0xe4)", "{ }"),
    ]);
}

#[test]
fn id_below_the_vendor_range_is_standard() {
    let mut ext: HashMap<u16, Field> = HashMap::new();
    ext.insert(ext_key(0xdf, 0x01), Field("NEVER", ParamType::Hex8));
    ext.insert(ext_key(0xe0, 0x01), Field("FIRST", ParamType::Hex8));
    let table: HashMap<u8, Field> = HashMap::new();
    let pkt = packet(&[0x02, 0xdf, 0x01, 0x07, 0xe0, 0x01, 0x01, 0x07]);
    let mut report = Report::new();
    assert_eq!(print_config(&mut report, &pkt, 0, &table, Some(&ext)), Ok(()));
    assert_eq!(report.records, vec![
        param("Number of parameters", "2"),
        param("Unknown(0xdf)", "{ 0x07 }"),
        param("FIRST(0xe0:0x01)", "0x7"),
    ]);
    assert_eq!(ext_key(0xe4, 0x02), 0xe402);
}

#[test]
fn fewer_than_two_bytes_left_is_residue() {
    let pkt = packet(&[0x02, 0x00, 0x01, 0x05, 0x01]);
    let table = device_conf_params();
    let ext = device_conf_params_nxp();
    let mut report = Report::new();
    assert_eq!(print_config(&mut report, &pkt, 0, &table, Some(&ext)), Ok(()));
    assert_eq!(report.records, vec![
        param("Number of parameters", "2"),
        param("DEVICE_STATE(0x00)", "0x5"),
        param("RESIDUE", "parse error"),
    ]);
}

#[test]
fn nothing_left_is_residue() {
    let pkt = packet(&[0xff, 0x01, 0x01, 0x00, 0x00, 0x00]);
    let table = device_conf_params();
    let mut report = Report::new();
    assert_eq!(print_config(&mut report, &pkt, 0, &table, None), Ok(()));
    assert_eq!(report.records, vec![
        param("Number of parameters", "255"),
        param("LOW_POWER_MODE(0x01)", "0x0"),
        param("DEVICE_STATE(0x00)", "length mismatch expected=1, actual=0"),
        param("RESIDUE", "parse error"),
    ]);
}

#[test]
fn a_value_that_is_read_behind_the_payload_is_residue() {
    let table = device_conf_params();
    let ext = device_conf_params_nxp();
    let pkt = packet(&[0x01, 0x7f, 0x09, 0x01, 0x02]);
    let mut report = Report::new();
    assert_eq!(print_config(&mut report, &pkt, 0, &table, Some(&ext)), Ok(()));
    assert_eq!(report.records,
        vec![param("Number of parameters", "1"), param("RESIDUE", "parse error")]);
    let pkt = packet(&[0x02, 0x01, 0x01, 0x00, 0x00, 0x01]);
    let mut report = Report::new();
    assert_eq!(print_config(&mut report, &pkt, 0, &table, Some(&ext)), Ok(()));
    assert_eq!(report.records, vec![
        param("Number of parameters", "2"),
        param("LOW_POWER_MODE(0x01)", "0x0"),
        param("RESIDUE", "parse error"),
    ]);
    let pkt = packet(&[0x01, 0xe4, 0x99, 0x03, 0x01, 0x02]);
    let mut report = Report::new();
    assert_eq!(print_config(&mut report, &pkt, 0, &table, Some(&ext)), Ok(()));
    assert_eq!(report.records,
        vec![param("Number of parameters", "1"), param("RESIDUE", "parse error")]);
    let pkt = packet(&[0x01, 0xe4, 0x60, 0x03, 0x01, 0x02]);
    let mut report = Report::new();
    assert_eq!(print_config(&mut report, &pkt, 0, &table, Some(&ext)), Ok(()));
    assert_eq!(report.records,
        vec![param("Number of parameters", "1"), param("RESIDUE", "parse error")]);
}

#[test]
fn a_length_that_does_not_fit_is_noted_without_reading() {
    let table = device_conf_params();
    let ext = device_conf_params_nxp();
    let pkt = packet(&[0x01, 0x00, 0x09, 0xaa, 0xbb]);
    let mut report = Report::new();
    assert_eq!(print_config(&mut report, &pkt, 0, &table, None), Ok(()));
    assert_eq!(report.records, vec![
        param("Number of parameters", "1"),
        param("DEVICE_STATE(0x00)", "length mismatch expected=1, actual=9"),
    ]);
    let pkt = packet(&[0x02, 0x00, 0x09, 0x01, 0x02, 0x03]);
    let mut report = Report::new();
    assert_eq!(print_config(&mut report, &pkt, 0, &table, Some(&ext)), Ok(()));
    assert_eq!(report.records, vec![
        param("Number of parameters", "2"),
        param("DEVICE_STATE(0x00)", "length mismatch expected=1, actual=9"),
        param("RESIDUE", "parse error"),
    ]);
    let pkt = packet(&[0x01, 0xe4, 0x02, 0x03, 0x01, 0x02]);
    let mut report = Report::new();
    assert_eq!(print_config(&mut report, &pkt, 0, &table, Some(&ext)), Ok(()));
    assert_eq!(report.records, vec![
        param("Number of parameters", "1"),
        param("DPD_WAKEUP_SRC(0xe4:0x02)", "length mismatch expected=1, actual=3"),
    ]);
    let pkt = packet(&[0x02, 0x00, 0x02, 0xaa, 0xbb, 0x01, 0x01, 0x07]);
    let mut report = Report::new();
    assert_eq!(print_config(&mut report, &pkt, 0, &table, None), Ok(()));
    assert_eq!(report.records, vec![
        param("Number of parameters", "2"),
        param("DEVICE_STATE(0x00)", "length mismatch expected=1, actual=2"),
        param("LOW_POWER_MODE(0x01)", "0x7"),
    ]);
}

#[test]
fn no_parameters() {
    let pkt = packet(&[0x00, 0x01, 0x02, 0x03, 0x04]);
    let table = device_conf_params();
    let mut report = Report::new();
    assert_eq!(print_config(&mut report, &pkt, 0, &table, None), Ok(()));
    assert_eq!(report.records, vec![param("Number of parameters", "0")]);
}

#[test]
fn a_list_needs_five_bytes_of_payload() {
    let table = device_conf_params();
    let expected = UciPacketParseError::new(ErrorKind::EmptyPayload);
    assert_eq!(expected.to_string(), "payload len is zero");
    for payload in [&[][..], &[0x00], &[0x01, 0x00, 0x01, 0x05]] {
        let pkt = packet(payload);
        let mut report = Report::new();
        assert_eq!(print_config(&mut report, &pkt, 0, &table, None), Err(expected));
        assert_eq!(print_config(&mut report, &pkt, 9, &table, None), Err(expected));
        assert!(report.records.is_empty());
    }
}

#[test]
fn a_count_behind_the_payload_is_a_mismatch() {
    let table = device_conf_params();
    let expected = UciPacketParseError::new(ErrorKind::LengthMismatch);
    let pkt = packet(&[0x00, 0x00, 0x00, 0x00, 0x00]);
    let mut report = Report::new();
    assert_eq!(print_config(&mut report, &pkt, 5, &table, None), Err(expected));
    assert_eq!(print_config(&mut report, &pkt, usize::MAX, &table, None), Err(expected));
    assert!(report.records.is_empty());
    assert_eq!(print_config(&mut report, &pkt, 4, &table, None), Ok(()));
    assert_eq!(report.records, vec![param("Number of parameters", "0")]);
}

#[test]
fn a_list_behind_other_fields() {
    let pkt = packet(&[
        0x01, 0x00, 0x00, 0x00, 0x04, 0x00, 0x01, 0x01, 0x09, 0x04, 0x10, 0x27, 0x00, 0x00, 0x11,
        0x01, 0x09, 0x27, 0x02, 0x34, 0x12,
    ]);
    let table = app_conf_params();
    let mut report = Report::new();
    assert_eq!(print_config(&mut report, &pkt, 4, &table, None), Ok(()));
    assert_eq!(report.records, vec![
        param("Number of parameters", "4"),
        param("DEVICE_TYPE(0x00)", "0x1 (Controller)"),
        param("RANGING_INTERVAL(0x09)", "10000"),
        param("DEVICE_ROLE(0x11)", "0x9 (Unknown)"),
        param("VENDOR_ID(0x27)", "{ 0x34 0x12 }"),
    ]);
}

#[test]
fn a_reserved_field_in_a_table_has_no_line() {
    let mut table: HashMap<u8, Field> = HashMap::new();
    table.insert(0x01, Field("PAD", ParamType::RFU(0)));
    table.insert(0x02, Field("GAP", ParamType::RFU(3)));
    let pkt = packet(&[0x03, 0x01, 0x02, 0xaa, 0xbb, 0x7f, 0x00, 0x02, 0x01, 0xcc]);
    let mut report = Report::new();
    assert_eq!(print_config(&mut report, &pkt, 0, &table, None), Ok(()));
    assert_eq!(report.records,
        vec![param("Number of parameters", "3"), param("Unknown(0x7f)", "{ }")]);
    let pkt = packet(&[0x02, 0x01, 0x09, 0xaa, 0xbb]);
    let mut report = Report::new();
    assert_eq!(print_config(&mut report, &pkt, 0, &table, None), Ok(()));
    assert_eq!(report.records,
        vec![param("Number of parameters", "2"), param("RESIDUE", "parse error")]);
}
