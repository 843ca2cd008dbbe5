//! The tables that values and parameters are looked up in: labels of
//! status codes, and the fields of configuration and calibration parameters
//! by their ids.

use std::collections::HashMap;
use vstd::prelude::*;
use crate::decode::{ext_key, extended_key, extended_models, standard_models};
use crate::field::{list_labels, map_labels, Encoding, Field, FieldModel, ParamType};

verus! {

/// Adds a code and its label to a map.
fn put_label(m: &mut HashMap<u8, &'static str>, code: u8, label: &'static str)
    ensures
        map_labels(final(m)@) == map_labels(old(m)@).insert(code, label@),
{
    m.insert(code, label);
    assert(map_labels(m@) =~= map_labels(old(m)@).insert(code, label@));
}

/// Adds a parameter and its field to a table.
fn put_field<'a>(m: &mut HashMap<u8, Field<'a>>, id: u8, field: Field<'a>)
    ensures
        standard_models(final(m)@) == standard_models(old(m)@).insert(id, field@),
{
    m.insert(id, field);
    assert(standard_models(m@) =~= standard_models(old(m)@).insert(id, field@));
}

/// Adds a vendor's parameter and its field to a table.
fn put_extended<'a>(m: &mut HashMap<u16, Field<'a>>, id0: u8, id1: u8, field: Field<'a>)
    ensures
        extended_models(final(m)@) == extended_models(old(m)@).insert((id0, id1), field@),
{
    m.insert(ext_key(id0, id1), field);
    assert forall|id: (u8, u8)|
        extended_key(id.0, id.1) == extended_key(id0, id1) implies id == (id0, id1) by {}
    assert(extended_models(m@) =~= extended_models(old(m)@).insert((id0, id1), field@));
}

/// A field as plain values.
pub open spec fn field(name: Seq<char>, encoding: Encoding) -> FieldModel {
    FieldModel { name, encoding }
}

/// The labels of the status codes.
pub open spec fn status_code_labels() -> Map<u8, Seq<char>> {
    Map::<u8, Seq<char>>::empty()
        .insert(0x00, "OK"@)
        .insert(0x01, "REJECTED"@)
        .insert(0x02, "FAILED"@)
        .insert(0x03, "SYNTAX_ERROR"@)
        .insert(0x04, "INVALID_PARAM"@)
        .insert(0x05, "INVALID_RANGE"@)
        .insert(0x06, "INVALID_MESSAGE_SIZE"@)
        .insert(0x07, "UNKNOWN_GID"@)
        .insert(0x08, "UNKNOWN_OID"@)
        .insert(0x09, "READ_ONLY"@)
        .insert(0x0a, "COMMAND_RETRY"@)
        .insert(0x11, "ERROR_SESSION_NOT_EXIST"@)
        .insert(0x12, "ERROR_SESSION_DUPLICATE"@)
        .insert(0x13, "ERROR_SESSION_ACTIVE"@)
        .insert(0x14, "ERROR_MAX_SESSIONS_EXCEEDED"@)
        .insert(0x15, "ERROR_SESSION_NOT_CONFIGURED"@)
        .insert(0x16, "ERROR_ACTIVE_SESSIONS_ONGOING"@)
        .insert(0x17, "ERROR_MULTICAST_LIST_FULL"@)
        .insert(0x18, "ERROR_ADDRESS_NOT_FOUND"@)
        .insert(0x19, "ERROR_ADDRESS_ALREADY_PRESENT"@)
        .insert(0x20, "RANGING_TX_FAILED"@)
        .insert(0x21, "RANGING_RX_TIMEOUT"@)
        .insert(0x22, "RANGING_RX_PHY_DEC_FAILED"@)
        .insert(0x23, "RANGING_RX_PHY_TOA_FAILED"@)
        .insert(0x24, "RANGING_RX_PHY_STS_FAILED"@)
        .insert(0x25, "RANGING_RX_MAC_DEC_FAILED"@)
        .insert(0x26, "RANGING_RX_MAC_IE_DEC_FAILED"@)
        .insert(0x27, "RANGING_RX_MAC_IE_MISSING"@)
        .insert(0x50, "BINDING_SUCCESS"@)
        .insert(0x51, "BINDING_FAILURE"@)
        .insert(0x52, "BINDING_LIMIT_REACHED"@)
        .insert(0x53, "CALIBRATION_IN_PROGRESS"@)
        .insert(0x54, "DEVICE_TEMP_REACHED_THERMAL_RUNAWAY"@)
        .insert(0x55, "FEATURE_NOT_SUPPORTED"@)
        .insert(0x56, "NUM_PACKET_EXCEEDS_1000_FOR_TEST_PER_RX"@)
        .insert(0x57, "CAILBRATION_NOT_CONFIGURED"@)
        .insert(0x70, "NO_SE"@)
        .insert(0x72, "SE_RECOVERY_FAILURE"@)
        .insert(0x73, "SE_RECOVERY_SUCCESS"@)
        .insert(0x74, "SE_APDU_CMD_FAIL"@)
        .insert(0x75, "SE_AUTH_FAIL"@)
        .insert(0x81, "RANGING_PHY_RX_SECDEC_FAILED"@)
        .insert(0x82, "RANGING_PHY_RX_RSDEC_FAILED"@)
        .insert(0x83, "RANGING_PHY_RX_DEC_FAILED"@)
        .insert(0x84, "RANGING_PHY_RX_ERR_FAILED"@)
        .insert(0x85, "RANGING_PHY_RX_PHR_DECODE_FAILED"@)
        .insert(0x86, "RANGING_PHY_RX_SYNC_SFD_TIMEOUT"@)
        .insert(0x87, "RANGING_PHY_RX_PHR_DATA_RATE_ERROR"@)
        .insert(0x88, "RANGING_PHY_RX_PHR_RANGING_ERROR"@)
        .insert(0x89, "RANGING_PHY_RX_PHR_PREAMBLE_DUR_ERROR"@)
        .insert(0x8a, "MAX_ACTIVE_GRANT_DURATION_EXCEEDED"@)
        .insert(0x8b, "RANGING_SUSPENDED"@)
        .insert(0x90, "DATA_TRANSFER_ERROR"@)
        .insert(0x91, "DATA_NO_CREDIT_AVAILABLE"@)
        .insert(0x92, "DATA_TRANSFER_STOPPED"@)
        .insert(0xa0, "COEX_WLAN_UART_RSP_TIMEOUT_OR_INVALID"@)
        .insert(0xa1, "COEX_WLAN_UART_RSP_INVALID"@)
}

/// The labels of the status codes.
pub fn status_codes() -> (m: HashMap<u8, &'static str>)
    ensures
        map_labels(m@) == status_code_labels(),
{
    let mut m: HashMap<u8, &'static str> = HashMap::new();
    assert(map_labels(m@) =~= Map::<u8, Seq<char>>::empty());
    put_label(&mut m, 0x00, "OK");
    put_label(&mut m, 0x01, "REJECTED");
    put_label(&mut m, 0x02, "FAILED");
    put_label(&mut m, 0x03, "SYNTAX_ERROR");
    put_label(&mut m, 0x04, "INVALID_PARAM");
    put_label(&mut m, 0x05, "INVALID_RANGE");
    put_label(&mut m, 0x06, "INVALID_MESSAGE_SIZE");
    put_label(&mut m, 0x07, "UNKNOWN_GID");
    put_label(&mut m, 0x08, "UNKNOWN_OID");
    put_label(&mut m, 0x09, "READ_ONLY");
    put_label(&mut m, 0x0a, "COMMAND_RETRY");
    put_label(&mut m, 0x11, "ERROR_SESSION_NOT_EXIST");
    put_label(&mut m, 0x12, "ERROR_SESSION_DUPLICATE");
    put_label(&mut m, 0x13, "ERROR_SESSION_ACTIVE");
    put_label(&mut m, 0x14, "ERROR_MAX_SESSIONS_EXCEEDED");
    put_label(&mut m, 0x15, "ERROR_SESSION_NOT_CONFIGURED");
    put_label(&mut m, 0x16, "ERROR_ACTIVE_SESSIONS_ONGOING");
    put_label(&mut m, 0x17, "ERROR_MULTICAST_LIST_FULL");
    put_label(&mut m, 0x18, "ERROR_ADDRESS_NOT_FOUND");
    put_label(&mut m, 0x19, "ERROR_ADDRESS_ALREADY_PRESENT");
    put_label(&mut m, 0x20, "RANGING_TX_FAILED");
    put_label(&mut m, 0x21, "RANGING_RX_TIMEOUT");
    put_label(&mut m, 0x22, "RANGING_RX_PHY_DEC_FAILED");
    put_label(&mut m, 0x23, "RANGING_RX_PHY_TOA_FAILED");
    put_label(&mut m, 0x24, "RANGING_RX_PHY_STS_FAILED");
    put_label(&mut m, 0x25, "RANGING_RX_MAC_DEC_FAILED");
    put_label(&mut m, 0x26, "RANGING_RX_MAC_IE_DEC_FAILED");
    put_label(&mut m, 0x27, "RANGING_RX_MAC_IE_MISSING");
    put_label(&mut m, 0x50, "BINDING_SUCCESS");
    put_label(&mut m, 0x51, "BINDING_FAILURE");
    put_label(&mut m, 0x52, "BINDING_LIMIT_REACHED");
    put_label(&mut m, 0x53, "CALIBRATION_IN_PROGRESS");
    put_label(&mut m, 0x54, "DEVICE_TEMP_REACHED_THERMAL_RUNAWAY");
    put_label(&mut m, 0x55, "FEATURE_NOT_SUPPORTED");
    put_label(&mut m, 0x56, "NUM_PACKET_EXCEEDS_1000_FOR_TEST_PER_RX");
    put_label(&mut m, 0x57, "CAILBRATION_NOT_CONFIGURED");
    put_label(&mut m, 0x70, "NO_SE");
    put_label(&mut m, 0x72, "SE_RECOVERY_FAILURE");
    put_label(&mut m, 0x73, "SE_RECOVERY_SUCCESS");
    put_label(&mut m, 0x74, "SE_APDU_CMD_FAIL");
    put_label(&mut m, 0x75, "SE_AUTH_FAIL");
    put_label(&mut m, 0x81, "RANGING_PHY_RX_SECDEC_FAILED");
    put_label(&mut m, 0x82, "RANGING_PHY_RX_RSDEC_FAILED");
    put_label(&mut m, 0x83, "RANGING_PHY_RX_DEC_FAILED");
    put_label(&mut m, 0x84, "RANGING_PHY_RX_ERR_FAILED");
    put_label(&mut m, 0x85, "RANGING_PHY_RX_PHR_DECODE_FAILED");
    put_label(&mut m, 0x86, "RANGING_PHY_RX_SYNC_SFD_TIMEOUT");
    put_label(&mut m, 0x87, "RANGING_PHY_RX_PHR_DATA_RATE_ERROR");
    put_label(&mut m, 0x88, "RANGING_PHY_RX_PHR_RANGING_ERROR");
    put_label(&mut m, 0x89, "RANGING_PHY_RX_PHR_PREAMBLE_DUR_ERROR");
    put_label(&mut m, 0x8a, "MAX_ACTIVE_GRANT_DURATION_EXCEEDED");
    put_label(&mut m, 0x8b, "RANGING_SUSPENDED");
    put_label(&mut m, 0x90, "DATA_TRANSFER_ERROR");
    put_label(&mut m, 0x91, "DATA_NO_CREDIT_AVAILABLE");
    put_label(&mut m, 0x92, "DATA_TRANSFER_STOPPED");
    put_label(&mut m, 0xa0, "COEX_WLAN_UART_RSP_TIMEOUT_OR_INVALID");
    put_label(&mut m, 0xa1, "COEX_WLAN_UART_RSP_INVALID");
    m
}

/// The labels of the states of the device.
pub open spec fn device_status_labels() -> Map<u8, Seq<char>> {
    Map::<u8, Seq<char>>::empty()
        .insert(0x01, "DEVICE_STATE_READY"@)
        .insert(0x02, "DEVICE_STATE_ACTIVE"@)
        .insert(0xff, "DEVICE_STATE_ERROR"@)
}

/// The labels of the states of the device.
pub fn device_status_codes() -> (m: HashMap<u8, &'static str>)
    ensures
        map_labels(m@) == device_status_labels(),
{
    let mut m: HashMap<u8, &'static str> = HashMap::new();
    assert(map_labels(m@) =~= Map::<u8, Seq<char>>::empty());
    put_label(&mut m, 0x01, "DEVICE_STATE_READY");
    put_label(&mut m, 0x02, "DEVICE_STATE_ACTIVE");
    put_label(&mut m, 0xff, "DEVICE_STATE_ERROR");
    m
}

/// The labels of the states of a session.
pub open spec fn session_state_labels() -> Map<u8, Seq<char>> {
    Map::<u8, Seq<char>>::empty()
        .insert(0x00, "SESSION_STATE_INIT"@)
        .insert(0x01, "SESSION_STATE_DEINIT"@)
        .insert(0x02, "SESSION_STATE_ACTIVE"@)
        .insert(0x03, "SESSION_STATE_IDLE"@)
}

/// The labels of the states of a session.
pub fn session_state_codes() -> (m: HashMap<u8, &'static str>)
    ensures
        map_labels(m@) == session_state_labels(),
{
    let mut m: HashMap<u8, &'static str> = HashMap::new();
    assert(map_labels(m@) =~= Map::<u8, Seq<char>>::empty());
    put_label(&mut m, 0x00, "SESSION_STATE_INIT");
    put_label(&mut m, 0x01, "SESSION_STATE_DEINIT");
    put_label(&mut m, 0x02, "SESSION_STATE_ACTIVE");
    put_label(&mut m, 0x03, "SESSION_STATE_IDLE");
    m
}

/// The types of a device.
pub open spec fn device_type_labels() -> Seq<(u8, Seq<char>)> {
    seq![
        (0u8, "Controlee"@),
        (1u8, "Controller"@),
    ]
}

/// The types of a device.
pub fn device_type_list() -> (t: &'static [(u8, &'static str)])
    ensures
        list_labels(t@) == device_type_labels(),
{
    let t: &'static [(u8, &'static str)] = &[
        (0u8, "Controlee"),
        (1u8, "Controller"),
    ];
    assert(list_labels(t@) =~= device_type_labels());
    t
}

/// The ways of ranging.
pub open spec fn ranging_round_usage_labels() -> Seq<(u8, Seq<char>)> {
    seq![
        (0u8, "TDoA"@),
        (1u8, "SS-TWR"@),
        (2u8, "DS-TWR"@),
        (3u8, "SS-TWR non-deferred"@),
        (4u8, "DS-TWR non-deferred"@),
        (5u8, "Downlink TDOA"@),
    ]
}

/// The ways of ranging.
pub fn ranging_round_usage_list() -> (t: &'static [(u8, &'static str)])
    ensures
        list_labels(t@) == ranging_round_usage_labels(),
{
    let t: &'static [(u8, &'static str)] = &[
        (0u8, "TDoA"),
        (1u8, "SS-TWR"),
        (2u8, "DS-TWR"),
        (3u8, "SS-TWR non-deferred"),
        (4u8, "DS-TWR non-deferred"),
        (5u8, "Downlink TDOA"),
    ];
    assert(list_labels(t@) =~= ranging_round_usage_labels());
    t
}

/// The kinds of scrambled timestamp sequence.
pub open spec fn sts_config_labels() -> Seq<(u8, Seq<char>)> {
    seq![
        (0u8, "Static STS"@),
        (1u8, "Dynamic STS"@),
        (2u8, "Dynamic STS with sub-session key"@),
    ]
}

/// The kinds of scrambled timestamp sequence.
pub fn sts_config_list() -> (t: &'static [(u8, &'static str)])
    ensures
        list_labels(t@) == sts_config_labels(),
{
    let t: &'static [(u8, &'static str)] = &[
        (0u8, "Static STS"),
        (1u8, "Dynamic STS"),
        (2u8, "Dynamic STS with sub-session key"),
    ];
    assert(list_labels(t@) =~= sts_config_labels());
    t
}

/// The roles of a device.
pub open spec fn device_role_labels() -> Seq<(u8, Seq<char>)> {
    seq![
        (0u8, "Responder"@),
        (1u8, "Initiator"@),
        (2u8, "Master Anchor"@),
        (3u8, "Initiator & Responder"@),
        (4u8, "Receiver"@),
    ]
}

/// The roles of a device.
pub fn device_role_list() -> (t: &'static [(u8, &'static str)])
    ensures
        list_labels(t@) == device_role_labels(),
{
    let t: &'static [(u8, &'static str)] = &[
        (0u8, "Responder"),
        (1u8, "Initiator"),
        (2u8, "Master Anchor"),
        (3u8, "Initiator & Responder"),
        (4u8, "Receiver"),
    ];
    assert(list_labels(t@) =~= device_role_labels());
    t
}

/// The configuration parameters of the device.
pub open spec fn device_conf_models() -> Map<u8, FieldModel> {
    Map::<u8, FieldModel>::empty()
        .insert(0x00, field("DEVICE_STATE"@, Encoding::Hex8))
        .insert(0x01, field("LOW_POWER_MODE"@, Encoding::Hex8))
}

/// The configuration parameters of the device.
pub fn device_conf_params() -> (m: HashMap<u8, Field<'static>>)
    ensures
        standard_models(m@) == device_conf_models(),
{
    let mut m: HashMap<u8, Field<'static>> = HashMap::new();
    assert(standard_models(m@) =~= Map::<u8, FieldModel>::empty());
    put_field(&mut m, 0x00, Field("DEVICE_STATE", ParamType::Hex8));
    put_field(&mut m, 0x01, Field("LOW_POWER_MODE", ParamType::Hex8));
    m
}

/// The configuration parameters of a session.
pub open spec fn app_conf_models() -> Map<u8, FieldModel> {
    Map::<u8, FieldModel>::empty()
        .insert(0x00, field("DEVICE_TYPE"@, Encoding::Table8(device_type_labels())))
        .insert(0x01, field("RANGING_ROUND_USAGE"@, Encoding::Table8(ranging_round_usage_labels())))
        .insert(0x02, field("STS_CONFIG"@, Encoding::Table8(sts_config_labels())))
        .insert(0x03, field("MULTI_NODE_MODE"@, Encoding::Hex8))
        .insert(0x04, field("CHANNEL_NUMBER"@, Encoding::Hex8))
        .insert(0x05, field("NUMBER_OF_CONTROLEES"@, Encoding::Dec8))
        .insert(0x06, field("DEVICE_MAC_ADDRESS"@, Encoding::Hex16))
        .insert(0x07, field("DST_MAC_ADDRESS"@, Encoding::Hex16))
        .insert(0x08, field("SLOT_DURATION"@, Encoding::Dec16))
        .insert(0x09, field("RANGING_INTERVAL"@, Encoding::Dec32))
        .insert(0x0a, field("STS_INDEX"@, Encoding::Hex32))
        .insert(0x0b, field("MAC_FCS_TYPE"@, Encoding::Hex8))
        .insert(0x0c, field("RANGING_ROUND_CONTROL"@, Encoding::Hex8))
        .insert(0x0d, field("AOA_RESULT_REQ"@, Encoding::Hex8))
        .insert(0x0e, field("RANGE_DATA_NTF_CONFIG"@, Encoding::Hex8))
        .insert(0x0f, field("RANGE_DATA_NTF_PROXIMITY_NEAR"@, Encoding::Dec16))
        .insert(0x10, field("RANGE_DATA_NTF_PROXIMITY_FAR"@, Encoding::Dec16))
        .insert(0x11, field("DEVICE_ROLE"@, Encoding::Table8(device_role_labels())))
        .insert(0x12, field("RFRAME_CONFIG"@, Encoding::Hex8))
        .insert(0x14, field("PREAMBLE_CODE_INDEX"@, Encoding::Hex8))
        .insert(0x15, field("SFD_ID"@, Encoding::Hex8))
        .insert(0x16, field("PSDU_DATA_RATE"@, Encoding::Hex8))
        .insert(0x17, field("PREAMBLE_DURATION"@, Encoding::Hex8))
        .insert(0x1a, field("RANGING_TIME_STRUCT"@, Encoding::Hex8))
        .insert(0x1b, field("SLOTS_PER_RR"@, Encoding::Hex8))
        .insert(0x1c, field("TX_ADAPTIVE_PAYLOAD_POWER"@, Encoding::Hex8))
        .insert(0x1e, field("RESPONDER_SLOT_INDEX"@, Encoding::Hex8))
        .insert(0x1f, field("PRF_MODE"@, Encoding::Hex8))
        .insert(0x22, field("SCHEDULED_MODE"@, Encoding::Hex8))
        .insert(0x23, field("KEY_ROTATION"@, Encoding::Hex8))
        .insert(0x24, field("KEY_ROTATION_RATE"@, Encoding::Hex8))
        .insert(0x25, field("SESSION_PRIORITY"@, Encoding::Dec8))
        .insert(0x26, field("MAC_ADDRESS_MODE"@, Encoding::Hex8))
        .insert(0x27, field("VENDOR_ID"@, Encoding::HexArray(2)))
        .insert(0x28, field("STATIC_STS_IV"@, Encoding::HexArray(6)))
        .insert(0x29, field("NUMBER_OF_STS_SEGMENTS"@, Encoding::Dec8))
        .insert(0x2a, field("MAX_RR_RETRY"@, Encoding::Dec16))
        .insert(0x2b, field("UWB_INITIATION_TIME"@, Encoding::Dec32))
        .insert(0x2c, field("HOPPING_MODE"@, Encoding::Hex8))
        .insert(0x2d, field("BLOCK_STRIDE_LENGTH"@, Encoding::Dec8))
        .insert(0x2e, field("RESULT_REPORT_CONFIG"@, Encoding::Hex8))
        .insert(0x2f, field("IN_BAND_TERMINATION_ATTEMPT_COUNT"@, Encoding::Hex8))
        .insert(0x30, field("SUB_SESSION_ID"@, Encoding::Hex32))
        .insert(0x31, field("BPRF_PHR_DATA_RATE"@, Encoding::Hex8))
        .insert(0x32, field("MAX_NUMBER_OF_MEASUREMENTS"@, Encoding::Dec16))
        .insert(0x33, field("BLINK_RANDOM_INTERVAL"@, Encoding::Dec16))
        .insert(0x34, field("TDOA_REPORT_FREQUENCY"@, Encoding::Dec16))
        .insert(0x35, field("STS_LENGTH"@, Encoding::Dec8))
}

/// The configuration parameters of a session.
pub fn app_conf_params() -> (m: HashMap<u8, Field<'static>>)
    ensures
        standard_models(m@) == app_conf_models(),
{
    let mut m: HashMap<u8, Field<'static>> = HashMap::new();
    assert(standard_models(m@) =~= Map::<u8, FieldModel>::empty());
    put_field(&mut m, 0x00, Field("DEVICE_TYPE", ParamType::Table8(device_type_list())));
    put_field(&mut m, 0x01, Field("RANGING_ROUND_USAGE", ParamType::Table8(ranging_round_usage_list())));
    put_field(&mut m, 0x02, Field("STS_CONFIG", ParamType::Table8(sts_config_list())));
    put_field(&mut m, 0x03, Field("MULTI_NODE_MODE", ParamType::Hex8));
    put_field(&mut m, 0x04, Field("CHANNEL_NUMBER", ParamType::Hex8));
    put_field(&mut m, 0x05, Field("NUMBER_OF_CONTROLEES", ParamType::Dec8));
    put_field(&mut m, 0x06, Field("DEVICE_MAC_ADDRESS", ParamType::Hex16));
    put_field(&mut m, 0x07, Field("DST_MAC_ADDRESS", ParamType::Hex16));
    put_field(&mut m, 0x08, Field("SLOT_DURATION", ParamType::Dec16));
    put_field(&mut m, 0x09, Field("RANGING_INTERVAL", ParamType::Dec32));
    put_field(&mut m, 0x0a, Field("STS_INDEX", ParamType::Hex32));
    put_field(&mut m, 0x0b, Field("MAC_FCS_TYPE", ParamType::Hex8));
    put_field(&mut m, 0x0c, Field("RANGING_ROUND_CONTROL", ParamType::Hex8));
    put_field(&mut m, 0x0d, Field("AOA_RESULT_REQ", ParamType::Hex8));
    put_field(&mut m, 0x0e, Field("RANGE_DATA_NTF_CONFIG", ParamType::Hex8));
    put_field(&mut m, 0x0f, Field("RANGE_DATA_NTF_PROXIMITY_NEAR", ParamType::Dec16));
    put_field(&mut m, 0x10, Field("RANGE_DATA_NTF_PROXIMITY_FAR", ParamType::Dec16));
    put_field(&mut m, 0x11, Field("DEVICE_ROLE", ParamType::Table8(device_role_list())));
    put_field(&mut m, 0x12, Field("RFRAME_CONFIG", ParamType::Hex8));
    put_field(&mut m, 0x14, Field("PREAMBLE_CODE_INDEX", ParamType::Hex8));
    put_field(&mut m, 0x15, Field("SFD_ID", ParamType::Hex8));
    put_field(&mut m, 0x16, Field("PSDU_DATA_RATE", ParamType::Hex8));
    put_field(&mut m, 0x17, Field("PREAMBLE_DURATION", ParamType::Hex8));
    put_field(&mut m, 0x1a, Field("RANGING_TIME_STRUCT", ParamType::Hex8));
    put_field(&mut m, 0x1b, Field("SLOTS_PER_RR", ParamType::Hex8));
    put_field(&mut m, 0x1c, Field("TX_ADAPTIVE_PAYLOAD_POWER", ParamType::Hex8));
    put_field(&mut m, 0x1e, Field("RESPONDER_SLOT_INDEX", ParamType::Hex8));
    put_field(&mut m, 0x1f, Field("PRF_MODE", ParamType::Hex8));
    put_field(&mut m, 0x22, Field("SCHEDULED_MODE", ParamType::Hex8));
    put_field(&mut m, 0x23, Field("KEY_ROTATION", ParamType::Hex8));
    put_field(&mut m, 0x24, Field("KEY_ROTATION_RATE", ParamType::Hex8));
    put_field(&mut m, 0x25, Field("SESSION_PRIORITY", ParamType::Dec8));
    put_field(&mut m, 0x26, Field("MAC_ADDRESS_MODE", ParamType::Hex8));
    put_field(&mut m, 0x27, Field("VENDOR_ID", ParamType::HexArray(2)));
    put_field(&mut m, 0x28, Field("STATIC_STS_IV", ParamType::HexArray(6)));
    put_field(&mut m, 0x29, Field("NUMBER_OF_STS_SEGMENTS", ParamType::Dec8));
    put_field(&mut m, 0x2a, Field("MAX_RR_RETRY", ParamType::Dec16));
    put_field(&mut m, 0x2b, Field("UWB_INITIATION_TIME", ParamType::Dec32));
    put_field(&mut m, 0x2c, Field("HOPPING_MODE", ParamType::Hex8));
    put_field(&mut m, 0x2d, Field("BLOCK_STRIDE_LENGTH", ParamType::Dec8));
    put_field(&mut m, 0x2e, Field("RESULT_REPORT_CONFIG", ParamType::Hex8));
    put_field(&mut m, 0x2f, Field("IN_BAND_TERMINATION_ATTEMPT_COUNT", ParamType::Hex8));
    put_field(&mut m, 0x30, Field("SUB_SESSION_ID", ParamType::Hex32));
    put_field(&mut m, 0x31, Field("BPRF_PHR_DATA_RATE", ParamType::Hex8));
    put_field(&mut m, 0x32, Field("MAX_NUMBER_OF_MEASUREMENTS", ParamType::Dec16));
    put_field(&mut m, 0x33, Field("BLINK_RANDOM_INTERVAL", ParamType::Dec16));
    put_field(&mut m, 0x34, Field("TDOA_REPORT_FREQUENCY", ParamType::Dec16));
    put_field(&mut m, 0x35, Field("STS_LENGTH", ParamType::Dec8));
    m
}

/// The vendor's calibration parameters.
pub open spec fn devcal_models_nxp() -> Map<u8, FieldModel> {
    Map::<u8, FieldModel>::empty()
        .insert(0x00, field("VCO_PLL"@, Encoding::HexArray(2)))
        .insert(0x01, field("TX_POWER"@, Encoding::HexArray(0)))
        .insert(0x02, field("38.4MHz_XTAL_CAP_GM_CTRL"@, Encoding::HexArray(3)))
        .insert(0x03, field("RSSI_CALIB_CONSTANT1"@, Encoding::HexArray(0)))
        .insert(0x04, field("RSSI_CALIB_CONSTANT2"@, Encoding::HexArray(0)))
        .insert(0x05, field("SNR_CALIB_CONSTANT"@, Encoding::HexArray(0)))
        .insert(0x06, field("MANUAL_TX_POW_CTRL"@, Encoding::HexArray(4)))
        .insert(0x07, field("PDOA1_OFFSET"@, Encoding::HexArray(0)))
        .insert(0x08, field("PA_PPA_CALIB_CTRL"@, Encoding::HexArray(2)))
        .insert(0x09, field("TX_TEMPERATURE_COMP"@, Encoding::HexArray(0)))
        .insert(0x0a, field("PDOA2_OFFSET"@, Encoding::HexArray(0)))
        .insert(0x0b, field("AOA_MULTIPOINT_PDOA_CALIB"@, Encoding::HexArray(0)))
        .insert(0x0c, field("AOA_MULTIPOINT_PDOA_CALIB"@, Encoding::HexArray(0)))
        .insert(0x0d, field("AOA_ANTENNAS_MULTIPOINT_CALIB"@, Encoding::HexArray(0)))
        .insert(0x0f, field("RX_ANT_DELAY_CALIB"@, Encoding::HexArray(0)))
        .insert(0x10, field("PDOA_OFFSET_CALIB"@, Encoding::HexArray(0)))
        .insert(0x11, field("PDOA_MANUFACT_ZERO_OFFSET_CALIB"@, Encoding::HexArray(0)))
        .insert(0x12, field("AOA_THRESHOLD_PDOA"@, Encoding::HexArray(0)))
        .insert(0x13, field("RSSI_CALIB_CONSTANT_HIGH_PWR"@, Encoding::HexArray(0)))
        .insert(0x14, field("RSSI_CALIB_CONSTANT_LOW_PWR"@, Encoding::HexArray(0)))
        .insert(0x15, field("SNR_CALIB_CONSTANT_PER_ANTENNA"@, Encoding::HexArray(0)))
        .insert(0x17, field("TX_POWER_PER_ANTENNA"@, Encoding::HexArray(0)))
        .insert(0x18, field("TX_TEMPERATURE_COMP_PER_ANTENNA"@, Encoding::HexArray(0)))
}

/// The vendor's calibration parameters.
pub fn devcal_params_nxp() -> (m: HashMap<u8, Field<'static>>)
    ensures
        standard_models(m@) == devcal_models_nxp(),
{
    let mut m: HashMap<u8, Field<'static>> = HashMap::new();
    assert(standard_models(m@) =~= Map::<u8, FieldModel>::empty());
    put_field(&mut m, 0x00, Field("VCO_PLL", ParamType::HexArray(2)));
    put_field(&mut m, 0x01, Field("TX_POWER", ParamType::HexArray(0)));
    put_field(&mut m, 0x02, Field("38.4MHz_XTAL_CAP_GM_CTRL", ParamType::HexArray(3)));
    put_field(&mut m, 0x03, Field("RSSI_CALIB_CONSTANT1", ParamType::HexArray(0)));
    put_field(&mut m, 0x04, Field("RSSI_CALIB_CONSTANT2", ParamType::HexArray(0)));
    put_field(&mut m, 0x05, Field("SNR_CALIB_CONSTANT", ParamType::HexArray(0)));
    put_field(&mut m, 0x06, Field("MANUAL_TX_POW_CTRL", ParamType::HexArray(4)));
    put_field(&mut m, 0x07, Field("PDOA1_OFFSET", ParamType::HexArray(0)));
    put_field(&mut m, 0x08, Field("PA_PPA_CALIB_CTRL", ParamType::HexArray(2)));
    put_field(&mut m, 0x09, Field("TX_TEMPERATURE_COMP", ParamType::HexArray(0)));
    put_field(&mut m, 0x0a, Field("PDOA2_OFFSET", ParamType::HexArray(0)));
    put_field(&mut m, 0x0b, Field("AOA_MULTIPOINT_PDOA_CALIB", ParamType::HexArray(0)));
    put_field(&mut m, 0x0c, Field("AOA_MULTIPOINT_PDOA_CALIB", ParamType::HexArray(0)));
    put_field(&mut m, 0x0d, Field("AOA_ANTENNAS_MULTIPOINT_CALIB", ParamType::HexArray(0)));
    put_field(&mut m, 0x0f, Field("RX_ANT_DELAY_CALIB", ParamType::HexArray(0)));
    put_field(&mut m, 0x10, Field("PDOA_OFFSET_CALIB", ParamType::HexArray(0)));
    put_field(&mut m, 0x11, Field("PDOA_MANUFACT_ZERO_OFFSET_CALIB", ParamType::HexArray(0)));
    put_field(&mut m, 0x12, Field("AOA_THRESHOLD_PDOA", ParamType::HexArray(0)));
    put_field(&mut m, 0x13, Field("RSSI_CALIB_CONSTANT_HIGH_PWR", ParamType::HexArray(0)));
    put_field(&mut m, 0x14, Field("RSSI_CALIB_CONSTANT_LOW_PWR", ParamType::HexArray(0)));
    put_field(&mut m, 0x15, Field("SNR_CALIB_CONSTANT_PER_ANTENNA", ParamType::HexArray(0)));
    put_field(&mut m, 0x17, Field("TX_POWER_PER_ANTENNA", ParamType::HexArray(0)));
    put_field(&mut m, 0x18, Field("TX_TEMPERATURE_COMP_PER_ANTENNA", ParamType::HexArray(0)));
    m
}

/// The vendor's configuration parameters of the device, by their two id bytes.
pub open spec fn device_conf_models_nxp() -> Map<(u8, u8), FieldModel> {
    Map::<(u8, u8), FieldModel>::empty()
        .insert((0xe4, 0x02), field("DPD_WAKEUP_SRC"@, Encoding::Hex8))
        .insert((0xe4, 0x03), field("WTX_COUNT_CONFIG"@, Encoding::Dec8))
        .insert((0xe4, 0x04), field("DPD_ENTRY_TIMEOUT"@, Encoding::Dec16))
        .insert((0xe4, 0x05), field("WIFI_COEX_FEATURE"@, Encoding::HexArray(4)))
        .insert((0xe4, 0x26), field("TX_BASE_BAND_CONFIG"@, Encoding::Hex8))
        .insert((0xe4, 0x27), field("DDFS_TONE_CONFIG"@, Encoding::HexArray(72)))
        .insert((0xe4, 0x28), field("TX_PULSE_SHAPE_CONFIG"@, Encoding::HexArray(3)))
        .insert((0xe4, 0x30), field("CLK_CONFIG_CTRL"@, Encoding::HexArray(2)))
        .insert((0xe4, 0x33), field("NXP_EXTENDED_NTF_CONFIG"@, Encoding::Dec8))
        .insert((0xe4, 0x34), field("CLOCK_PRESENT_WAITING_TIME"@, Encoding::Dec16))
        .insert((0xe4, 0x60), field("ANTENNA_RX_IDX_DEFINE"@, Encoding::HexArray(0)))
        .insert((0xe4, 0x61), field("ANTENNA_TX_IDX_DEFINE"@, Encoding::HexArray(0)))
        .insert((0xe4, 0x62), field("ANTENNAS_RX_PAIR_DEFINE"@, Encoding::HexArray(0)))
}

/// The vendor's configuration parameters of the device, by their two id bytes.
pub fn device_conf_params_nxp() -> (m: HashMap<u16, Field<'static>>)
    ensures
        extended_models(m@) == device_conf_models_nxp(),
{
    let mut m: HashMap<u16, Field<'static>> = HashMap::new();
    assert(extended_models(m@) =~= Map::<(u8, u8), FieldModel>::empty());
    put_extended(&mut m, 0xe4, 0x02, Field("DPD_WAKEUP_SRC", ParamType::Hex8));
    put_extended(&mut m, 0xe4, 0x03, Field("WTX_COUNT_CONFIG", ParamType::Dec8));
    put_extended(&mut m, 0xe4, 0x04, Field("DPD_ENTRY_TIMEOUT", ParamType::Dec16));
    put_extended(&mut m, 0xe4, 0x05, Field("WIFI_COEX_FEATURE", ParamType::HexArray(4)));
    put_extended(&mut m, 0xe4, 0x26, Field("TX_BASE_BAND_CONFIG", ParamType::Hex8));
    put_extended(&mut m, 0xe4, 0x27, Field("DDFS_TONE_CONFIG", ParamType::HexArray(72)));
    put_extended(&mut m, 0xe4, 0x28, Field("TX_PULSE_SHAPE_CONFIG", ParamType::HexArray(3)));
    put_extended(&mut m, 0xe4, 0x30, Field("CLK_CONFIG_CTRL", ParamType::HexArray(2)));
    put_extended(&mut m, 0xe4, 0x33, Field("NXP_EXTENDED_NTF_CONFIG", ParamType::Dec8));
    put_extended(&mut m, 0xe4, 0x34, Field("CLOCK_PRESENT_WAITING_TIME", ParamType::Dec16));
    put_extended(&mut m, 0xe4, 0x60, Field("ANTENNA_RX_IDX_DEFINE", ParamType::HexArray(0)));
    put_extended(&mut m, 0xe4, 0x61, Field("ANTENNA_TX_IDX_DEFINE", ParamType::HexArray(0)));
    put_extended(&mut m, 0xe4, 0x62, Field("ANTENNAS_RX_PAIR_DEFINE", ParamType::HexArray(0)));
    m
}

} // verus!
