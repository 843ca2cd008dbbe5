//! The numbers of the protocol: message types, groups and operations.

use vstd::prelude::*;

verus! {

/// Message type: a command.
pub const MT_CMD: u8 = 1;

/// Message type: a response.
pub const MT_RSP: u8 = 2;

/// Message type: a notification.
pub const MT_NTF: u8 = 3;

pub const GID_CORE: u8 = 0x00;

pub const GID_SESSION: u8 = 0x01;

pub const GID_RANGING: u8 = 0x02;

pub const GID_PROPRIETARY: u8 = 0x0e;

pub const GID_PROPRIETARY_A: u8 = 0x0a;

pub const GID_TEST: u8 = 0x0d;

pub const OID_CORE_DEVICE_RESET: u8 = 0;

pub const OID_CORE_DEVICE_STATUS: u8 = 1;

pub const OID_CORE_GET_DEVICE_INFO: u8 = 2;

pub const OID_CORE_GET_CAPS_INFO: u8 = 3;

pub const OID_CORE_SET_CONFIG: u8 = 4;

pub const OID_CORE_GET_CONFIG: u8 = 5;

pub const OID_CORE_GENERIC_ERROR: u8 = 7;

pub const OID_SESSION_INIT: u8 = 0;

pub const OID_SESSION_DEINIT: u8 = 1;

pub const OID_SESSION_STATUS: u8 = 2;

pub const OID_SESSION_SET_APP_CONFIG: u8 = 3;

pub const OID_SESSION_GET_APP_CONFIG: u8 = 4;

pub const OID_SESSION_GET_COUNT: u8 = 5;

pub const OID_SESSION_GET_STATE: u8 = 6;

pub const OID_RANGE_START: u8 = 0;

pub const OID_RANGE_DATA: u8 = 0;

pub const OID_RANGE_STOP: u8 = 1;

pub const OID_GET_RANGING_COUNT: u8 = 3;

pub const OID_BLINK_DATA_TX: u8 = 4;

pub const OID_TEST_CONFIG_SET: u8 = 0;

pub const OID_TEST_CONFIG_GET: u8 = 1;

pub const OID_TEST_PERIODIC_TX: u8 = 2;

pub const OID_TEST_PER_RX: u8 = 3;

pub const OID_TEST_RX: u8 = 5;

pub const OID_TEST_LOOPBACK: u8 = 6;

pub const OID_TEST_STOP_SESSION: u8 = 7;

pub const OID_TEST_SS_TWR: u8 = 8;

pub const OID_NXP_CORE_DEVICE_INIT: u8 = 0x00;

pub const OID_NXP_SE_DO_BIND: u8 = 0x01;

pub const OID_NXP_SE_GET_BINDING_CNT: u8 = 0x0a;

pub const OID_NXP_SE_GET_BINDING_STAT: u8 = 0x0c;

pub const OID_NXP_TEST_LOOP: u8 = 0x0d;

pub const OID_NXP_TEST_CONNECTIVITY: u8 = 0x0e;

pub const OID_NXP_SE_COMM_ERROR: u8 = 0x10;

pub const OID_NXP_SET_CALIBRATION: u8 = 0x11;

pub const OID_NXP_GET_CALIBRATION: u8 = 0x12;

pub const OID_NXP_BINDING_STAT: u8 = 0x13;

pub const OID_NXP_GET_INTF_STAT: u8 = 0x21;

pub const OID_NXP_WRITE_CALIB_DATA: u8 = 0;

pub const OID_NXP_READ_CALIB_DATA: u8 = 1;

} // verus!
