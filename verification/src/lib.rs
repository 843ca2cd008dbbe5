//! Decoder for the binary control packets of a UWB command interface.
//!
//! A packet arrives as a string of hexadecimal digits.  It is checked against
//! its four-byte header, matched by group, operation and message type, and
//! rendered as an ordered report of named values.

pub mod decode;
pub mod error;
pub mod field;
pub mod laws;
pub mod packet;
pub mod protocol;
pub mod range_data;
pub mod registry;
pub mod render;
pub mod report;
pub mod tables;

pub use decode::{_print_static, ext_key, print_config, print_static};
pub use error::{ErrorKind, UciPacketParseError};
pub use field::{print_field, print_hexarr, Field, ParamType};
pub use packet::{parse_hexstr, to_packet, Packet, PacketId};
pub use range_data::{print_range_data, print_range_data_twr, MacType, ReportType};
pub use registry::{
    find_packet, parse, print_calibration, print_packet, print_payload, Decoder, PacketDesc,
};
pub use render::FracBits;
pub use report::{Record, Report};
