//! The ways in which decoding a packet can fail.

use vstd::prelude::*;
use vstd::string::StringExecFns;
use crate::render::{dec_text, push_dec};

verus! {

/// Why a decode stopped.
#[derive(Clone, Copy, Debug, PartialEq, Eq, Structural)]
pub enum ErrorKind {
    /// A pair of characters of the input is not two hexadecimal digits.
    HexParseError,
    /// The packet has fewer than four bytes, so it has no header.
    TooShort,
    /// The header announces `declared` payload bytes and `actual` follow it.
    PayloadLengthMismatch { declared: u8, actual: usize },
    /// A field of a fixed layout would end behind the payload, or the count
    /// of a parameter list would lie behind it.
    LengthMismatch,
    /// A parameter list in a payload of fewer than five bytes.
    EmptyPayload,
    /// A calibration command with fewer than three payload bytes.
    CalibrationTooShort,
    /// A ranging report with fewer than twenty-five payload bytes.
    RangingTooShort,
    /// A ranging report of a measurement type that has no layout here.
    UnsupportedMeasurement { report_type: u8 },
}

impl ErrorKind {
    /// The one line of text that reports the error.
    pub open spec fn text(self) -> Seq<char> {
        match self {
            ErrorKind::HexParseError => "Failed to parse hex string"@,
            ErrorKind::TooShort => "packet length is less than 4 bytes"@,
            ErrorKind::PayloadLengthMismatch { declared, actual } => {
                "payload length mismatch: packet_len="@ + dec_text(declared as nat) + " actual="@
                    + dec_text(actual as nat)
            },
            ErrorKind::LengthMismatch => "length mismatch"@,
            ErrorKind::EmptyPayload => "payload len is zero"@,
            ErrorKind::CalibrationTooShort => "payload len mismatch"@,
            ErrorKind::RangingTooShort => "mismatch length"@,
            ErrorKind::UnsupportedMeasurement { report_type } => {
                "unsupported measurement type "@ + dec_text(report_type as nat)
            },
        }
    }
}

/// An error met while a packet was read or decoded.
#[derive(Clone, Copy, Debug, PartialEq, Eq, Structural)]
pub struct UciPacketParseError {
    pub kind: ErrorKind,
}

impl UciPacketParseError {
    pub fn new(kind: ErrorKind) -> (e: UciPacketParseError)
        ensures
            e.kind == kind,
    {
        UciPacketParseError { kind }
    }

    /// The one line of text that reports the error.
    pub fn to_string(&self) -> (s: String)
        ensures
            s@ == self.kind.text(),
    {
        match self.kind {
            ErrorKind::HexParseError => String::from_str("Failed to parse hex string"),
            ErrorKind::TooShort => String::from_str("packet length is less than 4 bytes"),
            ErrorKind::PayloadLengthMismatch { declared, actual } => {
                let mut s = String::from_str("payload length mismatch: packet_len=");
                push_dec(&mut s, declared as u64);
                s.append(" actual=");
                push_dec(&mut s, actual as u64);
                s
            },
            ErrorKind::LengthMismatch => String::from_str("length mismatch"),
            ErrorKind::EmptyPayload => String::from_str("payload len is zero"),
            ErrorKind::CalibrationTooShort => String::from_str("payload len mismatch"),
            ErrorKind::RangingTooShort => String::from_str("mismatch length"),
            ErrorKind::UnsupportedMeasurement { report_type } => {
                let mut s = String::from_str("unsupported measurement type ");
                push_dec(&mut s, report_type as u64);
                s
            },
        }
    }
}

} // verus!
