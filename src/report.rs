use vstd::prelude::*;

use crate::error::ControllerError;

verus! {

/// Number of bytes a report must hold for every field to be read.
pub const MIN_REPORT_LEN: usize = 23;

pub const SEQUENCE_OFFSET: usize = 1;
pub const BUTTONS_OFFSET: usize = 5;
pub const MODE_OFFSET: usize = 6;
pub const LEFT_TRIGGER_OFFSET: usize = 8;
pub const RIGHT_TRIGGER_OFFSET: usize = 9;
pub const GYRO_Z_OFFSET: usize = 17;
pub const ACCEL_X_OFFSET: usize = 19;
pub const ACCEL_Y_OFFSET: usize = 21;

/// The typed fields of one raw report.
#[derive(Debug, Clone, Copy, PartialEq, Eq, Structural)]
pub struct ReportFields {
    pub sequence: u8,
    pub buttons: u8,
    pub mode: u8,
    pub left_trigger: u8,
    pub right_trigger: u8,
    pub gyro_z: i16,
    pub accel_x: i16,
    pub accel_y: i16,
}

/// The value of a signed 16-bit integer stored little-endian in `lo`, `hi`.
pub open spec fn le_i16(lo: u8, hi: u8) -> int {
    let v = lo as int + 256 * (hi as int);
    if v >= 32768 {
        v - 65536
    } else {
        v
    }
}

/// The signed 16-bit little-endian integer at `at` in `s`.
pub open spec fn i16_at(s: Seq<u8>, at: int) -> int {
    le_i16(s[at], s[at + 1])
}

/// The fields of a report held in `s`, which holds at least
/// `MIN_REPORT_LEN` bytes.
pub open spec fn fields_of(s: Seq<u8>) -> ReportFields {
    ReportFields {
        sequence: s[SEQUENCE_OFFSET as int],
        buttons: s[BUTTONS_OFFSET as int],
        mode: s[MODE_OFFSET as int],
        left_trigger: s[LEFT_TRIGGER_OFFSET as int],
        right_trigger: s[RIGHT_TRIGGER_OFFSET as int],
        gyro_z: i16_at(s, GYRO_Z_OFFSET as int) as i16,
        accel_x: i16_at(s, ACCEL_X_OFFSET as int) as i16,
        accel_y: i16_at(s, ACCEL_Y_OFFSET as int) as i16,
    }
}

/// What decoding `s` gives: its fields, or `MalformedReport` when it is
/// too short.
pub open spec fn decoded(s: Seq<u8>) -> Result<ReportFields, ControllerError> {
    if s.len() < MIN_REPORT_LEN {
        Err(ControllerError::MalformedReport)
    } else {
        Ok(fields_of(s))
    }
}

/// Reads a signed 16-bit little-endian integer from two bytes.
pub fn i16_from_le(lo: u8, hi: u8) -> (r: i16)
    ensures
        r as int == le_i16(lo, hi),
{
    let v: i32 = lo as i32 + 256 * (hi as i32);
    if v >= 32768 {
        (v - 65536) as i16
    } else {
        v as i16
    }
}

/// Extracts the typed fields of a report. Only the length is checked:
/// every later stage bounds its own values.
pub fn decode_report(buf: &[u8]) -> (r: Result<ReportFields, ControllerError>)
    ensures
        r == decoded(buf@),
        r is Err <==> buf@.len() < MIN_REPORT_LEN,
{
    if buf.len() < MIN_REPORT_LEN {
        return Err(ControllerError::MalformedReport);
    }
    let gyro_z = i16_from_le(buf[GYRO_Z_OFFSET], buf[GYRO_Z_OFFSET + 1]);
    let accel_x = i16_from_le(buf[ACCEL_X_OFFSET], buf[ACCEL_X_OFFSET + 1]);
    let accel_y = i16_from_le(buf[ACCEL_Y_OFFSET], buf[ACCEL_Y_OFFSET + 1]);
    Ok(ReportFields {
        sequence: buf[SEQUENCE_OFFSET],
        buttons: buf[BUTTONS_OFFSET],
        mode: buf[MODE_OFFSET],
        left_trigger: buf[LEFT_TRIGGER_OFFSET],
        right_trigger: buf[RIGHT_TRIGGER_OFFSET],
        gyro_z,
        accel_x,
        accel_y,
    })
}

} // verus!
