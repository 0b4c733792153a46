use vstd::prelude::*;

use crate::buttons::{buttons_of, decode_buttons, ButtonState};
use crate::error::ControllerError;
use crate::report::{decode_report, fields_of, MIN_REPORT_LEN};
use crate::triggers::{correct_triggers, corrected, LEFT_SCALE_TENTHS, RIGHT_SCALE_TENTHS};

verus! {

/// Everything one report yields for the virtual gamepad, but the steering
/// value itself, which is computed from `accel_x` and `accel_y` in floating
/// point by the caller.
#[derive(Debug, Clone, Copy, PartialEq, Eq, Structural)]
pub struct DerivedFrame {
    /// The report's sequence counter, for diagnostics.
    pub sequence: u8,
    /// The raw face-button byte, for diagnostics.
    pub button_byte: u8,
    pub accel_x: i16,
    pub accel_y: i16,
    pub buttons: ButtonState,
    pub left_trigger: u8,
    pub right_trigger: u8,
}

/// The frame that a report of at least `MIN_REPORT_LEN` bytes yields.
pub open spec fn frame_of(s: Seq<u8>) -> DerivedFrame {
    let f = fields_of(s);
    DerivedFrame {
        sequence: f.sequence,
        button_byte: f.buttons,
        accel_x: f.accel_x,
        accel_y: f.accel_y,
        buttons: buttons_of(f.buttons, f.mode),
        left_trigger: corrected(f.left_trigger, LEFT_SCALE_TENTHS) as u8,
        right_trigger: corrected(f.right_trigger, RIGHT_SCALE_TENTHS) as u8,
    }
}

/// What decoding `s` into a frame gives.
pub open spec fn derived(s: Seq<u8>) -> Result<DerivedFrame, ControllerError> {
    if s.len() < MIN_REPORT_LEN {
        Err(ControllerError::MalformedReport)
    } else {
        Ok(frame_of(s))
    }
}

/// Decodes one report into a frame: its buttons, its corrected triggers and
/// the accelerometer samples that steering is computed from. A report
/// shorter than `MIN_REPORT_LEN` gives `MalformedReport`.
pub fn decode_frame(buf: &[u8]) -> (r: Result<DerivedFrame, ControllerError>)
    ensures
        r == derived(buf@),
        r is Err <==> buf@.len() < MIN_REPORT_LEN,
{
    match decode_report(buf) {
        Err(e) => Err(e),
        Ok(f) => {
            let (left_trigger, right_trigger) = correct_triggers(f.left_trigger, f.right_trigger);
            Ok(DerivedFrame {
                sequence: f.sequence,
                button_byte: f.buttons,
                accel_x: f.accel_x,
                accel_y: f.accel_y,
                buttons: decode_buttons(f.buttons, f.mode),
                left_trigger,
                right_trigger,
            })
        },
    }
}

/// Decoding keeps no state and reads nothing past the last field: two
/// reports that agree on their first `MIN_REPORT_LEN` bytes, and in
/// particular the same report decoded twice, give the same result.
pub proof fn lemma_decode_depends_on_prefix_only(a: Seq<u8>, b: Seq<u8>)
    requires
        a.len() >= MIN_REPORT_LEN,
        b.len() >= MIN_REPORT_LEN,
        a.subrange(0, MIN_REPORT_LEN as int) == b.subrange(0, MIN_REPORT_LEN as int),
    ensures
        derived(a) == derived(b),
{
    assert forall|i: int| 0 <= i < MIN_REPORT_LEN implies a[i] == b[i] by {
        assert(a[i] == a.subrange(0, MIN_REPORT_LEN as int)[i]);
        assert(b[i] == b.subrange(0, MIN_REPORT_LEN as int)[i]);
    }
}

/// A report shorter than `MIN_REPORT_LEN` bytes is always rejected as
/// malformed, and a longer one never is.
pub proof fn lemma_short_reports_rejected(s: Seq<u8>)
    ensures
        s.len() < MIN_REPORT_LEN <==> derived(s) == Err::<DerivedFrame, ControllerError>(
            ControllerError::MalformedReport,
        ),
{
}

} // verus!
