use vstd::prelude::*;

verus! {

/// Largest value of a trigger axis.
pub const TRIGGER_MAX: u32 = 255;

/// Scale of the left trigger, in tenths.
pub const LEFT_SCALE_TENTHS: u32 = 10;

/// Scale of the right trigger, in tenths: it under-reports, so it is
/// stretched by a tenth.
pub const RIGHT_SCALE_TENTHS: u32 = 11;

/// A raw trigger byte scaled by `tenths` tenths, rounded down and capped
/// at `TRIGGER_MAX`.
pub open spec fn corrected(raw: u8, tenths: u32) -> int {
    let scaled = (raw as int * tenths as int) / 10;
    if scaled > TRIGGER_MAX {
        TRIGGER_MAX as int
    } else {
        scaled
    }
}

/// Scales one raw trigger byte by `tenths` tenths, rounds down and caps.
pub fn correct_trigger(raw: u8, tenths: u32) -> (r: u8)
    requires
        tenths <= 100,
    ensures
        r as int == corrected(raw, tenths),
{
    proof {
        assert(raw as u32 * tenths <= 255 * 100) by (nonlinear_arith)
            requires
                raw <= 255,
                tenths <= 100,
        ;
    }
    let scaled: u32 = raw as u32 * tenths / 10;
    if scaled > TRIGGER_MAX {
        TRIGGER_MAX as u8
    } else {
        scaled as u8
    }
}

/// Corrects both triggers, the left at `LEFT_SCALE_TENTHS` and the right at
/// `RIGHT_SCALE_TENTHS`.
pub fn correct_triggers(left: u8, right: u8) -> (r: (u8, u8))
    ensures
        r.0 as int == corrected(left, LEFT_SCALE_TENTHS),
        r.1 as int == corrected(right, RIGHT_SCALE_TENTHS),
        r.0 == left,
{
    (correct_trigger(left, LEFT_SCALE_TENTHS), correct_trigger(right, RIGHT_SCALE_TENTHS))
}

} // verus!
