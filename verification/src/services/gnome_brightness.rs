//! Screen brightness targets for the GNOME settings daemon, which uses a
//! 0–100 scale.
use vstd::prelude::*;

verus! {

/// `v` limited to `lo..=hi`.
pub open spec fn spec_clamp(v: int, lo: int, hi: int) -> int {
    if v < lo {
        lo
    } else if v > hi {
        hi
    } else {
        v
    }
}

/// The upper end of the brightness scale: GNOME always uses 0–100.
pub fn brightness_max() -> (r: i32)
    ensures
        r == 100,
{
    100
}

/// The brightness that is sent when an absolute value is requested: the
/// request limited to 1–100.
pub fn clamp_brightness(value: i32) -> (r: i32)
    ensures
        r == spec_clamp(value as int, 1, 100),
{
    if value < 1 {
        1
    } else if value > 100 {
        100
    } else {
        value
    }
}

/// The brightness that is sent when the current level `current` is moved by
/// `delta_percent`: the sum limited to 1–100.
pub fn next_brightness(current: i32, delta_percent: i32) -> (r: i32)
    ensures
        r == spec_clamp(current + delta_percent, 1, 100),
{
    let sum: i64 = current as i64 + delta_percent as i64;
    if sum < 1 {
        1
    } else if sum > 100 {
        100
    } else {
        sum as i32
    }
}

/// Every brightness this module sends lies between 1 and the scale's maximum.
pub proof fn lemma_brightness_in_scale(v: int)
    ensures
        1 <= spec_clamp(v, 1, 100) <= 100,
{
}

/// Requesting the brightness that was just sent sends it again unchanged.
pub proof fn lemma_clamp_brightness_idempotent(v: int)
    ensures
        spec_clamp(spec_clamp(v, 1, 100), 1, 100) == spec_clamp(v, 1, 100),
{
}

/// A relative step of zero from a level on the scale keeps that level.
pub proof fn lemma_zero_step_keeps_level(current: int)
    requires
        1 <= current <= 100,
    ensures
        spec_clamp(current + 0, 1, 100) == current,
{
}

} // verus!
