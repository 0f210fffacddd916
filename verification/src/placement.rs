//! Where the notch window goes: centred on the primary monitor, at the top.

use vstd::prelude::*;

verus! {

/// Half of `d`, rounded toward zero.
pub open spec fn half_toward_zero(d: int) -> int {
    if d >= 0 {
        d / 2
    } else {
        -((-d) / 2)
    }
}

/// The left edge that centres something `inner` wide in something `outer`
/// wide. Negative when the inner thing is the wider one.
pub open spec fn centered_offset(outer: int, inner: int) -> int {
    half_toward_zero(outer - inner)
}

/// The vertical position of the notch window: the top edge of the monitor.
pub const NOTCH_TOP: i32 = 0;

/// [`centered_offset`] of two pixel widths, as a pixel position.
pub open spec fn spec_centered_x(monitor_width: u32, window_width: u32) -> i32 {
    centered_offset(monitor_width as int, window_width as int) as i32
}

/// The horizontal position that centres a window `window_width` pixels wide
/// on a monitor `monitor_width` pixels wide.
///
/// Every pair of widths has an answer: half the difference of two `u32`
/// values always fits in an `i32`.
#[verifier::when_used_as_spec(spec_centered_x)]
pub fn centered_x(monitor_width: u32, window_width: u32) -> (x: i32)
    ensures
        x == centered_offset(monitor_width as int, window_width as int),
        x == spec_centered_x(monitor_width, window_width),
{
    let difference: i64 = monitor_width as i64 - window_width as i64;
    (difference / 2) as i32
}

/// A centred window has the same margin on both sides, up to the one pixel
/// that an odd difference leaves over; the spare pixel falls on the side away
/// from zero.
pub proof fn centered_offset_leaves_equal_margins(outer: int, inner: int)
    ensures
        outer >= inner ==> {
            let left = centered_offset(outer, inner);
            let right = outer - inner - left;
            0 <= left <= right <= left + 1
        },
        outer < inner ==> {
            let left = centered_offset(outer, inner);
            let right = outer - inner - left;
            left - 1 <= right <= left <= 0
        },
{
}

} // verus!
