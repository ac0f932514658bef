//! USB-DAC mode: the screen's ON/OFF switch in the header.
use vstd::prelude::*;

verus! {

/// The switch as drawn, `(x, y, w, h)`.
pub const TOGGLE: (i32, i32, i32, i32) = (424, 56, 34, 18);

/// Is `(x, y)` on the switch? The target reaches well past the drawn switch to the left (over
/// its ON/OFF caption) and up and down, so it can be hit by a thumb.
pub fn hit_toggle(x: i32, y: i32) -> (b: bool)
    ensures
        b == ({
            let cx = TOGGLE.0 + TOGGLE.2 / 2;
            let cy = TOGGLE.1 + TOGGLE.3 / 2;
            cx - 60 <= x < cx + 34 && cy - 22 <= y < cy + 22
        }),
        b == (381 <= x < 475 && 43 <= y < 87),
{
    let (tx, ty, tw, th) = TOGGLE;
    let (cx, cy) = (tx + tw / 2, ty + th / 2);
    cx - 60 <= x && x < cx + 34 && cy - 22 <= y && y < cy + 22
}

} // verus!
