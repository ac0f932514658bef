//! USB mass-storage mode: the screen shown while the storage is lent to a computer, with one
//! control, TURN OFF.
use vstd::prelude::*;
use crate::panel::spec_in_rect;

verus! {

/// The TURN OFF button, `(x, y, w, h)`: 220 wide and centred (`(W - 220) / 2`), 150 below the
/// middle of the panel (`H / 2 + 150`).
pub const OFF_BTN: (i32, i32, i32, i32) = (130, 550, 220, 60);

/// Is `(x, y)` on the TURN OFF button?
pub fn hit_off(x: i32, y: i32) -> (b: bool)
    ensures
        b == spec_in_rect(OFF_BTN, x as int, y as int),
        b == (130 <= x < 350 && 550 <= y < 610),
{
    let (bx, by, bw, bh) = OFF_BTN;
    x >= bx && x < bx + bw && y >= by && y < by + bh
}

} // verus!
