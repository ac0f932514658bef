//! Panel-wide geometry: the frame every screen is laid out in, shared by the renderers and by the
//! hit tests so the two can never disagree about where a thing is.
use vstd::prelude::*;

verus! {

/// Panel width in pixels.
pub const W: i32 = 480;
/// Panel height in pixels.
pub const H: i32 = 800;
/// Height of the status strip at the very top of every screen.
pub const STATUS_H: i32 = 40;
/// Bottom edge of a screen header (status strip + title bar); lists start here.
pub const HEADER_BOTTOM: i32 = 91;
/// Height of the Now Playing bar docked along the bottom edge.
pub const NP_BAR_H: i32 = 64;
/// Bottom edge of every scrolling list: the Now Playing bar sits below it.
pub const LIST_BOTTOM: i32 = H - NP_BAR_H;
/// Width of the strip along the right edge that belongs to the scrollbar drag.
pub const SBAR_GRAB_W: i32 = 20;
/// The standard left/right content gutter.
pub const GUTTER: i32 = 22;
/// Height of the accent PLAY | SHUFFLE band a list page carries under its header.
pub const BAND_H: i32 = 60;
/// Gap between the edge the band hangs from and the band itself.
pub const BAND_GAP: i32 = 12;

/// Is `x` within `[lo, hi)`?
pub open spec fn within(x: int, lo: int, hi: int) -> bool {
    lo <= x < hi
}

/// Is `(x, y)` inside the rectangle `(rx, ry, rw, rh)`?
pub open spec fn spec_in_rect(r: (i32, i32, i32, i32), x: int, y: int) -> bool {
    within(x, r.0 as int, r.0 + r.2) && within(y, r.1 as int, r.1 + r.3)
}

/// True if `(x, y)` lies inside the rectangle `(rx, ry, rw, rh)`.
pub fn in_rect(r: (i32, i32, i32, i32), x: i32, y: i32) -> (b: bool)
    ensures
        b == spec_in_rect(r, x as int, y as int),
{
    let (rx, ry, rw, rh) = r;
    (rx as i64) <= (x as i64) && (x as i64) < rx as i64 + rw as i64 && (ry as i64) <= (y as i64)
        && (y as i64) < ry as i64 + rh as i64
}

/// Does `x` fall on the scrollbar's drag strip along the right edge?
pub fn sbar_hit_x(x: i32) -> (b: bool)
    ensures
        b == (x >= W - SBAR_GRAB_W),
{
    x >= W - SBAR_GRAB_W
}

/// The accent band `(x, y, w, h)` that hangs below `y_below`: full content width, gutters on
/// both sides.
pub fn shuffle_band_rect(y_below: i32) -> (r: (i32, i32, i32, i32))
    requires
        y_below <= i32::MAX - BAND_GAP - BAND_H,
    ensures
        r == (GUTTER, (y_below + BAND_GAP) as i32, (W - 2 * GUTTER) as i32, BAND_H),
{
    (GUTTER, y_below + BAND_GAP, W - 2 * GUTTER, BAND_H)
}

} // verus!
