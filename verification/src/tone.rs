//! Tone Control: three bands (BASS, MIDDLE, TREBLE) in half-decibel steps, each a vertical slider
//! in its own column. The hit tests are the inverse of where the renderer places things.
use vstd::prelude::*;
use crate::panel::W;

verus! {

/// Catalogue order, which is the sound service's own order.
pub const BAND_NAMES: [&'static str; 3] = ["BASS", "MIDDLE", "TREBLE"];
pub const BANDS: usize = 3;

/// Raw limit, in half-decibels: past it the service zeroes the band instead of clamping it.
pub const BAND_MAX: i8 = 20;
/// One tap = 1.0 dB.
pub const BAND_STEP: i8 = 2;

/// The slider field.
pub const FIELD_TOP: i32 = 250;
pub const FIELD_BOTTOM: i32 = 570;
/// The zero line: the boundary between "tap to raise" and "tap to lower".
pub const FIELD_MID: i32 = 410;
/// Where the first band column starts, and each column's width.
pub const BAND_X0: i32 = 45;
pub const BAND_SLOT: i32 = 130;
/// How far a full-scale knob sits from the zero line.
pub const SPAN: i32 = 150;

/// Footer controls: Reset is the left half of the footer.
pub const FOOTER_TOP: i32 = 700;
pub const FOOTER_H: i32 = 60;

/// Integer division rounding toward zero, as `i32`'s `/` does.
pub open spec fn tdiv(a: int, b: int) -> int {
    if a >= 0 { a / b } else { -((-a) / b) }
}

/// Centre x of band `i` (where its guide, knob and labels are drawn).
pub fn band_center_x(i: usize) -> (x: i32)
    requires
        BAND_X0 + i * BAND_SLOT + BAND_SLOT / 2 <= i32::MAX,
    ensures
        x == BAND_X0 + i * BAND_SLOT + BAND_SLOT / 2,
{
    BAND_X0 + i as i32 * 130 + BAND_SLOT / 2
}

/// Where the knob of a band at value `v` is drawn.
pub open spec fn knob_y(v: int) -> int {
    FIELD_MID - tdiv(v * SPAN, BAND_MAX as int)
}

/// The band value a finger at `y` asks for: the inverse of the knob placement, rounded to the
/// nearest step (halves away from zero) and clamped to the range.
pub open spec fn spec_value_at_y(y: int) -> int {
    let raw = tdiv((FIELD_MID - y) * BAND_MAX, SPAN as int);
    let snapped = if raw >= 0 { (raw + 1) / 2 * 2 } else { -((-raw + 1) / 2 * 2) };
    if snapped < -BAND_MAX { -BAND_MAX as int } else if snapped > BAND_MAX { BAND_MAX as int } else { snapped }
}

/// The band value a finger at `y` asks for.
pub fn value_at_y(y: i32) -> (v: i8)
    requires
        i32::MIN <= (FIELD_MID - y) * BAND_MAX <= i32::MAX,
    ensures
        v == spec_value_at_y(y as int),
{
    let d = FIELD_MID - y;
    let raw: i32 = if d >= 0 { d * 20 / SPAN } else { -((-d) * 20 / SPAN) };
    let snapped: i32 = if raw >= 0 { (raw + 1) / 2 * 2 } else { -((-raw + 1) / 2 * 2) };
    (if snapped < -20 { -20 } else if snapped > 20 { 20 } else { snapped }) as i8
}

/// Reading a knob back gives the value it was drawn at, for every step of the range.
pub proof fn lemma_value_round_trip(v: int)
    requires
        -BAND_MAX <= v <= BAND_MAX,
        v % 2 == 0,
    ensures
        spec_value_at_y(knob_y(v)) == v,
        FIELD_TOP < knob_y(v) < FIELD_BOTTOM,
{
    assert(-20 <= v <= 20);
    if v == -20 {} else if v == -18 {} else if v == -16 {} else if v == -14 {} else if v == -12 {}
    else if v == -10 {} else if v == -8 {} else if v == -6 {} else if v == -4 {} else if v == -2 {}
    else if v == 0 {} else if v == 2 {} else if v == 4 {} else if v == 6 {} else if v == 8 {}
    else if v == 10 {} else if v == 12 {} else if v == 14 {} else if v == 16 {} else if v == 18 {}
    else {}
}

/// The band column under `x`, if any: columns tile the field from `BAND_X0`.
pub open spec fn spec_band_at(x: int) -> Option<usize> {
    let d = x - BAND_X0;
    if 0 <= d && d / (BAND_SLOT as int) < BANDS { Some((d / (BAND_SLOT as int)) as usize) } else { None }
}

/// Which band column is under `x`, if any.
pub fn band_at(x: i32) -> (r: Option<usize>)
    requires
        x >= i32::MIN + BAND_X0,
    ensures
        r == spec_band_at(x as int),
{
    let d = x - BAND_X0;
    if d < 0 {
        return None;
    }
    let i = d / BAND_SLOT;
    if i < 3 { Some(i as usize) } else { None }
}

/// Did this tap land on Reset? The right half of the footer is a status label, not a button.
pub fn reset_at(x: i32, y: i32) -> (b: bool)
    ensures
        b == (FOOTER_TOP <= y < FOOTER_TOP + FOOTER_H && x < W / 2),
{
    FOOTER_TOP <= y && y < FOOTER_TOP + FOOTER_H && x < W / 2
}

/// What the screen draws.
pub struct Tone {
    pub bands: [i8; 3],
    /// Is Tone Control switched on?
    pub on: bool,
    /// Whatever upstream control is bypassing the whole chain, if any.
    pub overridden_by: Option<&'static str>,
}

} // verus!
