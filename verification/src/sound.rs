//! Sound settings: six effect rows, then the taller Balance row with its slider, plus the A/B
//! bypass switch in the header. The geometry is stated once and both the renderer and the hit
//! tests read it.
use vstd::prelude::*;
use crate::panel::HEADER_BOTTOM;
use crate::strings::{dec, push_dec, push_str, owned};

verus! {

pub const ROWS: usize = 7;
pub const ROW_BALANCE: usize = 6;

/// Balance positions run 0 (hard left) to `BALANCE_MAX` (hard right); `BALANCE_CENTRE` is even.
pub const BALANCE_CENTRE: usize = 50;
pub const BALANCE_MAX: usize = 100;

/// `Centre`, `L 12`, `R 7`: how far from the centre, and to which side (past the right end
/// counts as the right end).
pub open spec fn balance_text(pos: nat) -> Seq<char> {
    let i = if pos < BALANCE_MAX { pos } else { BALANCE_MAX as nat };
    if i == BALANCE_CENTRE {
        "Centre"@
    } else if i < BALANCE_CENTRE {
        "L "@ + dec((BALANCE_CENTRE - i) as nat)
    } else {
        "R "@ + dec((i - BALANCE_CENTRE) as nat)
    }
}

/// The balance as the row reads it.
pub fn balance_label(pos: usize) -> (s: String)
    ensures
        s@ == balance_text(pos as nat),
{
    let i = if pos < BALANCE_MAX { pos } else { BALANCE_MAX };
    if i == BALANCE_CENTRE {
        owned("Centre")
    } else if i < BALANCE_CENTRE {
        let mut s = owned("L ");
        push_dec(&mut s, (BALANCE_CENTRE - i) as u64);
        s
    } else {
        let mut s = owned("R ");
        push_dec(&mut s, (i - BALANCE_CENTRE) as u64);
        s
    }
}

/// Height of an effect row, and where the rows start.
pub const ROW_H: i32 = 64;
pub const TOP: i32 = HEADER_BOTTOM;
/// The Balance row is taller: a label and a full-width slider.
pub const BALANCE_ROW_H: i32 = 132;

/// Top of the Balance row: under the six effect rows.
pub fn balance_top() -> (y: i32)
    ensures
        y == TOP + ROW_H * ROW_BALANCE,
{
    TOP + ROW_H * 6
}

/// The row under `y`: an effect row by its band, or the taller Balance row below them.
pub open spec fn spec_row_at(y: int) -> Option<usize> {
    let bal = TOP + ROW_H * ROW_BALANCE;
    if y < TOP {
        None
    } else if y >= bal {
        if y < bal + BALANCE_ROW_H { Some(ROW_BALANCE) } else { None }
    } else {
        Some(((y - TOP) / (ROW_H as int)) as usize)
    }
}

/// Which row is under `y`?
pub fn row_at(y: i32) -> (r: Option<usize>)
    ensures
        r == spec_row_at(y as int),
{
    if y < TOP {
        return None;
    }
    let bal = balance_top();
    if y >= bal {
        return if y < bal + BALANCE_ROW_H { Some(ROW_BALANCE) } else { None };
    }
    let r = ((y - TOP) / ROW_H) as usize;
    if r < ROW_BALANCE { Some(r) } else { None }
}

/// The slider's ends, and how far below the row's top its track runs.
pub const BAL_X0: i32 = 22;
pub const BAL_X1: i32 = 458;
pub const BAL_TRACK_DY: i32 = 86;

/// The CENTRE button at the Balance row's right end.
pub const BAL_RESET_W: i32 = 104;
pub const BAL_RESET_H: i32 = 38;

/// The CENTRE button, `(x, y, w, h)`.
pub fn balance_reset_rect() -> (r: (i32, i32, i32, i32))
    ensures
        r == ((BAL_X1 - BAL_RESET_W) as i32, (TOP + ROW_H * ROW_BALANCE + 12) as i32, BAL_RESET_W,
            BAL_RESET_H),
{
    (BAL_X1 - BAL_RESET_W, balance_top() + 12, BAL_RESET_W, BAL_RESET_H)
}

/// Is `(x, y)` on the CENTRE button?
pub fn hit_balance_reset(x: i32, y: i32) -> (b: bool)
    ensures
        b == (BAL_X1 - BAL_RESET_W <= x < BAL_X1 && TOP + ROW_H * ROW_BALANCE + 12 <= y
            < TOP + ROW_H * ROW_BALANCE + 12 + BAL_RESET_H),
{
    let (rx, ry, rw, rh) = balance_reset_rect();
    rx <= x && x < rx + rw && ry <= y && y < ry + rh
}

/// Positions this close to the centre snap to it, so the centre can be found by finger.
pub const BAL_SNAP: usize = 3;

/// The y the slider's track runs along.
pub fn bal_track_y() -> (y: i32)
    ensures
        y == TOP + ROW_H * ROW_BALANCE + BAL_TRACK_DY,
{
    balance_top() + BAL_TRACK_DY
}

/// The balance position under `x`: the nearest step along the track, clamped to its ends, with
/// the centre snapping.
pub open spec fn spec_balance_at(x: int) -> nat {
    let span = BAL_X1 - BAL_X0;
    let t = if x - BAL_X0 < 0 { 0 } else if x - BAL_X0 > span { span } else { x - BAL_X0 };
    let pos = (t * BALANCE_MAX + span / 2) / span;
    if (pos - BALANCE_CENTRE <= BAL_SNAP && BALANCE_CENTRE - pos <= BAL_SNAP) {
        BALANCE_CENTRE as nat
    } else {
        pos as nat
    }
}

/// The balance position under `x`.
pub fn balance_at(x: i32) -> (pos: usize)
    requires
        x >= i32::MIN + BAL_X0,
    ensures
        pos == spec_balance_at(x as int),
        pos <= BALANCE_MAX,
{
    let span: i32 = BAL_X1 - BAL_X0;
    let d = x - BAL_X0;
    let t = if d < 0 { 0 } else if d > span { span } else { d };
    let pos = ((t as i64 * 100 + span as i64 / 2) / span as i64) as usize;
    let off = if pos >= BALANCE_CENTRE { pos - BALANCE_CENTRE } else { BALANCE_CENTRE - pos };
    if off <= BAL_SNAP { BALANCE_CENTRE } else { pos }
}

/// Where position `pos` sits on the track (past the right end counts as the right end).
pub open spec fn spec_balance_x(pos: int) -> int {
    BAL_X0 + ((if pos < BALANCE_MAX { pos } else { BALANCE_MAX as int }) * (BAL_X1 - BAL_X0)) / (
    BALANCE_MAX as int)
}

/// Where position `pos` sits on the track.
pub fn balance_x(pos: usize) -> (x: i32)
    ensures
        x == spec_balance_x(pos as int),
{
    let p: i32 = if pos < BALANCE_MAX { pos as i32 } else { 100 };
    BAL_X0 + (p * 436) / 100
}

/// Does a press at `y` grab the slider? A generous band around its track.
pub fn balance_grab(y: i32) -> (b: bool)
    ensures
        b == (TOP + ROW_H * ROW_BALANCE + BAL_TRACK_DY - 30 <= y <= TOP + ROW_H * ROW_BALANCE
            + BAL_TRACK_DY + 34),
{
    let ty = bal_track_y();
    ty - 30 <= y && y <= ty + 34
}

/// The A/B bypass switch in the header: two segments.
pub const AB_W: i32 = 48;
pub const AB_H: i32 = 44;
pub const AB_TOP: i32 = 34;
pub const AB_GAP: i32 = 8;

/// Segment `seg` of the A/B switch, `(x, y, w, h)`: right-aligned to the slider's right end.
pub fn ab_rect(seg: usize) -> (r: (i32, i32, i32, i32))
    requires
        seg * (AB_W + AB_GAP) + BAL_X1 <= i32::MAX,
    ensures
        r == ((BAL_X1 - (AB_W * 2 + AB_GAP) + seg * (AB_W + AB_GAP)) as i32, AB_TOP, AB_W, AB_H),
{
    let x0 = BAL_X1 - (AB_W * 2 + AB_GAP);
    assert(seg * 56 <= 2147483647);
    (x0 + seg as i32 * 56, AB_TOP, AB_W, AB_H)
}

/// The A/B segment under `(x, y)`: a band a little taller than the switch, and anything from
/// just left of it on; the split is the middle of the gap between the two segments.
pub open spec fn spec_hit_ab(x: int, y: int) -> Option<usize> {
    let x0 = BAL_X1 - (AB_W * 2 + AB_GAP);
    let x1 = x0 + AB_W + AB_GAP;
    if !(AB_TOP - 6 <= y < AB_TOP + AB_H + 10) || x < x0 - 10 {
        None
    } else {
        Some(if x < x1 - AB_GAP / 2 { 0usize } else { 1usize })
    }
}

/// Which A/B segment is under `(x, y)`?
pub fn hit_ab(x: i32, y: i32) -> (r: Option<usize>)
    ensures
        r == spec_hit_ab(x as int, y as int),
{
    let (x0, _, _, _) = ab_rect(0);
    if !(AB_TOP - 6 <= y && y < AB_TOP + AB_H + 10) || x < x0 - 10 {
        return None;
    }
    let (x1, _, _, _) = ab_rect(1);
    Some(if x < x1 - AB_GAP / 2 { 0 } else { 1 })
}

/// What the Sound screen shows.
#[derive(Clone, Copy)]
pub struct Sound {
    pub dsee: bool,
    pub vinyl: bool,
    /// Off / Studio / Club / Concert Hall.
    pub vpt: &'static str,
    /// Off / Standard A.. / Low B.
    pub dcphase: &'static str,
    pub normalizer: bool,
    pub clearaudio: bool,
    pub eq_preset: &'static str,
    pub bt_codec: Option<&'static str>,
    pub balance: usize,
    pub balance_drag: bool,
}

/// The slider and its label agree: every position the track offers lands on the track, the
/// centre sits in its middle, and a position read back from where it is drawn is that position
/// (the centre's neighbours snap to it).
pub proof fn lemma_balance_round_trip(pos: int)
    requires
        0 <= pos <= BALANCE_MAX,
    ensures
        BAL_X0 <= spec_balance_x(pos) <= BAL_X1,
        spec_balance_x(BALANCE_CENTRE as int) == (BAL_X0 + BAL_X1) / 2,
        spec_balance_at(spec_balance_x(pos)) == if pos - BALANCE_CENTRE <= BAL_SNAP
            && BALANCE_CENTRE - pos <= BAL_SNAP {
            BALANCE_CENTRE as int
        } else {
            pos
        },
{
    let x = spec_balance_x(pos);
    let t = (pos * 436) / 100;
    assert(0 <= pos * 436 <= 43600) by (nonlinear_arith)
        requires
            0 <= pos <= 100,
    ;
    assert(x == 22 + t);
    assert((t * 100 + 218) / 436 == pos) by (nonlinear_arith)
        requires
            t == (pos * 436) / 100,
            0 <= pos <= 100,
    ;
}

} // verus!
