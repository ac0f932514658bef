//! Now Playing: the progress rail is the screen's seek control — tap or drag it anywhere along
//! its touch band, which is far taller than the rail as drawn.
use vstd::prelude::*;

verus! {

/// The rail's line, its left end and its width.
pub const RAIL_Y: i32 = 612;
pub const RAIL_X0: i32 = 24;
pub const RAIL_W: i32 = 432;
/// The touch band around the rail.
pub const RAIL_HIT_TOP: i32 = RAIL_Y - 18;
pub const RAIL_HIT_BOT: i32 = RAIL_Y + 24;

/// The position along the rail under `x`, in permille, clamped at both ends.
pub open spec fn spec_permille_at(x: int) -> int {
    let dx = if x - RAIL_X0 < 0 { 0 } else if x - RAIL_X0 > RAIL_W { RAIL_W as int } else { x - RAIL_X0 };
    dx * 1000 / (RAIL_W as int)
}

/// Map an x coordinate to a permille position along the rail.
pub fn permille_at(x: i32) -> (p: u16)
    requires
        x >= i32::MIN + RAIL_X0,
    ensures
        p == spec_permille_at(x as int),
        p <= 1000,
{
    let d = x - RAIL_X0;
    let dx: i32 = if d < 0 { 0 } else if d > RAIL_W { RAIL_W } else { d };
    ((dx as i64 * 1000) / RAIL_W as i64) as u16
}

/// Does `(x, y)` land on the progress rail? The scrub position, in permille, when it does.
pub fn hit_progress(x: i32, y: i32) -> (r: Option<u16>)
    requires
        x >= i32::MIN + RAIL_X0,
    ensures
        r == if RAIL_HIT_TOP <= y < RAIL_HIT_BOT { Some(spec_permille_at(x as int) as u16) } else { None },
{
    if !(RAIL_HIT_TOP <= y && y < RAIL_HIT_BOT) {
        return None;
    }
    Some(permille_at(x))
}

/// The rail's ends are its extremes, and a position never moves backwards as `x` moves right.
pub proof fn lemma_rail_is_monotone(x1: int, x2: int)
    requires
        x1 <= x2,
    ensures
        spec_permille_at(x1) <= spec_permille_at(x2),
        spec_permille_at(RAIL_X0 as int) == 0,
        spec_permille_at((RAIL_X0 + RAIL_W) as int) == 1000,
{
    let d1 = if x1 - RAIL_X0 < 0 { 0 } else if x1 - RAIL_X0 > RAIL_W { RAIL_W as int } else { x1 - RAIL_X0 };
    let d2 = if x2 - RAIL_X0 < 0 { 0 } else if x2 - RAIL_X0 > RAIL_W { RAIL_W as int } else { x2 - RAIL_X0 };
    assert(d1 * 1000 <= d2 * 1000);
    vstd::arithmetic::div_mod::lemma_div_is_ordered(d1 * 1000, d2 * 1000, RAIL_W as int);
}


/// Is `(x, y)` within `r` of `(cx, cy)`?
pub open spec fn in_circle(x: int, y: int, cx: int, cy: int, r: int) -> bool {
    (x - cx) * (x - cx) + (y - cy) * (y - cy) <= r * r
}

/// Is `(x, y)` within `r` of `(cx, cy)`?
pub fn hit_circle(x: i32, y: i32, cx: i32, cy: i32, r: i32) -> (b: bool)
    requires
        0 <= r <= 100,
        0 <= cx <= 1000,
        0 <= cy <= 1000,
    ensures
        b == in_circle(x as int, y as int, cx as int, cy as int, r as int),
{
    let dx: i64 = x as i64 - cx as i64;
    let dy: i64 = y as i64 - cy as i64;
    let rr: i64 = r as i64;
    proof {
        lemma_circle_by_offsets(x as int, y as int, cx as int, cy as int, r as int, dx as int, dy as int);
    }
    if dx < -rr || dx > rr || dy < -rr || dy > rr {
        proof { lemma_far_is_outside(dx as int, dy as int, rr as int); }
        return false;
    }
    proof {
        lemma_near_square(dx as int, rr as int);
        lemma_near_square(dy as int, rr as int);
        lemma_near_square(rr as int, rr as int);
    }
    let sq: i64 = dx * dx + dy * dy;
    sq <= rr * rr
}

proof fn lemma_circle_by_offsets(x: int, y: int, cx: int, cy: int, r: int, dx: int, dy: int)
    requires
        dx == x - cx,
        dy == y - cy,
    ensures
        in_circle(x, y, cx, cy, r) == (dx * dx + dy * dy <= r * r),
{
}

proof fn lemma_far_is_outside(d: int, e: int, r: int)
    by (nonlinear_arith)
    requires
        r >= 0,
        d < -r || d > r || e < -r || e > r,
    ensures
        d * d + e * e > r * r,
{
}

proof fn lemma_near_square(d: int, r: int)
    by (nonlinear_arith)
    requires
        0 <= r <= 100,
        -r <= d <= r,
    ensures
        0 <= d * d <= 10000,
{
}

} // verus!
