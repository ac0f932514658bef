//! Up Next — ONE list: what has played, what is playing, and everything that will play after it,
//! in play order. This module is the screen's geometry: the slot layout the renderer draws, and
//! every hit test (tap, reorder drag, swipe) that has to agree with it.
use vstd::prelude::*;
use crate::panel::{self, HEADER_BOTTOM, LIST_BOTTOM as PANEL_LIST_BOTTOM, SBAR_GRAB_W, W};
use crate::strings::{dec, owned, push_dec, push_str};
use vstd::string::*;

verus! {

/// A track row, wherever it appears.
pub const RH: i32 = 62;
/// Height of a section heading row.
pub const HDR_H: i32 = 34;
/// Top of the scrolling window (the header's bottom edge).
pub const LIST_TOP: i32 = HEADER_BOTTOM;
/// Bottom of the scrolling window — the same bottom the library lists use, so the shared
/// scrollbar measures one and the same track.
pub const LIST_BOTTOM: i32 = PANEL_LIST_BOTTOM;

/// The reorder grab handle's hit strip on a reorderable row. It stops short of the right edge:
/// the last `SBAR_GRAB_W` px belong to the scrollbar drag.
pub const GRIP_X0: i32 = 424;
pub const GRIP_X1: i32 = W - SBAR_GRAB_W;

/// The "clear Up Next" chip in the header: `(x, y, w, h)`.
pub const CLEAR_CHIP: (i32, i32, i32, i32) = (388, 48, 70, 28);
/// The SHUFFLE chip, immediately left of it.
pub const SHUFFLE_CHIP: (i32, i32, i32, i32) = (302, 48, 78, 28);

/// The CLEAR control's column on the PREVIOUSLY PLAYED heading.
pub const HIST_CLEAR_X0: i32 = 372;
pub const HIST_CLEAR_X1: i32 = W - 14;

/// Is `(x, y)` on the header's CLEAR chip?
pub fn hit_clear_chip(x: i32, y: i32) -> (b: bool)
    ensures
        b == panel::spec_in_rect(CLEAR_CHIP, x as int, y as int),
{
    panel::in_rect(CLEAR_CHIP, x, y)
}

/// Is `(x, y)` on the header's SHUFFLE chip?
pub fn hit_shuffle_chip(x: i32, y: i32) -> (b: bool)
    ensures
        b == panel::spec_in_rect(SHUFFLE_CHIP, x as int, y as int),
{
    panel::in_rect(SHUFFLE_CHIP, x, y)
}

/// Sections of the list, top to bottom.
#[derive(Clone, Copy, PartialEq, Eq, Debug, Structural)]
pub enum Section {
    History,
    Now,
    /// Everything after the playing track.
    Next,
}

/// One slot of the layout.
#[derive(Clone, Copy, PartialEq, Eq, Debug, Structural)]
pub enum Slot {
    /// A section heading. Never tappable.
    Head(Section),
    /// A track that has already played — index into the HISTORY list, oldest first.
    History(usize),
    /// The playing track — index into the sequence.
    Current(usize),
    /// A track after the playing one — index into the sequence.
    Upcoming(usize),
}

/// Height of a slot.
pub open spec fn slot_height(s: Slot) -> int {
    match s {
        Slot::Head(_) => HDR_H as int,
        _ => RH as int,
    }
}

/// Is this slot one of the rows a drag may pick up (a played or an upcoming track)?
pub open spec fn is_movable(s: Slot) -> bool {
    s is History || s is Upcoming
}

impl Slot {
    /// Height of this slot.
    pub fn h(&self) -> (r: i32)
        ensures
            r == slot_height(*self),
    {
        match self {
            Slot::Head(_) => HDR_H,
            _ => RH,
        }
    }

    /// Is this a row a finger can act on?
    pub fn is_row(&self) -> (b: bool)
        ensures
            b == !(*self is Head),
    {
        !matches!(self, Slot::Head(_))
    }
}

// ── The layout's shape, as arithmetic ───────────────────────────────────────────────────────────
//
//     PREVIOUSLY PLAYED    heading + `hist` rows            (only when hist > 0)
//     NOW PLAYING          heading + the playing row        (only when something plays)
//     NEXT                 heading + every later track      (only when there is one)

/// Slots taken by the history section.
pub open spec fn hist_slots(hist: usize) -> int {
    if hist > 0 { hist + 1 } else { 0 }
}

/// Pixels taken by the history section.
pub open spec fn hist_px(hist: usize) -> int {
    if hist > 0 { HDR_H + hist * RH } else { 0 }
}

/// How many tracks come after the playing one.
pub open spec fn up_count(len: usize, cur: Option<usize>) -> int {
    match cur {
        Some(c) => if c + 1 < len { len - c - 1 } else { 0 },
        None => 0,
    }
}

/// Total number of slots.
pub open spec fn n_slots(hist: usize, len: usize, cur: Option<usize>) -> int {
    hist_slots(hist) + match cur {
        Some(_) => 2 + if up_count(len, cur) > 0 { 1 + up_count(len, cur) } else { 0 },
        None => 0,
    }
}

/// The `k`-th slot.
pub open spec fn slot_at(hist: usize, len: usize, cur: Option<usize>, k: int) -> Slot {
    if k < hist_slots(hist) {
        if k == 0 { Slot::Head(Section::History) } else { Slot::History((k - 1) as usize) }
    } else {
        let j = k - hist_slots(hist);
        if j == 0 {
            Slot::Head(Section::Now)
        } else if j == 1 {
            Slot::Current(cur->0)
        } else if j == 2 {
            Slot::Head(Section::Next)
        } else {
            Slot::Upcoming((cur->0 + 1 + (j - 3)) as usize)
        }
    }
}

/// Content-space top of the `k`-th slot.
pub open spec fn top_at(hist: usize, len: usize, cur: Option<usize>, k: int) -> int {
    if k < hist_slots(hist) {
        if k == 0 { 0 } else { HDR_H + (k - 1) * RH }
    } else {
        let j = k - hist_slots(hist);
        let hp = hist_px(hist);
        if j == 0 {
            hp
        } else if j == 1 {
            hp + HDR_H
        } else if j == 2 {
            hp + HDR_H + RH
        } else {
            hp + 2 * HDR_H + RH + (j - 3) * RH
        }
    }
}

/// Total content height.
pub open spec fn content_px(hist: usize, len: usize, cur: Option<usize>) -> int {
    hist_px(hist) + match cur {
        Some(_) => HDR_H + RH + if up_count(len, cur) > 0 {
            HDR_H + up_count(len, cur) * RH
        } else {
            0
        },
        None => 0,
    }
}

/// Content-space top of the NOW PLAYING row.
pub open spec fn current_top_px(hist: usize, cur: Option<usize>) -> Option<int> {
    match cur {
        Some(_) => Some(hist_px(hist) + HDR_H),
        None => None,
    }
}

/// Content-space top of the first upcoming row.
pub open spec fn upcoming_top_px(hist: usize, len: usize, cur: Option<usize>) -> Option<int> {
    if up_count(len, cur) > 0 { Some(hist_px(hist) + 2 * HDR_H + RH) } else { None }
}

/// The shape can be laid out in `i32` pixels and indexed in `usize`.
pub open spec fn layout_fits(hist: usize, len: usize, cur: Option<usize>) -> bool {
    &&& content_px(hist, len, cur) <= i32::MAX
    &&& hist + len + 3 <= usize::MAX
}

/// The layout's SHAPE without the slot list: O(1) in the length of the sequence.
#[derive(Clone, Copy, Debug, Default, PartialEq, Eq)]
pub struct Metrics {
    pub current_top: Option<i32>,
    pub content_h: i32,
}

/// Height of Up Next's scrolling window.
pub open spec fn view_h() -> int {
    LIST_BOTTOM - LIST_TOP
}

/// Height of Up Next's scrolling window.
pub fn queue_view_h() -> (r: i32)
    ensures
        r == view_h(),
{
    LIST_BOTTOM - LIST_TOP
}

/// How far a list of height `content` can scroll.
pub open spec fn max_scroll_of(content: int) -> int {
    if content - view_h() > 0 { content - view_h() } else { 0 }
}

/// Scroll that puts the row at `top` a third of the way down the window, clamped to the list.
pub open spec fn follow_of(top: Option<i32>, content: int) -> int {
    match top {
        Some(t) => {
            let want = t - view_h() / 3;
            if want < 0 { 0 } else if want > max_scroll_of(content) { max_scroll_of(content) } else { want }
        },
        None => 0,
    }
}

/// `hist` is the length of the play history; `len`/`current` describe the sequence.
pub fn metrics(hist: usize, len: usize, current: Option<usize>) -> (m: Metrics)
    requires
        layout_fits(hist, len, current),
    ensures
        m.content_h == content_px(hist, len, current),
        m.current_top matches Some(t) ==> current_top_px(hist, current) == Some(t as int),
        m.current_top is None <==> current is None,
{
    let mut y: i32 = 0;
    let mut current_top: Option<i32> = None;
    if hist > 0 {
        y = HDR_H + hist as i32 * RH;
    }
    if let Some(cur) = current {
        y = y + HDR_H;
        current_top = Some(y);
        y = y + RH;
        if cur < len && cur + 1 < len {
            y = y + HDR_H + (len - cur - 1) as i32 * RH;
        }
    }
    Metrics { current_top, content_h: y }
}

impl Metrics {
    pub fn max_scroll_px(&self) -> (r: i32)
        ensures
            r == max_scroll_of(self.content_h as int),
    {
        if self.content_h > queue_view_h() { self.content_h - queue_view_h() } else { 0 }
    }

    /// Scroll that puts NOW PLAYING a third of the way down the window.
    pub fn follow_scroll(&self) -> (r: i32)
        ensures
            r == follow_of(self.current_top, self.content_h as int),
    {
        match self.current_top {
            Some(top) => {
                let want = top as i64 - (queue_view_h() / 3) as i64;
                let max = self.max_scroll_px();
                if want < 0 { 0 } else if want > max as i64 { max } else { want as i32 }
            },
            None => 0,
        }
    }
}


/// The whole screen as a list of slots with their content-space tops.
#[derive(Clone, Debug, Default)]
pub struct Layout {
    /// (slot, top in CONTENT space), in drawing order.
    pub slots: Vec<(Slot, i32)>,
    pub content_h: i32,
    /// Content-space top of the NOW PLAYING row, if there is one.
    pub current_top: Option<i32>,
    /// Content-space top of the first HISTORY row, if there is a history section.
    history_top_px: Option<i32>,
    /// Content-space top of the first upcoming row, and the SEQUENCE index it holds.
    upcoming_top_px: Option<i32>,
    upcoming_first: usize,
}

impl Layout {
    /// This value is exactly the layout of `hist` played tracks and a sequence of `len` with
    /// `cur` playing.
    pub closed spec fn is_layout_of(&self, hist: usize, len: usize, cur: Option<usize>) -> bool {
        &&& self.slots@.len() == n_slots(hist, len, cur)
        &&& forall|k: int|
            0 <= k < self.slots@.len() ==> #[trigger] self.slots@[k].0 == slot_at(hist, len, cur, k)
                && self.slots@[k].1 == top_at(hist, len, cur, k)
        &&& self.content_h == content_px(hist, len, cur)
        &&& (self.current_top matches Some(t) ==> current_top_px(hist, cur) == Some(t as int))
        &&& (self.current_top is None <==> cur is None)
        &&& (self.history_top_px matches Some(t) ==> hist > 0 && t == HDR_H)
        &&& (self.history_top_px is None <==> hist == 0)
        &&& (self.upcoming_top_px matches Some(t) ==> upcoming_top_px(hist, len, cur) == Some(
            t as int,
        ))
        &&& (self.upcoming_top_px is None <==> up_count(len, cur) == 0)
        &&& self.upcoming_first == if up_count(len, cur) > 0 { cur->0 + 1 } else { 0 }
    }

    /// A layout that `layout()` produces for some sequence.
    pub closed spec fn wf(&self) -> bool {
        exists|hist: usize, len: usize, cur: Option<usize>|
            #![trigger self.is_layout_of(hist, len, cur)]
            self.is_layout_of(hist, len, cur) && layout_fits(hist, len, cur)
    }

    /// The slots, in drawing order, with their content-space tops.
    pub closed spec fn spec_slots(&self) -> Seq<(Slot, i32)> {
        self.slots@
    }

    /// Total content height, as stored.
    pub closed spec fn spec_content_h(&self) -> i32 {
        self.content_h
    }

    /// Content-space top of NOW PLAYING, as stored.
    pub closed spec fn spec_current_top(&self) -> Option<i32> {
        self.current_top
    }

    /// Upcoming-row top, as stored.
    pub closed spec fn spec_upcoming_top(&self) -> Option<i32> {
        self.upcoming_top_px
    }

    /// First upcoming sequence index, as stored.
    pub closed spec fn spec_upcoming_first(&self) -> usize {
        self.upcoming_first
    }

    /// History-row top, as stored.
    pub closed spec fn spec_history_top(&self) -> Option<i32> {
        self.history_top_px
    }
}

proof fn lemma_slot_fits(hist: usize, len: usize, cur: Option<usize>, k: int)
    requires
        layout_fits(hist, len, cur),
        0 <= k < n_slots(hist, len, cur),
    ensures
        0 <= top_at(hist, len, cur, k),
        top_at(hist, len, cur, k) + slot_height(slot_at(hist, len, cur, k)) <= content_px(
            hist,
            len,
            cur,
        ),
        top_at(hist, len, cur, k) + slot_height(slot_at(hist, len, cur, k)) == if k + 1 < n_slots(
            hist,
            len,
            cur,
        ) {
            top_at(hist, len, cur, k + 1)
        } else {
            content_px(hist, len, cur)
        },
{
}

/// Can the list for `hist` played tracks and a sequence of `len` with `cur` playing be laid out?
pub fn fits(hist: usize, len: usize, cur: Option<usize>) -> (b: bool)
    ensures
        b == layout_fits(hist, len, cur),
{
    let hp: u128 = if hist > 0 { HDR_H as u128 + hist as u128 * RH as u128 } else { 0 };
    let rest: u128 = match cur {
        Some(c) => HDR_H as u128 + RH as u128 + if c < len && c + 1 < len {
            HDR_H as u128 + (len - c - 1) as u128 * RH as u128
        } else {
            0
        },
        None => 0,
    };
    hp + rest <= i32::MAX as u128 && hist as u128 + len as u128 + 3 <= usize::MAX as u128
}

/// The slots of the list for `hist` played tracks and a sequence of `len` with `cur` playing,
/// with their content-space tops.
pub open spec fn shape_slots(hist: usize, len: usize, cur: Option<usize>) -> Seq<(Slot, i32)> {
    Seq::new(n_slots(hist, len, cur) as nat, |k: int| (slot_at(hist, len, cur, k), top_at(hist, len, cur, k) as i32))
}

/// The slot under screen-`y` at `scroll` in that list.
pub open spec fn slot_at_point(hist: usize, len: usize, cur: Option<usize>, y: int, scroll: int) -> Option<Slot> {
    if panel::within(y, LIST_TOP as int, LIST_BOTTOM as int) {
        slot_under(shape_slots(hist, len, cur), content_y(y, scroll))
    } else {
        None
    }
}

/// The slot under the finger at screen-`y` and `scroll`, in the list for `hist` played tracks and
/// a sequence of `len` with `cur` playing.
#[verifier::spinoff_prover]
pub fn slot_under_finger(hist: usize, len: usize, cur: Option<usize>, y: i32, scroll: i32) -> (r: Option<Slot>)
    requires
        layout_fits(hist, len, cur),
        content_y(y as int, scroll as int) <= i32::MAX,
    ensures
        r == slot_at_point(hist, len, cur, y as int, scroll as int),
{
    let l = layout(hist, len, cur);
    proof {
        assert forall|k: int| 0 <= k < n_slots(hist, len, cur) implies l.slots@[k] == shape_slots(hist, len, cur)[k] by {
            lemma_slot_fits(hist, len, cur, k);
            assert(l.slots@[k].0 == slot_at(hist, len, cur, k));
            assert(l.slots@[k].1 == top_at(hist, len, cur, k));
            assert(top_at(hist, len, cur, k) <= content_px(hist, len, cur));
            assert(shape_slots(hist, len, cur)[k] == (slot_at(hist, len, cur, k), top_at(hist, len, cur, k) as i32));
        }
        assert(l.spec_slots() =~= shape_slots(hist, len, cur));
    }
    l.at(y, scroll)
}

/// Appends `s` at `*y` and advances `*y` past it.
fn push_slot(slots: &mut Vec<(Slot, i32)>, s: Slot, y: &mut i32)
    requires
        *old(y) + slot_height(s) <= i32::MAX,
    ensures
        final(slots)@ == old(slots)@.push((s, *old(y))),
        *final(y) == *old(y) + slot_height(s),
{
    slots.push((s, *y));
    *y = *y + s.h();
}

/// Build the slot list. `len`/`current` describe the sequence (`current == None` when nothing is
/// playing); `hist` is the play history's length.
pub fn layout(hist: usize, len: usize, current: Option<usize>) -> (l: Layout)
    requires
        layout_fits(hist, len, current),
    ensures
        l.is_layout_of(hist, len, current),
        l.wf(),
{
    let ghost cur = current;
    let ghost n = n_slots(hist, len, current);
    let mut slots: Vec<(Slot, i32)> = Vec::with_capacity(hist + len + 3);
    let mut y: i32 = 0;
    let mut history_top_px: Option<i32> = None;
    let mut current_top: Option<i32> = None;
    let mut upcoming_top_px: Option<i32> = None;
    let mut upcoming_first: usize = 0;
    if hist > 0 {
        proof { lemma_slot_fits(hist, len, cur, 0); }
        push_slot(&mut slots, Slot::Head(Section::History), &mut y);
        history_top_px = Some(y);
        let mut i: usize = 0;
        while i < hist
            invariant
                0 < hist,
                layout_fits(hist, len, cur),
                i <= hist,
                slots@.len() == 1 + i,
                y == top_at(hist, len, cur, 1 + i as int),
                forall|k: int|
                    0 <= k < slots@.len() ==> #[trigger] slots@[k].0 == slot_at(hist, len, cur, k)
                        && slots@[k].1 == top_at(hist, len, cur, k),
            decreases hist - i,
        {
            proof { lemma_slot_fits(hist, len, cur, 1 + i as int); }
            push_slot(&mut slots, Slot::History(i), &mut y);
            i += 1;
        }
    }
    assert(slots@.len() == hist_slots(hist));
    assert(y == hist_px(hist));
    if let Some(c) = current {
        let base = slots.len();
        proof { lemma_slot_fits(hist, len, cur, base as int); }
        push_slot(&mut slots, Slot::Head(Section::Now), &mut y);
        current_top = Some(y);
        proof { lemma_slot_fits(hist, len, cur, base + 1); }
        push_slot(&mut slots, Slot::Current(c), &mut y);
        if c < len && c + 1 < len {
            proof { lemma_slot_fits(hist, len, cur, base + 2); }
            push_slot(&mut slots, Slot::Head(Section::Next), &mut y);
            upcoming_top_px = Some(y);
            upcoming_first = c + 1;
            let mut i: usize = c + 1;
            while i < len
                invariant
                    cur == Some(c),
                    c + 1 < len,
                    layout_fits(hist, len, cur),
                    base == hist_slots(hist),
                    c + 1 <= i <= len,
                    slots@.len() == base + 3 + (i - c - 1),
                    y == if i < len {
                        top_at(hist, len, cur, slots@.len() as int)
                    } else {
                        content_px(hist, len, cur)
                    },
                    forall|k: int|
                        0 <= k < slots@.len() ==> #[trigger] slots@[k].0 == slot_at(hist, len, cur, k)
                            && slots@[k].1 == top_at(hist, len, cur, k),
                decreases len - i,
            {
                proof { lemma_slot_fits(hist, len, cur, slots@.len() as int); }
                push_slot(&mut slots, Slot::Upcoming(i), &mut y);
                i += 1;
            }
        }
    }
    let l = Layout {
        slots,
        content_h: y,
        current_top,
        history_top_px,
        upcoming_top_px,
        upcoming_first,
    };
    assert(l.is_layout_of(hist, len, current));
    l
}


// ── Reading a layout ────────────────────────────────────────────────────────────────────────────

/// How many HISTORY rows `s` holds.
pub open spec fn count_history(s: Seq<(Slot, i32)>) -> nat
    decreases s.len(),
{
    if s.len() == 0 {
        0
    } else {
        count_history(s.drop_last()) + if s.last().0 is History { 1nat } else { 0nat }
    }
}

/// How many upcoming rows `s` holds.
pub open spec fn count_upcoming(s: Seq<(Slot, i32)>) -> nat
    decreases s.len(),
{
    if s.len() == 0 {
        0
    } else {
        count_upcoming(s.drop_last()) + if s.last().0 is Upcoming { 1nat } else { 0nat }
    }
}

/// Does the slot at `p` cover content-y `cy`?
pub open spec fn covers(p: (Slot, i32), cy: int) -> bool {
    p.1 <= cy < p.1 + slot_height(p.0)
}

/// The slot whose band covers content-y `cy`, if any.
pub open spec fn slot_under(slots: Seq<(Slot, i32)>, cy: int) -> Option<Slot> {
    if exists|k: int| 0 <= k < slots.len() && covers(#[trigger] slots[k], cy) {
        Some(slots[choose|k: int| 0 <= k < slots.len() && covers(#[trigger] slots[k], cy)].0)
    } else {
        None
    }
}

/// Content-space y of screen-`y` at this scroll offset.
pub open spec fn content_y(y: int, scroll: int) -> int {
    y - LIST_TOP + if scroll > 0 { scroll } else { 0 }
}

/// What movable index `i` refers to, given the span's shape.
pub open spec fn movable_slot_of(hl: nat, ul: nat, first: usize, i: int) -> Option<Slot> {
    if 0 <= i < hl {
        Some(Slot::History(i as usize))
    } else if hl <= i < hl + ul {
        Some(Slot::Upcoming((first + (i - hl)) as usize))
    } else {
        None
    }
}

/// The movable index of `slot`, given the span's shape.
pub open spec fn movable_index_of(hl: nat, ul: nat, first: usize, slot: Slot) -> Option<usize> {
    match slot {
        Slot::History(i) => if i < hl { Some(i) } else { None },
        Slot::Upcoming(i) => if first <= i && i - first < ul { Some((hl + (i - first)) as usize) } else { None },
        _ => None,
    }
}

/// Where a floating row whose centre is at content-y `cy` would be dropped, given the span's
/// shape: each section is measured from its own top, anything above the upcoming rows pins to
/// the first droppable position, and the result never falls inside the history.
pub open spec fn drop_index_of(hl: nat, ul: nat, ut: Option<i32>, from: int, cy: int) -> int {
    let len = hl + ul;
    if len == 0 {
        0
    } else {
        let floor = hl - if from < hl { 1int } else { 0int };
        let clamp = |i: int| {
            let lo = if i > floor { i } else { floor };
            if lo < len - 1 { lo } else { len - 1 }
        };
        match ut {
            Some(t) if ul > 0 => if cy >= t { clamp(hl + (cy - t) / (RH as int)) } else { clamp(0) },
            _ => clamp(len - 1),
        }
    }
}

/// The layout tops are in ascending order, and every slot ends where the next begins.
proof fn lemma_bands(hist: usize, len: usize, cur: Option<usize>, a: int, b: int)
    requires
        layout_fits(hist, len, cur),
        0 <= a < b < n_slots(hist, len, cur),
    ensures
        top_at(hist, len, cur, a) + slot_height(slot_at(hist, len, cur, a)) <= top_at(
            hist,
            len,
            cur,
            b,
        ),
    decreases b - a,
{
    lemma_slot_fits(hist, len, cur, a);
    if a + 1 < b {
        lemma_bands(hist, len, cur, a + 1, b);
        lemma_slot_fits(hist, len, cur, a + 1);
    }
}

proof fn lemma_count_prefix(l: Layout, hist: usize, len: usize, cur: Option<usize>, k: int)
    requires
        l.is_layout_of(hist, len, cur),
        layout_fits(hist, len, cur),
        0 <= k <= l.spec_slots().len(),
    ensures
        count_history(l.spec_slots().take(k)) == if hist > 0 && k > 0 {
            if k - 1 < hist { k - 1 } else { hist as int }
        } else {
            0
        },
        count_upcoming(l.spec_slots().take(k)) == if k > hist_slots(hist) + 3 {
            k - hist_slots(hist) - 3
        } else {
            0
        },
    decreases k,
{
    reveal(Layout::is_layout_of);
    if k > 0 {
        lemma_count_prefix(l, hist, len, cur, k - 1);
        assert(l.spec_slots().take(k).drop_last() =~= l.spec_slots().take(k - 1));
        assert(l.spec_slots().take(k).last() == l.spec_slots()[k - 1]);
    }
}

impl Layout {
    /// A witness for `wf`.
    proof fn shape(&self) -> (r: (usize, usize, Option<usize>))
        requires
            self.wf(),
        ensures
            self.is_layout_of(r.0, r.1, r.2),
            layout_fits(r.0, r.1, r.2),
    {
        choose|hist: usize, len: usize, cur: Option<usize>|
            #![trigger self.is_layout_of(hist, len, cur)]
            self.is_layout_of(hist, len, cur) && layout_fits(hist, len, cur)
    }

    /// What a layout of `(hist, len, cur)` says about its own sections.
    pub proof fn lemma_sections(&self, hist: usize, len: usize, cur: Option<usize>)
        requires
            self.is_layout_of(hist, len, cur),
            layout_fits(hist, len, cur),
        ensures
            count_history(self.spec_slots()) == hist,
            count_upcoming(self.spec_slots()) == up_count(len, cur),
            self.spec_upcoming_first() == if up_count(len, cur) > 0 { cur->0 + 1 } else { 0 },
            self.spec_upcoming_top() is Some <==> up_count(len, cur) > 0,
            self.spec_upcoming_top() matches Some(t) ==> upcoming_top_px(hist, len, cur) == Some(
                t as int,
            ),
            self.spec_history_top() is Some <==> hist > 0,
            self.spec_history_top() matches Some(t) ==> t == HDR_H,
            self.spec_content_h() == content_px(hist, len, cur),
            self.spec_slots().len() == n_slots(hist, len, cur),
    {
        lemma_count_prefix(*self, hist, len, cur, self.spec_slots().len() as int);
        assert(self.spec_slots().take(self.spec_slots().len() as int) =~= self.spec_slots());
    }

    /// Every slot of a well-formed layout ends at or before the top of every later one.
    proof fn lemma_sorted(&self)
        requires
            self.wf(),
        ensures
            forall|a: int, b: int|
                0 <= a < b < self.spec_slots().len() ==> #[trigger] self.spec_slots()[a].1 + slot_height(
                    self.spec_slots()[a].0,
                ) <= #[trigger] self.spec_slots()[b].1,
            forall|a: int|
                0 <= a < self.spec_slots().len() ==> 0 <= #[trigger] self.spec_slots()[a].1 && self.spec_slots()[a].1
                    + slot_height(self.spec_slots()[a].0) <= self.content_h,
    {
        let (hist, len, cur) = self.shape();
        assert forall|a: int, b: int| 0 <= a < b < self.spec_slots().len() implies #[trigger] self.spec_slots()[a].1
            + slot_height(self.spec_slots()[a].0) <= #[trigger] self.spec_slots()[b].1 by {
            assert(self.slots@[a].0 == slot_at(hist, len, cur, a));
            assert(self.slots@[b].0 == slot_at(hist, len, cur, b));
            lemma_bands(hist, len, cur, a, b);
        }
        assert forall|a: int| 0 <= a < self.spec_slots().len() implies 0 <= #[trigger] self.spec_slots()[a].1
            && self.spec_slots()[a].1 + slot_height(self.spec_slots()[a].0) <= self.spec_content_h() by {
            assert(self.slots@[a].0 == slot_at(hist, len, cur, a));
            lemma_slot_fits(hist, len, cur, a);
        }
    }

    /// The slot under screen-`y` at this scroll offset.
    pub fn at(&self, y: i32, scroll_px: i32) -> (r: Option<Slot>)
        requires
            self.wf(),
            content_y(y as int, scroll_px as int) <= i32::MAX,
        ensures
            r == if panel::within(y as int, LIST_TOP as int, LIST_BOTTOM as int) {
                slot_under(self.spec_slots(), content_y(y as int, scroll_px as int))
            } else {
                None
            },
    {
        if !(LIST_TOP <= y && y < LIST_BOTTOM) {
            return None;
        }
        let cy: i32 = y - LIST_TOP + if scroll_px > 0 { scroll_px } else { 0 };
        proof { self.lemma_sorted(); }
        // Binary search: the first slot starting AFTER cy. The candidate is the one before it.
        let mut lo: usize = 0;
        let mut hi: usize = self.slots.len();
        while lo < hi
            invariant
                self.wf(),
                0 <= lo <= hi <= self.spec_slots().len(),
                forall|k: int| 0 <= k < lo ==> #[trigger] self.spec_slots()[k].1 <= cy,
                forall|k: int| hi <= k < self.spec_slots().len() ==> #[trigger] self.spec_slots()[k].1 > cy,
                forall|a: int, b: int|
                    0 <= a < b < self.spec_slots().len() ==> #[trigger] self.spec_slots()[a].1 + slot_height(
                        self.spec_slots()[a].0,
                    ) <= #[trigger] self.spec_slots()[b].1,
                forall|a: int|
                    0 <= a < self.spec_slots().len() ==> 0 <= #[trigger] self.spec_slots()[a].1,
            decreases hi - lo,
        {
            let mid = lo + (hi - lo) / 2;
            if self.slots[mid].1 <= cy {
                assert forall|k: int| 0 <= k < mid + 1 implies #[trigger] self.spec_slots()[k].1 <= cy by {
                    if k < mid {
                        assert(self.spec_slots()[k].1 + slot_height(self.spec_slots()[k].0) <= self.spec_slots()[mid as int].1);
                    }
                }
                lo = mid + 1;
            } else {
                assert forall|k: int| mid <= k < self.spec_slots().len() implies #[trigger] self.spec_slots()[k].1 > cy by {
                    if k > mid {
                        assert(self.spec_slots()[mid as int].1 + slot_height(self.spec_slots()[mid as int].0) <= self.spec_slots()[k].1);
                    }
                }
                hi = mid;
            }
        }
        if lo == 0 {
            assert(!exists|k: int| 0 <= k < self.spec_slots().len() && covers(#[trigger] self.spec_slots()[k], cy as int));
            return None;
        }
        let k = lo - 1;
        let (slot, top) = self.slots[k];
        let h = slot.h();
        if (cy as i64) < top as i64 + h as i64 {
            assert(covers(self.spec_slots()[k as int], cy as int));
            let ghost j = choose|j: int| 0 <= j < self.spec_slots().len() && covers(#[trigger] self.spec_slots()[j], cy as int);
            assert(j == k as int) by {
                if j < k as int {
                    assert(self.spec_slots()[j].1 + slot_height(self.spec_slots()[j].0) <= self.spec_slots()[k as int].1);
                }
            }
            Some(slot)
        } else {
            assert forall|j: int| 0 <= j < self.spec_slots().len() implies !covers(#[trigger] self.spec_slots()[j], cy as int) by {
                if j < k as int {
                    assert(self.spec_slots()[j].1 + slot_height(self.spec_slots()[j].0) <= self.spec_slots()[k as int].1);
                }
            }
            None
        }
    }

    /// Content-space top of a slot, for placing a lifted row.
    pub fn top_of(&self, want: Slot) -> (r: Option<i32>)
        ensures
            r matches Some(t) ==> exists|k: int|
                0 <= k < self.spec_slots().len() && #[trigger] self.spec_slots()[k].0 == want && self.spec_slots()[k].1
                    == t && forall|j: int| 0 <= j < k ==> self.spec_slots()[j].0 != want,
            r is None ==> forall|k: int| 0 <= k < self.spec_slots().len() ==> #[trigger] self.spec_slots()[k].0 != want,
    {
        let mut i: usize = 0;
        while i < self.slots.len()
            invariant
                i <= self.spec_slots().len(),
                forall|j: int| 0 <= j < i ==> #[trigger] self.spec_slots()[j].0 != want,
            decreases self.slots.len() - i,
        {
            if self.slots[i].0 == want {
                return Some(self.slots[i].1);
            }
            i += 1;
        }
        None
    }

    pub fn max_scroll_px(&self) -> (r: i32)
        ensures
            r == max_scroll_of(self.spec_content_h() as int),
    {
        if self.content_h > queue_view_h() { self.content_h - queue_view_h() } else { 0 }
    }

    /// Scroll that puts NOW PLAYING a third of the way down the window — which keeps a couple of
    /// played tracks visible above it.
    pub fn follow_scroll(&self) -> (r: i32)
        ensures
            r == follow_of(self.spec_current_top(), self.spec_content_h() as int),
    {
        match self.current_top {
            Some(top) => {
                let want = top as i64 - (queue_view_h() / 3) as i64;
                let max = self.max_scroll_px();
                if want < 0 { 0 } else if want > max as i64 { max } else { want as i32 }
            },
            None => 0,
        }
    }

    /// How many upcoming rows there are.
    pub fn upcoming_len(&self) -> (r: usize)
        ensures
            r == count_upcoming(self.spec_slots()),
    {
        let mut n: usize = 0;
        let mut i: usize = 0;
        while i < self.slots.len()
            invariant
                i <= self.spec_slots().len(),
                n == count_upcoming(self.spec_slots().take(i as int)),
                n <= i,
            decreases self.slots.len() - i,
        {
            assert(self.spec_slots().take(i + 1).drop_last() =~= self.spec_slots().take(i as int));
            if matches!(self.slots[i].0, Slot::Upcoming(_)) {
                n += 1;
            }
            i += 1;
        }
        assert(self.spec_slots().take(i as int) =~= self.spec_slots());
        n
    }

    /// Content-space top of the first upcoming row.
    pub fn upcoming_top(&self) -> (r: Option<i32>)
        ensures
            r == self.spec_upcoming_top(),
    {
        self.upcoming_top_px
    }

    /// Sequence index of the first upcoming row.
    pub fn upcoming_first(&self) -> (r: usize)
        ensures
            r == self.spec_upcoming_first(),
    {
        self.upcoming_first
    }

    /// How many rows the history section holds.
    pub fn history_len(&self) -> (r: usize)
        ensures
            r == count_history(self.spec_slots()),
    {
        let mut n: usize = 0;
        let mut i: usize = 0;
        while i < self.slots.len()
            invariant
                i <= self.spec_slots().len(),
                n == count_history(self.spec_slots().take(i as int)),
                n <= i,
            decreases self.slots.len() - i,
        {
            assert(self.spec_slots().take(i + 1).drop_last() =~= self.spec_slots().take(i as int));
            if matches!(self.slots[i].0, Slot::History(_)) {
                n += 1;
            }
            i += 1;
        }
        assert(self.spec_slots().take(i as int) =~= self.spec_slots());
        n
    }

    /// Content-space top of the first history row.
    pub fn history_top(&self) -> (r: Option<i32>)
        ensures
            r == self.spec_history_top(),
    {
        self.history_top_px
    }

    /// Length of the movable span: every played track, then every upcoming one.
    pub fn movable_len(&self) -> (r: usize)
        requires
            self.wf(),
        ensures
            r == count_history(self.spec_slots()) + count_upcoming(self.spec_slots()),
    {
        proof {
            let (h, n, c) = self.shape();
            self.lemma_sections(h, n, c);
        }
        self.history_len() + self.upcoming_len()
    }

    /// The first index a row may be dropped on — one past the end of the history. History is a
    /// source but never a destination.
    pub fn drop_first(&self) -> (r: usize)
        ensures
            r == count_history(self.spec_slots()),
    {
        self.history_len()
    }

    /// What movable index `i` refers to, as a slot.
    pub fn movable_slot(&self, i: usize) -> (r: Option<Slot>)
        requires
            self.wf(),
        ensures
            r == movable_slot_of(
                count_history(self.spec_slots()),
                count_upcoming(self.spec_slots()),
                self.spec_upcoming_first(),
                i as int,
            ),
    {
        proof {
            let (h, n, c) = self.shape();
            self.lemma_sections(h, n, c);
        }
        let h = self.history_len();
        if i < h {
            Some(Slot::History(i))
        } else if i - h < self.upcoming_len() {
            Some(Slot::Upcoming(self.upcoming_first + (i - h)))
        } else {
            None
        }
    }

    /// The movable index of a slot, or None if it is not a movable row.
    pub fn movable_index(&self, slot: Slot) -> (r: Option<usize>)
        requires
            self.wf(),
        ensures
            r == movable_index_of(
                count_history(self.spec_slots()),
                count_upcoming(self.spec_slots()),
                self.spec_upcoming_first(),
                slot,
            ),
    {
        proof {
            let (h, n, c) = self.shape();
            self.lemma_sections(h, n, c);
        }
        let h = self.history_len();
        match slot {
            Slot::History(i) => if i < h { Some(i) } else { None },
            Slot::Upcoming(i) => {
                if i < self.upcoming_first {
                    return None;
                }
                let rel = i - self.upcoming_first;
                if rel < self.upcoming_len() { Some(h + rel) } else { None }
            },
            _ => None,
        }
    }

    /// Which movable index a floating row would be DROPPED on, from its top edge in screen
    /// coords. `from` is the index the row was lifted from: a row lifted out of the history leaves
    /// it one shorter, so the first droppable position is one lower too.
    pub fn movable_slot_for(&self, from: usize, float_top: i32, scroll_px: i32) -> (r: usize)
        requires
            self.wf(),
            i32::MIN <= float_top - LIST_TOP + scroll_px + RH / 2 <= i32::MAX,
        ensures
            r == drop_index_of(
                count_history(self.spec_slots()),
                count_upcoming(self.spec_slots()),
                self.spec_upcoming_top(),
                from as int,
                float_top - LIST_TOP + scroll_px + RH / 2,
            ),
    {
        proof {
            let (h, n, c) = self.shape();
            self.lemma_sections(h, n, c);
        }
        let hlen = self.history_len();
        let ulen = self.upcoming_len();
        let len = hlen + ulen;
        if len == 0 {
            return 0;
        }
        let first = self.drop_first();
        let floor: usize = if from < first { first - 1 } else { first };
        let cy: i32 = (float_top as i64 - LIST_TOP as i64 + scroll_px as i64 + (RH / 2) as i64) as i32;
        let want: i64 = match self.upcoming_top() {
            Some(ut) if ulen > 0 => {
                if cy >= ut {
                    hlen as i64 + ((cy - ut) / RH) as i64
                } else {
                    0
                }
            },
            _ => len as i64 - 1,
        };
        let lo: i64 = if want > floor as i64 { want } else { floor as i64 };
        if lo < len as i64 - 1 { lo as usize } else { len - 1 }
    }

    /// Content-space top of movable index `i` as it is DRAWN.
    pub fn movable_top(&self, i: usize) -> (r: Option<i32>)
        requires
            self.wf(),
        ensures
            movable_slot_of(
                count_history(self.spec_slots()),
                count_upcoming(self.spec_slots()),
                self.spec_upcoming_first(),
                i as int,
            ) is None ==> r is None,
            movable_slot_of(
                count_history(self.spec_slots()),
                count_upcoming(self.spec_slots()),
                self.spec_upcoming_first(),
                i as int,
            ) matches Some(s) ==> (r matches Some(t) ==> exists|k: int|
                0 <= k < self.spec_slots().len() && #[trigger] self.spec_slots()[k].0 == s && self.spec_slots()[k].1
                    == t && forall|j: int| 0 <= j < k ==> self.spec_slots()[j].0 != s) && (r is None
                ==> forall|k: int| 0 <= k < self.spec_slots().len() ==> #[trigger] self.spec_slots()[k].0 != s),
    {
        match self.movable_slot(i) {
            Some(s) => self.top_of(s),
            None => None,
        }
    }
}


// ── Laws of the layout ──────────────────────────────────────────────────────────────────────────

/// The slots tile the content exactly: the first starts at 0, each one starts where the one
/// before it ends, and the last ends at the content height.
pub proof fn lemma_layout_is_contiguous(hist: usize, len: usize, cur: Option<usize>)
    requires
        layout_fits(hist, len, cur),
    ensures
        n_slots(hist, len, cur) > 0 ==> top_at(hist, len, cur, 0) == 0,
        forall|k: int|
            0 <= k < n_slots(hist, len, cur) - 1 ==> #[trigger] top_at(hist, len, cur, k + 1) == top_at(
                hist,
                len,
                cur,
                k,
            ) + slot_height(slot_at(hist, len, cur, k)),
        n_slots(hist, len, cur) > 0 ==> top_at(hist, len, cur, n_slots(hist, len, cur) - 1)
            + slot_height(slot_at(hist, len, cur, n_slots(hist, len, cur) - 1)) == content_px(
            hist,
            len,
            cur,
        ),
        n_slots(hist, len, cur) == 0 ==> content_px(hist, len, cur) == 0,
{
    assert forall|k: int| 0 <= k < n_slots(hist, len, cur) - 1 implies #[trigger] top_at(
        hist,
        len,
        cur,
        k + 1,
    ) == top_at(hist, len, cur, k) + slot_height(slot_at(hist, len, cur, k)) by {
        lemma_slot_fits(hist, len, cur, k);
    }
    if n_slots(hist, len, cur) > 0 {
        lemma_slot_fits(hist, len, cur, n_slots(hist, len, cur) - 1);
    }
}

/// `metrics` and `layout` describe the same screen: the same content height and the same NOW
/// PLAYING top, hence the same scroll range and the same follow position.
pub proof fn lemma_metrics_agree_with_layout(
    l: Layout,
    m: Metrics,
    hist: usize,
    len: usize,
    cur: Option<usize>,
)
    requires
        l.is_layout_of(hist, len, cur),
        m.content_h == content_px(hist, len, cur),
        m.current_top matches Some(t) ==> current_top_px(hist, cur) == Some(t as int),
        m.current_top is None <==> cur is None,
    ensures
        l.spec_content_h() == m.content_h,
        l.spec_current_top() == m.current_top,
        max_scroll_of(l.spec_content_h() as int) == max_scroll_of(m.content_h as int),
        follow_of(l.spec_current_top(), l.spec_content_h() as int) == follow_of(
            m.current_top,
            m.content_h as int,
        ),
{
}

impl Layout {
    /// Every index of the movable span names a slot that is drawn, and that slot's index is the
    /// index it came from.
    pub proof fn lemma_movable_round_trip(&self, i: int)
        requires
            self.wf(),
            0 <= i < count_history(self.spec_slots()) + count_upcoming(self.spec_slots()),
        ensures
            movable_slot_of(
                count_history(self.spec_slots()),
                count_upcoming(self.spec_slots()),
                self.spec_upcoming_first(),
                i,
            ) matches Some(s) && movable_index_of(
                count_history(self.spec_slots()),
                count_upcoming(self.spec_slots()),
                self.spec_upcoming_first(),
                s,
            ) == Some(i as usize) && exists|k: int|
                0 <= k < self.spec_slots().len() && #[trigger] self.spec_slots()[k].0 == s,
            movable_slot_of(
                count_history(self.spec_slots()),
                count_upcoming(self.spec_slots()),
                self.spec_upcoming_first(),
                (count_history(self.spec_slots()) + count_upcoming(self.spec_slots())) as int,
            ) is None,
    {
        let (hist, len, cur) = self.shape();
        self.lemma_sections(hist, len, cur);
        if i < hist {
            let k = i + 1;
            assert(self.slots@[k].0 == slot_at(hist, len, cur, k));
            assert(self.spec_slots()[k].0 == Slot::History(i as usize));
        } else {
            let k = hist_slots(hist) + 3 + (i - hist);
            assert(self.slots@[k].0 == slot_at(hist, len, cur, k));
            assert(self.spec_slots()[k].0 == Slot::Upcoming((cur->0 + 1 + (i - hist)) as usize));
        }
    }

    /// A slot of the layout has a movable index exactly when it is a played or an upcoming row.
    pub proof fn lemma_movable_iff_row(&self, k: int)
        requires
            self.wf(),
            0 <= k < self.spec_slots().len(),
        ensures
            movable_index_of(
                count_history(self.spec_slots()),
                count_upcoming(self.spec_slots()),
                self.spec_upcoming_first(),
                self.spec_slots()[k].0,
            ) is Some <==> is_movable(self.spec_slots()[k].0),
    {
        let (hist, len, cur) = self.shape();
        self.lemma_sections(hist, len, cur);
        assert(self.slots@[k].0 == slot_at(hist, len, cur, k));
    }

    /// A row floated exactly over movable row `i` (no scroll) is dropped on `i` — across the
    /// section boundary too — except that nothing is ever dropped into the history: there it
    /// lands on the first droppable position.
    pub proof fn lemma_float_lands_on_row(&self, i: int)
        requires
            self.wf(),
            0 <= i < count_history(self.spec_slots()) + count_upcoming(self.spec_slots()),
        ensures
            ({
                let hl = count_history(self.spec_slots());
                let ul = count_upcoming(self.spec_slots());
                let s = movable_slot_of(hl, ul, self.spec_upcoming_first(), i)->0;
                forall|k: int|
                    0 <= k < self.spec_slots().len() && #[trigger] self.spec_slots()[k].0 == s
                        ==> drop_index_of(
                        hl,
                        ul,
                        self.spec_upcoming_top(),
                        i,
                        self.spec_slots()[k].1 + RH / 2,
                    ) == if i < hl - 1 { hl - 1 } else { i }
            }),
    {
        let (hist, len, cur) = self.shape();
        self.lemma_sections(hist, len, cur);
        let hl = count_history(self.spec_slots());
        let ul = count_upcoming(self.spec_slots());
        let s = movable_slot_of(hl, ul, self.spec_upcoming_first(), i)->0;
        assert forall|k: int|
            0 <= k < self.spec_slots().len() && #[trigger] self.spec_slots()[k].0 == s implies drop_index_of(
            hl,
            ul,
            self.spec_upcoming_top(),
            i,
            self.spec_slots()[k].1 + RH / 2,
        ) == if i < hl - 1 { hl - 1 } else { i } by {
            assert(self.slots@[k].0 == slot_at(hist, len, cur, k));
            if i < hist {
                assert(k == i + 1);
            } else {
                assert(k == hist_slots(hist) + 3 + (i - hist));
                let j = i - hist;
                assert((j * RH + RH / 2) / (RH as int) == j) by (nonlinear_arith)
                    requires
                        j >= 0,
                ;
            }
        }
    }
}


// ── Dragging, the grab handle, the captions ─────────────────────────────────────────────────────

/// A row being dragged to a new position in the movable span. `y`/`grab_off` are in SCREEN space,
/// so the floating row keeps sitting under the finger while the list scrolls beneath it.
#[derive(Clone, Copy, PartialEq, Debug)]
pub struct RowDrag {
    /// Movable-span index the finger picked up.
    pub from: usize,
    /// Index it would land on if released now.
    pub to: usize,
    /// Finger y when the row was picked up.
    pub start_y: i32,
    /// Current finger y, UI screen coords.
    pub y: i32,
    /// Where inside the row the finger grabbed it.
    pub grab_off: i32,
}

impl RowDrag {
    /// Top of the floating row, in screen coords.
    pub fn float_top(&self) -> (r: i32)
        requires
            i32::MIN <= self.y - self.grab_off <= i32::MAX,
        ensures
            r == self.y - self.grab_off,
    {
        self.y - self.grab_off
    }
}

/// Is this x on the grab handle? Says nothing about the ROW: the caller pairs this with the slot
/// under the finger, because the same column is inert on the playing row.
pub fn queue_grip_hit(x: i32) -> (b: bool)
    ensures
        b == (GRIP_X0 <= x < GRIP_X1),
{
    GRIP_X0 <= x && x < GRIP_X1
}

/// Is `(x, y)` on the history's CLEAR control? False whenever the PREVIOUSLY PLAYED heading is not
/// the slot under the finger, so it can never steal a tap from a row sharing its column.
pub fn hit_history_clear(l: &Layout, x: i32, y: i32, scroll_px: i32) -> (b: bool)
    requires
        l.wf(),
        content_y(y as int, scroll_px as int) <= i32::MAX,
    ensures
        b == (HIST_CLEAR_X0 <= x < HIST_CLEAR_X1 && (if panel::within(
            y as int,
            LIST_TOP as int,
            LIST_BOTTOM as int,
        ) {
            slot_under(l.spec_slots(), content_y(y as int, scroll_px as int))
        } else {
            None
        }) == Some(Slot::Head(Section::History))),
{
    HIST_CLEAR_X0 <= x && x < HIST_CLEAR_X1 && match l.at(y, scroll_px) {
        Some(Slot::Head(Section::History)) => true,
        _ => false,
    }
}

/// The movable span in the order it is currently DRAWN: `from` lifted out and re-inserted at `to`.
pub open spec fn drag_order_of(len: nat, drag: Option<RowDrag>) -> Seq<usize> {
    let base = Seq::new(len, |i: int| i as usize);
    match drag {
        Some(d) => if d.from < len && d.to < len {
            base.remove(d.from as int).insert(d.to as int, d.from)
        } else {
            base
        },
        None => base,
    }
}

/// The movable span in the order it is currently DRAWN.
pub fn drag_order(len: usize, drag: Option<RowDrag>) -> (v: Vec<usize>)
    ensures
        v@ == drag_order_of(len as nat, drag),
{
    let mut order: Vec<usize> = Vec::new();
    let mut i: usize = 0;
    while i < len
        invariant
            i <= len,
            order@ == Seq::new(i as nat, |j: int| j as usize),
        decreases len - i,
    {
        order.push(i);
        i += 1;
        assert(order@ =~= Seq::new(i as nat, |j: int| j as usize));
    }
    assert(order@ =~= Seq::new(len as nat, |j: int| j as usize));
    if let Some(d) = drag {
        if d.from < len && d.to < len {
            let it = order.remove(d.from);
            assert(it == d.from);
            order.insert(d.to, it);
        }
    }
    order
}

/// The caption under the header: how many tracks are left, or the drag hint.
pub open spec fn caption_of(left: nat, dragging: bool) -> Seq<char> {
    if dragging {
        "DRAG TO REORDER"@
    } else if left == 1 {
        "1 TRACK LEFT"@
    } else {
        dec(left) + " TRACKS LEFT"@
    }
}

/// The caption under the header: how many tracks are left, or the drag hint.
pub fn caption(left: usize, dragging: bool) -> (s: String)
    requires
        left <= u64::MAX,
    ensures
        s@ == caption_of(left as nat, dragging),
{
    if dragging {
        owned("DRAG TO REORDER")
    } else if left == 1 {
        owned("1 TRACK LEFT")
    } else {
        let mut s = String::new();
        push_dec(&mut s, left as u64);
        push_str(&mut s, " TRACKS LEFT");
        assert(s@ =~= dec(left as nat) + " TRACKS LEFT"@);
        s
    }
}


/// A section heading's text. The NEXT heading names the album when there is one.
pub open spec fn section_label_of(sec: Section, album: Seq<char>) -> Seq<char> {
    match sec {
        Section::History => "PREVIOUSLY PLAYED"@,
        Section::Now => "NOW PLAYING"@,
        Section::Next => if album.len() == 0 {
            "NEXT UP"@
        } else {
            "NEXT FROM "@ + crate::strings::uppercase(album)
        },
    }
}

/// A section heading's text.
pub fn section_label(sec: Section, album: &str) -> (s: String)
    ensures
        s@ == section_label_of(sec, album@),
{
    match sec {
        Section::History => owned("PREVIOUSLY PLAYED"),
        Section::Now => owned("NOW PLAYING"),
        Section::Next => {
            if album.unicode_len() == 0 {
                owned("NEXT UP")
            } else {
                let mut s = owned("NEXT FROM ");
                let up = crate::strings::to_upper(album);
                push_str(&mut s, up.as_str());
                s
            }
        },
    }
}

} // verus!
