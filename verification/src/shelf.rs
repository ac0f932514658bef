//! Shelf sheet — a bottom-sheet overlay drawn over the current screen: pin the current place to
//! one of the slots, jump straight back to a pin, or forget one. `hit` maps a tap to a `ShelfHit`
//! so the geometry lives in one place.
//!
//! A filled slot's whole row body goes to the pin and only its `×` column forgets it; an empty
//! slot pins across its whole width; the header Pin button names the slot it uses.
use vstd::prelude::*;

verus! {

/// One pinned place as the sheet shows it.
pub struct Pin<'a> {
    pub title: &'a str,
    pub sub: &'a str,
}

/// What a tap on the sheet means.
#[derive(Clone, Copy, PartialEq, Eq, Debug, Structural)]
pub enum ShelfHit {
    /// The tap landed on nothing that acts.
    Nothing,
    Close,
    /// Pin the current place into slot `i` (the row was empty, or the header Pin button chose it).
    PinTo(usize),
    /// Jump to the place pinned in slot `i`.
    Go(usize),
    /// Forget slot `i`.
    Clear(usize),
}

/// Sheet top y: everything above it is the dimmed backdrop.
pub const TOP: i32 = 270;
/// The header Pin button, `(x, y, w, h)`.
pub const PIN_BTN: (i32, i32, i32, i32) = (372, 350, 88, 56);
/// The THIS PLACE box's top and height.
pub const THIS_Y: i32 = 350;
pub const THIS_H: i32 = 56;
/// Top of slot 0, the pitch between slots, and the drawn height of one.
pub const SLOT0_Y: i32 = 440;
pub const SLOT_DY: i32 = 56;
pub const SLOT_H: i32 = 52;
/// x from which a filled slot's row is the "forget" (×) target; left of it is GO.
pub const CLEAR_X: i32 = 420;

/// Number of pin slots.
pub const SLOTS: usize = 6;

/// Centre of the header "Pin" button, so callers and tests aim at the layout instead of
/// repeating a pixel.
pub fn pin_button_center() -> (r: (i32, i32))
    ensures
        r.0 == PIN_BTN.0 + PIN_BTN.2 / 2,
        r.1 == PIN_BTN.1 + PIN_BTN.3 / 2,
{
    let (px, py, pw, ph) = PIN_BTN;
    (px + pw / 2, py + ph / 2)
}

/// Vertical centre of pin slot `i`.
pub fn slot_center_y(i: usize) -> (y: i32)
    requires
        SLOT0_Y + i * SLOT_DY + SLOT_H / 2 <= i32::MAX,
    ensures
        y == SLOT0_Y + i * SLOT_DY + SLOT_H / 2,
{
    SLOT0_Y + i as i32 * SLOT_DY + SLOT_H / 2
}

/// The first empty slot, if any.
pub open spec fn first_empty(filled: Seq<bool>) -> Option<int>
    decreases filled.len(),
{
    if filled.len() == 0 {
        None
    } else if !filled[0] {
        Some(0)
    } else {
        match first_empty(filled.drop_first()) {
            Some(i) => Some(i + 1),
            None => None,
        }
    }
}

/// What a tap at `(x, y)` means, given which slots hold a pin. The slot rows are banded
/// contiguously by their pitch, so a tap between two drawn boxes lands on one of them.
pub open spec fn shelf_hit(x: int, y: int, filled: Seq<bool>) -> ShelfHit {
    if y < TOP {
        ShelfHit::Close
    } else if TOP + 8 <= y < TOP + 44 && x > 380 {
        ShelfHit::Close
    } else if PIN_BTN.1 <= y < PIN_BTN.1 + PIN_BTN.3 && PIN_BTN.0 <= x < PIN_BTN.0 + PIN_BTN.2 {
        ShelfHit::PinTo(
            match first_empty(filled) {
                Some(i) => i as usize,
                None => 0,
            },
        )
    } else if SLOT0_Y <= y < SLOT0_Y + SLOTS * SLOT_DY {
        let i = (y - SLOT0_Y) / (SLOT_DY as int);
        if !filled[i] {
            ShelfHit::PinTo(i as usize)
        } else if x >= CLEAR_X {
            ShelfHit::Clear(i as usize)
        } else {
            ShelfHit::Go(i as usize)
        }
    } else {
        ShelfHit::Nothing
    }
}

proof fn lemma_first_empty(filled: Seq<bool>, i: int)
    requires
        0 <= i <= filled.len(),
        forall|j: int| 0 <= j < i ==> filled[j],
        i < filled.len() ==> !filled[i],
    ensures
        first_empty(filled) == if i < filled.len() { Some(i) } else { None::<int> },
    decreases filled.len(),
{
    if filled.len() > 0 && i > 0 {
        lemma_first_empty(filled.drop_first(), i - 1);
    }
}

/// Map a tap to a shelf action. `filled[i]` says whether slot `i` holds a pin — an empty row
/// pins, a filled row goes (except its × column, which forgets).
pub fn hit(x: i32, y: i32, filled: [bool; SLOTS]) -> (h: ShelfHit)
    ensures
        h == shelf_hit(x as int, y as int, filled@),
        h matches ShelfHit::PinTo(i) ==> i < SLOTS,
        h matches ShelfHit::Go(i) ==> i < SLOTS,
        h matches ShelfHit::Clear(i) ==> i < SLOTS,
{
    if y < TOP {
        return ShelfHit::Close;
    }
    if TOP + 8 <= y && y < TOP + 44 && x > 380 {
        return ShelfHit::Close;
    }
    let (px, py, pw, ph) = PIN_BTN;
    if py <= y && y < py + ph && px <= x && x < px + pw {
        let mut i: usize = 0;
        while i < SLOTS && filled[i]
            invariant
                i <= SLOTS,
                filled@.len() == SLOTS,
                forall|j: int| 0 <= j < i ==> filled@[j],
            decreases SLOTS - i,
        {
            i += 1;
        }
        proof { lemma_first_empty(filled@, i as int); }
        return ShelfHit::PinTo(if i < SLOTS { i } else { 0 });
    }
    if SLOT0_Y <= y && y < SLOT0_Y + SLOTS as i32 * SLOT_DY {
        let i = ((y - SLOT0_Y) / SLOT_DY) as usize;
        if !filled[i] {
            return ShelfHit::PinTo(i);
        }
        return if x >= CLEAR_X { ShelfHit::Clear(i) } else { ShelfHit::Go(i) };
    }
    ShelfHit::Nothing
}

/// Every slot's centre is on the panel, inside its own band, and taps there as that slot:
/// pinning when it is empty, going when it is filled, forgetting in its × column.
pub proof fn lemma_slots_are_addressable(i: int, x: int, filled: Seq<bool>)
    requires
        0 <= i < SLOTS,
        filled.len() == SLOTS,
    ensures
        SLOT0_Y + i * SLOT_DY + SLOT_H / 2 < 800,
        shelf_hit(x, SLOT0_Y + i * SLOT_DY + SLOT_H / 2, filled) == if !filled[i] {
            ShelfHit::PinTo(i as usize)
        } else if x >= CLEAR_X {
            ShelfHit::Clear(i as usize)
        } else {
            ShelfHit::Go(i as usize)
        },
{
    let y = SLOT0_Y + i * SLOT_DY + SLOT_H / 2;
    assert((y - SLOT0_Y) / (SLOT_DY as int) == i);
}

} // verus!
