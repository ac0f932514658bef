//! Bluetooth devices — the paired-device picker plus discovery. Two sections: PAIRED (the radio's
//! link keys: tap a row to connect or hang up, FORGET to drop it) and FOUND (discovered, unpaired:
//! tap to pair). Pairing prompts are a modal panel over the list.
//!
//! A row's index is the handle the shell turns into a device address, so the hit test clips both
//! lists exactly the way they are drawn: a tap can never resolve to a row that is not on screen.
use vstd::prelude::*;

verus! {

/// One device row. `connected` is only meaningful for a paired device; `kind` is a short
/// descriptor derived from the class-of-device word ("" draws nothing).
#[derive(Clone, Debug, Default, PartialEq)]
pub struct PairedDevice {
    pub name: String,
    pub kind: String,
    pub connected: bool,
}

/// The scan card's top and height.
pub const CARD_Y: i32 = 100;
pub const CARD_H: i32 = 72;
/// The SCAN / STOP button, `(x, y, w, h)`.
pub const SCAN_BTN: (i32, i32, i32, i32) = (340, 118, 118, 36);
/// Top of the first PAIRED row, and the height of every row.
pub const LIST_Y0: i32 = 218;
pub const ROW_H: i32 = 62;
/// Width of the FORGET button at a paired row's right end.
pub const FORGET_W: i32 = 104;
/// The footer rule: no row is drawn below it.
pub const FOOT_Y: i32 = 736;
/// Paired rows are capped so a long pairing history can never push the FOUND section off screen.
pub const MAX_PAIRED: usize = 4;
/// Space between the last paired row and the FOUND header.
pub const SECTION_GAP: i32 = 30;

/// How many paired rows are drawn.
pub open spec fn paired_rows(paired: int) -> int {
    if paired < MAX_PAIRED { paired } else { MAX_PAIRED as int }
}

/// Y of the FOUND section's header text, given how many paired devices there are.
pub open spec fn spec_found_header_y(paired: int) -> int {
    LIST_Y0 + paired_rows(paired) * ROW_H + SECTION_GAP
}

/// Y of the first FOUND row.
pub open spec fn spec_found_y0(paired: int) -> int {
    spec_found_header_y(paired) + 14
}

/// How many FOUND rows fit above the footer rule.
pub open spec fn spec_found_capacity(paired: int) -> int {
    let room = FOOT_Y - spec_found_y0(paired);
    if room <= 0 { 0 } else { room / (ROW_H as int) }
}

/// Y of the FOUND section's header text, given how many paired devices there are.
pub fn found_header_y(paired: usize) -> (y: i32)
    ensures
        y == spec_found_header_y(paired as int),
{
    let rows: i32 = if paired < MAX_PAIRED { paired as i32 } else { MAX_PAIRED as i32 };
    LIST_Y0 + rows * ROW_H + SECTION_GAP
}

/// Y of the first FOUND row.
pub fn found_y0(paired: usize) -> (y: i32)
    ensures
        y == spec_found_y0(paired as int),
{
    found_header_y(paired) + 14
}

/// How many FOUND rows fit above the footer rule.
pub fn found_capacity(paired: usize) -> (n: usize)
    ensures
        n == spec_found_capacity(paired as int),
{
    let room = FOOT_Y - found_y0(paired);
    if room <= 0 { 0 } else { (room / ROW_H) as usize }
}

/// A pairing prompt the radio is waiting on. `kind` matches the shell's enum: 1 = numeric
/// comparison, 2 = passkey (display only), 3 = secure-simple-pairing request.
#[derive(Clone, Debug, PartialEq)]
pub struct Prompt {
    pub kind: u8,
    pub name: String,
    pub code: u32,
}

pub const PROMPT_NUMERIC: u8 = 1;
pub const PROMPT_PASSKEY: u8 = 2;

/// The prompt panel, and its two buttons, `(x, y, w, h)`.
pub const PP: (i32, i32, i32, i32) = (40, 250, 400, 260);
pub const PP_OK: (i32, i32, i32, i32) = (60, 440, 170, 50);
pub const PP_NO: (i32, i32, i32, i32) = (250, 440, 170, 50);

/// What a tap on the Devices screen means.
#[derive(Clone, Copy, PartialEq, Eq, Debug, Structural)]
pub enum PairHit {
    /// The tap landed on nothing that acts.
    Nothing,
    /// Start/stop discovery.
    Scan,
    /// Paired row body — connect if idle, hang up if it is the connected one.
    Row(usize),
    Forget(usize),
    /// A discovered, unpaired device — pair with it.
    Pair(usize),
    /// Prompt answers.
    PromptConfirm,
    PromptCancel,
}

/// Is `(x, y)` inside `r`?
pub open spec fn inside(r: (i32, i32, i32, i32), x: int, y: int) -> bool {
    r.1 <= y < r.1 + r.3 && r.0 <= x < r.0 + r.2
}

/// What a tap means while a prompt of `kind` is up. The prompt is modal; a passkey panel has
/// nothing to confirm, so both of its button areas dismiss.
pub open spec fn prompt_hit(x: int, y: int, kind: u8) -> PairHit {
    if kind != PROMPT_PASSKEY && inside(PP_OK, x, y) {
        PairHit::PromptConfirm
    } else if inside(PP_NO, x, y) {
        PairHit::PromptCancel
    } else if kind == PROMPT_PASSKEY && inside(PP_OK, x, y) {
        PairHit::PromptCancel
    } else {
        PairHit::Nothing
    }
}

/// Taps while a prompt is up. Anything but its buttons is unreachable until it is answered.
pub fn hit_prompt(x: i32, y: i32, kind: u8) -> (h: PairHit)
    ensures
        h == prompt_hit(x as int, y as int, kind),
{
    let (ox, oy, ow, oh) = PP_OK;
    let (nx, ny, nw, nh) = PP_NO;
    if kind != PROMPT_PASSKEY && oy <= y && y < oy + oh && ox <= x && x < ox + ow {
        return PairHit::PromptConfirm;
    }
    if ny <= y && y < ny + nh && nx <= x && x < nx + nw {
        return PairHit::PromptCancel;
    }
    if kind == PROMPT_PASSKEY && oy <= y && y < oy + oh && ox <= x && x < ox + ow {
        return PairHit::PromptCancel;
    }
    PairHit::Nothing
}

/// What a tap at `(x, y)` means with `paired` and `found` devices listed.
pub open spec fn pair_hit(x: int, y: int, paired: int, found: int) -> PairHit {
    let prows = paired_rows(paired);
    let frows = if found < spec_found_capacity(paired) { found } else { spec_found_capacity(paired) };
    let fy0 = spec_found_y0(paired);
    if inside(SCAN_BTN, x, y) {
        PairHit::Scan
    } else if LIST_Y0 <= y < LIST_Y0 + prows * ROW_H {
        let i = ((y - LIST_Y0) / (ROW_H as int)) as usize;
        if x >= 458 - FORGET_W { PairHit::Forget(i) } else { PairHit::Row(i) }
    } else if fy0 <= y < fy0 + frows * ROW_H {
        PairHit::Pair(((y - fy0) / (ROW_H as int)) as usize)
    } else {
        PairHit::Nothing
    }
}

/// Map a tap. `paired` / `found` are how many devices each list holds; both are clipped exactly
/// the way they are drawn.
pub fn hit(x: i32, y: i32, paired: usize, found: usize) -> (h: PairHit)
    ensures
        h == pair_hit(x as int, y as int, paired as int, found as int),
{
    let (sx, sy, sw, sh) = SCAN_BTN;
    if sy <= y && y < sy + sh && sx <= x && x < sx + sw {
        return PairHit::Scan;
    }
    let prows: i32 = if paired < MAX_PAIRED { paired as i32 } else { MAX_PAIRED as i32 };
    if LIST_Y0 <= y && y < LIST_Y0 + prows * ROW_H {
        let i = ((y - LIST_Y0) / ROW_H) as usize;
        return if x >= 458 - FORGET_W { PairHit::Forget(i) } else { PairHit::Row(i) };
    }
    let cap = found_capacity(paired);
    let frows: i32 = if found < cap { found as i32 } else { cap as i32 };
    let fy0 = found_y0(paired);
    if fy0 <= y && y < fy0 + frows * ROW_H {
        return PairHit::Pair(((y - fy0) / ROW_H) as usize);
    }
    PairHit::Nothing
}

/// A tap resolves only to rows that are drawn: a paired row index is below both the list's
/// length and the cap, a found row index is below both the list's length and what fits above
/// the footer — and the FOUND section always has room for at least one device.
pub proof fn lemma_hits_stay_on_screen(x: int, y: int, paired: int, found: int)
    requires
        0 <= paired,
        0 <= found,
    ensures
        pair_hit(x, y, paired, found) matches PairHit::Row(i) ==> i < paired && i < MAX_PAIRED,
        pair_hit(x, y, paired, found) matches PairHit::Forget(i) ==> i < paired && i < MAX_PAIRED,
        pair_hit(x, y, paired, found) matches PairHit::Pair(i) ==> i < found && i < spec_found_capacity(paired),
        spec_found_capacity(paired) >= 1,
{
    let prows = paired_rows(paired);
    if LIST_Y0 <= y < LIST_Y0 + prows * ROW_H {
        assert((y - LIST_Y0) / (ROW_H as int) < prows);
    }
    let cap = spec_found_capacity(paired);
    let frows = if found < cap { found } else { cap };
    let fy0 = spec_found_y0(paired);
    if fy0 <= y < fy0 + frows * ROW_H {
        assert((y - fy0) / (ROW_H as int) < frows);
    }
}


/// What a tap on a pairing prompt answers. The two buttons do not overlap. On every prompt but a
/// passkey display (numeric comparison, secure-simple-pairing request, any other) OK accepts; a
/// passkey display has nothing to accept, so OK dismisses it. NO always dismisses, and a tap on
/// neither button does nothing. The pairing is accepted only from OK, and never on a passkey
/// display.
pub proof fn lemma_prompt_answers(x: int, y: int, kind: u8)
    ensures
        !(inside(PP_OK, x, y) && inside(PP_NO, x, y)),
        kind != PROMPT_PASSKEY && inside(PP_OK, x, y) ==> prompt_hit(x, y, kind) == PairHit::PromptConfirm,
        kind == PROMPT_PASSKEY && inside(PP_OK, x, y) ==> prompt_hit(x, y, kind) == PairHit::PromptCancel,
        inside(PP_NO, x, y) ==> prompt_hit(x, y, kind) == PairHit::PromptCancel,
        !inside(PP_OK, x, y) && !inside(PP_NO, x, y) ==> prompt_hit(x, y, kind) == PairHit::Nothing,
        prompt_hit(x, y, kind) == PairHit::PromptConfirm ==> kind != PROMPT_PASSKEY && inside(PP_OK, x, y),
{
}

} // verus!
