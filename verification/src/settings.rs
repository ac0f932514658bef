//! Settings: three sections of rows (DISPLAY, SYSTEM, ABOUT), each under a small eyebrow, in one
//! scrolling list. The row geometry is stated once, in `spec_row_offset`, and the hit tests, the
//! scroll limit and the accent swatches all read it.
use vstd::prelude::*;
use crate::theme::Accent;
use crate::panel::H;

verus! {

pub const ROWS: usize = 18;
pub const ROW_THEME: usize = 0;
pub const ROW_ACCENT: usize = 1;
pub const ROW_UI_SCALE: usize = 2;
pub const ROW_VIZ: usize = 3;
pub const ROW_VIZ_ANIM: usize = 4;
pub const ROW_SLEEP: usize = 5;
pub const ROW_SCREEN_OFF: usize = 6;
pub const ROW_BRIGHTNESS: usize = 7;
pub const ROW_AUTO_OFF: usize = 8;
pub const ROW_STORAGE: usize = 9;
pub const ROW_DATABASE: usize = 10;
pub const ROW_BATTERY: usize = 11;
/// Tapping enters USB mass-storage (file transfer to a PC).
pub const ROW_USB_MODE: usize = 12;
pub const ROW_BOOT_STOCK: usize = 13;
pub const ROW_RESTART: usize = 14;
pub const ROW_POWER_OFF: usize = 15;
pub const ROW_FIRMWARE: usize = 16;
pub const ROW_MODEL: usize = 17;

/// Row height.
pub const RH: i32 = 56;
/// Height of a section's eyebrow caption, and the gap before every section but the first.
pub const EYEBROW_H: i32 = 24;
pub const SECTION_GAP: i32 = 14;
/// Where the list starts (the header's bottom edge).
pub const LIST_TOP: i32 = 91;

/// Accent swatch edge, the gap between swatches, and the right edge of the row they sit in.
pub const SW: i32 = 30;
pub const SW_GAP: i32 = 6;
pub const SW_RIGHT: i32 = 458;

/// The UI scale slider: its left end and its width.
pub const SLIDER_X0: i32 = 176;
pub const SLIDER_W: i32 = 196;

/// The firmware line of the ABOUT section.
pub const FIRMWARE_LABEL: &'static str = "CINDER 1.0 \u{b7} RUST";

/// What the Settings screen shows that it does not own.
pub struct SettingsView<'a> {
    pub night: bool,
    pub viz_name: &'a str,
    pub viz_size_label: &'a str,
    pub usb_dac: bool,
    pub battery_care: bool,
    pub storage: &'a str,
    pub sleep: &'a str,
    pub brightness: &'a str,
    pub screen_off: &'a str,
    pub auto_off: &'a str,
    pub boot_stock: &'a str,
    pub accent: Accent,
}

/// How far row `r`'s top sits below the list top, unscrolled: eight DISPLAY rows under their
/// eyebrow, then eight SYSTEM rows and two ABOUT rows, each section after a gap and an eyebrow.
pub open spec fn spec_row_offset(r: int) -> int {
    if r < 8 {
        EYEBROW_H + r * RH
    } else if r < 16 {
        EYEBROW_H + 8 * RH + SECTION_GAP + EYEBROW_H + (r - 8) * RH
    } else {
        EYEBROW_H + 8 * RH + SECTION_GAP + EYEBROW_H + 8 * RH + SECTION_GAP + EYEBROW_H + (r - 16)
            * RH
    }
}

/// The height of the whole list: its top, three eyebrows, two gaps and eighteen rows.
pub open spec fn spec_content_height() -> int {
    LIST_TOP + spec_row_offset(17) + RH
}

/// The content's full height, from the top of the screen.
pub fn content_height() -> (h: i32)
    ensures
        h == spec_content_height(),
{
    let sections: [i32; 3] = [8, 8, 2];
    let mut h = LIST_TOP;
    let mut i: usize = 0;
    while i < 3
        invariant
            i <= 3,
            sections@ == seq![8i32, 8, 2],
            h == LIST_TOP + if i == 0 {
                0
            } else if i == 1 {
                EYEBROW_H + 8 * RH
            } else if i == 2 {
                EYEBROW_H + 8 * RH + SECTION_GAP + EYEBROW_H + 8 * RH
            } else {
                spec_row_offset(17) + RH
            },
        decreases 3 - i,
    {
        if i > 0 {
            h += SECTION_GAP;
        }
        h += EYEBROW_H + sections[i] * RH;
        i += 1;
    }
    h
}

/// How far Settings scrolls: far enough that the last row sits fully on screen with a little
/// room under it.
pub fn max_scroll_px() -> (m: i32)
    ensures
        m == if spec_content_height() + 8 - H > 0 { spec_content_height() + 8 - H } else { 0 },
{
    let over = content_height() + 8 - H;
    if over > 0 { over } else { 0 }
}

/// Screen-y of row `r`'s top at `scroll`.
pub open spec fn spec_row_top(r: int, scroll: int) -> int {
    LIST_TOP - scroll + spec_row_offset(r)
}

/// The row under `y` at `scroll`: the first row whose band holds it.
pub open spec fn spec_row_at(y: int, scroll: int) -> Option<usize> {
    first_row_from(0, y, scroll)
}

/// The first row from `r` on whose band holds `y`.
pub open spec fn first_row_from(r: nat, y: int, scroll: int) -> Option<usize>
    decreases ROWS - r,
{
    if r >= ROWS {
        None
    } else if spec_row_top(r as int, scroll) <= y < spec_row_top(r as int, scroll) + RH {
        Some(r as usize)
    } else {
        first_row_from(r + 1, y, scroll)
    }
}

fn row_offset(r: usize) -> (o: i32)
    requires
        r < ROWS,
    ensures
        o == spec_row_offset(r as int),
{
    let ri = r as i32;
    if ri < 8 {
        EYEBROW_H + ri * RH
    } else if ri < 16 {
        EYEBROW_H + 8 * RH + SECTION_GAP + EYEBROW_H + (ri - 8) * RH
    } else {
        EYEBROW_H + 8 * RH + SECTION_GAP + EYEBROW_H + 8 * RH + SECTION_GAP + EYEBROW_H + (ri - 16)
            * RH
    }
}

/// Which row is under `y` at `scroll`?
pub fn row_at(y: i32, scroll: i32) -> (r: Option<usize>)
    ensures
        r == spec_row_at(y as int, scroll as int),
{
    let mut r: usize = 0;
    while r < ROWS
        invariant
            r <= ROWS,
            spec_row_at(y as int, scroll as int) == first_row_from(r as nat, y as int, scroll as int),
        decreases ROWS - r,
    {
        let top = LIST_TOP as i64 - scroll as i64 + row_offset(r) as i64;
        if top <= y as i64 && (y as i64) < top + RH as i64 {
            return Some(r);
        }
        r += 1;
    }
    None
}

/// Row `r`'s top in content space (unscrolled, relative to the list top); 0 for a row that does
/// not exist.
pub fn row_top_px(r: usize) -> (y: i32)
    ensures
        y == if r < ROWS { spec_row_offset(r as int) } else { 0 },
{
    if r < ROWS { row_offset(r) } else { 0 }
}

/// Left edge of accent swatch `i`: six swatches right-aligned in the row.
pub open spec fn spec_swatch_x(i: int) -> int {
    SW_RIGHT - (6 * SW + 5 * SW_GAP) + i * (SW + SW_GAP)
}

/// Left edge of accent swatch `i`.
pub fn swatch_x(i: usize) -> (x: i32)
    requires
        spec_swatch_x(i as int) <= i32::MAX,
    ensures
        x == spec_swatch_x(i as int),
{
    // Six swatches and five gaps: 6 * 30 + 5 * 6 = 210 wide, on a 36 px pitch.
    assert(210 == 6 * SW + 5 * SW_GAP && 36 == SW + SW_GAP);
    SW_RIGHT - 210 + i as i32 * 36
}

/// The swatch under `(x, y)` at `scroll`: only inside the Accent row's band, and each swatch's
/// target reaches half a gap to either side, so the targets tile with no dead strip.
pub open spec fn spec_accent_hit(x: int, y: int, scroll: int) -> Option<usize> {
    let top = spec_row_top(ROW_ACCENT as int, scroll);
    if y < top || y >= top + RH {
        None
    } else {
        first_swatch_from(0, x)
    }
}

/// The first swatch from `i` on whose target holds `x`.
pub open spec fn first_swatch_from(i: nat, x: int) -> Option<usize>
    decreases 6 - i,
{
    if i >= 6 {
        None
    } else if spec_swatch_x(i as int) - SW_GAP / 2 <= x < spec_swatch_x(i as int) + SW + SW_GAP / 2 {
        Some(i as usize)
    } else {
        first_swatch_from(i + 1, x)
    }
}

/// Which accent swatch is under `(x, y)` at `scroll`?
pub fn accent_hit(x: i32, y: i32, scroll: i32) -> (r: Option<usize>)
    ensures
        r == spec_accent_hit(x as int, y as int, scroll as int),
{
    let top = LIST_TOP as i64 - scroll as i64 + row_offset(ROW_ACCENT) as i64;
    if (y as i64) < top || (y as i64) >= top + RH as i64 {
        return None;
    }
    let mut i: usize = 0;
    while i < 6
        invariant
            i <= 6,
            spec_accent_hit(x as int, y as int, scroll as int) == first_swatch_from(i as nat, x as int),
        decreases 6 - i,
    {
        let sx = swatch_x(i);
        if x >= sx - SW_GAP / 2 && x < sx + SW + SW_GAP / 2 {
            return Some(i);
        }
        i += 1;
    }
    None
}

/// The UI scale step under `x` on the slider: the nearest of the seven ticks, clamped to the
/// slider's ends.
pub open spec fn spec_ui_scale_idx_at(x: int) -> int {
    let dx = if x - SLIDER_X0 < 0 { 0 } else if x - SLIDER_X0 > SLIDER_W { SLIDER_W as int } else { x - SLIDER_X0 };
    let i = (dx * 6 * 2 + SLIDER_W) / (SLIDER_W * 2);
    if i < 0 { 0 } else if i > 6 { 6 } else { i }
}

/// The UI scale step under `x` on the slider.
pub fn ui_scale_idx_at(x: i32) -> (i: usize)
    requires
        x >= i32::MIN + SLIDER_X0,
    ensures
        i == spec_ui_scale_idx_at(x as int),
{
    let n: i32 = 7;
    let d = x - SLIDER_X0;
    let dx = if d < 0 { 0 } else if d > SLIDER_W { SLIDER_W } else { d };
    let i = (dx * (n - 1) * 2 + SLIDER_W) / (SLIDER_W * 2);
    (if i < 0 { 0 } else if i > n - 1 { n - 1 } else { i }) as usize
}

/// The swatch targets sit inside the Accent row: wherever `accent_hit` finds a swatch,
/// `row_at` finds the Accent row.
pub proof fn lemma_swatches_stay_in_their_row(x: int, y: int, scroll: int)
    ensures
        spec_accent_hit(x, y, scroll) is Some ==> spec_row_at(y, scroll) == Some(ROW_ACCENT),
{
    let t0 = spec_row_top(0, scroll);
    assert(first_row_from(1, y, scroll) == if spec_row_top(1, scroll) <= y < spec_row_top(1, scroll) + RH {
        Some(1usize)
    } else {
        first_row_from(2, y, scroll)
    });
}

/// At full scroll the last row is fully on screen.
pub proof fn lemma_last_row_reachable()
    ensures
        spec_content_height() + 8 - H > 0,
        spec_content_height() - (spec_content_height() + 8 - H) <= H,
        spec_row_top(17, spec_content_height() + 8 - H) + RH <= H,
{
}

} // verus!
