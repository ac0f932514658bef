//! The two pickers that make playlists usable: "which playlist?" and "which tracks?". Both are
//! plain scrolling lists with the Library's row height, so a tap maps to a row the same way.
use vstd::prelude::*;
use crate::panel::{H, HEADER_BOTTOM};

verus! {

/// Row height of both pickers.
pub const ROW_H: i32 = 64;
/// Top of the list window.
pub const TOP: i32 = HEADER_BOTTOM + 8;
/// Bottom of the list window, with room for the footer note.
pub const BOTTOM: i32 = H - 40;

/// One row of the "which playlist?" list.
pub struct Target<'a> {
    pub name: &'a str,
    pub tracks: u32,
}

/// Height of `rows` rows; used by the navigator to clamp scrolling.
pub fn content_h(rows: usize) -> (h: i32)
    requires
        rows * ROW_H <= i32::MAX,
    ensures
        h == rows * ROW_H,
{
    rows as i32 * ROW_H
}

/// The row under `y` with the list scrolled by `scroll_px` (a negative scroll counts as none), or
/// nothing for the chrome and for anything past the last row.
pub open spec fn row_under(rows: int, scroll_px: int, y: int) -> Option<usize> {
    if y < TOP || y >= BOTTOM {
        None
    } else {
        let index = (y - TOP + if scroll_px > 0 { scroll_px } else { 0 }) / (ROW_H as int);
        if index < rows { Some(index as usize) } else { None }
    }
}

/// Which row is under `y` (content-space, honouring the pixel scroll). `None` = chrome or past
/// the end, so a tap below a short list does nothing instead of hitting the last row.
pub fn hit_row(rows: usize, scroll_px: i32, y: i32) -> (r: Option<usize>)
    requires
        y < TOP || y >= BOTTOM || y - TOP + (if scroll_px > 0 { scroll_px as int } else { 0 }) <= i32::MAX,
    ensures
        r == row_under(rows as int, scroll_px as int, y as int),
{
    if y < TOP || y >= BOTTOM {
        return None;
    }
    let s: i32 = if scroll_px > 0 { scroll_px } else { 0 };
    let index = ((y - TOP + s) / ROW_H) as usize;
    if index < rows { Some(index) } else { None }
}

} // verus!
