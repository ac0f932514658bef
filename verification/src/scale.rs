//! The row heights — one place, so a row is the same object on every screen. A screen never
//! writes a row height as a literal: it names the role.
use vstd::prelude::*;

verus! {

/// A track row, wherever it appears: the Songs tab, an album, an artist, a playlist, Up Next,
/// the folder tree.
pub const TRACK_ROW_H: i32 = 62;

/// A row standing for a group of tracks — an album, an artist, a playlist — which carries stacked
/// art and a count.
pub const GROUP_ROW_H: i32 = 68;

/// A settings-style row: a label, and a value or a switch on the right.
pub const SETTING_ROW_H: i32 = 64;

/// A picker row — a one-of-N list the user is choosing from.
pub const PICKER_ROW_H: i32 = 56;

} // verus!
