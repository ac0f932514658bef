//! Transient overlays drawn on top of the current screen: the volume HUD.
use vstd::prelude::*;

verus! {

/// Stock hardware volume is 0..120 steps; the UI level maps one to one onto the mixer.
pub const VOL_MAX: u8 = 120;

/// The Bluetooth route's own volume scale, in sink steps. It is finer than the legacy scale so
/// that one press moves the sink by under two and a half of its 0..127 units.
pub const BT_VOL_MAX: u8 = 64;

/// The Bluetooth scale before it was made finer.
pub const BT_VOL_MAX_LEGACY: u8 = 30;

/// How many pump frames the volume HUD stays up after the last change.
pub const VOL_FRAMES: u8 = 96;

} // verus!
