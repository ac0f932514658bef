//! Cinder UI logic, verified: the screen geometry every render and hit test shares, the
//! navigation vocabulary and the Shelf pins' record format, the Up Next layout, the theme tokens,
//! the palette loader and its readability rules, and the hit tests of every screen.

pub mod panel;
pub mod scale;
pub mod strings;

pub mod legibility;
pub mod palette;
pub mod theme;
pub mod text;

pub mod nav;
pub mod now_playing;
pub mod onboarding;
pub mod overlay;
pub mod pairing;
pub mod playlist_pick;
pub mod sensme;
pub mod settings;
pub mod shelf;
pub mod sound;
pub mod tone;
pub mod up_next;
pub mod usb_storage;
pub mod usbdac;
pub mod viz;
