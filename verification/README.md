# cinder-ui

The logic of Cinder's touch UI for the Sony NW-A55, written in Verus: the functions in `src/`
carry contracts and are proved against them, apart from two trusted items on std's strings
(`String::push` and `str::to_uppercase`, in `src/strings.rs`), whose contracts are taken as given.

## Layout

- `src/panel.rs`, `src/scale.rs` — the panel frame and the row heights every screen shares.
- `src/strings.rs` — decimal numerals, integer parsing and the character helpers the labels use.
- `src/theme.rs` — the design tokens, the accents, the night dim and the brightness ladder.
- `src/palette.rs` — palette files: the parser, the folder loader, and their laws.
- `src/legibility.rs` — luminance and contrast in exact integer arithmetic, and the floors a
  palette must clear.
- `src/text.rs` — the UI text scale, and which font answers for which character.
- `src/nav.rs` — buttons, screens, actions, the Menu, persisted tokens and the Shelf pin record;
  and `App`: the navigation state machine (route stack, Hold lock, modal cards, Shelf and its
  pin slots, toast and queue chip, every screen's cursors) with its specs: `press_of`,
  `swipe_of`, `tap_of`, `scroll_of`, the scrub steps, `ticked` for the countdowns, and
  `followed_of` for Up Next following playback; the device state the shell pushes in and reads
  back (volume on both routes, EQ and effects, Bluetooth link, codec and device lists, timers,
  backlight, visualiser, text scale); the Menu's live subtitles; and what is playing: the
  playback context and the user's queue, with its reorder and seeded shuffle. The exec side is
  split by gesture: `src/nav/buttons.rs` (presses), `src/nav/touch.rs` (taps and the Shelf),
  `src/nav/gesture.rs` (the progress rail and UI-scale scrubs), `src/nav/reorder.rs`
  (dragging a queued row by its handle). Hit tests whose geometry lives
  in `src/` are made here; what the library, the EQ and Bluetooth screens, the status strip, the
  modal cards and Up Next's queue section resolve under the finger comes in from the shell as
  `TapFacts` / `PressFacts` / `SwipeFacts`.
- `src/up_next.rs` — the Up Next layout, its binary-searched hit test and the reorder drag.
- `src/shelf.rs`, `src/pairing.rs`, `src/settings.rs`, `src/sound.rs`, `src/sensme.rs`,
  `src/tone.rs`, `src/now_playing.rs`, `src/playlist_pick.rs`, `src/viz.rs`, `src/usbdac.rs`,
  `src/usb_storage.rs`, `src/onboarding.rs`, `src/overlay.rs` — each screen's geometry and hit
  tests.
- `app/` — the host glue: the process-wide text scale, the panel colour type, and the font set
  that reads font files and asks `fontdue` for glyphs.
- `tests/` — scenarios on concrete values, one file per area.
