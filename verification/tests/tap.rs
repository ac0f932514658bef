use cinder_ui::up_next::{layout, Slot, RH, LIST_TOP as QUEUE_TOP};
use cinder_ui::nav::{
    Action, AlbumTap, App, ArtistTap, BtTap, Button, CardHit, EqTap, LibTap, NpBarHit, PlaylistTap, PressFacts,
    Screen, ShuffleScope, StatusTap, Tab, TapFacts, UpNextTap,
};
use cinder_ui::settings::{accent_hit, max_scroll_px, row_at, row_top_px, LIST_TOP, ROWS, ROW_ACCENT, ROW_BOOT_STOCK, ROW_UI_SCALE};
use cinder_ui::shelf::{pin_button_center, slot_center_y, CLEAR_X};

fn unlocked() -> App {
    App::unlocked([0; 10])
}

/// What the library and the shell lay out in these tests: nothing special under the finger.
fn facts() -> TapFacts {
    TapFacts {
        card: CardHit::Cancel,
        np_bar: NpBarHit::Off,
        status: None,
        menu_row: None,
        heart: false,
        lib: LibTap::Nothing,
        song_sorts: 3,
        album_sorts: 2,
        lib_max_scroll: 500,
        album: AlbumTap::Nothing,
        artist: ArtistTap::Nothing,
        playlist: PlaylistTap::Nothing,
        up_next: UpNextTap::Heading,
        eq: EqTap::Nothing,
        band_step: 2,
        band_max: 20,
        eq_presets: vec![[0; 10], [1; 10], [2; 10]],
        bt: BtTap::Nothing,
        place_title: String::from("Library"),
        place_sub: String::new(),
        pin_lib_max: 4000,
        pin_album_max: Some(300),
        pin_album_row: None,
    }
}

fn tap(a: &mut App, x: i32, y: i32) -> Vec<Action> {
    a.tap(x, y, &facts())
}

fn press_facts() -> PressFacts {
    PressFacts {
        rows: 2,
        pick: Some(42),
        playlist: Some(7),
        album_at_rank: Some(1),
        song_sorts: 3,
        album_sorts: 2,
        band_step: 2,
        band_max: 20,
        eq_presets: vec![[0; 10]],
    }
}

#[test]
fn touch_tap_nowplaying_transport() {
    let mut a = unlocked();
    let was = a.is_playing();
    assert_eq!(tap(&mut a, 240, 692), vec![Action::PlayPause]);
    assert_eq!(a.is_playing(), !was);
    assert_eq!(tap(&mut a, 350, 692), vec![Action::Next]);
    assert_eq!(tap(&mut a, 130, 692), vec![Action::Prev]);
    assert_eq!(tap(&mut a, 44, 692), vec![Action::ShuffleToggle]);
    assert_eq!(tap(&mut a, 436, 692), vec![Action::RepeatCycle]);
}

#[test]
fn repeat_is_two_real_states_and_always_reaches_the_shell() {
    let mut a = unlocked();
    assert_eq!(a.current(), Screen::NowPlaying);
    assert_eq!(tap(&mut a, 436, 692), vec![Action::RepeatCycle], "tapping repeat must emit an action");
    assert_eq!(tap(&mut a, 436, 692), vec![Action::RepeatCycle], "and again on the way back off");
}

#[test]
fn shuffle_and_repeat_do_not_steal_each_others_taps() {
    let mut a = unlocked();
    assert_eq!(tap(&mut a, 44, 692), vec![Action::ShuffleToggle]);
    assert_eq!(tap(&mut a, 436, 692), vec![Action::RepeatCycle]);
    assert_eq!(tap(&mut a, 130, 692), vec![Action::Prev]);
    assert_eq!(tap(&mut a, 350, 692), vec![Action::Next]);
}

#[test]
fn touch_tap_navigates() {
    let mut a = unlocked();
    let clock = TapFacts { status: Some(StatusTap::NowPlaying), ..facts() };
    a.tap(20, 16, &clock);
    assert_eq!(a.current(), Screen::NowPlaying);
    let strip = TapFacts { status: Some(StatusTap::Menu), ..facts() };
    a.tap(240, 16, &strip);
    assert_eq!(a.current(), Screen::Menu);
    let library_row = TapFacts { menu_row: Some(1), ..facts() };
    a.tap(200, 91 + 63 + 8, &library_row);
    assert_eq!(a.current(), Screen::Library);
    a.tap(338, 22, &strip);
    assert_eq!(a.current(), Screen::Menu);
    a.tap(200, 91 + 63 + 8, &library_row);
    assert_eq!(a.current(), Screen::Library);
    let albums_tab = TapFacts { lib: LibTap::Tab(Tab::Albums), ..facts() };
    a.tap(180, 105, &albums_tab);
    assert_eq!(a.lib_tab(), Tab::Albums);
    tap(&mut a, 20, 60);
    assert_eq!(a.current(), Screen::Menu, "the header's left block goes back");
}

#[test]
fn nothing_taps_while_locked() {
    let mut a = unlocked();
    a.set_hold(true);
    assert!(tap(&mut a, 240, 692).is_empty());
    assert!(a.is_playing());
    assert_eq!(a.current(), Screen::Lock);
}

#[test]
fn the_now_playing_toolbar_opens_its_screens() {
    for (x, s) in [(40, Screen::Library), (140, Screen::UpNext), (240, Screen::Eq), (330, Screen::Bluetooth), (440, Screen::Settings)] {
        let mut a = unlocked();
        assert!(tap(&mut a, x, 770).is_empty());
        assert_eq!(a.current(), s);
    }
    let mut a = unlocked();
    tap(&mut a, 240, 60);
    assert_eq!(a.current(), Screen::Menu, "the top of the art opens the Menu");
    let mut a = unlocked();
    let heart = TapFacts { heart: true, ..facts() };
    assert_eq!(a.tap(240, 600, &heart), vec![Action::ToggleLiked]);
}

#[test]
fn usb_storage_modal_back_exits() {
    let mut a = unlocked();
    a.show_usb_storage();
    assert!(tap(&mut a, 240, 400).is_empty());
    assert_eq!(a.current(), Screen::UsbStorage);
    assert_eq!(tap(&mut a, 240, 580), vec![Action::ExitUsbMsc], "TURN OFF leaves");
    assert!(a.current() != Screen::UsbStorage);
}

#[test]
fn usb_dac_toggles_ldac_routing() {
    let mut a = unlocked();
    a.go_for_preview(Screen::UsbDac);
    assert!(tap(&mut a, 240, 300).is_empty(), "a body tap engaged USB-DAC");
    assert!(!a.usb_dac_on());
    assert_eq!(tap(&mut a, 441, 65), vec![Action::UsbDacToggle(true)]);
    assert!(a.usb_dac_on());
    assert_eq!(tap(&mut a, 441, 65), vec![Action::UsbDacToggle(false)]);
    assert!(!a.usb_dac_on());
}

#[test]
fn holding_power_opens_a_menu_whose_rows_act() {
    for (want, act) in [(CardHit::PowerOff, Action::PowerOff), (CardHit::Restart, Action::Restart)] {
        let mut a = unlocked();
        assert!(a.power_held(), "the hold should open the menu");
        assert!(a.modal_open());
        let f = TapFacts { card: want, ..facts() };
        assert_eq!(a.tap(240, 400, &f), vec![act]);
        assert!(!a.modal_open(), "answering must close the modal");
    }
}

#[test]
fn cancelling_the_power_menu_does_nothing() {
    for (x, y) in [(240, 500), (5, 5), (240, 60)] {
        let mut a = unlocked();
        assert!(a.power_held());
        assert!(tap(&mut a, x, y).is_empty(), "({x},{y}) must not act");
        assert!(!a.modal_open(), "the tap must still dismiss");
    }
}

#[test]
fn a_queued_song_asks_before_replacing_the_queue() {
    let songs = TapFacts { lib: LibTap::Song(0, Some(77)), ..facts() };
    let on_songs = |a: &mut App| {
        a.go_for_preview(Screen::Library);
        a.enqueue_at(5, "Five", 220, cinder_ui::nav::QueueAt::Later);
        assert!(a.tap(240, 300, &songs).is_empty(), "the tap must not play until answered");
        assert!(a.modal_open());
    };
    let mut a = unlocked();
    on_songs(&mut a);
    let clear = TapFacts { card: CardHit::ClearQueue, ..facts() };
    assert_eq!(a.tap(240, 400, &clear), vec![Action::QueueChanged, Action::PlayIndex(77)]);
    assert!(a.queue().is_empty());

    let mut a = unlocked();
    on_songs(&mut a);
    let keep = TapFacts { card: CardHit::KeepQueue, ..facts() };
    assert_eq!(a.tap(240, 400, &keep), vec![Action::PlayIndex(77)]);
    assert_eq!(a.queue().len(), 1, "keeping must not touch the queue");

    let mut a = unlocked();
    on_songs(&mut a);
    assert!(tap(&mut a, 5, 5).is_empty());
    assert!(!a.modal_open());
    assert_eq!(a.queue().len(), 1);
    let clear = TapFacts { card: CardHit::ClearQueue, ..facts() };
    a.power_held();
    assert_eq!(a.tap(240, 400, &clear), vec![Action::QueueChanged], "a cancelled song must not survive the dialog");
}

#[test]
fn status_bar_bookmark_opens_shelf() {
    let mut a = unlocked();
    let bookmark = TapFacts { status: Some(StatusTap::Shelf), ..facts() };
    a.tap(392, 16, &bookmark);
    assert!(a.shelf_is_open());
    assert_eq!(a.current(), Screen::NowPlaying);
    tap(&mut a, 240, 200);
    assert!(!a.shelf_is_open(), "the backdrop closes the sheet");
    let strip = TapFacts { status: Some(StatusTap::Menu), ..facts() };
    a.tap(240, 16, &strip);
    assert_eq!(a.current(), Screen::Menu);
}

#[test]
fn shelf_empty_slot_pins_and_filled_slot_goes() {
    let mut a = unlocked();
    a.go_for_preview(Screen::Library);
    a.open_shelf();
    tap(&mut a, 200, slot_center_y(2));
    assert!(a.pin(2).is_some());
    assert!(a.pin(0).is_none(), "it must pin where the finger was, not slot 0");
    assert!(a.toast().starts_with("Pinned to slot 3"), "{}", a.toast());
    assert!(a.shelf_is_open(), "pinning must not dismiss the sheet");
    tap(&mut a, CLEAR_X + 20, slot_center_y(2));
    assert!(a.pin(2).is_none());
    assert!(a.toast().starts_with("Slot 3 cleared"), "{}", a.toast());
}

#[test]
fn shelf_go_leaves_a_working_back_button() {
    let mut a = unlocked();
    a.go_for_preview(Screen::Library);
    a.open_shelf();
    let (px, py) = pin_button_center();
    tap(&mut a, px, py);
    assert_eq!(a.pin(0).map(|p| p.screen), Some(Screen::Library));
    tap(&mut a, 240, 200);
    a.go_for_preview(Screen::NowPlaying);
    a.open_shelf();
    tap(&mut a, 200, slot_center_y(0));
    assert_eq!(a.current(), Screen::Library);
    assert!(!a.shelf_is_open());
    assert_eq!(a.press(Button::Back, &press_facts()), vec![]);
    assert_eq!(a.current(), Screen::NowPlaying, "Back must work after a pin jump");
}

#[test]
fn pinning_the_same_slot_again_says_it_replaced_it() {
    let mut a = unlocked();
    a.go_for_preview(Screen::Library);
    a.open_shelf();
    let (px, py) = pin_button_center();
    tap(&mut a, px, py);
    assert_eq!(a.toast(), "Pinned to slot 1 \u{2014} Library");
    tap(&mut a, 200, slot_center_y(1));
    let mut b = unlocked();
    b.go_for_preview(Screen::Library);
    b.set_pin(0, a.pin(0).cloned());
    b.open_shelf();
    let f = TapFacts { place_title: String::from("Songs"), ..facts() };
    // Every slot filled but the last: the Pin button falls back to the first empty one.
    for i in 1..5 {
        b.set_pin(i, a.pin(0).cloned());
    }
    b.tap(px, py, &f);
    assert_eq!(b.toast(), "Pinned to slot 6 \u{2014} Songs");
    b.tap(px, py, &f);
    assert_eq!(b.toast(), "Slot 1 replaced \u{2014} Songs", "a full Shelf replaces slot 1");
}

#[test]
fn a_modal_screen_is_not_a_place_you_can_pin() {
    let mut a = unlocked();
    a.show_usb_storage();
    a.open_shelf();
    let (px, py) = pin_button_center();
    tap(&mut a, px, py);
    assert!(a.pin(0).is_none());
    assert_eq!(a.toast(), "Nothing to pin here");
}

#[test]
fn shelf_restores_the_whole_place_not_just_the_screen() {
    let mut a = unlocked();
    a.go_for_preview(Screen::Library);
    let songs = TapFacts { lib: LibTap::Tab(Tab::Songs), ..facts() };
    a.tap(100, 130, &songs);
    tap(&mut a, 400, 60);
    tap(&mut a, 400, 60);
    let jump = TapFacts { lib: LibTap::Rail(Some(140)), ..facts() };
    a.tap(470, 400, &jump);
    a.open_shelf();
    let (px, py) = pin_button_center();
    tap(&mut a, px, py);
    tap(&mut a, 240, 200);
    let albums = TapFacts { lib: LibTap::Tab(Tab::Albums), ..facts() };
    a.tap(180, 130, &albums);
    a.go_for_preview(Screen::NowPlaying);
    a.open_shelf();
    tap(&mut a, 200, slot_center_y(0));
    assert_eq!(a.current(), Screen::Library);
    assert_eq!(a.lib_tab(), Tab::Songs);
    assert_eq!(a.lib_sort(), 2);
    assert_eq!(a.lib_scroll(), 140, "the list position is part of 'the place'");
    assert_eq!(a.press(Button::Back, &press_facts()), vec![]);
    assert_eq!(a.current(), Screen::NowPlaying);
}

#[test]
fn tapping_an_accent_swatch_picks_that_colour() {
    let mut a = unlocked();
    a.go_for_preview(Screen::Settings);
    let scroll = (0..=max_scroll_px())
        .find(|s| (0..800).any(|y| row_at(y, *s) == Some(ROW_ACCENT)))
        .expect("the Accent row must be reachable at some scroll");
    a.set_settings_scroll(scroll);
    let y = (0..800).find(|y| row_at(*y, scroll) == Some(ROW_ACCENT)).unwrap() + 28;
    for want in 0..6usize {
        let x = (0..480).find(|x| accent_hit(*x, y, scroll) == Some(want))
            .unwrap_or_else(|| panic!("swatch {want} has no tappable pixel"));
        assert!(tap(&mut a, x, y).is_empty(), "accent is render-only; it must not emit a shell action");
        assert_eq!(a.accent(), want as u8, "tapping swatch {want} selected something else");
        assert_eq!(a.settings_sel(), ROW_ACCENT, "the tap should focus the Accent row");
    }
}

fn settings_row_y(a: &mut App, row: usize) -> i32 {
    let scroll = (0..=max_scroll_px())
        .find(|s| (0..800).any(|y| row_at(y, *s) == Some(row)))
        .expect("the row must be reachable at some scroll");
    a.set_settings_scroll(scroll);
    (0..800).find(|y| row_at(*y, scroll) == Some(row)).unwrap() + 10
}

#[test]
fn picking_an_accent_disarms_boot_to_stock() {
    let mut a = unlocked();
    a.go_for_preview(Screen::Settings);
    let y = settings_row_y(&mut a, ROW_BOOT_STOCK);
    assert!(tap(&mut a, 100, y).is_empty(), "first tap only arms");
    let scroll = (0..=max_scroll_px())
        .find(|s| (0..800).any(|y| row_at(y, *s) == Some(ROW_ACCENT)))
        .unwrap();
    a.set_settings_scroll(scroll);
    let ay = (0..800).find(|y| row_at(*y, scroll) == Some(ROW_ACCENT)).unwrap() + 28;
    let x = (0..480).find(|x| accent_hit(*x, ay, scroll).is_some()).unwrap();
    tap(&mut a, x, ay);
    let y = settings_row_y(&mut a, ROW_BOOT_STOCK);
    assert!(tap(&mut a, 100, y).is_empty(), "picking a colour left the restart armed");
    assert_eq!(tap(&mut a, 100, y), vec![Action::BootToStock]);
}

#[test]
fn boot_to_stock_needs_two_taps() {
    let mut a = unlocked();
    a.go_for_preview(Screen::Settings);
    let y = settings_row_y(&mut a, ROW_BOOT_STOCK);
    assert_eq!(tap(&mut a, 100, y), vec![], "first tap only arms");
    assert_eq!(tap(&mut a, 100, y), vec![Action::BootToStock], "second tap acts");
    assert_eq!(tap(&mut a, 100, y), vec![]);
}

#[test]
fn every_settings_row_is_reachable_at_some_scroll_position() {
    let mut hit: Vec<usize> = Vec::new();
    for scroll in 0..=max_scroll_px() {
        for y in 0..800 {
            if let Some(r) = row_at(y, scroll) {
                if !hit.contains(&r) {
                    hit.push(r);
                }
            }
        }
    }
    hit.sort();
    assert_eq!(hit, (0..ROWS).collect::<Vec<_>>(), "some rows can never be tapped");
}

#[test]
fn ui_scale_slider_taps_to_a_stop() {
    let mut a = unlocked();
    a.go_for_preview(Screen::Settings);
    let row_y = LIST_TOP + row_top_px(ROW_UI_SCALE) + 10;
    assert_eq!(tap(&mut a, 460, row_y), vec![Action::UiScaleChanged]);
    assert_eq!(a.ui_scale_pct(), 140);
    assert_eq!(tap(&mut a, 100, row_y), vec![Action::UiScaleChanged]);
    assert_eq!(a.ui_scale_pct(), 80);
}

#[test]
fn up_next_tap_with_nothing_queued_returns_to_now_playing() {
    let mut a = unlocked();
    a.go_for_preview(Screen::UpNext);
    a.set_play_context(Vec::new(), 0);
    assert!(tap(&mut a, 240, 101).is_empty());
    assert_eq!(a.current(), Screen::NowPlaying);
}

#[test]
fn tapping_the_grab_handle_does_not_play() {
    let mut a = unlocked();
    a.enqueue_at(20, "Twenty", 220, cinder_ui::nav::QueueAt::Later);
    a.go_for_preview(Screen::UpNext);
    let row = TapFacts { up_next: UpNextTap::Queued(0), ..facts() };
    assert!(a.tap(440, 300, &row).is_empty());
    assert_eq!(a.current(), Screen::UpNext, "and it must not navigate either");
    assert!(!a.modal_open(), "nor may it raise the replace-the-queue prompt");
    assert_eq!(a.tap(200, 300, &row), vec![Action::PlayQueueAt(0)]);
}

#[test]
fn up_next_row_tap_plays_that_track() {
    let mut a = unlocked();
    a.go_for_preview(Screen::UpNext);
    // Three tracks, the middle one playing: HISTORY, 101, NOW, 202, NEXT, 303.
    a.set_play_context(vec![101, 202, 303], 1);
    let l = layout(1, 3, Some(1));
    let y_of = |slot| QUEUE_TOP + l.top_of(slot).unwrap() + RH / 2;
    a.scroll_px(10, Some(300));
    a.scroll_px(-10, Some(300));
    assert!(!a.queue_follows());
    // The shell's answer is not needed without picks queued: the row comes from the layout.
    assert_eq!(tap(&mut a, 240, y_of(Slot::History(0))), vec![Action::PlayIndex(101)]);
    assert!(a.queue_follows(), "playing from the list re-arms the auto-follow");
    assert_eq!(a.current(), Screen::UpNext, "playing a row should not leave the screen");
    assert_eq!(tap(&mut a, 240, y_of(Slot::Upcoming(2))), vec![Action::PlayIndex(303)]);
    assert!(tap(&mut a, 240, y_of(Slot::Current(1))).is_empty());
    assert_eq!(a.current(), Screen::NowPlaying);
}

#[test]
fn up_next_chips_clear_and_shuffle() {
    let mut a = unlocked();
    a.set_play_context(vec![1, 2, 3, 4], 0);
    a.enqueue_at(9, "Nine", 220, cinder_ui::nav::QueueAt::Later);
    a.go_for_preview(Screen::UpNext);
    assert_eq!(tap(&mut a, 420, 60), vec![Action::QueueChanged]);
    assert!(a.queue().is_empty());
    assert_eq!(a.toast(), "Queue cleared");
    assert_eq!(tap(&mut a, 340, 60), vec![Action::QueueChanged]);
    assert_eq!(a.toast(), "Shuffled what's next");
    let mut ctx = a.context().to_vec();
    ctx.sort();
    assert_eq!(ctx, vec![1, 2, 3, 4]);
}

#[test]
fn album_screen_taps_play_band_and_track_rows() {
    let mut a = unlocked();
    a.go_for_preview(Screen::Album);
    let band = TapFacts { album: AlbumTap::PlayBand(Some(11)), ..facts() };
    assert_eq!(a.tap(240, 260, &band), vec![Action::PlayIndex(11)]);
    let row = TapFacts { album: AlbumTap::Track(0, Some(11)), ..facts() };
    assert_eq!(a.tap(240, 320, &row), vec![Action::PlayIndex(11)]);
    assert!(tap(&mut a, 240, 160).is_empty());
}

#[test]
fn tapping_a_playlist_row_opens_its_page() {
    let mut a = unlocked();
    a.go_for_preview(Screen::Library);
    let row = TapFacts { lib: LibTap::Playlist(1, Some(78)), ..facts() };
    assert!(a.tap(200, 300, &row).is_empty(), "opening a page emits no action");
    assert_eq!(a.current(), Screen::Playlist);
    let track = TapFacts { playlist: PlaylistTap::Track(0, 503), ..facts() };
    assert_eq!(a.tap(200, 300, &track), vec![Action::PlayIndex(503)]);
    assert_eq!(a.current(), Screen::Playlist, "playing must not leave the page");
    let band = TapFacts { playlist: PlaylistTap::ShuffleBand(78), ..facts() };
    assert_eq!(a.tap(200, 120, &band), vec![Action::ShufflePlaylist(78)]);
    let mut b = unlocked();
    b.go_for_preview(Screen::Library);
    assert_eq!(b.tap(420, 300, &row), vec![Action::PlayPlaylist(78)], "the row's button plays it");
}

#[test]
fn an_artist_row_opens_that_artists_page() {
    let mut a = unlocked();
    a.go_for_preview(Screen::Library);
    let row = TapFacts { lib: LibTap::Artist(2, true), ..facts() };
    assert!(a.tap(200, 300, &row).is_empty());
    assert_eq!(a.current(), Screen::Artist);
    let band = TapFacts { artist: ArtistTap::ShuffleBand, ..facts() };
    assert_eq!(a.tap(200, 120, &band), vec![Action::ShuffleArtist(2)]);
    let album = TapFacts { artist: ArtistTap::Album(4), ..facts() };
    assert!(a.tap(200, 300, &album).is_empty());
    assert_eq!(a.current(), Screen::Album);
}

#[test]
fn shuffle_band_is_tappable_on_every_tab() {
    for (tab, scope) in [
        (Tab::Songs, ShuffleScope::AllSongs),
        (Tab::Albums, ShuffleScope::ByAlbum),
        (Tab::Artists, ShuffleScope::ByArtist),
        (Tab::Playlists, ShuffleScope::Playlist),
    ] {
        let mut a = unlocked();
        a.go_for_preview(Screen::Library);
        a.tap(100, 130, &TapFacts { lib: LibTap::Tab(tab), ..facts() });
        let band = TapFacts { lib: LibTap::ShuffleBand, ..facts() };
        assert_eq!(a.tap(240, 170, &band), vec![Action::Shuffle(scope)], "tab {tab:?}");
    }
}

#[test]
fn the_albums_accordion_opens_in_place() {
    let mut a = unlocked();
    a.go_for_preview(Screen::Library);
    let body = TapFacts { lib: LibTap::AlbumToggle(3, Some(2)), ..facts() };
    assert!(a.tap(240, 300, &body).is_empty());
    assert_eq!(a.lib_index(), 2);
    assert_eq!(a.current(), Screen::Library);
    let track = TapFacts { lib: LibTap::AlbumTrack(Some(31)), ..facts() };
    assert_eq!(a.tap(240, 360, &track), vec![Action::PlayIndex(31)]);
    let art = TapFacts { lib: LibTap::AlbumOpen(3), ..facts() };
    a.tap(40, 300, &art);
    assert_eq!(a.current(), Screen::Album);
}

#[test]
fn the_sort_chip_cycles_the_songs_sort() {
    let mut a = unlocked();
    a.go_for_preview(Screen::Library);
    a.tap(100, 130, &TapFacts { lib: LibTap::Tab(Tab::Songs), ..facts() });
    for want in [1, 2, 0] {
        assert!(tap(&mut a, 400, 60).is_empty());
        assert_eq!(a.lib_sort(), want, "one tap is one sort on, wrapping");
        assert_eq!(a.lib_scroll(), 0);
    }
}

#[test]
fn eq_band_tap_raises_and_lowers() {
    let mut a = unlocked();
    a.go_for_preview(Screen::Eq);
    let up = TapFacts { eq: EqTap::Band(3, true), ..facts() };
    let mut want = [0i8; 10];
    want[3] = 2;
    assert_eq!(a.tap(200, 300, &up), vec![Action::EqChanged(want)]);
    let down = TapFacts { eq: EqTap::Band(3, false), ..facts() };
    want[3] = 0;
    assert_eq!(a.tap(200, 500, &down), vec![Action::EqChanged(want)]);
    let preset = TapFacts { eq: EqTap::Preset(2), ..facts() };
    assert_eq!(a.tap(200, 150, &preset), vec![Action::EqChanged([2; 10])]);
    let reset = TapFacts { eq: EqTap::Reset, ..facts() };
    assert_eq!(a.tap(200, 700, &reset), vec![Action::EqChanged([0; 10])]);
    assert_eq!(a.eq_bands(), [0; 10]);
}

#[test]
fn bluetooth_taps_reach_the_shell() {
    let mut a = unlocked();
    a.go_for_preview(Screen::Bluetooth);
    assert!(a.bt_on());
    assert_eq!(a.tap(420, 120, &TapFacts { bt: BtTap::Toggle, ..facts() }), vec![Action::BtToggle(false)]);
    assert!(!a.bt_on());
    assert_eq!(a.tap(240, 300, &TapFacts { bt: BtTap::Codec(2), ..facts() }), vec![Action::BtCodecChanged]);
    assert_eq!(a.bt_codec(), (2, 0));
    assert_eq!(a.tap(240, 300, &TapFacts { bt: BtTap::Disconnect, ..facts() }), vec![Action::BtDisconnect]);
    assert!(a.bt_enhanced());
    assert_eq!(a.tap(240, 500, &TapFacts { bt: BtTap::Enhanced, ..facts() }), vec![Action::BtEnhancedChanged]);
    assert!(!a.bt_enhanced());
    assert_eq!(a.tap(240, 600, &TapFacts { bt: BtTap::Pair, ..facts() }), vec![Action::BtPairedRefresh]);
    assert_eq!(a.current(), Screen::Pairing);
}

#[test]
fn the_now_playing_bar_plays_or_returns() {
    let mut a = unlocked();
    a.go_for_preview(Screen::Library);
    let play = TapFacts { np_bar: NpBarHit::PlayPause, ..facts() };
    assert_eq!(a.tap(40, 760, &play), vec![Action::PlayPause]);
    assert!(!a.is_playing());
    let open = TapFacts { np_bar: NpBarHit::Open, ..facts() };
    assert!(a.tap(240, 760, &open).is_empty());
    assert_eq!(a.current(), Screen::NowPlaying);
}

#[test]
fn a_deliberate_scroll_takes_up_next_off_the_follow() {
    let mut a = unlocked();
    a.go_for_preview(Screen::UpNext);
    assert!(a.queue_follows());
    a.scroll_px(0, Some(300));
    assert!(a.queue_follows(), "a scroll that moved nothing changes nothing");
    a.scroll_px(120, Some(300));
    assert!(!a.queue_follows(), "reading ahead must not be yanked back");
}

#[test]
fn scrolls_stay_within_their_lists() {
    let mut a = unlocked();
    a.go_for_preview(Screen::Library);
    a.scroll_px(900, Some(250));
    assert_eq!(a.lib_scroll(), 250);
    a.scroll_px(-1000, Some(250));
    assert_eq!(a.lib_scroll(), 0);
    a.go_for_preview(Screen::Settings);
    a.scroll_px(i32::MAX, None);
    assert_eq!(a.settings_scroll(), max_scroll_px());
    a.open_shelf();
    a.scroll_px(-50, None);
    assert_eq!(a.settings_scroll(), max_scroll_px(), "the Shelf owns the gesture");
}

#[test]
fn swiping_a_queue_row_removes_it_and_keeps_the_scroll_in_range() {
    let mut a = unlocked();
    for (id, title) in [(1, "One"), (2, "Two"), (3, "Three")] {
        a.enqueue_at(id, title, 220, cinder_ui::nav::QueueAt::Later);
    }
    a.go_for_preview(Screen::UpNext);
    a.scroll_px(200, Some(300));
    assert_eq!(a.queue_scroll(), 200);
    let f = cinder_ui::nav::SwipeFacts {
        track: None,
        title: String::from("Two"),
        on_artwork: false,
        np_pages: 3,
        queued_row: Some(1),
        queue_max_scroll: 120,
    };
    assert_eq!(a.swipe(-1, 240, 300, &f), vec![Action::QueueChanged], "the row must take the gesture");
    assert_eq!(a.queue(), &[1, 3][..], "wrong row removed");
    assert_eq!(a.toast(), "Removed \u{2014} Two");
    assert_eq!(a.queue_scroll(), 120, "the list got shorter, so the scroll comes back in range");
}

#[test]
fn a_locked_screen_ignores_every_kind_of_tap() {
    let mut a = unlocked();
    a.set_hold(true);
    let f = TapFacts { status: Some(StatusTap::Menu), heart: true, ..facts() };
    assert!(a.tap(240, 16, &f).is_empty());
    assert_eq!(a.current(), Screen::Lock);
    assert!(!a.shelf_is_open());
}
