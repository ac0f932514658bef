use cinder_ui::settings::{row_top_px, LIST_TOP, ROW_UI_SCALE};
use cinder_ui::now_playing::{permille_at, RAIL_HIT_TOP, RAIL_X0, RAIL_W};
use cinder_ui::nav::{Action, App, Button, PressFacts, Screen, ShelfPin, Tab};
use cinder_ui::up_next::{layout, metrics, queue_view_h};

fn unlocked() -> App {
    App::unlocked([0; 10])
}

fn press_facts() -> PressFacts {
    PressFacts {
        rows: 2,
        pick: Some(42),
        playlist: Some(7),
        album_at_rank: Some(1),
        song_sorts: 3,
        album_sorts: 2,
        band_step: 2,
        band_max: 20,
        eq_presets: vec![[0; 10]],
    }
}

fn press(a: &mut App, b: Button) -> Vec<Action> {
    a.press(b, &press_facts())
}

#[test]
fn up_next_follows_playback_until_the_user_scrolls() {
    let mut a = unlocked();
    press(&mut a, Button::Down);
    assert_eq!(a.current(), Screen::UpNext);
    assert!(a.queue_follows(), "arriving on the screen always shows the current track");
    a.set_play_context((0..40).collect(), 20);
    assert!(a.follow_playback(), "the first paint snaps to the playing row");
    assert!(a.queue_scroll() > 0, "row 20 of 40 must be scrolled to");
    assert!(!a.follow_playback(), "nothing changed, so nothing snaps");
    a.scroll_px(-200, Some(5000));
    assert!(!a.queue_follows(), "a deliberate scroll takes the list over");
    let held = a.queue_scroll();
    a.set_context_playing(25);
    assert!(!a.follow_playback(), "a taken-over list stays where the user left it");
    assert_eq!(a.queue_scroll(), held);
    press(&mut a, Button::Back);
    press(&mut a, Button::Down);
    assert_eq!(a.current(), Screen::UpNext);
    assert!(a.queue_follows());
    assert_eq!(a.up_next_row(), None);
    assert!(a.follow_playback(), "coming back re-arms the follow");
    assert_eq!(a.up_next_row(), Some(25));
}

#[test]
fn playing_from_elsewhere_re_arms_the_queue_follow() {
    let mut a = unlocked();
    press(&mut a, Button::Down);
    a.set_play_context((0..40).collect(), 20);
    a.follow_playback();
    a.scroll_px(-200, Some(5000));
    assert!(!a.queue_follows(), "a scroll that moves the list hands it to the user");
    a.set_play_context(vec![1, 2], 0);
    assert!(a.queue_follows(), "a new play must make the queue follow again");
    assert_eq!(a.up_next_row(), None, "and the next paint must treat it as a track change");
}

#[test]
fn up_next_follow_parks_the_current_row_a_third_down() {
    let l = layout(20, 40, Some(20));
    let view = queue_view_h();
    let top = l.current_top.unwrap();
    assert_eq!(l.follow_scroll(), (top - view / 3).clamp(0, l.max_scroll_px()));
    assert_eq!(layout(0, 40, Some(0)).follow_scroll(), 0, "early tracks cannot scroll above the start");
    let mut a = unlocked();
    a.set_play_context((0..40).collect(), 20);
    a.follow_playback();
    assert_eq!(a.queue_scroll(), metrics(20, 40, Some(20)).follow_scroll());
    assert_eq!(a.queue_scroll(), l.follow_scroll());
}

#[test]
fn live_menu_subtitles_report_real_state() {
    let a = unlocked();
    let subs = a.menu_subtitles(Some((12, 148)));
    assert_eq!(subs.library, "12 albums \u{b7} 148 tracks");
    let subs = a.menu_subtitles(None);
    assert_eq!(subs.library, "Empty");
    assert_eq!(subs.queue, "Queue empty");
    assert_eq!(subs.usb_dac, "Off");
    assert_eq!(subs.sound, "Off", "no effect is engaged on a fresh App");
    let mut a = unlocked();
    a.enqueue_at(3, "Three", 220, cinder_ui::nav::QueueAt::Later);
    a.enqueue_at(4, "Four", 220, cinder_ui::nav::QueueAt::Later);
    a.set_usb_dac(true);
    let subs = a.menu_subtitles(None);
    assert_eq!(subs.queue, "2 queued");
    assert_eq!(subs.usb_dac, "On");
}

#[test]
fn sound_subtitle_names_only_the_engaged_effects() {
    let mut a = unlocked();
    a.set_sound_flags(1 | 4);
    assert_eq!(a.menu_subtitles(None).sound, "DSEE HX \u{b7} VPT");
    a.set_sound_flags(63);
    assert_eq!(
        a.menu_subtitles(None).sound,
        "DSEE HX \u{b7} Vinyl \u{b7} VPT \u{b7} DC Phase \u{b7} Normaliser \u{b7} Clear Phase"
    );
    a.set_sound_flags(32);
    assert_eq!(a.menu_subtitles(None).sound, "Clear Phase");
}

fn a_pin() -> ShelfPin {
    ShelfPin {
        screen: Screen::Library,
        lib_tab: Tab::Songs,
        lib_sort: 2,
        album_sort: 1,
        album_expanded: Some(3),
        lib_scroll_px: 96,
        album_view: 4,
        album_scroll_px: 0,
        artist_view: 0,
        playlist_view: 1,
        title: String::from("Library"),
        sub: String::from("Songs"),
    }
}

#[test]
fn shelf_pins_survive_a_reboot() {
    let mut a = unlocked();
    a.set_pin(1, Some(a_pin()));
    let rec = a.shelf_pin_record(1);
    assert!(a.shelf_pin_record(0).is_empty(), "an empty slot writes nothing");
    let mut b = unlocked();
    b.shelf_pin_load(1, &rec, 3, 2);
    assert_eq!(b.pin(1), Some(&a_pin()));
    b.shelf_pin_load(1, "not|a|pin", 3, 2);
    assert!(b.pin(1).is_none(), "a malformed record clears the slot instead of failing");
    b.shelf_pin_load(1, &rec, 3, 2);
    b.shelf_pin_load(1, "", 3, 2);
    assert!(b.pin(1).is_none());
}

#[test]
fn the_introduction_opens_unlocked_at_its_first_page() {
    let mut a = unlocked();
    a.set_hold(true);
    a.start_onboarding();
    assert_eq!(a.current(), Screen::Onboarding);
    assert!(!a.locked());
    assert_eq!(a.onboarding_page(), 0);
    assert_eq!(a.route_depth(), 1);
}

#[test]
fn the_spectrum_runs_only_when_something_shows_it() {
    let mut a = unlocked();
    assert!(a.wants_spectrum(), "the visualiser is on at boot");
    a.set_viz_on(false);
    assert!(!a.wants_spectrum());
    a.set_np_page(4, 3);
    assert_eq!(a.np_page(), 1, "pages wrap");
    assert!(a.wants_spectrum());
    assert!(!a.sound_bypass());
}

#[test]
fn ui_scale_slider_scrubs_taps_and_steps() {
    let mut a = unlocked();
    a.go_for_preview(Screen::Settings);
    let row_y = LIST_TOP + row_top_px(ROW_UI_SCALE) + 10;
    let facts = cinder_ui::nav::TapFacts {
        card: cinder_ui::nav::CardHit::Cancel,
        np_bar: cinder_ui::nav::NpBarHit::Off,
        status: None,
        menu_row: None,
        heart: false,
        lib: cinder_ui::nav::LibTap::Nothing,
        song_sorts: 3,
        album_sorts: 2,
        lib_max_scroll: 0,
        album: cinder_ui::nav::AlbumTap::Nothing,
        artist: cinder_ui::nav::ArtistTap::Nothing,
        playlist: cinder_ui::nav::PlaylistTap::Nothing,
        up_next: cinder_ui::nav::UpNextTap::Heading,
        eq: cinder_ui::nav::EqTap::Nothing,
        band_step: 2,
        band_max: 20,
        eq_presets: vec![[0; 10]],
        bt: cinder_ui::nav::BtTap::Nothing,
        place_title: String::new(),
        place_sub: String::new(),
        pin_lib_max: 0,
        pin_album_max: None,
        pin_album_row: None,
    };
    assert_eq!(a.tap(460, row_y, &facts), vec![Action::UiScaleChanged]);
    assert_eq!(a.ui_scale_pct(), 140);
    assert!(a.scrub_begin(100, row_y));
    assert!(a.scrub_is_ui_scale());
    a.scrub_move(100);
    assert_eq!(a.ui_scale_pct(), 80);
    assert_eq!(a.scrub_end(), vec![Action::UiScaleChanged]);
    assert!(!a.is_scrubbing());
    assert_eq!(a.settings_sel(), ROW_UI_SCALE);
    press(&mut a, Button::Right);
    assert_eq!(a.ui_scale_pct(), 90);
    for _ in 0..20 {
        press(&mut a, Button::Left);
    }
    assert_eq!(a.ui_scale_pct(), 80);
    for _ in 0..20 {
        press(&mut a, Button::Right);
    }
    assert_eq!(a.ui_scale_pct(), 140);
}

#[test]
fn the_progress_rail_previews_and_seeks_on_release() {
    let mut a = unlocked();
    assert!(a.scrub_begin(RAIL_X0, RAIL_HIT_TOP + 2));
    assert!(!a.scrub_is_ui_scale());
    assert_eq!(a.scrub_permille(), 0);
    assert!(a.scrub_move(RAIL_X0 + RAIL_W / 2).is_empty(), "moving only previews");
    assert_eq!(a.scrub_permille(), permille_at(RAIL_X0 + RAIL_W / 2));
    assert_eq!(a.scrub_end(), vec![Action::Seek(500)]);
    assert!(!a.is_scrubbing());
    assert!(!a.scrub_begin(240, 300), "the artwork is not the rail");
    a.set_hold(true);
    assert!(!a.scrub_begin(RAIL_X0, RAIL_HIT_TOP + 2), "the Hold switch takes the gesture");
}

fn up_next_with_three_picks() -> App {
    let mut a = unlocked();
    for (id, title) in [(1, "One"), (2, "Two"), (3, "Three")] {
        a.enqueue_at(id, title, 220, cinder_ui::nav::QueueAt::Later);
    }
    press(&mut a, Button::Down);
    assert_eq!(a.current(), Screen::UpNext);
    a
}

#[test]
fn a_queued_row_moves_by_its_grab_handle() {
    let mut a = up_next_with_three_picks();
    assert!(a.reorder_begin(440, 320, Some((0, 300))), "the handle picks the row up");
    let d = a.reorder_state().unwrap();
    assert_eq!((d.from, d.to, d.grab_off), (0, 0, 20));
    a.reorder_track(130, 2);
    assert_eq!(a.reorder_state().unwrap().y, 450);
    assert_eq!(a.reorder_release(), vec![Action::QueueChanged]);
    assert_eq!(a.queue(), &[2, 3, 1][..]);
    assert!(a.reorder_state().is_none());
    assert!(a.reorder_release().is_empty(), "no drag, nothing to drop");
}

#[test]
fn a_reorder_starts_only_on_the_handle_of_a_queued_row() {
    let mut a = up_next_with_three_picks();
    assert!(!a.reorder_begin(200, 320, Some((0, 300))), "the row body is a tap, not a drag");
    assert!(!a.reorder_begin(440, 320, None), "no queued row under the finger");
    assert!(!a.reorder_begin(440, 320, Some((7, 300))), "a row that is no longer queued");
    assert!(a.reorder_begin(440, 320, Some((1, 300))));
    assert!(a.reorder_release().is_empty(), "dropped where it was: nothing moved");
    assert_eq!(a.queue(), &[1, 2, 3][..]);
    a.set_hold(true);
    assert!(!a.reorder_begin(440, 320, Some((0, 300))));
}
