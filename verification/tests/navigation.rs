use cinder_ui::nav::{Action, App, Button, PressFacts, Screen, Tab, MENU};
use cinder_ui::settings::{ROWS, ROW_BATTERY, ROW_SLEEP, ROW_USB_MODE, ROW_VIZ, ROW_VIZ_ANIM};
use cinder_ui::viz::{COUNT, SIZE_COUNT};

fn unlocked() -> App {
    App::unlocked([0; 10])
}

/// What the library and EQ tables answer in these tests: two rows, track 42 under the cursor.
fn facts() -> PressFacts {
    PressFacts {
        rows: 2,
        pick: Some(42),
        playlist: Some(7),
        album_at_rank: Some(1),
        song_sorts: 3,
        album_sorts: 2,
        band_step: 2,
        band_max: 20,
        eq_presets: vec![[0; 10], [1; 10], [2; 10], [3; 10]],
    }
}

fn press(a: &mut App, b: Button) -> Vec<Action> {
    a.press(b, &facts())
}

#[test]
fn the_hold_switch_alone_unlocks() {
    let mut a = unlocked();
    a.set_hold(true);
    assert!(a.locked());
    assert_eq!(a.current(), Screen::Lock);
    assert_eq!(press(&mut a, Button::Right), vec![Action::Next]);
    assert!(a.locked());
    assert_eq!(press(&mut a, Button::Play), vec![Action::PlayPause]);
    assert!(a.locked());
    assert_eq!(press(&mut a, Button::Power), vec![Action::Sleep]);
    assert!(a.locked());
    assert!(press(&mut a, Button::Select).is_empty(), "navigation is off while locked");
    a.set_hold(false);
    assert!(!a.locked());
    assert_eq!(a.current(), Screen::NowPlaying);
}

#[test]
fn the_device_boots_locked_on_the_lock_screen() {
    let a = App::new([0; 10]);
    assert!(a.locked());
    assert_eq!(a.current(), Screen::Lock);
    assert!(!a.modal_open());
    assert!(!a.shelf_is_open());
    assert!(a.is_playing());
    assert_eq!(a.lib_tab(), Tab::Albums);
}

#[test]
fn power_toggles_screen_without_locking() {
    let mut a = unlocked();
    let acts = press(&mut a, Button::Power);
    assert_eq!(acts, vec![Action::Sleep]);
    assert!(!a.locked());
    assert_ne!(a.current(), Screen::Lock);
}

#[test]
fn a_locked_device_refuses_the_power_menu() {
    let mut a = unlocked();
    a.set_hold(true);
    assert!(!a.power_held());
    assert!(!a.modal_open());
}

#[test]
fn a_second_hold_does_not_restack_the_menu() {
    let mut a = unlocked();
    assert!(a.power_held());
    assert!(!a.power_held(), "the menu is already up");
    assert!(a.modal_open());
}

#[test]
fn back_dismisses_a_modal_and_other_buttons_are_swallowed() {
    let mut a = unlocked();
    assert!(a.power_held());
    for b in [Button::Play, Button::Next, Button::Prev, Button::Select, Button::Up] {
        assert!(press(&mut a, b).is_empty(), "{b:?} leaked through the modal");
        assert!(a.modal_open(), "{b:?} should not have closed it");
    }
    assert!(press(&mut a, Button::Back).is_empty());
    assert!(!a.modal_open(), "Back must dismiss");
}

#[test]
fn menu_navigation_and_routing() {
    let mut a = unlocked();
    press(&mut a, Button::Up);
    assert_eq!(a.current(), Screen::Menu);
    press(&mut a, Button::Down);
    assert_eq!(a.menu_index(), 1);
    press(&mut a, Button::Select);
    assert_eq!(a.current(), Screen::Library);
    press(&mut a, Button::Back);
    assert_eq!(a.current(), Screen::Menu);
    press(&mut a, Button::Back);
    assert_eq!(a.current(), Screen::NowPlaying);
}

#[test]
fn menu_cursor_clamps() {
    let mut a = unlocked();
    press(&mut a, Button::Up);
    for _ in 0..3 {
        press(&mut a, Button::Up);
    }
    assert_eq!(a.menu_index(), 0);
    for _ in 0..50 {
        press(&mut a, Button::Down);
    }
    assert_eq!(a.menu_index(), MENU.len() - 1);
}

#[test]
fn home_resets_to_now_playing() {
    let mut a = unlocked();
    press(&mut a, Button::Up);
    press(&mut a, Button::Down);
    press(&mut a, Button::Select);
    press(&mut a, Button::Home);
    assert_eq!(a.current(), Screen::NowPlaying);
    assert_eq!(a.route_depth(), 1);
}

#[test]
fn the_volume_keys_step_the_level_and_clamp_at_zero() {
    let mut a = unlocked();
    let v0 = a.volume();
    assert_eq!(press(&mut a, Button::VolUp), vec![Action::VolUp]);
    assert_eq!(a.volume(), v0 + 1);
    a.set_volume(0);
    press(&mut a, Button::VolDown);
    assert_eq!(a.volume(), 0);
}

#[test]
fn visualiser_cycles_and_settings_control_it() {
    let mut a = unlocked();
    let k0 = a.viz_kind();
    press(&mut a, Button::Option);
    assert_eq!(a.viz_kind(), (k0 + 1) % COUNT);
    press(&mut a, Button::Up);
    for _ in 0..9 {
        press(&mut a, Button::Down);
    }
    press(&mut a, Button::Select);
    assert_eq!(a.current(), Screen::Settings);
    while a.settings_sel() < ROW_VIZ {
        press(&mut a, Button::Down);
    }
    assert_eq!(a.settings_sel(), ROW_VIZ);
    let k1 = a.viz_kind();
    press(&mut a, Button::Select);
    assert_eq!(a.viz_kind(), (k1 + 1) % COUNT);
    press(&mut a, Button::Down);
    assert_eq!(a.settings_sel(), ROW_VIZ_ANIM);
    let start = a.viz_size();
    let mut seen_off = false;
    for _ in 0..SIZE_COUNT {
        press(&mut a, Button::Select);
        if a.viz_size() == 0 {
            seen_off = true;
            assert!(!a.viz_on(), "size 0 must read as off");
        } else {
            assert!(a.viz_on(), "any non-zero size must read as on");
        }
    }
    assert!(seen_off, "the cycle never offered OFF");
    assert_eq!(a.viz_size(), start, "the cycle did not return to where it started");
    for _ in 0..30 {
        press(&mut a, Button::Down);
    }
    assert_eq!(a.settings_sel(), ROWS - 1);
}

#[test]
fn bluetooth_select_toggles() {
    let mut a = unlocked();
    press(&mut a, Button::Up);
    for _ in 0..6 {
        press(&mut a, Button::Down);
    }
    press(&mut a, Button::Select);
    assert_eq!(a.current(), Screen::Bluetooth);
    let was = a.bt_on();
    let acts = press(&mut a, Button::Select);
    assert_eq!(acts, vec![Action::BtToggle(!was)]);
    assert_eq!(a.bt_on(), !was);
}

#[test]
fn auto_show_usb_storage_is_idempotent() {
    let mut a = unlocked();
    assert!(!a.is_usb_storage());
    a.show_usb_storage();
    assert!(a.is_usb_storage());
    let depth = a.route_depth();
    a.show_usb_storage();
    assert!(a.is_usb_storage());
    assert_eq!(a.route_depth(), depth);
    assert_eq!(press(&mut a, Button::Back), vec![Action::ExitUsbMsc]);
    assert!(!a.is_usb_storage());
}

#[test]
fn sound_screen_toggles_effects_and_emits_action() {
    let mut a = unlocked();
    press(&mut a, Button::Up);
    for _ in 0..5 {
        press(&mut a, Button::Down);
    }
    press(&mut a, Button::Select);
    assert_eq!(a.current(), Screen::Sound);
    assert_eq!(a.sound_flags(), 0);
    let acts = press(&mut a, Button::Select);
    assert_eq!(acts, vec![Action::SoundChanged]);
    assert_eq!(a.sound_flags() & 1, 1);
    for _ in 0..5 {
        press(&mut a, Button::Down);
    }
    press(&mut a, Button::Select);
    assert_eq!(a.sound_flags() & (1 << 5), 1 << 5);
}

#[test]
fn settings_select_toggles_theme() {
    let mut a = unlocked();
    press(&mut a, Button::Up);
    for _ in 0..9 {
        press(&mut a, Button::Down);
    }
    assert_eq!(a.menu_index(), 9);
    press(&mut a, Button::Select);
    assert_eq!(a.current(), Screen::Settings);
    let was = a.night();
    let acts = press(&mut a, Button::Select);
    assert_eq!(acts, vec![Action::ThemeChanged(!was)]);
    assert_eq!(a.night(), !was);
}

#[test]
fn settings_battery_care_toggles_and_emits_action() {
    let mut a = unlocked();
    press(&mut a, Button::Up);
    for _ in 0..9 {
        press(&mut a, Button::Down);
    }
    press(&mut a, Button::Select);
    assert_eq!(a.current(), Screen::Settings);
    for _ in 0..ROW_BATTERY {
        press(&mut a, Button::Down);
    }
    assert_eq!(a.settings_sel(), ROW_BATTERY);
    let was = a.battery_care();
    let acts = press(&mut a, Button::Select);
    assert_eq!(acts, vec![Action::BatteryCareChanged(!was)]);
    assert_eq!(a.battery_care(), !was);
    a.set_battery_care(false);
    assert!(!a.battery_care());
}

#[test]
fn settings_usb_mode_enters_mass_storage() {
    let mut a = unlocked();
    press(&mut a, Button::Up);
    for _ in 0..9 {
        press(&mut a, Button::Down);
    }
    press(&mut a, Button::Select);
    for _ in 0..ROW_USB_MODE {
        press(&mut a, Button::Down);
    }
    assert_eq!(a.settings_sel(), ROW_USB_MODE);
    assert_eq!(press(&mut a, Button::Select), vec![Action::EnterUsbMsc]);
}

#[test]
fn settings_sleep_timer_cycles_presets() {
    let mut a = unlocked();
    press(&mut a, Button::Up);
    for _ in 0..9 {
        press(&mut a, Button::Down);
    }
    press(&mut a, Button::Select);
    for _ in 0..ROW_SLEEP {
        press(&mut a, Button::Down);
    }
    assert_eq!(a.settings_sel(), ROW_SLEEP);
    assert_eq!(a.sleep_min(), 0);
    assert_eq!(a.sleep_label(), "OFF");
    assert_eq!(press(&mut a, Button::Select), vec![Action::SleepTimer(15)]);
    assert_eq!(a.sleep_min(), 15);
    assert_eq!(a.sleep_label(), "15 MIN");
    assert_eq!(press(&mut a, Button::Select), vec![Action::SleepTimer(30)]);
    assert_eq!(a.sleep_min(), 30);
    a.set_sleep_min(29);
    assert_eq!(a.sleep_label(), "29 MIN");
    a.set_sleep_min(0);
    assert_eq!(a.sleep_label(), "OFF");
}

#[test]
fn library_tabs_and_cursor() {
    let mut a = unlocked();
    press(&mut a, Button::Up);
    press(&mut a, Button::Down);
    press(&mut a, Button::Select);
    assert_eq!(a.current(), Screen::Library);
    let start = a.lib_tab();
    press(&mut a, Button::Left);
    assert_ne!(a.lib_tab(), start);
    assert_eq!(a.lib_tab(), Tab::Songs);
    assert_eq!(a.lib_index(), 0);
    press(&mut a, Button::Down);
    assert!(a.lib_index() <= 1);
    let acts = press(&mut a, Button::Select);
    assert!(matches!(acts.as_slice(), [Action::PlayIndex(_)]));
}

#[test]
fn a_play_with_picks_queued_asks_first() {
    let mut a = unlocked();
    a.enqueue_at(5, "Five", 220, cinder_ui::nav::QueueAt::Later);
    press(&mut a, Button::Up);
    press(&mut a, Button::Down);
    press(&mut a, Button::Select);
    press(&mut a, Button::Left); // Songs
    assert!(press(&mut a, Button::Select).is_empty(), "hand-built picks prompt first");
    assert!(a.modal_open());
}

#[test]
fn the_eq_steps_a_band_within_its_limit_and_cycles_presets() {
    let mut a = unlocked();
    press(&mut a, Button::Up);
    for _ in 0..4 {
        press(&mut a, Button::Down);
    }
    press(&mut a, Button::Select);
    assert_eq!(a.current(), Screen::Eq);
    press(&mut a, Button::Right);
    assert_eq!(press(&mut a, Button::Up), vec![Action::EqChanged([0, 2, 0, 0, 0, 0, 0, 0, 0, 0])]);
    for _ in 0..20 {
        press(&mut a, Button::Up);
    }
    assert_eq!(a.eq_bands()[1], 20, "held at the limit");
    for _ in 0..30 {
        press(&mut a, Button::Down);
    }
    assert_eq!(a.eq_bands()[1], -20);
    assert_eq!(press(&mut a, Button::Select), vec![Action::EqChanged([0; 10])], "preset after the fourth wraps");
}

#[test]
fn the_introduction_pages_and_finishes_unlocked() {
    let mut a = App::new([0; 10]);
    a.set_hold(false);
    press(&mut a, Button::Up);
    for _ in 0..10 {
        press(&mut a, Button::Down);
    }
    press(&mut a, Button::Select);
    assert_eq!(a.current(), Screen::Onboarding);
    for _ in 0..7 {
        press(&mut a, Button::Right);
    }
    assert!(a.onboarding_seen());
    assert_eq!(a.current(), Screen::Menu, "finishing goes back where it came from");
}

#[test]
fn boot_to_stock_takes_two_presses() {
    let mut a = unlocked();
    press(&mut a, Button::Up);
    for _ in 0..9 {
        press(&mut a, Button::Down);
    }
    press(&mut a, Button::Select);
    for _ in 0..13 {
        press(&mut a, Button::Down);
    }
    assert!(press(&mut a, Button::Select).is_empty(), "the first press only arms it");
    assert_eq!(press(&mut a, Button::Select), vec![Action::BootToStock]);
}

fn swipe_facts(track: Option<i64>, on_artwork: bool, queued_row: Option<usize>) -> cinder_ui::nav::SwipeFacts {
    cinder_ui::nav::SwipeFacts { track, title: String::from("Song"), on_artwork, np_pages: 3, queued_row, queue_max_scroll: 0 }
}

#[test]
fn swipes_turn_the_now_playing_page_on_the_artwork_and_skip_below_it() {
    let mut a = unlocked();
    assert!(a.swipe(-1, 240, 220, &swipe_facts(None, true, None)).is_empty());
    assert_eq!(a.np_page(), 1);
    assert!(a.swipe(1, 240, 220, &swipe_facts(None, true, None)).is_empty());
    assert!(a.swipe(1, 240, 220, &swipe_facts(None, true, None)).is_empty());
    assert_eq!(a.np_page(), 2, "paging back from the first page wraps to the last");
    assert_eq!(a.swipe(-1, 240, 220, &swipe_facts(None, false, None)), vec![Action::Next]);
    assert_eq!(a.swipe(1, 240, 220, &swipe_facts(None, false, None)), vec![Action::Prev]);
}

#[test]
fn swiping_a_track_row_queues_it_next_or_last() {
    let mut a = unlocked();
    press(&mut a, Button::Up);
    press(&mut a, Button::Down);
    press(&mut a, Button::Select);
    assert_eq!(a.current(), Screen::Library);
    assert_eq!(a.swipe(1, 240, 220, &swipe_facts(Some(10), false, None)), vec![Action::QueueChanged]);
    assert_eq!(a.swipe(-1, 240, 220, &swipe_facts(Some(11), false, None)), vec![Action::QueueChanged]);
    assert_eq!(a.queue(), &[11, 10][..], "a left swipe plays next, a right swipe last");
    assert!(a.swipe(1, 240, 220, &swipe_facts(None, false, None)).is_empty(), "no track under the finger");
}

#[test]
fn swiping_a_queued_row_on_up_next_removes_it() {
    let mut a = unlocked();
    a.enqueue_at(1, "One", 220, cinder_ui::nav::QueueAt::Later);
    a.enqueue_at(2, "Two", 282, cinder_ui::nav::QueueAt::Later);
    press(&mut a, Button::Down);
    assert_eq!(a.current(), Screen::UpNext);
    let facts = cinder_ui::nav::SwipeFacts { title: String::from("One"), ..swipe_facts(None, false, Some(0)) };
    assert_eq!(a.swipe(1, 240, 220, &facts), vec![Action::QueueChanged]);
    assert_eq!(a.queue(), &[2][..]);
    assert_eq!(a.toast(), "Removed \u{2014} One");
    assert!(a.swipe(1, 240, 220, &swipe_facts(None, false, Some(5))).is_empty());
}

#[test]
fn nothing_swipes_while_locked() {
    let mut a = unlocked();
    a.set_hold(true);
    assert!(a.swipe(-1, 240, 220, &swipe_facts(Some(1), false, None)).is_empty());
    assert!(a.queue().is_empty());
}

fn on_songs_tab() -> App {
    let mut a = unlocked();
    press(&mut a, Button::Up);
    press(&mut a, Button::Down);
    press(&mut a, Button::Select);
    assert_eq!(a.current(), Screen::Library);
    a
}

#[test]
fn swiping_a_row_queues_next_or_later() {
    let mut a = on_songs_tab();
    let later = cinder_ui::nav::SwipeFacts { title: String::from("Later"), ..swipe_facts(Some(10), false, None) };
    assert_eq!(a.swipe(1, 240, 215, &later), vec![Action::QueueChanged]);
    assert_eq!(a.queue().len(), 1);
    assert!(a.toast().starts_with("Added to queue"), "toast was {:?}", a.toast());
    let next = cinder_ui::nav::SwipeFacts { title: String::from("Next"), ..swipe_facts(Some(11), false, None) };
    assert_eq!(a.swipe(-1, 240, 277, &next), vec![Action::QueueChanged]);
    assert_eq!(a.queue().len(), 2);
    assert!(a.toast().starts_with("Playing next"), "toast was {:?}", a.toast());
    assert_eq!(a.queue(), &[11, 10][..], "next lands in front of what was queued");
    assert!(a.swipe(1, 240, 100, &swipe_facts(None, false, None)).is_empty());
    assert_eq!(a.queue().len(), 2);
}

#[test]
fn right_swipe_on_song_row_queues_it() {
    let mut a = on_songs_tab();
    let f = cinder_ui::nav::SwipeFacts { title: String::from("First"), ..swipe_facts(Some(3), false, None) };
    assert_eq!(a.swipe(1, 240, 220, &f), vec![Action::QueueChanged]);
    assert_eq!(a.toast(), "Added to queue \u{2014} First");
    assert_eq!(a.toast_frames(), cinder_ui::nav::TOAST_FRAMES);
    assert_eq!(a.queue_anim(), (220, cinder_ui::nav::QUEUE_ANIM_FRAMES));
    assert!(a.tick_frames(1));
}

#[test]
fn countdowns_run_out_and_the_last_frame_still_repaints() {
    let mut a = on_songs_tab();
    a.enqueue_at(4, "Four", 300, cinder_ui::nav::QueueAt::Later);
    assert!(a.tick_frames(100));
    assert_eq!(a.toast_frames(), 10);
    assert_eq!(a.queue_anim().1, 0);
    assert!(a.tick_frames(10), "the frame that reaches 0 repaints");
    assert_eq!(a.toast_frames(), 0);
    assert!(!a.tick_frames(1), "nothing left counting");
}

#[test]
fn shuffle_says_when_there_is_nothing_to_shuffle() {
    let mut a = unlocked();
    assert!(a.queue_shuffle().is_empty());
    assert_eq!(a.toast(), "Nothing left to shuffle");
}
