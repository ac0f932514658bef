use cinder_ui::nav::{Action, App, QueueAt, SCREEN_OFF_PRESETS, SLEEP_PRESETS};
use cinder_ui::overlay::{BT_VOL_MAX, BT_VOL_MAX_LEGACY, VOL_MAX};

fn unlocked() -> App {
    App::new([0; 10])
}

#[test]
fn set_brightness_clamps_out_of_range_values() {
    let mut app = unlocked();
    app.set_brightness(0);
    assert_eq!(app.brightness(), 1);
    app.set_brightness(200);
    assert_eq!(app.brightness(), 5);
}

#[test]
fn set_screen_off_snaps_to_a_known_preset() {
    let mut app = unlocked();
    app.set_screen_off_s(37);
    assert_eq!(app.screen_off_s(), 0, "unknown value falls back to OFF");
    app.set_screen_off_s(60);
    assert_eq!(app.screen_off_s(), 60);
}

#[test]
fn restore_eq_and_sound_round_trip() {
    let mut a = unlocked();
    a.set_eq_bands([3, -2, 6, -6, 0, 1, 99, -99, 4, 5]); // 99/-99 clamp to ±6
    assert_eq!(a.eq_bands(), [3, -2, 6, -6, 0, 1, 6, -6, 4, 5]);
    a.set_sound_flags(0b101101); // dsee, vpt, dc, clear
    let f = a.sound_flags();
    assert_eq!(f, 0b101101);
    assert_eq!(f & 1, 1); // dsee
    assert_eq!(f & (1 << 4), 0); // normalizer off
}

#[test]
fn bt_volume_scale_is_finer_and_still_maps_onto_the_shared_hud() {
    assert!(BT_VOL_MAX > BT_VOL_MAX_LEGACY, "the whole point is finer steps");
    // AVRCP is 0..127, so a step is now under 2.5 of its units.
    assert!(127 / BT_VOL_MAX as u32 <= 2);
    let mut a = unlocked();
    a.set_bt_route(true);
    a.set_bt_volume(0);
    assert_eq!(a.display_volume(), 0, "empty bar at the bottom");
    a.set_bt_volume(BT_VOL_MAX);
    assert_eq!(a.display_volume(), VOL_MAX, "full bar at the top");
    // And the level itself cannot exceed the scale.
    a.set_bt_volume(255);
    assert_eq!(a.bt_volume_level(), BT_VOL_MAX);
}

#[test]
fn a_corrupt_config_can_never_restore_a_black_panel() {
    let mut a = unlocked();
    a.set_brightness(0);
    assert_eq!(a.brightness(), 1, "0 in the config file means 'visible', not 'dark'");
    a.set_brightness(99);
    assert_eq!(a.brightness(), 5);
}

#[test]
fn bluetooth_link_is_unknown_until_the_shell_reports() {
    let mut a = unlocked();
    assert!(a.bt_on());
    assert!(!a.bt_link_known(), "before the first poll, 'no device' would be a guess");
    assert_eq!(a.bt_connected(), None);
    assert!(a.set_bt_connected(Some("WH-1000XM4")));
    assert_eq!(a.bt_connected(), Some("WH-1000XM4"));
    assert!(a.bt_link_known());
    assert!(!a.set_bt_connected(Some("WH-1000XM4")), "no change → no repaint");
    // A reported disconnect is an observation, not a fallback to ignorance.
    assert!(a.set_bt_connected(None));
    assert_eq!(a.bt_connected(), None);
    assert!(a.bt_link_known());
}

#[test]
fn bluetooth_enhanced_supported_reports_change_only() {
    let mut a = unlocked();
    assert!(!a.set_bt_enhanced_supported(true), "already true");
    assert!(a.set_bt_enhanced_supported(false));
    assert!(!a.set_bt_enhanced_supported(false));
}

#[test]
fn the_brightness_row_visits_every_visible_level_before_the_dark_one() {
    let mut app = unlocked();
    app.set_brightness(1);
    let mut seen = vec![app.brightness()];
    for _ in 0..6 {
        let act = app.cycle_brightness();
        assert_eq!(act, Action::BrightnessChanged(app.brightness()));
        seen.push(app.brightness());
    }
    assert_eq!(seen, vec![1, 2, 3, 4, 5, 0, 1]);
}

#[test]
fn the_dark_level_is_never_the_one_to_come_back_to() {
    let mut a = unlocked();
    a.set_brightness(5);
    assert_eq!(a.cycle_brightness(), Action::BrightnessChanged(0));
    assert_eq!(a.brightness(), 0);
    assert_eq!(a.brightness_restore(), 5);
    assert!(a.brightness_wake());
    assert_eq!(a.brightness(), 5);
    assert!(!a.brightness_wake(), "already awake: nothing to write");
    a.cycle_brightness(); // 5 -> 0
    a.cycle_brightness(); // 0 -> 1
    assert_eq!(a.brightness(), 1);
    assert_eq!(a.brightness_restore(), 1);
}

#[test]
fn the_screen_off_row_starts_off_and_cycles_through_every_choice() {
    let mut app = unlocked();
    assert_eq!(app.screen_off_s(), 0, "must be opt-in");
    let mut seen = vec![app.screen_off_s()];
    for _ in 0..SCREEN_OFF_PRESETS.len() {
        let act = app.cycle_screen_off();
        assert_eq!(act, Action::ScreenOffTimer(app.screen_off_s()));
        seen.push(app.screen_off_s());
    }
    assert_eq!(seen, vec![0, 15, 30, 60, 120, 0]);
}

#[test]
fn the_sleep_row_cycles_and_follows_the_countdown() {
    let mut a = unlocked();
    assert_eq!(a.sleep_min(), 0);
    assert_eq!(a.sleep_label(), "OFF");
    assert_eq!(a.cycle_sleep(), Action::SleepTimer(15));
    assert_eq!(a.sleep_label(), "15 MIN");
    assert_eq!(a.cycle_sleep(), Action::SleepTimer(30));
    a.set_sleep_min(29);
    assert_eq!(a.sleep_label(), "29 MIN");
    // The countdown reaching zero puts the cycle back at OFF.
    a.set_sleep_min(0);
    assert_eq!(a.sleep_label(), "OFF");
    assert_eq!(a.cycle_sleep(), Action::SleepTimer(SLEEP_PRESETS[1]));
}

#[test]
fn the_rocker_moves_the_active_route_and_saturates() {
    let mut a = unlocked();
    assert_eq!(a.volume(), 15);
    a.vol_step(true);
    assert_eq!(a.volume_level(), 16);
    a.set_volume(200);
    assert_eq!(a.volume(), VOL_MAX);
    a.vol_step(true);
    assert_eq!(a.volume(), VOL_MAX);
    a.set_bt_route(true);
    a.vol_step(false);
    assert_eq!(a.bt_volume_level(), 14);
    assert_eq!(a.volume(), VOL_MAX, "the 3.5 mm level is left where it was");
    a.set_bt_volume(32);
    assert_eq!(a.display_volume(), 60);
    a.set_bt_route(false);
    assert_eq!(a.display_volume(), VOL_MAX);
}

#[test]
fn settings_pushed_by_the_shell_read_back() {
    let mut a = unlocked();
    assert_eq!(a.storage_label(), "\u{2014}");
    a.set_storage("12.1 / 14.6 GB");
    assert_eq!(a.storage_label(), "12.1 / 14.6 GB");
    assert!(!a.battery_care());
    assert_eq!(a.toggle_battery_care(), Action::BatteryCareChanged(true));
    a.set_battery_care(false);
    assert!(!a.battery_care());
    a.set_onboarding_seen(true);
    assert!(a.onboarding_seen());
    a.set_liked_count(7);
    assert_eq!(a.liked_count(), 7);
    assert!(a.bt_enhanced());
    a.set_bt_enhanced(false);
    assert!(!a.bt_enhanced());
    assert_eq!(a.accent(), 0);
    a.set_accent(4);
    assert_eq!(a.accent(), 4);
    a.set_accent(42);
    assert_eq!(a.accent(), 0, "out of range falls back to the default");
    assert!(a.set_bt_connected(None), "the first report always repaints");
    assert!(!a.set_bt_connected(Some("")), "an empty name is no peer, and nothing changed");
}

#[test]
fn queue_shuffle_only_moves_what_is_still_to_come() {
    let mut a = unlocked();
    let album: Vec<i64> = (0..12).map(|i| 10 + i).collect();
    a.set_play_context(album.clone(), 2);
    a.enqueue_at(99, "x", 220, QueueAt::Later);
    let acts = a.queue_shuffle();
    assert_eq!(acts, vec![Action::QueueChanged], "the sequence must be re-issued");
    // History + current untouched.
    for i in 0..=2 {
        assert_eq!(a.context()[i], album[i], "row {i} moved");
    }
    // The tail is a permutation of what it was, not a truncation or a duplication.
    let mut before: Vec<i64> = album[3..].to_vec();
    let mut after: Vec<i64> = a.context()[3..].to_vec();
    before.sort_unstable();
    after.sort_unstable();
    assert_eq!(before, after);
    assert_ne!(
        a.context()[3..].to_vec(),
        album[3..].to_vec(),
        "12 tracks should not shuffle back into their original order"
    );
    // The user's picks are theirs.
    assert_eq!(a.queue().len(), 1);
    assert_eq!(a.queue()[0], 99);
    // Nothing left to shuffle => no action, no crash.
    a.set_play_context(vec![0], 0);
    assert!(a.queue_shuffle().is_empty());
}

#[test]
fn the_context_index_follows_the_track_that_starts() {
    let mut a = unlocked();
    let album: Vec<i64> = (0..3).map(|i| 10 + i).collect();
    a.set_play_context(album, 0);
    assert!(a.set_context_playing(12));
    assert_eq!(a.context_idx(), 2);
    assert!(!a.set_context_playing(12), "no move, no repaint");
    // A track that is not in the context (a user-queue pick) leaves the index alone rather
    // than guessing where we are.
    assert!(!a.set_context_playing(9999));
    assert_eq!(a.context_idx(), 2);
}

#[test]
fn a_new_context_replaces_the_old_one_and_clamps_its_start() {
    let mut a = unlocked();
    let rows: Vec<i64> = vec![10, 11, 12];
    a.set_play_context(rows.clone(), 1);
    assert_eq!(a.context().len(), 3);
    assert_eq!(a.context_idx(), 1, "the track that started leads the context");
    assert!(a.queue().is_empty(), "playing an album queues nothing");
    a.set_play_context(rows.clone(), 0);
    assert_eq!(a.context().len(), 3);
    assert_eq!(a.context_idx(), 0);
    a.set_play_context(rows, 99);
    assert_eq!(a.context_idx(), 2, "a start past the end cannot point outside the list");
    a.set_play_context(vec![], 5);
    assert_eq!(a.context_idx(), 0);
}

#[test]
fn a_kept_queue_survives_one_new_context_only() {
    let mut a = unlocked();
    a.enqueue_at(7, "x", 220, QueueAt::Later);
    a.keep_queue();
    a.set_play_context(vec![10, 11], 0);
    assert_eq!(a.queue(), &[7][..], "the pick must survive");
    assert_eq!(a.context(), &[10, 11][..], "and the new sequence is the context");
    a.set_play_context(vec![12], 0);
    assert!(a.queue().is_empty(), "the choice holds for one play only");
}

#[test]
fn queue_moves_and_clears_report_only_real_changes() {
    let mut a = unlocked();
    for id in [1, 2, 3] {
        assert_eq!(a.enqueue_at(id, "x", 220, QueueAt::Later), vec![Action::QueueChanged]);
    }
    assert_eq!(a.enqueue_at(0, "x", 220, QueueAt::Next), vec![Action::QueueChanged]);
    assert_eq!(a.queue(), &[0, 1, 2, 3][..]);
    assert_eq!(a.queue_move(0, 2), vec![Action::QueueChanged]);
    assert_eq!(a.queue(), &[1, 2, 0, 3][..], "the moved row lands at its target");
    assert!(a.queue_move(9, 0).is_empty());
    assert!(a.queue_move(0, 9).is_empty());
    assert!(a.queue_move(1, 1).is_empty());
    assert_eq!(a.queue_move(2, 0), vec![Action::QueueChanged]);
    assert_eq!(a.queue(), &[0, 1, 2, 3][..], "moving back undoes a move");
    a.queue_remove(1);
    assert_eq!(a.queue(), &[0, 2, 3][..]);
    a.queue_remove(9);
    assert_eq!(a.queue().len(), 3);
    assert_eq!(a.queue_clear(), vec![Action::QueueChanged]);
    assert!(a.queue().is_empty());
    assert!(a.queue_clear().is_empty(), "clearing an empty queue is not a change");
}

#[test]
fn the_switches_follow_what_the_shell_reports() {
    let mut a = unlocked();
    assert!(a.bt_on());
    a.set_bt_on(false);
    assert!(!a.bt_on());
    assert!(!a.usb_dac_on());
    a.set_usb_dac(true);
    assert!(a.usb_dac_on());
}

#[test]
fn visualiser_settings_wrap_onto_what_exists() {
    let mut a = unlocked();
    assert_eq!(a.viz_kind(), 0);
    assert_eq!(a.viz_size(), 1);
    assert!(a.viz_on());
    a.set_viz_kind(9);
    assert_eq!(a.viz_kind(), 1, "9 wraps onto the eight kinds");
    for _ in 0..7 {
        a.cycle_viz();
    }
    assert_eq!(a.viz_kind(), 0);
    a.set_viz_size(4);
    assert_eq!(a.viz_size(), 1, "4 wraps onto the three sizes");
    a.cycle_viz_size();
    a.cycle_viz_size();
    assert_eq!(a.viz_size(), 0);
    assert!(!a.viz_on());
    a.set_viz_on(true);
    assert_eq!(a.viz_size(), 2, "a legacy 'on' restores the full size");
    assert!(a.viz_on());
    a.set_viz_on(false);
    assert!(!a.viz_on());
}

#[test]
fn the_device_lists_are_rebuilt_in_the_shells_order() {
    let mut a = unlocked();
    assert_eq!(a.bt_paired_len(), 0);
    a.bt_paired_add("WH-1000XM4", "Headphones", true);
    a.bt_paired_add("Car", "", false);
    assert_eq!(a.bt_paired_len(), 2);
    a.bt_paired_clear();
    assert_eq!(a.bt_paired_len(), 0);
    a.bt_found_add("Speaker", "Audio");
    assert_eq!(a.bt_found_len(), 1);
    a.bt_found_clear();
    assert_eq!(a.bt_found_len(), 0);
    assert!(!a.bt_scanning());
    a.set_bt_scanning(true);
    assert!(a.bt_scanning());
}

#[test]
fn a_pairing_prompt_is_raised_and_cleared_by_kind() {
    let mut a = unlocked();
    assert_eq!(a.bt_prompt_kind(), 0);
    a.set_bt_prompt(1, "Speaker", 123456);
    assert_eq!(a.bt_prompt_kind(), 1);
    a.set_bt_prompt(0, "", 0);
    assert_eq!(a.bt_prompt_kind(), 0);
}
