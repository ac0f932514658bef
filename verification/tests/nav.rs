use cinder_ui::nav::{
    pinnable, screen_from_token, screen_off_label, screen_token, shelf_pin_decode, shelf_pin_encode, tab_from_token,
    tab_token, next_tab, prev_tab, tab_name, screen_title, Screen, ShelfPin, Tab, MENU, SCREEN_OFF_PRESETS,
};
use cinder_ui::panel::{sbar_hit_x, HEADER_BOTTOM, LIST_BOTTOM};
use cinder_ui::up_next::{queue_grip_hit, queue_view_h, GRIP_X0, GRIP_X1};

#[test]
fn menu_rows_with_no_static_subtitle_are_the_ones_render_fills_in() {
    let mut dynamic: Vec<String> = MENU
        .iter()
        .filter(|(_, _, _, value)| value.is_empty())
        .map(|(screen, _, _, _)| format!("{screen:?}"))
        .collect();
    dynamic.sort();
    let mut expected: Vec<String> = [
        Screen::NowPlaying,
        Screen::Library,
        Screen::UpNext,
        Screen::Fm,
        Screen::Eq,
        Screen::Sound,
        Screen::Bluetooth,
        Screen::UsbDac,
    ]
    .iter()
    .map(|s| format!("{s:?}"))
    .collect();
    expected.sort();
    assert_eq!(dynamic, expected);
}

#[test]
fn static_menu_subtitles_never_assert_countable_state() {
    for (screen, _, label, value) in MENU.iter() {
        assert!(
            !value.chars().any(|c| c.is_ascii_digit()),
            "static subtitle for {label} ({screen:?}) asserts a number: {value:?}"
        );
    }
}

#[test]
fn screen_off_labels_read_as_durations() {
    assert_eq!(screen_off_label(0), "OFF");
    assert_eq!(screen_off_label(15), "15 SEC");
    assert_eq!(screen_off_label(60), "1 MIN");
    assert_eq!(screen_off_label(120), "2 MIN");
    assert_eq!(screen_off_label(90), "1:30");
}

#[test]
fn seconds_under_ten_are_padded_past_the_minute() {
    assert_eq!(screen_off_label(65), "1:05");
    assert_eq!(screen_off_label(59), "59 SEC");
    for p in SCREEN_OFF_PRESETS {
        assert!(!screen_off_label(p).is_empty());
    }
}

#[test]
fn the_queue_grip_stops_short_of_the_scrollbar_strip() {
    assert!(queue_grip_hit(GRIP_X0));
    assert!(queue_grip_hit(GRIP_X1 - 1));
    assert!(!queue_grip_hit(GRIP_X1));
    assert!(sbar_hit_x(GRIP_X1), "the strips must abut, not overlap");
    assert!(!sbar_hit_x(GRIP_X1 - 1));
}

#[test]
fn up_next_list_bottom_matches_the_library_it_shares_a_scrollbar_with() {
    assert_eq!(queue_view_h(), LIST_BOTTOM - HEADER_BOTTOM);
}

#[test]
fn every_pinnable_screen_round_trips_through_its_token() {
    let all = [
        Screen::Lock, Screen::NowPlaying, Screen::Menu, Screen::Library, Screen::Album, Screen::Artist,
        Screen::Playlist, Screen::UpNext, Screen::Eq, Screen::Sound, Screen::Bluetooth, Screen::Pairing,
        Screen::Settings, Screen::Fm, Screen::UsbDac, Screen::Receiver, Screen::Onboarding,
        Screen::UsbStorage, Screen::Shelf,
    ];
    for s in all {
        if pinnable(s) {
            assert_eq!(screen_from_token(screen_token(s)), Some(s), "{s:?}");
        } else {
            assert_eq!(screen_token(s), "np", "{s:?} is stored as Now Playing");
        }
    }
    assert_eq!(screen_from_token("menu"), None);
    assert_eq!(screen_from_token(""), None);
}

#[test]
fn tabs_round_trip_and_unknown_tokens_fall_back_to_albums() {
    for t in [Tab::Songs, Tab::Albums, Tab::Artists, Tab::Playlists] {
        assert_eq!(tab_from_token(tab_token(t)), t);
    }
    assert_eq!(tab_from_token("genres"), Tab::Albums);
}

fn pin() -> ShelfPin {
    ShelfPin {
        screen: Screen::Library,
        lib_tab: Tab::Albums,
        lib_sort: 1,
        album_sort: 2,
        album_expanded: Some(17),
        lib_scroll_px: 4000,
        album_view: 17,
        album_scroll_px: 0,
        artist_view: 3,
        playlist_view: 0,
        title: "Kind of Blue".to_string(),
        sub: "Miles Davis | 1959".to_string(),
    }
}

#[test]
fn a_pin_record_names_every_field_in_order() {
    assert_eq!(shelf_pin_encode(&pin()), "lib|albums|1|2|17|4000|17|0|3|0|Kind of Blue|Miles Davis   1959");
    let mut p = pin();
    p.album_expanded = None;
    p.title = "two\nlines".to_string();
    assert!(shelf_pin_encode(&p).starts_with("lib|albums|1|2|-1|"));
    assert!(shelf_pin_encode(&p).contains("|two lines|"));
}

#[test]
fn a_pin_survives_the_settings_file() {
    let p = pin();
    let back = shelf_pin_decode(&shelf_pin_encode(&p), 3, 4).expect("a written record reads back");
    let mut want = p.clone();
    want.sub = "Miles Davis   1959".to_string();
    assert_eq!(back, want);
}

#[test]
fn a_malformed_record_clears_the_slot_and_numbers_are_forgiving() {
    assert_eq!(shelf_pin_decode("", 3, 4), None);
    assert_eq!(shelf_pin_decode("lib|albums|1|2|3", 3, 4), None, "short");
    assert_eq!(shelf_pin_decode("menu|albums|0|0|-1|0|0|0|0|0|t|s", 3, 4), None, "not pinnable");
    let p = shelf_pin_decode("np|bogus| x |99|-7|-50|+5|junk|9999999999999999999999|0|Title|Sub|extra", 3, 4)
        .expect("readable");
    assert_eq!(p.screen, Screen::NowPlaying);
    assert_eq!(p.lib_tab, Tab::Albums);
    assert_eq!(p.lib_sort, 0, "not a number reads as 0");
    assert_eq!(p.album_sort, 3, "capped at the last order");
    assert_eq!(p.album_expanded, None);
    assert_eq!(p.lib_scroll_px, 0, "floored at 0");
    assert_eq!(p.album_view, 5, "a leading + is a sign");
    assert_eq!(p.album_scroll_px, 0);
    assert_eq!(p.artist_view, 0, "out of range reads as 0");
    assert_eq!((p.title.as_str(), p.sub.as_str()), ("Title", "Sub"));
}

#[test]
fn the_tab_strip_cycles_both_ways() {
    let mut t = Tab::Songs;
    let mut seen = vec![];
    for _ in 0..4 {
        seen.push(tab_name(t));
        assert_eq!(prev_tab(next_tab(t)), t);
        t = next_tab(t);
    }
    assert_eq!(t, Tab::Songs);
    assert_eq!(seen, ["Songs", "Albums", "Artists", "Playlists"]);
    assert_eq!(prev_tab(Tab::Songs), Tab::Playlists);
}

#[test]
fn screen_titles_come_from_the_menu() {
    assert_eq!(screen_title(Screen::Eq), "Equalizer");
    assert_eq!(screen_title(Screen::Onboarding), "Help & Controls");
    assert_eq!(screen_title(Screen::Album), "Cinder");
    for (screen, _, title, _) in MENU.iter() {
        assert_eq!(screen_title(*screen), *title);
    }
}
