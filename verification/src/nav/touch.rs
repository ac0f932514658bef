//! Taps: what a touch at a point does on each screen, and the Shelf's pins.
use vstd::prelude::*;
use crate::strings::{push_dec, push_str, owned};
use crate::theme::Accent;
use crate::shelf::{SLOTS as SHELF_SLOTS, ShelfHit};
use crate::panel::{W, STATUS_H, HEADER_BOTTOM};
use crate::pairing::PairHit;
use crate::up_next::Slot;
use crate::settings::{spec_ui_scale_idx_at, ui_scale_idx_at, SLIDER_X0};
use crate::now_playing::hit_circle;
use crate::settings::{ROWS as SETTINGS_ROWS, ROW_ACCENT, ROW_UI_SCALE};
use crate::sound::ROWS as SOUND_ROWS;
use crate::onboarding::PAGES as ONBOARDING_PAGES;
use crate::nav::{
    up_next_target,
    Action,
    AlbumTap,
    App,
    ArtistTap,
    Ask,
    BtTap,
    CardHit,
    Cursors,
    DeviceView,
    EqTap,
    FLAT_BANDS,
    LibTap,
    NpBarHit,
    PlayView,
    PlaylistTap,
    RouteView,
    Screen,
    ShelfPin,
    ShuffleScope,
    Sound,
    StatusTap,
    Tab,
    TapFacts,
    UpNextTap,
    capped,
    captured,
    clamped,
    cleared_toast,
    device_row,
    notified,
    open_album_of,
    pin_slot,
    pin_view,
    pinnable,
    pinned_toast,
    pins_filled,
    play_pending,
    restored,
    shelf_tap_of,
    spec_settings_max_scroll,
    tap_bluetooth_of,
    tap_card_of,
    tap_eq_of,
    tap_facts_ok,
    tap_library_of,
    tap_now_playing_of,
    tap_of,
    tap_onboarding_of,
    tap_page_of,
    tap_pairing_of,
    tap_screen_of,
    tap_settings_of,
    tap_sound_of,
    tap_up_next_of,
    with_cursors,
    with_route,
};

verus! {

/// The toast for pinning into slot `i`.
fn pinned_text(i: usize, replaced: bool, name: &str) -> (m: String)
    requires
        i < SHELF_SLOTS,
    ensures
        m@ == pinned_toast(i as int, replaced, name@),
{
    let mut msg = if replaced { owned("Slot ") } else { owned("Pinned to slot ") };
    push_dec(&mut msg, i as u64 + 1);
    if replaced {
        push_str(&mut msg, " replaced \u{2014} ");
    } else {
        push_str(&mut msg, " \u{2014} ");
    }
    push_str(&mut msg, name);
    msg
}

/// The toast for clearing slot `i`.
fn cleared_text(i: usize) -> (m: String)
    requires
        i < SHELF_SLOTS,
    ensures
        m@ == cleared_toast(i as int),
{
    let mut msg = owned("Slot ");
    push_dec(&mut msg, i as u64 + 1);
    push_str(&mut msg, " cleared");
    msg
}

/// `v` held to `0..=hi`.
fn clamp_px(v: i32, hi: i32) -> (r: i32)
    ensures
        r == clamped(v, hi),
{
    if v < 0 { 0 } else if v > hi { hi } else { v }
}

/// `n` held below `count`.
fn cap(n: usize, count: usize) -> (r: usize)
    ensures
        r == capped(n, count),
{
    if count == 0 { 0 } else if n < count { n } else { count - 1 }
}

/// A pin with the same fields as `p`.
fn copy_pin(p: &ShelfPin) -> (q: ShelfPin)
    ensures
        pin_view(q) == pin_view(*p),
{
    ShelfPin {
        screen: p.screen,
        lib_tab: p.lib_tab,
        lib_sort: p.lib_sort,
        album_sort: p.album_sort,
        album_expanded: p.album_expanded,
        lib_scroll_px: p.lib_scroll_px,
        album_view: p.album_view,
        album_scroll_px: p.album_scroll_px,
        artist_view: p.artist_view,
        playlist_view: p.playlist_view,
        title: p.title.clone(),
        sub: p.sub.clone(),
    }
}

impl App {
    /// A touchscreen tap at `(x, y)`, the primary way around the device; see `tap_of`. What the
    /// library and the shell lay out comes in as `f`.
    pub fn tap(&mut self, x: i32, y: i32, f: &TapFacts) -> (acts: Vec<Action>)
        requires
            old(self)@.valid(),
            tap_facts_ok(*f),
        ensures
            (final(self)@, acts@) == tap_of(old(self)@, *f, x as int, y as int),
            final(self)@.valid(),
    {
        let s = self.current();
        if self.route.confirm.is_some() {
            return self.tap_card(f);
        }
        if self.route.locked {
            return vec![];
        }
        if self.route.shelf_open {
            return self.shelf_tap(x, y, f);
        }
        if s == Screen::UsbStorage {
            if crate::usb_storage::hit_off(x, y) {
                self.pop();
                return vec![Action::ExitUsbMsc];
            }
            return vec![];
        }
        if s == Screen::Onboarding {
            self.tap_onboarding(x);
            return vec![];
        }
        let on_bar = s == Screen::Library || s == Screen::Album || s == Screen::Artist || s == Screen::Playlist;
        if on_bar {
            match f.np_bar {
                NpBarHit::PlayPause => {
                    self.route.playing = !self.route.playing;
                    return vec![Action::PlayPause];
                },
                NpBarHit::Open => {
                    self.go(Screen::NowPlaying);
                    return vec![];
                },
                NpBarHit::Off => {},
            }
        }
        match f.status {
            Some(StatusTap::Shelf) => {
                self.open_shelf();
                return vec![];
            },
            Some(StatusTap::NowPlaying) => {
                self.go(Screen::NowPlaying);
                return vec![];
            },
            Some(StatusTap::Menu) => {
                if s != Screen::Menu {
                    self.push(Screen::Menu);
                }
                return vec![];
            },
            None => {},
        }
        let header = !(s == Screen::NowPlaying || s == Screen::Menu || s == Screen::Lock);
        if header && STATUS_H <= y && y < HEADER_BOTTOM && x < 80 {
            self.pop();
            return vec![];
        }
        self.tap_screen(x, y, f)
    }

    /// The modal card's answer; see `tap_card_of`.
    #[verifier::rlimit(60)]
    pub(crate) fn tap_card(&mut self, f: &TapFacts) -> (acts: Vec<Action>)
        requires
            old(self)@.valid(),
        ensures
            (final(self)@, acts@) == tap_card_of(old(self)@, *f),
            final(self)@.valid(),
    {
        let ask = self.route.confirm;
        self.route.confirm = None;
        match f.card {
            CardHit::Cancel => {
                self.route.pending_song = None;
                vec![]
            },
            CardHit::Restart => vec![Action::Restart],
            CardHit::PowerOff => vec![Action::PowerOff],
            CardHit::ClearQueue => self.clear_then_play(),
            CardHit::KeepQueue => {
                self.play.queue_keep = true;
                let pending = self.route.pending_song;
                self.route.pending_song = None;
                match pending {
                    Some(id) => vec![Action::PlayIndex(id)],
                    None => vec![],
                }
            },
            CardHit::Confirm => match ask {
                Some(Ask::Restart) => vec![Action::Restart],
                Some(Ask::PowerOff) => vec![Action::PowerOff],
                _ => vec![],
            },
        }
    }

    /// The card's Clear: empty the queue and play the track waiting on the answer.
    pub(crate) fn clear_then_play(&mut self) -> (acts: Vec<Action>)
        requires
            old(self)@.valid(),
        ensures
            ({
                let w = old(self)@;
                (final(self)@, acts@) == (
                    DeviceView {
                        route: RouteView { pending_song: None, ..w.route },
                        play: PlayView { queue: Seq::empty(), ..w.play },
                        ..w
                    },
                    (if w.play.queue.len() > 0 { seq![Action::QueueChanged] } else { Seq::empty() }) + play_pending(
                        w.route.pending_song,
                    ),
                )
            }),
            final(self)@.valid(),
    {
        let had = self.play.queue.len() > 0;
        self.set_queue(Vec::new());
        proof {
            assert(self@.play.queue =~= Seq::<i64>::empty());
        }
        let pending = self.route.pending_song;
        self.route.pending_song = None;
        let mut acts: Vec<Action> = Vec::new();
        if had {
            acts.push(Action::QueueChanged);
        }
        match pending {
            Some(id) => acts.push(Action::PlayIndex(id)),
            None => {},
        }
        proof {
            let a1 = if had { seq![Action::QueueChanged] } else { Seq::<Action>::empty() };
            assert(acts@ =~= a1 + play_pending(pending));
        }
        acts
    }

    /// The current place as a pin, labelled from `f`.
    pub(crate) fn capture_pin(&self, f: &TapFacts) -> (p: ShelfPin)
        ensures
            pin_view(p) == captured(self@, f.place_title@, f.place_sub@),
    {
        ShelfPin {
            screen: self.current(),
            lib_tab: self.cursors.lib_tab,
            lib_sort: self.cursors.lib_sort,
            album_sort: self.cursors.album_sort,
            album_expanded: self.cursors.album_expanded,
            lib_scroll_px: self.cursors.lib_scroll_px,
            album_view: self.cursors.album_view,
            album_scroll_px: self.cursors.album_scroll_px,
            artist_view: self.cursors.artist_view,
            playlist_view: self.cursors.playlist_view,
            title: f.place_title.clone(),
            sub: f.place_sub.clone(),
        }
    }

    /// Go to a pinned place; see `restored`.
    pub(crate) fn restore_pin(&mut self, p: &ShelfPin, f: &TapFacts)
        requires
            old(self)@.valid(),
            tap_facts_ok(*f),
        ensures
            final(self)@ == restored(old(self)@, pin_view(*p), *f),
            final(self)@.valid(),
    {
        let jump = p.screen == Screen::Library && p.lib_tab == Tab::Albums && p.album_expanded.is_some()
            && f.pin_album_row.is_some();
        let row = match f.pin_album_row {
            Some(r) => r,
            None => (0usize, 0i32),
        };
        self.cursors.lib_tab = p.lib_tab;
        self.cursors.lib_sort = cap(p.lib_sort, f.song_sorts);
        self.cursors.album_sort = cap(p.album_sort, f.album_sorts);
        self.cursors.album_expanded = p.album_expanded;
        self.cursors.album_view = p.album_view;
        self.cursors.artist_view = p.artist_view;
        self.cursors.playlist_view = p.playlist_view;
        self.cursors.lib_idx = if jump { row.0 } else { 0 };
        self.cursors.lib_scroll_px = if jump { clamp_px(row.1, f.pin_lib_max) } else { clamp_px(p.lib_scroll_px, f.pin_lib_max) };
        self.cursors.album_scroll_px = match f.pin_album_max {
            Some(m) => clamp_px(p.album_scroll_px, m),
            None => 0,
        };
        let stack = if p.screen == Screen::NowPlaying {
            vec![Screen::NowPlaying]
        } else {
            vec![Screen::NowPlaying, p.screen]
        };
        proof {
            if p.screen == Screen::NowPlaying {
                assert(stack@ =~= seq![Screen::NowPlaying]);
            } else {
                assert(stack@ =~= seq![Screen::NowPlaying, p.screen]);
            }
        }
        self.route.stack = stack;
    }

    /// A tap while the Shelf is open; see `shelf_tap_of`.
    pub(crate) fn shelf_tap(&mut self, x: i32, y: i32, f: &TapFacts) -> (acts: Vec<Action>)
        requires
            old(self)@.valid(),
            tap_facts_ok(*f),
        ensures
            (final(self)@, acts@) == shelf_tap_of(old(self)@, *f, x as int, y as int),
            final(self)@.valid(),
    {
        let filled: [bool; SHELF_SLOTS] = [
            self.route.pins[0].is_some(),
            self.route.pins[1].is_some(),
            self.route.pins[2].is_some(),
            self.route.pins[3].is_some(),
            self.route.pins[4].is_some(),
            self.route.pins[5].is_some(),
        ];
        proof {
            assert(filled@ =~= pins_filled(self@.route.pins));
        }
        match crate::shelf::hit(x, y, filled) {
            ShelfHit::Close => {
                self.route.shelf_open = false;
            },
            ShelfHit::PinTo(i) => {
                if !pinnable(self.current()) {
                    self.notify(owned("Nothing to pin here"));
                } else {
                    self.pin_here(i, f);
                }
            },
            ShelfHit::Go(i) => {
                let pinned = match &self.route.pins[i] {
                    Some(p) => Some(copy_pin(p)),
                    None => None,
                };
                match pinned {
                    Some(p) => self.restore_pin(&p, f),
                    None => {},
                }
                self.route.shelf_open = false;
            },
            ShelfHit::Clear(i) => {
                if self.route.pins[i].is_some() {
                    self.clear_pin(i);
                }
            },
            ShelfHit::Nothing => {},
        }
        vec![]
    }

    /// Pin the current place into slot `i`, with a toast naming the slot.
    #[verifier::rlimit(40)]
    pub(crate) fn pin_here(&mut self, i: usize, f: &TapFacts)
        requires
            old(self)@.valid(),
            i < SHELF_SLOTS,
        ensures
            final(self)@ == notified(
                with_route(
                    old(self)@,
                    RouteView {
                        pins: old(self)@.route.pins.update(i as int, Some(captured(old(self)@, f.place_title@, f.place_sub@))),
                        ..old(self)@.route
                    },
                ),
                pinned_toast(i as int, old(self)@.route.pins[i as int] is Some, f.place_title@),
            ),
            final(self)@.valid(),
    {
        let replaced = self.route.pins[i].is_some();
        let p = self.capture_pin(f);
        let ghost pv = pin_view(p);
        self.route.pins.set(i, Some(p));
        proof {
            assert(self@.route.pins =~= old(self)@.route.pins.update(i as int, Some(pv)));
        }
        let msg = pinned_text(i, replaced, f.place_title.as_str());
        self.notify(msg);
    }

    /// Forget the pin in slot `i`, with a toast.
    #[verifier::rlimit(40)]
    pub(crate) fn clear_pin(&mut self, i: usize)
        requires
            old(self)@.valid(),
            i < SHELF_SLOTS,
        ensures
            final(self)@ == notified(
                with_route(old(self)@, RouteView { pins: old(self)@.route.pins.update(i as int, None), ..old(self)@.route }),
                cleared_toast(i as int),
            ),
            final(self)@.valid(),
    {
        self.route.pins.set(i, None);
        proof {
            assert(self@.route.pins =~= old(self)@.route.pins.update(i as int, None));
        }
        let msg = cleared_text(i);
        self.notify(msg);
    }

    /// A tap on the introduction; see `tap_onboarding_of`.
    #[verifier::rlimit(40)]
    pub(crate) fn tap_onboarding(&mut self, x: i32)
        requires
            old(self)@.valid(),
        ensures
            final(self)@ == tap_onboarding_of(old(self)@, x as int),
            final(self)@.valid(),
    {
        if x > W * 2 / 5 {
            if self.route.onboarding_page + 1 < ONBOARDING_PAGES {
                self.route.onboarding_page = self.route.onboarding_page + 1;
            } else {
                self.finish_onboarding();
            }
        } else if self.route.onboarding_page > 0 {
            self.route.onboarding_page = self.route.onboarding_page - 1;
        }
    }

    /// A tap on the current screen's body; see `tap_screen_of`.
    pub(crate) fn tap_screen(&mut self, x: i32, y: i32, f: &TapFacts) -> (acts: Vec<Action>)
        requires
            old(self)@.valid(),
            tap_facts_ok(*f),
        ensures
            (final(self)@, acts@) == tap_screen_of(old(self)@, *f, x as int, y as int),
            final(self)@.valid(),
    {
        let s = self.current();
        if s == Screen::Menu {
            match f.menu_row {
                Some(row) => {
                    self.cursors.menu_idx = row;
                    self.activate_menu(row);
                },
                None => {},
            }
            vec![]
        } else if s == Screen::NowPlaying {
            self.tap_now_playing(x, y, f)
        } else if s == Screen::Library {
            self.tap_library(x, y, f)
        } else if s == Screen::Album || s == Screen::Artist || s == Screen::Playlist {
            self.tap_page(f)
        } else if s == Screen::UpNext {
            self.tap_up_next(x, y, f)
        } else if s == Screen::Settings {
            self.tap_settings(x, y)
        } else if s == Screen::Sound {
            self.tap_sound(x, y)
        } else if s == Screen::Eq {
            self.tap_eq(f)
        } else if s == Screen::Bluetooth {
            self.tap_bluetooth(f)
        } else if s == Screen::Pairing {
            self.tap_pairing(x, y)
        } else if s == Screen::UsbDac {
            if crate::usbdac::hit_toggle(x, y) {
                self.link.usb_dac_on = !self.link.usb_dac_on;
                vec![Action::UsbDacToggle(self.link.usb_dac_on)]
            } else {
                vec![]
            }
        } else {
            vec![]
        }
    }

    /// A tap on Now Playing; see `tap_now_playing_of`.
    pub(crate) fn tap_now_playing(&mut self, x: i32, y: i32, f: &TapFacts) -> (acts: Vec<Action>)
        requires
            old(self)@.valid(),
        ensures
            (final(self)@, acts@) == tap_now_playing_of(old(self)@, *f, x as int, y as int),
            final(self)@.valid(),
    {
        if f.heart {
            vec![Action::ToggleLiked]
        } else if hit_circle(x, y, 240, 692, 44) {
            self.route.playing = !self.route.playing;
            vec![Action::PlayPause]
        } else if hit_circle(x, y, 130, 692, 34) {
            vec![Action::Prev]
        } else if hit_circle(x, y, 350, 692, 34) {
            vec![Action::Next]
        } else if hit_circle(x, y, 44, 692, 30) {
            vec![Action::ShuffleToggle]
        } else if hit_circle(x, y, 436, 692, 30) {
            vec![Action::RepeatCycle]
        } else if y > 744 {
            let t = if x < 96 {
                Screen::Library
            } else if x < 192 {
                Screen::UpNext
            } else if x < 288 {
                Screen::Eq
            } else if x < 384 {
                Screen::Bluetooth
            } else {
                Screen::Settings
            };
            self.push(t);
            vec![]
        } else if y < 91 {
            self.push(Screen::Menu);
            vec![]
        } else {
            vec![]
        }
    }

    /// Open album `flat`'s page; see `open_album_of`.
    pub(crate) fn open_album(&mut self, flat: usize)
        requires
            old(self)@.valid(),
        ensures
            final(self)@ == open_album_of(old(self)@, flat),
            final(self)@.valid(),
    {
        self.cursors.album_view = flat;
        self.cursors.album_track_idx = 0;
        self.cursors.album_scroll_px = 0;
        self.push(Screen::Album);
    }

    /// A tap on the Library; see `tap_library_of`.
    #[verifier::rlimit(30)]
    pub(crate) fn tap_library(&mut self, x: i32, y: i32, f: &TapFacts) -> (acts: Vec<Action>)
        requires
            old(self)@.valid(),
            tap_facts_ok(*f),
        ensures
            (final(self)@, acts@) == tap_library_of(old(self)@, *f, x as int, y as int),
            final(self)@.valid(),
    {
        if 34 <= y && y < 91 && x >= 300 {
            if self.cursors.lib_tab == Tab::Songs {
                self.cursors.lib_sort = ((self.cursors.lib_sort as u128 + 1) % f.song_sorts as u128) as usize;
            } else if self.cursors.lib_tab == Tab::Albums {
                self.cursors.album_sort = ((self.cursors.album_sort as u128 + 1) % f.album_sorts as u128) as usize;
                self.cursors.album_expanded = None;
            } else {
                return vec![];
            }
            self.cursors.lib_idx = 0;
            self.cursors.lib_scroll_px = 0;
            return vec![];
        }
        match f.lib {
            LibTap::Playlist(_, _) | LibTap::Artist(_, _) => self.tap_library_row(x, y, f),
            _ => self.tap_library_list(x, y, f),
        }
    }

    /// A tap on the Library's tabs, rail, band, songs or albums.
    #[verifier::rlimit(30)]
    pub(crate) fn tap_library_list(&mut self, x: i32, y: i32, f: &TapFacts) -> (acts: Vec<Action>)
        requires
            old(self)@.valid(),
            tap_facts_ok(*f),
            !(34 <= y < 91 && x >= 300),
            !(f.lib is Playlist || f.lib is Artist),
        ensures
            (final(self)@, acts@) == tap_library_of(old(self)@, *f, x as int, y as int),
            final(self)@.valid(),
    {
        match f.lib {
            LibTap::Tab(t) => {
                self.to_tab(t);
                vec![]
            },
            LibTap::Rail(jump) => {
                match jump {
                    Some(px) => {
                        self.cursors.lib_scroll_px = px;
                    },
                    None => {},
                }
                vec![]
            },
            LibTap::ShuffleBand => {
                let scope = match self.cursors.lib_tab {
                    Tab::Songs => ShuffleScope::AllSongs,
                    Tab::Albums => ShuffleScope::ByAlbum,
                    Tab::Artists => ShuffleScope::ByArtist,
                    Tab::Playlists => ShuffleScope::Playlist,
                };
                vec![Action::Shuffle(scope)]
            },
            LibTap::Song(row, id) => match id {
                Some(i) => {
                    self.cursors.lib_idx = row;
                    self.start_play(i)
                },
                None => vec![],
            },
            LibTap::AlbumToggle(flat, rank) => {
                self.cursors.album_expanded = if self.cursors.album_expanded == Some(flat) { None } else { Some(flat) };
                match rank {
                    Some(r) => {
                        self.cursors.lib_idx = r;
                    },
                    None => {},
                }
                self.cursors.lib_scroll_px = clamp_px(self.cursors.lib_scroll_px, f.lib_max_scroll);
                vec![]
            },
            LibTap::AlbumOpen(flat) => {
                self.open_album(flat);
                vec![]
            },
            LibTap::AlbumTrack(id) => match id {
                Some(i) => self.start_play(i),
                None => vec![],
            },
            _ => vec![],
        }
    }

    /// A tap on a Playlists or Artists row of the Library.
    #[verifier::rlimit(30)]
    pub(crate) fn tap_library_row(&mut self, x: i32, y: i32, f: &TapFacts) -> (acts: Vec<Action>)
        requires
            old(self)@.valid(),
            tap_facts_ok(*f),
            !(34 <= y < 91 && x >= 300),
            f.lib is Playlist || f.lib is Artist,
        ensures
            (final(self)@, acts@) == tap_library_of(old(self)@, *f, x as int, y as int),
            final(self)@.valid(),
    {
        match f.lib {
            LibTap::Playlist(row, id) => {
                self.cursors.lib_idx = row;
                match id {
                    Some(i) => if x >= 404 {
                        vec![Action::PlayPlaylist(i)]
                    } else {
                        self.cursors.playlist_view = row;
                        self.cursors.playlist_track_idx = 0;
                        self.push(Screen::Playlist);
                        vec![]
                    },
                    None => vec![],
                }
            },
            LibTap::Artist(row, exists) => {
                self.cursors.lib_idx = row;
                if !exists {
                    vec![]
                } else if x >= 404 {
                    vec![Action::ShuffleArtist(row)]
                } else {
                    self.cursors.artist_view = row;
                    self.cursors.artist_track_idx = 0;
                    self.push(Screen::Artist);
                    vec![]
                }
            },
            _ => vec![],
        }
    }

    /// A tap on the album, artist or playlist page; see `tap_page_of`.
    pub(crate) fn tap_page(&mut self, f: &TapFacts) -> (acts: Vec<Action>)
        requires
            old(self)@.valid(),
        ensures
            (final(self)@, acts@) == tap_page_of(old(self)@, *f),
            final(self)@.valid(),
    {
        let s = self.current();
        if s == Screen::Album {
            match f.album {
                AlbumTap::Nothing => vec![],
                AlbumTap::Track(row, id) => {
                    self.cursors.album_track_idx = row;
                    match id {
                        Some(i) => self.start_play(i),
                        None => vec![],
                    }
                },
                AlbumTap::PlayBand(id) => {
                    self.cursors.album_track_idx = 0;
                    match id {
                        Some(i) => self.start_play(i),
                        None => vec![],
                    }
                },
            }
        } else if s == Screen::Artist {
            match f.artist {
                ArtistTap::Nothing => vec![],
                ArtistTap::ShuffleBand => vec![Action::ShuffleArtist(self.cursors.artist_view)],
                ArtistTap::Album(flat) => {
                    self.open_album(flat);
                    vec![]
                },
                ArtistTap::Track(i, id) => {
                    self.cursors.artist_track_idx = i;
                    self.start_play(id)
                },
            }
        } else {
            match f.playlist {
                PlaylistTap::Nothing => vec![],
                PlaylistTap::ShuffleBand(id) => vec![Action::ShufflePlaylist(id)],
                PlaylistTap::Track(i, id) => {
                    self.cursors.playlist_track_idx = i;
                    self.start_play(id)
                },
            }
        }
    }

    /// A tap on Up Next; see `tap_up_next_of`.
    pub(crate) fn tap_up_next(&mut self, x: i32, y: i32, f: &TapFacts) -> (acts: Vec<Action>)
        requires
            old(self)@.valid(),
        ensures
            (final(self)@, acts@) == tap_up_next_of(old(self)@, *f, x as int, y as int),
            final(self)@.valid(),
    {
        if self.play.queue.len() > 0 && crate::up_next::hit_clear_chip(x, y) {
            self.notify(owned("Queue cleared"));
            return self.queue_clear();
        }
        if crate::up_next::hit_shuffle_chip(x, y) {
            return self.queue_shuffle();
        }
        match self.target_on_up_next(y, f) {
            UpNextTap::Queued(i) => if crate::up_next::queue_grip_hit(x) {
                vec![]
            } else {
                vec![Action::PlayQueueAt(i)]
            },
            UpNextTap::Track(i) => if i < self.play.context.len() {
                let id = self.play.context[i];
                self.cursors.queue_follow = true;
                self.start_play(id)
            } else {
                vec![]
            },
            _ => {
                self.go(Screen::NowPlaying);
                vec![]
            },
        }
    }

    /// What is under the finger on Up Next's list; see `up_next_target`.
    pub(crate) fn target_on_up_next(&self, y: i32, f: &TapFacts) -> (t: UpNextTap)
        requires
            self@.valid(),
        ensures
            t == up_next_target(self@, *f, y as int),
    {
        if self.play.queue.len() == 0 {
            let n = self.play.context.len();
            let cur: Option<usize> = if n == 0 { None } else { Some(self.play.context_idx) };
            let hist: usize = if n == 0 { 0 } else { self.play.context_idx };
            let scroll = self.cursors.queue_scroll_px;
            let cy: i64 = y as i64 - crate::up_next::LIST_TOP as i64 + if scroll > 0 { scroll as i64 } else { 0 };
            if cy <= i32::MAX as i64 && crate::up_next::fits(hist, n, cur) {
                return match crate::up_next::slot_under_finger(hist, n, cur, y, scroll) {
                    Some(Slot::Current(_)) => UpNextTap::Current,
                    Some(Slot::History(i)) => UpNextTap::Track(i),
                    Some(Slot::Upcoming(i)) => UpNextTap::Track(i),
                    _ => UpNextTap::Heading,
                };
            }
        }
        f.up_next
    }

    /// A tap on Settings; see `tap_settings_of`.
    pub(crate) fn tap_settings(&mut self, x: i32, y: i32) -> (acts: Vec<Action>)
        requires
            old(self)@.valid(),
        ensures
            (final(self)@, acts@) == tap_settings_of(old(self)@, x as int, y as int),
            final(self)@.valid(),
    {
        let sc = self.cursors.settings_scroll_px;
        match crate::settings::accent_hit(x, y, sc) {
            Some(i) => {
                self.cursors.settings_sel = ROW_ACCENT;
                self.route.boot_stock_armed = false;
                self.prefs.accent = Accent::from_index(i);
                return vec![];
            },
            None => {},
        }
        match crate::settings::row_at(y, sc) {
            Some(row) => if row < SETTINGS_ROWS {
                self.cursors.settings_sel = row;
                if row == ROW_UI_SCALE {
                    let i = if x < i32::MIN + SLIDER_X0 { 0 } else { ui_scale_idx_at(x) };
                    proof {
                        assert(i as int == spec_ui_scale_idx_at(x as int));
                    }
                    self.ui_scale.set_scale_idx(i);
                    vec![Action::UiScaleChanged]
                } else {
                    self.settings_activate()
                }
            } else {
                vec![]
            },
            None => vec![],
        }
    }

    /// A tap on Sound; see `tap_sound_of`.
    pub(crate) fn tap_sound(&mut self, x: i32, y: i32) -> (acts: Vec<Action>)
        requires
            old(self)@.valid(),
        ensures
            (final(self)@, acts@) == tap_sound_of(old(self)@, x as int, y as int),
            final(self)@.valid(),
    {
        if 44 <= y && y < 70 && x > 380 {
            self.cursors.snd_ab_bypass = !self.cursors.snd_ab_bypass;
            return vec![Action::SoundBypass(self.cursors.snd_ab_bypass)];
        }
        match crate::sound::row_at(y) {
            Some(row) => if row < SOUND_ROWS {
                self.cursors.sound_sel = row;
                self.sound_toggle_row()
            } else {
                vec![]
            },
            None => vec![],
        }
    }

    /// A tap on the EQ; see `tap_eq_of`.
    #[verifier::rlimit(30)]
    pub(crate) fn tap_eq(&mut self, f: &TapFacts) -> (acts: Vec<Action>)
        requires
            old(self)@.valid(),
            tap_facts_ok(*f),
        ensures
            (final(self)@, acts@) == tap_eq_of(old(self)@, *f),
            final(self)@.valid(),
    {
        match f.eq {
            EqTap::Preset(i) => {
                let g = f.eq_presets[i];
                self.cursors.eq_preset = i;
                self.sound.eq_bands = g;
                vec![Action::EqChanged(g)]
            },
            EqTap::Band(b, raise) => {
                self.cursors.eq_sel = b;
                let g = self.sound.eq_bands[b];
                let n: i8 = if raise {
                    if (g as i16) + (f.band_step as i16) < (f.band_max as i16) { g + f.band_step } else { f.band_max }
                } else {
                    if (g as i16) - (f.band_step as i16) > -(f.band_max as i16) { g - f.band_step } else { -f.band_max }
                };
                let mut bands = self.sound.eq_bands;
                bands[b] = n;
                self.sound.eq_bands = bands;
                vec![Action::EqChanged(bands)]
            },
            EqTap::Reset => {
                self.cursors.eq_preset = 0;
                self.sound.eq_bands = FLAT_BANDS;
                vec![Action::EqChanged(FLAT_BANDS)]
            },
            EqTap::Nothing => vec![],
        }
    }

    /// A tap on Bluetooth; see `tap_bluetooth_of`.
    pub(crate) fn tap_bluetooth(&mut self, f: &TapFacts) -> (acts: Vec<Action>)
        requires
            old(self)@.valid(),
        ensures
            (final(self)@, acts@) == tap_bluetooth_of(old(self)@, *f),
            final(self)@.valid(),
    {
        match f.bt {
            BtTap::Toggle => {
                self.link.bt_on = !self.link.bt_on;
                vec![Action::BtToggle(self.link.bt_on)]
            },
            BtTap::Disconnect => vec![Action::BtDisconnect],
            BtTap::Codec(i) => {
                self.link.bt_codec = i;
                vec![Action::BtCodecChanged]
            },
            BtTap::Quality(i) => {
                self.link.bt_ldac_quality = i;
                vec![Action::BtCodecChanged]
            },
            BtTap::Enhanced => {
                self.link.bt_enhanced = !self.link.bt_enhanced;
                vec![Action::BtEnhancedChanged]
            },
            BtTap::Pair => {
                self.push(Screen::Pairing);
                vec![Action::BtPairedRefresh]
            },
            BtTap::Nothing => vec![],
        }
    }

    /// A tap on the device picker; see `tap_pairing_of`.
    pub(crate) fn tap_pairing(&mut self, x: i32, y: i32) -> (acts: Vec<Action>)
        requires
            old(self)@.valid(),
        ensures
            (final(self)@, acts@) == tap_pairing_of(old(self)@, x as int, y as int),
            final(self)@.valid(),
    {
        let kind = match &self.devices.prompt {
            Some(p) => Some(p.kind),
            None => None,
        };
        match kind {
            Some(k) => match crate::pairing::hit_prompt(x, y, k) {
                PairHit::PromptConfirm => {
                    self.devices.prompt = None;
                    vec![Action::BtPromptConfirm]
                },
                PairHit::PromptCancel => {
                    self.devices.prompt = None;
                    vec![Action::BtPromptCancel]
                },
                _ => vec![],
            },
            None => self.tap_device_list(x, y),
        }
    }

    /// A tap on the device picker's lists, no prompt up.
    #[verifier::rlimit(60)]
    pub(crate) fn tap_device_list(&mut self, x: i32, y: i32) -> (acts: Vec<Action>)
        requires
            old(self)@.valid(),
            old(self)@.devices.prompt is None,
        ensures
            (final(self)@, acts@) == tap_pairing_of(old(self)@, x as int, y as int),
            final(self)@.valid(),
    {
        let paired = self.devices.paired.len();
        match crate::pairing::hit(x, y, paired, self.devices.found.len()) {
            PairHit::Scan => {
                self.devices.forget_armed = None;
                self.devices.scanning = !self.devices.scanning;
                if self.devices.scanning {
                    self.devices.found = Vec::new();
                    proof {
                        assert(self@.devices.found =~= Seq::empty());
                    }
                }
                vec![Action::BtScanToggle(self.devices.scanning)]
            },
            PairHit::Pair(i) => {
                self.devices.forget_armed = None;
                if i < self.devices.found.len() {
                    vec![Action::BtPairDevice(i)]
                } else {
                    vec![]
                }
            },
            PairHit::Row(i) => {
                self.devices.forget_armed = None;
                if i < paired {
                    let connected = self.devices.paired[i].connected;
                    proof {
                        assert(self@.devices.paired[i as int] == device_row(self.devices.paired@[i as int]));
                    }
                    if connected {
                        vec![Action::BtDisconnect]
                    } else {
                        self.devices.connecting = Some(i);
                        vec![Action::BtConnectDevice(i)]
                    }
                } else {
                    vec![]
                }
            },
            PairHit::Forget(i) => {
                if i >= paired {
                    vec![]
                } else if self.devices.forget_armed == Some(i) {
                    self.devices.forget_armed = None;
                    vec![Action::BtForgetDevice(i)]
                } else {
                    self.devices.forget_armed = Some(i);
                    vec![]
                }
            },
            _ => vec![],
        }
    }

    /// Put a pin in Shelf slot `i` (or empty it), as the shell does when it loads the pins it
    /// saved. A slot that does not exist is left alone.
    pub fn set_pin(&mut self, i: usize, p: Option<ShelfPin>)
        requires
            old(self)@.valid(),
        ensures
            final(self)@ == if i < SHELF_SLOTS {
                with_route(old(self)@, RouteView { pins: old(self)@.route.pins.update(i as int, pin_slot(p)), ..old(self)@.route })
            } else {
                old(self)@
            },
            final(self)@.valid(),
    {
        if i < SHELF_SLOTS {
            self.route.pins.set(i, p);
            proof {
                assert(self@.route.pins =~= old(self)@.route.pins.update(i as int, pin_slot(p)));
            }
        }
    }

    /// The pin in Shelf slot `i`, if any.
    pub fn pin(&self, i: usize) -> (p: Option<&ShelfPin>)
        requires
            self@.valid(),
        ensures
            i < SHELF_SLOTS ==> (match p {
                Some(q) => self@.route.pins[i as int] == Some(pin_view(*q)),
                None => self@.route.pins[i as int] is None,
            }),
            i >= SHELF_SLOTS ==> p is None,
    {
        if i < SHELF_SLOTS {
            self.route.pins[i].as_ref()
        } else {
            None
        }
    }

    /// Scroll the Settings list to `px`, held within the list.
    pub fn set_settings_scroll(&mut self, px: i32)
        requires
            old(self)@.valid(),
        ensures
            final(self)@ == with_cursors(
                old(self)@,
                Cursors { settings_scroll_px: clamped(px, spec_settings_max_scroll()), ..old(self)@.cursors },
            ),
            final(self)@.valid(),
    {
        let hi = crate::settings::max_scroll_px();
        self.cursors.settings_scroll_px = clamp_px(px, hi);
    }

    /// The Settings list's scroll.
    pub fn settings_scroll(&self) -> (px: i32)
        ensures
            px == self@.cursors.settings_scroll_px,
    {
        self.cursors.settings_scroll_px
    }

    /// The Library's song sort.
    pub fn lib_sort(&self) -> (i: usize)
        ensures
            i == self@.cursors.lib_sort,
    {
        self.cursors.lib_sort
    }

    /// The Library list's scroll.
    pub fn lib_scroll(&self) -> (px: i32)
        ensures
            px == self@.cursors.lib_scroll_px,
    {
        self.cursors.lib_scroll_px
    }

    /// The Bluetooth codec preference and LDAC quality tier.
    pub fn bt_codec(&self) -> (r: (u8, u8))
        ensures
            r == (self@.link.bt_codec, self@.link.bt_ldac_quality),
    {
        (self.link.bt_codec, self.link.bt_ldac_quality)
    }
}

} // verus!
