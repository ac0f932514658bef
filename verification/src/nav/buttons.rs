//! Button presses: what each hardware button does on each screen.
use vstd::prelude::*;
use crate::overlay::VOL_FRAMES;
use crate::settings::{ROWS as SETTINGS_ROWS, ROW_UI_SCALE};
use crate::sound::ROWS as SOUND_ROWS;
use crate::onboarding::PAGES as ONBOARDING_PAGES;
use crate::nav::{
    Action,
    App,
    Button,
    Play,
    PressFacts,
    Screen,
    Sound,
    Tab,
    eq_gain_of,
    eq_preset_of,
    facts_ok,
    is_global,
    next_tab,
    on_tab,
    press_eq_of,
    press_global_of,
    press_library_of,
    press_locked_of,
    press_of,
    press_onboarding_of,
    press_settings_of,
    press_shelf_of,
    press_simple_of,
    press_sound_of,
    press_tracks_of,
    prev_tab,
    with_cursors,
    with_track_cursor,
};

verus! {

impl App {
    /// A hardware button press: the new state, and what the shell is asked to do. The library
    /// and the EQ tables come in as `c`; see `press_of` for the whole answer.
    #[verifier::rlimit(40)]
    pub fn press(&mut self, b: Button, c: &PressFacts) -> (acts: Vec<Action>)
        requires
            old(self)@.valid(),
            facts_ok(*c),
        ensures
            (final(self)@, acts@) == press_of(old(self)@, *c, b),
            final(self)@.valid(),
    {
        let s = self.current();
        if self.route.locked {
            self.press_locked(b)
        } else if self.route.confirm.is_some() {
            if b == Button::Back {
                self.route.confirm = None;
            }
            vec![]
        } else if self.route.shelf_open {
            self.press_shelf(b)
        } else if s == Screen::UsbStorage {
            if b == Button::Back {
                self.pop();
                vec![Action::ExitUsbMsc]
            } else {
                vec![]
            }
        } else if s == Screen::Onboarding {
            self.press_onboarding(b)
        } else if b == Button::Power || b == Button::Home || b == Button::VolUp || b == Button::VolDown || b
            == Button::Play || b == Button::Next || b == Button::Prev {
            self.press_global(b)
        } else if s == Screen::Library {
            self.press_library(b, c)
        } else if s == Screen::Album {
            self.press_tracks(b, c, 0)
        } else if s == Screen::Playlist {
            self.press_tracks(b, c, 1)
        } else if s == Screen::Artist {
            self.press_tracks(b, c, 2)
        } else if s == Screen::Settings {
            self.press_settings(b)
        } else if s == Screen::Eq {
            self.press_eq(b, c)
        } else if s == Screen::Sound {
            self.press_sound(b)
        } else {
            self.press_simple(b)
        }
    }

    /// A press while the Hold switch is on.
    #[verifier::rlimit(40)]
    pub(crate) fn press_locked(&mut self, b: Button) -> (acts: Vec<Action>)
        requires
            old(self)@.valid(),
        ensures
            (final(self)@, acts@) == press_locked_of(old(self)@, b),
            final(self)@.valid(),
    {
        match b {
            Button::Power => vec![Action::Sleep],
            Button::Play => {
                self.route.playing = !self.route.playing;
                vec![Action::PlayPause]
            },
            Button::Right | Button::Next => vec![Action::Next],
            Button::Left | Button::Prev => vec![Action::Prev],
            Button::VolUp => {
                self.vol_step(true);
                vec![Action::VolUp]
            },
            Button::VolDown => {
                self.vol_step(false);
                vec![Action::VolDown]
            },
            _ => vec![],
        }
    }

    /// A press with the Shelf open.
    #[verifier::rlimit(40)]
    pub(crate) fn press_shelf(&mut self, b: Button) -> (acts: Vec<Action>)
        requires
            old(self)@.valid(),
        ensures
            (final(self)@, acts@) == press_shelf_of(old(self)@, b),
            final(self)@.valid(),
    {
        match b {
            Button::Back => {
                self.route.shelf_open = false;
                vec![]
            },
            Button::Power => vec![Action::Sleep],
            Button::Play => {
                self.route.playing = !self.route.playing;
                vec![Action::PlayPause]
            },
            Button::Next => vec![Action::Next],
            Button::Prev => vec![Action::Prev],
            Button::VolUp => {
                self.vol_step(true);
                self.route.vol_overlay = VOL_FRAMES;
                vec![Action::VolUp]
            },
            Button::VolDown => {
                self.vol_step(false);
                self.route.vol_overlay = VOL_FRAMES;
                vec![Action::VolDown]
            },
            _ => vec![],
        }
    }

    /// A press on the introduction.
    pub(crate) fn press_onboarding(&mut self, b: Button) -> (acts: Vec<Action>)
        requires
            old(self)@.valid(),
        ensures
            (final(self)@, acts@) == press_onboarding_of(old(self)@, b),
            final(self)@.valid(),
    {
        match b {
            Button::Right | Button::Select => {
                if self.route.onboarding_page + 1 < ONBOARDING_PAGES {
                    self.route.onboarding_page = self.route.onboarding_page + 1;
                } else {
                    self.finish_onboarding();
                }
                vec![]
            },
            Button::Left => {
                if self.route.onboarding_page > 0 {
                    self.route.onboarding_page = self.route.onboarding_page - 1;
                }
                vec![]
            },
            Button::Back => {
                self.finish_onboarding();
                vec![]
            },
            _ => vec![],
        }
    }

    /// A press of a button that acts the same on every screen.
    #[verifier::rlimit(40)]
    pub(crate) fn press_global(&mut self, b: Button) -> (acts: Vec<Action>)
        requires
            old(self)@.valid(),
            is_global(b),
        ensures
            (final(self)@, acts@) == press_global_of(old(self)@, b),
            final(self)@.valid(),
    {
        match b {
            Button::Power => vec![Action::Sleep],
            Button::Home => {
                self.go(Screen::NowPlaying);
                vec![]
            },
            Button::VolUp => {
                self.vol_step(true);
                self.route.vol_overlay = VOL_FRAMES;
                vec![Action::VolUp]
            },
            Button::VolDown => {
                self.vol_step(false);
                self.route.vol_overlay = VOL_FRAMES;
                vec![Action::VolDown]
            },
            Button::Play => {
                self.route.playing = !self.route.playing;
                vec![Action::PlayPause]
            },
            Button::Next => vec![Action::Next],
            _ => vec![Action::Prev],
        }
    }

    /// The Library on tab `t`, at its top, with no album expanded.
    pub(crate) fn to_tab(&mut self, t: Tab)
        requires
            old(self)@.valid(),
        ensures
            final(self)@ == on_tab(old(self)@, t),
            final(self)@.valid(),
    {
        self.cursors.lib_tab = t;
        self.cursors.lib_idx = 0;
        self.cursors.lib_scroll_px = 0;
        self.cursors.album_expanded = None;
    }

    /// A press on the Library.
    #[verifier::rlimit(40)]
    pub(crate) fn press_library(&mut self, b: Button, c: &PressFacts) -> (acts: Vec<Action>)
        requires
            old(self)@.valid(),
            facts_ok(*c),
        ensures
            (final(self)@, acts@) == press_library_of(old(self)@, *c, b),
            final(self)@.valid(),
    {
        let tab = self.cursors.lib_tab;
        match b {
            Button::Left => {
                self.to_tab(prev_tab(tab));
                vec![]
            },
            Button::Right => {
                self.to_tab(next_tab(tab));
                vec![]
            },
            Button::Up => {
                if self.cursors.lib_idx > 0 {
                    self.cursors.lib_idx = self.cursors.lib_idx - 1;
                }
                vec![]
            },
            Button::Down => {
                if self.cursors.lib_idx < c.rows && self.cursors.lib_idx + 1 < c.rows {
                    self.cursors.lib_idx = self.cursors.lib_idx + 1;
                }
                vec![]
            },
            Button::Option => {
                if tab == Tab::Songs {
                    self.cursors.lib_sort = ((self.cursors.lib_sort as u128 + 1) % c.song_sorts as u128) as usize;
                    self.cursors.lib_idx = 0;
                    self.cursors.lib_scroll_px = 0;
                } else if tab == Tab::Albums {
                    self.cursors.album_sort = ((self.cursors.album_sort as u128 + 1) % c.album_sorts as u128) as usize;
                    self.cursors.album_expanded = None;
                    self.cursors.lib_idx = 0;
                    self.cursors.lib_scroll_px = 0;
                }
                vec![]
            },
            Button::Select => {
                if tab == Tab::Albums {
                    self.cursors.album_view = match c.album_at_rank {
                        Some(a) => a,
                        None => 0,
                    };
                    self.cursors.album_track_idx = 0;
                    self.cursors.album_scroll_px = 0;
                    self.push(Screen::Album);
                    vec![]
                } else if tab == Tab::Songs {
                    match c.pick {
                        Some(id) => self.start_play(id),
                        None => vec![],
                    }
                } else if tab == Tab::Playlists {
                    match c.playlist {
                        Some(id) => vec![Action::PlayPlaylist(id)],
                        None => vec![],
                    }
                } else {
                    vec![]
                }
            },
            Button::Back => {
                self.pop();
                vec![]
            },
            _ => vec![],
        }
    }

    /// Set the track cursor of list `which` (album 0, playlist 1, artist 2).
    pub(crate) fn set_track_cursor(&mut self, which: u8, i: usize)
        requires
            old(self)@.valid(),
            which < 3,
        ensures
            final(self)@ == with_cursors(old(self)@, with_track_cursor(old(self)@.cursors, which as int, i)),
            final(self)@.valid(),
    {
        if which == 0 {
            self.cursors.album_track_idx = i;
        } else if which == 1 {
            self.cursors.playlist_track_idx = i;
        } else {
            self.cursors.artist_track_idx = i;
        }
    }

    /// A press on an album, playlist or artist page.
    #[verifier::rlimit(40)]
    pub(crate) fn press_tracks(&mut self, b: Button, c: &PressFacts, which: u8) -> (acts: Vec<Action>)
        requires
            old(self)@.valid(),
            which < 3,
        ensures
            (final(self)@, acts@) == press_tracks_of(old(self)@, *c, b, which as int),
            final(self)@.valid(),
    {
        let i = if which == 0 {
            self.cursors.album_track_idx
        } else if which == 1 {
            self.cursors.playlist_track_idx
        } else {
            self.cursors.artist_track_idx
        };
        match b {
            Button::Up => {
                let n = if i > 0 { i - 1 } else { 0 };
                self.set_track_cursor(which, n);
                vec![]
            },
            Button::Down => {
                let n = if i < c.rows && i + 1 < c.rows { i + 1 } else { i };
                self.set_track_cursor(which, n);
                vec![]
            },
            Button::Select => match c.pick {
                Some(id) => self.start_play(id),
                None => vec![],
            },
            Button::Back | Button::Left => {
                self.pop();
                vec![]
            },
            _ => vec![],
        }
    }

    /// A press on Settings.
    #[verifier::rlimit(40)]
    pub(crate) fn press_settings(&mut self, b: Button) -> (acts: Vec<Action>)
        requires
            old(self)@.valid(),
        ensures
            (final(self)@, acts@) == press_settings_of(old(self)@, b),
            final(self)@.valid(),
    {
        let sel = self.cursors.settings_sel;
        match b {
            Button::Up => {
                if sel > 0 {
                    self.cursors.settings_sel = sel - 1;
                }
                vec![]
            },
            Button::Down => {
                if sel + 1 < SETTINGS_ROWS {
                    self.cursors.settings_sel = sel + 1;
                }
                vec![]
            },
            Button::Left => if sel == ROW_UI_SCALE {
                self.step_ui_scale(-1)
            } else {
                self.settings_activate()
            },
            Button::Right => if sel == ROW_UI_SCALE {
                self.step_ui_scale(1)
            } else {
                self.settings_activate()
            },
            Button::Select => self.settings_activate(),
            Button::Back => {
                self.pop();
                vec![]
            },
            _ => vec![],
        }
    }

    /// A press on the EQ.
    #[verifier::rlimit(40)]
    pub(crate) fn press_eq(&mut self, b: Button, c: &PressFacts) -> (acts: Vec<Action>)
        requires
            old(self)@.valid(),
            facts_ok(*c),
        ensures
            (final(self)@, acts@) == press_eq_of(old(self)@, *c, b),
            final(self)@.valid(),
    {
        let sel = self.cursors.eq_sel;
        match b {
            Button::Left => {
                if sel > 0 {
                    self.cursors.eq_sel = sel - 1;
                }
                vec![]
            },
            Button::Right => {
                if sel + 1 < 10 {
                    self.cursors.eq_sel = sel + 1;
                }
                vec![]
            },
            Button::Up => self.eq_gain(c, true),
            Button::Down => self.eq_gain(c, false),
            Button::Option | Button::Select => self.eq_next_preset(c),
            Button::Back => {
                self.pop();
                vec![]
            },
            _ => vec![],
        }
    }

    /// The selected band a gain step up or down.
    pub(crate) fn eq_gain(&mut self, c: &PressFacts, up: bool) -> (acts: Vec<Action>)
        requires
            old(self)@.valid(),
            facts_ok(*c),
        ensures
            (final(self)@, acts@) == eq_gain_of(old(self)@, *c, up),
            final(self)@.valid(),
    {
        let sel = self.cursors.eq_sel;
        let g = self.sound.eq_bands[sel];
        let n: i8 = if up {
            if (g as i16) + (c.band_step as i16) < (c.band_max as i16) { g + c.band_step } else { c.band_max }
        } else {
            if (g as i16) - (c.band_step as i16) > -(c.band_max as i16) { g - c.band_step } else { -c.band_max }
        };
        let mut bands = self.sound.eq_bands;
        bands[sel] = n;
        self.sound.eq_bands = bands;
        vec![Action::EqChanged(bands)]
    }

    /// The next EQ preset.
    pub(crate) fn eq_next_preset(&mut self, c: &PressFacts) -> (acts: Vec<Action>)
        requires
            old(self)@.valid(),
            facts_ok(*c),
        ensures
            (final(self)@, acts@) == eq_preset_of(old(self)@, *c),
            final(self)@.valid(),
    {
        let p = ((self.cursors.eq_preset as u128 + 1) % c.eq_presets.len() as u128) as usize;
        self.cursors.eq_preset = p;
        let bands = c.eq_presets[p];
        self.sound.eq_bands = bands;
        vec![Action::EqChanged(bands)]
    }

    /// A press on Sound.
    #[verifier::rlimit(40)]
    pub(crate) fn press_sound(&mut self, b: Button) -> (acts: Vec<Action>)
        requires
            old(self)@.valid(),
        ensures
            (final(self)@, acts@) == press_sound_of(old(self)@, b),
            final(self)@.valid(),
    {
        let sel = self.cursors.sound_sel;
        match b {
            Button::Up => {
                if sel > 0 {
                    self.cursors.sound_sel = sel - 1;
                }
                vec![]
            },
            Button::Down => {
                if sel + 1 < SOUND_ROWS {
                    self.cursors.sound_sel = sel + 1;
                }
                vec![]
            },
            Button::Select | Button::Left | Button::Right => self.sound_toggle_row(),
            Button::Option => {
                self.cursors.snd_ab_bypass = !self.cursors.snd_ab_bypass;
                vec![Action::SoundBypass(self.cursors.snd_ab_bypass)]
            },
            Button::Back => {
                self.pop();
                vec![]
            },
            _ => vec![],
        }
    }

    /// A press on Now Playing, the Menu, USB-DAC, Bluetooth, or a screen with no controls.
    #[verifier::rlimit(40)]
    pub(crate) fn press_simple(&mut self, b: Button) -> (acts: Vec<Action>)
        requires
            old(self)@.valid(),
        ensures
            (final(self)@, acts@) == press_simple_of(old(self)@, b),
            final(self)@.valid(),
    {
        let s = self.current();
        if s == Screen::NowPlaying {
            match b {
                Button::Right => vec![Action::Next],
                Button::Left => vec![Action::Prev],
                Button::Up | Button::Select => {
                    self.push(Screen::Menu);
                    vec![]
                },
                Button::Option => {
                    self.cycle_viz();
                    vec![]
                },
                Button::Down => {
                    self.push(Screen::UpNext);
                    vec![]
                },
                _ => vec![],
            }
        } else if s == Screen::Menu {
            let m = self.cursors.menu_idx;
            match b {
                Button::Up => {
                    if m > 0 {
                        self.cursors.menu_idx = m - 1;
                    }
                    vec![]
                },
                Button::Down => {
                    if m + 1 < 11 {
                        self.cursors.menu_idx = m + 1;
                    }
                    vec![]
                },
                Button::Select | Button::Right => {
                    self.activate_menu(m);
                    vec![]
                },
                Button::Back | Button::Left => {
                    self.pop();
                    vec![]
                },
                _ => vec![],
            }
        } else if s == Screen::UsbDac {
            match b {
                Button::Select => {
                    self.link.usb_dac_on = !self.link.usb_dac_on;
                    vec![Action::UsbDacToggle(self.link.usb_dac_on)]
                },
                Button::Back => {
                    self.pop();
                    vec![]
                },
                _ => vec![],
            }
        } else if s == Screen::Bluetooth {
            match b {
                Button::Select => {
                    self.link.bt_on = !self.link.bt_on;
                    vec![Action::BtToggle(self.link.bt_on)]
                },
                Button::Back => {
                    self.pop();
                    vec![]
                },
                _ => vec![],
            }
        } else {
            match b {
                Button::Back => {
                    self.pop();
                    vec![]
                },
                _ => vec![],
            }
        }
    }
}

} // verus!
