//! Horizontal scrubs: the progress rail and the UI-scale slider.
use vstd::prelude::*;
use crate::nav::{App, Screen, Action, Scrub, scrub_begin_of, scrub_move_of, scrub_end_of};
use crate::now_playing::{spec_permille_at, permille_at, RAIL_HIT_TOP, RAIL_HIT_BOT, RAIL_X0};
use crate::settings::{spec_ui_scale_idx_at, ui_scale_idx_at, row_at, SLIDER_X0, SLIDER_W, ROW_UI_SCALE};
use crate::panel::W;

verus! {

/// The rail position under `x`, for any `x`.
fn permille_under(x: i32) -> (p: u16)
    ensures
        p == spec_permille_at(x as int),
{
    if x < i32::MIN + RAIL_X0 {
        0
    } else {
        permille_at(x)
    }
}

/// The UI-scale step under `x`, for any `x`.
fn scale_step_under(x: i32) -> (i: usize)
    ensures
        i == spec_ui_scale_idx_at(x as int),
{
    if x < i32::MIN + SLIDER_X0 {
        assert(x - SLIDER_X0 < 0);
        assert((0int * 6 * 2 + SLIDER_W) / (SLIDER_W * 2) == 0) by (nonlinear_arith)
            requires
                SLIDER_W == 196,
        ;
        0
    } else {
        ui_scale_idx_at(x)
    }
}

impl App {
    /// A finger went down at `(x, y)`; see `scrub_begin_of`. True if it grabbed a scrubbable
    /// control, in which case the whole gesture goes to `scrub_move` and `scrub_end`.
    pub fn scrub_begin(&mut self, x: i32, y: i32) -> (grabbed: bool)
        requires
            old(self)@.valid(),
        ensures
            (final(self)@, grabbed) == scrub_begin_of(old(self)@, x as int, y as int),
            final(self)@.valid(),
    {
        let s = self.current();
        if self.route.locked || self.route.shelf_open {
            self.cursors.scrub = Scrub::Idle;
            return false;
        }
        if s == Screen::NowPlaying {
            if RAIL_HIT_TOP <= y && y < RAIL_HIT_BOT && 0 <= x && x <= W {
                self.cursors.scrub = Scrub::Progress;
                self.cursors.scrub_permille = permille_under(x);
                return true;
            }
            self.cursors.scrub = Scrub::Idle;
            return false;
        }
        if s == Screen::Settings {
            let row = row_at(y, self.cursors.settings_scroll_px);
            if row == Some(ROW_UI_SCALE) {
                self.cursors.scrub = Scrub::UiScale;
                self.cursors.settings_sel = ROW_UI_SCALE;
                self.ui_scale.set_scale_idx(scale_step_under(x));
                return true;
            }
        }
        self.cursors.scrub = Scrub::Idle;
        false
    }

    /// The finger moved to `x` during a scrub; see `scrub_move_of`.
    pub fn scrub_move(&mut self, x: i32) -> (acts: Vec<Action>)
        requires
            old(self)@.valid(),
        ensures
            final(self)@ == scrub_move_of(old(self)@, x as int),
            acts@ == Seq::<Action>::empty(),
            final(self)@.valid(),
    {
        match self.cursors.scrub {
            Scrub::Progress => {
                self.cursors.scrub_permille = permille_under(x);
            },
            Scrub::UiScale => {
                self.ui_scale.set_scale_idx(scale_step_under(x));
            },
            Scrub::Idle => {},
        }
        vec![]
    }

    /// The finger lifted: commit the scrub; see `scrub_end_of`.
    pub fn scrub_end(&mut self) -> (acts: Vec<Action>)
        requires
            old(self)@.valid(),
        ensures
            (final(self)@, acts@) == scrub_end_of(old(self)@),
            final(self)@.valid(),
    {
        let acts = match self.cursors.scrub {
            Scrub::Progress => vec![Action::Seek(self.cursors.scrub_permille)],
            Scrub::UiScale => vec![Action::UiScaleChanged],
            Scrub::Idle => vec![],
        };
        self.cursors.scrub = Scrub::Idle;
        acts
    }

    /// Is a scrub in progress?
    pub fn is_scrubbing(&self) -> (b: bool)
        ensures
            b == (self@.cursors.scrub != Scrub::Idle),
    {
        self.cursors.scrub != Scrub::Idle
    }

    /// Is the scrub in progress the UI-scale slider?
    pub fn scrub_is_ui_scale(&self) -> (b: bool)
        ensures
            b == (self@.cursors.scrub == Scrub::UiScale),
    {
        self.cursors.scrub == Scrub::UiScale
    }

    /// The rail position a seek scrub has reached, in permille.
    pub fn scrub_permille(&self) -> (p: u16)
        ensures
            p == self@.cursors.scrub_permille,
    {
        self.cursors.scrub_permille
    }
}

} // verus!
