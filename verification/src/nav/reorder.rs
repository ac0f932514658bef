//! Reordering the user queue by dragging a row by its grab handle.
use vstd::prelude::*;
use crate::nav::{App, DeviceView, Cursors, PlayView, Screen, Action, with_cursors, moved, reorder_begin_of, reorder_track_of};
use crate::up_next::{RowDrag, queue_grip_hit};

verus! {

impl App {
    /// A finger went down at `(x, y)`; see `reorder_begin_of`. True if it picked a row up.
    pub fn reorder_begin(&mut self, x: i32, y: i32, row: Option<(usize, i32)>) -> (picked: bool)
        requires
            old(self)@.valid(),
            row matches Some((_, top)) ==> i32::MIN <= y - top <= i32::MAX,
        ensures
            (final(self)@, picked) == reorder_begin_of(old(self)@, x as int, y, row),
            final(self)@.valid(),
    {
        if self.route.locked || self.route.shelf_open || self.route.confirm.is_some()
            || self.current() != Screen::UpNext || !queue_grip_hit(x) {
            return false;
        }
        match row {
            Some((from, top)) => if from < self.play.queue.len() {
                self.cursors.queue_drag = Some(RowDrag { from, to: from, start_y: y, y, grab_off: y - top });
                true
            } else {
                false
            },
            None => false,
        }
    }

    /// The finger travelled `dy` since the pick-up; see `reorder_track_of`.
    pub fn reorder_track(&mut self, dy: i32, to: usize)
        requires
            old(self)@.valid(),
            old(self)@.cursors.queue_drag matches Some(d) ==> i32::MIN <= d.start_y + dy <= i32::MAX,
        ensures
            final(self)@ == reorder_track_of(old(self)@, dy, to),
            final(self)@.valid(),
    {
        match self.cursors.queue_drag {
            Some(d) => {
                self.cursors.queue_drag = Some(RowDrag { y: d.start_y + dy, to, ..d });
            },
            None => {},
        }
    }

    /// Drop the row: the queue moves it from where it was picked up to where it would land, and
    /// reports the change when the order actually moved. No drag, nothing.
    pub fn reorder_release(&mut self) -> (acts: Vec<Action>)
        requires
            old(self)@.valid(),
        ensures
            match old(self)@.cursors.queue_drag {
                None => final(self)@ == old(self)@ && acts@ == Seq::<Action>::empty(),
                Some(d) => {
                    let w = with_cursors(old(self)@, Cursors { queue_drag: None, ..old(self)@.cursors });
                    if d.from >= w.play.queue.len() || d.to >= w.play.queue.len() || d.from == d.to {
                        final(self)@ == w && acts@ == Seq::<Action>::empty()
                    } else {
                        final(self)@ == (DeviceView {
                            play: PlayView { queue: moved(w.play.queue, d.from as int, d.to as int), ..w.play },
                            ..w
                        }) && acts@ == seq![Action::QueueChanged]
                    }
                },
            },
            final(self)@.valid(),
    {
        match self.cursors.queue_drag {
            Some(d) => {
                self.cursors.queue_drag = None;
                self.queue_move(d.from, d.to)
            },
            None => vec![],
        }
    }

    /// The drag in flight, if any.
    pub fn reorder_state(&self) -> (d: Option<RowDrag>)
        ensures
            d == self@.cursors.queue_drag,
    {
        self.cursors.queue_drag
    }
}

} // verus!
