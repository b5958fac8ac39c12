//! The clock of a background that scrolls by.

use vstd::prelude::*;

verus! {

/// The clock of a scrolling background: it says when the background is
/// to move on by one step.
pub struct ParallaxTimer {
    move_every_ms: u128,
    timer: u128,
}

/// The mathematical value of a [`ParallaxTimer`].
pub struct ParallaxTimerView {
    pub move_every_ms: u128,
    pub timer: u128,
}

impl View for ParallaxTimer {
    type V = ParallaxTimerView;

    closed spec fn view(&self) -> ParallaxTimerView {
        ParallaxTimerView { move_every_ms: self.move_every_ms, timer: self.timer }
    }
}

impl ParallaxTimerView {
    /// Whether the background moves once `elapsed_ms` more milliseconds
    /// are counted.
    pub open spec fn moves(self, elapsed_ms: u128) -> bool {
        self.timer + elapsed_ms >= self.move_every_ms
    }
}

impl ParallaxTimer {
    /// A clock that lets the background move every `move_every_ms`
    /// milliseconds.
    pub fn new(move_every_ms: u128) -> (timer: Self)
        ensures
            timer@ == (ParallaxTimerView { move_every_ms, timer: 0 }),
    {
        Self { move_every_ms, timer: 0 }
    }

    /// Counts `ms_since_last_call` milliseconds. Returns whether the
    /// background is to move now; if so, the count starts again at zero.
    pub fn tick(&mut self, ms_since_last_call: u128) -> (moves: bool)
        requires
            old(self)@.timer + ms_since_last_call <= u128::MAX,
        ensures
            moves == old(self)@.moves(ms_since_last_call),
            final(self)@.move_every_ms == old(self)@.move_every_ms,
            final(self)@.timer == (if moves {
                0
            } else {
                old(self)@.timer + ms_since_last_call
            }),
    {
        self.timer = self.timer + ms_since_last_call;
        if self.timer >= self.move_every_ms {
            self.timer = 0;
            true
        } else {
            false
        }
    }

    /// The milliseconds counted since the background last moved.
    pub fn elapsed(&self) -> (elapsed_ms: u128)
        ensures
            elapsed_ms == self@.timer,
    {
        self.timer
    }
}

} // verus!
