//! The caret blink scheduler: while an input is focused, its caret
//! toggles visibility at a configurable interval, and starts over,
//! visible, on every committed edit and on focus gain.

use vstd::prelude::*;

verus! {

/// Text cursor blinking interval, in milliseconds.
#[derive(Clone, Copy, Debug, PartialEq, Eq, Structural)]
pub struct CursorBlinkingInterval(pub u64);

impl Default for CursorBlinkingInterval {
    /// The default blinking interval of 750 milliseconds.
    fn default() -> (r: Self)
        ensures
            r.0 == 750,
    {
        CursorBlinkingInterval(750)
    }
}

/// The blink timer of a focused input: an accumulator of elapsed time
/// and the caret's current visibility.
#[derive(Clone, Copy, Debug)]
pub struct BlinkingTimer {
    /// The blinking interval, in milliseconds.
    pub interval_ms: u64,
    /// Milliseconds accumulated since the last toggle or reset.
    pub elapsed_ms: u64,
    /// Whether the caret is currently visible.
    pub visible: bool,
}

/// The timer after `delta_ms` more milliseconds: on reaching the
/// interval the visibility flag toggles and the accumulator starts
/// over; otherwise the time is accumulated.
pub open spec fn blink_tick_spec(t: BlinkingTimer, delta_ms: u64) -> BlinkingTimer {
    if delta_ms >= t.interval_ms - t.elapsed_ms {
        BlinkingTimer { interval_ms: t.interval_ms, elapsed_ms: 0, visible: !t.visible }
    } else {
        BlinkingTimer {
            interval_ms: t.interval_ms,
            elapsed_ms: (t.elapsed_ms + delta_ms) as u64,
            visible: t.visible,
        }
    }
}

impl BlinkingTimer {
    /// A timer is well formed when its interval is positive and its
    /// accumulator has not yet reached the interval.
    pub open spec fn wf(&self) -> bool {
        0 < self.interval_ms && self.elapsed_ms < self.interval_ms
    }

    /// A fresh timer: nothing accumulated, caret visible.
    pub fn new(interval: CursorBlinkingInterval) -> (r: Self)
        requires
            interval.0 > 0,
        ensures
            r.wf(),
            r.interval_ms == interval.0,
            r.elapsed_ms == 0,
            r.visible,
    {
        BlinkingTimer { interval_ms: interval.0, elapsed_ms: 0, visible: true }
    }

    /// Advances the timer by `delta_ms` milliseconds.
    pub fn tick(&mut self, delta_ms: u64)
        requires
            old(self).wf(),
        ensures
            final(self).wf(),
            *final(self) == blink_tick_spec(*old(self), delta_ms),
    {
        if delta_ms >= self.interval_ms - self.elapsed_ms {
            self.visible = !self.visible;
            self.elapsed_ms = 0;
        } else {
            self.elapsed_ms = self.elapsed_ms + delta_ms;
        }
    }

    /// Starts the timer over with the caret visible, as every committed
    /// edit and every focus gain does.
    pub fn reset(&mut self)
        requires
            old(self).wf(),
        ensures
            final(self).wf(),
            final(self).interval_ms == old(self).interval_ms,
            final(self).elapsed_ms == 0,
            final(self).visible,
    {
        self.elapsed_ms = 0;
        self.visible = true;
    }
}

} // verus!
