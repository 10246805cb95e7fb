//! Debouncing of raw key input.
//!
//! Terminal key-repeat can fire several raw events per intended press; any
//! two raw events closer together than the debounce window collapse into
//! the first one.  A fixed poll tick bounds how long the main loop waits
//! for input before it re-renders.

use vstd::prelude::*;

verus! {

/// Two raw key events closer than this many milliseconds collapse into
/// one user action.
pub const DEBOUNCE_WINDOW_MS: u64 = 150;

/// How long the main loop waits for input before re-rendering.
pub const POLL_TICK_MS: u64 = 200;

/// The debounce filter that sits between raw key input and action
/// dispatch.  Times are milliseconds on a monotonic clock.
#[derive(Clone, Copy, Debug)]
pub struct Debouncer {
    /// When the last event that passed the filter arrived, if any has.
    pub last_accepted_ms: Option<u64>,
    /// Minimum spacing between two accepted events.
    pub window_ms: u64,
}

/// Whether an event arriving at `now_ms` passes the filter in state `d`.
pub open spec fn spec_accepts(d: Debouncer, now_ms: u64) -> bool {
    match d.last_accepted_ms {
        None => true,
        Some(last) => now_ms - last >= d.window_ms,
    }
}

impl Debouncer {
    /// A fresh filter that will accept the first event it sees.
    pub fn new(window_ms: u64) -> (d: Debouncer)
        ensures
            d.last_accepted_ms is None,
            d.window_ms == window_ms,
    {
        Debouncer { last_accepted_ms: None, window_ms }
    }

    /// Feeds one raw event, arriving at `now_ms`, through the filter.
    /// Returns whether the event is kept; a kept event becomes the new
    /// reference point, a dropped one leaves the filter unchanged.
    pub fn observe(&mut self, now_ms: u64) -> (accepted: bool)
        requires
            old(self).last_accepted_ms matches Some(last) ==> last <= now_ms,
        ensures
            accepted == spec_accepts(*old(self), now_ms),
            final(self).window_ms == old(self).window_ms,
            accepted ==> final(self).last_accepted_ms == Some(now_ms),
            !accepted ==> final(self).last_accepted_ms == old(self).last_accepted_ms,
    {
        let keep = match self.last_accepted_ms {
            None => true,
            Some(last) => now_ms - last >= self.window_ms,
        };
        if keep {
            self.last_accepted_ms = Some(now_ms);
        }
        keep
    }
}

/// Two raw key events collapse into the first exactly when they arrive
/// closer together than the debounce window: after an event is accepted
/// at `t1`, an event at `t2` is dropped if the gap is under the window
/// and accepted from a full window onward.
pub proof fn lemma_debounce_window(d: Debouncer, t1: u64, t2: u64)
    requires
        spec_accepts(d, t1),
        t1 <= t2,
    ensures
        ({
            let after_first = Debouncer { last_accepted_ms: Some(t1), window_ms: d.window_ms };
            &&& (t2 - t1 < d.window_ms ==> !spec_accepts(after_first, t2))
            &&& (t2 - t1 >= d.window_ms ==> spec_accepts(after_first, t2))
        }),
{
}

} // verus!
