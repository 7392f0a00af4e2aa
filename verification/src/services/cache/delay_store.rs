use vstd::prelude::*;
use std::time::{Duration, Instant};
use crate::clock::{duration_as_nanos, instant_elapsed, instant_now};

verus! {

/// Delays storing: tells when the delay since the last store passed, and
/// whether the latest state was stored.
pub struct DelyStore {
    pub delay: Duration,
    /// The delay in nanoseconds, as `Duration::as_nanos` gives it.
    pub delay_nanos: u128,
    pub time: Instant,
    pub stored: bool,
}

impl DelyStore {
    /// Creates a new instance
    ///  - delay - Duration to delay the store operation
    pub fn new(delay: Duration) -> (res: Self)
        ensures
            res.delay == delay,
            !res.stored,
    {
        let delay_nanos = duration_as_nanos(&delay);
        Self { delay, delay_nanos, time: instant_now(), stored: false }
    }

    /// Decides, with `elapsed_nanos` nanoseconds passed since the delay was
    /// last counted from, whether it is time to store: exactly when at least
    /// the delay passed. The 'stored' flag is reset either way.
    pub fn exceeded_at(&mut self, elapsed_nanos: u128) -> (res: bool)
        ensures
            res == (elapsed_nanos >= old(self).delay_nanos),
            !final(self).stored,
            final(self).delay == old(self).delay,
            final(self).delay_nanos == old(self).delay_nanos,
            final(self).time == old(self).time,
    {
        self.stored = false;
        elapsed_nanos >= self.delay_nanos
    }

    /// Returns true if the delay passed since it was last counted from (it
    /// is time to store): the elapsed time, read from the clock, decides as
    /// `exceeded_at` states, and the delay is then counted anew from now.
    /// The 'stored' flag is reset either way.
    pub fn exceeded(&mut self) -> (res: bool)
        ensures
            !final(self).stored,
            final(self).delay == old(self).delay,
            final(self).delay_nanos == old(self).delay_nanos,
            !res ==> final(self).time == old(self).time,
    {
        let elapsed = instant_elapsed(&self.time);
        let elapsed_nanos = duration_as_nanos(&elapsed);
        if self.exceeded_at(elapsed_nanos) {
            self.time = instant_now();
            true
        } else {
            false
        }
    }

    /// Returns the 'stored' flag.
    pub fn stored(&self) -> (res: bool)
        ensures
            res == self.stored,
    {
        self.stored
    }

    /// Sets the 'stored' flag.
    pub fn set_stored(&mut self)
        ensures
            final(self).stored,
            final(self).delay == old(self).delay,
            final(self).delay_nanos == old(self).delay_nanos,
            final(self).time == old(self).time,
    {
        self.stored = true;
    }
}

} // verus!
