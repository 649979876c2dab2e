use vstd::prelude::*;
use crate::delay::Delay;

verus! {

/// The sound timer: the same 60 Hz countdown register as the delay timer.
/// Its nonzero state is the sole signal that a tone should be playing; the
/// audio collaborator reads the count and is driven outside the core.
pub struct Sound {
    pub timer: Delay,
}

impl Sound {
    pub fn new() -> (r: Sound)
        ensures
            r.timer.count == 0,
    {
        Sound { timer: Delay::new() }
    }

    /// One tick of the countdown at the given instant (see `Delay::tick_at`).
    pub fn tick_at(&mut self, now_ms: u64)
        ensures
            final(self).timer == old(self).timer.ticked(now_ms),
    {
        self.timer.tick_at(now_ms);
    }

    /// One tick against the wall clock: the count either stays or drops by
    /// exactly one, and zero stays zero.
    pub fn check(&mut self)
        ensures
            exists|now_ms: u64| final(self).timer == old(self).timer.ticked(now_ms),
            final(self).timer.count == old(self).timer.count
                || (old(self).timer.count > 0
                    && final(self).timer.count == old(self).timer.count - 1),
    {
        self.timer.check();
    }

    /// Reload at the given instant.
    pub fn set_at(&mut self, count: u8, now_ms: u64)
        ensures
            final(self).timer == (Delay { count: count, last_ms: now_ms }),
    {
        self.timer.set_at(count, now_ms);
    }

    /// Reload against the wall clock.
    pub fn set_count(&mut self, count: u8)
        ensures
            final(self).timer.count == count,
    {
        self.timer.set_count(count);
    }

    /// The current count; the tone should sound exactly while it is nonzero.
    pub fn get_count(&self) -> (r: u8)
        ensures
            r == self.timer.count,
    {
        self.timer.get_count()
    }
}

} // verus!
