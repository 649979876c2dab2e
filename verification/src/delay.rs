use vstd::prelude::*;

verus! {

/// Milliseconds that must elapse before a 60 Hz countdown timer may
/// decrement: the smallest whole number of milliseconds that is not less
/// than one sixtieth of a second (60 * 17 ms >= 1000 ms, while 60 * 16 ms
/// falls short), so a tick never fires before a full sixtieth has passed.
pub const TICK_MS: u64 = 17;

/// A monotone 60 Hz countdown register: an 8-bit counter together with the
/// instant (in milliseconds) of the last decrement or reload.
pub struct Delay {
    pub count: u8,
    pub last_ms: u64,
}

impl Delay {
    /// The state after one tick observed at `now_ms`: a nonzero counter
    /// drops by exactly one once a whole tick has elapsed; otherwise
    /// nothing moves. A missed interval is never backfilled.
    pub open spec fn ticked(self, now_ms: u64) -> Delay {
        if self.count != 0 && now_ms >= self.last_ms + TICK_MS {
            Delay { count: (self.count - 1) as u8, last_ms: now_ms }
        } else {
            self
        }
    }

    pub fn new() -> (r: Delay)
        ensures
            r.count == 0,
    {
        Delay { count: 0, last_ms: crate::clock::now_millis() }
    }

    /// One tick of the countdown at the given instant. Fewer than a
    /// sixtieth of a second after the last reference instant the value
    /// never changes; once a full sixtieth has passed a nonzero value
    /// drops by exactly one and the reference resets; a zero value never
    /// moves, so the counter never goes below zero.
    pub fn tick_at(&mut self, now_ms: u64)
        ensures
            *final(self) == old(self).ticked(now_ms),
            old(self).count == 0 ==> *final(self) == *old(self),
            (now_ms as int) < old(self).last_ms + TICK_MS ==> *final(self) == *old(self),
            old(self).count > 0 && now_ms >= old(self).last_ms + TICK_MS ==> {
                &&& final(self).count == old(self).count - 1
                &&& final(self).last_ms == now_ms
            },
    {
        if self.count != 0 && now_ms >= TICK_MS && now_ms - TICK_MS >= self.last_ms {
            self.count = self.count - 1;
            self.last_ms = now_ms;
        }
    }

    /// One tick against the wall clock: whatever instant the clock reports,
    /// the counter either stays or drops by exactly one, and zero stays zero.
    pub fn check(&mut self)
        ensures
            exists|now_ms: u64| *final(self) == old(self).ticked(now_ms),
            final(self).count == old(self).count
                || (old(self).count > 0 && final(self).count == old(self).count - 1),
    {
        let now_ms = crate::clock::now_millis();
        self.tick_at(now_ms);
        proof {
            assert(*self == old(self).ticked(now_ms));
        }
    }

    /// Reload at the given instant: the counter takes the given value and
    /// the reference instant resets at once, without waiting for a tick
    /// boundary.
    pub fn set_at(&mut self, count: u8, now_ms: u64)
        ensures
            *final(self) == (Delay { count: count, last_ms: now_ms }),
    {
        self.count = count;
        self.last_ms = now_ms;
    }

    /// Reload against the wall clock.
    pub fn set_count(&mut self, count: u8)
        ensures
            final(self).count == count,
    {
        let now_ms = crate::clock::now_millis();
        self.set_at(count, now_ms);
    }

    pub fn get_count(&self) -> (r: u8)
        ensures
            r == self.count,
    {
        self.count
    }
}

} // verus!
