//! Doing something once every few frames.

use vstd::prelude::*;

verus! {

/// Counts frames and fires once every `period` of them.
pub struct FrameCounter {
    pub count: u32,
    pub period: u32,
}

impl FrameCounter {
    /// The count stays below the period.
    pub open spec fn wf(&self) -> bool {
        self.period >= 1 && self.count < self.period
    }

    /// A counter that fires on the `period`-th frame, then every `period`
    /// frames.
    pub fn new(period: u32) -> (r: FrameCounter)
        requires
            period >= 1,
        ensures
            r.wf(),
            r.count == 0,
            r.period == period,
    {
        FrameCounter { count: 0, period }
    }

    /// Counts one frame; true on every `period`-th.
    pub fn tick(&mut self) -> (fired: bool)
        requires
            old(self).wf(),
        ensures
            final(self).wf(),
            final(self).period == old(self).period,
            final(self).count == (old(self).count + 1) % (old(self).period as int),
            fired == (final(self).count == 0),
    {
        self.count = self.count + 1;
        proof {
            if self.count < self.period {
                vstd::arithmetic::div_mod::lemma_small_mod(self.count as nat, self.period as nat);
            } else {
                vstd::arithmetic::div_mod::lemma_mod_self_0(self.period as int);
            }
        }
        if self.count >= self.period {
            self.count = 0;
            true
        } else {
            false
        }
    }
}

/// The count after `n` frames from zero.
pub open spec fn count_after(period: u32, n: nat) -> int {
    n as int % period as int
}

/// After `n` frames a fresh counter holds `n` modulo its period, so it has
/// fired on exactly the frames whose number is a multiple of the period.
pub proof fn law_counter_fires_every_period(c: FrameCounter, n: nat)
    requires
        c.wf(),
        c.count == count_after(c.period, n),
    ensures
        (c.count + 1) % (c.period as int) == count_after(c.period, n + 1),
        ((c.count + 1) % (c.period as int) == 0) == ((n as int + 1) % (c.period as int) == 0),
{
    let p = c.period as int;
    assert((n as int % p + 1) % p == (n as int + 1) % p) by {
        vstd::arithmetic::div_mod::lemma_add_mod_noop(n as int, 1, p);
        if p > 1 {
            vstd::arithmetic::div_mod::lemma_small_mod(1, p as nat);
        }
    }
}

} // verus!
