//! The firmware's tick clock: a counter advanced once per hardware tick,
//! convertible to elapsed seconds and nanoseconds.

use vstd::prelude::*;
use vstd::arithmetic::div_mod::lemma_fundamental_div_mod;

verus! {

/// The tick counter together with its rate in ticks per second.
pub struct Jiffies {
    pub count: usize,
    pub rate: usize,
}

impl Jiffies {
    /// The rate is at least one tick and at most a millisecond tick.
    pub open spec fn wf(&self) -> bool {
        0 < self.rate <= 1000
    }

    /// A fresh clock at `rate` ticks per second.
    pub fn init(rate: usize) -> (r: Self)
        requires
            0 < rate <= 1000,
        ensures
            r.wf(),
            r.count == 0,
            r.rate == rate,
    {
        Self { count: 0, rate }
    }

    /// One hardware tick; the counter wraps at the top of `usize`.
    pub fn tick(&mut self)
        ensures
            final(self).rate == old(self).rate,
            final(self).count == (if old(self).count == usize::MAX {
                0usize
            } else {
                (old(self).count + 1) as usize
            }),
    {
        self.count = self.count.wrapping_add(1);
    }

    /// Elapsed time as whole seconds and the nanoseconds into the current
    /// second, at the clock's millisecond-or-coarser resolution.
    pub fn get(&self) -> (r: (u64, u32))
        requires
            self.wf(),
        ensures
            r.0 == self.count as int / self.rate as int,
            r.1 == (self.count as int % self.rate as int) * (1000int / self.rate as int)
                * 1000000,
    {
        let seconds = self.count / self.rate;
        let sub = self.count % self.rate;
        let step = 1000 / self.rate;
        proof {
            lemma_fundamental_div_mod(1000int, self.rate as int);
            assert(sub * step <= (self.rate - 1) * step) by (nonlinear_arith)
                requires
                    sub <= self.rate - 1,
                    step >= 0,
            ;
            assert((self.rate - 1) * step == self.rate * step - step) by (nonlinear_arith);
        }
        let nanos = (sub as u64) * (step as u64) * 1000000;
        (seconds as u64, nanos as u32)
    }
}

} // verus!
