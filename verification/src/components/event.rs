//! Soft-interrupt bridge: lets an interrupt-context producer request that a
//! specific task run soon, independent of — but rate-limited against — the
//! normal tick cadence.  Bursts of notifications before the next run
//! coalesce into a single pending run request.

use vstd::prelude::*;
use crate::components::schedule::{Rate, Schedulable};

verus! {

/// The capability an interrupt-context producer invokes after publishing
/// data, to request an out-of-band run of the task that consumes it.
pub trait Notify {
    fn notify(&mut self);
}

/// Wraps one target task with a maximum-rate limiter driven by `notify`
/// calls.  Registered in a scheduler under its own `rate`, it runs the
/// target at most once per due tick, and only when a notification is
/// pending; extra notifications arriving faster are coalesced, not queued.
pub struct RateLimiter<T: Schedulable> {
    pub target: T,
    pub rate: Rate,
    pub pending: bool,
}

impl<T: Schedulable> RateLimiter<T> {
    /// A limiter for `target`, to run at most `rate` times per second; no
    /// run is pending yet.
    pub fn new(target: T, rate: Rate) -> (r: Self)
        ensures
            r.target == target,
            r.rate == rate,
            !r.pending,
    {
        Self { target, rate, pending: false }
    }
}

impl<T: Schedulable> Notify for RateLimiter<T> {
    /// Record that an execution is desired; idempotent under bursts.
    fn notify(&mut self)
        ensures
            final(self).pending,
            final(self).target == old(self).target,
            final(self).rate == old(self).rate,
    {
        self.pending = true;
    }
}

impl<T: Schedulable> Schedulable for RateLimiter<T> {
    open spec fn inv(&self) -> bool {
        self.target.inv()
    }

    open spec fn rate_spec(&self) -> Rate {
        self.rate
    }

    open spec fn done(&self) -> bool {
        true
    }

    fn pre_schedule(&mut self) {
    }

    /// Run the target once if a notification is pending, and keep the
    /// request pending when the target reports incompletion; without a
    /// pending notification the target is left untouched.
    fn schedule(&mut self) -> (r: bool)
        ensures
            final(self).rate == old(self).rate,
            !old(self).pending ==> *final(self) == *old(self),
            old(self).pending ==> final(self).pending == !old(self).target.done(),
    {
        if self.pending {
            let completed = self.target.schedule();
            self.pending = !completed;
        }
        true
    }

    fn post_schedule(&mut self) {
    }

    fn rate(&self) -> Rate {
        self.rate
    }
}

} // verus!
