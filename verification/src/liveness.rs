//! The liveness signaler: the periodic "typing" indicator's bookkeeping.
//!
//! While a flow's network-bound work is in flight, a signaler loop waits a
//! fixed interval and then attempts one indicator emission, over and over;
//! the loop never ends on its own and is abandoned the instant the owning
//! flow resolves. The struct below is the loop's verified bookkeeping: the
//! first attempt can only come after the first full interval, and no
//! interval licenses more than one attempt. A failed emission is recorded
//! like a successful one and is never fatal to the loop or the flow.
use vstd::prelude::*;

verus! {

/// Seconds the signaler waits before each indicator attempt.
pub const INDICATOR_INTERVAL_SECONDS: u64 = 5;

/// The bookkeeping of one signaler, bound to one chat target and one flow.
pub struct LivenessSignaler {
    /// Full wait intervals that have elapsed since the flow began.
    pub intervals_elapsed: u64,
    /// Indicator emissions attempted so far, failed ones included.
    pub indicators_attempted: u64,
}

impl LivenessSignaler {
    /// Holds at every point of a signaler's run: each elapsed interval
    /// licenses at most one indicator attempt.
    pub open spec fn wf(&self) -> bool {
        self.indicators_attempted <= self.intervals_elapsed
    }

    /// Spawns the bookkeeping for a flow that just began: nothing has
    /// elapsed, nothing has been emitted.
    pub fn new() -> (signaler: Self)
        ensures
            signaler.wf(),
            signaler.intervals_elapsed == 0,
            signaler.indicators_attempted == 0,
    {
        LivenessSignaler { intervals_elapsed: 0, indicators_attempted: 0 }
    }

    /// One full wait interval ended; one more indicator attempt is now due.
    pub fn interval_elapsed(&mut self)
        requires
            old(self).wf(),
            old(self).intervals_elapsed < u64::MAX,
        ensures
            final(self).wf(),
            final(self).intervals_elapsed == old(self).intervals_elapsed + 1,
            final(self).indicators_attempted == old(self).indicators_attempted,
    {
        self.intervals_elapsed = self.intervals_elapsed + 1;
    }

    /// One indicator emission was attempted, successfully or not; only an
    /// elapsed interval that has not yet been answered licenses it.
    pub fn indicator_attempted(&mut self)
        requires
            old(self).wf(),
            old(self).indicators_attempted < old(self).intervals_elapsed,
        ensures
            final(self).wf(),
            final(self).indicators_attempted == old(self).indicators_attempted + 1,
            final(self).intervals_elapsed == old(self).intervals_elapsed,
    {
        self.indicators_attempted = self.indicators_attempted + 1;
    }
}

/// The signaler emits zero indicator events if the racing flow completes
/// before the first interval elapses, and at most one per elapsed interval
/// thereafter.
pub proof fn lemma_liveness_emission_bound(signaler: LivenessSignaler)
    requires
        signaler.wf(),
    ensures
        signaler.indicators_attempted <= signaler.intervals_elapsed,
        signaler.intervals_elapsed == 0 ==> signaler.indicators_attempted == 0,
{
}

} // verus!
