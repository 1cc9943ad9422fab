//! The order in which the provider is sampled.
//!
//! Processor usage is the difference between two samples, so a first read
//! says nothing. The provider is refreshed in full, left alone for a settling
//! interval, refreshed again for processor usage alone, and only then read.
//! The sampler hands these steps out one by one; whoever holds the provider
//! carries them out.

use vstd::prelude::*;

verus! {

/// The settling interval between the two processor samples, in milliseconds,
/// unless the caller sets another.
pub const SETTLE_MILLIS: u64 = 200;

/// One thing to do to the provider.
#[derive(Clone, Copy, Debug, PartialEq, Eq, Structural)]
pub enum SamplingStep {
    /// Refresh every domain.
    RefreshAll,
    /// Wait for this many milliseconds.
    Settle(u64),
    /// Refresh processor usage alone.
    RefreshCpuUsage,
    /// Read the figures out.
    Collect,
}

/// The steps of one sampling, in order.
pub open spec fn plan(settle_millis: u64) -> Seq<SamplingStep> {
    seq![
        SamplingStep::RefreshAll,
        SamplingStep::Settle(settle_millis),
        SamplingStep::RefreshCpuUsage,
        SamplingStep::Collect,
    ]
}

/// Hands out the steps of one sampling.
#[derive(Clone, Copy, Debug, PartialEq, Eq)]
pub struct Sampler {
    settle_millis: u64,
    taken: u8,
}

impl Sampler {
    /// The settling interval of this sampling.
    pub closed spec fn settle_millis(self) -> u64 {
        self.settle_millis
    }

    /// How many steps were handed out.
    pub closed spec fn taken(self) -> nat {
        self.taken as nat
    }

    /// The step that is handed out next: the first of the plan that was not
    /// handed out yet, and none once all were.
    pub open spec fn next_of(sampler: Sampler) -> Option<SamplingStep> {
        let steps = plan(sampler.settle_millis());
        if sampler.taken() < steps.len() {
            Some(steps[sampler.taken() as int])
        } else {
            None
        }
    }

    /// A sampling with the usual settling interval.
    pub fn new() -> (sampler: Sampler)
        ensures
            sampler.settle_millis() == SETTLE_MILLIS,
            sampler.taken() == 0,
    {
        Sampler { settle_millis: SETTLE_MILLIS, taken: 0 }
    }

    /// A sampling with a settling interval of the caller's choice.
    pub fn with_settle(settle_millis: u64) -> (sampler: Sampler)
        ensures
            sampler.settle_millis() == settle_millis,
            sampler.taken() == 0,
    {
        Sampler { settle_millis, taken: 0 }
    }

    /// The next step of the plan, until all were handed out.
    pub fn next_step(&mut self) -> (step: Option<SamplingStep>)
        ensures
            final(self).settle_millis() == old(self).settle_millis(),
            step == Self::next_of(*old(self)),
            final(self).taken() == if step is Some {
                old(self).taken() + 1
            } else {
                old(self).taken()
            },
    {
        let step: Option<SamplingStep> = if self.taken == 0 {
            Some(SamplingStep::RefreshAll)
        } else if self.taken == 1 {
            Some(SamplingStep::Settle(self.settle_millis))
        } else if self.taken == 2 {
            Some(SamplingStep::RefreshCpuUsage)
        } else if self.taken == 3 {
            Some(SamplingStep::Collect)
        } else {
            None
        };
        if self.taken < 4 {
            self.taken = self.taken + 1;
        }
        step
    }
}

} // verus!
