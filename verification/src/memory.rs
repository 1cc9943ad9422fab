//! Memory: total and used size in gibibytes, and the used share.

use crate::ratio::{
    gibibytes, lemma_percentage_bounded, lemma_percentage_is_scaled_share, percentage, Fraction,
    Ratio, GIBIBYTE,
};
use vstd::prelude::*;

verus! {

/// Memory as it is shown.
#[derive(Clone, Copy, Debug, PartialEq, Eq)]
pub struct MemoryInfo {
    total_gb: Ratio,
    used_gb: Ratio,
    usage_percent: Ratio,
}

/// What a [`MemoryInfo`] holds.
pub struct MemoryInfoView {
    pub total_gb: Fraction,
    pub used_gb: Fraction,
    pub usage_percent: Fraction,
}

impl MemoryInfoView {
    /// The sizes are byte counts over the gibibyte, and the usage is the used
    /// share of the total.
    pub open spec fn wf(self) -> bool {
        &&& 0 <= self.total_gb.num <= u64::MAX
        &&& 0 <= self.used_gb.num <= u64::MAX
        &&& self.total_gb.den == GIBIBYTE
        &&& self.used_gb.den == GIBIBYTE
        &&& self.usage_percent == percentage(self.used_gb.num, self.total_gb.num)
    }
}

/// The memory figures for `total` bytes of which `used` are in use.
pub open spec fn memory_of(total: u64, used: u64) -> MemoryInfoView {
    MemoryInfoView {
        total_gb: gibibytes(total as int),
        used_gb: gibibytes(used as int),
        usage_percent: percentage(used as int, total as int),
    }
}

impl View for MemoryInfo {
    type V = MemoryInfoView;

    closed spec fn view(&self) -> MemoryInfoView {
        MemoryInfoView {
            total_gb: self.total_gb@,
            used_gb: self.used_gb@,
            usage_percent: self.usage_percent@,
        }
    }
}

impl MemoryInfo {
    /// Projects the two byte counts: both in gibibytes, and the usage in
    /// percent of the total, which is zero where no memory is reported.
    pub fn from_bytes(total: u64, used: u64) -> (memory: MemoryInfo)
        ensures
            memory@ == memory_of(total, used),
            memory@.wf(),
    {
        MemoryInfo {
            total_gb: Ratio::in_gibibytes(total as i128),
            used_gb: Ratio::in_gibibytes(used as i128),
            usage_percent: Ratio::percent_of(used as i128, total),
        }
    }

    pub fn total_gb(&self) -> (total: Ratio)
        ensures
            total@ == self@.total_gb,
    {
        self.total_gb
    }

    pub fn used_gb(&self) -> (used: Ratio)
        ensures
            used@ == self@.used_gb,
    {
        self.used_gb
    }

    pub fn usage_percent(&self) -> (usage: Ratio)
        ensures
            usage@ == self@.usage_percent,
    {
        self.usage_percent
    }
}

/// Where any memory is reported, the usage is the used size over the total
/// size, times 100; where none is, it is zero.
pub proof fn lemma_memory_usage(memory: MemoryInfoView)
    requires
        memory.wf(),
    ensures
        memory.total_gb.is_zero() ==> memory.usage_percent.is_zero(),
        !memory.total_gb.is_zero() ==> memory.usage_percent.same(
            memory.used_gb.over(memory.total_gb).times(100),
        ),
{
    if !memory.total_gb.is_zero() {
        lemma_percentage_is_scaled_share(memory.used_gb.num, memory.total_gb.num, GIBIBYTE as int);
    }
}

/// Memory of which no more than the total is in use is between 0 and 100
/// percent used.
pub proof fn lemma_memory_usage_bounded(memory: MemoryInfoView)
    requires
        memory.wf(),
        memory.used_gb.num <= memory.total_gb.num,
    ensures
        memory.usage_percent.den > 0,
        memory.usage_percent.within(0, 100),
{
    lemma_percentage_bounded(memory.used_gb.num, memory.total_gb.num);
}

} // verus!
