//! Processor: model name, overall usage and the usage of each core.

use crate::float_bits::F32Bits;
use vstd::prelude::*;

verus! {

/// What the operating system reports of one core.
#[derive(Clone, Debug, PartialEq, Eq)]
pub struct CoreReading {
    pub brand: String,
    /// Usage in percent.
    pub usage: F32Bits,
}

/// The processor as it is shown.
#[derive(Clone, Debug, PartialEq, Eq)]
pub struct CpuInfo {
    name: String,
    usage: F32Bits,
    cores: usize,
    core_usages: Vec<F32Bits>,
}

/// What a [`CpuInfo`] holds.
pub struct CpuInfoView {
    pub name: Seq<char>,
    pub usage: F32Bits,
    pub cores: nat,
    pub core_usages: Seq<F32Bits>,
}

impl CpuInfoView {
    /// There is one usage for each core.
    pub open spec fn wf(self) -> bool {
        self.core_usages.len() == self.cores
    }
}

/// The usage of each of `cores`, in order.
pub open spec fn usages_of(cores: Seq<CoreReading>) -> Seq<F32Bits> {
    cores.map_values(|core: CoreReading| core.usage)
}

/// The processor that `cores` and the overall usage show as: named after
/// the first core, or not at all where no core is reported.
pub open spec fn cpu_of(cores: Seq<CoreReading>, usage: F32Bits) -> CpuInfoView {
    CpuInfoView {
        name: if cores.len() > 0 {
            cores[0].brand@
        } else {
            Seq::empty()
        },
        usage,
        cores: cores.len(),
        core_usages: usages_of(cores),
    }
}

impl View for CpuInfo {
    type V = CpuInfoView;

    closed spec fn view(&self) -> CpuInfoView {
        CpuInfoView {
            name: self.name@,
            usage: self.usage,
            cores: self.cores as nat,
            core_usages: self.core_usages@,
        }
    }
}

impl CpuInfo {
    /// Projects the cores and the overall usage.
    pub fn from_readings(cores: &Vec<CoreReading>, usage: F32Bits) -> (cpu: CpuInfo)
        ensures
            cpu@ == cpu_of(cores@, usage),
            cpu@.wf(),
            cpu@.core_usages.len() == cores.len(),
    {
        let name: String = if cores.len() > 0 {
            cores[0].brand.clone()
        } else {
            String::new()
        };
        let mut core_usages: Vec<F32Bits> = Vec::new();
        let mut i: usize = 0;
        while i < cores.len()
            invariant
                i <= cores.len(),
                core_usages.len() == i,
                forall|k: int| 0 <= k < i ==> #[trigger] core_usages[k] == cores[k].usage,
            decreases cores.len() - i,
        {
            core_usages.push(cores[i].usage);
            i += 1;
        }
        assert(core_usages@ =~= usages_of(cores@));
        CpuInfo { name, usage, cores: cores.len(), core_usages }
    }

    pub fn name(&self) -> (name: &String)
        ensures
            name@ == self@.name,
    {
        &self.name
    }

    pub fn usage(&self) -> (usage: F32Bits)
        ensures
            usage == self@.usage,
    {
        self.usage
    }

    pub fn cores(&self) -> (cores: usize)
        ensures
            cores == self@.cores,
    {
        self.cores
    }

    pub fn core_usages(&self) -> (core_usages: &Vec<F32Bits>)
        ensures
            core_usages@ == self@.core_usages,
    {
        &self.core_usages
    }
}

} // verus!
