//! Processes: the ten that use the processor most, highest usage first.

use crate::float_bits::F32Bits;
use crate::ranking::{
    is_ranking, kept, lemma_ranking_descends, lemma_ranking_starts_with_maximum,
    lemma_ranking_unique, precedes, rank_positions, selected,
};
use crate::ratio::{mebibytes, Fraction, Ratio};
use vstd::prelude::*;

verus! {

/// How many processes are shown.
pub const TOP_PROCESSES: usize = 10;

/// What the operating system reports of one process.
#[derive(Clone, Debug, PartialEq, Eq)]
pub struct ProcessReading {
    pub name: String,
    pub pid: u32,
    /// Processor usage in percent.
    pub cpu_usage: F32Bits,
    /// Memory in use, in bytes.
    pub memory: u64,
}

/// One process as it is shown.
#[derive(Clone, Debug, PartialEq, Eq)]
pub struct ProcessInfo {
    name: String,
    pid: u32,
    cpu_usage: F32Bits,
    memory_mb: Ratio,
}

/// What a [`ProcessInfo`] holds.
pub struct ProcessInfoView {
    pub name: Seq<char>,
    pub pid: u32,
    pub cpu_usage: F32Bits,
    pub memory_mb: Fraction,
}

impl ProcessReading {
    /// The process that this reading shows as.
    pub open spec fn projected(self) -> ProcessInfoView {
        ProcessInfoView {
            name: self.name@,
            pid: self.pid,
            cpu_usage: self.cpu_usage,
            memory_mb: mebibytes(self.memory as int),
        }
    }
}

impl View for ProcessInfo {
    type V = ProcessInfoView;

    closed spec fn view(&self) -> ProcessInfoView {
        ProcessInfoView {
            name: self.name@,
            pid: self.pid,
            cpu_usage: self.cpu_usage,
            memory_mb: self.memory_mb@,
        }
    }
}

impl ProcessInfo {
    /// Projects one reading: the memory in mebibytes, the rest as it is.
    pub fn from_reading(reading: &ProcessReading) -> (process: ProcessInfo)
        ensures
            process@ == reading.projected(),
    {
        ProcessInfo {
            name: reading.name.clone(),
            pid: reading.pid,
            cpu_usage: reading.cpu_usage,
            memory_mb: Ratio::in_mebibytes(reading.memory as i128),
        }
    }

    pub fn name(&self) -> (name: &String)
        ensures
            name@ == self@.name,
    {
        &self.name
    }

    pub fn pid(&self) -> (pid: u32)
        ensures
            pid == self@.pid,
    {
        self.pid
    }

    pub fn cpu_usage(&self) -> (cpu_usage: F32Bits)
        ensures
            cpu_usage == self@.cpu_usage,
    {
        self.cpu_usage
    }

    pub fn memory_mb(&self) -> (memory: Ratio)
        ensures
            memory@ == self@.memory_mb,
    {
        self.memory_mb
    }
}

/// What each of `processes` holds, in order.
pub open spec fn process_views(processes: Seq<ProcessInfo>) -> Seq<ProcessInfoView> {
    processes.map_values(|process: ProcessInfo| process@)
}

/// The processor usage of each of `readings`, in order.
pub open spec fn cpu_usages(readings: Seq<ProcessReading>) -> Seq<F32Bits> {
    readings.map_values(|reading: ProcessReading| reading.cpu_usage)
}

/// The processes that the readings at `picks` show as, in the order of
/// `picks`.
pub open spec fn picked(readings: Seq<ProcessReading>, picks: Seq<usize>) -> Seq<ProcessInfoView> {
    picks.map_values(|position: usize| readings[position as int].projected())
}

/// Whether `top` shows the processes of `readings` that use the processor
/// most, at most `limit` of them, highest usage first and, among equal
/// usages, in the order in which they were reported.
pub open spec fn is_top_list(
    readings: Seq<ProcessReading>,
    top: Seq<ProcessInfoView>,
    limit: nat,
) -> bool {
    exists|picks: Seq<usize>| #[trigger]
        is_ranking(cpu_usages(readings), picks, limit) && top == picked(readings, picks)
}

/// Copies the processor usage out of each reading.
fn usages_of(readings: &Vec<ProcessReading>) -> (usages: Vec<F32Bits>)
    ensures
        usages@ == cpu_usages(readings@),
{
    let mut usages: Vec<F32Bits> = Vec::new();
    let mut i: usize = 0;
    while i < readings.len()
        invariant
            i <= readings.len(),
            usages.len() == i,
            forall|k: int| 0 <= k < i ==> #[trigger] usages[k] == readings[k].cpu_usage,
        decreases readings.len() - i,
    {
        usages.push(readings[i].cpu_usage);
        i += 1;
    }
    assert(usages@ =~= cpu_usages(readings@));
    usages
}

/// Ranks all processes by processor usage and projects the first ten, or all
/// of them if there are fewer. No usage in the list is less than one that
/// follows it or than one that was left out. A usage that is not a number
/// counts as the lowest.
pub fn top_processes(readings: &Vec<ProcessReading>) -> (top: Vec<ProcessInfo>)
    ensures
        is_top_list(readings@, process_views(top@), TOP_PROCESSES as nat),
        top.len() == kept(readings.len() as nat, TOP_PROCESSES as nat),
{
    let usages: Vec<F32Bits> = usages_of(readings);
    let picks: Vec<usize> = rank_positions(&usages, TOP_PROCESSES);
    let mut top: Vec<ProcessInfo> = Vec::new();
    let mut i: usize = 0;
    while i < picks.len()
        invariant
            i <= picks.len(),
            top.len() == i,
            usages@ == cpu_usages(readings@),
            is_ranking(usages@, picks@, TOP_PROCESSES as nat),
            forall|k: int| 0 <= k < i ==> (#[trigger] top[k])@ == readings[picks[k] as int].projected(),
        decreases picks.len() - i,
    {
        top.push(ProcessInfo::from_reading(&readings[picks[i]]));
        i += 1;
    }
    assert(process_views(top@) =~= picked(readings@, picks@));
    top
}

/// The readings have one top list under a given limit.
pub proof fn lemma_top_list_unique(
    readings: Seq<ProcessReading>,
    first: Seq<ProcessInfoView>,
    second: Seq<ProcessInfoView>,
    limit: nat,
)
    requires
        is_top_list(readings, first, limit),
        is_top_list(readings, second, limit),
    ensures
        first == second,
{
    let usages = cpu_usages(readings);
    let a = choose|picks: Seq<usize>| #[trigger]
        is_ranking(usages, picks, limit) && first == picked(readings, picks);
    let b = choose|picks: Seq<usize>| #[trigger]
        is_ranking(usages, picks, limit) && second == picked(readings, picks);
    lemma_ranking_unique(usages, a, b, limit);
}

/// A top list holds `limit` processes, or all of them if there are fewer.
pub proof fn lemma_top_list_len(readings: Seq<ProcessReading>, top: Seq<ProcessInfoView>, limit: nat)
    requires
        is_top_list(readings, top, limit),
    ensures
        top.len() == kept(readings.len(), limit),
        top.len() <= limit,
{
}

/// A top list is in descending order of processor usage.
pub proof fn lemma_top_list_descends(
    readings: Seq<ProcessReading>,
    top: Seq<ProcessInfoView>,
    limit: nat,
)
    requires
        is_top_list(readings, top, limit),
    ensures
        forall|i: int, j: int|
            0 <= i < j < top.len() ==> !(#[trigger] top[i]).cpu_usage.spec_less_than(
                (#[trigger] top[j]).cpu_usage,
            ),
{
    let usages = cpu_usages(readings);
    let picks = choose|picks: Seq<usize>| #[trigger]
        is_ranking(usages, picks, limit) && top == picked(readings, picks);
    lemma_ranking_descends(usages, picks, limit);
    assert forall|i: int, j: int| 0 <= i < j < top.len() implies !(#[trigger] top[i]).cpu_usage.spec_less_than(
        (#[trigger] top[j]).cpu_usage,
    ) by {
        assert(top[i].cpu_usage == usages[picks[i] as int]);
        assert(top[j].cpu_usage == usages[picks[j] as int]);
    }
}

/// The first of a top list uses the processor most: no process at all has a
/// greater usage.
pub proof fn lemma_top_list_starts_with_maximum(
    readings: Seq<ProcessReading>,
    top: Seq<ProcessInfoView>,
    limit: nat,
)
    requires
        is_top_list(readings, top, limit),
        top.len() > 0,
    ensures
        forall|q: int|
            0 <= q < readings.len() ==> !top[0].cpu_usage.spec_less_than(
                (#[trigger] readings[q]).cpu_usage,
            ),
{
    let usages = cpu_usages(readings);
    let picks = choose|picks: Seq<usize>| #[trigger]
        is_ranking(usages, picks, limit) && top == picked(readings, picks);
    lemma_ranking_starts_with_maximum(usages, picks, limit);
    assert(top[0].cpu_usage == usages[picks[0] as int]);
    assert forall|q: int| 0 <= q < readings.len() implies !top[0].cpu_usage.spec_less_than(
        (#[trigger] readings[q]).cpu_usage,
    ) by {
        assert(usages[q] == readings[q].cpu_usage);
    }
}

/// Whatever uses the processor more than a process in a top list stands
/// before it in that list.
pub proof fn lemma_top_list_puts_higher_first(
    readings: Seq<ProcessReading>,
    top: Seq<ProcessInfoView>,
    limit: nat,
    i: int,
    q: int,
)
    requires
        is_top_list(readings, top, limit),
        0 <= i < top.len(),
        0 <= q < readings.len(),
        top[i].cpu_usage.spec_less_than(readings[q].cpu_usage),
    ensures
        exists|j: int| 0 <= j < i && #[trigger] top[j] == readings[q].projected(),
{
    let usages = cpu_usages(readings);
    let picks = choose|picks: Seq<usize>| #[trigger]
        is_ranking(usages, picks, limit) && top == picked(readings, picks);
    assert(top[i].cpu_usage == usages[picks[i] as int]);
    assert(usages[q] == readings[q].cpu_usage);
    if selected(picks, q) {
        let j = choose|j: int| 0 <= j < picks.len() && picks[j] == q;
        if j > i {
            assert(precedes(usages, picks[i] as int, picks[j] as int));
        }
        assert(top[j] == readings[q].projected());
    } else {
        assert(precedes(usages, picks[i] as int, q));
    }
}

} // verus!
