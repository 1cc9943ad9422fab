//! The full snapshot: every domain projected from one set of readings.

use crate::cpu::{cpu_of, CoreReading, CpuInfo, CpuInfoView};
use crate::disk::{disk_list, disk_views, projected_disks, DiskInfo, DiskInfoView, DiskReading};
use crate::float_bits::F32Bits;
use crate::memory::{memory_of, MemoryInfo, MemoryInfoView};
use crate::network::{
    interface_list, interface_views, projected_interfaces, InterfaceReading, NetworkInterface,
    NetworkInterfaceView,
};
use crate::overview::{overview_of, SystemOverview, SystemOverviewView};
use crate::process::{
    is_top_list, lemma_top_list_len, lemma_top_list_unique, process_views, top_processes,
    ProcessInfo, ProcessInfoView, ProcessReading, TOP_PROCESSES,
};
use crate::thermal::{
    informative, projected_temperatures, temp_views, temperature_list, SensorReading, TempInfo,
    TempInfoView,
};
use vstd::prelude::*;

verus! {

/// Everything that is read from the operating system for one snapshot. A
/// name that could not be read is absent, and a domain that could not be
/// read is empty.
#[derive(Clone, Debug, PartialEq, Eq)]
pub struct HostReadings {
    pub os_name: Option<String>,
    pub host_name: Option<String>,
    /// Seconds since the host started.
    pub uptime: u64,
    pub cores: Vec<CoreReading>,
    /// Usage of the processor as a whole, in percent.
    pub cpu_usage: F32Bits,
    /// Memory in bytes.
    pub total_memory: u64,
    /// Memory in use, in bytes.
    pub used_memory: u64,
    pub disks: Vec<DiskReading>,
    pub networks: Vec<InterfaceReading>,
    pub sensors: Vec<SensorReading>,
    pub processes: Vec<ProcessReading>,
}

/// The snapshot as it is shown.
#[derive(Clone, Debug, PartialEq, Eq)]
pub struct FullSystemInfo {
    overview: SystemOverview,
    cpu: CpuInfo,
    memory: MemoryInfo,
    disks: Vec<DiskInfo>,
    networks: Vec<NetworkInterface>,
    temperatures: Vec<TempInfo>,
    top_processes: Vec<ProcessInfo>,
}

/// What a [`FullSystemInfo`] holds.
pub struct FullSystemInfoView {
    pub overview: SystemOverviewView,
    pub cpu: CpuInfoView,
    pub memory: MemoryInfoView,
    pub disks: Seq<DiskInfoView>,
    pub networks: Seq<NetworkInterfaceView>,
    pub temperatures: Seq<TempInfoView>,
    pub top_processes: Seq<ProcessInfoView>,
}

impl FullSystemInfoView {
    /// Every part is well formed, and no more processes are shown than the
    /// top list holds.
    pub open spec fn wf(self) -> bool {
        &&& self.cpu.wf()
        &&& self.memory.wf()
        &&& forall|i: int| 0 <= i < self.disks.len() ==> (#[trigger] self.disks[i]).wf()
        &&& forall|i: int|
            0 <= i < self.temperatures.len() ==> (#[trigger] self.temperatures[i]).wf()
        &&& self.top_processes.len() <= TOP_PROCESSES
    }
}

/// Whether `info` is the snapshot that `readings` show as: each domain
/// projected in the order in which it was reported, the sensors without those
/// that say nothing, and the processes cut down to the top list.
pub open spec fn is_snapshot_of(readings: HostReadings, info: FullSystemInfoView) -> bool {
    &&& info.overview == overview_of(readings.os_name, readings.host_name, readings.uptime)
    &&& info.cpu == cpu_of(readings.cores@, readings.cpu_usage)
    &&& info.memory == memory_of(readings.total_memory, readings.used_memory)
    &&& info.disks == projected_disks(readings.disks@)
    &&& info.networks == projected_interfaces(readings.networks@)
    &&& info.temperatures == projected_temperatures(readings.sensors@)
    &&& is_top_list(readings.processes@, info.top_processes, TOP_PROCESSES as nat)
}

impl View for FullSystemInfo {
    type V = FullSystemInfoView;

    closed spec fn view(&self) -> FullSystemInfoView {
        FullSystemInfoView {
            overview: self.overview@,
            cpu: self.cpu@,
            memory: self.memory@,
            disks: disk_views(self.disks@),
            networks: interface_views(self.networks@),
            temperatures: temp_views(self.temperatures@),
            top_processes: process_views(self.top_processes@),
        }
    }
}

/// Assembles the snapshot from one set of readings. It never fails: a domain
/// without readings is shown empty.
pub fn collect_snapshot(readings: &HostReadings) -> (info: FullSystemInfo)
    ensures
        is_snapshot_of(*readings, info@),
        info@.wf(),
{
    let overview: SystemOverview = SystemOverview::new(
        &readings.os_name,
        &readings.host_name,
        readings.uptime,
    );
    let cpu: CpuInfo = CpuInfo::from_readings(&readings.cores, readings.cpu_usage);
    let memory: MemoryInfo = MemoryInfo::from_bytes(readings.total_memory, readings.used_memory);
    let disks: Vec<DiskInfo> = disk_list(&readings.disks);
    let networks: Vec<NetworkInterface> = interface_list(&readings.networks);
    let temperatures: Vec<TempInfo> = temperature_list(&readings.sensors);
    let top_processes: Vec<ProcessInfo> = top_processes(&readings.processes);
    FullSystemInfo { overview, cpu, memory, disks, networks, temperatures, top_processes }
}

impl FullSystemInfo {
    pub fn overview(&self) -> (overview: &SystemOverview)
        ensures
            overview@ == self@.overview,
    {
        &self.overview
    }

    pub fn cpu(&self) -> (cpu: &CpuInfo)
        ensures
            cpu@ == self@.cpu,
    {
        &self.cpu
    }

    pub fn memory(&self) -> (memory: &MemoryInfo)
        ensures
            memory@ == self@.memory,
    {
        &self.memory
    }

    pub fn disks(&self) -> (disks: &Vec<DiskInfo>)
        ensures
            disk_views(disks@) == self@.disks,
    {
        &self.disks
    }

    pub fn networks(&self) -> (networks: &Vec<NetworkInterface>)
        ensures
            interface_views(networks@) == self@.networks,
    {
        &self.networks
    }

    pub fn temperatures(&self) -> (temperatures: &Vec<TempInfo>)
        ensures
            temp_views(temperatures@) == self@.temperatures,
    {
        &self.temperatures
    }

    pub fn top_processes(&self) -> (top_processes: &Vec<ProcessInfo>)
        ensures
            process_views(top_processes@) == self@.top_processes,
    {
        &self.top_processes
    }
}

/// One set of readings shows as one snapshot: taken twice from the same
/// readings, it is the same.
pub proof fn lemma_snapshot_unique(
    readings: HostReadings,
    first: FullSystemInfoView,
    second: FullSystemInfoView,
)
    requires
        is_snapshot_of(readings, first),
        is_snapshot_of(readings, second),
    ensures
        first == second,
{
    lemma_top_list_unique(
        readings.processes@,
        first.top_processes,
        second.top_processes,
        TOP_PROCESSES as nat,
    );
}

/// Whether two sets of readings come from the same hardware: as many cores,
/// disks, interfaces and processes, and the same sensors saying something.
pub open spec fn same_hardware(first: HostReadings, second: HostReadings) -> bool {
    &&& first.cores@.len() == second.cores@.len()
    &&& first.disks@.len() == second.disks@.len()
    &&& first.networks@.len() == second.networks@.len()
    &&& first.processes@.len() == second.processes@.len()
    &&& first.sensors@.len() == second.sensors@.len()
    &&& forall|i: int|
        0 <= i < first.sensors@.len() ==> (#[trigger] first.sensors@[i]).is_informative()
            == second.sensors@[i].is_informative()
}

/// Whether two snapshots have the same shape: collections of the same
/// lengths.
pub open spec fn same_shape(first: FullSystemInfoView, second: FullSystemInfoView) -> bool {
    &&& first.cpu.cores == second.cpu.cores
    &&& first.cpu.core_usages.len() == second.cpu.core_usages.len()
    &&& first.disks.len() == second.disks.len()
    &&& first.networks.len() == second.networks.len()
    &&& first.temperatures.len() == second.temperatures.len()
    &&& first.top_processes.len() == second.top_processes.len()
}

/// Readings that agree on which sensors say something show as many sensors.
proof fn lemma_informative_count(first: Seq<SensorReading>, second: Seq<SensorReading>)
    requires
        first.len() == second.len(),
        forall|i: int|
            0 <= i < first.len() ==> (#[trigger] first[i]).is_informative()
                == second[i].is_informative(),
    ensures
        informative(first).len() == informative(second).len(),
    decreases first.len(),
{
    if first.len() > 0 {
        let a = first.drop_last();
        let b = second.drop_last();
        assert forall|i: int| 0 <= i < a.len() implies (#[trigger] a[i]).is_informative()
            == b[i].is_informative() by {
            assert(a[i] == first[i]);
            assert(first[i].is_informative() == second[i].is_informative());
        }
        lemma_informative_count(a, b);
        assert(first =~= a.push(first.last()));
        assert(second =~= b.push(second.last()));
        a.lemma_filter_push(first.last(), |reading: SensorReading| reading.is_informative());
        b.lemma_filter_push(second.last(), |reading: SensorReading| reading.is_informative());
        assert(first[first.len() - 1].is_informative() == second[first.len() - 1].is_informative());
    } else {
        assert(first =~= second);
    }
}

/// Snapshots of the same hardware have the same shape, whatever the figures
/// are.
pub proof fn lemma_same_hardware_same_shape(
    first: HostReadings,
    second: HostReadings,
    first_info: FullSystemInfoView,
    second_info: FullSystemInfoView,
)
    requires
        is_snapshot_of(first, first_info),
        is_snapshot_of(second, second_info),
        same_hardware(first, second),
    ensures
        same_shape(first_info, second_info),
{
    lemma_informative_count(first.sensors@, second.sensors@);
    lemma_top_list_len(first.processes@, first_info.top_processes, TOP_PROCESSES as nat);
    lemma_top_list_len(second.processes@, second_info.top_processes, TOP_PROCESSES as nat);
}

} // verus!
