//! Disks: capacity, free and used space in gibibytes, and the used share.

use crate::ratio::{gibibytes, lemma_percentage_is_scaled_share, percentage, Fraction, Ratio, GIBIBYTE};
use vstd::prelude::*;

verus! {

/// What the operating system reports of one disk.
#[derive(Clone, Debug, PartialEq, Eq)]
pub struct DiskReading {
    pub name: String,
    pub mount_point: String,
    /// Capacity in bytes.
    pub total_space: u64,
    /// Free space in bytes.
    pub available_space: u64,
    pub file_system: String,
}

/// One disk as it is shown.
#[derive(Clone, Debug, PartialEq, Eq)]
pub struct DiskInfo {
    name: String,
    mount_point: String,
    total_gb: Ratio,
    used_gb: Ratio,
    available_gb: Ratio,
    usage_percent: Ratio,
    fs_type: String,
}

/// What a [`DiskInfo`] holds.
pub struct DiskInfoView {
    pub name: Seq<char>,
    pub mount_point: Seq<char>,
    pub total_gb: Fraction,
    pub used_gb: Fraction,
    pub available_gb: Fraction,
    pub usage_percent: Fraction,
    pub fs_type: Seq<char>,
}

impl DiskInfoView {
    /// The sizes are byte counts over the gibibyte, what is used is what is
    /// not free, and the usage is the used share of the capacity.
    pub open spec fn wf(self) -> bool {
        &&& 0 <= self.total_gb.num <= u64::MAX
        &&& 0 <= self.available_gb.num <= u64::MAX
        &&& self.total_gb.den == GIBIBYTE
        &&& self.available_gb.den == GIBIBYTE
        &&& self.used_gb == gibibytes(self.total_gb.num - self.available_gb.num)
        &&& self.usage_percent == percentage(self.used_gb.num, self.total_gb.num)
    }
}

impl DiskReading {
    /// The disk that this reading shows as.
    pub open spec fn projected(self) -> DiskInfoView {
        DiskInfoView {
            name: self.name@,
            mount_point: self.mount_point@,
            total_gb: gibibytes(self.total_space as int),
            used_gb: gibibytes(self.total_space - self.available_space),
            available_gb: gibibytes(self.available_space as int),
            usage_percent: percentage(
                self.total_space - self.available_space,
                self.total_space as int,
            ),
            fs_type: self.file_system@,
        }
    }
}

impl View for DiskInfo {
    type V = DiskInfoView;

    closed spec fn view(&self) -> DiskInfoView {
        DiskInfoView {
            name: self.name@,
            mount_point: self.mount_point@,
            total_gb: self.total_gb@,
            used_gb: self.used_gb@,
            available_gb: self.available_gb@,
            usage_percent: self.usage_percent@,
            fs_type: self.fs_type@,
        }
    }
}

impl DiskInfo {
    /// Projects one reading: sizes in gibibytes, used space as capacity less
    /// free space, and the usage in percent of the capacity, which is zero
    /// for a disk without capacity.
    pub fn from_reading(reading: &DiskReading) -> (disk: DiskInfo)
        ensures
            disk@ == reading.projected(),
            disk@.wf(),
    {
        let used: i128 = reading.total_space as i128 - reading.available_space as i128;
        DiskInfo {
            name: reading.name.clone(),
            mount_point: reading.mount_point.clone(),
            total_gb: Ratio::in_gibibytes(reading.total_space as i128),
            used_gb: Ratio::in_gibibytes(used),
            available_gb: Ratio::in_gibibytes(reading.available_space as i128),
            usage_percent: Ratio::percent_of(used, reading.total_space),
            fs_type: reading.file_system.clone(),
        }
    }

    pub fn name(&self) -> (name: &String)
        ensures
            name@ == self@.name,
    {
        &self.name
    }

    pub fn mount_point(&self) -> (mount_point: &String)
        ensures
            mount_point@ == self@.mount_point,
    {
        &self.mount_point
    }

    pub fn total_gb(&self) -> (total: Ratio)
        ensures
            total@ == self@.total_gb,
    {
        self.total_gb
    }

    pub fn used_gb(&self) -> (used: Ratio)
        ensures
            used@ == self@.used_gb,
    {
        self.used_gb
    }

    pub fn available_gb(&self) -> (available: Ratio)
        ensures
            available@ == self@.available_gb,
    {
        self.available_gb
    }

    pub fn usage_percent(&self) -> (usage: Ratio)
        ensures
            usage@ == self@.usage_percent,
    {
        self.usage_percent
    }

    pub fn fs_type(&self) -> (fs_type: &String)
        ensures
            fs_type@ == self@.fs_type,
    {
        &self.fs_type
    }
}

/// What each of `disks` holds, in order.
pub open spec fn disk_views(disks: Seq<DiskInfo>) -> Seq<DiskInfoView> {
    disks.map_values(|disk: DiskInfo| disk@)
}

/// The disks that `readings` show as, in order.
pub open spec fn projected_disks(readings: Seq<DiskReading>) -> Seq<DiskInfoView> {
    readings.map_values(|reading: DiskReading| reading.projected())
}

/// Projects every reading, keeping the order in which they were reported.
pub fn disk_list(readings: &Vec<DiskReading>) -> (disks: Vec<DiskInfo>)
    ensures
        disk_views(disks@) == projected_disks(readings@),
        forall|i: int| 0 <= i < disks.len() ==> (#[trigger] disks[i])@.wf(),
{
    let mut disks: Vec<DiskInfo> = Vec::new();
    let mut i: usize = 0;
    while i < readings.len()
        invariant
            i <= readings.len(),
            disks.len() == i,
            forall|k: int| 0 <= k < i ==> (#[trigger] disks[k])@ == readings[k].projected(),
            forall|k: int| 0 <= k < i ==> (#[trigger] disks[k])@.wf(),
        decreases readings.len() - i,
    {
        disks.push(DiskInfo::from_reading(&readings[i]));
        i += 1;
    }
    assert(disk_views(disks@) =~= projected_disks(readings@));
    disks
}

/// The usage of a disk without capacity is zero; that of any other disk is
/// its used size over its capacity, times 100.
pub proof fn lemma_disk_usage(disk: DiskInfoView)
    requires
        disk.wf(),
    ensures
        disk.total_gb.is_zero() ==> disk.usage_percent.is_zero(),
        !disk.total_gb.is_zero() ==> disk.usage_percent.same(
            disk.used_gb.over(disk.total_gb).times(100),
        ),
{
    if !disk.total_gb.is_zero() {
        lemma_percentage_is_scaled_share(disk.used_gb.num, disk.total_gb.num, GIBIBYTE as int);
    }
}

/// Free and used space add up to the capacity.
pub proof fn lemma_disk_space_adds_up(disk: DiskInfoView)
    requires
        disk.wf(),
    ensures
        disk.available_gb.plus(disk.used_gb).same(disk.total_gb),
{
    let a = disk.available_gb.num;
    let t = disk.total_gb.num;
    let g = GIBIBYTE as int;
    assert((a * g + (t - a) * g) * g == t * (g * g)) by (nonlinear_arith);
}

} // verus!
