//! Battery: charge, health, state and remaining times of the first battery.

use crate::float_bits::{F32Bits, F64Bits};
use vstd::prelude::*;

verus! {

/// The states in which a provider reports a battery.
#[derive(Clone, Copy, Debug, PartialEq, Eq, Structural)]
pub enum BatteryState {
    Unknown,
    Charging,
    Discharging,
    Empty,
    Full,
}

/// What the provider reports of one battery.
#[derive(Clone, Copy, Debug, PartialEq, Eq)]
pub struct BatteryReading {
    pub state: BatteryState,
    /// State of charge in percent.
    pub percentage: F32Bits,
    /// State of health in percent.
    pub health_percent: F32Bits,
    /// Minutes until empty, while discharging.
    pub time_to_empty_mins: Option<F64Bits>,
    /// Minutes until full, while charging.
    pub time_to_full_mins: Option<F64Bits>,
    pub cycle_count: Option<u32>,
}

/// How the search for a battery ended.
#[derive(Clone, Copy, Debug, PartialEq, Eq)]
pub enum BatteryProbe {
    /// No power manager is available.
    NoManager,
    /// The power manager could not list its devices.
    NotListed,
    /// The power manager lists no device.
    NoDevice,
    /// The first device could not be read.
    Unreadable,
    /// The first device was read.
    Found(BatteryReading),
}

/// The battery as it is shown.
#[derive(Clone, Debug, PartialEq, Eq)]
pub struct BatteryInfo {
    percentage: F32Bits,
    is_charging: bool,
    state: String,
    health_percent: F32Bits,
    time_to_empty_mins: Option<F64Bits>,
    time_to_full_mins: Option<F64Bits>,
    cycle_count: Option<u32>,
}

/// What a [`BatteryInfo`] holds.
pub struct BatteryInfoView {
    pub percentage: F32Bits,
    pub is_charging: bool,
    pub state: Seq<char>,
    pub health_percent: F32Bits,
    pub time_to_empty_mins: Option<F64Bits>,
    pub time_to_full_mins: Option<F64Bits>,
    pub cycle_count: Option<u32>,
}

/// The label under which a state is shown: one each for charging,
/// discharging and full, and the label for "unknown" for every other state.
pub open spec fn label_of(state: BatteryState) -> Seq<char> {
    match state {
        BatteryState::Charging => "充电中"@,
        BatteryState::Discharging => "放电中"@,
        BatteryState::Full => "已充满"@,
        _ => "未知"@,
    }
}

/// The label under which `state` is shown.
pub fn state_label(state: BatteryState) -> (label: &'static str)
    ensures
        label@ == label_of(state),
{
    match state {
        BatteryState::Charging => "充电中",
        BatteryState::Discharging => "放电中",
        BatteryState::Full => "已充满",
        _ => "未知",
    }
}

impl BatteryReading {
    /// The battery that this reading shows as. Whether it is charging is
    /// read off the state itself, not off the label.
    pub open spec fn projected(self) -> BatteryInfoView {
        BatteryInfoView {
            percentage: self.percentage,
            is_charging: self.state == BatteryState::Charging,
            state: label_of(self.state),
            health_percent: self.health_percent,
            time_to_empty_mins: self.time_to_empty_mins,
            time_to_full_mins: self.time_to_full_mins,
            cycle_count: self.cycle_count,
        }
    }
}

impl View for BatteryInfo {
    type V = BatteryInfoView;

    closed spec fn view(&self) -> BatteryInfoView {
        BatteryInfoView {
            percentage: self.percentage,
            is_charging: self.is_charging,
            state: self.state@,
            health_percent: self.health_percent,
            time_to_empty_mins: self.time_to_empty_mins,
            time_to_full_mins: self.time_to_full_mins,
            cycle_count: self.cycle_count,
        }
    }
}

impl BatteryInfo {
    /// Projects one reading.
    pub fn from_reading(reading: &BatteryReading) -> (battery: BatteryInfo)
        ensures
            battery@ == reading.projected(),
    {
        BatteryInfo {
            percentage: reading.percentage,
            is_charging: reading.state == BatteryState::Charging,
            state: state_label(reading.state).to_owned(),
            health_percent: reading.health_percent,
            time_to_empty_mins: reading.time_to_empty_mins,
            time_to_full_mins: reading.time_to_full_mins,
            cycle_count: reading.cycle_count,
        }
    }

    pub fn percentage(&self) -> (percentage: F32Bits)
        ensures
            percentage == self@.percentage,
    {
        self.percentage
    }

    pub fn is_charging(&self) -> (is_charging: bool)
        ensures
            is_charging == self@.is_charging,
    {
        self.is_charging
    }

    pub fn state(&self) -> (state: &String)
        ensures
            state@ == self@.state,
    {
        &self.state
    }

    pub fn health_percent(&self) -> (health_percent: F32Bits)
        ensures
            health_percent == self@.health_percent,
    {
        self.health_percent
    }

    pub fn time_to_empty_mins(&self) -> (minutes: Option<F64Bits>)
        ensures
            minutes == self@.time_to_empty_mins,
    {
        self.time_to_empty_mins
    }

    pub fn time_to_full_mins(&self) -> (minutes: Option<F64Bits>)
        ensures
            minutes == self@.time_to_full_mins,
    {
        self.time_to_full_mins
    }

    pub fn cycle_count(&self) -> (cycle_count: Option<u32>)
        ensures
            cycle_count == self@.cycle_count,
    {
        self.cycle_count
    }
}

/// The battery to show for the outcome of a search: the first device where
/// one was read, and none in every other case. Having no battery is an
/// ordinary outcome.
pub fn battery_info(probe: &BatteryProbe) -> (battery: Option<BatteryInfo>)
    ensures
        battery is Some <==> probe is Found,
        battery is Some ==> battery->0@ == probe->Found_0.projected(),
{
    match probe {
        BatteryProbe::Found(reading) => Some(BatteryInfo::from_reading(reading)),
        _ => None,
    }
}

/// The labels of charging, discharging and full differ from one another and
/// from the label for "unknown".
pub proof fn lemma_labels_differ()
    ensures
        label_of(BatteryState::Charging) != label_of(BatteryState::Discharging),
        label_of(BatteryState::Charging) != label_of(BatteryState::Full),
        label_of(BatteryState::Charging) != label_of(BatteryState::Unknown),
        label_of(BatteryState::Discharging) != label_of(BatteryState::Full),
        label_of(BatteryState::Discharging) != label_of(BatteryState::Unknown),
        label_of(BatteryState::Full) != label_of(BatteryState::Unknown),
{
    reveal_strlit("充电中");
    reveal_strlit("放电中");
    reveal_strlit("已充满");
    reveal_strlit("未知");
    assert("充电中"@[0] == '充');
    assert("放电中"@[0] == '放');
    assert("已充满"@[0] == '已');
    assert("未知"@[0] == '未');
}

/// A battery is shown as charging exactly when it carries the label of
/// charging.
pub proof fn lemma_charging_agrees_with_label(reading: BatteryReading)
    ensures
        reading.projected().is_charging <==> reading.projected().state == label_of(
            BatteryState::Charging,
        ),
{
    lemma_labels_differ();
}

} // verus!
