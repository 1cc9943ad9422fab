use host_snapshot::battery::{
    battery_info, state_label, BatteryInfo, BatteryProbe, BatteryReading, BatteryState,
};
use host_snapshot::float_bits::{F32Bits, F64Bits};

fn reading(state: BatteryState) -> BatteryReading {
    BatteryReading {
        state,
        percentage: F32Bits::from_bits(87.5f32.to_bits()),
        health_percent: F32Bits::from_bits(96.0f32.to_bits()),
        time_to_empty_mins: Some(F64Bits::from_bits(142.5f64.to_bits())),
        time_to_full_mins: None,
        cycle_count: Some(311),
    }
}

#[test]
fn charging_battery_is_labelled_and_flagged_as_charging() {
    let info = BatteryInfo::from_reading(&reading(BatteryState::Charging));
    assert_eq!(info.state(), "充电中");
    assert!(info.is_charging());
}

#[test]
fn discharging_battery_is_not_charging() {
    let info = BatteryInfo::from_reading(&reading(BatteryState::Discharging));
    assert_eq!(info.state(), "放电中");
    assert!(!info.is_charging());
}

#[test]
fn full_battery_is_labelled_full() {
    let info = BatteryInfo::from_reading(&reading(BatteryState::Full));
    assert_eq!(info.state(), "已充满");
    assert!(!info.is_charging());
}

#[test]
fn every_other_state_is_labelled_unknown() {
    for state in [BatteryState::Unknown, BatteryState::Empty] {
        let info = BatteryInfo::from_reading(&reading(state));
        assert_eq!(info.state(), "未知");
        assert!(!info.is_charging());
    }
}

#[test]
fn state_labels_are_the_four_fixed_ones() {
    assert_eq!(state_label(BatteryState::Charging), "充电中");
    assert_eq!(state_label(BatteryState::Discharging), "放电中");
    assert_eq!(state_label(BatteryState::Full), "已充满");
    assert_eq!(state_label(BatteryState::Empty), "未知");
    assert_eq!(state_label(BatteryState::Unknown), "未知");
}

#[test]
fn charging_flag_and_label_agree_for_every_state() {
    for state in [
        BatteryState::Unknown,
        BatteryState::Charging,
        BatteryState::Discharging,
        BatteryState::Empty,
        BatteryState::Full,
    ] {
        let info = BatteryInfo::from_reading(&reading(state));
        assert_eq!(info.is_charging(), info.state() == state_label(BatteryState::Charging));
    }
}

#[test]
fn battery_figures_are_carried_through() {
    let info = BatteryInfo::from_reading(&reading(BatteryState::Discharging));
    assert_eq!(f32::from_bits(info.percentage().to_bits()), 87.5);
    assert_eq!(f32::from_bits(info.health_percent().to_bits()), 96.0);
    assert_eq!(info.time_to_empty_mins().map(|m| f64::from_bits(m.to_bits())), Some(142.5));
    assert_eq!(info.time_to_full_mins(), None);
    assert_eq!(info.cycle_count(), Some(311));
}

#[test]
fn found_battery_is_shown() {
    let found = reading(BatteryState::Charging);
    assert_eq!(battery_info(&BatteryProbe::Found(found)), Some(BatteryInfo::from_reading(&found)));
}

#[test]
fn no_battery_is_an_ordinary_outcome() {
    assert_eq!(battery_info(&BatteryProbe::NoDevice), None);
}

#[test]
fn every_failed_search_shows_no_battery() {
    for probe in [BatteryProbe::NoManager, BatteryProbe::NotListed, BatteryProbe::Unreadable] {
        assert_eq!(battery_info(&probe), None);
    }
}
