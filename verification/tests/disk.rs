use host_snapshot::disk::{disk_list, DiskInfo, DiskReading};
use host_snapshot::ratio::Ratio;

const GIB: u64 = 1_073_741_824;

fn reading(name: &str, total: u64, available: u64) -> DiskReading {
    DiskReading {
        name: name.to_string(),
        mount_point: format!("/mnt/{name}"),
        total_space: total,
        available_space: available,
        file_system: "ext4".to_string(),
    }
}

fn value(ratio: Ratio) -> f64 {
    ratio.numerator() as f64 / ratio.denominator() as f64
}

#[test]
fn disk_sizes_are_in_gibibytes() {
    let disk = DiskInfo::from_reading(&reading("sda", 8 * GIB, 2 * GIB));
    assert_eq!(disk.name(), "sda");
    assert_eq!(disk.mount_point(), "/mnt/sda");
    assert_eq!(disk.fs_type(), "ext4");
    assert_eq!(value(disk.total_gb()), 8.0);
    assert_eq!(value(disk.available_gb()), 2.0);
    assert_eq!(value(disk.used_gb()), 6.0);
    assert_eq!(value(disk.usage_percent()), 75.0);
}

#[test]
fn disk_figures_are_exact() {
    let disk = DiskInfo::from_reading(&reading("sdb", 1000, 250));
    assert_eq!(disk.total_gb(), Ratio::in_gibibytes(1000));
    assert_eq!(disk.available_gb(), Ratio::in_gibibytes(250));
    assert_eq!(disk.used_gb(), Ratio::in_gibibytes(750));
    assert_eq!(disk.usage_percent().numerator(), 75_000);
    assert_eq!(disk.usage_percent().denominator(), 1000);
}

#[test]
fn disk_without_capacity_is_zero_percent_used() {
    let disk = DiskInfo::from_reading(&reading("empty", 0, 0));
    assert_eq!(disk.usage_percent().numerator(), 0);
    assert_eq!(value(disk.usage_percent()), 0.0);
    assert_eq!(value(disk.total_gb()), 0.0);
}

#[test]
fn disk_free_and_used_add_up_to_capacity() {
    for (total, available) in [(10 * GIB, 3 * GIB), (12_345, 678), (u64::MAX, 1), (5, 5), (7, 0)] {
        let disk = DiskInfo::from_reading(&reading("d", total, available));
        assert_eq!(
            disk.available_gb().numerator() + disk.used_gb().numerator(),
            disk.total_gb().numerator()
        );
        assert_eq!(disk.available_gb().denominator(), disk.total_gb().denominator());
        assert_eq!(disk.used_gb().denominator(), disk.total_gb().denominator());
    }
}

#[test]
fn disk_usage_is_used_over_total_times_hundred() {
    for (total, available) in [(10 * GIB, 3 * GIB), (12_345, 678), (u64::MAX, 1), (5, 5), (7, 0)] {
        let disk = DiskInfo::from_reading(&reading("d", total, available));
        let expected = value(disk.used_gb()) / value(disk.total_gb()) * 100.0;
        let usage = value(disk.usage_percent());
        assert!((usage - expected).abs() <= 1e-6 * expected.abs(), "{usage} against {expected}");
    }
}

#[test]
fn disk_reporting_more_free_than_capacity_has_negative_use() {
    let disk = DiskInfo::from_reading(&reading("odd", 4, 6));
    assert_eq!(disk.used_gb().numerator(), -2);
    assert_eq!(disk.usage_percent().numerator(), -200);
    assert_eq!(disk.usage_percent().denominator(), 4);
    assert_eq!(disk.available_gb().numerator() + disk.used_gb().numerator(), 4);
}

#[test]
fn disk_list_keeps_the_reported_order() {
    let readings = vec![reading("b", 4, 1), reading("a", 8, 2), reading("c", 0, 0)];
    let disks = disk_list(&readings);
    assert_eq!(disks.len(), 3);
    assert_eq!(disks[0].name(), "b");
    assert_eq!(disks[1].name(), "a");
    assert_eq!(disks[2].name(), "c");
    assert_eq!(disks[1], DiskInfo::from_reading(&readings[1]));
}

#[test]
fn disk_list_of_nothing_is_empty() {
    assert!(disk_list(&Vec::new()).is_empty());
}
