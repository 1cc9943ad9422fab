use host_snapshot::float_bits::F32Bits;
use host_snapshot::process::{top_processes, ProcessInfo, ProcessReading, TOP_PROCESSES};
use host_snapshot::ratio::Ratio;

fn process(pid: u32, usage: f32) -> ProcessReading {
    ProcessReading {
        name: format!("proc-{pid}"),
        pid,
        cpu_usage: F32Bits::from_bits(usage.to_bits()),
        memory: 1_048_576 * pid as u64,
    }
}

fn usage(info: &ProcessInfo) -> f32 {
    f32::from_bits(info.cpu_usage().to_bits())
}

fn fifteen() -> Vec<ProcessReading> {
    let usages: [f32; 15] =
        [5.0, 90.0, 3.0, 99.5, 1.0, 12.0, 0.0, 45.5, 7.25, 33.0, 2.0, 64.0, 0.5, 18.0, 81.0];
    usages.iter().enumerate().map(|(i, u)| process(i as u32 + 1, *u)).collect()
}

#[test]
fn top_list_limit_is_ten() {
    assert_eq!(TOP_PROCESSES, 10);
}

#[test]
fn process_memory_is_in_mebibytes() {
    let info = ProcessInfo::from_reading(&process(3, 1.5));
    assert_eq!(info.name(), "proc-3");
    assert_eq!(info.pid(), 3);
    assert_eq!(usage(&info), 1.5);
    assert_eq!(info.memory_mb(), Ratio::in_mebibytes(3 * 1_048_576));
    assert_eq!(info.memory_mb().numerator() as f64 / info.memory_mb().denominator() as f64, 3.0);
}

#[test]
fn top_processes_of_fifteen_are_the_ten_highest_in_descending_order() {
    let readings = fifteen();
    let top = top_processes(&readings);
    assert_eq!(top.len(), 10);
    let shown: Vec<f32> = top.iter().map(usage).collect();
    assert_eq!(shown, vec![99.5, 90.0, 81.0, 64.0, 45.5, 33.0, 18.0, 12.0, 7.25, 5.0]);
    let pids: Vec<u32> = top.iter().map(|info| info.pid()).collect();
    assert_eq!(pids, vec![4, 2, 15, 12, 8, 10, 14, 6, 9, 1]);
}

#[test]
fn top_processes_start_with_the_maximum() {
    let readings = fifteen();
    let top = top_processes(&readings);
    let maximum = readings
        .iter()
        .map(|reading| f32::from_bits(reading.cpu_usage.to_bits()))
        .fold(f32::MIN, f32::max);
    assert_eq!(usage(&top[0]), maximum);
    assert_eq!(usage(&top[0]), 99.5);
}

#[test]
fn top_processes_never_rise() {
    let top = top_processes(&fifteen());
    for pair in top.windows(2) {
        assert!(usage(&pair[0]) >= usage(&pair[1]));
    }
}

#[test]
fn top_processes_of_fewer_than_ten_are_all_of_them() {
    let readings = vec![process(1, 2.0), process(2, 8.0), process(3, 4.0)];
    let top = top_processes(&readings);
    let pids: Vec<u32> = top.iter().map(|info| info.pid()).collect();
    assert_eq!(pids, vec![2, 3, 1]);
}

#[test]
fn top_processes_of_nothing_are_none() {
    assert!(top_processes(&Vec::new()).is_empty());
}

#[test]
fn top_processes_of_exactly_ten_are_all_ten() {
    let readings: Vec<ProcessReading> = (1..=10).map(|pid| process(pid, pid as f32)).collect();
    let top = top_processes(&readings);
    let pids: Vec<u32> = top.iter().map(|info| info.pid()).collect();
    assert_eq!(pids, vec![10, 9, 8, 7, 6, 5, 4, 3, 2, 1]);
}

#[test]
fn top_processes_with_equal_usage_stay_in_reported_order() {
    let readings: Vec<ProcessReading> = (1..=12).map(|pid| process(pid, 1.0)).collect();
    let top = top_processes(&readings);
    let pids: Vec<u32> = top.iter().map(|info| info.pid()).collect();
    assert_eq!(pids, vec![1, 2, 3, 4, 5, 6, 7, 8, 9, 10]);
}

#[test]
fn top_processes_survive_usages_that_are_no_numbers() {
    let mut readings = fifteen();
    readings[3] = process(4, f32::NAN);
    readings[7] = process(8, f32::NAN);
    let top = top_processes(&readings);
    assert_eq!(top.len(), 10);
    let shown: Vec<f32> = top.iter().map(usage).collect();
    assert_eq!(shown, vec![90.0, 81.0, 64.0, 33.0, 18.0, 12.0, 7.25, 5.0, 3.0, 2.0]);
}

#[test]
fn top_processes_show_what_is_no_number_only_for_want_of_numbers() {
    let readings = vec![process(1, f32::NAN), process(2, 0.0), process(3, f32::NAN)];
    let top = top_processes(&readings);
    let pids: Vec<u32> = top.iter().map(|info| info.pid()).collect();
    assert_eq!(pids, vec![2, 1, 3]);
}

#[test]
fn top_processes_are_projections_of_their_readings() {
    let readings = fifteen();
    let top = top_processes(&readings);
    assert_eq!(top[0], ProcessInfo::from_reading(&readings[3]));
    assert_eq!(top[9], ProcessInfo::from_reading(&readings[0]));
}
