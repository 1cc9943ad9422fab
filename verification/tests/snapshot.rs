use host_snapshot::cpu::{CoreReading, CpuInfo};
use host_snapshot::disk::{disk_list, DiskReading};
use host_snapshot::float_bits::F32Bits;
use host_snapshot::memory::MemoryInfo;
use host_snapshot::network::{interface_list, InterfaceReading};
use host_snapshot::overview::SystemOverview;
use host_snapshot::process::{top_processes, ProcessReading};
use host_snapshot::snapshot::{collect_snapshot, HostReadings};
use host_snapshot::thermal::{temperature_list, SensorReading};

fn bits(value: f32) -> F32Bits {
    F32Bits::from_bits(value.to_bits())
}

fn readings(scale: f32) -> HostReadings {
    HostReadings {
        os_name: Some("Linux 6.1".to_string()),
        host_name: Some("box".to_string()),
        uptime: 3_600,
        cores: (0..4)
            .map(|i| CoreReading { brand: "Alpha 9".to_string(), usage: bits(scale * i as f32) })
            .collect(),
        cpu_usage: bits(scale * 1.5),
        total_memory: 16 * 1_073_741_824,
        used_memory: 4 * 1_073_741_824,
        disks: vec![DiskReading {
            name: "sda".to_string(),
            mount_point: "/".to_string(),
            total_space: 1_000_000,
            available_space: 400_000,
            file_system: "ext4".to_string(),
        }],
        networks: vec![InterfaceReading {
            name: "eth0".to_string(),
            total_received: 10,
            total_transmitted: 20,
            mac_address: [0xaa, 0xbb, 0xcc, 0x00, 0x11, 0x22],
            ip_addresses: vec!["10.0.0.2".to_string()],
        }],
        sensors: vec![
            SensorReading { label: "core".to_string(), temperature: Some(bits(40.0 + scale)) },
            SensorReading { label: "dead".to_string(), temperature: Some(bits(0.0)) },
            SensorReading { label: "lost".to_string(), temperature: None },
        ],
        processes: (1..=13)
            .map(|pid| ProcessReading {
                name: format!("p{pid}"),
                pid,
                cpu_usage: bits(scale * ((pid * 7) % 13) as f32),
                memory: 1_048_576,
            })
            .collect(),
    }
}

#[test]
fn snapshot_projects_every_domain() {
    let readings = readings(1.0);
    let info = collect_snapshot(&readings);
    assert_eq!(
        info.overview(),
        &SystemOverview::new(&readings.os_name, &readings.host_name, readings.uptime)
    );
    assert_eq!(info.cpu(), &CpuInfo::from_readings(&readings.cores, readings.cpu_usage));
    assert_eq!(
        info.memory(),
        &MemoryInfo::from_bytes(readings.total_memory, readings.used_memory)
    );
    assert_eq!(info.disks(), &disk_list(&readings.disks));
    assert_eq!(info.networks(), &interface_list(&readings.networks));
    assert_eq!(info.temperatures(), &temperature_list(&readings.sensors));
    assert_eq!(info.top_processes(), &top_processes(&readings.processes));
}

#[test]
fn snapshot_shows_what_the_readings_say() {
    let info = collect_snapshot(&readings(1.0));
    assert_eq!(info.overview().host_name(), "box");
    assert_eq!(info.cpu().cores(), 4);
    assert_eq!(info.cpu().core_usages().len(), 4);
    assert_eq!(info.memory().usage_percent().numerator(), 400 * 1_073_741_824);
    assert_eq!(info.disks()[0].used_gb().numerator(), 600_000);
    assert_eq!(info.networks()[0].mac_address(), "aa:bb:cc:00:11:22");
    assert_eq!(info.temperatures().len(), 1);
    assert_eq!(info.temperatures()[0].label(), "core");
    assert_eq!(info.top_processes().len(), 10);
    assert_eq!(info.top_processes()[0].pid(), 11);
}

#[test]
fn snapshot_of_an_unreadable_host_is_empty_not_an_error() {
    let nothing = HostReadings {
        os_name: None,
        host_name: None,
        uptime: 0,
        cores: Vec::new(),
        cpu_usage: bits(0.0),
        total_memory: 0,
        used_memory: 0,
        disks: Vec::new(),
        networks: Vec::new(),
        sensors: Vec::new(),
        processes: Vec::new(),
    };
    let info = collect_snapshot(&nothing);
    assert_eq!(info.overview().os_name(), "");
    assert_eq!(info.cpu().name(), "");
    assert_eq!(info.cpu().cores(), 0);
    assert_eq!(info.memory().usage_percent().numerator(), 0);
    assert!(info.disks().is_empty());
    assert!(info.networks().is_empty());
    assert!(info.temperatures().is_empty());
    assert!(info.top_processes().is_empty());
}

#[test]
fn snapshot_taken_twice_from_the_same_readings_is_the_same() {
    let readings = readings(2.0);
    assert_eq!(collect_snapshot(&readings), collect_snapshot(&readings));
}

#[test]
fn snapshots_of_the_same_hardware_have_the_same_shape() {
    let first = collect_snapshot(&readings(1.0));
    let second = collect_snapshot(&readings(3.0));
    assert_ne!(first, second);
    assert_eq!(first.cpu().cores(), second.cpu().cores());
    assert_eq!(first.cpu().core_usages().len(), second.cpu().core_usages().len());
    assert_eq!(first.disks().len(), second.disks().len());
    assert_eq!(first.networks().len(), second.networks().len());
    assert_eq!(first.temperatures().len(), second.temperatures().len());
    assert_eq!(first.top_processes().len(), second.top_processes().len());
}
