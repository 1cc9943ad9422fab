//! Host telemetry snapshots: the projection of raw operating-system readings
//! (processor, memory, disks, network interfaces, thermal sensors, processes,
//! battery, public address) into the records that a presentation layer shows.
//!
//! The library reads nothing itself. Whoever holds the providers hands it
//! their readings as plain values, and gets the records back.
//!
//! Every figure is kept exactly. Sizes and percentages are ratios of integers,
//! and values that providers report in floating point are carried as their
//! IEEE-754 bit patterns, so that ordering and filtering are decided on
//! integers.

pub mod battery;
pub mod cpu;
pub mod disk;
pub mod float_bits;
pub mod memory;
pub mod network;
pub mod overview;
pub mod process;
pub mod public_ip;
pub mod ranking;
pub mod ratio;
pub mod sampling;
pub mod snapshot;
pub mod thermal;

pub use battery::{battery_info, state_label, BatteryInfo, BatteryProbe, BatteryReading, BatteryState};
pub use cpu::{CoreReading, CpuInfo};
pub use disk::{disk_list, DiskInfo, DiskReading};
pub use float_bits::{F32Bits, F64Bits};
pub use memory::MemoryInfo;
pub use network::{interface_list, InterfaceReading, NetworkInterface};
pub use overview::SystemOverview;
pub use process::{top_processes, ProcessInfo, ProcessReading, TOP_PROCESSES};
pub use public_ip::{endpoint, resolve_public_ip, LookupError, LookupOutcome, PublicIpInfo};
pub use ranking::rank_positions;
pub use ratio::{Ratio, GIBIBYTE, MEBIBYTE};
pub use sampling::{Sampler, SamplingStep, SETTLE_MILLIS};
pub use snapshot::{collect_snapshot, FullSystemInfo, HostReadings};
pub use thermal::{temperature_list, SensorReading, TempInfo};
