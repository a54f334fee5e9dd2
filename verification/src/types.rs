//! The data model: per-tick metric records, the per-tick snapshot, and the
//! one-time machine identity record.

use vstd::prelude::*;

verus! {

/// One validated set of per-core CPU readings for a single tick: `usage[i]`
/// is core `i`'s utilization in whole percent, `freq[i]` its frequency in
/// whole MHz. Both vectors always have the same length.
#[derive(Clone, Debug)]
pub struct CPUStats {
    pub usage: Vec<u16>,
    pub freq: Vec<u16>,
}

impl CPUStats {
    /// A batch is well formed when it records usage and frequency for the
    /// same set of cores.
    pub open spec fn wf(self) -> bool {
        self.usage@.len() == self.freq@.len()
    }

    pub open spec fn core_count(self) -> nat {
        self.usage@.len()
    }
}

#[derive(Clone, Debug)]
pub struct RAMStats {
    pub used: u64,
    pub total: u64,
}

#[derive(Clone, Debug)]
pub struct SwapStats {
    pub used: u64,
    pub total: u64,
}

#[derive(Clone, Debug)]
pub struct GPUStats {
    pub brand: String,
    pub gpu_usage: u32,
    pub power_usage: u32,
}

#[derive(Clone, Debug)]
pub struct DiskStats {
    pub name: String,
    pub mount: String,
    pub fs: String,
    pub disk_type: String,
    pub total: u64,
    pub used: u64,
}

/// A temperature reading; `value` is in hundredths of a degree Celsius.
#[derive(Clone, Debug)]
pub struct TempStats {
    pub label: String,
    pub value: i64,
}

/// Per-interface traffic for one tick: `tx` and `rx` are cumulative
/// transmitted/received bits, `s` the link speed in whole Mbps
/// (0 when the speed was never resolved).
#[derive(Clone, Debug)]
pub struct NetworkInterfaceStats {
    pub n: String,
    pub tx: u64,
    pub rx: u64,
    pub s: u64,
}

/// The complete set of dynamic metrics assembled in one tick. Immutable once
/// built; `gpu` and `temps` are absent when the machine exposes no such
/// hardware, which is not an error.
#[derive(Clone, Debug)]
pub struct DynamicData {
    pub cpu: CPUStats,
    pub ram: RAMStats,
    pub gpu: Option<GPUStats>,
    pub process_count: i32,
    pub swap: SwapStats,
    pub disks: Vec<DiskStats>,
    pub temps: Option<Vec<TempStats>>,
    pub network: Vec<NetworkInterfaceStats>,
    pub host_uptime: u64,
    pub reporter_uptime: u64,
}

impl DynamicData {
    pub open spec fn wf(self) -> bool {
        self.cpu.wf()
    }
}

/// Best-effort geolocation facts; every field may be missing as a whole
/// (the lookup is allowed to fail without consequence).
#[allow(non_snake_case)]
#[derive(Clone, Debug)]
pub struct GeolocationInfo {
    pub ip: String,
    pub country_code: String,
    pub isp: String,
    pub city: String,
    pub timezone_gmtOffset: i32,
}

/// One-time machine identity/capability record, sent once per session
/// establishment rather than per tick.
#[derive(Clone, Debug)]
pub struct StaticData {
    pub hostname: Option<String>,
    pub os_version: Option<String>,
    pub os_name: Option<String>,
    pub cpu_cores: Option<usize>,
    pub public_ip: Option<String>,
    pub isp: Option<String>,
    pub country: Option<String>,
    pub city: Option<String>,
    pub timezone: Option<i32>,
    pub cpu_model: String,
    pub cpu_threads: usize,
    pub total_mem: u64,
    pub reporter_version: String,
}

} // verus!
