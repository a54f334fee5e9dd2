//! The per-tick aggregator: drives the counter sampler, applies the
//! required-vs-optional reader policy, and assembles one immutable snapshot
//! from the values the platform readers handed in.

use vstd::prelude::*;
use crate::counter::{
    batch_freq, batch_usage, CounterError, CounterPoll, CounterSamplerEngine,
    RegistrationOutcome,
};
use crate::network::{
    build_network, network_matches, speed_of, unique_names, LinkSpeed,
    NetworkLinkSpeedCache, RawInterface,
};
use crate::strutil::seq_contains;
use crate::types::{
    CPUStats, DiskStats, DynamicData, GPUStats, GeolocationInfo, NetworkInterfaceStats,
    RAMStats, StaticData, SwapStats, TempStats,
};

verus! {

/// Failures of the optional hardware readers; absence of the hardware is
/// represented in the snapshot, never surfaced as a tick failure.
#[derive(Clone, Copy, Debug, PartialEq, Eq, Structural)]
pub enum DataCollectorError {
    /// No compatible accelerator is present.
    NoGPU,
    /// No temperature sensors are exposed.
    NoTemp,
}

/// Why a whole tick failed: the counter sampler failed fatally, or a
/// required reader produced nothing.
#[derive(Clone, Copy, Debug, PartialEq, Eq, Structural)]
pub enum CollectError {
    Counter(CounterError),
    RequiredReader,
}

/// One disk as the platform reader reports it.
#[derive(Debug)]
pub struct RawDisk {
    pub name: String,
    pub mount: String,
    pub fs: String,
    pub disk_type: String,
    pub total: u64,
    pub available: u64,
}

/// Virtual container mounts and boot partitions are left out of snapshots.
pub open spec fn excluded_disk(d: RawDisk) -> bool {
    seq_contains(d.name@, "docker"@) || seq_contains(d.mount@, "docker"@) || seq_contains(
        d.mount@,
        "boot"@,
    )
}

/// The disks that remain, in order, after the exclusions.
pub open spec fn kept_disks(ds: Seq<RawDisk>, n: int) -> Seq<RawDisk>
    decreases n,
{
    if n <= 0 {
        Seq::empty()
    } else if excluded_disk(ds[n - 1]) {
        kept_disks(ds, n - 1)
    } else {
        kept_disks(ds, n - 1).push(ds[n - 1])
    }
}

pub open spec fn sat_sub_u64(a: u64, b: u64) -> u64 {
    if a >= b {
        (a - b) as u64
    } else {
        0
    }
}

/// The disk records mirror the kept raw disks field for field, with used
/// space derived from total and available.
pub open spec fn disks_match(r: Seq<DiskStats>, ds: Seq<RawDisk>) -> bool {
    &&& r.len() == kept_disks(ds, ds.len() as int).len()
    &&& forall|j: int|
        0 <= j < r.len() ==> {
            let k = kept_disks(ds, ds.len() as int)[j];
            (#[trigger] r[j]).name@ == k.name@ && r[j].mount@ == k.mount@ && r[j].fs@
                == k.fs@ && r[j].disk_type@ == k.disk_type@ && r[j].total == k.total
                && r[j].used == sat_sub_u64(k.total, k.available)
        }
}

/// A process count squeezed into the wire's signed field.
pub open spec fn clamped_process_count(v: usize) -> i32 {
    if v > i32::MAX as usize {
        i32::MAX
    } else {
        v as i32
    }
}

/// Host uptime in milliseconds derived from the wall clock and the boot
/// time in seconds, saturating rather than wrapping.
pub open spec fn host_uptime_ms(now_ms: u64, boot_time_s: u64) -> u64 {
    sat_sub_u64(
        now_ms,
        if boot_time_s > u64::MAX / 1000 {
            u64::MAX
        } else {
            (boot_time_s * 1000) as u64
        },
    )
}

/// Everything the platform readers produced for one tick. A `None` in a
/// required field means that reader failed and the tick must fail whole; the
/// optional readers (`gpu`, `temps`) represent absence instead.
#[derive(Debug)]
pub struct TickInputs {
    /// What the two-phase counter poll returned.
    pub poll: CounterPoll,
    pub ram: Option<RAMStats>,
    pub swap: Option<SwapStats>,
    /// Absent when no compatible accelerator is present.
    pub gpu: Option<GPUStats>,
    pub process_count: Option<usize>,
    pub disks: Option<Vec<RawDisk>>,
    /// Sensor readings; an empty list means no sensors are exposed.
    pub temps: Vec<TempStats>,
    pub network: Option<Vec<RawInterface>>,
    /// Link speeds resolved this tick; only the first tick ever reads them.
    pub resolved_speeds: Vec<LinkSpeed>,
    /// The wall clock now, milliseconds since the epoch.
    pub now_ms: u64,
    pub boot_time_s: Option<u64>,
}

impl TickInputs {
    /// All required readers delivered.
    pub open spec fn required_present(self) -> bool {
        self.ram is Some && self.swap is Some && self.process_count is Some
            && self.disks is Some && self.network is Some && self.boot_time_s is Some
    }
}

/// One-time machine facts as the platform reports them.
#[derive(Debug)]
pub struct MachineIdentity {
    pub hostname: Option<String>,
    pub os_version: Option<String>,
    pub os_name: Option<String>,
    pub cpu_cores: Option<usize>,
    pub cpu_model: String,
    pub cpu_threads: usize,
    pub total_mem: u64,
    pub reporter_version: String,
}

/// The owner of all per-process collection state: the counter sampler with
/// its cache, the link-speed cache, and the tick counter.
#[derive(Debug)]
pub struct DataCollector {
    pub engine: CounterSamplerEngine,
    pub network_interface_speeds: NetworkLinkSpeedCache,
    pub program_iterations: usize,
    pub iterator_index: usize,
    /// When this process started, milliseconds since the epoch.
    pub start_timestamp: u64,
}

impl DataCollector {
    pub open spec fn wf(self) -> bool {
        self.engine.wf() && self.network_interface_speeds.wf()
    }

    /// Creates the collector from the one-time counter registration results;
    /// any registration failure is fatal.
    pub fn new(reg: &RegistrationOutcome, start_timestamp: u64) -> (r: Result<
        DataCollector,
        CounterError,
    >)
        ensures
            reg.ok() ==> (r matches Ok(dc) && dc.wf() && dc.engine.cache is None
                && !dc.network_interface_speeds.populated && dc.iterator_index == 0
                && dc.program_iterations == 60 && dc.start_timestamp == start_timestamp),
            !reg.ok() ==> (r matches Err(e) && e == CounterError::NoCounterAvailable),
    {
        let engine = CounterSamplerEngine::open(reg)?;
        Ok(DataCollector {
            engine,
            network_interface_speeds: NetworkLinkSpeedCache::new(),
            program_iterations: 60,
            iterator_index: 0,
            start_timestamp,
        })
    }

    /// Advances the tick counter, wrapping at `program_iterations`.
    pub fn increment_iterator_index(&mut self)
        requires
            old(self).iterator_index < usize::MAX,
        ensures
            final(self).iterator_index == (if old(self).program_iterations <= old(self).iterator_index + 1 {
                0int
            } else {
                old(self).iterator_index + 1
            }),
            final(self).engine == old(self).engine,
            final(self).network_interface_speeds == old(self).network_interface_speeds,
            final(self).program_iterations == old(self).program_iterations,
            final(self).start_timestamp == old(self).start_timestamp,
    {
        self.iterator_index = self.iterator_index + 1;
        if self.program_iterations <= self.iterator_index {
            self.iterator_index = 0;
        }
    }

    /// One validated per-core batch, by way of the sampler engine: a valid
    /// poll replaces the cache, a rollover event returns the cached batch
    /// unchanged, and a rollover with no cache yet is fatal.
    pub fn get_cpu(&mut self, poll: &CounterPoll) -> (r: Result<CPUStats, CounterError>)
        requires
            old(self).wf(),
        ensures
            final(self).wf(),
            final(self).network_interface_speeds == old(self).network_interface_speeds,
            old(self).engine.accepts(*poll) ==> {
                &&& r matches Ok(b) && b.usage@ == batch_usage(*poll) && b.freq@
                    == batch_freq(*poll)
                &&& final(self).engine.cache matches Some(c) && c.usage@ == batch_usage(
                    *poll,
                ) && c.freq@ == batch_freq(*poll)
            },
            !old(self).engine.accepts(*poll) ==> {
                &&& final(self).engine.cache == old(self).engine.cache
                &&& match old(self).engine.cache {
                    Some(c) => r matches Ok(b) && b.usage@ == c.usage@ && b.freq@
                        == c.freq@,
                    None => r matches Err(e) && e == CounterError::Uninitialized,
                }
            },
    {
        self.engine.sample(poll)
    }

    /// Per-interface traffic with exclusions applied and speeds from the
    /// once-populated cache; later ticks ignore `resolved` entirely.
    pub fn get_network(
        &mut self,
        interfaces: &Vec<RawInterface>,
        resolved: &Vec<LinkSpeed>,
    ) -> (r: Vec<NetworkInterfaceStats>)
        requires
            old(self).wf(),
            unique_names(resolved@),
        ensures
            final(self).wf(),
            final(self).engine == old(self).engine,
            final(self).network_interface_speeds.populated,
            old(self).network_interface_speeds.populated ==> final(self).network_interface_speeds.entries@ == old(self).network_interface_speeds.entries@,
            !old(self).network_interface_speeds.populated ==> forall|nm: Seq<char>|
                #[trigger] speed_of(final(self).network_interface_speeds.entries@, nm)
                    == speed_of(resolved@, nm),
            network_matches(r@, interfaces@, final(self).network_interface_speeds.entries@),
    {
        build_network(&mut self.network_interface_speeds, interfaces, resolved)
    }

    /// Disk records with container and boot mounts excluded and used space
    /// derived.
    pub fn get_disks(raw: &Vec<RawDisk>) -> (r: Vec<DiskStats>)
        ensures
            disks_match(r@, raw@),
    {
        let mut out: Vec<DiskStats> = Vec::new();
        let n = raw.len();
        let mut i: usize = 0;
        while i < n
            invariant
                n == raw@.len(),
                0 <= i <= n,
                out@.len() == kept_disks(raw@, i as int).len(),
                forall|j: int|
                    0 <= j < out@.len() ==> {
                        let k = kept_disks(raw@, i as int)[j];
                        (#[trigger] out@[j]).name@ == k.name@ && out@[j].mount@ == k.mount@
                            && out@[j].fs@ == k.fs@ && out@[j].disk_type@ == k.disk_type@
                            && out@[j].total == k.total && out@[j].used == sat_sub_u64(
                            k.total,
                            k.available,
                        )
                    },
            decreases n - i,
        {
            let excluded = crate::strutil::str_contains(raw[i].name.as_str(), "docker")
                || crate::strutil::str_contains(raw[i].mount.as_str(), "docker")
                || crate::strutil::str_contains(raw[i].mount.as_str(), "boot");
            if !excluded {
                let total = raw[i].total;
                let available = raw[i].available;
                out.push(DiskStats {
                    name: crate::network::copy_string(&raw[i].name),
                    mount: crate::network::copy_string(&raw[i].mount),
                    fs: crate::network::copy_string(&raw[i].fs),
                    disk_type: crate::network::copy_string(&raw[i].disk_type),
                    total,
                    used: if total >= available {
                        total - available
                    } else {
                        0
                    },
                });
                proof {
                    assert(kept_disks(raw@, i + 1) =~= kept_disks(raw@, i as int).push(
                        raw@[i as int],
                    ));
                }
            }
            i += 1;
        }
        out
    }

    /// The memory record for one tick.
    pub fn get_ram(used: u64, total: u64) -> (r: RAMStats)
        ensures
            r.used == used,
            r.total == total,
    {
        RAMStats { used, total }
    }

    /// The swap record for one tick.
    pub fn get_swap(used: u64, total: u64) -> (r: SwapStats)
        ensures
            r.used == used,
            r.total == total,
    {
        SwapStats { used, total }
    }

    /// The temperature readings, or `NoTemp` when the machine exposes no
    /// sensors at all.
    pub fn get_temps(readings: Vec<TempStats>) -> (r: Result<
        Vec<TempStats>,
        DataCollectorError,
    >)
        ensures
            readings@.len() == 0 ==> (r matches Err(e) && e == DataCollectorError::NoTemp),
            readings@.len() > 0 ==> (r matches Ok(v) && v == readings),
    {
        if readings.len() == 0 {
            Err(DataCollectorError::NoTemp)
        } else {
            Ok(readings)
        }
    }

    /// The accelerator reading, or `NoGPU` when none is present.
    pub fn get_gpu(reading: Option<GPUStats>) -> (r: Result<GPUStats, DataCollectorError>)
        ensures
            reading is None ==> (r matches Err(e) && e == DataCollectorError::NoGPU),
            reading matches Some(g) ==> (r matches Ok(out) && out == g),
    {
        match reading {
            Some(g) => Ok(g),
            None => Err(DataCollectorError::NoGPU),
        }
    }

    /// Host uptime: wall clock minus boot time, in milliseconds.
    pub fn get_uptime(now_ms: u64, boot_time_s: u64) -> (r: u64)
        ensures
            r == host_uptime_ms(now_ms, boot_time_s),
    {
        let cap: u64 = u64::MAX / 1000;
        let boot_ms: u64 = if boot_time_s > cap {
            u64::MAX
        } else {
            boot_time_s * 1000
        };
        if now_ms >= boot_ms {
            now_ms - boot_ms
        } else {
            0
        }
    }

    /// How long this process has been running, in milliseconds.
    pub fn get_reporter_uptime(&self, now_ms: u64) -> (r: u64)
        ensures
            r == sat_sub_u64(now_ms, self.start_timestamp),
    {
        if now_ms >= self.start_timestamp {
            now_ms - self.start_timestamp
        } else {
            0
        }
    }

    /// Assembles one snapshot from this tick's reader outputs. Any missing
    /// required reader fails the tick whole; the optional readers degrade to
    /// absence; the counter sampler's rollover recovery and fatal cases pass
    /// through unchanged.
    pub fn get_all_dynamic_data(&mut self, inputs: TickInputs) -> (r: Result<
        DynamicData,
        CollectError,
    >)
        requires
            old(self).wf(),
            unique_names(inputs.resolved_speeds@),
        ensures
            final(self).wf(),
            !inputs.required_present() ==> (r matches Err(e) && e
                == CollectError::RequiredReader && *final(self) == *old(self)),
            inputs.required_present() && !old(self).engine.accepts(inputs.poll) && old(self).engine.cache is None ==> (r matches Err(e) && e == CollectError::Counter(
                CounterError::Uninitialized,
            ) && *final(self) == *old(self)),
            inputs.required_present() && (old(self).engine.accepts(inputs.poll) || old(self).engine.cache is Some) ==> (r matches Ok(dd) && {
                &&& (old(self).engine.accepts(inputs.poll) ==> dd.cpu.usage@ == batch_usage(
                    inputs.poll,
                ) && dd.cpu.freq@ == batch_freq(inputs.poll) && (final(self).engine.cache matches Some(c) && c.usage@ == batch_usage(inputs.poll)
                    && c.freq@ == batch_freq(inputs.poll)))
                &&& (!old(self).engine.accepts(inputs.poll) ==> (old(self).engine.cache matches Some(c) && dd.cpu.usage@ == c.usage@ && dd.cpu.freq@
                    == c.freq@ && final(self).engine.cache == old(self).engine.cache))
                &&& dd.ram == inputs.ram.unwrap()
                &&& dd.swap == inputs.swap.unwrap()
                &&& dd.gpu == inputs.gpu
                &&& dd.process_count == clamped_process_count(inputs.process_count.unwrap())
                &&& disks_match(dd.disks@, inputs.disks.unwrap()@)
                &&& (inputs.temps@.len() == 0 ==> dd.temps is None)
                &&& (inputs.temps@.len() > 0 ==> dd.temps == Some(inputs.temps))
                &&& network_matches(
                    dd.network@,
                    inputs.network.unwrap()@,
                    final(self).network_interface_speeds.entries@,
                )
                &&& final(self).network_interface_speeds.populated
                &&& (old(self).network_interface_speeds.populated ==> final(self).network_interface_speeds.entries@ == old(self).network_interface_speeds.entries@)
                &&& (!old(self).network_interface_speeds.populated ==> forall|nm: Seq<char>|
                    #[trigger] speed_of(final(self).network_interface_speeds.entries@, nm)
                        == speed_of(inputs.resolved_speeds@, nm))
                &&& dd.host_uptime == host_uptime_ms(inputs.now_ms, inputs.boot_time_s.unwrap())
                &&& dd.reporter_uptime == sat_sub_u64(inputs.now_ms, old(self).start_timestamp)
            }),
    {
        let TickInputs {
            poll,
            ram,
            swap,
            gpu,
            process_count,
            disks,
            temps,
            network,
            resolved_speeds,
            now_ms,
            boot_time_s,
        } = inputs;
        let (ram, swap, process_count, disks, network, boot_time_s) = match (
            ram,
            swap,
            process_count,
            disks,
            network,
            boot_time_s,
        ) {
            (Some(a), Some(b), Some(c), Some(d), Some(e), Some(f)) => (a, b, c, d, e, f),
            _ => {
                return Err(CollectError::RequiredReader);
            },
        };
        let cpu = match self.engine.sample(&poll) {
            Ok(b) => b,
            Err(e) => {
                return Err(CollectError::Counter(e));
            },
        };
        let built_network = build_network(
            &mut self.network_interface_speeds,
            &network,
            &resolved_speeds,
        );
        let built_disks = DataCollector::get_disks(&disks);
        let built_temps = match DataCollector::get_temps(temps) {
            Ok(v) => Some(v),
            Err(_) => None,
        };
        let built_gpu = match DataCollector::get_gpu(gpu) {
            Ok(g) => Some(g),
            Err(_) => None,
        };
        let host_uptime = DataCollector::get_uptime(now_ms, boot_time_s);
        let reporter_uptime = self.get_reporter_uptime(now_ms);
        let max_count: usize = i32::MAX as usize;
        Ok(DynamicData {
            cpu,
            ram,
            gpu: built_gpu,
            process_count: if process_count > max_count {
                i32::MAX
            } else {
                process_count as i32
            },
            swap,
            disks: built_disks,
            temps: built_temps,
            network: built_network,
            host_uptime,
            reporter_uptime,
        })
    }

    /// The one-time identity record: machine facts passed through, the
    /// geolocation fields filled from the lookup when it succeeded and
    /// degraded to absent when it did not.
    pub fn get_statics(identity: MachineIdentity, geo: Option<GeolocationInfo>) -> (r:
        StaticData)
        ensures
            r.hostname == identity.hostname,
            r.os_version == identity.os_version,
            r.os_name == identity.os_name,
            r.cpu_cores == identity.cpu_cores,
            r.cpu_model == identity.cpu_model,
            r.cpu_threads == identity.cpu_threads,
            r.total_mem == identity.total_mem,
            r.reporter_version == identity.reporter_version,
            geo is None ==> r.public_ip is None && r.country is None && r.isp is None
                && r.city is None && r.timezone is None,
            geo matches Some(g) ==> r.public_ip == Some(g.ip) && r.country == Some(
                g.country_code,
            ) && r.isp == Some(g.isp) && r.city == Some(g.city) && r.timezone == Some(
                g.timezone_gmtOffset,
            ),
    {
        let MachineIdentity {
            hostname,
            os_version,
            os_name,
            cpu_cores,
            cpu_model,
            cpu_threads,
            total_mem,
            reporter_version,
        } = identity;
        match geo {
            Some(g) => StaticData {
                hostname,
                os_version,
                os_name,
                cpu_cores,
                public_ip: Some(g.ip),
                isp: Some(g.isp),
                country: Some(g.country_code),
                city: Some(g.city),
                timezone: Some(g.timezone_gmtOffset),
                cpu_model,
                cpu_threads,
                total_mem,
                reporter_version,
            },
            None => StaticData {
                hostname,
                os_version,
                os_name,
                cpu_cores,
                public_ip: None,
                isp: None,
                country: None,
                city: None,
                timezone: None,
                cpu_model,
                cpu_threads,
                total_mem,
                reporter_version,
            },
        }
    }
}

} // verus!
