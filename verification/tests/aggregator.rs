use reporter::collector::{
    CollectError, DataCollector, DataCollectorError, MachineIdentity, RawDisk, TickInputs,
};
use reporter::counter::{CounterPoll, CounterValue, RegistrationOutcome};
use reporter::network::{LinkSpeed, RawInterface};
use reporter::types::{GPUStats, GeolocationInfo, RAMStats, SwapStats, TempStats};

fn reg_ok() -> RegistrationOutcome {
    RegistrationOutcome {
        query_opened: true,
        perf_added: true,
        freq_added: true,
        util_added: true,
        primed: true,
    }
}

fn entry(name: &str, value: u64) -> CounterValue {
    CounterValue { name: name.to_string(), value }
}

fn one_core_poll() -> CounterPoll {
    CounterPoll {
        usage: vec![entry("0,0", 42)],
        freq: vec![entry("0,0", 3500)],
        perf: vec![entry("0,0", 106)],
    }
}

fn iface(name: &str, tx: u64, rx: u64) -> RawInterface {
    RawInterface { name: name.to_string(), transmitted: tx, received: rx }
}

fn base_inputs() -> TickInputs {
    TickInputs {
        poll: one_core_poll(),
        ram: Some(RAMStats { used: 1024, total: 4096 }),
        swap: Some(SwapStats { used: 10, total: 100 }),
        gpu: None,
        process_count: Some(321),
        disks: Some(vec![]),
        temps: vec![],
        network: Some(vec![iface("eth0", 1000, 2000)]),
        resolved_speeds: vec![LinkSpeed { name: "eth0".to_string(), speed: 1000 }],
        now_ms: 1_000_000,
        boot_time_s: Some(900),
    }
}

#[test]
fn snapshot_without_optional_readers_is_valid() {
    let mut dc = DataCollector::new(&reg_ok(), 400_000).unwrap();
    let dd = dc.get_all_dynamic_data(base_inputs()).unwrap();
    assert!(dd.gpu.is_none());
    assert!(dd.temps.is_none());
    assert_eq!(dd.cpu.usage, vec![42]);
    assert_eq!(dd.cpu.freq, vec![3710]);
    assert_eq!(dd.ram.used, 1024);
    assert_eq!(dd.swap.total, 100);
    assert_eq!(dd.process_count, 321);
    // Traffic counters are reported in bits.
    assert_eq!(dd.network[0].tx, 8000);
    assert_eq!(dd.network[0].rx, 16000);
    assert_eq!(dd.network[0].s, 1000);
    assert_eq!(dd.host_uptime, 1_000_000 - 900_000);
    assert_eq!(dd.reporter_uptime, 600_000);
}

#[test]
fn required_reader_failure_fails_the_tick() {
    let mut dc = DataCollector::new(&reg_ok(), 0).unwrap();
    let mut inputs = base_inputs();
    inputs.ram = None;
    match dc.get_all_dynamic_data(inputs) {
        Err(CollectError::RequiredReader) => {}
        _ => panic!("a missing required reader must fail the tick"),
    }
}

#[test]
fn first_tick_with_invalid_poll_is_fatal() {
    let mut dc = DataCollector::new(&reg_ok(), 0).unwrap();
    let mut inputs = base_inputs();
    // An inconsistent instance count before any valid read, with nothing
    // cached to fall back to.
    inputs.poll.freq.clear();
    match dc.get_all_dynamic_data(inputs) {
        Err(CollectError::Counter(reporter::counter::CounterError::Uninitialized)) => {}
        _ => panic!("an invalid first poll must be fatal"),
    }
}

#[test]
fn optional_readers_present_are_carried() {
    let mut dc = DataCollector::new(&reg_ok(), 0).unwrap();
    let mut inputs = base_inputs();
    inputs.gpu = Some(GPUStats { brand: "Nvidia".to_string(), gpu_usage: 55, power_usage: 120 });
    inputs.temps = vec![TempStats { label: "coretemp".to_string(), value: 4550 }];
    let dd = dc.get_all_dynamic_data(inputs).unwrap();
    assert_eq!(dd.gpu.unwrap().gpu_usage, 55);
    assert_eq!(dd.temps.unwrap()[0].value, 4550);
}

#[test]
fn loopback_and_capture_interfaces_never_appear() {
    let mut dc = DataCollector::new(&reg_ok(), 0).unwrap();
    let mut inputs = base_inputs();
    inputs.network = Some(vec![
        iface("lo0", 1, 1),
        iface("eth0", 10, 20),
        iface("NPCAP_bridge", 5, 5),
        iface("loopback0", 7, 7),
    ]);
    let dd = dc.get_all_dynamic_data(inputs).unwrap();
    assert_eq!(dd.network.len(), 1);
    assert_eq!(dd.network[0].n, "eth0");
}

#[test]
fn link_speed_is_resolved_at_most_once() {
    let mut dc = DataCollector::new(&reg_ok(), 0).unwrap();
    let dd1 = dc.get_all_dynamic_data(base_inputs()).unwrap();
    assert_eq!(dd1.network[0].s, 1000);
    // A later tick's lookup results are ignored, even nonsense ones.
    let mut inputs = base_inputs();
    inputs.resolved_speeds = vec![LinkSpeed { name: "eth0".to_string(), speed: 7 }];
    let dd2 = dc.get_all_dynamic_data(inputs).unwrap();
    assert_eq!(dd2.network[0].s, 1000);
    // And an empty lookup (the mechanism made to fail) changes nothing.
    let mut inputs = base_inputs();
    inputs.resolved_speeds = vec![];
    let dd3 = dc.get_all_dynamic_data(inputs).unwrap();
    assert_eq!(dd3.network[0].s, 1000);
}

#[test]
fn docker_and_boot_disks_are_excluded() {
    let raw = vec![
        RawDisk {
            name: "sda1".to_string(),
            mount: "/".to_string(),
            fs: "ext4".to_string(),
            disk_type: "SSD".to_string(),
            total: 1000,
            available: 250,
        },
        RawDisk {
            name: "overlay".to_string(),
            mount: "/var/lib/docker/overlay2".to_string(),
            fs: "overlay".to_string(),
            disk_type: "SSD".to_string(),
            total: 1000,
            available: 500,
        },
        RawDisk {
            name: "sda2".to_string(),
            mount: "/boot/efi".to_string(),
            fs: "vfat".to_string(),
            disk_type: "SSD".to_string(),
            total: 100,
            available: 90,
        },
    ];
    let disks = DataCollector::get_disks(&raw);
    assert_eq!(disks.len(), 1);
    assert_eq!(disks[0].name, "sda1");
    assert_eq!(disks[0].used, 750);
    assert_eq!(disks[0].fs, "ext4");
}

#[test]
fn empty_sensor_list_is_no_temp() {
    match DataCollector::get_temps(vec![]) {
        Err(DataCollectorError::NoTemp) => {}
        _ => panic!("no sensors must be NoTemp"),
    }
}

#[test]
fn absent_accelerator_is_no_gpu() {
    match DataCollector::get_gpu(None) {
        Err(DataCollectorError::NoGPU) => {}
        _ => panic!("no accelerator must be NoGPU"),
    }
}

#[test]
fn ram_and_swap_records_carry_their_fields() {
    let ram = DataCollector::get_ram(5, 10);
    assert_eq!((ram.used, ram.total), (5, 10));
    let swap = DataCollector::get_swap(1, 2);
    assert_eq!((swap.used, swap.total), (1, 2));
}

#[test]
fn uptimes_saturate_rather_than_wrap() {
    assert_eq!(DataCollector::get_uptime(5000, 2), 3000);
    assert_eq!(DataCollector::get_uptime(1000, 2), 0);
    let dc = DataCollector::new(&reg_ok(), 10_000).unwrap();
    assert_eq!(dc.get_reporter_uptime(10_500), 500);
    assert_eq!(dc.get_reporter_uptime(9_000), 0);
}

#[test]
fn iterator_index_wraps_at_program_iterations() {
    let mut dc = DataCollector::new(&reg_ok(), 0).unwrap();
    for _ in 0..59 {
        dc.increment_iterator_index();
    }
    assert_eq!(dc.iterator_index, 59);
    dc.increment_iterator_index();
    assert_eq!(dc.iterator_index, 0);
}

#[test]
fn statics_degrade_geolocation_to_absent() {
    let identity = MachineIdentity {
        hostname: Some("host".to_string()),
        os_version: Some("1.0".to_string()),
        os_name: Some("linux".to_string()),
        cpu_cores: Some(8),
        cpu_model: "cpu".to_string(),
        cpu_threads: 16,
        total_mem: 1 << 30,
        reporter_version: "0.1.0".to_string(),
    };
    let s = DataCollector::get_statics(identity, None);
    assert!(s.public_ip.is_none());
    assert!(s.country.is_none());
    assert!(s.isp.is_none());
    assert!(s.city.is_none());
    assert!(s.timezone.is_none());
    assert_eq!(s.cpu_threads, 16);
}

#[test]
fn statics_carry_geolocation_when_present() {
    let identity = MachineIdentity {
        hostname: None,
        os_version: None,
        os_name: None,
        cpu_cores: None,
        cpu_model: "cpu".to_string(),
        cpu_threads: 4,
        total_mem: 1,
        reporter_version: "0.1.0".to_string(),
    };
    let geo = GeolocationInfo {
        ip: "203.0.113.9".to_string(),
        country_code: "DE".to_string(),
        isp: "example".to_string(),
        city: "Berlin".to_string(),
        timezone_gmtOffset: 3600,
    };
    let s = DataCollector::get_statics(identity, Some(geo));
    assert_eq!(s.public_ip.unwrap(), "203.0.113.9");
    assert_eq!(s.timezone.unwrap(), 3600);
}
