use reporter::counter::{
    CounterError, CounterPoll, CounterSamplerEngine, CounterValue, RegistrationOutcome,
};

fn reg_ok() -> RegistrationOutcome {
    RegistrationOutcome {
        query_opened: true,
        perf_added: true,
        freq_added: true,
        util_added: true,
        primed: true,
    }
}

fn entry(name: &str, value: u64) -> CounterValue {
    CounterValue { name: name.to_string(), value }
}

fn poll(usage: Vec<(&str, u64)>, freq: Vec<(&str, u64)>, perf: Vec<(&str, u64)>) -> CounterPoll {
    CounterPoll {
        usage: usage.into_iter().map(|(n, v)| entry(n, v)).collect(),
        freq: freq.into_iter().map(|(n, v)| entry(n, v)).collect(),
        perf: perf.into_iter().map(|(n, v)| entry(n, v)).collect(),
    }
}

fn two_core_poll() -> CounterPoll {
    poll(
        vec![("0,0", 42), ("0,1", 17), ("0,_Total", 30)],
        vec![("0,0", 3500), ("0,1", 3500), ("0,_Total", 3500)],
        vec![("0,0", 106), ("0,1", 100), ("0,_Total", 103)],
    )
}

fn inconsistent_poll() -> CounterPoll {
    // The frequency counter reports one fewer instance than the others.
    poll(
        vec![("0,0", 42), ("0,1", 17)],
        vec![("0,0", 3500)],
        vec![("0,0", 106), ("0,1", 100)],
    )
}

#[test]
fn buffer_allocation_doubles_the_reported_requirement() {
    let q = reporter::counter::CounterQuery { required_size: 640, item_count: 16 };
    assert_eq!(q.buffer_allocation(), 1280);
}

#[test]
fn registration_failure_is_no_counter_available() {
    let mut reg = reg_ok();
    reg.freq_added = false;
    match CounterSamplerEngine::open(&reg) {
        Err(CounterError::NoCounterAvailable) => {}
        _ => panic!("registration failure must be NoCounterAvailable"),
    }
}

#[test]
fn sample_before_any_valid_read_is_uninitialized() {
    let mut engine = CounterSamplerEngine::open(&reg_ok()).unwrap();
    match engine.sample(&inconsistent_poll()) {
        Err(CounterError::Uninitialized) => {}
        _ => panic!("no cache and an invalid poll must be Uninitialized"),
    }
}

#[test]
fn valid_sample_returns_filtered_floored_batch() {
    let mut engine = CounterSamplerEngine::open(&reg_ok()).unwrap();
    let batch = engine.sample(&two_core_poll()).unwrap();
    // The synthetic _Total entry is dropped.
    assert_eq!(batch.usage, vec![42, 17]);
    // 3500 * 106 / 100 = 3710 exactly; 3500 * 100 / 100 = 3500.
    assert_eq!(batch.freq, vec![3710, 3500]);
}

#[test]
fn frequency_derivation_floors() {
    // 3500 * 107 / 100 = 3745; 3333 * 101 / 100 = 3366.33 floored to 3366.
    let mut engine = CounterSamplerEngine::open(&reg_ok()).unwrap();
    let p = poll(
        vec![("0,0", 1), ("0,1", 2)],
        vec![("0,0", 3500), ("0,1", 3333)],
        vec![("0,0", 107), ("0,1", 101)],
    );
    let batch = engine.sample(&p).unwrap();
    assert_eq!(batch.freq, vec![3745, 3366]);
}

#[test]
fn cache_mirrors_last_success() {
    let mut engine = CounterSamplerEngine::open(&reg_ok()).unwrap();
    let batch = engine.sample(&two_core_poll()).unwrap();
    assert_eq!(engine.cache.as_ref().unwrap().usage, batch.usage);
    assert_eq!(engine.cache.as_ref().unwrap().freq, batch.freq);
}

#[test]
fn rollover_returns_previous_batch_and_keeps_cache() {
    let mut engine = CounterSamplerEngine::open(&reg_ok()).unwrap();
    let first = engine.sample(&two_core_poll()).unwrap();
    let recovered = engine.sample(&inconsistent_poll()).unwrap();
    assert_eq!(recovered.usage, first.usage);
    assert_eq!(recovered.freq, first.freq);
    // The cache is untouched: a second rollover still serves the same batch.
    let again = engine.sample(&inconsistent_poll()).unwrap();
    assert_eq!(again.usage, first.usage);
    assert_eq!(again.freq, first.freq);
}

#[test]
fn zero_count_with_cache_is_recovered_as_rollover() {
    let mut engine = CounterSamplerEngine::open(&reg_ok()).unwrap();
    let first = engine.sample(&two_core_poll()).unwrap();
    let empty = poll(vec![], vec![], vec![]);
    let recovered = engine.sample(&empty).unwrap();
    assert_eq!(recovered.usage, first.usage);
}

#[test]
fn shrunk_batch_is_recovered_as_rollover() {
    let mut engine = CounterSamplerEngine::open(&reg_ok()).unwrap();
    let first = engine.sample(&two_core_poll()).unwrap();
    // A consistent poll with fewer cores than the cached batch is not
    // accepted as valid: the cached batch is served instead.
    let shrunk = poll(vec![("0,0", 9)], vec![("0,0", 3500)], vec![("0,0", 100)]);
    let recovered = engine.sample(&shrunk).unwrap();
    assert_eq!(recovered.usage, first.usage);
    assert_eq!(recovered.freq, first.freq);
}

#[test]
fn usage_and_frequency_clamp_at_u16_max() {
    let mut engine = CounterSamplerEngine::open(&reg_ok()).unwrap();
    let p = poll(
        vec![("0,0", 1_000_000)],
        vec![("0,0", 1_000_000)],
        vec![("0,0", 100_000)],
    );
    let batch = engine.sample(&p).unwrap();
    assert_eq!(batch.usage, vec![u16::MAX]);
    assert_eq!(batch.freq, vec![u16::MAX]);
}
