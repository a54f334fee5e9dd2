//! The stateful per-core CPU counter sampler: validates each poll of the
//! three related performance counters (utilization, base frequency,
//! performance ratio), derives per-core frequency, filters synthetic
//! aggregate entries, and owns the one cache of the last valid batch that
//! rollover events silently fall back to.

use vstd::prelude::*;
use crate::strutil::{seq_contains, str_contains};
use crate::types::CPUStats;

verus! {

/// The two unrecoverable sampler failures; both are fatal to the process.
#[derive(Clone, Copy, Debug, PartialEq, Eq, Structural)]
pub enum CounterError {
    /// Counter registration failed at startup: no way to produce metrics.
    NoCounterAvailable,
    /// The first poll was invalid and no cached batch exists to fall back to.
    Uninitialized,
}

/// One formatted value read from one instance of a performance counter:
/// the instance name the counter API reports and the value in whole units
/// (percent for the two ratio counters, MHz for the frequency counter).
#[derive(Clone, Debug)]
pub struct CounterValue {
    pub name: String,
    pub value: u64,
}

/// What one two-phase poll of the three related counters returned: one
/// entry per reported instance, in the order the counter API delivered them.
#[derive(Debug)]
pub struct CounterPoll {
    /// Per-instance processor utilization, whole percent.
    pub usage: Vec<CounterValue>,
    /// Per-instance base processor frequency, whole MHz.
    pub freq: Vec<CounterValue>,
    /// Per-instance processor performance ratio, whole percent of base.
    pub perf: Vec<CounterValue>,
}

/// A handle bound to one named performance counter: the buffer requirement
/// the first call of the two-phase size negotiation reported, and the item
/// count of the most recent poll.
#[derive(Clone, Copy, Debug)]
pub struct CounterQuery {
    pub required_size: u32,
    pub item_count: u32,
}

impl CounterQuery {
    /// How much to allocate for the second, fetching call: double the
    /// reported requirement. The reported size under-counts on some
    /// implementations, so the margin is defensive, not a guaranteed-correct
    /// size.
    pub fn buffer_allocation(&self) -> (r: u64)
        ensures
            r == 2 * self.required_size,
    {
        2 * (self.required_size as u64)
    }
}

/// Status results of the one-time counter registration: opening the query
/// context, registering each of the three counters, and the priming poll
/// whose data is discarded.
#[derive(Clone, Copy, Debug)]
pub struct RegistrationOutcome {
    pub query_opened: bool,
    pub perf_added: bool,
    pub freq_added: bool,
    pub util_added: bool,
    pub primed: bool,
}

impl RegistrationOutcome {
    pub open spec fn ok(self) -> bool {
        self.query_opened && self.perf_added && self.freq_added && self.util_added
            && self.primed
    }
}

/// The three related counters reported a non-zero, mutually equal number of
/// instances. Anything else is a rollover event.
pub open spec fn consistent_counts(p: CounterPoll) -> bool {
    p.usage@.len() > 0 && p.usage@.len() == p.freq@.len() && p.usage@.len() == p.perf@.len()
}

/// A synthetic aggregate pseudo-core entry some platforms append; only
/// per-core entries are kept.
pub open spec fn is_aggregate_name(name: Seq<char>) -> bool {
    seq_contains(name, "Total"@)
}

pub open spec fn clamp_u16(v: int) -> u16 {
    if v > 0xffff {
        0xffff
    } else if v < 0 {
        0
    } else {
        v as u16
    }
}

/// Exact per-core frequency derivation: base frequency times the
/// performance ratio interpreted as a percentage, floored to whole MHz.
pub open spec fn derived_mhz(base: u64, ratio: u64) -> u16 {
    clamp_u16((base * ratio) / 100)
}

/// The usage column of the batch built from the first `n` poll entries,
/// aggregate entries dropped, values floored to whole percent.
pub open spec fn kept_usage(p: CounterPoll, n: int) -> Seq<u16>
    decreases n,
{
    if n <= 0 {
        Seq::empty()
    } else if is_aggregate_name(p.freq@[n - 1].name@) {
        kept_usage(p, n - 1)
    } else {
        kept_usage(p, n - 1).push(clamp_u16(p.usage@[n - 1].value as int))
    }
}

/// The frequency column of the batch built from the first `n` poll entries.
pub open spec fn kept_freq(p: CounterPoll, n: int) -> Seq<u16>
    decreases n,
{
    if n <= 0 {
        Seq::empty()
    } else if is_aggregate_name(p.freq@[n - 1].name@) {
        kept_freq(p, n - 1)
    } else {
        kept_freq(p, n - 1).push(derived_mhz(p.freq@[n - 1].value, p.perf@[n - 1].value))
    }
}

pub open spec fn batch_usage(p: CounterPoll) -> Seq<u16> {
    kept_usage(p, p.usage@.len() as int)
}

pub open spec fn batch_freq(p: CounterPoll) -> Seq<u16> {
    kept_freq(p, p.usage@.len() as int)
}

/// The two columns always keep the same entries.
pub proof fn lemma_kept_lens_eq(p: CounterPoll, n: int)
    ensures
        kept_usage(p, n).len() == kept_freq(p, n).len(),
    decreases n,
{
    if n > 0 {
        lemma_kept_lens_eq(p, n - 1);
    }
}

/// Produces a validated per-core (usage, frequency) batch each tick; owns
/// the only long-lived cache in the core.
#[derive(Debug)]
pub struct CounterSamplerEngine {
    /// The last-known-valid batch, replaced atomically as a whole on a valid
    /// read. `None` only before the first successful sample.
    pub cache: Option<CPUStats>,
}

impl CounterSamplerEngine {
    /// Once a valid batch exists it is never empty, and both columns cover
    /// the same cores.
    pub open spec fn wf(self) -> bool {
        match self.cache {
            Some(c) => c.wf() && c.core_count() >= 1,
            None => true,
        }
    }

    /// A poll the engine accepts as a valid read: consistent instance
    /// counts, at least one per-core entry after filtering, and no fewer
    /// cores than the previous valid batch recorded.
    pub open spec fn accepts(self, p: CounterPoll) -> bool {
        consistent_counts(p) && batch_usage(p).len() >= 1 && match self.cache {
            Some(c) => batch_usage(p).len() >= c.core_count(),
            None => true,
        }
    }

    /// Opens the sampler from the registration results. Any registration
    /// failure is `NoCounterAvailable`: fatal, nothing can be sampled.
    pub fn open(reg: &RegistrationOutcome) -> (r: Result<CounterSamplerEngine, CounterError>)
        ensures
            reg.ok() ==> (r matches Ok(e) && e.cache is None),
            !reg.ok() ==> (r matches Err(e) && e == CounterError::NoCounterAvailable),
    {
        if reg.query_opened && reg.perf_added && reg.freq_added && reg.util_added
            && reg.primed {
            Ok(CounterSamplerEngine { cache: None })
        } else {
            Err(CounterError::NoCounterAvailable)
        }
    }

    /// One tick of sampling. A valid poll yields its batch and atomically
    /// replaces the cache with it; an invalid poll (a rollover event) is
    /// recovered silently by returning the cached batch unchanged; an
    /// invalid poll with no cache yet is fatal (`Uninitialized`).
    pub fn sample(&mut self, p: &CounterPoll) -> (r: Result<CPUStats, CounterError>)
        requires
            old(self).wf(),
        ensures
            final(self).wf(),
            old(self).accepts(*p) ==> {
                &&& r matches Ok(b) && b.usage@ == batch_usage(*p) && b.freq@ == batch_freq(*p)
                &&& final(self).cache matches Some(c) && c.usage@ == batch_usage(*p)
                    && c.freq@ == batch_freq(*p)
            },
            !old(self).accepts(*p) ==> {
                &&& final(self).cache == old(self).cache
                &&& match old(self).cache {
                    Some(c) => r matches Ok(b) && b.usage@ == c.usage@ && b.freq@ == c.freq@,
                    None => r matches Err(e) && e == CounterError::Uninitialized,
                }
            },
    {
        let n = p.usage.len();
        let consistent = n > 0 && p.freq.len() == n && p.perf.len() == n;
        if consistent {
            let mut usage_out: Vec<u16> = Vec::new();
            let mut freq_out: Vec<u16> = Vec::new();
            let mut i: usize = 0;
            while i < n
                invariant
                    n == p.usage@.len(),
                    n == p.freq@.len(),
                    n == p.perf@.len(),
                    0 <= i <= n,
                    usage_out@ == kept_usage(*p, i as int),
                    freq_out@ == kept_freq(*p, i as int),
                decreases n - i,
            {
                if !str_contains(p.freq[i].name.as_str(), "Total") {
                    let uv = p.usage[i].value;
                    let u16max: u64 = 0xffff;
                    usage_out.push(if uv > u16max { 0xffff } else { uv as u16 });
                    let base: u128 = p.freq[i].value as u128;
                    let ratio: u128 = p.perf[i].value as u128;
                    proof {
                        assert(base * ratio <= 0xffffffffffffffff * 0xffffffffffffffff)
                            by (nonlinear_arith)
                            requires
                                base <= 0xffffffffffffffff,
                                ratio <= 0xffffffffffffffff,
                        ;
                    }
                    let prod: u128 = base * ratio / 100;
                    freq_out.push(if prod > 0xffff { 0xffff } else { prod as u16 });
                }
                i += 1;
            }
            let kept = usage_out.len();
            let cache_fits = match &self.cache {
                Some(c) => kept >= c.usage.len(),
                None => true,
            };
            if kept >= 1 && cache_fits {
                proof {
                    lemma_kept_lens_eq(*p, n as int);
                }
                let cached = CPUStats {
                    usage: copy_vec_u16(&usage_out),
                    freq: copy_vec_u16(&freq_out),
                };
                self.cache = Some(cached);
                return Ok(CPUStats { usage: usage_out, freq: freq_out });
            }
        }
        // A rollover event: fall back to the last valid batch, untouched.
        match &self.cache {
            Some(c) => Ok(CPUStats { usage: copy_vec_u16(&c.usage), freq: copy_vec_u16(&c.freq) }),
            None => Err(CounterError::Uninitialized),
        }
    }
}

/// An owned copy of a vector of readings.
fn copy_vec_u16(v: &Vec<u16>) -> (r: Vec<u16>)
    ensures
        r@ == v@,
{
    let mut r: Vec<u16> = Vec::new();
    let mut i: usize = 0;
    while i < v.len()
        invariant
            0 <= i <= v@.len(),
            r@ == v@.subrange(0, i as int),
        decreases v@.len() - i,
    {
        r.push(v[i]);
        proof {
            assert(v@.subrange(0, i + 1) =~= v@.subrange(0, i as int).push(v@[i as int]));
        }
        i += 1;
    }
    proof {
        assert(v@.subrange(0, v@.len() as int) =~= v@);
    }
    r
}

} // verus!
