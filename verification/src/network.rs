//! Per-interface network statistics: loopback/capture-driver exclusion,
//! byte-to-bit conversion, and the process-lifetime link-speed cache that is
//! populated on the first tick and never invalidated.

use vstd::prelude::*;
use crate::strutil::{seq_contains, seq_starts_with, str_contains, str_starts_with, str_eq};
use crate::types::NetworkInterfaceStats;

verus! {

/// Raw cumulative traffic counters for one interface, as the platform
/// reports them (bytes since start).
#[derive(Debug)]
pub struct RawInterface {
    pub name: String,
    pub transmitted: u64,
    pub received: u64,
}

/// One resolved link speed, in whole Mbps.
#[derive(Debug)]
pub struct LinkSpeed {
    pub name: String,
    pub speed: u64,
}

/// One adapter as the platform's adapter query reports it: a name and a
/// speed in prose such as `10 Gbps`.
#[allow(non_snake_case)]
#[derive(Debug)]
pub struct WindowsNetworkInterface {
    pub name: String,
    pub LinkSpeed: String,
}

/// Loopback and capture-driver interfaces never appear in a snapshot.
pub open spec fn excluded_interface(name: Seq<char>) -> bool {
    seq_contains(name, "NPCAP"@) || seq_starts_with(name, "lo"@)
}

/// Cumulative bytes converted to bits, saturating at the type's limit.
pub open spec fn bits_of(bytes: u64) -> u64 {
    if bytes > u64::MAX / 8 {
        u64::MAX
    } else {
        (bytes * 8) as u64
    }
}

/// The speed recorded for `name`: the first matching entry, or 0 when the
/// speed was never resolved.
pub open spec fn speed_of(entries: Seq<LinkSpeed>, name: Seq<char>) -> u64
    decreases entries.len(),
{
    if entries.len() == 0 {
        0
    } else if entries[0].name@ == name {
        entries[0].speed
    } else {
        speed_of(entries.drop_first(), name)
    }
}

pub open spec fn unique_names(s: Seq<LinkSpeed>) -> bool {
    forall|i: int, j: int| 0 <= i < j < s.len() ==> s[i].name@ != s[j].name@
}

/// Mapping from interface name to link speed, populated lazily on the first
/// tick after process start and never invalidated thereafter (interfaces
/// are assumed not to change speed at runtime).
#[derive(Debug)]
pub struct NetworkLinkSpeedCache {
    pub entries: Vec<LinkSpeed>,
    pub populated: bool,
}

impl NetworkLinkSpeedCache {
    /// Keys are unique, and nothing is recorded before the one population.
    pub open spec fn wf(self) -> bool {
        unique_names(self.entries@) && (!self.populated ==> self.entries@.len() == 0)
    }

    pub fn new() -> (r: NetworkLinkSpeedCache)
        ensures
            r.wf(),
            !r.populated,
    {
        NetworkLinkSpeedCache { entries: Vec::new(), populated: false }
    }

    /// Whether the expensive per-interface speed lookup still has to run.
    /// True only until the first tick has populated the cache.
    pub fn needs_resolution(&self) -> (r: bool)
        ensures
            r == !self.populated,
    {
        !self.populated
    }
}

/// Looks `name` up in the cache entries; 0 when absent.
fn lookup_speed(entries: &Vec<LinkSpeed>, name: &str) -> (r: u64)
    ensures
        r == speed_of(entries@, name@),
{
    let mut i: usize = 0;
    proof {
        assert(entries@.skip(0) =~= entries@);
    }
    while i < entries.len()
        invariant
            0 <= i <= entries@.len(),
            speed_of(entries@, name@) == speed_of(entries@.skip(i as int), name@),
        decreases entries@.len() - i,
    {
        proof {
            assert(entries@.skip(i as int)[0] == entries@[i as int]);
            assert(entries@.skip(i as int).drop_first() =~= entries@.skip(i + 1));
        }
        if str_eq(entries[i].name.as_str(), name) {
            return entries[i].speed;
        }
        i += 1;
    }
    proof {
        assert(entries@.skip(entries@.len() as int) =~= Seq::<LinkSpeed>::empty());
    }
    0
}

/// The interfaces that remain, in order, after dropping loopback and
/// capture-driver entries.
pub open spec fn kept_ifaces(ifs: Seq<RawInterface>, n: int) -> Seq<RawInterface>
    decreases n,
{
    if n <= 0 {
        Seq::empty()
    } else if excluded_interface(ifs[n - 1].name@) {
        kept_ifaces(ifs, n - 1)
    } else {
        kept_ifaces(ifs, n - 1).push(ifs[n - 1])
    }
}

/// No kept interface has an excluded name.
pub proof fn lemma_kept_not_excluded(ifs: Seq<RawInterface>, n: int)
    ensures
        forall|j: int|
            0 <= j < kept_ifaces(ifs, n).len()
                ==> !excluded_interface(#[trigger] kept_ifaces(ifs, n)[j].name@),
    decreases n,
{
    if n > 0 {
        lemma_kept_not_excluded(ifs, n - 1);
        if excluded_interface(ifs[n - 1].name@) {
            assert(kept_ifaces(ifs, n) == kept_ifaces(ifs, n - 1));
            assert forall|j: int|
                0 <= j < kept_ifaces(ifs, n).len() implies !excluded_interface(
                #[trigger] kept_ifaces(ifs, n)[j].name@,
            ) by {
                assert(kept_ifaces(ifs, n)[j] == kept_ifaces(ifs, n - 1)[j]);
            }
        } else {
            assert forall|j: int|
                0 <= j < kept_ifaces(ifs, n).len() implies !excluded_interface(
                #[trigger] kept_ifaces(ifs, n)[j].name@,
            ) by {
                if j < kept_ifaces(ifs, n - 1).len() {
                    assert(kept_ifaces(ifs, n)[j] == kept_ifaces(ifs, n - 1)[j]);
                } else {
                    assert(kept_ifaces(ifs, n)[j] == ifs[n - 1]);
                }
            }
        }
    }
}

/// Two entry lists that agree name-for-name and speed-for-speed record the
/// same speed for every name.
proof fn lemma_speed_of_congruent(a: Seq<LinkSpeed>, b: Seq<LinkSpeed>)
    requires
        a.len() == b.len(),
        forall|i: int|
            0 <= i < a.len() ==> (#[trigger] a[i]).name@ == b[i].name@ && a[i].speed
                == b[i].speed,
    ensures
        forall|nm: Seq<char>| speed_of(a, nm) == #[trigger] speed_of(b, nm),
    decreases a.len(),
{
    if a.len() > 0 {
        assert(forall|i: int|
            0 <= i < a.drop_first().len() ==> (#[trigger] a.drop_first()[i]).name@
                == b.drop_first()[i].name@ && a.drop_first()[i].speed
                == b.drop_first()[i].speed);
        lemma_speed_of_congruent(a.drop_first(), b.drop_first());
        assert forall|nm: Seq<char>| speed_of(a, nm) == #[trigger] speed_of(b, nm) by {
            assert(a[0].name@ == b[0].name@ && a[0].speed == b[0].speed);
            if a[0].name@ != nm {
                assert(speed_of(a, nm) == speed_of(a.drop_first(), nm));
                assert(speed_of(b, nm) == speed_of(b.drop_first(), nm));
            }
        }
    }
}

/// Fills the cache from the resolved speeds, once. Afterwards the cache
/// answers exactly as the resolved list does.
fn populate_cache(cache: &mut NetworkLinkSpeedCache, resolved: &Vec<LinkSpeed>)
    requires
        !old(cache).populated,
        old(cache).wf(),
        unique_names(resolved@),
    ensures
        final(cache).wf(),
        final(cache).populated,
        forall|nm: Seq<char>|
            #[trigger] speed_of(final(cache).entries@, nm) == speed_of(resolved@, nm),
{
    let mut entries: Vec<LinkSpeed> = Vec::new();
    let mut i: usize = 0;
    while i < resolved.len()
        invariant
            0 <= i <= resolved@.len(),
            entries@.len() == i,
            forall|j: int|
                0 <= j < i ==> (#[trigger] entries@[j]).name@ == resolved@[j].name@
                    && entries@[j].speed == resolved@[j].speed,
        decreases resolved@.len() - i,
    {
        let nm = copy_string(&resolved[i].name);
        entries.push(LinkSpeed { name: nm, speed: resolved[i].speed });
        i += 1;
    }
    proof {
        lemma_speed_of_congruent(entries@, resolved@);
        assert(unique_names(entries@)) by {
            assert(forall|x: int, y: int|
                0 <= x < y < entries@.len() ==> (#[trigger] entries@[x]).name@
                    != (#[trigger] entries@[y]).name@) by {
                assert(forall|x: int, y: int|
                    0 <= x < y < resolved@.len() ==> (#[trigger] resolved@[x]).name@
                        != (#[trigger] resolved@[y]).name@);
            }
        }
    }
    cache.entries = entries;
    cache.populated = true;
}

/// A character-for-character copy of a string.
pub fn copy_string(s: &String) -> (r: String)
    ensures
        r@ == s@,
{
    s.as_str().to_owned()
}

/// The built statistics mirror the kept interfaces entry for entry:
/// traffic in bits and the speed the given entries record for the name.
pub open spec fn network_matches(
    r: Seq<NetworkInterfaceStats>,
    ifs: Seq<RawInterface>,
    entries: Seq<LinkSpeed>,
) -> bool {
    &&& r.len() == kept_ifaces(ifs, ifs.len() as int).len()
    &&& forall|j: int|
        0 <= j < r.len() ==> {
            let k = kept_ifaces(ifs, ifs.len() as int)[j];
            (#[trigger] r[j]).n@ == k.name@ && r[j].tx == bits_of(k.transmitted) && r[j].rx
                == bits_of(k.received) && r[j].s == speed_of(entries, k.name@)
        }
}

/// Builds the per-tick network statistics. Excluded (loopback and
/// capture-driver) interfaces are dropped entirely; traffic counters are
/// reported in bits; the link speed comes from the cache, which the first
/// call populates from `resolved` and later calls leave untouched, whatever
/// `resolved` then holds.
pub fn build_network(
    cache: &mut NetworkLinkSpeedCache,
    interfaces: &Vec<RawInterface>,
    resolved: &Vec<LinkSpeed>,
) -> (r: Vec<NetworkInterfaceStats>)
    requires
        old(cache).wf(),
        unique_names(resolved@),
    ensures
        final(cache).wf(),
        final(cache).populated,
        old(cache).populated ==> final(cache).entries@ == old(cache).entries@,
        !old(cache).populated ==> forall|nm: Seq<char>|
            #[trigger] speed_of(final(cache).entries@, nm) == speed_of(resolved@, nm),
        network_matches(r@, interfaces@, final(cache).entries@),
        forall|j: int| 0 <= j < r@.len() ==> !excluded_interface((#[trigger] r@[j]).n@),
{
    if cache.needs_resolution() {
        populate_cache(cache, resolved);
    }
    let ghost entries_after = cache.entries@;
    let mut out: Vec<NetworkInterfaceStats> = Vec::new();
    let n = interfaces.len();
    let mut i: usize = 0;
    while i < n
        invariant
            n == interfaces@.len(),
            0 <= i <= n,
            cache.entries@ == entries_after,
            out@.len() == kept_ifaces(interfaces@, i as int).len(),
            forall|j: int|
                0 <= j < out@.len() ==> {
                    let k = kept_ifaces(interfaces@, i as int)[j];
                    (#[trigger] out@[j]).n@ == k.name@ && out@[j].tx == bits_of(k.transmitted)
                        && out@[j].rx == bits_of(k.received) && out@[j].s == speed_of(
                        entries_after,
                        k.name@,
                    )
                },
        decreases n - i,
    {
        let name = interfaces[i].name.as_str();
        let excluded = str_contains(name, "NPCAP") || str_starts_with(name, "lo");
        if !excluded {
            let tx_bytes = interfaces[i].transmitted;
            let rx_bytes = interfaces[i].received;
            let sat: u64 = u64::MAX / 8;
            let stat = NetworkInterfaceStats {
                n: copy_string(&interfaces[i].name),
                tx: if tx_bytes > sat { u64::MAX } else { tx_bytes * 8 },
                rx: if rx_bytes > sat { u64::MAX } else { rx_bytes * 8 },
                s: lookup_speed(&cache.entries, name),
            };
            out.push(stat);
            proof {
                assert(kept_ifaces(interfaces@, i + 1) =~= kept_ifaces(
                    interfaces@,
                    i as int,
                ).push(interfaces@[i as int]));
            }
        }
        i += 1;
    }
    proof {
        lemma_kept_not_excluded(interfaces@, interfaces@.len() as int);
    }
    out
}

/// The per-interface speed is resolved at most once per process lifetime:
/// once the cache is populated, any two ticks over the same interfaces
/// report identical speeds, whatever the lookup mechanism handed either
/// tick — `build_network` leaves a populated cache's entries unchanged, so
/// both ticks' results are pinned to the same entries.
pub proof fn lemma_speed_resolved_once(
    cache: NetworkLinkSpeedCache,
    ifs: Seq<RawInterface>,
    r1: Seq<NetworkInterfaceStats>,
    r2: Seq<NetworkInterfaceStats>,
)
    requires
        cache.populated,
        network_matches(r1, ifs, cache.entries@),
        network_matches(r2, ifs, cache.entries@),
    ensures
        r1.len() == r2.len(),
        forall|j: int|
            0 <= j < r1.len() ==> (#[trigger] r1[j]).n@ == r2[j].n@ && r1[j].s == r2[j].s,
{
    assert forall|j: int|
        0 <= j < r1.len() implies (#[trigger] r1[j]).n@ == r2[j].n@ && r1[j].s
        == r2[j].s by {
        let k = kept_ifaces(ifs, ifs.len() as int)[j];
        assert(r1[j].n@ == k.name@ && r1[j].s == speed_of(cache.entries@, k.name@));
        assert(r2[j].n@ == k.name@ && r2[j].s == speed_of(cache.entries@, k.name@));
    }
}

/// The five recognized speed units are pairwise distinct strings.
proof fn lemma_units_distinct()
    ensures
        "bps"@ != "Kbps"@ && "bps"@ != "Mbps"@ && "bps"@ != "Gbps"@ && "bps"@ != "Tbps"@,
        "Kbps"@ != "Mbps"@ && "Kbps"@ != "Gbps"@ && "Kbps"@ != "Tbps"@,
        "Mbps"@ != "Gbps"@ && "Mbps"@ != "Tbps"@,
        "Gbps"@ != "Tbps"@,
{
    reveal_strlit("bps");
    reveal_strlit("Kbps");
    reveal_strlit("Mbps");
    reveal_strlit("Gbps");
    reveal_strlit("Tbps");
    assert("bps"@.len() == 3);
    assert("Kbps"@.len() == 4);
    assert("Mbps"@.len() == 4);
    assert("Gbps"@.len() == 4);
    assert("Tbps"@.len() == 4);
    assert("Kbps"@[0] == 'K');
    assert("Mbps"@[0] == 'M');
    assert("Gbps"@[0] == 'G');
    assert("Tbps"@[0] == 'T');
}

/// A reading of `number_milli` thousandths of the given unit, as whole
/// Mbps, flooring; an unrecognized unit is taken as Mbps, which is what the
/// platform tools report by default.
pub open spec fn speed_mbps(number_milli: u64, unit: Seq<char>) -> u64 {
    if unit == "bps"@ {
        (number_milli / 1000000000) as u64
    } else if unit == "Kbps"@ {
        (number_milli / 1000000) as u64
    } else if unit == "Mbps"@ {
        (number_milli / 1000) as u64
    } else if unit == "Gbps"@ {
        number_milli
    } else if unit == "Tbps"@ {
        if number_milli > u64::MAX / 1000 {
            u64::MAX
        } else {
            (number_milli * 1000) as u64
        }
    } else {
        (number_milli / 1000) as u64
    }
}

/// Converts a speed reading of `number_milli` thousandths of the given unit
/// to whole Mbps.
pub fn parse_speed(number_milli: u64, unit: &str) -> (r: u64)
    ensures
        r == speed_mbps(number_milli, unit@),
{
    proof {
        lemma_units_distinct();
    }
    if str_eq(unit, "bps") {
        number_milli / 1000000000
    } else if str_eq(unit, "Kbps") {
        number_milli / 1000000
    } else if str_eq(unit, "Mbps") {
        number_milli / 1000
    } else if str_eq(unit, "Gbps") {
        number_milli
    } else if str_eq(unit, "Tbps") {
        let cap: u64 = u64::MAX / 1000;
        if number_milli > cap {
            u64::MAX
        } else {
            number_milli * 1000
        }
    } else {
        number_milli / 1000
    }
}

/// The speed a platform adapter line such as `10 Gbps` denotes, in whole
/// Mbps: the part before the first space read as a decimal number (0 when
/// it is not one), converted by the unit after the space. A line without a
/// space denotes no speed.
pub open spec fn link_speed_of(text: Seq<char>) -> u64 {
    let sp = crate::strutil::first_at(text, 0, ' ');
    if sp >= text.len() {
        0
    } else {
        let num = text.subrange(0, sp);
        let unit = text.subrange(sp + 1, text.len() as int);
        let milli = if crate::strutil::is_decimal(num) && crate::strutil::milli_value(num)
            <= u64::MAX {
            crate::strutil::milli_value(num) as u64
        } else {
            0
        };
        speed_mbps(milli, unit)
    }
}

/// Reads one adapter speed line.
pub fn parse_link_speed(text: &str) -> (r: u64)
    ensures
        r == link_speed_of(text@),
{
    let n = text.unicode_len();
    let sp = crate::strutil::find_char(text, ' ');
    if sp >= n {
        return 0;
    }
    let num = text.substring_char(0, sp);
    let unit = text.substring_char(sp + 1, n);
    let milli = match crate::strutil::parse_milli(num) {
        Some(v) => v,
        None => 0,
    };
    parse_speed(milli, unit)
}

} // verus!
