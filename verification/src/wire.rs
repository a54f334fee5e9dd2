//! The wire contract: the three event kinds, their identifiers, and the
//! one-object envelope every event is framed in before it goes out as a
//! single text frame.

use vstd::prelude::*;
use crate::types::{
    CPUStats, DiskStats, DynamicData, GPUStats, NetworkInterfaceStats, RAMStats, StaticData,
    SwapStats, TempStats,
};

verus! {

/// One event as it is pushed to the collector.
#[derive(Debug)]
pub enum WebsocketEvent {
    Login {
        auth_token: String,
    },
    DynamicData {
        cpu: CPUStats,
        ram: RAMStats,
        swap: SwapStats,
        gpu: Option<GPUStats>,
        process_count: i32,
        disks: Vec<DiskStats>,
        temps: Option<Vec<TempStats>>,
        network: Vec<NetworkInterfaceStats>,
        host_uptime: u64,
        reporter_uptime: u64,
    },
    StaticData {
        hostname: Option<String>,
        public_ip: Option<String>,
        country: Option<String>,
        city: Option<String>,
        isp: Option<String>,
        timezone: Option<i32>,
        cpu_model: String,
        os_version: Option<String>,
        os_name: Option<String>,
        cpu_cores: Option<usize>,
        cpu_threads: usize,
        total_mem: u64,
        reporter_version: String,
    },
}

/// The login event carrying the persisted access credential; the first
/// event sent after every (re)connect.
pub fn login_event(auth_token: &str) -> (ev: WebsocketEvent)
    ensures
        ev matches WebsocketEvent::Login { auth_token: t } && t@ == auth_token@,
{
    WebsocketEvent::Login { auth_token: auth_token.to_owned() }
}

/// The identity event sent once per session establishment, with the running
/// agent's own version in place of whatever the record held.
pub fn static_data_event(data: StaticData, reporter_version: String) -> (ev: WebsocketEvent)
    ensures
        ev matches WebsocketEvent::StaticData {
            hostname,
            public_ip,
            country,
            city,
            isp,
            timezone,
            cpu_model,
            os_version,
            os_name,
            cpu_cores,
            cpu_threads,
            total_mem,
            reporter_version: v,
        } && hostname == data.hostname && public_ip == data.public_ip && country
            == data.country && city == data.city && isp == data.isp && timezone
            == data.timezone && cpu_model == data.cpu_model && os_version
            == data.os_version && os_name == data.os_name && cpu_cores == data.cpu_cores
            && cpu_threads == data.cpu_threads && total_mem == data.total_mem && v
            == reporter_version,
{
    WebsocketEvent::StaticData {
        hostname: data.hostname,
        public_ip: data.public_ip,
        country: data.country,
        city: data.city,
        isp: data.isp,
        timezone: data.timezone,
        cpu_model: data.cpu_model,
        os_version: data.os_version,
        os_name: data.os_name,
        cpu_cores: data.cpu_cores,
        cpu_threads: data.cpu_threads,
        total_mem: data.total_mem,
        reporter_version,
    }
}

/// The per-tick event carrying one snapshot, field for field.
pub fn dynamic_data_event(data: DynamicData) -> (ev: WebsocketEvent)
    ensures
        ev matches WebsocketEvent::DynamicData {
            cpu,
            ram,
            swap,
            gpu,
            process_count,
            disks,
            temps,
            network,
            host_uptime,
            reporter_uptime,
        } && cpu == data.cpu && ram == data.ram && swap == data.swap && gpu == data.gpu
            && process_count == data.process_count && disks == data.disks && temps
            == data.temps && network == data.network && host_uptime == data.host_uptime
            && reporter_uptime == data.reporter_uptime,
{
    WebsocketEvent::DynamicData {
        cpu: data.cpu,
        ram: data.ram,
        swap: data.swap,
        gpu: data.gpu,
        process_count: data.process_count,
        disks: data.disks,
        temps: data.temps,
        network: data.network,
        host_uptime: data.host_uptime,
        reporter_uptime: data.reporter_uptime,
    }
}

/// The identifier each event kind carries in its envelope.
pub open spec fn event_id(ev: WebsocketEvent) -> Seq<char> {
    match ev {
        WebsocketEvent::Login { .. } => "login"@,
        WebsocketEvent::StaticData { .. } => "static-data"@,
        WebsocketEvent::DynamicData { .. } => "dynamic-data"@,
    }
}

/// The identifier of the given event.
pub fn get_event_id(ev: &WebsocketEvent) -> (r: &str)
    ensures
        r@ == event_id(*ev),
{
    match ev {
        WebsocketEvent::Login { .. } => "login",
        WebsocketEvent::StaticData { .. } => "static-data",
        WebsocketEvent::DynamicData { .. } => "dynamic-data",
    }
}

/// The envelope text for one event: a single JSON object holding the
/// payload under `d` and the event identifier under `e`, in that order.
pub open spec fn envelope(kind: Seq<char>, payload: Seq<char>) -> Seq<char> {
    "{\"d\":"@ + payload + ",\"e\":\""@ + kind + "\"}"@
}

/// Frames an already-serialized payload with the given event identifier.
pub fn frame_event(kind: &str, payload: &str) -> (r: String)
    ensures
        r@ == envelope(kind@, payload@),
{
    let mut s = String::from_str("{\"d\":");
    s.append(payload);
    s.append(",\"e\":\"");
    s.append(kind);
    s.append("\"}");
    proof {
        assert(s@ =~= envelope(kind@, payload@));
    }
    s
}

/// Frames a payload for the given event: the envelope carries that event's
/// identifier.
pub fn frame_for(ev: &WebsocketEvent, payload: &str) -> (r: String)
    ensures
        r@ == envelope(event_id(*ev), payload@),
{
    frame_event(get_event_id(ev), payload)
}

} // verus!
