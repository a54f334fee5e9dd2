use reporter::scheduler::SamplingScheduler;
use reporter::session::{
    EventKind, ReportingSession, SendDirective, SendOutcome, SessionPhase,
};
use reporter::wire::{
    dynamic_data_event, frame_event, frame_for, get_event_id, login_event,
    static_data_event, WebsocketEvent,
};

fn authenticated_session() -> ReportingSession {
    let mut s = ReportingSession::new(false);
    assert_eq!(s.phase, SessionPhase::Connecting);
    let d = s.after_rebuild(true, true);
    assert_eq!(d, SendDirective::Done);
    s
}

#[test]
fn offline_session_never_sends() {
    let s = ReportingSession::new(true);
    assert_eq!(s.phase, SessionPhase::Offline);
    assert_eq!(s.begin_send(), SendDirective::Skip);
}

#[test]
fn delivered_send_stays_authenticated() {
    let mut s = authenticated_session();
    assert_eq!(s.begin_send(), SendDirective::TransmitDynamic);
    assert_eq!(s.after_transmit(SendOutcome::Delivered), SendDirective::Done);
    assert_eq!(s.phase, SessionPhase::Authenticated);
}

#[test]
fn send_failure_then_reconnect_replays_one_login_one_static() {
    let mut s = authenticated_session();
    assert_eq!(s.after_transmit(SendOutcome::TransportError), SendDirective::Rebuild);
    assert_eq!(s.phase, SessionPhase::Connecting);
    // The rebuild carries exactly the handshake: one login, one static-data.
    let handshake = s.handshake_events();
    assert_eq!(handshake, vec![EventKind::Login, EventKind::StaticData]);
    assert_eq!(s.after_rebuild(true, true), SendDirective::Done);
    // Only now does dynamic data flow again.
    assert_eq!(s.begin_send(), SendDirective::TransmitDynamic);
}

#[test]
fn second_consecutive_send_failure_is_surfaced() {
    let mut s = authenticated_session();
    assert_eq!(s.after_transmit(SendOutcome::TransportError), SendDirective::Rebuild);
    assert_eq!(s.after_rebuild(false, false), SendDirective::Surface);
    assert_eq!(s.phase, SessionPhase::Connecting);
}

#[test]
fn event_ids_match_the_wire_contract() {
    let login = WebsocketEvent::Login { auth_token: "token123".to_string() };
    assert_eq!(get_event_id(&login), "login");
    let stat = WebsocketEvent::StaticData {
        hostname: None,
        public_ip: None,
        country: None,
        city: None,
        isp: None,
        timezone: None,
        cpu_model: "cpu".to_string(),
        os_version: None,
        os_name: None,
        cpu_cores: None,
        cpu_threads: 1,
        total_mem: 1,
        reporter_version: "0.1.0".to_string(),
    };
    assert_eq!(get_event_id(&stat), "static-data");
}

#[test]
fn event_builders_carry_their_payloads() {
    match login_event("token123") {
        WebsocketEvent::Login { auth_token } => assert_eq!(auth_token, "token123"),
        _ => panic!("expected a login event"),
    }
    let data = reporter::types::StaticData {
        hostname: Some("host".to_string()),
        os_version: None,
        os_name: None,
        cpu_cores: Some(2),
        public_ip: None,
        isp: None,
        country: None,
        city: None,
        timezone: None,
        cpu_model: "cpu".to_string(),
        cpu_threads: 4,
        total_mem: 64,
        reporter_version: "ignored".to_string(),
    };
    match static_data_event(data, "9.9.9".to_string()) {
        WebsocketEvent::StaticData { hostname, reporter_version, cpu_threads, .. } => {
            assert_eq!(hostname.unwrap(), "host");
            assert_eq!(reporter_version, "9.9.9");
            assert_eq!(cpu_threads, 4);
        }
        _ => panic!("expected a static-data event"),
    }
    let dd = reporter::types::DynamicData {
        cpu: reporter::types::CPUStats { usage: vec![1], freq: vec![2] },
        ram: reporter::types::RAMStats { used: 3, total: 4 },
        gpu: None,
        process_count: 5,
        swap: reporter::types::SwapStats { used: 6, total: 7 },
        disks: vec![],
        temps: None,
        network: vec![],
        host_uptime: 8,
        reporter_uptime: 9,
    };
    match dynamic_data_event(dd) {
        WebsocketEvent::DynamicData { cpu, host_uptime, .. } => {
            assert_eq!(cpu.usage, vec![1]);
            assert_eq!(host_uptime, 8);
        }
        _ => panic!("expected a dynamic-data event"),
    }
}

#[test]
fn envelope_frames_payload_then_kind() {
    let framed = frame_event("login", "{\"auth_token\":\"t\"}");
    assert_eq!(framed, "{\"d\":{\"auth_token\":\"t\"},\"e\":\"login\"}");
}

#[test]
fn frame_for_uses_the_events_own_id() {
    let login = WebsocketEvent::Login { auth_token: "t".to_string() };
    let framed = frame_for(&login, "{}");
    assert_eq!(framed, "{\"d\":{},\"e\":\"login\"}");
}

#[test]
fn scheduler_rests_for_the_interval_remainder() {
    let sch = SamplingScheduler::new();
    assert_eq!(sch.interval_ms, 1000);
    // A 200 ms fetch plus a 100 ms send leaves 700 ms of rest.
    assert_eq!(sch.rest_time_ms(300), 700);
    // An overlong tick sleeps zero, never a negative duration.
    assert_eq!(sch.rest_time_ms(1200), 0);
}

#[test]
fn fetch_failure_keeps_previous_snapshot_with_fixed_delay() {
    let sch = SamplingScheduler::with_interval(500);
    let p = sch.plan_after_fetch(false, false);
    assert!(p.keep_previous_snapshot);
    assert_eq!(p.failure_delay_ms, 1000);
    assert!(p.attempt_send);
    let ok = sch.plan_after_fetch(true, true);
    assert!(!ok.keep_previous_snapshot);
    assert_eq!(ok.failure_delay_ms, 0);
    assert!(!ok.attempt_send);
}
