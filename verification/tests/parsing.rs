use reporter::args::{ArgOutcome, ArgParser};
use reporter::auth::{AuthManager, SignupStatus};
use reporter::config::{Config, ConfigManager};
use reporter::network::{parse_link_speed, parse_speed};
use reporter::strutil::{parse_milli, parse_u64, str_contains, str_eq, str_starts_with};

fn args(v: &[&str]) -> Vec<String> {
    v.iter().map(|s| s.to_string()).collect()
}

#[test]
fn parse_u64_reads_plain_numerals() {
    assert_eq!(parse_u64("0"), Some(0));
    assert_eq!(parse_u64("123"), Some(123));
    assert_eq!(parse_u64("18446744073709551615"), Some(u64::MAX));
    assert_eq!(parse_u64("18446744073709551616"), None);
    assert_eq!(parse_u64(""), None);
    assert_eq!(parse_u64("12a"), None);
}

#[test]
fn parse_milli_reads_decimal_seconds() {
    assert_eq!(parse_milli("1"), Some(1000));
    assert_eq!(parse_milli("0.25"), Some(250));
    assert_eq!(parse_milli("2.5"), Some(2500));
    assert_eq!(parse_milli("0.2567"), Some(256));
    assert_eq!(parse_milli("10.125"), Some(10125));
    assert_eq!(parse_milli(".5"), None);
    assert_eq!(parse_milli("5."), None);
    assert_eq!(parse_milli("abc"), None);
    assert_eq!(parse_milli("1.2.3"), None);
}

#[test]
fn parse_speed_converts_units_to_mbps() {
    // 2.5 Gbps is 2500 Mbps; the inputs are in thousandths of the unit.
    assert_eq!(parse_speed(2500, "Gbps"), 2500);
    assert_eq!(parse_speed(10000, "Mbps"), 10);
    assert_eq!(parse_speed(10000, "Kbps"), 0);
    assert_eq!(parse_speed(1000, "Tbps"), 1_000_000);
    assert_eq!(parse_speed(3000, "unknown"), 3);
}

#[test]
fn parse_link_speed_reads_adapter_lines() {
    assert_eq!(parse_link_speed("10 Gbps"), 10000);
    assert_eq!(parse_link_speed("2.5 Gbps"), 2500);
    assert_eq!(parse_link_speed("100 Mbps"), 100);
    assert_eq!(parse_link_speed("garbage"), 0);
    assert_eq!(parse_link_speed("x Gbps"), 0);
}

#[test]
fn string_predicates_behave() {
    assert!(str_contains("Processor _Total here", "Total"));
    assert!(!str_contains("core 0", "Total"));
    assert!(str_starts_with("lo0", "lo"));
    assert!(!str_starts_with("eth0", "lo"));
    assert!(str_eq("abc", "abc"));
    assert!(!str_eq("abc", "abd"));
    assert!(str_contains("anything", ""));
}

#[test]
fn arg_scan_accumulates_interval_and_offline() {
    match ArgParser::new(&args(&["prog", "-i", "0.25", "-off"])) {
        ArgOutcome::Run { parser } => {
            assert_eq!(parser.interval_ms, 250);
            assert!(parser.offline);
        }
        _ => panic!("expected a run"),
    }
}

#[test]
fn arg_scan_defaults_to_one_second_online() {
    match ArgParser::new(&args(&["prog"])) {
        ArgOutcome::Run { parser } => {
            assert_eq!(parser.interval_ms, 1000);
            assert!(!parser.offline);
        }
        _ => panic!("expected a run"),
    }
}

#[test]
fn arg_scan_one_shot_flags_win() {
    assert!(matches!(ArgParser::new(&args(&["prog", "-h"])), ArgOutcome::Help));
    assert!(matches!(ArgParser::new(&args(&["prog", "--version"])), ArgOutcome::Version));
    match ArgParser::new(&args(&["prog", "-su", "KEY1"])) {
        ArgOutcome::Signup { key } => assert_eq!(key, "KEY1"),
        _ => panic!("expected signup"),
    }
}

#[test]
fn arg_scan_reports_parameter_errors() {
    assert!(matches!(ArgParser::new(&args(&["prog", "-su"])), ArgOutcome::MissingSignupKey));
    assert!(matches!(
        ArgParser::new(&args(&["prog", "-i"])),
        ArgOutcome::MissingIntervalValue
    ));
    assert!(matches!(
        ArgParser::new(&args(&["prog", "-i", "fast"])),
        ArgOutcome::BadInterval
    ));
}

#[test]
fn signup_url_targets_the_backend() {
    assert_eq!(
        AuthManager::signup_url("backend.example"),
        "https://backend.example/machines/@signup"
    );
}

#[test]
fn signup_body_carries_its_fields() {
    let b = AuthManager::signup_body("key", "host", "uuid");
    assert_eq!(b.two_factor_key, "key");
    assert_eq!(b.hostname, "host");
    assert_eq!(b.hardware_uuid, "uuid");
}

#[test]
fn signup_statuses_classify() {
    assert_eq!(AuthManager::classify_status(200), SignupStatus::Accepted);
    assert_eq!(AuthManager::classify_status(400), SignupStatus::RejectedWithMessage);
    assert_eq!(AuthManager::classify_status(404), SignupStatus::RejectedWithMessage);
    assert_eq!(AuthManager::classify_status(500), SignupStatus::RejectedWithMessage);
    assert_eq!(AuthManager::classify_status(201), SignupStatus::Unexpected);
    assert_eq!(AuthManager::classify_status(503), SignupStatus::Unexpected);
}

#[test]
fn fresh_config_has_default_backend_and_a_uuid() {
    let c = ConfigManager::create_config();
    assert_eq!(c.access_token, "");
    assert_eq!(c.backend_hostname, "xbackend.otiskujawa.net");
    assert_eq!(c.uuid.len(), 36);
}

#[test]
fn normalize_config_repairs_empty_fields() {
    let fixed = ConfigManager::normalize_config(
        Config {
            access_token: "tok".to_string(),
            backend_hostname: "".to_string(),
            uuid: "".to_string(),
        },
        "some-fresh-uuid".to_string(),
    );
    assert_eq!(fixed.access_token, "tok");
    assert_eq!(fixed.backend_hostname, "xbackend.otiskujawa.net");
    assert_eq!(fixed.uuid, "some-fresh-uuid");
    let kept = ConfigManager::normalize_config(
        Config {
            access_token: "tok".to_string(),
            backend_hostname: "backend.example".to_string(),
            uuid: "u-1".to_string(),
        },
        "unused".to_string(),
    );
    assert_eq!(kept.backend_hostname, "backend.example");
    assert_eq!(kept.uuid, "u-1");
}

#[test]
fn save_access_token_touches_only_the_token() {
    let mut mgr = ConfigManager::new(Config {
        access_token: "".to_string(),
        backend_hostname: "backend.example".to_string(),
        uuid: "u-1".to_string(),
    });
    mgr.save_access_token("granted");
    assert_eq!(mgr.config.access_token, "granted");
    assert_eq!(mgr.config.backend_hostname, "backend.example");
    assert_eq!(mgr.config.uuid, "u-1");
}
