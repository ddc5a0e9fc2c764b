use miner_scan::commands::{
    restart_path, restart_result, settings_path, settings_payload, update_settings_result,
    CommandReply, MinerSettingsUpdate,
};
use miner_scan::errors::{HttpFailure, MinerError};
use miner_scan::http::{HttpEvent, SCAN_PROBE_TIMEOUT_MS, SINGLE_TARGET_TIMEOUT_MS};
use miner_scan::text::{parse_octet, u32_to_dec};

#[test]
fn command_paths_are_fixed() {
    assert_eq!(restart_path(), "/api/system/restart");
    assert_eq!(settings_path(), "/api/system");
}

#[test]
fn scan_probes_time_out_faster_than_targeted_commands() {
    assert!(SCAN_PROBE_TIMEOUT_MS < SINGLE_TARGET_TIMEOUT_MS);
}

#[test]
fn settings_payload_carries_both_tunables() {
    let update = MinerSettingsUpdate { frequency: 550, core_voltage: 1200 };
    assert_eq!(settings_payload(&update), r#"{"frequency":550,"coreVoltage":1200}"#);
    let update = MinerSettingsUpdate { frequency: 0, core_voltage: 0 };
    assert_eq!(settings_payload(&update), r#"{"frequency":0,"coreVoltage":0}"#);
}

#[test]
fn restart_returns_the_device_reply_when_it_parses() {
    let event = HttpEvent::Responded { status: 200, body: r#"{"rebooting":true}"#.to_string() };
    match restart_result(&event).unwrap() {
        CommandReply::DeviceReply(body) => assert_eq!(body, r#"{"rebooting":true}"#),
        CommandReply::Acknowledged => panic!("expected the device's own reply"),
    }
}

#[test]
fn restart_acknowledges_unparseable_success_bodies() {
    let event = HttpEvent::Responded { status: 200, body: "".to_string() };
    assert!(matches!(restart_result(&event).unwrap(), CommandReply::Acknowledged));
    let event = HttpEvent::Responded { status: 204, body: "rebooting now".to_string() };
    assert!(matches!(restart_result(&event).unwrap(), CommandReply::Acknowledged));
}

#[test]
fn restart_failure_carries_the_status() {
    let event = HttpEvent::Responded { status: 500, body: "oops".to_string() };
    let e = restart_result(&event).unwrap_err();
    assert!(matches!(
        e,
        MinerError::RestartFailed(HttpFailure::Status { code: 500, .. })
    ));
    assert_eq!(e.message(), "Miner restart failed with status: 500");
}

#[test]
fn restart_transport_failure_keeps_the_transport_text() {
    let event = HttpEvent::TransportFailed("operation timed out".to_string());
    let e = restart_result(&event).unwrap_err();
    assert_eq!(e.message(), "operation timed out");
}

#[test]
fn update_acknowledges_unparseable_success_bodies() {
    let event = HttpEvent::Responded { status: 200, body: "OK".to_string() };
    assert!(matches!(update_settings_result(&event).unwrap(), CommandReply::Acknowledged));
}

#[test]
fn update_returns_the_device_reply_when_it_parses() {
    let event = HttpEvent::Responded { status: 200, body: r#"{"applied":true}"#.to_string() };
    match update_settings_result(&event).unwrap() {
        CommandReply::DeviceReply(body) => assert_eq!(body, r#"{"applied":true}"#),
        CommandReply::Acknowledged => panic!("expected the device's own reply"),
    }
}

#[test]
fn update_failure_carries_status_and_body_text() {
    let event = HttpEvent::Responded { status: 500, body: "bad core voltage".to_string() };
    let e = update_settings_result(&event).unwrap_err();
    match &e {
        MinerError::SettingsUpdateFailed(HttpFailure::Status { code, body }) => {
            assert_eq!(*code, 500);
            assert_eq!(body, "bad core voltage");
        }
        other => panic!("unexpected error: {}", other.message()),
    }
    let text = e.message();
    assert!(text.contains("500"));
    assert!(text.contains("bad core voltage"));
    assert_eq!(text, "Failed to update settings (500): bad core voltage");
}

#[test]
fn update_transport_failure_keeps_the_transport_text() {
    let event = HttpEvent::TransportFailed("connection reset".to_string());
    let e = update_settings_result(&event).unwrap_err();
    assert!(matches!(
        e,
        MinerError::SettingsUpdateFailed(HttpFailure::Transport(_))
    ));
    assert_eq!(e.message(), "connection reset");
}

#[test]
fn decimal_rendering_is_exact() {
    assert_eq!(u32_to_dec(0), "0");
    assert_eq!(u32_to_dec(7), "7");
    assert_eq!(u32_to_dec(10), "10");
    assert_eq!(u32_to_dec(255), "255");
    assert_eq!(u32_to_dec(4294967295), "4294967295");
}

#[test]
fn octets_parse_strictly() {
    assert_eq!(parse_octet("0"), Some(0));
    assert_eq!(parse_octet("255"), Some(255));
    assert_eq!(parse_octet("007"), Some(7));
    assert_eq!(parse_octet("256"), None);
    assert_eq!(parse_octet("1000"), None);
    assert_eq!(parse_octet(""), None);
    assert_eq!(parse_octet("12a"), None);
    assert_eq!(parse_octet("+25"), None);
    assert_eq!(parse_octet("-1"), None);
}
