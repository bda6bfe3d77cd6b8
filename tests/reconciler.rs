use snitchprot::probe::{line_indicates_connection, probe_state, shows_connection_lowered, state_from_lines};
use snitchprot::reconcile::{
    decide, force_refresh, plan_cycle, transition_message, CyclePlan, Decision, ReconcileError,
    StoredRecord,
};
use snitchprot::state::{profile_action_for, ConnectionState, ProfileAction};
use snitchprot::timestamp::{decimal_text, parse_unsigned_decimal};

fn record(previous: Option<&str>, last: Option<&str>) -> StoredRecord {
    StoredRecord {
        previous_state: previous.map(|s| s.to_string()),
        last_refresh_time: last.map(|s| s.to_string()),
    }
}

fn apply(rec: &mut StoredRecord, plan: &CyclePlan) {
    if let Some(u) = &plan.update {
        rec.previous_state = Some(u.previous_state.clone());
        rec.last_refresh_time = Some(u.last_refresh_time.clone());
    }
}

fn plan(probe: Option<ConnectionState>, rec: &StoredRecord, now: u64) -> CyclePlan {
    match plan_cycle(probe, rec, now) {
        Ok(p) => p,
        Err(e) => panic!("unexpected error {:?}", e),
    }
}

#[test]
fn initial_run_acts_and_stores_both_keys() {
    for state in [ConnectionState::Connected, ConnectionState::Disconnected] {
        let rec = record(None, None);
        let p = plan(Some(state), &rec, 1_700_000_000);
        assert_eq!(p.action, Some(profile_action_for(state)));
        assert!(p.log_message.is_some());
        let u = p.update.expect("update");
        assert_eq!(u.previous_state, state.name());
        assert_eq!(u.last_refresh_time, "1700000000");
    }
}

#[test]
fn initial_run_log_names_empty_previous_state() {
    let p = plan(Some(ConnectionState::Disconnected), &record(None, None), 10);
    assert_eq!(p.log_message.as_deref(), Some("VPN state changed from '' to 'disconnected'"));
}

#[test]
fn constant_state_within_threshold_is_a_no_op() {
    let mut rec = record(None, None);
    let first = plan(Some(ConnectionState::Connected), &rec, 1000);
    assert!(first.action.is_some());
    apply(&mut rec, &first);
    for now in [1000u64, 1001, 1030, 1059] {
        let p = plan(Some(ConnectionState::Connected), &rec, now);
        assert_eq!(p.action, None);
        assert!(p.log_message.is_none());
        assert!(p.update.is_none());
        apply(&mut rec, &p);
        assert_eq!(rec.previous_state.as_deref(), Some("connected"));
        assert_eq!(rec.last_refresh_time.as_deref(), Some("1000"));
    }
}

#[test]
fn transition_to_connected_disables_and_logs() {
    let rec = record(Some("disconnected"), Some("500"));
    let p = plan(Some(ConnectionState::Connected), &rec, 510);
    assert_eq!(p.action, Some(ProfileAction::DisableMonitoring));
    let msg = p.log_message.expect("log");
    assert_eq!(msg, "VPN state changed from 'disconnected' to 'connected'");
    assert!(msg.contains("disconnected") && msg.contains("'connected'"));
    let u = p.update.expect("update");
    assert_eq!(u.previous_state, "connected");
    assert_eq!(u.last_refresh_time, "510");
}

#[test]
fn transition_to_disconnected_enables_vpn_off() {
    let rec = record(Some("connected"), Some("500"));
    let p = plan(Some(ConnectionState::Disconnected), &rec, 501);
    assert_eq!(p.action, Some(ProfileAction::EnableVpnOff));
    assert_eq!(
        p.log_message.as_deref(),
        Some("VPN state changed from 'connected' to 'disconnected'")
    );
}

#[test]
fn stale_record_is_refreshed_silently() {
    let rec = record(Some("disconnected"), Some("1000"));
    let p = plan(Some(ConnectionState::Disconnected), &rec, 1060);
    assert_eq!(p.action, Some(ProfileAction::EnableVpnOff));
    assert!(p.log_message.is_none());
    let u = p.update.expect("update");
    assert_eq!(u.previous_state, "disconnected");
    assert_eq!(u.last_refresh_time, "1060");
}

#[test]
fn fresh_record_one_second_before_threshold_is_idle() {
    let rec = record(Some("connected"), Some("1000"));
    let p = plan(Some(ConnectionState::Connected), &rec, 1059);
    assert_eq!(p.action, None);
}

#[test]
fn clock_gone_back_suppresses_refresh() {
    let rec = record(Some("connected"), Some("1000"));
    let p = plan(Some(ConnectionState::Connected), &rec, 900);
    assert_eq!(p.action, None);
    assert!(!force_refresh(Some(1000), 900));
}

#[test]
fn action_mapping_depends_on_state_alone() {
    for _ in 0..3 {
        assert_eq!(profile_action_for(ConnectionState::Connected), ProfileAction::DisableMonitoring);
        assert_eq!(profile_action_for(ConnectionState::Disconnected), ProfileAction::EnableVpnOff);
    }
    for prev in [None, Some("connected"), Some("disconnected"), Some("other")] {
        let p = plan(Some(ConnectionState::Connected), &record(prev, None), 7);
        assert_eq!(p.action, Some(ProfileAction::DisableMonitoring));
        let p = plan(Some(ConnectionState::Disconnected), &record(prev, None), 7);
        assert_eq!(p.action, Some(ProfileAction::EnableVpnOff));
    }
}

#[test]
fn action_arguments_and_messages() {
    assert_eq!(ProfileAction::DisableMonitoring.arguments(), vec!["profile", "-d"]);
    assert_eq!(ProfileAction::EnableVpnOff.arguments(), vec!["profile", "-a", "VPN Off"]);
    assert_eq!(ProfileAction::DisableMonitoring.announcement(), "Disabling Little Snitch profile...");
    assert_eq!(ProfileAction::EnableVpnOff.confirmation(), "Little Snitch profile 'VPN Off' enabled");
}

#[test]
fn probe_failure_leaves_record_untouched() {
    let rec = record(Some("connected"), Some("123"));
    let r = plan_cycle(None, &rec, 999);
    assert!(matches!(r, Err(ReconcileError::ProbeUnavailable)));
    assert_eq!(rec.previous_state.as_deref(), Some("connected"));
    assert_eq!(rec.last_refresh_time.as_deref(), Some("123"));
}

#[test]
fn corrupt_timestamp_is_an_error() {
    let rec = record(Some("connected"), Some("12x"));
    assert!(matches!(
        plan_cycle(Some(ConnectionState::Disconnected), &rec, 5),
        Err(ReconcileError::StoreCorrupt)
    ));
}

#[test]
fn decision_table() {
    assert_eq!(decide("", ConnectionState::Connected, Some(0), 0), Decision::Transition);
    assert_eq!(decide("connected", ConnectionState::Connected, None, 0), Decision::Refresh);
    assert_eq!(decide("connected", ConnectionState::Connected, Some(10), 70), Decision::Refresh);
    assert_eq!(decide("connected", ConnectionState::Connected, Some(10), 69), Decision::Idle);
}

#[test]
fn timestamp_parsing() {
    assert_eq!(parse_unsigned_decimal("0"), Some(0));
    assert_eq!(parse_unsigned_decimal("1700000000"), Some(1_700_000_000));
    assert_eq!(parse_unsigned_decimal("+42"), Some(42));
    assert_eq!(parse_unsigned_decimal("18446744073709551615"), Some(u64::MAX));
    assert_eq!(parse_unsigned_decimal("18446744073709551616"), None);
    assert_eq!(parse_unsigned_decimal(""), None);
    assert_eq!(parse_unsigned_decimal("+"), None);
    assert_eq!(parse_unsigned_decimal("-1"), None);
    assert_eq!(parse_unsigned_decimal(" 1"), None);
    for s in ["0", "7", "+9", "99999", "x", "", "1 2", "+-1", "18446744073709551616"] {
        assert_eq!(parse_unsigned_decimal(s), s.parse::<u64>().ok(), "{}", s);
    }
}

#[test]
fn probe_reads_provider_and_marker() {
    let out = "Available network connection services\n* (Disconnected)   A  IPSec  \"Office\"\n* (Connected)      B  VPN (com.protonvpn.mac) \"ProtonVPN\"\n";
    assert_eq!(probe_state(out), ConnectionState::Connected);
    let out = "* (Disconnected)  B  VPN \"ProtonVPN\"\n";
    assert_eq!(probe_state(out), ConnectionState::Disconnected);
    assert_eq!(probe_state(""), ConnectionState::Disconnected);
}

#[test]
fn probe_needs_both_markers_on_one_line() {
    assert_eq!(probe_state("PROTON\n(Connected)\r\n"), ConnectionState::Disconnected);
    assert_eq!(probe_state("x\r\nPROTON (Connected)\r\n"), ConnectionState::Connected);
    assert!(!line_indicates_connection("proton (connected)"));
    assert!(line_indicates_connection("ProtonVPN (Connected)"));
    assert!(shows_connection_lowered("Connected", "proton"));
    assert!(!shows_connection_lowered("ProtonVPN Connected", "nothing"));
}

#[test]
fn probe_from_split_lines() {
    let lines = vec!["a".to_string(), "ProtOn Connected".to_string()];
    assert_eq!(state_from_lines(&lines), ConnectionState::Connected);
    assert_eq!(state_from_lines(&Vec::new()), ConnectionState::Disconnected);
}

#[test]
fn decimal_text_matches_display() {
    for n in [0u64, 7, 10, 60, 1_700_000_000, u64::MAX] {
        assert_eq!(decimal_text(n), n.to_string());
        assert_eq!(parse_unsigned_decimal(&decimal_text(n)), Some(n));
    }
}

#[test]
fn transition_message_text() {
    assert_eq!(transition_message("a", "b"), "VPN state changed from 'a' to 'b'");
    assert_eq!(transition_message("", ""), "VPN state changed from '' to ''");
}

#[test]
fn probe_line_endings() {
    assert_eq!(probe_state("proton\nConnected"), ConnectionState::Disconnected);
    assert_eq!(probe_state("\n\nproton Connected"), ConnectionState::Connected);
    assert_eq!(probe_state("proton Connected\r"), ConnectionState::Connected);
    assert_eq!(probe_state("\r\n"), ConnectionState::Disconnected);
    assert!(!line_indicates_connection("Connecte proton"));
    assert!(line_indicates_connection("xx (Connected) yy PROTON"));
}
