use rinha_gateway::{
    elapsed_between, elapsed_since, millis_or_zero, now_unix_ms, receive_snapshot, role_from_name, HealthResponse, HealthStatusAll,
    ProbeResult, Role,
};

#[test]
fn roles_from_names() {
    assert_eq!(role_from_name(&"master".to_string()), Role::Prober);
    assert_eq!(role_from_name(&"slave".to_string()), Role::Replica);
    assert_eq!(role_from_name(&"none".to_string()), Role::Standalone);
    assert_eq!(role_from_name(&"Master".to_string()), Role::Standalone);
    assert_eq!(role_from_name(&String::new()), Role::Standalone);
}

#[test]
fn replica_takes_prober_snapshot() {
    let mut prober = HealthStatusAll::initial();
    prober.record_probe(true, ProbeResult::Report { failing: true, min_response_time: 33 }, 500);
    let mut replica = HealthStatusAll::initial();
    receive_snapshot(&mut replica, prober);
    assert_eq!(replica, prober);
}

#[test]
fn snapshots_replace_whole_and_last_wins() {
    let mut replica = HealthStatusAll::initial();
    let first = HealthStatusAll {
        default: HealthResponse { failing: true, min_response_time: 1, failing_since: Some(5) },
        fallback: HealthResponse::healthy(2),
    };
    let second = HealthStatusAll {
        default: HealthResponse::healthy(3),
        fallback: HealthResponse { failing: true, min_response_time: 4, failing_since: Some(9) },
    };
    receive_snapshot(&mut replica, first);
    assert_eq!(replica, first);
    receive_snapshot(&mut replica, second);
    assert_eq!(replica, second);
}

#[test]
fn clock_readings_clamp() {
    assert_eq!(millis_or_zero(None), 0);
    assert_eq!(millis_or_zero(Some(1_752_150_896_000)), 1_752_150_896_000);
    assert_eq!(millis_or_zero(Some(u64::MAX as u128)), u64::MAX);
    assert_eq!(millis_or_zero(Some(u64::MAX as u128 + 1)), u64::MAX);
}

#[test]
fn elapsed_between_instants() {
    assert_eq!(elapsed_between(2_500, 500), Some(2_000));
    assert_eq!(elapsed_between(500, 500), None);
    assert_eq!(elapsed_between(400, 500), None);
}

#[test]
fn clock_reads_after_2020() {
    let now = now_unix_ms();
    assert!(now > 1_577_836_800_000);
    assert!(elapsed_since(0).unwrap() >= now);
    assert_eq!(elapsed_since(u64::MAX), None);
}
