use rinha_gateway::{HealthResponse, HealthStatusAll, ProbeResult};

#[test]
fn first_failure_stamps_outage_start() {
    let mut h = HealthResponse::healthy(40);
    h.apply_probe(ProbeResult::Report { failing: true, min_response_time: 70 }, 1_000);
    assert_eq!(h, HealthResponse { failing: true, min_response_time: 70, failing_since: Some(1_000) });
}

#[test]
fn repeated_failures_keep_outage_start() {
    let mut h = HealthResponse::healthy(40);
    h.apply_probe(ProbeResult::Report { failing: true, min_response_time: 70 }, 1_000);
    h.apply_probe(ProbeResult::Report { failing: true, min_response_time: 80 }, 1_100);
    h.apply_probe(ProbeResult::Unreachable, 1_200);
    assert_eq!(h, HealthResponse { failing: true, min_response_time: 80, failing_since: Some(1_000) });
}

#[test]
fn recovery_clears_outage_start() {
    let mut h = HealthResponse { failing: true, min_response_time: 5, failing_since: Some(7) };
    h.apply_probe(ProbeResult::Report { failing: false, min_response_time: 12 }, 900);
    assert_eq!(h, HealthResponse { failing: false, min_response_time: 12, failing_since: None });
}

#[test]
fn unreachable_counts_as_failing_and_keeps_response_time() {
    let mut h = HealthResponse::healthy(250);
    h.apply_probe(ProbeResult::Unreachable, 42);
    assert_eq!(h, HealthResponse { failing: true, min_response_time: 250, failing_since: Some(42) });
}

#[test]
fn initial_state_assumes_both_healthy() {
    let s = HealthStatusAll::initial();
    assert_eq!(s.default, HealthResponse { failing: false, min_response_time: 0, failing_since: None });
    assert_eq!(s.fallback, HealthResponse { failing: false, min_response_time: 5000, failing_since: None });
}

#[test]
fn record_probe_touches_only_its_processor() {
    let mut s = HealthStatusAll::initial();
    s.record_probe(false, ProbeResult::Report { failing: true, min_response_time: 9 }, 77);
    assert_eq!(s.default, HealthResponse::healthy(0));
    assert_eq!(s.fallback, HealthResponse { failing: true, min_response_time: 9, failing_since: Some(77) });
    s.record_probe(true, ProbeResult::Unreachable, 78);
    assert_eq!(s.default, HealthResponse { failing: true, min_response_time: 0, failing_since: Some(78) });
}
