use vstd::prelude::*;
use crate::clock::{elapsed_between, elapsed_spec, now_unix_ms};
use crate::health::{after_probes, lemma_outage_start_is_first_failure, reports_failure, HealthStatusAll, ProbeResult};

verus! {

/// Which processor a payment attempt should go to.
#[derive(Clone, Copy, Debug, PartialEq, Eq)]
pub enum ProcessorDecision {
    /// The primary processor.
    DEFAULT,
    /// The secondary processor.
    FALLBACK,
    /// Neither processor should be tried now.
    FAILING,
}

/// How long a failing primary is given to recover before traffic moves to
/// the secondary.
pub const RECOVERY_GRACE_MS: u64 = 2000;

/// A primary answering below this many milliseconds is taken without comparing.
pub const FAST_ENOUGH_MS: i64 = 2000;

/// Default share, in thousandths, by which the primary must lose to the
/// penalised secondary before the secondary is preferred.
pub const DEFAULT_TOLERANCE_PERMILLE: u32 = 100;

/// Whether the penalised comparison favours the secondary: with the
/// secondary's time inflated by one half,
/// `max(0, (p - 1.5 * s) / p) >= tolerance_permille / 1000`, for `p > 0`.
pub open spec fn prefers_secondary(p: int, s: int, tolerance_permille: int) -> bool {
    let gap = if 2 * p - 3 * s > 0 { 2 * p - 3 * s } else { 0 };
    1000 * gap >= 2 * tolerance_permille * p
}

/// The routing decision for a health snapshot read at `now_ms`.
pub open spec fn decision_spec(h: HealthStatusAll, now_ms: u64, tolerance_permille: u32) -> ProcessorDecision {
    if h.default.failing && h.fallback.failing {
        ProcessorDecision::FAILING
    } else if h.default.failing {
        match h.default.failing_since {
            Some(since) => if now_ms > since && now_ms - since > RECOVERY_GRACE_MS {
                ProcessorDecision::FALLBACK
            } else {
                ProcessorDecision::FAILING
            },
            None => ProcessorDecision::FAILING,
        }
    } else if h.fallback.failing {
        ProcessorDecision::DEFAULT
    } else if h.default.min_response_time < FAST_ENOUGH_MS {
        ProcessorDecision::DEFAULT
    } else if prefers_secondary(
        h.default.min_response_time as int,
        h.fallback.min_response_time as int,
        tolerance_permille as int,
    ) {
        ProcessorDecision::FALLBACK
    } else {
        ProcessorDecision::DEFAULT
    }
}

/// Chooses a processor from a health snapshot taken at `now_ms`.
pub fn decide_at(health: &HealthStatusAll, now_ms: u64, tolerance_permille: u32) -> (r: ProcessorDecision)
    ensures
        r == decision_spec(*health, now_ms, tolerance_permille),
{
    let primary = &health.default;
    let secondary = &health.fallback;
    if primary.failing && secondary.failing {
        return ProcessorDecision::FAILING;
    }
    if primary.failing {
        if let Some(since) = primary.failing_since {
            if let Some(elapsed) = elapsed_between(now_ms, since) {
                if elapsed > RECOVERY_GRACE_MS {
                    return ProcessorDecision::FALLBACK;
                }
            }
        }
        return ProcessorDecision::FAILING;
    }
    if secondary.failing {
        return ProcessorDecision::DEFAULT;
    }
    if primary.min_response_time < FAST_ENOUGH_MS {
        return ProcessorDecision::DEFAULT;
    }
    let p = primary.min_response_time as i128;
    let s = secondary.min_response_time as i128;
    let diff = 2 * p - 3 * s;
    let gap: i128 = if diff > 0 { diff } else { 0 };
    let t = tolerance_permille as i128;
    assert(2 * t * p <= 2 * 0x1_0000_0000 * 0x8000_0000_0000_0000) by (nonlinear_arith)
        requires
            0 <= t <= 0x1_0000_0000,
            0 <= p <= 0x8000_0000_0000_0000,
    ;
    if 1000 * gap >= 2 * t * p {
        ProcessorDecision::FALLBACK
    } else {
        ProcessorDecision::DEFAULT
    }
}

/// Chooses a processor from a health snapshot, reading the clock now and
/// using the default tolerance.
pub fn get_best_processor(health: &HealthStatusAll) -> (r: ProcessorDecision)
    ensures
        exists|now_ms: u64| r == decision_spec(*health, now_ms, DEFAULT_TOLERANCE_PERMILLE),
{
    let now = now_unix_ms();
    decide_at(health, now, DEFAULT_TOLERANCE_PERMILLE)
}

/// Both processors healthy and the primary fast enough: the primary is
/// chosen. At exactly the threshold the penalised comparison still applies,
/// so that point is covered only where the comparison keeps the primary.
pub proof fn lemma_healthy_fast_primary_chosen(h: HealthStatusAll, now_ms: u64, tolerance_permille: u32)
    requires
        !h.default.failing,
        !h.fallback.failing,
        h.default.min_response_time <= FAST_ENOUGH_MS,
        h.default.min_response_time == FAST_ENOUGH_MS ==> !prefers_secondary(
            h.default.min_response_time as int,
            h.fallback.min_response_time as int,
            tolerance_permille as int,
        ),
    ensures
        decision_spec(h, now_ms, tolerance_permille) == ProcessorDecision::DEFAULT,
{
}

/// Both processors failing: no processor is chosen.
pub proof fn lemma_both_failing_unavailable(h: HealthStatusAll, now_ms: u64, tolerance_permille: u32)
    requires
        h.default.failing,
        h.fallback.failing,
    ensures
        decision_spec(h, now_ms, tolerance_permille) == ProcessorDecision::FAILING,
{
}

/// With only the primary failing, the secondary is chosen only once the
/// primary's outage has lasted at least the grace window.
pub proof fn lemma_grace_before_secondary(h: HealthStatusAll, now_ms: u64, tolerance_permille: u32)
    requires
        h.default.failing,
        !h.fallback.failing,
        decision_spec(h, now_ms, tolerance_permille) == ProcessorDecision::FALLBACK,
    ensures
        h.default.failing_since matches Some(since) && now_ms >= since + RECOVERY_GRACE_MS,
{
}

/// Once the primary starts failing, however often it is probed afterwards,
/// the secondary is not chosen for a primary-only failure until the grace
/// window has passed since the first failing probe.
pub proof fn lemma_hysteresis_under_frequent_probes(
    h: HealthStatusAll,
    probes: Seq<(ProbeResult, u64)>,
    now_ms: u64,
    tolerance_permille: u32,
)
    requires
        h.wf(),
        !h.default.failing,
        !h.fallback.failing,
        probes.len() > 0,
        forall|i: int| 0 <= i < probes.len() ==> reports_failure(#[trigger] probes[i].0),
        decision_spec(
            HealthStatusAll { default: after_probes(h.default, probes), fallback: h.fallback },
            now_ms,
            tolerance_permille,
        ) == ProcessorDecision::FALLBACK,
    ensures
        now_ms >= probes[0].1 + RECOVERY_GRACE_MS,
{
    lemma_outage_start_is_first_failure(h.default, probes);
}

} // verus!
