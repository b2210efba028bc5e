use vstd::prelude::*;

verus! {

/// Health of one downstream processor as last observed.
///
/// `failing_since` holds the instant (milliseconds since the epoch) at which
/// the processor was first seen failing in its current outage.
#[derive(Clone, Copy, Debug, PartialEq, Eq)]
pub struct HealthResponse {
    pub failing: bool,
    pub min_response_time: i64,
    pub failing_since: Option<u64>,
}

/// What one probe of a processor's health endpoint yielded.
#[derive(Clone, Copy, Debug, PartialEq, Eq)]
pub enum ProbeResult {
    /// The endpoint answered with its own report.
    Report { failing: bool, min_response_time: i64 },
    /// The endpoint could not be reached or its answer could not be read.
    Unreachable,
}

/// Health of both processors: `default` is the primary, `fallback` the secondary.
#[derive(Clone, Copy, Debug, PartialEq, Eq)]
pub struct HealthStatusAll {
    pub default: HealthResponse,
    pub fallback: HealthResponse,
}

/// Health of a processor after a probe observed at `now_ms`.
pub open spec fn after_probe(h: HealthResponse, probe: ProbeResult, now_ms: u64) -> HealthResponse {
    let (failing, min_response_time) = match probe {
        ProbeResult::Report { failing, min_response_time } => (failing, min_response_time),
        ProbeResult::Unreachable => (true, h.min_response_time),
    };
    HealthResponse {
        failing,
        min_response_time,
        failing_since: if !failing {
            None
        } else if h.failing_since is Some {
            h.failing_since
        } else {
            Some(now_ms)
        },
    }
}

impl HealthResponse {
    pub open spec fn healthy_spec(min_response_time: i64) -> HealthResponse {
        HealthResponse { failing: false, min_response_time, failing_since: None }
    }

    /// An outage start is only recorded while the processor is failing.
    pub open spec fn wf(&self) -> bool {
        self.failing_since is Some ==> self.failing
    }

    pub fn healthy(min_response_time: i64) -> (r: HealthResponse)
        ensures
            r.wf(),
            r == HealthResponse::healthy_spec(min_response_time),
    {
        HealthResponse { failing: false, min_response_time, failing_since: None }
    }

    /// Folds one probe into this processor's health: the outage start is
    /// stamped when a failure is first seen, kept while it lasts, and cleared
    /// on recovery. An unreachable endpoint counts as failing and keeps the
    /// last known response time.
    pub fn apply_probe(&mut self, probe: ProbeResult, now_ms: u64)
        ensures
            *final(self) == after_probe(*old(self), probe, now_ms),
            old(self).wf() ==> final(self).wf(),
    {
        let failing = match probe {
            ProbeResult::Report { failing, min_response_time } => {
                self.min_response_time = min_response_time;
                failing
            },
            ProbeResult::Unreachable => true,
        };
        if failing {
            if self.failing_since.is_none() {
                self.failing_since = Some(now_ms);
            }
        } else {
            self.failing_since = None;
        }
        self.failing = failing;
    }
}

impl HealthStatusAll {
    pub open spec fn wf(&self) -> bool {
        self.default.wf() && self.fallback.wf()
    }

    /// The state a process starts from: both processors assumed healthy, the
    /// secondary assumed slow.
    pub fn initial() -> (r: HealthStatusAll)
        ensures
            r.wf(),
            r.default == HealthResponse::healthy_spec(0),
            r.fallback == HealthResponse::healthy_spec(5000),
    {
        HealthStatusAll { default: HealthResponse::healthy(0), fallback: HealthResponse::healthy(5000) }
    }

    /// Folds a probe of the primary (`primary == true`) or the secondary into the state.
    pub fn record_probe(&mut self, primary: bool, probe: ProbeResult, now_ms: u64)
        ensures
            primary ==> *final(self) == (HealthStatusAll {
                default: after_probe(old(self).default, probe, now_ms),
                fallback: old(self).fallback,
            }),
            !primary ==> *final(self) == (HealthStatusAll {
                default: old(self).default,
                fallback: after_probe(old(self).fallback, probe, now_ms),
            }),
            old(self).wf() ==> final(self).wf(),
    {
        if primary {
            self.default.apply_probe(probe, now_ms);
        } else {
            self.fallback.apply_probe(probe, now_ms);
        }
    }
}

/// While a processor keeps failing, probes leave the start of its outage
/// where it was, however often they come.
pub proof fn lemma_outage_start_kept(h: HealthResponse, probe: ProbeResult, now_ms: u64)
    requires
        h.failing_since is Some,
        probe matches ProbeResult::Report { failing, .. } ==> failing,
    ensures
        after_probe(h, probe, now_ms).failing,
        after_probe(h, probe, now_ms).failing_since == h.failing_since,
{
}

/// Health of a processor after a run of probes, each with the instant it was
/// observed, applied in order.
pub open spec fn after_probes(h: HealthResponse, probes: Seq<(ProbeResult, u64)>) -> HealthResponse
    decreases probes.len(),
{
    if probes.len() == 0 {
        h
    } else {
        after_probe(after_probes(h, probes.drop_last()), probes.last().0, probes.last().1)
    }
}

/// Whether a probe reports the processor as failing.
pub open spec fn reports_failure(probe: ProbeResult) -> bool {
    probe matches ProbeResult::Report { failing, .. } ==> failing
}

/// A healthy processor that then fails every probe of a run stays failing,
/// and its outage start is the instant of the first probe of the run.
pub proof fn lemma_outage_start_is_first_failure(h: HealthResponse, probes: Seq<(ProbeResult, u64)>)
    requires
        h.wf(),
        !h.failing,
        probes.len() > 0,
        forall|i: int| 0 <= i < probes.len() ==> reports_failure(#[trigger] probes[i].0),
    ensures
        after_probes(h, probes).failing,
        after_probes(h, probes).failing_since == Some(probes[0].1),
    decreases probes.len(),
{
    let prefix = probes.drop_last();
    if prefix.len() > 0 {
        assert forall|i: int| 0 <= i < prefix.len() implies reports_failure(#[trigger] prefix[i].0) by {
            assert(prefix[i] == probes[i]);
        }
        lemma_outage_start_is_first_failure(h, prefix);
        assert(prefix[0] == probes[0]);
    } else {
        assert(after_probes(h, prefix) == h);
        assert(probes.last() == probes[0]);
    }
    assert(reports_failure(probes[probes.len() - 1].0));
}

/// A failure seen on a processor that was healthy starts its outage at the
/// instant of the probe.
pub proof fn lemma_outage_starts_at_first_failure(h: HealthResponse, probe: ProbeResult, now_ms: u64)
    requires
        h.wf(),
        !h.failing,
        probe matches ProbeResult::Report { failing, .. } ==> failing,
    ensures
        after_probe(h, probe, now_ms).failing_since == Some(now_ms),
{
}

} // verus!
