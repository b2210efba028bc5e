use vstd::prelude::*;
use crate::routing::ProcessorDecision;

verus! {

/// A downstream processor.
#[derive(Clone, Copy, Debug, PartialEq, Eq)]
pub enum Processor {
    Primary,
    Secondary,
}

impl Processor {
    /// The name under which the ledger keeps this processor's payments.
    pub fn ledger_name(&self) -> (r: &'static str)
        ensures
            *self == Processor::Primary ==> r@ == "default"@,
            *self == Processor::Secondary ==> r@ == "fallback"@,
    {
        proof {
            reveal_strlit("default");
            reveal_strlit("fallback");
        }
        match self {
            Processor::Primary => "default",
            Processor::Secondary => "fallback",
        }
    }
}

/// A payment as accepted from a caller: its idempotency key and its amount
/// in ten-thousandths of the currency unit.
#[derive(Clone, Debug)]
pub struct PostPayments {
    pub correlation_id: String,
    pub amount: i64,
}

/// How one downstream payment call ended.
#[derive(Clone, Copy, Debug, PartialEq, Eq)]
pub enum CallOutcome {
    /// A success status came back.
    Accepted,
    /// A status came back that is not a success.
    Refused,
    /// No status came back: connection error or timeout.
    Unreachable,
}

/// What the worker holding a payment does next.
#[derive(Clone, Copy, Debug, PartialEq, Eq)]
pub enum Step {
    /// Call `target`, first waiting the retry back-off when `after_backoff`.
    Call { target: Processor, after_backoff: bool },
    /// Write the payment into the ledger under `Processor`.
    Record(Processor),
    /// The payment is delivered and recorded.
    Done,
    /// Put the payment back into the admission queue for a later attempt.
    Requeue,
}

/// Calls made to the primary within one delivery before falling back.
pub const MAX_PRIMARY_ATTEMPTS: u32 = 5;

/// Back-off between two calls of one delivery.
pub const RETRY_BACKOFF_MS: u64 = 500;

/// Pause before a payment that no processor was asked to take goes back to
/// the queue, so that an outage does not spin the workers.
pub const UNAVAILABLE_BACKOFF_MS: u64 = 100;

/// The progress of one attempt to deliver a dequeued payment.
///
/// Within an attempt the primary is called up to `MAX_PRIMARY_ATTEMPTS` times
/// while it refuses, then the secondary once. A transport error, a refusal by
/// the secondary, a failed ledger write or a routing decision of `FAILING`
/// sends the payment back to the queue, where it waits for another attempt
/// with no limit on their number.
#[derive(Clone, Copy, Debug)]
pub struct Delivery {
    pub step: Step,
    pub primary_calls: u32,
    pub secondary_calls: u32,
}

/// The first step for a routing decision.
pub open spec fn first_step(decision: ProcessorDecision) -> Step {
    match decision {
        ProcessorDecision::DEFAULT => Step::Call { target: Processor::Primary, after_backoff: false },
        ProcessorDecision::FALLBACK => Step::Call { target: Processor::Secondary, after_backoff: false },
        ProcessorDecision::FAILING => Step::Requeue,
    }
}

/// The step after a call to `target`, when `primary_calls` calls to the
/// primary have been made, this one included.
pub open spec fn step_after_call(target: Processor, primary_calls: u32, outcome: CallOutcome) -> Step {
    match outcome {
        CallOutcome::Accepted => Step::Record(target),
        CallOutcome::Unreachable => Step::Requeue,
        CallOutcome::Refused => match target {
            Processor::Primary => if primary_calls < MAX_PRIMARY_ATTEMPTS {
                Step::Call { target: Processor::Primary, after_backoff: true }
            } else {
                Step::Call { target: Processor::Secondary, after_backoff: true }
            },
            Processor::Secondary => Step::Requeue,
        },
    }
}

pub open spec fn calls_of(step: Step, target: Processor) -> nat {
    if step matches Step::Call { target: t, .. } && t == target {
        1
    } else {
        0
    }
}

impl Delivery {
    /// The counters include the call that the current step asks for, and
    /// never pass their bounds.
    pub open spec fn wf(&self) -> bool {
        &&& 0 < self.primary_calls + self.secondary_calls || !(self.step is Call)
        &&& self.primary_calls <= MAX_PRIMARY_ATTEMPTS
        &&& self.secondary_calls <= 1
        &&& (self.step matches Step::Call { target: Processor::Primary, .. } ==> self.secondary_calls == 0
            && self.primary_calls > 0)
        &&& (self.step matches Step::Call { target: Processor::Secondary, .. } ==> self.secondary_calls == 1)
    }

    /// Starts a delivery on a routing decision: a call to the chosen
    /// processor, or straight back to the queue when none is available.
    pub fn begin(decision: ProcessorDecision) -> (r: Delivery)
        ensures
            r.wf(),
            r.step == first_step(decision),
            r.primary_calls == calls_of(r.step, Processor::Primary),
            r.secondary_calls == calls_of(r.step, Processor::Secondary),
    {
        match decision {
            ProcessorDecision::DEFAULT => Delivery {
                step: Step::Call { target: Processor::Primary, after_backoff: false },
                primary_calls: 1,
                secondary_calls: 0,
            },
            ProcessorDecision::FALLBACK => Delivery {
                step: Step::Call { target: Processor::Secondary, after_backoff: false },
                primary_calls: 0,
                secondary_calls: 1,
            },
            ProcessorDecision::FAILING => Delivery { step: Step::Requeue, primary_calls: 0, secondary_calls: 0 },
        }
    }

    /// Takes in how the call of the current step ended and returns the next step.
    pub fn on_call(&mut self, outcome: CallOutcome) -> (r: Step)
        requires
            old(self).wf(),
            old(self).step is Call,
        ensures
            final(self).wf(),
            r == final(self).step,
            r == step_after_call(old(self).step->target, old(self).primary_calls, outcome),
            final(self).primary_calls == old(self).primary_calls + calls_of(r, Processor::Primary),
            final(self).secondary_calls == old(self).secondary_calls + calls_of(r, Processor::Secondary),
    {
        let target = match self.step {
            Step::Call { target, .. } => target,
            _ => Processor::Primary,
        };
        let next = match outcome {
            CallOutcome::Accepted => Step::Record(target),
            CallOutcome::Unreachable => Step::Requeue,
            CallOutcome::Refused => match target {
                Processor::Primary => if self.primary_calls < MAX_PRIMARY_ATTEMPTS {
                    self.primary_calls = self.primary_calls + 1;
                    Step::Call { target: Processor::Primary, after_backoff: true }
                } else {
                    self.secondary_calls = self.secondary_calls + 1;
                    Step::Call { target: Processor::Secondary, after_backoff: true }
                },
                Processor::Secondary => Step::Requeue,
            },
        };
        self.step = next;
        next
    }

    /// How long to wait before requeueing: the unavailability back-off when
    /// no processor was called in this delivery, none otherwise.
    pub fn requeue_pause_ms(&self) -> (r: u64)
        ensures
            r == (if self.primary_calls + self.secondary_calls == 0 { UNAVAILABLE_BACKOFF_MS } else { 0 }),
    {
        if self.primary_calls == 0 && self.secondary_calls == 0 {
            UNAVAILABLE_BACKOFF_MS
        } else {
            0
        }
    }

    /// Takes in whether the ledger write of the current step succeeded.
    pub fn on_record(&mut self, stored: bool) -> (r: Step)
        requires
            old(self).wf(),
            old(self).step is Record,
        ensures
            final(self).wf(),
            r == final(self).step,
            r == (if stored { Step::Done } else { Step::Requeue }),
            final(self).primary_calls == old(self).primary_calls,
            final(self).secondary_calls == old(self).secondary_calls,
    {
        self.step = if stored { Step::Done } else { Step::Requeue };
        self.step
    }
}

/// Within one delivery, the primary is called at most `MAX_PRIMARY_ATTEMPTS`
/// times and the secondary at most once, whatever the calls return.
pub proof fn lemma_calls_bounded(d: Delivery, outcome: CallOutcome)
    requires
        d.wf(),
        d.step is Call,
    ensures
        ({
            let next = step_after_call(d.step->target, d.primary_calls, outcome);
            &&& d.primary_calls + calls_of(next, Processor::Primary) <= MAX_PRIMARY_ATTEMPTS
            &&& d.secondary_calls + calls_of(next, Processor::Secondary) <= 1
        }),
{
}

/// A payment is written to the ledger only after a processor accepted it,
/// and under that processor.
pub proof fn lemma_record_only_after_acceptance(target: Processor, primary_calls: u32, outcome: CallOutcome)
    ensures
        step_after_call(target, primary_calls, outcome) is Record <==> outcome == CallOutcome::Accepted,
        step_after_call(target, primary_calls, outcome) matches Step::Record(p) ==> p == target,
{
}

/// With no processor available a payment goes back to the queue without
/// any downstream call.
pub proof fn lemma_unavailable_requeues()
    ensures
        first_step(ProcessorDecision::FAILING) == Step::Requeue,
{
}

} // verus!
