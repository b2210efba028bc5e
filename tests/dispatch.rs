use rinha_gateway::delivery::{MAX_PRIMARY_ATTEMPTS, RETRY_BACKOFF_MS, UNAVAILABLE_BACKOFF_MS};
use rinha_gateway::routing::{decide_at, DEFAULT_TOLERANCE_PERMILLE};
use rinha_gateway::{
    AdmissionQueue, CallOutcome, Delivery, HealthResponse, HealthStatusAll, PaymentsSummary, PostPayments,
    Processor, ProcessorDecision, Step, SummaryData, WorkerPool,
};

fn primary_call(after_backoff: bool) -> Step {
    Step::Call { target: Processor::Primary, after_backoff }
}

#[test]
fn healthy_fast_primary_end_to_end() {
    let health = HealthStatusAll {
        default: HealthResponse { failing: false, min_response_time: 200, failing_since: None },
        fallback: HealthResponse { failing: false, min_response_time: 200, failing_since: None },
    };
    let payment = PostPayments { correlation_id: "a1".to_string(), amount: 199_000 };
    let mut queue: AdmissionQueue<PostPayments> = AdmissionQueue::new(4);
    assert!(queue.try_enqueue(payment).is_ok());
    let mut pool = WorkerPool::new(1);
    let job = pool.start_next(&mut queue).unwrap();
    assert_eq!(job.correlation_id, "a1");

    let decision = decide_at(&health, 1_000, DEFAULT_TOLERANCE_PERMILLE);
    assert_eq!(decision, ProcessorDecision::DEFAULT);
    let mut d = Delivery::begin(decision);
    assert_eq!(d.step, primary_call(false));
    let step = d.on_call(CallOutcome::Accepted);
    assert_eq!(step, Step::Record(Processor::Primary));
    assert_eq!(Processor::Primary.ledger_name(), "default");
    assert_eq!(d.on_record(true), Step::Done);
    assert_eq!(d.primary_calls, 1);
    assert_eq!(d.secondary_calls, 0);
    pool.release();
    assert_eq!(pool.active(), 0);

    let s = PaymentsSummary::of_amounts(&vec![job.amount], &vec![]).unwrap();
    assert_eq!(s.default, SummaryData { total_requests: 1, total_amount: 199_000 });
    assert_eq!(s.fallback, SummaryData { total_requests: 0, total_amount: 0 });
}

#[test]
fn refusal_then_success_records_once() {
    let mut d = Delivery::begin(ProcessorDecision::DEFAULT);
    assert_eq!(d.on_call(CallOutcome::Refused), primary_call(true));
    assert_eq!(d.on_call(CallOutcome::Accepted), Step::Record(Processor::Primary));
    assert_eq!(d.on_record(true), Step::Done);
    assert_eq!(d.primary_calls, 2);
    assert_eq!(d.secondary_calls, 0);
}

#[test]
fn primary_refusals_fall_back_to_secondary_once() {
    let mut d = Delivery::begin(ProcessorDecision::DEFAULT);
    for _ in 1..MAX_PRIMARY_ATTEMPTS {
        assert_eq!(d.on_call(CallOutcome::Refused), primary_call(true));
    }
    assert_eq!(d.primary_calls, MAX_PRIMARY_ATTEMPTS);
    assert_eq!(d.on_call(CallOutcome::Refused), Step::Call { target: Processor::Secondary, after_backoff: true });
    assert_eq!(d.secondary_calls, 1);
    assert_eq!(d.on_call(CallOutcome::Refused), Step::Requeue);
    assert_eq!(d.primary_calls, 5);
    assert_eq!(RETRY_BACKOFF_MS, 500);
}

#[test]
fn secondary_decision_calls_secondary() {
    let mut d = Delivery::begin(ProcessorDecision::FALLBACK);
    assert_eq!(d.step, Step::Call { target: Processor::Secondary, after_backoff: false });
    assert_eq!(d.on_call(CallOutcome::Accepted), Step::Record(Processor::Secondary));
    assert_eq!(Processor::Secondary.ledger_name(), "fallback");
}

#[test]
fn transport_error_requeues() {
    let mut d = Delivery::begin(ProcessorDecision::DEFAULT);
    assert_eq!(d.on_call(CallOutcome::Unreachable), Step::Requeue);
    assert_eq!(d.primary_calls, 1);
    assert_eq!(d.requeue_pause_ms(), 0);
}

#[test]
fn failed_ledger_write_requeues() {
    let mut d = Delivery::begin(ProcessorDecision::FALLBACK);
    d.on_call(CallOutcome::Accepted);
    assert_eq!(d.on_record(false), Step::Requeue);
}

#[test]
fn both_failing_requeues_without_calls() {
    let health = HealthStatusAll {
        default: HealthResponse { failing: true, min_response_time: 10, failing_since: Some(1) },
        fallback: HealthResponse { failing: true, min_response_time: 10, failing_since: Some(1) },
    };
    let mut queue: AdmissionQueue<u32> = AdmissionQueue::new(2);
    queue.try_enqueue(7).unwrap();
    for round in 0..100u64 {
        let mut pool = WorkerPool::new(1);
        let job = pool.start_next(&mut queue).unwrap();
        let d = Delivery::begin(decide_at(&health, 10_000 + round, DEFAULT_TOLERANCE_PERMILLE));
        assert_eq!(d.step, Step::Requeue);
        assert_eq!(d.primary_calls + d.secondary_calls, 0);
        assert_eq!(d.requeue_pause_ms(), UNAVAILABLE_BACKOFF_MS);
        assert!(queue.try_enqueue(job).is_ok());
    }
    assert_eq!(queue.len(), 1);
}

#[test]
fn full_queue_rejects_at_once_and_keeps_items() {
    let mut queue: AdmissionQueue<u32> = AdmissionQueue::new(3);
    for i in 0..3 {
        assert!(queue.try_enqueue(i).is_ok());
    }
    assert!(queue.is_full());
    assert_eq!(queue.try_enqueue(99), Err(99));
    assert_eq!(queue.len(), 3);
    assert_eq!(queue.capacity(), 3);
    assert_eq!(queue.dequeue(), Some(0));
    assert_eq!(queue.dequeue(), Some(1));
    assert_eq!(queue.dequeue(), Some(2));
    assert_eq!(queue.dequeue(), None);
}

#[test]
fn zero_capacity_queue_rejects_everything() {
    let mut queue: AdmissionQueue<u8> = AdmissionQueue::new(0);
    assert_eq!(queue.try_enqueue(1), Err(1));
    assert_eq!(queue.len(), 0);
}

#[test]
fn worker_pool_never_exceeds_limit() {
    let mut pool = WorkerPool::new(2);
    assert!(pool.try_acquire());
    assert!(pool.try_acquire());
    assert!(!pool.try_acquire());
    assert_eq!(pool.active(), 2);
    pool.release();
    assert!(pool.try_acquire());
    assert!(!pool.try_acquire());
    assert_eq!(pool.limit(), 2);
}

#[test]
fn start_next_needs_slot_and_work() {
    let mut queue: AdmissionQueue<u32> = AdmissionQueue::new(10);
    let mut pool = WorkerPool::new(2);
    assert_eq!(pool.start_next(&mut queue), None);
    for i in 0..5 {
        queue.try_enqueue(i).unwrap();
    }
    assert_eq!(pool.start_next(&mut queue), Some(0));
    assert_eq!(pool.start_next(&mut queue), Some(1));
    assert_eq!(pool.start_next(&mut queue), None);
    assert_eq!(queue.len(), 3);
    assert_eq!(pool.active(), 2);
    pool.release();
    assert_eq!(pool.start_next(&mut queue), Some(2));
}
