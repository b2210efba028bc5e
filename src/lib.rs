//! Payment-dispatch gateway core: processor health tracking, routing,
//! admission control, delivery planning, health replication and summaries.

pub mod admission;
pub mod amount;
pub mod clock;
pub mod delivery;
pub mod health;
pub mod replication;
pub mod routing;
pub mod summary;

pub use admission::{AdmissionQueue, WorkerPool};
pub use amount::{round2, PaymentsSummary, SummaryData, AMOUNT_SCALE};
pub use clock::{elapsed_between, elapsed_since, millis_or_zero, now_unix_ms};
pub use delivery::{CallOutcome, Delivery, PostPayments, Processor, Step};
pub use health::{HealthResponse, HealthStatusAll, ProbeResult};
pub use replication::{receive_snapshot, role_from_name, Role};
pub use routing::{decide_at, get_best_processor, ProcessorDecision};
pub use summary::{date_to_ts, PaymentsSummaryFilter, SummaryQuery};
