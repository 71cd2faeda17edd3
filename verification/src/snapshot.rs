//! What a tokio runtime reports at one instant, as plain values: the input of
//! one collection.

use vstd::prelude::*;

verus! {

/// What the runtime reports of one worker thread.
#[derive(Clone, Copy, Debug)]
pub struct WorkerMetrics {
    /// How many times the worker parked.
    pub park_count: u64,
    /// How many times the worker unparked and parked again without work.
    pub noop_count: u64,
    /// How many tasks the worker stole from other workers.
    pub steal_count: u64,
    /// How many times the worker stole tasks from other workers.
    pub steal_operations: u64,
    /// How many tasks were scheduled from the worker thread.
    pub local_schedule_count: u64,
    /// How many times the worker's local queue overflowed.
    pub overflow_count: u64,
    /// How many tasks the worker polled.
    pub poll_count: u64,
    /// How many tasks wait in the worker's local queue.
    pub local_queue_depth: usize,
}

/// What the runtime reports at one instant: one entry per worker, in the
/// order of the workers' indices, and the runtime-wide values.
#[derive(Debug)]
pub struct RuntimeSnapshot {
    /// The workers' readings; their number is the runtime's number of workers.
    pub workers: Vec<WorkerMetrics>,
    /// How many tasks were scheduled from outside the runtime.
    pub remote_schedule_count: u64,
    /// How many times tasks were forced to yield after exhausting their budget.
    pub budget_forced_yield_count: u64,
    /// How many tasks wait in the runtime's injection queue.
    pub injection_queue_depth: usize,
    /// How many ready events the I/O driver processed, where it is reported.
    pub io_driver_ready_count: Option<u64>,
}

/// The workers' park counts, in worker order.
pub open spec fn park_readings(s: RuntimeSnapshot) -> Seq<u64> {
    s.workers@.map_values(|w: WorkerMetrics| w.park_count)
}

/// The workers' no-op counts, in worker order.
pub open spec fn noop_readings(s: RuntimeSnapshot) -> Seq<u64> {
    s.workers@.map_values(|w: WorkerMetrics| w.noop_count)
}

/// The workers' counts of stolen tasks, in worker order.
pub open spec fn steal_readings(s: RuntimeSnapshot) -> Seq<u64> {
    s.workers@.map_values(|w: WorkerMetrics| w.steal_count)
}

/// The workers' counts of steal operations, in worker order.
pub open spec fn steal_operation_readings(s: RuntimeSnapshot) -> Seq<u64> {
    s.workers@.map_values(|w: WorkerMetrics| w.steal_operations)
}

/// The workers' counts of locally scheduled tasks, in worker order.
pub open spec fn local_schedule_readings(s: RuntimeSnapshot) -> Seq<u64> {
    s.workers@.map_values(|w: WorkerMetrics| w.local_schedule_count)
}

/// The workers' overflow counts, in worker order.
pub open spec fn overflow_readings(s: RuntimeSnapshot) -> Seq<u64> {
    s.workers@.map_values(|w: WorkerMetrics| w.overflow_count)
}

/// The workers' poll counts, in worker order.
pub open spec fn poll_readings(s: RuntimeSnapshot) -> Seq<u64> {
    s.workers@.map_values(|w: WorkerMetrics| w.poll_count)
}

/// The workers' local queue depths as the gauge holds them (`as i64`), in
/// worker order.
pub open spec fn queue_depth_readings(s: RuntimeSnapshot) -> Seq<i64> {
    s.workers@.map_values(|w: WorkerMetrics| w.local_queue_depth as i64)
}

} // verus!
