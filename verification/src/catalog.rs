//! The metrics that a collector exports: their names, help texts and kinds,
//! in the order in which the collector describes them.

use vstd::prelude::*;

use crate::naming::{
    fq_name, lemma_fq_name_valid, lemma_metric_name_chars_from, lemma_valid_namespace_exactly,
    metric_name_chars_from, valid_label_name, valid_metric_name, valid_namespace,
};

verus! {

/// How many metrics a collector describes.
pub const METRICS_NUMBER: usize = 15;

/// The name of the label that tells the workers of a runtime apart.
pub const WORKER_LABEL: &'static str = "worker";
pub const WORKERS_COUNT_NAME: &'static str = "rust_tokio_workers_count";
pub const WORKERS_COUNT_HELP: &'static str = r#"The number of worker threads used by the runtime.
This metric is static for a runtime.
This metric is always equal to tokio::runtime::RuntimeMetrics::num_workers. When using the current_thread runtime, the return value is always 1."#;
pub const PARK_COUNT_NAME: &'static str = "rust_tokio_parks";
pub const PARK_COUNT_HELP: &'static str = r#"The number of times worker threads parked.
The worker park count increases by one each time the worker parks the thread waiting for new inbound events to process. This usually means the worker has processed all pending work and is currently idle."#;
pub const NOOP_COUNT_NAME: &'static str = "rust_tokio_noops";
pub const NOOP_COUNT_HELP: &'static str = r#"The number of times worker threads unparked but performed no work before parking again.
The worker no-op count increases by one each time the worker unparks the thread but finds no new work and goes back to sleep. This indicates a false-positive wake up."#;
pub const STEAL_COUNT_NAME: &'static str = "rust_tokio_steals";
pub const STEAL_COUNT_HELP: &'static str = r#"The number of tasks worker threads stole from another worker thread.
The worker steal count increases by the amount of stolen tasks each time the worker has processed its scheduled queue and successfully steals more pending tasks from another worker.
This metric only applies to the multi-threaded runtime and will always return 0 when using the current thread runtime."#;
pub const STEAL_OPERATIONS_NAME: &'static str = "rust_tokio_steal_operations";
pub const STEAL_OPERATIONS_HELP: &'static str = r#"The number of times worker threads stole tasks from another worker thread.
The worker steal operations increases by one each time the worker has processed its scheduled queue and successfully steals more pending tasks from another worker.
This metric only applies to the multi-threaded runtime and will always return 0 when using the current thread runtime."#;
pub const REMOTE_SCHEDULE_COUNT_NAME: &'static str = "rust_tokio_remote_schedules";
pub const REMOTE_SCHEDULE_COUNT_HELP: &'static str = r#"The number of tasks scheduled from outside of the runtime.
The remote schedule count increases by one each time a task is woken from outside of the runtime. This usually means that a task is spawned or notified from a non-runtime thread and must be queued using the Runtime’s injection queue, which tends to be slower."#;
pub const LOCAL_SCHEDULE_COUNT_NAME: &'static str = "rust_tokio_local_schedules";
pub const LOCAL_SCHEDULE_COUNT_HELP: &'static str = r#"The number of tasks scheduled from worker threads.
The local schedule count increases by one each time a task is woken from inside of the runtime. This usually means that a task is spawned or notified from within a runtime thread and will be queued on the worker-local queue."#;
pub const OVERFLOW_COUNT_NAME: &'static str = "rust_tokio_overflows";
pub const OVERFLOW_COUNT_HELP: &'static str = r#"The number of times worker threads saturated their local queues.
The worker steal count increases by one each time the worker attempts to schedule a task locally, but its local queue is full. When this happens, half of the local queue is moved to the injection queue.
This metric only applies to the multi-threaded scheduler."#;
pub const POLLS_COUNT_NAME: &'static str = "rust_tokio_polls";
pub const POLLS_COUNT_HELP: &'static str = r#"The number of tasks that have been polled across all worker threads.
The worker poll count increases by one each time a worker polls a scheduled task."#;
pub const BUSY_DURATION_SECONDS_NAME: &'static str = "rust_tokio_busy_duration_seconds";
pub const BUSY_DURATION_SECONDS_HELP: &'static str = r#"The amount of time worker threads were busy.
The worker busy duration increases whenever the worker is spending time processing work. Using this value can indicate the  load of workers."#;
pub const INJECTION_QUEUE_DEPTH_GAUGE_NAME: &'static str = "rust_tokio_injection_queue_depth_gauge";
pub const INJECTION_QUEUE_DEPTH_GAUGE_HELP: &'static str = r#"The number of tasks currently scheduled in the runtime’s injection queue.
Tasks that are spawned or notified from a non-runtime thread are scheduled using the runtime’s injection queue. This metric returns the current number of tasks pending in the injection queue. As such, the returned value may increase or decrease as new tasks are scheduled and processed."#;
pub const LOCAL_QUEUE_DEPTH_GAUGE_NAME: &'static str = "rust_tokio_local_queue_depth_gauge";
pub const LOCAL_QUEUE_DEPTH_GAUGE_HELP: &'static str = r#"The number of tasks currently scheduled in workers’ local queues.
Tasks that are spawned or notified from within a runtime thread are scheduled using that worker’s local queue. This metric returns the current number of tasks pending in all workers’ local queues. As such, the returned value may increase or decrease as new tasks are scheduled and processed."#;
pub const BUDGET_FORCED_YIELD_COUNT_NAME: &'static str = "rust_tokio_budget_forced_yield_count";
pub const BUDGET_FORCED_YIELD_COUNT_HELP: &'static str = r#"The number of times that tasks have been forced to yield back to the scheduler after exhausting their task budgets.
This count starts at zero when the runtime is created and increases by one each time a task yields due to exhausting its budget.
The counter is monotonically increasing. It is never decremented or reset to zero."#;
pub const IO_DRIVER_READY_COUNT_NAME: &'static str = "rust_tokio_io_driver_ready_count";
pub const IO_DRIVER_READY_COUNT_HELP: &'static str = r#"The number of ready events processed by the runtime’s I/O driver.
The metric needs the 'net' feature from tokio to be reported."#;
pub const MEAN_POLLS_PER_PARK_NAME: &'static str = "rust_tokio_mean_polls_per_park";
pub const MEAN_POLLS_PER_PARK_HELP: &'static str = r#"Mean number of tasks that have been polled per useful worker park event.

A useful park event is a park event that was not a noop for the worker. If there are no useful park events, then the metric returns NaN."#;

/// One of the metrics that a collector exports.
#[derive(Clone, Copy, Debug, PartialEq, Eq, Structural)]
pub enum MetricId {
    WorkersCount,
    ParkCount,
    NoopCount,
    StealCount,
    StealOperations,
    RemoteScheduleCount,
    LocalScheduleCount,
    OverflowCount,
    PollsCount,
    BusyDurationSeconds,
    InjectionQueueDepthGauge,
    LocalQueueDepthGauge,
    BudgetForcedYieldCount,
    IoDriverReadyCount,
    MeanPollsPerPark,
}

/// The prometheus type that holds a metric.
#[derive(Clone, Copy, Debug, PartialEq, Eq, Structural)]
pub enum MetricKind {
    /// An integer gauge.
    IntGauge,
    /// A floating-point gauge.
    Gauge,
    /// An integer counter.
    IntCounter,
    /// Integer counters, one per worker.
    IntCounterVec,
    /// Integer gauges, one per worker.
    IntGaugeVec,
    /// Floating-point counters, one per worker.
    CounterVec,
}

/// Whether a metric of this kind keeps one value per worker.
pub open spec fn kind_is_per_worker(k: MetricKind) -> bool {
    k == MetricKind::IntCounterVec || k == MetricKind::IntGaugeVec || k == MetricKind::CounterVec
}

/// The metrics in the order in which a collector describes them.
pub open spec fn spec_all_metrics() -> Seq<MetricId> {
    seq![
        MetricId::WorkersCount,
        MetricId::ParkCount,
        MetricId::NoopCount,
        MetricId::StealCount,
        MetricId::StealOperations,
        MetricId::RemoteScheduleCount,
        MetricId::LocalScheduleCount,
        MetricId::OverflowCount,
        MetricId::PollsCount,
        MetricId::BusyDurationSeconds,
        MetricId::InjectionQueueDepthGauge,
        MetricId::LocalQueueDepthGauge,
        MetricId::BudgetForcedYieldCount,
        MetricId::IoDriverReadyCount,
        MetricId::MeanPollsPerPark,
    ]
}

/// The metrics whose families one collection gathers, in the order in which
/// it gathers them: the worker count, the per-worker metrics, then the
/// runtime-wide ones, with the I/O driver's ready events only where they are
/// reported. The mean polls per park comes after them, once it is set.
pub open spec fn spec_collection_order(io_driver: bool) -> Seq<MetricId> {
    let base = seq![
        MetricId::WorkersCount,
        MetricId::ParkCount,
        MetricId::NoopCount,
        MetricId::StealCount,
        MetricId::StealOperations,
        MetricId::LocalScheduleCount,
        MetricId::OverflowCount,
        MetricId::PollsCount,
        MetricId::LocalQueueDepthGauge,
        MetricId::BusyDurationSeconds,
        MetricId::RemoteScheduleCount,
        MetricId::BudgetForcedYieldCount,
        MetricId::InjectionQueueDepthGauge,
    ];
    if io_driver {
        base.push(MetricId::IoDriverReadyCount)
    } else {
        base
    }
}

/// The name of a metric, before a namespace is put in front of it.
pub open spec fn spec_metric_name(m: MetricId) -> Seq<char> {
    match m {
        MetricId::WorkersCount => WORKERS_COUNT_NAME@,
        MetricId::ParkCount => PARK_COUNT_NAME@,
        MetricId::NoopCount => NOOP_COUNT_NAME@,
        MetricId::StealCount => STEAL_COUNT_NAME@,
        MetricId::StealOperations => STEAL_OPERATIONS_NAME@,
        MetricId::RemoteScheduleCount => REMOTE_SCHEDULE_COUNT_NAME@,
        MetricId::LocalScheduleCount => LOCAL_SCHEDULE_COUNT_NAME@,
        MetricId::OverflowCount => OVERFLOW_COUNT_NAME@,
        MetricId::PollsCount => POLLS_COUNT_NAME@,
        MetricId::BusyDurationSeconds => BUSY_DURATION_SECONDS_NAME@,
        MetricId::InjectionQueueDepthGauge => INJECTION_QUEUE_DEPTH_GAUGE_NAME@,
        MetricId::LocalQueueDepthGauge => LOCAL_QUEUE_DEPTH_GAUGE_NAME@,
        MetricId::BudgetForcedYieldCount => BUDGET_FORCED_YIELD_COUNT_NAME@,
        MetricId::IoDriverReadyCount => IO_DRIVER_READY_COUNT_NAME@,
        MetricId::MeanPollsPerPark => MEAN_POLLS_PER_PARK_NAME@,
    }
}

/// The help text of a metric.
pub open spec fn spec_metric_help(m: MetricId) -> Seq<char> {
    match m {
        MetricId::WorkersCount => WORKERS_COUNT_HELP@,
        MetricId::ParkCount => PARK_COUNT_HELP@,
        MetricId::NoopCount => NOOP_COUNT_HELP@,
        MetricId::StealCount => STEAL_COUNT_HELP@,
        MetricId::StealOperations => STEAL_OPERATIONS_HELP@,
        MetricId::RemoteScheduleCount => REMOTE_SCHEDULE_COUNT_HELP@,
        MetricId::LocalScheduleCount => LOCAL_SCHEDULE_COUNT_HELP@,
        MetricId::OverflowCount => OVERFLOW_COUNT_HELP@,
        MetricId::PollsCount => POLLS_COUNT_HELP@,
        MetricId::BusyDurationSeconds => BUSY_DURATION_SECONDS_HELP@,
        MetricId::InjectionQueueDepthGauge => INJECTION_QUEUE_DEPTH_GAUGE_HELP@,
        MetricId::LocalQueueDepthGauge => LOCAL_QUEUE_DEPTH_GAUGE_HELP@,
        MetricId::BudgetForcedYieldCount => BUDGET_FORCED_YIELD_COUNT_HELP@,
        MetricId::IoDriverReadyCount => IO_DRIVER_READY_COUNT_HELP@,
        MetricId::MeanPollsPerPark => MEAN_POLLS_PER_PARK_HELP@,
    }
}

/// The prometheus type that holds a metric.
pub open spec fn spec_metric_kind(m: MetricId) -> MetricKind {
    match m {
        MetricId::WorkersCount => MetricKind::IntGauge,
        MetricId::ParkCount => MetricKind::IntCounterVec,
        MetricId::NoopCount => MetricKind::IntCounterVec,
        MetricId::StealCount => MetricKind::IntCounterVec,
        MetricId::StealOperations => MetricKind::IntCounterVec,
        MetricId::RemoteScheduleCount => MetricKind::IntCounter,
        MetricId::LocalScheduleCount => MetricKind::IntCounterVec,
        MetricId::OverflowCount => MetricKind::IntCounterVec,
        MetricId::PollsCount => MetricKind::IntCounterVec,
        MetricId::BusyDurationSeconds => MetricKind::CounterVec,
        MetricId::InjectionQueueDepthGauge => MetricKind::IntGauge,
        MetricId::LocalQueueDepthGauge => MetricKind::IntGaugeVec,
        MetricId::BudgetForcedYieldCount => MetricKind::IntCounter,
        MetricId::IoDriverReadyCount => MetricKind::IntCounter,
        MetricId::MeanPollsPerPark => MetricKind::Gauge,
    }
}

/// The protobuf number of the type that a metric's family carries: 1 for a
/// gauge, 0 for a counter.
pub open spec fn spec_metric_type_code(m: MetricId) -> int {
    let k = spec_metric_kind(m);
    if k == MetricKind::IntGauge || k == MetricKind::Gauge || k == MetricKind::IntGaugeVec {
        1
    } else {
        0
    }
}

/// The label names that a metric is made with.
pub open spec fn spec_metric_labels(m: MetricId) -> Seq<Seq<char>> {
    if kind_is_per_worker(spec_metric_kind(m)) {
        seq![WORKER_LABEL@]
    } else {
        Seq::empty()
    }
}

impl MetricId {
    /// The name of the metric, before a namespace is put in front of it.
    pub fn name(self) -> (r: &'static str)
        ensures
            r@ == spec_metric_name(self),
    {
        match self {
            MetricId::WorkersCount => WORKERS_COUNT_NAME,
            MetricId::ParkCount => PARK_COUNT_NAME,
            MetricId::NoopCount => NOOP_COUNT_NAME,
            MetricId::StealCount => STEAL_COUNT_NAME,
            MetricId::StealOperations => STEAL_OPERATIONS_NAME,
            MetricId::RemoteScheduleCount => REMOTE_SCHEDULE_COUNT_NAME,
            MetricId::LocalScheduleCount => LOCAL_SCHEDULE_COUNT_NAME,
            MetricId::OverflowCount => OVERFLOW_COUNT_NAME,
            MetricId::PollsCount => POLLS_COUNT_NAME,
            MetricId::BusyDurationSeconds => BUSY_DURATION_SECONDS_NAME,
            MetricId::InjectionQueueDepthGauge => INJECTION_QUEUE_DEPTH_GAUGE_NAME,
            MetricId::LocalQueueDepthGauge => LOCAL_QUEUE_DEPTH_GAUGE_NAME,
            MetricId::BudgetForcedYieldCount => BUDGET_FORCED_YIELD_COUNT_NAME,
            MetricId::IoDriverReadyCount => IO_DRIVER_READY_COUNT_NAME,
            MetricId::MeanPollsPerPark => MEAN_POLLS_PER_PARK_NAME,
        }
    }

    /// The help text of the metric.
    pub fn help(self) -> (r: &'static str)
        ensures
            r@ == spec_metric_help(self),
    {
        match self {
            MetricId::WorkersCount => WORKERS_COUNT_HELP,
            MetricId::ParkCount => PARK_COUNT_HELP,
            MetricId::NoopCount => NOOP_COUNT_HELP,
            MetricId::StealCount => STEAL_COUNT_HELP,
            MetricId::StealOperations => STEAL_OPERATIONS_HELP,
            MetricId::RemoteScheduleCount => REMOTE_SCHEDULE_COUNT_HELP,
            MetricId::LocalScheduleCount => LOCAL_SCHEDULE_COUNT_HELP,
            MetricId::OverflowCount => OVERFLOW_COUNT_HELP,
            MetricId::PollsCount => POLLS_COUNT_HELP,
            MetricId::BusyDurationSeconds => BUSY_DURATION_SECONDS_HELP,
            MetricId::InjectionQueueDepthGauge => INJECTION_QUEUE_DEPTH_GAUGE_HELP,
            MetricId::LocalQueueDepthGauge => LOCAL_QUEUE_DEPTH_GAUGE_HELP,
            MetricId::BudgetForcedYieldCount => BUDGET_FORCED_YIELD_COUNT_HELP,
            MetricId::IoDriverReadyCount => IO_DRIVER_READY_COUNT_HELP,
            MetricId::MeanPollsPerPark => MEAN_POLLS_PER_PARK_HELP,
        }
    }

    /// The prometheus type that holds the metric.
    pub fn kind(self) -> (r: MetricKind)
        ensures
            r == spec_metric_kind(self),
    {
        match self {
            MetricId::WorkersCount => MetricKind::IntGauge,
            MetricId::ParkCount => MetricKind::IntCounterVec,
            MetricId::NoopCount => MetricKind::IntCounterVec,
            MetricId::StealCount => MetricKind::IntCounterVec,
            MetricId::StealOperations => MetricKind::IntCounterVec,
            MetricId::RemoteScheduleCount => MetricKind::IntCounter,
            MetricId::LocalScheduleCount => MetricKind::IntCounterVec,
            MetricId::OverflowCount => MetricKind::IntCounterVec,
            MetricId::PollsCount => MetricKind::IntCounterVec,
            MetricId::BusyDurationSeconds => MetricKind::CounterVec,
            MetricId::InjectionQueueDepthGauge => MetricKind::IntGauge,
            MetricId::LocalQueueDepthGauge => MetricKind::IntGaugeVec,
            MetricId::BudgetForcedYieldCount => MetricKind::IntCounter,
            MetricId::IoDriverReadyCount => MetricKind::IntCounter,
            MetricId::MeanPollsPerPark => MetricKind::Gauge,
        }
    }
}

/// The metrics in the order in which a collector describes them.
pub fn all_metrics() -> (r: Vec<MetricId>)
    ensures
        r@ == spec_all_metrics(),
        r.len() == METRICS_NUMBER,
{
    vec![
        MetricId::WorkersCount,
        MetricId::ParkCount,
        MetricId::NoopCount,
        MetricId::StealCount,
        MetricId::StealOperations,
        MetricId::RemoteScheduleCount,
        MetricId::LocalScheduleCount,
        MetricId::OverflowCount,
        MetricId::PollsCount,
        MetricId::BusyDurationSeconds,
        MetricId::InjectionQueueDepthGauge,
        MetricId::LocalQueueDepthGauge,
        MetricId::BudgetForcedYieldCount,
        MetricId::IoDriverReadyCount,
        MetricId::MeanPollsPerPark,
    ]
}

/// Every name of the catalogue is a valid prometheus metric name, and every
/// help text is non-empty.
pub proof fn lemma_metric_valid(m: MetricId)
    ensures
        valid_metric_name(spec_metric_name(m)),
        spec_metric_help(m).len() > 0,
        forall|i: int|
            0 <= i < spec_metric_labels(m).len() ==> valid_label_name(
                #[trigger] spec_metric_labels(m)[i],
            ),
{
    lemma_worker_label_valid();
    reveal_with_fuel(metric_name_chars_from, 40);
    match m {
        MetricId::WorkersCount => {
            reveal_strlit("rust_tokio_workers_count");
            reveal_strlit(r#"The number of worker threads used by the runtime.
This metric is static for a runtime.
This metric is always equal to tokio::runtime::RuntimeMetrics::num_workers. When using the current_thread runtime, the return value is always 1."#);
            lemma_metric_name_chars_from(WORKERS_COUNT_NAME@);
        },
        MetricId::ParkCount => {
            reveal_strlit("rust_tokio_parks");
            reveal_strlit(r#"The number of times worker threads parked.
The worker park count increases by one each time the worker parks the thread waiting for new inbound events to process. This usually means the worker has processed all pending work and is currently idle."#);
            lemma_metric_name_chars_from(PARK_COUNT_NAME@);
        },
        MetricId::NoopCount => {
            reveal_strlit("rust_tokio_noops");
            reveal_strlit(r#"The number of times worker threads unparked but performed no work before parking again.
The worker no-op count increases by one each time the worker unparks the thread but finds no new work and goes back to sleep. This indicates a false-positive wake up."#);
            lemma_metric_name_chars_from(NOOP_COUNT_NAME@);
        },
        MetricId::StealCount => {
            reveal_strlit("rust_tokio_steals");
            reveal_strlit(r#"The number of tasks worker threads stole from another worker thread.
The worker steal count increases by the amount of stolen tasks each time the worker has processed its scheduled queue and successfully steals more pending tasks from another worker.
This metric only applies to the multi-threaded runtime and will always return 0 when using the current thread runtime."#);
            lemma_metric_name_chars_from(STEAL_COUNT_NAME@);
        },
        MetricId::StealOperations => {
            reveal_strlit("rust_tokio_steal_operations");
            reveal_strlit(r#"The number of times worker threads stole tasks from another worker thread.
The worker steal operations increases by one each time the worker has processed its scheduled queue and successfully steals more pending tasks from another worker.
This metric only applies to the multi-threaded runtime and will always return 0 when using the current thread runtime."#);
            lemma_metric_name_chars_from(STEAL_OPERATIONS_NAME@);
        },
        MetricId::RemoteScheduleCount => {
            reveal_strlit("rust_tokio_remote_schedules");
            reveal_strlit(r#"The number of tasks scheduled from outside of the runtime.
The remote schedule count increases by one each time a task is woken from outside of the runtime. This usually means that a task is spawned or notified from a non-runtime thread and must be queued using the Runtime’s injection queue, which tends to be slower."#);
            lemma_metric_name_chars_from(REMOTE_SCHEDULE_COUNT_NAME@);
        },
        MetricId::LocalScheduleCount => {
            reveal_strlit("rust_tokio_local_schedules");
            reveal_strlit(r#"The number of tasks scheduled from worker threads.
The local schedule count increases by one each time a task is woken from inside of the runtime. This usually means that a task is spawned or notified from within a runtime thread and will be queued on the worker-local queue."#);
            lemma_metric_name_chars_from(LOCAL_SCHEDULE_COUNT_NAME@);
        },
        MetricId::OverflowCount => {
            reveal_strlit("rust_tokio_overflows");
            reveal_strlit(r#"The number of times worker threads saturated their local queues.
The worker steal count increases by one each time the worker attempts to schedule a task locally, but its local queue is full. When this happens, half of the local queue is moved to the injection queue.
This metric only applies to the multi-threaded scheduler."#);
            lemma_metric_name_chars_from(OVERFLOW_COUNT_NAME@);
        },
        MetricId::PollsCount => {
            reveal_strlit("rust_tokio_polls");
            reveal_strlit(r#"The number of tasks that have been polled across all worker threads.
The worker poll count increases by one each time a worker polls a scheduled task."#);
            lemma_metric_name_chars_from(POLLS_COUNT_NAME@);
        },
        MetricId::BusyDurationSeconds => {
            reveal_strlit("rust_tokio_busy_duration_seconds");
            reveal_strlit(r#"The amount of time worker threads were busy.
The worker busy duration increases whenever the worker is spending time processing work. Using this value can indicate the  load of workers."#);
            lemma_metric_name_chars_from(BUSY_DURATION_SECONDS_NAME@);
        },
        MetricId::InjectionQueueDepthGauge => {
            reveal_strlit("rust_tokio_injection_queue_depth_gauge");
            reveal_strlit(r#"The number of tasks currently scheduled in the runtime’s injection queue.
Tasks that are spawned or notified from a non-runtime thread are scheduled using the runtime’s injection queue. This metric returns the current number of tasks pending in the injection queue. As such, the returned value may increase or decrease as new tasks are scheduled and processed."#);
            lemma_metric_name_chars_from(INJECTION_QUEUE_DEPTH_GAUGE_NAME@);
        },
        MetricId::LocalQueueDepthGauge => {
            reveal_strlit("rust_tokio_local_queue_depth_gauge");
            reveal_strlit(r#"The number of tasks currently scheduled in workers’ local queues.
Tasks that are spawned or notified from within a runtime thread are scheduled using that worker’s local queue. This metric returns the current number of tasks pending in all workers’ local queues. As such, the returned value may increase or decrease as new tasks are scheduled and processed."#);
            lemma_metric_name_chars_from(LOCAL_QUEUE_DEPTH_GAUGE_NAME@);
        },
        MetricId::BudgetForcedYieldCount => {
            reveal_strlit("rust_tokio_budget_forced_yield_count");
            reveal_strlit(r#"The number of times that tasks have been forced to yield back to the scheduler after exhausting their task budgets.
This count starts at zero when the runtime is created and increases by one each time a task yields due to exhausting its budget.
The counter is monotonically increasing. It is never decremented or reset to zero."#);
            lemma_metric_name_chars_from(BUDGET_FORCED_YIELD_COUNT_NAME@);
        },
        MetricId::IoDriverReadyCount => {
            reveal_strlit("rust_tokio_io_driver_ready_count");
            reveal_strlit(r#"The number of ready events processed by the runtime’s I/O driver.
The metric needs the 'net' feature from tokio to be reported."#);
            lemma_metric_name_chars_from(IO_DRIVER_READY_COUNT_NAME@);
        },
        MetricId::MeanPollsPerPark => {
            reveal_strlit("rust_tokio_mean_polls_per_park");
            reveal_strlit(r#"Mean number of tasks that have been polled per useful worker park event.

A useful park event is a park event that was not a noop for the worker. If there are no useful park events, then the metric returns NaN."#);
            lemma_metric_name_chars_from(MEAN_POLLS_PER_PARK_NAME@);
        },
    }
}

/// Law: the catalogue pairs each metric with its own name and its own help
/// text, as the table of constants lists them: no metric carries another's
/// name or help.
pub proof fn lemma_catalogue_table()
    ensures
        spec_metric_name(MetricId::WorkersCount) == WORKERS_COUNT_NAME@,
        spec_metric_help(MetricId::WorkersCount) == WORKERS_COUNT_HELP@,
        spec_metric_name(MetricId::ParkCount) == PARK_COUNT_NAME@,
        spec_metric_help(MetricId::ParkCount) == PARK_COUNT_HELP@,
        spec_metric_name(MetricId::NoopCount) == NOOP_COUNT_NAME@,
        spec_metric_help(MetricId::NoopCount) == NOOP_COUNT_HELP@,
        spec_metric_name(MetricId::StealCount) == STEAL_COUNT_NAME@,
        spec_metric_help(MetricId::StealCount) == STEAL_COUNT_HELP@,
        spec_metric_name(MetricId::StealOperations) == STEAL_OPERATIONS_NAME@,
        spec_metric_help(MetricId::StealOperations) == STEAL_OPERATIONS_HELP@,
        spec_metric_name(MetricId::RemoteScheduleCount) == REMOTE_SCHEDULE_COUNT_NAME@,
        spec_metric_help(MetricId::RemoteScheduleCount) == REMOTE_SCHEDULE_COUNT_HELP@,
        spec_metric_name(MetricId::LocalScheduleCount) == LOCAL_SCHEDULE_COUNT_NAME@,
        spec_metric_help(MetricId::LocalScheduleCount) == LOCAL_SCHEDULE_COUNT_HELP@,
        spec_metric_name(MetricId::OverflowCount) == OVERFLOW_COUNT_NAME@,
        spec_metric_help(MetricId::OverflowCount) == OVERFLOW_COUNT_HELP@,
        spec_metric_name(MetricId::PollsCount) == POLLS_COUNT_NAME@,
        spec_metric_help(MetricId::PollsCount) == POLLS_COUNT_HELP@,
        spec_metric_name(MetricId::BusyDurationSeconds) == BUSY_DURATION_SECONDS_NAME@,
        spec_metric_help(MetricId::BusyDurationSeconds) == BUSY_DURATION_SECONDS_HELP@,
        spec_metric_name(MetricId::InjectionQueueDepthGauge) == INJECTION_QUEUE_DEPTH_GAUGE_NAME@,
        spec_metric_help(MetricId::InjectionQueueDepthGauge) == INJECTION_QUEUE_DEPTH_GAUGE_HELP@,
        spec_metric_name(MetricId::LocalQueueDepthGauge) == LOCAL_QUEUE_DEPTH_GAUGE_NAME@,
        spec_metric_help(MetricId::LocalQueueDepthGauge) == LOCAL_QUEUE_DEPTH_GAUGE_HELP@,
        spec_metric_name(MetricId::BudgetForcedYieldCount) == BUDGET_FORCED_YIELD_COUNT_NAME@,
        spec_metric_help(MetricId::BudgetForcedYieldCount) == BUDGET_FORCED_YIELD_COUNT_HELP@,
        spec_metric_name(MetricId::IoDriverReadyCount) == IO_DRIVER_READY_COUNT_NAME@,
        spec_metric_help(MetricId::IoDriverReadyCount) == IO_DRIVER_READY_COUNT_HELP@,
        spec_metric_name(MetricId::MeanPollsPerPark) == MEAN_POLLS_PER_PARK_NAME@,
        spec_metric_help(MetricId::MeanPollsPerPark) == MEAN_POLLS_PER_PARK_HELP@,
{
}

/// Law: a collector can be made under a namespace exactly when prometheus
/// accepts every fully-qualified name of the catalogue under it: the
/// namespace is valid if and only if each metric's name behind it is a valid
/// metric name.
pub proof fn lemma_namespace_accepted_iff_names_valid(namespace: Seq<char>)
    ensures
        valid_namespace(namespace) <==> (forall|m: MetricId|
            #[trigger] valid_metric_name(fq_name(namespace, spec_metric_name(m)))),
{
    lemma_valid_namespace_exactly(namespace);
    if valid_namespace(namespace) {
        assert forall|m: MetricId| #[trigger] valid_metric_name(
            fq_name(namespace, spec_metric_name(m)),
        ) by {
            lemma_metric_valid(m);
            lemma_fq_name_valid(namespace, spec_metric_name(m));
        }
    } else {
        lemma_metric_valid(MetricId::WorkersCount);
        assert(!valid_metric_name(fq_name(namespace, spec_metric_name(MetricId::WorkersCount))));
    }
}

/// The label of the per-worker metrics is a valid prometheus label name.
pub proof fn lemma_worker_label_valid()
    ensures
        valid_label_name(WORKER_LABEL@),
{
    reveal_strlit("worker");
}

} // verus!
