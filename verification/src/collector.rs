//! The collector: it owns the prometheus metrics, describes them, and on each
//! collection brings them up to what the runtime reports.

use vstd::prelude::*;

use crate::catalog::{
    METRICS_NUMBER, MetricId, MetricKind, WORKER_LABEL, lemma_metric_valid, spec_all_metrics,
    spec_collection_order, spec_metric_help, spec_metric_kind, spec_metric_labels,
    spec_metric_name, spec_metric_type_code,
};
use crate::label::worker_label;
use crate::model::{
    CollectorState, after_workers, collected, family_reports_state, initial_state, labelled,
    lemma_totals_bounded,
    lemma_worker_sums_fit, max_u64, polls_delta, total_after, total_before, useful_parks_delta,
    worker_key,
};
use crate::naming::{fq_name, lemma_fq_name_valid, valid_namespace};
use crate::prom::{
    CounterVecHandle, GaugeHandle, IntCounterHandle, IntCounterVecHandle, IntGaugeHandle,
    IntGaugeVecHandle, child_or_zero, counter_vec_collect, counter_vec_fq_name, desc_fq_name,
    desc_help, desc_variable_labels, family_name, gauge_collect, gauge_fq_name,
    int_counter_collect, int_counter_fq_name, int_counter_get, int_counter_inc_by,
    int_counter_value, int_counter_vec_children, int_counter_vec_collect, int_counter_vec_fq_name,
    int_counter_vec_get, int_counter_vec_inc_by, int_counter_vec_labels, int_gauge_collect,
    int_gauge_fq_name, int_gauge_set, int_gauge_value, int_gauge_vec_children,
    int_gauge_vec_collect, int_gauge_vec_fq_name, int_gauge_vec_labels, int_gauge_vec_set,
    label_key, insert_if_absent, int_counter_vec_child_labels, int_gauge_vec_child_labels,
    int_gauge_help, int_counter_help, int_counter_vec_help, int_gauge_vec_help, gauge_help,
    counter_vec_help, family_help, family_type, desc_const_labels, new_counter_vec, new_gauge, new_int_counter, new_int_counter_vec, new_int_gauge,
    new_int_gauge_vec, runtime_metrics,
};
use crate::snapshot::{
    RuntimeSnapshot, local_schedule_readings, noop_readings, overflow_readings, park_readings,
    poll_readings, queue_depth_readings, steal_operation_readings, steal_readings,
};

verus! {

/// The growth of the poll counters in one collection, and how many of the
/// parks counted in it were not no-ops; their quotient is the mean number of
/// polls per useful park (undefined where no park was useful).
#[derive(Clone, Copy, Debug)]
pub struct PollsPerPark {
    /// How much the poll counters grew, summed over the workers.
    pub polls: u128,
    /// How much the park counters grew, less how much the no-op counters grew,
    /// or 0 where the no-op counters grew more.
    pub useful_parks: u128,
}

/// What one collection gathers: the families of every metric but the mean
/// polls per park (the worker count, the per-worker metrics, then the
/// runtime-wide ones), and the two counts of which that mean is the quotient.
pub struct Collection {
    /// The gathered families.
    pub families: Vec<prometheus::proto::MetricFamily>,
    /// The counts behind the mean polls per park.
    pub polls_per_park: PollsPerPark,
}

/// A collector which exports the current state of tokio runtime metrics.
pub struct TokioCollector {
    metrics: tokio::runtime::RuntimeMetrics,
    descs: Vec<prometheus::core::Desc>,
    workers: IntGaugeHandle,
    parks: IntCounterVecHandle,
    noops: IntCounterVecHandle,
    stolen_tasks: IntCounterVecHandle,
    steals: IntCounterVecHandle,
    remote_schedules: IntCounterHandle,
    local_schedules: IntCounterVecHandle,
    overflows: IntCounterVecHandle,
    polls: IntCounterVecHandle,
    busy_duration: CounterVecHandle,
    injection_queue_depth: IntGaugeHandle,
    local_queue_depth: IntGaugeVecHandle,
    budget_forced_yield_tasks: IntCounterHandle,
    io_driver_ready_events: IntCounterHandle,
    mean_polls_per_park: GaugeHandle,
}

impl View for TokioCollector {
    type V = CollectorState;

    closed spec fn view(&self) -> CollectorState {
        CollectorState {
            workers: int_gauge_value(self.workers),
            parks: int_counter_vec_children(self.parks),
            noops: int_counter_vec_children(self.noops),
            stolen_tasks: int_counter_vec_children(self.stolen_tasks),
            steals: int_counter_vec_children(self.steals),
            local_schedules: int_counter_vec_children(self.local_schedules),
            overflows: int_counter_vec_children(self.overflows),
            polls: int_counter_vec_children(self.polls),
            local_queue_depth: int_gauge_vec_children(self.local_queue_depth),
            worker_labels: int_counter_vec_child_labels(self.parks),
            remote_schedules: int_counter_value(self.remote_schedules),
            injection_queue_depth: int_gauge_value(self.injection_queue_depth),
            budget_forced_yield_tasks: int_counter_value(self.budget_forced_yield_tasks),
            io_driver_ready_events: int_counter_value(self.io_driver_ready_events),
        }
    }
}

/// `d` describes metric `m` under `namespace`: its fully-qualified name, its
/// help text and its label names are those of `m`.
pub open spec fn describes(d: prometheus::core::Desc, namespace: Seq<char>, m: MetricId) -> bool {
    &&& desc_fq_name(d) == fq_name(namespace, spec_metric_name(m))
    &&& desc_help(d) == spec_metric_help(m)
    &&& desc_variable_labels(d) == spec_metric_labels(m)
    &&& desc_const_labels(d) == Seq::<(Seq<char>, Seq<char>)>::empty()
}

fn make_int_gauge(namespace: &str, m: MetricId) -> (r: (IntGaugeHandle, prometheus::core::Desc))
    requires
        valid_namespace(namespace@),
        spec_metric_kind(m) == MetricKind::IntGauge,
    ensures
        int_gauge_value(r.0) == 0,
        int_gauge_help(r.0) == spec_metric_help(m),
        int_gauge_fq_name(r.0) == fq_name(namespace@, spec_metric_name(m)),
        describes(r.1, namespace@, m),
{
    proof {
        lemma_metric_valid(m);
        lemma_fq_name_valid(namespace@, spec_metric_name(m));
    }
    new_int_gauge(namespace, m.name(), m.help()).unwrap()
}

fn make_int_counter(namespace: &str, m: MetricId) -> (r: (
    IntCounterHandle,
    prometheus::core::Desc,
))
    requires
        valid_namespace(namespace@),
        spec_metric_kind(m) == MetricKind::IntCounter,
    ensures
        int_counter_value(r.0) == 0,
        int_counter_help(r.0) == spec_metric_help(m),
        int_counter_fq_name(r.0) == fq_name(namespace@, spec_metric_name(m)),
        describes(r.1, namespace@, m),
{
    proof {
        lemma_metric_valid(m);
        lemma_fq_name_valid(namespace@, spec_metric_name(m));
    }
    new_int_counter(namespace, m.name(), m.help()).unwrap()
}

fn make_gauge(namespace: &str, m: MetricId) -> (r: (GaugeHandle, prometheus::core::Desc))
    requires
        valid_namespace(namespace@),
        spec_metric_kind(m) == MetricKind::Gauge,
    ensures
        gauge_help(r.0) == spec_metric_help(m),
        gauge_fq_name(r.0) == fq_name(namespace@, spec_metric_name(m)),
        describes(r.1, namespace@, m),
{
    proof {
        lemma_metric_valid(m);
        lemma_fq_name_valid(namespace@, spec_metric_name(m));
    }
    new_gauge(namespace, m.name(), m.help()).unwrap()
}

fn make_int_counter_vec(namespace: &str, m: MetricId) -> (r: (
    IntCounterVecHandle,
    prometheus::core::Desc,
))
    requires
        valid_namespace(namespace@),
        spec_metric_kind(m) == MetricKind::IntCounterVec,
    ensures
        int_counter_vec_children(r.0) == Map::<u64, u64>::empty(),
        int_counter_vec_help(r.0) == spec_metric_help(m),
        int_counter_vec_child_labels(r.0) == Map::<u64, Seq<char>>::empty(),
        int_counter_vec_labels(r.0) == seq![WORKER_LABEL@],
        int_counter_vec_fq_name(r.0) == fq_name(namespace@, spec_metric_name(m)),
        describes(r.1, namespace@, m),
{
    proof {
        lemma_metric_valid(m);
        lemma_fq_name_valid(namespace@, spec_metric_name(m));
        assert(spec_metric_labels(m)[0] == WORKER_LABEL@);
    }
    new_int_counter_vec(namespace, m.name(), m.help(), WORKER_LABEL).unwrap()
}

fn make_int_gauge_vec(namespace: &str, m: MetricId) -> (r: (
    IntGaugeVecHandle,
    prometheus::core::Desc,
))
    requires
        valid_namespace(namespace@),
        spec_metric_kind(m) == MetricKind::IntGaugeVec,
    ensures
        int_gauge_vec_children(r.0) == Map::<u64, i64>::empty(),
        int_gauge_vec_help(r.0) == spec_metric_help(m),
        int_gauge_vec_child_labels(r.0) == Map::<u64, Seq<char>>::empty(),
        int_gauge_vec_labels(r.0) == seq![WORKER_LABEL@],
        int_gauge_vec_fq_name(r.0) == fq_name(namespace@, spec_metric_name(m)),
        describes(r.1, namespace@, m),
{
    proof {
        lemma_metric_valid(m);
        lemma_fq_name_valid(namespace@, spec_metric_name(m));
        assert(spec_metric_labels(m)[0] == WORKER_LABEL@);
    }
    new_int_gauge_vec(namespace, m.name(), m.help(), WORKER_LABEL).unwrap()
}

fn make_counter_vec(namespace: &str, m: MetricId) -> (r: (
    CounterVecHandle,
    prometheus::core::Desc,
))
    requires
        valid_namespace(namespace@),
        spec_metric_kind(m) == MetricKind::CounterVec,
    ensures
        counter_vec_help(r.0) == spec_metric_help(m),
        counter_vec_fq_name(r.0) == fq_name(namespace@, spec_metric_name(m)),
        describes(r.1, namespace@, m),
{
    proof {
        lemma_metric_valid(m);
        lemma_fq_name_valid(namespace@, spec_metric_name(m));
        assert(spec_metric_labels(m)[0] == WORKER_LABEL@);
    }
    new_counter_vec(namespace, m.name(), m.help(), WORKER_LABEL).unwrap()
}

fn push_desc(
    descs: &mut Vec<prometheus::core::Desc>,
    d: prometheus::core::Desc,
    Ghost(namespace): Ghost<Seq<char>>,
    Ghost(m): Ghost<MetricId>,
)
    requires
        old(descs).len() < METRICS_NUMBER,
        m == spec_all_metrics()[old(descs).len() as int],
        describes(d, namespace, m),
        forall|i: int|
            0 <= i < old(descs).len() ==> describes(
                #[trigger] old(descs)@[i],
                namespace,
                spec_all_metrics()[i],
            ),
    ensures
        final(descs)@ == old(descs)@.push(d),
        forall|i: int|
            0 <= i < final(descs).len() ==> describes(
                #[trigger] final(descs)@[i],
                namespace,
                spec_all_metrics()[i],
            ),
{
    descs.push(d);
}

/// Bring the child of `label` up to `reading`: read it (a missing child is
/// made at 0), then add how far the reading is above it, if it is.
fn raise_child(v: &mut IntCounterVecHandle, label: &str, reading: u64)
    requires
        int_counter_vec_labels(*old(v)).len() == 1,
    ensures
        int_counter_vec_children(*final(v)) == int_counter_vec_children(*old(v)).insert(
            label_key(label@),
            max_u64(
                child_or_zero(int_counter_vec_children(*old(v)), label_key(label@), 0u64),
                reading,
            ),
        ),
        int_counter_vec_labels(*final(v)) == int_counter_vec_labels(*old(v)),
        int_counter_vec_fq_name(*final(v)) == int_counter_vec_fq_name(*old(v)),
        int_counter_vec_help(*final(v)) == int_counter_vec_help(*old(v)),
        int_counter_vec_child_labels(*final(v)) == insert_if_absent(
            int_counter_vec_child_labels(*old(v)),
            label_key(label@),
            label@,
        ),
{
    let past = int_counter_vec_get(v, label);
    int_counter_vec_inc_by(v, label, reading.saturating_sub(past));
    assert(int_counter_vec_children(*v) =~= int_counter_vec_children(*old(v)).insert(
        label_key(label@),
        max_u64(
            child_or_zero(int_counter_vec_children(*old(v)), label_key(label@), 0u64),
            reading,
        ),
    ));
}

/// Bring a counter up to `reading`: add how far the reading is above it, if
/// it is.
fn raise_counter(c: &mut IntCounterHandle, reading: u64)
    ensures
        int_counter_value(*final(c)) == max_u64(int_counter_value(*old(c)), reading),
        int_counter_fq_name(*final(c)) == int_counter_fq_name(*old(c)),
        int_counter_help(*final(c)) == int_counter_help(*old(c)),
{
    let past = int_counter_get(c);
    int_counter_inc_by(c, reading.saturating_sub(past));
}

/// `f` is a family of metric `m` that carries the name `fq`, the help text
/// `help`, the metric's type (gauge or counter), and the samples of state
/// `state` (see `family_reports_state`).
pub open spec fn family_describes(
    f: prometheus::proto::MetricFamily,
    m: MetricId,
    fq: Seq<char>,
    help: Seq<char>,
    state: CollectorState,
) -> bool {
    &&& family_name(f) == fq
    &&& family_help(f) == help
    &&& family_type(f) == spec_metric_type_code(m)
    &&& family_reports_state(f, m, state)
}

/// `f` is a family of metric `m` with the name and help text that the
/// metric of `c` was made with, carrying the samples of state `target`.
spec fn family_matches(
    f: prometheus::proto::MetricFamily,
    m: MetricId,
    c: TokioCollector,
    target: CollectorState,
) -> bool {
    family_describes(f, m, c.fq_name_of(m), c.help_of(m), target)
}

/// Append the one family of a metric, keeping track of which metric each
/// appended family belongs to.
fn append_family(
    families: &mut Vec<prometheus::proto::MetricFamily>,
    f: Vec<prometheus::proto::MetricFamily>,
    Ghost(c): Ghost<TokioCollector>,
    Ghost(target): Ghost<CollectorState>,
    Ghost(order): Ghost<Seq<MetricId>>,
    Ghost(m): Ghost<MetricId>,
)
    requires
        f.len() == 1,
        family_matches(f[0], m, c, target),
        old(families).len() == order.len(),
        forall|i: int|
            0 <= i < order.len() ==> family_matches(
                #[trigger] old(families)@[i],
                order[i],
                c,
                target,
            ),
    ensures
        final(families).len() == order.len() + 1,
        forall|i: int|
            0 <= i < order.len() + 1 ==> family_matches(
                #[trigger] final(families)@[i],
                order.push(m)[i],
                c,
                target,
            ),
{
    let mut f = f;
    families.append(&mut f);
}

impl TokioCollector {
    /// The collector's own invariant: it holds one descriptor per metric,
    /// and every per-worker vector has the one worker label.
    pub closed spec fn wf(&self) -> bool {
        &&& self.descs.len() == METRICS_NUMBER
        &&& int_counter_vec_labels(self.parks) == seq![WORKER_LABEL@]
        &&& int_counter_vec_labels(self.noops) == seq![WORKER_LABEL@]
        &&& int_counter_vec_labels(self.stolen_tasks) == seq![WORKER_LABEL@]
        &&& int_counter_vec_labels(self.steals) == seq![WORKER_LABEL@]
        &&& int_counter_vec_labels(self.local_schedules) == seq![WORKER_LABEL@]
        &&& int_counter_vec_labels(self.overflows) == seq![WORKER_LABEL@]
        &&& int_counter_vec_labels(self.polls) == seq![WORKER_LABEL@]
        &&& int_gauge_vec_labels(self.local_queue_depth) == seq![WORKER_LABEL@]
        &&& self.labels_agree()
    }

    /// Every per-worker vector has the child labels of the park counters, and
    /// has a child exactly where it has a label.
    pub closed spec fn labels_agree(&self) -> bool {
        let l = int_counter_vec_child_labels(self.parks);
        &&& int_counter_vec_child_labels(self.noops) == l
        &&& int_counter_vec_child_labels(self.stolen_tasks) == l
        &&& int_counter_vec_child_labels(self.steals) == l
        &&& int_counter_vec_child_labels(self.local_schedules) == l
        &&& int_counter_vec_child_labels(self.overflows) == l
        &&& int_counter_vec_child_labels(self.polls) == l
        &&& int_gauge_vec_child_labels(self.local_queue_depth) == l
        &&& int_counter_vec_children(self.parks).dom() == l.dom()
        &&& int_counter_vec_children(self.noops).dom() == l.dom()
        &&& int_counter_vec_children(self.stolen_tasks).dom() == l.dom()
        &&& int_counter_vec_children(self.steals).dom() == l.dom()
        &&& int_counter_vec_children(self.local_schedules).dom() == l.dom()
        &&& int_counter_vec_children(self.overflows).dom() == l.dom()
        &&& int_counter_vec_children(self.polls).dom() == l.dom()
        &&& int_gauge_vec_children(self.local_queue_depth).dom() == l.dom()
    }

    /// The help text that the collector's metric `m` was made with.
    pub closed spec fn help_of(&self, m: MetricId) -> Seq<char> {
        match m {
            MetricId::WorkersCount => int_gauge_help(self.workers),
            MetricId::ParkCount => int_counter_vec_help(self.parks),
            MetricId::NoopCount => int_counter_vec_help(self.noops),
            MetricId::StealCount => int_counter_vec_help(self.stolen_tasks),
            MetricId::StealOperations => int_counter_vec_help(self.steals),
            MetricId::RemoteScheduleCount => int_counter_help(self.remote_schedules),
            MetricId::LocalScheduleCount => int_counter_vec_help(self.local_schedules),
            MetricId::OverflowCount => int_counter_vec_help(self.overflows),
            MetricId::PollsCount => int_counter_vec_help(self.polls),
            MetricId::BusyDurationSeconds => counter_vec_help(self.busy_duration),
            MetricId::InjectionQueueDepthGauge => int_gauge_help(self.injection_queue_depth),
            MetricId::LocalQueueDepthGauge => int_gauge_vec_help(self.local_queue_depth),
            MetricId::BudgetForcedYieldCount => int_counter_help(self.budget_forced_yield_tasks),
            MetricId::IoDriverReadyCount => int_counter_help(self.io_driver_ready_events),
            MetricId::MeanPollsPerPark => gauge_help(self.mean_polls_per_park),
        }
    }

    /// The fully-qualified name that the collector's metric `m` was made with.
    pub closed spec fn fq_name_of(&self, m: MetricId) -> Seq<char> {
        match m {
            MetricId::WorkersCount => int_gauge_fq_name(self.workers),
            MetricId::ParkCount => int_counter_vec_fq_name(self.parks),
            MetricId::NoopCount => int_counter_vec_fq_name(self.noops),
            MetricId::StealCount => int_counter_vec_fq_name(self.stolen_tasks),
            MetricId::StealOperations => int_counter_vec_fq_name(self.steals),
            MetricId::RemoteScheduleCount => int_counter_fq_name(self.remote_schedules),
            MetricId::LocalScheduleCount => int_counter_vec_fq_name(self.local_schedules),
            MetricId::OverflowCount => int_counter_vec_fq_name(self.overflows),
            MetricId::PollsCount => int_counter_vec_fq_name(self.polls),
            MetricId::BusyDurationSeconds => counter_vec_fq_name(self.busy_duration),
            MetricId::InjectionQueueDepthGauge => int_gauge_fq_name(self.injection_queue_depth),
            MetricId::LocalQueueDepthGauge => int_gauge_vec_fq_name(self.local_queue_depth),
            MetricId::BudgetForcedYieldCount => int_counter_fq_name(self.budget_forced_yield_tasks),
            MetricId::IoDriverReadyCount => int_counter_fq_name(self.io_driver_ready_events),
            MetricId::MeanPollsPerPark => gauge_fq_name(self.mean_polls_per_park),
        }
    }

    /// Every metric of `self` has the fully-qualified name of the same metric
    /// of `other`.
    pub closed spec fn same_names(&self, other: &TokioCollector) -> bool {
        &&& int_gauge_fq_name(self.workers) == int_gauge_fq_name(other.workers)
        &&& int_counter_vec_fq_name(self.parks) == int_counter_vec_fq_name(other.parks)
        &&& int_counter_vec_fq_name(self.noops) == int_counter_vec_fq_name(other.noops)
        &&& int_counter_vec_fq_name(self.stolen_tasks) == int_counter_vec_fq_name(other.stolen_tasks)
        &&& int_counter_vec_fq_name(self.steals) == int_counter_vec_fq_name(other.steals)
        &&& int_counter_fq_name(self.remote_schedules) == int_counter_fq_name(other.remote_schedules)
        &&& int_counter_vec_fq_name(self.local_schedules) == int_counter_vec_fq_name(
            other.local_schedules,
        )
        &&& int_counter_vec_fq_name(self.overflows) == int_counter_vec_fq_name(other.overflows)
        &&& int_counter_vec_fq_name(self.polls) == int_counter_vec_fq_name(other.polls)
        &&& counter_vec_fq_name(self.busy_duration) == counter_vec_fq_name(other.busy_duration)
        &&& int_gauge_fq_name(self.injection_queue_depth) == int_gauge_fq_name(
            other.injection_queue_depth,
        )
        &&& int_gauge_vec_fq_name(self.local_queue_depth) == int_gauge_vec_fq_name(
            other.local_queue_depth,
        )
        &&& int_counter_fq_name(self.budget_forced_yield_tasks) == int_counter_fq_name(
            other.budget_forced_yield_tasks,
        )
        &&& int_counter_fq_name(self.io_driver_ready_events) == int_counter_fq_name(
            other.io_driver_ready_events,
        )
        &&& gauge_fq_name(self.mean_polls_per_park) == gauge_fq_name(other.mean_polls_per_park)
        &&& int_gauge_help(self.workers) == int_gauge_help(other.workers)
        &&& int_counter_vec_help(self.parks) == int_counter_vec_help(other.parks)
        &&& int_counter_vec_help(self.noops) == int_counter_vec_help(other.noops)
        &&& int_counter_vec_help(self.stolen_tasks) == int_counter_vec_help(other.stolen_tasks)
        &&& int_counter_vec_help(self.steals) == int_counter_vec_help(other.steals)
        &&& int_counter_help(self.remote_schedules) == int_counter_help(other.remote_schedules)
        &&& int_counter_vec_help(self.local_schedules) == int_counter_vec_help(
            other.local_schedules,
        )
        &&& int_counter_vec_help(self.overflows) == int_counter_vec_help(other.overflows)
        &&& int_counter_vec_help(self.polls) == int_counter_vec_help(other.polls)
        &&& counter_vec_help(self.busy_duration) == counter_vec_help(other.busy_duration)
        &&& int_gauge_help(self.injection_queue_depth) == int_gauge_help(
            other.injection_queue_depth,
        )
        &&& int_gauge_vec_help(self.local_queue_depth) == int_gauge_vec_help(
            other.local_queue_depth,
        )
        &&& int_counter_help(self.budget_forced_yield_tasks) == int_counter_help(
            other.budget_forced_yield_tasks,
        )
        &&& int_counter_help(self.io_driver_ready_events) == int_counter_help(
            other.io_driver_ready_events,
        )
        &&& gauge_help(self.mean_polls_per_park) == gauge_help(other.mean_polls_per_park)
    }

    /// The handle to the runtime's metrics that the collector keeps from its
    /// creation on.
    pub closed spec fn metrics_handle(&self) -> tokio::runtime::RuntimeMetrics {
        self.metrics
    }

    /// The descriptors of the collector's metrics.
    pub closed spec fn desc_seq(&self) -> Seq<prometheus::core::Desc> {
        self.descs@
    }

    /// Create a new collector from the given runtime handle, whose metric
    /// names are put under `namespace` (no namespace where it is empty).
    /// Prometheus refuses a fully-qualified name that is not a valid metric
    /// name, so the namespace must keep the names valid;
    /// `is_valid_namespace` tells whether it does.
    pub fn new(handle: &tokio::runtime::Handle, namespace: &str) -> (r: Self)
        requires
            valid_namespace(namespace@),
        ensures
            r.wf(),
            r@ == initial_state(),
            r.desc_seq().len() == METRICS_NUMBER,
            forall|m: MetricId| #[trigger] r.fq_name_of(m) == fq_name(namespace@, spec_metric_name(m)),
            forall|m: MetricId| #[trigger] r.help_of(m) == spec_metric_help(m),
            forall|i: int|
                0 <= i < METRICS_NUMBER ==> describes(
                    #[trigger] r.desc_seq()[i],
                    namespace@,
                    spec_all_metrics()[i],
                ),
    {
        let ghost ns = namespace@;
        let mut descs: Vec<prometheus::core::Desc> = Vec::new();

        let (workers, d) = make_int_gauge(namespace, MetricId::WorkersCount);
        push_desc(&mut descs, d, Ghost(ns), Ghost(MetricId::WorkersCount));
        let (parks, d) = make_int_counter_vec(namespace, MetricId::ParkCount);
        push_desc(&mut descs, d, Ghost(ns), Ghost(MetricId::ParkCount));
        let (noops, d) = make_int_counter_vec(namespace, MetricId::NoopCount);
        push_desc(&mut descs, d, Ghost(ns), Ghost(MetricId::NoopCount));
        let (stolen_tasks, d) = make_int_counter_vec(namespace, MetricId::StealCount);
        push_desc(&mut descs, d, Ghost(ns), Ghost(MetricId::StealCount));
        let (steals, d) = make_int_counter_vec(namespace, MetricId::StealOperations);
        push_desc(&mut descs, d, Ghost(ns), Ghost(MetricId::StealOperations));
        let (remote_schedules, d) = make_int_counter(namespace, MetricId::RemoteScheduleCount);
        push_desc(&mut descs, d, Ghost(ns), Ghost(MetricId::RemoteScheduleCount));
        let (local_schedules, d) = make_int_counter_vec(namespace, MetricId::LocalScheduleCount);
        push_desc(&mut descs, d, Ghost(ns), Ghost(MetricId::LocalScheduleCount));
        let (overflows, d) = make_int_counter_vec(namespace, MetricId::OverflowCount);
        push_desc(&mut descs, d, Ghost(ns), Ghost(MetricId::OverflowCount));
        let (polls, d) = make_int_counter_vec(namespace, MetricId::PollsCount);
        push_desc(&mut descs, d, Ghost(ns), Ghost(MetricId::PollsCount));
        let (busy_duration, d) = make_counter_vec(namespace, MetricId::BusyDurationSeconds);
        push_desc(&mut descs, d, Ghost(ns), Ghost(MetricId::BusyDurationSeconds));
        let (injection_queue_depth, d) = make_int_gauge(
            namespace,
            MetricId::InjectionQueueDepthGauge,
        );
        push_desc(&mut descs, d, Ghost(ns), Ghost(MetricId::InjectionQueueDepthGauge));
        let (local_queue_depth, d) = make_int_gauge_vec(namespace, MetricId::LocalQueueDepthGauge);
        push_desc(&mut descs, d, Ghost(ns), Ghost(MetricId::LocalQueueDepthGauge));
        let (budget_forced_yield_tasks, d) = make_int_counter(
            namespace,
            MetricId::BudgetForcedYieldCount,
        );
        push_desc(&mut descs, d, Ghost(ns), Ghost(MetricId::BudgetForcedYieldCount));
        let (io_driver_ready_events, d) = make_int_counter(namespace, MetricId::IoDriverReadyCount);
        push_desc(&mut descs, d, Ghost(ns), Ghost(MetricId::IoDriverReadyCount));
        let (mean_polls_per_park, d) = make_gauge(namespace, MetricId::MeanPollsPerPark);
        push_desc(&mut descs, d, Ghost(ns), Ghost(MetricId::MeanPollsPerPark));

        let metrics = runtime_metrics(handle);
        let r = TokioCollector {
            metrics,
            descs,
            workers,
            parks,
            noops,
            stolen_tasks,
            steals,
            remote_schedules,
            local_schedules,
            overflows,
            polls,
            busy_duration,
            injection_queue_depth,
            local_queue_depth,
            budget_forced_yield_tasks,
            io_driver_ready_events,
            mean_polls_per_park,
        };
        assert(r@ =~= initial_state());
        r
    }

    /// The descriptors of the collector's metrics, in the order of
    /// `all_metrics`.
    pub fn descs(&self) -> (r: &Vec<prometheus::core::Desc>)
        ensures
            r@ == self.desc_seq(),
            self.wf() ==> r.len() == METRICS_NUMBER,
    {
        &self.descs
    }

    /// The handle to the metrics of the runtime that the collector was made
    /// for, from which the readings of each collection are taken.
    pub fn runtime_metrics(&self) -> (r: &tokio::runtime::RuntimeMetrics)
        ensures
            *r == self.metrics_handle(),
    {
        &self.metrics
    }

    /// The per-worker busy durations, whose floating-point children are
    /// increased outside the verified library before each collection.
    pub fn busy_duration(&self) -> (r: &CounterVecHandle)
        ensures
            counter_vec_fq_name(*r) == self.fq_name_of(MetricId::BusyDurationSeconds),
    {
        &self.busy_duration
    }

    /// The mean polls per park, whose floating-point value is set outside
    /// the verified library from the counts that a collection returns.
    pub fn mean_polls_per_park(&self) -> (r: &GaugeHandle)
        ensures
            gauge_fq_name(*r) == self.fq_name_of(MetricId::MeanPollsPerPark),
    {
        &self.mean_polls_per_park
    }

    /// The family of the mean polls per park: the last family of a
    /// collection, gathered once its value is set.
    pub fn mean_polls_per_park_families(&self) -> (r: Vec<prometheus::proto::MetricFamily>)
        ensures
            r.len() == 1,
            family_describes(
                r[0],
                MetricId::MeanPollsPerPark,
                self.fq_name_of(MetricId::MeanPollsPerPark),
                self.help_of(MetricId::MeanPollsPerPark),
                self@,
            ),
    {
        gauge_collect(&self.mean_polls_per_park)
    }
    /// Bring every integer metric up to what the runtime reports in
    /// `snapshot`, and gather the families of every metric but the mean polls
    /// per park: the worker count, the per-worker metrics, the remote
    /// schedules, the budget-forced yields, the injection queue depth and,
    /// only where the snapshot reports it, the I/O driver's ready events. The busy
    /// durations are gathered as they stand: they are increased outside the
    /// verified library before the call.
    pub fn collect(&mut self, snapshot: &RuntimeSnapshot) -> (r: Collection)
        requires
            old(self).wf(),
        ensures
            final(self).wf(),
            final(self).desc_seq() == old(self).desc_seq(),
            final(self).metrics_handle() == old(self).metrics_handle(),
            final(self)@ == collected(old(self)@, *snapshot),
            forall|m: MetricId| #[trigger] final(self).fq_name_of(m) == old(self).fq_name_of(m),
            forall|m: MetricId| #[trigger] final(self).help_of(m) == old(self).help_of(m),
            r.families.len() == if snapshot.io_driver_ready_count is Some {
                METRICS_NUMBER - 1
            } else {
                METRICS_NUMBER - 2
            },
            r.families.len() == spec_collection_order(snapshot.io_driver_ready_count is Some).len(),
            forall|i: int|
                0 <= i < r.families.len() ==> family_describes(
                    #[trigger] r.families@[i],
                    spec_collection_order(snapshot.io_driver_ready_count is Some)[i],
                    old(self).fq_name_of(
                        spec_collection_order(snapshot.io_driver_ready_count is Some)[i],
                    ),
                    old(self).help_of(
                        spec_collection_order(snapshot.io_driver_ready_count is Some)[i],
                    ),
                    final(self)@,
                ),
            r.polls_per_park.polls == polls_delta(old(self)@, *snapshot),
            r.polls_per_park.useful_parks == useful_parks_delta(old(self)@, *snapshot),
    {
        let ghost c0 = self@;
        let ghost start = *self;
        let ghost s = *snapshot;
        let ghost target = collected(c0, s);
        let ghost mut order: Seq<MetricId> = Seq::empty();
        let mut families: Vec<prometheus::proto::MetricFamily> = Vec::new();

        let count = snapshot.workers.len();
        int_gauge_set(&mut self.workers, count as i64);
        let f = int_gauge_collect(&self.workers);
        append_family(&mut families, f, Ghost(start), Ghost(target), Ghost(order), Ghost(MetricId::WorkersCount));
        proof {
            order = order.push(MetricId::WorkersCount);
        }

        let ghost c1 = self@;
        let mut old_polls_total: u128 = 0;
        let mut new_polls_total: u128 = 0;
        let mut old_parks_total: u128 = 0;
        let mut new_parks_total: u128 = 0;
        let mut old_noops_total: u128 = 0;
        let mut new_noops_total: u128 = 0;
        let mut i: usize = 0;
        while i < count
            invariant
                count == s.workers@.len(),
                s == *snapshot,
                i <= count,
                self.wf(),
                self.desc_seq() == old(self).desc_seq(),
                self.metrics_handle() == old(self).metrics_handle(),
                self.same_names(&start),
                start == *old(self),
                c1 == (CollectorState { workers: count as i64, ..c0 }),
                self@ == after_workers(c1, s, i as nat),
                order == seq![MetricId::WorkersCount],
                target == collected(c0, s),
                families.len() == 1,
                family_matches(families@[0], MetricId::WorkersCount, start, target),
                old_polls_total == total_before(c1.polls, poll_readings(s), i as nat),
                new_polls_total == total_after(c1.polls, poll_readings(s), i as nat),
                old_parks_total == total_before(c1.parks, park_readings(s), i as nat),
                new_parks_total == total_after(c1.parks, park_readings(s), i as nat),
                old_noops_total == total_before(c1.noops, noop_readings(s), i as nat),
                new_noops_total == total_after(c1.noops, noop_readings(s), i as nat),
            decreases count - i,
        {
            let w = snapshot.workers[i];
            let label = worker_label(i);
            let l = label.as_str();
            let ghost k = worker_key(i as nat);
            let ghost next = after_workers(c1, s, (i + 1) as nat);
            let ghost l0 = int_counter_vec_child_labels(self.parks);
            proof {
                lemma_totals_bounded(c1.polls, poll_readings(s), (i + 1) as nat);
                lemma_totals_bounded(c1.parks, park_readings(s), (i + 1) as nat);
                lemma_totals_bounded(c1.noops, noop_readings(s), (i + 1) as nat);
                lemma_worker_sums_fit((i + 1) as int);
                assert(label_key(l@) == k);
            }

            old_polls_total = old_polls_total + int_counter_vec_get(&mut self.polls, l) as u128;
            old_parks_total = old_parks_total + int_counter_vec_get(&mut self.parks, l) as u128;
            old_noops_total = old_noops_total + int_counter_vec_get(&mut self.noops, l) as u128;

            raise_child(&mut self.parks, l, w.park_count);
            raise_child(&mut self.noops, l, w.noop_count);
            raise_child(&mut self.stolen_tasks, l, w.steal_count);
            raise_child(&mut self.steals, l, w.steal_operations);
            raise_child(&mut self.local_schedules, l, w.local_schedule_count);
            raise_child(&mut self.overflows, l, w.overflow_count);
            raise_child(&mut self.polls, l, w.poll_count);
            int_gauge_vec_set(&mut self.local_queue_depth, l, w.local_queue_depth as i64);

            new_polls_total = new_polls_total + int_counter_vec_get(&mut self.polls, l) as u128;
            new_parks_total = new_parks_total + int_counter_vec_get(&mut self.parks, l) as u128;
            new_noops_total = new_noops_total + int_counter_vec_get(&mut self.noops, l) as u128;

            proof {
                let l1 = insert_if_absent(l0, k, l@);
                assert(int_counter_vec_child_labels(self.parks) == l1);
                assert(int_counter_vec_child_labels(self.noops) == l1);
                assert(int_counter_vec_child_labels(self.stolen_tasks) == l1);
                assert(int_counter_vec_child_labels(self.steals) == l1);
                assert(int_counter_vec_child_labels(self.local_schedules) == l1);
                assert(int_counter_vec_child_labels(self.overflows) == l1);
                assert(int_counter_vec_child_labels(self.polls) == l1);
                assert(int_gauge_vec_child_labels(self.local_queue_depth) == l1);
                assert(int_counter_vec_children(self.parks).dom() =~= l1.dom());
                assert(int_counter_vec_children(self.noops).dom() =~= l1.dom());
                assert(int_counter_vec_children(self.stolen_tasks).dom() =~= l1.dom());
                assert(int_counter_vec_children(self.steals).dom() =~= l1.dom());
                assert(int_counter_vec_children(self.local_schedules).dom() =~= l1.dom());
                assert(int_counter_vec_children(self.overflows).dom() =~= l1.dom());
                assert(int_counter_vec_children(self.polls).dom() =~= l1.dom());
                assert(int_gauge_vec_children(self.local_queue_depth).dom() =~= l1.dom());
                assert(int_counter_vec_children(self.parks) =~= next.parks);
                assert(int_counter_vec_children(self.noops) =~= next.noops);
                assert(int_counter_vec_children(self.polls) =~= next.polls);
                assert(self@ =~= next);
            }
            i = i + 1;
        }

        let f = int_counter_vec_collect(&self.parks);
        append_family(&mut families, f, Ghost(start), Ghost(target), Ghost(order), Ghost(MetricId::ParkCount));
        proof {
            order = order.push(MetricId::ParkCount);
        }
        let f = int_counter_vec_collect(&self.noops);
        append_family(&mut families, f, Ghost(start), Ghost(target), Ghost(order), Ghost(MetricId::NoopCount));
        proof {
            order = order.push(MetricId::NoopCount);
        }
        let f = int_counter_vec_collect(&self.stolen_tasks);
        append_family(&mut families, f, Ghost(start), Ghost(target), Ghost(order), Ghost(MetricId::StealCount));
        proof {
            order = order.push(MetricId::StealCount);
        }
        let f = int_counter_vec_collect(&self.steals);
        append_family(
            &mut families,
            f,
            Ghost(start),
            Ghost(target),
            Ghost(order),
            Ghost(MetricId::StealOperations),
        );
        proof {
            order = order.push(MetricId::StealOperations);
        }
        let f = int_counter_vec_collect(&self.local_schedules);
        append_family(
            &mut families,
            f,
            Ghost(start),
            Ghost(target),
            Ghost(order),
            Ghost(MetricId::LocalScheduleCount),
        );
        proof {
            order = order.push(MetricId::LocalScheduleCount);
        }
        let f = int_counter_vec_collect(&self.overflows);
        append_family(&mut families, f, Ghost(start), Ghost(target), Ghost(order), Ghost(MetricId::OverflowCount));
        proof {
            order = order.push(MetricId::OverflowCount);
        }
        let f = int_counter_vec_collect(&self.polls);
        append_family(&mut families, f, Ghost(start), Ghost(target), Ghost(order), Ghost(MetricId::PollsCount));
        proof {
            order = order.push(MetricId::PollsCount);
        }
        let f = int_gauge_vec_collect(&self.local_queue_depth);
        append_family(
            &mut families,
            f,
            Ghost(start),
            Ghost(target),
            Ghost(order),
            Ghost(MetricId::LocalQueueDepthGauge),
        );
        proof {
            order = order.push(MetricId::LocalQueueDepthGauge);
        }
        let f = counter_vec_collect(&self.busy_duration);
        append_family(
            &mut families,
            f,
            Ghost(start),
            Ghost(target),
            Ghost(order),
            Ghost(MetricId::BusyDurationSeconds),
        );
        proof {
            order = order.push(MetricId::BusyDurationSeconds);
        }

        raise_counter(&mut self.remote_schedules, snapshot.remote_schedule_count);
        let f = int_counter_collect(&self.remote_schedules);
        append_family(
            &mut families,
            f,
            Ghost(start),
            Ghost(target),
            Ghost(order),
            Ghost(MetricId::RemoteScheduleCount),
        );
        proof {
            order = order.push(MetricId::RemoteScheduleCount);
        }

        raise_counter(&mut self.budget_forced_yield_tasks, snapshot.budget_forced_yield_count);
        let f = int_counter_collect(&self.budget_forced_yield_tasks);
        append_family(
            &mut families,
            f,
            Ghost(start),
            Ghost(target),
            Ghost(order),
            Ghost(MetricId::BudgetForcedYieldCount),
        );
        proof {
            order = order.push(MetricId::BudgetForcedYieldCount);
        }

        int_gauge_set(&mut self.injection_queue_depth, snapshot.injection_queue_depth as i64);
        let f = int_gauge_collect(&self.injection_queue_depth);
        append_family(
            &mut families,
            f,
            Ghost(start),
            Ghost(target),
            Ghost(order),
            Ghost(MetricId::InjectionQueueDepthGauge),
        );
        proof {
            order = order.push(MetricId::InjectionQueueDepthGauge);
        }

        match snapshot.io_driver_ready_count {
            Some(ready) => {
                raise_counter(&mut self.io_driver_ready_events, ready);
                let f = int_counter_collect(&self.io_driver_ready_events);
                append_family(
                    &mut families,
                    f,
                    Ghost(start),
                    Ghost(target),
                    Ghost(order),
                    Ghost(MetricId::IoDriverReadyCount),
                );
                proof {
                    order = order.push(MetricId::IoDriverReadyCount);
                }
            },
            None => {},
        }
        assert(order =~= spec_collection_order(snapshot.io_driver_ready_count is Some));
        assert(self.same_names(&start));
        proof {
            assert(self@ =~= target);
        }

        proof {
            lemma_totals_bounded(c1.polls, poll_readings(s), count as nat);
            lemma_totals_bounded(c1.parks, park_readings(s), count as nat);
            lemma_totals_bounded(c1.noops, noop_readings(s), count as nat);
            assert(self@ =~= collected(c0, s));
        }
        let delta_parks = new_parks_total - old_parks_total;
        let delta_noops = new_noops_total - old_noops_total;
        let delta_polls = new_polls_total - old_polls_total;
        let useful_parks = delta_parks.saturating_sub(delta_noops);
        Collection {
            families,
            polls_per_park: PollsPerPark { polls: delta_polls, useful_parks },
        }
    }
}

} // verus!
