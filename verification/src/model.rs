//! The state that a collector exports, and what one collection makes of it.
//!
//! Per-worker metrics are kept by prometheus vectors, which file each child
//! under a hash of its label value; the state therefore maps those hashes to
//! values, and worker `w` is found under `worker_key(w)`.

use vstd::prelude::*;

use crate::catalog::{MetricId, WORKER_LABEL};
use crate::label::spec_worker_label;
use crate::prom::{
    child_or_zero, insert_if_absent, label_key, reports_int_children, reports_int_value,
};
use crate::snapshot::{
    RuntimeSnapshot, local_schedule_readings, noop_readings, overflow_readings, park_readings,
    poll_readings, queue_depth_readings, steal_operation_readings, steal_readings,
};

verus! {

/// The values that a collector exports.
#[verifier::ext_equal]
pub struct CollectorState {
    /// The number of workers.
    pub workers: i64,
    /// The per-worker park counters.
    pub parks: Map<u64, u64>,
    /// The per-worker no-op counters.
    pub noops: Map<u64, u64>,
    /// The per-worker counters of stolen tasks.
    pub stolen_tasks: Map<u64, u64>,
    /// The per-worker counters of steal operations.
    pub steals: Map<u64, u64>,
    /// The per-worker counters of locally scheduled tasks.
    pub local_schedules: Map<u64, u64>,
    /// The per-worker overflow counters.
    pub overflows: Map<u64, u64>,
    /// The per-worker poll counters.
    pub polls: Map<u64, u64>,
    /// The per-worker local queue depth gauges.
    pub local_queue_depth: Map<u64, i64>,
    /// The label value of each per-worker child (the same in every
    /// per-worker vector), keyed like the children.
    pub worker_labels: Map<u64, Seq<char>>,
    /// The counter of remotely scheduled tasks.
    pub remote_schedules: u64,
    /// The injection queue depth gauge.
    pub injection_queue_depth: i64,
    /// The counter of budget-forced yields.
    pub budget_forced_yield_tasks: u64,
    /// The counter of I/O driver ready events.
    pub io_driver_ready_events: u64,
}

/// The state of a collector that has collected nothing yet.
pub open spec fn initial_state() -> CollectorState {
    CollectorState {
        workers: 0,
        parks: Map::empty(),
        noops: Map::empty(),
        stolen_tasks: Map::empty(),
        steals: Map::empty(),
        local_schedules: Map::empty(),
        overflows: Map::empty(),
        polls: Map::empty(),
        local_queue_depth: Map::empty(),
        worker_labels: Map::empty(),
        remote_schedules: 0,
        injection_queue_depth: 0,
        budget_forced_yield_tasks: 0,
        io_driver_ready_events: 0,
    }
}

/// The samples that family `f` of metric `m` carries are those of state `c`:
/// the value of a single metric, or one sample per child of a per-worker
/// vector, labelled with the child's worker label. The floating-point
/// metrics' samples are not modelled.
pub open spec fn family_reports_state(
    f: prometheus::proto::MetricFamily,
    m: MetricId,
    c: CollectorState,
) -> bool {
    match m {
        MetricId::WorkersCount => reports_int_value(f, c.workers as int),
        MetricId::ParkCount => counter_children(f, c, c.parks),
        MetricId::NoopCount => counter_children(f, c, c.noops),
        MetricId::StealCount => counter_children(f, c, c.stolen_tasks),
        MetricId::StealOperations => counter_children(f, c, c.steals),
        MetricId::RemoteScheduleCount => reports_int_value(f, c.remote_schedules as int),
        MetricId::LocalScheduleCount => counter_children(f, c, c.local_schedules),
        MetricId::OverflowCount => counter_children(f, c, c.overflows),
        MetricId::PollsCount => counter_children(f, c, c.polls),
        MetricId::BusyDurationSeconds => true,
        MetricId::InjectionQueueDepthGauge => reports_int_value(f, c.injection_queue_depth as int),
        MetricId::LocalQueueDepthGauge => reports_int_children(
            f,
            WORKER_LABEL@,
            c.worker_labels,
            c.local_queue_depth.map_values(|x: i64| x as int),
        ),
        MetricId::BudgetForcedYieldCount => reports_int_value(
            f,
            c.budget_forced_yield_tasks as int,
        ),
        MetricId::IoDriverReadyCount => reports_int_value(f, c.io_driver_ready_events as int),
        MetricId::MeanPollsPerPark => true,
    }
}

/// `f` carries one sample per child of the counter vector `m` of state `c`,
/// labelled with the child's worker label.
pub open spec fn counter_children(
    f: prometheus::proto::MetricFamily,
    c: CollectorState,
    m: Map<u64, u64>,
) -> bool {
    reports_int_children(f, WORKER_LABEL@, c.worker_labels, m.map_values(|x: u64| x as int))
}

/// The larger of two counter values.
pub open spec fn max_u64(a: u64, b: u64) -> u64 {
    if a >= b {
        a
    } else {
        b
    }
}

/// The key under which the per-worker vectors file worker `w`.
pub open spec fn worker_key(w: nat) -> u64 {
    label_key(spec_worker_label(w))
}

/// A counter vector after its first `n` workers were brought up to their
/// readings: worker by worker, the child of each is raised to the reading
/// where the reading is larger (a counter never goes down).
pub open spec fn raised(m: Map<u64, u64>, readings: Seq<u64>, n: nat) -> Map<u64, u64>
    decreases n,
{
    if n == 0 {
        m
    } else {
        let p = raised(m, readings, (n - 1) as nat);
        let k = worker_key((n - 1) as nat);
        p.insert(k, max_u64(child_or_zero(p, k, 0u64), readings[n - 1]))
    }
}

/// The label values of a per-worker vector after its first `n` workers were
/// taken in: each worker's label is filed under its key, unless a child is
/// filed there already.
pub open spec fn labelled(m: Map<u64, Seq<char>>, n: nat) -> Map<u64, Seq<char>>
    decreases n,
{
    if n == 0 {
        m
    } else {
        insert_if_absent(
            labelled(m, (n - 1) as nat),
            worker_key((n - 1) as nat),
            spec_worker_label((n - 1) as nat),
        )
    }
}

/// A gauge vector after its first `n` workers were set to their readings.
pub open spec fn gauges_set(m: Map<u64, i64>, readings: Seq<i64>, n: nat) -> Map<u64, i64>
    decreases n,
{
    if n == 0 {
        m
    } else {
        gauges_set(m, readings, (n - 1) as nat).insert(worker_key((n - 1) as nat), readings[n - 1])
    }
}

/// The sum, over the first `n` workers, of each worker's child as it stood
/// just before that worker was raised.
pub open spec fn total_before(m: Map<u64, u64>, readings: Seq<u64>, n: nat) -> int
    decreases n,
{
    if n == 0 {
        0
    } else {
        total_before(m, readings, (n - 1) as nat) + child_or_zero(
            raised(m, readings, (n - 1) as nat),
            worker_key((n - 1) as nat),
            0u64,
        )
    }
}

/// The sum, over the first `n` workers, of each worker's child just after
/// that worker was raised.
pub open spec fn total_after(m: Map<u64, u64>, readings: Seq<u64>, n: nat) -> int
    decreases n,
{
    if n == 0 {
        0
    } else {
        total_after(m, readings, (n - 1) as nat) + raised(m, readings, n)[worker_key(
            (n - 1) as nat,
        )]
    }
}

/// The state once the first `i` workers of `s` were taken in.
pub open spec fn after_workers(c: CollectorState, s: RuntimeSnapshot, i: nat) -> CollectorState {
    CollectorState {
        parks: raised(c.parks, park_readings(s), i),
        noops: raised(c.noops, noop_readings(s), i),
        stolen_tasks: raised(c.stolen_tasks, steal_readings(s), i),
        steals: raised(c.steals, steal_operation_readings(s), i),
        local_schedules: raised(c.local_schedules, local_schedule_readings(s), i),
        overflows: raised(c.overflows, overflow_readings(s), i),
        polls: raised(c.polls, poll_readings(s), i),
        local_queue_depth: gauges_set(c.local_queue_depth, queue_depth_readings(s), i),
        worker_labels: labelled(c.worker_labels, i),
        ..c
    }
}

/// The state after one collection of `s`: the worker gauge holds the number
/// of workers, every counter is raised to its reading where that is larger,
/// every gauge holds its reading, and the I/O driver counter moves only where
/// the snapshot reports it.
pub open spec fn collected(c: CollectorState, s: RuntimeSnapshot) -> CollectorState {
    let n = s.workers@.len();
    let w = after_workers(c, s, n);
    CollectorState {
        workers: n as i64,
        remote_schedules: max_u64(c.remote_schedules, s.remote_schedule_count),
        injection_queue_depth: s.injection_queue_depth as i64,
        budget_forced_yield_tasks: max_u64(
            c.budget_forced_yield_tasks,
            s.budget_forced_yield_count,
        ),
        io_driver_ready_events: match s.io_driver_ready_count {
            Some(v) => max_u64(c.io_driver_ready_events, v),
            None => c.io_driver_ready_events,
        },
        ..w
    }
}

/// How much a counter vector's children grew in one collection.
pub open spec fn growth(m: Map<u64, u64>, readings: Seq<u64>) -> int {
    total_after(m, readings, readings.len()) - total_before(m, readings, readings.len())
}

/// How much the poll counters grew in one collection of `s` from `c`.
pub open spec fn polls_delta(c: CollectorState, s: RuntimeSnapshot) -> int {
    growth(c.polls, poll_readings(s))
}

/// How many of the parks counted in one collection were not no-ops: the
/// growth of the park counters less that of the no-op counters, or 0.
pub open spec fn useful_parks_delta(c: CollectorState, s: RuntimeSnapshot) -> int {
    let parks = growth(c.parks, park_readings(s));
    let noops = growth(c.noops, noop_readings(s));
    if parks >= noops {
        parks - noops
    } else {
        0
    }
}

/// A child of a raised vector never falls below what it was: each step keeps
/// or raises the children, and only adds the keys of the workers taken in.
pub proof fn lemma_raised_monotone(m: Map<u64, u64>, readings: Seq<u64>, n: nat, k: u64)
    ensures
        child_or_zero(raised(m, readings, n), k, 0u64) >= child_or_zero(m, k, 0u64),
        m.dom().contains(k) ==> raised(m, readings, n).dom().contains(k),
    decreases n,
{
    if n > 0 {
        lemma_raised_monotone(m, readings, (n - 1) as nat, k);
    }
}

/// The sums before and after raising stay within `n` counter values, and
/// the sum after is never below the sum before.
pub proof fn lemma_totals_bounded(m: Map<u64, u64>, readings: Seq<u64>, n: nat)
    ensures
        0 <= total_before(m, readings, n) <= total_after(m, readings, n),
        total_after(m, readings, n) <= n * 0xffff_ffff_ffff_ffffint,
    decreases n,
{
    if n > 0 {
        lemma_totals_bounded(m, readings, (n - 1) as nat);
        let p = raised(m, readings, (n - 1) as nat);
        let k = worker_key((n - 1) as nat);
        assert(raised(m, readings, n)[k] == max_u64(child_or_zero(p, k, 0u64), readings[n - 1]));
        assert((n - 1) * 0xffff_ffff_ffff_ffffint + 0xffff_ffff_ffff_ffffint == n
            * 0xffff_ffff_ffff_ffffint) by (nonlinear_arith);
    }
}

/// Any number of workers, each holding a counter value, sums to less than
/// the range of a `u128`.
pub proof fn lemma_worker_sums_fit(n: int)
    requires
        0 <= n <= usize::MAX,
    ensures
        n * 0xffff_ffff_ffff_ffffint <= u128::MAX,
{
    assert(n * 0xffff_ffff_ffff_ffffint <= 0xffff_ffff_ffff_ffffint * 0xffff_ffff_ffff_ffffint)
        by (nonlinear_arith)
        requires
            0 <= n <= 0xffff_ffff_ffff_ffffint,
    ;
}

} // verus!
