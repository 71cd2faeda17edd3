//! What every collection keeps: counters never go down, each worker's
//! counters end at the larger of their old value and the runtime's reading,
//! gauges end at the reading, collecting the same readings twice changes
//! nothing more, and the poll growth is the sum of the workers' increments.

use vstd::prelude::*;

use crate::model::{
    CollectorState, collected, gauges_set, growth, initial_state, labelled, lemma_raised_monotone,
    max_u64, polls_delta, raised, total_after, total_before, useful_parks_delta, worker_key,
};
use crate::label::spec_worker_label;
use crate::prom::child_or_zero;
use crate::snapshot::{
    RuntimeSnapshot, local_schedule_readings, noop_readings, overflow_readings, park_readings,
    poll_readings, queue_depth_readings, steal_operation_readings, steal_readings,
};

verus! {

/// The vectors file the first `n` workers under pairwise distinct keys: the
/// hashes of their labels do not collide.
pub open spec fn worker_keys_distinct(n: nat) -> bool {
    forall|a: nat, b: nat| a < n && b < n && a != b ==> worker_key(a) != worker_key(b)
}

/// No counter of `after` is below the same counter of `before`, and no
/// per-worker child of `before` is missing from `after`.
pub open spec fn counters_not_below(before: CollectorState, after: CollectorState) -> bool {
    &&& maps_not_below(before.parks, after.parks)
    &&& maps_not_below(before.noops, after.noops)
    &&& maps_not_below(before.stolen_tasks, after.stolen_tasks)
    &&& maps_not_below(before.steals, after.steals)
    &&& maps_not_below(before.local_schedules, after.local_schedules)
    &&& maps_not_below(before.overflows, after.overflows)
    &&& maps_not_below(before.polls, after.polls)
    &&& before.remote_schedules <= after.remote_schedules
    &&& before.budget_forced_yield_tasks <= after.budget_forced_yield_tasks
    &&& before.io_driver_ready_events <= after.io_driver_ready_events
}

/// Every child of `before` is in `after`, and holds no less there.
pub open spec fn maps_not_below(before: Map<u64, u64>, after: Map<u64, u64>) -> bool {
    forall|k: u64|
        #[trigger] before.dom().contains(k) ==> after.dom().contains(k) && before[k] <= after[k]
}

proof fn lemma_raised_not_below(m: Map<u64, u64>, r: Seq<u64>, n: nat)
    ensures
        maps_not_below(m, raised(m, r, n)),
{
    assert forall|k: u64| #[trigger] m.dom().contains(k) implies raised(m, r, n).dom().contains(
        k,
    ) && m[k] <= raised(m, r, n)[k] by {
        lemma_raised_monotone(m, r, n, k);
    }
}

/// Law: a collection never lowers a counter. Whatever the readings, every
/// counter after a collection holds at least what it held before, and every
/// per-worker child stays.
pub proof fn lemma_collect_never_lowers_counters(c: CollectorState, s: RuntimeSnapshot)
    ensures
        counters_not_below(c, collected(c, s)),
{
    let n = s.workers@.len();
    lemma_raised_not_below(c.parks, park_readings(s), n);
    lemma_raised_not_below(c.noops, noop_readings(s), n);
    lemma_raised_not_below(c.stolen_tasks, steal_readings(s), n);
    lemma_raised_not_below(c.steals, steal_operation_readings(s), n);
    lemma_raised_not_below(c.local_schedules, local_schedule_readings(s), n);
    lemma_raised_not_below(c.overflows, overflow_readings(s), n);
    lemma_raised_not_below(c.polls, poll_readings(s), n);
}

proof fn lemma_raised_untouched(m: Map<u64, u64>, r: Seq<u64>, n: nat, k: u64)
    requires
        forall|j: nat| j < n ==> worker_key(j) != k,
    ensures
        raised(m, r, n).dom().contains(k) == m.dom().contains(k),
        child_or_zero(raised(m, r, n), k, 0u64) == child_or_zero(m, k, 0u64),
    decreases n,
{
    if n > 0 {
        assert(worker_key((n - 1) as nat) != k);
        lemma_raised_untouched(m, r, (n - 1) as nat, k);
    }
}

proof fn lemma_raised_at(m: Map<u64, u64>, r: Seq<u64>, n: nat, w: nat)
    requires
        worker_keys_distinct(n),
        w < n,
    ensures
        raised(m, r, n).dom().contains(worker_key(w)),
        raised(m, r, n)[worker_key(w)] == max_u64(child_or_zero(m, worker_key(w), 0u64), r[w as int]),
    decreases n,
{
    if w == n - 1 {
        assert forall|j: nat| j < w implies worker_key(j) != worker_key(w) by {}
        lemma_raised_untouched(m, r, w, worker_key(w));
    } else {
        assert(worker_key((n - 1) as nat) != worker_key(w));
        assert(worker_keys_distinct((n - 1) as nat));
        lemma_raised_at(m, r, (n - 1) as nat, w);
    }
}

proof fn lemma_gauges_set_at(m: Map<u64, i64>, d: Seq<i64>, n: nat, w: nat)
    requires
        worker_keys_distinct(n),
        w < n,
    ensures
        gauges_set(m, d, n).dom().contains(worker_key(w)),
        gauges_set(m, d, n)[worker_key(w)] == d[w as int],
    decreases n,
{
    if w < n - 1 {
        assert(worker_key((n - 1) as nat) != worker_key(w));
        assert(worker_keys_distinct((n - 1) as nat));
        lemma_gauges_set_at(m, d, (n - 1) as nat, w);
    }
}

/// Law: what a collection leaves for each worker. Where the workers' labels
/// hash apart, each per-worker counter of worker `w` ends at the larger of
/// its old value (0 where it had none) and the runtime's reading, and the
/// worker's local queue depth gauge ends at the reading.
pub proof fn lemma_collect_worker_values(c: CollectorState, s: RuntimeSnapshot, w: nat)
    requires
        worker_keys_distinct(s.workers@.len()),
        w < s.workers@.len(),
    ensures
        ({
            let a = collected(c, s);
            let k = worker_key(w);
            let reading = s.workers@[w as int];
            &&& a.parks[k] == max_u64(child_or_zero(c.parks, k, 0u64), reading.park_count)
            &&& a.noops[k] == max_u64(child_or_zero(c.noops, k, 0u64), reading.noop_count)
            &&& a.stolen_tasks[k] == max_u64(
                child_or_zero(c.stolen_tasks, k, 0u64),
                reading.steal_count,
            )
            &&& a.steals[k] == max_u64(child_or_zero(c.steals, k, 0u64), reading.steal_operations)
            &&& a.local_schedules[k] == max_u64(
                child_or_zero(c.local_schedules, k, 0u64),
                reading.local_schedule_count,
            )
            &&& a.overflows[k] == max_u64(
                child_or_zero(c.overflows, k, 0u64),
                reading.overflow_count,
            )
            &&& a.polls[k] == max_u64(child_or_zero(c.polls, k, 0u64), reading.poll_count)
            &&& a.local_queue_depth[k] == reading.local_queue_depth as i64
        }),
{
    let n = s.workers@.len();
    lemma_raised_at(c.parks, park_readings(s), n, w);
    lemma_raised_at(c.noops, noop_readings(s), n, w);
    lemma_raised_at(c.stolen_tasks, steal_readings(s), n, w);
    lemma_raised_at(c.steals, steal_operation_readings(s), n, w);
    lemma_raised_at(c.local_schedules, local_schedule_readings(s), n, w);
    lemma_raised_at(c.overflows, overflow_readings(s), n, w);
    lemma_raised_at(c.polls, poll_readings(s), n, w);
    lemma_gauges_set_at(c.local_queue_depth, queue_depth_readings(s), n, w);
}

/// Law: what a collection leaves of the runtime-wide metrics. The worker
/// gauge holds the number of workers, the injection queue gauge holds the
/// reading, the remote-schedule and budget counters end at the larger of
/// their old value and the reading, and the I/O driver counter does so where
/// the reading is reported and is left alone where it is not.
pub proof fn lemma_collect_runtime_values(c: CollectorState, s: RuntimeSnapshot)
    ensures
        collected(c, s).workers == s.workers@.len() as i64,
        collected(c, s).injection_queue_depth == s.injection_queue_depth as i64,
        collected(c, s).remote_schedules == max_u64(c.remote_schedules, s.remote_schedule_count),
        collected(c, s).budget_forced_yield_tasks == max_u64(
            c.budget_forced_yield_tasks,
            s.budget_forced_yield_count,
        ),
        s.io_driver_ready_count matches Some(v) ==> collected(c, s).io_driver_ready_events
            == max_u64(c.io_driver_ready_events, v),
        s.io_driver_ready_count is None ==> collected(c, s).io_driver_ready_events
            == c.io_driver_ready_events,
{
}

/// Law: the first collection exports the runtime's readings as they are.
/// From a collector that has collected nothing, and where the workers'
/// labels hash apart, every per-worker counter and gauge of worker `w` holds
/// the runtime's reading for it.
pub proof fn lemma_first_collect_exports_readings(s: RuntimeSnapshot, w: nat)
    requires
        worker_keys_distinct(s.workers@.len()),
        w < s.workers@.len(),
    ensures
        ({
            let a = collected(initial_state(), s);
            let k = worker_key(w);
            let reading = s.workers@[w as int];
            &&& a.parks[k] == reading.park_count
            &&& a.noops[k] == reading.noop_count
            &&& a.stolen_tasks[k] == reading.steal_count
            &&& a.steals[k] == reading.steal_operations
            &&& a.local_schedules[k] == reading.local_schedule_count
            &&& a.overflows[k] == reading.overflow_count
            &&& a.polls[k] == reading.poll_count
            &&& a.local_queue_depth[k] == reading.local_queue_depth as i64
        }),
{
    lemma_collect_worker_values(initial_state(), s, w);
}

#[verifier::spinoff_prover]
proof fn lemma_raised_covers(m: Map<u64, u64>, r: Seq<u64>, n: nat)
    ensures
        forall|j: nat|
            j < n ==> #[trigger] raised(m, r, n).dom().contains(worker_key(j)) && raised(
                m,
                r,
                n,
            )[worker_key(j)] >= r[j as int],
    decreases n,
{
    if n > 0 {
        lemma_raised_covers(m, r, (n - 1) as nat);
        let p = raised(m, r, (n - 1) as nat);
        assert forall|j: nat| j < n implies #[trigger] raised(m, r, n).dom().contains(
            worker_key(j),
        ) && raised(m, r, n)[worker_key(j)] >= r[j as int] by {
            if j < n - 1 {
                assert(p.dom().contains(worker_key(j)));
            }
        }
    }
}

#[verifier::spinoff_prover]
proof fn lemma_raised_fixed(x: Map<u64, u64>, r: Seq<u64>, n: nat, i: nat)
    requires
        i <= n,
        forall|j: nat|
            j < n ==> #[trigger] x.dom().contains(worker_key(j)) && x[worker_key(j)] >= r[j as int],
    ensures
        raised(x, r, i) == x,
    decreases i,
{
    if i > 0 {
        lemma_raised_fixed(x, r, n, (i - 1) as nat);
        let k = worker_key((i - 1) as nat);
        assert(x.dom().contains(k));
        assert(raised(x, r, i) =~= x);
    }
}

proof fn lemma_raised_idempotent(m: Map<u64, u64>, r: Seq<u64>, n: nat)
    ensures
        raised(raised(m, r, n), r, n) == raised(m, r, n),
{
    lemma_raised_covers(m, r, n);
    lemma_raised_fixed(raised(m, r, n), r, n, n);
}

proof fn lemma_labelled_covers(m: Map<u64, Seq<char>>, n: nat)
    ensures
        forall|j: nat| j < n ==> #[trigger] labelled(m, n).dom().contains(worker_key(j)),
    decreases n,
{
    if n > 0 {
        lemma_labelled_covers(m, (n - 1) as nat);
        let p = labelled(m, (n - 1) as nat);
        assert forall|j: nat| j < n implies #[trigger] labelled(m, n).dom().contains(
            worker_key(j),
        ) by {
            if j < n - 1 {
                assert(p.dom().contains(worker_key(j)));
            }
        }
    }
}

#[verifier::spinoff_prover]
proof fn lemma_labelled_fixed(x: Map<u64, Seq<char>>, n: nat, i: nat)
    requires
        i <= n,
        forall|j: nat| j < n ==> #[trigger] x.dom().contains(worker_key(j)),
    ensures
        labelled(x, i) == x,
    decreases i,
{
    if i > 0 {
        lemma_labelled_fixed(x, n, (i - 1) as nat);
        assert(x.dom().contains(worker_key((i - 1) as nat)));
    }
}

proof fn lemma_labelled_idempotent(m: Map<u64, Seq<char>>, n: nat)
    ensures
        labelled(labelled(m, n), n) == labelled(m, n),
{
    lemma_labelled_covers(m, n);
    lemma_labelled_fixed(labelled(m, n), n, n);
}

proof fn lemma_gauges_set_union(x: Map<u64, i64>, d: Seq<i64>, n: nat)
    ensures
        gauges_set(x, d, n) == x.union_prefer_right(gauges_set(Map::empty(), d, n)),
    decreases n,
{
    if n > 0 {
        lemma_gauges_set_union(x, d, (n - 1) as nat);
        assert(gauges_set(x, d, n) =~= x.union_prefer_right(gauges_set(Map::empty(), d, n)));
    }
}

proof fn lemma_gauges_set_idempotent(m: Map<u64, i64>, d: Seq<i64>, n: nat)
    ensures
        gauges_set(gauges_set(m, d, n), d, n) == gauges_set(m, d, n),
{
    let t = gauges_set(Map::empty(), d, n);
    lemma_gauges_set_union(m, d, n);
    lemma_gauges_set_union(gauges_set(m, d, n), d, n);
    assert(m.union_prefer_right(t).union_prefer_right(t) =~= m.union_prefer_right(t));
}

/// Law: collecting the same readings again changes nothing. A second
/// collection of the same snapshot leaves the state of the first as it is.
pub proof fn lemma_collect_idempotent(c: CollectorState, s: RuntimeSnapshot)
    ensures
        collected(collected(c, s), s) == collected(c, s),
{
    let n = s.workers@.len();
    lemma_raised_idempotent(c.parks, park_readings(s), n);
    lemma_raised_idempotent(c.noops, noop_readings(s), n);
    lemma_raised_idempotent(c.stolen_tasks, steal_readings(s), n);
    lemma_raised_idempotent(c.steals, steal_operation_readings(s), n);
    lemma_raised_idempotent(c.local_schedules, local_schedule_readings(s), n);
    lemma_raised_idempotent(c.overflows, overflow_readings(s), n);
    lemma_raised_idempotent(c.polls, poll_readings(s), n);
    lemma_gauges_set_idempotent(c.local_queue_depth, queue_depth_readings(s), n);
    lemma_labelled_idempotent(c.worker_labels, n);
    assert(collected(collected(c, s), s) =~= collected(c, s));
}

/// The sum, over the first `n` workers, of how far each reading is above the
/// worker's child (0 where it is not).
pub open spec fn sum_of_increments(m: Map<u64, u64>, r: Seq<u64>, n: nat) -> int
    decreases n,
{
    if n == 0 {
        0
    } else {
        sum_of_increments(m, r, (n - 1) as nat) + (max_u64(
            child_or_zero(m, worker_key((n - 1) as nat), 0u64),
            r[n - 1],
        ) - child_or_zero(m, worker_key((n - 1) as nat), 0u64))
    }
}

/// The sum of the first `n` readings.
pub open spec fn sum_of_readings(r: Seq<u64>, n: nat) -> int
    decreases n,
{
    if n == 0 {
        0
    } else {
        sum_of_readings(r, (n - 1) as nat) + r[n - 1]
    }
}

proof fn lemma_totals_growth(m: Map<u64, u64>, r: Seq<u64>, n: nat)
    requires
        worker_keys_distinct(n),
    ensures
        total_after(m, r, n) - total_before(m, r, n) == sum_of_increments(m, r, n),
    decreases n,
{
    if n > 0 {
        let w = (n - 1) as nat;
        assert(worker_keys_distinct(w));
        lemma_totals_growth(m, r, w);
        assert forall|j: nat| j < w implies worker_key(j) != worker_key(w) by {}
        lemma_raised_untouched(m, r, w, worker_key(w));
    }
}

proof fn lemma_increments_from_nothing(r: Seq<u64>, n: nat)
    ensures
        sum_of_increments(Map::empty(), r, n) == sum_of_readings(r, n),
    decreases n,
{
    if n > 0 {
        lemma_increments_from_nothing(r, (n - 1) as nat);
    }
}

/// Law: the poll growth behind the mean polls per park. Where the workers'
/// labels hash apart, the growth of the poll counters in one collection is
/// the sum over the workers of how far each poll reading is above the
/// exported poll count; on the first collection it is the sum of the poll
/// readings.
pub proof fn lemma_polls_delta_sums_increments(c: CollectorState, s: RuntimeSnapshot)
    requires
        worker_keys_distinct(s.workers@.len()),
    ensures
        polls_delta(c, s) == sum_of_increments(c.polls, poll_readings(s), s.workers@.len()),
        polls_delta(initial_state(), s) == sum_of_readings(poll_readings(s), s.workers@.len()),
{
    let n = s.workers@.len();
    lemma_totals_growth(c.polls, poll_readings(s), n);
    lemma_totals_growth(Map::empty(), poll_readings(s), n);
    lemma_increments_from_nothing(poll_readings(s), n);
}

/// Law: the useful parks behind the mean polls per park. Where the workers'
/// labels hash apart, the useful parks of one collection are the sum over
/// the workers of how far each park reading is above the exported park count,
/// less the same sum for the no-op counts, or 0 where the no-ops grew more;
/// on the first collection they are the sum of the park readings less the sum
/// of the no-op readings, or 0.
pub proof fn lemma_useful_parks_sums_increments(c: CollectorState, s: RuntimeSnapshot)
    requires
        worker_keys_distinct(s.workers@.len()),
    ensures
        ({
            let n = s.workers@.len();
            let p = sum_of_increments(c.parks, park_readings(s), n);
            let q = sum_of_increments(c.noops, noop_readings(s), n);
            &&& p >= q ==> useful_parks_delta(c, s) == p - q
            &&& p < q ==> useful_parks_delta(c, s) == 0
        }),
        ({
            let n = s.workers@.len();
            let p = sum_of_readings(park_readings(s), n);
            let q = sum_of_readings(noop_readings(s), n);
            &&& p >= q ==> useful_parks_delta(initial_state(), s) == p - q
            &&& p < q ==> useful_parks_delta(initial_state(), s) == 0
        }),
{
    let n = s.workers@.len();
    lemma_totals_growth(c.parks, park_readings(s), n);
    lemma_totals_growth(c.noops, noop_readings(s), n);
    lemma_totals_growth(Map::empty(), park_readings(s), n);
    lemma_totals_growth(Map::empty(), noop_readings(s), n);
    lemma_increments_from_nothing(park_readings(s), n);
    lemma_increments_from_nothing(noop_readings(s), n);
}

#[verifier::spinoff_prover]
proof fn lemma_totals_fixed(x: Map<u64, u64>, r: Seq<u64>, n: nat, i: nat)
    requires
        i <= n,
        forall|j: nat|
            j < n ==> #[trigger] x.dom().contains(worker_key(j)) && x[worker_key(j)] >= r[j as int],
    ensures
        total_before(x, r, i) == total_after(x, r, i),
    decreases i,
{
    if i > 0 {
        lemma_totals_fixed(x, r, n, (i - 1) as nat);
        lemma_raised_fixed(x, r, n, (i - 1) as nat);
        lemma_raised_fixed(x, r, n, i);
        assert(x.dom().contains(worker_key((i - 1) as nat)));
    }
}

#[verifier::spinoff_prover]
proof fn lemma_no_growth_after_raise(m: Map<u64, u64>, r: Seq<u64>, n: nat)
    requires
        n == r.len(),
    ensures
        growth(raised(m, r, n), r) == 0,
{
    lemma_raised_covers(m, r, n);
    let x = raised(m, r, n);
    assert forall|j: nat| j < n implies #[trigger] x.dom().contains(worker_key(j)) && x[worker_key(
        j,
    )] >= r[j as int] by {
        assert(raised(m, r, n).dom().contains(worker_key(j)));
    }
    lemma_totals_fixed(x, r, n, n);
}

/// Law: collecting unchanged readings again counts nothing new. After a
/// collection of `s`, a second collection of the same `s` finds no poll
/// growth and no useful park.
pub proof fn lemma_recollect_counts_nothing(c: CollectorState, s: RuntimeSnapshot)
    ensures
        polls_delta(collected(c, s), s) == 0,
        useful_parks_delta(collected(c, s), s) == 0,
{
    let n = s.workers@.len();
    lemma_no_growth_after_raise(c.polls, poll_readings(s), n);
    lemma_no_growth_after_raise(c.parks, park_readings(s), n);
    lemma_no_growth_after_raise(c.noops, noop_readings(s), n);
}

/// Some worker below `n` is filed under `k`.
pub open spec fn is_worker_key(k: u64, n: nat) -> bool {
    exists|w: nat| w < n && k == #[trigger] worker_key(w)
}

proof fn lemma_worker_key_step(k: u64, n: nat)
    requires
        n > 0,
    ensures
        is_worker_key(k, n) <==> (is_worker_key(k, (n - 1) as nat) || k == worker_key(
            (n - 1) as nat,
        )),
{
    if is_worker_key(k, n) && k != worker_key((n - 1) as nat) {
        let w = choose|w: nat| w < n && k == #[trigger] worker_key(w);
        assert(w < n - 1);
        assert(is_worker_key(k, (n - 1) as nat));
    }
    if is_worker_key(k, (n - 1) as nat) {
        let w = choose|w: nat| w < n - 1 && k == #[trigger] worker_key(w);
        assert(w < n && k == worker_key(w));
        assert(is_worker_key(k, n));
    }
    if k == worker_key((n - 1) as nat) {
        let w = (n - 1) as nat;
        assert(w < n && k == worker_key(w));
        assert(is_worker_key(k, n));
    }
}

proof fn lemma_raised_dom(m: Map<u64, u64>, r: Seq<u64>, n: nat)
    ensures
        forall|k: u64|
            #[trigger] raised(m, r, n).dom().contains(k) <==> (m.dom().contains(k) || is_worker_key(
                k,
                n,
            )),
    decreases n,
{
    if n > 0 {
        lemma_raised_dom(m, r, (n - 1) as nat);
        assert forall|k: u64| #[trigger] raised(m, r, n).dom().contains(k) <==> (m.dom().contains(
            k,
        ) || is_worker_key(k, n)) by {
            lemma_worker_key_step(k, n);
            assert(raised(m, r, (n - 1) as nat).dom().contains(k) <==> (m.dom().contains(k)
                || is_worker_key(k, (n - 1) as nat)));
        }
    }
}

proof fn lemma_labelled_dom(m: Map<u64, Seq<char>>, n: nat)
    ensures
        forall|k: u64|
            #[trigger] labelled(m, n).dom().contains(k) <==> (m.dom().contains(k) || is_worker_key(
                k,
                n,
            )),
    decreases n,
{
    if n > 0 {
        lemma_labelled_dom(m, (n - 1) as nat);
        assert forall|k: u64| #[trigger] labelled(m, n).dom().contains(k) <==> (m.dom().contains(
            k,
        ) || is_worker_key(k, n)) by {
            lemma_worker_key_step(k, n);
            assert(labelled(m, (n - 1) as nat).dom().contains(k) <==> (m.dom().contains(k)
                || is_worker_key(k, (n - 1) as nat)));
        }
    }
}

proof fn lemma_labelled_untouched(m: Map<u64, Seq<char>>, n: nat, k: u64)
    requires
        forall|j: nat| j < n ==> worker_key(j) != k,
    ensures
        labelled(m, n).dom().contains(k) == m.dom().contains(k),
        m.dom().contains(k) ==> labelled(m, n)[k] == m[k],
    decreases n,
{
    if n > 0 {
        assert(worker_key((n - 1) as nat) != k);
        lemma_labelled_untouched(m, (n - 1) as nat, k);
    }
}

proof fn lemma_labelled_at(m: Map<u64, Seq<char>>, n: nat, w: nat)
    requires
        worker_keys_distinct(n),
        w < n,
    ensures
        labelled(m, n)[worker_key(w)] == if m.dom().contains(worker_key(w)) {
            m[worker_key(w)]
        } else {
            spec_worker_label(w)
        },
    decreases n,
{
    if w == n - 1 {
        assert forall|j: nat| j < w implies worker_key(j) != worker_key(w) by {}
        lemma_labelled_untouched(m, w, worker_key(w));
    } else {
        assert(worker_key((n - 1) as nat) != worker_key(w));
        assert(worker_keys_distinct((n - 1) as nat));
        lemma_labelled_at(m, (n - 1) as nat, w);
        lemma_labelled_covers(m, (n - 1) as nat);
    }
}

/// Law: which children a collection leaves, and under which labels. After
/// a collection, every per-worker vector has a child exactly where it had
/// one before or where a worker of the snapshot is filed; where the workers'
/// labels hash apart, worker `w`'s child keeps the label it was first made
/// with, or gets its own decimal label where it is new.
pub proof fn lemma_collect_children_and_labels(c: CollectorState, s: RuntimeSnapshot, w: nat)
    requires
        worker_keys_distinct(s.workers@.len()),
        w < s.workers@.len(),
    ensures
        ({
            let a = collected(c, s);
            let n = s.workers@.len();
            &&& forall|k: u64|
                #[trigger] a.parks.dom().contains(k) <==> (c.parks.dom().contains(k)
                    || is_worker_key(k, n))
            &&& forall|k: u64|
                #[trigger] a.worker_labels.dom().contains(k) <==> (c.worker_labels.dom().contains(
                    k,
                ) || is_worker_key(k, n))
            &&& a.worker_labels[worker_key(w)] == if c.worker_labels.dom().contains(
                worker_key(w),
            ) {
                c.worker_labels[worker_key(w)]
            } else {
                spec_worker_label(w)
            }
        }),
{
    let n = s.workers@.len();
    lemma_raised_dom(c.parks, park_readings(s), n);
    lemma_labelled_dom(c.worker_labels, n);
    lemma_labelled_at(c.worker_labels, n, w);
}

/// Law: the first collection makes exactly one child per worker, labelled
/// with the worker's index in decimal. From a collector that has collected
/// nothing, and where the workers' labels hash apart, the per-worker
/// vectors' children are filed exactly under the workers' keys, and worker
/// `w`'s child carries the label `w`.
pub proof fn lemma_first_collect_labels(s: RuntimeSnapshot, w: nat)
    requires
        worker_keys_distinct(s.workers@.len()),
        w < s.workers@.len(),
    ensures
        ({
            let a = collected(initial_state(), s);
            let n = s.workers@.len();
            &&& forall|k: u64| #[trigger] a.parks.dom().contains(k) <==> is_worker_key(k, n)
            &&& forall|k: u64| #[trigger] a.worker_labels.dom().contains(k) <==> is_worker_key(k, n)
            &&& a.worker_labels[worker_key(w)] == spec_worker_label(w)
        }),
{
    lemma_collect_children_and_labels(initial_state(), s, w);
}

} // verus!
