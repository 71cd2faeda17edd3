use std::sync::Mutex;

use prometheus::proto::MetricFamily;
use prometheus::Registry;
use prometheus_tokio::catalog::{all_metrics, MetricId, MetricKind, METRICS_NUMBER, WORKER_LABEL};
use prometheus_tokio::collector::TokioCollector;
use prometheus_tokio::label::worker_label;
use prometheus_tokio::naming::is_valid_namespace;
use prometheus_tokio::snapshot::{RuntimeSnapshot, WorkerMetrics};

fn worker(park: u64, noop: u64, poll: u64, depth: usize) -> WorkerMetrics {
    WorkerMetrics {
        park_count: park,
        noop_count: noop,
        steal_count: park + 1,
        steal_operations: park + 2,
        local_schedule_count: park + 3,
        overflow_count: park + 4,
        poll_count: poll,
        local_queue_depth: depth,
    }
}

fn snapshot(workers: Vec<WorkerMetrics>) -> RuntimeSnapshot {
    RuntimeSnapshot {
        workers,
        remote_schedule_count: 7,
        budget_forced_yield_count: 3,
        injection_queue_depth: 11,
        io_driver_ready_count: None,
    }
}

fn runtime() -> tokio::runtime::Runtime {
    tokio::runtime::Builder::new_current_thread().build().unwrap()
}

fn family<'a>(mfs: &'a [MetricFamily], name: &str) -> &'a MetricFamily {
    mfs.iter().find(|f| f.get_name() == name).expect("family present")
}

fn worker_value(mf: &MetricFamily, worker: &str) -> f64 {
    let m = mf
        .get_metric()
        .iter()
        .find(|m| m.get_label().iter().any(|l| l.get_name() == "worker" && l.get_value() == worker))
        .expect("worker sample present");
    if m.has_counter() {
        m.get_counter().get_value()
    } else {
        m.get_gauge().get_value()
    }
}

fn single_value(mf: &MetricFamily) -> f64 {
    let m = &mf.get_metric()[0];
    if m.has_counter() {
        m.get_counter().get_value()
    } else {
        m.get_gauge().get_value()
    }
}

/// Plugs the verified collector into prometheus the way an application does.
struct Registered {
    descs: Vec<prometheus::core::Desc>,
    inner: Mutex<TokioCollector>,
    workers: usize,
}

impl prometheus::core::Collector for Registered {
    fn desc(&self) -> Vec<&prometheus::core::Desc> {
        self.descs.iter().collect()
    }

    fn collect(&self) -> Vec<MetricFamily> {
        let mut inner = self.inner.lock().unwrap();
        let s = snapshot((0..self.workers).map(|_| worker(0, 0, 0, 0)).collect());
        let mut mfs = inner.collect(&s).families;
        mfs.extend(inner.mean_polls_per_park_families());
        mfs
    }
}

#[test]
fn test_process_collector() {
    let rt = tokio::runtime::Builder::new_current_thread().build().unwrap();
    let mut tc = TokioCollector::new(rt.handle(), "");
    let workers = tc.runtime_metrics().num_workers();
    {
        let descs = tc.descs();
        assert_eq!(descs.len(), METRICS_NUMBER);

        let s = snapshot((0..workers).map(|_| worker(0, 0, 0, 0)).collect());
        let mut mfs = tc.collect(&s).families;
        mfs.extend(tc.mean_polls_per_park_families());
        // Without the io_driver feature, the io_driver_ready_count related
        // metric is not reported
        assert_eq!(mfs.len(), METRICS_NUMBER - 1);
    }

    let r = Registry::new();
    let descs = tc.descs().clone();
    let res = r.register(Box::new(Registered { descs, inner: Mutex::new(tc), workers }));
    assert!(res.is_ok());
}

#[test]
fn io_driver_reading_adds_its_family() {
    let rt = runtime();
    let mut tc = TokioCollector::new(rt.handle(), "");
    let mut s = snapshot(vec![worker(1, 0, 1, 0)]);
    s.io_driver_ready_count = Some(5);
    let c = tc.collect(&s);
    assert_eq!(c.families.len(), METRICS_NUMBER - 1);
    assert_eq!(single_value(family(&c.families, "rust_tokio_io_driver_ready_count")), 5.0);
    let mut mfs = c.families;
    mfs.extend(tc.mean_polls_per_park_families());
    assert_eq!(mfs.len(), METRICS_NUMBER);
}

#[test]
fn families_come_in_collection_order() {
    let rt = runtime();
    let mut tc = TokioCollector::new(rt.handle(), "");
    let c = tc.collect(&snapshot(vec![worker(1, 0, 1, 0)]));
    let mut mfs = c.families;
    mfs.extend(tc.mean_polls_per_park_families());
    let names: Vec<&str> = mfs.iter().map(|f| f.get_name()).collect();
    let expected: Vec<&str> = [
        MetricId::WorkersCount,
        MetricId::ParkCount,
        MetricId::NoopCount,
        MetricId::StealCount,
        MetricId::StealOperations,
        MetricId::LocalScheduleCount,
        MetricId::OverflowCount,
        MetricId::PollsCount,
        MetricId::LocalQueueDepthGauge,
        MetricId::BusyDurationSeconds,
        MetricId::RemoteScheduleCount,
        MetricId::BudgetForcedYieldCount,
        MetricId::InjectionQueueDepthGauge,
        MetricId::MeanPollsPerPark,
    ]
    .iter()
    .map(|m| m.name())
    .collect();
    assert_eq!(names, expected);
}

#[test]
fn namespace_prefixes_every_name() {
    let rt = runtime();
    let tc = TokioCollector::new(rt.handle(), "myapp");
    let names: Vec<String> = tc.descs().iter().map(|d| d.fq_name.clone()).collect();
    assert_eq!(names[0], "myapp_rust_tokio_workers_count");
    assert_eq!(names[1], "myapp_rust_tokio_parks");
    assert_eq!(names[14], "myapp_rust_tokio_mean_polls_per_park");
    for (d, m) in tc.descs().iter().zip(all_metrics()) {
        assert_eq!(d.fq_name, format!("myapp_{}", m.name()));
        assert_eq!(d.help, m.help());
        let per_worker = matches!(
            m.kind(),
            MetricKind::IntCounterVec | MetricKind::IntGaugeVec | MetricKind::CounterVec
        );
        if per_worker {
            assert_eq!(d.variable_labels, vec![WORKER_LABEL.to_string()]);
        } else {
            assert!(d.variable_labels.is_empty());
        }
    }
}

#[test]
fn empty_namespace_keeps_names() {
    let rt = runtime();
    let tc = TokioCollector::new(rt.handle(), "");
    assert_eq!(tc.descs()[9].fq_name, "rust_tokio_busy_duration_seconds");
    assert_eq!(tc.descs()[13].fq_name, "rust_tokio_io_driver_ready_count");
}

#[test]
fn catalogue_has_fifteen_distinct_names() {
    let all = all_metrics();
    assert_eq!(all.len(), 15);
    let mut names: Vec<&str> = all.iter().map(|m| m.name()).collect();
    names.sort();
    names.dedup();
    assert_eq!(names.len(), 15);
    assert_eq!(MetricId::PollsCount.name(), "rust_tokio_polls");
    assert_eq!(MetricId::WorkersCount.kind(), MetricKind::IntGauge);
    assert_eq!(MetricId::MeanPollsPerPark.kind(), MetricKind::Gauge);
    assert!(MetricId::IoDriverReadyCount.help().contains("'net' feature"));
}

#[test]
fn namespace_validity() {
    assert!(is_valid_namespace(""));
    assert!(is_valid_namespace("my_app"));
    assert!(is_valid_namespace(":scope:9"));
    assert!(is_valid_namespace("App2"));
    assert!(!is_valid_namespace("9lives"));
    assert!(!is_valid_namespace("my-app"));
    assert!(!is_valid_namespace("my app"));
    assert!(!is_valid_namespace("café"));
}

#[test]
fn worker_labels_are_decimal() {
    assert_eq!(worker_label(0), "0");
    assert_eq!(worker_label(7), "7");
    assert_eq!(worker_label(10), "10");
    assert_eq!(worker_label(12345), "12345");
    assert_eq!(worker_label(usize::MAX), usize::MAX.to_string());
}

#[test]
fn first_collection_exports_readings() {
    let rt = runtime();
    let mut tc = TokioCollector::new(rt.handle(), "");
    let s = snapshot(vec![worker(10, 4, 30, 2), worker(20, 5, 50, 9)]);
    let c = tc.collect(&s);
    let mfs = &c.families;
    assert_eq!(single_value(family(mfs, "rust_tokio_workers_count")), 2.0);
    let parks = family(mfs, "rust_tokio_parks");
    assert_eq!(worker_value(parks, "0"), 10.0);
    assert_eq!(worker_value(parks, "1"), 20.0);
    assert_eq!(worker_value(family(mfs, "rust_tokio_noops"), "1"), 5.0);
    assert_eq!(worker_value(family(mfs, "rust_tokio_steals"), "0"), 11.0);
    assert_eq!(worker_value(family(mfs, "rust_tokio_steal_operations"), "0"), 12.0);
    assert_eq!(worker_value(family(mfs, "rust_tokio_local_schedules"), "1"), 23.0);
    assert_eq!(worker_value(family(mfs, "rust_tokio_overflows"), "1"), 24.0);
    assert_eq!(worker_value(family(mfs, "rust_tokio_polls"), "1"), 50.0);
    assert_eq!(worker_value(family(mfs, "rust_tokio_local_queue_depth_gauge"), "1"), 9.0);
    assert_eq!(single_value(family(mfs, "rust_tokio_remote_schedules")), 7.0);
    assert_eq!(single_value(family(mfs, "rust_tokio_budget_forced_yield_count")), 3.0);
    assert_eq!(single_value(family(mfs, "rust_tokio_injection_queue_depth_gauge")), 11.0);
    // polls grew by 80, parks by 30, no-ops by 9
    assert_eq!(c.polls_per_park.polls, 80);
    assert_eq!(c.polls_per_park.useful_parks, 21);
}

#[test]
fn counters_never_go_down() {
    let rt = runtime();
    let mut tc = TokioCollector::new(rt.handle(), "");
    tc.collect(&snapshot(vec![worker(10, 4, 30, 2)]));
    let mut s = snapshot(vec![worker(3, 1, 5, 1)]);
    s.remote_schedule_count = 2;
    let c = tc.collect(&s);
    let mfs = &c.families;
    assert_eq!(worker_value(family(mfs, "rust_tokio_parks"), "0"), 10.0);
    assert_eq!(worker_value(family(mfs, "rust_tokio_polls"), "0"), 30.0);
    assert_eq!(single_value(family(mfs, "rust_tokio_remote_schedules")), 7.0);
    // gauges follow the readings down
    assert_eq!(worker_value(family(mfs, "rust_tokio_local_queue_depth_gauge"), "0"), 1.0);
    assert_eq!(c.polls_per_park.polls, 0);
    assert_eq!(c.polls_per_park.useful_parks, 0);
}

#[test]
fn second_collection_counts_increments() {
    let rt = runtime();
    let mut tc = TokioCollector::new(rt.handle(), "");
    tc.collect(&snapshot(vec![worker(10, 4, 30, 2), worker(20, 5, 50, 9)]));
    let c = tc.collect(&snapshot(vec![worker(12, 4, 40, 0), worker(25, 6, 55, 0)]));
    assert_eq!(c.polls_per_park.polls, 15);
    assert_eq!(c.polls_per_park.useful_parks, 6);
    assert_eq!(worker_value(family(&c.families, "rust_tokio_parks"), "1"), 25.0);
}

#[test]
fn more_noops_than_parks_gives_no_useful_park() {
    let rt = runtime();
    let mut tc = TokioCollector::new(rt.handle(), "");
    let c = tc.collect(&snapshot(vec![worker(2, 5, 9, 0)]));
    assert_eq!(c.polls_per_park.polls, 9);
    assert_eq!(c.polls_per_park.useful_parks, 0);
}

#[test]
fn collecting_the_same_readings_twice_changes_nothing() {
    let rt = runtime();
    let mut tc = TokioCollector::new(rt.handle(), "");
    let s = snapshot(vec![worker(10, 4, 30, 2), worker(20, 5, 50, 9)]);
    let first = tc.collect(&s);
    let second = tc.collect(&s);
    assert_eq!(second.polls_per_park.polls, 0);
    assert_eq!(second.polls_per_park.useful_parks, 0);
    assert_eq!(first.families, second.families);
}

#[test]
fn no_workers_no_useful_parks() {
    let rt = runtime();
    let mut tc = TokioCollector::new(rt.handle(), "");
    let c = tc.collect(&snapshot(vec![]));
    assert_eq!(c.polls_per_park.polls, 0);
    assert_eq!(c.polls_per_park.useful_parks, 0);
    assert_eq!(single_value(family(&c.families, "rust_tokio_workers_count")), 0.0);
    assert!(family(&c.families, "rust_tokio_parks").get_metric().is_empty());
}

#[test]
fn huge_counts_do_not_overflow_the_totals() {
    let rt = runtime();
    let mut tc = TokioCollector::new(rt.handle(), "");
    let c = tc.collect(&snapshot(vec![worker(u64::MAX, 0, u64::MAX, 0), worker(u64::MAX, 0, u64::MAX, 0)]));
    assert_eq!(c.polls_per_park.polls, 2 * (u64::MAX as u128));
    assert_eq!(c.polls_per_park.useful_parks, 2 * (u64::MAX as u128));
}

#[test]
fn busy_duration_and_mean_are_set_outside() {
    let rt = runtime();
    let mut tc = TokioCollector::new(rt.handle(), "");
    tc.busy_duration().inner.with_label_values(&["0"]).inc_by(1.5);
    let c = tc.collect(&snapshot(vec![worker(4, 0, 8, 0)]));
    assert_eq!(worker_value(family(&c.families, "rust_tokio_busy_duration_seconds"), "0"), 1.5);
    let mean = c.polls_per_park.polls as f64 / c.polls_per_park.useful_parks as f64;
    tc.mean_polls_per_park().inner.set(mean);
    let mfs = tc.mean_polls_per_park_families();
    assert_eq!(mfs.len(), 1);
    assert_eq!(single_value(&mfs[0]), 2.0);
}

#[test]
fn families_carry_help_and_type() {
    let rt = runtime();
    let mut tc = TokioCollector::new(rt.handle(), "ns");
    let c = tc.collect(&snapshot(vec![worker(1, 0, 1, 0)]));
    let mut mfs = c.families;
    mfs.extend(tc.mean_polls_per_park_families());
    for mf in &mfs {
        let m = all_metrics()
            .into_iter()
            .find(|m| format!("ns_{}", m.name()) == mf.get_name())
            .expect("a catalogued metric");
        assert_eq!(mf.get_help(), m.help());
        let gauge = matches!(m.kind(), MetricKind::IntGauge | MetricKind::Gauge | MetricKind::IntGaugeVec);
        let expected = if gauge {
            prometheus::proto::MetricType::GAUGE
        } else {
            prometheus::proto::MetricType::COUNTER
        };
        assert_eq!(mf.get_field_type(), expected);
    }
}

#[test]
fn descriptors_have_no_const_labels() {
    let rt = runtime();
    let tc = TokioCollector::new(rt.handle(), "");
    for d in tc.descs() {
        assert!(d.const_label_pairs.is_empty());
    }
}

#[test]
fn worker_children_are_labelled_by_index() {
    let rt = runtime();
    let mut tc = TokioCollector::new(rt.handle(), "");
    let workers: Vec<WorkerMetrics> = (0..12).map(|i| worker(i, 0, 2 * i, 0)).collect();
    let c = tc.collect(&snapshot(workers));
    let parks = family(&c.families, "rust_tokio_parks");
    assert_eq!(parks.get_metric().len(), 12);
    for i in 0..12u64 {
        assert_eq!(worker_value(parks, &i.to_string()), i as f64);
    }
    let polls = family(&c.families, "rust_tokio_polls");
    assert_eq!(worker_value(polls, "11"), 22.0);
}
