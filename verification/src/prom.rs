//! The prometheus metrics that a collector owns, the calls that it makes into
//! prometheus, and the runtime handle it keeps. Everything here is trusted:
//! each contract restates what the outside source shows of the call it
//! describes.

use vstd::prelude::*;

use crate::naming::{desc_accepted, fq_name};

verus! {

/// A prometheus metric descriptor, carried through opaquely.
#[verifier::external_type_specification]
#[verifier::external_body]
pub struct ExDesc(prometheus::core::Desc);

/// A family of samples that prometheus gathers from a metric.
#[verifier::external_type_specification]
#[verifier::external_body]
pub struct ExMetricFamily(prometheus::proto::MetricFamily);

/// The error that prometheus reports when it refuses to build a metric.
#[verifier::external_type_specification]
#[verifier::external_body]
pub struct ExPrometheusError(prometheus::Error);

/// A handle to a tokio runtime, carried through opaquely.
#[verifier::external_type_specification]
#[verifier::external_body]
pub struct ExHandle(tokio::runtime::Handle);

/// A handle to a tokio runtime's metrics, carried through opaquely.
#[verifier::external_type_specification]
#[verifier::external_body]
pub struct ExRuntimeMetrics(tokio::runtime::RuntimeMetrics);

/// `Handle::metrics`: the handle to the runtime's metrics (it only clones
/// the runtime handle; nothing is read yet).
#[verifier::external_body]
pub(crate) fn runtime_metrics(handle: &tokio::runtime::Handle) -> tokio::runtime::RuntimeMetrics {
    handle.metrics()
}

/// A `prometheus::IntGauge`.
#[verifier::external_body]
pub struct IntGaugeHandle {
    inner: prometheus::IntGauge,
}

/// A `prometheus::IntCounter`.
#[verifier::external_body]
pub struct IntCounterHandle {
    inner: prometheus::IntCounter,
}

/// A `prometheus::IntCounterVec`: integer counters, one child per label value.
#[verifier::external_body]
pub struct IntCounterVecHandle {
    inner: prometheus::IntCounterVec,
}

/// A `prometheus::IntGaugeVec`: integer gauges, one child per label value.
#[verifier::external_body]
pub struct IntGaugeVecHandle {
    inner: prometheus::IntGaugeVec,
}

/// A `prometheus::Gauge`, whose floating-point value is set by code outside
/// the verified library through the public field.
#[verifier::external_body]
pub struct GaugeHandle {
    pub inner: prometheus::Gauge,
}

/// A `prometheus::CounterVec`, whose floating-point children are increased
/// by code outside the verified library through the public field.
#[verifier::external_body]
pub struct CounterVecHandle {
    pub inner: prometheus::CounterVec,
}

/// The fully-qualified name held by a descriptor (its field `fq_name`).
pub uninterp spec fn desc_fq_name(d: prometheus::core::Desc) -> Seq<char>;

/// The help text held by a descriptor (its field `help`).
pub uninterp spec fn desc_help(d: prometheus::core::Desc) -> Seq<char>;

/// The variable label names held by a descriptor (its field `variable_labels`).
pub uninterp spec fn desc_variable_labels(d: prometheus::core::Desc) -> Seq<Seq<char>>;

/// The constant label pairs held by a descriptor (its field
/// `const_label_pairs`, each as its name and value).
pub uninterp spec fn desc_const_labels(d: prometheus::core::Desc) -> Seq<(Seq<char>, Seq<char>)>;

/// The value that an integer gauge holds.
pub uninterp spec fn int_gauge_value(g: IntGaugeHandle) -> i64;

/// The value that an integer counter holds.
pub uninterp spec fn int_counter_value(c: IntCounterHandle) -> u64;

/// The children of an integer counter vector: the value of each child,
/// keyed by the hash under which the vector files it.
pub uninterp spec fn int_counter_vec_children(v: IntCounterVecHandle) -> Map<u64, u64>;

/// The variable label names that an integer counter vector was made with.
pub uninterp spec fn int_counter_vec_labels(v: IntCounterVecHandle) -> Seq<Seq<char>>;

/// The children of an integer gauge vector: the value of each child, keyed
/// by the hash under which the vector files it.
pub uninterp spec fn int_gauge_vec_children(v: IntGaugeVecHandle) -> Map<u64, i64>;

/// The variable label names that an integer gauge vector was made with.
pub uninterp spec fn int_gauge_vec_labels(v: IntGaugeVecHandle) -> Seq<Seq<char>>;

/// The fully-qualified name that an integer gauge was made with.
pub uninterp spec fn int_gauge_fq_name(g: IntGaugeHandle) -> Seq<char>;

/// The fully-qualified name that an integer counter was made with.
pub uninterp spec fn int_counter_fq_name(c: IntCounterHandle) -> Seq<char>;

/// The fully-qualified name that an integer counter vector was made with.
pub uninterp spec fn int_counter_vec_fq_name(v: IntCounterVecHandle) -> Seq<char>;

/// The fully-qualified name that an integer gauge vector was made with.
pub uninterp spec fn int_gauge_vec_fq_name(v: IntGaugeVecHandle) -> Seq<char>;

/// The fully-qualified name that a floating-point gauge was made with.
pub uninterp spec fn gauge_fq_name(g: GaugeHandle) -> Seq<char>;

/// The fully-qualified name that a floating-point counter vector was made with.
pub uninterp spec fn counter_vec_fq_name(v: CounterVecHandle) -> Seq<char>;

/// The help text that an integer gauge was made with.
pub uninterp spec fn int_gauge_help(g: IntGaugeHandle) -> Seq<char>;

/// The help text that an integer counter was made with.
pub uninterp spec fn int_counter_help(c: IntCounterHandle) -> Seq<char>;

/// The help text that an integer counter vector was made with.
pub uninterp spec fn int_counter_vec_help(v: IntCounterVecHandle) -> Seq<char>;

/// The help text that an integer gauge vector was made with.
pub uninterp spec fn int_gauge_vec_help(v: IntGaugeVecHandle) -> Seq<char>;

/// The help text that a floating-point gauge was made with.
pub uninterp spec fn gauge_help(g: GaugeHandle) -> Seq<char>;

/// The help text that a floating-point counter vector was made with.
pub uninterp spec fn counter_vec_help(v: CounterVecHandle) -> Seq<char>;

/// The label value of each child of an integer counter vector (the value it
/// was made for), keyed by the hash under which the vector files it.
pub uninterp spec fn int_counter_vec_child_labels(v: IntCounterVecHandle) -> Map<u64, Seq<char>>;

/// The label value of each child of an integer gauge vector, keyed by the
/// hash under which the vector files it.
pub uninterp spec fn int_gauge_vec_child_labels(v: IntGaugeVecHandle) -> Map<u64, Seq<char>>;

/// The name that a gathered family carries (its field `name`).
pub uninterp spec fn family_name(f: prometheus::proto::MetricFamily) -> Seq<char>;

/// The help text that a gathered family carries (its field `help`).
pub uninterp spec fn family_help(f: prometheus::proto::MetricFamily) -> Seq<char>;

/// The type that a gathered family carries (its field `field_type`, as the
/// number of the protobuf enum: 0 for a counter, 1 for a gauge).
pub uninterp spec fn family_type(f: prometheus::proto::MetricFamily) -> int;

/// `f` carries exactly one sample, with no label pairs, whose counter or
/// gauge value is `v` as prometheus converts it to a float.
pub uninterp spec fn reports_int_value(f: prometheus::proto::MetricFamily, v: int) -> bool;

/// `f` carries exactly one sample for each key `k` of `values`, in some
/// order: labelled `label_name` = `labels[k]`, with the counter or gauge
/// value `values[k]` as prometheus converts it to a float.
pub uninterp spec fn reports_int_children(
    f: prometheus::proto::MetricFamily,
    label_name: Seq<char>,
    labels: Map<u64, Seq<char>>,
    values: Map<u64, int>,
) -> bool;

/// The hash (FNV-1a over the bytes of the values) under which a metric
/// vector files the child for the given label values.
pub uninterp spec fn label_values_hash(values: Seq<Seq<char>>) -> u64;

/// The key under which a one-label vector files the child for `label`.
pub open spec fn label_key(label: Seq<char>) -> u64 {
    label_values_hash(seq![label])
}

/// `m` with `v` filed under `k` where nothing is filed there yet (a vector
/// keeps the label value a child was first made for).
pub open spec fn insert_if_absent(m: Map<u64, Seq<char>>, k: u64, v: Seq<char>) -> Map<
    u64,
    Seq<char>,
> {
    if m.dom().contains(k) {
        m
    } else {
        m.insert(k, v)
    }
}

/// The value of the child filed under `k`, or 0 where there is none yet
/// (a vector makes a missing child, starting at 0, when it is asked for it).
pub open spec fn child_or_zero<V>(m: Map<u64, V>, k: u64, zero: V) -> V {
    if m.dom().contains(k) {
        m[k]
    } else {
        zero
    }
}

/// `IntGauge::with_opts(Opts::new(name, help).namespace(namespace))`, with the
/// gauge's descriptor (`Collector::desc`) cloned out. Prometheus builds the
/// descriptor from the fully-qualified name and refuses exactly when
/// `Desc::new` does; a new gauge holds 0.
#[verifier::external_body]
pub(crate) fn new_int_gauge(namespace: &str, name: &str, help: &str) -> (r: Result<
    (IntGaugeHandle, prometheus::core::Desc),
    prometheus::Error,
>)
    ensures
        r is Ok <==> desc_accepted(fq_name(namespace@, name@), help@, Seq::empty()),
        r matches Ok(p) ==> {
            &&& int_gauge_value(p.0) == 0
            &&& int_gauge_help(p.0) == help@
            &&& int_gauge_fq_name(p.0) == fq_name(namespace@, name@)
            &&& desc_fq_name(p.1) == fq_name(namespace@, name@)
            &&& desc_const_labels(p.1) == Seq::<(Seq<char>, Seq<char>)>::empty()
            &&& desc_help(p.1) == help@
            &&& desc_variable_labels(p.1) == Seq::<Seq<char>>::empty()
        },
{
    let opts = prometheus::Opts::new(name, help).namespace(namespace);
    match prometheus::IntGauge::with_opts(opts) {
        Ok(g) => {
            let d = prometheus::core::Collector::desc(&g)[0].clone();
            Ok((IntGaugeHandle { inner: g }, d))
        },
        Err(e) => Err(e),
    }
}

/// `IntCounter::with_opts(Opts::new(name, help).namespace(namespace))`, with
/// the counter's descriptor cloned out; as for `new_int_gauge`, a new
/// counter holds 0.
#[verifier::external_body]
pub(crate) fn new_int_counter(namespace: &str, name: &str, help: &str) -> (r: Result<
    (IntCounterHandle, prometheus::core::Desc),
    prometheus::Error,
>)
    ensures
        r is Ok <==> desc_accepted(fq_name(namespace@, name@), help@, Seq::empty()),
        r matches Ok(p) ==> {
            &&& int_counter_value(p.0) == 0
            &&& int_counter_help(p.0) == help@
            &&& int_counter_fq_name(p.0) == fq_name(namespace@, name@)
            &&& desc_fq_name(p.1) == fq_name(namespace@, name@)
            &&& desc_const_labels(p.1) == Seq::<(Seq<char>, Seq<char>)>::empty()
            &&& desc_help(p.1) == help@
            &&& desc_variable_labels(p.1) == Seq::<Seq<char>>::empty()
        },
{
    let opts = prometheus::Opts::new(name, help).namespace(namespace);
    match prometheus::IntCounter::with_opts(opts) {
        Ok(c) => {
            let d = prometheus::core::Collector::desc(&c)[0].clone();
            Ok((IntCounterHandle { inner: c }, d))
        },
        Err(e) => Err(e),
    }
}

/// `Gauge::with_opts(Opts::new(name, help).namespace(namespace))`, with the
/// gauge's descriptor cloned out; refused exactly when `Desc::new` refuses.
#[verifier::external_body]
pub(crate) fn new_gauge(namespace: &str, name: &str, help: &str) -> (r: Result<
    (GaugeHandle, prometheus::core::Desc),
    prometheus::Error,
>)
    ensures
        r is Ok <==> desc_accepted(fq_name(namespace@, name@), help@, Seq::empty()),
        r matches Ok(p) ==> {
            &&& gauge_help(p.0) == help@
            &&& gauge_fq_name(p.0) == fq_name(namespace@, name@)
            &&& desc_fq_name(p.1) == fq_name(namespace@, name@)
            &&& desc_const_labels(p.1) == Seq::<(Seq<char>, Seq<char>)>::empty()
            &&& desc_help(p.1) == help@
            &&& desc_variable_labels(p.1) == Seq::<Seq<char>>::empty()
        },
{
    let opts = prometheus::Opts::new(name, help).namespace(namespace);
    match prometheus::Gauge::with_opts(opts) {
        Ok(g) => {
            let d = prometheus::core::Collector::desc(&g)[0].clone();
            Ok((GaugeHandle { inner: g }, d))
        },
        Err(e) => Err(e),
    }
}

/// `IntCounterVec::new(Opts::new(name, help).namespace(namespace), &[label])`,
/// with the vector's descriptor cloned out. Refused exactly when `Desc::new`
/// refuses; a new vector has no children and keeps the one label name.
#[verifier::external_body]
pub(crate) fn new_int_counter_vec(namespace: &str, name: &str, help: &str, label: &str) -> (r:
    Result<(IntCounterVecHandle, prometheus::core::Desc), prometheus::Error>)
    ensures
        r is Ok <==> desc_accepted(fq_name(namespace@, name@), help@, seq![label@]),
        r matches Ok(p) ==> {
            &&& int_counter_vec_children(p.0) == Map::<u64, u64>::empty()
            &&& int_counter_vec_labels(p.0) == seq![label@]
            &&& int_counter_vec_help(p.0) == help@
            &&& int_counter_vec_child_labels(p.0) == Map::<u64, Seq<char>>::empty()
            &&& int_counter_vec_fq_name(p.0) == fq_name(namespace@, name@)
            &&& desc_fq_name(p.1) == fq_name(namespace@, name@)
            &&& desc_const_labels(p.1) == Seq::<(Seq<char>, Seq<char>)>::empty()
            &&& desc_help(p.1) == help@
            &&& desc_variable_labels(p.1) == seq![label@]
        },
{
    let opts = prometheus::Opts::new(name, help).namespace(namespace);
    match prometheus::IntCounterVec::new(opts, &[label]) {
        Ok(v) => {
            let d = prometheus::core::Collector::desc(&v)[0].clone();
            Ok((IntCounterVecHandle { inner: v }, d))
        },
        Err(e) => Err(e),
    }
}

/// `IntGaugeVec::new(Opts::new(name, help).namespace(namespace), &[label])`,
/// with the vector's descriptor cloned out; as for `new_int_counter_vec`.
#[verifier::external_body]
pub(crate) fn new_int_gauge_vec(namespace: &str, name: &str, help: &str, label: &str) -> (r:
    Result<(IntGaugeVecHandle, prometheus::core::Desc), prometheus::Error>)
    ensures
        r is Ok <==> desc_accepted(fq_name(namespace@, name@), help@, seq![label@]),
        r matches Ok(p) ==> {
            &&& int_gauge_vec_children(p.0) == Map::<u64, i64>::empty()
            &&& int_gauge_vec_labels(p.0) == seq![label@]
            &&& int_gauge_vec_help(p.0) == help@
            &&& int_gauge_vec_child_labels(p.0) == Map::<u64, Seq<char>>::empty()
            &&& int_gauge_vec_fq_name(p.0) == fq_name(namespace@, name@)
            &&& desc_fq_name(p.1) == fq_name(namespace@, name@)
            &&& desc_const_labels(p.1) == Seq::<(Seq<char>, Seq<char>)>::empty()
            &&& desc_help(p.1) == help@
            &&& desc_variable_labels(p.1) == seq![label@]
        },
{
    let opts = prometheus::Opts::new(name, help).namespace(namespace);
    match prometheus::IntGaugeVec::new(opts, &[label]) {
        Ok(v) => {
            let d = prometheus::core::Collector::desc(&v)[0].clone();
            Ok((IntGaugeVecHandle { inner: v }, d))
        },
        Err(e) => Err(e),
    }
}

/// `CounterVec::new(Opts::new(name, help).namespace(namespace), &[label])`,
/// with the vector's descriptor cloned out; refused exactly when `Desc::new`
/// refuses.
#[verifier::external_body]
pub(crate) fn new_counter_vec(namespace: &str, name: &str, help: &str, label: &str) -> (r: Result<
    (CounterVecHandle, prometheus::core::Desc),
    prometheus::Error,
>)
    ensures
        r is Ok <==> desc_accepted(fq_name(namespace@, name@), help@, seq![label@]),
        r matches Ok(p) ==> {
            &&& counter_vec_help(p.0) == help@
            &&& counter_vec_fq_name(p.0) == fq_name(namespace@, name@)
            &&& desc_fq_name(p.1) == fq_name(namespace@, name@)
            &&& desc_const_labels(p.1) == Seq::<(Seq<char>, Seq<char>)>::empty()
            &&& desc_help(p.1) == help@
            &&& desc_variable_labels(p.1) == seq![label@]
        },
{
    let opts = prometheus::Opts::new(name, help).namespace(namespace);
    match prometheus::CounterVec::new(opts, &[label]) {
        Ok(v) => {
            let d = prometheus::core::Collector::desc(&v)[0].clone();
            Ok((CounterVecHandle { inner: v }, d))
        },
        Err(e) => Err(e),
    }
}

/// `IntGauge::set`: the gauge holds `v` afterwards.
#[verifier::external_body]
pub(crate) fn int_gauge_set(g: &mut IntGaugeHandle, v: i64)
    ensures
        int_gauge_value(*final(g)) == v,
        int_gauge_fq_name(*final(g)) == int_gauge_fq_name(*old(g)),
        int_gauge_help(*final(g)) == int_gauge_help(*old(g)),
{
    g.inner.set(v);
}

/// `IntCounter::get`: the value the counter holds.
#[verifier::external_body]
pub(crate) fn int_counter_get(c: &IntCounterHandle) -> (r: u64)
    ensures
        r == int_counter_value(*c),
{
    c.inner.get()
}

/// `IntCounter::inc_by`: the counter grows by `v` (an atomic add, which
/// wraps past `u64::MAX`; the precondition keeps the sum in range).
#[verifier::external_body]
pub(crate) fn int_counter_inc_by(c: &mut IntCounterHandle, v: u64)
    requires
        int_counter_value(*old(c)) + v <= u64::MAX,
    ensures
        int_counter_value(*final(c)) == int_counter_value(*old(c)) + v,
        int_counter_fq_name(*final(c)) == int_counter_fq_name(*old(c)),
        int_counter_help(*final(c)) == int_counter_help(*old(c)),
{
    c.inner.inc_by(v);
}

/// `IntCounterVec::with_label_values(&[label]).get()`: the value of the
/// child for `label`; a missing child is made first, holding 0
/// (`with_label_values` panics unless the vector has exactly one label name).
#[verifier::external_body]
pub(crate) fn int_counter_vec_get(v: &mut IntCounterVecHandle, label: &str) -> (r: u64)
    requires
        int_counter_vec_labels(*old(v)).len() == 1,
    ensures
        r == child_or_zero(int_counter_vec_children(*old(v)), label_values_hash(seq![label@]), 0u64),
        int_counter_vec_children(*final(v)) == int_counter_vec_children(*old(v)).insert(
            label_values_hash(seq![label@]),
            r,
        ),
        int_counter_vec_labels(*final(v)) == int_counter_vec_labels(*old(v)),
        int_counter_vec_fq_name(*final(v)) == int_counter_vec_fq_name(*old(v)),
        int_counter_vec_help(*final(v)) == int_counter_vec_help(*old(v)),
        int_counter_vec_child_labels(*final(v)) == insert_if_absent(
            int_counter_vec_child_labels(*old(v)),
            label_values_hash(seq![label@]),
            label@,
        ),
{
    v.inner.with_label_values(&[label]).get()
}

/// `IntCounterVec::with_label_values(&[label]).inc_by(d)`: the child for
/// `label` (made first where missing, holding 0) grows by `d`.
#[verifier::external_body]
pub(crate) fn int_counter_vec_inc_by(v: &mut IntCounterVecHandle, label: &str, d: u64)
    requires
        int_counter_vec_labels(*old(v)).len() == 1,
        child_or_zero(int_counter_vec_children(*old(v)), label_values_hash(seq![label@]), 0u64) + d <= u64::MAX,
    ensures
        int_counter_vec_children(*final(v)) == int_counter_vec_children(*old(v)).insert(
            label_values_hash(seq![label@]),
            (child_or_zero(int_counter_vec_children(*old(v)), label_values_hash(seq![label@]), 0u64) + d) as u64,
        ),
        int_counter_vec_labels(*final(v)) == int_counter_vec_labels(*old(v)),
        int_counter_vec_fq_name(*final(v)) == int_counter_vec_fq_name(*old(v)),
        int_counter_vec_help(*final(v)) == int_counter_vec_help(*old(v)),
        int_counter_vec_child_labels(*final(v)) == insert_if_absent(
            int_counter_vec_child_labels(*old(v)),
            label_values_hash(seq![label@]),
            label@,
        ),
{
    v.inner.with_label_values(&[label]).inc_by(d);
}

/// `IntGaugeVec::with_label_values(&[label]).set(x)`: the child for `label`
/// (made first where missing) holds `x`.
#[verifier::external_body]
pub(crate) fn int_gauge_vec_set(v: &mut IntGaugeVecHandle, label: &str, x: i64)
    requires
        int_gauge_vec_labels(*old(v)).len() == 1,
    ensures
        int_gauge_vec_children(*final(v)) == int_gauge_vec_children(*old(v)).insert(
            label_values_hash(seq![label@]),
            x,
        ),
        int_gauge_vec_labels(*final(v)) == int_gauge_vec_labels(*old(v)),
        int_gauge_vec_fq_name(*final(v)) == int_gauge_vec_fq_name(*old(v)),
        int_gauge_vec_help(*final(v)) == int_gauge_vec_help(*old(v)),
        int_gauge_vec_child_labels(*final(v)) == insert_if_absent(
            int_gauge_vec_child_labels(*old(v)),
            label_values_hash(seq![label@]),
            label@,
        ),
{
    v.inner.with_label_values(&[label]).set(x);
}

/// `Collector::collect` of an integer gauge: always one gauge family, with
/// the gauge's name and help, carrying its value.
#[verifier::external_body]
pub(crate) fn int_gauge_collect(g: &IntGaugeHandle) -> (r: Vec<prometheus::proto::MetricFamily>)
    ensures
        r.len() == 1,
        family_name(r[0]) == int_gauge_fq_name(*g),
        family_help(r[0]) == int_gauge_help(*g),
        family_type(r[0]) == 1,
        reports_int_value(r[0], int_gauge_value(*g) as int),
{
    prometheus::core::Collector::collect(&g.inner)
}

/// `Collector::collect` of an integer counter: always one counter family,
/// with the counter's name and help, carrying its value.
#[verifier::external_body]
pub(crate) fn int_counter_collect(c: &IntCounterHandle) -> (r: Vec<
    prometheus::proto::MetricFamily,
>)
    ensures
        r.len() == 1,
        family_name(r[0]) == int_counter_fq_name(*c),
        family_help(r[0]) == int_counter_help(*c),
        family_type(r[0]) == 0,
        reports_int_value(r[0], int_counter_value(*c) as int),
{
    prometheus::core::Collector::collect(&c.inner)
}

/// `Collector::collect` of an integer counter vector: always one counter
/// family, with the vector's name and help, carrying one sample per child,
/// labelled with the child's label value.
#[verifier::external_body]
pub(crate) fn int_counter_vec_collect(v: &IntCounterVecHandle) -> (r: Vec<
    prometheus::proto::MetricFamily,
>)
    ensures
        r.len() == 1,
        family_name(r[0]) == int_counter_vec_fq_name(*v),
        family_help(r[0]) == int_counter_vec_help(*v),
        family_type(r[0]) == 0,
        int_counter_vec_labels(*v).len() == 1 ==> reports_int_children(
            r[0],
            int_counter_vec_labels(*v)[0],
            int_counter_vec_child_labels(*v),
            int_counter_vec_children(*v).map_values(|x: u64| x as int),
        ),
{
    prometheus::core::Collector::collect(&v.inner)
}

/// `Collector::collect` of an integer gauge vector: always one gauge family,
/// with the vector's name and help, carrying one sample per child.
#[verifier::external_body]
pub(crate) fn int_gauge_vec_collect(v: &IntGaugeVecHandle) -> (r: Vec<
    prometheus::proto::MetricFamily,
>)
    ensures
        r.len() == 1,
        family_name(r[0]) == int_gauge_vec_fq_name(*v),
        family_help(r[0]) == int_gauge_vec_help(*v),
        family_type(r[0]) == 1,
        int_gauge_vec_labels(*v).len() == 1 ==> reports_int_children(
            r[0],
            int_gauge_vec_labels(*v)[0],
            int_gauge_vec_child_labels(*v),
            int_gauge_vec_children(*v).map_values(|x: i64| x as int),
        ),
{
    prometheus::core::Collector::collect(&v.inner)
}

/// `Collector::collect` of a floating-point gauge: always one gauge family,
/// with the gauge's name and help (its floating-point value is not modelled).
#[verifier::external_body]
pub(crate) fn gauge_collect(g: &GaugeHandle) -> (r: Vec<prometheus::proto::MetricFamily>)
    ensures
        r.len() == 1,
        family_name(r[0]) == gauge_fq_name(*g),
        family_help(r[0]) == gauge_help(*g),
        family_type(r[0]) == 1,
{
    prometheus::core::Collector::collect(&g.inner)
}

/// `Collector::collect` of a floating-point counter vector: always one
/// counter family, with the vector's name and help (its floating-point
/// samples are not modelled).
#[verifier::external_body]
pub(crate) fn counter_vec_collect(v: &CounterVecHandle) -> (r: Vec<
    prometheus::proto::MetricFamily,
>)
    ensures
        r.len() == 1,
        family_name(r[0]) == counter_vec_fq_name(*v),
        family_help(r[0]) == counter_vec_help(*v),
        family_type(r[0]) == 0,
{
    prometheus::core::Collector::collect(&v.inner)
}

} // verus!
