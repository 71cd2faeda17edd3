# prometheus_tokio

A collector of Tokio runtime metrics for Prometheus, written in Verus.

- `src/` is the verified library. `catalog` lists the fifteen exported
  metrics; `naming` says which namespaces and names Prometheus accepts;
  `label` writes the worker labels; `snapshot` holds one instant of runtime
  readings; `model` states what a collection does to the exported values;
  `collector` owns the Prometheus metrics and performs collections against
  that model; `laws` proves what every collection keeps; `prom` holds the
  trusted calls into Prometheus and Tokio.
- `app/` reads the runtime (the full set of readings needs the
  `tokio_unstable` RUSTFLAG), performs the floating-point updates, and
  implements Prometheus's `Collector` trait.
- `tests/` runs the library against real Prometheus metrics.
