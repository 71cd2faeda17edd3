//! Tokio runtime metrics for prometheus: the catalogue of exported metrics,
//! the names under which they are exported, and a collector whose every
//! collection is verified against the runtime readings that it is given.

pub mod catalog;
pub mod naming;
pub mod label;
pub mod prom;
pub mod snapshot;
pub mod model;
pub mod collector;
pub mod laws;
