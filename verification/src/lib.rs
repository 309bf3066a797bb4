//! A load generator's core: the metrics facade (percentiles, intervals,
//! metric values and a metric registry), the workload configuration, the
//! request generators that turn a configuration and a random stream into
//! requests, and the decisions of the protocol clients.

pub mod clients;
pub mod config;
pub mod facade;
pub mod metrics_core;
pub mod workload;
