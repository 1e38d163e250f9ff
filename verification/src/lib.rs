//! Verified core of a Kubernetes Gateway API load-testing and comparison tool.
//!
//! The crate covers the measurement engine (latency, throughput and error
//! statistics), the load-pattern evaluator, the test-round and cross-round
//! aggregation logic, and the plain data models and builders that the
//! orchestration layers exchange.  All arithmetic is carried out on integers:
//! latencies in microseconds, rates in thousandths of a request per second,
//! and ratios in hundredths of a percent.

pub mod benchmark;
pub mod clock;
pub mod config;
pub mod deploy;
pub mod executor;
pub mod http;
pub mod k8s;
pub mod kubevirt;
pub mod output;
pub mod results;
pub mod utils;
pub mod kvlist;
pub mod models;
pub mod util;
