//! The load-generation and measurement engine: metrics, load patterns and
//! run configuration.

pub mod metrics;
pub mod report;
pub mod runner;
