//! The parallel test execution engine: deterministic ordering of racy
//! results, round summaries and cross-round aggregation.

pub mod parallel;
pub mod runner;
