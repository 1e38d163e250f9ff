//! Result storage models and report format selection.

pub mod report;
pub mod storage;
