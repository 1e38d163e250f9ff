//! Utilities: log level selection, timers and lap accounting.

pub mod logger;
pub mod timer;
