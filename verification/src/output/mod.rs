//! Output format selection and the plain-text pieces of result formatting.

pub mod formatter;
