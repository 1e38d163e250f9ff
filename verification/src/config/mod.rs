//! Configuration: application settings, environment-variable overrides,
//! predefined profiles and the configuration file model.

pub mod app;
pub mod env;
pub mod file;
pub mod profile;
