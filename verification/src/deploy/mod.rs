//! Deployment support: Gateway API manifest generation, health checking
//! decisions and installer settings.

pub mod health;
pub mod installer;
pub mod manifest;
