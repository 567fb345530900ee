//! Configuration container for DPS components: optional settings with
//! defaults, loaded from a snapshot of environment variables, with derived
//! domain and URL values.

pub mod decimal;
pub mod environment;
pub mod config;
pub mod laws;

pub use config::{ConfigView, DpsConfig};
