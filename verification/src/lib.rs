//! Connection settings for Zendesk's API.
//!
//! A [`Config`] names the service to talk to and the account to talk as. It
//! is built from four inputs, each of which may be missing, and every way of
//! building one either hands back a complete `Config` or names the first
//! requirement that was not met.

pub mod config;
pub mod environment;

pub use self::config::{Config, ConfigError};
pub use self::environment::{Environment, Lookup};
