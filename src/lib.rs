//! Status document publishing for a physical space: sensor readings are
//! validated for freshness, merged into a template document, and each
//! published resource is memoized behind a refresh-on-demand cache.

use vstd::prelude::*;

pub mod assets;
pub mod badge;
pub mod cache;
pub mod configuration;
pub mod health;
pub mod icon;
pub mod spaceapi;
pub mod status;
pub mod telemetry;
pub mod validator;

verus! {

/// Errors surfaced by the service.
#[derive(Debug, Clone, PartialEq, Eq)]
pub enum StatusError {
    /// Interaction with the telemetry store failed.
    Database(String),
    /// A file could not be read or parsed.
    File(String),
    /// The server could not be started.
    Server(String),
}

} // verus!
