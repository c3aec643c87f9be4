//! The health resource: whether the telemetry store answers.

use vstd::prelude::*;
use crate::cache::RefreshCache;
use crate::StatusError;

verus! {

/// HTTP status of a healthy service.
pub const HTTP_OK: u16 = 200;

/// HTTP status of a service whose store is unreachable or not yet checked.
pub const HTTP_UNAVAILABLE: u16 = 418;

/// Outcome of the last connectivity probe.
#[derive(Debug, Clone, Copy, PartialEq, Eq, Structural)]
pub enum Health {
    Healthy,
    Unavailable,
}

impl Health {
    /// The health shown for a probe's result.
    pub fn from_probe(probe: &Result<(), StatusError>) -> (r: Health)
        ensures
            probe is Ok ==> r == Health::Healthy,
            probe is Err ==> r == Health::Unavailable,
    {
        match probe {
            Ok(_) => Health::Healthy,
            Err(_) => Health::Unavailable,
        }
    }

    /// The HTTP status answered for this health.
    pub fn status_code(&self) -> (r: u16)
        ensures
            *self == Health::Healthy ==> r == HTTP_OK,
            *self == Health::Unavailable ==> r == HTTP_UNAVAILABLE,
    {
        match self {
            Health::Healthy => HTTP_OK,
            Health::Unavailable => HTTP_UNAVAILABLE,
        }
    }

    /// The cache of the health resource; until its first probe it reports
    /// the store as unavailable.
    pub fn cache(ttl: i64) -> (r: RefreshCache<Health>)
        ensures
            r.cached() == Health::Unavailable,
            r.refreshed_at() is None,
            r.time_to_live() == ttl,
    {
        RefreshCache::new(Health::Unavailable, ttl)
    }
}

} // verus!
