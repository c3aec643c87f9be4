//! Settings read once at startup. Durations are whole seconds.

use vstd::prelude::*;

verus! {

/// All settings of the service.
#[derive(Debug, Clone, PartialEq)]
pub struct Configuration {
    pub database: Database,
    pub server: Server,
    pub sensors: Sensors,
    pub cache_time: CacheTime,
}

/// How to reach the telemetry store.
#[derive(Debug, Clone, PartialEq)]
pub struct Database {
    pub connection: String,
    pub database: String,
    pub username: String,
    pub password: String,
}

/// Where the service listens.
#[derive(Debug, Clone, PartialEq)]
pub struct Server {
    pub hostname: String,
    pub port: u16,
}

/// The sensors whose readings are published.
#[derive(Debug, Clone, PartialEq)]
pub struct Sensors {
    pub door: DoorSettings,
    pub temperature: SensorSettings,
    pub humidity: SensorSettings,
    pub carbondioxide: SensorSettings,
}

/// The single sensor that tells whether the door is open.
///
/// A validity of zero accepts the most recent reading whatever its age.
#[derive(Debug, Clone, PartialEq)]
pub struct DoorSettings {
    pub entity: String,
    pub unit: String,
    pub validity: i64,
}

/// The sensors of one category, in the order in which they are published.
///
/// A validity of zero accepts the most recent reading whatever its age.
#[derive(Debug, Clone, PartialEq)]
pub struct SensorSettings {
    pub id: Vec<SensorIdentification>,
    pub unit: String,
    pub validity: i64,
}

/// One sensor of a category and the place it measures.
#[derive(Debug, Clone, PartialEq)]
pub struct SensorIdentification {
    pub entity: String,
    pub location: String,
}

/// Time-to-live of each cached resource; zero disables caching.
#[derive(Debug, Clone, PartialEq)]
pub struct CacheTime {
    pub status: i64,
    pub health: i64,
    pub badge: i64,
}

#[verifier::external_type_specification]
#[verifier::external_body]
pub struct ExTimeDelta(chrono::TimeDelta);

/// Why a configured duration was refused.
#[derive(Debug, Clone, Copy, PartialEq, Eq, Structural)]
pub enum DurationError {
    /// The value is not an integer that fits in 64 bits.
    NotAnInteger,
    /// The value lies outside the range of durations.
    OutOfRange,
}

/// Whether `secs` whole seconds make a duration: durations span at most
/// `i64::MAX` milliseconds either way.
pub open spec fn duration_in_range(secs: int) -> bool {
    -(i64::MAX / 1000) <= secs <= i64::MAX / 1000
}

/// Relies on chrono::TimeDelta::new: with no nanoseconds it makes a
/// duration exactly when the seconds lie within `i64::MAX` milliseconds
/// either way, and returns `None` otherwise.
#[verifier::external_body]
fn seconds_delta(secs: i64) -> (r: Option<chrono::TimeDelta>)
    ensures
        r is Some <==> duration_in_range(secs as int),
{
    chrono::TimeDelta::new(secs, 0)
}

/// A configured duration in whole seconds, from the integer that the
/// configuration holds (`None`: the value is not an integer of 64 bits).
pub fn duration_seconds(value: Option<i64>) -> (r: Result<i64, DurationError>)
    ensures
        value is None ==> r == Err::<i64, DurationError>(DurationError::NotAnInteger),
        value is Some && duration_in_range(value->Some_0 as int) ==> r == Ok::<i64, DurationError>(
            value->Some_0,
        ),
        value is Some && !duration_in_range(value->Some_0 as int) ==> r == Err::<i64, DurationError>(
            DurationError::OutOfRange,
        ),
{
    match value {
        None => Err(DurationError::NotAnInteger),
        Some(secs) => match seconds_delta(secs) {
            Some(_) => Ok(secs),
            None => Err(DurationError::OutOfRange),
        },
    }
}

} // verus!
