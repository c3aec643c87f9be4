//! Freshness check of telemetry readings against a validity window.

use vstd::prelude::*;

verus! {

/// One timestamped reading from the telemetry store.
///
/// `timestamp` is in whole seconds since the Unix epoch; `value` is whatever
/// the store measured (a number, an on/off state).
#[derive(Debug, Clone, PartialEq)]
pub struct SensorReading<V> {
    pub timestamp: i64,
    pub value: V,
}

/// A reading taken at `timestamp` is current at `now` under `window`
/// seconds: a window of zero disables the check, any other window admits
/// readings strictly newer than `now - window`.
pub open spec fn is_fresh(timestamp: int, window: int, now: int) -> bool {
    window == 0 || timestamp > now - window
}

/// Age of a reading taken at `timestamp`, seen at `now`.
pub open spec fn age(timestamp: int, now: int) -> int {
    now - timestamp
}

/// Keeps the reading's value if it is fresh enough to publish.
pub fn validate<V>(reading: SensorReading<V>, window: i64, now: i64) -> (r: Option<V>)
    ensures
        is_fresh(reading.timestamp as int, window as int, now as int) ==> r == Some(reading.value),
        !is_fresh(reading.timestamp as int, window as int, now as int) ==> r is None,
{
    if window == 0 || (reading.timestamp as i128) > (now as i128) - (window as i128) {
        Some(reading.value)
    } else {
        None
    }
}

/// With a positive window, a reading is kept exactly when its age is below
/// the window.
pub proof fn lemma_positive_window_keeps_young_readings(timestamp: i64, window: i64, now: i64)
    requires
        window > 0,
    ensures
        is_fresh(timestamp as int, window as int, now as int) <==> age(timestamp as int, now as int)
            < window,
{
}

/// With a zero window, every reading is kept, whatever its age.
pub proof fn lemma_zero_window_keeps_every_reading(timestamp: i64, now: i64)
    ensures
        is_fresh(timestamp as int, 0, now as int),
{
}

} // verus!
