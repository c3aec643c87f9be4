//! The door badge: a picture telling whether the space is open.

use vstd::prelude::*;
use crate::cache::RefreshCache;
use crate::configuration::DoorSettings;
use crate::status::QueryResult;
use crate::validator::{is_fresh, validate, SensorReading};

verus! {

/// File name of the badge shown while the space is open.
pub const BADGE_OPEN: &'static str = "open.svg";

/// File name of the badge shown while the space is closed.
pub const BADGE_CLOSED: &'static str = "closed.svg";

/// File name of the badge shown while the door state is unknown.
pub const BADGE_UNKNOWN: &'static str = "unknown.svg";

/// The three badge pictures, as SVG text.
#[derive(Debug, Clone, PartialEq)]
pub struct Badges {
    pub open: String,
    pub closed: String,
    pub unknown: String,
}

/// The door state to show: the door sensor's reading when its query
/// succeeded and the reading is fresh, unknown otherwise.
pub open spec fn door_open_for(settings: DoorSettings, reading: QueryResult<bool>, now: i64) -> Option<
    bool,
> {
    match reading {
        Ok(r) => if is_fresh(r.timestamp as int, settings.validity as int, now as int) {
            Some(r.value)
        } else {
            None
        },
        Err(_) => None,
    }
}

impl Badges {
    /// The badge shown for the door state `open` (`None`: unknown).
    pub open spec fn badge_for(&self, open: Option<bool>) -> String {
        match open {
            Some(true) => self.open,
            Some(false) => self.closed,
            None => self.unknown,
        }
    }

    /// Badges made of the three pictures.
    pub fn new(open: String, closed: String, unknown: String) -> (r: Self)
        ensures
            r.open == open,
            r.closed == closed,
            r.unknown == unknown,
    {
        Badges { open, closed, unknown }
    }

    /// The badge for the door state `open`: open, closed, or unknown when
    /// there is no state.
    pub fn select(&self, open: Option<bool>) -> (r: String)
        ensures
            r == self.badge_for(open),
    {
        match open {
            Some(true) => self.open.clone(),
            Some(false) => self.closed.clone(),
            None => self.unknown.clone(),
        }
    }

    /// The badge for the door sensor's query result at `now`: a failed query
    /// or a reading older than the door's validity shows the unknown badge.
    pub fn for_door(&self, settings: &DoorSettings, reading: &QueryResult<bool>, now: i64) -> (r:
        String)
        ensures
            r == self.badge_for(door_open_for(*settings, *reading, now)),
    {
        let open = match reading {
            Ok(r) => validate(SensorReading { timestamp: r.timestamp, value: r.value }, settings.validity, now),
            Err(_) => None,
        };
        self.select(open)
    }

    /// The cache of the badge resource; until its first refresh it serves
    /// the unknown badge.
    pub fn cache(&self, ttl: i64) -> (r: RefreshCache<String>)
        ensures
            r.cached() == self.unknown,
            r.refreshed_at() is None,
            r.time_to_live() == ttl,
    {
        RefreshCache::new(self.unknown.clone(), ttl)
    }
}

} // verus!
