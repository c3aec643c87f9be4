//! The published status document (SpaceAPI, versions 14 and 15).
//!
//! Coordinates and measured values are of the type parameter `F`: the
//! document carries them through without computing on them.

use vstd::prelude::*;

verus! {

/// A status document: static space metadata plus the live `state` and
/// `sensors` overlays.
#[derive(Debug, Clone, PartialEq)]
pub struct SpaceApi<F> {
    pub api_compatibility: Vec<String>,
    pub space: String,
    pub logo: String,
    pub url: String,
    pub location: Option<Location<F>>,
    pub state: Option<State>,
    pub contact: Contact,
    pub projects: Option<Vec<String>>,
    pub sensors: Option<Sensors<F>>,
}

/// Where the space is.
#[derive(Debug, Clone, PartialEq)]
pub struct Location<F> {
    pub address: String,
    pub lon: F,
    pub lat: F,
    pub timezone: Option<String>,
    pub country_code: Option<String>,
    pub hint: Option<String>,
}

/// How to reach the space's people.
#[derive(Debug, Clone, PartialEq)]
pub struct Contact {
    pub mastodon: Option<String>,
    pub email: Option<String>,
    pub ml: Option<String>,
    pub issue_mail: Option<String>,
}

/// Whether the space is open, and since when.
#[derive(Debug, Clone, PartialEq)]
pub struct State {
    pub open: Option<bool>,
    pub lastchange: Option<u64>,
    pub icon: Option<Icon>,
}

/// Addresses of the pictures shown for an open and a closed space.
#[derive(Debug, Clone, PartialEq)]
pub struct Icon {
    pub open: String,
    pub closed: String,
}

/// Readings per sensor category; an empty list is left out of the published
/// document.
#[derive(Debug, Clone, PartialEq)]
pub struct Sensors<F> {
    pub temperature: Vec<Sensor<F>>,
    pub humidity: Vec<Sensor<F>>,
    pub carbondioxide: Vec<Sensor<u64>>,
}

/// One published reading.
#[derive(Debug, Clone, PartialEq)]
pub struct Sensor<T> {
    pub location: String,
    pub unit: String,
    pub value: T,
    pub lastchange: Option<u64>,
}

} // verus!
