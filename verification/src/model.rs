//! Plain data carried through the engine: search result labels, route query
//! endpoints, and itineraries with their legs. Times are epoch milliseconds,
//! durations whole seconds, coordinates microdegrees, so that every field is
//! an exact value the contracts can speak about.

use vstd::prelude::*;

verus! {

/// Displayable properties of one location candidate.
#[derive(Debug, Clone)]
pub struct Properties {
    pub label: String,
}

/// One endpoint of a route query: a coordinate in microdegrees plus the
/// label the user picked it under.
#[derive(Debug, Clone)]
pub struct Endpoint {
    pub lat_microdeg: i64,
    pub lon_microdeg: i64,
    pub label: String,
}

/// A route query: origin and destination, built once when the itinerary
/// view starts and never mutated afterwards.
#[derive(Debug, Clone)]
pub struct PlanQuery {
    pub from: Endpoint,
    pub to: Endpoint,
}

/// Travel mode of one leg.
#[derive(Debug, Clone, Copy, PartialEq, Eq, Structural)]
pub enum Mode {
    Walk,
    Bus,
    Rail,
    Subway,
    Other,
}

/// One leg of an itinerary. Stop names and the route's short name are empty
/// strings where the planner supplies none (a walking leg has no stops).
#[derive(Debug, Clone)]
pub struct Leg {
    pub mode: Mode,
    pub duration_secs: u64,
    pub from_stop: String,
    pub to_stop: String,
    pub route_short_name: String,
}

/// One itinerary between the chosen endpoints.
#[derive(Debug, Clone)]
pub struct Itinerary {
    pub start_time_ms: u64,
    pub end_time_ms: u64,
    pub duration_secs: u64,
    pub legs: Vec<Leg>,
}

} // verus!
