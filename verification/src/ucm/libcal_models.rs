//! The opening hours of the library as its calendar service gives them.

use vstd::prelude::*;

verus! {

/// A span of opening hours.
#[derive(Debug)]
pub struct Hours {
    pub from: String,
    pub to: String,
}

/// What holds of one day: a status and, where open, the hours.
#[derive(Debug)]
pub struct Times {
    pub note: Option<String>,
    pub status: String,
    pub hours: Option<Vec<Hours>>,
    pub currently_open: Option<bool>,
}

/// One day of the calendar.
#[derive(Debug)]
pub struct Day {
    pub date: String,
    pub times: Times,
    /// The hours as text ready to show.
    pub rendered: String,
}

/// One week of the calendar, Sunday first.
#[derive(Debug)]
pub struct Week {
    pub sunday: Day,
    pub monday: Day,
    pub tuesday: Day,
    pub wednesday: Day,
    pub thursday: Day,
    pub friday: Day,
    pub saturday: Day,
}

/// A place with opening hours.
#[derive(Debug)]
pub struct Location {
    pub lid: u16,
    pub name: String,
    pub category: String,
    pub url: String,
    pub contact: String,
    pub lat: String,
    pub long: String,
    pub color: String,
    pub f: Option<String>,
    pub parent_lid: Option<u16>,
    pub weeks: Vec<Week>,
}

/// The calendar of all places.
#[derive(Debug)]
pub struct Calendar {
    pub locations: Vec<Location>,
}

} // verus!
