//! The instant-conditions record, as returned by the provider's
//! current-weather endpoint.

use vstd::prelude::*;

use crate::api::{Coord, Rain, Snow, Weather};

verus! {

/// Cloud cover as a percentage.
#[derive(Debug, PartialEq, Clone, Copy)]
pub struct Clouds {
    pub all: u16,
}

/// A snapshot of the conditions at one instant and place.
#[derive(Debug, PartialEq)]
pub struct CurrentResponse {
    pub coord: Coord,
    pub weather: Vec<Weather>,
    pub main: Main,
    pub visibility: Option<u16>,
    pub wind: Option<Wind>,
    pub rain: Option<Rain>,
    pub snow: Option<Snow>,
    pub clouds: Option<Clouds>,
    pub dt: i64,
    pub sys: Sys,
    pub timezone: i32,
    pub id: u32,
    pub name: String,
}

/// Temperature statistics in hundredths of the active unit, with
/// pressure in whole hectopascals and humidity as a percentage.
#[derive(Debug, PartialEq, Clone, Copy)]
pub struct Main {
    pub temp: i32,
    pub feels_like: i32,
    pub temp_min: i32,
    pub temp_max: i32,
    pub pressure: u16,
    pub humidity: u8,
}

/// Wind conditions: speed and gusts in hundredths of the active
/// unit, direction in hundredths of a degree.
#[derive(Debug, PartialEq, Clone, Copy)]
pub struct Wind {
    pub speed: i32,
    pub deg: Option<i32>,
    pub gale: Option<i32>,
}

/// The astronomical and administrative data of the place.
#[derive(Debug, PartialEq)]
pub struct Sys {
    pub country: String,
    pub sunrise: i64,
    pub sunset: i64,
}

} // verus!
