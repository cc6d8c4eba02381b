//! The air-pollution record, as returned by the provider's air
//! quality endpoint.

use vstd::prelude::*;

use crate::api::Coord;

verus! {

/// The pollution record: coordinates and a time series of air
/// quality measurements.
#[derive(Debug, PartialEq)]
pub struct PollutionResponse {
    pub coord: Coord,
    pub list: Vec<PollutionData>,
}

/// One air quality measurement.
#[derive(Debug, PartialEq, Clone, Copy)]
pub struct PollutionData {
    pub dt: i64,
    pub main: AQIndex,
    pub components: Components,
}

/// The provider's air quality index, 1 (good) through 5 (very poor).
#[derive(Debug, PartialEq, Clone, Copy)]
pub struct AQIndex {
    pub aqi: u16,
}

/// Pollutant concentrations, in hundredths of a microgram per cubic
/// meter.
#[derive(Debug, PartialEq, Clone, Copy)]
pub struct Components {
    pub co: i64,
    pub no: i64,
    pub no2: i64,
    pub o3: i64,
    pub so2: i64,
    pub pm2_5: i64,
    pub pm10: i64,
    pub nh3: i64,
}

} // verus!
