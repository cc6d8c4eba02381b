//! The multi-period forecast record, as returned by the provider's
//! combined forecast endpoint.

use vstd::prelude::*;

use crate::api::{Rain, Snow, Weather};

verus! {

/// The forecast: a current slice, optional minute, hourly and daily
/// series, and optional active weather alerts.
#[derive(Debug, PartialEq)]
pub struct OneCallResponse {
    pub lat: i32,
    pub lon: i32,
    pub timezone_offset: i32,
    pub current: WeatherData,
    pub minutely: Option<Vec<MinutelyForecast>>,
    pub hourly: Option<Vec<WeatherData>>,
    pub daily: Option<Vec<WeatherData>>,
    pub alerts: Option<Vec<Alert>>,
}

/// One forecast period. Temperatures and feels-like values are
/// polymorphic: a single scalar for hourly periods, a tuple of
/// period-of-day values for daily periods.
#[derive(Debug, PartialEq)]
pub struct WeatherData {
    pub dt: i64,
    pub sunrise: Option<i64>,
    pub sunset: Option<i64>,
    pub temp: Temperature,
    pub feels_like: FeelsLike,
    pub pressure: u16,
    pub humidity: u8,
    pub clouds: u16,
    pub visibility: Option<u16>,
    pub wind_speed: i32,
    pub wind_deg: Option<i32>,
    pub wind_gust: Option<i32>,
    pub pop: Option<i32>,
    pub rain: Option<RainResult>,
    pub snow: Option<SnowResult>,
    pub weather: Vec<Weather>,
}

/// Precipitation: a plain amount or split accumulation windows, in
/// hundredths of a millimeter.
#[derive(Debug, PartialEq, Clone, Copy)]
pub enum RainResult {
    Value(i32),
    Values(Rain),
}

/// Snowfall: a plain amount or split accumulation windows, in
/// hundredths of a millimeter.
#[derive(Debug, PartialEq, Clone, Copy)]
pub enum SnowResult {
    Value(i32),
    Values(Snow),
}

/// A temperature in hundredths: one scalar (hourly periods) or one
/// value per period of day (daily periods).
#[derive(Debug, PartialEq, Clone, Copy)]
pub enum Temperature {
    Value(i32),
    Values(TempValues),
}

/// Period-of-day temperatures of one forecast day, in hundredths.
#[derive(Debug, PartialEq, Clone, Copy)]
pub struct TempValues {
    pub morn: i32,
    pub day: i32,
    pub eve: i32,
    pub night: i32,
    pub min: i32,
    pub max: i32,
}

/// A feels-like temperature in hundredths: scalar or per period of
/// day.
#[derive(Debug, PartialEq, Clone, Copy)]
pub enum FeelsLike {
    Value(i32),
    Values(FeelsLikeValues),
}

/// Period-of-day feels-like temperatures, in hundredths.
#[derive(Debug, PartialEq, Clone, Copy)]
pub struct FeelsLikeValues {
    pub morn: i32,
    pub day: i32,
    pub eve: i32,
    pub night: i32,
}

/// One minute of the precipitation series, in hundredths of a
/// millimeter.
#[derive(Debug, PartialEq, Clone, Copy)]
pub struct MinutelyForecast {
    pub dt: i64,
    pub precipitation: i32,
}

/// One active weather alert.
#[derive(Debug, PartialEq)]
pub struct Alert {
    pub sender_name: String,
    pub event: String,
    pub start: i64,
    pub end: i64,
    pub description: String,
    pub tags: Vec<String>,
}

} // verus!
