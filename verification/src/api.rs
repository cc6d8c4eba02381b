//! The weather data aggregate: an already-decoded, already-merged
//! union of up to three independently optional data sets, as the
//! excluded query layer hands it over.
//!
//! Fractional upstream values are carried as fixed-point integers in
//! hundredths of their unit (a temperature of 21.37 degrees is 2137);
//! coordinates are carried in hundredths of a degree.

use vstd::prelude::*;

use crate::RenderError;

pub mod current;
pub mod one_call;
pub mod pollution;

verus! {

/// One weather condition: a provider code, a condition family name,
/// an optional localized description, and the provider's icon tag.
#[derive(Debug, PartialEq)]
pub struct Weather {
    pub id: u16,
    pub main: String,
    pub description: Option<String>,
    pub icon: String,
}

/// Rain accumulation, in hundredths of a millimeter, over the last
/// one and three hours.
#[derive(Debug, PartialEq, Clone, Copy)]
pub struct Rain {
    pub one_h: Option<i32>,
    pub three_h: Option<i32>,
}

/// Snow accumulation, in hundredths of a millimeter, over the last
/// one and three hours.
#[derive(Debug, PartialEq, Clone, Copy)]
pub struct Snow {
    pub one_h: Option<i32>,
    pub three_h: Option<i32>,
}

/// A coordinate pair in hundredths of a degree.
#[derive(Debug, PartialEq, Clone, Copy)]
pub struct Coord {
    pub lat: i32,
    pub lon: i32,
}

/// The aggregate: at most one of each sub-record at a time.
#[derive(Debug, PartialEq)]
pub struct Response {
    pub current: Option<current::CurrentResponse>,
    pub forecast: Option<one_call::OneCallResponse>,
    pub pollution: Option<pollution::PollutionResponse>,
}

impl Response {
    /// Every condition list a render pass may index is non-empty;
    /// the upstream provider always reports at least one condition.
    pub open spec fn wf(self) -> bool {
        &&& (self.current matches Some(c) ==> c.weather.len() >= 1)
        &&& (self.forecast matches Some(f) ==> {
            &&& (f.daily matches Some(d) ==> forall|i: int|
                0 <= i < d.len() ==> #[trigger] d[i].weather.len() >= 1)
            &&& (f.hourly matches Some(h) ==> forall|i: int|
                0 <= i < h.len() ==> #[trigger] h[i].weather.len() >= 1)
        })
    }

    /// An aggregate holding only an instant-conditions record.
    pub fn from_current(current: current::CurrentResponse) -> (r: Self)
        ensures
            r == (Response { current: Some(current), forecast: None, pollution: None }),
    {
        Self { current: Some(current), forecast: None, pollution: None }
    }

    /// An aggregate holding only a forecast record.
    pub fn from_forecast(forecast: one_call::OneCallResponse) -> (r: Self)
        ensures
            r == (Response { current: None, forecast: Some(forecast), pollution: None }),
    {
        Self { current: None, forecast: Some(forecast), pollution: None }
    }

    /// An aggregate holding only a pollution record.
    pub fn from_pollution(pollution: pollution::PollutionResponse) -> (r: Self)
        ensures
            r == (Response { current: None, forecast: None, pollution: Some(pollution) }),
    {
        Self { current: None, forecast: None, pollution: Some(pollution) }
    }

    /// The aggregate with no record at all.
    pub fn empty() -> (r: Self)
        ensures
            r == (Response { current: None, forecast: None, pollution: None }),
    {
        Self { current: None, forecast: None, pollution: None }
    }

    /// Merge a newer partial result into this aggregate: each record
    /// present in `other` replaces this aggregate's record whole
    /// (last write wins per sub-record, never a deeper merge), and
    /// each record absent from `other` is kept.
    pub fn merge(&mut self, other: Response)
        ensures
            final(self).current == (if other.current is Some {
                other.current
            } else {
                old(self).current
            }),
            final(self).forecast == (if other.forecast is Some {
                other.forecast
            } else {
                old(self).forecast
            }),
            final(self).pollution == (if other.pollution is Some {
                other.pollution
            } else {
                old(self).pollution
            }),
    {
        if let Some(c) = other.current {
            self.current = Some(c);
        }
        if let Some(f) = other.forecast {
            self.forecast = Some(f);
        }
        if let Some(p) = other.pollution {
            self.pollution = Some(p);
        }
    }

    /// The instant-conditions record, or the missing-record error.
    pub fn as_current(&self) -> (r: Result<&current::CurrentResponse, RenderError>)
        ensures
            r is Ok <==> self.current is Some,
            r matches Ok(c) ==> *c == self.current->Some_0,
            r is Err ==> r->Err_0 == RenderError::MissingCurrent,
    {
        match &self.current {
            Some(c) => Ok(c),
            None => Err(RenderError::MissingCurrent),
        }
    }

    /// The forecast record, or the missing-record error.
    pub fn as_forecast(&self) -> (r: Result<&one_call::OneCallResponse, RenderError>)
        ensures
            r is Ok <==> self.forecast is Some,
            r matches Ok(f) ==> *f == self.forecast->Some_0,
            r is Err ==> r->Err_0 == RenderError::MissingForecast,
    {
        match &self.forecast {
            Some(f) => Ok(f),
            None => Err(RenderError::MissingForecast),
        }
    }

    /// The pollution record, or the missing-record error.
    pub fn as_pollution(&self) -> (r: Result<&pollution::PollutionResponse, RenderError>)
        ensures
            r is Ok <==> self.pollution is Some,
            r matches Ok(p) ==> *p == self.pollution->Some_0,
            r is Err ==> r->Err_0 == RenderError::MissingPollution,
    {
        match &self.pollution {
            Some(p) => Ok(p),
            None => Err(RenderError::MissingPollution),
        }
    }
}

} // verus!
