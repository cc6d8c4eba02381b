//! The display configuration: base style, separator, display mode,
//! unit system and the ordered segment list, plus the mapping between
//! bare segment names and default-configured segments that the
//! configuration surface uses.

use vstd::prelude::*;

use crate::segments::{
    Alerts, CloudCover, DailyForecast, DayTime, HourlyForecast, Humidity, Instant, LocationName,
    Pollution, Pressure, Rain, Segment, Snow, Temperature, WeatherDescription, WeatherIcon,
    WindSpeed,
};
use crate::strutil::str_eq;
use crate::style::{ScaledColor, Style};
use crate::{DisplayMode, UnitMode};

verus! {

/// The configuration of one render pass.
#[derive(Debug, PartialEq)]
pub struct DisplayConfig {
    pub base_style: Style,
    pub separator: String,
    pub display_mode: DisplayMode,
    pub units: UnitMode,
    pub segments: Vec<Segment>,
}

impl Default for DisplayConfig {
    /// The default configuration: a plain base style, a two-space
    /// separator, the plain-Unicode repertoire, metric units and no
    /// segments.
    fn default() -> (r: Self)
        ensures
            r.base_style == Style::spec_plain(),
            r.separator@ == "  "@,
            r.display_mode == DisplayMode::Unicode,
            r.units == UnitMode::Metric,
            r.segments@ == Seq::<Segment>::empty(),
    {
        DisplayConfig {
            base_style: Style::plain(),
            separator: "  ".to_owned(),
            display_mode: DisplayMode::Unicode,
            units: UnitMode::Metric,
            segments: Vec::new(),
        }
    }
}

/// Whether a bare name denotes a segment in the configuration
/// surface's name set.
pub open spec fn valid_segment_name(name: Seq<char>) -> bool {
    name == "instant"@ || name == "location_name"@ || name == "temperature"@ || name
        == "weather_icon"@ || name == "weather_description"@ || name == "wind_speed"@ || name
        == "humidity"@ || name == "rain"@ || name == "pressure"@ || name == "cloud_cover"@ || name
        == "daily_forecast"@ || name == "hourly_forecast"@ || name == "alerts"@ || name
        == "daytime"@ || name == "pollution"@
}

/// The bare name of a segment variant.
pub open spec fn spec_segment_name(s: Segment) -> Seq<char> {
    match s {
        Segment::Instant(_) => "instant"@,
        Segment::LocationName(_) => "location_name"@,
        Segment::Temperature(_) => "temperature"@,
        Segment::WeatherIcon(_) => "weather_icon"@,
        Segment::WeatherDescription(_) => "weather_description"@,
        Segment::WindSpeed(_) => "wind_speed"@,
        Segment::Humidity(_) => "humidity"@,
        Segment::Rain(_) => "rain"@,
        Segment::Snow(_) => "snow"@,
        Segment::Pressure(_) => "pressure"@,
        Segment::CloudCover(_) => "cloud_cover"@,
        Segment::DailyForecast(_) => "daily_forecast"@,
        Segment::HourlyForecast(_) => "hourly_forecast"@,
        Segment::Alerts(_) => "alerts"@,
        Segment::DayTime(_) => "daytime"@,
        Segment::Pollution(_) => "pollution"@,
    }
}

/// The bare name of a segment, as the configuration surface writes
/// it.
pub fn segment_name(s: &Segment) -> (r: &'static str)
    ensures
        r@ == spec_segment_name(*s),
{
    match s {
        Segment::Instant(_) => "instant",
        Segment::LocationName(_) => "location_name",
        Segment::Temperature(_) => "temperature",
        Segment::WeatherIcon(_) => "weather_icon",
        Segment::WeatherDescription(_) => "weather_description",
        Segment::WindSpeed(_) => "wind_speed",
        Segment::Humidity(_) => "humidity",
        Segment::Rain(_) => "rain",
        Segment::Snow(_) => "snow",
        Segment::Pressure(_) => "pressure",
        Segment::CloudCover(_) => "cloud_cover",
        Segment::DailyForecast(_) => "daily_forecast",
        Segment::HourlyForecast(_) => "hourly_forecast",
        Segment::Alerts(_) => "alerts",
        Segment::DayTime(_) => "daytime",
        Segment::Pollution(_) => "pollution",
    }
}

/// Whether `s` is the default-configured segment that the bare name
/// `name` denotes: its name is `name` and every one of its fields has
/// its default value.
pub open spec fn default_segment_shape(name: Seq<char>, s: Segment) -> bool {
    spec_segment_name(s) == name && match s {
        Segment::Instant(i) => i.style is None && i.date_format@ == "%F %T %:z"@,
        Segment::LocationName(v) => v == (LocationName { style: None }),
        Segment::Temperature(v) => v == (Temperature {
            display_mode: None,
            feels_like: false,
            min_max: false,
            style: ScaledColor::Scaled,
        }),
        Segment::WeatherIcon(v) => v == (WeatherIcon { display_mode: None, style: None }),
        Segment::WeatherDescription(v) => v == (WeatherDescription { style: None }),
        Segment::WindSpeed(v) => v == (WindSpeed {
            display_mode: None,
            style: ScaledColor::Scaled,
        }),
        Segment::Humidity(v) => v == (Humidity { display_mode: None, style: ScaledColor::Scaled }),
        Segment::Rain(v) => v == (Rain { display_mode: None, style: None }),
        Segment::Snow(v) => v == (Snow { display_mode: None, style: None }),
        Segment::Pressure(v) => v == (Pressure { display_mode: None, style: None }),
        Segment::CloudCover(v) => v == (CloudCover { display_mode: None, style: None }),
        Segment::DailyForecast(v) => v == (DailyForecast {
            display_mode: None,
            temp_style: ScaledColor::Scaled,
            style: None,
            days: 3,
        }),
        Segment::HourlyForecast(v) => v == (HourlyForecast {
            display_mode: None,
            temp_style: ScaledColor::Scaled,
            style: None,
            step: 2,
            hours: 3,
        }),
        Segment::Alerts(v) => v == (Alerts {
            display_mode: None,
            style: None,
            description: false,
            sender: false,
        }),
        Segment::DayTime(v) => v == (DayTime { display_mode: None, style: None }),
        Segment::Pollution(v) => v == (Pollution {
            display_mode: None,
            style: ScaledColor::Scaled,
        }),
    }
}

/// Structural equality of two segments: plain equality, except that
/// the timestamp segment's pattern strings are compared by their
/// characters.
pub open spec fn segment_structural_eq(s1: Segment, s2: Segment) -> bool {
    match (s1, s2) {
        (Segment::Instant(a), Segment::Instant(b)) => a.style == b.style && a.date_format@
            == b.date_format@,
        _ => s1 == s2,
    }
}

/// The default-configured segment a bare name denotes, or nothing for
/// a name outside the valid set (a hard configuration error at the
/// caller). The snow segment has no bare name in the configuration
/// surface; it is only reached through the mapping form.
///
/// The contract pins every field of the result, so parsing a name,
/// printing the segment's name back and parsing it again provably
/// round-trips (see [`lemma_segment_name_round_trip`]).
pub fn segment_from_name(name: &str) -> (r: Option<Segment>)
    ensures
        r is Some <==> valid_segment_name(name@),
        r matches Some(s) ==> default_segment_shape(name@, s),
{
    if str_eq(name, "instant") {
        Some(Segment::Instant(Instant::default()))
    } else if str_eq(name, "location_name") {
        Some(Segment::LocationName(LocationName { style: None }))
    } else if str_eq(name, "temperature") {
        Some(
            Segment::Temperature(
                Temperature {
                    display_mode: None,
                    feels_like: false,
                    min_max: false,
                    style: ScaledColor::Scaled,
                },
            ),
        )
    } else if str_eq(name, "weather_icon") {
        Some(Segment::WeatherIcon(WeatherIcon { display_mode: None, style: None }))
    } else if str_eq(name, "weather_description") {
        Some(Segment::WeatherDescription(WeatherDescription { style: None }))
    } else if str_eq(name, "wind_speed") {
        Some(Segment::WindSpeed(WindSpeed { display_mode: None, style: ScaledColor::Scaled }))
    } else if str_eq(name, "humidity") {
        Some(Segment::Humidity(Humidity { display_mode: None, style: ScaledColor::Scaled }))
    } else if str_eq(name, "rain") {
        Some(Segment::Rain(Rain { display_mode: None, style: None }))
    } else if str_eq(name, "pressure") {
        Some(Segment::Pressure(Pressure { display_mode: None, style: None }))
    } else if str_eq(name, "cloud_cover") {
        Some(Segment::CloudCover(CloudCover { display_mode: None, style: None }))
    } else if str_eq(name, "daily_forecast") {
        Some(
            Segment::DailyForecast(
                DailyForecast {
                    display_mode: None,
                    temp_style: ScaledColor::Scaled,
                    style: None,
                    days: 3,
                },
            ),
        )
    } else if str_eq(name, "hourly_forecast") {
        Some(
            Segment::HourlyForecast(
                HourlyForecast {
                    display_mode: None,
                    temp_style: ScaledColor::Scaled,
                    style: None,
                    step: 2,
                    hours: 3,
                },
            ),
        )
    } else if str_eq(name, "alerts") {
        Some(
            Segment::Alerts(
                Alerts { display_mode: None, style: None, description: false, sender: false },
            ),
        )
    } else if str_eq(name, "daytime") {
        Some(Segment::DayTime(DayTime { display_mode: None, style: None }))
    } else if str_eq(name, "pollution") {
        Some(Segment::Pollution(Pollution { display_mode: None, style: ScaledColor::Scaled }))
    } else {
        None
    }
}

/// Round trip of the segment-name surface: a default-configured
/// segment prints as the name that denotes it, and the name pins the
/// segment — any two default-configured segments denoted by the same
/// name are structurally equal. A configuration built purely from
/// named default segments therefore survives being written out as
/// names and read back, segment for segment.
#[verifier::rlimit(100)]
pub proof fn lemma_segment_name_round_trip(name: Seq<char>, s1: Segment, s2: Segment)
    requires
        default_segment_shape(name, s1),
        default_segment_shape(name, s2),
    ensures
        spec_segment_name(s1) == name,
        segment_structural_eq(s1, s2),
{
    reveal_strlit("instant");
    reveal_strlit("location_name");
    reveal_strlit("temperature");
    reveal_strlit("weather_icon");
    reveal_strlit("weather_description");
    reveal_strlit("wind_speed");
    reveal_strlit("humidity");
    reveal_strlit("rain");
    reveal_strlit("snow");
    reveal_strlit("pressure");
    reveal_strlit("cloud_cover");
    reveal_strlit("daily_forecast");
    reveal_strlit("hourly_forecast");
    reveal_strlit("alerts");
    reveal_strlit("daytime");
    reveal_strlit("pollution");
    assert("instant"@.len() == 7);
    assert("location_name"@.len() == 13);
    assert("temperature"@.len() == 11);
    assert("weather_icon"@.len() == 12);
    assert("weather_description"@.len() == 19);
    assert("wind_speed"@.len() == 10);
    assert("humidity"@.len() == 8);
    assert("rain"@.len() == 4);
    assert("snow"@.len() == 4);
    assert("pressure"@.len() == 8);
    assert("cloud_cover"@.len() == 11);
    assert("daily_forecast"@.len() == 14);
    assert("hourly_forecast"@.len() == 15);
    assert("alerts"@.len() == 6);
    assert("daytime"@.len() == 7);
    assert("pollution"@.len() == 9);
    assert("rain"@[0] == 'r' && "snow"@[0] == 's');
    assert("instant"@[0] == 'i' && "daytime"@[0] == 'd');
    assert("humidity"@[0] == 'h' && "pressure"@[0] == 'p');
    assert("temperature"@[0] == 't' && "cloud_cover"@[0] == 'c');
    if s1 is Instant {
        assert(s2 is Instant);
    }
    if s1 is LocationName {
        assert(s2 is LocationName);
    }
    if s1 is Temperature {
        assert(s2 is Temperature);
    }
    if s1 is WeatherIcon {
        assert(s2 is WeatherIcon);
    }
    if s1 is WeatherDescription {
        assert(s2 is WeatherDescription);
    }
    if s1 is WindSpeed {
        assert(s2 is WindSpeed);
    }
    if s1 is Humidity {
        assert(s2 is Humidity);
    }
    if s1 is Rain {
        assert(s2 is Rain);
    }
    if s1 is Snow {
        assert(s2 is Snow);
    }
    if s1 is Pressure {
        assert(s2 is Pressure);
    }
    if s1 is CloudCover {
        assert(s2 is CloudCover);
    }
    if s1 is DailyForecast {
        assert(s2 is DailyForecast);
    }
    if s1 is HourlyForecast {
        assert(s2 is HourlyForecast);
    }
    if s1 is Alerts {
        assert(s2 is Alerts);
    }
    if s1 is DayTime {
        assert(s2 is DayTime);
    }
    if s1 is Pollution {
        assert(s2 is Pollution);
    }
}

} // verus!
