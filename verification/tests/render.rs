use girouette::api::current::{Clouds, CurrentResponse, Main, Sys, Wind};
use girouette::api::one_call::{
    Alert, FeelsLike, OneCallResponse, Temperature as ForecastTemp, TempValues, WeatherData,
};
use girouette::api::pollution::{AQIndex, Components, PollutionData, PollutionResponse};
use girouette::api::{Coord, Rain as RainData, Response, Weather};
use girouette::config::DisplayConfig;
use girouette::segments::{
    Alerts, CloudCover, DailyForecast, DayTime, HourlyForecast, Humidity, Instant, LocationName,
    Pollution, Rain, Renderer, RenderConf, Segment, Temperature, WeatherIcon, WindSpeed,
};
use girouette::sink::{OutEvent, Sink};
use girouette::style::{Style, TextColor};
use girouette::{Diagnostic, DisplayMode, QueryKind, RenderError, RenderStatus, UnitMode};

fn weather(id: u16) -> Weather {
    Weather {
        id,
        main: "Clear".to_string(),
        description: Some("clear sky".to_string()),
        icon: "01d".to_string(),
    }
}

fn current() -> CurrentResponse {
    CurrentResponse {
        coord: Coord { lat: 4885, lon: 235 },
        weather: vec![weather(800)],
        main: Main {
            temp: 2137,
            feels_like: 2000,
            temp_min: 1800,
            temp_max: 2500,
            pressure: 1013,
            humidity: 55,
        },
        visibility: None,
        wind: Some(Wind { speed: 500, deg: Some(9000), gale: None }),
        rain: None,
        snow: None,
        clouds: Some(Clouds { all: 40 }),
        dt: 43200,
        sys: Sys { country: "FR".to_string(), sunrise: 21600, sunset: 64800 },
        timezone: 0,
        id: 1,
        name: "Paris".to_string(),
    }
}

fn current_no_wind() -> CurrentResponse {
    let mut c = current();
    c.wind = None;
    c
}

fn hour_data(dt: i64, temp: ForecastTemp) -> WeatherData {
    WeatherData {
        dt,
        sunrise: Some(21600),
        sunset: Some(64800),
        temp,
        feels_like: FeelsLike::Value(1000),
        pressure: 1013,
        humidity: 50,
        clouds: 10,
        visibility: None,
        wind_speed: 100,
        wind_deg: Some(0),
        wind_gust: None,
        pop: None,
        rain: None,
        snow: None,
        weather: vec![weather(800)],
    }
}

fn forecast() -> OneCallResponse {
    OneCallResponse {
        lat: 4885,
        lon: 235,
        timezone_offset: 0,
        current: hour_data(43200, ForecastTemp::Value(2000)),
        minutely: None,
        hourly: None,
        daily: None,
        alerts: None,
    }
}

fn conf(mode: DisplayMode) -> RenderConf {
    RenderConf {
        base_style: Style::plain(),
        display_mode: mode,
        locale: "en_US".to_string(),
        units: UnitMode::Metric,
        now: 43200,
    }
}

fn config(segments: Vec<Segment>) -> DisplayConfig {
    DisplayConfig {
        base_style: Style::plain(),
        separator: "  ".to_string(),
        display_mode: DisplayMode::Unicode,
        units: UnitMode::Metric,
        segments,
    }
}

fn text_of(sink: &Sink) -> String {
    let mut s = String::new();
    for e in &sink.events {
        if let OutEvent::Text(t) = e {
            s.push_str(t);
        }
    }
    s
}

#[test]
fn empty_segment_list_renders_nothing() {
    let renderer = Renderer::from(config(vec![]));
    let mut sink = Sink::new();
    let mut diags = Vec::new();
    let resp = Response::from_current(current());
    let r = renderer.render(&mut sink, &mut diags, &resp, None, None, 43200);
    assert!(r.is_ok());
    assert_eq!(sink.events.len(), 0);
    assert_eq!(text_of(&sink).len(), 0);
    assert_eq!(diags, vec![Diagnostic::NoSegments]);
}

#[test]
fn separator_suppressed_after_empty_segment() {
    let renderer = Renderer::from(config(vec![
        Segment::LocationName(LocationName { style: None }),
        Segment::WindSpeed(WindSpeed::default()),
        Segment::LocationName(LocationName { style: None }),
    ]));
    let mut sink = Sink::new();
    let mut diags = Vec::new();
    let resp = Response::from_current(current_no_wind());
    let r = renderer.render(&mut sink, &mut diags, &resp, None, None, 43200);
    assert!(r.is_ok());
    let base = Style::plain().with_reset();
    assert_eq!(
        sink.events,
        vec![
            OutEvent::SetStyle(base),
            OutEvent::Text("Paris".to_string()),
            OutEvent::SetStyle(base),
            OutEvent::Text("  ".to_string()),
            OutEvent::SetStyle(base),
            OutEvent::Text("Paris".to_string()),
            OutEvent::Reset,
        ]
    );
    let separators = sink
        .events
        .iter()
        .filter(|e| matches!(e, OutEvent::Text(t) if t == "  "))
        .count();
    assert_eq!(separators, 1);
}

#[test]
fn weather_icon_ascii_is_empty() {
    let seg = Segment::WeatherIcon(WeatherIcon::default());
    let mut sink = Sink::new();
    let mut diags = Vec::new();
    let resp = Response::from_current(current());
    let c = conf(DisplayMode::Ascii);
    let r = seg.render(&mut sink, &mut diags, &c, &resp);
    assert_eq!(r, Ok(RenderStatus::Empty));
    assert_eq!(text_of(&sink), "");
    assert!(diags.contains(&Diagnostic::AsciiNoIcon));
}

#[test]
fn unknown_code_falls_back_with_one_diagnostic() {
    let mut cur = current();
    cur.weather = vec![weather(999)];
    let seg = Segment::WeatherIcon(WeatherIcon::default());
    let mut sink = Sink::new();
    let mut diags = Vec::new();
    let resp = Response::from_current(cur);
    let c = conf(DisplayMode::NerdFonts);
    let r = seg.render(&mut sink, &mut diags, &c, &resp);
    assert_eq!(r, Ok(RenderStatus::Rendered));
    // Daytime clear-sky fallback glyph, and exactly one diagnostic.
    assert_eq!(sink.events, vec![OutEvent::Text("\u{e30d}".to_string())]);
    assert_eq!(diags, vec![Diagnostic::UnknownConditionCode { id: 999, night: false }]);
}

#[test]
fn missing_forecast_aborts_render() {
    let renderer = Renderer::from(config(vec![
        Segment::Temperature(Temperature::default()),
        Segment::DailyForecast(DailyForecast::default()),
    ]));
    let mut sink = Sink::new();
    let mut diags = Vec::new();
    let resp = Response::from_current(current());
    let r = renderer.render(&mut sink, &mut diags, &resp, None, None, 43200);
    assert_eq!(r, Err(RenderError::MissingForecast));
    let base = Style::plain().with_reset();
    // The temperature segment and its trailing separator were already
    // written; the failing segment contributed nothing, and the style
    // was still reset.
    assert_eq!(sink.events.len(), 9);
    assert_eq!(sink.events[0], OutEvent::SetStyle(base));
    assert_eq!(sink.events[1], OutEvent::Text("\u{1f321}\u{fe0f} ".to_string()));
    assert_eq!(sink.events[3], OutEvent::Text("21.4".to_string()));
    assert_eq!(sink.events[5], OutEvent::Text(" \u{b0}C".to_string()));
    assert_eq!(sink.events[7], OutEvent::Text("  ".to_string()));
    assert_eq!(sink.events[8], OutEvent::Reset);
}

#[test]
fn wind_speed_without_data_is_empty() {
    let seg = Segment::WindSpeed(WindSpeed::default());
    let mut sink = Sink::new();
    let mut diags = Vec::new();
    let resp = Response::from_current(current_no_wind());
    let c = conf(DisplayMode::Unicode);
    let r = seg.render(&mut sink, &mut diags, &c, &resp);
    assert_eq!(r, Ok(RenderStatus::Empty));
    assert_eq!(sink.events.len(), 0);
}

#[test]
fn wind_speed_render_metric() {
    let seg = Segment::WindSpeed(WindSpeed::default());
    let mut sink = Sink::new();
    let mut diags = Vec::new();
    let resp = Response::from_current(current());
    let c = conf(DisplayMode::Unicode);
    let r = seg.render(&mut sink, &mut diags, &c, &resp);
    assert_eq!(r, Ok(RenderStatus::Rendered));
    // 5 m/s shown as 18.0 km/h, west-pointing arrow for a 90-degree
    // wind, scaled color for 18 km/h.
    assert_eq!(
        sink.events,
        vec![
            OutEvent::Text("\u{2b05}\u{fe0f}".to_string()),
            OutEvent::SetStyle(Style::plain().with_fg(TextColor::Ansi256(226))),
            OutEvent::Text(" 18.0".to_string()),
            OutEvent::SetStyle(Style::plain()),
            OutEvent::Text(" km/h".to_string()),
        ]
    );
}

#[test]
fn humidity_render_exact_events() {
    let seg = Segment::Humidity(Humidity::default());
    let mut sink = Sink::new();
    let mut diags = Vec::new();
    let resp = Response::from_current(current());
    let c = conf(DisplayMode::Unicode);
    let r = seg.render(&mut sink, &mut diags, &c, &resp);
    assert_eq!(r, Ok(RenderStatus::Rendered));
    assert_eq!(
        sink.events,
        vec![
            OutEvent::Text("H".to_string()),
            OutEvent::SetStyle(Style::plain().with_fg(TextColor::Ansi256(46))),
            OutEvent::Text(" 55".to_string()),
            OutEvent::SetStyle(Style::plain()),
            OutEvent::Text(" %".to_string()),
        ]
    );
}

#[test]
fn cloud_cover_absent_is_empty() {
    let mut cur = current();
    cur.clouds = None;
    let seg = Segment::CloudCover(CloudCover::default());
    let mut sink = Sink::new();
    let mut diags = Vec::new();
    let resp = Response::from_current(cur);
    let c = conf(DisplayMode::Unicode);
    let r = seg.render(&mut sink, &mut diags, &c, &resp);
    assert_eq!(r, Ok(RenderStatus::Empty));
    assert_eq!(sink.events.len(), 0);
}

#[test]
fn rain_falls_back_to_three_hour_window() {
    let mut cur = current();
    cur.rain = Some(RainData { one_h: None, three_h: Some(50) });
    let seg = Segment::Rain(Rain::default());
    let mut sink = Sink::new();
    let mut diags = Vec::new();
    let resp = Response::from_current(cur);
    let c = conf(DisplayMode::Unicode);
    let r = seg.render(&mut sink, &mut diags, &c, &resp);
    assert_eq!(r, Ok(RenderStatus::Rendered));
    assert_eq!(text_of(&sink), "\u{2614} 0.5 mm/h");
}

#[test]
fn rain_prefers_one_hour_window() {
    let mut cur = current();
    cur.rain = Some(RainData { one_h: Some(120), three_h: Some(50) });
    let seg = Segment::Rain(Rain::default());
    let mut sink = Sink::new();
    let mut diags = Vec::new();
    let resp = Response::from_current(cur);
    let c = conf(DisplayMode::Unicode);
    seg.render(&mut sink, &mut diags, &c, &resp).unwrap();
    assert_eq!(text_of(&sink), "\u{2614} 1.2 mm/h");
}

#[test]
fn instant_render_default_pattern() {
    let seg = Segment::Instant(Instant::default());
    let mut sink = Sink::new();
    let mut diags = Vec::new();
    let resp = Response::from_current(current());
    let c = conf(DisplayMode::Unicode);
    let r = seg.render(&mut sink, &mut diags, &c, &resp);
    assert_eq!(r, Ok(RenderStatus::Rendered));
    assert_eq!(text_of(&sink), "1970-01-01 12:00:00 +00:00");
}

#[test]
fn temperature_min_max_feels_ascii_text() {
    let seg = Segment::Temperature(Temperature {
        display_mode: None,
        feels_like: true,
        min_max: true,
        style: girouette::style::ScaledColor::Fixed(None),
    });
    let mut sink = Sink::new();
    let mut diags = Vec::new();
    let resp = Response::from_current(current());
    let c = conf(DisplayMode::Ascii);
    seg.render(&mut sink, &mut diags, &c, &resp).unwrap();
    assert_eq!(
        text_of(&sink),
        " (m 18.0 \u{b0}C T 21.4 \u{b0}C M 25.0 \u{b0}C) (feels 20.0 \u{b0}C)"
    );
}

#[test]
fn daily_forecast_skips_days_without_tuple_temperature() {
    let mut f = forecast();
    let tuple = TempValues { morn: 1000, day: 1500, eve: 1200, night: 800, min: 700, max: 1600 };
    f.daily = Some(vec![
        hour_data(43200, ForecastTemp::Values(tuple)),
        hour_data(129600, ForecastTemp::Value(1000)),
        hour_data(216000, ForecastTemp::Values(TempValues { day: 1800, ..tuple })),
    ]);
    let seg = Segment::DailyForecast(DailyForecast::default());
    let mut sink = Sink::new();
    let mut diags = Vec::new();
    let resp = Response::from_forecast(f);
    let c = conf(DisplayMode::Unicode);
    let r = seg.render(&mut sink, &mut diags, &c, &resp);
    assert_eq!(r, Ok(RenderStatus::Rendered));
    let text = text_of(&sink);
    // Only the day at index two qualifies: Saturday, 18.0 degrees.
    assert!(text.contains("Sat"));
    assert!(text.contains("18.0"));
    assert!(!text.contains("15.0"));
    assert!(!text.contains("10.0"));
}

#[test]
fn daily_forecast_without_any_tuple_day_is_empty() {
    let mut f = forecast();
    f.daily = Some(vec![
        hour_data(43200, ForecastTemp::Value(1000)),
        hour_data(129600, ForecastTemp::Value(1100)),
    ]);
    let seg = Segment::DailyForecast(DailyForecast::default());
    let mut sink = Sink::new();
    let mut diags = Vec::new();
    let resp = Response::from_forecast(f);
    let c = conf(DisplayMode::Unicode);
    let r = seg.render(&mut sink, &mut diags, &c, &resp);
    assert_eq!(r, Ok(RenderStatus::Empty));
}

#[test]
fn hourly_forecast_takes_stepped_entries() {
    let mut f = forecast();
    f.hourly = Some(vec![
        hour_data(43200, ForecastTemp::Value(1000)),
        hour_data(46800, ForecastTemp::Value(1110)),
        hour_data(50400, ForecastTemp::Value(1220)),
        hour_data(54000, ForecastTemp::Value(1330)),
        hour_data(57600, ForecastTemp::Value(1440)),
        hour_data(61200, ForecastTemp::Value(1550)),
    ]);
    let seg = Segment::HourlyForecast(HourlyForecast {
        step: 2,
        hours: 2,
        ..HourlyForecast::default()
    });
    let mut sink = Sink::new();
    let mut diags = Vec::new();
    let resp = Response::from_forecast(f);
    let c = conf(DisplayMode::Unicode);
    let r = seg.render(&mut sink, &mut diags, &c, &resp);
    assert_eq!(r, Ok(RenderStatus::Rendered));
    let text = text_of(&sink);
    // Step two starting after the current hour: indices one and three.
    assert!(text.contains("11.1"));
    assert!(text.contains("13.3"));
    assert!(!text.contains("10.0"));
    assert!(!text.contains("12.2"));
    assert!(!text.contains("14.4"));
}

#[test]
fn alerts_dedup_tags_and_countdowns() {
    let mut f = forecast();
    f.alerts = Some(vec![Alert {
        sender_name: "MF".to_string(),
        event: "Storm".to_string(),
        start: 46800,
        end: 133200,
        description: "line1\nline2".to_string(),
        tags: vec!["FLOOD".to_string(), "flood".to_string(), "gale".to_string()],
    }]);
    let seg = Segment::Alerts(Alerts {
        display_mode: None,
        style: None,
        description: true,
        sender: true,
    });
    let mut sink = Sink::new();
    let mut diags = Vec::new();
    let resp = Response::from_forecast(f);
    let c = conf(DisplayMode::Unicode);
    let r = seg.render(&mut sink, &mut diags, &c, &resp);
    assert_eq!(r, Ok(RenderStatus::Rendered));
    // The two flood spellings collapse to one glyph; the unknown tag
    // is reported once.
    let floods = sink
        .events
        .iter()
        .filter(|e| matches!(e, OutEvent::Text(t) if t == "\u{1f4a7}\u{fe0f}  "))
        .count();
    assert_eq!(floods, 1);
    assert_eq!(diags, vec![Diagnostic::UnknownAlertTag]);
    let text = text_of(&sink);
    // A single alert is not numbered.
    assert!(!text.contains("1. "));
    assert!(text.contains("Storm: line1 line2 (MF) "));
    // The start is later today (clock time only); the end is on
    // another day (weekday and clock time).
    assert!(text.contains("13:00 "));
    assert!(text.contains("Fri 13:00 "));
}

#[test]
fn alerts_absent_is_empty() {
    let seg = Segment::Alerts(Alerts::default());
    let mut sink = Sink::new();
    let mut diags = Vec::new();
    let resp = Response::from_forecast(forecast());
    let c = conf(DisplayMode::Unicode);
    let r = seg.render(&mut sink, &mut diags, &c, &resp);
    assert_eq!(r, Ok(RenderStatus::Empty));
    assert_eq!(sink.events.len(), 0);
}

#[test]
fn pollution_render_and_errors() {
    let p = PollutionResponse {
        coord: Coord { lat: 0, lon: 0 },
        list: vec![PollutionData {
            dt: 0,
            main: AQIndex { aqi: 3 },
            components: Components {
                co: 0,
                no: 0,
                no2: 0,
                o3: 0,
                so2: 0,
                pm2_5: 0,
                pm10: 0,
                nh3: 0,
            },
        }],
    };
    let seg = Segment::Pollution(Pollution::default());
    let mut sink = Sink::new();
    let mut diags = Vec::new();
    let resp = Response::from_pollution(p);
    let c = conf(DisplayMode::Unicode);
    let r = seg.render(&mut sink, &mut diags, &c, &resp);
    assert_eq!(r, Ok(RenderStatus::Rendered));
    assert_eq!(
        sink.events,
        vec![
            OutEvent::Text("AQI".to_string()),
            OutEvent::SetStyle(Style::plain().with_fg(TextColor::Ansi256(226))),
            OutEvent::Text(" 3".to_string()),
            OutEvent::SetStyle(Style::plain()),
        ]
    );

    let mut sink2 = Sink::new();
    let mut diags2 = Vec::new();
    let no_pollution = Response::from_current(current());
    let r2 = seg.render(&mut sink2, &mut diags2, &c, &no_pollution);
    assert_eq!(r2, Err(RenderError::MissingPollution));
}

#[test]
fn missing_current_error_and_message() {
    let resp = Response::empty();
    let e = resp.as_current().unwrap_err();
    assert_eq!(e, RenderError::MissingCurrent);
    assert_eq!(e.message(), "internal error: missing current api data");
    assert_eq!(
        resp.as_forecast().unwrap_err().message(),
        "internal error: missing forecast api data"
    );
    assert_eq!(
        resp.as_pollution().unwrap_err().message(),
        "internal error: missing pollution api data"
    );
}

#[test]
fn merge_is_last_write_wins_per_record() {
    let mut resp = Response::empty();
    resp.merge(Response::from_current(current()));
    assert!(resp.as_current().is_ok());
    assert!(resp.as_forecast().is_err());
    resp.merge(Response::from_forecast(forecast()));
    assert!(resp.as_current().is_ok());
    assert!(resp.as_forecast().is_ok());
    let mut replacement = current();
    replacement.name = "Lyon".to_string();
    resp.merge(Response::from_current(replacement));
    assert_eq!(resp.as_current().unwrap().name, "Lyon");
    assert!(resp.as_forecast().is_ok());
}

#[test]
fn display_kind_classifies_segments() {
    let renderer = Renderer::from(config(vec![
        Segment::Temperature(Temperature::default()),
        Segment::DailyForecast(DailyForecast::default()),
        Segment::Pollution(Pollution::default()),
    ]));
    assert_eq!(
        renderer.display_kind().unwrap(),
        vec![QueryKind::Current, QueryKind::ForeCast, QueryKind::Pollution]
    );

    let forecast_only = Renderer::from(config(vec![Segment::Alerts(Alerts::default())]));
    assert_eq!(forecast_only.display_kind().unwrap(), vec![QueryKind::ForeCast]);

    let none = Renderer::from(config(vec![]));
    let e = none.display_kind().unwrap_err();
    assert_eq!(e, RenderError::NoDisplayKind);
    assert_eq!(e.message(), "there is no weather info to display");
}

#[test]
fn malformed_locale_hint_falls_back() {
    let renderer = Renderer::from(config(vec![Segment::LocationName(LocationName {
        style: None,
    })]));
    let mut sink = Sink::new();
    let mut diags = Vec::new();
    let resp = Response::from_current(current());
    let r = renderer.render(&mut sink, &mut diags, &resp, Some("xx_YY.UTF-8"), None, 43200);
    assert!(r.is_ok());
    assert_eq!(diags, vec![Diagnostic::UnknownLocale]);
    // A well-formed hint is accepted silently.
    let mut sink2 = Sink::new();
    let mut diags2 = Vec::new();
    let r2 = renderer.render(&mut sink2, &mut diags2, &resp, Some("fr_FR.UTF-8"), None, 43200);
    assert!(r2.is_ok());
    assert_eq!(diags2.len(), 0);
}

#[test]
fn daytime_render_times() {
    let seg = Segment::DayTime(DayTime::default());
    let mut sink = Sink::new();
    let mut diags = Vec::new();
    let resp = Response::from_current(current());
    let c = conf(DisplayMode::Unicode);
    let r = seg.render(&mut sink, &mut diags, &c, &resp);
    assert_eq!(r, Ok(RenderStatus::Rendered));
    assert_eq!(
        text_of(&sink),
        "\u{2600}\u{fe0f} \u{2b06}\u{fe0f} 06:00 \u{2b07}\u{fe0f} 18:00"
    );
}

#[test]
fn instant_render_in_source_offset() {
    // The pattern is laid out in the place's own fixed offset, not
    // the viewer's zone.
    let mut cur = current();
    cur.timezone = 3600;
    let seg = Segment::Instant(Instant::default());
    let mut sink = Sink::new();
    let mut diags = Vec::new();
    let resp = Response::from_current(cur);
    let c = conf(DisplayMode::Unicode);
    seg.render(&mut sink, &mut diags, &c, &resp).unwrap();
    assert_eq!(text_of(&sink), "1970-01-01 13:00:00 +01:00");
}

#[test]
fn instant_out_of_range_offset_renders_empty_text() {
    // Offsets beyond a day cannot be represented; the segment still
    // renders, with an empty text run instead of a panic.
    let mut cur = current();
    cur.timezone = 86400;
    let seg = Segment::Instant(Instant::default());
    let mut sink = Sink::new();
    let mut diags = Vec::new();
    let resp = Response::from_current(cur);
    let c = conf(DisplayMode::Unicode);
    let r = seg.render(&mut sink, &mut diags, &c, &resp);
    assert_eq!(r, Ok(RenderStatus::Rendered));
    assert_eq!(text_of(&sink), "");
}

#[test]
fn daily_forecast_weekday_is_localized() {
    let mut f = forecast();
    let tuple = TempValues { morn: 1000, day: 1500, eve: 1200, night: 800, min: 700, max: 1600 };
    f.daily = Some(vec![
        hour_data(43200, ForecastTemp::Values(tuple)),
        hour_data(129600, ForecastTemp::Values(tuple)),
    ]);
    let seg = Segment::DailyForecast(DailyForecast::default());
    let mut sink = Sink::new();
    let mut diags = Vec::new();
    let resp = Response::from_forecast(f);
    let mut c = conf(DisplayMode::Unicode);
    c.locale = "fr_FR".to_string();
    seg.render(&mut sink, &mut diags, &c, &resp).unwrap();
    // The second of January 1970 was a Friday: "ven." in French.
    assert!(text_of(&sink).contains("ven."));
}

#[test]
fn multiple_alerts_are_numbered() {
    let mut f = forecast();
    let alert = |event: &str| Alert {
        sender_name: "MF".to_string(),
        event: event.to_string(),
        start: 0,
        end: 0,
        description: String::new(),
        tags: vec![],
    };
    f.alerts = Some(vec![alert("Storm"), alert("Flood")]);
    let seg = Segment::Alerts(Alerts::default());
    let mut sink = Sink::new();
    let mut diags = Vec::new();
    let resp = Response::from_forecast(f);
    let c = conf(DisplayMode::Unicode);
    let r = seg.render(&mut sink, &mut diags, &c, &resp);
    assert_eq!(r, Ok(RenderStatus::Rendered));
    let text = text_of(&sink);
    assert!(text.contains("1. Storm"));
    assert!(text.contains("2. Flood"));
    // Both boundaries lie in the past: no countdowns.
    assert!(!text.contains(":"));
}

#[test]
fn high_wind_warning_glyph() {
    let mut cur = current();
    // 10 m/s shown as 36 km/h: past the high threshold.
    cur.wind = Some(Wind { speed: 1000, deg: None, gale: None });
    let seg = Segment::WindSpeed(WindSpeed::default());
    let mut sink = Sink::new();
    let mut diags = Vec::new();
    let resp = Response::from_current(cur);
    let c = conf(DisplayMode::Unicode);
    seg.render(&mut sink, &mut diags, &c, &resp).unwrap();
    let text = text_of(&sink);
    assert!(text.contains(" \u{1f32c} "));
    assert!(text.contains(" 36.0 km/h"));
    // Without a direction the plain-Unicode mode still writes the
    // variation selector alone, as the arrow run.
    assert!(matches!(&sink.events[0], OutEvent::Text(t) if t == "\u{fe0f}"));
}
