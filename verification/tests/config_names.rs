use girouette::config::{segment_from_name, segment_name, DisplayConfig};
use girouette::segments::Segment;
use girouette::{DisplayMode, UnitMode};

#[test]
fn every_bare_name_round_trips() {
    let names = [
        "instant",
        "location_name",
        "temperature",
        "weather_icon",
        "weather_description",
        "wind_speed",
        "humidity",
        "rain",
        "pressure",
        "cloud_cover",
        "daily_forecast",
        "hourly_forecast",
        "alerts",
        "daytime",
        "pollution",
    ];
    for name in names {
        let seg = segment_from_name(name).unwrap();
        assert_eq!(segment_name(&seg), name);
        // Parsing the printed name again yields the same segment.
        let again = segment_from_name(segment_name(&seg)).unwrap();
        assert_eq!(seg, again);
    }
}

#[test]
fn unknown_names_are_rejected() {
    assert!(segment_from_name("frobnicate").is_none());
    assert!(segment_from_name("").is_none());
    assert!(segment_from_name("Instant").is_none());
    // The snow segment is only reachable through the mapping form,
    // not as a bare name.
    assert!(segment_from_name("snow").is_none());
}

#[test]
fn named_defaults_match_struct_defaults() {
    match segment_from_name("hourly_forecast").unwrap() {
        Segment::HourlyForecast(h) => {
            assert_eq!(h.step, 2);
            assert_eq!(h.hours, 3);
        }
        other => panic!("unexpected segment: {:?}", other),
    }
    match segment_from_name("daily_forecast").unwrap() {
        Segment::DailyForecast(d) => assert_eq!(d.days, 3),
        other => panic!("unexpected segment: {:?}", other),
    }
    match segment_from_name("instant").unwrap() {
        Segment::Instant(i) => assert_eq!(i.date_format, "%F %T %:z"),
        other => panic!("unexpected segment: {:?}", other),
    }
}

#[test]
fn default_display_config() {
    let c = DisplayConfig::default();
    assert_eq!(c.separator, "  ");
    assert!(matches!(c.display_mode, DisplayMode::Unicode));
    assert!(matches!(c.units, UnitMode::Metric));
    assert_eq!(c.segments.len(), 0);
    assert!(c.base_style.fg.is_none());
    assert!(!c.base_style.reset);
}
