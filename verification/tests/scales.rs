use girouette::icons::{get_wind_type, wind_dir_index_exec, wind_dir_str};
use girouette::scale::{
    aqi_color_index, display_color_index, display_speed_h, humidity_color_index, humidity_ramp_at,
    temp_ramp_at, wind_color_index, wind_ramp_at,
};
use girouette::{DisplayMode, UnitMode, WindType};

#[test]
fn temp_index_clamps_at_cold_end() {
    // -40.0 degrees Celsius, metric display: clamped to the first entry.
    assert_eq!(display_color_index(-4000, UnitMode::Metric), 0);
}

#[test]
fn temp_index_clamps_at_hot_end() {
    // 100.0 degrees Celsius: clamped to the last entry.
    assert_eq!(display_color_index(10000, UnitMode::Metric), 56);
}

#[test]
fn temp_index_exact_values() {
    // 0.0 C -> round(0) + 16 = 16.
    assert_eq!(display_color_index(0, UnitMode::Metric), 16);
    // 21.37 C rounds to 21 -> 37.
    assert_eq!(display_color_index(2137, UnitMode::Metric), 37);
    // 293.15 K is 20 C -> 36.
    assert_eq!(display_color_index(29315, UnitMode::Standard), 36);
    // 68 F is 20 C -> 36.
    assert_eq!(display_color_index(6800, UnitMode::Imperial), 36);
    // -20.6 C rounds to -21 -> clamped against zero? -21+16 = -5 -> 0.
    assert_eq!(display_color_index(-2060, UnitMode::Metric), 0);
}

#[test]
fn temp_index_monotone_samples() {
    let mut last = 0;
    for t in [-10000i32, -4000, -1600, 0, 1600, 2500, 4000, 10000] {
        let i = display_color_index(t, UnitMode::Metric);
        assert!(i >= last);
        assert!(i <= 56);
        last = i;
    }
}

#[test]
fn humidity_index_boundaries() {
    assert_eq!(humidity_color_index(0), 0);
    assert_eq!(humidity_color_index(100), 10);
    assert_eq!(humidity_color_index(55), 5);
    // Absurd byte values still stay in the table.
    assert_eq!(humidity_color_index(255), 10);
}

#[test]
fn wind_index_normalizes_to_kmh() {
    // Metric stores m/s: 10.00 m/s = 36 km/h -> index 36.
    assert_eq!(wind_color_index(1000, UnitMode::Metric), 36);
    // Standard also stores m/s.
    assert_eq!(wind_color_index(1000, UnitMode::Standard), 36);
    // Imperial stores mph: 10 mph = 16.09 km/h -> index 16.
    assert_eq!(wind_color_index(1000, UnitMode::Imperial), 16);
    // Extreme speeds clamp to the last entry.
    assert_eq!(wind_color_index(i32::MAX, UnitMode::Metric), 51);
    // Nothing below the first entry.
    assert_eq!(wind_color_index(0, UnitMode::Metric), 0);
    assert_eq!(wind_color_index(-500, UnitMode::Metric), 0);
}

#[test]
fn ramp_table_entries() {
    assert_eq!(temp_ramp_at(0), 57);
    assert_eq!(temp_ramp_at(16), 51);
    assert_eq!(temp_ramp_at(56), 196);
    assert_eq!(wind_ramp_at(0), 46);
    assert_eq!(wind_ramp_at(51), 129);
    assert_eq!(humidity_ramp_at(0), 220);
    assert_eq!(humidity_ramp_at(5), 46);
    assert_eq!(humidity_ramp_at(10), 39);
    assert_eq!(aqi_color_index(0), 0);
    assert_eq!(aqi_color_index(1), 0);
    assert_eq!(aqi_color_index(3), 2);
    assert_eq!(aqi_color_index(5), 4);
    assert_eq!(aqi_color_index(9), 4);
}

#[test]
fn wind_type_thresholds() {
    // Metric display speeds are km/h in hundredths.
    assert!(matches!(get_wind_type(3500, UnitMode::Metric), WindType::High));
    assert!(matches!(get_wind_type(3499, UnitMode::Metric), WindType::Mid));
    assert!(matches!(get_wind_type(2000, UnitMode::Metric), WindType::Mid));
    assert!(matches!(get_wind_type(1999, UnitMode::Metric), WindType::Low));
    // Standard shows m/s.
    assert!(matches!(get_wind_type(972, UnitMode::Standard), WindType::High));
    assert!(matches!(get_wind_type(971, UnitMode::Standard), WindType::Mid));
    assert!(matches!(get_wind_type(556, UnitMode::Standard), WindType::Mid));
    assert!(matches!(get_wind_type(555, UnitMode::Standard), WindType::Low));
    // Imperial shows mph.
    assert!(matches!(get_wind_type(2175, UnitMode::Imperial), WindType::High));
    assert!(matches!(get_wind_type(1243, UnitMode::Imperial), WindType::Mid));
    assert!(matches!(get_wind_type(1242, UnitMode::Imperial), WindType::Low));
}

#[test]
fn display_speed_converts_only_metric() {
    assert_eq!(display_speed_h(1000, UnitMode::Metric), 3600);
    assert_eq!(display_speed_h(1000, UnitMode::Standard), 1000);
    assert_eq!(display_speed_h(1000, UnitMode::Imperial), 1000);
}

#[test]
fn wind_direction_buckets() {
    // North wind (0 degrees) takes the first bucket.
    assert_eq!(wind_dir_index_exec(0), 0);
    // 90 degrees.
    assert_eq!(wind_dir_index_exec(9000), 2);
    // Wrap just before a full turn.
    assert_eq!(wind_dir_index_exec(35999), 8);
    // Negative directions wrap around the circle.
    assert_eq!(wind_dir_index_exec(-4500), 7);
    assert_eq!(wind_dir_str(DisplayMode::Ascii, 0), " S ");
    assert_eq!(wind_dir_str(DisplayMode::Ascii, 4), " N ");
    assert_eq!(wind_dir_str(DisplayMode::Ascii, 8), " S ");
}
