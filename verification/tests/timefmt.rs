use girouette::timeutil::{hourly_night, is_night, same_civil_day};

#[test]
fn night_boundaries() {
    let sunrise: i64 = 1000;
    let sunset: i64 = 5000;
    assert!(is_night(sunset + 1, sunrise, sunset));
    assert!(is_night(sunrise - 1, sunrise, sunset));
    assert!(!is_night((sunrise + sunset) / 2, sunrise, sunset));
    assert!(is_night(sunset, sunrise, sunset));
    assert!(is_night(sunrise, sunrise, sunset));
}

#[test]
fn civil_day_comparison() {
    // Same universal day.
    assert!(same_civil_day(1000, 0, 86000, 0));
    // Different universal days.
    assert!(!same_civil_day(1000, 0, 86401, 0));
    // An offset shifts the day boundary.
    assert!(!same_civil_day(86000, 3600, 1000, 0));
    // Negative timestamps floor toward earlier days.
    assert!(same_civil_day(-1, 0, -86400, 0));
    assert!(!same_civil_day(-1, 0, 0, 0));
}

#[test]
fn hourly_night_estimate() {
    // Day zero: sunrise 06:00, sunset 18:00, now noon, no offset.
    let sunrise: i64 = 21600;
    let sunset: i64 = 64800;
    let noon: i64 = 43200;
    // Same day: the real instants decide.
    assert!(!hourly_night(noon + 3600, 0, noon, sunrise, sunset));
    assert!(hourly_night(sunset + 1, 0, noon, sunrise, sunset));
    // Next day: today's times-of-day are reapplied to that date.
    let next_one_am: i64 = 86400 + 3600;
    assert!(hourly_night(next_one_am, 0, noon, sunrise, sunset));
    let next_noon: i64 = 86400 + 43200;
    assert!(!hourly_night(next_noon, 0, noon, sunrise, sunset));
    let next_evening: i64 = 86400 + 70000;
    assert!(hourly_night(next_evening, 0, noon, sunrise, sunset));
}
