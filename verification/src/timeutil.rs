//! Timestamp arithmetic and date formatting.
//!
//! Night determination and calendar-day arithmetic are plain integer
//! logic and verified here; turning a timestamp into human-readable
//! text is delegated to the chrono crate through trusted wrappers
//! whose results are named functions of their arguments.

use vstd::prelude::*;
use vstd::arithmetic::div_mod::{
    lemma_div_is_ordered, lemma_div_pos_is_pos, lemma_fundamental_div_mod,
    lemma_fundamental_div_mod_converse_div, lemma_fundamental_div_mod_converse_mod,
    lemma_mod_division_less_than_divisor,
};

use core::fmt::Write;

verus! {

/// Whether an instant is at night, given the day's sunrise and sunset
/// instants: night holds from sunset on, and until sunrise.
pub open spec fn spec_is_night(now: int, sunrise: int, sunset: int) -> bool {
    now >= sunset || now <= sunrise
}

/// Whether `now` falls at night for the given sunrise and sunset.
pub fn is_night(now: i64, sunrise: i64, sunset: i64) -> (r: bool)
    ensures
        r == spec_is_night(now as int, sunrise as int, sunset as int),
{
    now >= sunset || now <= sunrise
}

/// Just after sunset and just before sunrise are night; the middle of
/// the daylight span is day. (For a daylight span shorter than two
/// seconds the integer midpoint collapses onto sunrise, so the span
/// is required to be at least two seconds wide.)
pub proof fn lemma_night_boundaries(t0: int, t1: int)
    requires
        t0 + 2 <= t1,
    ensures
        spec_is_night(t1 + 1, t0, t1),
        spec_is_night(t0 - 1, t0, t1),
        !spec_is_night((t0 + t1) / 2, t0, t1),
{
    let mid = (t0 + t1) / 2;
    lemma_div_is_ordered(2 * (t0 + 1), t0 + t1, 2);
    vstd::arithmetic::div_mod::lemma_div_multiples_vanish(t0 + 1, 2);
    lemma_div_is_ordered(t0 + t1, 2 * (t1 - 1), 2);
    vstd::arithmetic::div_mod::lemma_div_multiples_vanish(t1 - 1, 2);
}

/// Euclidean (floor) division by a positive divisor, on wide
/// integers so that timestamp arithmetic cannot overflow.
pub fn floor_div(a: i128, b: i128) -> (r: i128)
    requires
        1 <= b <= 0x1_0000_0000_0000,
        -0x1000_0000_0000_0000_0000 <= a <= 0x1000_0000_0000_0000_0000,
    ensures
        r == a as int / b as int,
        -0x1000_0000_0000_0000_0000 <= r <= 0x1000_0000_0000_0000_0000,
{
    if a >= 0 {
        proof {
            lemma_div_pos_is_pos(a as int, b as int);
            lemma_div_is_ordered(a as int / b as int, a as int, 1);
            vstd::arithmetic::div_mod::lemma_basic_div_specific_divisor(1);
            vstd::arithmetic::div_mod::lemma_div_is_ordered_by_denominator(a as int, 1, b as int);
        }
        ((a as u128) / (b as u128)) as i128
    } else {
        let m: u128 = (-a) as u128;
        let q: u128 = (m + (b as u128) - 1) / (b as u128);
        proof {
            let mi = m as int;
            let bi = b as int;
            let qi = (mi + bi - 1) / bi;
            lemma_div_pos_is_pos(mi + bi - 1, bi);
            assert(mi + bi - 1 <= bi * mi + (bi - 1)) by (nonlinear_arith)
                requires
                    1 <= mi,
                    1 <= bi,
            ;
            lemma_div_is_ordered(mi + bi - 1, bi * mi + (bi - 1), bi);
            vstd::arithmetic::div_mod::lemma_div_multiples_vanish_fancy(mi, bi - 1, bi);
            lemma_fundamental_div_mod(mi + bi - 1, bi);
            lemma_mod_division_less_than_divisor(mi + bi - 1, bi);
            let r0 = (mi + bi - 1) % bi;
            assert((-qi) * bi == -(qi * bi)) by (nonlinear_arith);
            lemma_fundamental_div_mod_converse_div(a as int, bi, -qi, bi - 1 - r0);
        }
        -(q as i128)
    }
}

/// Euclidean remainder by a positive divisor: always in `[0, b)`.
pub fn floor_mod(a: i128, b: i128) -> (r: i128)
    requires
        1 <= b <= 0x1_0000_0000_0000,
        -0x1000_0000_0000_0000_0000 <= a <= 0x1000_0000_0000_0000_0000,
    ensures
        r == a as int % b as int,
        0 <= r < b,
{
    let q = floor_div(a, b);
    proof {
        lemma_fundamental_div_mod(a as int, b as int);
        lemma_mod_division_less_than_divisor(a as int, b as int);
    }
    a - q * b
}

/// The calendar day number (days since the epoch) of a timestamp
/// taken in a fixed offset.
pub open spec fn civil_day(ts: int, off: int) -> int {
    (ts + off) / 86400
}

/// The second-of-day of a timestamp taken in a fixed offset.
pub open spec fn time_of_day(ts: int, off: int) -> int {
    (ts + off) % 86400
}

/// Whether two instants fall on the same calendar day when taken in
/// their respective fixed offsets.
pub fn same_civil_day(ts1: i64, off1: i32, ts2: i64, off2: i32) -> (r: bool)
    ensures
        r == (civil_day(ts1 as int, off1 as int) == civil_day(ts2 as int, off2 as int)),
{
    let d1 = floor_div(ts1 as i128 + off1 as i128, 86400);
    let d2 = floor_div(ts2 as i128 + off2 as i128, 86400);
    d1 == d2
}

/// The day/night estimate for a forecast hour: on the current
/// calendar day the real sunrise/sunset instants decide; on a later
/// (or earlier) day, the current day's sunrise and sunset
/// times-of-day are reapplied to the forecast hour's own date — an
/// accepted approximation, since the upstream forecast carries no
/// per-day sunrise/sunset. All instants are taken in the location's
/// fixed offset.
pub open spec fn spec_hourly_night(
    dt: int,
    off: int,
    cur_dt: int,
    sunrise: int,
    sunset: int,
) -> bool {
    if civil_day(dt, off) == civil_day(cur_dt, off) {
        spec_is_night(dt, sunrise, sunset)
    } else {
        let date = civil_day(dt, off);
        let sunrise_on = date * 86400 + time_of_day(sunrise, off) - off;
        let sunset_on = date * 86400 + time_of_day(sunset, off) - off;
        spec_is_night(dt, sunrise_on, sunset_on)
    }
}

/// The day/night estimate for a forecast hour.
pub fn hourly_night(dt: i64, off: i32, cur_dt: i64, sunrise: i64, sunset: i64) -> (r: bool)
    ensures
        r == spec_hourly_night(dt as int, off as int, cur_dt as int, sunrise as int, sunset as int),
{
    let dtw: i128 = dt as i128;
    let offw: i128 = off as i128;
    let day = floor_div(dtw + offw, 86400);
    let cur_day = floor_div(cur_dt as i128 + offw, 86400);
    if day == cur_day {
        is_night(dt, sunrise, sunset)
    } else {
        let sunrise_on: i128 = day * 86400 + floor_mod(sunrise as i128 + offw, 86400) - offw;
        let sunset_on: i128 = day * 86400 + floor_mod(sunset as i128 + offw, 86400) - offw;
        dtw >= sunset_on || dtw <= sunrise_on
    }
}

/// Names the text chrono produces when a timestamp, taken in a fixed
/// offset, is laid out with a strftime-style pattern; the result is a
/// function of the three arguments alone, and absent when the offset
/// or instant is out of chrono's range or the pattern is invalid.
pub uninterp spec fn strftime_of(ts: int, offset: int, pattern: Seq<char>) -> Option<Seq<char>>;

/// Relies on chrono: `FixedOffset::east_opt` (absent outside
/// +/-86400 seconds), `TimeZone::timestamp_opt` (absent out of
/// range), `DateTime::format` and `DelayedFormat::write_to` (fails on
/// an invalid pattern). The output depends on the arguments alone.
#[verifier::external_body]
pub(crate) fn strftime_fixed(ts: i64, offset: i32, pattern: &str) -> (r: Option<String>)
    ensures
        r is Some <==> strftime_of(ts as int, offset as int, pattern@) is Some,
        r matches Some(s) ==> strftime_of(ts as int, offset as int, pattern@) == Some(s@),
{
    let off = match chrono::FixedOffset::east_opt(offset) {
        Some(o) => o,
        None => return None,
    };
    let dt = match chrono::TimeZone::timestamp_opt(&off, ts, 0).single() {
        Some(d) => d,
        None => return None,
    };
    let mut s = String::new();
    match dt.format(pattern).write_to(&mut s) {
        Ok(()) => Some(s),
        Err(_) => None,
    }
}

/// Names the text chrono produces for a pattern under a named locale;
/// an unknown locale name is rendered as the default `en_US` data,
/// so the result is still a function of the four arguments alone.
pub uninterp spec fn strftime_localized_of(
    ts: int,
    offset: int,
    pattern: Seq<char>,
    locale: Seq<char>,
) -> Option<Seq<char>>;

/// Relies on chrono with the unstable-locales data: as
/// [`strftime_fixed`], but through `DateTime::format_localized` with
/// the locale resolved by `Locale::try_from` (falling back to
/// `en_US` for an unknown name).
#[verifier::external_body]
pub(crate) fn strftime_localized(ts: i64, offset: i32, pattern: &str, locale: &str) -> (r: Option<String>)
    ensures
        r is Some <==> strftime_localized_of(ts as int, offset as int, pattern@, locale@) is Some,
        r matches Some(s) ==> strftime_localized_of(ts as int, offset as int, pattern@, locale@)
            == Some(s@),
{
    let loc = chrono::Locale::try_from(locale).unwrap_or(chrono::Locale::en_US);
    let off = match chrono::FixedOffset::east_opt(offset) {
        Some(o) => o,
        None => return None,
    };
    let dt = match chrono::TimeZone::timestamp_opt(&off, ts, 0).single() {
        Some(d) => d,
        None => return None,
    };
    let mut s = String::new();
    match dt.format_localized(pattern, loc).write_to(&mut s) {
        Ok(()) => Some(s),
        Err(_) => None,
    }
}

/// Names whether chrono's locale data knows a locale name; a
/// property of the name alone.
pub uninterp spec fn locale_known(name: Seq<char>) -> bool;

/// Relies on chrono's `Locale::try_from` (the unstable-locales data
/// set): whether a name denotes a known locale.
#[verifier::external_body]
pub(crate) fn locale_exists(name: &str) -> (r: bool)
    ensures
        r == locale_known(name@),
{
    chrono::Locale::try_from(name).is_ok()
}

} // verus!
