//! Scaled-color resolution: fixed ANSI-256 color ramps indexed by a
//! clamped bucket computed from the rendered value.
//!
//! Temperatures index the ramp by their Celsius-normalized value,
//! wind speeds by their km/h-normalized value, humidity by tens of a
//! percent. Every index computation clamps to the table bounds, so no
//! input, however extreme, can index out of range.

use vstd::prelude::*;
use vstd::arithmetic::div_mod::{lemma_div_is_ordered, lemma_div_pos_is_pos};

use crate::UnitMode;

verus! {

/// The 57-entry temperature color ramp, indexed by rounded Celsius
/// degrees plus 16; arguments outside the table take the end entries.
pub open spec fn temp_ramp(i: int) -> u8 {
    if i <= 0 {
        57
    } else if i <= 3 {
        63
    } else if i <= 6 {
        27
    } else if i <= 9 {
        33
    } else if i <= 12 {
        39
    } else if i <= 15 {
        45
    } else if i <= 17 {
        51
    } else if i <= 19 {
        50
    } else if i <= 21 {
        49
    } else if i <= 23 {
        48
    } else if i <= 25 {
        47
    } else if i <= 28 {
        46
    } else if i <= 31 {
        82
    } else if i <= 34 {
        118
    } else if i <= 37 {
        154
    } else if i <= 40 {
        190
    } else if i <= 43 {
        226
    } else if i <= 46 {
        220
    } else if i <= 49 {
        214
    } else if i <= 52 {
        208
    } else if i <= 55 {
        202
    } else {
        196
    }
}

/// The temperature ramp as executable code.
pub fn temp_ramp_at(i: usize) -> (r: u8)
    ensures
        r == temp_ramp(i as int),
{
    if i == 0 {
        57
    } else if i <= 3 {
        63
    } else if i <= 6 {
        27
    } else if i <= 9 {
        33
    } else if i <= 12 {
        39
    } else if i <= 15 {
        45
    } else if i <= 17 {
        51
    } else if i <= 19 {
        50
    } else if i <= 21 {
        49
    } else if i <= 23 {
        48
    } else if i <= 25 {
        47
    } else if i <= 28 {
        46
    } else if i <= 31 {
        82
    } else if i <= 34 {
        118
    } else if i <= 37 {
        154
    } else if i <= 40 {
        190
    } else if i <= 43 {
        226
    } else if i <= 46 {
        220
    } else if i <= 49 {
        214
    } else if i <= 52 {
        208
    } else if i <= 55 {
        202
    } else {
        196
    }
}

/// The 52-entry wind speed color ramp, indexed by whole km/h.
pub open spec fn wind_ramp(i: int) -> u8 {
    if i <= 2 {
        46
    } else if i <= 5 {
        82
    } else if i <= 8 {
        118
    } else if i <= 11 {
        154
    } else if i <= 14 {
        190
    } else if i <= 18 {
        226
    } else if i <= 22 {
        220
    } else if i <= 26 {
        214
    } else if i <= 30 {
        208
    } else if i <= 34 {
        202
    } else if i <= 38 {
        196
    } else if i <= 42 {
        160
    } else if i <= 46 {
        124
    } else if i <= 50 {
        127
    } else {
        129
    }
}

/// The wind ramp as executable code.
pub fn wind_ramp_at(i: usize) -> (r: u8)
    ensures
        r == wind_ramp(i as int),
{
    if i <= 2 {
        46
    } else if i <= 5 {
        82
    } else if i <= 8 {
        118
    } else if i <= 11 {
        154
    } else if i <= 14 {
        190
    } else if i <= 18 {
        226
    } else if i <= 22 {
        220
    } else if i <= 26 {
        214
    } else if i <= 30 {
        208
    } else if i <= 34 {
        202
    } else if i <= 38 {
        196
    } else if i <= 42 {
        160
    } else if i <= 46 {
        124
    } else if i <= 50 {
        127
    } else {
        129
    }
}

/// The 11-entry humidity color ramp, indexed by tens of a percent.
pub open spec fn humidity_ramp(i: int) -> u8 {
    if i <= 0 {
        220
    } else if i == 1 {
        226
    } else if i == 2 {
        190
    } else if i == 3 {
        118
    } else if i == 4 {
        82
    } else if i == 5 {
        46
    } else if i == 6 {
        48
    } else if i == 7 {
        50
    } else if i == 8 {
        51
    } else if i == 9 {
        45
    } else {
        39
    }
}

/// The humidity ramp as executable code.
pub fn humidity_ramp_at(i: usize) -> (r: u8)
    ensures
        r == humidity_ramp(i as int),
{
    if i == 0 {
        220
    } else if i == 1 {
        226
    } else if i == 2 {
        190
    } else if i == 3 {
        118
    } else if i == 4 {
        82
    } else if i == 5 {
        46
    } else if i == 6 {
        48
    } else if i == 7 {
        50
    } else if i == 8 {
        51
    } else if i == 9 {
        45
    } else {
        39
    }
}

/// The 5-entry air-quality color ramp, indexed by the air quality
/// index 1 (good, green) through 5 (very poor, red). This mapping is
/// this library's own choice, in the spirit of the other ramps; the
/// upstream index is the provider's 1-to-5 scale.
pub open spec fn aqi_ramp(i: int) -> u8 {
    if i <= 0 {
        46
    } else if i == 1 {
        190
    } else if i == 2 {
        226
    } else if i == 3 {
        208
    } else {
        196
    }
}

/// The air-quality ramp as executable code.
pub fn aqi_ramp_at(i: usize) -> (r: u8)
    ensures
        r == aqi_ramp(i as int),
{
    if i == 0 {
        46
    } else if i == 1 {
        190
    } else if i == 2 {
        226
    } else if i == 3 {
        208
    } else {
        196
    }
}

/// Euclidean division of a non-negative value by a positive divisor.
fn nonneg_div(a: i64, b: u64) -> (r: i64)
    requires
        0 <= a,
        1 <= b <= 0x7fff_ffff_ffff_ffff,
    ensures
        r == a as int / b as int,
        0 <= r <= a,
{
    proof {
        lemma_div_pos_is_pos(a as int, b as int);
        lemma_div_is_ordered(a as int / b as int, a as int, 1);
        vstd::arithmetic::div_mod::lemma_div_by_self(1);
        lemma_div_is_ordered_by_denominator_helper(a as int, b as int);
    }
    ((a as u64) / b) as i64
}

proof fn lemma_div_is_ordered_by_denominator_helper(a: int, b: int)
    requires
        0 <= a,
        1 <= b,
    ensures
        a / b <= a,
{
    vstd::arithmetic::div_mod::lemma_div_is_ordered_by_denominator(a, 1, b);
    vstd::arithmetic::div_mod::lemma_div_by_self(1);
    assert(a / 1 == a) by {
        vstd::arithmetic::div_mod::lemma_basic_div_specific_divisor(1);
    }
}

/// A value in hundredths, rounded half away from zero to whole units.
pub open spec fn round_units(c: int) -> int {
    if c >= 0 {
        (c + 50) / 100
    } else {
        -(((-c) + 50) / 100)
    }
}

fn round_units_exec(c: i64) -> (r: i64)
    requires
        -0x1_0000_0000_0000 <= c <= 0x1_0000_0000_0000,
    ensures
        r == round_units(c as int),
{
    if c >= 0 {
        nonneg_div(c + 50, 100)
    } else {
        -nonneg_div(-c + 50, 100)
    }
}

/// The Celsius-normalized value, in hundredths of a degree, of a
/// temperature given in hundredths of the active unit: Kelvin minus
/// 273.15, Fahrenheit shifted by 32 and scaled by 5/9 (truncated
/// toward zero at hundredth precision), Celsius unchanged.
pub open spec fn celsius_h(t: int, units: UnitMode) -> int {
    match units {
        UnitMode::Standard => t - 27315,
        UnitMode::Metric => t,
        UnitMode::Imperial => {
            let d = t - 3200;
            if d >= 0 {
                d * 5 / 9
            } else {
                -((-d) * 5 / 9)
            }
        },
    }
}

fn celsius_h_exec(t: i32, units: UnitMode) -> (r: i64)
    ensures
        r == celsius_h(t as int, units),
        -0x20_0000_0000 <= r <= 0x20_0000_0000,
{
    let tw: i64 = t as i64;
    match units {
        UnitMode::Standard => tw - 27315,
        UnitMode::Metric => tw,
        UnitMode::Imperial => {
            let d: i64 = tw - 3200;
            if d >= 0 {
                nonneg_div(d * 5, 9)
            } else {
                -nonneg_div((-d) * 5, 9)
            }
        },
    }
}

/// The temperature color index: rounded Celsius degrees plus 16,
/// clamped to the table bounds 0 through 56.
pub open spec fn temp_index(t: int, units: UnitMode) -> int {
    let i = round_units(celsius_h(t, units)) + 16;
    if i < 0 {
        0
    } else if i > 56 {
        56
    } else {
        i
    }
}

/// The color index a temperature in hundredths of the active unit
/// scales to; always within the 57-entry ramp.
pub fn display_color_index(t: i32, units: UnitMode) -> (r: usize)
    ensures
        r == temp_index(t as int, units),
        r <= 56,
{
    let c = celsius_h_exec(t, units);
    let i: i64 = round_units_exec(c) + 16;
    if i < 0 {
        0
    } else if i > 56 {
        56
    } else {
        i as usize
    }
}

/// The ramp color for a temperature.
pub fn temp_color(t: i32, units: UnitMode) -> (r: u8)
    ensures
        r == temp_ramp(temp_index(t as int, units)),
{
    temp_ramp_at(display_color_index(t, units))
}

/// A wind speed in hundredths of meters per second, converted to
/// hundredths of kilometers per hour (truncated toward zero).
pub open spec fn kmh_h_of_ms(s: int) -> int {
    if s >= 0 {
        s * 18 / 5
    } else {
        -((-s) * 18 / 5)
    }
}

/// Kilometers-per-hour conversion of a stored wind speed, in
/// hundredths. The aggregate stores wind in meters per second under
/// the standard and metric systems and in miles per hour under the
/// imperial system.
pub open spec fn kmh_h_of(s: int, units: UnitMode) -> int {
    match units {
        UnitMode::Imperial => {
            if s >= 0 {
                s * 25146 / 15625
            } else {
                -((-s) * 25146 / 15625)
            }
        },
        _ => kmh_h_of_ms(s),
    }
}

/// The speed value actually printed, in hundredths of the display
/// unit: under the metric system the stored meters per second are
/// shown as kilometers per hour; the other systems show the stored
/// value unchanged.
pub open spec fn display_speed(s: int, units: UnitMode) -> int {
    match units {
        UnitMode::Metric => kmh_h_of_ms(s),
        _ => s,
    }
}

/// The printed speed in hundredths of the display unit.
pub fn display_speed_h(s: i32, units: UnitMode) -> (r: i64)
    ensures
        r == display_speed(s as int, units),
        -0x8_0000_0000 <= r <= 0x8_0000_0000,
{
    match units {
        UnitMode::Metric => {
            let sw: i64 = s as i64;
            if sw >= 0 {
                nonneg_div(sw * 18, 5)
            } else {
                -nonneg_div((-sw) * 18, 5)
            }
        },
        _ => s as i64,
    }
}

/// The wind color index: whole km/h of the km/h-normalized speed,
/// clamped to the table bounds 0 through 51.
pub open spec fn wind_index(s: int, units: UnitMode) -> int {
    let k = kmh_h_of(s, units) / 100;
    if k < 0 {
        0
    } else if k > 51 {
        51
    } else {
        k
    }
}

/// The color index a wind speed in hundredths of the active unit
/// scales to; always within the 52-entry ramp.
pub fn wind_color_index(s: i32, units: UnitMode) -> (r: usize)
    ensures
        r == wind_index(s as int, units),
        r <= 51,
{
    if s <= 0 {
        proof {
            lemma_wind_index_nonpos(s as int, units);
        }
        0
    } else {
        let sw: i64 = s as i64;
        let kmh_h: i64 = match units {
            UnitMode::Imperial => nonneg_div(sw * 25146, 15625),
            _ => nonneg_div(sw * 18, 5),
        };
        let k = nonneg_div(kmh_h, 100);
        proof {
            vstd::arithmetic::div_mod::lemma_div_denominator(
                (s as int) * 25146,
                15625,
                100,
            );
            vstd::arithmetic::div_mod::lemma_div_denominator((s as int) * 18, 5, 100);
        }
        if k > 51 {
            51
        } else {
            k as usize
        }
    }
}

proof fn lemma_wind_index_nonpos(s: int, units: UnitMode)
    requires
        s <= 0,
    ensures
        wind_index(s, units) == 0,
{
    if s < 0 {
        lemma_div_pos_is_pos((-s) * 25146, 15625);
        lemma_div_pos_is_pos((-s) * 18, 5);
        assert(kmh_h_of(s, units) <= 0);
        if kmh_h_of(s, units) < 0 {
            vstd::arithmetic::div_mod::lemma_div_is_ordered(kmh_h_of(s, units), 0, 100);
            vstd::arithmetic::div_mod::lemma_div_of0(100);
        } else {
            vstd::arithmetic::div_mod::lemma_div_of0(100);
        }
    } else {
        vstd::arithmetic::div_mod::lemma_div_of0(100);
    }
}

/// The ramp color for a wind speed.
pub fn wind_color(s: i32, units: UnitMode) -> (r: u8)
    ensures
        r == wind_ramp(wind_index(s as int, units)),
{
    wind_ramp_at(wind_color_index(s, units))
}

/// The humidity color index: tens of a percent, clamped to the table
/// bound 10.
pub open spec fn humidity_index(h: int) -> int {
    if h / 10 > 10 {
        10
    } else {
        h / 10
    }
}

/// The color index a humidity percentage scales to; always within the
/// 11-entry ramp, and exactly `h / 10` for a valid percentage.
pub fn humidity_color_index(h: u8) -> (r: usize)
    ensures
        r == humidity_index(h as int),
        r <= 10,
        h <= 100 ==> r == h as int / 10,
{
    let i = (h / 10) as usize;
    if i > 10 {
        10
    } else {
        i
    }
}

/// The ramp color for a humidity percentage.
pub fn humidity_color(h: u8) -> (r: u8)
    ensures
        r == humidity_ramp(humidity_index(h as int)),
{
    humidity_ramp_at(humidity_color_index(h))
}

/// The air-quality color index: the provider's 1-to-5 index shifted
/// to the 5-entry table, clamped at both ends.
pub open spec fn aqi_index(aqi: int) -> int {
    if aqi <= 1 {
        0
    } else if aqi >= 5 {
        4
    } else {
        aqi - 1
    }
}

/// The color index an air quality index scales to; always within the
/// 5-entry ramp.
pub fn aqi_color_index(aqi: u16) -> (r: usize)
    ensures
        r == aqi_index(aqi as int),
        r <= 4,
{
    if aqi <= 1 {
        0
    } else if aqi >= 5 {
        4
    } else {
        (aqi - 1) as usize
    }
}

/// The ramp color for an air quality index.
pub fn aqi_color(aqi: u16) -> (r: u8)
    ensures
        r == aqi_ramp(aqi_index(aqi as int)),
{
    aqi_ramp_at(aqi_color_index(aqi))
}

/// Rounding to whole units is monotone.
proof fn lemma_round_units_monotonic(c1: int, c2: int)
    requires
        c1 <= c2,
    ensures
        round_units(c1) <= round_units(c2),
{
    if c1 >= 0 {
        lemma_div_is_ordered(c1 + 50, c2 + 50, 100);
    } else if c2 < 0 {
        lemma_div_is_ordered((-c2) + 50, (-c1) + 50, 100);
    } else {
        lemma_div_pos_is_pos((-c1) + 50, 100);
        lemma_div_pos_is_pos(c2 + 50, 100);
    }
}

/// Celsius normalization is monotone in the input temperature.
proof fn lemma_celsius_monotonic(t1: int, t2: int, units: UnitMode)
    requires
        t1 <= t2,
    ensures
        celsius_h(t1, units) <= celsius_h(t2, units),
{
    if units is Imperial {
        let d1 = t1 - 3200;
        let d2 = t2 - 3200;
        if d1 >= 0 {
            lemma_div_is_ordered(d1 * 5, d2 * 5, 9);
        } else if d2 < 0 {
            lemma_div_is_ordered((-d2) * 5, (-d1) * 5, 9);
        } else {
            lemma_div_pos_is_pos((-d1) * 5, 9);
            lemma_div_pos_is_pos(d2 * 5, 9);
        }
    }
}

/// The temperature color index is within the 57-entry table and is
/// monotonically non-decreasing in the temperature, hence in its
/// Celsius-normalized value, under every unit system.
pub proof fn lemma_display_color_index_monotonic(t1: int, t2: int, units: UnitMode)
    requires
        t1 <= t2,
    ensures
        0 <= temp_index(t1, units) <= 56,
        0 <= temp_index(t2, units) <= 56,
        temp_index(t1, units) <= temp_index(t2, units),
{
    lemma_celsius_monotonic(t1, t2, units);
    lemma_round_units_monotonic(celsius_h(t1, units), celsius_h(t2, units));
}

/// The temperature color index is monotonically non-decreasing in
/// the Celsius-normalized temperature, across unit systems: of two
/// readings, the one whose Celsius value is no warmer never scales
/// to a later ramp entry.
pub proof fn lemma_display_color_index_monotonic_celsius(
    t1: int,
    u1: UnitMode,
    t2: int,
    u2: UnitMode,
)
    requires
        celsius_h(t1, u1) <= celsius_h(t2, u2),
    ensures
        temp_index(t1, u1) <= temp_index(t2, u2),
{
    lemma_round_units_monotonic(celsius_h(t1, u1), celsius_h(t2, u2));
}

/// The wind color index is within the 52-entry table for every speed
/// and unit system.
pub proof fn lemma_wind_index_in_range(s: int, units: UnitMode)
    ensures
        0 <= wind_index(s, units) <= 51,
{
    if s <= 0 {
        lemma_wind_index_nonpos(s, units);
    } else {
        lemma_div_pos_is_pos(s * 25146, 15625);
        lemma_div_pos_is_pos(s * 18, 5);
        lemma_div_pos_is_pos(kmh_h_of(s, units), 100);
    }
}

/// The humidity color index is within the 11-entry table, and equals
/// `h / 10` exactly on the valid percentage range.
pub proof fn lemma_humidity_index_in_range(h: int)
    ensures
        0 <= h ==> 0 <= humidity_index(h) <= 10,
        0 <= h <= 100 ==> humidity_index(h) == h / 10,
{
    if 0 <= h {
        lemma_div_pos_is_pos(h, 10);
    }
}

} // verus!
