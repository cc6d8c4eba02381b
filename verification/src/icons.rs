//! Icon resolution: provider condition codes to glyphs, per display
//! mode, with day/night variants and wind-intensity buckets.
//!
//! Unknown codes never fail: they resolve to the clear-sky glyph of
//! the given day/night state, and the caller reports a diagnostic
//! (see [`icon_known`] and [`unicode_known`]).

use vstd::prelude::*;

use crate::{DisplayMode, UnitMode, WindType};

verus! {

/// The wind-intensity bucket of a wind speed given in hundredths of
/// the active display unit. The thresholds are unit-converted
/// equivalents of 35 and 20 km/h: 9.72 and 5.56 m/s, 21.75 and
/// 12.43 mph.
pub open spec fn spec_wind_type(speed_h: int, units: UnitMode) -> WindType {
    match units {
        UnitMode::Standard => {
            if speed_h >= 972 {
                WindType::High
            } else if speed_h >= 556 {
                WindType::Mid
            } else {
                WindType::Low
            }
        },
        UnitMode::Metric => {
            if speed_h >= 3500 {
                WindType::High
            } else if speed_h >= 2000 {
                WindType::Mid
            } else {
                WindType::Low
            }
        },
        UnitMode::Imperial => {
            if speed_h >= 2175 {
                WindType::High
            } else if speed_h >= 1243 {
                WindType::Mid
            } else {
                WindType::Low
            }
        },
    }
}

/// The wind-intensity bucket of a display-unit speed in hundredths.
pub fn get_wind_type(speed_h: i64, units: UnitMode) -> (r: WindType)
    ensures
        r == spec_wind_type(speed_h as int, units),
{
    match units {
        UnitMode::Standard => {
            if speed_h >= 972 {
                WindType::High
            } else if speed_h >= 556 {
                WindType::Mid
            } else {
                WindType::Low
            }
        },
        UnitMode::Metric => {
            if speed_h >= 3500 {
                WindType::High
            } else if speed_h >= 2000 {
                WindType::Mid
            } else {
                WindType::Low
            }
        },
        UnitMode::Imperial => {
            if speed_h >= 2175 {
                WindType::High
            } else if speed_h >= 1243 {
                WindType::Mid
            } else {
                WindType::Low
            }
        },
    }
}

/// Whether a condition code is in the iconic-font taxonomy for the
/// given day/night state (unknown codes take the fallback glyph).
pub open spec fn icon_known(id: int, night: bool) -> bool {
    (200 <= id <= 219) || id == 221 || (230 <= id <= 239) || (300 <= id <= 319) || (500 <= id
        <= 509) || id == 511 || (520 <= id <= 529) || id == 531 || (600 <= id <= 609) || (if night {
        611 <= id <= 615
    } else {
        613 <= id <= 615
    }) || id == 616 || (620 <= id <= 629) || id == 701 || id == 711 || (!night && id == 721) || id
        == 731 || id == 741 || id == 751 || id == 761 || id == 762 || id == 771 || id == 781 || (800
        <= id <= 809)
}

/// Executable form of [`icon_known`].
pub fn icon_known_exec(id: u16, night: bool) -> (r: bool)
    ensures
        r == icon_known(id as int, night),
{
    (200 <= id && id <= 219) || id == 221 || (230 <= id && id <= 239) || (300 <= id && id <= 319)
        || (500 <= id && id <= 509) || id == 511 || (520 <= id && id <= 529) || id == 531 || (600
        <= id && id <= 609) || (if night {
        611 <= id && id <= 615
    } else {
        613 <= id && id <= 615
    }) || id == 616 || (620 <= id && id <= 629) || id == 701 || id == 711 || (!night && id == 721)
        || id == 731 || id == 741 || id == 751 || id == 761 || id == 762 || id == 771 || id == 781
        || (800 <= id && id <= 809)
}

/// The iconic-font glyph for a condition code, day/night state and
/// wind-intensity bucket.
pub open spec fn spec_icon(id: int, night: bool, w: WindType) -> Seq<char> {
    if 200 <= id <= 209 {
        if night {
            "\u{e32a}"@
        } else {
            "\u{e30f}"@
        }
    } else if 210 <= id <= 219 || id == 221 {
        if night {
            "\u{e332}"@
        } else {
            "\u{e305}"@
        }
    } else if 230 <= id <= 239 {
        if night {
            "\u{e364}"@
        } else {
            "\u{e362}"@
        }
    } else if 300 <= id <= 312 {
        if night {
            "\u{e328}"@
        } else {
            "\u{e30b}"@
        }
    } else if 500 <= id <= 509 {
        if night {
            "\u{e325}"@
        } else {
            "\u{e308}"@
        }
    } else if id == 511 {
        if night {
            "\u{e321}"@
        } else {
            "\u{e304}"@
        }
    } else if (520 <= id <= 529) || (313 <= id <= 319) || id == 531 {
        if night {
            "\u{e326}"@
        } else {
            "\u{e309}"@
        }
    } else if 600 <= id <= 609 {
        if night {
            "\u{e327}"@
        } else {
            "\u{e30a}"@
        }
    } else if night && 611 <= id <= 615 {
        "\u{e3ac}"@
    } else if !night && 613 <= id <= 615 {
        "\u{e3aa}"@
    } else if (620 <= id <= 629) || id == 616 {
        if night {
            "\u{e331}"@
        } else {
            "\u{e306}"@
        }
    } else if id == 701 {
        if night {
            "\u{e320}"@
        } else {
            "\u{e311}"@
        }
    } else if id == 711 {
        "\u{e35c}"@
    } else if !night && id == 721 {
        "\u{e36b}"@
    } else if id == 731 || id == 761 {
        "\u{e35d}"@
    } else if id == 741 {
        if night {
            "\u{e346}"@
        } else {
            "\u{e303}"@
        }
    } else if id == 751 {
        "\u{e37a}"@
    } else if id == 762 {
        "\u{e3c0}"@
    } else if id == 771 {
        "\u{e34b}"@
    } else if id == 781 {
        "\u{e351}"@
    } else if id == 800 {
        if night {
            "\u{e32b}"@
        } else {
            match w {
                WindType::High => "\u{e37d}"@,
                WindType::Mid => "\u{e3bc}"@,
                WindType::Low => "\u{e30d}"@,
            }
        }
    } else if id == 801 {
        if night {
            "\u{e379}"@
        } else {
            "\u{e30c}"@
        }
    } else if 802 <= id <= 809 {
        if night {
            match w {
                WindType::High => "\u{e31f}"@,
                WindType::Mid => "\u{e320}"@,
                WindType::Low => "\u{e37e}"@,
            }
        } else {
            match w {
                WindType::High => "\u{e300}"@,
                WindType::Mid => "\u{e301}"@,
                WindType::Low => "\u{e302}"@,
            }
        }
    } else {
        if night {
            "\u{e32b}"@
        } else {
            "\u{e30d}"@
        }
    }
}

/// The iconic-font glyph for a condition code; unknown codes resolve
/// to the clear-sky glyph for the given day/night state.
pub fn get_icon(id: u16, night: bool, wind_type: &WindType) -> (r: &'static str)
    ensures
        r@ == spec_icon(id as int, night, *wind_type),
{
    if 200 <= id && id <= 209 {
        if night {
            "\u{e32a}"
        } else {
            "\u{e30f}"
        }
    } else if (210 <= id && id <= 219) || id == 221 {
        if night {
            "\u{e332}"
        } else {
            "\u{e305}"
        }
    } else if 230 <= id && id <= 239 {
        if night {
            "\u{e364}"
        } else {
            "\u{e362}"
        }
    } else if 300 <= id && id <= 312 {
        if night {
            "\u{e328}"
        } else {
            "\u{e30b}"
        }
    } else if 500 <= id && id <= 509 {
        if night {
            "\u{e325}"
        } else {
            "\u{e308}"
        }
    } else if id == 511 {
        if night {
            "\u{e321}"
        } else {
            "\u{e304}"
        }
    } else if (520 <= id && id <= 529) || (313 <= id && id <= 319) || id == 531 {
        if night {
            "\u{e326}"
        } else {
            "\u{e309}"
        }
    } else if 600 <= id && id <= 609 {
        if night {
            "\u{e327}"
        } else {
            "\u{e30a}"
        }
    } else if night && 611 <= id && id <= 615 {
        "\u{e3ac}"
    } else if !night && 613 <= id && id <= 615 {
        "\u{e3aa}"
    } else if (620 <= id && id <= 629) || id == 616 {
        if night {
            "\u{e331}"
        } else {
            "\u{e306}"
        }
    } else if id == 701 {
        if night {
            "\u{e320}"
        } else {
            "\u{e311}"
        }
    } else if id == 711 {
        "\u{e35c}"
    } else if !night && id == 721 {
        "\u{e36b}"
    } else if id == 731 || id == 761 {
        "\u{e35d}"
    } else if id == 741 {
        if night {
            "\u{e346}"
        } else {
            "\u{e303}"
        }
    } else if id == 751 {
        "\u{e37a}"
    } else if id == 762 {
        "\u{e3c0}"
    } else if id == 771 {
        "\u{e34b}"
    } else if id == 781 {
        "\u{e351}"
    } else if id == 800 {
        if night {
            "\u{e32b}"
        } else {
            match wind_type {
                WindType::High => "\u{e37d}",
                WindType::Mid => "\u{e3bc}",
                WindType::Low => "\u{e30d}",
            }
        }
    } else if id == 801 {
        if night {
            "\u{e379}"
        } else {
            "\u{e30c}"
        }
    } else if 802 <= id && id <= 809 {
        if night {
            match wind_type {
                WindType::High => "\u{e31f}",
                WindType::Mid => "\u{e320}",
                WindType::Low => "\u{e37e}",
            }
        } else {
            match wind_type {
                WindType::High => "\u{e300}",
                WindType::Mid => "\u{e301}",
                WindType::Low => "\u{e302}",
            }
        }
    } else {
        if night {
            "\u{e32b}"
        } else {
            "\u{e30d}"
        }
    }
}

/// Whether a condition code is in the plain-Unicode taxonomy for the
/// given day/night state.
pub open spec fn unicode_known(id: int, night: bool) -> bool {
    (200 <= id <= 219) || id == 221 || (230 <= id <= 239) || (300 <= id <= 319) || (500 <= id
        <= 509) || id == 511 || (520 <= id <= 529) || id == 531 || (if night {
        611 <= id <= 615
    } else {
        613 <= id <= 615
    }) || id == 616 || (620 <= id <= 629) || (600 <= id <= 609) || id == 701 || id == 711 || id
        == 721 || id == 731 || id == 741 || id == 751 || id == 761 || id == 762 || id == 771 || id
        == 781 || (800 <= id <= 809)
}

/// Executable form of [`unicode_known`].
pub fn unicode_known_exec(id: u16, night: bool) -> (r: bool)
    ensures
        r == unicode_known(id as int, night),
{
    (200 <= id && id <= 219) || id == 221 || (230 <= id && id <= 239) || (300 <= id && id <= 319)
        || (500 <= id && id <= 509) || id == 511 || (520 <= id && id <= 529) || id == 531 || (if night {
        611 <= id && id <= 615
    } else {
        613 <= id && id <= 615
    }) || id == 616 || (620 <= id && id <= 629) || (600 <= id && id <= 609) || id == 701 || id
        == 711 || id == 721 || id == 731 || id == 741 || id == 751 || id == 761 || id == 762 || id
        == 771 || id == 781 || (800 <= id && id <= 809)
}

/// The plain-Unicode glyph for a condition code and day/night state.
pub open spec fn spec_unicode(id: int, night: bool) -> Seq<char> {
    if 200 <= id <= 209 {
        "\u{26c8}"@
    } else if (210 <= id <= 219) || id == 221 || (230 <= id <= 239) {
        "\u{1f329}"@
    } else if (300 <= id <= 319) || (500 <= id <= 509) || id == 511 || (520 <= id <= 529) || id
        == 531 || (if night {
        611 <= id <= 615
    } else {
        613 <= id <= 615
    }) || id == 616 || (620 <= id <= 629) {
        if night {
            "\u{1f327}"@
        } else {
            "\u{1f326}"@
        }
    } else if 600 <= id <= 609 {
        "\u{1f328}"@
    } else if id == 701 || id == 711 || id == 721 || id == 731 || id == 761 || id == 741 || id
        == 751 || id == 762 {
        "\u{1f32b}"@
    } else if id == 771 {
        "\u{1f32c}"@
    } else if id == 781 {
        "\u{1f32a}"@
    } else if id == 800 {
        if night {
            "\u{263e}"@
        } else {
            "\u{1f31e}"@
        }
    } else if !night && id == 801 {
        "\u{1f324}"@
    } else if night && 801 <= id <= 809 {
        "\u{2601}"@
    } else if !night && 802 <= id <= 809 {
        "\u{26c5}"@
    } else {
        if night {
            "\u{263e}"@
        } else {
            "\u{1f31e}"@
        }
    }
}

/// The plain-Unicode glyph for a condition code; unknown codes
/// resolve to the clear-sky glyph for the given day/night state.
pub fn get_unicode(id: u16, night: bool) -> (r: &'static str)
    ensures
        r@ == spec_unicode(id as int, night),
{
    if 200 <= id && id <= 209 {
        "\u{26c8}"
    } else if (210 <= id && id <= 219) || id == 221 || (230 <= id && id <= 239) {
        "\u{1f329}"
    } else if (300 <= id && id <= 319) || (500 <= id && id <= 509) || id == 511 || (520 <= id && id
        <= 529) || id == 531 || (if night {
        611 <= id && id <= 615
    } else {
        613 <= id && id <= 615
    }) || id == 616 || (620 <= id && id <= 629) {
        if night {
            "\u{1f327}"
        } else {
            "\u{1f326}"
        }
    } else if 600 <= id && id <= 609 {
        "\u{1f328}"
    } else if id == 701 || id == 711 || id == 721 || id == 731 || id == 761 || id == 741 || id
        == 751 || id == 762 {
        "\u{1f32b}"
    } else if id == 771 {
        "\u{1f32c}"
    } else if id == 781 {
        "\u{1f32a}"
    } else if id == 800 {
        if night {
            "\u{263e}"
        } else {
            "\u{1f31e}"
        }
    } else if !night && id == 801 {
        "\u{1f324}"
    } else if night && 801 <= id && id <= 809 {
        "\u{2601}"
    } else if !night && 802 <= id && id <= 809 {
        "\u{26c5}"
    } else {
        if night {
            "\u{263e}"
        } else {
            "\u{1f31e}"
        }
    }
}

/// The fallback glyphs are the clear-sky glyphs: this is what any
/// unknown code resolves to, for each display repertoire.
pub proof fn lemma_unknown_code_falls_back(id: int, night: bool, w: WindType)
    requires
        !icon_known(id, night),
        !unicode_known(id, night),
    ensures
        spec_icon(id, night, w) == if night {
            "\u{e32b}"@
        } else {
            "\u{e30d}"@
        },
        spec_unicode(id, night) == if night {
            "\u{263e}"@
        } else {
            "\u{1f31e}"@
        },
{
}

/// The eight-way compass bucket of a wind direction in hundredths of
/// a degree: each bucket spans 45 degrees centered on a compass
/// point, and directions wrap around the full circle.
pub open spec fn wind_dir_index(deg: int) -> int {
    ((deg % 36000) + 2250) / 4500
}

/// The compass bucket is always one of the nine table entries.
pub proof fn lemma_wind_dir_index_range(deg: int)
    ensures
        0 <= wind_dir_index(deg) <= 8,
{
    vstd::arithmetic::div_mod::lemma_mod_division_less_than_divisor(deg, 36000);
    vstd::arithmetic::div_mod::lemma_div_pos_is_pos((deg % 36000) + 2250, 4500);
    vstd::arithmetic::div_mod::lemma_div_is_ordered((deg % 36000) + 2250, 38249, 4500);
}

/// Executable compass bucket.
pub fn wind_dir_index_exec(deg: i32) -> (r: usize)
    ensures
        r == wind_dir_index(deg as int),
        r <= 8,
{
    let dw: i64 = deg as i64;
    let n: i64 = if dw >= 0 {
        ((dw as u64) % 36000) as i64
    } else {
        let m: i64 = (((-dw) as u64) % 36000) as i64;
        if m == 0 {
            0
        } else {
            36000 - m
        }
    };
    proof {
        lemma_euclid_mod_i64(dw as int);
        vstd::arithmetic::div_mod::lemma_div_pos_is_pos(n + 2250, 4500);
        vstd::arithmetic::div_mod::lemma_div_is_ordered(n + 2250, 38249, 4500);
    }
    (((n + 2250) as u64 / 4500) as usize)
}

proof fn lemma_euclid_mod_i64(d: int)
    ensures
        d >= 0 ==> d % 36000 == d % 36000,
        d < 0 && (-d) % 36000 == 0 ==> d % 36000 == 0,
        d < 0 && (-d) % 36000 != 0 ==> d % 36000 == 36000 - ((-d) % 36000),
{
    if d < 0 {
        let m = (-d) % 36000;
        let q = (-d) / 36000;
        vstd::arithmetic::div_mod::lemma_fundamental_div_mod(-d, 36000);
        vstd::arithmetic::div_mod::lemma_mod_division_less_than_divisor(-d, 36000);
        if m == 0 {
            vstd::arithmetic::div_mod::lemma_fundamental_div_mod_converse_mod(d, 36000, -q, 0);
        } else {
            vstd::arithmetic::div_mod::lemma_fundamental_div_mod_converse_mod(
                d,
                36000,
                -q - 1,
                36000 - m,
            );
        }
    }
}

/// The iconic-font glyph for a compass bucket.
pub open spec fn spec_wind_dir_nerd(i: int) -> Seq<char> {
    if i <= 0 {
        "\u{e35a}"@
    } else if i == 1 {
        "\u{e359}"@
    } else if i == 2 {
        "\u{e35b}"@
    } else if i == 3 {
        "\u{e356}"@
    } else if i == 4 {
        "\u{e357}"@
    } else if i == 5 {
        "\u{e355}"@
    } else if i == 6 {
        "\u{e354}"@
    } else if i == 7 {
        "\u{e358}"@
    } else {
        "\u{e35a}"@
    }
}

/// The plain-Unicode arrow for a compass bucket.
pub open spec fn spec_wind_dir_unicode(i: int) -> Seq<char> {
    if i <= 0 {
        "\u{2b07}"@
    } else if i == 1 {
        "\u{2199}"@
    } else if i == 2 {
        "\u{2b05}"@
    } else if i == 3 {
        "\u{2196}"@
    } else if i == 4 {
        "\u{2b06}"@
    } else if i == 5 {
        "\u{2197}"@
    } else if i == 6 {
        "\u{27a1}"@
    } else if i == 7 {
        "\u{2198}"@
    } else {
        "\u{2b07}"@
    }
}

/// The ASCII label for a compass bucket.
pub open spec fn spec_wind_dir_ascii(i: int) -> Seq<char> {
    if i <= 0 {
        " S "@
    } else if i == 1 {
        " SW"@
    } else if i == 2 {
        " W "@
    } else if i == 3 {
        " NW"@
    } else if i == 4 {
        " N "@
    } else if i == 5 {
        " NE"@
    } else if i == 6 {
        " E "@
    } else if i == 7 {
        " SE"@
    } else {
        " S "@
    }
}

/// The compass glyph for a bucket, per display mode.
pub open spec fn spec_wind_dir(mode: DisplayMode, i: int) -> Seq<char> {
    match mode {
        DisplayMode::NerdFonts => spec_wind_dir_nerd(i),
        DisplayMode::Unicode => spec_wind_dir_unicode(i),
        DisplayMode::Ascii => spec_wind_dir_ascii(i),
    }
}

/// The compass glyph for a bucket, per display mode.
pub fn wind_dir_str(mode: DisplayMode, i: usize) -> (r: &'static str)
    ensures
        r@ == spec_wind_dir(mode, i as int),
{
    match mode {
        DisplayMode::NerdFonts => {
            if i == 0 {
                "\u{e35a}"
            } else if i == 1 {
                "\u{e359}"
            } else if i == 2 {
                "\u{e35b}"
            } else if i == 3 {
                "\u{e356}"
            } else if i == 4 {
                "\u{e357}"
            } else if i == 5 {
                "\u{e355}"
            } else if i == 6 {
                "\u{e354}"
            } else if i == 7 {
                "\u{e358}"
            } else {
                "\u{e35a}"
            }
        },
        DisplayMode::Unicode => {
            if i == 0 {
                "\u{2b07}"
            } else if i == 1 {
                "\u{2199}"
            } else if i == 2 {
                "\u{2b05}"
            } else if i == 3 {
                "\u{2196}"
            } else if i == 4 {
                "\u{2b06}"
            } else if i == 5 {
                "\u{2197}"
            } else if i == 6 {
                "\u{27a1}"
            } else if i == 7 {
                "\u{2198}"
            } else {
                "\u{2b07}"
            }
        },
        DisplayMode::Ascii => {
            if i == 0 {
                " S "
            } else if i == 1 {
                " SW"
            } else if i == 2 {
                " W "
            } else if i == 3 {
                " NW"
            } else if i == 4 {
                " N "
            } else if i == 5 {
                " NE"
            } else if i == 6 {
                " E "
            } else if i == 7 {
                " SE"
            } else {
                " S "
            }
        },
    }
}

} // verus!
