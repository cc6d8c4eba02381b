use girouette::icons::{get_icon, get_unicode};
use girouette::style::{color_from_name, color_name, parse_hex_color, TextColor};
use girouette::lang::make_openweather_language_codes;
use girouette::numfmt::{fixed1_string, u64_dec};
use girouette::strutil::{ascii_lower, newline_to_space, prefix_before, str_eq};
use girouette::WindType;

#[test]
fn unsigned_decimal_strings() {
    assert_eq!(u64_dec(0), "0");
    assert_eq!(u64_dec(7), "7");
    assert_eq!(u64_dec(10), "10");
    assert_eq!(u64_dec(12345), "12345");
    assert_eq!(u64_dec(u64::MAX), "18446744073709551615");
}

#[test]
fn fixed_point_one_decimal() {
    assert_eq!(fixed1_string(0), "0.0");
    assert_eq!(fixed1_string(2137), "21.4");
    assert_eq!(fixed1_string(-2137), "-21.4");
    assert_eq!(fixed1_string(-50), "-0.5");
    assert_eq!(fixed1_string(95), "1.0");
    assert_eq!(fixed1_string(94), "0.9");
    assert_eq!(fixed1_string(-4000), "-40.0");
}

#[test]
fn string_helpers() {
    assert!(str_eq("abc", "abc"));
    assert!(!str_eq("abc", "abd"));
    assert!(!str_eq("abc", "ab"));
    assert_eq!(prefix_before("en_US.UTF-8", '.'), "en_US");
    assert_eq!(prefix_before("en_US", '.'), "en_US");
    assert_eq!(ascii_lower("FlOOd"), "flood");
    assert_eq!(ascii_lower("déjà"), "déjà");
    assert_eq!(newline_to_space("a\nb\nc"), "a b c");
}

#[test]
fn openweather_language_codes() {
    assert_eq!(make_openweather_language_codes("zh_CN"), "zh_cn");
    assert_eq!(make_openweather_language_codes("zh_TW"), "zh_tw");
    assert_eq!(make_openweather_language_codes("pt_BR"), "pt_br");
    assert_eq!(make_openweather_language_codes("cs_CZ"), "cz");
    assert_eq!(make_openweather_language_codes("sq"), "al");
    assert_eq!(make_openweather_language_codes("ko_KR"), "kr");
    assert_eq!(make_openweather_language_codes("lv"), "la");
    assert_eq!(make_openweather_language_codes("nb_NO"), "no");
    assert_eq!(make_openweather_language_codes("nn"), "no");
    assert_eq!(make_openweather_language_codes("en_US"), "en");
    assert_eq!(make_openweather_language_codes("fr"), "fr");
}

#[test]
fn icon_taxonomy_samples() {
    // Clear sky, day and night.
    assert_eq!(get_icon(800, false, &WindType::Low), "\u{e30d}");
    assert_eq!(get_icon(800, false, &WindType::High), "\u{e37d}");
    assert_eq!(get_icon(800, true, &WindType::Low), "\u{e32b}");
    // Thunderstorm with rain.
    assert_eq!(get_icon(202, false, &WindType::Low), "\u{e30f}");
    // Broken clouds branch on the wind bucket.
    assert_eq!(get_icon(803, false, &WindType::Mid), "\u{e301}");
    assert_eq!(get_unicode(800, false), "\u{1f31e}");
    assert_eq!(get_unicode(800, true), "\u{263e}");
    assert_eq!(get_unicode(500, false), "\u{1f326}");
    assert_eq!(get_unicode(601, true), "\u{1f328}");
}

#[test]
fn color_names_round_trip() {
    for name in ["black", "blue", "green", "red", "cyan", "magenta", "yellow", "white"] {
        let c = color_from_name(name).unwrap();
        assert_eq!(color_name(&c), Some(name));
    }
    assert!(color_from_name("mauve").is_none());
    assert!(color_from_name("").is_none());
    assert_eq!(color_name(&TextColor::Ansi256(42)), None);
    assert_eq!(color_name(&TextColor::Rgb(1, 2, 3)), None);
}

#[test]
fn hex_colors() {
    assert_eq!(parse_hex_color("#ff0a1B"), Some(TextColor::Rgb(255, 10, 27)));
    assert_eq!(parse_hex_color("#000000"), Some(TextColor::Rgb(0, 0, 0)));
    assert_eq!(parse_hex_color("ff0a1b"), None);
    assert_eq!(parse_hex_color("#ff0a1"), None);
    assert_eq!(parse_hex_color("#ff0a1bb"), None);
    assert_eq!(parse_hex_color("#ff0a1g"), None);
}

#[test]
fn unknown_code_resolves_to_clear_sky_glyph() {
    assert_eq!(get_icon(999, false, &WindType::Low), get_icon(800, false, &WindType::Low));
    assert_eq!(get_icon(999, true, &WindType::High), get_icon(800, true, &WindType::Low));
    assert_eq!(get_unicode(999, false), get_unicode(800, false));
    assert_eq!(get_unicode(999, true), get_unicode(800, true));
}
