//! Language and locale handling: mapping locale names to the
//! provider's language codes, and resolving the display locale from
//! the caller-supplied hints.

use vstd::prelude::*;

use crate::strutil::{prefix_before, prefix_before_spec, str_eq};
use crate::timeutil::{locale_exists, locale_known};

verus! {

/// The provider's language code for a locale name: a few locales the
/// provider supports directly in lowercase, otherwise the language
/// part of the name, with a handful of languages renamed to the
/// country codes the provider uses instead.
pub open spec fn spec_ow_lang(s: Seq<char>) -> Seq<char> {
    if s == "zh_CN"@ {
        "zh_cn"@
    } else if s == "zh_TW"@ {
        "zh_tw"@
    } else if s == "pt_BR"@ {
        "pt_br"@
    } else {
        let l = prefix_before_spec(s, '_');
        if l == "sq"@ {
            "al"@
        } else if l == "cs"@ {
            "cz"@
        } else if l == "ko"@ {
            "kr"@
        } else if l == "lv"@ {
            "la"@
        } else if l == "nb"@ || l == "nn"@ {
            "no"@
        } else {
            l
        }
    }
}

/// Adapt a locale name to the language codes the weather provider
/// accepts (a mix of language codes, country codes and locale-like
/// codes).
pub fn make_openweather_language_codes(s: &str) -> (r: String)
    ensures
        r@ == spec_ow_lang(s@),
{
    if str_eq(s, "zh_CN") {
        return "zh_cn".to_owned();
    }
    if str_eq(s, "zh_TW") {
        return "zh_tw".to_owned();
    }
    if str_eq(s, "pt_BR") {
        return "pt_br".to_owned();
    }
    let l = prefix_before(s, '_');
    if str_eq(l, "sq") {
        "al".to_owned()
    } else if str_eq(l, "cs") {
        "cz".to_owned()
    } else if str_eq(l, "ko") {
        "kr".to_owned()
    } else if str_eq(l, "lv") {
        "la".to_owned()
    } else if str_eq(l, "nb") || str_eq(l, "nn") {
        "no".to_owned()
    } else {
        l.to_owned()
    }
}

/// The view of an optional borrowed string.
pub open spec fn opt_str_view(o: Option<&str>) -> Option<Seq<char>> {
    match o {
        Some(s) => Some(s@),
        None => None,
    }
}

/// The resolved display locale and whether the hint was rejected:
/// the explicit language hint wins over the environment hint; any
/// encoding suffix after a dot is dropped; a name chrono's locale
/// data does not know falls back to the default locale and flags a
/// diagnostic.
pub open spec fn spec_resolve_locale(language: Option<Seq<char>>, env: Option<Seq<char>>) -> (
    Seq<char>,
    bool,
) {
    let chosen = if language is Some {
        language
    } else {
        env
    };
    match chosen {
        Option::None => ("en_US"@, false),
        Option::Some(l) => {
            let t = prefix_before_spec(l, '.');
            if locale_known(t) {
                (t, false)
            } else {
                ("en_US"@, true)
            }
        },
    }
}

/// Resolve the display locale from the explicit language hint and the
/// injected environment locale; the second component reports whether
/// a malformed hint was replaced by the default.
pub fn resolve_locale(language: Option<&str>, env_locale: Option<&str>) -> (r: (String, bool))
    ensures
        r.0@ == spec_resolve_locale(opt_str_view(language), opt_str_view(env_locale)).0,
        r.1 == spec_resolve_locale(opt_str_view(language), opt_str_view(env_locale)).1,
{
    let chosen: Option<&str> = match language {
        Some(l) => Some(l),
        None => env_locale,
    };
    match chosen {
        None => ("en_US".to_owned(), false),
        Some(l) => {
            let t = prefix_before(l, '.');
            if locale_exists(t) {
                (t.to_owned(), false)
            } else {
                ("en_US".to_owned(), true)
            }
        },
    }
}

} // verus!
