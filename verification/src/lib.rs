//! Girouette core: a verified weather status-line rendering engine.
//!
//! The library consumes an already-decoded weather data aggregate
//! ([`api::Response`]) together with a declarative display configuration
//! ([`config::DisplayConfig`]) and produces a sequence of styled-text
//! output events ([`sink::Sink`]), ready to be replayed onto any
//! ANSI-capable terminal stream by a thin unverified shell.
//!
//! All fractional quantities of the upstream weather API (temperatures,
//! wind speeds, precipitation amounts, coordinates) are carried as
//! fixed-point integers in hundredths of their unit, which matches the
//! one-decimal precision of the rendered output.

use vstd::prelude::*;

pub mod api;
pub mod config;
pub mod icons;
pub mod lang;
pub mod numfmt;
pub mod scale;
pub mod segments;
pub mod sink;
pub mod strutil;
pub mod style;
pub mod timeutil;

verus! {

/// The three glyph repertoires a segment can render with.
#[derive(Clone, Copy, Debug, PartialEq, Eq, Structural)]
pub enum DisplayMode {
    NerdFonts,
    Unicode,
    Ascii,
}

/// The upstream data sets a configured segment list may require.
#[derive(Clone, Copy, Debug, PartialEq, Eq, Structural)]
pub enum QueryKind {
    Current,
    ForeCast,
    Pollution,
}

/// The unit system the aggregate's values are expressed in and
/// displayed with.
#[derive(Clone, Copy, Debug, PartialEq, Eq, Structural)]
pub enum UnitMode {
    Standard,
    Metric,
    Imperial,
}

/// Wind intensity bucket used to pick among calm/breezy/windy glyph
/// variants.
#[derive(Clone, Copy, Debug, PartialEq, Eq, Structural)]
pub enum WindType {
    Low,
    Mid,
    High,
}

/// Per-segment render outcome: `Empty` suppresses the separator that
/// would otherwise precede the next segment.
#[derive(Clone, Copy, Debug, PartialEq, Eq, Structural)]
pub enum RenderStatus {
    Empty,
    Rendered,
}

/// Errors terminal to a render call.
#[derive(Clone, Copy, Debug, PartialEq, Eq, Structural)]
pub enum RenderError {
    /// A segment needed the instant-conditions record and it is absent.
    MissingCurrent,
    /// A segment needed the forecast record and it is absent.
    MissingForecast,
    /// A segment needed the pollution record and it is absent.
    MissingPollution,
    /// The configured segment list requires no query at all, so there
    /// is nothing to display.
    NoDisplayKind,
}

impl RenderError {
    /// A human-readable description of the error.
    pub fn message(&self) -> (r: &'static str)
        ensures
            r@ == self.spec_message(),
    {
        match self {
            RenderError::MissingCurrent => "internal error: missing current api data",
            RenderError::MissingForecast => "internal error: missing forecast api data",
            RenderError::MissingPollution => "internal error: missing pollution api data",
            RenderError::NoDisplayKind => "there is no weather info to display",
        }
    }

    pub open spec fn spec_message(self) -> Seq<char> {
        match self {
            RenderError::MissingCurrent => "internal error: missing current api data"@,
            RenderError::MissingForecast => "internal error: missing forecast api data"@,
            RenderError::MissingPollution => "internal error: missing pollution api data"@,
            RenderError::NoDisplayKind => "there is no weather info to display"@,
        }
    }
}

/// Non-fatal conditions the renderer reports alongside its output,
/// in place of an ambient logger.
#[derive(Clone, Copy, Debug, PartialEq, Eq, Structural)]
pub enum Diagnostic {
    /// The configured segment list is empty; nothing was rendered.
    NoSegments,
    /// The locale hint could not be recognised; the default locale was
    /// used instead.
    UnknownLocale,
    /// A weather condition code outside the known taxonomy was resolved
    /// to the clear-sky fallback glyph.
    UnknownConditionCode { id: u16, night: bool },
    /// An alert tag without a glyph mapping was skipped.
    UnknownAlertTag,
    /// A weather-icon segment was asked to render in ASCII mode, which
    /// has no glyph for the primary condition.
    AsciiNoIcon,
}

} // verus!
