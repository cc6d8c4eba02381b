//! The segment rendering engine: each segment variant renders itself
//! from the aggregate and the shared render context, appending styled
//! text events to the sink; the renderer orchestrates an ordered
//! segment list, managing separators and the base style.
//!
//! Every render function carries an exact contract: a specification
//! function describes, event for event and diagnostic for diagnostic,
//! what the render appends, and when it returns which status or
//! error.

use vstd::prelude::*;

use crate::api::current::{CurrentResponse, Wind};
use crate::api::one_call::{OneCallResponse, Temperature as ForecastTemp, WeatherData};
use crate::api::pollution::PollutionResponse;
use crate::api::Response;
use crate::icons::{
    get_icon, get_unicode, get_wind_type, icon_known, icon_known_exec, spec_icon, spec_unicode,
    spec_wind_dir, spec_wind_type, unicode_known, unicode_known_exec, wind_dir_index,
    wind_dir_index_exec, wind_dir_str,
};
use crate::lang::{opt_str_view, resolve_locale, spec_resolve_locale};
use crate::numfmt::{fixed1, fixed1_string, u64_dec, u_dec};
use crate::scale::{
    aqi_color, aqi_index, aqi_ramp, humidity_color, humidity_index, humidity_ramp, temp_color,
    temp_index, temp_ramp, wind_color, wind_index, wind_ramp,
};
use crate::sink::{EventV, Sink};
use crate::strutil::{ascii_lower, lower_seq, newline_to_space, newline_to_space_spec,
    seq_contains_str, str_eq, vec_contains_str};
use crate::style::{ScaledColor, Style, TextColor};
use crate::timeutil::{
    civil_day, hourly_night, is_night, spec_hourly_night, spec_is_night,
    strftime_fixed, strftime_localized, strftime_localized_of, strftime_of,
};
use crate::{Diagnostic, DisplayMode, QueryKind, RenderError, RenderStatus, UnitMode};

verus! {

/// The shared render context: base style, effective display mode,
/// resolved locale, active unit system, and the instant the render
/// happens at (injected by the caller; alerts compare their time
/// window against it).
pub struct RenderConf {
    pub base_style: Style,
    pub display_mode: DisplayMode,
    pub locale: String,
    pub units: UnitMode,
    pub now: i64,
}

/// The specification-level view of a render context.
pub struct ConfV {
    pub base_style: Style,
    pub display_mode: DisplayMode,
    pub locale: Seq<char>,
    pub units: UnitMode,
    pub now: int,
}

impl View for RenderConf {
    type V = ConfV;

    open spec fn view(&self) -> ConfV {
        ConfV {
            base_style: self.base_style,
            display_mode: self.display_mode,
            locale: self.locale@,
            units: self.units,
            now: self.now as int,
        }
    }
}

/// What one segment render does: the events it appends, the
/// diagnostics it reports, and its status or error.
pub struct SegEff {
    pub evs: Seq<EventV>,
    pub diags: Seq<Diagnostic>,
    pub res: Result<RenderStatus, RenderError>,
}

/// The events of an optional fixed style: one set-style event when a
/// style is configured, none otherwise.
pub open spec fn opt_style_evs(o: Option<Style>) -> Seq<EventV> {
    match o {
        Some(s) => seq![EventV::SetStyle(s)],
        None => Seq::empty(),
    }
}

fn emit_opt_style(out: &mut Sink, o: &Option<Style>)
    ensures
        final(out)@ == old(out)@ + opt_style_evs(*o),
{
    match o {
        Some(s) => {
            out.set_style(*s);
        },
        None => {},
    }
    proof {
        assert(out@ =~= old(out)@ + opt_style_evs(*o));
    }
}

/// A formatting result, or nothing when formatting failed.
pub open spec fn or_empty(o: Option<Seq<char>>) -> Seq<char> {
    match o {
        Some(s) => s,
        None => Seq::empty(),
    }
}

/// Append `txt + tail` as one text event.
fn emit_opt_text(out: &mut Sink, txt: Option<String>, tail: &str)
    ensures
        final(out)@ == old(out)@.push(
            EventV::Text(
                or_empty(
                    match txt {
                        Some(s) => Some(s@),
                        None => None,
                    },
                ) + tail@,
            ),
        ),
{
    let mut t: String = match txt {
        Some(s) => s,
        None => String::new(),
    };
    t.append(tail);
    out.text(t);
}

/// The unit suffix printed after a temperature.
pub open spec fn spec_temp_suffix(units: UnitMode) -> Seq<char> {
    match units {
        UnitMode::Standard => " K"@,
        UnitMode::Metric => " \u{b0}C"@,
        UnitMode::Imperial => " \u{b0}F"@,
    }
}

fn temp_suffix_str(units: UnitMode) -> (r: &'static str)
    ensures
        r@ == spec_temp_suffix(units),
{
    match units {
        UnitMode::Standard => " K",
        UnitMode::Metric => " \u{b0}C",
        UnitMode::Imperial => " \u{b0}F",
    }
}

/// The events of one temperature value: the scaled or fixed style,
/// the value with one decimal, then the base style and the unit
/// suffix.
pub open spec fn temp_value_evs(
    scale: ScaledColor,
    temp: int,
    base: Style,
    units: UnitMode,
) -> Seq<EventV> {
    let style_evs: Seq<EventV> = match scale {
        ScaledColor::Scaled => seq![
            EventV::SetStyle(
                base.spec_with_fg(
                    TextColor::Ansi256(temp_ramp(temp_index(temp, units))),
                ).spec_with_bold(),
            ),
        ],
        ScaledColor::Fixed(Some(st)) => seq![EventV::SetStyle(st)],
        ScaledColor::Fixed(None) => Seq::empty(),
    };
    style_evs + seq![
        EventV::Text(fixed1(temp)),
        EventV::SetStyle(base),
        EventV::Text(spec_temp_suffix(units)),
    ]
}

/// Print one temperature value with its scaled or overridden color.
fn display_temp(color_scale: &ScaledColor, out: &mut Sink, temp: i32, base: Style, units: UnitMode)
    ensures
        final(out)@ == old(out)@ + temp_value_evs(*color_scale, temp as int, base, units),
{
    match color_scale {
        ScaledColor::Scaled => {
            let c = temp_color(temp, units);
            out.set_style(base.with_fg(TextColor::Ansi256(c)).with_bold());
        },
        ScaledColor::Fixed(Some(st)) => {
            out.set_style(*st);
        },
        ScaledColor::Fixed(None) => {},
    }
    out.text(fixed1_string(temp as i64));
    out.set_style(base);
    out.text_str(temp_suffix_str(units));
    proof {
        assert(out@ =~= old(out)@ + temp_value_evs(*color_scale, temp as int, base, units));
    }
}

/// A timestamp segment: the observation instant laid out with a
/// configurable strftime-like pattern, in the place's own fixed
/// offset.
#[derive(Debug, PartialEq)]
pub struct Instant {
    pub style: Option<Style>,
    pub date_format: String,
}

impl Default for Instant {
    fn default() -> (r: Self)
        ensures
            r.style is None,
            r.date_format@ == "%F %T %:z"@,
    {
        Instant { style: None, date_format: "%F %T %:z".to_owned() }
    }
}

impl Instant {
    pub fn new(style: Option<Style>, date_format: String) -> (r: Instant)
        ensures
            r == (Instant { style, date_format }),
    {
        Instant { style, date_format }
    }

    /// What rendering this segment does.
    pub open spec fn eff(self, conf: ConfV, resp: Response) -> SegEff {
        match resp.current {
            Option::None => SegEff {
                evs: Seq::empty(),
                diags: Seq::empty(),
                res: Err(RenderError::MissingCurrent),
            },
            Option::Some(cur) => SegEff {
                evs: opt_style_evs(self.style) + seq![
                    EventV::Text(
                        or_empty(
                            strftime_of(cur.dt as int, cur.timezone as int, self.date_format@),
                        ),
                    ),
                ],
                diags: Seq::empty(),
                res: Ok(RenderStatus::Rendered),
            },
        }
    }

    fn render(&self, out: &mut Sink, conf: &RenderConf, resp: &Response) -> (r: Result<
        RenderStatus,
        RenderError,
    >)
        ensures
            final(out)@ == old(out)@ + self.eff(conf@, *resp).evs,
            r == self.eff(conf@, *resp).res,
    {
        let cur = match resp.as_current() {
            Ok(c) => c,
            Err(e) => {
                proof {
                    assert(out@ =~= old(out)@ + self.eff(conf@, *resp).evs);
                }
                return Err(e);
            },
        };
        emit_opt_style(out, &self.style);
        let txt = strftime_fixed(cur.dt, cur.timezone, self.date_format.as_str());
        emit_opt_text(out, txt, "");
        proof {
            reveal_strlit("");
            assert(""@ =~= Seq::<char>::empty());
            assert(out@ =~= old(out)@ + self.eff(conf@, *resp).evs);
        }
        Ok(RenderStatus::Rendered)
    }
}

/// The location's name, verbatim.
#[derive(Debug, PartialEq, Default)]
pub struct LocationName {
    pub style: Option<Style>,
}

impl LocationName {
    pub fn new() -> (r: Self)
        ensures
            r.style is None,
    {
        LocationName { style: None }
    }

    /// What rendering this segment does.
    pub open spec fn eff(self, conf: ConfV, resp: Response) -> SegEff {
        match resp.current {
            Option::None => SegEff {
                evs: Seq::empty(),
                diags: Seq::empty(),
                res: Err(RenderError::MissingCurrent),
            },
            Option::Some(cur) => SegEff {
                evs: opt_style_evs(self.style) + seq![EventV::Text(cur.name@)],
                diags: Seq::empty(),
                res: Ok(RenderStatus::Rendered),
            },
        }
    }

    fn render(&self, out: &mut Sink, conf: &RenderConf, resp: &Response) -> (r: Result<
        RenderStatus,
        RenderError,
    >)
        ensures
            final(out)@ == old(out)@ + self.eff(conf@, *resp).evs,
            r == self.eff(conf@, *resp).res,
    {
        let cur = match resp.as_current() {
            Ok(c) => c,
            Err(e) => {
                proof {
                    assert(out@ =~= old(out)@ + self.eff(conf@, *resp).evs);
                }
                return Err(e);
            },
        };
        emit_opt_style(out, &self.style);
        out.text_str(cur.name.as_str());
        proof {
            assert(out@ =~= old(out)@ + self.eff(conf@, *resp).evs);
        }
        Ok(RenderStatus::Rendered)
    }
}

/// The main temperature readout, optionally bracketed by the day's
/// minimum and maximum and suffixed by the feels-like value.
#[derive(Debug, PartialEq, Default)]
pub struct Temperature {
    pub display_mode: Option<DisplayMode>,
    pub feels_like: bool,
    pub min_max: bool,
    pub style: ScaledColor,
}

/// The events of the min/max/feels-like framing glyphs, per display
/// mode.
pub open spec fn spec_temp_glyph(mode: DisplayMode) -> Seq<char> {
    match mode {
        DisplayMode::NerdFonts => "\u{e350} "@,
        DisplayMode::Unicode => "\u{1f321}\u{fe0f} "@,
        DisplayMode::Ascii => "T "@,
    }
}

fn temp_glyph_str(mode: DisplayMode) -> (r: &'static str)
    ensures
        r@ == spec_temp_glyph(mode),
{
    match mode {
        DisplayMode::NerdFonts => "\u{e350} ",
        DisplayMode::Unicode => "\u{1f321}\u{fe0f} ",
        DisplayMode::Ascii => "T ",
    }
}

pub open spec fn spec_temp_min_glyph(mode: DisplayMode) -> Seq<char> {
    match mode {
        DisplayMode::NerdFonts => " \u{f175}"@,
        DisplayMode::Unicode => " \u{2b07}\u{fe0f} "@,
        DisplayMode::Ascii => " (m "@,
    }
}

fn temp_min_glyph_str(mode: DisplayMode) -> (r: &'static str)
    ensures
        r@ == spec_temp_min_glyph(mode),
{
    match mode {
        DisplayMode::NerdFonts => " \u{f175}",
        DisplayMode::Unicode => " \u{2b07}\u{fe0f} ",
        DisplayMode::Ascii => " (m ",
    }
}

pub open spec fn spec_temp_mid_glyph(mode: DisplayMode) -> Seq<char> {
    match mode {
        DisplayMode::NerdFonts => " \u{e350} "@,
        DisplayMode::Unicode => " \u{1f321}\u{fe0f} "@,
        DisplayMode::Ascii => " T "@,
    }
}

fn temp_mid_glyph_str(mode: DisplayMode) -> (r: &'static str)
    ensures
        r@ == spec_temp_mid_glyph(mode),
{
    match mode {
        DisplayMode::NerdFonts => " \u{e350} ",
        DisplayMode::Unicode => " \u{1f321}\u{fe0f} ",
        DisplayMode::Ascii => " T ",
    }
}

pub open spec fn spec_temp_max_glyph(mode: DisplayMode) -> Seq<char> {
    match mode {
        DisplayMode::NerdFonts => " \u{f176}"@,
        DisplayMode::Unicode => " \u{2b06}\u{fe0f} "@,
        DisplayMode::Ascii => " M "@,
    }
}

fn temp_max_glyph_str(mode: DisplayMode) -> (r: &'static str)
    ensures
        r@ == spec_temp_max_glyph(mode),
{
    match mode {
        DisplayMode::NerdFonts => " \u{f176}",
        DisplayMode::Unicode => " \u{2b06}\u{fe0f} ",
        DisplayMode::Ascii => " M ",
    }
}

impl Temperature {
    /// The events of the min/temp/max triple readout.
    pub open spec fn minmax_evs(self, mode: DisplayMode, conf: ConfV, cur: CurrentResponse) -> Seq<
        EventV,
    > {
        let main = cur.main;
        seq![EventV::Text(spec_temp_min_glyph(mode))] + temp_value_evs(
            self.style,
            main.temp_min as int,
            conf.base_style,
            conf.units,
        ) + seq![EventV::Text(spec_temp_mid_glyph(mode))] + temp_value_evs(
            self.style,
            main.temp as int,
            conf.base_style,
            conf.units,
        ) + seq![EventV::Text(spec_temp_max_glyph(mode))] + temp_value_evs(
            self.style,
            main.temp_max as int,
            conf.base_style,
            conf.units,
        ) + (if mode is Ascii {
            seq![EventV::Text(")"@)]
        } else {
            Seq::empty()
        })
    }

    /// The events of the single-temperature readout.
    pub open spec fn plain_evs(self, mode: DisplayMode, conf: ConfV, cur: CurrentResponse) -> Seq<
        EventV,
    > {
        seq![EventV::Text(spec_temp_glyph(mode))] + temp_value_evs(
            self.style,
            cur.main.temp as int,
            conf.base_style,
            conf.units,
        )
    }

    /// The events of the feels-like suffix.
    pub open spec fn feels_evs(self, conf: ConfV, cur: CurrentResponse) -> Seq<EventV> {
        seq![EventV::Text(" (feels "@)] + temp_value_evs(
            self.style,
            cur.main.feels_like as int,
            conf.base_style,
            conf.units,
        ) + seq![EventV::Text(")"@)]
    }

    /// The events of the temperature body under an effective mode.
    pub open spec fn body_evs(self, mode: DisplayMode, conf: ConfV, cur: CurrentResponse) -> Seq<
        EventV,
    > {
        (if self.min_max {
            self.minmax_evs(mode, conf, cur)
        } else {
            self.plain_evs(mode, conf, cur)
        }) + (if self.feels_like {
            self.feels_evs(conf, cur)
        } else {
            Seq::empty()
        })
    }

    fn emit_minmax(&self, out: &mut Sink, mode: DisplayMode, conf: &RenderConf, cur: &CurrentResponse)
        ensures
            final(out)@ == old(out)@ + self.minmax_evs(mode, conf@, *cur),
    {
        out.text_str(temp_min_glyph_str(mode));
        display_temp(&self.style, out, cur.main.temp_min, conf.base_style, conf.units);
        out.text_str(temp_mid_glyph_str(mode));
        display_temp(&self.style, out, cur.main.temp, conf.base_style, conf.units);
        out.text_str(temp_max_glyph_str(mode));
        display_temp(&self.style, out, cur.main.temp_max, conf.base_style, conf.units);
        if let DisplayMode::Ascii = mode {
            out.text_str(")");
        }
        proof {
            assert(out@ =~= old(out)@ + self.minmax_evs(mode, conf@, *cur));
        }
    }

    fn emit_feels(&self, out: &mut Sink, conf: &RenderConf, cur: &CurrentResponse)
        ensures
            final(out)@ == old(out)@ + self.feels_evs(conf@, *cur),
    {
        out.text_str(" (feels ");
        display_temp(&self.style, out, cur.main.feels_like, conf.base_style, conf.units);
        out.text_str(")");
        proof {
            assert(out@ =~= old(out)@ + self.feels_evs(conf@, *cur));
        }
    }

    /// What rendering this segment does.
    pub open spec fn eff(self, conf: ConfV, resp: Response) -> SegEff {
        match resp.current {
            Option::None => SegEff {
                evs: Seq::empty(),
                diags: Seq::empty(),
                res: Err(RenderError::MissingCurrent),
            },
            Option::Some(cur) => {
                let mode = match self.display_mode {
                    Some(m) => m,
                    None => conf.display_mode,
                };
                SegEff {
                    evs: self.body_evs(mode, conf, cur),
                    diags: Seq::empty(),
                    res: Ok(RenderStatus::Rendered),
                }
            },
        }
    }

    #[verifier::rlimit(100)]
    fn render(&self, out: &mut Sink, conf: &RenderConf, resp: &Response) -> (r: Result<
        RenderStatus,
        RenderError,
    >)
        ensures
            final(out)@ == old(out)@ + self.eff(conf@, *resp).evs,
            r == self.eff(conf@, *resp).res,
    {
        let cur = match resp.as_current() {
            Ok(c) => c,
            Err(e) => {
                proof {
                    assert(out@ =~= old(out)@ + self.eff(conf@, *resp).evs);
                }
                return Err(e);
            },
        };
        let mode = match self.display_mode {
            Some(m) => m,
            None => conf.display_mode,
        };
        if self.min_max {
            self.emit_minmax(out, mode, conf, cur);
        } else {
            out.text_str(temp_glyph_str(mode));
            display_temp(&self.style, out, cur.main.temp, conf.base_style, conf.units);
        }
        if self.feels_like {
            self.emit_feels(out, conf, cur);
        }
        proof {
            assert(out@ =~= old(out)@ + self.eff(conf@, *resp).evs);
        }
        Ok(RenderStatus::Rendered)
    }
}

/// The primary condition's localized description; empty when the
/// provider supplied none for the locale.
#[derive(Debug, PartialEq, Default)]
pub struct WeatherDescription {
    pub style: Option<Style>,
}

impl WeatherDescription {
    /// What rendering this segment does.
    pub open spec fn eff(self, conf: ConfV, resp: Response) -> SegEff {
        match resp.current {
            Option::None => SegEff {
                evs: Seq::empty(),
                diags: Seq::empty(),
                res: Err(RenderError::MissingCurrent),
            },
            Option::Some(cur) => {
                match cur.weather[0].description {
                    Option::None => SegEff {
                        evs: Seq::empty(),
                        diags: Seq::empty(),
                        res: Ok(RenderStatus::Empty),
                    },
                    Option::Some(d) => SegEff {
                        evs: opt_style_evs(self.style) + seq![EventV::Text(d@)],
                        diags: Seq::empty(),
                        res: Ok(RenderStatus::Rendered),
                    },
                }
            },
        }
    }

    fn render(&self, out: &mut Sink, conf: &RenderConf, resp: &Response) -> (r: Result<
        RenderStatus,
        RenderError,
    >)
        requires
            resp.wf(),
        ensures
            final(out)@ == old(out)@ + self.eff(conf@, *resp).evs,
            r == self.eff(conf@, *resp).res,
    {
        let cur = match resp.as_current() {
            Ok(c) => c,
            Err(e) => {
                proof {
                    assert(out@ =~= old(out)@ + self.eff(conf@, *resp).evs);
                }
                return Err(e);
            },
        };
        match &cur.weather[0].description {
            None => {
                proof {
                    assert(out@ =~= old(out)@ + self.eff(conf@, *resp).evs);
                }
                Ok(RenderStatus::Empty)
            },
            Some(d) => {
                emit_opt_style(out, &self.style);
                out.text_str(d.as_str());
                proof {
                    assert(out@ =~= old(out)@ + self.eff(conf@, *resp).evs);
                }
                Ok(RenderStatus::Rendered)
            },
        }
    }
}

/// The humidity percentage, always present in the instant record.
#[derive(Debug, PartialEq, Default)]
pub struct Humidity {
    pub display_mode: Option<DisplayMode>,
    pub style: ScaledColor,
}

pub open spec fn spec_humidity_glyph(mode: DisplayMode) -> Seq<char> {
    match mode {
        DisplayMode::NerdFonts => "\u{e373}"@,
        _ => "H"@,
    }
}

fn humidity_glyph_str(mode: DisplayMode) -> (r: &'static str)
    ensures
        r@ == spec_humidity_glyph(mode),
{
    match mode {
        DisplayMode::NerdFonts => "\u{e373}",
        _ => "H",
    }
}

/// The style events of a value scaled over a given ramp color, or a
/// fixed override.
pub open spec fn scaled_style_evs(scale: ScaledColor, base: Style, ramp_color: u8) -> Seq<EventV> {
    match scale {
        ScaledColor::Scaled => seq![
            EventV::SetStyle(base.spec_with_fg(TextColor::Ansi256(ramp_color))),
        ],
        ScaledColor::Fixed(Some(st)) => seq![EventV::SetStyle(st)],
        ScaledColor::Fixed(None) => Seq::empty(),
    }
}

impl Humidity {
    /// What rendering this segment does. The configured display-mode
    /// override is carried for the configuration surface, but the
    /// glyph follows the context's mode.
    pub open spec fn eff(self, conf: ConfV, resp: Response) -> SegEff {
        match resp.current {
            Option::None => SegEff {
                evs: Seq::empty(),
                diags: Seq::empty(),
                res: Err(RenderError::MissingCurrent),
            },
            Option::Some(cur) => {
                let h = cur.main.humidity;
                SegEff {
                    evs: seq![EventV::Text(spec_humidity_glyph(conf.display_mode))]
                        + scaled_style_evs(
                        self.style,
                        conf.base_style,
                        humidity_ramp(humidity_index(h as int)),
                    ) + seq![
                        EventV::Text(" "@ + u_dec(h as nat)),
                        EventV::SetStyle(conf.base_style),
                        EventV::Text(" %"@),
                    ],
                    diags: Seq::empty(),
                    res: Ok(RenderStatus::Rendered),
                }
            },
        }
    }

    fn render(&self, out: &mut Sink, conf: &RenderConf, resp: &Response) -> (r: Result<
        RenderStatus,
        RenderError,
    >)
        ensures
            final(out)@ == old(out)@ + self.eff(conf@, *resp).evs,
            r == self.eff(conf@, *resp).res,
    {
        let cur = match resp.as_current() {
            Ok(c) => c,
            Err(e) => {
                proof {
                    assert(out@ =~= old(out)@ + self.eff(conf@, *resp).evs);
                }
                return Err(e);
            },
        };
        let h = cur.main.humidity;
        out.text_str(humidity_glyph_str(conf.display_mode));
        match &self.style {
            ScaledColor::Scaled => {
                let c = humidity_color(h);
                out.set_style(conf.base_style.with_fg(TextColor::Ansi256(c)));
            },
            ScaledColor::Fixed(Some(st)) => {
                out.set_style(*st);
            },
            ScaledColor::Fixed(None) => {},
        }
        let mut t: String = " ".to_owned();
        t.append(u64_dec(h as u64).as_str());
        out.text(t);
        out.set_style(conf.base_style);
        out.text_str(" %");
        proof {
            reveal_strlit(" ");
            assert(out@ =~= old(out)@ + self.eff(conf@, *resp).evs);
        }
        Ok(RenderStatus::Rendered)
    }
}

/// The barometric pressure, always present in the instant record.
#[derive(Debug, PartialEq, Default)]
pub struct Pressure {
    pub display_mode: Option<DisplayMode>,
    pub style: Option<Style>,
}

pub open spec fn spec_pressure_glyph(mode: DisplayMode) -> Seq<char> {
    match mode {
        DisplayMode::NerdFonts => "\u{e372}"@,
        _ => "P"@,
    }
}

fn pressure_glyph_str(mode: DisplayMode) -> (r: &'static str)
    ensures
        r@ == spec_pressure_glyph(mode),
{
    match mode {
        DisplayMode::NerdFonts => "\u{e372}",
        _ => "P",
    }
}

impl Pressure {
    /// What rendering this segment does.
    pub open spec fn eff(self, conf: ConfV, resp: Response) -> SegEff {
        match resp.current {
            Option::None => SegEff {
                evs: Seq::empty(),
                diags: Seq::empty(),
                res: Err(RenderError::MissingCurrent),
            },
            Option::Some(cur) => SegEff {
                evs: seq![EventV::Text(spec_pressure_glyph(conf.display_mode))] + opt_style_evs(
                    self.style,
                ) + seq![
                    EventV::Text(" "@ + u_dec(cur.main.pressure as nat)),
                    EventV::SetStyle(conf.base_style),
                    EventV::Text(" hPa"@),
                ],
                diags: Seq::empty(),
                res: Ok(RenderStatus::Rendered),
            },
        }
    }

    fn render(&self, out: &mut Sink, conf: &RenderConf, resp: &Response) -> (r: Result<
        RenderStatus,
        RenderError,
    >)
        ensures
            final(out)@ == old(out)@ + self.eff(conf@, *resp).evs,
            r == self.eff(conf@, *resp).res,
    {
        let cur = match resp.as_current() {
            Ok(c) => c,
            Err(e) => {
                proof {
                    assert(out@ =~= old(out)@ + self.eff(conf@, *resp).evs);
                }
                return Err(e);
            },
        };
        out.text_str(pressure_glyph_str(conf.display_mode));
        emit_opt_style(out, &self.style);
        let mut t: String = " ".to_owned();
        t.append(u64_dec(cur.main.pressure as u64).as_str());
        out.text(t);
        out.set_style(conf.base_style);
        out.text_str(" hPa");
        proof {
            reveal_strlit(" ");
            assert(out@ =~= old(out)@ + self.eff(conf@, *resp).evs);
        }
        Ok(RenderStatus::Rendered)
    }
}

/// The cloud cover percentage, when the instant record carries it.
#[derive(Debug, PartialEq, Default)]
pub struct CloudCover {
    pub display_mode: Option<DisplayMode>,
    pub style: Option<Style>,
}

pub open spec fn spec_clouds_glyph(mode: DisplayMode) -> Seq<char> {
    match mode {
        DisplayMode::NerdFonts => "\u{e33d}"@,
        DisplayMode::Unicode => "\u{2601}\u{fe0f}"@,
        DisplayMode::Ascii => "C"@,
    }
}

fn clouds_glyph_str(mode: DisplayMode) -> (r: &'static str)
    ensures
        r@ == spec_clouds_glyph(mode),
{
    match mode {
        DisplayMode::NerdFonts => "\u{e33d}",
        DisplayMode::Unicode => "\u{2601}\u{fe0f}",
        DisplayMode::Ascii => "C",
    }
}

impl CloudCover {
    /// What rendering this segment does: an absent cloud field is the
    /// ordinary silently-skipped case and yields the empty status.
    pub open spec fn eff(self, conf: ConfV, resp: Response) -> SegEff {
        match resp.current {
            Option::None => SegEff {
                evs: Seq::empty(),
                diags: Seq::empty(),
                res: Err(RenderError::MissingCurrent),
            },
            Option::Some(cur) => {
                match cur.clouds {
                    Option::None => SegEff {
                        evs: Seq::empty(),
                        diags: Seq::empty(),
                        res: Ok(RenderStatus::Empty),
                    },
                    Option::Some(clouds) => SegEff {
                        evs: seq![EventV::Text(spec_clouds_glyph(conf.display_mode))]
                            + opt_style_evs(self.style) + seq![
                            EventV::Text(" "@ + u_dec(clouds.all as nat)),
                            EventV::SetStyle(conf.base_style),
                            EventV::Text(" %"@),
                        ],
                        diags: Seq::empty(),
                        res: Ok(RenderStatus::Rendered),
                    },
                }
            },
        }
    }

    fn render(&self, out: &mut Sink, conf: &RenderConf, resp: &Response) -> (r: Result<
        RenderStatus,
        RenderError,
    >)
        ensures
            final(out)@ == old(out)@ + self.eff(conf@, *resp).evs,
            r == self.eff(conf@, *resp).res,
    {
        let cur = match resp.as_current() {
            Ok(c) => c,
            Err(e) => {
                proof {
                    assert(out@ =~= old(out)@ + self.eff(conf@, *resp).evs);
                }
                return Err(e);
            },
        };
        match &cur.clouds {
            None => {
                proof {
                    assert(out@ =~= old(out)@ + self.eff(conf@, *resp).evs);
                }
                Ok(RenderStatus::Empty)
            },
            Some(clouds) => {
                out.text_str(clouds_glyph_str(conf.display_mode));
                emit_opt_style(out, &self.style);
                let mut t: String = " ".to_owned();
                t.append(u64_dec(clouds.all as u64).as_str());
                out.text(t);
                out.set_style(conf.base_style);
                out.text_str(" %");
                proof {
                    reveal_strlit(" ");
                    assert(out@ =~= old(out)@ + self.eff(conf@, *resp).evs);
                }
                Ok(RenderStatus::Rendered)
            },
        }
    }
}

/// Recent rain accumulation: prefers the one-hour window, falls back
/// to the three-hour one, and is silently empty without rain data.
#[derive(Debug, PartialEq, Default)]
pub struct Rain {
    pub display_mode: Option<DisplayMode>,
    pub style: Option<Style>,
}

pub open spec fn spec_rain_glyph(mode: DisplayMode) -> Seq<char> {
    match mode {
        DisplayMode::NerdFonts => "\u{e371}"@,
        DisplayMode::Unicode => "\u{2614}"@,
        DisplayMode::Ascii => "R"@,
    }
}

fn rain_glyph_str(mode: DisplayMode) -> (r: &'static str)
    ensures
        r@ == spec_rain_glyph(mode),
{
    match mode {
        DisplayMode::NerdFonts => "\u{e371}",
        DisplayMode::Unicode => "\u{2614}",
        DisplayMode::Ascii => "R",
    }
}

pub open spec fn spec_snow_glyph(mode: DisplayMode) -> Seq<char> {
    match mode {
        DisplayMode::NerdFonts => "\u{f2dc}"@,
        DisplayMode::Unicode => "\u{2744}\u{fe0f}"@,
        DisplayMode::Ascii => "S"@,
    }
}

fn snow_glyph_str(mode: DisplayMode) -> (r: &'static str)
    ensures
        r@ == spec_snow_glyph(mode),
{
    match mode {
        DisplayMode::NerdFonts => "\u{f2dc}",
        DisplayMode::Unicode => "\u{2744}\u{fe0f}",
        DisplayMode::Ascii => "S",
    }
}

/// The preferred accumulation window: one hour if reported, else
/// three hours.
pub open spec fn spec_accum(one_h: Option<i32>, three_h: Option<i32>) -> Option<i32> {
    match one_h {
        Some(v) => Some(v),
        None => three_h,
    }
}

/// The events of a precipitation amount: glyph, optional style, the
/// amount with one decimal, base style, and the unit.
pub open spec fn precip_evs(
    glyph: Seq<char>,
    style: Option<Style>,
    mm: int,
    base: Style,
) -> Seq<EventV> {
    seq![EventV::Text(glyph)] + opt_style_evs(style) + seq![
        EventV::Text(" "@ + fixed1(mm) + " "@),
        EventV::SetStyle(base),
        EventV::Text("mm/h"@),
    ]
}

fn emit_precip(out: &mut Sink, glyph: &'static str, style: &Option<Style>, mm: i32, base: Style)
    ensures
        final(out)@ == old(out)@ + precip_evs(glyph@, *style, mm as int, base),
{
    out.text_str(glyph);
    emit_opt_style(out, style);
    let mut t: String = " ".to_owned();
    t.append(fixed1_string(mm as i64).as_str());
    t.append(" ");
    out.text(t);
    out.set_style(base);
    out.text_str("mm/h");
    proof {
        reveal_strlit(" ");
        assert(out@ =~= old(out)@ + precip_evs(glyph@, *style, mm as int, base));
    }
}

impl Rain {
    /// What rendering this segment does.
    pub open spec fn eff(self, conf: ConfV, resp: Response) -> SegEff {
        match resp.current {
            Option::None => SegEff {
                evs: Seq::empty(),
                diags: Seq::empty(),
                res: Err(RenderError::MissingCurrent),
            },
            Option::Some(cur) => {
                let amount = match cur.rain {
                    Option::Some(r) => spec_accum(r.one_h, r.three_h),
                    Option::None => None,
                };
                match amount {
                    Option::Some(mm) => SegEff {
                        evs: precip_evs(
                            spec_rain_glyph(conf.display_mode),
                            self.style,
                            mm as int,
                            conf.base_style,
                        ),
                        diags: Seq::empty(),
                        res: Ok(RenderStatus::Rendered),
                    },
                    Option::None => SegEff {
                        evs: Seq::empty(),
                        diags: Seq::empty(),
                        res: Ok(RenderStatus::Empty),
                    },
                }
            },
        }
    }

    fn render(&self, out: &mut Sink, conf: &RenderConf, resp: &Response) -> (r: Result<
        RenderStatus,
        RenderError,
    >)
        ensures
            final(out)@ == old(out)@ + self.eff(conf@, *resp).evs,
            r == self.eff(conf@, *resp).res,
    {
        let cur = match resp.as_current() {
            Ok(c) => c,
            Err(e) => {
                proof {
                    assert(out@ =~= old(out)@ + self.eff(conf@, *resp).evs);
                }
                return Err(e);
            },
        };
        let amount: Option<i32> = match &cur.rain {
            Some(r) => {
                match r.one_h {
                    Some(v) => Some(v),
                    None => r.three_h,
                }
            },
            None => None,
        };
        match amount {
            Some(mm) => {
                emit_precip(out, rain_glyph_str(conf.display_mode), &self.style, mm, conf.base_style);
                proof {
                    assert(out@ =~= old(out)@ + self.eff(conf@, *resp).evs);
                }
                Ok(RenderStatus::Rendered)
            },
            None => {
                proof {
                    assert(out@ =~= old(out)@ + self.eff(conf@, *resp).evs);
                }
                Ok(RenderStatus::Empty)
            },
        }
    }
}

/// Recent snow accumulation, the counterpart of [`Rain`].
#[derive(Debug, PartialEq, Default)]
pub struct Snow {
    pub display_mode: Option<DisplayMode>,
    pub style: Option<Style>,
}

impl Snow {
    /// What rendering this segment does.
    pub open spec fn eff(self, conf: ConfV, resp: Response) -> SegEff {
        match resp.current {
            Option::None => SegEff {
                evs: Seq::empty(),
                diags: Seq::empty(),
                res: Err(RenderError::MissingCurrent),
            },
            Option::Some(cur) => {
                let amount = match cur.snow {
                    Option::Some(s) => spec_accum(s.one_h, s.three_h),
                    Option::None => None,
                };
                match amount {
                    Option::Some(mm) => SegEff {
                        evs: precip_evs(
                            spec_snow_glyph(conf.display_mode),
                            self.style,
                            mm as int,
                            conf.base_style,
                        ),
                        diags: Seq::empty(),
                        res: Ok(RenderStatus::Rendered),
                    },
                    Option::None => SegEff {
                        evs: Seq::empty(),
                        diags: Seq::empty(),
                        res: Ok(RenderStatus::Empty),
                    },
                }
            },
        }
    }

    fn render(&self, out: &mut Sink, conf: &RenderConf, resp: &Response) -> (r: Result<
        RenderStatus,
        RenderError,
    >)
        ensures
            final(out)@ == old(out)@ + self.eff(conf@, *resp).evs,
            r == self.eff(conf@, *resp).res,
    {
        let cur = match resp.as_current() {
            Ok(c) => c,
            Err(e) => {
                proof {
                    assert(out@ =~= old(out)@ + self.eff(conf@, *resp).evs);
                }
                return Err(e);
            },
        };
        let amount: Option<i32> = match &cur.snow {
            Some(s) => {
                match s.one_h {
                    Some(v) => Some(v),
                    None => s.three_h,
                }
            },
            None => None,
        };
        match amount {
            Some(mm) => {
                emit_precip(out, snow_glyph_str(conf.display_mode), &self.style, mm, conf.base_style);
                proof {
                    assert(out@ =~= old(out)@ + self.eff(conf@, *resp).evs);
                }
                Ok(RenderStatus::Rendered)
            },
            None => {
                proof {
                    assert(out@ =~= old(out)@ + self.eff(conf@, *resp).evs);
                }
                Ok(RenderStatus::Empty)
            },
        }
    }
}

/// The wind-intensity bucket used to pick a primary-condition glyph
/// variant: absent wind data counts as calm, and the stored speed is
/// first converted to the display unit.
pub open spec fn spec_icon_wind(wind: Option<Wind>, units: UnitMode) -> crate::WindType {
    match wind {
        Option::None => crate::WindType::Low,
        Option::Some(w) => spec_wind_type(
            crate::scale::display_speed(w.speed as int, units),
            units,
        ),
    }
}

/// The events of one primary-condition icon: the optional style,
/// then one glyph per the display mode (the ASCII repertoire has no
/// primary glyph and contributes an empty text run).
pub open spec fn icon_evs(
    mode: DisplayMode,
    units: UnitMode,
    style: Option<Style>,
    night: bool,
    wind: Option<Wind>,
    id: u16,
) -> Seq<EventV> {
    opt_style_evs(style) + match mode {
        DisplayMode::NerdFonts => seq![
            EventV::Text(spec_icon(id as int, night, spec_icon_wind(wind, units))),
        ],
        DisplayMode::Unicode => seq![EventV::Text(spec_unicode(id as int, night) + "\u{fe0f}"@)],
        DisplayMode::Ascii => seq![EventV::Text(Seq::empty())],
    }
}

/// The diagnostics of one primary-condition icon: one report when the
/// code is outside the active repertoire's taxonomy.
pub open spec fn icon_diags(mode: DisplayMode, night: bool, id: u16) -> Seq<Diagnostic> {
    match mode {
        DisplayMode::NerdFonts => if icon_known(id as int, night) {
            Seq::empty()
        } else {
            seq![Diagnostic::UnknownConditionCode { id, night }]
        },
        DisplayMode::Unicode => if unicode_known(id as int, night) {
            Seq::empty()
        } else {
            seq![Diagnostic::UnknownConditionCode { id, night }]
        },
        DisplayMode::Ascii => Seq::empty(),
    }
}

/// The status of one primary-condition icon: empty in ASCII mode,
/// which has no glyph, so the following separator is suppressed.
pub open spec fn icon_status(mode: DisplayMode) -> RenderStatus {
    if mode is Ascii {
        RenderStatus::Empty
    } else {
        RenderStatus::Rendered
    }
}

/// Render one primary-condition icon.
fn render_icon(
    out: &mut Sink,
    diags: &mut Vec<Diagnostic>,
    mode: DisplayMode,
    units: UnitMode,
    style: &Option<Style>,
    night: bool,
    wind: Option<Wind>,
    id: u16,
) -> (r: RenderStatus)
    ensures
        final(out)@ == old(out)@ + icon_evs(mode, units, *style, night, wind, id),
        final(diags)@ == old(diags)@ + icon_diags(mode, night, id),
        r == icon_status(mode),
{
    emit_opt_style(out, style);
    match mode {
        DisplayMode::NerdFonts => {
            let wind_type = match wind {
                None => crate::WindType::Low,
                Some(w) => {
                    let speed = crate::scale::display_speed_h(w.speed, units);
                    get_wind_type(speed, units)
                },
            };
            out.text_str(get_icon(id, night, &wind_type));
            if !icon_known_exec(id, night) {
                diags.push(Diagnostic::UnknownConditionCode { id, night });
            }
        },
        DisplayMode::Unicode => {
            let mut t: String = get_unicode(id, night).to_owned();
            t.append("\u{fe0f}");
            out.text(t);
            if !unicode_known_exec(id, night) {
                diags.push(Diagnostic::UnknownConditionCode { id, night });
            }
        },
        DisplayMode::Ascii => {
            out.text_str("");
            proof {
                reveal_strlit("");
                assert(""@ =~= Seq::<char>::empty());
            }
        },
    }
    proof {
        assert(out@ =~~= old(out)@ + icon_evs(mode, units, *style, night, wind, id));
        assert(diags@ =~= old(diags)@ + icon_diags(mode, night, id));
    }
    if let DisplayMode::Ascii = mode {
        RenderStatus::Empty
    } else {
        RenderStatus::Rendered
    }
}

/// The primary condition icon: a glyph picked from the code taxonomy
/// with day/night and wind-intensity variants.
#[derive(Debug, PartialEq, Default)]
pub struct WeatherIcon {
    pub display_mode: Option<DisplayMode>,
    pub style: Option<Style>,
}

impl WeatherIcon {
    /// What rendering this segment does: in ASCII mode it reports a
    /// diagnostic and yields the empty status whatever the code.
    pub open spec fn eff(self, conf: ConfV, resp: Response) -> SegEff {
        match resp.current {
            Option::None => SegEff {
                evs: Seq::empty(),
                diags: Seq::empty(),
                res: Err(RenderError::MissingCurrent),
            },
            Option::Some(cur) => {
                let night = spec_is_night(
                    cur.dt as int,
                    cur.sys.sunrise as int,
                    cur.sys.sunset as int,
                );
                let id = cur.weather[0].id;
                SegEff {
                    evs: icon_evs(
                        conf.display_mode,
                        conf.units,
                        self.style,
                        night,
                        cur.wind,
                        id,
                    ),
                    diags: (if conf.display_mode is Ascii {
                        seq![Diagnostic::AsciiNoIcon]
                    } else {
                        Seq::empty()
                    }) + icon_diags(conf.display_mode, night, id),
                    res: Ok(icon_status(conf.display_mode)),
                }
            },
        }
    }

    fn render(
        &self,
        out: &mut Sink,
        diags: &mut Vec<Diagnostic>,
        conf: &RenderConf,
        resp: &Response,
    ) -> (r: Result<RenderStatus, RenderError>)
        requires
            resp.wf(),
        ensures
            final(out)@ == old(out)@ + self.eff(conf@, *resp).evs,
            final(diags)@ == old(diags)@ + self.eff(conf@, *resp).diags,
            r == self.eff(conf@, *resp).res,
    {
        let cur = match resp.as_current() {
            Ok(c) => c,
            Err(e) => {
                proof {
                    assert(out@ =~= old(out)@ + self.eff(conf@, *resp).evs);
                    assert(diags@ =~= old(diags)@ + self.eff(conf@, *resp).diags);
                }
                return Err(e);
            },
        };
        if let DisplayMode::Ascii = conf.display_mode {
            diags.push(Diagnostic::AsciiNoIcon);
        }
        let night = is_night(cur.dt, cur.sys.sunrise, cur.sys.sunset);
        let status = render_icon(
            out,
            diags,
            conf.display_mode,
            conf.units,
            &self.style,
            night,
            cur.wind,
            cur.weather[0].id,
        );
        proof {
            assert(out@ =~= old(out)@ + self.eff(conf@, *resp).evs);
            assert(diags@ =~= old(diags)@ + self.eff(conf@, *resp).diags);
        }
        Ok(status)
    }
}

/// In the ASCII repertoire the weather icon renders to the empty
/// status, whatever the condition code, so the following separator is
/// suppressed.
pub proof fn lemma_ascii_icon_empty(seg: WeatherIcon, conf: ConfV, resp: Response)
    requires
        conf.display_mode is Ascii,
        resp.current is Some,
    ensures
        seg.eff(conf, resp).res == Ok::<RenderStatus, RenderError>(RenderStatus::Empty),
{
}

/// The wind readout: compass glyph, high-wind warning, scaled or
/// overridden speed color, and the unit-aware speed.
#[derive(Debug, PartialEq, Default)]
pub struct WindSpeed {
    pub display_mode: Option<DisplayMode>,
    pub style: ScaledColor,
}

/// The compass-direction events: the bucket glyph for a reported
/// direction, else a mode-specific fallback; the plain-Unicode mode
/// appends a variation selector.
pub open spec fn wind_dir_evs(mode: DisplayMode, deg: Option<i32>) -> Seq<EventV> {
    let icon: Seq<char> = match deg {
        Option::Some(d) => spec_wind_dir(mode, wind_dir_index(d as int)),
        Option::None => match mode {
            DisplayMode::NerdFonts => "\u{e3a9}"@,
            _ => Seq::empty(),
        },
    };
    if mode is Unicode {
        seq![EventV::Text(icon + "\u{fe0f}"@)]
    } else {
        seq![EventV::Text(icon)]
    }
}

/// The unit name printed after a wind speed.
pub open spec fn spec_wind_unit(units: UnitMode) -> Seq<char> {
    match units {
        UnitMode::Standard => "m/s"@,
        UnitMode::Metric => "km/h"@,
        UnitMode::Imperial => "mph"@,
    }
}

fn wind_unit_str(units: UnitMode) -> (r: &'static str)
    ensures
        r@ == spec_wind_unit(units),
{
    match units {
        UnitMode::Standard => "m/s",
        UnitMode::Metric => "km/h",
        UnitMode::Imperial => "mph",
    }
}

/// The high-wind warning glyph.
pub open spec fn spec_high_wind_glyph(mode: DisplayMode) -> Seq<char> {
    match mode {
        DisplayMode::NerdFonts => "\u{e34b} "@,
        DisplayMode::Unicode => " \u{1f32c} "@,
        DisplayMode::Ascii => Seq::empty(),
    }
}

fn high_wind_glyph_str(mode: DisplayMode) -> (r: &'static str)
    ensures
        r@ == spec_high_wind_glyph(mode),
{
    proof {
        reveal_strlit("");
    }
    match mode {
        DisplayMode::NerdFonts => "\u{e34b} ",
        DisplayMode::Unicode => " \u{1f32c} ",
        DisplayMode::Ascii => "",
    }
}

impl WindSpeed {
    /// The events of the wind readout for reported wind data: the
    /// speed is printed in the display unit, while the color scales
    /// over the km/h-normalized value.
    pub open spec fn wind_evs(self, conf: ConfV, w: Wind) -> Seq<EventV> {
        let speed = crate::scale::display_speed(w.speed as int, conf.units);
        wind_dir_evs(conf.display_mode, w.deg) + (if spec_wind_type(speed, conf.units)
            is High {
            seq![EventV::Text(spec_high_wind_glyph(conf.display_mode))]
        } else {
            Seq::empty()
        }) + scaled_style_evs(
            self.style,
            conf.base_style,
            wind_ramp(wind_index(w.speed as int, conf.units)),
        ) + seq![
            EventV::Text(" "@ + fixed1(speed)),
            EventV::SetStyle(conf.base_style),
            EventV::Text(" "@ + spec_wind_unit(conf.units)),
        ]
    }

    /// What rendering this segment does: absent wind data is the
    /// ordinary silently-skipped case.
    pub open spec fn eff(self, conf: ConfV, resp: Response) -> SegEff {
        match resp.current {
            Option::None => SegEff {
                evs: Seq::empty(),
                diags: Seq::empty(),
                res: Err(RenderError::MissingCurrent),
            },
            Option::Some(cur) => {
                match cur.wind {
                    Option::None => SegEff {
                        evs: Seq::empty(),
                        diags: Seq::empty(),
                        res: Ok(RenderStatus::Empty),
                    },
                    Option::Some(w) => SegEff {
                        evs: self.wind_evs(conf, w),
                        diags: Seq::empty(),
                        res: Ok(RenderStatus::Rendered),
                    },
                }
            },
        }
    }

    fn display_wind(&self, out: &mut Sink, w: &Wind, conf: &RenderConf)
        ensures
            final(out)@ == old(out)@ + self.wind_evs(conf@, *w),
    {
        let icon: &'static str = match w.deg {
            Some(d) => wind_dir_str(conf.display_mode, wind_dir_index_exec(d)),
            None => {
                match conf.display_mode {
                    DisplayMode::NerdFonts => "\u{e3a9}",
                    _ => {
                        proof {
                            reveal_strlit("");
                            assert(""@ =~= Seq::<char>::empty());
                        }
                        ""
                    },
                }
            },
        };
        if let DisplayMode::Unicode = conf.display_mode {
            let mut t: String = icon.to_owned();
            t.append("\u{fe0f}");
            out.text(t);
        } else {
            out.text_str(icon);
        }
        let speed = crate::scale::display_speed_h(w.speed, conf.units);
        if let crate::WindType::High = get_wind_type(speed, conf.units) {
            out.text_str(high_wind_glyph_str(conf.display_mode));
        }
        match &self.style {
            ScaledColor::Scaled => {
                let c = wind_color(w.speed, conf.units);
                out.set_style(conf.base_style.with_fg(TextColor::Ansi256(c)));
            },
            ScaledColor::Fixed(Some(st)) => {
                out.set_style(*st);
            },
            ScaledColor::Fixed(None) => {},
        }
        let mut t: String = " ".to_owned();
        t.append(fixed1_string(speed).as_str());
        out.text(t);
        out.set_style(conf.base_style);
        let mut u: String = " ".to_owned();
        u.append(wind_unit_str(conf.units));
        out.text(u);
        proof {
            reveal_strlit(" ");
            assert(out@ =~~= old(out)@ + self.wind_evs(conf@, *w));
        }
    }

    fn render(&self, out: &mut Sink, conf: &RenderConf, resp: &Response) -> (r: Result<
        RenderStatus,
        RenderError,
    >)
        ensures
            final(out)@ == old(out)@ + self.eff(conf@, *resp).evs,
            r == self.eff(conf@, *resp).res,
    {
        let cur = match resp.as_current() {
            Ok(c) => c,
            Err(e) => {
                proof {
                    assert(out@ =~= old(out)@ + self.eff(conf@, *resp).evs);
                }
                return Err(e);
            },
        };
        match &cur.wind {
            Some(w) => {
                self.display_wind(out, w, conf);
                proof {
                    assert(out@ =~= old(out)@ + self.eff(conf@, *resp).evs);
                }
                Ok(RenderStatus::Rendered)
            },
            None => {
                proof {
                    assert(out@ =~= old(out)@ + self.eff(conf@, *resp).evs);
                }
                Ok(RenderStatus::Empty)
            },
        }
    }
}

/// The spacer between a forecast entry's icon and its temperature.
pub open spec fn spec_icon_spacer(mode: DisplayMode) -> Seq<char> {
    match mode {
        DisplayMode::NerdFonts => "  "@,
        DisplayMode::Unicode => " "@,
        DisplayMode::Ascii => Seq::empty(),
    }
}

fn icon_spacer_str(mode: DisplayMode) -> (r: &'static str)
    ensures
        r@ == spec_icon_spacer(mode),
{
    proof {
        reveal_strlit("");
        assert(""@ =~= Seq::<char>::empty());
    }
    match mode {
        DisplayMode::NerdFonts => "  ",
        DisplayMode::Unicode => " ",
        DisplayMode::Ascii => "",
    }
}

/// The daily forecast: one entry per day, starting at tomorrow, up to
/// a configurable day count; days lacking the tuple-shaped
/// temperature are silently skipped one by one.
#[derive(Debug, PartialEq)]
pub struct DailyForecast {
    pub display_mode: Option<DisplayMode>,
    pub temp_style: ScaledColor,
    pub style: Option<Style>,
    pub days: u8,
}

impl Default for DailyForecast {
    fn default() -> (r: Self)
        ensures
            r == (DailyForecast {
                display_mode: None,
                temp_style: ScaledColor::Scaled,
                style: None,
                days: 3,
            }),
    {
        DailyForecast { display_mode: None, temp_style: ScaledColor::Scaled, style: None, days: 3 }
    }
}

impl DailyForecast {
    /// The events of one qualifying forecast day.
    pub open spec fn day_evs(
        self,
        conf: ConfV,
        tz: int,
        day: WeatherData,
        t: crate::api::one_call::TempValues,
        first: bool,
    ) -> Seq<EventV> {
        seq![
            EventV::Text(
                if first {
                    " "@
                } else {
                    "   "@
                },
            ),
            EventV::Text(
                or_empty(strftime_localized_of(day.dt as int, tz, "%a"@, conf.locale)) + " "@,
            ),
        ] + icon_evs(
            conf.display_mode,
            conf.units,
            self.style,
            false,
            Some(Wind { speed: day.wind_speed, deg: day.wind_deg, gale: day.wind_gust }),
            day.weather[0].id,
        ) + seq![EventV::Text(spec_icon_spacer(conf.display_mode))] + temp_value_evs(
            self.temp_style,
            t.day as int,
            conf.base_style,
            conf.units,
        ) + seq![EventV::SetStyle(conf.base_style)]
    }

    /// The events, diagnostics, and whether anything was emitted, for
    /// the days from `i` (exclusive of today at index zero) up to
    /// `end`.
    pub open spec fn days_eff(
        self,
        conf: ConfV,
        tz: int,
        days: Seq<WeatherData>,
        i: int,
        end: int,
        first: bool,
    ) -> (Seq<EventV>, Seq<Diagnostic>, bool)
        decreases end - i,
    {
        if i >= end {
            (Seq::empty(), Seq::empty(), false)
        } else {
            match days[i].temp {
                ForecastTemp::Values(t) => {
                    let rest = self.days_eff(conf, tz, days, i + 1, end, false);
                    (
                        self.day_evs(conf, tz, days[i], t, first) + rest.0,
                        icon_diags(conf.display_mode, false, days[i].weather[0].id) + rest.1,
                        true,
                    )
                },
                _ => self.days_eff(conf, tz, days, i + 1, end, first),
            }
        }
    }

    /// What rendering this segment does: the base style, then the
    /// qualifying days; with nothing emitted the status is empty.
    pub open spec fn eff(self, conf: ConfV, resp: Response) -> SegEff {
        match resp.forecast {
            Option::None => SegEff {
                evs: Seq::empty(),
                diags: Seq::empty(),
                res: Err(RenderError::MissingForecast),
            },
            Option::Some(f) => {
                let days: Seq<WeatherData> = match f.daily {
                    Option::Some(d) => d@,
                    Option::None => Seq::empty(),
                };
                let end: int = if days.len() < 1 + self.days as int {
                    days.len() as int
                } else {
                    1 + self.days as int
                };
                let body = self.days_eff(conf, f.timezone_offset as int, days, 1, end, true);
                SegEff {
                    evs: seq![EventV::SetStyle(conf.base_style)] + body.0,
                    diags: body.1,
                    res: Ok(
                        if body.2 {
                            RenderStatus::Rendered
                        } else {
                            RenderStatus::Empty
                        },
                    ),
                }
            },
        }
    }

    fn emit_day(
        &self,
        out: &mut Sink,
        diags: &mut Vec<Diagnostic>,
        conf: &RenderConf,
        tz: i32,
        day: &WeatherData,
        t_day: i32,
        first: bool,
    )
        requires
            day.weather.len() >= 1,
            day.temp matches ForecastTemp::Values(t) && t.day == t_day,
        ensures
            final(out)@ == old(out)@ + self.day_evs(
                conf@,
                tz as int,
                *day,
                day.temp->Values_0,
                first,
            ),
            final(diags)@ == old(diags)@ + icon_diags(conf@.display_mode, false, day.weather[0].id),
    {
        if first {
            out.text_str(" ");
        } else {
            out.text_str("   ");
        }
        let txt = strftime_localized(day.dt, tz, "%a", conf.locale.as_str());
        emit_opt_text(out, txt, " ");
        let wind = Wind { speed: day.wind_speed, deg: day.wind_deg, gale: day.wind_gust };
        render_icon(
            out,
            diags,
            conf.display_mode,
            conf.units,
            &self.style,
            false,
            Some(wind),
            day.weather[0].id,
        );
        out.text_str(icon_spacer_str(conf.display_mode));
        display_temp(&self.temp_style, out, t_day, conf.base_style, conf.units);
        out.set_style(conf.base_style);
        proof {
            assert(out@ =~= old(out)@ + self.day_evs(
                conf@,
                tz as int,
                *day,
                day.temp->Values_0,
                first,
            ));
        }
    }

    fn render(
        &self,
        out: &mut Sink,
        diags: &mut Vec<Diagnostic>,
        conf: &RenderConf,
        resp: &Response,
    ) -> (r: Result<RenderStatus, RenderError>)
        requires
            resp.wf(),
        ensures
            final(out)@ == old(out)@ + self.eff(conf@, *resp).evs,
            final(diags)@ == old(diags)@ + self.eff(conf@, *resp).diags,
            r == self.eff(conf@, *resp).res,
    {
        let f = match resp.as_forecast() {
            Ok(f) => f,
            Err(e) => {
                proof {
                    assert(out@ =~= old(out)@ + self.eff(conf@, *resp).evs);
                    assert(diags@ =~= old(diags)@ + self.eff(conf@, *resp).diags);
                }
                return Err(e);
            },
        };
        let empty_days: Vec<WeatherData> = Vec::new();
        let daily: &Vec<WeatherData> = match &f.daily {
            Some(d) => d,
            None => &empty_days,
        };
        let ghost days = daily@;
        out.set_style(conf.base_style);
        let limit: usize = 1 + self.days as usize;
        let end: usize = if daily.len() < limit {
            daily.len()
        } else {
            limit
        };
        let tz = f.timezone_offset;
        let ghost total = self.days_eff(conf@, tz as int, days, 1, end as int, true);
        let ghost out1 = out@;
        let ghost diags1 = diags@;
        let mut first: bool = true;
        let mut any: bool = false;
        let mut i: usize = 1;
        proof {
            assert(out@ + self.days_eff(conf@, tz as int, days, 1, end as int, true).0 =~= out1
                + total.0);
        }
        while i < end
            invariant
                1 <= i,
                i <= end || (i == 1 && end <= 1),
                end <= days.len(),
                daily@ == days,
                self.days_eff(conf@, tz as int, days, 1, end as int, true) == total,
                out@ + self.days_eff(conf@, tz as int, days, i as int, end as int, first).0 == out1
                    + total.0,
                diags@ + self.days_eff(conf@, tz as int, days, i as int, end as int, first).1
                    == diags1 + total.1,
                total.2 == (any || self.days_eff(
                    conf@,
                    tz as int,
                    days,
                    i as int,
                    end as int,
                    first,
                ).2),
                forall|j: int| 0 <= j < days.len() ==> #[trigger] days[j].weather.len() >= 1,
            decreases end - i,
        {
            let ghost pre_rem = self.days_eff(conf@, tz as int, days, i as int, end as int, first);
            let day = &daily[i];
            match &day.temp {
                ForecastTemp::Values(t) => {
                    let t_day = t.day;
                    self.emit_day(out, diags, conf, tz, day, t_day, first);
                    proof {
                        let rest = self.days_eff(
                            conf@,
                            tz as int,
                            days,
                            i + 1,
                            end as int,
                            false,
                        );
                        assert(pre_rem.0 =~= self.day_evs(
                            conf@,
                            tz as int,
                            days[i as int],
                            days[i as int].temp->Values_0,
                            first,
                        ) + rest.0);
                        assert(out@ + rest.0 =~= out1 + total.0);
                        assert(diags@ + rest.1 =~= diags1 + total.1);
                    }
                    first = false;
                    any = true;
                },
                _ => {
                },
            }
            i += 1;
        }
        proof {
            assert(self.days_eff(conf@, tz as int, days, i as int, end as int, first).0
                =~= Seq::<EventV>::empty());
            assert(out@ =~= old(out)@ + self.eff(conf@, *resp).evs);
            assert(diags@ =~= old(diags)@ + self.eff(conf@, *resp).diags);
        }
        if any {
            Ok(RenderStatus::Rendered)
        } else {
            Ok(RenderStatus::Empty)
        }
    }
}

/// The hourly forecast: entries taken with a configurable step and
/// count, starting just after the current hour; hours lacking the
/// scalar-shaped temperature are silently skipped one by one.
#[derive(Debug, PartialEq)]
pub struct HourlyForecast {
    pub display_mode: Option<DisplayMode>,
    pub temp_style: ScaledColor,
    pub style: Option<Style>,
    pub step: u8,
    pub hours: u8,
}

impl Default for HourlyForecast {
    fn default() -> (r: Self)
        ensures
            r == (HourlyForecast {
                display_mode: None,
                temp_style: ScaledColor::Scaled,
                style: None,
                step: 2,
                hours: 3,
            }),
    {
        HourlyForecast {
            display_mode: None,
            temp_style: ScaledColor::Scaled,
            style: None,
            step: 2,
            hours: 3,
        }
    }
}

/// The day/night estimate of a forecast hour, from the current
/// slice's sunrise and sunset when both are reported, else daytime.
pub open spec fn spec_hour_night(hour_dt: int, tz: int, cur: WeatherData) -> bool {
    match (cur.sunset, cur.sunrise) {
        (Option::Some(ss), Option::Some(sr)) => spec_hourly_night(
            hour_dt,
            tz,
            cur.dt as int,
            sr as int,
            ss as int,
        ),
        _ => false,
    }
}

impl HourlyForecast {
    /// The events of one qualifying forecast hour.
    pub open spec fn hour_evs(
        self,
        conf: ConfV,
        tz: int,
        cur: WeatherData,
        hour: WeatherData,
        t: int,
        first: bool,
    ) -> Seq<EventV> {
        let night = spec_hour_night(hour.dt as int, tz, cur);
        seq![
            EventV::Text(
                if first {
                    " "@
                } else {
                    "   "@
                },
            ),
            EventV::Text(or_empty(strftime_of(hour.dt as int, tz, "%k"@)) + "h "@),
        ] + icon_evs(
            conf.display_mode,
            conf.units,
            self.style,
            night,
            Some(Wind { speed: hour.wind_speed, deg: hour.wind_deg, gale: hour.wind_gust }),
            hour.weather[0].id,
        ) + seq![EventV::Text(spec_icon_spacer(conf.display_mode))] + temp_value_evs(
            self.temp_style,
            t,
            conf.base_style,
            conf.units,
        ) + seq![EventV::SetStyle(conf.base_style)]
    }

    /// The events, diagnostics, and whether anything was emitted, for
    /// the hour entries from step index `i` on.
    pub open spec fn hours_eff(
        self,
        conf: ConfV,
        tz: int,
        cur: WeatherData,
        list: Seq<WeatherData>,
        i: int,
        step: int,
        hours: int,
        first: bool,
    ) -> (Seq<EventV>, Seq<Diagnostic>, bool)
        decreases hours - i,
    {
        if !(0 <= i && i * step + 1 < list.len() && i < hours) {
            (Seq::empty(), Seq::empty(), false)
        } else {
            let hour = list[i * step + 1];
            match hour.temp {
                ForecastTemp::Value(t) => {
                    let rest = self.hours_eff(conf, tz, cur, list, i + 1, step, hours, false);
                    (
                        self.hour_evs(conf, tz, cur, hour, t as int, first) + rest.0,
                        icon_diags(
                            conf.display_mode,
                            spec_hour_night(hour.dt as int, tz, cur),
                            hour.weather[0].id,
                        ) + rest.1,
                        true,
                    )
                },
                _ => self.hours_eff(conf, tz, cur, list, i + 1, step, hours, first),
            }
        }
    }

    /// What rendering this segment does: the base style, then the
    /// qualifying hours; with nothing emitted the status is empty.
    pub open spec fn eff(self, conf: ConfV, resp: Response) -> SegEff {
        match resp.forecast {
            Option::None => SegEff {
                evs: Seq::empty(),
                diags: Seq::empty(),
                res: Err(RenderError::MissingForecast),
            },
            Option::Some(f) => {
                let list: Seq<WeatherData> = match f.hourly {
                    Option::Some(h) => h@,
                    Option::None => Seq::empty(),
                };
                let step: int = if self.step as int >= 1 {
                    self.step as int
                } else {
                    1
                };
                let body = self.hours_eff(
                    conf,
                    f.timezone_offset as int,
                    f.current,
                    list,
                    0,
                    step,
                    self.hours as int,
                    true,
                );
                SegEff {
                    evs: seq![EventV::SetStyle(conf.base_style)] + body.0,
                    diags: body.1,
                    res: Ok(
                        if body.2 {
                            RenderStatus::Rendered
                        } else {
                            RenderStatus::Empty
                        },
                    ),
                }
            },
        }
    }

    #[verifier::rlimit(100)]
    fn emit_hour(
        &self,
        out: &mut Sink,
        diags: &mut Vec<Diagnostic>,
        conf: &RenderConf,
        tz: i32,
        cur: &WeatherData,
        hour: &WeatherData,
        t: i32,
        first: bool,
    )
        requires
            hour.weather.len() >= 1,
            hour.temp == ForecastTemp::Value(t),
        ensures
            final(out)@ == old(out)@ + self.hour_evs(conf@, tz as int, *cur, *hour, t as int, first),
            final(diags)@ == old(diags)@ + icon_diags(
                conf@.display_mode,
                spec_hour_night(hour.dt as int, tz as int, *cur),
                hour.weather[0].id,
            ),
    {
        if first {
            out.text_str(" ");
        } else {
            out.text_str("   ");
        }
        let txt = strftime_fixed(hour.dt, tz, "%k");
        emit_opt_text(out, txt, "h ");
        let night: bool = match (cur.sunset, cur.sunrise) {
            (Some(ss), Some(sr)) => hourly_night(hour.dt, tz, cur.dt, sr, ss),
            _ => false,
        };
        let wind = Wind { speed: hour.wind_speed, deg: hour.wind_deg, gale: hour.wind_gust };
        render_icon(
            out,
            diags,
            conf.display_mode,
            conf.units,
            &self.style,
            night,
            Some(wind),
            hour.weather[0].id,
        );
        out.text_str(icon_spacer_str(conf.display_mode));
        display_temp(&self.temp_style, out, t, conf.base_style, conf.units);
        out.set_style(conf.base_style);
        proof {
            assert(out@ =~= old(out)@ + self.hour_evs(
                conf@,
                tz as int,
                *cur,
                *hour,
                t as int,
                first,
            ));
        }
    }

    #[verifier::rlimit(100)]
    fn render(
        &self,
        out: &mut Sink,
        diags: &mut Vec<Diagnostic>,
        conf: &RenderConf,
        resp: &Response,
    ) -> (r: Result<RenderStatus, RenderError>)
        requires
            resp.wf(),
        ensures
            final(out)@ == old(out)@ + self.eff(conf@, *resp).evs,
            final(diags)@ == old(diags)@ + self.eff(conf@, *resp).diags,
            r == self.eff(conf@, *resp).res,
    {
        let f = match resp.as_forecast() {
            Ok(f) => f,
            Err(e) => {
                proof {
                    assert(out@ =~= old(out)@ + self.eff(conf@, *resp).evs);
                    assert(diags@ =~= old(diags)@ + self.eff(conf@, *resp).diags);
                }
                return Err(e);
            },
        };
        let empty_hours: Vec<WeatherData> = Vec::new();
        let hourly: &Vec<WeatherData> = match &f.hourly {
            Some(h) => h,
            None => &empty_hours,
        };
        let ghost list = hourly@;
        out.set_style(conf.base_style);
        let tz = f.timezone_offset;
        let hours: usize = self.hours as usize;
        let step: usize = if self.step >= 1 {
            self.step as usize
        } else {
            1
        };
        let ghost total = self.hours_eff(
            conf@,
            tz as int,
            f.current,
            list,
            0,
            step as int,
            hours as int,
            true,
        );
        let ghost out1 = out@;
        let ghost diags1 = diags@;
        let mut first: bool = true;
        let mut any: bool = false;
        let mut i: usize = 0;
        let mut idx: usize = 1;
        proof {
            assert(out@ + total.0 =~= out1 + total.0);
        }
        while i < hours && idx < hourly.len()
            invariant
                i <= hours,
                hours <= 255,
                step <= 255,
                idx as int == i as int * step as int + 1,
                idx <= 65026,
                hourly@ == list,
                step >= 1,
                self.hours_eff(conf@, tz as int, f.current, list, 0, step as int, hours as int, true)
                    == total,
                out@ + self.hours_eff(
                    conf@,
                    tz as int,
                    f.current,
                    list,
                    i as int,
                    step as int,
                    hours as int,
                    first,
                ).0 == out1 + total.0,
                diags@ + self.hours_eff(
                    conf@,
                    tz as int,
                    f.current,
                    list,
                    i as int,
                    step as int,
                    hours as int,
                    first,
                ).1 == diags1 + total.1,
                total.2 == (any || self.hours_eff(
                    conf@,
                    tz as int,
                    f.current,
                    list,
                    i as int,
                    step as int,
                    hours as int,
                    first,
                ).2),
                forall|j: int| 0 <= j < list.len() ==> #[trigger] list[j].weather.len() >= 1,
            decreases hours - i,
        {
            let ghost pre_rem = self.hours_eff(
                conf@,
                tz as int,
                f.current,
                list,
                i as int,
                step as int,
                hours as int,
                first,
            );
            let hour = &hourly[idx];
            match &hour.temp {
                ForecastTemp::Value(t) => {
                    let tv = *t;
                    self.emit_hour(out, diags, conf, tz, &f.current, hour, tv, first);
                    proof {
                        let rest = self.hours_eff(
                            conf@,
                            tz as int,
                            f.current,
                            list,
                            i + 1,
                            step as int,
                            hours as int,
                            false,
                        );
                        assert(pre_rem.0 =~= self.hour_evs(
                            conf@,
                            tz as int,
                            f.current,
                            list[i as int * step as int + 1],
                            tv as int,
                            first,
                        ) + rest.0);
                        assert(out@ + rest.0 =~= out1 + total.0);
                        assert(diags@ + rest.1 =~= diags1 + total.1);
                    }
                    first = false;
                    any = true;
                },
                _ => {
                },
            }
            proof {
                assert((i as int + 1) * step as int <= 65025 && (i as int + 1) * step as int
                    == i as int * step as int + step as int) by (nonlinear_arith)
                    requires
                        0 <= i < 255,
                        1 <= step <= 255,
                ;
            }
            i += 1;
            idx += step;
        }
        proof {
            assert(!(0 <= i as int && i as int * step as int + 1 < list.len() && (i as int) < hours as int));
            assert(self.hours_eff(
                conf@,
                tz as int,
                f.current,
                list,
                i as int,
                step as int,
                hours as int,
                first,
            ).0 =~= Seq::<EventV>::empty());
            assert(out@ =~= old(out)@ + self.eff(conf@, *resp).evs);
            assert(diags@ =~= old(diags)@ + self.eff(conf@, *resp).diags);
        }
        if any {
            Ok(RenderStatus::Rendered)
        } else {
            Ok(RenderStatus::Empty)
        }
    }
}

/// The air quality readout: the most recent index of the pollution
/// record's time series, with a scaled or overridden color. The glyph
/// is the plain label in every repertoire, and the first series entry
/// is taken as the current measurement; both are this library's own
/// documented choices, in the spirit of the humidity segment.
#[derive(Debug, PartialEq, Default)]
pub struct Pollution {
    pub display_mode: Option<DisplayMode>,
    pub style: ScaledColor,
}

impl Pollution {
    /// What rendering this segment does: an empty series is the
    /// silently-skipped case.
    pub open spec fn eff(self, conf: ConfV, resp: Response) -> SegEff {
        match resp.pollution {
            Option::None => SegEff {
                evs: Seq::empty(),
                diags: Seq::empty(),
                res: Err(RenderError::MissingPollution),
            },
            Option::Some(p) => {
                if p.list.len() == 0 {
                    SegEff {
                        evs: Seq::empty(),
                        diags: Seq::empty(),
                        res: Ok(RenderStatus::Empty),
                    }
                } else {
                    let aqi = p.list[0].main.aqi;
                    SegEff {
                        evs: seq![EventV::Text("AQI"@)] + scaled_style_evs(
                            self.style,
                            conf.base_style,
                            aqi_ramp(aqi_index(aqi as int)),
                        ) + seq![
                            EventV::Text(" "@ + u_dec(aqi as nat)),
                            EventV::SetStyle(conf.base_style),
                        ],
                        diags: Seq::empty(),
                        res: Ok(RenderStatus::Rendered),
                    }
                }
            },
        }
    }

    fn render(&self, out: &mut Sink, conf: &RenderConf, resp: &Response) -> (r: Result<
        RenderStatus,
        RenderError,
    >)
        ensures
            final(out)@ == old(out)@ + self.eff(conf@, *resp).evs,
            r == self.eff(conf@, *resp).res,
    {
        let p = match resp.as_pollution() {
            Ok(p) => p,
            Err(e) => {
                proof {
                    assert(out@ =~= old(out)@ + self.eff(conf@, *resp).evs);
                }
                return Err(e);
            },
        };
        if p.list.len() == 0 {
            proof {
                assert(out@ =~= old(out)@ + self.eff(conf@, *resp).evs);
            }
            return Ok(RenderStatus::Empty);
        }
        let aqi = p.list[0].main.aqi;
        out.text_str("AQI");
        match &self.style {
            ScaledColor::Scaled => {
                let c = aqi_color(aqi);
                out.set_style(conf.base_style.with_fg(TextColor::Ansi256(c)));
            },
            ScaledColor::Fixed(Some(st)) => {
                out.set_style(*st);
            },
            ScaledColor::Fixed(None) => {},
        }
        let mut t: String = " ".to_owned();
        t.append(u64_dec(aqi as u64).as_str());
        out.text(t);
        out.set_style(conf.base_style);
        proof {
            reveal_strlit(" ");
            assert(out@ =~= old(out)@ + self.eff(conf@, *resp).evs);
        }
        Ok(RenderStatus::Rendered)
    }
}

/// Whether a lowercased alert tag has a glyph mapping.
pub open spec fn alert_tag_known(low: Seq<char>) -> bool {
    low == "flood"@ || low == "wind"@ || low == "rain"@ || low == "thunderstorm"@ || low == "fog"@
        || low == "coastal event"@ || low == "extreme temperature value"@ || low == "snow/ice"@
}

/// The glyph of a known lowercased alert tag, per display mode (the
/// ASCII repertoire shows no alert glyphs).
pub open spec fn spec_tag_glyph(mode: DisplayMode, low: Seq<char>) -> Seq<char> {
    if mode is Ascii {
        Seq::empty()
    } else if low == "flood"@ {
        if mode is NerdFonts {
            "\u{e375}  "@
        } else {
            "\u{1f4a7}\u{fe0f}  "@
        }
    } else if low == "wind"@ {
        if mode is NerdFonts {
            "\u{e34b}  "@
        } else {
            "\u{1f32c}\u{fe0f}  "@
        }
    } else if low == "rain"@ {
        if mode is NerdFonts {
            "\u{e318}  "@
        } else {
            "\u{1f327}\u{fe0f}  "@
        }
    } else if low == "thunderstorm"@ {
        if mode is NerdFonts {
            "\u{e31d}  "@
        } else {
            "\u{1f329}\u{fe0f}  "@
        }
    } else if low == "fog"@ {
        if mode is NerdFonts {
            "\u{e313}  "@
        } else {
            "\u{1f32b}\u{fe0f}  "@
        }
    } else if low == "coastal event"@ {
        "\u{1f3d6}\u{fe0f}  "@
    } else if low == "extreme temperature value"@ {
        if mode is NerdFonts {
            "\u{e350} "@
        } else {
            "\u{1f321}\u{fe0f}  "@
        }
    } else if low == "snow/ice"@ {
        if mode is NerdFonts {
            "\u{e36f} "@
        } else {
            "\u{2744}\u{fe0f}  "@
        }
    } else {
        Seq::empty()
    }
}

/// Emit the glyph of a lowercased tag, or report the tag as unknown.
fn emit_tag(out: &mut Sink, diags: &mut Vec<Diagnostic>, mode: DisplayMode, low: &str)
    ensures
        final(out)@ == old(out)@ + (if alert_tag_known(low@) {
            seq![EventV::Text(spec_tag_glyph(mode, low@))]
        } else {
            Seq::<EventV>::empty()
        }),
        final(diags)@ == old(diags)@ + (if alert_tag_known(low@) {
            Seq::<Diagnostic>::empty()
        } else {
            seq![Diagnostic::UnknownAlertTag]
        }),
{
    let known = str_eq(low, "flood") || str_eq(low, "wind") || str_eq(low, "rain") || str_eq(
        low,
        "thunderstorm",
    ) || str_eq(low, "fog") || str_eq(low, "coastal event") || str_eq(
        low,
        "extreme temperature value",
    ) || str_eq(low, "snow/ice");
    if !known {
        diags.push(Diagnostic::UnknownAlertTag);
        proof {
            assert(out@ =~= old(out)@);
            assert(diags@ =~= old(diags)@ + seq![Diagnostic::UnknownAlertTag]);
        }
        return ;
    }
    if let DisplayMode::Ascii = mode {
        out.text_str("");
        proof {
            reveal_strlit("");
            assert(""@ =~= Seq::<char>::empty());
        }
    } else {
        let nerd: bool = if let DisplayMode::NerdFonts = mode {
            true
        } else {
            false
        };
        let g: &'static str = if str_eq(low, "flood") {
            if nerd {
                "\u{e375}  "
            } else {
                "\u{1f4a7}\u{fe0f}  "
            }
        } else if str_eq(low, "wind") {
            if nerd {
                "\u{e34b}  "
            } else {
                "\u{1f32c}\u{fe0f}  "
            }
        } else if str_eq(low, "rain") {
            if nerd {
                "\u{e318}  "
            } else {
                "\u{1f327}\u{fe0f}  "
            }
        } else if str_eq(low, "thunderstorm") {
            if nerd {
                "\u{e31d}  "
            } else {
                "\u{1f329}\u{fe0f}  "
            }
        } else if str_eq(low, "fog") {
            if nerd {
                "\u{e313}  "
            } else {
                "\u{1f32b}\u{fe0f}  "
            }
        } else if str_eq(low, "coastal event") {
            "\u{1f3d6}\u{fe0f}  "
        } else if str_eq(low, "extreme temperature value") {
            if nerd {
                "\u{e350} "
            } else {
                "\u{1f321}\u{fe0f}  "
            }
        } else {
            if nerd {
                "\u{e36f} "
            } else {
                "\u{2744}\u{fe0f}  "
            }
        };
        out.text_str(g);
    }
    proof {
        assert(out@ =~= old(out)@ + seq![EventV::Text(spec_tag_glyph(mode, low@))]);
        assert(diags@ =~= old(diags)@);
    }
}

/// The glyph events and diagnostics of an alert's tag list from index
/// `i` on: each distinct lowercased tag contributes its glyph once,
/// and each distinct unknown tag one diagnostic.
pub open spec fn tags_eff(
    mode: DisplayMode,
    tags: Seq<String>,
    i: int,
    seen: Seq<Seq<char>>,
) -> (Seq<EventV>, Seq<Diagnostic>)
    decreases tags.len() - i,
{
    if i < 0 || i >= tags.len() {
        (Seq::empty(), Seq::empty())
    } else {
        let low = lower_seq(tags[i]@);
        if seen.contains(low) {
            tags_eff(mode, tags, i + 1, seen)
        } else {
            let rest = tags_eff(mode, tags, i + 1, seen.push(low));
            if alert_tag_known(low) {
                (seq![EventV::Text(spec_tag_glyph(mode, low))] + rest.0, rest.1)
            } else {
                (rest.0, seq![Diagnostic::UnknownAlertTag] + rest.1)
            }
        }
    }
}

proof fn lemma_contains_views(v: Seq<String>, x: Seq<char>)
    ensures
        seq_contains_str(v, x) <==> v.map_values(|s: String| s@).contains(x),
{
    let m = v.map_values(|s: String| s@);
    if seq_contains_str(v, x) {
        let i = choose|i: int| 0 <= i < v.len() && v[i]@ == x;
        assert(m[i] == x);
    }
    if m.contains(x) {
        let i = choose|i: int| 0 <= i < m.len() && m[i] == x;
        assert(v[i]@ == x);
    }
}

/// The countdown warning glyph before an alert's start instant.
pub open spec fn spec_warn_start_glyph(mode: DisplayMode) -> Seq<char> {
    match mode {
        DisplayMode::NerdFonts => "\u{f071} \u{f176}"@,
        DisplayMode::Unicode => "\u{26a0}\u{fe0f} \u{2b06}\u{fe0f} "@,
        DisplayMode::Ascii => Seq::empty(),
    }
}

fn warn_start_glyph_str(mode: DisplayMode) -> (r: &'static str)
    ensures
        r@ == spec_warn_start_glyph(mode),
{
    proof {
        reveal_strlit("");
        assert(""@ =~= Seq::<char>::empty());
    }
    match mode {
        DisplayMode::NerdFonts => "\u{f071} \u{f176}",
        DisplayMode::Unicode => "\u{26a0}\u{fe0f} \u{2b06}\u{fe0f} ",
        DisplayMode::Ascii => "",
    }
}

/// The countdown warning glyph before an alert's end instant.
pub open spec fn spec_warn_end_glyph(mode: DisplayMode) -> Seq<char> {
    match mode {
        DisplayMode::NerdFonts => "\u{f071} \u{f175}"@,
        DisplayMode::Unicode => "\u{26a0}\u{fe0f} \u{2b07}\u{fe0f} "@,
        DisplayMode::Ascii => Seq::empty(),
    }
}

fn warn_end_glyph_str(mode: DisplayMode) -> (r: &'static str)
    ensures
        r@ == spec_warn_end_glyph(mode),
{
    proof {
        reveal_strlit("");
        assert(""@ =~= Seq::<char>::empty());
    }
    match mode {
        DisplayMode::NerdFonts => "\u{f071} \u{f175}",
        DisplayMode::Unicode => "\u{26a0}\u{fe0f} \u{2b07}\u{fe0f} ",
        DisplayMode::Ascii => "",
    }
}

/// The time layout for a countdown boundary: clock time alone on the
/// same calendar day as now (now taken in the universal day), weekday
/// and clock time otherwise.
pub open spec fn spec_countdown_fmt(t: int, now: int, tz: int) -> Seq<char> {
    if civil_day(t, tz) == civil_day(now, 0) {
        "%R"@
    } else {
        "%a %R"@
    }
}

/// One line per active weather alert: deduplicated tag glyphs, the
/// event name, optional description and sender, and start/end
/// countdowns for boundaries still in the future.
#[derive(Debug, PartialEq, Default)]
pub struct Alerts {
    pub display_mode: Option<DisplayMode>,
    pub style: Option<Style>,
    pub description: bool,
    pub sender: bool,
}

impl Alerts {
    /// The leading events of one alert: its one-based number (only
    /// with more than one alert), tag glyphs, and the styled event
    /// name.
    pub open spec fn head_evs(
        self,
        conf: ConfV,
        a: crate::api::one_call::Alert,
        idx: int,
        n: int,
    ) -> Seq<EventV> {
        (if n != 1 {
            seq![EventV::Text(u_dec((idx + 1) as nat) + ". "@)]
        } else {
            Seq::<EventV>::empty()
        }) + tags_eff(conf.display_mode, a.tags@, 0, Seq::empty()).0 + (match self.style {
            Option::Some(st) => seq![
                EventV::SetStyle(st),
                EventV::Text(a.event@),
                EventV::SetStyle(conf.base_style),
            ],
            Option::None => seq![EventV::Text(a.event@)],
        })
    }

    /// The optional description and sender, and the trailing space.
    pub open spec fn meta_evs(self, a: crate::api::one_call::Alert) -> Seq<EventV> {
        (if self.description {
            seq![EventV::Text(": "@ + newline_to_space_spec(a.description@))]
        } else {
            Seq::<EventV>::empty()
        }) + (if self.sender {
            seq![EventV::Text(" ("@ + a.sender_name@ + ")"@)]
        } else {
            Seq::<EventV>::empty()
        }) + seq![EventV::Text(" "@)]
    }

    /// The start and end countdowns, each present only while that
    /// boundary is still in the future.
    pub open spec fn countdown_evs(self, conf: ConfV, tz: int, a: crate::api::one_call::Alert) -> Seq<
        EventV,
    > {
        (if a.start as int > conf.now {
            seq![
                EventV::Text(spec_warn_start_glyph(conf.display_mode)),
                EventV::Text(
                    or_empty(
                        strftime_localized_of(
                            a.start as int,
                            tz,
                            spec_countdown_fmt(a.start as int, conf.now, tz),
                            conf.locale,
                        ),
                    ) + " "@,
                ),
            ]
        } else {
            Seq::<EventV>::empty()
        }) + (if a.end as int > conf.now {
            seq![
                EventV::Text(spec_warn_end_glyph(conf.display_mode)),
                EventV::Text(
                    or_empty(
                        strftime_localized_of(
                            a.end as int,
                            tz,
                            spec_countdown_fmt(a.end as int, conf.now, tz),
                            conf.locale,
                        ),
                    ) + " "@,
                ),
            ]
        } else {
            Seq::<EventV>::empty()
        })
    }

    /// All events of one alert.
    pub open spec fn alert_evs(
        self,
        conf: ConfV,
        tz: int,
        a: crate::api::one_call::Alert,
        idx: int,
        n: int,
    ) -> Seq<EventV> {
        self.head_evs(conf, a, idx, n) + self.meta_evs(a) + self.countdown_evs(conf, tz, a)
    }

    /// The events and diagnostics of the alerts from index `i` on.
    pub open spec fn alerts_eff(
        self,
        conf: ConfV,
        tz: int,
        alerts: Seq<crate::api::one_call::Alert>,
        i: int,
    ) -> (Seq<EventV>, Seq<Diagnostic>)
        decreases alerts.len() - i,
    {
        if i < 0 || i >= alerts.len() {
            (Seq::empty(), Seq::empty())
        } else {
            let rest = self.alerts_eff(conf, tz, alerts, i + 1);
            (
                self.alert_evs(conf, tz, alerts[i], i, alerts.len() as int) + rest.0,
                tags_eff(conf.display_mode, alerts[i].tags@, 0, Seq::empty()).1 + rest.1,
            )
        }
    }

    /// What rendering this segment does: with no active alerts the
    /// status is empty.
    pub open spec fn eff(self, conf: ConfV, resp: Response) -> SegEff {
        match resp.forecast {
            Option::None => SegEff {
                evs: Seq::empty(),
                diags: Seq::empty(),
                res: Err(RenderError::MissingForecast),
            },
            Option::Some(f) => {
                let alerts: Seq<crate::api::one_call::Alert> = match f.alerts {
                    Option::Some(a) => a@,
                    Option::None => Seq::empty(),
                };
                let body = self.alerts_eff(conf, f.timezone_offset as int, alerts, 0);
                SegEff {
                    evs: body.0,
                    diags: body.1,
                    res: Ok(
                        if alerts.len() > 0 {
                            RenderStatus::Rendered
                        } else {
                            RenderStatus::Empty
                        },
                    ),
                }
            },
        }
    }

    /// Emit one alert's deduplicated tag glyphs.
    fn emit_tags(
        &self,
        out: &mut Sink,
        diags: &mut Vec<Diagnostic>,
        conf: &RenderConf,
        tags: &Vec<String>,
    )
        ensures
            final(out)@ == old(out)@ + tags_eff(conf@.display_mode, tags@, 0, Seq::empty()).0,
            final(diags)@ == old(diags)@ + tags_eff(conf@.display_mode, tags@, 0, Seq::empty()).1,
    {
        let ghost mode = conf@.display_mode;
        let ghost total = tags_eff(mode, tags@, 0, Seq::empty());
        let ghost out1 = out@;
        let ghost diags1 = diags@;
        let mut seen: Vec<String> = Vec::new();
        let mut j: usize = 0;
        proof {
            assert(seen@.map_values(|s: String| s@) =~= Seq::<Seq<char>>::empty());
        }
        while j < tags.len()
            invariant
                j <= tags@.len(),
                tags_eff(mode, tags@, 0, Seq::empty()) == total,
                mode == conf@.display_mode,
                out@ + tags_eff(mode, tags@, j as int, seen@.map_values(|s: String| s@)).0 == out1
                    + total.0,
                diags@ + tags_eff(mode, tags@, j as int, seen@.map_values(|s: String| s@)).1
                    == diags1 + total.1,
            decreases tags@.len() - j,
        {
            let ghost seenv = seen@.map_values(|s: String| s@);
            let low = ascii_lower(tags[j].as_str());
            proof {
                lemma_contains_views(seen@, low@);
            }
            if !vec_contains_str(&seen, low.as_str()) {
                let ghost lowv = low@;
                emit_tag(out, diags, conf.display_mode, low.as_str());
                seen.push(low);
                proof {
                    assert(seen@.map_values(|s: String| s@) =~= seenv.push(lowv));
                }
            }
            j += 1;
        }
        proof {
            assert(tags_eff(mode, tags@, j as int, seen@.map_values(|s: String| s@)).0
                =~= Seq::<EventV>::empty());
            assert(out@ =~= out1 + total.0);
            assert(diags@ =~= diags1 + total.1);
        }
    }

    /// Emit one alert's description, sender and trailing space.
    fn emit_meta(&self, out: &mut Sink, a: &crate::api::one_call::Alert)
        ensures
            final(out)@ == old(out)@ + self.meta_evs(*a),
    {
        if self.description {
            let mut t: String = ": ".to_owned();
            t.append(newline_to_space(a.description.as_str()).as_str());
            out.text(t);
        }
        if self.sender {
            let mut t: String = " (".to_owned();
            t.append(a.sender_name.as_str());
            t.append(")");
            out.text(t);
        }
        out.text_str(" ");
        proof {
            assert(out@ =~= old(out)@ + self.meta_evs(*a));
        }
    }

    /// Emit one alert's start and end countdowns.
    fn emit_countdowns(
        &self,
        out: &mut Sink,
        conf: &RenderConf,
        tz: i32,
        a: &crate::api::one_call::Alert,
    )
        ensures
            final(out)@ == old(out)@ + self.countdown_evs(conf@, tz as int, *a),
    {
        if a.start > conf.now {
            out.text_str(warn_start_glyph_str(conf.display_mode));
            let fmt: &'static str = if crate::timeutil::same_civil_day(a.start, tz, conf.now, 0) {
                "%R"
            } else {
                "%a %R"
            };
            let txt = strftime_localized(a.start, tz, fmt, conf.locale.as_str());
            emit_opt_text(out, txt, " ");
        }
        if a.end > conf.now {
            out.text_str(warn_end_glyph_str(conf.display_mode));
            let fmt: &'static str = if crate::timeutil::same_civil_day(a.end, tz, conf.now, 0) {
                "%R"
            } else {
                "%a %R"
            };
            let txt = strftime_localized(a.end, tz, fmt, conf.locale.as_str());
            emit_opt_text(out, txt, " ");
        }
        proof {
            assert(out@ =~= old(out)@ + self.countdown_evs(conf@, tz as int, *a));
        }
    }

    /// Emit one whole alert.
    fn emit_alert(
        &self,
        out: &mut Sink,
        diags: &mut Vec<Diagnostic>,
        conf: &RenderConf,
        tz: i32,
        a: &crate::api::one_call::Alert,
        idx: usize,
        n: usize,
    )
        requires
            idx < n,
        ensures
            final(out)@ == old(out)@ + self.alert_evs(conf@, tz as int, *a, idx as int, n as int),
            final(diags)@ == old(diags)@ + tags_eff(conf@.display_mode, a.tags@, 0, Seq::empty()).1,
    {
        if n != 1 {
            let mut t: String = u64_dec((idx as u64) + 1);
            t.append(". ");
            out.text(t);
        }
        self.emit_tags(out, diags, conf, &a.tags);
        match &self.style {
            Some(st) => {
                out.set_style(*st);
                out.text_str(a.event.as_str());
                out.set_style(conf.base_style);
            },
            None => {
                out.text_str(a.event.as_str());
            },
        }
        proof {
            assert(out@ =~= old(out)@ + self.head_evs(conf@, *a, idx as int, n as int));
        }
        self.emit_meta(out, a);
        self.emit_countdowns(out, conf, tz, a);
        proof {
            assert(out@ =~= old(out)@ + self.alert_evs(conf@, tz as int, *a, idx as int, n as int));
        }
    }

    fn render(
        &self,
        out: &mut Sink,
        diags: &mut Vec<Diagnostic>,
        conf: &RenderConf,
        resp: &Response,
    ) -> (r: Result<RenderStatus, RenderError>)
        ensures
            final(out)@ == old(out)@ + self.eff(conf@, *resp).evs,
            final(diags)@ == old(diags)@ + self.eff(conf@, *resp).diags,
            r == self.eff(conf@, *resp).res,
    {
        let f = match resp.as_forecast() {
            Ok(f) => f,
            Err(e) => {
                proof {
                    assert(out@ =~= old(out)@ + self.eff(conf@, *resp).evs);
                    assert(diags@ =~= old(diags)@ + self.eff(conf@, *resp).diags);
                }
                return Err(e);
            },
        };
        let empty_alerts: Vec<crate::api::one_call::Alert> = Vec::new();
        let alerts: &Vec<crate::api::one_call::Alert> = match &f.alerts {
            Some(a) => a,
            None => &empty_alerts,
        };
        let ghost list = alerts@;
        let tz = f.timezone_offset;
        let n = alerts.len();
        let ghost total = self.alerts_eff(conf@, tz as int, list, 0);
        let ghost out1 = out@;
        let ghost diags1 = diags@;
        let mut i: usize = 0;
        while i < n
            invariant
                i <= n,
                n == list.len(),
                alerts@ == list,
                self.alerts_eff(conf@, tz as int, list, 0) == total,
                out@ + self.alerts_eff(conf@, tz as int, list, i as int).0 == out1 + total.0,
                diags@ + self.alerts_eff(conf@, tz as int, list, i as int).1 == diags1 + total.1,
            decreases n - i,
        {
            let ghost pre_rem = self.alerts_eff(conf@, tz as int, list, i as int);
            self.emit_alert(out, diags, conf, tz, &alerts[i], i, n);
            proof {
                let rest = self.alerts_eff(conf@, tz as int, list, i + 1);
                assert(pre_rem.0 =~= self.alert_evs(conf@, tz as int, list[i as int], i as int, n as int)
                    + rest.0);
                assert(out@ + rest.0 =~= out1 + total.0);
                assert(diags@ + rest.1 =~= diags1 + total.1);
            }
            i += 1;
        }
        proof {
            assert(self.alerts_eff(conf@, tz as int, list, i as int).0 =~= Seq::<EventV>::empty());
            assert(out@ =~= old(out)@ + self.eff(conf@, *resp).evs);
            assert(diags@ =~= old(diags)@ + self.eff(conf@, *resp).diags);
        }
        if n > 0 {
            Ok(RenderStatus::Rendered)
        } else {
            Ok(RenderStatus::Empty)
        }
    }
}

/// Sunrise and sunset times of the current day, in the place's own
/// fixed offset.
#[derive(Debug, PartialEq, Default)]
pub struct DayTime {
    pub display_mode: Option<DisplayMode>,
    pub style: Option<Style>,
}

pub open spec fn spec_sunrise_glyph(mode: DisplayMode) -> Seq<char> {
    match mode {
        DisplayMode::NerdFonts => "\u{e34c}  "@,
        DisplayMode::Unicode => "\u{2600}\u{fe0f} \u{2b06}\u{fe0f} "@,
        DisplayMode::Ascii => "S "@,
    }
}

fn sunrise_glyph_str(mode: DisplayMode) -> (r: &'static str)
    ensures
        r@ == spec_sunrise_glyph(mode),
{
    match mode {
        DisplayMode::NerdFonts => "\u{e34c}  ",
        DisplayMode::Unicode => "\u{2600}\u{fe0f} \u{2b06}\u{fe0f} ",
        DisplayMode::Ascii => "S ",
    }
}

pub open spec fn spec_sunset_glyph(mode: DisplayMode) -> Seq<char> {
    match mode {
        DisplayMode::NerdFonts => "\u{e34d}  "@,
        DisplayMode::Unicode => "\u{2b07}\u{fe0f} "@,
        DisplayMode::Ascii => "-> "@,
    }
}

fn sunset_glyph_str(mode: DisplayMode) -> (r: &'static str)
    ensures
        r@ == spec_sunset_glyph(mode),
{
    match mode {
        DisplayMode::NerdFonts => "\u{e34d}  ",
        DisplayMode::Unicode => "\u{2b07}\u{fe0f} ",
        DisplayMode::Ascii => "-> ",
    }
}

impl DayTime {
    /// What rendering this segment does.
    pub open spec fn eff(self, conf: ConfV, resp: Response) -> SegEff {
        match resp.current {
            Option::None => SegEff {
                evs: Seq::empty(),
                diags: Seq::empty(),
                res: Err(RenderError::MissingCurrent),
            },
            Option::Some(cur) => SegEff {
                evs: seq![
                    EventV::Text(spec_sunrise_glyph(conf.display_mode)),
                    EventV::Text(
                        or_empty(
                            strftime_of(cur.sys.sunrise as int, cur.timezone as int, "%R"@),
                        ) + " "@,
                    ),
                    EventV::Text(spec_sunset_glyph(conf.display_mode)),
                    EventV::Text(
                        or_empty(strftime_of(cur.sys.sunset as int, cur.timezone as int, "%R"@)),
                    ),
                ],
                diags: Seq::empty(),
                res: Ok(RenderStatus::Rendered),
            },
        }
    }

    fn render(&self, out: &mut Sink, conf: &RenderConf, resp: &Response) -> (r: Result<
        RenderStatus,
        RenderError,
    >)
        ensures
            final(out)@ == old(out)@ + self.eff(conf@, *resp).evs,
            r == self.eff(conf@, *resp).res,
    {
        let cur = match resp.as_current() {
            Ok(c) => c,
            Err(e) => {
                proof {
                    assert(out@ =~= old(out)@ + self.eff(conf@, *resp).evs);
                }
                return Err(e);
            },
        };
        out.text_str(sunrise_glyph_str(conf.display_mode));
        let sunrise_txt = strftime_fixed(cur.sys.sunrise, cur.timezone, "%R");
        emit_opt_text(out, sunrise_txt, " ");
        out.text_str(sunset_glyph_str(conf.display_mode));
        let sunset_txt = strftime_fixed(cur.sys.sunset, cur.timezone, "%R");
        emit_opt_text(out, sunset_txt, "");
        proof {
            reveal_strlit("");
            assert(""@ =~= Seq::<char>::empty());
            assert(out@ =~= old(out)@ + self.eff(conf@, *resp).evs);
        }
        Ok(RenderStatus::Rendered)
    }
}

/// One configured unit of output: a closed set of segment kinds,
/// each owning its configuration.
#[derive(Debug, PartialEq)]
pub enum Segment {
    Instant(Instant),
    LocationName(LocationName),
    Temperature(Temperature),
    WeatherIcon(WeatherIcon),
    WeatherDescription(WeatherDescription),
    WindSpeed(WindSpeed),
    Humidity(Humidity),
    Rain(Rain),
    Snow(Snow),
    Pressure(Pressure),
    CloudCover(CloudCover),
    DailyForecast(DailyForecast),
    HourlyForecast(HourlyForecast),
    Alerts(Alerts),
    DayTime(DayTime),
    Pollution(Pollution),
}

/// What rendering a segment does.
pub open spec fn segment_eff(seg: Segment, conf: ConfV, resp: Response) -> SegEff {
    match seg {
        Segment::Instant(s) => s.eff(conf, resp),
        Segment::LocationName(s) => s.eff(conf, resp),
        Segment::Temperature(s) => s.eff(conf, resp),
        Segment::WeatherIcon(s) => s.eff(conf, resp),
        Segment::WeatherDescription(s) => s.eff(conf, resp),
        Segment::WindSpeed(s) => s.eff(conf, resp),
        Segment::Humidity(s) => s.eff(conf, resp),
        Segment::Rain(s) => s.eff(conf, resp),
        Segment::Snow(s) => s.eff(conf, resp),
        Segment::Pressure(s) => s.eff(conf, resp),
        Segment::CloudCover(s) => s.eff(conf, resp),
        Segment::DailyForecast(s) => s.eff(conf, resp),
        Segment::HourlyForecast(s) => s.eff(conf, resp),
        Segment::Alerts(s) => s.eff(conf, resp),
        Segment::DayTime(s) => s.eff(conf, resp),
        Segment::Pollution(s) => s.eff(conf, resp),
    }
}

/// Whether a segment draws on the forecast record alone.
pub open spec fn spec_is_forecast(s: Segment) -> bool {
    s is DailyForecast || s is HourlyForecast || s is Alerts
}

/// The upstream query a segment requires.
pub open spec fn spec_segment_kind(s: Segment) -> QueryKind {
    if s is Pollution {
        QueryKind::Pollution
    } else if spec_is_forecast(s) {
        QueryKind::ForeCast
    } else {
        QueryKind::Current
    }
}

impl Segment {
    /// Render this segment from the aggregate, appending output
    /// events and diagnostics.
    pub fn render(
        &self,
        out: &mut Sink,
        diags: &mut Vec<Diagnostic>,
        conf: &RenderConf,
        resp: &Response,
    ) -> (r: Result<RenderStatus, RenderError>)
        requires
            resp.wf(),
        ensures
            final(out)@ == old(out)@ + segment_eff(*self, conf@, *resp).evs,
            final(diags)@ == old(diags)@ + segment_eff(*self, conf@, *resp).diags,
            r == segment_eff(*self, conf@, *resp).res,
    {
        let r = match self {
            Segment::Instant(s) => s.render(out, conf, resp),
            Segment::LocationName(s) => s.render(out, conf, resp),
            Segment::Temperature(s) => s.render(out, conf, resp),
            Segment::WeatherIcon(s) => s.render(out, diags, conf, resp),
            Segment::WeatherDescription(s) => s.render(out, conf, resp),
            Segment::WindSpeed(s) => s.render(out, conf, resp),
            Segment::Humidity(s) => s.render(out, conf, resp),
            Segment::Rain(s) => s.render(out, conf, resp),
            Segment::Snow(s) => s.render(out, conf, resp),
            Segment::Pressure(s) => s.render(out, conf, resp),
            Segment::CloudCover(s) => s.render(out, conf, resp),
            Segment::DailyForecast(s) => s.render(out, diags, conf, resp),
            Segment::HourlyForecast(s) => s.render(out, diags, conf, resp),
            Segment::Alerts(s) => s.render(out, diags, conf, resp),
            Segment::DayTime(s) => s.render(out, conf, resp),
            Segment::Pollution(s) => s.render(out, conf, resp),
        };
        proof {
            assert(diags@ =~= old(diags)@ + segment_eff(*self, conf@, *resp).diags);
        }
        r
    }

    /// Whether this segment draws on the forecast record alone.
    pub fn is_forecast(&self) -> (r: bool)
        ensures
            r == spec_is_forecast(*self),
    {
        match self {
            Segment::DailyForecast(_) | Segment::HourlyForecast(_) | Segment::Alerts(_) => true,
            _ => false,
        }
    }
}

/// The renderer: an adapted display configuration, consumed read-only
/// for the duration of one render pass.
pub struct Renderer {
    pub display_config: crate::config::DisplayConfig,
}

/// The events, diagnostics, and first error of rendering the segments
/// from index `i` on, where `prev` is the status of the segment just
/// before: each of these segments is preceded by the base style, and
/// by the separator when the previous segment rendered visibly.
pub open spec fn list_eff(
    segs: Seq<Segment>,
    conf: ConfV,
    sep: Seq<char>,
    resp: Response,
    prev: RenderStatus,
    i: int,
) -> (Seq<EventV>, Seq<Diagnostic>, Option<RenderError>)
    decreases segs.len() - i,
{
    if i < 0 || i >= segs.len() {
        (Seq::empty(), Seq::empty(), None)
    } else {
        let head = seq![EventV::SetStyle(conf.base_style)] + (if prev is Rendered {
            seq![EventV::Text(sep)]
        } else {
            Seq::<EventV>::empty()
        });
        let e = segment_eff(segs[i], conf, resp);
        match e.res {
            Result::Err(err) => (head + e.evs, e.diags, Some(err)),
            Result::Ok(st) => {
                let rest = list_eff(segs, conf, sep, resp, st, i + 1);
                (head + e.evs + rest.0, e.diags + rest.1, rest.2)
            },
        }
    }
}

/// What one whole render pass does: nothing but a diagnostic for an
/// empty segment list; otherwise the base style, the first segment,
/// the remaining segments with conditional separators, and an
/// unconditional style reset — also on the error path.
pub open spec fn render_eff(
    config: crate::config::DisplayConfig,
    resp: Response,
    language: Option<Seq<char>>,
    env: Option<Seq<char>>,
    now: int,
) -> (Seq<EventV>, Seq<Diagnostic>, Option<RenderError>) {
    if config.segments@.len() == 0 {
        (Seq::empty(), seq![Diagnostic::NoSegments], None)
    } else {
        let loc = spec_resolve_locale(language, env);
        let conf = ConfV {
            base_style: config.base_style,
            display_mode: config.display_mode,
            locale: loc.0,
            units: config.units,
            now,
        };
        let locdiags: Seq<Diagnostic> = if loc.1 {
            seq![Diagnostic::UnknownLocale]
        } else {
            Seq::empty()
        };
        let e0 = segment_eff(config.segments@[0], conf, resp);
        match e0.res {
            Result::Err(err) => (
                seq![EventV::SetStyle(conf.base_style)] + e0.evs + seq![EventV::Reset],
                locdiags + e0.diags,
                Some(err),
            ),
            Result::Ok(st) => {
                let rest = list_eff(config.segments@, conf, config.separator@, resp, st, 1);
                (
                    seq![EventV::SetStyle(conf.base_style)] + e0.evs + rest.0 + seq![EventV::Reset],
                    locdiags + e0.diags + rest.1,
                    rest.2,
                )
            },
        }
    }
}

/// Which upstream queries a segment list requires, in a fixed order.
pub open spec fn needs_kind(segs: Seq<Segment>, k: QueryKind) -> bool {
    exists|i: int| 0 <= i < segs.len() && spec_segment_kind(#[trigger] segs[i]) == k
}

/// The required query kinds of a segment list, in a fixed order.
pub open spec fn spec_kinds(segs: Seq<Segment>) -> Seq<QueryKind> {
    (if needs_kind(segs, QueryKind::Current) {
        seq![QueryKind::Current]
    } else {
        Seq::<QueryKind>::empty()
    }) + (if needs_kind(segs, QueryKind::ForeCast) {
        seq![QueryKind::ForeCast]
    } else {
        Seq::<QueryKind>::empty()
    }) + (if needs_kind(segs, QueryKind::Pollution) {
        seq![QueryKind::Pollution]
    } else {
        Seq::<QueryKind>::empty()
    })
}

impl Renderer {
    /// Adapt a display configuration for rendering: the base style is
    /// forced to reset any style the stream was left with.
    pub fn from(display_config: crate::config::DisplayConfig) -> (r: Self)
        ensures
            r.display_config.base_style == display_config.base_style.spec_with_reset(),
            r.display_config.separator == display_config.separator,
            r.display_config.display_mode == display_config.display_mode,
            r.display_config.units == display_config.units,
            r.display_config.segments == display_config.segments,
    {
        let crate::config::DisplayConfig { base_style, separator, display_mode, units, segments } =
            display_config;
        Renderer {
            display_config: crate::config::DisplayConfig {
                base_style: base_style.with_reset(),
                separator,
                display_mode,
                units,
                segments,
            },
        }
    }

    /// Render the configured segments from the aggregate into the
    /// sink. The events and diagnostics appended, and the outcome,
    /// are exactly those of [`render_eff`] for this configuration.
    #[verifier::rlimit(100)]
    pub fn render(
        &self,
        out: &mut Sink,
        diags: &mut Vec<Diagnostic>,
        resp: &Response,
        language: Option<&str>,
        env_locale: Option<&str>,
        now: i64,
    ) -> (r: Result<(), RenderError>)
        requires
            resp.wf(),
        ensures
            final(out)@ == old(out)@ + render_eff(
                self.display_config,
                *resp,
                opt_str_view(language),
                opt_str_view(env_locale),
                now as int,
            ).0,
            final(diags)@ == old(diags)@ + render_eff(
                self.display_config,
                *resp,
                opt_str_view(language),
                opt_str_view(env_locale),
                now as int,
            ).1,
            r == (match render_eff(
                self.display_config,
                *resp,
                opt_str_view(language),
                opt_str_view(env_locale),
                now as int,
            ).2 {
                Option::Some(err) => Err::<(), RenderError>(err),
                Option::None => Ok::<(), RenderError>(()),
            }),
    {
        let ghost eff = render_eff(
            self.display_config,
            *resp,
            opt_str_view(language),
            opt_str_view(env_locale),
            now as int,
        );
        let segments = &self.display_config.segments;
        let n = segments.len();
        if n == 0 {
            diags.push(Diagnostic::NoSegments);
            proof {
                assert(out@ =~= old(out)@ + eff.0);
                assert(diags@ =~= old(diags)@ + eff.1);
            }
            return Ok(());
        }
        out.set_style(self.display_config.base_style);
        let (locale, unknown_locale) = resolve_locale(language, env_locale);
        if unknown_locale {
            diags.push(Diagnostic::UnknownLocale);
        }
        let conf = RenderConf {
            base_style: self.display_config.base_style,
            display_mode: self.display_config.display_mode,
            locale,
            units: self.display_config.units,
            now,
        };
        let ghost confv = conf@;
        let ghost sep = self.display_config.separator@;
        let ghost segs = segments@;
        let ghost out0 = out@;
        let ghost diags0 = diags@;
        let r0 = segments[0].render(out, diags, &conf, resp);
        let mut status: RenderStatus = match r0 {
            Ok(st) => st,
            Err(e) => {
                out.reset();
                proof {
                    assert(out@ =~= old(out)@ + eff.0);
                    assert(diags@ =~= old(diags)@ + eff.1);
                }
                return Err(e);
            },
        };
        let ghost total = list_eff(segs, confv, sep, *resp, status, 1);
        let ghost out1 = out@;
        let ghost diags1 = diags@;
        proof {
            assert(old(out)@ + eff.0 =~= out1 + total.0 + seq![EventV::Reset]);
            assert(old(diags)@ + eff.1 =~= diags1 + total.1);
        }
        let mut k: usize = 1;
        while k < n
            invariant
                1 <= k <= n,
                n == segs.len(),
                self.display_config.segments@ == segs,
                self.display_config.separator@ == sep,
                conf@ == confv,
                resp.wf(),
                eff == render_eff(
                    self.display_config,
                    *resp,
                    opt_str_view(language),
                    opt_str_view(env_locale),
                    now as int,
                ),
                old(out)@ + eff.0 == out1 + total.0 + seq![EventV::Reset],
                old(diags)@ + eff.1 == diags1 + total.1,
                eff.2 == total.2,
                list_eff(segs, confv, sep, *resp, status, k as int).2 == total.2,
                out@ + list_eff(segs, confv, sep, *resp, status, k as int).0 == out1 + total.0,
                diags@ + list_eff(segs, confv, sep, *resp, status, k as int).1 == diags1 + total.1,
            decreases n - k,
        {
            let ghost pre_rem = list_eff(segs, confv, sep, *resp, status, k as int);
            out.set_style(conf.base_style);
            if let RenderStatus::Rendered = status {
                out.text_str(self.display_config.separator.as_str());
            }
            let rk = self.display_config.segments[k].render(out, diags, &conf, resp);
            match rk {
                Ok(st) => {
                    proof {
                        let rest = list_eff(segs, confv, sep, *resp, st, k + 1);
                        assert(pre_rem.0 =~= (seq![EventV::SetStyle(confv.base_style)]
                            + (if status is Rendered {
                            seq![EventV::Text(sep)]
                        } else {
                            Seq::<EventV>::empty()
                        })) + segment_eff(segs[k as int], confv, *resp).evs + rest.0);
                        assert(out@ + rest.0 =~= out1 + total.0);
                        assert(diags@ + rest.1 =~= diags1 + total.1);
                    }
                    status = st;
                },
                Err(e) => {
                    out.reset();
                    proof {
                        assert(pre_rem.0 =~= (seq![EventV::SetStyle(confv.base_style)]
                            + (if status is Rendered {
                            seq![EventV::Text(sep)]
                        } else {
                            Seq::<EventV>::empty()
                        })) + segment_eff(segs[k as int], confv, *resp).evs);
                        assert(out@ =~= out1 + total.0 + seq![EventV::Reset]);
                        assert(diags@ =~= diags1 + total.1);
                        assert(out@ =~= old(out)@ + eff.0);
                        assert(diags@ =~= old(diags)@ + eff.1);
                    }
                    return Err(e);
                },
            }
            k += 1;
        }
        out.reset();
        proof {
            assert(list_eff(segs, confv, sep, *resp, status, k as int).0 =~= Seq::<EventV>::empty());
            assert(out@ =~= old(out)@ + eff.0);
            assert(diags@ =~= old(diags)@ + eff.1);
        }
        Ok(())
    }

    /// The upstream query kinds the configured segment list requires,
    /// before any network activity; an unclassifiable (empty) list is
    /// the reportable no-display error.
    pub fn display_kind(&self) -> (r: Result<Vec<QueryKind>, RenderError>)
        ensures
            r is Ok <==> self.display_config.segments@.len() > 0,
            r is Err ==> r->Err_0 == RenderError::NoDisplayKind,
            r matches Ok(v) ==> v@ == spec_kinds(self.display_config.segments@),
    {
        let segments = &self.display_config.segments;
        let ghost segs = segments@;
        let mut current: bool = false;
        let mut forecast: bool = false;
        let mut pollution: bool = false;
        let mut i: usize = 0;
        while i < segments.len()
            invariant
                i <= segs.len(),
                segments@ == segs,
                self.display_config.segments@ == segs,
                current == needs_kind(segs.take(i as int), QueryKind::Current),
                forecast == needs_kind(segs.take(i as int), QueryKind::ForeCast),
                pollution == needs_kind(segs.take(i as int), QueryKind::Pollution),
            decreases segs.len() - i,
        {
            let s = &segments[i];
            let is_pollution = if let Segment::Pollution(_) = s {
                true
            } else {
                false
            };
            if is_pollution {
                pollution = true;
            } else if s.is_forecast() {
                forecast = true;
            } else {
                current = true;
            }
            proof {
                let t_old = segs.take(i as int);
                let t_new = segs.take(i + 1);
                assert(t_new =~= t_old.push(segs[i as int]));
                assert forall|k: QueryKind| needs_kind(t_new, k) <==> (needs_kind(t_old, k)
                    || spec_segment_kind(segs[i as int]) == k) by {
                    if needs_kind(t_old, k) {
                        let j = choose|j: int|
                            0 <= j < t_old.len() && spec_segment_kind(#[trigger] t_old[j]) == k;
                        assert(spec_segment_kind(t_new[j]) == k);
                    }
                    if spec_segment_kind(segs[i as int]) == k {
                        assert(spec_segment_kind(t_new[t_new.len() - 1]) == k);
                    }
                    if needs_kind(t_new, k) {
                        let j = choose|j: int|
                            0 <= j < t_new.len() && spec_segment_kind(#[trigger] t_new[j]) == k;
                        if j < t_old.len() {
                            assert(spec_segment_kind(t_old[j]) == k);
                        }
                    }
                }
            }
            i += 1;
        }
        proof {
            assert(segs.take(i as int) =~= segs);
        }
        if !current && !forecast && !pollution {
            proof {
                if segs.len() > 0 {
                    assert(spec_segment_kind(segs[0]) == QueryKind::Current
                        || spec_segment_kind(segs[0]) == QueryKind::ForeCast
                        || spec_segment_kind(segs[0]) == QueryKind::Pollution);
                }
            }
            return Err(RenderError::NoDisplayKind);
        }
        let mut v: Vec<QueryKind> = Vec::new();
        if current {
            v.push(QueryKind::Current);
        }
        if forecast {
            v.push(QueryKind::ForeCast);
        }
        if pollution {
            v.push(QueryKind::Pollution);
        }
        proof {
            assert(v@ =~= spec_kinds(segs));
        }
        Ok(v)
    }
}

/// Rendering an empty segment list produces no output events at all
/// (in particular no text bytes) and no error, only the empty-list
/// diagnostic.
pub proof fn lemma_empty_render(
    config: crate::config::DisplayConfig,
    resp: Response,
    language: Option<Seq<char>>,
    env: Option<Seq<char>>,
    now: int,
)
    requires
        config.segments@.len() == 0,
    ensures
        render_eff(config, resp, language, env, now).0 == Seq::<EventV>::empty(),
        render_eff(config, resp, language, env, now).2 is None,
{
}

/// With three segments of which the middle one renders empty and the
/// outer two render visibly, exactly one separator is emitted: it
/// stands between the first and the third segment's output, and the
/// third segment is not preceded by one.
pub proof fn lemma_separator_suppressed(
    config: crate::config::DisplayConfig,
    resp: Response,
    language: Option<Seq<char>>,
    env: Option<Seq<char>>,
    now: int,
    a: Segment,
    b: Segment,
    c: Segment,
)
    requires
        config.segments@ == seq![a, b, c],
        ({
            let loc = spec_resolve_locale(language, env);
            let conf = ConfV {
                base_style: config.base_style,
                display_mode: config.display_mode,
                locale: loc.0,
                units: config.units,
                now,
            };
            &&& segment_eff(a, conf, resp).res == Ok::<RenderStatus, RenderError>(
                RenderStatus::Rendered,
            )
            &&& segment_eff(b, conf, resp).res == Ok::<RenderStatus, RenderError>(
                RenderStatus::Empty,
            )
            &&& segment_eff(c, conf, resp).res == Ok::<RenderStatus, RenderError>(
                RenderStatus::Rendered,
            )
        }),
    ensures
        ({
            let loc = spec_resolve_locale(language, env);
            let conf = ConfV {
                base_style: config.base_style,
                display_mode: config.display_mode,
                locale: loc.0,
                units: config.units,
                now,
            };
            render_eff(config, resp, language, env, now).0 == seq![
                EventV::SetStyle(conf.base_style),
            ] + segment_eff(a, conf, resp).evs + seq![
                EventV::SetStyle(conf.base_style),
                EventV::Text(config.separator@),
            ] + segment_eff(b, conf, resp).evs + seq![EventV::SetStyle(conf.base_style)]
                + segment_eff(c, conf, resp).evs + seq![EventV::Reset]
        }),
{
    let loc = spec_resolve_locale(language, env);
    let conf = ConfV {
        base_style: config.base_style,
        display_mode: config.display_mode,
        locale: loc.0,
        units: config.units,
        now,
    };
    let segs = config.segments@;
    assert(segs[0] == a && segs[1] == b && segs[2] == c);
    let r2 = list_eff(segs, conf, config.separator@, resp, RenderStatus::Empty, 2);
    let r3 = list_eff(
        segs,
        conf,
        config.separator@,
        resp,
        RenderStatus::Rendered,
        3,
    );
    assert(r3.0 =~= Seq::<EventV>::empty());
    assert(render_eff(config, resp, language, env, now).0 =~= seq![
        EventV::SetStyle(conf.base_style),
    ] + segment_eff(a, conf, resp).evs + seq![
        EventV::SetStyle(conf.base_style),
        EventV::Text(config.separator@),
    ] + segment_eff(b, conf, resp).evs + seq![EventV::SetStyle(conf.base_style)] + segment_eff(
        c,
        conf,
        resp,
    ).evs + seq![EventV::Reset]);
}

} // verus!
