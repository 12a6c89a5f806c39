//! The user's settings, read field by field with a default for each.
use vstd::prelude::*;
use crate::scroll::ScrollConfig;
use crate::text::{lemma_decimal_in_range, color_of, decimal_i32, flag_of, parse_color, parse_flag, parse_i32};

verus! {

pub const SECTION: &'static str = "autoscroller";

pub const DEFAULT_RADIUS: i32 = 15;

pub const DEFAULT_MAX_SCROLL_POWER: i32 = 50;

pub const DEFAULT_FRICTION_MILLI: u32 = 15000;

pub const DEFAULT_COLOR0: u32 = 0xff07553b;

pub const DEFAULT_COLOR1: u32 = 0xFFCED46A;

#[verifier::external_type_specification]
#[verifier::external_body]
pub struct ExIni(ini::Ini);

/// The settings the sampling side and the indicator need.
pub struct Settings {
    pub scroll: ScrollConfig,
    pub show_notif: bool,
    /// Border and dot colour, ARGB.
    pub color0: u32,
    /// Fill colour, ARGB.
    pub color1: u32,
}

/// A colour field: its value where it reads as a colour, else `default`.
pub open spec fn color_field(s: Option<Seq<char>>, default: u32) -> u32 {
    match s {
        Some(t) => match color_of(t) {
            Some(v) => v as u32,
            None => default,
        },
        None => default,
    }
}

/// A non-negative integer field: its value where it reads as one, else `default`.
pub open spec fn count_field(s: Option<Seq<char>>, default: i32) -> i32 {
    match s {
        Some(t) => match decimal_i32(t) {
            Some(v) => if v >= 0 {
                v as i32
            } else {
                default
            },
            None => default,
        },
        None => default,
    }
}

/// A flag field: its value where it reads as `true` or `false`, else `default`.
pub open spec fn flag_field(s: Option<Seq<char>>, default: bool) -> bool {
    match s {
        Some(t) => match flag_of(t) {
            Some(v) => v,
            None => default,
        },
        None => default,
    }
}

pub open spec fn view_of(s: Option<&str>) -> Option<Seq<char>> {
    match s {
        Some(t) => Some(t@),
        None => None,
    }
}

proof fn lemma_count_field_nonneg(s: Option<Seq<char>>, default: i32)
    requires
        default >= 0,
    ensures
        count_field(s, default) >= 0,
{
    if let Some(t) = s {
        lemma_decimal_in_range(t);
    }
}

/// Reads a colour field, falling back to `default`.
pub fn color_or_default(s: Option<&str>, default: u32) -> (r: u32)
    ensures
        r == color_field(view_of(s), default),
{
    match s {
        Some(t) => match parse_color(t) {
            Some(v) => v,
            None => default,
        },
        None => default,
    }
}

/// Reads a non-negative integer field, falling back to `default`.
pub fn count_or_default(s: Option<&str>, default: i32) -> (r: i32)
    ensures
        r == count_field(view_of(s), default),
{
    match s {
        Some(t) => match parse_i32(t) {
            Some(v) => if v >= 0 {
                v
            } else {
                default
            },
            None => default,
        },
        None => default,
    }
}

/// Reads a flag field, falling back to `default`.
pub fn flag_or_default(s: Option<&str>, default: bool) -> (r: bool)
    ensures
        r == flag_field(view_of(s), default),
{
    match s {
        Some(t) => match parse_flag(t) {
            Some(v) => v,
            None => default,
        },
        None => default,
    }
}

impl Settings {
    /// The settings used when no configuration is found.
    pub fn defaults() -> (r: Settings)
        ensures
            r.scroll.wf(),
            r.scroll.radius == DEFAULT_RADIUS,
            r.scroll.max_scroll_power == DEFAULT_MAX_SCROLL_POWER,
            r.scroll.friction_milli == DEFAULT_FRICTION_MILLI,
            !r.show_notif,
            r.color0 == DEFAULT_COLOR0,
            r.color1 == DEFAULT_COLOR1,
    {
        Settings {
            scroll: ScrollConfig {
                radius: DEFAULT_RADIUS,
                max_scroll_power: DEFAULT_MAX_SCROLL_POWER,
                friction_milli: DEFAULT_FRICTION_MILLI,
            },
            show_notif: false,
            color0: DEFAULT_COLOR0,
            color1: DEFAULT_COLOR1,
        }
    }

    /// Builds the settings from the raw text of each field; each field that
    /// is missing or does not read falls back to its own default. The
    /// friction, in thousandths, falls back where it is missing or zero.
    pub fn from_fields(
        radius: Option<&str>,
        max_scroll_power: Option<&str>,
        friction_milli: Option<u32>,
        show_notif: Option<&str>,
        color0: Option<&str>,
        color1: Option<&str>,
    ) -> (r: Settings)
        ensures
            r.scroll.wf(),
            r.scroll.radius == count_field(view_of(radius), DEFAULT_RADIUS),
            r.scroll.max_scroll_power == count_field(
                view_of(max_scroll_power),
                DEFAULT_MAX_SCROLL_POWER,
            ),
            r.scroll.friction_milli == (match friction_milli {
                Some(f) => if f > 0 {
                    f
                } else {
                    DEFAULT_FRICTION_MILLI
                },
                None => DEFAULT_FRICTION_MILLI,
            }),
            r.show_notif == flag_field(view_of(show_notif), false),
            r.color0 == color_field(view_of(color0), DEFAULT_COLOR0),
            r.color1 == color_field(view_of(color1), DEFAULT_COLOR1),
    {
        proof {
            lemma_count_field_nonneg(view_of(radius), DEFAULT_RADIUS);
            lemma_count_field_nonneg(view_of(max_scroll_power), DEFAULT_MAX_SCROLL_POWER);
        }
        let f = match friction_milli {
            Some(f) => if f > 0 {
                f
            } else {
                DEFAULT_FRICTION_MILLI
            },
            None => DEFAULT_FRICTION_MILLI,
        };
        Settings {
            scroll: ScrollConfig {
                radius: count_or_default(radius, DEFAULT_RADIUS),
                max_scroll_power: count_or_default(max_scroll_power, DEFAULT_MAX_SCROLL_POWER),
                friction_milli: f,
            },
            show_notif: flag_or_default(show_notif, false),
            color0: color_or_default(color0, DEFAULT_COLOR0),
            color1: color_or_default(color1, DEFAULT_COLOR1),
        }
    }

    /// Reads the settings from the `autoscroller` section of a loaded
    /// configuration; the friction comes in separately, in thousandths.
    pub fn from_ini(conf: &ini::Ini, friction_milli: Option<u32>) -> (r: Settings)
        ensures
            r.scroll.wf(),
            r.scroll.radius == count_field(ini_get(*conf, SECTION@, "radius"@), DEFAULT_RADIUS),
            r.scroll.max_scroll_power == count_field(
                ini_get(*conf, SECTION@, "max_scroll_power"@),
                DEFAULT_MAX_SCROLL_POWER,
            ),
            r.scroll.friction_milli == (match friction_milli {
                Some(f) => if f > 0 {
                    f
                } else {
                    DEFAULT_FRICTION_MILLI
                },
                None => DEFAULT_FRICTION_MILLI,
            }),
            r.show_notif == flag_field(ini_get(*conf, SECTION@, "show_notif"@), false),
            r.color0 == color_field(ini_get(*conf, SECTION@, "color0"@), DEFAULT_COLOR0),
            r.color1 == color_field(ini_get(*conf, SECTION@, "color1"@), DEFAULT_COLOR1),
    {
        let radius = ini_value(conf, SECTION, "radius");
        let power = ini_value(conf, SECTION, "max_scroll_power");
        let notif = ini_value(conf, SECTION, "show_notif");
        let c0 = ini_value(conf, SECTION, "color0");
        let c1 = ini_value(conf, SECTION, "color1");
        Settings::from_fields(
            as_text(&radius),
            as_text(&power),
            friction_milli,
            as_text(&notif),
            as_text(&c0),
            as_text(&c1),
        )
    }
}

fn as_text(s: &Option<String>) -> (r: Option<&str>)
    ensures
        r matches Some(t) ==> s matches Some(u) && t@ == u@,
        r is None <==> s is None,
{
    match s {
        Some(u) => Some(u.as_str()),
        None => None,
    }
}

/// The first value stored under `key` in the first section named `section` of
/// a loaded configuration, if there is one.
pub uninterp spec fn ini_get(conf: ini::Ini, section: Seq<char>, key: Seq<char>) -> Option<Seq<char>>;

/// Relies on `ini::Ini::section` and `ini::Properties::get`, two lookups in
/// the loaded configuration: the result is the value they find, if any.
#[verifier::external_body]
fn ini_value(conf: &ini::Ini, section: &str, key: &str) -> (r: Option<String>)
    ensures
        match r {
            Some(v) => ini_get(*conf, section@, key@) == Some(v@),
            None => ini_get(*conf, section@, key@) is None,
        },
{
    conf.section(Some(section)).and_then(|p| p.get(key)).map(|v| v.to_string())
}

} // verus!
