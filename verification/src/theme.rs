//! The theme model: a fixed-shape record of named colors — three special
//! colors and two 8-color palettes — extracted from a parsed document.
//! Every field must be present and hold a well-formed hex color for the
//! theme to be usable.
use crate::colors::valid_hex;
use crate::files::{spec_read_error_message, ReadError};
use crate::paths::{join_path, spec_join};
use crate::strutil::push_char;
use crate::value::{dict_get, dict_get_str, spec_dict_get, spec_get_str, Val};
use crate::yaml_parser::{parsed_doc, ParseError, YamlParser};
use vstd::prelude::*;

verus! {

/// Why loading a theme failed: the file could not be read, or its contents
/// could not be parsed and validated.
#[derive(Debug, Clone, PartialEq)]
pub enum ThemeError {
    Read(ReadError),
    Parse(ParseError),
}

pub open spec fn spec_theme_error_message(e: ThemeError) -> Seq<char> {
    match e {
        ThemeError::Read(r) => "read failed -> "@ + spec_read_error_message(r),
        ThemeError::Parse(p) => "parse failed -> "@ + p.reason@,
    }
}

impl ThemeError {
    pub fn message(&self) -> (r: String)
        ensures
            r@ == spec_theme_error_message(*self),
    {
        match self {
            ThemeError::Read(e) => {
                let mut m = String::from_str("read failed -> ");
                let detail = e.message();
                m.append(detail.as_str());
                m
            },
            ThemeError::Parse(e) => {
                let mut m = String::from_str("parse failed -> ");
                let detail = e.message();
                m.append(detail.as_str());
                m
            },
        }
    }
}

/// The three special colors of a theme.
#[derive(Debug, Clone, PartialEq)]
pub struct SpecialColors {
    pub background: String,
    pub foreground: String,
    pub cursor: String,
}

/// An 8-color ANSI palette.
#[derive(Debug, Clone, PartialEq)]
pub struct AnsiColors {
    pub black: String,
    pub red: String,
    pub green: String,
    pub yellow: String,
    pub blue: String,
    pub magenta: String,
    pub cyan: String,
    pub white: String,
}

/// A named color theme: special colors plus a normal and a bright palette.
#[derive(Debug, Clone, PartialEq)]
pub struct Theme {
    pub special: SpecialColors,
    pub normal: AnsiColors,
    pub bright: AnsiColors,
}

/// The special colors a mapping denotes, when all three fields are present
/// and hold strings.
pub open spec fn spec_special_of(d: Seq<(Val, Val)>) -> Option<SpecialColors> {
    if spec_get_str(d, "background"@) is Some && spec_get_str(d, "foreground"@) is Some
        && spec_get_str(d, "cursor"@) is Some {
        Some(
            SpecialColors {
                background: spec_get_str(d, "background"@)->Some_0,
                foreground: spec_get_str(d, "foreground"@)->Some_0,
                cursor: spec_get_str(d, "cursor"@)->Some_0,
            },
        )
    } else {
        None
    }
}

/// The palette a mapping denotes, when all eight fields are present and
/// hold strings.
pub open spec fn spec_ansi_of(d: Seq<(Val, Val)>) -> Option<AnsiColors> {
    if spec_get_str(d, "black"@) is Some && spec_get_str(d, "red"@) is Some && spec_get_str(
        d,
        "green"@,
    ) is Some && spec_get_str(d, "yellow"@) is Some && spec_get_str(d, "blue"@) is Some
        && spec_get_str(d, "magenta"@) is Some && spec_get_str(d, "cyan"@) is Some && spec_get_str(
        d,
        "white"@,
    ) is Some {
        Some(
            AnsiColors {
                black: spec_get_str(d, "black"@)->Some_0,
                red: spec_get_str(d, "red"@)->Some_0,
                green: spec_get_str(d, "green"@)->Some_0,
                yellow: spec_get_str(d, "yellow"@)->Some_0,
                blue: spec_get_str(d, "blue"@)->Some_0,
                magenta: spec_get_str(d, "magenta"@)->Some_0,
                cyan: spec_get_str(d, "cyan"@)->Some_0,
                white: spec_get_str(d, "white"@)->Some_0,
            },
        )
    } else {
        None
    }
}

/// The theme shape a document denotes: a mapping with `special`, `normal`
/// and `bright` submappings of the right shapes.
pub open spec fn spec_scheme_of(v: Val) -> Option<Theme> {
    match v {
        Val::Dict(top) => match (
            spec_dict_get(top@, "special"@),
            spec_dict_get(top@, "normal"@),
            spec_dict_get(top@, "bright"@),
        ) {
            (Some(Val::Dict(sp)), Some(Val::Dict(no)), Some(Val::Dict(br))) => match (
                spec_special_of(sp@),
                spec_ansi_of(no@),
                spec_ansi_of(br@),
            ) {
                (Some(s), Some(n), Some(b)) => Some(Theme { special: s, normal: n, bright: b }),
                _ => None,
            },
            _ => None,
        },
        _ => None,
    }
}

/// Whether every color field of the theme is a well-formed hex color.
pub open spec fn spec_theme_hex_valid(t: Theme) -> bool {
    &&& valid_hex(t.special.background@)
    &&& valid_hex(t.special.foreground@)
    &&& valid_hex(t.special.cursor@)
    &&& spec_ansi_hex_valid(t.normal)
    &&& spec_ansi_hex_valid(t.bright)
}

pub open spec fn spec_ansi_hex_valid(a: AnsiColors) -> bool {
    &&& valid_hex(a.black@)
    &&& valid_hex(a.red@)
    &&& valid_hex(a.green@)
    &&& valid_hex(a.yellow@)
    &&& valid_hex(a.blue@)
    &&& valid_hex(a.magenta@)
    &&& valid_hex(a.cyan@)
    &&& valid_hex(a.white@)
}

pub open spec fn spec_field_error(name: Seq<char>) -> Seq<char> {
    "missing or invalid field '"@ + name + seq!['\'']
}

/// A location-free failure naming a missing or ill-typed field.
fn field_error(name: &str) -> (r: ParseError)
    ensures
        r.line is None,
        r.column is None,
        r.reason@ == spec_field_error(name@),
{
    let mut m = String::from_str("missing or invalid field '");
    m.append(name);
    push_char(&mut m, '\'');
    ParseError::reason(m)
}

/// Extracts the special colors from mapping entries.
fn special_of(pairs: &Vec<(Val, Val)>) -> (r: Result<SpecialColors, ParseError>)
    ensures
        r is Ok <==> spec_special_of(pairs@) is Some,
        r is Ok ==> Some(r->Ok_0) == spec_special_of(pairs@),
{
    let background = match dict_get_str(pairs, "background") {
        Some(s) => s,
        None => {
            return Err(field_error("background"));
        },
    };
    let foreground = match dict_get_str(pairs, "foreground") {
        Some(s) => s,
        None => {
            return Err(field_error("foreground"));
        },
    };
    let cursor = match dict_get_str(pairs, "cursor") {
        Some(s) => s,
        None => {
            return Err(field_error("cursor"));
        },
    };
    Ok(SpecialColors { background, foreground, cursor })
}

/// Extracts an 8-color palette from mapping entries.
fn ansi_of(pairs: &Vec<(Val, Val)>) -> (r: Result<AnsiColors, ParseError>)
    ensures
        r is Ok <==> spec_ansi_of(pairs@) is Some,
        r is Ok ==> Some(r->Ok_0) == spec_ansi_of(pairs@),
{
    let black = match dict_get_str(pairs, "black") {
        Some(s) => s,
        None => {
            return Err(field_error("black"));
        },
    };
    let red = match dict_get_str(pairs, "red") {
        Some(s) => s,
        None => {
            return Err(field_error("red"));
        },
    };
    let green = match dict_get_str(pairs, "green") {
        Some(s) => s,
        None => {
            return Err(field_error("green"));
        },
    };
    let yellow = match dict_get_str(pairs, "yellow") {
        Some(s) => s,
        None => {
            return Err(field_error("yellow"));
        },
    };
    let blue = match dict_get_str(pairs, "blue") {
        Some(s) => s,
        None => {
            return Err(field_error("blue"));
        },
    };
    let magenta = match dict_get_str(pairs, "magenta") {
        Some(s) => s,
        None => {
            return Err(field_error("magenta"));
        },
    };
    let cyan = match dict_get_str(pairs, "cyan") {
        Some(s) => s,
        None => {
            return Err(field_error("cyan"));
        },
    };
    let white = match dict_get_str(pairs, "white") {
        Some(s) => s,
        None => {
            return Err(field_error("white"));
        },
    };
    Ok(AnsiColors { black, red, green, yellow, blue, magenta, cyan, white })
}

/// Extracts the theme shape from a parsed document.
pub(crate) fn scheme_of(v: &Val) -> (r: Result<Theme, ParseError>)
    ensures
        r is Ok <==> spec_scheme_of(*v) is Some,
        r is Ok ==> Some(r->Ok_0) == spec_scheme_of(*v),
{
    let top = match v {
        Val::Dict(pairs) => pairs,
        _ => {
            return Err(ParseError::reason(String::from_str("expected a mapping at the top level")));
        },
    };
    let sp = match dict_get(top, "special") {
        Some(Val::Dict(d)) => d,
        _ => {
            return Err(field_error("special"));
        },
    };
    let no = match dict_get(top, "normal") {
        Some(Val::Dict(d)) => d,
        _ => {
            return Err(field_error("normal"));
        },
    };
    let br = match dict_get(top, "bright") {
        Some(Val::Dict(d)) => d,
        _ => {
            return Err(field_error("bright"));
        },
    };
    let special = match special_of(sp) {
        Ok(s) => s,
        Err(e) => {
            return Err(e);
        },
    };
    let normal = match ansi_of(no) {
        Ok(a) => a,
        Err(e) => {
            return Err(e);
        },
    };
    let bright = match ansi_of(br) {
        Ok(a) => a,
        Err(e) => {
            return Err(e);
        },
    };
    Ok(Theme { special, normal, bright })
}

/// Checks that a color field holds a well-formed hex color.
fn check_hex(text: &String, name: &str) -> (r: Result<(), ParseError>)
    ensures
        r is Ok <==> valid_hex(text@),
{
    match crate::colors::Color::from_hex(text.as_str()) {
        Ok(_) => Ok(()),
        Err(_) => Err(field_error(name)),
    }
}

impl Theme {
    /// Parses and validates a theme document: the document must parse, have
    /// the theme shape, and every one of its 19 color fields must be a
    /// well-formed hex color.
    pub fn new(contents: &str) -> (r: Result<Theme, ThemeError>)
        ensures
            r is Ok <==> (parsed_doc(contents@) is Some && spec_scheme_of(
                parsed_doc(contents@)->Some_0,
            ) is Some && spec_theme_hex_valid(spec_scheme_of(parsed_doc(contents@)->Some_0)->Some_0)),
            r is Ok ==> Some(r->Ok_0) == spec_scheme_of(parsed_doc(contents@)->Some_0),
            r is Err ==> r->Err_0 is Parse,
    {
        let doc = match YamlParser::parse(contents) {
            Ok(v) => v,
            Err(e) => {
                return Err(ThemeError::Parse(e));
            },
        };
        let theme = match scheme_of(&doc) {
            Ok(t) => t,
            Err(e) => {
                return Err(ThemeError::Parse(e));
            },
        };
        if let Err(e) = check_hex(&theme.special.background, "background") {
            return Err(ThemeError::Parse(e));
        }
        if let Err(e) = check_hex(&theme.special.foreground, "foreground") {
            return Err(ThemeError::Parse(e));
        }
        if let Err(e) = check_hex(&theme.special.cursor, "cursor") {
            return Err(ThemeError::Parse(e));
        }
        if let Err(e) = check_ansi_hex(&theme.normal) {
            return Err(ThemeError::Parse(e));
        }
        if let Err(e) = check_ansi_hex(&theme.bright) {
            return Err(ThemeError::Parse(e));
        }
        Ok(theme)
    }
}

/// Checks that every color of a palette is a well-formed hex color.
fn check_ansi_hex(a: &AnsiColors) -> (r: Result<(), ParseError>)
    ensures
        r is Ok <==> spec_ansi_hex_valid(*a),
{
    if let Err(e) = check_hex(&a.black, "black") {
        return Err(e);
    }
    if let Err(e) = check_hex(&a.red, "red") {
        return Err(e);
    }
    if let Err(e) = check_hex(&a.green, "green") {
        return Err(e);
    }
    if let Err(e) = check_hex(&a.yellow, "yellow") {
        return Err(e);
    }
    if let Err(e) = check_hex(&a.blue, "blue") {
        return Err(e);
    }
    if let Err(e) = check_hex(&a.magenta, "magenta") {
        return Err(e);
    }
    if let Err(e) = check_hex(&a.cyan, "cyan") {
        return Err(e);
    }
    if let Err(e) = check_hex(&a.white, "white") {
        return Err(e);
    }
    Ok(())
}

/// The file a named theme is loaded from: `<theme_dir>/<name>.yaml`.
pub fn theme_file(name: &str, theme_dir: &str) -> (r: String)
    ensures
        r@ == spec_join(theme_dir@, name@ + ".yaml"@),
{
    let mut file = name.to_owned();
    file.append(".yaml");
    join_path(theme_dir, file.as_str())
}

} // verus!
