//! The configuration model: an optional theme name, hook list, variable
//! mapping and template list, extracted from a parsed document. Template
//! targets are resolved against the home directory as they are extracted.
use crate::files::{spec_read_error_message, ReadError};
use crate::paths::{resolve_path, spec_has_tilde, spec_resolve_with_home};
use crate::value::{
    dict_get_str, dict_take, spec_dict_get, spec_get_str, Val,
};
use crate::yaml_parser::{parsed_doc, ParseError, YamlParser};
use vstd::prelude::*;

verus! {

/// Why loading the configuration failed.
#[derive(Debug, Clone, PartialEq)]
pub enum ConfigError {
    ParseFailed(ParseError),
    ReadFailed(ReadError),
}

pub open spec fn spec_config_error_message(e: ConfigError) -> Seq<char> {
    match e {
        ConfigError::ParseFailed(p) => "could not parse config ("@ + p.reason@ + seq![')'],
        ConfigError::ReadFailed(r) => "could not read config ("@ + spec_read_error_message(r)
            + seq![')'],
    }
}

impl ConfigError {
    pub fn message(&self) -> (r: String)
        ensures
            r@ == spec_config_error_message(*self),
    {
        match self {
            ConfigError::ParseFailed(e) => {
                let mut m = String::from_str("could not parse config (");
                let detail = e.message();
                m.append(detail.as_str());
                crate::strutil::push_char(&mut m, ')');
                m
            },
            ConfigError::ReadFailed(e) => {
                let mut m = String::from_str("could not read config (");
                let detail = e.message();
                m.append(detail.as_str());
                crate::strutil::push_char(&mut m, ')');
                m
            },
        }
    }
}

/// One configured template: a source name and a resolved target path.
#[derive(Debug, Clone, PartialEq)]
pub struct Template {
    pub source: String,
    pub target: String,
}

/// The configuration: all fields optional.
#[derive(Debug, PartialEq)]
pub struct Config {
    pub theme: Option<String>,
    pub hooks: Option<Vec<String>>,
    pub variables: Option<Vec<(String, Val)>>,
    pub templates: Option<Vec<Template>>,
}

/// The strings of a list whose items are all strings.
pub open spec fn spec_strings_of(s: Seq<Val>) -> Option<Seq<String>>
    decreases s.len(),
{
    if s.len() == 0 {
        Some(Seq::empty())
    } else if s[0] is Str {
        match spec_strings_of(s.drop_first()) {
            Some(rest) => Some(seq![s[0]->Str_0] + rest),
            None => None,
        }
    } else {
        None
    }
}

/// The bindings of a mapping whose keys are all strings.
pub open spec fn spec_vars_of(s: Seq<(Val, Val)>) -> Option<Seq<(String, Val)>>
    decreases s.len(),
{
    if s.len() == 0 {
        Some(Seq::empty())
    } else if s[0].0 is Str {
        match spec_vars_of(s.drop_first()) {
            Some(rest) => Some(seq![(s[0].0->Str_0, s[0].1)] + rest),
            None => None,
        }
    } else {
        None
    }
}

/// The `(source, raw target)` pairs of a template list whose items are all
/// mappings with string `source` and `target` fields.
pub open spec fn spec_raw_templates_of(s: Seq<Val>) -> Option<Seq<(String, String)>>
    decreases s.len(),
{
    if s.len() == 0 {
        Some(Seq::empty())
    } else {
        match s[0] {
            Val::Dict(d) => {
                if spec_get_str(d@, "source"@) is Some && spec_get_str(d@, "target"@) is Some {
                    match spec_raw_templates_of(s.drop_first()) {
                        Some(rest) => Some(
                            seq![
                                (
                                    spec_get_str(d@, "source"@)->Some_0,
                                    spec_get_str(d@, "target"@)->Some_0,
                                ),
                            ] + rest,
                        ),
                        None => None,
                    }
                } else {
                    None
                }
            },
            _ => None,
        }
    }
}

/// Whether `t` is `raw` with a leading `~` component resolved against some
/// home directory; without one, `t` is `raw` itself.
pub open spec fn target_resolved(raw: Seq<char>, t: Seq<char>) -> bool {
    if spec_has_tilde(raw) {
        exists|h: Seq<char>| Some(t) == #[trigger] spec_resolve_with_home(raw, Some(h))
    } else {
        t == raw
    }
}

/// Whether template entry `i` is well shaped with a `~`-prefixed target,
/// so that resolving it needs a home directory.
pub open spec fn entry_with_tilde(s: Seq<Val>, i: int) -> bool {
    &&& s[i] is Dict
    &&& spec_get_str(s[i]->Dict_0@, "target"@) is Some
    &&& spec_has_tilde(spec_get_str(s[i]->Dict_0@, "target"@)->Some_0@)
}

/// The four optional fields a config document denotes, each `None` when
/// absent; the outer `None` when the document does not have the config
/// shape.
pub open spec fn spec_config_of(v: Val) -> Option<
    (Option<String>, Option<Seq<String>>, Option<Seq<(String, Val)>>, Option<Seq<(String, String)>>),
> {
    match v {
        Val::Dict(top) => {
            let t = spec_theme_field(spec_dict_get(top@, "theme"@));
            let h = spec_hooks_field(spec_dict_get(top@, "hooks"@));
            let vv = spec_vars_field(spec_dict_get(top@, "variables"@));
            let tp = spec_templates_field(spec_dict_get(top@, "templates"@));
            if t is Some && h is Some && vv is Some && tp is Some {
                Some((t->Some_0, h->Some_0, vv->Some_0, tp->Some_0))
            } else {
                None
            }
        },
        _ => None,
    }
}

pub open spec fn spec_theme_field(o: Option<Val>) -> Option<Option<String>> {
    match o {
        None => Some(None),
        Some(Val::Str(s)) => Some(Some(s)),
        Some(_) => None,
    }
}

pub open spec fn spec_hooks_field(o: Option<Val>) -> Option<Option<Seq<String>>> {
    match o {
        None => Some(None),
        Some(Val::List(items)) => match spec_strings_of(items@) {
            Some(ss) => Some(Some(ss)),
            None => None,
        },
        Some(_) => None,
    }
}

pub open spec fn spec_vars_field(o: Option<Val>) -> Option<Option<Seq<(String, Val)>>> {
    match o {
        None => Some(None),
        Some(Val::Dict(pairs)) => match spec_vars_of(pairs@) {
            Some(vs) => Some(Some(vs)),
            None => None,
        },
        Some(_) => None,
    }
}

pub open spec fn spec_templates_field(o: Option<Val>) -> Option<Option<Seq<(String, String)>>> {
    match o {
        None => Some(None),
        Some(Val::List(items)) => match spec_raw_templates_of(items@) {
            Some(ts) => Some(Some(ts)),
            None => None,
        },
        Some(_) => None,
    }
}

/// When the template list has the right shape, its raw pairs line up with
/// its entries one for one.
proof fn lemma_raw_templates_structure(s: Seq<Val>, j: int)
    requires
        spec_raw_templates_of(s) is Some,
        0 <= j < s.len(),
    ensures
        spec_raw_templates_of(s)->Some_0.len() == s.len(),
        s[j] is Dict,
        spec_get_str(s[j]->Dict_0@, "target"@) is Some,
        spec_raw_templates_of(s)->Some_0[j].1 == spec_get_str(s[j]->Dict_0@, "target"@)->Some_0,
    decreases s.len(),
{
    if s.len() == 1 {
        assert(s.drop_first().len() == 0);
        assert(spec_raw_templates_of(s.drop_first()) == Some(Seq::<(String, String)>::empty()));
    } else {
        if j == 0 {
            lemma_raw_templates_structure(s.drop_first(), 0);
        } else {
            lemma_raw_templates_structure(s.drop_first(), j - 1);
            assert(s.drop_first()[j - 1] == s[j]);
        }
    }
}

fn config_field_error(name: &str) -> (r: ParseError)
    ensures
        r.line is None,
        r.column is None,
{
    let mut m = String::from_str("invalid field '");
    m.append(name);
    crate::strutil::push_char(&mut m, '\'');
    ParseError::reason(m)
}

/// Extracts a list of strings; any other item shape fails.
fn strings_of(items: &Vec<Val>) -> (r: Result<Vec<String>, ParseError>)
    ensures
        r is Ok <==> spec_strings_of(items@) is Some,
        r is Ok ==> Some(r->Ok_0@) == spec_strings_of(items@),
{
    let n = items.len();
    let mut out: Vec<String> = Vec::new();
    let mut i: usize = 0;
    proof {
        assert(items@.skip(0) =~= items@);
    }
    while i < n
        invariant
            i <= n,
            n == items@.len(),
            spec_strings_of(items@) is Some <==> spec_strings_of(items@.skip(i as int)) is Some,
            spec_strings_of(items@) is Some ==> spec_strings_of(items@)->Some_0 == out@
                + spec_strings_of(items@.skip(i as int))->Some_0,
        decreases n - i,
    {
        proof {
            assert(items@.skip(i as int)[0] == items@[i as int]);
            assert(items@.skip(i as int).drop_first() =~= items@.skip(i as int + 1));
        }
        match &items[i] {
            Val::Str(s) => {
                out.push(s.clone());
            },
            _ => {
                return Err(config_field_error("hooks"));
            },
        }
        proof {
            if spec_strings_of(items@.skip(i as int + 1)) is Some {
                assert(out@ =~= out@.drop_last().push(items@[i as int]->Str_0));
                assert(out@.drop_last() + (seq![items@[i as int]->Str_0] + spec_strings_of(
                    items@.skip(i as int + 1),
                )->Some_0) =~= out@ + spec_strings_of(items@.skip(i as int + 1))->Some_0);
            }
        }
        i = i + 1;
    }
    proof {
        assert(items@.skip(n as int) =~= Seq::<Val>::empty());
        if spec_strings_of(items@) is Some {
            assert(out@ + Seq::<String>::empty() =~= out@);
        }
    }
    Ok(out)
}

/// Extracts the variable bindings of a mapping, consuming it; a key that is
/// not a string fails.
fn vars_of(rest: &mut Vec<(Val, Val)>) -> (r: Result<Vec<(String, Val)>, ParseError>)
    ensures
        r is Ok <==> spec_vars_of(old(rest)@) is Some,
        r is Ok ==> Some(r->Ok_0@) == spec_vars_of(old(rest)@),
{
    let ghost orig = old(rest)@;
    let mut out: Vec<(String, Val)> = Vec::new();
    proof {
        assert(orig.skip(0) =~= orig);
    }
    let ghost mut i: int = 0;
    while rest.len() > 0
        invariant
            old(rest)@ == orig,
            0 <= i <= orig.len(),
            rest@ == orig.skip(i),
            spec_vars_of(orig) is Some <==> spec_vars_of(rest@) is Some,
            spec_vars_of(orig) is Some ==> spec_vars_of(orig)->Some_0 == out@ + spec_vars_of(
                rest@,
            )->Some_0,
        decreases rest@.len(),
    {
        let entry = rest.remove(0);
        proof {
            assert(orig.skip(i)[0] == orig[i]);
            assert(orig.skip(i).remove(0) =~= orig.skip(i).drop_first());
            assert(orig.skip(i).drop_first() =~= orig.skip(i + 1));
        }
        match entry.0 {
            Val::Str(k) => {
                out.push((k, entry.1));
            },
            _ => {
                proof {
                    assert(orig.skip(i)[0] == orig[i]);
                    assert(entry == orig.skip(i)[0]);
                    assert(!(entry.0 is Str));
                    assert(spec_vars_of(orig.skip(i)) is None);
                    assert(spec_vars_of(orig) is None);
                }
                return Err(config_field_error("variables"));
            },
        }
        proof {
            if spec_vars_of(orig.skip(i + 1)) is Some {
                assert(out@.drop_last() + (seq![(orig[i].0->Str_0, orig[i].1)] + spec_vars_of(
                    orig.skip(i + 1),
                )->Some_0) =~= out@ + spec_vars_of(orig.skip(i + 1))->Some_0);
            }
            i = i + 1;
        }
    }
    proof {
        assert(rest@ =~= Seq::<(Val, Val)>::empty());
        assert(orig.skip(i) =~= rest@);
        if spec_vars_of(orig) is Some {
            assert(out@ + Seq::<(String, Val)>::empty() =~= out@);
        }
    }
    Ok(out)
}

/// Extracts the template entries, resolving each target against the home
/// directory; an ill-shaped entry fails, and so does a `~`-prefixed target
/// when the environment provides no home directory.
fn templates_of(items: &Vec<Val>) -> (r: Result<Vec<Template>, ParseError>)
    ensures
        r is Ok ==> spec_raw_templates_of(items@) is Some,
        r is Ok ==> {
            let raw = spec_raw_templates_of(items@)->Some_0;
            &&& r->Ok_0@.len() == raw.len()
            &&& forall|j: int|
                0 <= j < raw.len() ==> (#[trigger] r->Ok_0@[j]).source == raw[j].0
                    && target_resolved(raw[j].1@, r->Ok_0@[j].target@)
        },
        r is Err ==> spec_raw_templates_of(items@) is None || exists|j: int|
            0 <= j < items@.len() && entry_with_tilde(items@, j),
{
    let n = items.len();
    let mut out: Vec<Template> = Vec::new();
    let mut i: usize = 0;
    proof {
        assert(items@.skip(0) =~= items@);
    }
    while i < n
        invariant
            i <= n,
            n == items@.len(),
            spec_raw_templates_of(items@) is Some <==> spec_raw_templates_of(
                items@.skip(i as int),
            ) is Some,
            spec_raw_templates_of(items@) is Some ==> {
                let raw = spec_raw_templates_of(items@)->Some_0;
                let done = spec_raw_templates_of(items@.skip(i as int))->Some_0;
                &&& raw.len() == out@.len() + done.len()
                &&& forall|j: int|
                    0 <= j < out@.len() ==> (#[trigger] out@[j]).source == raw[j].0
                        && target_resolved(raw[j].1@, out@[j].target@)
                &&& forall|j: int|
                    out@.len() <= j < raw.len() ==> raw[j] == done[j - out@.len()]
            },
        decreases n - i,
    {
        proof {
            assert(items@.skip(i as int)[0] == items@[i as int]);
            assert(items@.skip(i as int).drop_first() =~= items@.skip(i as int + 1));
        }
        let d = match &items[i] {
            Val::Dict(d) => d,
            _ => {
                return Err(config_field_error("templates"));
            },
        };
        let source = match dict_get_str(d, "source") {
            Some(s) => s,
            None => {
                return Err(config_field_error("templates"));
            },
        };
        let raw_target = match dict_get_str(d, "target") {
            Some(s) => s,
            None => {
                return Err(config_field_error("templates"));
            },
        };
        let target = match resolve_path(raw_target.as_str()) {
            Some(t) => t,
            None => {
                proof {
                    assert(entry_with_tilde(items@, i as int));
                }
                let mut m = String::from_str("could not resolve path '");
                m.append(raw_target.as_str());
                crate::strutil::push_char(&mut m, '\'');
                return Err(ParseError::reason(m));
            },
        };
        out.push(Template { source, target });
        proof {
            if spec_raw_templates_of(items@.skip(i as int + 1)) is Some {
                let raw = spec_raw_templates_of(items@)->Some_0;
                assert(out@.drop_last() =~= out@.subrange(0, out@.len() - 1));
                assert(out@.last().source == raw[out@.len() - 1].0);
                assert(target_resolved(raw[out@.len() - 1].1@, out@.last().target@));
            }
        }
        i = i + 1;
    }
    proof {
        assert(items@.skip(n as int) =~= Seq::<Val>::empty());
    }
    Ok(out)
}

impl Config {
    /// Parses a configuration document. The document must parse and have
    /// the config shape; template targets are resolved against the home
    /// directory as they are extracted, and a `~`-prefixed target with no
    /// home directory available is a failure.
    pub fn new(contents: &str) -> (r: Result<Config, ConfigError>)
        ensures
            r is Ok ==> parsed_doc(contents@) is Some && spec_config_of(
                parsed_doc(contents@)->Some_0,
            ) is Some,
            r is Ok ==> {
                let shape = spec_config_of(parsed_doc(contents@)->Some_0)->Some_0;
                let cfg = r->Ok_0;
                &&& cfg.theme == shape.0
                &&& (cfg.hooks is Some <==> shape.1 is Some)
                &&& (cfg.hooks is Some ==> cfg.hooks->Some_0@ == shape.1->Some_0)
                &&& (cfg.variables is Some <==> shape.2 is Some)
                &&& (cfg.variables is Some ==> cfg.variables->Some_0@ == shape.2->Some_0)
                &&& (cfg.templates is Some <==> shape.3 is Some)
                &&& (cfg.templates is Some ==> {
                    let raw = shape.3->Some_0;
                    let ts = cfg.templates->Some_0@;
                    &&& ts.len() == raw.len()
                    &&& forall|j: int|
                        0 <= j < raw.len() ==> (#[trigger] ts[j]).source == raw[j].0
                            && target_resolved(raw[j].1@, ts[j].target@)
                })
            },
            r is Err ==> r->Err_0 is ParseFailed,
            (parsed_doc(contents@) is Some && spec_config_of(parsed_doc(contents@)->Some_0) is Some
                && {
                let shape = spec_config_of(parsed_doc(contents@)->Some_0)->Some_0;
                shape.3 is Some ==> forall|j: int|
                    0 <= j < shape.3->Some_0.len() ==> !spec_has_tilde(
                        (#[trigger] shape.3->Some_0[j]).1@,
                    )
            }) ==> r is Ok,
    {
        let doc = match YamlParser::parse(contents) {
            Ok(v) => v,
            Err(e) => {
                return Err(ConfigError::ParseFailed(e));
            },
        };
        let mut top = match doc {
            Val::Dict(pairs) => pairs,
            _ => {
                return Err(
                    ConfigError::ParseFailed(
                        ParseError::reason(String::from_str("expected a mapping at the top level")),
                    ),
                );
            },
        };
        let ghost gdoc = parsed_doc(contents@)->Some_0;
        let ghost top0 = top@;
        proof {
            assert(gdoc is Dict && gdoc->Dict_0@ == top0);
            reveal_strlit("theme");
            reveal_strlit("hooks");
            reveal_strlit("variables");
            reveal_strlit("templates");
            assert("theme"@ != "hooks"@ && "theme"@ != "variables"@ && "theme"@ != "templates"@)
                by {
                assert("theme"@[0] == 't' && "hooks"@[0] == 'h');
                assert("theme"@.len() == 5 && "variables"@.len() == 9 && "templates"@.len() == 9);
                assert("theme"@[1] == 'h' && "templates"@[1] == 'e');
            }
            assert("hooks"@ != "variables"@ && "hooks"@ != "templates"@) by {
                assert("hooks"@.len() == 5 && "variables"@.len() == 9 && "templates"@.len() == 9);
            }
            assert("variables"@ != "templates"@) by {
                assert("variables"@[0] == 'v' && "templates"@[0] == 't');
            }
        }
        let theme_v = dict_take(&mut top, "theme");
        let hooks_v = dict_take(&mut top, "hooks");
        let vars_v = dict_take(&mut top, "variables");
        let tpls_v = dict_take(&mut top, "templates");
        proof {
            assert(match theme_v {
                Some(v) => spec_dict_get(top0, "theme"@) == Some(v),
                None => spec_dict_get(top0, "theme"@) is None,
            });
            assert(match hooks_v {
                Some(v) => spec_dict_get(top0, "hooks"@) == Some(v),
                None => spec_dict_get(top0, "hooks"@) is None,
            });
            assert(match vars_v {
                Some(v) => spec_dict_get(top0, "variables"@) == Some(v),
                None => spec_dict_get(top0, "variables"@) is None,
            });
            assert(match tpls_v {
                Some(v) => spec_dict_get(top0, "templates"@) == Some(v),
                None => spec_dict_get(top0, "templates"@) is None,
            });
        }
        let theme = match theme_v {
            None => None,
            Some(Val::Str(s)) => Some(s),
            Some(_) => {
                return Err(ConfigError::ParseFailed(config_field_error("theme")));
            },
        };
        let hooks = match &hooks_v {
            None => None,
            Some(Val::List(items)) => match strings_of(items) {
                Ok(ss) => Some(ss),
                Err(e) => {
                    return Err(ConfigError::ParseFailed(e));
                },
            },
            Some(_) => {
                return Err(ConfigError::ParseFailed(config_field_error("hooks")));
            },
        };
        let variables = match vars_v {
            None => None,
            Some(Val::Dict(mut pairs)) => match vars_of(&mut pairs) {
                Ok(vs) => Some(vs),
                Err(e) => {
                    return Err(ConfigError::ParseFailed(e));
                },
            },
            Some(_) => {
                return Err(ConfigError::ParseFailed(config_field_error("variables")));
            },
        };
        let templates = match &tpls_v {
            None => None,
            Some(Val::List(items)) => match templates_of(items) {
                Ok(ts) => Some(ts),
                Err(e) => {
                    proof {
                        if spec_raw_templates_of(items@) is Some {
                            let j = choose|j: int|
                                0 <= j < items@.len() && entry_with_tilde(items@, j);
                            lemma_raw_templates_structure(items@, j);
                        }
                    }
                    return Err(ConfigError::ParseFailed(e));
                },
            },
            Some(_) => {
                return Err(ConfigError::ParseFailed(config_field_error("templates")));
            },
        };
        Ok(Config { theme, hooks, variables, templates })
    }
}

} // verus!
