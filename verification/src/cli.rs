//! Command-line input as plain data, and the parsing of `key=value`
//! variable definitions. Flag handling itself lives outside the library;
//! it hands the parsed flags over in this shape.
use crate::paths::{resolve_path, spec_has_tilde, spec_resolve_with_home};
use crate::value::Val;
use crate::yaml_parser::{parsed_doc, YamlParser};
use vstd::prelude::*;

verus! {

/// The command-line arguments: an optional theme, the theme-listing switch,
/// the configuration directory, and optional hook and variable overrides.
#[derive(Debug, PartialEq)]
pub struct Args {
    pub theme: Option<String>,
    pub list_themes: bool,
    pub config_dir: String,
    pub hooks: Option<Vec<String>>,
    pub variables: Option<Vec<(String, Val)>>,
}

/// The position of the first `=` in the text, if any.
pub open spec fn spec_first_eq(s: Seq<char>) -> Option<int>
    decreases s.len(),
{
    if s.len() == 0 {
        None
    } else if s[0] == '=' {
        Some(0)
    } else {
        match spec_first_eq(s.drop_first()) {
            Some(i) => Some(i + 1),
            None => None,
        }
    }
}

/// A pair is malformed when it has no `=`, an empty key, or an empty value.
pub open spec fn spec_malformed_pair(s: Seq<char>) -> bool {
    match spec_first_eq(s) {
        None => true,
        Some(p) => p == 0 || p == s.len() - 1,
    }
}

proof fn lemma_first_eq_at(s: Seq<char>, i: int)
    requires
        0 <= i < s.len(),
        forall|j: int| 0 <= j < i ==> s[j] != '=',
        s[i] == '=',
    ensures
        spec_first_eq(s) == Some(i),
    decreases i,
{
    if i == 0 {
    } else {
        lemma_first_eq_at(s.drop_first(), i - 1);
    }
}

proof fn lemma_first_eq_none(s: Seq<char>)
    requires
        forall|j: int| 0 <= j < s.len() ==> s[j] != '=',
    ensures
        spec_first_eq(s) is None,
    decreases s.len(),
{
    if s.len() > 0 {
        lemma_first_eq_none(s.drop_first());
    }
}

/// Parses one `key=value` variable definition: the text before the first
/// `=` is the key, the text after it is parsed as a document value, so
/// `1.5` becomes a number and `true` a boolean. A missing `=`, an empty
/// key or an empty value is a user error.
pub fn parse_key_value_pair(pair: &str) -> (r: Result<(String, Val), String>)
    ensures
        spec_malformed_pair(pair@) ==> r is Err && r->Err_0@
            == "variables should be specified as 'key=value' pairs"@,
        !spec_malformed_pair(pair@) ==> {
            let p = spec_first_eq(pair@)->Some_0;
            &&& (r is Ok <==> parsed_doc(pair@.skip(p + 1)) is Some)
            &&& (r is Ok ==> r->Ok_0.0@ == pair@.take(p) && Some(r->Ok_0.1) == parsed_doc(
                pair@.skip(p + 1),
            ))
        },
{
    let n = pair.unicode_len();
    let mut i: usize = 0;
    let mut eq: Option<usize> = None;
    while i < n
        invariant
            i <= n,
            n == pair@.len(),
            match eq {
                Some(p) => p < i && pair@[p as int] == '=' && forall|j: int|
                    0 <= j < p ==> pair@[j] != '=',
                None => forall|j: int| 0 <= j < i ==> pair@[j] != '=',
            },
        decreases n - i,
    {
        if eq.is_none() && pair.get_char(i) == '=' {
            eq = Some(i);
        }
        i = i + 1;
    }
    let p = match eq {
        Some(p) => {
            proof {
                lemma_first_eq_at(pair@, p as int);
            }
            p
        },
        None => {
            proof {
                lemma_first_eq_none(pair@);
            }
            return Err(
                String::from_str("variables should be specified as 'key=value' pairs"),
            );
        },
    };
    if p == 0 || p == n - 1 {
        return Err(String::from_str("variables should be specified as 'key=value' pairs"));
    }
    let key = pair.substring_char(0, p).to_owned();
    let value_text = pair.substring_char(p + 1, n);
    proof {
        assert(value_text@ =~= pair@.skip(p as int + 1));
        assert(key@ =~= pair@.take(p as int));
    }
    match YamlParser::parse(value_text) {
        Ok(v) => Ok((key, v)),
        Err(e) => Err(e.message()),
    }
}

/// Resolves the configuration directory argument against the home
/// directory; a `~` that cannot be resolved is a user error.
pub fn parse_config_dir(path: &str) -> (r: Result<String, String>)
    ensures
        !spec_has_tilde(path@) ==> r is Ok && r->Ok_0@ == path@,
        r is Err ==> spec_has_tilde(path@) && r->Err_0@ == "could not resolve the provided path"@,
        r is Ok && spec_has_tilde(path@) ==> exists|h: Seq<char>|
            Some(r->Ok_0@) == #[trigger] spec_resolve_with_home(path@, Some(h)),
{
    match resolve_path(path) {
        Some(p) => Ok(p),
        None => Err(String::from_str("could not resolve the provided path")),
    }
}

} // verus!
