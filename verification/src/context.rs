//! The variable merge layer: variable bindings from several sources are
//! combined into one lookup context with a defined override precedence —
//! command-line bindings override config-file bindings, which override
//! theme-derived bindings.
use crate::strutil::str_eq;
use crate::value::Val;
use vstd::prelude::*;

verus! {

/// Looks a key up in a binding list; the latest binding for a key wins.
pub open spec fn spec_lookup(s: Seq<(String, Val)>, k: Seq<char>) -> Option<Val>
    decreases s.len(),
{
    if s.len() == 0 {
        None
    } else if s.last().0@ == k {
        Some(s.last().1)
    } else {
        spec_lookup(s.drop_last(), k)
    }
}

/// Combines two binding layers: a binding of `upper` overrides any binding
/// of `base` for the same key; keys bound only in `base` keep their value.
pub fn override_pairs(base: Vec<(String, Val)>, upper: Vec<(String, Val)>) -> (r: Vec<
    (String, Val),
>)
    ensures
        r@ == base@ + upper@,
        forall|k: Seq<char>| #[trigger]
            spec_lookup(r@, k) == (if spec_lookup(upper@, k) is Some {
                spec_lookup(upper@, k)
            } else {
                spec_lookup(base@, k)
            }),
{
    let ghost b0 = base@;
    let ghost u0 = upper@;
    let mut r = base;
    let mut upper = upper;
    r.append(&mut upper);
    proof {
        assert forall|k: Seq<char>| #[trigger]
            spec_lookup(r@, k) == (if spec_lookup(u0, k) is Some {
                spec_lookup(u0, k)
            } else {
                spec_lookup(b0, k)
            }) by {
            lemma_lookup_concat(b0, u0, k);
        }
    }
    r
}

/// Merges the three variable sources in increasing precedence: theme-derived
/// bindings, then config-file bindings, then command-line bindings.
pub fn merge_variables(
    theme_vars: Vec<(String, Val)>,
    config_vars: Vec<(String, Val)>,
    cli_vars: Vec<(String, Val)>,
) -> (r: Vec<(String, Val)>)
    ensures
        r@ == theme_vars@ + config_vars@ + cli_vars@,
        forall|k: Seq<char>| #[trigger]
            spec_lookup(r@, k) == (if spec_lookup(cli_vars@, k) is Some {
                spec_lookup(cli_vars@, k)
            } else if spec_lookup(config_vars@, k) is Some {
                spec_lookup(config_vars@, k)
            } else {
                spec_lookup(theme_vars@, k)
            }),
{
    let lower = override_pairs(theme_vars, config_vars);
    let r = override_pairs(lower, cli_vars);
    r
}

/// The merged, read-only context one run renders with: the user variables
/// under one region, the theme's colors under another, so the two never
/// collide.
pub struct Context {
    pub variables: Vec<(String, Val)>,
    pub colors: crate::theme::Theme,
}

/// Builds the render context: config-file variables merged with
/// command-line variables (the command line wins on a key bound in both),
/// and the theme's colors as their own region.
pub fn build_context(
    theme: crate::theme::Theme,
    config_vars: Option<Vec<(String, Val)>>,
    cli_vars: Option<Vec<(String, Val)>>,
) -> (r: Context)
    ensures
        r.colors == theme,
        forall|k: Seq<char>| #[trigger]
            spec_lookup(r.variables@, k) == {
                let c = match cli_vars {
                    Some(v) => spec_lookup(v@, k),
                    None => None,
                };
                let b = match config_vars {
                    Some(v) => spec_lookup(v@, k),
                    None => None,
                };
                if c is Some {
                    c
                } else {
                    b
                }
            },
{
    let base = match config_vars {
        Some(v) => v,
        None => Vec::new(),
    };
    let upper = match cli_vars {
        Some(v) => v,
        None => Vec::new(),
    };
    let variables = merge_variables(Vec::new(), base, upper);
    Context { variables, colors: theme }
}

/// Finds the value bound to `key`, if any; the latest binding wins.
pub fn lookup_pairs<'a>(pairs: &'a Vec<(String, Val)>, key: &str) -> (r: Option<&'a Val>)
    ensures
        match r {
            Some(v) => spec_lookup(pairs@, key@) == Some(*v),
            None => spec_lookup(pairs@, key@) is None,
        },
{
    let n = pairs.len();
    let mut i: usize = n;
    proof {
        assert(pairs@.take(n as int) =~= pairs@);
    }
    while i > 0
        invariant
            i <= n,
            n == pairs@.len(),
            spec_lookup(pairs@, key@) == spec_lookup(pairs@.take(i as int), key@),
        decreases i,
    {
        i = i - 1;
        if str_eq(pairs[i].0.as_str(), key) {
            proof {
                assert(pairs@.take(i as int + 1).last() == pairs@[i as int]);
            }
            return Some(&pairs[i].1);
        }
        proof {
            assert(pairs@.take(i as int + 1).drop_last() =~= pairs@.take(i as int));
        }
    }
    proof {
        assert(pairs@.take(0) =~= Seq::<(String, Val)>::empty());
    }
    None
}

/// Merge precedence: when three layers are merged in increasing precedence
/// (theme, config, command line), a key bound on the command line resolves
/// to that binding; a key bound only in the config layer resolves there;
/// a key bound only in the theme layer resolves to the theme's binding.
pub proof fn lemma_merge_precedence(
    theme_vars: Seq<(String, Val)>,
    config_vars: Seq<(String, Val)>,
    cli_vars: Seq<(String, Val)>,
    k: Seq<char>,
)
    ensures
        spec_lookup(cli_vars, k) is Some ==> spec_lookup(theme_vars + config_vars + cli_vars, k)
            == spec_lookup(cli_vars, k),
        spec_lookup(cli_vars, k) is None && spec_lookup(config_vars, k) is Some ==> spec_lookup(
            theme_vars + config_vars + cli_vars,
            k,
        ) == spec_lookup(config_vars, k),
        spec_lookup(cli_vars, k) is None && spec_lookup(config_vars, k) is None ==> spec_lookup(
            theme_vars + config_vars + cli_vars,
            k,
        ) == spec_lookup(theme_vars, k),
{
    lemma_lookup_concat(theme_vars + config_vars, cli_vars, k);
    lemma_lookup_concat(theme_vars, config_vars, k);
}

/// Looking up in a concatenation resolves in the right part first.
proof fn lemma_lookup_concat(a: Seq<(String, Val)>, b: Seq<(String, Val)>, k: Seq<char>)
    ensures
        spec_lookup(a + b, k) == (if spec_lookup(b, k) is Some {
            spec_lookup(b, k)
        } else {
            spec_lookup(a, k)
        }),
    decreases b.len(),
{
    if b.len() == 0 {
        assert(a + b =~= a);
    } else {
        assert((a + b).last() == b.last());
        if b.last().0@ == k {
        } else {
            assert((a + b).drop_last() =~= a + b.drop_last());
            lemma_lookup_concat(a, b.drop_last(), k);
        }
    }
}

} // verus!
