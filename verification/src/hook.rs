//! Hooks: named executables under the hook directory, run with the merged
//! variables exposed as environment variables. The library computes the
//! hook's path and its environment; running the process happens outside.
use crate::paths::{join_path, spec_join};
use crate::strutil::{append_dec, push_char, spec_dec};
use crate::value::{spec_serialize, Val};
use vstd::prelude::*;

verus! {

/// Why running a hook failed. A process that exited with a non-zero code
/// carries that code; a status with no code (such as death by signal) is
/// reported as `Other`.
#[derive(Debug, Clone, PartialEq)]
pub enum HookError {
    NonZeroStatus(u32),
    DoesNotExist,
    PermissionDenied,
    Other(String),
}

pub open spec fn spec_hook_error_message(e: HookError) -> Seq<char> {
    match e {
        HookError::NonZeroStatus(c) => "non zero exit status: "@ + spec_dec(c as int),
        HookError::DoesNotExist => "does not exist"@,
        HookError::PermissionDenied => "permission denied"@,
        HookError::Other(s) => s@,
    }
}

impl HookError {
    pub fn message(&self) -> (r: String)
        ensures
            r@ == spec_hook_error_message(*self),
    {
        match self {
            HookError::NonZeroStatus(c) => {
                let mut m = String::from_str("non zero exit status: ");
                append_dec(&mut m, *c as u64);
                m
            },
            HookError::DoesNotExist => String::from_str("does not exist"),
            HookError::PermissionDenied => String::from_str("permission denied"),
            HookError::Other(s) => s.clone(),
        }
    }
}

/// A named hook and its resolved path under the hook directory.
#[derive(Debug, Clone, PartialEq)]
pub struct Hook {
    pub name: String,
    pub path: String,
}

impl Hook {
    /// A hook at `<hook_dir>/<name>`.
    pub fn new(name: &str, hook_dir: &str) -> (h: Hook)
        ensures
            h.name@ == name@,
            h.path@ == spec_join(hook_dir@, name@),
    {
        Hook { name: name.to_owned(), path: join_path(hook_dir, name) }
    }
}

/// An ASCII letter upper-cased; any other character stands.
pub open spec fn spec_upper_char(c: char) -> char {
    if 'a' <= c && c <= 'z' {
        ((c as u8) - 32) as char
    } else {
        c
    }
}

/// The environment-variable spelling of a variable name: upper-cased, with
/// `-` replaced by `_`.
pub open spec fn spec_env_name(s: Seq<char>) -> Seq<char> {
    s.map_values(
        |c: char|
            if c == '-' {
                '_'
            } else {
                spec_upper_char(c)
            },
    )
}

fn env_name_char(c: char) -> (r: char)
    ensures
        r == if c == '-' {
            '_'
        } else {
            spec_upper_char(c)
        },
{
    if c == '-' {
        '_'
    } else if 'a' <= c && c <= 'z' {
        let b = c as u8;
        (b - 32) as char
    } else {
        c
    }
}

/// The environment-variable name for a variable.
pub fn env_name(name: &str) -> (r: String)
    ensures
        r@ == spec_env_name(name@),
{
    let n = name.unicode_len();
    let mut out = String::new();
    let mut i: usize = 0;
    proof {
        assert(out@ =~= spec_env_name(name@.take(0)));
    }
    while i < n
        invariant
            i <= n,
            n == name@.len(),
            out@ == spec_env_name(name@.take(i as int)),
        decreases n - i,
    {
        let c = name.get_char(i);
        push_char(&mut out, env_name_char(c));
        proof {
            assert(out@ =~= spec_env_name(name@.take(i as int + 1)));
        }
        i = i + 1;
    }
    proof {
        assert(name@.take(n as int) =~= name@);
    }
    out
}

/// The environment a hook runs with: each variable name in its
/// environment-variable spelling, each value in its flat text form.
pub fn env_pairs(vars: &Vec<(String, Val)>) -> (r: Vec<(String, String)>)
    ensures
        r@.len() == vars@.len(),
        forall|i: int|
            0 <= i < vars@.len() ==> (#[trigger] r@[i]).0@ == spec_env_name(vars@[i].0@)
                && r@[i].1@ == spec_serialize(vars@[i].1),
{
    let n = vars.len();
    let mut out: Vec<(String, String)> = Vec::new();
    let mut i: usize = 0;
    while i < n
        invariant
            i <= n,
            n == vars@.len(),
            out@.len() == i,
            forall|j: int|
                0 <= j < i ==> (#[trigger] out@[j]).0@ == spec_env_name(vars@[j].0@)
                    && out@[j].1@ == spec_serialize(vars@[j].1),
        decreases n - i,
    {
        let k = env_name(vars[i].0.as_str());
        let v = (&vars[i].1).serialize();
        out.push((k, v));
        i = i + 1;
    }
    out
}

} // verus!
