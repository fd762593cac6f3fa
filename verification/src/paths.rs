//! Path strings: joining, and resolving a leading `~` against the home
//! directory.
use vstd::prelude::*;

verus! {

/// Joining `name` onto `base`: an absolute `name` replaces the base, and a
/// separator is inserted only where the base does not already end in one.
pub open spec fn spec_join(base: Seq<char>, name: Seq<char>) -> Seq<char> {
    if name.len() > 0 && name[0] == '/' {
        name
    } else if base.len() == 0 {
        name
    } else if base[base.len() - 1] == '/' {
        base + name
    } else {
        base + seq!['/'] + name
    }
}

/// Joins a path component onto a base path.
pub fn join_path(base: &str, name: &str) -> (r: String)
    ensures
        r@ == spec_join(base@, name@),
{
    let nlen = name.unicode_len();
    if nlen > 0 && name.get_char(0) == '/' {
        return name.to_owned();
    }
    let blen = base.unicode_len();
    let mut out = base.to_owned();
    if blen == 0 {
        out.append(name);
        assert(out@ =~= name@);
    } else if base.get_char(blen - 1) == '/' {
        out.append(name);
    } else {
        crate::strutil::push_char(&mut out, '/');
        out.append(name);
        assert(out@ =~= base@ + seq!['/'] + name@);
    }
    out
}

/// Whether a path starts with a `~` component.
pub open spec fn spec_has_tilde(path: Seq<char>) -> bool {
    path.len() >= 1 && path[0] == '~' && (path.len() == 1 || path[1] == '/')
}

/// A path with a leading `~` component resolved against the given home
/// directory; a path without one stands as it is.
pub open spec fn spec_resolve_with_home(path: Seq<char>, home: Option<Seq<char>>) -> Option<
    Seq<char>,
> {
    if spec_has_tilde(path) {
        match home {
            Some(h) => Some(
                if path.len() == 1 {
                    h
                } else {
                    spec_join(h, path.skip(2))
                },
            ),
            None => None,
        }
    } else {
        Some(path)
    }
}

/// Resolves a leading `~` component against the given home directory.
pub fn resolve_with_home(path: &str, home: Option<&str>) -> (r: Option<String>)
    ensures
        match r {
            Some(s) => Some(s@) == spec_resolve_with_home(
                path@,
                match home {
                    Some(h) => Some(h@),
                    None => None,
                },
            ),
            None => spec_resolve_with_home(
                path@,
                match home {
                    Some(h) => Some(h@),
                    None => None,
                },
            ) is None,
        },
{
    let plen = path.unicode_len();
    let tilde = plen >= 1 && path.get_char(0) == '~' && (plen == 1 || path.get_char(1) == '/');
    if !tilde {
        return Some(path.to_owned());
    }
    match home {
        Some(h) => {
            if plen == 1 {
                Some(h.to_owned())
            } else {
                let rest = path.substring_char(2, plen);
                Some(join_path(h, rest))
            }
        },
        None => None,
    }
}

/// The position of the last occurrence of `c`, if any.
pub open spec fn spec_rfind(s: Seq<char>, c: char) -> Option<int>
    decreases s.len(),
{
    if s.len() == 0 {
        None
    } else if s[s.len() - 1] == c {
        Some(s.len() - 1)
    } else {
        spec_rfind(s.drop_last(), c)
    }
}

/// The last path component.
pub open spec fn spec_file_name(s: Seq<char>) -> Seq<char> {
    match spec_rfind(s, '/') {
        Some(i) => s.skip(i + 1),
        None => s,
    }
}

/// The extension of the last component: what follows its last `.`, when
/// that dot is not its first character.
pub open spec fn spec_extension(s: Seq<char>) -> Option<Seq<char>> {
    let name = spec_file_name(s);
    match spec_rfind(name, '.') {
        Some(i) => if i > 0 {
            Some(name.skip(i + 1))
        } else {
            None
        },
        None => None,
    }
}

/// The stem of the last component: the part before its extension.
pub open spec fn spec_stem(s: Seq<char>) -> Seq<char> {
    let name = spec_file_name(s);
    match spec_rfind(name, '.') {
        Some(i) => if i > 0 {
            name.take(i)
        } else {
            name
        },
        None => name,
    }
}

pub open spec fn spec_is_yaml_file(s: Seq<char>) -> bool {
    spec_extension(s) == Some("yaml"@)
}

proof fn lemma_rfind_at(s: Seq<char>, i: int, c: char)
    requires
        0 <= i < s.len(),
        s[i] == c,
        forall|j: int| i < j < s.len() ==> s[j] != c,
    ensures
        spec_rfind(s, c) == Some(i),
    decreases s.len(),
{
    if i == s.len() - 1 {
    } else {
        lemma_rfind_at(s.drop_last(), i, c);
    }
}

proof fn lemma_rfind_none(s: Seq<char>, c: char)
    requires
        forall|j: int| 0 <= j < s.len() ==> s[j] != c,
    ensures
        spec_rfind(s, c) is None,
    decreases s.len(),
{
    if s.len() > 0 {
        lemma_rfind_none(s.drop_last(), c);
    }
}

/// Finds the last occurrence of `c` in `s`.
fn rfind(s: &str, c: char) -> (r: Option<usize>)
    ensures
        match r {
            Some(i) => i < s@.len() && spec_rfind(s@, c) == Some(i as int),
            None => spec_rfind(s@, c) is None,
        },
{
    let n = s.unicode_len();
    let mut i: usize = n;
    while i > 0
        invariant
            i <= n,
            n == s@.len(),
            forall|j: int| i <= j < n ==> s@[j] != c,
        decreases i,
    {
        i = i - 1;
        if s.get_char(i) == c {
            proof {
                lemma_rfind_at(s@, i as int, c);
            }
            return Some(i);
        }
    }
    proof {
        lemma_rfind_none(s@, c);
    }
    None
}

/// The stem of a path naming a `.yaml` file; `None` for any other path.
fn stem_if_yaml(path: &str) -> (r: Option<String>)
    ensures
        match r {
            Some(st) => spec_is_yaml_file(path@) && st@ == spec_stem(path@),
            None => !spec_is_yaml_file(path@),
        },
{
    let n = path.unicode_len();
    let start: usize = match rfind(path, '/') {
        Some(i) => i + 1,
        None => 0,
    };
    let name = path.substring_char(start, n);
    proof {
        assert(name@ =~= spec_file_name(path@));
    }
    let m = name.unicode_len();
    match rfind(name, '.') {
        Some(d) => {
            if d == 0 {
                return None;
            }
            let ext = name.substring_char(d + 1, m);
            proof {
                assert(ext@ =~= spec_file_name(path@).skip(d as int + 1));
            }
            if crate::strutil::str_eq(ext, "yaml") {
                let stem = name.substring_char(0, d);
                proof {
                    assert(stem@ =~= spec_file_name(path@).take(d as int));
                }
                Some(stem.to_owned())
            } else {
                None
            }
        },
        None => None,
    }
}

/// Whether the names are in lexicographic order.
pub open spec fn spec_sorted(vs: Seq<String>) -> bool {
    forall|i: int, j: int|
        0 <= i < j < vs.len() ==> crate::strutil::spec_lex_le(#[trigger] vs[i]@, #[trigger] vs[j]@)
}

/// Whether some element of `vs` holds the text `v`.
pub open spec fn view_in(vs: Seq<String>, v: Seq<char>) -> bool {
    exists|i: int| 0 <= i < vs.len() && (#[trigger] vs[i])@ == v
}

/// Inserts a name into a sorted list, keeping it sorted; the list gains
/// exactly that name.
fn insert_sorted(out: &mut Vec<String>, s: String)
    requires
        spec_sorted(old(out)@),
    ensures
        spec_sorted(final(out)@),
        final(out)@.len() == old(out)@.len() + 1,
        forall|v: Seq<char>| #[trigger]
            view_in(final(out)@, v) <==> (view_in(old(out)@, v) || v == s@),
{
    let n = out.len();
    let mut idx: usize = 0;
    while idx < n && crate::strutil::str_lex_le(out[idx].as_str(), s.as_str())
        invariant
            idx <= n,
            n == out@.len(),
            out@ == old(out)@,
            forall|k: int| 0 <= k < idx ==> crate::strutil::spec_lex_le((#[trigger] out@[k])@, s@),
        decreases n - idx,
    {
        idx = idx + 1;
    }
    proof {
        if idx < n {
            crate::strutil::lemma_lex_total(out@[idx as int]@, s@);
            assert forall|k: int| idx <= k < n implies crate::strutil::spec_lex_le(
                s@,
                (#[trigger] out@[k])@,
            ) by {
                if k > idx {
                    crate::strutil::lemma_lex_trans(s@, out@[idx as int]@, out@[k]@);
                }
            }
        }
    }
    let ghost pre = out@;
    let ghost gidx = idx as int;
    out.insert(idx, s);
    proof {
        pre.insert_ensures(gidx, s);
        assert forall|i: int, j: int| 0 <= i < j < out@.len() implies crate::strutil::spec_lex_le(
            (#[trigger] out@[i])@,
            (#[trigger] out@[j])@,
        ) by {
            if j < gidx {
            } else if i < gidx && j == gidx {
                assert(out@[i] == pre[i] && out@[j] == s);
            } else if i < gidx && j > gidx {
                assert(out@[i] == pre[i] && out@[j] == pre[j - 1]);
            } else if i == gidx {
                assert(out@[i] == s && out@[j] == pre[j - 1]);
            } else {
                assert(out@[i] == pre[i - 1] && out@[j] == pre[j - 1]);
            }
        }
        assert forall|v: Seq<char>| #[trigger]
            view_in(out@, v) <==> (view_in(pre, v) || v == s@) by {
            if view_in(out@, v) {
                let i = choose|i: int| 0 <= i < out@.len() && (#[trigger] out@[i])@ == v;
                if i < gidx {
                    assert(pre[i]@ == v);
                } else if i == gidx {
                } else {
                    assert(pre[i - 1]@ == v);
                }
            }
            if view_in(pre, v) {
                let i = choose|i: int| 0 <= i < pre.len() && (#[trigger] pre[i])@ == v;
                if i < gidx {
                    assert(out@[i]@ == v);
                } else {
                    assert(out@[i + 1]@ == v);
                }
            }
            if v == s@ {
                assert(out@[gidx]@ == v);
            }
        }
    }
}

/// The sorted base names of the `.yaml` files among the given paths: each
/// listed name is the stem of such a file, every such file's stem is
/// listed, and the names come out in lexicographic order.
pub fn theme_names(files: &Vec<String>) -> (r: Vec<String>)
    ensures
        spec_sorted(r@),
        forall|v: Seq<char>| #[trigger]
            view_in(r@, v) <==> exists|k: int|
                0 <= k < files@.len() && spec_is_yaml_file((#[trigger] files@[k])@) && v
                    == spec_stem(files@[k]@),
{
    let n = files.len();
    let mut out: Vec<String> = Vec::new();
    let mut i: usize = 0;
    while i < n
        invariant
            i <= n,
            n == files@.len(),
            spec_sorted(out@),
            forall|v: Seq<char>| #[trigger]
                view_in(out@, v) <==> exists|k: int|
                    0 <= k < i && spec_is_yaml_file((#[trigger] files@[k])@) && v == spec_stem(
                        files@[k]@,
                    ),
        decreases n - i,
    {
        let ghost pre = out@;
        match stem_if_yaml(files[i].as_str()) {
            Some(st) => {
                let ghost stv = st@;
                insert_sorted(&mut out, st);
                proof {
                    assert forall|v: Seq<char>| #[trigger]
                        view_in(out@, v) <==> exists|k: int|
                            0 <= k < i + 1 && spec_is_yaml_file((#[trigger] files@[k])@) && v
                                == spec_stem(files@[k]@) by {
                        if view_in(out@, v) {
                            if v == stv {
                                assert(spec_is_yaml_file(files@[i as int]@) && v == spec_stem(
                                    files@[i as int]@,
                                ));
                            }
                        }
                        if exists|k: int|
                            0 <= k < i + 1 && spec_is_yaml_file((#[trigger] files@[k])@) && v
                                == spec_stem(files@[k]@) {
                            let k = choose|k: int|
                                0 <= k < i + 1 && spec_is_yaml_file((#[trigger] files@[k])@) && v
                                    == spec_stem(files@[k]@);
                            if k < i {
                                assert(view_in(pre, v));
                            }
                        }
                    }
                }
            },
            None => {
                proof {
                    assert forall|v: Seq<char>| #[trigger]
                        view_in(out@, v) <==> exists|k: int|
                            0 <= k < i + 1 && spec_is_yaml_file((#[trigger] files@[k])@) && v
                                == spec_stem(files@[k]@) by {
                        if exists|k: int|
                            0 <= k < i + 1 && spec_is_yaml_file((#[trigger] files@[k])@) && v
                                == spec_stem(files@[k]@) {
                            let k = choose|k: int|
                                0 <= k < i + 1 && spec_is_yaml_file((#[trigger] files@[k])@) && v
                                    == spec_stem(files@[k]@);
                            assert(k < i);
                        }
                    }
                }
            },
        }
        i = i + 1;
    }
    out
}

/// Relies on `home::home_dir`: the user's home directory as a string, when
/// the environment provides one; the result depends on the environment.
#[verifier::external_body]
fn home_dir_string() -> (r: Option<String>) {
    home::home_dir().and_then(|p| p.to_str().map(|s| s.to_string()))
}

/// Resolves a leading `~` component against the home directory the
/// environment provides; a path without one stands as it is.
pub fn resolve_path(path: &str) -> (r: Option<String>)
    ensures
        match r {
            Some(s) => if spec_has_tilde(path@) {
                exists|h: Seq<char>|
                    Some(s@) == #[trigger] spec_resolve_with_home(path@, Some(h))
            } else {
                s@ == path@
            },
            None => spec_has_tilde(path@),
        },
{
    let home = home_dir_string();
    match home {
        Some(h) => {
            let r = resolve_with_home(path, Some(h.as_str()));
            proof {
                if r is Some && spec_has_tilde(path@) {
                    assert(Some(r->Some_0@) == spec_resolve_with_home(path@, Some(h@)));
                }
            }
            r
        },
        None => resolve_with_home(path, None),
    }
}

} // verus!
