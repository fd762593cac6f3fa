//! The structured, dynamically typed value model: the shape of a parsed
//! document, of merged variables, and of anything handed to a template
//! context or a hook environment.
use crate::strutil::push_char;
use vstd::prelude::*;

verus! {

broadcast use vstd::std_specs::vec::group_vec_axioms;

/// A dynamically typed value: null, boolean, number, string, sequence or
/// mapping.
///
/// A number keeps the decimal text of the scalar it was parsed from. A
/// mapping keeps its entries in insertion order with keys as parsed;
/// consumers that need string keys reject others explicitly.
#[derive(Debug, PartialEq)]
pub enum Val {
    Null,
    Bool(bool),
    Num(String),
    Str(String),
    List(Vec<Val>),
    Dict(Vec<(Val, Val)>),
}

/// The flat text form of a value, used when values are exported as
/// environment variables: scalars print naturally (a number dropping a
/// trailing `.0`), sequences as `[a, b]`, mappings as `{k: v}`.
pub open spec fn spec_serialize(v: Val) -> Seq<char>
    decreases v,
{
    match v {
        Val::Null => "null"@,
        Val::Bool(b) => if b {
            "true"@
        } else {
            "false"@
        },
        Val::Num(s) => spec_num_text(s@),
        Val::Str(s) => s@,
        Val::List(items) => seq!['['] + spec_serialize_list(items@) + seq![']'],
        Val::Dict(pairs) => seq!['{'] + spec_serialize_dict(pairs@) + seq!['}'],
    }
}

/// Numeric text with a trailing `.0` dropped, so integral floats print as
/// integers.
pub open spec fn spec_num_text(s: Seq<char>) -> Seq<char> {
    if s.len() >= 2 && s[s.len() - 2] == '.' && s[s.len() - 1] == '0' {
        s.subrange(0, s.len() - 2)
    } else {
        s
    }
}

pub open spec fn spec_serialize_list(s: Seq<Val>) -> Seq<char>
    decreases s,
{
    if s.len() == 0 {
        Seq::empty()
    } else if s.len() == 1 {
        spec_serialize(s[0])
    } else {
        spec_serialize(s[0]) + ", "@ + spec_serialize_list(s.drop_first())
    }
}

pub open spec fn spec_serialize_dict(s: Seq<(Val, Val)>) -> Seq<char>
    decreases s,
{
    if s.len() == 0 {
        Seq::empty()
    } else if s.len() == 1 {
        spec_serialize(s[0].0) + ": "@ + spec_serialize(s[0].1)
    } else {
        spec_serialize(s[0].0) + ": "@ + spec_serialize(s[0].1) + ", "@ + spec_serialize_dict(
            s.drop_first(),
        )
    }
}

impl Val {
    /// The flat text form of this value (see `spec_serialize`).
    pub fn serialize(&self) -> (r: String)
        ensures
            r@ == spec_serialize(*self),
        decreases *self,
    {
        match self {
            Val::Null => {
                let r = String::from_str("null");
                assert(r@ =~= spec_serialize(*self));
                r
            },
            Val::Bool(b) => {
                let r = if *b {
                    String::from_str("true")
                } else {
                    String::from_str("false")
                };
                assert(r@ =~= spec_serialize(*self));
                r
            },
            Val::Num(s) => num_text(s),
            Val::Str(s) => {
                let r = s.clone();
                assert(r@ =~= spec_serialize(*self));
                r
            },
            Val::List(items) => {
                let mut out = String::new();
                push_char(&mut out, '[');
                serialize_items(items, &mut out);
                push_char(&mut out, ']');
                assert(out@ =~= spec_serialize(*self));
                out
            },
            Val::Dict(pairs) => {
                let mut out = String::new();
                push_char(&mut out, '{');
                serialize_pairs(pairs, &mut out);
                push_char(&mut out, '}');
                assert(out@ =~= spec_serialize(*self));
                out
            },
        }
    }
}

/// Looks a string key up among mapping entries: the first entry whose key
/// is the string `k`.
pub open spec fn spec_dict_get(s: Seq<(Val, Val)>, k: Seq<char>) -> Option<Val>
    decreases s.len(),
{
    if s.len() == 0 {
        None
    } else if s[0].0 is Str && s[0].0->Str_0@ == k {
        Some(s[0].1)
    } else {
        spec_dict_get(s.drop_first(), k)
    }
}

/// The string bound to `k`, when the entry exists and holds a string.
pub open spec fn spec_get_str(s: Seq<(Val, Val)>, k: Seq<char>) -> Option<String> {
    match spec_dict_get(s, k) {
        Some(Val::Str(t)) => Some(t),
        _ => None,
    }
}

/// Finds the value bound to the string key `key` among mapping entries.
pub fn dict_get<'a>(pairs: &'a Vec<(Val, Val)>, key: &str) -> (r: Option<&'a Val>)
    ensures
        match r {
            Some(v) => spec_dict_get(pairs@, key@) == Some(*v),
            None => spec_dict_get(pairs@, key@) is None,
        },
{
    let n = pairs.len();
    let mut i: usize = 0;
    proof {
        assert(pairs@.skip(0) =~= pairs@);
    }
    while i < n
        invariant
            i <= n,
            n == pairs@.len(),
            spec_dict_get(pairs@, key@) == spec_dict_get(pairs@.skip(i as int), key@),
        decreases n - i,
    {
        let hit = match &pairs[i].0 {
            Val::Str(s) => crate::strutil::str_eq(s.as_str(), key),
            _ => false,
        };
        proof {
            assert(pairs@.skip(i as int)[0] == pairs@[i as int]);
        }
        if hit {
            return Some(&pairs[i].1);
        }
        proof {
            assert(pairs@.skip(i as int).drop_first() =~= pairs@.skip(i as int + 1));
        }
        i = i + 1;
    }
    proof {
        assert(pairs@.skip(n as int) =~= Seq::<(Val, Val)>::empty());
    }
    None
}

/// Whether a mapping entry binds the string key `k`.
pub open spec fn entry_matches(e: (Val, Val), k: Seq<char>) -> bool {
    e.0 is Str && e.0->Str_0@ == k
}

/// Removes the first entry bound to the string key `key` and hands its
/// value out; entries with other keys keep their lookup results.
pub fn dict_take(pairs: &mut Vec<(Val, Val)>, key: &str) -> (r: Option<Val>)
    ensures
        match r {
            Some(v) => spec_dict_get(old(pairs)@, key@) == Some(v),
            None => spec_dict_get(old(pairs)@, key@) is None && final(pairs)@ == old(pairs)@,
        },
        forall|k2: Seq<char>|
            k2 != key@ ==> #[trigger] spec_dict_get(final(pairs)@, k2) == spec_dict_get(
                old(pairs)@,
                k2,
            ),
{
    let n = pairs.len();
    let mut i: usize = 0;
    while i < n
        invariant
            i <= n,
            n == pairs@.len(),
            pairs@ == old(pairs)@,
            forall|j: int| 0 <= j < i ==> !entry_matches(#[trigger] pairs@[j], key@),
        decreases n - i,
    {
        let hit = match &pairs[i].0 {
            Val::Str(s) => crate::strutil::str_eq(s.as_str(), key),
            _ => false,
        };
        if hit {
            let entry = pairs.remove(i);
            proof {
                lemma_dict_get_first_match(old(pairs)@, i as int, key@);
                assert forall|k2: Seq<char>| k2 != key@ implies #[trigger] spec_dict_get(
                    pairs@,
                    k2,
                ) == spec_dict_get(old(pairs)@, k2) by {
                    lemma_dict_get_remove_other(old(pairs)@, i as int, k2);
                }
            }
            return Some(entry.1);
        }
        i = i + 1;
    }
    proof {
        lemma_dict_get_no_match(pairs@, key@);
    }
    None
}

/// When no entry before `i` matches and entry `i` does, the lookup finds
/// entry `i`.
proof fn lemma_dict_get_first_match(s: Seq<(Val, Val)>, i: int, k: Seq<char>)
    requires
        0 <= i < s.len(),
        forall|j: int| 0 <= j < i ==> !entry_matches(#[trigger] s[j], k),
        entry_matches(s[i], k),
    ensures
        spec_dict_get(s, k) == Some(s[i].1),
    decreases i,
{
    if i == 0 {
    } else {
        assert(!entry_matches(s[0], k));
        lemma_dict_get_first_match(s.drop_first(), i - 1, k);
        assert(s.drop_first()[i - 1] == s[i]);
    }
}

/// When no entry matches, the lookup finds nothing.
proof fn lemma_dict_get_no_match(s: Seq<(Val, Val)>, k: Seq<char>)
    requires
        forall|j: int| 0 <= j < s.len() ==> !entry_matches(#[trigger] s[j], k),
    ensures
        spec_dict_get(s, k) is None,
    decreases s.len(),
{
    if s.len() == 0 {
    } else {
        assert(!entry_matches(s[0], k));
        lemma_dict_get_no_match(s.drop_first(), k);
    }
}

/// Removing an entry that does not bind `k2` leaves the lookup of `k2`
/// unchanged.
proof fn lemma_dict_get_remove_other(s: Seq<(Val, Val)>, i: int, k2: Seq<char>)
    requires
        0 <= i < s.len(),
        !entry_matches(s[i], k2),
    ensures
        spec_dict_get(s.remove(i), k2) == spec_dict_get(s, k2),
    decreases i,
{
    if i == 0 {
        assert(s.remove(0) =~= s.drop_first());
    } else {
        assert(s.remove(i)[0] == s[0]);
        if entry_matches(s[0], k2) {
            assert(spec_dict_get(s.remove(i), k2) == Some(s.remove(i)[0].1));
        } else {
            assert(s.remove(i).drop_first() =~= s.drop_first().remove(i - 1));
            assert(s.drop_first()[i - 1] == s[i]);
            lemma_dict_get_remove_other(s.drop_first(), i - 1, k2);
        }
    }
}

/// Finds the string bound to `key`, when the entry exists and holds one.
pub fn dict_get_str(pairs: &Vec<(Val, Val)>, key: &str) -> (r: Option<String>)
    ensures
        match r {
            Some(s) => spec_get_str(pairs@, key@) == Some(s),
            None => spec_get_str(pairs@, key@) is None,
        },
{
    match dict_get(pairs, key) {
        Some(Val::Str(s)) => Some(s.clone()),
        _ => None,
    }
}

/// Numeric text with a trailing `.0` dropped.
fn num_text(s: &String) -> (r: String)
    ensures
        r@ == spec_num_text(s@),
{
    let n = s.as_str().unicode_len();
    if n >= 2 && s.as_str().get_char(n - 2) == '.' && s.as_str().get_char(n - 1) == '0' {
        let r = s.as_str().substring_char(0, n - 2);
        assert(r@ =~= spec_num_text(s@));
        r.to_owned()
    } else {
        s.clone()
    }
}

fn serialize_items(items: &Vec<Val>, out: &mut String)
    ensures
        final(out)@ == old(out)@ + spec_serialize_list(items@),
    decreases items,
{
    let ghost orig = out@;
    let n = items.len();
    let mut i: usize = 0;
    while i < n
        invariant
            n == items@.len(),
            i <= n,
            out@ == orig + spec_serialize_list_upto(items@, i as int),
        decreases n - i,
    {
        if i > 0 {
            out.append(", ");
        }
        proof {
            assert(decreases_to!(items => items@[i as int]));
        }
        let piece = (&items[i]).serialize();
        out.append(piece.as_str());
        proof {
            lemma_serialize_list_upto_step(items@, i as int);
        }
        i = i + 1;
    }
    proof {
        lemma_serialize_list_upto_full(items@);
    }
}

fn serialize_pairs(pairs: &Vec<(Val, Val)>, out: &mut String)
    ensures
        final(out)@ == old(out)@ + spec_serialize_dict(pairs@),
    decreases pairs,
{
    let ghost orig = out@;
    let n = pairs.len();
    let mut i: usize = 0;
    while i < n
        invariant
            n == pairs@.len(),
            i <= n,
            out@ == orig + spec_serialize_dict_upto(pairs@, i as int),
        decreases n - i,
    {
        if i > 0 {
            out.append(", ");
        }
        proof {
            assert(decreases_to!(pairs => pairs@[i as int]));
        }
        let piece_k = (&pairs[i].0).serialize();
        out.append(piece_k.as_str());
        out.append(": ");
        let piece_v = (&pairs[i].1).serialize();
        out.append(piece_v.as_str());
        proof {
            lemma_serialize_dict_upto_step(pairs@, i as int);
        }
        i = i + 1;
    }
    proof {
        lemma_serialize_dict_upto_full(pairs@);
    }
}

/// The serialized form of the first `i` elements, with separators placed as
/// in the full form.
pub open spec fn spec_serialize_list_upto(s: Seq<Val>, i: int) -> Seq<char>
    decreases i,
{
    if i <= 0 {
        Seq::empty()
    } else if i == 1 {
        spec_serialize(s[0])
    } else {
        spec_serialize_list_upto(s, i - 1) + ", "@ + spec_serialize(s[i - 1])
    }
}

pub open spec fn spec_serialize_dict_upto(s: Seq<(Val, Val)>, i: int) -> Seq<char>
    decreases i,
{
    if i <= 0 {
        Seq::empty()
    } else if i == 1 {
        spec_serialize(s[0].0) + ": "@ + spec_serialize(s[0].1)
    } else {
        spec_serialize_dict_upto(s, i - 1) + ", "@ + spec_serialize(s[i - 1].0) + ": "@
            + spec_serialize(s[i - 1].1)
    }
}

proof fn lemma_serialize_list_upto_step(s: Seq<Val>, i: int)
    requires
        0 <= i < s.len(),
    ensures
        i == 0 ==> spec_serialize_list_upto(s, 1) == spec_serialize(s[0]),
        i > 0 ==> spec_serialize_list_upto(s, i + 1) == spec_serialize_list_upto(s, i) + ", "@
            + spec_serialize(s[i]),
{
}

proof fn lemma_serialize_dict_upto_step(s: Seq<(Val, Val)>, i: int)
    requires
        0 <= i < s.len(),
    ensures
        i == 0 ==> spec_serialize_dict_upto(s, 1) == spec_serialize(s[0].0) + ": "@
            + spec_serialize(s[0].1),
        i > 0 ==> spec_serialize_dict_upto(s, i + 1) == spec_serialize_dict_upto(s, i) + ", "@
            + spec_serialize(s[i].0) + ": "@ + spec_serialize(s[i].1),
{
}

/// Taking every element gives the full serialized form.
proof fn lemma_serialize_list_upto_full(s: Seq<Val>)
    ensures
        spec_serialize_list_upto(s, s.len() as int) == spec_serialize_list(s),
    decreases s.len(),
{
    if s.len() == 0 {
    } else if s.len() == 1 {
    } else {
        lemma_serialize_list_upto_full(s.drop_first());
        lemma_serialize_list_upto_shift(s, s.len() as int);
        assert(spec_serialize_list(s) == spec_serialize(s[0]) + ", "@ + spec_serialize_list(
            s.drop_first(),
        ));
    }
}

proof fn lemma_serialize_dict_upto_full(s: Seq<(Val, Val)>)
    ensures
        spec_serialize_dict_upto(s, s.len() as int) == spec_serialize_dict(s),
    decreases s.len(),
{
    if s.len() == 0 {
    } else if s.len() == 1 {
    } else {
        lemma_serialize_dict_upto_full(s.drop_first());
        lemma_serialize_dict_upto_shift(s, s.len() as int);
        assert(spec_serialize_dict(s) == spec_serialize(s[0].0) + ": "@ + spec_serialize(s[0].1)
            + ", "@ + spec_serialize_dict(s.drop_first()));
    }
}

/// Splitting off the head commutes with the prefix form.
proof fn lemma_serialize_list_upto_shift(s: Seq<Val>, i: int)
    requires
        2 <= i <= s.len(),
    ensures
        spec_serialize_list_upto(s, i) == spec_serialize(s[0]) + ", "@ + spec_serialize_list_upto(
            s.drop_first(),
            i - 1,
        ),
    decreases i,
{
    if i == 2 {
        assert(s.drop_first()[0] == s[1]);
        assert(spec_serialize_list_upto(s, 1) == spec_serialize(s[0]));
        assert(spec_serialize_list_upto(s.drop_first(), 1) == spec_serialize(s[1]));
        assert(spec_serialize_list_upto(s, 2) == spec_serialize(s[0]) + ", "@ + spec_serialize(
            s[1],
        ));
    } else {
        lemma_serialize_list_upto_shift(s, i - 1);
        assert(s.drop_first()[i - 2] == s[i - 1]);
        assert((spec_serialize(s[0]) + ", "@ + spec_serialize_list_upto(s.drop_first(), i - 2))
            + ", "@ + spec_serialize(s[i - 1]) =~= spec_serialize(s[0]) + ", "@ + (
        spec_serialize_list_upto(s.drop_first(), i - 2) + ", "@ + spec_serialize(s[i - 1])));
    }
}

proof fn lemma_serialize_dict_upto_shift(s: Seq<(Val, Val)>, i: int)
    requires
        2 <= i <= s.len(),
    ensures
        spec_serialize_dict_upto(s, i) == spec_serialize(s[0].0) + ": "@ + spec_serialize(s[0].1)
            + ", "@ + spec_serialize_dict_upto(s.drop_first(), i - 1),
    decreases i,
{
    if i == 2 {
        assert(s.drop_first()[0] == s[1]);
        assert(spec_serialize_dict_upto(s, 1) == spec_serialize(s[0].0) + ": "@ + spec_serialize(
            s[0].1,
        ));
        assert(spec_serialize_dict_upto(s.drop_first(), 1) == spec_serialize(s[1].0) + ": "@
            + spec_serialize(s[1].1));
        assert(spec_serialize_dict_upto(s, 2) =~= spec_serialize(s[0].0) + ": "@ + spec_serialize(
            s[0].1,
        ) + ", "@ + spec_serialize_dict_upto(s.drop_first(), 1));
    } else {
        lemma_serialize_dict_upto_shift(s, i - 1);
        assert(s.drop_first()[i - 2] == s[i - 1]);
        assert((spec_serialize(s[0].0) + ": "@ + spec_serialize(s[0].1) + ", "@
            + spec_serialize_dict_upto(s.drop_first(), i - 2)) + ", "@ + spec_serialize(
            s[i - 1].0,
        ) + ": "@ + spec_serialize(s[i - 1].1) =~= spec_serialize(s[0].0) + ": "@ + spec_serialize(
            s[0].1,
        ) + ", "@ + (spec_serialize_dict_upto(s.drop_first(), i - 2) + ", "@ + spec_serialize(
            s[i - 1].0,
        ) + ": "@ + spec_serialize(s[i - 1].1)));
    }
}

} // verus!
