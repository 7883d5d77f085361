//! Lookup tables of string pairs: first-match search by exact key and by
//! infix, specified over the table's view.
use vstd::prelude::*;
use crate::text::{chars_eq, chars_of, contains, has_infix, has_prefix, starts_with};

verus! {

/// The view of a table of string pairs.
pub open spec fn pairs_view(t: Seq<(&'static str, &'static str)>) -> Seq<(Seq<char>, Seq<char>)> {
    Seq::new(t.len(), |i: int| (t[i].0@, t[i].1@))
}

/// The value of the first entry whose key equals `k`.
pub open spec fn assoc(t: Seq<(Seq<char>, Seq<char>)>, k: Seq<char>) -> Option<Seq<char>>
    decreases t.len(),
{
    if t.len() == 0 {
        None
    } else if t[0].0 == k {
        Some(t[0].1)
    } else {
        assoc(t.drop_first(), k)
    }
}

/// The value of the first entry whose key occurs in `s`.
pub open spec fn assoc_infix(t: Seq<(Seq<char>, Seq<char>)>, s: Seq<char>) -> Option<Seq<char>>
    decreases t.len(),
{
    if t.len() == 0 {
        None
    } else if has_infix(s, t[0].0) {
        Some(t[0].1)
    } else {
        assoc_infix(t.drop_first(), s)
    }
}

/// The value of the first entry whose key is a prefix of `s`.
pub open spec fn assoc_prefix(t: Seq<(Seq<char>, Seq<char>)>, s: Seq<char>) -> Option<Seq<char>>
    decreases t.len(),
{
    if t.len() == 0 {
        None
    } else if has_prefix(s, t[0].0) {
        Some(t[0].1)
    } else {
        assoc_prefix(t.drop_first(), s)
    }
}

/// How an entry's key is matched against the searched text.
#[derive(Clone, Copy)]
pub enum KeyMatch {
    Exact,
    Infix,
    Prefix,
}

pub open spec fn assoc_by(
    t: Seq<(Seq<char>, Seq<char>)>,
    s: Seq<char>,
    how: KeyMatch,
) -> Option<Seq<char>> {
    match how {
        KeyMatch::Exact => assoc(t, s),
        KeyMatch::Infix => assoc_infix(t, s),
        KeyMatch::Prefix => assoc_prefix(t, s),
    }
}

pub open spec fn opt_str_view(o: Option<&'static str>) -> Option<Seq<char>> {
    match o {
        Some(v) => Some(v@),
        None => None,
    }
}

/// First entry of `t` whose key matches `s` in the way `how` says; its value.
pub fn lookup(t: &Vec<(&'static str, &'static str)>, s: &[char], how: KeyMatch) -> (r: Option<
    &'static str,
>)
    ensures
        opt_str_view(r) == assoc_by(pairs_view(t@), s@, how),
{
    let ghost full = pairs_view(t@);
    let mut i: usize = 0;
    assert(full.skip(0) =~= full);
    while i < t.len()
        invariant
            i <= t.len(),
            full == pairs_view(t@),
            assoc_by(full, s@, how) == assoc_by(full.skip(i as int), s@, how),
        decreases t.len() - i,
    {
        assert(full.skip(i as int).drop_first() =~= full.skip(i + 1));
        let key = chars_of(t[i].0);
        let hit = match how {
            KeyMatch::Exact => chars_eq(&key, s),
            KeyMatch::Infix => contains(s, &key),
            KeyMatch::Prefix => starts_with(s, &key),
        };
        if hit {
            return Some(t[i].1);
        }
        i = i + 1;
    }
    None
}

/// The view of a list of strings.
pub open spec fn strs_view(t: Seq<&'static str>) -> Seq<Seq<char>> {
    t.map_values(|x: &'static str| x@)
}

/// Whether `s` is one of the strings of `t`.
pub fn contains_str(t: &Vec<&'static str>, s: &[char]) -> (b: bool)
    ensures
        b == strs_view(t@).contains(s@),
{
    let ghost tv = strs_view(t@);
    let mut i: usize = 0;
    while i < t.len()
        invariant
            i <= t.len(),
            tv == strs_view(t@),
            forall|k: int| 0 <= k < i ==> tv[k] != s@,
        decreases t.len() - i,
    {
        assert(tv[i as int] == t@[i as int]@);
        if chars_eq(&chars_of(t[i]), s) {
            return true;
        }
        i = i + 1;
    }
    false
}

} // verus!
