//! File names and extensions of `/`-separated paths, as `std::path::Path`
//! reads them on Unix.
use vstd::prelude::*;
use crate::text::{chars_eq, chars_of, unicode_lower, split_char, split_on, string_of, to_lower};

verus! {

/// A path component that names something (not empty, not `.`).
pub open spec fn is_named(c: Seq<char>) -> bool {
    c.len() > 0 && c != seq!['.']
}

/// The named components of a path, in order.
pub open spec fn named_components(cs: Seq<Seq<char>>) -> Seq<Seq<char>>
    decreases cs.len(),
{
    if cs.len() == 0 {
        seq![]
    } else if is_named(cs.last()) {
        named_components(cs.drop_last()).push(cs.last())
    } else {
        named_components(cs.drop_last())
    }
}

/// `Path::file_name`: the last component, unless it is `..` or there is none.
pub open spec fn file_name_of(path: Seq<char>) -> Option<Seq<char>> {
    let cs = named_components(split_on(path, '/'));
    if cs.len() == 0 || cs.last() == seq!['.', '.'] {
        None
    } else {
        Some(cs.last())
    }
}

/// Index of the last `c` in `s`.
pub open spec fn last_index(s: Seq<char>, c: char) -> Option<int>
    decreases s.len(),
{
    if s.len() == 0 {
        None
    } else if s.last() == c {
        Some(s.len() - 1)
    } else {
        last_index(s.drop_last(), c)
    }
}

/// `Path::extension` of a file name: what follows its last `.`, unless that
/// `.` is its first character or it has none.
pub open spec fn extension_of_name(name: Seq<char>) -> Option<Seq<char>> {
    match last_index(name, '.') {
        Some(k) => if k == 0 {
            None
        } else {
            Some(name.skip(k + 1))
        },
        None => None,
    }
}

/// The extension of a path, lower-cased; empty when it has none.
pub open spec fn lower_extension(path: Seq<char>) -> Seq<char> {
    match file_name_of(path) {
        Some(n) => match extension_of_name(n) {
            Some(e) => unicode_lower(e),
            None => seq![],
        },
        None => seq![],
    }
}

/// The file name of a path (see [`file_name_of`]).
pub fn file_name(path: &str) -> (r: Option<String>)
    ensures
        match r {
            Some(s) => file_name_of(path@) == Some(s@),
            None => file_name_of(path@) is None,
        },
{
    let parts = split_char(&chars_of(path), '/');
    let ghost pv = parts.deep_view();
    let mut last: Option<usize> = None;
    let mut i: usize = 0;
    while i < parts.len()
        invariant
            i <= parts.len(),
            pv == parts.deep_view(),
            match last {
                Some(k) => k < i && named_components(pv.take(i as int)).len() > 0
                    && named_components(pv.take(i as int)).last() == pv[k as int],
                None => named_components(pv.take(i as int)).len() == 0,
            },
        decreases parts.len() - i,
    {
        assert(pv.take(i + 1).drop_last() =~= pv.take(i as int));
        assert(pv[i as int] =~= parts@[i as int]@);
        let named = parts[i].len() > 0 && !(parts[i].len() == 1 && parts[i][0] == '.');
        proof {
            if parts[i as int].len() == 1 && parts[i as int][0] == '.' {
                assert(pv[i as int] =~= seq!['.']);
            }
            if parts[i as int].len() > 0 && !(parts[i as int].len() == 1 && parts[i as int][0] == '.') {
                assert(pv[i as int] != seq!['.']) by {
                    if pv[i as int] == seq!['.'] {
                        assert(pv[i as int].len() == 1);
                    }
                }
            }
        }
        if named {
            last = Some(i);
        }
        i = i + 1;
    }
    assert(pv.take(parts.len() as int) =~= pv);
    match last {
        None => None,
        Some(k) => {
            let p = &parts[k];
            assert(pv[k as int] =~= p@);
            if p.len() == 2 && p[0] == '.' && p[1] == '.' {
                assert(p@ =~= seq!['.', '.']);
                None
            } else {
                proof {
                    if p@ == seq!['.', '.'] {
                        assert(p@.len() == 2);
                    }
                }
                Some(string_of(p))
            }
        },
    }
}

/// Index of the last `c` in `s`.
pub fn find_last(s: &[char], c: char) -> (r: Option<usize>)
    ensures
        match r {
            Some(k) => k < s.len() && last_index(s@, c) == Some(k as int),
            None => last_index(s@, c) is None,
        },
{
    let mut k: usize = s.len();
    assert(s@.take(s.len() as int) =~= s@);
    while k > 0
        invariant
            k <= s.len(),
            last_index(s@, c) == last_index(s@.take(k as int), c),
        decreases k,
    {
        assert(s@.take(k as int).drop_last() =~= s@.take(k - 1));
        assert(s@.take(k as int).last() == s@[k - 1]);
        if s[k - 1] == c {
            return Some(k - 1);
        }
        k = k - 1;
    }
    None
}

/// The lower-cased extension of a path; empty when it has none.
pub fn extension_lower(path: &str) -> (r: Vec<char>)
    ensures
        r@ == lower_extension(path@),
{
    match file_name(path) {
        None => Vec::new(),
        Some(n) => {
            let c = chars_of(n.as_str());
            match find_last(&c, '.') {
                Some(k) => if k == 0 {
                    Vec::new()
                } else {
                    let mut e: Vec<char> = Vec::new();
                    let mut i: usize = k + 1;
                    while i < c.len()
                        invariant
                            k + 1 <= i <= c.len(),
                            e@ == c@.subrange(k + 1, i as int),
                        decreases c.len() - i,
                    {
                        e.push(c[i]);
                        i = i + 1;
                        assert(e@ =~= c@.subrange(k + 1, i as int));
                    }
                    assert(e@ =~= c@.skip(k + 1));
                    to_lower(&e)
                },
                None => Vec::new(),
            }
        },
    }
}

} // verus!
