//! Character-sequence utilities used by the scanners: case folding, whitespace
//! trimming, line and word splitting, prefix / suffix / infix search and decimal
//! rendering, each specified over `Seq<char>`.
use vstd::prelude::*;

verus! {

// ── Specifications ────────────────────────────────────────────────────────────

/// Unicode `White_Space` (what `char::is_whitespace` and `str::trim` use).
pub open spec fn is_ws(c: char) -> bool {
    ||| c == '\t' || c == '\n' || c == '\u{0B}' || c == '\u{0C}' || c == '\r' || c == ' '
    ||| c == '\u{85}' || c == '\u{A0}' || c == '\u{1680}'
    ||| ('\u{2000}' <= c && c <= '\u{200A}')
    ||| c == '\u{2028}' || c == '\u{2029}' || c == '\u{202F}' || c == '\u{205F}' || c == '\u{3000}'
}

/// ASCII lower-casing of one character; other characters are kept.
pub open spec fn lower_char(c: char) -> char {
    if 'A' <= c && c <= 'Z' {
        ((c as u32) + 32) as char
    } else {
        c
    }
}

/// ASCII upper-casing of one character; other characters are kept.
pub open spec fn upper_char(c: char) -> char {
    if 'a' <= c && c <= 'z' {
        ((c as u32) - 32) as char
    } else {
        c
    }
}

/// ASCII lower-casing (`str::to_ascii_lowercase`).
pub open spec fn ascii_lower(s: Seq<char>) -> Seq<char> {
    Seq::new(s.len(), |i: int| lower_char(s[i]))
}

/// ASCII upper-casing (`str::to_ascii_uppercase`).
pub open spec fn ascii_upper(s: Seq<char>) -> Seq<char> {
    Seq::new(s.len(), |i: int| upper_char(s[i]))
}

/// ASCII case-insensitive equality (`str::eq_ignore_ascii_case`).
pub open spec fn eq_ignore_case(a: Seq<char>, b: Seq<char>) -> bool {
    ascii_lower(a) == ascii_lower(b)
}

/// Every character is ASCII.
pub open spec fn all_ascii(s: Seq<char>) -> bool {
    forall|i: int| 0 <= i < s.len() ==> (#[trigger] s[i] as u32) < 128
}

/// The Unicode lower-case mapping of a text, as `str::to_lowercase` gives it.
pub uninterp spec fn unicode_lower(s: Seq<char>) -> Seq<char>;

/// The Unicode upper-case mapping of a text, as `str::to_uppercase` gives it.
pub uninterp spec fn unicode_upper(s: Seq<char>) -> Seq<char>;

pub open spec fn has_prefix(s: Seq<char>, p: Seq<char>) -> bool {
    p.len() <= s.len() && s.subrange(0, p.len() as int) == p
}

pub open spec fn has_suffix(s: Seq<char>, p: Seq<char>) -> bool {
    p.len() <= s.len() && s.subrange(s.len() - p.len(), s.len() as int) == p
}

/// `p` occurs in `s` starting at index `i`.
pub open spec fn occurs_at<T>(s: Seq<T>, p: Seq<T>, i: int) -> bool {
    0 <= i && i + p.len() <= s.len() && s.subrange(i, i + p.len()) == p
}

/// `p` is an infix of `s`.
pub open spec fn has_infix<T>(s: Seq<T>, p: Seq<T>) -> bool {
    exists|i: int| occurs_at(s, p, i)
}

/// Number of leading whitespace characters.
pub open spec fn lead_ws(s: Seq<char>) -> nat
    decreases s.len(),
{
    if s.len() > 0 && is_ws(s[0]) {
        1 + lead_ws(s.drop_first())
    } else {
        0
    }
}

/// Number of trailing whitespace characters.
pub open spec fn trail_ws(s: Seq<char>) -> nat
    decreases s.len(),
{
    if s.len() > 0 && is_ws(s.last()) {
        1 + trail_ws(s.drop_last())
    } else {
        0
    }
}

pub proof fn lemma_lead_ws_bound(s: Seq<char>)
    ensures
        lead_ws(s) <= s.len(),
    decreases s.len(),
{
    if s.len() > 0 && is_ws(s[0]) {
        lemma_lead_ws_bound(s.drop_first());
    }
}

pub proof fn lemma_trail_ws_bound(s: Seq<char>)
    ensures
        trail_ws(s) <= s.len(),
    decreases s.len(),
{
    if s.len() > 0 && is_ws(s.last()) {
        lemma_trail_ws_bound(s.drop_last());
    }
}

pub open spec fn trim_start(s: Seq<char>) -> Seq<char> {
    s.subrange(lead_ws(s) as int, s.len() as int)
}

pub open spec fn trim_end(s: Seq<char>) -> Seq<char> {
    s.subrange(0, s.len() - trail_ws(s))
}

/// `str::trim`: both leading and trailing whitespace removed.
pub open spec fn trim(s: Seq<char>) -> Seq<char> {
    trim_end(trim_start(s))
}

/// Drops one trailing carriage return.
pub open spec fn strip_cr(s: Seq<char>) -> Seq<char> {
    if s.len() > 0 && s.last() == '\r' {
        s.drop_last()
    } else {
        s
    }
}

/// Lines of `s` after the partial line `cur`: split at `\n`, a `\r` right before
/// the `\n` dropped, no empty line after a final `\n` (as `str::lines`).
pub open spec fn lines_from(s: Seq<char>, cur: Seq<char>) -> Seq<Seq<char>>
    decreases s.len(),
{
    if s.len() == 0 {
        if cur.len() == 0 {
            seq![]
        } else {
            seq![cur]
        }
    } else if s[0] == '\n' {
        seq![strip_cr(cur)] + lines_from(s.drop_first(), seq![])
    } else {
        lines_from(s.drop_first(), cur.push(s[0]))
    }
}

/// The lines of `s`, as `str::lines` gives them.
pub open spec fn lines(s: Seq<char>) -> Seq<Seq<char>> {
    lines_from(s, seq![])
}

/// Maximal runs of non-whitespace characters after the partial word `cur`.
pub open spec fn words_from(s: Seq<char>, cur: Seq<char>) -> Seq<Seq<char>>
    decreases s.len(),
{
    if s.len() == 0 {
        if cur.len() == 0 {
            seq![]
        } else {
            seq![cur]
        }
    } else if is_ws(s[0]) {
        (if cur.len() == 0 {
            seq![]
        } else {
            seq![cur]
        }) + words_from(s.drop_first(), seq![])
    } else {
        words_from(s.drop_first(), cur.push(s[0]))
    }
}

/// `str::split_whitespace`.
pub open spec fn words(s: Seq<char>) -> Seq<Seq<char>> {
    words_from(s, seq![])
}

/// The pieces of `s` between occurrences of `c`, after the partial piece `cur`
/// (`str::split` with a character: empty pieces kept, at least one piece).
pub open spec fn split_from(s: Seq<char>, cur: Seq<char>, c: char) -> Seq<Seq<char>>
    decreases s.len(),
{
    if s.len() == 0 {
        seq![cur]
    } else if s[0] == c {
        seq![cur] + split_from(s.drop_first(), seq![], c)
    } else {
        split_from(s.drop_first(), cur.push(s[0]), c)
    }
}

/// `str::split` at a character.
pub open spec fn split_on(s: Seq<char>, c: char) -> Seq<Seq<char>> {
    split_from(s, seq![], c)
}

pub open spec fn digit_char(d: nat) -> char {
    if d == 0 { '0' }
    else if d == 1 { '1' }
    else if d == 2 { '2' }
    else if d == 3 { '3' }
    else if d == 4 { '4' }
    else if d == 5 { '5' }
    else if d == 6 { '6' }
    else if d == 7 { '7' }
    else if d == 8 { '8' }
    else { '9' }
}

/// Decimal rendering of a natural number, without leading zeros.
pub open spec fn decimal(n: nat) -> Seq<char>
    decreases n,
{
    if n < 10 {
        seq![digit_char(n)]
    } else {
        decimal(n / 10).push(digit_char(n % 10))
    }
}

/// Index of the first occurrence of `c` in `s`, if any.
pub open spec fn first_index(s: Seq<char>, c: char) -> Option<int>
    decreases s.len(),
{
    if s.len() == 0 {
        None
    } else if s[0] == c {
        Some(0)
    } else {
        match first_index(s.drop_first(), c) {
            Some(i) => Some(i + 1),
            None => None,
        }
    }
}

// ── Conversions ───────────────────────────────────────────────────────────────

/// The characters of a string slice (`str::chars`, collected).
#[verifier::external_body]
pub(crate) fn chars_of(s: &str) -> (v: Vec<char>)
    ensures
        v@ == s@,
{
    s.chars().collect()
}

/// `str::to_lowercase` of the text the characters make. Beside the name of
/// its result, the contract claims what the Unicode case mapping gives for
/// ASCII text: the ASCII letters `A`-`Z` become `a`-`z` and nothing else
/// changes.
#[verifier::external_body]
pub(crate) fn to_lower(s: &[char]) -> (r: Vec<char>)
    ensures
        r@ == unicode_lower(s@),
        all_ascii(s@) ==> r@ == ascii_lower(s@),
{
    s.iter().collect::<String>().to_lowercase().chars().collect()
}

/// `str::to_uppercase` of the text the characters make. Beside the name of
/// its result, the contract claims what the Unicode case mapping gives for
/// ASCII text: the ASCII letters `a`-`z` become `A`-`Z` and nothing else
/// changes.
#[verifier::external_body]
pub(crate) fn to_upper(s: &[char]) -> (r: Vec<char>)
    ensures
        r@ == unicode_upper(s@),
        all_ascii(s@) ==> r@ == ascii_upper(s@),
{
    s.iter().collect::<String>().to_uppercase().chars().collect()
}

/// A string made of the given characters (`FromIterator<&char> for String`).
#[verifier::external_body]
pub(crate) fn string_of(v: &[char]) -> (s: String)
    ensures
        s@ == v@,
{
    v.iter().collect()
}

// ── Executable operations ─────────────────────────────────────────────────────

pub fn is_whitespace(c: char) -> (b: bool)
    ensures
        b == is_ws(c),
{
    c == '\t' || c == '\n' || c == '\u{0B}' || c == '\u{0C}' || c == '\r' || c == ' ' || c
        == '\u{85}' || c == '\u{A0}' || c == '\u{1680}' || ('\u{2000}' <= c && c <= '\u{200A}')
        || c == '\u{2028}' || c == '\u{2029}' || c == '\u{202F}' || c == '\u{205F}' || c
        == '\u{3000}'
}

pub fn to_lower_char(c: char) -> (r: char)
    ensures
        r == lower_char(c),
{
    match c {
        'A' => 'a', 'B' => 'b', 'C' => 'c', 'D' => 'd', 'E' => 'e', 'F' => 'f', 'G' => 'g',
        'H' => 'h', 'I' => 'i', 'J' => 'j', 'K' => 'k', 'L' => 'l', 'M' => 'm', 'N' => 'n',
        'O' => 'o', 'P' => 'p', 'Q' => 'q', 'R' => 'r', 'S' => 's', 'T' => 't', 'U' => 'u',
        'V' => 'v', 'W' => 'w', 'X' => 'x', 'Y' => 'y', 'Z' => 'z',
        _ => c,
    }
}

pub fn to_ascii_lower(s: &[char]) -> (r: Vec<char>)
    ensures
        r@ == ascii_lower(s@),
{
    let mut r: Vec<char> = Vec::new();
    let mut i: usize = 0;
    while i < s.len()
        invariant
            i <= s.len(),
            r@ == ascii_lower(s@).take(i as int),
        decreases s.len() - i,
    {
        r.push(to_lower_char(s[i]));
        i = i + 1;
        assert(r@ =~= ascii_lower(s@).take(i as int));
    }
    assert(r@ =~= ascii_lower(s@));
    r
}

/// Equality of two character sequences.
pub fn chars_eq(a: &[char], b: &[char]) -> (r: bool)
    ensures
        r == (a@ == b@),
{
    if a.len() != b.len() {
        return false;
    }
    let mut i: usize = 0;
    while i < a.len()
        invariant
            a.len() == b.len(),
            i <= a.len(),
            a@.take(i as int) == b@.take(i as int),
        decreases a.len() - i,
    {
        if a[i] != b[i] {
            assert(a@[i as int] != b@[i as int]);
            return false;
        }
        i = i + 1;
        assert(a@.take(i as int) =~= b@.take(i as int));
    }
    assert(a@ =~= a@.take(a.len() as int));
    assert(b@ =~= b@.take(b.len() as int));
    true
}

/// Equality of two strings, compared as characters.
pub fn str_eq(a: &str, b: &str) -> (r: bool)
    ensures
        r == (a@ == b@),
{
    let x = chars_of(a);
    let y = chars_of(b);
    chars_eq(&x, &y)
}

/// Whether `p` occurs in `s` at index `i` (characters).
pub fn chars_at(s: &[char], p: &[char], i: usize) -> (r: bool)
    requires
        i <= s.len(),
    ensures
        r == occurs_at(s@, p@, i as int),
{
    if p.len() > s.len() - i {
        return false;
    }
    let mut j: usize = 0;
    while j < p.len()
        invariant
            i + p.len() <= s.len(),
            j <= p.len(),
            s@.subrange(i as int, i + j) == p@.take(j as int),
        decreases p.len() - j,
    {
        if s[i + j] != p[j] {
            assert(s@.subrange(i as int, i + p.len())[j as int] != p@[j as int]);
            return false;
        }
        j = j + 1;
        assert(s@.subrange(i as int, i + j) =~= p@.take(j as int));
    }
    assert(p@ =~= p@.take(p.len() as int));
    true
}

/// Whether `p` occurs in `s` at index `i` (bytes).
pub fn bytes_at(s: &[u8], p: &[u8], i: usize) -> (r: bool)
    requires
        i <= s.len(),
    ensures
        r == occurs_at(s@, p@, i as int),
{
    if p.len() > s.len() - i {
        return false;
    }
    let mut j: usize = 0;
    while j < p.len()
        invariant
            i + p.len() <= s.len(),
            j <= p.len(),
            s@.subrange(i as int, i + j) == p@.take(j as int),
        decreases p.len() - j,
    {
        if s[i + j] != p[j] {
            assert(s@.subrange(i as int, i + p.len())[j as int] != p@[j as int]);
            return false;
        }
        j = j + 1;
        assert(s@.subrange(i as int, i + j) =~= p@.take(j as int));
    }
    assert(p@ =~= p@.take(p.len() as int));
    true
}

pub fn starts_with(s: &[char], p: &[char]) -> (r: bool)
    ensures
        r == has_prefix(s@, p@),
{
    chars_at(s, p, 0)
}

pub fn ends_with(s: &[char], p: &[char]) -> (r: bool)
    ensures
        r == has_suffix(s@, p@),
{
    if p.len() > s.len() {
        return false;
    }
    chars_at(s, p, s.len() - p.len())
}

/// Whether `p` occurs anywhere in `s` (characters).
pub fn contains(s: &[char], p: &[char]) -> (r: bool)
    ensures
        r == has_infix(s@, p@),
{
    if p.len() > s.len() {
        assert forall|k: int| !occurs_at(s@, p@, k) by {}
        return false;
    }
    let limit = s.len() - p.len();
    let mut i: usize = 0;
    while i <= limit
        invariant
            p.len() <= s.len(),
            limit == s.len() - p.len(),
            i <= limit,
            forall|k: int| 0 <= k < i ==> !occurs_at(s@, p@, k),
        decreases limit - i,
    {
        if chars_at(s, p, i) {
            return true;
        }
        if i == limit {
            assert forall|k: int| !occurs_at(s@, p@, k) by {
                if 0 <= k < i {
                }
            }
            return false;
        }
        i = i + 1;
    }
    false
}

/// Whether `p` occurs anywhere in `s` (bytes).
pub fn contains_bytes(s: &[u8], p: &[u8]) -> (r: bool)
    ensures
        r == has_infix(s@, p@),
{
    if p.len() > s.len() {
        assert forall|k: int| !occurs_at(s@, p@, k) by {}
        return false;
    }
    let limit = s.len() - p.len();
    let mut i: usize = 0;
    while i <= limit
        invariant
            p.len() <= s.len(),
            limit == s.len() - p.len(),
            i <= limit,
            forall|k: int| 0 <= k < i ==> !occurs_at(s@, p@, k),
        decreases limit - i,
    {
        if bytes_at(s, p, i) {
            return true;
        }
        if i == limit {
            assert forall|k: int| !occurs_at(s@, p@, k) by {
                if 0 <= k < i {
                }
            }
            return false;
        }
        i = i + 1;
    }
    false
}

/// Index of the first occurrence of `c` in `s`.
pub fn find_char(s: &[char], c: char) -> (r: Option<usize>)
    ensures
        match r {
            Some(i) => first_index(s@, c) == Some(i as int),
            None => first_index(s@, c) is None,
        },
{
    let mut i: usize = 0;
    assert(s@.skip(0) =~= s@);
    while i < s.len()
        invariant
            i <= s.len(),
            first_index(s@, c) == (match first_index(s@.skip(i as int), c) {
                Some(k) => Some(k + i),
                None => None,
            }),
        decreases s.len() - i,
    {
        assert(s@.skip(i as int).drop_first() =~= s@.skip(i + 1));
        if s[i] == c {
            return Some(i);
        }
        i = i + 1;
    }
    None
}

pub fn trimmed(s: &[char]) -> (r: Vec<char>)
    ensures
        r@ == trim(s@),
{
    let n = s.len();
    let mut i: usize = 0;
    assert(s@.skip(0) =~= s@);
    while i < n && is_whitespace(s[i])
        invariant
            i <= n,
            n == s.len(),
            lead_ws(s@) == i + lead_ws(s@.skip(i as int)),
        decreases n - i,
    {
        assert(s@.skip(i as int).drop_first() =~= s@.skip(i + 1));
        i = i + 1;
    }
    let ghost t = s@.subrange(i as int, n as int);
    assert(t =~= s@.skip(i as int));
    assert(t.take(n - i) =~= t);
    let mut j: usize = n;
    while j > i && is_whitespace(s[j - 1])
        invariant
            i <= j <= n,
            n == s.len(),
            t == s@.subrange(i as int, n as int),
            trail_ws(t) == (n - j) + trail_ws(t.take(j - i)),
        decreases j,
    {
        assert(t.take(j - i).drop_last() =~= t.take(j - 1 - i));
        j = j - 1;
    }
    assert(t.take(j - i) =~= t.subrange(0, j - i));
    let mut r: Vec<char> = Vec::new();
    let mut k: usize = i;
    while k < j
        invariant
            i <= k <= j <= n,
            n == s.len(),
            r@ == s@.subrange(i as int, k as int),
        decreases j - k,
    {
        r.push(s[k]);
        k = k + 1;
        assert(r@ =~= s@.subrange(i as int, k as int));
    }
    assert(r@ =~= trim(s@));
    r
}

/// `str::lines`.
pub fn split_lines(s: &[char]) -> (r: Vec<Vec<char>>)
    ensures
        r.deep_view() == lines(s@),
{
    let mut out: Vec<Vec<char>> = Vec::new();
    let mut cur: Vec<char> = Vec::new();
    let mut i: usize = 0;
    assert(s@.skip(0) =~= s@);
    assert(out.deep_view() =~= Seq::<Seq<char>>::empty());
    while i < s.len()
        invariant
            i <= s.len(),
            out.deep_view() + lines_from(s@.skip(i as int), cur@) == lines(s@),
        decreases s.len() - i,
    {
        let ghost old_out = out.deep_view();
        let ghost old_cur = cur@;
        assert(s@.skip(i as int).drop_first() =~= s@.skip(i + 1));
        if s[i] == '\n' {
            if cur.len() > 0 && cur[cur.len() - 1] == '\r' {
                cur.pop();
            }
            assert(cur@ =~= strip_cr(old_cur));
            assert(cur.deep_view() =~= cur@);
            out.push(cur);
            cur = Vec::new();
            assert(out.deep_view() =~= old_out.push(strip_cr(old_cur)));
            assert(out.deep_view() + lines_from(s@.skip(i + 1), cur@) =~= old_out + (seq![
                strip_cr(old_cur),
            ] + lines_from(s@.skip(i + 1), seq![])));
        } else {
            cur.push(s[i]);
        }
        i = i + 1;
    }
    if cur.len() > 0 {
        let ghost old_out = out.deep_view();
        assert(cur.deep_view() =~= cur@);
        out.push(cur);
        assert(out.deep_view() =~= old_out + seq![cur@]);
    } else {
        assert(out.deep_view() =~= out.deep_view() + Seq::<Seq<char>>::empty());
    }
    out
}

/// `str::split_whitespace`.
pub fn split_words(s: &[char]) -> (r: Vec<Vec<char>>)
    ensures
        r.deep_view() == words(s@),
{
    let mut out: Vec<Vec<char>> = Vec::new();
    let mut cur: Vec<char> = Vec::new();
    let mut i: usize = 0;
    assert(s@.skip(0) =~= s@);
    assert(out.deep_view() =~= Seq::<Seq<char>>::empty());
    while i < s.len()
        invariant
            i <= s.len(),
            out.deep_view() + words_from(s@.skip(i as int), cur@) == words(s@),
        decreases s.len() - i,
    {
        let ghost old_out = out.deep_view();
        let ghost old_cur = cur@;
        assert(s@.skip(i as int).drop_first() =~= s@.skip(i + 1));
        if is_whitespace(s[i]) {
            if cur.len() > 0 {
                assert(cur.deep_view() =~= cur@);
                out.push(cur);
                cur = Vec::new();
                assert(out.deep_view() =~= old_out.push(old_cur));
                assert(out.deep_view() + words_from(s@.skip(i + 1), cur@) =~= old_out + (seq![
                    old_cur,
                ] + words_from(s@.skip(i + 1), seq![])));
            } else {
                assert(cur@ =~= Seq::<char>::empty());
                assert(words_from(s@.skip(i as int), cur@) =~= Seq::<Seq<char>>::empty()
                    + words_from(s@.skip(i + 1), seq![]));
            }
        } else {
            cur.push(s[i]);
        }
        i = i + 1;
    }
    if cur.len() > 0 {
        let ghost old_out = out.deep_view();
        assert(cur.deep_view() =~= cur@);
        out.push(cur);
        assert(out.deep_view() =~= old_out + seq![cur@]);
    } else {
        assert(out.deep_view() =~= out.deep_view() + Seq::<Seq<char>>::empty());
    }
    out
}

/// `str::split` at a character, collected.
pub fn split_char(s: &[char], c: char) -> (r: Vec<Vec<char>>)
    ensures
        r.deep_view() == split_on(s@, c),
{
    let mut out: Vec<Vec<char>> = Vec::new();
    let mut cur: Vec<char> = Vec::new();
    let mut i: usize = 0;
    assert(s@.skip(0) =~= s@);
    assert(out.deep_view() =~= Seq::<Seq<char>>::empty());
    while i < s.len()
        invariant
            i <= s.len(),
            out.deep_view() + split_from(s@.skip(i as int), cur@, c) == split_on(s@, c),
        decreases s.len() - i,
    {
        let ghost old_out = out.deep_view();
        let ghost old_cur = cur@;
        assert(s@.skip(i as int).drop_first() =~= s@.skip(i + 1));
        if s[i] == c {
            assert(cur.deep_view() =~= cur@);
            out.push(cur);
            cur = Vec::new();
            assert(out.deep_view() =~= old_out.push(old_cur));
            assert(out.deep_view() + split_from(s@.skip(i + 1), cur@, c) =~= old_out + (seq![old_cur]
                + split_from(s@.skip(i + 1), seq![], c)));
        } else {
            cur.push(s[i]);
        }
        i = i + 1;
    }
    let ghost old_out = out.deep_view();
    assert(cur.deep_view() =~= cur@);
    out.push(cur);
    assert(out.deep_view() =~= old_out + seq![cur@]);
    out
}

pub fn digit(d: u64) -> (c: char)
    requires
        d < 10,
    ensures
        c == digit_char(d as nat),
{
    if d == 0 { '0' }
    else if d == 1 { '1' }
    else if d == 2 { '2' }
    else if d == 3 { '3' }
    else if d == 4 { '4' }
    else if d == 5 { '5' }
    else if d == 6 { '6' }
    else if d == 7 { '7' }
    else if d == 8 { '8' }
    else { '9' }
}

/// Decimal digits of `n` (`u64::to_string`).
pub fn decimal_chars(n: u64) -> (r: Vec<char>)
    ensures
        r@ == decimal(n as nat),
    decreases n,
{
    if n < 10 {
        let mut r: Vec<char> = Vec::new();
        r.push(digit(n));
        assert(r@ =~= decimal(n as nat));
        r
    } else {
        let mut r = decimal_chars(n / 10);
        r.push(digit(n % 10));
        r
    }
}

/// Decimal rendering of `n` as a string.
pub fn decimal_string(n: u64) -> (r: String)
    ensures
        r@ == decimal(n as nat),
{
    let v = decimal_chars(n);
    string_of(&v)
}

// ── Decimal numbers ──────────────────────────────────────────────────────────

pub open spec fn is_digit(c: char) -> bool {
    '0' <= c && c <= '9'
}

pub open spec fn digits_value(s: Seq<char>) -> nat
    decreases s.len(),
{
    if s.len() == 0 {
        0
    } else {
        digits_value(s.drop_last()) * 10 + ((s.last() as nat) - ('0' as nat)) as nat
    }
}

/// The digits of a number text: without a leading `+`.
pub open spec fn unsigned_part(t: Seq<char>) -> Seq<char> {
    if t.len() > 0 && t[0] == '+' {
        t.drop_first()
    } else {
        t
    }
}

pub open spec fn all_digits(s: Seq<char>) -> bool {
    forall|i: int| 0 <= i < s.len() ==> is_digit(#[trigger] s[i])
}

/// The value of a decimal `u32` text (an optional `+`, then digits), as
/// `str::parse::<u32>` reads it.
pub open spec fn u32_of_text(t: Seq<char>) -> Option<u32> {
    let s = unsigned_part(t);
    if s.len() > 0 && all_digits(s) && digits_value(s) <= u32::MAX {
        Some(digits_value(s) as u32)
    } else {
        None
    }
}

proof fn lemma_digits_value_grows(s: Seq<char>, i: int)
    requires
        0 <= i <= s.len(),
        forall|k: int| 0 <= k < s.len() ==> is_digit(#[trigger] s[k]),
    ensures
        digits_value(s.take(i)) <= digits_value(s),
    decreases s.len() - i,
{
    if i < s.len() {
        lemma_digits_value_grows(s, i + 1);
        assert(s.take(i + 1).drop_last() =~= s.take(i));
    } else {
        assert(s.take(i) =~= s);
    }
}

/// Reads a decimal `u32` (an optional `+`, then digits), as `str::parse::<u32>` does.
pub fn parse_u32_text(t: &str) -> (r: Option<u32>)
    ensures
        r == u32_of_text(t@),
{
    let c = chars_of(t);
    let start: usize = if c.len() > 0 && c[0] == '+' { 1 } else { 0 };
    let ghost s = unsigned_part(t@);
    assert(s =~= c@.skip(start as int));
    if start >= c.len() {
        return None;
    }
    let cap: u64 = 4294967296;
    let mut acc: u64 = 0;
    let mut i: usize = start;
    while i < c.len()
        invariant
            start <= i <= c.len(),
            c@ == t@,
            s == unsigned_part(t@),
            s == c@.skip(start as int),
            cap == 4294967296,
            forall|k: int| 0 <= k < i - start ==> is_digit(#[trigger] s[k]),
            acc as nat == if digits_value(s.take(i - start)) < cap {
                digits_value(s.take(i - start))
            } else {
                cap as nat
            },
        decreases c.len() - i,
    {
        let ch = c[i];
        if !('0' <= ch && ch <= '9') {
            proof {
                assert(s[i - start] == ch);
                assert(!is_digit(s[i - start]));
                assert(s.len() == c.len() - start);
                assert(!all_digits(s));
            }
            return None;
        }
        let ghost prev = s.take(i - start);
        assert(s.take(i + 1 - start).drop_last() =~= prev);
        assert(s.take(i + 1 - start).last() == ch);
        let d = (ch as u32 - '0' as u32) as u64;
        if acc == cap {
            proof {
                assert(digits_value(s.take(i + 1 - start)) == digits_value(prev) * 10 + d);
                assert(digits_value(prev) * 10 + d >= cap) by (nonlinear_arith)
                    requires
                        digits_value(prev) >= cap,
                        cap == 4294967296,
                ;
            }
        } else {
            let next = acc * 10 + d;
            acc = if next < cap { next } else { cap };
        }
        i = i + 1;
    }
    proof {
        assert(s.take(c.len() - start) =~= s);
    }
    if acc < cap {
        Some(acc as u32)
    } else {
        None
    }
}

/// Splitting at a character gives at least one piece.
pub proof fn lemma_split_nonempty(s: Seq<char>, cur: Seq<char>, c: char)
    ensures
        split_from(s, cur, c).len() >= 1,
    decreases s.len(),
{
    if s.len() > 0 {
        if s[0] == c {
            lemma_split_nonempty(s.drop_first(), seq![], c);
        } else {
            lemma_split_nonempty(s.drop_first(), cur.push(s[0]), c);
        }
    }
}

proof fn lemma_digit_char(d: nat)
    requires
        d < 10,
    ensures
        digit_char(d) as nat == d + 48,
        is_digit(digit_char(d)),
{
}

/// A decimal rendering reads back as the number it renders, and its first
/// character is a digit.
pub proof fn lemma_decimal_reads_back(n: nat)
    ensures
        decimal(n).len() > 0,
        all_digits(decimal(n)),
        digits_value(decimal(n)) == n,
    decreases n,
{
    lemma_digit_char(n % 10);
    if n < 10 {
        assert(decimal(n).drop_last() =~= Seq::<char>::empty());
        assert(digits_value(decimal(n)) == digits_value(Seq::<char>::empty()) * 10 + ((digit_char(n) as nat) - ('0' as nat)) as nat);
    } else {
        lemma_decimal_reads_back(n / 10);
        let d = decimal(n / 10);
        let s = decimal(n);
        assert(s.drop_last() =~= d);
        assert(s.last() == digit_char(n % 10));
        assert(digits_value(s) == digits_value(d) * 10 + ((s.last() as nat) - ('0' as nat)) as nat);
        assert(digits_value(s) == (n / 10) * 10 + n % 10);
        assert(n == (n / 10) * 10 + n % 10);
    }
}

} // verus!
