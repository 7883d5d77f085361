//! `.acdignore` suppression rules.
//!
//! Format (one rule per line, `#` for comments):
//!
//!   algorithm:<name>                       — suppress all findings for this algorithm
//!   path:<glob>                            — suppress findings from matching file paths
//!   path:<glob> algorithm:<name>           — suppress specific combination
//!   evidence:<type>                        — suppress by evidence type
//!
//! Glob patterns: `*` matches any non-`/` sequence; `**` matches anything.
use vstd::prelude::*;
use crate::model::{AssetView, CryptoAsset, Evidence, Location, LocationView};
use crate::text::{
    chars_eq, chars_of, eq_ignore_case, has_prefix, is_ws, lines, lines_from, strip_cr, unicode_lower, starts_with, to_ascii_lower, to_lower,
    trim, trimmed, split_lines, split_words, string_of, words,
};

verus! {

// ── Specification ─────────────────────────────────────────────────────────────

/// A rule: every condition it has must hold.
pub struct RuleView {
    pub path_glob: Option<Seq<char>>,
    pub algorithm: Option<Seq<char>>,
    pub evidence: Option<Seq<char>>,
}

/// Index of the first `/` at or after `i` (or the length).
pub open spec fn slash_end(t: Seq<char>, i: int) -> int
    decreases t.len() - i,
{
    if i >= t.len() {
        t.len() as int
    } else if t[i] == '/' {
        i
    } else {
        slash_end(t, i + 1)
    }
}

/// Where matching resumes after a `**` at `pi` (a `/` right after it is skipped).
pub open spec fn after_double_star(p: Seq<char>, pi: int) -> int {
    if pi + 2 < p.len() && p[pi + 2] == '/' {
        pi + 3
    } else {
        pi + 2
    }
}

/// Some start `i` with `from <= i <= last` makes `t[i..]` match `p[r..]`.
pub open spec fn glob_some(t: Seq<char>, from: int, last: int, p: Seq<char>, r: int) -> bool
    decreases p.len() - r, 2int, last - from,
{
    if from > last || from < 0 || r < 0 || r > p.len() {
        false
    } else {
        glob_from(t, from, p, r) || (from < last && glob_some(t, from + 1, last, p, r))
    }
}

/// `t[ti..]` matches the pattern `p[pi..]`: `**` matches any sequence, `*` any
/// sequence without `/`, other characters themselves.
pub open spec fn glob_from(t: Seq<char>, ti: int, p: Seq<char>, pi: int) -> bool
    decreases p.len() - pi, 1int, t.len() - ti,
{
    if pi >= p.len() || pi < 0 || ti < 0 {
        ti >= t.len()
    } else if p[pi] == '*' {
        if pi + 1 < p.len() && p[pi + 1] == '*' {
            glob_some(t, ti, t.len() as int, p, after_double_star(p, pi))
        } else {
            glob_some(t, ti, slash_end(t, ti), p, pi + 1)
        }
    } else if ti >= t.len() {
        false
    } else {
        t[ti] == p[pi] && glob_from(t, ti + 1, p, pi + 1)
    }
}

pub open spec fn glob(t: Seq<char>, p: Seq<char>) -> bool {
    glob_from(t, 0, p, 0)
}

/// Backslashes turned into forward slashes.
pub open spec fn forward_slashes(s: Seq<char>) -> Seq<char> {
    Seq::new(s.len(), |i: int| if s[i] == '\\' { '/' } else { s[i] })
}

pub open spec fn path_glob_match(path: Seq<char>, g: Seq<char>) -> bool {
    glob(forward_slashes(path), forward_slashes(g))
}

/// The name of an evidence type in rules and reports.
pub open spec fn evidence_label(e: Evidence) -> Seq<char> {
    match e {
        Evidence::CertificateParsing => "certificate-parsing"@,
        Evidence::TlsHandshake => "tls-handshake"@,
        Evidence::SourceCodePattern => "source-code-pattern"@,
        Evidence::BinaryStringSearch => "binary-string-search"@,
        Evidence::ConfigFileRule => "config-file-rule"@,
        Evidence::ManifestDependency => "manifest-dependency"@,
        Evidence::ElfSymbol => "elf-symbol"@,
        Evidence::JarClassFile => "jar-class-file"@,
    }
}

pub open spec fn rule_matches(r: RuleView, a: AssetView) -> bool {
    &&& (r.algorithm matches Some(al) ==> eq_ignore_case(al, a.name))
    &&& (r.evidence matches Some(ev) ==> eq_ignore_case(ev, evidence_label(a.evidence)))
    &&& (r.path_glob matches Some(g) ==> some_location_matches(a.locations, g))
}

/// Some location's source matches the glob.
pub open spec fn some_location_matches(locs: Seq<LocationView>, g: Seq<char>) -> bool {
    exists|i: int| 0 <= i < locs.len() && #[trigger] path_glob_match(locs[i].source, g)
}

/// Applies the tokens of a rule line, left to right, to the conditions read so
/// far; `None` when a token is not a condition.
pub open spec fn rule_from_tokens(toks: Seq<Seq<char>>, acc: RuleView) -> Option<RuleView>
    decreases toks.len(),
{
    if toks.len() == 0 {
        if acc.path_glob is None && acc.algorithm is None && acc.evidence is None {
            None
        } else {
            Some(acc)
        }
    } else {
        let t = toks[0];
        if has_prefix(t, "algorithm:"@) {
            rule_from_tokens(toks.drop_first(), RuleView { algorithm: Some(t.skip("algorithm:"@.len() as int)), ..acc })
        } else if has_prefix(t, "path:"@) {
            rule_from_tokens(toks.drop_first(), RuleView { path_glob: Some(t.skip("path:"@.len() as int)), ..acc })
        } else if has_prefix(t, "evidence:"@) {
            rule_from_tokens(
                toks.drop_first(),
                RuleView { evidence: Some(unicode_lower(t.skip("evidence:"@.len() as int))), ..acc },
            )
        } else {
            None
        }
    }
}

pub open spec fn empty_rule() -> RuleView {
    RuleView { path_glob: None, algorithm: None, evidence: None }
}

/// The rule a (trimmed) line states, if any.
pub open spec fn parse_rule_line(line: Seq<char>) -> Option<RuleView> {
    rule_from_tokens(words(line), empty_rule())
}

/// Whether a line is blank or a comment.
pub open spec fn skipped_line(line: Seq<char>) -> bool {
    let t = trim(line);
    t.len() == 0 || t[0] == '#'
}

/// The rules of a list of lines, in order.
pub open spec fn rules_of_lines(ls: Seq<Seq<char>>) -> Seq<RuleView>
    decreases ls.len(),
{
    if ls.len() == 0 {
        seq![]
    } else {
        let rest = rules_of_lines(ls.drop_first());
        if skipped_line(ls[0]) {
            rest
        } else {
            match parse_rule_line(trim(ls[0])) {
                Some(r) => seq![r] + rest,
                None => rest,
            }
        }
    }
}

pub open spec fn rules_of_text(text: Seq<char>) -> Seq<RuleView> {
    rules_of_lines(lines(text))
}

// ── Types ─────────────────────────────────────────────────────────────────────

#[derive(Debug)]
struct IgnoreRule {
    /// Glob pattern against asset location paths (None = any path).
    path_glob: Option<String>,
    /// Algorithm name to match (None = any algorithm, case-insensitive).
    algorithm: Option<String>,
    /// Evidence type to match, lower-cased (None = any evidence).
    evidence: Option<String>,
}

impl View for IgnoreRule {
    type V = RuleView;

    closed spec fn view(&self) -> RuleView {
        RuleView {
            path_glob: crate::model::opt_view(self.path_glob),
            algorithm: crate::model::opt_view(self.algorithm),
            evidence: crate::model::opt_view(self.evidence),
        }
    }
}

/// Loaded set of ignore rules.
pub struct IgnoreList {
    rules: Vec<IgnoreRule>,
}

impl View for IgnoreList {
    type V = Seq<RuleView>;

    closed spec fn view(&self) -> Seq<RuleView> {
        Seq::new(self.rules@.len(), |i: int| self.rules@[i]@)
    }
}

// ── Matching ──────────────────────────────────────────────────────────────────

fn slash_end_exec(t: &[char], start: usize) -> (r: usize)
    requires
        start <= t.len(),
    ensures
        r == slash_end(t@, start as int),
        start <= r <= t.len(),
{
    let mut i = start;
    while i < t.len() && t[i] != '/'
        invariant
            start <= i <= t.len(),
            slash_end(t@, start as int) == slash_end(t@, i as int),
        decreases t.len() - i,
    {
        i = i + 1;
    }
    i
}

/// Whether some start `i` with `from <= i <= last` makes `t[i..]` match `p[r..]`.
fn glob_some_exec(t: &[char], from: usize, last: usize, p: &[char], r: usize) -> (res: bool)
    requires
        from <= last <= t.len(),
        r <= p.len(),
    ensures
        res == glob_some(t@, from as int, last as int, p@, r as int),
    decreases p.len() - r, 2int, 0int,
{
    let mut i = from;
    while i <= last
        invariant
            from <= i <= last,
            last <= t.len(),
            r <= p.len(),
            glob_some(t@, from as int, last as int, p@, r as int) == glob_some(
                t@,
                i as int,
                last as int,
                p@,
                r as int,
            ),
        decreases last - i,
    {
        if glob_at(t, i, p, r) {
            return true;
        }
        if i == last {
            return false;
        }
        i = i + 1;
    }
    false
}

fn glob_at(t: &[char], ti: usize, p: &[char], pi: usize) -> (res: bool)
    requires
        ti <= t.len(),
        pi <= p.len(),
    ensures
        res == glob_from(t@, ti as int, p@, pi as int),
    decreases p.len() - pi, 1int, t.len() - ti,
{
    if pi == p.len() {
        return ti == t.len();
    }
    if p[pi] == '*' {
        if pi + 1 < p.len() && p[pi + 1] == '*' {
            let rest = if pi + 2 < p.len() && p[pi + 2] == '/' {
                pi + 3
            } else {
                pi + 2
            };
            return glob_some_exec(t, ti, t.len(), p, rest);
        } else {
            let end = slash_end_exec(t, ti);
            return glob_some_exec(t, ti, end, p, pi + 1);
        }
    }
    if ti == t.len() {
        return false;
    }
    if t[ti] != p[pi] {
        return false;
    }
    glob_at(t, ti + 1, p, pi + 1)
}

pub fn forward_slashes_exec(s: &[char]) -> (r: Vec<char>)
    ensures
        r@ == forward_slashes(s@),
{
    let mut r: Vec<char> = Vec::new();
    let mut i: usize = 0;
    while i < s.len()
        invariant
            i <= s.len(),
            r@ == forward_slashes(s@).take(i as int),
        decreases s.len() - i,
    {
        let c = if s[i] == '\\' {
            '/'
        } else {
            s[i]
        };
        r.push(c);
        i = i + 1;
        assert(r@ =~= forward_slashes(s@).take(i as int));
    }
    assert(r@ =~= forward_slashes(s@));
    r
}

/// Whether a path matches a glob (backslashes read as `/` on both sides).
pub fn path_glob_matches(path: &str, g: &str) -> (r: bool)
    ensures
        r == path_glob_match(path@, g@),
{
    let t = forward_slashes_exec(&chars_of(path));
    let p = forward_slashes_exec(&chars_of(g));
    glob_at(&t, 0, &p, 0)
}

/// The label of an evidence kind, as the reports and `.acdignore` rules write it.
pub fn evidence_text(e: &Evidence) -> (s: &'static str)
    ensures
        s@ == evidence_label(*e),
{
    match e {
        Evidence::CertificateParsing => "certificate-parsing",
        Evidence::TlsHandshake => "tls-handshake",
        Evidence::SourceCodePattern => "source-code-pattern",
        Evidence::BinaryStringSearch => "binary-string-search",
        Evidence::ConfigFileRule => "config-file-rule",
        Evidence::ManifestDependency => "manifest-dependency",
        Evidence::ElfSymbol => "elf-symbol",
        Evidence::JarClassFile => "jar-class-file",
    }
}

/// ASCII case-insensitive equality of two strings.
pub fn eq_ignore_ascii_case(a: &str, b: &str) -> (r: bool)
    ensures
        r == eq_ignore_case(a@, b@),
{
    let x = to_ascii_lower(&chars_of(a));
    let y = to_ascii_lower(&chars_of(b));
    chars_eq(&x, &y)
}

/// Whether an evidence condition names the given evidence type.
pub fn evidence_matches(spec: &str, ev: &Evidence) -> (r: bool)
    ensures
        r == eq_ignore_case(spec@, evidence_label(*ev)),
{
    eq_ignore_ascii_case(spec, evidence_text(ev))
}

impl IgnoreRule {
    fn matches(&self, asset: &CryptoAsset) -> (r: bool)
        ensures
            r == rule_matches(self@, asset@),
    {
        if let Some(algo) = &self.algorithm {
            if !eq_ignore_ascii_case(algo, &asset.name) {
                return false;
            }
        }
        if let Some(ev) = &self.evidence {
            if !evidence_matches(ev, &asset.evidence) {
                return false;
            }
        }
        if let Some(g) = &self.path_glob {
            let ghost locs = asset@.locations;
            let mut i: usize = 0;
            while i < asset.locations.len()
                invariant
                    i <= asset.locations.len(),
                    locs == asset@.locations,
                    self@.path_glob == Some(g@),
                    self@.algorithm matches Some(al) ==> eq_ignore_case(al, asset@.name),
                    self@.evidence matches Some(ev) ==> eq_ignore_case(ev, evidence_label(asset@.evidence)),
                    forall|k: int| 0 <= k < i ==> !path_glob_match(locs[k].source, g@),
                decreases asset.locations.len() - i,
            {
                if path_glob_matches(&asset.locations[i].source, g) {
                    assert(locs[i as int] == asset.locations@[i as int]@);
                    assert(path_glob_match(locs[i as int].source, g@));
                    assert(some_location_matches(asset@.locations, g@));
                    return true;
                }
                i = i + 1;
            }
            return false;
        }
        true
    }
}

// ── Parsing ───────────────────────────────────────────────────────────────────

fn strip_lit(t: &[char], lit: &str) -> (r: Option<Vec<char>>)
    ensures
        match r {
            Some(v) => has_prefix(t@, lit@) && v@ == t@.skip(lit@.len() as int),
            None => !has_prefix(t@, lit@),
        },
{
    let p = chars_of(lit);
    if !starts_with(t, &p) {
        return None;
    }
    let mut v: Vec<char> = Vec::new();
    let mut i = p.len();
    while i < t.len()
        invariant
            p.len() <= i <= t.len(),
            v@ == t@.subrange(p.len() as int, i as int),
        decreases t.len() - i,
    {
        v.push(t[i]);
        i = i + 1;
        assert(v@ =~= t@.subrange(p.len() as int, i as int));
    }
    Some(v)
}

fn parse_rule(line: &[char]) -> (r: Option<IgnoreRule>)
    ensures
        match r {
            Some(rule) => parse_rule_line(line@) == Some(rule@),
            None => parse_rule_line(line@) is None,
        },
{
    let toks = split_words(line);
    let ghost all = toks.deep_view();
    let mut path_glob: Option<String> = None;
    let mut algorithm: Option<String> = None;
    let mut evidence: Option<String> = None;
    let mut i: usize = 0;
    assert(all.skip(0) =~= all);
    while i < toks.len()
        invariant
            i <= toks.len(),
            all == toks.deep_view(),
            all == words(line@),
            rule_from_tokens(all, empty_rule()) == rule_from_tokens(
                all.skip(i as int),
                RuleView {
                    path_glob: crate::model::opt_view(path_glob),
                    algorithm: crate::model::opt_view(algorithm),
                    evidence: crate::model::opt_view(evidence),
                },
            ),
        decreases toks.len() - i,
    {
        assert(all.skip(i as int).drop_first() =~= all.skip(i + 1));
        assert(all.skip(i as int)[0] == toks[i as int]@);
        let tok = &toks[i];
        if let Some(v) = strip_lit(tok, "algorithm:") {
            algorithm = Some(string_of(&v));
        } else if let Some(v) = strip_lit(tok, "path:") {
            path_glob = Some(string_of(&v));
        } else if let Some(v) = strip_lit(tok, "evidence:") {
            let l = to_lower(&v);
            evidence = Some(string_of(&l));
        } else {
            return None;
        }
        i = i + 1;
    }
    if path_glob.is_none() && algorithm.is_none() && evidence.is_none() {
        return None;
    }
    Some(IgnoreRule { path_glob, algorithm, evidence })
}

impl IgnoreList {
    pub fn empty() -> (r: Self)
        ensures
            r@ == Seq::<RuleView>::empty(),
    {
        let r = IgnoreList { rules: Vec::new() };
        assert(r@ =~= Seq::<RuleView>::empty());
        r
    }

    /// Parses rule text: one rule per line; blank and `#` lines skipped; a line
    /// with a token that is not a condition states no rule.
    pub fn parse(text: &str) -> (r: Self)
        ensures
            r@ == rules_of_text(text@),
    {
        let ls = split_lines(&chars_of(text));
        let ghost all = ls.deep_view();
        let mut rules: Vec<IgnoreRule> = Vec::new();
        let mut i = ls.len();
        // Walk backwards so that the specification's right fold is mirrored.
        assert(all.skip(ls.len() as int) =~= Seq::<Seq<char>>::empty());
        while i > 0
            invariant
                i <= ls.len(),
                all == ls.deep_view(),
                all == lines(text@),
                Seq::new(rules@.len(), |k: int| rules@[k]@) == rules_of_lines(all.skip(i as int)),
            decreases i,
        {
            i = i - 1;
            let ghost old_rules = Seq::new(rules@.len(), |k: int| rules@[k]@);
            assert(all.skip(i as int).drop_first() =~= all.skip(i + 1));
            assert(all.skip(i as int)[0] == ls[i as int]@);
            let t = trimmed(&ls[i]);
            if t.len() == 0 || t[0] == '#' {
            } else {
                if let Some(rule) = parse_rule(&t) {
                    let ghost rv = rule@;
                    rules.insert(0, rule);
                    assert(Seq::new(rules@.len(), |k: int| rules@[k]@) =~= seq![rv] + old_rules);
                }
            }
        }
        assert(all.skip(0) =~= all);
        IgnoreList { rules }
    }

    /// Returns `true` if the asset should be suppressed: some rule matches it.
    pub fn suppresses(&self, asset: &CryptoAsset) -> (r: bool)
        ensures
            r == exists|i: int| 0 <= i < self@.len() && rule_matches(#[trigger] self@[i], asset@),
    {
        let mut i: usize = 0;
        while i < self.rules.len()
            invariant
                i <= self.rules.len(),
                forall|k: int| 0 <= k < i ==> !rule_matches(#[trigger] self@[k], asset@),
            decreases self.rules.len() - i,
        {
            if self.rules[i].matches(asset) {
                assert(rule_matches(self@[i as int], asset@));
                return true;
            }
            i = i + 1;
        }
        false
    }

    pub fn len(&self) -> (n: usize)
        ensures
            n == self@.len(),
    {
        self.rules.len()
    }

    pub fn is_empty(&self) -> (b: bool)
        ensures
            b == (self@.len() == 0),
    {
        self.rules.len() == 0
    }
}

// ── Laws of the glob syntax ───────────────────────────────────────────────────

proof fn lemma_lines_from_split(s1: Seq<char>, s2: Seq<char>, cur: Seq<char>)
    requires
        s1.len() > 0,
        s1.last() == '\n',
    ensures
        lines_from(s1 + s2, cur) == lines_from(s1, cur) + lines_from(s2, seq![]),
    decreases s1.len(),
{
    assert((s1 + s2).drop_first() =~= s1.drop_first() + s2);
    assert((s1 + s2)[0] == s1[0]);
    if s1[0] == '\n' {
        if s1.len() == 1 {
            assert(s1.drop_first() + s2 =~= s2);
            assert(lines_from(s1.drop_first(), seq![]) =~= Seq::<Seq<char>>::empty());
            assert(lines_from(s1, cur) =~= seq![strip_cr(cur)]);
        } else {
            lemma_lines_from_split(s1.drop_first(), s2, seq![]);
            assert(lines_from(s1 + s2, cur) =~= lines_from(s1, cur) + lines_from(s2, seq![]));
        }
    } else {
        lemma_lines_from_split(s1.drop_first(), s2, cur.push(s1[0]));
    }
}

proof fn lemma_rules_of_lines_concat(l1: Seq<Seq<char>>, l2: Seq<Seq<char>>)
    ensures
        rules_of_lines(l1 + l2) == rules_of_lines(l1) + rules_of_lines(l2),
    decreases l1.len(),
{
    if l1.len() == 0 {
        assert(l1 + l2 =~= l2);
    } else {
        assert((l1 + l2).drop_first() =~= l1.drop_first() + l2);
        assert((l1 + l2)[0] == l1[0]);
        lemma_rules_of_lines_concat(l1.drop_first(), l2);
        assert(rules_of_lines(l1 + l2) =~= rules_of_lines(l1) + rules_of_lines(l2));
    }
}

/// Two rule texts, the first ending with a newline (or empty), joined into one
/// give the rules of the first followed by those of the second, so the rule
/// counts add up.
pub proof fn lemma_rules_of_joined_texts(t1: Seq<char>, t2: Seq<char>)
    requires
        t1.len() == 0 || t1.last() == '\n',
    ensures
        rules_of_text(t1 + t2) == rules_of_text(t1) + rules_of_text(t2),
        rules_of_text(t1 + t2).len() == rules_of_text(t1).len() + rules_of_text(t2).len(),
{
    if t1.len() == 0 {
        assert(t1 + t2 =~= t2);
        assert(lines(t1) =~= Seq::<Seq<char>>::empty());
        assert(rules_of_text(t1) =~= Seq::<RuleView>::empty());
        assert(rules_of_text(t1 + t2) =~= rules_of_text(t1) + rules_of_text(t2));
    } else {
        lemma_lines_from_split(t1, t2, seq![]);
        lemma_rules_of_lines_concat(lines(t1), lines(t2));
    }
}

proof fn lemma_some_reaches_end(t: Seq<char>, from: int, p: Seq<char>)
    requires
        0 <= from <= t.len(),
    ensures
        glob_some(t, from, t.len() as int, p, p.len() as int),
    decreases t.len() - from,
{
    assert(glob_from(t, from, p, p.len() as int) == (from >= t.len()));
    if from < t.len() {
        lemma_some_reaches_end(t, from + 1, p);
    }
}

proof fn lemma_literal_prefix(prefix: Seq<char>, rest: Seq<char>, tail: Seq<char>, k: int)
    requires
        0 <= k <= prefix.len(),
        forall|i: int| 0 <= i < prefix.len() ==> prefix[i] != '*',
        glob_from(prefix + rest, prefix.len() as int, prefix + tail, prefix.len() as int),
    ensures
        glob_from(prefix + rest, k, prefix + tail, k),
    decreases prefix.len() - k,
{
    if k < prefix.len() {
        lemma_literal_prefix(prefix, rest, tail, k + 1);
        assert((prefix + rest)[k] == prefix[k]);
        assert((prefix + tail)[k] == prefix[k]);
    }
}

/// A `**` glob after a literal prefix (such as `vendor/**`) matches every path
/// that starts with the prefix, however deep.
pub proof fn lemma_double_star_matches_subtree(prefix: Seq<char>, rest: Seq<char>)
    requires
        forall|i: int| 0 <= i < prefix.len() ==> prefix[i] != '*',
    ensures
        glob(prefix + rest, prefix + "**"@),
{
    reveal_strlit("**");
    let t = prefix + rest;
    let p = prefix + "**"@;
    let k = prefix.len() as int;
    assert(p[k] == '*' && p[k + 1] == '*');
    assert(after_double_star(p, k) == p.len());
    lemma_some_reaches_end(t, k, p);
    lemma_literal_prefix(prefix, rest, "**"@, 0);
}

proof fn lemma_slash_end_bounds(t: Seq<char>, i: int)
    requires
        0 <= i <= t.len(),
    ensures
        i <= slash_end(t, i) <= t.len(),
        slash_end(t, i) < t.len() ==> t[slash_end(t, i)] == '/',
        forall|j: int| i <= j < slash_end(t, i) ==> t[j] != '/',
    decreases t.len() - i,
{
    if i < t.len() && t[i] != '/' {
        lemma_slash_end_bounds(t, i + 1);
    }
}

proof fn lemma_some_end_only(t: Seq<char>, from: int, last: int, p: Seq<char>)
    requires
        0 <= from,
        last <= t.len(),
    ensures
        glob_some(t, from, last, p, p.len() as int) == (from <= last && last == t.len()),
    decreases last - from,
{
    assert(glob_from(t, from, p, p.len() as int) == (from >= t.len()));
    if from < last {
        lemma_some_end_only(t, from + 1, last, p);
    }
}

/// A single `*` matches within one directory level: the glob `*` matches
/// exactly the paths without a `/`.
pub proof fn lemma_single_star_stays_in_directory(t: Seq<char>)
    ensures
        glob(t, "*"@) <==> !t.contains('/'),
{
    reveal_strlit("*");
    let p = "*"@;
    assert(p.len() == 1 && p[0] == '*');
    lemma_slash_end_bounds(t, 0);
    let e = slash_end(t, 0);
    lemma_some_end_only(t, 0, e, p);
    if t.contains('/') {
        let j = choose|j: int| 0 <= j < t.len() && t[j] == '/';
        assert(e <= j);
    } else {
        if e < t.len() {
            assert(t[e] == '/');
        }
    }
}

} // verus!
