//! The decisions of one `scan` run: which findings survive the ignore rules,
//! the order in which they are reported, whether `--fail-on` trips, and the
//! change report of watch mode.
use vstd::prelude::*;
use vstd::multiset::Multiset;
use crate::cli::{FailOn, OutputFormat};
use crate::ignore::{IgnoreList, RuleView, rule_matches};
use crate::model::{AssetView, CryptoAsset, Risk};
use crate::text::{decimal, decimal_string};

verus! {

// ── --fail-on ─────────────────────────────────────────────────────────────────

/// The lowest risk that trips a `--fail-on` threshold. `low` trips on any
/// finding at all, so its floor is the bottom of the scale.
pub open spec fn threshold_risk(f: FailOn) -> Risk {
    match f {
        FailOn::Low => Risk::NoRisk,
        FailOn::Medium => Risk::Medium,
        FailOn::High => Risk::High,
        FailOn::Critical => Risk::Critical,
    }
}

pub fn fail_on_to_risk(fail_on: &FailOn) -> (r: Risk)
    ensures
        r == threshold_risk(*fail_on),
{
    match fail_on {
        FailOn::Low => Risk::NoRisk,
        FailOn::Medium => Risk::Medium,
        FailOn::High => Risk::High,
        FailOn::Critical => Risk::Critical,
    }
}

/// An asset meets a threshold when its HNDL risk is at or above it.
pub open spec fn meets(a: AssetView, t: Risk) -> bool {
    a.hndl_risk.rank() >= t.rank()
}

/// Whether one or more assets meet or exceed the `--fail-on` threshold.
pub fn threshold_exceeded(assets: &Vec<CryptoAsset>, threshold: &FailOn) -> (b: bool)
    ensures
        b == exists|i: int|
            0 <= i < assets@.len() && meets(#[trigger] assets@[i]@, threshold_risk(*threshold)),
{
    let t = fail_on_to_risk(threshold);
    let mut i: usize = 0;
    while i < assets.len()
        invariant
            i <= assets.len(),
            t == threshold_risk(*threshold),
            forall|k: int| 0 <= k < i ==> !meets(#[trigger] assets@[k]@, t),
        decreases assets.len() - i,
    {
        if assets[i].hndl_risk.at_least(&t) {
            assert(meets(assets@[i as int]@, t));
            return true;
        }
        i = i + 1;
    }
    false
}

// ── Suppression and ordering ──────────────────────────────────────────────────

/// Whether some rule of the list matches the asset.
pub open spec fn suppressed(rules: Seq<RuleView>, a: AssetView) -> bool {
    exists|i: int| 0 <= i < rules.len() && rule_matches(#[trigger] rules[i], a)
}

/// The assets that no rule suppresses, in the order they came.
pub open spec fn unsuppressed(s: Seq<AssetView>, rules: Seq<RuleView>) -> Seq<AssetView>
    decreases s.len(),
{
    if s.len() == 0 {
        Seq::empty()
    } else {
        let rest = unsuppressed(s.drop_last(), rules);
        if suppressed(rules, s.last()) {
            rest
        } else {
            rest.push(s.last())
        }
    }
}

/// The assets of the given risk, in the order they came.
pub open spec fn risk_group(s: Seq<AssetView>, r: Risk) -> Seq<AssetView>
    decreases s.len(),
{
    if s.len() == 0 {
        Seq::empty()
    } else {
        let rest = risk_group(s.drop_last(), r);
        if s.last().hndl_risk == r {
            rest.push(s.last())
        } else {
            rest
        }
    }
}

/// A stable sort by HNDL risk, highest first: the Critical assets, then the
/// High ones, and so on, each group in the order it came.
pub open spec fn by_risk_desc(s: Seq<AssetView>) -> Seq<AssetView> {
    risk_group(s, Risk::Critical) + risk_group(s, Risk::High) + risk_group(s, Risk::Medium)
        + risk_group(s, Risk::Low) + risk_group(s, Risk::NoRisk)
}

/// The findings a scan reports, from the findings of each file: all of them in
/// file order, less those that a rule suppresses, highest risk first.
pub open spec fn scan_result(per_file: Seq<Seq<AssetView>>, rules: Seq<RuleView>) -> Seq<
    AssetView,
> {
    by_risk_desc(unsuppressed(per_file.flatten(), rules))
}

/// Risk never increases along the sequence.
pub open spec fn sorted_by_risk_desc(s: Seq<AssetView>) -> bool {
    forall|i: int, j: int|
        0 <= i < j < s.len() ==> (#[trigger] s[i]).hndl_risk.rank() >= (#[trigger] s[j]).hndl_risk.rank()
}

/// Appends the assets of `src` that have risk `r`, in order.
fn collect_group(src: &Vec<CryptoAsset>, r: Risk, out: &mut Vec<CryptoAsset>)
    ensures
        final(out).deep_view() == old(out).deep_view() + risk_group(src.deep_view(), r),
{
    let ghost s = src.deep_view();
    let ghost start = out.deep_view();
    let mut i: usize = 0;
    while i < src.len()
        invariant
            i <= src.len(),
            s == src.deep_view(),
            out.deep_view() == start + risk_group(s.take(i as int), r),
        decreases src.len() - i,
    {
        let ghost before = out.deep_view();
        proof {
            assert(s.take(i + 1).drop_last() =~= s.take(i as int));
            assert(s.take(i + 1).last() == src@[i as int]@);
        }
        if src[i].hndl_risk == r {
            out.push(src[i].duplicate());
            assert(out.deep_view() =~= before.push(src@[i as int]@));
        }
        i = i + 1;
    }
    assert(s.take(src.len() as int) =~= s);
}

/// The findings a scan reports: the per-file findings concatenated, those that
/// `ignore` suppresses removed, and the rest ordered by HNDL risk, highest
/// first, keeping the file order within one risk level.
pub fn finalize_assets(results: &Vec<Vec<CryptoAsset>>, ignore: &IgnoreList) -> (r: Vec<
    CryptoAsset,
>)
    ensures
        r.deep_view() == scan_result(results.deep_view(), ignore@),
{
    broadcast use Seq::lemma_flatten_push;

    let ghost all = results.deep_view();
    let ghost rules = ignore@;
    let mut kept: Vec<CryptoAsset> = Vec::new();
    let mut i: usize = 0;
    while i < results.len()
        invariant
            i <= results.len(),
            all == results.deep_view(),
            rules == ignore@,
            kept.deep_view() == unsuppressed(all.take(i as int).flatten(), rules),
        decreases results.len() - i,
    {
        let file = &results[i];
        let ghost before = all.take(i as int).flatten();
        let ghost fdv = file.deep_view();
        assert(fdv == all[i as int]);
        assert(fdv.take(0) =~= Seq::<AssetView>::empty());
        assert(before + fdv.take(0) =~= before);
        let mut j: usize = 0;
        while j < file.len()
            invariant
                j <= file.len(),
                fdv == file.deep_view(),
                rules == ignore@,
                kept.deep_view() == unsuppressed(before + fdv.take(j as int), rules),
            decreases file.len() - j,
        {
            let a = &file[j];
            let sup = ignore.suppresses(a);
            let ghost ks = kept.deep_view();
            proof {
                let x = before + fdv.take(j + 1);
                assert(x.drop_last() =~= before + fdv.take(j as int));
                assert(x.last() == a@);
                assert(sup == suppressed(rules, a@));
            }
            if !sup {
                kept.push(a.duplicate());
                assert(kept.deep_view() =~= ks.push(a@));
            }
            j = j + 1;
        }
        proof {
            assert(fdv.take(file.len() as int) =~= fdv);
            assert(all.take(i + 1) =~= all.take(i as int).push(all[i as int]));
            all.take(i as int).lemma_flatten_push(fdv);
            assert(all.take(i + 1).flatten() =~= before + fdv);
        }
        i = i + 1;
    }
    assert(all.take(results.len() as int) =~= all);
    let mut out: Vec<CryptoAsset> = Vec::new();
    collect_group(&kept, Risk::Critical, &mut out);
    collect_group(&kept, Risk::High, &mut out);
    collect_group(&kept, Risk::Medium, &mut out);
    collect_group(&kept, Risk::Low, &mut out);
    collect_group(&kept, Risk::NoRisk, &mut out);
    let ghost k = kept.deep_view();
    assert(out.deep_view() =~= by_risk_desc(k));
    out
}

// ── Laws of the ordering ──────────────────────────────────────────────────────

proof fn lemma_risk_group_uniform(s: Seq<AssetView>, r: Risk)
    ensures
        forall|k: int|
            0 <= k < risk_group(s, r).len() ==> (#[trigger] risk_group(s, r)[k]).hndl_risk == r,
    decreases s.len(),
{
    if s.len() > 0 {
        lemma_risk_group_uniform(s.drop_last(), r);
    }
}

/// The reported findings are ordered by HNDL risk, highest first.
pub proof fn lemma_by_risk_desc_sorted(s: Seq<AssetView>)
    ensures
        sorted_by_risk_desc(by_risk_desc(s)),
{
    let g1 = risk_group(s, Risk::Critical);
    let g2 = risk_group(s, Risk::High);
    let g3 = risk_group(s, Risk::Medium);
    let g4 = risk_group(s, Risk::Low);
    let g5 = risk_group(s, Risk::NoRisk);
    lemma_risk_group_uniform(s, Risk::Critical);
    lemma_risk_group_uniform(s, Risk::High);
    lemma_risk_group_uniform(s, Risk::Medium);
    lemma_risk_group_uniform(s, Risk::Low);
    lemma_risk_group_uniform(s, Risk::NoRisk);
    let r = by_risk_desc(s);
    let b1 = g1.len() as int;
    let b2 = b1 + g2.len();
    let b3 = b2 + g3.len();
    let b4 = b3 + g4.len();
    assert forall|k: int| 0 <= k < r.len() implies (#[trigger] r[k]).hndl_risk.rank() == (if k
        < b1 {
        4int
    } else if k < b2 {
        3int
    } else if k < b3 {
        2int
    } else if k < b4 {
        1int
    } else {
        0int
    }) by {
        if k < b1 {
            assert(r[k] == g1[k]);
        } else if k < b2 {
            assert(r[k] == g2[k - b1]);
        } else if k < b3 {
            assert(r[k] == g3[k - b2]);
        } else if k < b4 {
            assert(r[k] == g4[k - b3]);
        } else {
            assert(r[k] == g5[k - b4]);
        }
    }
}

/// Splitting a sequence into its five risk groups loses and adds nothing.
proof fn lemma_groups_multiset(s: Seq<AssetView>)
    ensures
        s.to_multiset() =~= risk_group(s, Risk::Critical).to_multiset().add(
            risk_group(s, Risk::High).to_multiset(),
        ).add(risk_group(s, Risk::Medium).to_multiset()).add(
            risk_group(s, Risk::Low).to_multiset(),
        ).add(risk_group(s, Risk::NoRisk).to_multiset()),
    decreases s.len(),
{
    broadcast use vstd::multiset::group_multiset_axioms;
    broadcast use Seq::to_multiset_ensures;

    if s.len() == 0 {
        let e = Seq::<AssetView>::empty();
        e.to_multiset_ensures();
        assert(e.to_multiset() =~= Multiset::empty());
        assert(s =~= e);
        assert(risk_group(s, Risk::Critical) =~= e);
        assert(risk_group(s, Risk::High) =~= e);
        assert(risk_group(s, Risk::Medium) =~= e);
        assert(risk_group(s, Risk::Low) =~= e);
        assert(risk_group(s, Risk::NoRisk) =~= e);
    } else {
        let p = s.drop_last();
        let x = s.last();
        lemma_groups_multiset(p);
        assert(s =~= p.push(x));
        p.to_multiset_ensures();
        assert(s.to_multiset() =~= p.to_multiset().insert(x));
        let rg = risk_group(p, x.hndl_risk);
        rg.to_multiset_ensures();
        assert(rg.push(x).to_multiset() =~= rg.to_multiset().insert(x));
    }
}

/// Ordering by risk is a permutation: every finding appears as often after it
/// as before.
pub proof fn lemma_by_risk_desc_permutation(s: Seq<AssetView>)
    ensures
        by_risk_desc(s).to_multiset() =~= s.to_multiset(),
{
    broadcast use vstd::multiset::group_multiset_axioms;

    let g1 = risk_group(s, Risk::Critical);
    let g2 = risk_group(s, Risk::High);
    let g3 = risk_group(s, Risk::Medium);
    let g4 = risk_group(s, Risk::Low);
    let g5 = risk_group(s, Risk::NoRisk);
    lemma_groups_multiset(s);
    vstd::seq_lib::lemma_multiset_commutative(g1, g2);
    vstd::seq_lib::lemma_multiset_commutative(g1 + g2, g3);
    vstd::seq_lib::lemma_multiset_commutative(g1 + g2 + g3, g4);
    vstd::seq_lib::lemma_multiset_commutative(g1 + g2 + g3 + g4, g5);
}

/// Suppression drops exactly the findings some rule matches: a suppressed
/// finding never remains, every other finding remains as often as it occurred.
pub proof fn lemma_unsuppressed_counts(s: Seq<AssetView>, rules: Seq<RuleView>, a: AssetView)
    ensures
        unsuppressed(s, rules).to_multiset().count(a) == (if suppressed(rules, a) {
            0
        } else {
            s.to_multiset().count(a)
        }),
    decreases s.len(),
{
    broadcast use vstd::multiset::group_multiset_axioms;
    broadcast use Seq::to_multiset_ensures;

    if s.len() == 0 {
        assert(unsuppressed(s, rules) =~= Seq::<AssetView>::empty());
        s.to_multiset_ensures();
        unsuppressed(s, rules).to_multiset_ensures();
        assert(s.to_multiset().len() == 0);
        assert(unsuppressed(s, rules).to_multiset().len() == 0);
    } else {
        let p = s.drop_last();
        let x = s.last();
        lemma_unsuppressed_counts(p, rules, a);
        assert(s =~= p.push(x));
        p.to_multiset_ensures();
        assert(s.to_multiset() =~= p.to_multiset().insert(x));
        let u = unsuppressed(p, rules);
        u.to_multiset_ensures();
        assert(u.push(x).to_multiset() =~= u.to_multiset().insert(x));
    }
}

/// What a scan reports of each finding: nothing if a rule suppresses it, and
/// otherwise every occurrence of it over all files, in an order by risk.
pub proof fn lemma_scan_result(per_file: Seq<Seq<AssetView>>, rules: Seq<RuleView>, a: AssetView)
    ensures
        sorted_by_risk_desc(scan_result(per_file, rules)),
        scan_result(per_file, rules).to_multiset().count(a) == (if suppressed(rules, a) {
            0
        } else {
            per_file.flatten().to_multiset().count(a)
        }),
{
    let u = unsuppressed(per_file.flatten(), rules);
    lemma_by_risk_desc_sorted(u);
    lemma_by_risk_desc_permutation(u);
    lemma_unsuppressed_counts(per_file.flatten(), rules, a);
}

// ── Output routing ────────────────────────────────────────────────────────────

/// The name of a report format in messages.
pub open spec fn format_label(f: OutputFormat) -> Seq<char> {
    match f {
        OutputFormat::Sarif => "SARIF"@,
        OutputFormat::Html => "HTML report"@,
        OutputFormat::CycloneDx17 => "CBOM"@,
        OutputFormat::Csv => "CSV"@,
    }
}

pub fn output_label(f: &OutputFormat) -> (s: &'static str)
    ensures
        s@ == format_label(*f),
{
    match f {
        OutputFormat::Sarif => "SARIF",
        OutputFormat::Html => "HTML report",
        OutputFormat::CycloneDx17 => "CBOM",
        OutputFormat::Csv => "CSV",
    }
}

/// The text without its trailing newlines.
pub open spec fn strip_trailing_newlines(s: Seq<char>) -> Seq<char>
    decreases s.len(),
{
    if s.len() > 0 && s.last() == '\n' {
        strip_trailing_newlines(s.drop_last())
    } else {
        s
    }
}

/// The report as `--quiet` prints it to stdout: without trailing newlines, so
/// that formats that end in one (CSV, HTML) are not followed by a blank line.
pub fn trim_trailing_newlines(s: &str) -> (r: String)
    ensures
        r@ == strip_trailing_newlines(s@),
{
    let v = crate::text::chars_of(s);
    let mut n: usize = v.len();
    assert(v@.take(n as int) =~= v@);
    while n > 0 && v[n - 1] == '\n'
        invariant
            n <= v.len(),
            strip_trailing_newlines(v@.take(n as int)) == strip_trailing_newlines(s@),
            v@ == s@,
        decreases n,
    {
        assert(v@.take(n as int).drop_last() =~= v@.take(n - 1));
        n = n - 1;
    }
    assert(v@ == s@);
    let r = crate::text::string_of(&v.as_slice()[0..n]);
    proof {
        if n == v.len() {
            assert(v@.take(n as int) =~= s@);
        }
    }
    r
}

// ── Watch mode ────────────────────────────────────────────────────────────────

/// The line number of a location, 0 when it has none.
pub open spec fn line_or_zero(l: Option<u32>) -> nat {
    match l {
        Some(n) => n as nat,
        None => 0,
    }
}

/// The identity of a finding across two scans: its name, and the source and
/// line of its first location.
pub open spec fn key_of(a: AssetView) -> Seq<char> {
    a.name + ":"@ + if a.locations.len() > 0 {
        a.locations[0].source + ":"@ + decimal(line_or_zero(a.locations[0].line))
    } else {
        Seq::empty()
    }
}

/// Some finding of `s` has the key.
pub open spec fn has_key(s: Seq<AssetView>, k: Seq<char>) -> bool {
    exists|j: int| 0 <= j < s.len() && key_of(#[trigger] s[j]) == k
}

/// The findings of `s` whose key no finding of `other` has, in order.
pub open spec fn absent_from(s: Seq<AssetView>, other: Seq<AssetView>) -> Seq<AssetView>
    decreases s.len(),
{
    if s.len() == 0 {
        Seq::empty()
    } else {
        let rest = absent_from(s.drop_last(), other);
        if has_key(other, key_of(s.last())) {
            rest
        } else {
            rest.push(s.last())
        }
    }
}

/// The source of the first location, `?` when there is none.
pub open spec fn first_source(a: AssetView) -> Seq<char> {
    if a.locations.len() > 0 {
        a.locations[0].source
    } else {
        "?"@
    }
}

/// One line of the change report.
pub open spec fn change_line(mark: Seq<char>, a: AssetView) -> Seq<char> {
    mark + a.name + " — "@ + first_source(a)
}

/// The change report between two scans: the new findings, the resolved ones,
/// and a count line; or a single line when nothing changed.
pub open spec fn watch_report(prev: Seq<AssetView>, next: Seq<AssetView>) -> Seq<Seq<char>> {
    let added = absent_from(next, prev);
    let removed = absent_from(prev, next);
    if added.len() == 0 && removed.len() == 0 {
        seq!["  no change ("@ + decimal(next.len()) + " findings)"@]
    } else {
        added.map_values(|a: AssetView| change_line("  [+] "@, a)) + removed.map_values(
            |a: AssetView| change_line("  [-] "@, a),
        ) + seq![
            "  "@ + decimal(added.len()) + " new, "@ + decimal(removed.len()) + " resolved ("@ + decimal(
                next.len(),
            ) + " total)"@,
        ]
    }
}

/// The key of a finding (see `key_of`).
pub fn asset_key(a: &CryptoAsset) -> (k: String)
    ensures
        k@ == key_of(a@),
{
    let mut k = a.name.clone();
    k.append(":");
    if a.locations.len() > 0 {
        let l = &a.locations[0];
        k.append(l.source.as_str());
        k.append(":");
        let n: u32 = match l.line {
            Some(n) => n,
            None => 0,
        };
        let d = decimal_string(n as u64);
        k.append(d.as_str());
    }
    k
}

fn keys_of(s: &Vec<CryptoAsset>) -> (r: Vec<String>)
    ensures
        r@.len() == s@.len(),
        forall|j: int| 0 <= j < s@.len() ==> (#[trigger] r@[j])@ == key_of(s@[j]@),
{
    let mut r: Vec<String> = Vec::new();
    let mut i: usize = 0;
    while i < s.len()
        invariant
            i <= s.len(),
            r@.len() == i,
            forall|j: int| 0 <= j < i ==> (#[trigger] r@[j])@ == key_of(s@[j]@),
        decreases s.len() - i,
    {
        r.push(asset_key(&s[i]));
        i = i + 1;
    }
    r
}

fn keys_contain(keys: &Vec<String>, k: &String) -> (b: bool)
    ensures
        b == exists|j: int| 0 <= j < keys@.len() && (#[trigger] keys@[j])@ == k@,
{
    let mut i: usize = 0;
    while i < keys.len()
        invariant
            i <= keys.len(),
            forall|j: int| 0 <= j < i ==> (#[trigger] keys@[j])@ != k@,
        decreases keys.len() - i,
    {
        if crate::text::str_eq(keys[i].as_str(), k.as_str()) {
            return true;
        }
        i = i + 1;
    }
    false
}

/// The findings of `s` whose key no finding of `other` has.
fn absent_assets(s: &Vec<CryptoAsset>, other: &Vec<CryptoAsset>) -> (r: Vec<CryptoAsset>)
    ensures
        r.deep_view() == absent_from(s.deep_view(), other.deep_view()),
{
    let other_keys = keys_of(other);
    let ghost sv = s.deep_view();
    let ghost ov = other.deep_view();
    let mut r: Vec<CryptoAsset> = Vec::new();
    let mut i: usize = 0;
    while i < s.len()
        invariant
            i <= s.len(),
            sv == s.deep_view(),
            ov == other.deep_view(),
            other_keys@.len() == ov.len(),
            forall|j: int| 0 <= j < ov.len() ==> (#[trigger] other_keys@[j])@ == key_of(ov[j]),
            r.deep_view() == absent_from(sv.take(i as int), ov),
        decreases s.len() - i,
    {
        let k = asset_key(&s[i]);
        let found = keys_contain(&other_keys, &k);
        let ghost before = r.deep_view();
        proof {
            assert(sv.take(i + 1).drop_last() =~= sv.take(i as int));
            assert(sv.take(i + 1).last() == s@[i as int]@);
            if found {
                let j = choose|j: int| 0 <= j < other_keys@.len() && (#[trigger] other_keys@[j])@ == k@;
                assert(key_of(ov[j]) == k@);
                assert(has_key(ov, k@));
            } else {
                assert forall|j: int| 0 <= j < ov.len() implies key_of(#[trigger] ov[j]) != k@ by {
                    assert(other_keys@[j]@ == key_of(ov[j]));
                }
            }
        }
        if !found {
            r.push(s[i].duplicate());
            assert(r.deep_view() =~= before.push(s@[i as int]@));
        }
        i = i + 1;
    }
    assert(sv.take(s.len() as int) =~= sv);
    r
}

fn change_line_exec(mark: &str, a: &CryptoAsset) -> (r: String)
    ensures
        r@ == change_line(mark@, a@),
{
    let mut r = mark.to_owned();
    r.append(a.name.as_str());
    r.append(" — ");
    if a.locations.len() > 0 {
        r.append(a.locations[0].source.as_str());
    } else {
        r.append("?");
    }
    r
}

fn change_lines(mark: &str, s: &Vec<CryptoAsset>, out: &mut Vec<String>)
    ensures
        final(out).deep_view() == old(out).deep_view() + s.deep_view().map_values(
            |a: AssetView| change_line(mark@, a),
        ),
{
    let ghost start = out.deep_view();
    let ghost sv = s.deep_view();
    let mut i: usize = 0;
    while i < s.len()
        invariant
            i <= s.len(),
            sv == s.deep_view(),
            out.deep_view() == start + sv.take(i as int).map_values(
                |a: AssetView| change_line(mark@, a),
            ),
        decreases s.len() - i,
    {
        let line = change_line_exec(mark, &s[i]);
        let ghost before = out.deep_view();
        out.push(line);
        assert(out.deep_view() =~= before.push(line@));
        assert(sv.take(i + 1).map_values(|a: AssetView| change_line(mark@, a)) =~= sv.take(
            i as int,
        ).map_values(|a: AssetView| change_line(mark@, a)).push(change_line(mark@, sv[i as int])));
        i = i + 1;
    }
    assert(sv.take(s.len() as int) =~= sv);
}

/// The lines that watch mode prints after a re-scan (see `watch_report`).
pub fn watch_report_lines(prev: &Vec<CryptoAsset>, next: &Vec<CryptoAsset>) -> (r: Vec<String>)
    ensures
        r.deep_view() == watch_report(prev.deep_view(), next.deep_view()),
{
    let added = absent_assets(next, prev);
    let removed = absent_assets(prev, next);
    let mut out: Vec<String> = Vec::new();
    if added.len() == 0 && removed.len() == 0 {
        let mut line = "  no change (".to_owned();
        line.append(decimal_string(next.len() as u64).as_str());
        line.append(" findings)");
        out.push(line);
        assert(out.deep_view() =~= seq![line@]);
        return out;
    }
    let ghost e = out.deep_view();
    assert(e =~= Seq::<Seq<char>>::empty());
    change_lines("  [+] ", &added, &mut out);
    change_lines("  [-] ", &removed, &mut out);
    let mut summary = "  ".to_owned();
    summary.append(decimal_string(added.len() as u64).as_str());
    summary.append(" new, ");
    summary.append(decimal_string(removed.len() as u64).as_str());
    summary.append(" resolved (");
    summary.append(decimal_string(next.len() as u64).as_str());
    summary.append(" total)");
    let ghost body = out.deep_view();
    out.push(summary);
    assert(out.deep_view() =~= body.push(summary@));
    out
}

proof fn lemma_absent_when_all_keyed(s: Seq<AssetView>, other: Seq<AssetView>)
    requires
        forall|i: int| 0 <= i < s.len() ==> has_key(other, key_of(#[trigger] s[i])),
    ensures
        absent_from(s, other).len() == 0,
    decreases s.len(),
{
    if s.len() > 0 {
        let p = s.drop_last();
        assert forall|i: int| 0 <= i < p.len() implies has_key(other, key_of(#[trigger] p[i])) by {
            assert(p[i] == s[i]);
        }
        lemma_absent_when_all_keyed(p, other);
        assert(has_key(other, key_of(s[s.len() - 1])));
    }
}

/// Re-scanning without any change in the findings reports "no change" and the
/// number of findings.
pub proof fn lemma_watch_report_unchanged(s: Seq<AssetView>)
    ensures
        watch_report(s, s) == seq!["  no change ("@ + decimal(s.len()) + " findings)"@],
{
    assert forall|i: int| 0 <= i < s.len() implies has_key(s, key_of(#[trigger] s[i])) by {
        assert(key_of(s[i]) == key_of(s[i]));
    }
    lemma_absent_when_all_keyed(s, s);
}

} // verus!
