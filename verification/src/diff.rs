//! The CBOM diff: which assets a newer CBOM adds, removes or changes relative to
//! an older one, keyed by component name, with the JSON and text renderings of
//! the result.
use vstd::prelude::*;
use crate::ignore::eq_ignore_ascii_case;
use crate::model::opt_view;
use crate::order::{chars_lt, distinct_names, is_sort_order, lists, seq_lt, sort_order};
use crate::text::{chars_of, decimal, decimal_string, eq_ignore_case, str_eq};

verus! {

// ── Components as read from a CBOM document ───────────────────────────────────

/// One component of a CBOM document, as far as the diff reads it. A field is
/// `None` where the document has no string there.
pub struct RawComponent {
    /// `name`
    pub name: Option<String>,
    /// `cryptoProperties.assetType`
    pub asset_type: Option<String>,
    /// `properties`, when it is an array: each entry's `name` and `value`.
    pub properties: Option<Vec<(Option<String>, Option<String>)>>,
}

pub struct RawView {
    pub name: Option<Seq<char>>,
    pub asset_type: Option<Seq<char>>,
    pub properties: Option<Seq<(Option<Seq<char>>, Option<Seq<char>>)>>,
}

pub open spec fn prop_view(p: (Option<String>, Option<String>)) -> (
    Option<Seq<char>>,
    Option<Seq<char>>,
) {
    (opt_view(p.0), opt_view(p.1))
}

impl View for RawComponent {
    type V = RawView;

    open spec fn view(&self) -> RawView {
        RawView {
            name: opt_view(self.name),
            asset_type: opt_view(self.asset_type),
            properties: match self.properties {
                Some(v) => Some(v@.map_values(|p: (Option<String>, Option<String>)| prop_view(p))),
                None => None,
            },
        }
    }
}

impl DeepView for RawComponent {
    type V = RawView;

    open spec fn deep_view(&self) -> RawView {
        self@
    }
}

/// The fields of a component that the diff compares.
pub struct AssetSummary {
    pub name: String,
    pub quantum_safe: String,
    pub hndl_risk: String,
    pub nist_level: String,
    pub asset_type: String,
}

pub struct SummaryView {
    pub name: Seq<char>,
    pub quantum_safe: Seq<char>,
    pub hndl_risk: Seq<char>,
    pub nist_level: Seq<char>,
    pub asset_type: Seq<char>,
}

impl View for AssetSummary {
    type V = SummaryView;

    open spec fn view(&self) -> SummaryView {
        SummaryView {
            name: self.name@,
            quantum_safe: self.quantum_safe@,
            hndl_risk: self.hndl_risk@,
            nist_level: self.nist_level@,
            asset_type: self.asset_type@,
        }
    }
}

impl DeepView for AssetSummary {
    type V = SummaryView;

    open spec fn deep_view(&self) -> SummaryView {
        self@
    }
}

// ── Specification ─────────────────────────────────────────────────────────────

/// The value of the last property named `key` that has a value.
pub open spec fn prop_value(props: Seq<(Option<Seq<char>>, Option<Seq<char>>)>, key: Seq<char>) -> Option<
    Seq<char>,
>
    decreases props.len(),
{
    if props.len() == 0 {
        None
    } else if props.last().0 == Some(key) && props.last().1 is Some {
        props.last().1
    } else {
        prop_value(props.drop_last(), key)
    }
}

pub open spec fn props_of(c: RawView) -> Seq<(Option<Seq<char>>, Option<Seq<char>>)> {
    match c.properties {
        Some(p) => p,
        None => seq![],
    }
}

pub open spec fn or_default(o: Option<Seq<char>>, d: Seq<char>) -> Seq<char> {
    match o {
        Some(s) => s,
        None => d,
    }
}

/// What the diff reads of a component; `unknown` (`0` for the NIST level) where
/// the component does not say.
pub open spec fn summarize(c: RawView) -> SummaryView {
    SummaryView {
        name: or_default(c.name, "unknown"@),
        quantum_safe: or_default(prop_value(props_of(c), "acdi:quantum_safe"@), "unknown"@),
        hndl_risk: or_default(prop_value(props_of(c), "acdi:hndl_risk"@), "unknown"@),
        nist_level: or_default(prop_value(props_of(c), "acdi:nist_level"@), "0"@),
        asset_type: or_default(c.asset_type, "unknown"@),
    }
}

pub open spec fn named_at(s: Seq<SummaryView>, i: int, n: Seq<char>) -> bool {
    0 <= i < s.len() && s[i].name == n
}

pub open spec fn has_name(s: Seq<SummaryView>, n: Seq<char>) -> bool {
    exists|i: int| #[trigger] named_at(s, i, n)
}

pub open spec fn name_pos(s: Seq<SummaryView>, n: Seq<char>) -> int {
    choose|i: int| #[trigger] named_at(s, i, n)
}

/// The entry named `n` (when there is one).
pub open spec fn named(s: Seq<SummaryView>, n: Seq<char>) -> SummaryView {
    s[name_pos(s, n)]
}

/// No two entries share a name.
pub open spec fn unique_names(s: Seq<SummaryView>) -> bool {
    forall|i: int, j: int| 0 <= i < j < s.len() ==> s[i].name != s[j].name
}

/// `s` with `x` in place of the entry of the same name, or added at the end.
pub open spec fn upsert(s: Seq<SummaryView>, x: SummaryView) -> Seq<SummaryView> {
    if has_name(s, x.name) {
        s.update(name_pos(s, x.name), x)
    } else {
        s.push(x)
    }
}

/// The components of a CBOM keyed by name: one entry per name, in order of first
/// appearance, holding the last component of that name. Unnamed components are
/// left out.
pub open spec fn comp_entries(comps: Seq<RawView>) -> Seq<SummaryView>
    decreases comps.len(),
{
    if comps.len() == 0 {
        seq![]
    } else {
        let s = comp_entries(comps.drop_last());
        if comps.last().name is Some {
            upsert(s, summarize(comps.last()))
        } else {
            s
        }
    }
}

pub open spec fn doc_entries(comps: Option<Seq<RawView>>) -> Seq<SummaryView> {
    match comps {
        Some(c) => comp_entries(c),
        None => seq![],
    }
}

/// Quantum safety, risk and NIST level agree.
pub open spec fn same_fields(b: SummaryView, a: SummaryView) -> bool {
    b.quantum_safe == a.quantum_safe && b.hndl_risk == a.hndl_risk && b.nist_level == a.nist_level
}

/// The entries of `a` whose name `b` lacks, in order.
pub open spec fn only_in(a: Seq<SummaryView>, b: Seq<SummaryView>) -> Seq<SummaryView>
    decreases a.len(),
{
    if a.len() == 0 {
        seq![]
    } else if has_name(b, a.last().name) {
        only_in(a.drop_last(), b)
    } else {
        only_in(a.drop_last(), b).push(a.last())
    }
}

/// The (before, after) pairs of the entries of `a` present in `b` with other fields.
pub open spec fn changed_in(b: Seq<SummaryView>, a: Seq<SummaryView>) -> Seq<(SummaryView, SummaryView)>
    decreases a.len(),
{
    if a.len() == 0 {
        seq![]
    } else {
        let x = a.last();
        if has_name(b, x.name) && !same_fields(named(b, x.name), x) {
            changed_in(b, a.drop_last()).push((named(b, x.name), x))
        } else {
            changed_in(b, a.drop_last())
        }
    }
}

/// The number of entries of `a` present in `b` with the same fields.
pub open spec fn unchanged_in(b: Seq<SummaryView>, a: Seq<SummaryView>) -> nat
    decreases a.len(),
{
    if a.len() == 0 {
        0
    } else {
        let x = a.last();
        if has_name(b, x.name) && same_fields(named(b, x.name), x) {
            unchanged_in(b, a.drop_last()) + 1
        } else {
            unchanged_in(b, a.drop_last())
        }
    }
}

pub open spec fn is_vulnerable_view(x: SummaryView) -> bool {
    eq_ignore_case(x.quantum_safe, "vulnerable"@)
}

/// The number of entries whose quantum safety reads `vulnerable` (any case).
pub open spec fn vulnerable_in(s: Seq<SummaryView>) -> nat
    decreases s.len(),
{
    if s.len() == 0 {
        0
    } else {
        vulnerable_in(s.drop_last()) + if is_vulnerable_view(s.last()) {
            1nat
        } else {
            0nat
        }
    }
}

/// `r` holds the elements of `c` in strictly increasing order of `key`.
pub open spec fn sorted_perm_by<T>(r: Seq<T>, c: Seq<T>, key: spec_fn(T) -> Seq<char>) -> bool {
    &&& r.len() == c.len()
    &&& forall|i: int| 0 <= i < r.len() ==> c.contains(#[trigger] r[i])
    &&& forall|k: int| 0 <= k < c.len() ==> r.contains(#[trigger] c[k])
    &&& forall|i: int, j: int| 0 <= i < j < r.len() ==> seq_lt(key(r[i]), key(r[j]))
}

pub open spec fn entry_name(x: SummaryView) -> Seq<char> {
    x.name
}

pub open spec fn pair_name(p: (SummaryView, SummaryView)) -> Seq<char> {
    p.0.name
}

// ── Reading components ────────────────────────────────────────────────────────

/// The value of the last property named `key` that has one.
pub fn prop_lookup(props: &Vec<(Option<String>, Option<String>)>, key: &str) -> (r: Option<String>)
    ensures
        opt_view(r) == prop_value(props@.map_values(|p: (Option<String>, Option<String>)| prop_view(p)), key@),
{
    let ghost pv = props@.map_values(|p: (Option<String>, Option<String>)| prop_view(p));
    let mut found: Option<String> = None;
    let mut i: usize = 0;
    while i < props.len()
        invariant
            i <= props.len(),
            pv == props@.map_values(|p: (Option<String>, Option<String>)| prop_view(p)),
            opt_view(found) == prop_value(pv.take(i as int), key@),
        decreases props.len() - i,
    {
        assert(pv.take(i + 1).drop_last() =~= pv.take(i as int));
        assert(pv.take(i + 1).last() == prop_view(props@[i as int]));
        match &props[i].0 {
            Some(k) => {
                if str_eq(k.as_str(), key) {
                    match &props[i].1 {
                        Some(v) => {
                            found = Some(v.clone());
                        },
                        None => {},
                    }
                }
            },
            None => {},
        }
        i = i + 1;
    }
    assert(pv.take(props.len() as int) =~= pv);
    found
}

fn string_or(o: Option<String>, d: &str) -> (r: String)
    ensures
        r@ == or_default(opt_view(o), d@),
{
    match o {
        Some(s) => s,
        None => d.to_owned(),
    }
}

fn opt_clone(o: &Option<String>) -> (r: Option<String>)
    ensures
        opt_view(r) == opt_view(*o),
{
    match o {
        Some(s) => Some(s.clone()),
        None => None,
    }
}

impl AssetSummary {
    /// What the diff reads of one component.
    pub fn from_component(comp: &RawComponent) -> (r: AssetSummary)
        ensures
            r@ == summarize(comp@),
    {
        let empty: Vec<(Option<String>, Option<String>)> = Vec::new();
        let props: &Vec<(Option<String>, Option<String>)> = match &comp.properties {
            Some(p) => p,
            None => &empty,
        };
        assert(props@.map_values(|p: (Option<String>, Option<String>)| prop_view(p)) =~= props_of(
            comp@,
        ));
        AssetSummary {
            name: string_or(opt_clone(&comp.name), "unknown"),
            quantum_safe: string_or(prop_lookup(props, "acdi:quantum_safe"), "unknown"),
            hndl_risk: string_or(prop_lookup(props, "acdi:hndl_risk"), "unknown"),
            nist_level: string_or(prop_lookup(props, "acdi:nist_level"), "0"),
            asset_type: string_or(opt_clone(&comp.asset_type), "unknown"),
        }
    }

    /// Whether the quantum safety reads `vulnerable`, in any ASCII case.
    pub fn is_vulnerable(&self) -> (b: bool)
        ensures
            b == is_vulnerable_view(self@),
    {
        eq_ignore_ascii_case(self.quantum_safe.as_str(), "vulnerable")
    }

    pub fn duplicate(&self) -> (r: AssetSummary)
        ensures
            r@ == self@,
    {
        AssetSummary {
            name: self.name.clone(),
            quantum_safe: self.quantum_safe.clone(),
            hndl_risk: self.hndl_risk.clone(),
            nist_level: self.nist_level.clone(),
            asset_type: self.asset_type.clone(),
        }
    }
}

/// Position of the entry named `name`, if any.
fn find_named(s: &Vec<AssetSummary>, name: &str) -> (r: Option<usize>)
    requires
        unique_names(s.deep_view()),
    ensures
        match r {
            Some(j) => j < s.len() && has_name(s.deep_view(), name@) && name_pos(s.deep_view(), name@)
                == j as int && s.deep_view()[j as int].name == name@,
            None => !has_name(s.deep_view(), name@),
        },
{
    let ghost sv = s.deep_view();
    let mut j: usize = 0;
    while j < s.len()
        invariant
            j <= s.len(),
            sv == s.deep_view(),
            unique_names(sv),
            forall|k: int| 0 <= k < j ==> sv[k].name != name@,
        decreases s.len() - j,
    {
        if str_eq(s[j].name.as_str(), name) {
            proof {
                assert(named_at(sv, j as int, name@));
                let q = name_pos(sv, name@);
                assert(named_at(sv, q, name@));
                if q != j as int {
                    if q < j {
                        assert(sv[q].name != sv[j as int].name);
                    } else {
                        assert(sv[j as int].name != sv[q].name);
                    }
                }
            }
            return Some(j);
        }
        j = j + 1;
    }
    proof {
        if has_name(sv, name@) {
            let q = choose|q: int| #[trigger] named_at(sv, q, name@);
            assert(sv[q].name != name@);
        }
    }
    None
}

/// The components of a CBOM keyed by name: one entry per name, holding the last
/// component of that name; components without a name are left out.
pub fn component_map(comps: &Vec<RawComponent>) -> (r: Vec<AssetSummary>)
    ensures
        r.deep_view() == comp_entries(comps.deep_view()),
        unique_names(r.deep_view()),
{
    let ghost cv = comps.deep_view();
    let mut out: Vec<AssetSummary> = Vec::new();
    let mut i: usize = 0;
    while i < comps.len()
        invariant
            i <= comps.len(),
            cv == comps.deep_view(),
            out.deep_view() == comp_entries(cv.take(i as int)),
            unique_names(out.deep_view()),
        decreases comps.len() - i,
    {
        assert(cv.take(i + 1).drop_last() =~= cv.take(i as int));
        assert(cv.take(i + 1).last() == comps@[i as int]@);
        if comps[i].name.is_some() {
            let summary = AssetSummary::from_component(&comps[i]);
            let ghost before = out.deep_view();
            match find_named(&out, summary.name.as_str()) {
                Some(j) => {
                    out.set(j, summary);
                    proof {
                        assert(out.deep_view() =~= before.update(j as int, summary@));
                    }
                },
                None => {
                    out.push(summary);
                    proof {
                        assert(out.deep_view() =~= before.push(summary@));
                        assert forall|a: int, b: int| 0 <= a < b < out.deep_view().len() implies
                            out.deep_view()[a].name != out.deep_view()[b].name by {
                            if b == before.len() {
                                assert(!named_at(before, a, summary@.name));
                            }
                        }
                    }
                },
            }
        }
        i = i + 1;
    }
    assert(cv.take(comps.len() as int) =~= cv);
    out
}

/// The entries of a CBOM document (none when it has no component array).
pub fn document_entries(comps: &Option<Vec<RawComponent>>) -> (r: Vec<AssetSummary>)
    ensures
        r.deep_view() == doc_entries(match comps {
            Some(c) => Some(c.deep_view()),
            None => None,
        }),
        unique_names(r.deep_view()),
{
    match comps {
        Some(c) => component_map(c),
        None => Vec::new(),
    }
}

// ── Comparing ─────────────────────────────────────────────────────────────────

/// The result of comparing two CBOMs.
pub struct DiffReport {
    /// Entries of the newer CBOM whose name the older lacks, by name.
    pub added: Vec<AssetSummary>,
    /// Entries of the older CBOM whose name the newer lacks, by name.
    pub removed: Vec<AssetSummary>,
    /// (older, newer) entries of one name whose safety, risk or level differ, by name.
    pub changed: Vec<(AssetSummary, AssetSummary)>,
    /// Names present in both with the same safety, risk and level.
    pub unchanged: usize,
    pub vulnerable_before: usize,
    pub vulnerable_after: usize,
}

pub open spec fn pair_view(p: (AssetSummary, AssetSummary)) -> (SummaryView, SummaryView) {
    (p.0@, p.1@)
}

pub open spec fn pairs_view(v: Seq<(AssetSummary, AssetSummary)>) -> Seq<(SummaryView, SummaryView)> {
    v.map_values(|p: (AssetSummary, AssetSummary)| pair_view(p))
}

/// What comparing entries `b` (older) with `a` (newer) reports.
pub open spec fn diff_holds(r: DiffReport, b: Seq<SummaryView>, a: Seq<SummaryView>) -> bool {
    &&& sorted_perm_by(r.added.deep_view(), only_in(a, b), |x: SummaryView| entry_name(x))
    &&& sorted_perm_by(r.removed.deep_view(), only_in(b, a), |x: SummaryView| entry_name(x))
    &&& sorted_perm_by(
        pairs_view(r.changed@),
        changed_in(b, a),
        |p: (SummaryView, SummaryView)| pair_name(p),
    )
    &&& r.unchanged == unchanged_in(b, a)
    &&& r.vulnerable_before == vulnerable_in(b)
    &&& r.vulnerable_after == vulnerable_in(a)
}

/// Every element of `only_in(a, b)` is an element of `a`, and names stay unique.
pub proof fn lemma_only_in_sub(a: Seq<SummaryView>, b: Seq<SummaryView>)
    requires
        unique_names(a),
    ensures
        forall|i: int| 0 <= i < only_in(a, b).len() ==> a.contains(#[trigger] only_in(a, b)[i]),
        unique_names(only_in(a, b)),
        only_in(a, b).len() <= a.len(),
    decreases a.len(),
{
    if a.len() > 0 {
        let a0 = a.drop_last();
        lemma_only_in_sub(a0, b);
        let r0 = only_in(a0, b);
        assert forall|i: int| 0 <= i < r0.len() implies a.contains(#[trigger] r0[i]) by {
            let k = choose|k: int| 0 <= k < a0.len() && a0[k] == r0[i];
            assert(a[k] == r0[i]);
        }
        if !has_name(b, a.last().name) {
            let r = only_in(a, b);
            assert(r == r0.push(a.last()));
            assert forall|i: int, j: int| 0 <= i < j < r.len() implies r[i].name != r[j].name by {
                if j == r0.len() {
                    let k = choose|k: int| 0 <= k < a0.len() && a0[k] == r0[i];
                    assert(a[k] == r0[i]);
                    assert(a[k].name != a[a.len() - 1].name);
                }
            }
            assert forall|i: int| 0 <= i < r.len() implies a.contains(#[trigger] r[i]) by {
                if i == r0.len() {
                    assert(a[a.len() - 1] == r[i]);
                }
            }
        }
    }
}

/// The pairs of `changed_in(b, a)` take their newer entry from `a` and share its
/// name; their names are unique.
pub proof fn lemma_changed_in_sub(b: Seq<SummaryView>, a: Seq<SummaryView>)
    requires
        unique_names(a),
    ensures
        forall|i: int| 0 <= i < changed_in(b, a).len() ==> a.contains(#[trigger] changed_in(b, a)[i].1)
            && changed_in(b, a)[i].0.name == changed_in(b, a)[i].1.name,
        forall|i: int, j: int|
            0 <= i < j < changed_in(b, a).len() ==> changed_in(b, a)[i].0.name != changed_in(
                b,
                a,
            )[j].0.name,
        changed_in(b, a).len() <= a.len(),
    decreases a.len(),
{
    if a.len() > 0 {
        let a0 = a.drop_last();
        lemma_changed_in_sub(b, a0);
        let r0 = changed_in(b, a0);
        assert forall|i: int| 0 <= i < r0.len() implies a.contains(#[trigger] r0[i].1) by {
            let k = choose|k: int| 0 <= k < a0.len() && a0[k] == r0[i].1;
            assert(a[k] == r0[i].1);
        }
        let x = a.last();
        if has_name(b, x.name) && !same_fields(named(b, x.name), x) {
            let r = changed_in(b, a);
            assert(r == r0.push((named(b, x.name), x)));
            let q = name_pos(b, x.name);
            assert(named_at(b, q, x.name));
            assert forall|i: int, j: int| 0 <= i < j < r.len() implies r[i].0.name != r[j].0.name by {
                if j == r0.len() {
                    let k = choose|k: int| 0 <= k < a0.len() && a0[k] == r0[i].1;
                    assert(a[k] == r0[i].1);
                    assert(a[k].name != a[a.len() - 1].name);
                }
            }
            assert forall|i: int| 0 <= i < r.len() implies a.contains(#[trigger] r[i].1) && r[i].0.name
                == r[i].1.name by {
                if i == r0.len() {
                    assert(a[a.len() - 1] == r[i].1);
                }
            }
        }
    }
}

/// The names of a list of entries, as character vectors.
fn entry_names(v: &Vec<AssetSummary>) -> (r: Vec<Vec<char>>)
    ensures
        r.deep_view().len() == v.len(),
        forall|k: int| 0 <= k < v.len() ==> #[trigger] r.deep_view()[k] == v.deep_view()[k].name,
{
    let mut r: Vec<Vec<char>> = Vec::new();
    let mut i: usize = 0;
    while i < v.len()
        invariant
            i <= v.len(),
            r.deep_view().len() == i,
            forall|k: int| 0 <= k < i ==> #[trigger] r.deep_view()[k] == v.deep_view()[k].name,
        decreases v.len() - i,
    {
        let c = chars_of(v[i].name.as_str());
        let ghost before = r.deep_view();
        assert(c.deep_view() =~= c@);
        r.push(c);
        proof {
            assert(r.deep_view() =~= before.push(c@));
        }
        i = i + 1;
    }
    r
}

/// The entries in increasing order of name (names pairwise different).
pub fn sort_by_name(v: &Vec<AssetSummary>) -> (r: Vec<AssetSummary>)
    requires
        unique_names(v.deep_view()),
    ensures
        sorted_perm_by(r.deep_view(), v.deep_view(), |x: SummaryView| entry_name(x)),
{
    let ghost vv = v.deep_view();
    let names = entry_names(v);
    let ghost nv = names.deep_view();
    assert(distinct_names(nv)) by {
        assert forall|i: int, j: int| 0 <= i < j < nv.len() implies nv[i] != nv[j] by {
            assert(nv[i] == vv[i].name);
            assert(nv[j] == vv[j].name);
        }
    }
    let order = sort_order(&names);
    let mut r: Vec<AssetSummary> = Vec::new();
    let mut i: usize = 0;
    while i < order.len()
        invariant
            i <= order.len(),
            vv == v.deep_view(),
            nv == names.deep_view(),
            is_sort_order(nv, order@),
            nv.len() == vv.len(),
            forall|k: int| 0 <= k < vv.len() ==> #[trigger] nv[k] == vv[k].name,
            r.len() == i,
            forall|k: int| 0 <= k < i ==> #[trigger] r.deep_view()[k] == vv[order@[k] as int],
        decreases order.len() - i,
    {
        let x = v[order[i]].duplicate();
        let ghost before = r.deep_view();
        r.push(x);
        proof {
            assert(r.deep_view() =~= before.push(x@));
        }
        i = i + 1;
    }
    proof {
        let rv = r.deep_view();
        assert forall|i: int| 0 <= i < rv.len() implies vv.contains(#[trigger] rv[i]) by {
            assert(rv[i] == vv[order@[i] as int]);
        }
        assert forall|k: int| 0 <= k < vv.len() implies rv.contains(#[trigger] vv[k]) by {
            assert(lists(order@, k));
            let i = choose|i: int| 0 <= i < order@.len() && order@[i] as int == k;
            assert(rv[i] == vv[k]);
        }
        assert forall|i: int, j: int| 0 <= i < j < rv.len() implies seq_lt(
            entry_name(rv[i]),
            entry_name(rv[j]),
        ) by {
            assert(rv[i] == vv[order@[i] as int]);
            assert(rv[j] == vv[order@[j] as int]);
            assert(seq_lt(nv[order@[i] as int], nv[order@[j] as int]));
        }
    }
    r
}

/// The (older, newer) pairs in increasing order of name (names pairwise different).
pub fn sort_pairs_by_name(v: &Vec<(AssetSummary, AssetSummary)>) -> (r: Vec<(AssetSummary, AssetSummary)>)
    requires
        forall|i: int, j: int| 0 <= i < j < v.len() ==> v@[i].0@.name != v@[j].0@.name,
    ensures
        sorted_perm_by(
            pairs_view(r@),
            pairs_view(v@),
            |p: (SummaryView, SummaryView)| pair_name(p),
        ),
{
    let ghost vv = pairs_view(v@);
    let mut firsts: Vec<AssetSummary> = Vec::new();
    let mut i: usize = 0;
    while i < v.len()
        invariant
            i <= v.len(),
            firsts.len() == i,
            forall|k: int| 0 <= k < i ==> #[trigger] firsts.deep_view()[k] == v@[k].0@,
        decreases v.len() - i,
    {
        let x = v[i].0.duplicate();
        let ghost before = firsts.deep_view();
        firsts.push(x);
        proof {
            assert(firsts.deep_view() =~= before.push(x@));
        }
        i = i + 1;
    }
    let names = entry_names(&firsts);
    let ghost nv = names.deep_view();
    assert(distinct_names(nv)) by {
        assert forall|i: int, j: int| 0 <= i < j < nv.len() implies nv[i] != nv[j] by {
            assert(nv[i] == firsts.deep_view()[i].name);
            assert(nv[j] == firsts.deep_view()[j].name);
        }
    }
    let order = sort_order(&names);
    let mut r: Vec<(AssetSummary, AssetSummary)> = Vec::new();
    let mut i: usize = 0;
    while i < order.len()
        invariant
            i <= order.len(),
            vv == pairs_view(v@),
            nv == names.deep_view(),
            is_sort_order(nv, order@),
            nv.len() == v.len(),
            forall|k: int| 0 <= k < v.len() ==> #[trigger] nv[k] == v@[k].0@.name,
            r.len() == i,
            forall|k: int| 0 <= k < i ==> #[trigger] pairs_view(r@)[k] == vv[order@[k] as int],
        decreases order.len() - i,
    {
        let p = (v[order[i]].0.duplicate(), v[order[i]].1.duplicate());
        let ghost before = pairs_view(r@);
        r.push(p);
        proof {
            assert(pairs_view(r@) =~= before.push(pair_view(p)));
        }
        i = i + 1;
    }
    proof {
        let rv = pairs_view(r@);
        assert forall|i: int| 0 <= i < rv.len() implies vv.contains(#[trigger] rv[i]) by {
            assert(rv[i] == vv[order@[i] as int]);
        }
        assert forall|k: int| 0 <= k < vv.len() implies rv.contains(#[trigger] vv[k]) by {
            assert(lists(order@, k));
            let i = choose|i: int| 0 <= i < order@.len() && order@[i] as int == k;
            assert(rv[i] == vv[k]);
        }
        assert forall|i: int, j: int| 0 <= i < j < rv.len() implies seq_lt(
            pair_name(rv[i]),
            pair_name(rv[j]),
        ) by {
            assert(rv[i] == vv[order@[i] as int]);
            assert(rv[j] == vv[order@[j] as int]);
            assert(seq_lt(nv[order@[i] as int], nv[order@[j] as int]));
        }
    }
    r
}

/// Compares the entries of an older CBOM (`before`) with those of a newer one
/// (`after`), each keyed by unique names.
pub fn compare_entries(before: &Vec<AssetSummary>, after: &Vec<AssetSummary>) -> (r: DiffReport)
    requires
        unique_names(before.deep_view()),
        unique_names(after.deep_view()),
    ensures
        diff_holds(r, before.deep_view(), after.deep_view()),
{
    let ghost b = before.deep_view();
    let ghost a = after.deep_view();
    let mut added: Vec<AssetSummary> = Vec::new();
    let mut changed: Vec<(AssetSummary, AssetSummary)> = Vec::new();
    let mut unchanged: usize = 0;
    let mut vuln_after: usize = 0;
    let mut i: usize = 0;
    while i < after.len()
        invariant
            i <= after.len(),
            b == before.deep_view(),
            a == after.deep_view(),
            unique_names(b),
            added.deep_view() == only_in(a.take(i as int), b),
            pairs_view(changed@) == changed_in(b, a.take(i as int)),
            unchanged == unchanged_in(b, a.take(i as int)),
            vuln_after == vulnerable_in(a.take(i as int)),
            unchanged <= i,
            vuln_after <= i,
        decreases after.len() - i,
    {
        let ghost t = a.take(i as int);
        assert(a.take(i + 1).drop_last() =~= t);
        assert(a.take(i + 1).last() == after@[i as int]@);
        let x = &after[i];
        if x.is_vulnerable() {
            vuln_after = vuln_after + 1;
        }
        match find_named(before, x.name.as_str()) {
            None => {
                let ghost old_added = added.deep_view();
                added.push(x.duplicate());
                assert(added.deep_view() =~= old_added.push(x@));
            },
            Some(j) => {
                let y = &before[j];
                proof {
                    assert(named(b, x@.name) == y@);
                }
                if str_eq(y.quantum_safe.as_str(), x.quantum_safe.as_str()) && str_eq(
                    y.hndl_risk.as_str(),
                    x.hndl_risk.as_str(),
                ) && str_eq(y.nist_level.as_str(), x.nist_level.as_str()) {
                    unchanged = unchanged + 1;
                } else {
                    let ghost old_changed = pairs_view(changed@);
                    let p = (y.duplicate(), x.duplicate());
                    changed.push(p);
                    assert(pairs_view(changed@) =~= old_changed.push(pair_view(p)));
                }
            },
        }
        i = i + 1;
    }
    assert(a.take(after.len() as int) =~= a);
    let mut removed: Vec<AssetSummary> = Vec::new();
    let mut vuln_before: usize = 0;
    let mut i: usize = 0;
    while i < before.len()
        invariant
            i <= before.len(),
            b == before.deep_view(),
            a == after.deep_view(),
            unique_names(a),
            removed.deep_view() == only_in(b.take(i as int), a),
            vuln_before == vulnerable_in(b.take(i as int)),
            vuln_before <= i,
        decreases before.len() - i,
    {
        let ghost t = b.take(i as int);
        assert(b.take(i + 1).drop_last() =~= t);
        assert(b.take(i + 1).last() == before@[i as int]@);
        let x = &before[i];
        if x.is_vulnerable() {
            vuln_before = vuln_before + 1;
        }
        if find_named(after, x.name.as_str()).is_none() {
            let ghost old_removed = removed.deep_view();
            removed.push(x.duplicate());
            assert(removed.deep_view() =~= old_removed.push(x@));
        }
        i = i + 1;
    }
    assert(b.take(before.len() as int) =~= b);
    proof {
        lemma_only_in_sub(a, b);
        lemma_only_in_sub(b, a);
        lemma_changed_in_sub(b, a);
    }
    proof {
        let cv = pairs_view(changed@);
        assert forall|i: int, j: int| 0 <= i < j < changed.len() implies changed@[i].0@.name
            != changed@[j].0@.name by {
            assert(cv[i] == pair_view(changed@[i]));
            assert(cv[j] == pair_view(changed@[j]));
        }
    }
    let added = sort_by_name(&added);
    let removed = sort_by_name(&removed);
    let changed = sort_pairs_by_name(&changed);
    DiffReport {
        added,
        removed,
        changed,
        unchanged,
        vulnerable_before: vuln_before,
        vulnerable_after: vuln_after,
    }
}

/// Compares two CBOM documents, given by their component arrays (`None` where a
/// document has none).
pub fn diff_components(
    before: &Option<Vec<RawComponent>>,
    after: &Option<Vec<RawComponent>>,
) -> (r: DiffReport)
    ensures
        diff_holds(
            r,
            doc_entries(match before {
                Some(c) => Some(c.deep_view()),
                None => None,
            }),
            doc_entries(match after {
                Some(c) => Some(c.deep_view()),
                None => None,
            }),
        ),
{
    let b = document_entries(before);
    let a = document_entries(after);
    compare_entries(&b, &a)
}

// ── Laws ──────────────────────────────────────────────────────────────────────

/// Every entry of the newer CBOM is counted exactly once: as added, as changed,
/// or as unchanged.
pub proof fn lemma_after_partition(b: Seq<SummaryView>, a: Seq<SummaryView>)
    ensures
        only_in(a, b).len() + changed_in(b, a).len() + unchanged_in(b, a) == a.len(),
    decreases a.len(),
{
    if a.len() > 0 {
        lemma_after_partition(b, a.drop_last());
    }
}

/// Comparing a CBOM's entries with themselves reports nothing added, removed or
/// changed, and every entry unchanged.
pub proof fn lemma_diff_with_self(s: Seq<SummaryView>)
    requires
        unique_names(s),
    ensures
        only_in(s, s).len() == 0,
        changed_in(s, s).len() == 0,
        unchanged_in(s, s) == s.len(),
{
    lemma_self_prefix(s, s.len() as int);
    assert(s.take(s.len() as int) =~= s);
}

/// Upserting an entry keeps the names unique.
proof fn lemma_upsert_unique(s: Seq<SummaryView>, x: SummaryView)
    requires
        unique_names(s),
    ensures
        unique_names(upsert(s, x)),
{
    if has_name(s, x.name) {
        let q = name_pos(s, x.name);
        assert(named_at(s, q, x.name));
        let u = s.update(q, x);
        assert forall|i: int, j: int| 0 <= i < j < u.len() implies u[i].name != u[j].name by {
            assert(u[i].name == s[i].name);
            assert(u[j].name == s[j].name);
        }
    } else {
        let u = s.push(x);
        assert forall|i: int, j: int| 0 <= i < j < u.len() implies u[i].name != u[j].name by {
            if j == s.len() {
                if u[i].name == x.name {
                    assert(named_at(s, i, x.name));
                }
            }
        }
    }
}

/// A CBOM's entries have unique names: one entry per component name.
pub proof fn lemma_doc_entries_unique(comps: Option<Seq<RawView>>)
    ensures
        unique_names(doc_entries(comps)),
{
    match comps {
        Some(c) => lemma_comp_entries_unique(c),
        None => {},
    }
}

proof fn lemma_comp_entries_unique(comps: Seq<RawView>)
    ensures
        unique_names(comp_entries(comps)),
    decreases comps.len(),
{
    if comps.len() > 0 {
        lemma_comp_entries_unique(comps.drop_last());
        if comps.last().name is Some {
            lemma_upsert_unique(comp_entries(comps.drop_last()), summarize(comps.last()));
        }
    }
}

/// Comparing a CBOM with itself reports nothing added, removed or changed, and
/// as many unchanged entries as it has distinct component names.
pub proof fn lemma_diff_document_with_self(comps: Option<Seq<RawView>>)
    ensures
        only_in(doc_entries(comps), doc_entries(comps)).len() == 0,
        changed_in(doc_entries(comps), doc_entries(comps)).len() == 0,
        unchanged_in(doc_entries(comps), doc_entries(comps)) == doc_entries(comps).len(),
{
    lemma_doc_entries_unique(comps);
    lemma_diff_with_self(doc_entries(comps));
}

// ── Swapping the two documents ────────────────────────────────────────────────

/// The number of entries whose name satisfies `p`.
pub open spec fn count_names(s: Seq<SummaryView>, p: spec_fn(Seq<char>) -> bool) -> nat
    decreases s.len(),
{
    if s.len() == 0 {
        0
    } else {
        count_names(s.drop_last(), p) + if p(s.last().name) {
            1nat
        } else {
            0nat
        }
    }
}

/// The names of `s` that satisfy `p`.
pub open spec fn name_set(s: Seq<SummaryView>, p: spec_fn(Seq<char>) -> bool) -> Set<Seq<char>> {
    Set::new(|n: Seq<char>| has_name(s, n) && p(n))
}

/// Names present in `b` whose entry there has the same fields as in `a`.
pub open spec fn same_pred(b: Seq<SummaryView>, a: Seq<SummaryView>) -> spec_fn(Seq<char>) -> bool {
    |n: Seq<char>| has_name(b, n) && same_fields(named(b, n), named(a, n))
}

/// Names present in `b` whose entry there has other fields than in `a`.
pub open spec fn changed_pred(b: Seq<SummaryView>, a: Seq<SummaryView>) -> spec_fn(Seq<char>) -> bool {
    |n: Seq<char>| has_name(b, n) && !same_fields(named(b, n), named(a, n))
}

proof fn lemma_has_name_last(s: Seq<SummaryView>)
    requires
        s.len() > 0,
        unique_names(s),
    ensures
        unique_names(s.drop_last()),
        !has_name(s.drop_last(), s.last().name),
        forall|n: Seq<char>| has_name(s, n) == (has_name(s.drop_last(), n) || n == s.last().name),
{
    let t = s.drop_last();
    assert forall|i: int, j: int| 0 <= i < j < t.len() implies t[i].name != t[j].name by {
        assert(s[i].name != s[j].name);
    }
    if has_name(t, s.last().name) {
        let i = choose|i: int| #[trigger] named_at(t, i, s.last().name);
        assert(s[i].name != s[s.len() - 1].name);
    }
    assert forall|n: Seq<char>| has_name(s, n) == (has_name(t, n) || n == s.last().name) by {
        if has_name(s, n) {
            let i = choose|i: int| #[trigger] named_at(s, i, n);
            if i < t.len() {
                assert(named_at(t, i, n));
            }
        }
        if has_name(t, n) {
            let i = choose|i: int| #[trigger] named_at(t, i, n);
            assert(named_at(s, i, n));
        }
        if n == s.last().name {
            assert(named_at(s, s.len() - 1, n));
        }
    }
}

/// With unique names, counting the entries whose name satisfies `p` counts the
/// set of such names.
proof fn lemma_count_is_set_size(s: Seq<SummaryView>, p: spec_fn(Seq<char>) -> bool)
    requires
        unique_names(s),
    ensures
        name_set(s, p).finite(),
        count_names(s, p) == name_set(s, p).len(),
    decreases s.len(),
{
    if s.len() == 0 {
        assert(name_set(s, p) =~= Set::<Seq<char>>::empty());
    } else {
        let t = s.drop_last();
        let x = s.last();
        lemma_has_name_last(s);
        lemma_count_is_set_size(t, p);
        if p(x.name) {
            assert(name_set(s, p) =~= name_set(t, p).insert(x.name));
        } else {
            assert(name_set(s, p) =~= name_set(t, p));
        }
    }
}

/// In a sequence with unique names, the entry found under an element's name
/// is that element.
proof fn lemma_named_is_element(a: Seq<SummaryView>, k: int)
    requires
        unique_names(a),
        0 <= k < a.len(),
    ensures
        has_name(a, a[k].name),
        named(a, a[k].name) == a[k],
{
    assert(named_at(a, k, a[k].name));
    let q = name_pos(a, a[k].name);
    assert(named_at(a, q, a[k].name));
    if q != k {
        if q < k {
            assert(a[q].name != a[k].name);
        } else {
            assert(a[k].name != a[q].name);
        }
    }
}

proof fn lemma_kept_prefix(b: Seq<SummaryView>, a: Seq<SummaryView>, k: int)
    requires
        unique_names(a),
        0 <= k <= a.len(),
    ensures
        unchanged_in(b, a.take(k)) == count_names(a.take(k), same_pred(b, a)),
        changed_in(b, a.take(k)).len() == count_names(a.take(k), changed_pred(b, a)),
    decreases k,
{
    if k > 0 {
        let t = a.take(k);
        assert(t.drop_last() =~= a.take(k - 1));
        lemma_kept_prefix(b, a, k - 1);
        lemma_named_is_element(a, k - 1);
        assert(t.last() == a[k - 1]);
    }
}

/// For entries with unique names, the changed and unchanged counts are the
/// sizes of the sets of shared names whose fields differ or agree.
proof fn lemma_kept_counts(b: Seq<SummaryView>, a: Seq<SummaryView>)
    requires
        unique_names(a),
    ensures
        unchanged_in(b, a) == name_set(a, same_pred(b, a)).len(),
        changed_in(b, a).len() == name_set(a, changed_pred(b, a)).len(),
{
    lemma_kept_prefix(b, a, a.len() as int);
    assert(a.take(a.len() as int) =~= a);
    lemma_count_is_set_size(a, same_pred(b, a));
    lemma_count_is_set_size(a, changed_pred(b, a));
}

/// Comparing two CBOMs the other way round swaps what is added and what is
/// removed, and the vulnerable counts before and after, and reports as many
/// changed and unchanged entries.
pub proof fn lemma_diff_swap(
    r1: DiffReport,
    r2: DiffReport,
    before: Option<Seq<RawView>>,
    after: Option<Seq<RawView>>,
)
    requires
        diff_holds(r1, doc_entries(before), doc_entries(after)),
        diff_holds(r2, doc_entries(after), doc_entries(before)),
    ensures
        r2.added.len() == r1.removed.len(),
        r2.removed.len() == r1.added.len(),
        r2.changed.len() == r1.changed.len(),
        r2.unchanged == r1.unchanged,
        r2.vulnerable_before == r1.vulnerable_after,
        r2.vulnerable_after == r1.vulnerable_before,
{
    let b = doc_entries(before);
    let a = doc_entries(after);
    lemma_doc_entries_unique(before);
    lemma_doc_entries_unique(after);
    lemma_kept_counts(b, a);
    lemma_kept_counts(a, b);
    assert(name_set(a, same_pred(b, a)) =~= name_set(b, same_pred(a, b)));
    assert(name_set(a, changed_pred(b, a)) =~= name_set(b, changed_pred(a, b)));
    assert(r1.added.deep_view().len() == r1.added.len());
    assert(r2.added.deep_view().len() == r2.added.len());
    assert(r1.removed.deep_view().len() == r1.removed.len());
    assert(r2.removed.deep_view().len() == r2.removed.len());
    assert(pairs_view(r1.changed@).len() == r1.changed.len());
    assert(pairs_view(r2.changed@).len() == r2.changed.len());
}

// ── What counts as a change ───────────────────────────────────────────────────

proof fn lemma_changed_prefix(b: Seq<SummaryView>, a: Seq<SummaryView>, i: int, j: int, k: int)
    requires
        unique_names(b),
        0 <= i < k <= a.len(),
        0 <= j < b.len(),
        b[j].name == a[i].name,
        b[j].quantum_safe != a[i].quantum_safe || b[j].hndl_risk != a[i].hndl_risk
            || b[j].nist_level != a[i].nist_level,
    ensures
        changed_in(b, a.take(k)).contains((b[j], a[i])),
    decreases k,
{
    let t = a.take(k);
    assert(t.drop_last() =~= a.take(k - 1));
    assert(t.last() == a[k - 1]);
    if k - 1 == i {
        lemma_named_is_element(b, j);
        let c = changed_in(b, t);
        assert(c == changed_in(b, a.take(k - 1)).push((b[j], a[i])));
        assert(c[c.len() - 1] == (b[j], a[i]));
    } else {
        lemma_changed_prefix(b, a, i, j, k - 1);
        let prev = changed_in(b, a.take(k - 1));
        let w = choose|m: int| 0 <= m < prev.len() && prev[m] == (b[j], a[i]);
        let c = changed_in(b, t);
        assert(c[w] == (b[j], a[i]));
    }
}

/// An asset present in both CBOMs under one name is reported as changed when
/// its quantum safety, its HNDL risk or its NIST level differs, whichever of
/// them it is: a change of risk level alone is a change.
pub proof fn lemma_field_change_is_reported(b: Seq<SummaryView>, a: Seq<SummaryView>, i: int, j: int)
    requires
        unique_names(b),
        0 <= i < a.len(),
        0 <= j < b.len(),
        b[j].name == a[i].name,
        b[j].quantum_safe != a[i].quantum_safe || b[j].hndl_risk != a[i].hndl_risk
            || b[j].nist_level != a[i].nist_level,
    ensures
        changed_in(b, a).contains((b[j], a[i])),
{
    lemma_changed_prefix(b, a, i, j, a.len() as int);
    assert(a.take(a.len() as int) =~= a);
}

/// In a diff report of two CBOMs, an asset named in both whose HNDL risk (or
/// quantum safety, or NIST level) differs is among the changed pairs, with its
/// older and newer entry.
pub proof fn lemma_report_lists_field_changes(
    r: DiffReport,
    before: Option<Seq<RawView>>,
    after: Option<Seq<RawView>>,
    i: int,
    j: int,
)
    requires
        diff_holds(r, doc_entries(before), doc_entries(after)),
        0 <= i < doc_entries(after).len(),
        0 <= j < doc_entries(before).len(),
        doc_entries(before)[j].name == doc_entries(after)[i].name,
        doc_entries(before)[j].quantum_safe != doc_entries(after)[i].quantum_safe
            || doc_entries(before)[j].hndl_risk != doc_entries(after)[i].hndl_risk
            || doc_entries(before)[j].nist_level != doc_entries(after)[i].nist_level,
    ensures
        pairs_view(r.changed@).contains((doc_entries(before)[j], doc_entries(after)[i])),
{
    let b = doc_entries(before);
    let a = doc_entries(after);
    lemma_doc_entries_unique(before);
    lemma_field_change_is_reported(b, a, i, j);
    let c = changed_in(b, a);
    let k = choose|k: int| 0 <= k < c.len() && c[k] == (b[j], a[i]);
    assert(pairs_view(r.changed@).contains(c[k]));
}

/// Every changed pair holds two entries of one name that differ in quantum
/// safety, HNDL risk or NIST level.
pub proof fn lemma_changed_pairs_differ(b: Seq<SummaryView>, a: Seq<SummaryView>)
    ensures
        forall|k: int| 0 <= k < changed_in(b, a).len() ==> {
            let p = #[trigger] changed_in(b, a)[k];
            p.0.name == p.1.name && (p.0.quantum_safe != p.1.quantum_safe || p.0.hndl_risk
                != p.1.hndl_risk || p.0.nist_level != p.1.nist_level)
        },
    decreases a.len(),
{
    if a.len() > 0 {
        lemma_changed_pairs_differ(b, a.drop_last());
        let x = a.last();
        let prev = changed_in(b, a.drop_last());
        let c = changed_in(b, a);
        assert forall|k: int| 0 <= k < c.len() implies {
            let p = #[trigger] c[k];
            p.0.name == p.1.name && (p.0.quantum_safe != p.1.quantum_safe || p.0.hndl_risk
                != p.1.hndl_risk || p.0.nist_level != p.1.nist_level)
        } by {
            if k < prev.len() {
                assert(c[k] == prev[k]);
                assert(prev[k].0.name == prev[k].1.name);
            } else {
                assert(has_name(b, x.name) && !same_fields(named(b, x.name), x));
                let q = name_pos(b, x.name);
                assert(named_at(b, q, x.name));
                assert(c[k] == (named(b, x.name), x));
            }
        }
    }
}

proof fn lemma_self_prefix(s: Seq<SummaryView>, n: int)
    requires
        unique_names(s),
        0 <= n <= s.len(),
    ensures
        only_in(s.take(n), s).len() == 0,
        changed_in(s, s.take(n)).len() == 0,
        unchanged_in(s, s.take(n)) == n,
    decreases n,
{
    if n > 0 {
        let t = s.take(n);
        assert(t.drop_last() =~= s.take(n - 1));
        lemma_self_prefix(s, n - 1);
        let x = t.last();
        assert(x == s[n - 1]);
        assert(named_at(s, n - 1, x.name));
        let q = name_pos(s, x.name);
        assert(named_at(s, q, x.name));
        if q != n - 1 {
            if q < n - 1 {
                assert(s[q].name != s[n - 1].name);
            } else {
                assert(s[n - 1].name != s[q].name);
            }
        }
        assert(named(s, x.name) == x);
    }
}

} // verus!
