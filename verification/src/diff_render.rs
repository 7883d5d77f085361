//! Renderings of a CBOM diff: the JSON document and the styled text listing.
use vstd::prelude::*;
use crate::diff::{
    AssetSummary, DiffReport, SummaryView, pair_view, pairs_view,
};
use crate::text::{chars_of, decimal, decimal_string, str_eq, string_of, to_lower, unicode_lower};

verus! {

// ── JSON document ─────────────────────────────────────────────────────────────

pub struct DiffSummary {
    pub added: usize,
    pub removed: usize,
    pub changed: usize,
    pub unchanged: usize,
    pub vulnerable_before: usize,
    pub vulnerable_after: usize,
}

/// One added or removed asset.
pub struct AssetEntry {
    pub name: String,
    pub asset_type: String,
    pub hndl_risk: String,
    pub quantum_safe: String,
    pub nist_level: String,
}

impl View for AssetEntry {
    type V = SummaryView;

    open spec fn view(&self) -> SummaryView {
        SummaryView {
            name: self.name@,
            quantum_safe: self.quantum_safe@,
            hndl_risk: self.hndl_risk@,
            nist_level: self.nist_level@,
            asset_type: self.asset_type@,
        }
    }
}

impl DeepView for AssetEntry {
    type V = SummaryView;

    open spec fn deep_view(&self) -> SummaryView {
        self@
    }
}

/// Quantum safety, risk and NIST level on one side of a change.
pub struct FieldDelta {
    pub quantum_safe: String,
    pub hndl_risk: String,
    pub nist_level: String,
}

pub struct DeltaView {
    pub quantum_safe: Seq<char>,
    pub hndl_risk: Seq<char>,
    pub nist_level: Seq<char>,
}

impl View for FieldDelta {
    type V = DeltaView;

    open spec fn view(&self) -> DeltaView {
        DeltaView {
            quantum_safe: self.quantum_safe@,
            hndl_risk: self.hndl_risk@,
            nist_level: self.nist_level@,
        }
    }
}

/// One changed asset, before and after.
pub struct ChangedEntry {
    pub name: String,
    pub asset_type: String,
    pub before: FieldDelta,
    pub after: FieldDelta,
}

pub struct ChangedView {
    pub name: Seq<char>,
    pub asset_type: Seq<char>,
    pub before: DeltaView,
    pub after: DeltaView,
}

impl View for ChangedEntry {
    type V = ChangedView;

    open spec fn view(&self) -> ChangedView {
        ChangedView {
            name: self.name@,
            asset_type: self.asset_type@,
            before: self.before@,
            after: self.after@,
        }
    }
}

impl DeepView for ChangedEntry {
    type V = ChangedView;

    open spec fn deep_view(&self) -> ChangedView {
        self@
    }
}

/// The JSON form of a diff.
pub struct DiffOutput {
    pub before: String,
    pub after: String,
    pub summary: DiffSummary,
    pub added: Vec<AssetEntry>,
    pub removed: Vec<AssetEntry>,
    pub changed: Vec<ChangedEntry>,
}

pub open spec fn delta_of(x: SummaryView) -> DeltaView {
    DeltaView { quantum_safe: x.quantum_safe, hndl_risk: x.hndl_risk, nist_level: x.nist_level }
}

pub open spec fn changed_view(p: (SummaryView, SummaryView)) -> ChangedView {
    ChangedView { name: p.0.name, asset_type: p.0.asset_type, before: delta_of(p.0), after: delta_of(p.1) }
}

impl AssetEntry {
    pub fn from(a: &AssetSummary) -> (r: AssetEntry)
        ensures
            r@ == a@,
    {
        AssetEntry {
            name: a.name.clone(),
            asset_type: a.asset_type.clone(),
            hndl_risk: a.hndl_risk.clone(),
            quantum_safe: a.quantum_safe.clone(),
            nist_level: a.nist_level.clone(),
        }
    }
}

fn delta(a: &AssetSummary) -> (r: FieldDelta)
    ensures
        r@ == delta_of(a@),
{
    FieldDelta {
        quantum_safe: a.quantum_safe.clone(),
        hndl_risk: a.hndl_risk.clone(),
        nist_level: a.nist_level.clone(),
    }
}

fn entries(v: &Vec<AssetSummary>) -> (r: Vec<AssetEntry>)
    ensures
        r.deep_view() == v.deep_view(),
{
    let mut r: Vec<AssetEntry> = Vec::new();
    let mut i: usize = 0;
    while i < v.len()
        invariant
            i <= v.len(),
            r.deep_view() == v.deep_view().take(i as int),
        decreases v.len() - i,
    {
        let ghost before = r.deep_view();
        let e = AssetEntry::from(&v[i]);
        r.push(e);
        assert(r.deep_view() =~= before.push(e@));
        assert(v.deep_view().take(i + 1) =~= v.deep_view().take(i as int).push(v@[i as int]@));
        i = i + 1;
    }
    assert(v.deep_view().take(v.len() as int) =~= v.deep_view());
    r
}

/// The JSON form of a diff between the CBOMs at paths `before` and `after`.
pub fn diff_output(before: &str, after: &str, report: &DiffReport) -> (r: DiffOutput)
    ensures
        r.before@ == before@,
        r.after@ == after@,
        r.summary.added == report.added.len(),
        r.summary.removed == report.removed.len(),
        r.summary.changed == report.changed.len(),
        r.summary.unchanged == report.unchanged,
        r.summary.vulnerable_before == report.vulnerable_before,
        r.summary.vulnerable_after == report.vulnerable_after,
        r.added.deep_view() == report.added.deep_view(),
        r.removed.deep_view() == report.removed.deep_view(),
        r.changed.deep_view() == pairs_view(report.changed@).map_values(
            |p: (SummaryView, SummaryView)| changed_view(p),
        ),
{
    let ghost cv = pairs_view(report.changed@).map_values(|p: (SummaryView, SummaryView)| changed_view(p));
    let mut changed: Vec<ChangedEntry> = Vec::new();
    let mut i: usize = 0;
    while i < report.changed.len()
        invariant
            i <= report.changed.len(),
            cv == pairs_view(report.changed@).map_values(|p: (SummaryView, SummaryView)| changed_view(p)),
            changed.deep_view() == cv.take(i as int),
        decreases report.changed.len() - i,
    {
        let b = &report.changed[i].0;
        let a = &report.changed[i].1;
        let e = ChangedEntry {
            name: b.name.clone(),
            asset_type: b.asset_type.clone(),
            before: delta(b),
            after: delta(a),
        };
        let ghost before = changed.deep_view();
        changed.push(e);
        assert(changed.deep_view() =~= before.push(e@));
        assert(cv[i as int] == changed_view(pair_view(report.changed@[i as int])));
        assert(cv.take(i + 1) =~= cv.take(i as int).push(cv[i as int]));
        i = i + 1;
    }
    assert(cv.take(report.changed.len() as int) =~= cv);
    DiffOutput {
        before: before.to_owned(),
        after: after.to_owned(),
        summary: DiffSummary {
            added: report.added.len(),
            removed: report.removed.len(),
            changed: report.changed.len(),
            unchanged: report.unchanged,
            vulnerable_before: report.vulnerable_before,
            vulnerable_after: report.vulnerable_after,
        },
        added: entries(&report.added),
        removed: entries(&report.removed),
        changed,
    }
}

// ── Styled text ───────────────────────────────────────────────────────────────

/// How a piece of terminal text is shown.
#[derive(Debug, Clone, Copy, PartialEq, Eq, Structural)]
pub enum Style {
    Plain,
    Red,
    RedBold,
    Green,
    GreenBold,
    Yellow,
    YellowBold,
    BrightYellow,
    Cyan,
}

/// A piece of text with its style.
pub struct Segment {
    pub text: String,
    pub style: Style,
}

impl View for Segment {
    type V = (Seq<char>, Style);

    open spec fn view(&self) -> (Seq<char>, Style) {
        (self.text@, self.style)
    }
}

impl DeepView for Segment {
    type V = (Seq<char>, Style);

    open spec fn deep_view(&self) -> (Seq<char>, Style) {
        self@
    }
}

pub type LineView = Seq<(Seq<char>, Style)>;

/// The style of a risk level: CRITICAL red and bold, HIGH yellow, MEDIUM bright
/// yellow, LOW cyan (any case); anything else plain.
pub open spec fn risk_style(r: Seq<char>) -> Style {
    let l = unicode_lower(r);
    if l == "critical"@ {
        Style::RedBold
    } else if l == "high"@ {
        Style::Yellow
    } else if l == "medium"@ {
        Style::BrightYellow
    } else if l == "low"@ {
        Style::Cyan
    } else {
        Style::Plain
    }
}

/// The style of a quantum-safety label: VULNERABLE red and bold, SAFE green.
pub open spec fn qs_style(q: Seq<char>) -> Style {
    let l = unicode_lower(q);
    if l == "vulnerable"@ {
        Style::RedBold
    } else if l == "safe"@ {
        Style::Green
    } else {
        Style::Plain
    }
}

pub open spec fn plain(t: Seq<char>) -> (Seq<char>, Style) {
    (t, Style::Plain)
}

pub open spec fn added_line(x: SummaryView) -> LineView {
    seq![
        plain("  "@),
        ("+"@, Style::GreenBold),
        plain(" "@),
        (x.name, Style::Green),
        plain(" ["@ + x.asset_type + "] risk="@),
        (x.hndl_risk, risk_style(x.hndl_risk)),
        plain(" nist="@ + x.nist_level),
    ]
}

pub open spec fn removed_line(x: SummaryView) -> LineView {
    seq![
        plain("  "@),
        ("-"@, Style::RedBold),
        plain(" "@),
        (x.name, Style::Red),
        plain(" ["@ + x.asset_type + "] risk="@),
        (x.hndl_risk, risk_style(x.hndl_risk)),
        plain(" nist="@ + x.nist_level),
    ]
}

/// The lines of one change: a head line, then one line per differing field.
pub open spec fn changed_lines(b: SummaryView, a: SummaryView) -> Seq<LineView> {
    seq![
        seq![
            plain("  "@),
            ("~"@, Style::YellowBold),
            plain(" "@),
            (b.name, Style::Yellow),
            plain(" ["@ + b.asset_type + "]"@),
        ],
    ] + (if b.quantum_safe != a.quantum_safe {
        seq![
            seq![
                plain("      quantum_safe: "@),
                (b.quantum_safe, qs_style(b.quantum_safe)),
                plain(" → "@),
                (a.quantum_safe, qs_style(a.quantum_safe)),
            ],
        ]
    } else {
        seq![]
    }) + (if b.hndl_risk != a.hndl_risk {
        seq![
            seq![
                plain("      hndl_risk:    "@),
                (b.hndl_risk, risk_style(b.hndl_risk)),
                plain(" → "@),
                (a.hndl_risk, risk_style(a.hndl_risk)),
            ],
        ]
    } else {
        seq![]
    }) + (if b.nist_level != a.nist_level {
        seq![seq![plain("      nist_level:   "@ + b.nist_level + " → "@ + a.nist_level)]]
    } else {
        seq![]
    })
}

pub open spec fn added_lines(s: Seq<SummaryView>) -> Seq<LineView>
    decreases s.len(),
{
    if s.len() == 0 {
        seq![]
    } else {
        added_lines(s.drop_last()).push(added_line(s.last()))
    }
}

pub open spec fn removed_lines(s: Seq<SummaryView>) -> Seq<LineView>
    decreases s.len(),
{
    if s.len() == 0 {
        seq![]
    } else {
        removed_lines(s.drop_last()).push(removed_line(s.last()))
    }
}

pub open spec fn all_changed_lines(s: Seq<(SummaryView, SummaryView)>) -> Seq<LineView>
    decreases s.len(),
{
    if s.len() == 0 {
        seq![]
    } else {
        all_changed_lines(s.drop_last()) + changed_lines(s.last().0, s.last().1)
    }
}

/// The closing lines on the number of quantum-vulnerable assets, when it moved.
pub open spec fn vulnerable_lines(vb: nat, va: nat) -> Seq<LineView> {
    if vb == va {
        seq![]
    } else {
        seq![
            seq![],
            seq![
                plain("  Quantum-vulnerable assets: "@ + decimal(vb) + " → "@ + decimal(va) + " ("@),
                if va > vb {
                    ("▲ "@ + decimal((va - vb) as nat), Style::Red)
                } else {
                    ("▼ "@ + decimal((vb - va) as nat), Style::Green)
                },
                plain(")"@),
            ],
        ]
    }
}

/// The text listing of a diff between the CBOMs at paths `bp` and `ap`.
pub open spec fn diff_text_view(bp: Seq<char>, ap: Seq<char>, r: DiffReport) -> Seq<LineView> {
    seq![
        seq![plain("CBOM diff: "@ + bp + " → "@ + ap)],
        seq![
            plain(
                "  "@ + decimal(r.added.len() as nat) + " added   "@ + decimal(r.removed.len() as nat)
                    + " removed   "@ + decimal(r.changed.len() as nat) + " changed   "@ + decimal(
                    r.unchanged as nat,
                ) + " unchanged"@,
            ),
        ],
        seq![],
    ] + added_lines(r.added.deep_view()) + removed_lines(r.removed.deep_view()) + all_changed_lines(
        pairs_view(r.changed@),
    ) + vulnerable_lines(r.vulnerable_before as nat, r.vulnerable_after as nat)
}

pub open spec fn lines_view(v: Seq<Vec<Segment>>) -> Seq<LineView> {
    v.map_values(|l: Vec<Segment>| l.deep_view())
}

fn seg(text: String, style: Style) -> (r: Segment)
    ensures
        r@ == (text@, style),
{
    Segment { text, style }
}

fn lit(text: &str, style: Style) -> (r: Segment)
    ensures
        r@ == (text@, style),
{
    Segment { text: text.to_owned(), style }
}

/// The style of a risk level (see [`risk_style`]).
pub fn risk_colored(risk: &str) -> (s: Style)
    ensures
        s == risk_style(risk@),
{
    let l = string_of(&to_lower(&chars_of(risk)));
    if str_eq(l.as_str(), "critical") {
        Style::RedBold
    } else if str_eq(l.as_str(), "high") {
        Style::Yellow
    } else if str_eq(l.as_str(), "medium") {
        Style::BrightYellow
    } else if str_eq(l.as_str(), "low") {
        Style::Cyan
    } else {
        Style::Plain
    }
}

/// The style of a quantum-safety label (see [`qs_style`]).
pub fn qs_colored(qs: &str) -> (s: Style)
    ensures
        s == qs_style(qs@),
{
    let l = string_of(&to_lower(&chars_of(qs)));
    if str_eq(l.as_str(), "vulnerable") {
        Style::RedBold
    } else if str_eq(l.as_str(), "safe") {
        Style::Green
    } else {
        Style::Plain
    }
}

fn entry_line(x: &AssetSummary, removed: bool) -> (r: Vec<Segment>)
    ensures
        r.deep_view() == if removed {
            removed_line(x@)
        } else {
            added_line(x@)
        },
{
    let mut r: Vec<Segment> = Vec::new();
    r.push(lit("  ", Style::Plain));
    if removed {
        r.push(lit("-", Style::RedBold));
    } else {
        r.push(lit("+", Style::GreenBold));
    }
    r.push(lit(" ", Style::Plain));
    r.push(seg(x.name.clone(), if removed { Style::Red } else { Style::Green }));
    let mut t = " [".to_owned();
    t.append(x.asset_type.as_str());
    t.append("] risk=");
    r.push(seg(t, Style::Plain));
    r.push(seg(x.hndl_risk.clone(), risk_colored(x.hndl_risk.as_str())));
    let mut n = " nist=".to_owned();
    n.append(x.nist_level.as_str());
    r.push(seg(n, Style::Plain));
    assert(r.deep_view() =~= if removed {
        removed_line(x@)
    } else {
        added_line(x@)
    });
    r
}

fn change_lines(b: &AssetSummary, a: &AssetSummary) -> (r: Vec<Vec<Segment>>)
    ensures
        lines_view(r@) == changed_lines(b@, a@),
{
    let mut r: Vec<Vec<Segment>> = Vec::new();
    let mut head: Vec<Segment> = Vec::new();
    head.push(lit("  ", Style::Plain));
    head.push(lit("~", Style::YellowBold));
    head.push(lit(" ", Style::Plain));
    head.push(seg(b.name.clone(), Style::Yellow));
    let mut t = " [".to_owned();
    t.append(b.asset_type.as_str());
    t.append("]");
    head.push(seg(t, Style::Plain));
    let ghost h = head.deep_view();
    assert(h =~= seq![
        plain("  "@),
        ("~"@, Style::YellowBold),
        plain(" "@),
        (b@.name, Style::Yellow),
        plain(" ["@ + b@.asset_type + "]"@),
    ]);
    r.push(head);
    assert(lines_view(r@) =~= seq![h]);
    let ghost part1 = lines_view(r@);
    if !str_eq(b.quantum_safe.as_str(), a.quantum_safe.as_str()) {
        let mut l: Vec<Segment> = Vec::new();
        l.push(lit("      quantum_safe: ", Style::Plain));
        l.push(seg(b.quantum_safe.clone(), qs_colored(b.quantum_safe.as_str())));
        l.push(lit(" → ", Style::Plain));
        l.push(seg(a.quantum_safe.clone(), qs_colored(a.quantum_safe.as_str())));
        let ghost lv = l.deep_view();
        assert(lv =~= seq![
            plain("      quantum_safe: "@),
            (b@.quantum_safe, qs_style(b@.quantum_safe)),
            plain(" → "@),
            (a@.quantum_safe, qs_style(a@.quantum_safe)),
        ]);
        r.push(l);
        assert(lines_view(r@) =~= part1.push(lv));
    }
    let ghost part2 = lines_view(r@);
    if !str_eq(b.hndl_risk.as_str(), a.hndl_risk.as_str()) {
        let mut l: Vec<Segment> = Vec::new();
        l.push(lit("      hndl_risk:    ", Style::Plain));
        l.push(seg(b.hndl_risk.clone(), risk_colored(b.hndl_risk.as_str())));
        l.push(lit(" → ", Style::Plain));
        l.push(seg(a.hndl_risk.clone(), risk_colored(a.hndl_risk.as_str())));
        let ghost lv = l.deep_view();
        assert(lv =~= seq![
            plain("      hndl_risk:    "@),
            (b@.hndl_risk, risk_style(b@.hndl_risk)),
            plain(" → "@),
            (a@.hndl_risk, risk_style(a@.hndl_risk)),
        ]);
        r.push(l);
        assert(lines_view(r@) =~= part2.push(lv));
    }
    let ghost part3 = lines_view(r@);
    if !str_eq(b.nist_level.as_str(), a.nist_level.as_str()) {
        let mut l: Vec<Segment> = Vec::new();
        let mut t = "      nist_level:   ".to_owned();
        t.append(b.nist_level.as_str());
        t.append(" → ");
        t.append(a.nist_level.as_str());
        l.push(seg(t, Style::Plain));
        let ghost lv = l.deep_view();
        assert(lv =~= seq![plain("      nist_level:   "@ + b@.nist_level + " → "@ + a@.nist_level)]);
        r.push(l);
        assert(lines_view(r@) =~= part3.push(lv));
    }
    proof {
        assert(lines_view(r@) =~= changed_lines(b@, a@));
    }
    r
}

/// The styled text listing of a diff between the CBOMs at paths `before` and
/// `after`: a head line, the counts, then one line per added and removed asset,
/// the lines of each change, and the move in quantum-vulnerable assets.
pub fn diff_text(before: &str, after: &str, report: &DiffReport) -> (r: Vec<Vec<Segment>>)
    ensures
        lines_view(r@) == diff_text_view(before@, after@, *report),
{
    let mut r: Vec<Vec<Segment>> = Vec::new();
    let mut h = "CBOM diff: ".to_owned();
    h.append(before);
    h.append(" → ");
    h.append(after);
    let mut l1: Vec<Segment> = Vec::new();
    l1.push(seg(h, Style::Plain));
    let ghost v1 = l1.deep_view();
    assert(v1 =~= seq![plain("CBOM diff: "@ + before@ + " → "@ + after@)]);
    r.push(l1);
    let mut c = "  ".to_owned();
    c.append(decimal_string(report.added.len() as u64).as_str());
    c.append(" added   ");
    c.append(decimal_string(report.removed.len() as u64).as_str());
    c.append(" removed   ");
    c.append(decimal_string(report.changed.len() as u64).as_str());
    c.append(" changed   ");
    c.append(decimal_string(report.unchanged as u64).as_str());
    c.append(" unchanged");
    let mut l2: Vec<Segment> = Vec::new();
    l2.push(seg(c, Style::Plain));
    let ghost v2 = l2.deep_view();
    assert(v2 =~= seq![
        plain(
            "  "@ + decimal(report.added.len() as nat) + " added   "@ + decimal(
                report.removed.len() as nat,
            ) + " removed   "@ + decimal(report.changed.len() as nat) + " changed   "@ + decimal(
                report.unchanged as nat,
            ) + " unchanged"@,
        ),
    ]);
    r.push(l2);
    let l3: Vec<Segment> = Vec::new();
    let ghost v3 = l3.deep_view();
    r.push(l3);
    proof {
        assert(lines_view(r@) =~= seq![v1, v2, v3]);
        assert(v3 =~= seq![]);
        assert(lines_view(r@) =~= seq![
            seq![plain("CBOM diff: "@ + before@ + " → "@ + after@)],
            seq![
                plain(
                    "  "@ + decimal(report.added.len() as nat) + " added   "@ + decimal(
                        report.removed.len() as nat,
                    ) + " removed   "@ + decimal(report.changed.len() as nat) + " changed   "@
                        + decimal(report.unchanged as nat) + " unchanged"@,
                ),
            ],
            seq![],
        ]);
    }
    let ghost head = lines_view(r@);
    let mut i: usize = 0;
    while i < report.added.len()
        invariant
            i <= report.added.len(),
            lines_view(r@) == head + added_lines(report.added.deep_view().take(i as int)),
        decreases report.added.len() - i,
    {
        let ghost prev = lines_view(r@);
        let l = entry_line(&report.added[i], false);
        let ghost lv = l.deep_view();
        r.push(l);
        assert(lines_view(r@) =~= prev.push(lv));
        proof {
            let s = report.added.deep_view().take(i + 1);
            assert(s.drop_last() =~= report.added.deep_view().take(i as int));
            assert(lines_view(r@) =~= prev.push(added_line(report.added@[i as int]@)));
        }
        i = i + 1;
    }
    assert(report.added.deep_view().take(report.added.len() as int) =~= report.added.deep_view());
    let ghost head2 = lines_view(r@);
    let mut i: usize = 0;
    while i < report.removed.len()
        invariant
            i <= report.removed.len(),
            lines_view(r@) == head2 + removed_lines(report.removed.deep_view().take(i as int)),
        decreases report.removed.len() - i,
    {
        let ghost prev = lines_view(r@);
        let l = entry_line(&report.removed[i], true);
        let ghost lv = l.deep_view();
        r.push(l);
        assert(lines_view(r@) =~= prev.push(lv));
        proof {
            let s = report.removed.deep_view().take(i + 1);
            assert(s.drop_last() =~= report.removed.deep_view().take(i as int));
            assert(lines_view(r@) =~= prev.push(removed_line(report.removed@[i as int]@)));
        }
        i = i + 1;
    }
    assert(report.removed.deep_view().take(report.removed.len() as int) =~= report.removed.deep_view());
    let ghost head3 = lines_view(r@);
    let ghost pv = pairs_view(report.changed@);
    let mut i: usize = 0;
    while i < report.changed.len()
        invariant
            i <= report.changed.len(),
            pv == pairs_view(report.changed@),
            lines_view(r@) == head3 + all_changed_lines(pv.take(i as int)),
        decreases report.changed.len() - i,
    {
        let ghost prev = lines_view(r@);
        let mut more = change_lines(&report.changed[i].0, &report.changed[i].1);
        let ghost mv = lines_view(more@);
        r.append(&mut more);
        proof {
            let s = pv.take(i + 1);
            assert(s.drop_last() =~= pv.take(i as int));
            assert(s.last() == pair_view(report.changed@[i as int]));
            assert(lines_view(r@) =~= prev + mv);
        }
        i = i + 1;
    }
    assert(pv.take(report.changed.len() as int) =~= pv);
    let vb = report.vulnerable_before;
    let va = report.vulnerable_after;
    let ghost head4 = lines_view(r@);
    if vb != va {
        let e: Vec<Segment> = Vec::new();
        let ghost ev = e.deep_view();
        r.push(e);
        assert(ev =~= seq![]);
        let ghost mid = lines_view(r@);
        assert(mid =~= head4.push(seq![]));
        let mut t = "  Quantum-vulnerable assets: ".to_owned();
        t.append(decimal_string(vb as u64).as_str());
        t.append(" → ");
        t.append(decimal_string(va as u64).as_str());
        t.append(" (");
        let mut l: Vec<Segment> = Vec::new();
        l.push(seg(t, Style::Plain));
        if va > vb {
            let mut a = "▲ ".to_owned();
            a.append(decimal_string((va - vb) as u64).as_str());
            l.push(seg(a, Style::Red));
        } else {
            let mut a = "▼ ".to_owned();
            a.append(decimal_string((vb - va) as u64).as_str());
            l.push(seg(a, Style::Green));
        }
        l.push(lit(")", Style::Plain));
        let ghost lv = l.deep_view();
        r.push(l);
        assert(lines_view(r@) =~= mid.push(lv));
        assert(lv =~= vulnerable_lines(vb as nat, va as nat)[1]);
    }
    proof {
        assert(lines_view(r@) =~= head4 + vulnerable_lines(vb as nat, va as nat));
    }
    r
}

} // verus!
