//! The human-readable console report: the rows of the findings table with the
//! colour of each classification cell, and the risk summary under it.
use vstd::prelude::*;
use crate::model::{AssetType, AssetView, CryptoAsset, QuantumSafety, Risk};
use crate::text::{decimal, decimal_string, has_prefix};

verus! {

/// Terminal colours of the report.
#[derive(Debug, Clone, Copy, PartialEq, Eq, Structural)]
pub enum Color {
    Red,
    Green,
    Yellow,
    Cyan,
    Grey,
}

/// A table cell with its colour.
pub struct StyledCell {
    pub text: &'static str,
    pub color: Color,
}

/// The quantum-safety cell: its label and colour.
pub open spec fn qs_cell(qs: QuantumSafety) -> (Seq<char>, Color) {
    match qs {
        QuantumSafety::Vulnerable => ("VULNERABLE"@, Color::Red),
        QuantumSafety::Safe => ("SAFE"@, Color::Green),
        QuantumSafety::ClassicallyAdequate => ("ADEQUATE"@, Color::Yellow),
        QuantumSafety::HybridSafe => ("HYBRID SAFE"@, Color::Cyan),
        QuantumSafety::Unknown => ("UNKNOWN"@, Color::Grey),
    }
}

/// The HNDL-risk cell: its label and colour.
pub open spec fn risk_cell(r: Risk) -> (Seq<char>, Color) {
    match r {
        Risk::Critical => ("CRITICAL"@, Color::Red),
        Risk::High => ("HIGH"@, Color::Red),
        Risk::Medium => ("MEDIUM"@, Color::Yellow),
        Risk::Low => ("LOW"@, Color::Cyan),
        Risk::NoRisk => ("NONE"@, Color::Green),
    }
}

/// The two classification cells of a row.
pub fn styled_cells(qs: &QuantumSafety, risk: &Risk) -> (r: (StyledCell, StyledCell))
    ensures
        (r.0.text@, r.0.color) == qs_cell(*qs),
        (r.1.text@, r.1.color) == risk_cell(*risk),
{
    let q = match qs {
        QuantumSafety::Vulnerable => StyledCell { text: "VULNERABLE", color: Color::Red },
        QuantumSafety::Safe => StyledCell { text: "SAFE", color: Color::Green },
        QuantumSafety::ClassicallyAdequate => StyledCell { text: "ADEQUATE", color: Color::Yellow },
        QuantumSafety::HybridSafe => StyledCell { text: "HYBRID SAFE", color: Color::Cyan },
        QuantumSafety::Unknown => StyledCell { text: "UNKNOWN", color: Color::Grey },
    };
    let k = match risk {
        Risk::Critical => StyledCell { text: "CRITICAL", color: Color::Red },
        Risk::High => StyledCell { text: "HIGH", color: Color::Red },
        Risk::Medium => StyledCell { text: "MEDIUM", color: Color::Yellow },
        Risk::Low => StyledCell { text: "LOW", color: Color::Cyan },
        Risk::NoRisk => StyledCell { text: "NONE", color: Color::Green },
    };
    (q, k)
}

/// The asset type as its variant name (the `Debug` rendering).
pub open spec fn type_variant(t: AssetType) -> Seq<char> {
    match t {
        AssetType::Algorithm => "Algorithm"@,
        AssetType::Certificate => "Certificate"@,
        AssetType::PrivateKey => "PrivateKey"@,
        AssetType::PublicKey => "PublicKey"@,
        AssetType::Protocol => "Protocol"@,
        AssetType::Library => "Library"@,
    }
}

fn variant_text(t: &AssetType) -> (s: &'static str)
    ensures
        s@ == type_variant(*t),
{
    match t {
        AssetType::Algorithm => "Algorithm",
        AssetType::Certificate => "Certificate",
        AssetType::PrivateKey => "PrivateKey",
        AssetType::PublicKey => "PublicKey",
        AssetType::Protocol => "Protocol",
        AssetType::Library => "Library",
    }
}

/// The text without the leading occurrences of `c`.
pub open spec fn trim_start_char(s: Seq<char>, c: char) -> Seq<char>
    decreases s.len(),
{
    if s.len() > 0 && s[0] == c {
        trim_start_char(s.drop_first(), c)
    } else {
        s
    }
}

/// A path relative to the scan root, for compact display: the root prefix and
/// then the leading `/` and then the leading `\` removed; the path as it is
/// when it does not start with the root.
pub open spec fn shortened(source: Seq<char>, root: Seq<char>) -> Seq<char> {
    if has_prefix(source, root) {
        trim_start_char(trim_start_char(source.skip(root.len() as int), '/'), '\\')
    } else {
        source
    }
}

fn trim_start_char_exec(s: &[char], c: char) -> (r: usize)
    ensures
        r <= s.len(),
        s@.skip(r as int) == trim_start_char(s@, c),
{
    let mut i: usize = 0;
    assert(s@.skip(0) =~= s@);
    while i < s.len() && s[i] == c
        invariant
            i <= s.len(),
            trim_start_char(s@.skip(i as int), c) == trim_start_char(s@, c),
        decreases s.len() - i,
    {
        assert(s@.skip(i as int).drop_first() =~= s@.skip(i + 1));
        i = i + 1;
    }
    i
}

/// Shorten an absolute path relative to the scan root for compact display.
pub fn shorten_path(source: &str, root: &str) -> (r: String)
    ensures
        r@ == shortened(source@, root@),
{
    let s = crate::text::chars_of(source);
    let p = crate::text::chars_of(root);
    if !crate::text::starts_with(&s, &p) {
        return source.to_owned();
    }
    let rest = &s.as_slice()[p.len()..s.len()];
    assert(rest@ =~= source@.skip(root@.len() as int));
    let a = trim_start_char_exec(rest, '/');
    let rest2 = &rest[a..rest.len()];
    assert(rest2@ =~= rest@.skip(a as int));
    let b = trim_start_char_exec(rest2, '\\');
    let rest3 = &rest2[b..rest2.len()];
    assert(rest3@ =~= rest2@.skip(b as int));
    crate::text::string_of(rest3)
}

/// One row of the findings table.
pub struct TableRow {
    pub asset: String,
    pub asset_type: &'static str,
    pub quantum_safety: StyledCell,
    pub risk: StyledCell,
    pub nist_level: String,
    pub location: String,
}

/// The row of an asset: name, type, classification cells, NIST level and its
/// first location relative to the scan root (empty when it has none).
pub open spec fn row_of(a: AssetView, root: Seq<char>) -> (
    Seq<char>,
    Seq<char>,
    (Seq<char>, Color),
    (Seq<char>, Color),
    Seq<char>,
    Seq<char>,
) {
    (
        a.name,
        type_variant(a.asset_type),
        qs_cell(a.quantum_safe),
        risk_cell(a.hndl_risk),
        decimal(a.nist_quantum_security as nat),
        if a.locations.len() > 0 {
            shortened(a.locations[0].source, root)
        } else {
            Seq::empty()
        },
    )
}

pub open spec fn row_view(r: TableRow) -> (
    Seq<char>,
    Seq<char>,
    (Seq<char>, Color),
    (Seq<char>, Color),
    Seq<char>,
    Seq<char>,
) {
    (
        r.asset@,
        r.asset_type@,
        (r.quantum_safety.text@, r.quantum_safety.color),
        (r.risk.text@, r.risk.color),
        r.nist_level@,
        r.location@,
    )
}

/// The rows of the findings table, one per asset, in order.
pub fn table_rows(assets: &Vec<CryptoAsset>, root: &str) -> (r: Vec<TableRow>)
    ensures
        r@.len() == assets@.len(),
        forall|i: int| 0 <= i < assets@.len() ==> row_view(#[trigger] r@[i]) == row_of(assets@[i]@, root@),
{
    let mut rows: Vec<TableRow> = Vec::new();
    let mut i: usize = 0;
    while i < assets.len()
        invariant
            i <= assets.len(),
            rows@.len() == i,
            forall|k: int| 0 <= k < i ==> row_view(#[trigger] rows@[k]) == row_of(assets@[k]@, root@),
        decreases assets.len() - i,
    {
        let a = &assets[i];
        let (q, k) = styled_cells(&a.quantum_safe, &a.hndl_risk);
        let location = if a.locations.len() > 0 {
            shorten_path(a.locations[0].source.as_str(), root)
        } else {
            String::new()
        };
        let row = TableRow {
            asset: a.name.clone(),
            asset_type: variant_text(&a.asset_type),
            quantum_safety: q,
            risk: k,
            nist_level: decimal_string(a.nist_quantum_security as u64),
            location,
        };
        assert(row_view(row) == row_of(assets@[i as int]@, root@));
        rows.push(row);
        i = i + 1;
    }
    rows
}

// ── Summary ───────────────────────────────────────────────────────────────────

/// How many assets have the given risk.
pub open spec fn count_risk(s: Seq<AssetView>, r: Risk) -> nat
    decreases s.len(),
{
    if s.len() == 0 {
        0
    } else {
        count_risk(s.drop_last(), r) + if s.last().hndl_risk == r {
            1nat
        } else {
            0nat
        }
    }
}

/// How many assets are quantum-vulnerable.
pub open spec fn count_vulnerable(s: Seq<AssetView>) -> nat
    decreases s.len(),
{
    if s.len() == 0 {
        0
    } else {
        count_vulnerable(s.drop_last()) + if s.last().quantum_safe == QuantumSafety::Vulnerable {
            1nat
        } else {
            0nat
        }
    }
}

/// The counts under the findings table.
pub struct RiskSummary {
    pub total: usize,
    pub vulnerable: usize,
    pub critical: usize,
    pub high: usize,
    pub medium: usize,
    pub low: usize,
    pub safe: usize,
}

proof fn lemma_counts_bounded(s: Seq<AssetView>, r: Risk)
    ensures
        count_risk(s, r) <= s.len(),
        count_vulnerable(s) <= s.len(),
    decreases s.len(),
{
    if s.len() > 0 {
        lemma_counts_bounded(s.drop_last(), r);
    }
}

/// Counts the assets by risk, and the quantum-vulnerable ones.
pub fn summarize(assets: &Vec<CryptoAsset>) -> (r: RiskSummary)
    ensures
        r.total == assets@.len(),
        r.vulnerable == count_vulnerable(assets.deep_view()),
        r.critical == count_risk(assets.deep_view(), Risk::Critical),
        r.high == count_risk(assets.deep_view(), Risk::High),
        r.medium == count_risk(assets.deep_view(), Risk::Medium),
        r.low == count_risk(assets.deep_view(), Risk::Low),
        r.safe == count_risk(assets.deep_view(), Risk::NoRisk),
{
    let ghost s = assets.deep_view();
    let mut r = RiskSummary { total: assets.len(), vulnerable: 0, critical: 0, high: 0, medium: 0, low: 0, safe: 0 };
    let mut i: usize = 0;
    while i < assets.len()
        invariant
            i <= assets.len(),
            s == assets.deep_view(),
            r.total == assets@.len(),
            r.vulnerable == count_vulnerable(s.take(i as int)),
            r.critical == count_risk(s.take(i as int), Risk::Critical),
            r.high == count_risk(s.take(i as int), Risk::High),
            r.medium == count_risk(s.take(i as int), Risk::Medium),
            r.low == count_risk(s.take(i as int), Risk::Low),
            r.safe == count_risk(s.take(i as int), Risk::NoRisk),
        decreases assets.len() - i,
    {
        let ghost t = s.take(i + 1);
        assert(t.drop_last() =~= s.take(i as int));
        assert(t.last() == assets@[i as int]@);
        proof {
            lemma_counts_bounded(s.take(i as int), Risk::Critical);
            lemma_counts_bounded(s.take(i as int), Risk::High);
            lemma_counts_bounded(s.take(i as int), Risk::Medium);
            lemma_counts_bounded(s.take(i as int), Risk::Low);
            lemma_counts_bounded(s.take(i as int), Risk::NoRisk);
        }
        let a = &assets[i];
        if a.quantum_safe == QuantumSafety::Vulnerable {
            r.vulnerable = r.vulnerable + 1;
        }
        match a.hndl_risk {
            Risk::Critical => {
                r.critical = r.critical + 1;
            },
            Risk::High => {
                r.high = r.high + 1;
            },
            Risk::Medium => {
                r.medium = r.medium + 1;
            },
            Risk::Low => {
                r.low = r.low + 1;
            },
            Risk::NoRisk => {
                r.safe = r.safe + 1;
            },
        }
        i = i + 1;
    }
    assert(s.take(assets.len() as int) =~= s);
    r
}

/// The first summary line.
pub open spec fn found_line(total: nat, vulnerable: nat) -> Seq<char> {
    "Found "@ + decimal(total) + " asset(s) — "@ + decimal(vulnerable) + " quantum-vulnerable"@
}

pub fn found_text(s: &RiskSummary) -> (r: String)
    ensures
        r@ == found_line(s.total as nat, s.vulnerable as nat),
{
    let mut r = "Found ".to_owned();
    r.append(decimal_string(s.total as u64).as_str());
    r.append(" asset(s) — ");
    r.append(decimal_string(s.vulnerable as u64).as_str());
    r.append(" quantum-vulnerable");
    r
}

/// One count line of the summary: the count, in its colour, then a label.
pub struct CountLine {
    pub count: usize,
    pub color: Color,
    pub label: &'static str,
}

/// The count lines of the summary: one per risk level that occurs, highest
/// first.
pub open spec fn count_lines(
    critical: nat,
    high: nat,
    medium: nat,
    low: nat,
    safe: nat,
) -> Seq<(nat, Color, Seq<char>)> {
    (if critical > 0 {
        seq![(critical, Color::Red, "CRITICAL"@)]
    } else {
        Seq::empty()
    }) + (if high > 0 {
        seq![(high, Color::Red, "HIGH"@)]
    } else {
        Seq::empty()
    }) + (if medium > 0 {
        seq![(medium, Color::Yellow, "MEDIUM"@)]
    } else {
        Seq::empty()
    }) + (if low > 0 {
        seq![(low, Color::Cyan, "LOW"@)]
    } else {
        Seq::empty()
    }) + (if safe > 0 {
        seq![(safe, Color::Green, "NONE/SAFE"@)]
    } else {
        Seq::empty()
    })
}

pub open spec fn count_line_view(l: CountLine) -> (nat, Color, Seq<char>) {
    (l.count as nat, l.color, l.label@)
}

fn push_count(out: &mut Vec<CountLine>, count: usize, color: Color, label: &'static str)
    ensures
        final(out)@.len() == old(out)@.len() + if count > 0 {
            1int
        } else {
            0int
        },
        forall|k: int| 0 <= k < old(out)@.len() ==> final(out)@[k] == old(out)@[k],
        count > 0 ==> count_line_view(final(out)@[old(out)@.len() as int]) == (
            count as nat,
            color,
            label@,
        ),
{
    if count > 0 {
        out.push(CountLine { count, color, label });
    }
}

pub fn summary_counts(s: &RiskSummary) -> (r: Vec<CountLine>)
    ensures
        r@.map_values(|l: CountLine| count_line_view(l)) == count_lines(
            s.critical as nat,
            s.high as nat,
            s.medium as nat,
            s.low as nat,
            s.safe as nat,
        ),
{
    let mut out: Vec<CountLine> = Vec::new();
    push_count(&mut out, s.critical, Color::Red, "CRITICAL");
    push_count(&mut out, s.high, Color::Red, "HIGH");
    push_count(&mut out, s.medium, Color::Yellow, "MEDIUM");
    push_count(&mut out, s.low, Color::Cyan, "LOW");
    push_count(&mut out, s.safe, Color::Green, "NONE/SAFE");
    assert(out@.map_values(|l: CountLine| count_line_view(l)) =~= count_lines(
        s.critical as nat,
        s.high as nat,
        s.medium as nat,
        s.low as nat,
        s.safe as nat,
    ));
    out
}

/// Every asset is counted under exactly one risk level: the five counts add
/// up to the number of assets.
pub proof fn lemma_counts_partition(s: Seq<AssetView>)
    ensures
        count_risk(s, Risk::Critical) + count_risk(s, Risk::High) + count_risk(s, Risk::Medium)
            + count_risk(s, Risk::Low) + count_risk(s, Risk::NoRisk) == s.len(),
    decreases s.len(),
{
    if s.len() > 0 {
        lemma_counts_partition(s.drop_last());
    }
}

} // verus!
