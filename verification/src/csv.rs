//! The CSV report: one row per asset occurrence, fields quoted as RFC 4180
//! asks.
use vstd::prelude::*;
use crate::cbom::cdx_asset_type;
use crate::ignore::{evidence_label, evidence_text};
use crate::model::{AssetType, AssetView, CryptoAsset, Location, LocationView};
use crate::text::{chars_of, decimal, decimal_string, string_of};

verus! {

pub const CSV_HEADER: &'static str = "Algorithm,AssetType,QuantumSafety,HNDLRisk,NISTLevel,File,Line,Evidence\n";

// ── Specification ─────────────────────────────────────────────────────────────

/// `s` with each double quote doubled.
pub open spec fn doubled(s: Seq<char>) -> Seq<char>
    decreases s.len(),
{
    if s.len() == 0 {
        seq![]
    } else {
        (if s[0] == '"' {
            seq!['"', '"']
        } else {
            seq![s[0]]
        }) + doubled(s.drop_first())
    }
}

/// A field needs quotes when it holds a comma, a double quote, a line feed or
/// a carriage return.
pub open spec fn needs_quotes(s: Seq<char>) -> bool {
    s.contains(',') || s.contains('"') || s.contains('\n') || s.contains('\r')
}

/// A CSV field: quoted, with inner quotes doubled, when it needs quotes.
pub open spec fn csv_field(s: Seq<char>) -> Seq<char> {
    if needs_quotes(s) {
        seq!['"'] + doubled(s) + seq!['"']
    } else {
        s
    }
}

pub open spec fn asset_type_text(t: AssetType) -> Seq<char> {
    cdx_asset_type(t)
}

/// One row of the report.
pub open spec fn csv_row(a: AssetView, file: Seq<char>, line: Option<u32>) -> Seq<char> {
    csv_field(a.name) + ","@ + asset_type_text(a.asset_type) + ","@ + a.quantum_safe.csv_name() + ","@
        + a.hndl_risk.label() + ","@ + decimal(a.nist_quantum_security as nat) + ","@ + csv_field(file)
        + ","@ + (match line {
        Some(n) => decimal(n as nat),
        None => seq![],
    }) + ","@ + evidence_label(a.evidence) + "\n"@
}

/// The rows of one asset: one per location, or one without a file when it has none.
pub open spec fn asset_rows(a: AssetView) -> Seq<Seq<char>> {
    if a.locations.len() == 0 {
        seq![csv_row(a, seq![], None)]
    } else {
        a.locations.map_values(|l: LocationView| csv_row(a, l.source, l.line))
    }
}

pub open spec fn csv_rows(s: Seq<AssetView>) -> Seq<Seq<char>>
    decreases s.len(),
{
    if s.len() == 0 {
        seq![]
    } else {
        csv_rows(s.drop_last()) + asset_rows(s.last())
    }
}

pub open spec fn concat(rows: Seq<Seq<char>>) -> Seq<char>
    decreases rows.len(),
{
    if rows.len() == 0 {
        seq![]
    } else {
        concat(rows.drop_last()) + rows.last()
    }
}

/// The report: the header, then the rows.
pub open spec fn csv_doc(s: Seq<AssetView>) -> Seq<char> {
    CSV_HEADER@ + concat(csv_rows(s))
}

/// The number of rows assets give: one per location, at least one each.
pub open spec fn row_count(s: Seq<AssetView>) -> nat
    decreases s.len(),
{
    if s.len() == 0 {
        0
    } else {
        row_count(s.drop_last()) + if s.last().locations.len() == 0 {
            1
        } else {
            s.last().locations.len()
        }
    }
}

// ── Reading a field back ──────────────────────────────────────────────────────

/// Undoes [`doubled`]: each pair of double quotes becomes one.
pub open spec fn undoubled(s: Seq<char>) -> Seq<char>
    decreases s.len(),
{
    if s.len() >= 2 && s[0] == '"' && s[1] == '"' {
        seq!['"'] + undoubled(s.drop_first().drop_first())
    } else if s.len() >= 1 {
        seq![s[0]] + undoubled(s.drop_first())
    } else {
        seq![]
    }
}

/// Reads a CSV field: a quoted field loses its quotes and its doubled quotes.
pub open spec fn csv_unquote(f: Seq<char>) -> Seq<char> {
    if f.len() >= 2 && f[0] == '"' && f[f.len() - 1] == '"' {
        undoubled(f.subrange(1, f.len() - 1))
    } else {
        f
    }
}

// ── Laws ──────────────────────────────────────────────────────────────────────

proof fn lemma_undoubled_doubled(s: Seq<char>)
    ensures
        undoubled(doubled(s)) == s,
    decreases s.len(),
{
    if s.len() > 0 {
        lemma_undoubled_doubled(s.drop_first());
        let d = doubled(s);
        if s[0] == '"' {
            assert(d == seq!['"', '"'] + doubled(s.drop_first()));
            assert(d.drop_first().drop_first() =~= doubled(s.drop_first()));
            assert(undoubled(d) == seq!['"'] + undoubled(doubled(s.drop_first())));
        } else {
            assert(d == seq![s[0]] + doubled(s.drop_first()));
            assert(d.drop_first() =~= doubled(s.drop_first()));
            assert(undoubled(d) == seq![s[0]] + undoubled(doubled(s.drop_first())));
        }
        assert(s =~= seq![s[0]] + s.drop_first());
    }
}

/// Reading back a written field gives the text that was written (RFC 4180 quoting
/// round-trips).
pub proof fn lemma_csv_field_round_trip(s: Seq<char>)
    ensures
        csv_unquote(csv_field(s)) == s,
{
    if needs_quotes(s) {
        let f = seq!['"'] + doubled(s) + seq!['"'];
        assert(f.subrange(1, f.len() - 1) =~= doubled(s));
        lemma_undoubled_doubled(s);
    } else {
        if s.len() >= 2 && s[0] == '"' {
            assert(s.contains('"'));
        }
    }
}

/// A field that needs no quotes is written as it is.
pub proof fn lemma_plain_field(s: Seq<char>)
    ensures
        !needs_quotes(s) ==> csv_field(s) == s,
{
}

/// The report has one row per asset location, and one row for each asset
/// without a location.
pub proof fn lemma_row_count(s: Seq<AssetView>)
    ensures
        csv_rows(s).len() == row_count(s),
    decreases s.len(),
{
    if s.len() > 0 {
        lemma_row_count(s.drop_last());
    }
}

// ── Writing ───────────────────────────────────────────────────────────────────

/// A CSV field (see [`csv_field`]).
pub fn csv_field_exec(s: &str) -> (r: String)
    ensures
        r@ == csv_field(s@),
{
    let c = chars_of(s);
    let mut needs = false;
    let mut i: usize = 0;
    while i < c.len()
        invariant
            i <= c.len(),
            c@ == s@,
            needs == exists|k: int| 0 <= k < i && (c@[k] == ',' || c@[k] == '"' || c@[k] == '\n' || c@[k] == '\r'),
        decreases c.len() - i,
    {
        if c[i] == ',' || c[i] == '"' || c[i] == '\n' || c[i] == '\r' {
            needs = true;
        }
        i = i + 1;
    }
    proof {
        if needs {
            let k = choose|k: int| 0 <= k < c.len() && (c@[k] == ',' || c@[k] == '"' || c@[k] == '\n' || c@[k] == '\r');
            assert(c@[k] == s@[k]);
        }
        if needs_quotes(s@) {
            if s@.contains(',') {
                let k = choose|k: int| 0 <= k < s@.len() && s@[k] == ',';
                assert(c@[k] == ',');
            } else if s@.contains('"') {
                let k = choose|k: int| 0 <= k < s@.len() && s@[k] == '"';
                assert(c@[k] == '"');
            } else if s@.contains('\n') {
                let k = choose|k: int| 0 <= k < s@.len() && s@[k] == '\n';
                assert(c@[k] == '\n');
            } else {
                let k = choose|k: int| 0 <= k < s@.len() && s@[k] == '\r';
                assert(c@[k] == '\r');
            }
        }
    }
    if !needs {
        return s.to_owned();
    }
    let mut out: Vec<char> = Vec::new();
    out.push('"');
    let mut body: Vec<char> = Vec::new();
    let mut k: usize = 0;
    assert(c@.skip(0) =~= c@);
    while k < c.len()
        invariant
            k <= c.len(),
            c@ == s@,
            body@ + doubled(c@.skip(k as int)) == doubled(s@),
        decreases c.len() - k,
    {
        assert(c@.skip(k as int).drop_first() =~= c@.skip(k + 1));
        assert(c@.skip(k as int)[0] == c@[k as int]);
        let ghost before = body@;
        if c[k] == '"' {
            body.push('"');
            body.push('"');
            assert(body@ =~= before + seq!['"', '"']);
        } else {
            body.push(c[k]);
            assert(body@ =~= before + seq![c@[k as int]]);
        }
        k = k + 1;
    }
    assert(body@ =~= doubled(s@));
    out.append(&mut body);
    out.push('"');
    assert(out@ =~= seq!['"'] + doubled(s@) + seq!['"']);
    string_of(&out)
}

fn csv_row_exec(a: &CryptoAsset, file: &str, line: Option<u32>) -> (r: String)
    ensures
        r@ == csv_row(a@, file@, line),
{
    let line_text: String = match line {
        Some(n) => decimal_string(n as u64),
        None => String::new(),
    };
    let name = csv_field_exec(a.name.as_str());
    let path = csv_field_exec(file);
    let nist = decimal_string(a.nist_quantum_security as u64);
    let mut s = name;
    s.append(",");
    s.append(crate::cbom::asset_type_name(&a.asset_type));
    s.append(",");
    s.append(a.quantum_safe.to_csv_name());
    s.append(",");
    s.append(a.hndl_risk.to_label());
    s.append(",");
    s.append(nist.as_str());
    s.append(",");
    s.append(path.as_str());
    s.append(",");
    s.append(line_text.as_str());
    s.append(",");
    s.append(evidence_text(&a.evidence));
    s.append("\n");
    s
}

proof fn lemma_concat_push(x: Seq<Seq<char>>, r: Seq<char>)
    ensures
        concat(x.push(r)) == concat(x) + r,
{
    assert(x.push(r).drop_last() =~= x);
}

/// The CSV report of a list of assets.
pub fn emit_csv(assets: &Vec<CryptoAsset>) -> (r: String)
    ensures
        r@ == csv_doc(assets.deep_view()),
{
    let ghost s = assets.deep_view();
    let mut out = CSV_HEADER.to_owned();
    let mut i: usize = 0;
    while i < assets.len()
        invariant
            i <= assets.len(),
            s == assets.deep_view(),
            out@ == CSV_HEADER@ + concat(csv_rows(s.take(i as int))),
        decreases assets.len() - i,
    {
        let a = &assets[i];
        assert(s.take(i + 1).drop_last() =~= s.take(i as int));
        assert(s.take(i + 1).last() == a@);
        let ghost base = csv_rows(s.take(i as int));
        let ghost rows = asset_rows(a@);
        if a.locations.len() == 0 {
            let row = csv_row_exec(a, "", None);
            out.append(row.as_str());
            proof {
                reveal_strlit("");
                assert(""@ =~= Seq::<char>::empty());
                assert(base + rows =~= base.push(csv_row(a@, seq![], None)));
                lemma_concat_push(base, row@);
            }
        } else {
            let mut j: usize = 0;
            while j < a.locations.len()
                invariant
                    j <= a.locations.len(),
                    a.locations.len() > 0,
                    rows == asset_rows(a@),
                    out@ == CSV_HEADER@ + concat(base + rows.take(j as int)),
                decreases a.locations.len() - j,
            {
                let l = &a.locations[j];
                assert(a@.locations[j as int] == l@);
                let row = csv_row_exec(a, l.source.as_str(), l.line);
                out.append(row.as_str());
                assert(rows.take(j + 1) =~= rows.take(j as int).push(rows[j as int]));
                assert(base + rows.take(j + 1) =~= (base + rows.take(j as int)).push(rows[j as int]));
                proof {
                    lemma_concat_push(base + rows.take(j as int), rows[j as int]);
                }
                j = j + 1;
            }
            assert(rows.take(a.locations.len() as int) =~= rows);
        }
        assert(csv_rows(s.take(i + 1)) == base + rows);
        i = i + 1;
    }
    assert(s.take(assets.len() as int) =~= s);
    out
}

} // verus!
