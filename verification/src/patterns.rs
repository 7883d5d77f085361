//! Line-oriented pattern matching shared by the source and configuration
//! scanners: regular-expression captures, text decoding, and the findings
//! they yield (one per algorithm name and line).
use vstd::prelude::*;
use vstd::utf8::{decode_utf8, valid_utf8};
use crate::catalog::{classify, classify_by_name};
use crate::model::{asset_view, AssetType, AssetView, CryptoAsset, Evidence, Location, LocationView};
use crate::text::{chars_eq, string_of};

verus! {

// ── Regular expressions ───────────────────────────────────────────────────────

/// One match of a regular expression in a line: the byte offset where the
/// whole match starts, and the text of the named group when it took part.
pub type CaptureView = (Option<usize>, Option<Seq<char>>);

/// The matches `regex` finds in `line` with `captures_iter`, for a pattern and
/// a group name; `None` when the pattern does not compile.
pub uninterp spec fn regex_captures_of(pattern: Seq<char>, group: Seq<char>, line: Seq<char>) -> Option<
    Seq<CaptureView>,
>;

pub open spec fn capture_view(c: (Option<usize>, Option<String>)) -> CaptureView {
    (c.0, match c.1 {
        Some(s) => Some(s@),
        None => None,
    })
}

pub open spec fn captures_view(v: Seq<(Option<usize>, Option<String>)>) -> Seq<CaptureView> {
    v.map_values(|c: (Option<usize>, Option<String>)| capture_view(c))
}

/// Every match offset is at most `isize::MAX`.
pub open spec fn offsets_in_range(c: Seq<CaptureView>) -> bool {
    forall|j: int| 0 <= j < c.len() ==> ((#[trigger] c[j]).0 matches Some(s) ==> s <= isize::MAX)
}

/// Compiles `pattern` with `regex::Regex::new` and runs `captures_iter` over
/// each line, collecting for every match the start offset of the whole match
/// and the text of the group `group`. `None` when the pattern does not compile
/// (then it compiles for no line). The contract claims that the result is a
/// function of pattern, group and line, named [`regex_captures_of`], and that
/// match offsets lie inside the line (a string never exceeds `isize::MAX`
/// bytes).
#[verifier::external_body]
pub(crate) fn regex_line_captures(pattern: &str, group: &str, lines: &Vec<String>) -> (r: Option<
    Vec<Vec<(Option<usize>, Option<String>)>>,
>)
    ensures
        match r {
            Some(v) => v.len() == lines.len() && forall|i: int|
                0 <= i < lines.len() ==> regex_captures_of(pattern@, group@, #[trigger] lines@[i]@)
                    == Some(captures_view(v@[i]@)) && offsets_in_range(captures_view(v@[i]@)),
            None => forall|i: int|
                0 <= i < lines.len() ==> regex_captures_of(pattern@, group@, #[trigger] lines@[i]@)
                    is None,
        },
{
    let re = match regex::Regex::new(pattern) {
        Ok(re) => re,
        Err(_) => return None,
    };
    Some(lines.iter().map(|l| re.captures_iter(l).map(|c| (c.get(0).map(|m| m.start()), c.name(group).map(|m| m.as_str().to_owned()))).collect()).collect())
}

// ── Text decoding ─────────────────────────────────────────────────────────────

/// What `String::from_utf8_lossy` makes of a byte string.
pub uninterp spec fn utf8_lossy_of(bytes: Seq<u8>) -> Seq<char>;

/// Decodes bytes with `String::from_utf8_lossy` (invalid sequences become
/// U+FFFD). The contract claims that the result is a function of the bytes,
/// named [`utf8_lossy_of`], and the plain decoding when the bytes are valid
/// UTF-8.
#[verifier::external_body]
pub(crate) fn lossy_text(bytes: &[u8]) -> (r: String)
    ensures
        r@ == utf8_lossy_of(bytes@),
        valid_utf8(bytes@) ==> r@ == decode_utf8(bytes@),
{
    String::from_utf8_lossy(bytes).into_owned()
}

/// Decodes UTF-8 with `std::str::from_utf8`: the decoded text when the bytes
/// are valid UTF-8, `None` otherwise.
#[verifier::external_body]
pub(crate) fn utf8_text(bytes: &[u8]) -> (r: Option<String>)
    ensures
        r is Some <==> valid_utf8(bytes@),
        r matches Some(s) ==> s@ == decode_utf8(bytes@),
{
    std::str::from_utf8(bytes).ok().map(|s| s.to_owned())
}

// ── Findings ──────────────────────────────────────────────────────────────────

/// A finding of a line scanner: algorithm name, line number and column.
pub struct Candidate {
    pub name: String,
    pub line: u32,
    pub column: Option<u32>,
}

pub type CandView = (Seq<char>, u32, Option<u32>);

impl View for Candidate {
    type V = CandView;

    open spec fn view(&self) -> CandView {
        (self.name@, self.line, self.column)
    }
}

impl DeepView for Candidate {
    type V = CandView;

    open spec fn deep_view(&self) -> CandView {
        self@
    }
}

pub open spec fn has_key(s: Seq<CandView>, name: Seq<char>, line: u32) -> bool {
    exists|i: int| 0 <= i < s.len() && #[trigger] s[i].0 == name && s[i].1 == line
}

/// The findings with the first of each (name, line) pair kept.
pub open spec fn dedup_by_line(c: Seq<CandView>) -> Seq<CandView>
    decreases c.len(),
{
    if c.len() == 0 {
        seq![]
    } else if has_key(dedup_by_line(c.drop_last()), c.last().0, c.last().1) {
        dedup_by_line(c.drop_last())
    } else {
        dedup_by_line(c.drop_last()).push(c.last())
    }
}

/// The asset of a finding at `source`.
pub open spec fn finding_asset(c: CandView, source: Seq<char>, evidence: Evidence) -> AssetView {
    asset_view(
        AssetType::Algorithm,
        c.0,
        None,
        None,
        classify(c.0),
        seq![LocationView { source, line: Some(c.1), column: c.2 }],
        evidence,
    )
}

pub open spec fn finding_assets(c: Seq<CandView>, source: Seq<char>, evidence: Evidence) -> Seq<AssetView> {
    c.map_values(|x: CandView| finding_asset(x, source, evidence))
}

/// The findings with the first of each (name, line) pair kept.
pub fn dedup_candidates(c: &Vec<Candidate>) -> (r: Vec<Candidate>)
    ensures
        r.deep_view() == dedup_by_line(c.deep_view()),
{
    let ghost cv = c.deep_view();
    let mut out: Vec<Candidate> = Vec::new();
    let mut i: usize = 0;
    while i < c.len()
        invariant
            i <= c.len(),
            cv == c.deep_view(),
            out.deep_view() == dedup_by_line(cv.take(i as int)),
        decreases c.len() - i,
    {
        assert(cv.take(i + 1).drop_last() =~= cv.take(i as int));
        assert(cv.take(i + 1).last() == c@[i as int]@);
        let x = &c[i];
        let mut seen = false;
        let mut k: usize = 0;
        let ghost ov = out.deep_view();
        let ghost xv = x@;
        while k < out.len()
            invariant
                k <= out.len(),
                ov == out.deep_view(),
                xv == x@,
                seen == exists|j: int| 0 <= j < k && #[trigger] ov[j].0 == xv.0 && ov[j].1 == xv.1,
            decreases out.len() - k,
        {
            assert(ov[k as int].0 == out@[k as int].name@);
            assert(ov[k as int].1 == out@[k as int].line);
            if out[k].line == x.line && crate::text::str_eq(out[k].name.as_str(), x.name.as_str()) {
                seen = true;
            }
            k = k + 1;
        }
        if !seen {
            let y = Candidate { name: x.name.clone(), line: x.line, column: x.column };
            out.push(y);
            assert(out.deep_view() =~= ov.push(x@));
        }
        i = i + 1;
    }
    assert(cv.take(c.len() as int) =~= cv);
    out
}

/// The assets of findings at `source`, with the given evidence.
pub fn candidates_to_assets(c: &Vec<Candidate>, source: &str, evidence: Evidence) -> (r: Vec<CryptoAsset>)
    ensures
        r.deep_view() == finding_assets(c.deep_view(), source@, evidence),
{
    let ghost cv = c.deep_view();
    let mut out: Vec<CryptoAsset> = Vec::new();
    let mut i: usize = 0;
    while i < c.len()
        invariant
            i <= c.len(),
            cv == c.deep_view(),
            out.deep_view() == finding_assets(cv.take(i as int), source@, evidence),
        decreases c.len() - i,
    {
        let x = &c[i];
        let class = classify_by_name(x.name.as_str());
        let loc = Location { source: source.to_owned(), line: Some(x.line), column: x.column };
        let a = CryptoAsset::single(AssetType::Algorithm, x.name.clone(), None, None, class, loc, evidence);
        let ghost before = out.deep_view();
        out.push(a);
        assert(out.deep_view() =~= before.push(a@));
        assert(cv[i as int] == x@);
        assert(finding_assets(cv.take(i + 1), source@, evidence) =~= finding_assets(
            cv.take(i as int),
            source@,
            evidence,
        ).push(finding_asset(x@, source@, evidence)));
        i = i + 1;
    }
    assert(cv.take(c.len() as int) =~= cv);
    out
}

} // verus!
