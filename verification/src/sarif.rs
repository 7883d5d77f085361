//! The SARIF 2.1.0 log of a scan: one rule per distinct algorithm (by rule id),
//! one result per asset location.
use vstd::prelude::*;
use crate::ignore::evidence_label;
use crate::model::{AssetView, CryptoAsset, Evidence, LocationView, QuantumSafety, Risk};
use crate::text::{chars_eq, chars_of, decimal, decimal_string, is_digit, string_of};

verus! {

/// The version the tool reports in its documents.
pub const TOOL_VERSION: &'static str = "0.5.0";

pub const SARIF_SCHEMA: &'static str =
    "https://raw.githubusercontent.com/oasis-tcs/sarif-spec/master/Schemata/sarif-schema-2.1.0.json";

pub const INFORMATION_URI: &'static str = "https://github.com/acdi-tool/acdi";

// ── Document ──────────────────────────────────────────────────────────────────

pub struct SarifText {
    pub text: String,
}

pub struct SarifConfiguration {
    pub level: String,
}

pub struct SarifRuleProperties {
    pub tags: Vec<String>,
    pub precision: String,
}

pub struct SarifRule {
    pub id: String,
    pub name: String,
    pub short_description: SarifText,
    pub full_description: SarifText,
    pub default_configuration: SarifConfiguration,
    pub help: SarifText,
    pub properties: SarifRuleProperties,
}

pub struct SarifRegion {
    pub start_line: u32,
    pub start_column: Option<u32>,
}

pub struct SarifArtifactLocation {
    pub uri: String,
}

pub struct SarifPhysicalLocation {
    pub artifact_location: SarifArtifactLocation,
    pub region: Option<SarifRegion>,
}

pub struct SarifLocation {
    pub physical_location: SarifPhysicalLocation,
}

pub struct SarifResultProperties {
    pub quantum_safe: String,
    pub hndl_risk: String,
    pub nist_level: u8,
    pub evidence: String,
}

pub struct SarifResult {
    pub rule_id: String,
    pub level: String,
    pub message: SarifText,
    pub locations: Vec<SarifLocation>,
    pub properties: SarifResultProperties,
}

pub struct SarifDriver {
    pub name: String,
    pub information_uri: String,
    pub version: String,
    pub rules: Vec<SarifRule>,
}

pub struct SarifTool {
    pub driver: SarifDriver,
}

pub struct SarifRun {
    pub tool: SarifTool,
    pub results: Vec<SarifResult>,
}

pub struct SarifLog {
    pub schema: String,
    pub version: String,
    pub runs: Vec<SarifRun>,
}

// ── Views ─────────────────────────────────────────────────────────────────────

pub struct RuleView {
    pub id: Seq<char>,
    pub name: Seq<char>,
    pub short_description: Seq<char>,
    pub full_description: Seq<char>,
    pub level: Seq<char>,
    pub help: Seq<char>,
    pub tags: Seq<Seq<char>>,
    pub precision: Seq<char>,
}

impl View for SarifRule {
    type V = RuleView;

    open spec fn view(&self) -> RuleView {
        RuleView {
            id: self.id@,
            name: self.name@,
            short_description: self.short_description.text@,
            full_description: self.full_description.text@,
            level: self.default_configuration.level@,
            help: self.help.text@,
            tags: self.properties.tags.deep_view(),
            precision: self.properties.precision@,
        }
    }
}

impl DeepView for SarifRule {
    type V = RuleView;

    open spec fn deep_view(&self) -> RuleView {
        self@
    }
}

pub struct ResultView {
    pub rule_id: Seq<char>,
    pub level: Seq<char>,
    pub message: Seq<char>,
    /// The artifact URI and region of each location.
    pub locations: Seq<(Seq<char>, Option<(u32, Option<u32>)>)>,
    pub quantum_safe: Seq<char>,
    pub hndl_risk: Seq<char>,
    pub nist_level: u8,
    pub evidence: Seq<char>,
}

pub open spec fn location_view(l: SarifLocation) -> (Seq<char>, Option<(u32, Option<u32>)>) {
    (
        l.physical_location.artifact_location.uri@,
        match l.physical_location.region {
            Some(r) => Some((r.start_line, r.start_column)),
            None => None,
        },
    )
}

impl View for SarifResult {
    type V = ResultView;

    open spec fn view(&self) -> ResultView {
        ResultView {
            rule_id: self.rule_id@,
            level: self.level@,
            message: self.message.text@,
            locations: self.locations@.map_values(|l: SarifLocation| location_view(l)),
            quantum_safe: self.properties.quantum_safe@,
            hndl_risk: self.properties.hndl_risk@,
            nist_level: self.properties.nist_level,
            evidence: self.properties.evidence@,
        }
    }
}

impl DeepView for SarifResult {
    type V = ResultView;

    open spec fn deep_view(&self) -> ResultView {
        self@
    }
}

// ── Specification ─────────────────────────────────────────────────────────────

/// Spaces become hyphens.
pub open spec fn sanitize(s: Seq<char>) -> Seq<char> {
    Seq::new(
        s.len(),
        |i: int|
            if s[i] == ' ' {
                '-'
            } else {
                s[i]
            },
    )
}

/// At `i` a `-` opens the parameter part of an algorithm name: a key size or
/// level (`-2048`, `-768`, `-128s`) or a NIST curve (`-P-256`).
pub open spec fn param_starts(s: Seq<char>, i: int) -> bool {
    &&& 0 <= i
    &&& i + 1 < s.len()
    &&& s[i] == '-'
    &&& (is_digit(s[i + 1]) || (s[i + 1] == 'P' && (i + 2 == s.len() || s[i + 2] == '-')))
}

/// Where the family part of a name ends, searching from `i`.
pub open spec fn family_end(s: Seq<char>, i: int) -> int
    decreases s.len() - i,
{
    if i < 0 || i >= s.len() {
        s.len() as int
    } else if param_starts(s, i) {
        i
    } else {
        family_end(s, i + 1)
    }
}

/// The algorithm family of a name: the name without its parameter part
/// (`RSA-2048` and `RSA-4096` are `RSA`, `ECDSA-P-256` is `ECDSA`, `ML-KEM-768`
/// is `ML-KEM`; a name with no parameter part is its own family).
pub open spec fn family(name: Seq<char>) -> Seq<char> {
    name.take(family_end(name, 0))
}

/// The id of the rule of an algorithm family.
pub open spec fn rule_id(name: Seq<char>) -> Seq<char> {
    "ACDI-"@ + sanitize(family(name))
}

/// The short quantum-safety label of the reports.
pub open spec fn qs_short(q: QuantumSafety) -> Seq<char> {
    match q {
        QuantumSafety::Safe => "SAFE"@,
        QuantumSafety::HybridSafe => "HYBRID-SAFE"@,
        QuantumSafety::ClassicallyAdequate => "ADEQUATE"@,
        QuantumSafety::Vulnerable => "VULNERABLE"@,
        QuantumSafety::Unknown => "UNKNOWN"@,
    }
}

/// The SARIF level of a risk.
pub open spec fn risk_level(r: Risk) -> Seq<char> {
    match r {
        Risk::Critical | Risk::High => "error"@,
        Risk::Medium => "warning"@,
        Risk::Low => "note"@,
        Risk::NoRisk => "none"@,
    }
}

/// The tags of a rule for an algorithm of the given risk.
pub open spec fn risk_tags(r: Risk) -> Seq<Seq<char>> {
    match r {
        Risk::Critical => seq!["security"@, "cryptography"@, "pqc"@, "critical"@],
        Risk::High => seq!["security"@, "cryptography"@, "pqc"@, "high"@],
        Risk::Medium => seq!["security"@, "cryptography"@, "pqc"@],
        _ => seq!["cryptography"@, "pqc"@],
    }
}

pub open spec fn bool_text(b: bool) -> Seq<char> {
    if b {
        "true"@
    } else {
        "false"@
    }
}

/// The rule for an algorithm family, from the first asset of the family.
pub open spec fn rule_of(a: AssetView) -> RuleView {
    RuleView {
        id: rule_id(a.name),
        name: sanitize(family(a.name)),
        short_description: family(a.name) + " — quantum safety: "@ + qs_short(a.quantum_safe),
        full_description: family(a.name) + " has HNDL risk "@ + a.hndl_risk.label()
            + " and NIST quantum security level "@ + decimal(a.nist_quantum_security as nat)
            + ". Deprecated by NIST IR 8547 by 2030: "@ + bool_text(a.nist_quantum_security == 0)
            + ". Removed by 2035: "@ + bool_text(a.nist_quantum_security == 0) + "."@,
        level: risk_level(a.hndl_risk),
        help: "Replace "@ + family(a.name)
            + " with a NIST-approved post-quantum algorithm (ML-KEM-768 for key encapsulation, ML-DSA-65 for signatures)."@,
        tags: risk_tags(a.hndl_risk),
        precision: "high"@,
    }
}

pub open spec fn has_rule(s: Seq<AssetView>, id: Seq<char>) -> bool {
    exists|i: int| 0 <= i < s.len() && #[trigger] rule_id(s[i].name) == id
}

/// The first asset of each rule id (each algorithm family), in order.
pub open spec fn rule_assets(s: Seq<AssetView>) -> Seq<AssetView>
    decreases s.len(),
{
    if s.len() == 0 {
        seq![]
    } else if has_rule(s.drop_last(), rule_id(s.last().name)) {
        rule_assets(s.drop_last())
    } else {
        rule_assets(s.drop_last()).push(s.last())
    }
}

/// The result for one location of an asset.
pub open spec fn result_of(a: AssetView, l: LocationView) -> ResultView {
    ResultView {
        rule_id: rule_id(a.name),
        level: risk_level(a.hndl_risk),
        message: a.name + " is "@ + qs_short(a.quantum_safe) + " (HNDL risk: "@ + a.hndl_risk.label()
            + ", NIST level: "@ + decimal(a.nist_quantum_security as nat)
            + "). Consider migrating to a post-quantum alternative."@,
        locations: seq![
            (
                l.source,
                match l.line {
                    Some(n) => Some((n, l.column)),
                    None => None,
                },
            ),
        ],
        quantum_safe: a.quantum_safe.variant_name(),
        hndl_risk: a.hndl_risk.variant_name(),
        nist_level: a.nist_quantum_security,
        evidence: evidence_label(a.evidence),
    }
}

pub open spec fn asset_results(a: AssetView) -> Seq<ResultView> {
    a.locations.map_values(|l: LocationView| result_of(a, l))
}

/// One result per (asset, location), in order.
pub open spec fn results_of(s: Seq<AssetView>) -> Seq<ResultView>
    decreases s.len(),
{
    if s.len() == 0 {
        seq![]
    } else {
        results_of(s.drop_last()) + asset_results(s.last())
    }
}

// ── Building ──────────────────────────────────────────────────────────────────

fn sanitize_id(name: &str) -> (r: Vec<char>)
    ensures
        r@ == sanitize(name@),
{
    let c = chars_of(name);
    let mut r: Vec<char> = Vec::new();
    let mut i: usize = 0;
    while i < c.len()
        invariant
            i <= c.len(),
            c@ == name@,
            r@ == sanitize(name@).take(i as int),
        decreases c.len() - i,
    {
        r.push(if c[i] == ' ' { '-' } else { c[i] });
        assert(r@ =~= sanitize(name@).take(i + 1));
        i = i + 1;
    }
    assert(sanitize(name@).take(c.len() as int) =~= sanitize(name@));
    r
}

fn param_starts_exec(s: &[char], i: usize) -> (b: bool)
    requires
        i < s.len(),
    ensures
        b == param_starts(s@, i as int),
{
    i + 1 < s.len() && s[i] == '-' && (('0' <= s[i + 1] && s[i + 1] <= '9') || (s[i + 1] == 'P' && (i
        + 2 == s.len() || s[i + 2] == '-')))
}

fn family_len(s: &[char]) -> (k: usize)
    ensures
        k as int == family_end(s@, 0),
        k <= s.len(),
{
    let mut i: usize = 0;
    while i < s.len()
        invariant
            i <= s.len(),
            family_end(s@, 0) == family_end(s@, i as int),
        decreases s.len() - i,
    {
        if param_starts_exec(s, i) {
            return i;
        }
        i = i + 1;
    }
    i
}

/// The algorithm family of a name (see [`family`]).
pub fn family_of(name: &str) -> (r: String)
    ensures
        r@ == family(name@),
{
    let c = chars_of(name);
    let k = family_len(c.as_slice());
    let r = string_of(&c.as_slice()[0..k]);
    assert(r@ =~= name@.take(k as int));
    r
}

fn rule_id_for(name: &str) -> (r: Vec<char>)
    ensures
        r@ == rule_id(name@),
{
    let fam = family_of(name);
    let mut r = chars_of("ACDI-");
    let mut s = sanitize_id(fam.as_str());
    r.append(&mut s);
    r
}

/// The short quantum-safety label.
pub fn format_qs(q: &QuantumSafety) -> (s: &'static str)
    ensures
        s@ == qs_short(*q),
{
    match q {
        QuantumSafety::Safe => "SAFE",
        QuantumSafety::HybridSafe => "HYBRID-SAFE",
        QuantumSafety::ClassicallyAdequate => "ADEQUATE",
        QuantumSafety::Vulnerable => "VULNERABLE",
        QuantumSafety::Unknown => "UNKNOWN",
    }
}

/// The SARIF level of a risk.
pub fn risk_to_level(r: &Risk) -> (s: &'static str)
    ensures
        s@ == risk_level(*r),
{
    match r {
        Risk::Critical | Risk::High => "error",
        Risk::Medium => "warning",
        Risk::Low => "note",
        Risk::NoRisk => "none",
    }
}

fn rule_tags(r: &Risk) -> (t: Vec<String>)
    ensures
        t.deep_view() == risk_tags(*r),
{
    let mut t: Vec<String> = Vec::new();
    match r {
        Risk::Critical | Risk::High | Risk::Medium => {
            t.push("security".to_owned());
        },
        _ => {},
    }
    t.push("cryptography".to_owned());
    t.push("pqc".to_owned());
    match r {
        Risk::Critical => {
            t.push("critical".to_owned());
        },
        Risk::High => {
            t.push("high".to_owned());
        },
        _ => {},
    }
    assert(t.deep_view() =~= risk_tags(*r));
    t
}

fn bool_str(b: bool) -> (s: &'static str)
    ensures
        s@ == bool_text(b),
{
    if b {
        "true"
    } else {
        "false"
    }
}

fn text(s: String) -> (r: SarifText)
    ensures
        r.text@ == s@,
{
    SarifText { text: s }
}

/// The rule of an algorithm family, from an asset of the family.
fn build_rule(a: &CryptoAsset) -> (r: SarifRule)
    ensures
        r@ == rule_of(a@),
{
    let fam = family_of(a.name.as_str());
    let name = fam.as_str();
    let mut short = name.to_owned();
    short.append(" — quantum safety: ");
    short.append(format_qs(&a.quantum_safe));
    let nist = decimal_string(a.nist_quantum_security as u64);
    let broken = bool_str(a.nist_quantum_security == 0);
    let mut full = name.to_owned();
    full.append(" has HNDL risk ");
    full.append(a.hndl_risk.to_label());
    full.append(" and NIST quantum security level ");
    full.append(nist.as_str());
    full.append(". Deprecated by NIST IR 8547 by 2030: ");
    full.append(broken);
    full.append(". Removed by 2035: ");
    full.append(broken);
    full.append(".");
    let mut help = "Replace ".to_owned();
    help.append(name);
    help.append(
        " with a NIST-approved post-quantum algorithm (ML-KEM-768 for key encapsulation, ML-DSA-65 for signatures).",
    );
    SarifRule {
        id: string_of(&rule_id_for(a.name.as_str())),
        name: string_of(&sanitize_id(name)),
        short_description: text(short),
        full_description: text(full),
        default_configuration: SarifConfiguration { level: risk_to_level(&a.hndl_risk).to_owned() },
        help: text(help),
        properties: SarifRuleProperties { tags: rule_tags(&a.hndl_risk), precision: "high".to_owned() },
    }
}

/// The results of one asset, one per location.
fn build_results(a: &CryptoAsset) -> (r: Vec<SarifResult>)
    ensures
        r.deep_view() == asset_results(a@),
{
    let id = string_of(&rule_id_for(a.name.as_str()));
    let level = risk_to_level(&a.hndl_risk);
    let mut msg = a.name.clone();
    msg.append(" is ");
    msg.append(format_qs(&a.quantum_safe));
    msg.append(" (HNDL risk: ");
    msg.append(a.hndl_risk.to_label());
    msg.append(", NIST level: ");
    msg.append(decimal_string(a.nist_quantum_security as u64).as_str());
    msg.append("). Consider migrating to a post-quantum alternative.");
    let ghost av = a@;
    let mut out: Vec<SarifResult> = Vec::new();
    let mut i: usize = 0;
    while i < a.locations.len()
        invariant
            i <= a.locations.len(),
            av == a@,
            id@ == rule_id(av.name),
            level@ == risk_level(av.hndl_risk),
            msg@ == result_of(av, av.locations[0]).message,
            out.deep_view() == asset_results(av).take(i as int),
        decreases a.locations.len() - i,
    {
        let l = &a.locations[i];
        let region = match l.line {
            Some(n) => Some(SarifRegion { start_line: n, start_column: l.column }),
            None => None,
        };
        let mut locations: Vec<SarifLocation> = Vec::new();
        locations.push(
            SarifLocation {
                physical_location: SarifPhysicalLocation {
                    artifact_location: SarifArtifactLocation { uri: l.source.clone() },
                    region,
                },
            },
        );
        let res = SarifResult {
            rule_id: id.clone(),
            level: level.to_owned(),
            message: text(msg.clone()),
            locations,
            properties: SarifResultProperties {
                quantum_safe: a.quantum_safe.to_variant_name().to_owned(),
                hndl_risk: a.hndl_risk.to_variant_name().to_owned(),
                nist_level: a.nist_quantum_security,
                evidence: crate::ignore::evidence_text(&a.evidence).to_owned(),
            },
        };
        let ghost before = out.deep_view();
        out.push(res);
        proof {
            assert(res@.locations =~= seq![location_view(res.locations@[0])]);
            assert(res@ == result_of(av, av.locations[i as int]));
            assert(out.deep_view() =~= before.push(res@));
            assert(asset_results(av).take(i + 1) =~= asset_results(av).take(i as int).push(
                result_of(av, av.locations[i as int]),
            ));
        }
        i = i + 1;
    }
    assert(asset_results(av).take(a.locations.len() as int) =~= asset_results(av));
    out
}

pub open spec fn id_listed(ids: Seq<Seq<char>>, id: Seq<char>) -> bool {
    exists|j: int| 0 <= j < ids.len() && #[trigger] ids[j] == id
}

/// Whether `id` is among `ids`.
fn has_id(ids: &Vec<Vec<char>>, id: &Vec<char>) -> (b: bool)
    ensures
        b == id_listed(ids.deep_view(), id@),
{
    let mut k: usize = 0;
    while k < ids.len()
        invariant
            k <= ids.len(),
            forall|j: int| 0 <= j < k ==> #[trigger] ids.deep_view()[j] != id@,
        decreases ids.len() - k,
    {
        assert(ids.deep_view()[k as int] =~= ids@[k as int]@);
        if chars_eq(&ids[k], id) {
            return true;
        }
        k = k + 1;
    }
    false
}

/// The SARIF log of a list of assets: one rule per algorithm family (in order of
/// first appearance), one result per asset location.
pub fn sarif_log(assets: &Vec<CryptoAsset>) -> (r: SarifLog)
    ensures
        r.schema@ == SARIF_SCHEMA@,
        r.version@ == "2.1.0"@,
        r.runs.len() == 1,
        r.runs@[0].tool.driver.name@ == "acdi"@,
        r.runs@[0].tool.driver.information_uri@ == INFORMATION_URI@,
        r.runs@[0].tool.driver.version@ == TOOL_VERSION@,
        r.runs@[0].tool.driver.rules.deep_view() == rule_assets(assets.deep_view()).map_values(
            |a: AssetView| rule_of(a),
        ),
        r.runs@[0].results.deep_view() == results_of(assets.deep_view()),
{
    let ghost av = assets.deep_view();
    let mut rules: Vec<SarifRule> = Vec::new();
    let mut ids: Vec<Vec<char>> = Vec::new();
    let mut results: Vec<SarifResult> = Vec::new();
    let mut i: usize = 0;
    while i < assets.len()
        invariant
            i <= assets.len(),
            av == assets.deep_view(),
            rules.deep_view() == rule_assets(av.take(i as int)).map_values(|a: AssetView| rule_of(a)),
            results.deep_view() == results_of(av.take(i as int)),
            forall|k: int| 0 <= k < i ==> id_listed(ids.deep_view(), #[trigger] rule_id(av[k].name)),
            forall|j: int| 0 <= j < ids.len() ==> has_rule(av.take(i as int), #[trigger] ids.deep_view()[j]),
        decreases assets.len() - i,
    {
        let a = &assets[i];
        let id = rule_id_for(a.name.as_str());
        let ghost t = av.take(i as int);
        assert(av.take(i + 1).drop_last() =~= t);
        assert(av.take(i + 1).last() == a@);
        let seen = has_id(&ids, &id);
        proof {
            if seen {
                let j = choose|j: int| 0 <= j < ids.len() && #[trigger] ids.deep_view()[j] == id@;
                assert(has_rule(t, ids.deep_view()[j]));
                assert(has_rule(t, id@));
            } else {
                if has_rule(t, id@) {
                    let k = choose|k: int| 0 <= k < t.len() && #[trigger] rule_id(t[k].name) == id@;
                    assert(av[k] == t[k]);
                    assert(id_listed(ids.deep_view(), rule_id(av[k].name)));
                    assert(false);
                }
            }
        }
        let ghost ids0 = ids.deep_view();
        if !seen {
            let rule = build_rule(a);
            let ghost before = rules.deep_view();
            rules.push(rule);
            assert(rules.deep_view() =~= before.push(rule_of(a@)));
            let ghost ib = ids.deep_view();
            assert(id.deep_view() =~= id@);
            ids.push(id);
            assert(ids.deep_view() =~= ib.push(rule_id(a@.name)));
        }
        let mut more = build_results(a);
        let ghost rb = results.deep_view();
        let ghost mv = more.deep_view();
        results.append(&mut more);
        proof {
            assert(results.deep_view() =~= rb + mv);
            let t1 = av.take(i + 1);
            assert forall|k: int| 0 <= k < i + 1 implies id_listed(ids.deep_view(), #[trigger] rule_id(av[k].name)) by {
                if k == i {
                    if seen {
                    } else {
                        assert(ids.deep_view()[ids.len() - 1] == rule_id(av[k].name));
                    }
                } else {
                    assert(id_listed(ids0, rule_id(av[k].name)));
                    let j = choose|j: int| 0 <= j < ids0.len() && #[trigger] ids0[j] == rule_id(av[k].name);
                    assert(ids.deep_view()[j] == ids0[j]);
                }
            }
            assert forall|j: int| 0 <= j < ids.len() implies has_rule(t1, #[trigger] ids.deep_view()[j]) by {
                let x = ids.deep_view()[j];
                if !seen && j == ids.len() - 1 {
                    assert(rule_id(t1[i as int].name) == x);
                } else {
                    assert(x == ids0[j]);
                    assert(has_rule(t, x));
                    let k = choose|k: int| 0 <= k < t.len() && #[trigger] rule_id(t[k].name) == x;
                    assert(t1[k] == t[k]);
                }
            }
        }
        i = i + 1;
    }
    assert(av.take(assets.len() as int) =~= av);
    let mut runs: Vec<SarifRun> = Vec::new();
    runs.push(
        SarifRun {
            tool: SarifTool {
                driver: SarifDriver {
                    name: "acdi".to_owned(),
                    information_uri: INFORMATION_URI.to_owned(),
                    version: TOOL_VERSION.to_owned(),
                    rules,
                },
            },
            results,
        },
    );
    SarifLog { schema: SARIF_SCHEMA.to_owned(), version: "2.1.0".to_owned(), runs }
}

// ── Laws ──────────────────────────────────────────────────────────────────────

proof fn lemma_rule_assets_from(s: Seq<AssetView>)
    ensures
        forall|i: int|
            0 <= i < rule_assets(s).len() ==> has_rule(s, rule_id(#[trigger] rule_assets(s)[i].name)),
    decreases s.len(),
{
    if s.len() > 0 {
        let p = s.drop_last();
        lemma_rule_assets_from(p);
        let r = rule_assets(s);
        assert forall|i: int| 0 <= i < r.len() implies has_rule(s, rule_id(#[trigger] r[i].name)) by {
            if i < rule_assets(p).len() {
                assert(r[i] == rule_assets(p)[i]);
                let j = choose|j: int| 0 <= j < p.len() && #[trigger] rule_id(p[j].name) == rule_id(r[i].name);
                assert(s[j] == p[j]);
            } else {
                assert(r[i] == s.last());
                assert(rule_id(s[s.len() - 1].name) == rule_id(r[i].name));
            }
        }
    }
}

/// The SARIF rules are one per rule id: no id is listed twice, and every
/// finding's rule id is listed.
pub proof fn lemma_rules_unique_and_complete(s: Seq<AssetView>)
    ensures
        forall|i: int, j: int|
            0 <= i < j < rule_assets(s).len() ==> rule_id(#[trigger] rule_assets(s)[i].name) != rule_id(
                #[trigger] rule_assets(s)[j].name,
            ),
        forall|k: int| 0 <= k < s.len() ==> has_rule(rule_assets(s), rule_id(#[trigger] s[k].name)),
    decreases s.len(),
{
    if s.len() > 0 {
        let p = s.drop_last();
        lemma_rules_unique_and_complete(p);
        lemma_rule_assets_from(p);
        let rp = rule_assets(p);
        let r = rule_assets(s);
        let x = s.last();
        if has_rule(p, rule_id(x.name)) {
            assert(r == rp);
            assert forall|k: int| 0 <= k < s.len() implies has_rule(r, rule_id(#[trigger] s[k].name)) by {
                if k < p.len() {
                    assert(s[k] == p[k]);
                } else {
                    let j = choose|j: int| 0 <= j < p.len() && #[trigger] rule_id(p[j].name) == rule_id(x.name);
                    assert(p[j] == s[j]);
                    assert(has_rule(rp, rule_id(p[j].name)));
                }
            }
        } else {
            assert(r == rp.push(x));
            assert forall|i: int, j: int| 0 <= i < j < r.len() implies rule_id(#[trigger] r[i].name)
                != rule_id(#[trigger] r[j].name) by {
                if j == r.len() - 1 {
                    assert(r[i] == rp[i]);
                    assert(r[j] == x);
                    if rule_id(rp[i].name) == rule_id(x.name) {
                        assert(has_rule(p, rule_id(rp[i].name)));
                        assert(has_rule(p, rule_id(x.name)));
                    }
                } else {
                    assert(r[i] == rp[i]);
                    assert(r[j] == rp[j]);
                }
            }
            assert forall|k: int| 0 <= k < s.len() implies has_rule(r, rule_id(#[trigger] s[k].name)) by {
                if k < p.len() {
                    assert(s[k] == p[k]);
                    let j = choose|j: int| 0 <= j < rp.len() && #[trigger] rule_id(rp[j].name) == rule_id(p[k].name);
                    assert(r[j] == rp[j]);
                } else {
                    assert(r[r.len() - 1] == x);
                    assert(rule_id(r[r.len() - 1].name) == rule_id(s[k].name));
                }
            }
        }
    }
}

/// There is one result per finding location.
pub proof fn lemma_results_per_location(s: Seq<AssetView>)
    ensures
        results_of(s).len() == location_count(s),
    decreases s.len(),
{
    if s.len() > 0 {
        lemma_results_per_location(s.drop_last());
    }
}

/// The number of locations over all findings.
pub open spec fn location_count(s: Seq<AssetView>) -> nat
    decreases s.len(),
{
    if s.len() == 0 {
        0
    } else {
        location_count(s.drop_last()) + s.last().locations.len()
    }
}

} // verus!
