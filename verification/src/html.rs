//! The self-contained HTML migration report: summary cards, the NIST IR 8547
//! timeline, the findings table, the remediation guide and scan statistics.
use vstd::prelude::*;
use crate::model::{AssetType, AssetView, CryptoAsset, Evidence, LocationView, QuantumSafety, Risk};
use crate::sarif::{format_qs, qs_short, TOOL_VERSION};
use crate::table::{assoc_prefix, lookup, opt_str_view, pairs_view, KeyMatch};
use crate::ignore::{forward_slashes, forward_slashes_exec};
use crate::text::{chars_eq, chars_of, decimal, decimal_string, split_char, split_on, string_of, u32_of_text, parse_u32_text};

verus! {

pub const REPORT_CSS: &'static str = r#"
:root{--cr:#dc2626;--hi:#ea580c;--me:#d97706;--lo:#2563eb;--sa:#16a34a;--bg:#f8fafc;--card:#fff;--bd:#e2e8f0;--tx:#0f172a;--mu:#64748b}
*{box-sizing:border-box;margin:0;padding:0}
body{font-family:-apple-system,BlinkMacSystemFont,'Segoe UI',Roboto,sans-serif;background:var(--bg);color:var(--tx);line-height:1.6}
.container{max-width:1200px;margin:0 auto;padding:0 24px}
header{background:#0f172a;color:#f1f5f9;padding:20px 0}
header h1{font-size:1.375rem;font-weight:700}
.meta{font-size:.8rem;color:#94a3b8;margin-top:4px}
.meta code{background:#1e293b;padding:1px 6px;border-radius:4px;font-size:.75rem}
main{padding:28px 0}
section{margin-bottom:36px}
h2{font-size:1.1rem;font-weight:600;color:#1e293b;margin-bottom:14px;padding-bottom:8px;border-bottom:2px solid var(--bd)}
.cards{display:flex;gap:12px;flex-wrap:wrap}
.card{background:var(--card);border:1px solid var(--bd);border-radius:8px;padding:16px 20px;min-width:110px;flex:1}
.cv{display:block;font-size:2rem;font-weight:700;line-height:1.1}
.cl{display:block;font-size:.75rem;color:var(--mu);margin-top:2px}
.card.total .cv{color:#0f172a}.card.vuln .cv{color:var(--cr)}
.card.critical .cv{color:var(--cr)}.card.high .cv{color:var(--hi)}
.card.medium .cv{color:var(--me)}.card.low .cv{color:var(--lo)}.card.safe .cv{color:var(--sa)}
.timeline{padding:8px 0}
.tl-bar{height:10px;background:#e2e8f0;border-radius:5px;position:relative;margin:40px 0 18px}
.tl-fill{height:100%;border-radius:5px;background:linear-gradient(90deg,var(--cr),var(--hi),var(--me))}
.tl-m{position:absolute;top:-30px;transform:translateX(-50%);text-align:center;pointer-events:none}
.tl-ml{display:block;font-size:.65rem;color:var(--mu);line-height:1.2}
.tl-my{display:block;font-size:.7rem;font-weight:600;color:#1e293b;border-top:1px solid var(--bd);margin-top:2px;padding-top:2px}
.tl-now{position:absolute;top:-12px;bottom:-12px;width:2px;background:#0f172a;transform:translateX(-50%)}
.tl-now-label{position:absolute;top:-32px;left:6px;font-size:.65rem;font-weight:700;white-space:nowrap;color:#0f172a}
.tl-labels{display:flex;justify-content:space-between;font-size:.75rem;color:var(--mu)}
.filter-bar{display:flex;gap:8px;flex-wrap:wrap;align-items:center;margin-bottom:10px}
#fs{padding:6px 12px;border:1px solid var(--bd);border-radius:6px;font-size:.875rem;width:220px}
.fbtn{padding:4px 10px;border:1px solid var(--bd);border-radius:5px;background:var(--card);cursor:pointer;font-size:.75rem;font-weight:600;transition:all .15s}
.fbtn.active{background:#0f172a;color:#fff;border-color:#0f172a}
.table-wrap{overflow-x:auto;border-radius:8px;border:1px solid var(--bd)}
table{width:100%;border-collapse:collapse;background:var(--card);font-size:.8rem}
thead th{background:#1e293b;color:#f1f5f9;padding:10px 14px;text-align:left;cursor:pointer;user-select:none;white-space:nowrap}
thead th:hover{background:#334155}
thead th::after{content:' \2195';opacity:.35;font-size:.7rem}
tbody tr:nth-child(even){background:#f8fafc}
tbody tr:hover{background:#eff6ff}
tbody td{padding:8px 14px;border-bottom:1px solid var(--bd);max-width:280px;overflow:hidden;text-overflow:ellipsis;white-space:nowrap}
.badge{display:inline-block;padding:2px 7px;border-radius:4px;font-size:.7rem;font-weight:700;letter-spacing:.3px}
.badge.critical{background:#fee2e2;color:var(--cr)}
.badge.high{background:#ffedd5;color:var(--hi)}
.badge.medium{background:#fef3c7;color:var(--me)}
.badge.low{background:#dbeafe;color:var(--lo)}
.badge.none,.badge.safe{background:#dcfce7;color:var(--sa)}
.badge.adequate{background:#fef9c3;color:#854d0e}
.badge.unknown{background:#f1f5f9;color:var(--mu)}
.rc{background:var(--card);border:1px solid var(--bd);border-radius:8px;padding:14px 18px;margin-bottom:10px}
.rc-head{display:flex;align-items:center;gap:10px;margin-bottom:8px}
code.algo{font-size:.9rem;background:#f1f5f9;padding:2px 8px;border-radius:4px;color:#0f172a}
.rc-count{margin-left:auto;font-size:.75rem;color:var(--mu)}
.rc-body{display:flex;align-items:baseline;gap:8px;font-size:.875rem}
.rc-arrow{color:var(--sa);font-size:1.1rem;font-weight:700}
.rc-repl{color:#0f172a}
.rc-ref{font-size:.75rem;color:var(--mu);margin-top:6px}
.stat-grid{display:grid;grid-template-columns:repeat(auto-fill,minmax(180px,1fr));gap:12px}
.stat-item{background:var(--card);border:1px solid var(--bd);border-radius:8px;padding:14px 16px}
.sv{display:block;font-size:1.75rem;font-weight:700;color:#0f172a}
.sk{display:block;font-size:.75rem;color:var(--mu)}
"#;

pub const REPORT_JS: &'static str = r#"
(function(){
  // Table sorting
  document.querySelectorAll('#ft thead th[data-col]').forEach(function(th){
    th.addEventListener('click',function(){
      var col=parseInt(th.dataset.col);
      var asc=th.dataset.dir!=='asc';
      document.querySelectorAll('#ft thead th').forEach(function(h){delete h.dataset.dir;});
      th.dataset.dir=asc?'asc':'desc';
      var tbody=document.getElementById('ftb');
      var rows=[].slice.call(tbody.querySelectorAll('tr'));
      rows.sort(function(a,b){
        var av=(a.cells[col]||{}).textContent||'';
        var bv=(b.cells[col]||{}).textContent||'';
        return asc?av.localeCompare(bv,undefined,{numeric:true}):bv.localeCompare(av,undefined,{numeric:true});
      });
      rows.forEach(function(r){tbody.appendChild(r);});
    });
  });

  // Filter bar
  var activeRisks={};
  document.querySelectorAll('.fbtn[data-risk]').forEach(function(btn){
    btn.addEventListener('click',function(){
      btn.classList.toggle('active');
      activeRisks[btn.dataset.risk]=btn.classList.contains('active');
      applyFilter();
    });
  });
  var searchEl=document.getElementById('fs');
  if(searchEl)searchEl.addEventListener('input',applyFilter);

  function applyFilter(){
    var q=(searchEl?searchEl.value:'').toLowerCase();
    var hasActive=Object.values(activeRisks).some(Boolean);
    document.querySelectorAll('#ftb tr').forEach(function(row){
      var matchQ=!q||row.textContent.toLowerCase().includes(q);
      var matchR=!hasActive||activeRisks[row.dataset.risk];
      row.style.display=(matchQ&&matchR)?'':'none';
    });
  }
})();
"#;

// ── Specification ─────────────────────────────────────────────────────────────

/// The HTML escape of one character.
pub open spec fn esc(c: char) -> Seq<char> {
    if c == '&' {
        seq!['&', 'a', 'm', 'p', ';']
    } else if c == '<' {
        seq!['&', 'l', 't', ';']
    } else if c == '>' {
        seq!['&', 'g', 't', ';']
    } else if c == '"' {
        seq!['&', 'q', 'u', 'o', 't', ';']
    } else {
        seq![c]
    }
}

/// `&`, `<`, `>` and `"` replaced by their entities.
pub open spec fn html_escape(s: Seq<char>) -> Seq<char>
    decreases s.len(),
{
    if s.len() == 0 {
        seq![]
    } else {
        html_escape(s.drop_last()) + esc(s.last())
    }
}

pub open spec fn risk_key(r: Risk) -> Seq<char> {
    match r {
        Risk::Critical => "critical"@,
        Risk::High => "high"@,
        Risk::Medium => "medium"@,
        Risk::Low => "low"@,
        Risk::NoRisk => "none"@,
    }
}

pub open spec fn type_label(t: AssetType) -> Seq<char> {
    match t {
        AssetType::Algorithm => "Algorithm"@,
        AssetType::Certificate => "Certificate"@,
        AssetType::PrivateKey => "Private Key"@,
        AssetType::PublicKey => "Public Key"@,
        AssetType::Protocol => "Protocol"@,
        AssetType::Library => "Library"@,
    }
}

pub open spec fn evidence_short(e: Evidence) -> Seq<char> {
    match e {
        Evidence::CertificateParsing => "Certificate"@,
        Evidence::TlsHandshake => "TLS"@,
        Evidence::SourceCodePattern => "Source"@,
        Evidence::BinaryStringSearch => "Binary"@,
        Evidence::ConfigFileRule => "Config"@,
        Evidence::ManifestDependency => "Manifest"@,
        Evidence::ElfSymbol => "Symbol"@,
        Evidence::JarClassFile => "Class file"@,
    }
}

pub open spec fn qs_class(q: QuantumSafety) -> Seq<char> {
    match q {
        QuantumSafety::Vulnerable => "critical"@,
        QuantumSafety::ClassicallyAdequate => "adequate"@,
        QuantumSafety::Safe => "safe"@,
        QuantumSafety::HybridSafe => "safe"@,
        QuantumSafety::Unknown => "unknown"@,
    }
}

pub open spec fn count_risk(s: Seq<AssetView>, r: Risk) -> nat
    decreases s.len(),
{
    if s.len() == 0 {
        0
    } else {
        count_risk(s.drop_last(), r) + if s.last().hndl_risk == r {
            1nat
        } else {
            0nat
        }
    }
}

pub open spec fn count_vulnerable(s: Seq<AssetView>) -> nat
    decreases s.len(),
{
    if s.len() == 0 {
        0
    } else {
        count_vulnerable(s.drop_last()) + if s.last().quantum_safe == QuantumSafety::Vulnerable {
            1nat
        } else {
            0nat
        }
    }
}

/// Assets broken outright by a quantum computer (NIST level 0, vulnerable).
pub open spec fn count_deprecated(s: Seq<AssetView>) -> nat
    decreases s.len(),
{
    if s.len() == 0 {
        0
    } else {
        count_deprecated(s.drop_last()) + if s.last().nist_quantum_security == 0
            && s.last().quantum_safe == QuantumSafety::Vulnerable {
            1nat
        } else {
            0nat
        }
    }
}

pub open spec fn count_evidence(s: Seq<AssetView>, e: Evidence) -> nat
    decreases s.len(),
{
    if s.len() == 0 {
        0
    } else {
        count_evidence(s.drop_last(), e) + if s.last().evidence == e {
            1nat
        } else {
            0nat
        }
    }
}

pub open spec fn count_named(s: Seq<AssetView>, n: Seq<char>) -> nat
    decreases s.len(),
{
    if s.len() == 0 {
        0
    } else {
        count_named(s.drop_last(), n) + if s.last().name == n {
            1nat
        } else {
            0nat
        }
    }
}


/// The current year of the report: the year text read as a number, 2026 if
/// it does not read.
pub open spec fn report_year(t: Seq<char>) -> u32 {
    match u32_of_text(t) {
        Some(y) => y,
        None => 2026,
    }
}

/// How far the year is along the 2024–2036 timeline, in whole percent.
pub open spec fn timeline_pct(y: u32) -> nat {
    let c: nat = if y < 2024 {
        2024
    } else if y > 2036 {
        2036
    } else {
        y as nat
    };
    ((c - 2024) * 100 / 12) as nat
}

pub open spec fn marker(pct: nat, year: Seq<char>, label: Seq<char>) -> Seq<char> {
    "<div class=\"tl-m\" style=\"left:"@ + decimal(pct) + "%\"><span class=\"tl-ml\">"@ + label
        + "</span><span class=\"tl-my\">"@ + year + "</span></div>\n"@
}

/// The NIST IR 8547 timeline section body.
pub open spec fn timeline(y: u32, s: Seq<AssetView>) -> Seq<char> {
    let p = timeline_pct(y);
    let d = decimal(count_deprecated(s));
    "<div class=\"timeline\">\n"@ + "<div class=\"tl-bar\">\n"@ + "<div class=\"tl-fill\" style=\"width:"@
        + decimal(p) + "%\"></div>\n"@ + marker(50, "2030"@, "RSA/ECC<br>deprecated"@) + marker(
        91,
        "2035"@,
        "RSA/ECC<br>disallowed"@,
    ) + "<div class=\"tl-now\" style=\"left:"@ + decimal(p)
        + "%\"><span class=\"tl-now-label\">Today<br>"@ + decimal(y as nat) + "</span></div>\n"@
        + "</div>\n"@ + "<div class=\"tl-labels\"><span>2024</span><span>2036</span></div>\n"@
        + "<p style=\"margin-top:16px;font-size:.875rem;color:#6b7280\"><strong>"@ + d
        + "</strong> assets will be deprecated by 2030 &nbsp;&bull;&nbsp;<strong>"@ + d
        + "</strong> assets will be disallowed by 2035</p>\n"@ + "</div>\n"@
}

/// The path as the findings table shows it: its last two components after
/// `…/` when it has more than two, else the path itself.
pub open spec fn short_file(source: Seq<char>) -> Seq<char> {
    let parts = split_on(forward_slashes(source), '/');
    if parts.len() > 2 {
        "…/"@ + parts[parts.len() - 2] + "/"@ + parts[parts.len() - 1]
    } else {
        source
    }
}

/// One row of the findings table (the asset's first location).
pub open spec fn row(a: AssetView) -> Seq<char> {
    let rk = risk_key(a.hndl_risk);
    let file = if a.locations.len() > 0 {
        short_file(a.locations[0].source)
    } else {
        seq![]
    };
    let full = if a.locations.len() > 0 {
        a.locations[0].source
    } else {
        seq![]
    };
    let line = if a.locations.len() > 0 {
        match a.locations[0].line {
            Some(n) => decimal(n as nat),
            None => seq![],
        }
    } else {
        seq![]
    };
    "<tr data-risk=\""@ + rk + "\"><td><strong>"@ + html_escape(a.name) + "</strong></td><td>"@
        + type_label(a.asset_type) + "</td><td><span class=\"badge "@ + qs_class(a.quantum_safe)
        + "\">"@ + qs_short(a.quantum_safe) + "</span></td><td><span class=\"badge "@ + rk + "\">"@
        + a.hndl_risk.label() + "</span></td><td style=\"text-align:center\">"@ + decimal(
        a.nist_quantum_security as nat,
    ) + "</td><td>"@ + evidence_short(a.evidence) + "</td><td title=\""@ + html_escape(full)
        + "\">"@ + html_escape(file) + "</td><td style=\"text-align:center\">"@ + line
        + "</td></tr>\n"@
}

pub open spec fn rows(s: Seq<AssetView>) -> Seq<char>
    decreases s.len(),
{
    if s.len() == 0 {
        seq![]
    } else {
        rows(s.drop_last()) + row(s.last())
    }
}

pub open spec fn has_vulnerable_named(s: Seq<AssetView>, n: Seq<char>) -> bool {
    exists|i: int|
        0 <= i < s.len() && #[trigger] s[i].name == n && s[i].quantum_safe
            == QuantumSafety::Vulnerable
}

/// The first vulnerable asset of each name, in order.
pub open spec fn vulnerable_heads(s: Seq<AssetView>) -> Seq<AssetView>
    decreases s.len(),
{
    if s.len() == 0 {
        seq![]
    } else if s.last().quantum_safe == QuantumSafety::Vulnerable && !has_vulnerable_named(
        s.drop_last(),
        s.last().name,
    ) {
        vulnerable_heads(s.drop_last()).push(s.last())
    } else {
        vulnerable_heads(s.drop_last())
    }
}

/// Replacement advice by algorithm name prefix (first match wins).
pub open spec fn replacement_table() -> Seq<(Seq<char>, Seq<char>)> {
    seq![
        ("RSA"@, "ML-KEM-768 (FIPS 203) for key encapsulation · ML-DSA-65 (FIPS 204) for signatures"@),
        ("ECDSA"@, "ML-DSA-65 (FIPS 204) for digital signatures"@),
        ("ECDH"@, "ML-KEM-768 (FIPS 203) for key encapsulation"@),
        ("Ed25519"@, "ML-DSA-65 (FIPS 204) for digital signatures"@),
        ("X25519"@, "ML-KEM-768 (FIPS 203) for key agreement"@),
        ("DSA"@, "ML-DSA-65 (FIPS 204) for digital signatures"@),
        ("DH-"@, "ML-KEM-768 (FIPS 203) for key encapsulation"@),
        ("SHA-1"@, "SHA-256 or SHA-3-256 (already adequate against quantum)"@),
        ("MD5"@, "SHA-256 · immediate replacement required — classically broken"@),
        ("MD4"@, "SHA-256 · immediate replacement required — classically broken"@),
        ("DES"@, "AES-256-GCM · immediate replacement required — classically broken"@),
        ("3DES"@, "AES-256-GCM · replace during next maintenance cycle"@),
        ("RC4"@, "AES-256-GCM · immediate replacement required — classically broken"@),
        ("RC2"@, "AES-256-GCM · immediate replacement required — classically broken"@),
        ("AES-128"@, "AES-256 for full CNSA 2.0 compliance (Grover halves key length)"@),
        ("AES-192"@, "AES-256 recommended for CNSA 2.0 compliance"@),
    ]
}

/// The reference behind each piece of advice, by the same prefixes.
pub open spec fn reference_table() -> Seq<(Seq<char>, Seq<char>)> {
    seq![
        ("RSA"@, "NIST IR 8547 · NSA CNSA 2.0"@),
        ("ECDSA"@, "NIST IR 8547"@),
        ("ECDH"@, "NIST IR 8547"@),
        ("Ed25519"@, "NIST IR 8547"@),
        ("X25519"@, "NIST IR 8547"@),
        ("DSA"@, "NIST IR 8547"@),
        ("DH-"@, "NIST IR 8547"@),
        ("SHA-1"@, "NIST SP 800-131A"@),
        ("MD5"@, "NIST SP 800-131A"@),
        ("MD4"@, "NIST SP 800-131A"@),
        ("DES"@, "NIST SP 800-131A rev.2"@),
        ("3DES"@, "NIST SP 800-131A rev.2"@),
        ("RC4"@, "NIST SP 800-131A"@),
        ("RC2"@, "NIST SP 800-131A"@),
        ("AES-128"@, "NSA CNSA 2.0"@),
        ("AES-192"@, "NSA CNSA 2.0"@),
    ]
}

pub open spec fn or_text(o: Option<Seq<char>>, d: Seq<char>) -> Seq<char> {
    match o {
        Some(s) => s,
        None => d,
    }
}

/// The remediation card of a vulnerable algorithm (`all`: every asset).
pub open spec fn remediation_card(a: AssetView, all: Seq<AssetView>) -> Seq<char> {
    let count = count_named(all, a.name);
    let repl = or_text(
        assoc_prefix(replacement_table(), a.name),
        "Evaluate for replacement with a NIST-approved post-quantum algorithm"@,
    );
    let reference = or_text(assoc_prefix(reference_table(), a.name), "NIST IR 8547"@);
    "<div class=\"rc\"><div class=\"rc-head\"><span class=\"badge "@ + risk_key(a.hndl_risk)
        + "\" style=\"font-size:.875rem;padding:3px 10px\">"@ + a.hndl_risk.label()
        + "</span>&nbsp;<code class=\"algo\">"@ + html_escape(a.name)
        + "</code><span class=\"rc-count\">"@ + decimal(count) + " finding"@ + (if count == 1 {
        ""@
    } else {
        "s"@
    }) + "</span></div><div class=\"rc-body\"><span class=\"rc-arrow\">→</span><span class=\"rc-repl\">"@
        + html_escape(repl) + "</span></div><div class=\"rc-ref\">Reference: "@ + html_escape(
        reference,
    ) + "</div></div>\n"@
}

pub open spec fn remediation_cards(h: Seq<AssetView>, all: Seq<AssetView>) -> Seq<char>
    decreases h.len(),
{
    if h.len() == 0 {
        seq![]
    } else {
        remediation_cards(h.drop_last(), all) + remediation_card(h.last(), all)
    }
}

/// The remediation guide body.
pub open spec fn remediation(s: Seq<AssetView>) -> Seq<char> {
    let h = vulnerable_heads(s);
    if h.len() == 0 {
        "<p style=\"color:#16a34a;font-weight:600\">✅ No quantum-vulnerable algorithms detected.</p>\n"@
    } else {
        remediation_cards(h, s)
    }
}

pub open spec fn card(cls: Seq<char>, val: Seq<char>, label: Seq<char>) -> Seq<char> {
    "<div class=\"card "@ + cls + "\"><span class=\"cv\">"@ + val + "</span><span class=\"cl\">"@ + label
        + "</span></div>\n"@
}

pub open spec fn stat_item(n: nat, label: Seq<char>) -> Seq<char> {
    "<div class=\"stat-item\"><span class=\"sv\">"@ + decimal(n) + "</span><span class=\"sk\">"@ + label
        + "</span></div>\n"@
}

/// The document head and page header.
pub open spec fn html_header(path: Seq<char>, ts: Seq<char>) -> Seq<char> {
    "<!DOCTYPE html>\n<html lang=\"en\">\n<head>\n"@ + "<meta charset=\"UTF-8\">\n"@
        + "<meta name=\"viewport\" content=\"width=device-width,initial-scale=1\">\n"@
        + "<title>acdi — Crypto Migration Report</title>\n"@ + "<style>\n"@ + REPORT_CSS@
        + "</style>\n</head>\n<body>\n"@ + "<header><div class=\"container\">\n"@
        + "<h1>&#x1F512; Cryptographic Asset Migration Report</h1>\n"@
        + "<p class=\"meta\">Scan path: <code>"@ + html_escape(path)
        + "</code> &nbsp;&bull;&nbsp; Generated: "@ + ts + " &nbsp;&bull;&nbsp; Tool: acdi v"@
        + TOOL_VERSION@ + "</p>\n"@ + "</div></header>\n<main class=\"container\">\n"@
}

/// Some asset of `s` has the name `n`.
pub open spec fn has_name(s: Seq<AssetView>, n: Seq<char>) -> bool {
    exists|i: int| 0 <= i < s.len() && #[trigger] s[i].name == n
}

/// The number of distinct algorithm names among the assets.
pub open spec fn distinct_names(s: Seq<AssetView>) -> nat
    decreases s.len(),
{
    if s.len() == 0 {
        0
    } else {
        distinct_names(s.drop_last()) + if has_name(s.drop_last(), s.last().name) {
            0nat
        } else {
            1nat
        }
    }
}

/// The executive summary section, for assets found in `files` scanned files.
pub open spec fn summary_section(s: Seq<AssetView>, files: nat) -> Seq<char> {
    "<section>\n<h2>Executive Summary</h2>\n<div class=\"cards\">\n"@ + card(
        "total"@,
        decimal(s.len()),
        "Total Findings"@,
    ) + card("vuln"@, decimal(count_vulnerable(s)), "Quantum-Vulnerable"@) + card(
        "critical"@,
        decimal(count_risk(s, Risk::Critical)),
        "CRITICAL"@,
    ) + card("high"@, decimal(count_risk(s, Risk::High)), "HIGH"@) + card(
        "medium"@,
        decimal(count_risk(s, Risk::Medium)),
        "MEDIUM"@,
    ) + card("low"@, decimal(count_risk(s, Risk::Low)), "LOW"@) + card(
        "safe"@,
        decimal(count_risk(s, Risk::NoRisk)),
        "NONE / SAFE"@,
    ) + card("algos"@, decimal(distinct_names(s)), "Unique Algorithms"@) + card(
        "files"@,
        decimal(files),
        "Files Scanned"@,
    ) + "</div>\n</section>\n"@
}

/// The fixed head of the findings section, up to the first row.
pub open spec fn findings_head() -> Seq<char> {
    "<section>\n<h2>All Findings</h2>\n"@ + "<div class=\"filter-bar\">\n"@
        + "<input id=\"fs\" type=\"search\" placeholder=\"Filter findings…\">\n"@
        + "<span style=\"color:#6b7280;font-size:.8rem\">Risk:</span>\n"@
        + "<button class=\"fbtn\" data-risk=\"critical\">CRITICAL</button>\n"@
        + "<button class=\"fbtn\" data-risk=\"high\">HIGH</button>\n"@
        + "<button class=\"fbtn\" data-risk=\"medium\">MEDIUM</button>\n"@
        + "<button class=\"fbtn\" data-risk=\"low\">LOW</button>\n"@
        + "<button class=\"fbtn\" data-risk=\"none\">NONE</button>\n"@ + "</div>\n"@
        + "<div class=\"table-wrap\">\n"@ + "<table id=\"ft\">\n<thead><tr>\n"@
        + "<th data-col=\"0\">Asset / Library</th>\n"@ + "<th data-col=\"1\">Type</th>\n"@
        + "<th data-col=\"2\">Quantum Safety</th>\n"@ + "<th data-col=\"3\">HNDL Risk</th>\n"@
        + "<th data-col=\"4\">NIST Lvl</th>\n"@ + "<th data-col=\"5\">Evidence</th>\n"@
        + "<th data-col=\"6\">File</th>\n"@ + "<th data-col=\"7\">Line</th>\n"@
        + "</tr></thead>\n<tbody id=\"ftb\">\n"@
}

/// The scan statistics section.
pub open spec fn stats_section(s: Seq<AssetView>) -> Seq<char> {
    "<section>\n<h2>Scan Statistics</h2>\n"@ + "<div class=\"stat-grid\">\n"@ + stat_item(
        count_evidence(s, Evidence::CertificateParsing),
        "Certificate parsing"@,
    ) + stat_item(count_evidence(s, Evidence::TlsHandshake), "TLS handshake"@) + stat_item(
        count_evidence(s, Evidence::SourceCodePattern),
        "Source code"@,
    ) + stat_item(count_evidence(s, Evidence::BinaryStringSearch), "Binary scan"@) + stat_item(
        count_evidence(s, Evidence::ConfigFileRule),
        "Config file"@,
    ) + stat_item(count_evidence(s, Evidence::ManifestDependency), "Manifest dependency"@)
        + "</div>\n</section>\n"@
}

/// The whole report for assets `s` found in `files` files under `path`,
/// generated at `ts` in the year whose text is `year`.
pub open spec fn html_report(
    s: Seq<AssetView>,
    files: nat,
    path: Seq<char>,
    ts: Seq<char>,
    year: Seq<char>,
) -> Seq<char> {
    html_header(path, ts) + summary_section(s, files) + "<section>\n<h2>NIST IR 8547 Compliance Timeline</h2>\n"@
        + timeline(report_year(year), s) + "</section>\n"@ + findings_head() + rows(s)
        + "</tbody>\n</table>\n</div>\n</section>\n"@ + "<section>\n<h2>Remediation Guide</h2>\n"@
        + "<p style=\"color:#6b7280;margin-bottom:16px\">Unique vulnerable algorithms found, with migration recommendations.</p>\n"@
        + remediation(s) + "</section>\n"@ + stats_section(s) + "</main>\n<script>\n"@ + REPORT_JS@
        + "</script>\n</body>\n</html>"@
}

// ── Rendering ─────────────────────────────────────────────────────────────────

/// HTML-escapes text (see [`html_escape`]).
pub fn he(s: &str) -> (r: String)
    ensures
        r@ == html_escape(s@),
{
    let c = chars_of(s);
    let mut out: Vec<char> = Vec::new();
    let mut i: usize = 0;
    while i < c.len()
        invariant
            i <= c.len(),
            c@ == s@,
            out@ == html_escape(c@.take(i as int)),
        decreases c.len() - i,
    {
        let ch = c[i];
        let ghost before = out@;
        if ch == '&' {
            out.push('&');
            out.push('a');
            out.push('m');
            out.push('p');
            out.push(';');
        } else if ch == '<' {
            out.push('&');
            out.push('l');
            out.push('t');
            out.push(';');
        } else if ch == '>' {
            out.push('&');
            out.push('g');
            out.push('t');
            out.push(';');
        } else if ch == '"' {
            out.push('&');
            out.push('q');
            out.push('u');
            out.push('o');
            out.push('t');
            out.push(';');
        } else {
            out.push(ch);
        }
        assert(c@.take(i + 1).drop_last() =~= c@.take(i as int));
        assert(out@ =~= before + esc(ch));
        i = i + 1;
    }
    assert(c@.take(c.len() as int) =~= c@);
    string_of(&out)
}

fn risk_key_text(r: &Risk) -> (s: &'static str)
    ensures
        s@ == risk_key(*r),
{
    match r {
        Risk::Critical => "critical",
        Risk::High => "high",
        Risk::Medium => "medium",
        Risk::Low => "low",
        Risk::NoRisk => "none",
    }
}

fn type_label_text(t: &AssetType) -> (s: &'static str)
    ensures
        s@ == type_label(*t),
{
    match t {
        AssetType::Algorithm => "Algorithm",
        AssetType::Certificate => "Certificate",
        AssetType::PrivateKey => "Private Key",
        AssetType::PublicKey => "Public Key",
        AssetType::Protocol => "Protocol",
        AssetType::Library => "Library",
    }
}

fn evidence_short_text(e: &Evidence) -> (s: &'static str)
    ensures
        s@ == evidence_short(*e),
{
    match e {
        Evidence::CertificateParsing => "Certificate",
        Evidence::TlsHandshake => "TLS",
        Evidence::SourceCodePattern => "Source",
        Evidence::BinaryStringSearch => "Binary",
        Evidence::ConfigFileRule => "Config",
        Evidence::ManifestDependency => "Manifest",
        Evidence::ElfSymbol => "Symbol",
        Evidence::JarClassFile => "Class file",
    }
}

fn qs_class_text(q: &QuantumSafety) -> (s: &'static str)
    ensures
        s@ == qs_class(*q),
{
    match q {
        QuantumSafety::Vulnerable => "critical",
        QuantumSafety::ClassicallyAdequate => "adequate",
        QuantumSafety::Safe => "safe",
        QuantumSafety::HybridSafe => "safe",
        QuantumSafety::Unknown => "unknown",
    }
}

/// The number of assets at a risk level.
pub fn count(assets: &Vec<CryptoAsset>, risk: Risk) -> (n: usize)
    ensures
        n == count_risk(assets.deep_view(), risk),
{
    let ghost s = assets.deep_view();
    let mut n: usize = 0;
    let mut i: usize = 0;
    while i < assets.len()
        invariant
            i <= assets.len(),
            s == assets.deep_view(),
            n == count_risk(s.take(i as int), risk),
            n <= i,
        decreases assets.len() - i,
    {
        assert(s.take(i + 1).drop_last() =~= s.take(i as int));
        if assets[i].hndl_risk == risk {
            n = n + 1;
        }
        i = i + 1;
    }
    assert(s.take(assets.len() as int) =~= s);
    n
}

fn count_vulnerable_exec(assets: &Vec<CryptoAsset>) -> (n: usize)
    ensures
        n == count_vulnerable(assets.deep_view()),
{
    let ghost s = assets.deep_view();
    let mut n: usize = 0;
    let mut i: usize = 0;
    while i < assets.len()
        invariant
            i <= assets.len(),
            s == assets.deep_view(),
            n == count_vulnerable(s.take(i as int)),
            n <= i,
        decreases assets.len() - i,
    {
        assert(s.take(i + 1).drop_last() =~= s.take(i as int));
        if assets[i].quantum_safe == QuantumSafety::Vulnerable {
            n = n + 1;
        }
        i = i + 1;
    }
    assert(s.take(assets.len() as int) =~= s);
    n
}

fn count_deprecated_exec(assets: &Vec<CryptoAsset>) -> (n: usize)
    ensures
        n == count_deprecated(assets.deep_view()),
{
    let ghost s = assets.deep_view();
    let mut n: usize = 0;
    let mut i: usize = 0;
    while i < assets.len()
        invariant
            i <= assets.len(),
            s == assets.deep_view(),
            n == count_deprecated(s.take(i as int)),
            n <= i,
        decreases assets.len() - i,
    {
        assert(s.take(i + 1).drop_last() =~= s.take(i as int));
        if assets[i].nist_quantum_security == 0 && assets[i].quantum_safe == QuantumSafety::Vulnerable {
            n = n + 1;
        }
        i = i + 1;
    }
    assert(s.take(assets.len() as int) =~= s);
    n
}

fn count_evidence_exec(assets: &Vec<CryptoAsset>, e: Evidence) -> (n: usize)
    ensures
        n == count_evidence(assets.deep_view(), e),
{
    let ghost s = assets.deep_view();
    let mut n: usize = 0;
    let mut i: usize = 0;
    while i < assets.len()
        invariant
            i <= assets.len(),
            s == assets.deep_view(),
            n == count_evidence(s.take(i as int), e),
            n <= i,
        decreases assets.len() - i,
    {
        assert(s.take(i + 1).drop_last() =~= s.take(i as int));
        if assets[i].evidence == e {
            n = n + 1;
        }
        i = i + 1;
    }
    assert(s.take(assets.len() as int) =~= s);
    n
}

fn count_named_exec(assets: &Vec<CryptoAsset>, name: &str) -> (n: usize)
    ensures
        n == count_named(assets.deep_view(), name@),
{
    let ghost s = assets.deep_view();
    let mut n: usize = 0;
    let mut i: usize = 0;
    while i < assets.len()
        invariant
            i <= assets.len(),
            s == assets.deep_view(),
            n == count_named(s.take(i as int), name@),
            n <= i,
        decreases assets.len() - i,
    {
        assert(s.take(i + 1).drop_last() =~= s.take(i as int));
        if crate::text::str_eq(assets[i].name.as_str(), name) {
            n = n + 1;
        }
        i = i + 1;
    }
    assert(s.take(assets.len() as int) =~= s);
    n
}


fn card_html(cls: &str, val: usize, label: &str) -> (r: String)
    ensures
        r@ == card(cls@, decimal(val as nat), label@),
{
    let mut s = "<div class=\"card ".to_owned();
    s.append(cls);
    s.append("\"><span class=\"cv\">");
    s.append(decimal_string(val as u64).as_str());
    s.append("</span><span class=\"cl\">");
    s.append(label);
    s.append("</span></div>\n");
    s
}

fn stat_html(n: usize, label: &str) -> (r: String)
    ensures
        r@ == stat_item(n as nat, label@),
{
    let mut s = "<div class=\"stat-item\"><span class=\"sv\">".to_owned();
    s.append(decimal_string(n as u64).as_str());
    s.append("</span><span class=\"sk\">");
    s.append(label);
    s.append("</span></div>\n");
    s
}

fn marker_html(pct: u64, year: &str, label: &str) -> (r: String)
    ensures
        r@ == marker(pct as nat, year@, label@),
{
    let mut s = "<div class=\"tl-m\" style=\"left:".to_owned();
    s.append(decimal_string(pct).as_str());
    s.append("%\"><span class=\"tl-ml\">");
    s.append(label);
    s.append("</span><span class=\"tl-my\">");
    s.append(year);
    s.append("</span></div>\n");
    s
}

/// The NIST IR 8547 timeline for the current year.
pub fn build_timeline(current_year: u32, assets: &Vec<CryptoAsset>) -> (r: String)
    ensures
        r@ == timeline(current_year, assets.deep_view()),
{
    let c: u64 = if current_year < 2024 {
        2024
    } else if current_year > 2036 {
        2036
    } else {
        current_year as u64
    };
    let pct = (c - 2024) * 100 / 12;
    let d = decimal_string(count_deprecated_exec(assets) as u64);
    let p = decimal_string(pct);
    let mut s = "<div class=\"timeline\">\n".to_owned();
    s.append("<div class=\"tl-bar\">\n");
    s.append("<div class=\"tl-fill\" style=\"width:");
    s.append(p.as_str());
    s.append("%\"></div>\n");
    s.append(marker_html(50, "2030", "RSA/ECC<br>deprecated").as_str());
    s.append(marker_html(91, "2035", "RSA/ECC<br>disallowed").as_str());
    s.append("<div class=\"tl-now\" style=\"left:");
    s.append(p.as_str());
    s.append("%\"><span class=\"tl-now-label\">Today<br>");
    s.append(decimal_string(current_year as u64).as_str());
    s.append("</span></div>\n");
    s.append("</div>\n");
    s.append("<div class=\"tl-labels\"><span>2024</span><span>2036</span></div>\n");
    s.append("<p style=\"margin-top:16px;font-size:.875rem;color:#6b7280\"><strong>");
    s.append(d.as_str());
    s.append("</strong> assets will be deprecated by 2030 &nbsp;&bull;&nbsp;<strong>");
    s.append(d.as_str());
    s.append("</strong> assets will be disallowed by 2035</p>\n");
    s.append("</div>\n");
    s
}

/// The path as the findings table shows it (see [`short_file`]).
pub fn shorten_file(source: &str) -> (r: String)
    ensures
        r@ == short_file(source@),
{
    let normalized = forward_slashes_exec(&chars_of(source));
    let parts = split_char(&normalized, '/');
    let n = parts.len();
    if n > 2 {
        assert(parts.deep_view()[n - 2] =~= parts@[n - 2]@);
        assert(parts.deep_view()[n - 1] =~= parts@[n - 1]@);
        let mut s = "…/".to_owned();
        s.append(string_of(&parts[n - 2]).as_str());
        s.append("/");
        s.append(string_of(&parts[n - 1]).as_str());
        s
    } else {
        source.to_owned()
    }
}

/// One row of the findings table.
pub fn findings_row(asset: &CryptoAsset) -> (r: String)
    ensures
        r@ == row(asset@),
{
    let ghost a = asset@;
    let rk = risk_key_text(&asset.hndl_risk);
    let (file, full, line): (String, String, String) = if asset.locations.len() > 0 {
        let l = &asset.locations[0];
        assert(a.locations[0] == l@);
        let line = match l.line {
            Some(n) => decimal_string(n as u64),
            None => String::new(),
        };
        (shorten_file(l.source.as_str()), l.source.clone(), line)
    } else {
        (String::new(), String::new(), String::new())
    };
    let mut s = "<tr data-risk=\"".to_owned();
    s.append(rk);
    s.append("\"><td><strong>");
    s.append(he(asset.name.as_str()).as_str());
    s.append("</strong></td><td>");
    s.append(type_label_text(&asset.asset_type));
    s.append("</td><td><span class=\"badge ");
    s.append(qs_class_text(&asset.quantum_safe));
    s.append("\">");
    s.append(format_qs(&asset.quantum_safe));
    s.append("</span></td><td><span class=\"badge ");
    s.append(rk);
    s.append("\">");
    s.append(asset.hndl_risk.to_label());
    s.append("</span></td><td style=\"text-align:center\">");
    s.append(decimal_string(asset.nist_quantum_security as u64).as_str());
    s.append("</td><td>");
    s.append(evidence_short_text(&asset.evidence));
    s.append("</td><td title=\"");
    s.append(he(full.as_str()).as_str());
    s.append("\">");
    s.append(he(file.as_str()).as_str());
    s.append("</td><td style=\"text-align:center\">");
    s.append(line.as_str());
    s.append("</td></tr>\n");
    s
}

fn rows_html(assets: &Vec<CryptoAsset>) -> (r: String)
    ensures
        r@ == rows(assets.deep_view()),
{
    let ghost s = assets.deep_view();
    let mut out = String::new();
    let mut i: usize = 0;
    while i < assets.len()
        invariant
            i <= assets.len(),
            s == assets.deep_view(),
            out@ == rows(s.take(i as int)),
        decreases assets.len() - i,
    {
        assert(s.take(i + 1).drop_last() =~= s.take(i as int));
        assert(s.take(i + 1).last() == assets@[i as int]@);
        out.append(findings_row(&assets[i]).as_str());
        i = i + 1;
    }
    assert(s.take(assets.len() as int) =~= s);
    out
}

fn replacement_pairs() -> (t: Vec<(&'static str, &'static str)>)
    ensures
        pairs_view(t@) == replacement_table(),
{
    let t: Vec<(&'static str, &'static str)> = vec![
        ("RSA", "ML-KEM-768 (FIPS 203) for key encapsulation · ML-DSA-65 (FIPS 204) for signatures"),
        ("ECDSA", "ML-DSA-65 (FIPS 204) for digital signatures"),
        ("ECDH", "ML-KEM-768 (FIPS 203) for key encapsulation"),
        ("Ed25519", "ML-DSA-65 (FIPS 204) for digital signatures"),
        ("X25519", "ML-KEM-768 (FIPS 203) for key agreement"),
        ("DSA", "ML-DSA-65 (FIPS 204) for digital signatures"),
        ("DH-", "ML-KEM-768 (FIPS 203) for key encapsulation"),
        ("SHA-1", "SHA-256 or SHA-3-256 (already adequate against quantum)"),
        ("MD5", "SHA-256 · immediate replacement required — classically broken"),
        ("MD4", "SHA-256 · immediate replacement required — classically broken"),
        ("DES", "AES-256-GCM · immediate replacement required — classically broken"),
        ("3DES", "AES-256-GCM · replace during next maintenance cycle"),
        ("RC4", "AES-256-GCM · immediate replacement required — classically broken"),
        ("RC2", "AES-256-GCM · immediate replacement required — classically broken"),
        ("AES-128", "AES-256 for full CNSA 2.0 compliance (Grover halves key length)"),
        ("AES-192", "AES-256 recommended for CNSA 2.0 compliance"),
    ];
    assert(pairs_view(t@) =~= replacement_table());
    t
}

fn reference_pairs() -> (t: Vec<(&'static str, &'static str)>)
    ensures
        pairs_view(t@) == reference_table(),
{
    let t: Vec<(&'static str, &'static str)> = vec![
        ("RSA", "NIST IR 8547 · NSA CNSA 2.0"),
        ("ECDSA", "NIST IR 8547"),
        ("ECDH", "NIST IR 8547"),
        ("Ed25519", "NIST IR 8547"),
        ("X25519", "NIST IR 8547"),
        ("DSA", "NIST IR 8547"),
        ("DH-", "NIST IR 8547"),
        ("SHA-1", "NIST SP 800-131A"),
        ("MD5", "NIST SP 800-131A"),
        ("MD4", "NIST SP 800-131A"),
        ("DES", "NIST SP 800-131A rev.2"),
        ("3DES", "NIST SP 800-131A rev.2"),
        ("RC4", "NIST SP 800-131A"),
        ("RC2", "NIST SP 800-131A"),
        ("AES-128", "NSA CNSA 2.0"),
        ("AES-192", "NSA CNSA 2.0"),
    ];
    assert(pairs_view(t@) =~= reference_table());
    t
}

fn remediation_card_html(a: &CryptoAsset, all: &Vec<CryptoAsset>) -> (r: String)
    ensures
        r@ == remediation_card(a@, all.deep_view()),
{
    let count = count_named_exec(all, a.name.as_str());
    let name = chars_of(a.name.as_str());
    let repl = match lookup(&replacement_pairs(), &name, KeyMatch::Prefix) {
        Some(x) => x,
        None => "Evaluate for replacement with a NIST-approved post-quantum algorithm",
    };
    let reference = match lookup(&reference_pairs(), &name, KeyMatch::Prefix) {
        Some(x) => x,
        None => "NIST IR 8547",
    };
    let mut s = "<div class=\"rc\"><div class=\"rc-head\"><span class=\"badge ".to_owned();
    s.append(risk_key_text(&a.hndl_risk));
    s.append("\" style=\"font-size:.875rem;padding:3px 10px\">");
    s.append(a.hndl_risk.to_label());
    s.append("</span>&nbsp;<code class=\"algo\">");
    s.append(he(a.name.as_str()).as_str());
    s.append("</code><span class=\"rc-count\">");
    s.append(decimal_string(count as u64).as_str());
    s.append(" finding");
    s.append(if count == 1 { "" } else { "s" });
    s.append("</span></div><div class=\"rc-body\"><span class=\"rc-arrow\">→</span><span class=\"rc-repl\">");
    s.append(he(repl).as_str());
    s.append("</span></div><div class=\"rc-ref\">Reference: ");
    s.append(he(reference).as_str());
    s.append("</div></div>\n");
    s
}

/// The remediation guide: one card per vulnerable algorithm name (first
/// appearance), or a note that there is none.
pub fn build_remediation(assets: &Vec<CryptoAsset>) -> (r: String)
    ensures
        r@ == remediation(assets.deep_view()),
{
    let ghost s = assets.deep_view();
    let mut heads: Vec<usize> = Vec::new();
    let mut i: usize = 0;
    while i < assets.len()
        invariant
            i <= assets.len(),
            s == assets.deep_view(),
            heads@.map_values(|k: usize| s[k as int]) == vulnerable_heads(s.take(i as int)),
            forall|j: int| 0 <= j < heads.len() ==> #[trigger] heads@[j] < i,
        decreases assets.len() - i,
    {
        let ghost t = s.take(i as int);
        assert(s.take(i + 1).drop_last() =~= t);
        assert(s.take(i + 1).last() == s[i as int]);
        if assets[i].quantum_safe == QuantumSafety::Vulnerable {
            let mut seen = false;
            let mut k: usize = 0;
            while k < i
                invariant
                    k <= i,
                    i < assets.len(),
                    s == assets.deep_view(),
                    seen == exists|j: int|
                        0 <= j < k && #[trigger] s[j].name == s[i as int].name && s[j].quantum_safe
                            == QuantumSafety::Vulnerable,
                decreases i - k,
            {
                assert(s[k as int].name == assets@[k as int].name@);
                assert(s[i as int].name == assets@[i as int].name@);
                assert(s[k as int].quantum_safe == assets@[k as int].quantum_safe);
                if assets[k].quantum_safe == QuantumSafety::Vulnerable && crate::text::str_eq(
                    assets[k].name.as_str(),
                    assets[i].name.as_str(),
                ) {
                    seen = true;
                }
                k = k + 1;
            }
            proof {
                assert(seen == has_vulnerable_named(t, s[i as int].name)) by {
                    if seen {
                        let j = choose|j: int|
                            0 <= j < i && #[trigger] s[j].name == s[i as int].name && s[j].quantum_safe
                                == QuantumSafety::Vulnerable;
                        assert(t[j] == s[j]);
                    }
                    if has_vulnerable_named(t, s[i as int].name) {
                        let j = choose|j: int|
                            0 <= j < t.len() && #[trigger] t[j].name == s[i as int].name && t[j].quantum_safe
                                == QuantumSafety::Vulnerable;
                        assert(t[j] == s[j]);
                    }
                }
            }
            if !seen {
                let ghost hb = heads@;
                heads.push(i);
                assert(heads@.map_values(|k: usize| s[k as int]) =~= hb.map_values(|k: usize| s[k as int]).push(s[i as int]));
            }
        }
        i = i + 1;
    }
    assert(s.take(assets.len() as int) =~= s);
    let ghost h = vulnerable_heads(s);
    if heads.len() == 0 {
        return "<p style=\"color:#16a34a;font-weight:600\">✅ No quantum-vulnerable algorithms detected.</p>\n".to_owned();
    }
    let mut out = String::new();
    let mut j: usize = 0;
    while j < heads.len()
        invariant
            j <= heads.len(),
            s == assets.deep_view(),
            h == vulnerable_heads(s),
            heads@.map_values(|k: usize| s[k as int]) == h,
            forall|m: int| 0 <= m < heads.len() ==> #[trigger] heads@[m] < assets.len(),
            out@ == remediation_cards(h.take(j as int), s),
        decreases heads.len() - j,
    {
        assert(h.take(j + 1).drop_last() =~= h.take(j as int));
        assert(h.take(j + 1).last() == h[j as int]);
        assert(h[j as int] == s[heads@[j as int] as int]);
        out.append(remediation_card_html(&assets[heads[j]], assets).as_str());
        j = j + 1;
    }
    assert(h.take(heads.len() as int) =~= h);
    out
}

fn header_html(path: &str, ts: &str) -> (r: String)
    ensures
        r@ == html_header(path@, ts@),
{
    let mut s = "<!DOCTYPE html>\n<html lang=\"en\">\n<head>\n".to_owned();
    s.append("<meta charset=\"UTF-8\">\n");
    s.append("<meta name=\"viewport\" content=\"width=device-width,initial-scale=1\">\n");
    s.append("<title>acdi — Crypto Migration Report</title>\n");
    s.append("<style>\n");
    s.append(REPORT_CSS);
    s.append("</style>\n</head>\n<body>\n");
    s.append("<header><div class=\"container\">\n");
    s.append("<h1>&#x1F512; Cryptographic Asset Migration Report</h1>\n");
    s.append("<p class=\"meta\">Scan path: <code>");
    s.append(he(path).as_str());
    s.append("</code> &nbsp;&bull;&nbsp; Generated: ");
    s.append(ts);
    s.append(" &nbsp;&bull;&nbsp; Tool: acdi v");
    s.append(TOOL_VERSION);
    s.append("</p>\n");
    s.append("</div></header>\n<main class=\"container\">\n");
    s
}

fn count_distinct_names(assets: &Vec<CryptoAsset>) -> (n: usize)
    ensures
        n == distinct_names(assets.deep_view()),
{
    let ghost s = assets.deep_view();
    let mut n: usize = 0;
    let mut i: usize = 0;
    while i < assets.len()
        invariant
            i <= assets.len(),
            s == assets.deep_view(),
            n <= i,
            n == distinct_names(s.take(i as int)),
        decreases assets.len() - i,
    {
        let ghost t = s.take(i as int);
        assert(s.take(i + 1).drop_last() =~= t);
        assert(s.take(i + 1).last() == s[i as int]);
        let mut seen = false;
        let mut k: usize = 0;
        while k < i
            invariant
                k <= i,
                i < assets.len(),
                s == assets.deep_view(),
                seen == exists|j: int| 0 <= j < k && #[trigger] s[j].name == s[i as int].name,
            decreases i - k,
        {
            assert(s[k as int].name == assets@[k as int].name@);
            assert(s[i as int].name == assets@[i as int].name@);
            if crate::text::str_eq(assets[k].name.as_str(), assets[i].name.as_str()) {
                seen = true;
            }
            k = k + 1;
        }
        proof {
            assert(seen == has_name(t, s[i as int].name)) by {
                if seen {
                    let j = choose|j: int| 0 <= j < i && #[trigger] s[j].name == s[i as int].name;
                    assert(t[j] == s[j]);
                }
                if has_name(t, s[i as int].name) {
                    let j = choose|j: int| 0 <= j < t.len() && #[trigger] t[j].name == s[i as int].name;
                    assert(t[j] == s[j]);
                }
            }
        }
        if !seen {
            n = n + 1;
        }
        i = i + 1;
    }
    assert(s.take(assets.len() as int) =~= s);
    n
}

fn summary_html(assets: &Vec<CryptoAsset>, files_scanned: usize) -> (r: String)
    ensures
        r@ == summary_section(assets.deep_view(), files_scanned as nat),
{
    let mut s = "<section>\n<h2>Executive Summary</h2>\n<div class=\"cards\">\n".to_owned();
    s.append(card_html("total", assets.len(), "Total Findings").as_str());
    s.append(card_html("vuln", count_vulnerable_exec(assets), "Quantum-Vulnerable").as_str());
    s.append(card_html("critical", count(assets, Risk::Critical), "CRITICAL").as_str());
    s.append(card_html("high", count(assets, Risk::High), "HIGH").as_str());
    s.append(card_html("medium", count(assets, Risk::Medium), "MEDIUM").as_str());
    s.append(card_html("low", count(assets, Risk::Low), "LOW").as_str());
    s.append(card_html("safe", count(assets, Risk::NoRisk), "NONE / SAFE").as_str());
    s.append(card_html("algos", count_distinct_names(assets), "Unique Algorithms").as_str());
    s.append(card_html("files", files_scanned, "Files Scanned").as_str());
    s.append("</div>\n</section>\n");
    s
}

fn findings_head_html() -> (r: String)
    ensures
        r@ == findings_head(),
{
    let mut s = "<section>\n<h2>All Findings</h2>\n".to_owned();
    s.append("<div class=\"filter-bar\">\n");
    s.append("<input id=\"fs\" type=\"search\" placeholder=\"Filter findings…\">\n");
    s.append("<span style=\"color:#6b7280;font-size:.8rem\">Risk:</span>\n");
    s.append("<button class=\"fbtn\" data-risk=\"critical\">CRITICAL</button>\n");
    s.append("<button class=\"fbtn\" data-risk=\"high\">HIGH</button>\n");
    s.append("<button class=\"fbtn\" data-risk=\"medium\">MEDIUM</button>\n");
    s.append("<button class=\"fbtn\" data-risk=\"low\">LOW</button>\n");
    s.append("<button class=\"fbtn\" data-risk=\"none\">NONE</button>\n");
    s.append("</div>\n");
    s.append("<div class=\"table-wrap\">\n");
    s.append("<table id=\"ft\">\n<thead><tr>\n");
    s.append("<th data-col=\"0\">Asset / Library</th>\n");
    s.append("<th data-col=\"1\">Type</th>\n");
    s.append("<th data-col=\"2\">Quantum Safety</th>\n");
    s.append("<th data-col=\"3\">HNDL Risk</th>\n");
    s.append("<th data-col=\"4\">NIST Lvl</th>\n");
    s.append("<th data-col=\"5\">Evidence</th>\n");
    s.append("<th data-col=\"6\">File</th>\n");
    s.append("<th data-col=\"7\">Line</th>\n");
    s.append("</tr></thead>\n<tbody id=\"ftb\">\n");
    s
}

fn stats_html(assets: &Vec<CryptoAsset>) -> (r: String)
    ensures
        r@ == stats_section(assets.deep_view()),
{
    let mut s = "<section>\n<h2>Scan Statistics</h2>\n".to_owned();
    s.append("<div class=\"stat-grid\">\n");
    s.append(stat_html(count_evidence_exec(assets, Evidence::CertificateParsing), "Certificate parsing").as_str());
    s.append(stat_html(count_evidence_exec(assets, Evidence::TlsHandshake), "TLS handshake").as_str());
    s.append(stat_html(count_evidence_exec(assets, Evidence::SourceCodePattern), "Source code").as_str());
    s.append(stat_html(count_evidence_exec(assets, Evidence::BinaryStringSearch), "Binary scan").as_str());
    s.append(stat_html(count_evidence_exec(assets, Evidence::ConfigFileRule), "Config file").as_str());
    s.append(stat_html(count_evidence_exec(assets, Evidence::ManifestDependency), "Manifest dependency").as_str());
    s.append("</div>\n</section>\n");
    s
}

/// The HTML report of `assets` found under `scan_path`, generated at `timestamp`
/// in the year written `year_text` (read as a number, 2026 when it does not read).
pub fn render_html(
    assets: &Vec<CryptoAsset>,
    files_scanned: usize,
    scan_path: &str,
    timestamp: &str,
    year_text: &str,
) -> (r: String)
    ensures
        r@ == html_report(assets.deep_view(), files_scanned as nat, scan_path@, timestamp@, year_text@),
{
    let year = match parse_u32_text(year_text) {
        Some(y) => y,
        None => 2026,
    };
    let mut out = header_html(scan_path, timestamp);
    out.append(summary_html(assets, files_scanned).as_str());
    out.append("<section>\n<h2>NIST IR 8547 Compliance Timeline</h2>\n");
    out.append(build_timeline(year, assets).as_str());
    out.append("</section>\n");
    out.append(findings_head_html().as_str());
    out.append(rows_html(assets).as_str());
    out.append("</tbody>\n</table>\n</div>\n</section>\n");
    out.append("<section>\n<h2>Remediation Guide</h2>\n");
    out.append(
        "<p style=\"color:#6b7280;margin-bottom:16px\">Unique vulnerable algorithms found, with migration recommendations.</p>\n",
    );
    out.append(build_remediation(assets).as_str());
    out.append("</section>\n");
    out.append(stats_html(assets).as_str());
    out.append("</main>\n<script>\n");
    out.append(REPORT_JS);
    out.append("</script>\n</body>\n</html>");
    out
}

/// The current UTC time as `chrono` formats it for the report, and the current
/// year (`%Y`). Nothing is promised of the values.
#[verifier::external_body]
fn report_clock() -> (String, String) {
    let now = chrono::Utc::now();
    (now.format("%Y-%m-%d %H:%M UTC").to_string(), now.format("%Y").to_string())
}

/// The HTML migration report of `assets` found in `files_scanned` files under
/// `scan_path`, stamped with
/// the current time.
pub fn emit_html(assets: &Vec<CryptoAsset>, files_scanned: usize, scan_path: &str) -> (r: String)
    ensures
        exists|ts: Seq<char>, year: Seq<char>|
            r@ == html_report(assets.deep_view(), files_scanned as nat, scan_path@, ts, year),
{
    let (timestamp, year) = report_clock();
    render_html(assets, files_scanned, scan_path, timestamp.as_str(), year.as_str())
}

} // verus!
