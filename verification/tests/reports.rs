use acdi::cbom::build_bom;
use acdi::catalog::{classify_by_name, lookup_by_name, oid_to_algorithm};
use acdi::cli::{Cli, Commands, DiffArgs, DiffFormat, FailOn, LogLevel, OutputFormat};
use acdi::console::{found_text, shorten_path, styled_cells, summarize, summary_counts, table_rows, Color};
use acdi::csv::{csv_field_exec, emit_csv};
use acdi::diff_render::{qs_colored, risk_colored, Style};
use acdi::html::{he, render_html};
use acdi::ignore::IgnoreList;
use acdi::model::{AssetType, CryptoAsset, Evidence, Location, Primitive, QuantumSafety, Risk};
use acdi::sarif::{family_of, risk_to_level, sarif_log};
use acdi::scan::{
    asset_key, fail_on_to_risk, finalize_assets, output_label, threshold_exceeded,
    trim_trailing_newlines, watch_report_lines,
};

fn asset(name: &str, risk: Risk, source: &str, line: Option<u32>, evidence: Evidence) -> CryptoAsset {
    let c = classify_by_name(name);
    CryptoAsset {
        asset_type: AssetType::Algorithm,
        name: name.to_string(),
        oid: None,
        primitive: c.primitive,
        parameter_set: None,
        nist_quantum_security: c.nist_level,
        quantum_safe: c.quantum_safe,
        hndl_risk: risk,
        locations: vec![Location { source: source.to_string(), line, column: None }],
        evidence,
    }
}

fn rsa(source: &str) -> CryptoAsset {
    CryptoAsset {
        asset_type: AssetType::Algorithm,
        name: "RSA-2048".to_string(),
        oid: None,
        primitive: Primitive::PublicKeyEncryption,
        parameter_set: None,
        nist_quantum_security: 0,
        quantum_safe: QuantumSafety::Vulnerable,
        hndl_risk: Risk::Critical,
        locations: vec![Location { source: source.to_string(), line: None, column: None }],
        evidence: Evidence::CertificateParsing,
    }
}

fn sample() -> Vec<CryptoAsset> {
    vec![
        rsa("/scan/certs/server.crt"),
        asset("SHA-1", Risk::Medium, "/scan/src/legacy.py", Some(8), Evidence::SourceCodePattern),
        asset("AES-256", Risk::NoRisk, "/scan/src/enc.rs", Some(22), Evidence::SourceCodePattern),
    ]
}

// ── OID catalog ───────────────────────────────────────────────────────────────

#[test]
fn oid_catalog_maps_rsa_oid() {
    assert_eq!(oid_to_algorithm("1.2.840.113549.1.1.1"), Some("RSA"));
}

#[test]
fn oid_catalog_maps_sha256_oid() {
    assert_eq!(oid_to_algorithm("2.16.840.1.101.3.4.2.1"), Some("SHA-256"));
}

#[test]
fn oid_catalog_returns_none_for_unknown() {
    assert_eq!(oid_to_algorithm("9.9.9.9.9.9"), None);
}

#[test]
fn catalog_classifies_by_name() {
    let c = classify_by_name("RSA-2048");
    assert_eq!(c.quantum_safe, QuantumSafety::Vulnerable);
    assert_eq!(c.hndl_risk, Risk::Critical);
    assert_eq!(c.nist_level, 0);
    let k = classify_by_name("ML-KEM-768");
    assert_eq!(k.quantum_safe, QuantumSafety::Safe);
    assert_eq!(k.nist_level, 3);
    let h = lookup_by_name("X25519MLKEM768").unwrap();
    assert_eq!(h.quantum_safe, QuantumSafety::HybridSafe);
    assert!(lookup_by_name("NOT-AN-ALGORITHM").is_none());
}

// ── .acdignore ────────────────────────────────────────────────────────────────

#[test]
fn ignore_list_parses_algorithm_rule() {
    let rules = IgnoreList::parse("algorithm:RSA-2048\n");
    assert_eq!(rules.len(), 1);
}

#[test]
fn ignore_list_parses_path_rule() {
    let rules = IgnoreList::parse("path:tests/**\n");
    assert_eq!(rules.len(), 1);
}

#[test]
fn ignore_list_skips_comments_and_blank_lines() {
    let text = "# this is a comment\n\nalgorithm:SHA-1\n# another\n";
    let list = IgnoreList::parse(text);
    assert_eq!(list.len(), 1, "only one real rule");
}

#[test]
fn ignore_list_suppresses_algorithm_match() {
    let a = rsa("test.pem");
    let list = IgnoreList::parse("algorithm:RSA-2048\n");
    assert!(list.suppresses(&a), "RSA-2048 must be suppressed");
    let list2 = IgnoreList::parse("algorithm:rsa-2048\n");
    assert!(list2.suppresses(&a), "algorithm match must be case-insensitive");
    let list3 = IgnoreList::parse("algorithm:ECDSA-P-256\n");
    assert!(!list3.suppresses(&a), "non-matching algorithm must not be suppressed");
}

#[test]
fn ignore_list_suppresses_path_glob() {
    let list = IgnoreList::parse("path:tests/**\n");
    assert!(list.suppresses(&rsa("tests/pems/rsa2048.crt.pem")), "** glob must match subdirectories");
    assert!(!list.suppresses(&rsa("/other/path/cert.pem")), "non-matching path must not be suppressed");
}

#[test]
fn ignore_list_suppresses_evidence_type() {
    let mut binary_asset = rsa("lib.so");
    binary_asset.name = "RSA".to_string();
    binary_asset.evidence = Evidence::BinaryStringSearch;
    let list = IgnoreList::parse("evidence:binary-string-search\n");
    assert!(list.suppresses(&binary_asset), "binary evidence must be suppressed");
    let list2 = IgnoreList::parse("evidence:certificate-parsing\n");
    assert!(!list2.suppresses(&binary_asset), "other evidence must not be suppressed");
}

#[test]
fn ignore_rule_conditions_all_must_match() {
    let list = IgnoreList::parse("algorithm:RSA-2048 path:vendor/**\n");
    assert_eq!(list.len(), 1);
    assert!(list.suppresses(&rsa("vendor/lib/key.pem")));
    assert!(!list.suppresses(&rsa("src/key.pem")));
}

#[test]
fn ignore_single_star_stays_in_one_directory() {
    let list = IgnoreList::parse("path:certs/*.pem\n");
    assert!(list.suppresses(&rsa("certs/a.pem")));
    assert!(!list.suppresses(&rsa("certs/sub/a.pem")));
}

#[test]
fn empty_ignore_list_suppresses_nothing() {
    let list = IgnoreList::empty();
    assert!(list.is_empty());
    assert_eq!(list.len(), 0);
    assert!(!list.suppresses(&rsa("a.pem")));
}

// ── Scan decisions ────────────────────────────────────────────────────────────

#[test]
fn finalize_orders_by_risk_and_applies_ignore_rules() {
    let per_file = vec![
        vec![asset("AES-256", Risk::NoRisk, "a.rs", Some(1), Evidence::SourceCodePattern)],
        vec![
            asset("SHA-1", Risk::Medium, "b.py", Some(2), Evidence::SourceCodePattern),
            rsa("c.pem"),
            asset("MD5", Risk::Medium, "b.py", Some(3), Evidence::SourceCodePattern),
        ],
        vec![rsa("tests/d.pem")],
    ];
    let none = IgnoreList::empty();
    let all = finalize_assets(&per_file, &none);
    let names: Vec<&str> = all.iter().map(|a| a.name.as_str()).collect();
    assert_eq!(names, vec!["RSA-2048", "RSA-2048", "SHA-1", "MD5", "AES-256"]);
    assert_eq!(all[0].locations[0].source, "c.pem");
    let ignore = IgnoreList::parse("path:tests/**\nalgorithm:md5\n");
    let kept = finalize_assets(&per_file, &ignore);
    let names: Vec<&str> = kept.iter().map(|a| a.name.as_str()).collect();
    assert_eq!(names, vec!["RSA-2048", "SHA-1", "AES-256"]);
}

#[test]
fn fail_on_thresholds() {
    assert_eq!(fail_on_to_risk(&FailOn::Low), Risk::NoRisk);
    assert_eq!(fail_on_to_risk(&FailOn::Critical), Risk::Critical);
    let assets = sample();
    assert!(threshold_exceeded(&assets, &FailOn::Critical));
    let mild = vec![asset("SHA-1", Risk::Medium, "x.py", Some(1), Evidence::SourceCodePattern)];
    assert!(!threshold_exceeded(&mild, &FailOn::High));
    assert!(threshold_exceeded(&mild, &FailOn::Medium));
    assert!(!threshold_exceeded(&Vec::new(), &FailOn::Low));
    let harmless = vec![asset("AES-256", Risk::NoRisk, "x.py", Some(1), Evidence::SourceCodePattern)];
    assert!(threshold_exceeded(&harmless, &FailOn::Low));
    assert!(!threshold_exceeded(&harmless, &FailOn::Medium));
}

#[test]
fn output_labels_and_quiet_trimming() {
    assert_eq!(output_label(&OutputFormat::Sarif), "SARIF");
    assert_eq!(output_label(&OutputFormat::Html), "HTML report");
    assert_eq!(output_label(&OutputFormat::CycloneDx17), "CBOM");
    assert_eq!(output_label(&OutputFormat::Csv), "CSV");
    assert_eq!(trim_trailing_newlines("a,b\n\n"), "a,b");
    assert_eq!(trim_trailing_newlines("x\ny"), "x\ny");
    assert_eq!(trim_trailing_newlines("\n\n"), "");
}

#[test]
fn watch_keys_and_change_report() {
    let a = asset("SHA-1", Risk::Medium, "b.py", Some(2), Evidence::SourceCodePattern);
    assert_eq!(asset_key(&a), "SHA-1:b.py:2");
    assert_eq!(asset_key(&rsa("c.pem")), "RSA-2048:c.pem:0");
    let prev = vec![rsa("c.pem"), a.clone()];
    let next = vec![rsa("c.pem"), asset("MD5", Risk::Medium, "b.py", Some(3), Evidence::SourceCodePattern)];
    assert_eq!(
        watch_report_lines(&prev, &next),
        vec![
            "  [+] MD5 — b.py".to_string(),
            "  [-] SHA-1 — b.py".to_string(),
            "  1 new, 1 resolved (2 total)".to_string(),
        ]
    );
    assert_eq!(watch_report_lines(&next, &next), vec!["  no change (2 findings)".to_string()]);
}

// ── CSV ───────────────────────────────────────────────────────────────────────

#[test]
fn csv_output_has_header_row() {
    let csv = emit_csv(&sample());
    let first_line = csv.lines().next().unwrap_or("");
    assert_eq!(first_line, "Algorithm,AssetType,QuantumSafety,HNDLRisk,NISTLevel,File,Line,Evidence");
}

#[test]
fn csv_output_contains_findings() {
    let csv = emit_csv(&sample());
    assert!(csv.contains("RSA-2048"), "CSV must contain RSA-2048");
    assert!(csv.contains("CRITICAL"), "CSV must contain CRITICAL risk");
    assert!(csv.contains("certificate-parsing"), "CSV must contain evidence type");
}

#[test]
fn csv_output_correct_column_count() {
    let csv = emit_csv(&sample());
    for line in csv.lines() {
        assert_eq!(line.split(',').count(), 8, "every CSV row must have 8 columns; got: {line}");
    }
}

#[test]
fn csv_rows_are_exact() {
    let csv = emit_csv(&sample());
    let lines: Vec<&str> = csv.lines().collect();
    assert_eq!(lines.len(), 4);
    assert_eq!(lines[1], "RSA-2048,algorithm,VULNERABLE,CRITICAL,0,/scan/certs/server.crt,,certificate-parsing");
    assert_eq!(lines[2], "SHA-1,algorithm,VULNERABLE,MEDIUM,0,/scan/src/legacy.py,8,source-code-pattern");
    assert!(csv.ends_with('\n'));
}

#[test]
fn csv_fields_are_quoted_when_needed() {
    assert_eq!(csv_field_exec("plain"), "plain");
    assert_eq!(csv_field_exec("a,b"), "\"a,b\"");
    assert_eq!(csv_field_exec("say \"hi\""), "\"say \"\"hi\"\"\"");
    let mut a = rsa("dir,with,commas/x.pem");
    a.locations.push(Location { source: "second.pem".to_string(), line: Some(4), column: None });
    let csv = emit_csv(&vec![a]);
    let lines: Vec<&str> = csv.lines().collect();
    assert_eq!(lines.len(), 3, "one row per location");
    assert!(lines[1].contains("\"dir,with,commas/x.pem\""));
    assert!(lines[2].contains("second.pem,4,"));
}

#[test]
fn csv_of_no_assets_is_the_header() {
    assert_eq!(emit_csv(&Vec::new()), "Algorithm,AssetType,QuantumSafety,HNDLRisk,NISTLevel,File,Line,Evidence\n");
}

// ── SARIF ─────────────────────────────────────────────────────────────────────

#[test]
fn sarif_output_is_valid_json_with_correct_version() {
    let log = sarif_log(&sample());
    assert_eq!(log.version, "2.1.0", "SARIF version must be 2.1.0");
    assert!(!log.runs.is_empty(), "SARIF must have at least one run");
}

#[test]
fn sarif_results_contain_correct_rule_ids() {
    let log = sarif_log(&sample());
    let results = &log.runs[0].results;
    assert!(!results.is_empty());
    for result in results {
        assert!(result.rule_id.starts_with("ACDI-"), "got: {}", result.rule_id);
    }
    assert_eq!(results[0].rule_id, "ACDI-RSA");
    assert_eq!(results[0].level, "error");
}

#[test]
fn sarif_results_have_physical_locations() {
    let log = sarif_log(&sample());
    for result in &log.runs[0].results {
        let uri = &result.locations[0].physical_location.artifact_location.uri;
        assert!(!uri.is_empty(), "SARIF location URI must not be empty");
    }
    let sha1 = &log.runs[0].results[1];
    assert_eq!(sha1.locations[0].physical_location.region.as_ref().unwrap().start_line, 8);
}

#[test]
fn sarif_rules_are_one_per_algorithm() {
    let mut assets = sample();
    assets.push(rsa("/scan/other.crt"));
    let log = sarif_log(&assets);
    assert_eq!(log.runs[0].tool.driver.rules.len(), 3);
    assert_eq!(log.runs[0].results.len(), 4);
    assert_eq!(log.runs[0].tool.driver.version, "0.5.0");
}

#[test]
fn sarif_rules_are_one_per_algorithm_family() {
    let assets = vec![
        asset("RSA-2048", Risk::Critical, "a.pem", None, Evidence::CertificateParsing),
        asset("RSA-4096", Risk::Critical, "b.pem", None, Evidence::CertificateParsing),
        asset("ECDSA-P-256", Risk::Critical, "c.pem", None, Evidence::CertificateParsing),
    ];
    let log = sarif_log(&assets);
    let rules = &log.runs[0].tool.driver.rules;
    assert_eq!(rules.len(), 2);
    assert_eq!(rules[0].id, "ACDI-RSA");
    assert_eq!(rules[0].name, "RSA");
    assert_eq!(rules[1].id, "ACDI-ECDSA");
    let ids: Vec<&str> = log.runs[0].results.iter().map(|r| r.rule_id.as_str()).collect();
    assert_eq!(ids, vec!["ACDI-RSA", "ACDI-RSA", "ACDI-ECDSA"]);
}

#[test]
fn algorithm_families() {
    assert_eq!(family_of("RSA-2048"), "RSA");
    assert_eq!(family_of("ECDSA-P-384"), "ECDSA");
    assert_eq!(family_of("ML-KEM-768"), "ML-KEM");
    assert_eq!(family_of("SLH-DSA-128s"), "SLH-DSA");
    assert_eq!(family_of("AES-256-GCM"), "AES");
    assert_eq!(family_of("ChaCha20-Poly1305"), "ChaCha20-Poly1305");
    assert_eq!(family_of("X25519MLKEM768"), "X25519MLKEM768");
}

#[test]
fn sarif_levels_follow_risk() {
    assert_eq!(risk_to_level(&Risk::Critical), "error");
    assert_eq!(risk_to_level(&Risk::High), "error");
    assert_eq!(risk_to_level(&Risk::Medium), "warning");
    assert_eq!(risk_to_level(&Risk::Low), "note");
    assert_eq!(risk_to_level(&Risk::NoRisk), "none");
}

// ── HTML ──────────────────────────────────────────────────────────────────────

#[test]
fn html_output_is_valid_html_with_doctype() {
    let html = render_html(&sample(), 3, "/scan", "2026-05-23 10:00 UTC", "2026");
    assert!(html.starts_with("<!DOCTYPE html>"), "HTML must start with DOCTYPE");
    assert!(html.contains("<html"), "must contain <html> tag");
    assert!(html.contains("</html>"), "must be closed HTML");
}

#[test]
fn html_output_contains_summary_and_findings() {
    let html = render_html(&sample(), 3, "/scan", "2026-05-23 10:00 UTC", "2026");
    assert!(html.contains("Executive Summary"));
    assert!(html.contains("NIST IR 8547"));
    assert!(html.contains("Remediation Guide"));
    assert!(html.contains("RSA-2048"));
    assert!(html.contains("2026-05-23 10:00 UTC"));
}

#[test]
fn html_report_includes_remediation_for_vulnerable_algos() {
    let html = render_html(&sample(), 3, "/scan", "t", "2026");
    assert!(html.contains("ML-KEM") || html.contains("ML-DSA"));
}

#[test]
fn html_report_scan_stats_section_present() {
    let html = render_html(&sample(), 3, "/scan", "t", "2026");
    assert!(html.contains("Scan Statistics"), "must have Scan Statistics section");
    assert!(html.contains("Source code"), "stats must include source code row");
}

#[test]
fn html_summary_counts_algorithms_and_files() {
    let mut assets = sample();
    assets.push(rsa("/scan/other.crt"));
    let html = render_html(&assets, 7, "/scan", "t", "2026");
    assert!(html.contains("<div class=\"card algos\"><span class=\"cv\">3</span><span class=\"cl\">Unique Algorithms</span></div>"));
    assert!(html.contains("<div class=\"card files\"><span class=\"cv\">7</span><span class=\"cl\">Files Scanned</span></div>"));
}

#[test]
fn html_escapes_text() {
    assert_eq!(he("<a href=\"x\">&'</a>"), "&lt;a href=&quot;x&quot;&gt;&amp;'&lt;/a&gt;");
    let html = render_html(&sample(), 3, "/scan/<dir>", "t", "2026");
    assert!(html.contains("/scan/&lt;dir&gt;"));
    assert!(!html.contains("/scan/<dir>"));
}

// ── Console report ────────────────────────────────────────────────────────────

#[test]
fn console_cells_rows_and_summary() {
    let (q, r) = styled_cells(&QuantumSafety::ClassicallyAdequate, &Risk::Low);
    assert_eq!((q.text, q.color), ("ADEQUATE", Color::Yellow));
    assert_eq!((r.text, r.color), ("LOW", Color::Cyan));
    assert_eq!(shorten_path("/scan/src/a.rs", "/scan"), "src/a.rs");
    assert_eq!(shorten_path("/other/a.rs", "/scan"), "/other/a.rs");
    let rows = table_rows(&sample(), "/scan");
    assert_eq!(rows.len(), 3);
    assert_eq!(rows[0].asset_type, "Algorithm");
    assert_eq!(rows[0].location, "certs/server.crt");
    assert_eq!(rows[2].nist_level, "5");
    let s = summarize(&sample());
    assert_eq!((s.total, s.vulnerable, s.critical, s.medium, s.safe), (3, 2, 1, 1, 1));
    assert_eq!(found_text(&s), "Found 3 asset(s) — 2 quantum-vulnerable");
    let lines = summary_counts(&s);
    let labels: Vec<&str> = lines.iter().map(|l| l.label).collect();
    assert_eq!(labels, vec!["CRITICAL", "MEDIUM", "NONE/SAFE"]);
    assert_eq!(lines[0].count, 1);
}

#[test]
fn diff_styles() {
    assert_eq!(risk_colored("CRITICAL"), Style::RedBold);
    assert_eq!(risk_colored("high"), Style::Yellow);
    assert_eq!(risk_colored("whatever"), Style::Plain);
    assert_eq!(qs_colored("VULNERABLE"), Style::RedBold);
    assert_eq!(qs_colored("SAFE"), Style::Green);
}

// ── CLI ───────────────────────────────────────────────────────────────────────

#[test]
fn verbosity_maps_to_log_level() {
    let mk = |v: u8| Cli {
        command: Commands::Diff(DiffArgs {
            before: "a.json".to_string(),
            after: "b.json".to_string(),
            format: DiffFormat::Text,
        }),
        verbose: v,
    };
    assert_eq!(mk(0).log_level(), LogLevel::Warn);
    assert_eq!(mk(1).log_level(), LogLevel::Debug);
    assert_eq!(mk(2).log_level(), LogLevel::Trace);
    assert_eq!(mk(7).log_level(), LogLevel::Trace);
}

#[test]
fn csv_quantum_safety_column_uses_documented_values() {
    let assets = vec![
        asset("AES-256", Risk::NoRisk, "a.rs", Some(1), Evidence::SourceCodePattern),
        asset("X25519MLKEM768", Risk::NoRisk, "b.rs", Some(2), Evidence::SourceCodePattern),
        asset("ML-KEM-768", Risk::NoRisk, "c.rs", Some(3), Evidence::SourceCodePattern),
    ];
    let csv = emit_csv(&assets);
    let rows: Vec<&str> = csv.lines().skip(1).collect();
    assert_eq!(rows[0].split(',').nth(2), Some("ADEQUATE"));
    assert_eq!(rows[1].split(',').nth(2), Some("HYBRID_SAFE"));
    assert_eq!(rows[2].split(',').nth(2), Some("SAFE"));
}

#[test]
fn ignore_evidence_is_lowercased_as_unicode_text() {
    // U+212A KELVIN SIGN lower-cases to an ASCII `k`.
    let ignore = IgnoreList::parse("evidence:tls-handsha\u{212A}e\n");
    assert_eq!(ignore.len(), 1);
    let tls = asset("RSA-2048", Risk::Critical, "host:443", None, Evidence::TlsHandshake);
    let kept = finalize_assets(&vec![vec![tls]], &ignore);
    assert!(kept.is_empty(), "the rule names tls-handshake once lower-cased");
}

#[test]
fn ignore_rule_counts_add_up_over_joined_texts() {
    let a = "algorithm:RSA-2048\n# note\n";
    let b = "path:tests/**\nevidence:elf-symbol\nbogus\n";
    let joined = format!("{a}{b}");
    assert_eq!(
        IgnoreList::parse(&joined).len(),
        IgnoreList::parse(a).len() + IgnoreList::parse(b).len()
    );
    assert_eq!(IgnoreList::parse(&joined).len(), 3);
}

#[test]
fn cbom_quantum_safe_property_uses_documented_values() {
    let assets = vec![
        asset("AES-256", Risk::NoRisk, "a.rs", Some(1), Evidence::SourceCodePattern),
        asset("ML-KEM-768", Risk::NoRisk, "b.rs", Some(2), Evidence::SourceCodePattern),
        asset("X25519MLKEM768", Risk::NoRisk, "c.rs", Some(3), Evidence::SourceCodePattern),
        rsa("d.pem"),
    ];
    let bom = build_bom(&assets);
    let values: Vec<&str> = bom
        .components
        .iter()
        .map(|c| c.properties.iter().find(|p| p.name == "acdi:quantum_safe").unwrap().value.as_str())
        .collect();
    assert_eq!(values, vec!["ADEQUATE", "QUANTUM_SAFE", "HYBRID_SAFE", "VULNERABLE"]);
    assert_eq!(bom.serial_number.len(), "urn:uuid:".len() + 36);
}
