use acdi::model::{AssetType, CryptoAsset, Evidence, QuantumSafety, Risk};
use acdi::probe::{
    absorb_probe, collect_targets, endpoint, extract_assets_from_result, parse_kem_group,
    parse_target, pqc_after_version, pqc_failure, pqc_finish, pqc_hybrid_asset, pqc_start,
    resolve_target, supports_mlkem, valid_probe_host, version_text, TlsHandshakeResult,
    S_CLIENT_GROUPS,
};

fn handshake(host: &str, port: u16, pqc: bool, error: Option<&str>) -> TlsHandshakeResult {
    TlsHandshakeResult {
        host: host.to_string(),
        port,
        tls_version: "TLSv1_3".to_string(),
        cipher_suite: "TLS13_AES_256_GCM_SHA384".to_string(),
        peer_certs: vec![],
        pqc_hybrid: pqc,
        error: error.map(|e| e.to_string()),
    }
}

#[test]
fn target_parsing() {
    let (h, p) = parse_target("api.example.com:8443").ok().unwrap();
    assert_eq!((h.as_str(), p), ("api.example.com", 8443));
    let (h, p) = parse_target("api.example.com").ok().unwrap();
    assert_eq!((h.as_str(), p), ("api.example.com", 443));
    let (h, p) = parse_target("[::1]:443").ok().unwrap();
    assert_eq!((h.as_str(), p), ("::1", 443));
    let (h, p) = parse_target("[2001:db8::1]").ok().unwrap();
    assert_eq!((h.as_str(), p), ("2001:db8::1", 443));
    let (h, p) = parse_target("host:+80").ok().unwrap();
    assert_eq!((h.as_str(), p), ("host", 80));
    assert_eq!(parse_target("host:99999").err().unwrap().target, "host:99999");
    assert!(parse_target("host:").is_err());
    assert!(parse_target("host:https").is_err());
}

#[test]
fn unreadable_port_falls_back_to_the_whole_target() {
    assert_eq!(resolve_target("$(evil):443x"), ("$(evil):443x".to_string(), 443));
    assert_eq!(resolve_target("db.local:5432"), ("db.local".to_string(), 5432));
}

#[test]
fn endpoint_round_trips_through_parse_target() {
    for (h, p) in [("a.b", 1u16), ("x", 65535), ("with:colon", 443)] {
        let t = endpoint(h, p);
        let (h2, p2) = parse_target(&t).ok().unwrap();
        assert_eq!((h2.as_str(), p2), (h, p));
    }
    assert_eq!(endpoint("example.org", 443), "example.org:443");
    assert_eq!(endpoint("::1", 8443), "[::1]:8443");
}

#[test]
fn tls_hosts_file_ignores_comments_and_blank_lines() {
    let targets = collect_targets(&None, &Some("# just a comment\n\n".to_string()));
    assert!(targets.is_empty(), "comment and blank lines name no target");
    let targets = collect_targets(
        &Some("first:443".to_string()),
        &Some("  a.example:443  \n# skip\n\nb.example\n".to_string()),
    );
    assert_eq!(targets, vec!["first:443", "a.example:443", "b.example"]);
}

#[test]
fn tls_invalid_hostname_does_not_panic() {
    assert!(!valid_probe_host("$(evil)"));
    assert!(valid_probe_host("api.example-1.com"));
    assert!(valid_probe_host("bücher.de"), "Unicode letters are alphanumeric");
    let failed = pqc_start("$(evil)").unwrap();
    assert!(!failed.hybrid_detected);
    assert_eq!(failed.note.as_deref(), Some("PQC probe failed: invalid hostname: '$(evil)'"));
    assert!(pqc_start("ok.example").is_none());
}

#[test]
fn openssl_version_gate() {
    assert!(supports_mlkem("OpenSSL 3.5.0 8 Apr 2025"));
    assert!(supports_mlkem("OpenSSL 4.0.1 1 Jan 2027"));
    assert!(!supports_mlkem("OpenSSL 3.4.1 11 Feb 2025"));
    assert!(!supports_mlkem("OpenSSL 3"));
    assert!(!supports_mlkem("LibreSSL 3.9.0"));
    let skipped = pqc_after_version("LibreSSL 3.9.0").unwrap();
    assert_eq!(skipped.openssl_version.as_deref(), Some("LibreSSL 3.9.0"));
    assert_eq!(
        skipped.note.as_deref(),
        Some("LibreSSL 3.9.0 does not support ML-KEM groups; skipping PQC probe")
    );
    assert!(pqc_after_version("OpenSSL 3.5.0 8 Apr 2025").is_none());
    assert_eq!(version_text(b"  OpenSSL 3.5.6 7 Apr 2026\n"), "OpenSSL 3.5.6 7 Apr 2026");
    assert!(S_CLIENT_GROUPS.starts_with("X25519MLKEM768:"));
}

#[test]
fn kem_group_parsing() {
    assert_eq!(
        parse_kem_group("Protocol version: TLSv1.3\nServer Temp Key: X25519MLKEM768, 1216 bits\n"),
        (true, Some("X25519MLKEM768".to_string()))
    );
    assert_eq!(parse_kem_group("Negotiated group: p256mlkem768\n"), (true, Some("P256MLKEM768".to_string())));
    assert_eq!(parse_kem_group("group: SecP384r1MLKEM1024 (hybrid)\n"), (true, Some("SecP384r1MLKEM1024".to_string())));
    assert_eq!(parse_kem_group("Server Temp Key: X25519, 253 bits\n"), (false, None));
    let r = pqc_finish("OpenSSL 3.5.0".to_string(), b"Server Temp Key: X25519MLKEM768\n", b"");
    assert!(r.hybrid_detected);
    assert_eq!(r.group_name.as_deref(), Some("X25519MLKEM768"));
    assert_eq!(r.openssl_version.as_deref(), Some("OpenSSL 3.5.0"));
    assert!(r.note.is_none());
    let f = pqc_failure("openssl s_client timed out");
    assert_eq!(f.note.as_deref(), Some("PQC probe failed: openssl s_client timed out"));
}

#[test]
fn hybrid_handshake_adds_a_protocol_asset() {
    assert!(pqc_hybrid_asset(&handshake("h.example", 443, false, None)).is_none());
    let a = pqc_hybrid_asset(&handshake("h.example", 443, true, None)).unwrap();
    assert_eq!(a.name, "X25519MLKEM768");
    assert_eq!(a.asset_type, AssetType::Protocol);
    assert_eq!(a.quantum_safe, QuantumSafety::HybridSafe);
    assert_eq!(a.hndl_risk, Risk::Low);
    assert_eq!(a.nist_quantum_security, 3);
    assert_eq!(a.evidence, Evidence::TlsHandshake);
    assert_eq!(a.locations[0].source, "h.example:443");
}

#[test]
fn tls_unreachable_host_exits_ok_with_warning() {
    let mut all: Vec<CryptoAsset> = Vec::new();
    let mut errors: Vec<String> = Vec::new();
    let failed = TlsHandshakeResult::failed("127.0.0.1".to_string(), 9999, "connection refused".to_string());
    absorb_probe(&failed, &Vec::new(), &mut all, &mut errors);
    assert!(all.is_empty());
    assert_eq!(errors, vec!["127.0.0.1:9999 — connection refused".to_string()]);
    absorb_probe(&handshake("pq.example", 443, true, None), &Vec::new(), &mut all, &mut errors);
    assert_eq!(all.len(), 1);
    assert_eq!(all[0].name, "X25519MLKEM768");
    assert_eq!(errors.len(), 1);
}

#[test]
fn handshake_without_certificates_has_no_assets() {
    let r = handshake("h.example", 443, false, None);
    assert!(extract_assets_from_result(&r, "h.example", 443).is_empty());
}
