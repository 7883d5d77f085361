//! The configuration-file scanner: key-value rules over each line, with the
//! value mapped to a canonical algorithm name (JWT `alg` values, key types,
//! TLS cipher suites, generic `algorithm = ...` keys, Terraform key attributes
//! and cloud KMS key specs, cert-manager curves).
use vstd::prelude::*;
use vstd::utf8::{decode_utf8, valid_utf8};
use crate::model::{CryptoAsset, Evidence};
use crate::paths::{extension_lower, lower_extension};
use crate::patterns::{
    candidates_to_assets, captures_view, dedup_by_line, dedup_candidates, finding_assets,
    regex_captures_of, regex_line_captures, utf8_text, CandView, Candidate, CaptureView,
};
use crate::table::{assoc, lookup, opt_str_view, pairs_view, KeyMatch};
use crate::text::{
    chars_eq, chars_of, contains, has_infix, has_prefix, lines, split_lines, starts_with, string_of,
    to_lower, to_upper, trim, trimmed, unicode_upper, unicode_lower,
};

verus! {

/// Files larger than this are not scanned.
pub const MAX_CONFIG_BYTES: u64 = 4194304;

/// Why a file could not be scanned.
#[derive(Debug, Clone, Copy, PartialEq, Eq, Structural)]
pub enum DetectError {
    /// The file must be text and is not valid UTF-8.
    InvalidUtf8,
}

/// The abstract result of a detector: the assets found, or why the file could
/// not be scanned.
pub open spec fn result_view(r: Result<Vec<CryptoAsset>, DetectError>) -> Result<
    Seq<crate::model::AssetView>,
    DetectError,
> {
    match r {
        Ok(v) => Ok(v.deep_view()),
        Err(e) => Err(e),
    }
}

pub open spec fn config_rules_view(t: Seq<(&'static str, u8, &'static str)>) -> Seq<
    (Seq<char>, u8, Seq<char>),
> {
    t.map_values(|r: (&'static str, u8, &'static str)| (r.0@, r.1, r.2@))
}

/// The configuration rules: a regular expression whose group `val` captures
/// the value, extension group (0: every configuration file), and a prefix put
/// before the value when it is looked up (`rsa_bits = 2048` reads `rsa-2048`).
pub open spec fn config_rules() -> Seq<(Seq<char>, u8, Seq<char>)> {
    seq![
        (r#"(?i)(?:algorithm|cipher|digest|hash|signing|encryption|signature)[_\-]?(?:algorithm|type|suite|method|function)?\s*[=:]\s*["']?(?P<val>[A-Za-z0-9][A-Za-z0-9_\-\.]*)"#@, 0u8, ""@),
        (r#"(?i)(?:^|[{,\s\[])["']?alg["']?\s*[=:]\s*["']?(?P<val>[A-Za-z][A-Za-z0-9]+)"#@, 1u8, ""@),
        (r#"(?i)(?:key[_\-]type|ssh[_\-]?key[_\-]?type|HostKeyAlgorithms?|public[_\-]key[_\-]algorithm)\s*[=:\s]\s*["']?(?P<val>[A-Za-z0-9][A-Za-z0-9_\-\.]*)"#@, 0u8, ""@),
        (r#"(?P<val>TLS_(?:RSA|DHE_RSA|ECDHE_RSA|ECDHE_ECDSA|DHE_DSS|ECDHE_PSK)_WITH_[A-Z0-9_]+)"#@, 0u8, ""@),
        (r#"(?i)\brsa_bits\s*=\s*["']?(?P<val>\d+)"#@, 2u8, "rsa-"@),
        (r#"(?i)\becdsa_curve\s*=\s*["']?(?P<val>[A-Za-z0-9_\-]+)"#@, 2u8, ""@),
        (r#"(?i)\b(?:customer_master_key_spec|key_spec)\s*=\s*["']?(?P<val>[A-Za-z0-9_]+)"#@, 2u8, ""@),
        (r#"(?i)^\s*curve\s*:\s*["']?(?P<val>[A-Za-z0-9_\-]+)"#@, 3u8, ""@),
    ]
}

fn config_rule_table() -> (t: Vec<(&'static str, u8, &'static str)>)
    ensures
        config_rules_view(t@) == config_rules(),
{
    let t: Vec<(&'static str, u8, &'static str)> = vec![
        (r#"(?i)(?:algorithm|cipher|digest|hash|signing|encryption|signature)[_\-]?(?:algorithm|type|suite|method|function)?\s*[=:]\s*["']?(?P<val>[A-Za-z0-9][A-Za-z0-9_\-\.]*)"#, 0u8, ""),
        (r#"(?i)(?:^|[{,\s\[])["']?alg["']?\s*[=:]\s*["']?(?P<val>[A-Za-z][A-Za-z0-9]+)"#, 1u8, ""),
        (r#"(?i)(?:key[_\-]type|ssh[_\-]?key[_\-]?type|HostKeyAlgorithms?|public[_\-]key[_\-]algorithm)\s*[=:\s]\s*["']?(?P<val>[A-Za-z0-9][A-Za-z0-9_\-\.]*)"#, 0u8, ""),
        (r#"(?P<val>TLS_(?:RSA|DHE_RSA|ECDHE_RSA|ECDHE_ECDSA|DHE_DSS|ECDHE_PSK)_WITH_[A-Z0-9_]+)"#, 0u8, ""),
        (r#"(?i)\brsa_bits\s*=\s*["']?(?P<val>\d+)"#, 2u8, "rsa-"),
        (r#"(?i)\becdsa_curve\s*=\s*["']?(?P<val>[A-Za-z0-9_\-]+)"#, 2u8, ""),
        (r#"(?i)\b(?:customer_master_key_spec|key_spec)\s*=\s*["']?(?P<val>[A-Za-z0-9_]+)"#, 2u8, ""),
        (r#"(?i)^\s*curve\s*:\s*["']?(?P<val>[A-Za-z0-9_\-]+)"#, 3u8, ""),
    ];
    assert(config_rules_view(t@) =~= config_rules());
    t
}

/// Configuration values (lower case) and the algorithms they name.
pub open spec fn config_aliases() -> Seq<(Seq<char>, Seq<char>)> {
    seq![
        ("rs256"@, "RSA-2048"@),
        ("rs384"@, "RSA-2048"@),
        ("rs512"@, "RSA-2048"@),
        ("ps256"@, "RSA-2048"@),
        ("ps384"@, "RSA-2048"@),
        ("ps512"@, "RSA-2048"@),
        ("es256"@, "ECDSA-P-256"@),
        ("es384"@, "ECDSA-P-384"@),
        ("es512"@, "ECDSA-P-521"@),
        ("eddsa"@, "Ed25519"@),
        ("hs256"@, "SHA-256"@),
        ("hs384"@, "SHA-384"@),
        ("hs512"@, "SHA-512"@),
        ("rsa-1024"@, "RSA-1024"@),
        ("rsa-2048"@, "RSA-2048"@),
        ("rsa-3072"@, "RSA-3072"@),
        ("rsa-4096"@, "RSA-4096"@),
        ("rsa1024"@, "RSA-1024"@),
        ("rsa2048"@, "RSA-2048"@),
        ("rsa3072"@, "RSA-3072"@),
        ("rsa4096"@, "RSA-4096"@),
        ("rsa"@, "RSA"@),
        ("ecdsa-p256"@, "ECDSA-P-256"@),
        ("ecdsa-p384"@, "ECDSA-P-384"@),
        ("ecdsa-p521"@, "ECDSA-P-521"@),
        ("ecdsa-p-256"@, "ECDSA-P-256"@),
        ("ecdsa-p-384"@, "ECDSA-P-384"@),
        ("ecdsa-p-521"@, "ECDSA-P-521"@),
        ("ecdsa"@, "ECDSA"@),
        ("ec"@, "ECDSA"@),
        ("prime256v1"@, "ECDSA-P-256"@),
        ("secp256r1"@, "ECDSA-P-256"@),
        ("secp384r1"@, "ECDSA-P-384"@),
        ("secp521r1"@, "ECDSA-P-521"@),
        ("p-256"@, "ECDSA-P-256"@),
        ("p-384"@, "ECDSA-P-384"@),
        ("p-521"@, "ECDSA-P-521"@),
        ("p256"@, "ECDSA-P-256"@),
        ("p384"@, "ECDSA-P-384"@),
        ("p521"@, "ECDSA-P-521"@),
        ("ed25519"@, "Ed25519"@),
        ("x25519"@, "X25519"@),
        ("aes-128-cbc"@, "AES-128"@),
        ("aes-128-gcm"@, "AES-128"@),
        ("aes-256-cbc"@, "AES-256"@),
        ("aes-256-gcm"@, "AES-256"@),
        ("aes-192-cbc"@, "AES-192"@),
        ("aes-128"@, "AES-128"@),
        ("aes-192"@, "AES-192"@),
        ("aes-256"@, "AES-256"@),
        ("aes128"@, "AES-128"@),
        ("aes192"@, "AES-192"@),
        ("aes256"@, "AES-256"@),
        ("3des"@, "3DES"@),
        ("des3"@, "3DES"@),
        ("des-ede3"@, "3DES"@),
        ("triple-des"@, "3DES"@),
        ("des"@, "DES"@),
        ("rc4"@, "RC4"@),
        ("rc2"@, "RC2"@),
        ("sha-512"@, "SHA-512"@),
        ("sha-384"@, "SHA-384"@),
        ("sha-256"@, "SHA-256"@),
        ("sha-224"@, "SHA-224"@),
        ("sha-1"@, "SHA-1"@),
        ("sha512"@, "SHA-512"@),
        ("sha384"@, "SHA-384"@),
        ("sha256"@, "SHA-256"@),
        ("sha224"@, "SHA-224"@),
        ("sha1"@, "SHA-1"@),
        ("md5"@, "MD5"@),
        ("md4"@, "MD4"@),
        ("ml-kem-512"@, "ML-KEM-512"@),
        ("ml-kem-768"@, "ML-KEM-768"@),
        ("ml-kem-1024"@, "ML-KEM-1024"@),
        ("ml-dsa-44"@, "ML-DSA-44"@),
        ("ml-dsa-65"@, "ML-DSA-65"@),
        ("ml-dsa-87"@, "ML-DSA-87"@),
        ("rsa_2048"@, "RSA-2048"@),
        ("rsa_3072"@, "RSA-3072"@),
        ("rsa_4096"@, "RSA-4096"@),
        ("ecc_nist_p256"@, "ECDSA-P-256"@),
        ("ecc_nist_p384"@, "ECDSA-P-384"@),
        ("ecc_nist_p521"@, "ECDSA-P-521"@),
        ("symmetric_default"@, "AES-256"@),
        ("google_symmetric_encryption"@, "AES-256"@),
        ("ec_sign_p256_sha256"@, "ECDSA-P-256"@),
        ("ec_sign_p384_sha384"@, "ECDSA-P-384"@),
        ("rsa_sign_pss_2048_sha256"@, "RSA-2048"@),
        ("rsa_sign_pss_3072_sha256"@, "RSA-3072"@),
        ("rsa_sign_pss_4096_sha256"@, "RSA-4096"@),
        ("rsa_sign_pkcs1_2048_sha256"@, "RSA-2048"@),
        ("rsa_sign_pkcs1_3072_sha256"@, "RSA-3072"@),
        ("rsa_sign_pkcs1_4096_sha256"@, "RSA-4096"@),
        ("rsa_decrypt_oaep_2048_sha256"@, "RSA-2048"@),
        ("rsa_decrypt_oaep_3072_sha256"@, "RSA-3072"@),
        ("rsa_decrypt_oaep_4096_sha256"@, "RSA-4096"@),
    ]
}

fn config_alias_table() -> (t: Vec<(&'static str, &'static str)>)
    ensures
        pairs_view(t@) == config_aliases(),
{
    let t: Vec<(&'static str, &'static str)> = vec![
        ("rs256", "RSA-2048"),
        ("rs384", "RSA-2048"),
        ("rs512", "RSA-2048"),
        ("ps256", "RSA-2048"),
        ("ps384", "RSA-2048"),
        ("ps512", "RSA-2048"),
        ("es256", "ECDSA-P-256"),
        ("es384", "ECDSA-P-384"),
        ("es512", "ECDSA-P-521"),
        ("eddsa", "Ed25519"),
        ("hs256", "SHA-256"),
        ("hs384", "SHA-384"),
        ("hs512", "SHA-512"),
        ("rsa-1024", "RSA-1024"),
        ("rsa-2048", "RSA-2048"),
        ("rsa-3072", "RSA-3072"),
        ("rsa-4096", "RSA-4096"),
        ("rsa1024", "RSA-1024"),
        ("rsa2048", "RSA-2048"),
        ("rsa3072", "RSA-3072"),
        ("rsa4096", "RSA-4096"),
        ("rsa", "RSA"),
        ("ecdsa-p256", "ECDSA-P-256"),
        ("ecdsa-p384", "ECDSA-P-384"),
        ("ecdsa-p521", "ECDSA-P-521"),
        ("ecdsa-p-256", "ECDSA-P-256"),
        ("ecdsa-p-384", "ECDSA-P-384"),
        ("ecdsa-p-521", "ECDSA-P-521"),
        ("ecdsa", "ECDSA"),
        ("ec", "ECDSA"),
        ("prime256v1", "ECDSA-P-256"),
        ("secp256r1", "ECDSA-P-256"),
        ("secp384r1", "ECDSA-P-384"),
        ("secp521r1", "ECDSA-P-521"),
        ("p-256", "ECDSA-P-256"),
        ("p-384", "ECDSA-P-384"),
        ("p-521", "ECDSA-P-521"),
        ("p256", "ECDSA-P-256"),
        ("p384", "ECDSA-P-384"),
        ("p521", "ECDSA-P-521"),
        ("ed25519", "Ed25519"),
        ("x25519", "X25519"),
        ("aes-128-cbc", "AES-128"),
        ("aes-128-gcm", "AES-128"),
        ("aes-256-cbc", "AES-256"),
        ("aes-256-gcm", "AES-256"),
        ("aes-192-cbc", "AES-192"),
        ("aes-128", "AES-128"),
        ("aes-192", "AES-192"),
        ("aes-256", "AES-256"),
        ("aes128", "AES-128"),
        ("aes192", "AES-192"),
        ("aes256", "AES-256"),
        ("3des", "3DES"),
        ("des3", "3DES"),
        ("des-ede3", "3DES"),
        ("triple-des", "3DES"),
        ("des", "DES"),
        ("rc4", "RC4"),
        ("rc2", "RC2"),
        ("sha-512", "SHA-512"),
        ("sha-384", "SHA-384"),
        ("sha-256", "SHA-256"),
        ("sha-224", "SHA-224"),
        ("sha-1", "SHA-1"),
        ("sha512", "SHA-512"),
        ("sha384", "SHA-384"),
        ("sha256", "SHA-256"),
        ("sha224", "SHA-224"),
        ("sha1", "SHA-1"),
        ("md5", "MD5"),
        ("md4", "MD4"),
        ("ml-kem-512", "ML-KEM-512"),
        ("ml-kem-768", "ML-KEM-768"),
        ("ml-kem-1024", "ML-KEM-1024"),
        ("ml-dsa-44", "ML-DSA-44"),
        ("ml-dsa-65", "ML-DSA-65"),
        ("ml-dsa-87", "ML-DSA-87"),
        ("rsa_2048", "RSA-2048"),
        ("rsa_3072", "RSA-3072"),
        ("rsa_4096", "RSA-4096"),
        ("ecc_nist_p256", "ECDSA-P-256"),
        ("ecc_nist_p384", "ECDSA-P-384"),
        ("ecc_nist_p521", "ECDSA-P-521"),
        ("symmetric_default", "AES-256"),
        ("google_symmetric_encryption", "AES-256"),
        ("ec_sign_p256_sha256", "ECDSA-P-256"),
        ("ec_sign_p384_sha384", "ECDSA-P-384"),
        ("rsa_sign_pss_2048_sha256", "RSA-2048"),
        ("rsa_sign_pss_3072_sha256", "RSA-3072"),
        ("rsa_sign_pss_4096_sha256", "RSA-4096"),
        ("rsa_sign_pkcs1_2048_sha256", "RSA-2048"),
        ("rsa_sign_pkcs1_3072_sha256", "RSA-3072"),
        ("rsa_sign_pkcs1_4096_sha256", "RSA-4096"),
        ("rsa_decrypt_oaep_2048_sha256", "RSA-2048"),
        ("rsa_decrypt_oaep_3072_sha256", "RSA-3072"),
        ("rsa_decrypt_oaep_4096_sha256", "RSA-4096"),
    ];
    assert(pairs_view(t@) =~= config_aliases());
    t
}

/// Rules of group 0 apply to every configuration file; group 1 to structured
/// formats, group 2 to Terraform, group 3 to YAML.
pub open spec fn config_applies(g: u8, ext: Seq<char>) -> bool {
    if g == 0 {
        true
    } else if g == 1 {
        seq!["json"@, "yaml"@, "yml"@, "toml"@, "properties"@, "env"@].contains(ext)
    } else if g == 2 {
        ext == "tf"@
    } else {
        ext == "yaml"@ || ext == "yml"@
    }
}

/// The authentication algorithm a TLS cipher suite name carries.
pub open spec fn tls_cipher_algorithm(suite: Seq<char>) -> Option<Seq<char>> {
    let u = unicode_upper(suite);
    if has_infix(u, "_ECDSA_"@) {
        Some("ECDSA"@)
    } else if has_infix(u, "_RSA_"@) || has_prefix(u, "TLS_RSA_"@) {
        Some("RSA"@)
    } else if has_infix(u, "_DSS_"@) || has_infix(u, "_DSA_"@) {
        Some("DSA-2048"@)
    } else {
        None
    }
}

/// The algorithm a configuration value names: an alias (any case), or the
/// authentication algorithm of a TLS cipher suite.
pub open spec fn value_algorithm(val: Seq<char>) -> Option<Seq<char>> {
    match assoc(config_aliases(), unicode_lower(val)) {
        Some(c) => Some(c),
        None => if has_prefix(unicode_lower(val), "tls_"@) {
            tls_cipher_algorithm(val)
        } else {
            None
        },
    }
}

/// A line whose first non-blank text opens a comment.
pub open spec fn is_comment(line: Seq<char>) -> bool {
    let t = trim(line);
    has_prefix(t, "#"@) || has_prefix(t, "//"@) || has_prefix(t, "<!--"@) || has_prefix(t, "*"@)
}

pub open spec fn val_caps(pattern: Seq<char>, line: Seq<char>) -> Seq<CaptureView> {
    match regex_captures_of(pattern, "val"@, line) {
        Some(v) => v,
        None => seq![],
    }
}

/// The findings of one rule's captures on line `ln`.
pub open spec fn val_cands(caps: Seq<CaptureView>, ln: u32, prefix: Seq<char>) -> Seq<CandView>
    decreases caps.len(),
{
    if caps.len() == 0 {
        seq![]
    } else {
        let prev = val_cands(caps.drop_last(), ln, prefix);
        match caps.last().1 {
            Some(v) => match value_algorithm(prefix + v) {
                Some(c) => prev.push((c, ln, None)),
                None => prev,
            },
            None => prev,
        }
    }
}

pub open spec fn config_line_cands(
    rules: Seq<(Seq<char>, u8, Seq<char>)>,
    ext: Seq<char>,
    line: Seq<char>,
    ln: u32,
) -> Seq<CandView>
    decreases rules.len(),
{
    if rules.len() == 0 {
        seq![]
    } else {
        let r = rules.last();
        config_line_cands(rules.drop_last(), ext, line, ln) + if config_applies(r.1, ext) {
            val_cands(val_caps(r.0, line), ln, r.2)
        } else {
            seq![]
        }
    }
}

/// The findings of every non-comment line, in order (line numbers from 1).
pub open spec fn config_cands(ls: Seq<Seq<char>>, ext: Seq<char>) -> Seq<CandView>
    decreases ls.len(),
{
    if ls.len() == 0 {
        seq![]
    } else {
        config_cands(ls.drop_last(), ext) + if is_comment(ls.last()) {
            seq![]
        } else {
            config_line_cands(config_rules(), ext, ls.last(), ls.len() as u32)
        }
    }
}

/// The assets found in configuration text with the given extension, at `source`.
pub open spec fn config_text_assets(text: Seq<char>, ext: Seq<char>, source: Seq<char>) -> Seq<
    crate::model::AssetView,
> {
    finding_assets(dedup_by_line(config_cands(lines(text), ext)), source, Evidence::ConfigFileRule)
}

// ── Values ────────────────────────────────────────────────────────────────────

fn has_lit(u: &[char], lit: &str) -> (b: bool)
    ensures
        b == has_infix(u@, lit@),
{
    contains(u, &chars_of(lit))
}

fn starts_lit(u: &[char], lit: &str) -> (b: bool)
    ensures
        b == has_prefix(u@, lit@),
{
    starts_with(u, &chars_of(lit))
}

/// The authentication algorithm of a TLS cipher suite name.
pub fn tls_cipher_to_canonical(suite: &str) -> (r: Option<&'static str>)
    ensures
        opt_str_view(r) == tls_cipher_algorithm(suite@),
{
    let u = to_upper(&chars_of(suite));
    if has_lit(&u, "_ECDSA_") {
        Some("ECDSA")
    } else if has_lit(&u, "_RSA_") || starts_lit(&u, "TLS_RSA_") {
        Some("RSA")
    } else if has_lit(&u, "_DSS_") || has_lit(&u, "_DSA_") {
        Some("DSA-2048")
    } else {
        None
    }
}

/// The algorithm a configuration value names.
pub fn value_to_canonical(val: &str) -> (r: Option<&'static str>)
    ensures
        opt_str_view(r) == value_algorithm(val@),
{
    let l = to_lower(&chars_of(val));
    match lookup(&config_alias_table(), &l, KeyMatch::Exact) {
        Some(c) => Some(c),
        None => if starts_lit(&l, "tls_") {
            tls_cipher_to_canonical(val)
        } else {
            None
        },
    }
}

fn comment_line(line: &[char]) -> (b: bool)
    ensures
        b == is_comment(line@),
{
    let t = trimmed(line);
    starts_lit(&t, "#") || starts_lit(&t, "//") || starts_lit(&t, "<!--") || starts_lit(&t, "*")
}

fn in_config_group(ext: &[char], g: u8) -> (b: bool)
    ensures
        b == config_applies(g, ext@),
{
    let ghost s = seq!["json"@, "yaml"@, "yml"@, "toml"@, "properties"@, "env"@];
    proof {
        if s.contains(ext@) {
            let k = choose|k: int| 0 <= k < s.len() && s[k] == ext@;
            assert(k == 0 || k == 1 || k == 2 || k == 3 || k == 4 || k == 5);
        }
        if ext@ == "json"@ { assert(s[0] == ext@); }
        if ext@ == "yaml"@ { assert(s[1] == ext@); }
        if ext@ == "yml"@ { assert(s[2] == ext@); }
        if ext@ == "toml"@ { assert(s[3] == ext@); }
        if ext@ == "properties"@ { assert(s[4] == ext@); }
        if ext@ == "env"@ { assert(s[5] == ext@); }
    }
    if g == 0 {
        true
    } else if g == 1 {
        chars_eq(ext, &chars_of("json")) || chars_eq(ext, &chars_of("yaml")) || chars_eq(
            ext,
            &chars_of("yml"),
        ) || chars_eq(ext, &chars_of("toml")) || chars_eq(ext, &chars_of("properties")) || chars_eq(
            ext,
            &chars_of("env"),
        )
    } else if g == 2 {
        chars_eq(ext, &chars_of("tf"))
    } else {
        chars_eq(ext, &chars_of("yaml")) || chars_eq(ext, &chars_of("yml"))
    }
}

// ── Scanning ──────────────────────────────────────────────────────────────────

pub open spec fn config_caps_match(
    rules: Seq<(Seq<char>, u8, Seq<char>)>,
    caps: Seq<Option<Vec<Vec<(Option<usize>, Option<String>)>>>>,
    ext: Seq<char>,
    ls: Seq<Seq<char>>,
) -> bool {
    &&& caps.len() == rules.len()
    &&& forall|k: int|
        0 <= k < rules.len() && config_applies(rules[k].1, ext) ==> match #[trigger] caps[k] {
            Some(v) => v.len() == ls.len() && forall|i: int|
                0 <= i < ls.len() ==> val_caps(rules[k].0, ls[i]) == captures_view(v@[i]@),
            None => forall|i: int| 0 <= i < ls.len() ==> val_caps(rules[k].0, ls[i]) == Seq::<CaptureView>::empty(),
        }
}

fn value_candidates(caps: &Vec<(Option<usize>, Option<String>)>, ln: u32, prefix: &str) -> (r: Vec<
    Candidate,
>)
    ensures
        r.deep_view() == val_cands(captures_view(caps@), ln, prefix@),
{
    let ghost cv = captures_view(caps@);
    let mut out: Vec<Candidate> = Vec::new();
    let mut j: usize = 0;
    while j < caps.len()
        invariant
            j <= caps.len(),
            cv == captures_view(caps@),
            out.deep_view() == val_cands(cv.take(j as int), ln, prefix@),
        decreases caps.len() - j,
    {
        assert(cv.take(j + 1).drop_last() =~= cv.take(j as int));
        assert(cv.take(j + 1).last() == cv[j as int]);
        assert(cv[j as int] == crate::patterns::capture_view(caps@[j as int]));
        match &caps[j].1 {
            Some(v) => match value_to_canonical(
                {
                    let mut key = prefix.to_owned();
                    key.append(v.as_str());
                    key
                }.as_str(),
            ) {
                Some(c) => {
                    let x = Candidate { name: c.to_owned(), line: ln, column: None };
                    let ghost before = out.deep_view();
                    out.push(x);
                    assert(out.deep_view() =~= before.push(x@));
                },
                None => {},
            },
            None => {},
        }
        j = j + 1;
    }
    assert(cv.take(caps.len() as int) =~= cv);
    out
}

fn config_line_candidates(
    rules: &Vec<(&'static str, u8, &'static str)>,
    caps: &Vec<Option<Vec<Vec<(Option<usize>, Option<String>)>>>>,
    ext: &[char],
    ls: Ghost<Seq<Seq<char>>>,
    i: usize,
    ln: u32,
) -> (r: Vec<Candidate>)
    requires
        config_caps_match(config_rules_view(rules@), caps@, ext@, ls@),
        i < ls@.len(),
    ensures
        r.deep_view() == config_line_cands(config_rules_view(rules@), ext@, ls@[i as int], ln),
{
    let ghost rv = config_rules_view(rules@);
    let ghost line = ls@[i as int];
    let mut out: Vec<Candidate> = Vec::new();
    let mut k: usize = 0;
    while k < rules.len()
        invariant
            k <= rules.len(),
            rv == config_rules_view(rules@),
            line == ls@[i as int],
            i < ls@.len(),
            config_caps_match(rv, caps@, ext@, ls@),
            out.deep_view() == config_line_cands(rv.take(k as int), ext@, line, ln),
        decreases rules.len() - k,
    {
        assert(rv.take(k + 1).drop_last() =~= rv.take(k as int));
        assert(rv.take(k + 1).last() == rv[k as int]);
        let rule = rules[k];
        assert(rv[k as int] == (rule.0@, rule.1, rule.2@));
        let ghost before = out.deep_view();
        if in_config_group(ext, rule.1) {
            match &caps[k] {
                Some(v) => {
                    assert(val_caps(rv[k as int].0, ls@[i as int]) == captures_view(v@[i as int]@));
                    let mut more = value_candidates(&v[i], ln, rule.2);
                    let ghost mv = more.deep_view();
                    out.append(&mut more);
                    assert(out.deep_view() =~= before + mv);
                },
                None => {
                    assert(val_caps(rv[k as int].0, ls@[i as int]) == Seq::<CaptureView>::empty());
                    assert(val_cands(Seq::<CaptureView>::empty(), ln, rule.2@) =~= Seq::<CandView>::empty());
                    assert(out.deep_view() =~= before + Seq::<CandView>::empty());
                },
            }
        } else {
            assert(out.deep_view() =~= before + Seq::<CandView>::empty());
        }
        k = k + 1;
    }
    assert(rv.take(rules.len() as int) =~= rv);
    out
}

/// The assets found in configuration text with the given (lower-case)
/// extension, reported at `source`.
pub fn scan_config_text(text: &str, ext: &[char], source: &str) -> (r: Vec<CryptoAsset>)
    ensures
        r.deep_view() == config_text_assets(text@, ext@, source@),
{
    let ls = split_lines(&chars_of(text));
    let ghost lv = ls.deep_view();
    let mut line_strs: Vec<String> = Vec::new();
    let mut i: usize = 0;
    while i < ls.len()
        invariant
            i <= ls.len(),
            lv == ls.deep_view(),
            line_strs.len() == i,
            forall|k: int| 0 <= k < i ==> #[trigger] line_strs@[k]@ == lv[k],
        decreases ls.len() - i,
    {
        assert(lv[i as int] =~= ls@[i as int]@);
        line_strs.push(string_of(&ls[i]));
        i = i + 1;
    }
    let rules = config_rule_table();
    let ghost rv = config_rules_view(rules@);
    let mut caps: Vec<Option<Vec<Vec<(Option<usize>, Option<String>)>>>> = Vec::new();
    let mut k: usize = 0;
    while k < rules.len()
        invariant
            k <= rules.len(),
            rv == config_rules_view(rules@),
            line_strs.len() == lv.len(),
            forall|m: int| 0 <= m < lv.len() ==> #[trigger] line_strs@[m]@ == lv[m],
            config_caps_match(rv.take(k as int), caps@, ext@, lv),
        decreases rules.len() - k,
    {
        let rule = rules[k];
        assert(rv[k as int] == (rule.0@, rule.1, rule.2@));
        let ghost before = caps@;
        let app = in_config_group(ext, rule.1);
        if app {
            let c = regex_line_captures(rule.0, "val", &line_strs);
            proof {
                match &c {
                    Some(v) => {
                        assert forall|i: int| 0 <= i < lv.len() implies val_caps(rv[k as int].0, lv[i])
                            == captures_view(v@[i]@) by {
                            assert(line_strs@[i]@ == lv[i]);
                        }
                    },
                    None => {
                        assert forall|i: int| 0 <= i < lv.len() implies val_caps(rv[k as int].0, lv[i])
                            == Seq::<CaptureView>::empty() by {
                            assert(line_strs@[i]@ == lv[i]);
                        }
                    },
                }
            }
            caps.push(c);
        } else {
            caps.push(None);
        }
        proof {
            let t = rv.take(k + 1);
            assert(caps@.len() == t.len());
            assert forall|m: int| 0 <= m < t.len() && config_applies(t[m].1, ext@) implies match #[trigger] caps@[m] {
                Some(v) => v.len() == lv.len() && forall|i: int|
                    0 <= i < lv.len() ==> val_caps(t[m].0, lv[i]) == captures_view(v@[i]@),
                None => forall|i: int| 0 <= i < lv.len() ==> val_caps(t[m].0, lv[i]) == Seq::<CaptureView>::empty(),
            } by {
                if m < k {
                    assert(t[m] == rv.take(k as int)[m]);
                    assert(caps@[m] == before[m]);
                } else {
                    assert(t[m] == rv[k as int]);
                }
            }
        }
        k = k + 1;
    }
    assert(rv.take(rules.len() as int) =~= rv);
    let mut cands: Vec<Candidate> = Vec::new();
    let mut i: usize = 0;
    while i < ls.len()
        invariant
            i <= ls.len(),
            lv == ls.deep_view(),
            rv == config_rules_view(rules@),
            rv == config_rules(),
            config_caps_match(rv, caps@, ext@, lv),
            cands.deep_view() == config_cands(lv.take(i as int), ext@),
        decreases ls.len() - i,
    {
        assert(lv.take(i + 1).drop_last() =~= lv.take(i as int));
        assert(lv.take(i + 1).last() == lv[i as int]);
        assert(lv.take(i + 1).len() == i + 1);
        assert(lv[i as int] =~= ls@[i as int]@);
        let ln: u32 = (i + 1) as u32;
        let ghost before = cands.deep_view();
        if comment_line(&ls[i]) {
            assert(cands.deep_view() =~= before + Seq::<CandView>::empty());
        } else {
            let mut more = config_line_candidates(&rules, &caps, ext, Ghost(lv), i, ln);
            let ghost mv = more.deep_view();
            cands.append(&mut more);
            assert(cands.deep_view() =~= before + mv);
        }
        i = i + 1;
    }
    assert(lv.take(ls.len() as int) =~= lv);
    let kept = dedup_candidates(&cands);
    candidates_to_assets(&kept, source, Evidence::ConfigFileRule)
}

/// What scanning a configuration file gives (see [`scan_config`]).
pub open spec fn config_result(path: Seq<char>, size: u64, bytes: Seq<u8>) -> Result<
    Seq<crate::model::AssetView>,
    DetectError,
> {
    if size > MAX_CONFIG_BYTES {
        Ok(seq![])
    } else if !valid_utf8(bytes) {
        Ok(seq![])
    } else {
        Ok(config_text_assets(decode_utf8(bytes), lower_extension(path), path))
    }
}

/// Scans a configuration file (path, size in bytes, contents) for algorithm
/// references. Files over 4 MiB, and files that are not UTF-8 text, give no
/// assets.
pub fn scan_config(path: &str, size: u64, bytes: &[u8]) -> (r: Result<Vec<CryptoAsset>, DetectError>)
    ensures
        result_view(r) == config_result(path@, size, bytes@),
{
    if size > MAX_CONFIG_BYTES {
        let v: Vec<CryptoAsset> = Vec::new();
        assert(v.deep_view() =~= Seq::<crate::model::AssetView>::empty());
        return Ok(v);
    }
    match utf8_text(bytes) {
        None => {
            let v: Vec<CryptoAsset> = Vec::new();
            assert(v.deep_view() =~= Seq::<crate::model::AssetView>::empty());
            Ok(v)
        },
        Some(text) => {
            let ext = extension_lower(path);
            Ok(scan_config_text(text.as_str(), &ext, path))
        },
    }
}

} // verus!
