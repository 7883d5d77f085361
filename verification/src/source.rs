//! The source-code scanner: per-language regular expressions over each line
//! (C/C++, Python, Java, Go, Rust, Ruby, PHP, Swift, Kotlin, C#),
//! with the captured parameter normalized into a canonical algorithm name.
use vstd::prelude::*;
use crate::config::{value_algorithm, value_to_canonical};
use crate::model::{CryptoAsset, Evidence};
use crate::paths::{extension_lower, lower_extension};
use crate::patterns::{
    candidates_to_assets, captures_view, dedup_by_line, dedup_candidates, finding_assets,
    lossy_text, offsets_in_range, regex_captures_of, regex_line_captures, utf8_lossy_of, CandView,
    Candidate, CaptureView,
};
use crate::text::{
    chars_eq, chars_of, contains, has_infix, lines, split_lines, string_of, to_upper, trim, trimmed,
    unicode_upper,
};

verus! {

/// Files larger than this are not scanned.
pub const MAX_SOURCE_BYTES: u64 = 10485760;

pub open spec fn rules_view(t: Seq<(&'static str, &'static str, u8)>) -> Seq<(Seq<char>, Seq<char>, u8)> {
    t.map_values(|r: (&'static str, &'static str, u8)| (r.0@, r.1@, r.2))
}

/// The source-code pattern rules: algorithm family (empty: the captured
/// `param` is the whole name), regular expression, and extension group.
pub open spec fn source_rules() -> Seq<(Seq<char>, Seq<char>, u8)> {
    seq![
        ("RSA"@, r"RSA_generate_key(?:_ex)?\s*\([^,)]*,\s*(?P<param>\d+)"@, 0u8),
        ("AES"@, r"\bEVP_aes_(?P<param>128|192|256)_"@, 0u8),
        ("3DES"@, r"\bEVP_des_ede3\b"@, 0u8),
        ("DES"@, r"\bEVP_des_(?:cbc|ecb|cfb|ofb|ctr)\b"@, 0u8),
        ("RC4"@, r"\bEVP_rc4\b"@, 0u8),
        ("SHA"@, r"\bEVP_sha(?P<param>1|224|256|384|512)\b"@, 0u8),
        ("MD5"@, r"\bEVP_md5\b"@, 0u8),
        ("MD4"@, r"\bEVP_md4\b"@, 0u8),
        ("ECDSA"@, r"\bEC_KEY_new_by_curve_name\s*\(\s*(?P<param>\w+)"@, 0u8),
        ("RSA"@, r"\brsa\.generate_private_key\s*\([^)]*key_size\s*=\s*(?P<param>\d+)"@, 1u8),
        ("ECDSA"@, r"\bec\.(?P<param>SECP256R1|SECP384R1|SECP521R1|SECP256K1|BrainpoolP256R1)\s*\("@, 1u8),
        ("SHA"@, r"\bhashes\.(?P<param>SHA1|SHA224|SHA256|SHA384|SHA512|MD5)\s*\("@, 1u8),
        ("SHA"@, r"\bhashlib\.(?P<param>sha1|sha224|sha256|sha384|sha512|md5)\s*\("@, 1u8),
        (""@, r#"\bKeyPairGenerator\.getInstance\s*\(\s*"(?P<param>RSA|EC|DSA|DH)""#@, 2u8),
        (""@, r#"\bMessageDigest\.getInstance\s*\(\s*"(?P<param>SHA-?1|SHA-?256|SHA-?384|SHA-?512|MD5|MD4)""#@, 2u8),
        (""@, r#"\bCipher\.getInstance\s*\(\s*"(?P<param>AES|DES(?:ede)?|RC4|RC2|RSA)(?:[^"]*)?""#@, 2u8),
        (""@, r#"\bKeyGenerator\.getInstance\s*\(\s*"(?P<param>AES|DES(?:ede)?|Blowfish|RC4)""#@, 2u8),
        ("RSA"@, r"\brsa\.GenerateKey\s*\([^,]+,\s*(?P<param>\d+)"@, 3u8),
        ("ECDSA"@, r"\becdsa\.GenerateKey\s*\(\s*elliptic\.(?P<param>P256|P384|P521)\s*\("@, 3u8),
        ("SHA"@, r"\b(?P<param>sha1|sha256|sha512|sha3_256|sha3_512)\.New\s*\("@, 3u8),
        ("MD5"@, r"\bmd5\.New\s*\("@, 3u8),
        ("AES"@, r"\baes\.NewCipher\s*\("@, 3u8),
        ("3DES"@, r"\bdes\.NewTripleDESCipher\s*\("@, 3u8),
        ("DES"@, r"\bdes\.NewCipher\s*\([^)]*\)"@, 3u8),
        ("ring"@, r"\bring::(?:signature|agreement|hmac|aead|digest)::(?P<param>[A-Z][A-Z0-9_]+)"@, 4u8),
        ("RSA"@, r"\bOpenSSL::PKey::RSA\.(?:new|generate)\s*\(\s*(?P<param>\d+)"@, 6u8),
        ("ECDSA"@, r#"\bOpenSSL::PKey::EC\.(?:generate|new)\s*\(\s*["'](?P<param>[A-Za-z0-9_\-]+)["']"#@, 6u8),
        ("SHA"@, r"\bOpenSSL::Digest::(?P<param>SHA1|SHA256|SHA384|SHA512|MD5)\b"@, 6u8),
        ("SHA"@, r#"\bOpenSSL::Digest\.new\s*\(\s*["'](?P<param>SHA1|SHA256|SHA384|SHA512|MD5)["']"#@, 6u8),
        ("AES"@, r#"(?i)\bOpenSSL::Cipher\.new\s*\(\s*["']aes-?(?P<param>128|192|256)"#@, 6u8),
        ("AES"@, r"\bOpenSSL::Cipher::AES\.new\s*\(\s*(?P<param>128|192|256)"@, 6u8),
        ("JWT"@, r#"\bJWT\.(?:encode|decode)\s*\(.*["'](?P<param>[RPE]S(?:256|384|512)|HS(?:256|384|512)|EdDSA)["']"#@, 6u8),
        ("RSA"@, r#"["']private_key_bits["']\s*=>\s*(?P<param>\d+)"#@, 7u8),
        ("RSA"@, r"\bOPENSSL_KEYTYPE_RSA\b"@, 7u8),
        ("ECDSA"@, r"\bOPENSSL_KEYTYPE_EC\b"@, 7u8),
        ("AES"@, r#"(?i)\bopenssl_encrypt\s*\([^,]*,\s*["']aes-(?P<param>128|192|256)"#@, 7u8),
        ("3DES"@, r#"(?i)\bopenssl_encrypt\s*\([^,]*,\s*["']des-ede3"#@, 7u8),
        (""@, r#"(?i)\bhash(?:_hmac)?\s*\(\s*["'](?P<param>sha1|sha256|sha384|sha512|md5|md4)["']"#@, 7u8),
        ("MD5"@, r"\bmd5\s*\("@, 7u8),
        ("SHA"@, r"\b(?P<param>sha1)\s*\("@, 7u8),
        ("RSA"@, r"\bopenssl_sign\s*\("@, 7u8),
        ("ECDSA"@, r"\b(?P<param>P256|P384|P521)\.Signing\b"@, 8u8),
        ("SHA"@, r"\b(?P<param>SHA1|SHA256|SHA384|SHA512|MD5)\.hash\s*\("@, 8u8),
        ("AES"@, r"\bAES\.GCM\.(?:seal|open)\s*\("@, 8u8),
        ("RSA"@, r"\bkSecAttrKeyTypeRSA\b"@, 8u8),
        (""@, r"\bKeyProperties\.KEY_ALGORITHM_(?P<param>RSA|EC|AES)\b"@, 9u8),
        (""@, r"\bKeyProperties\.DIGEST_(?P<param>SHA1|SHA256|SHA384|SHA512|MD5)\b"@, 9u8),
        ("SHA"@, r#"(?:\bSecretKeySpec\s*\([^)]*|\bMac\.getInstance\s*\(\s*)"Hmac(?P<param>SHA1|SHA256|SHA384|SHA512|MD5)""#@, 9u8),
        ("RSA"@, r"\bRSA\.Create\s*\(\s*(?P<param>\d+)\s*\)"@, 10u8),
        ("RSA"@, r"\bnew\s+(?:RSACryptoServiceProvider|RSACng)\s*\(\s*(?P<param>\d+)\s*\)"@, 10u8),
        ("ECDSA"@, r"\bECCurve\.NamedCurves\.nistP(?P<param>256|384|521)\b"@, 10u8),
        ("ECDSA"@, r"\bnew\s+ECDsaCng\s*\(\s*(?P<param>256|384|521)\s*\)"@, 10u8),
        ("AES"@, r"\b(?:Aes\.Create\s*\(|new\s+Aes(?:Managed|CryptoServiceProvider|Csp)\s*\()"@, 10u8),
        ("3DES"@, r"\b(?:TripleDES\.Create\s*\(|new\s+TripleDESCryptoServiceProvider\s*\()"@, 10u8),
        ("MD5"@, r"\bMD5\.Create\s*\("@, 10u8),
        ("SHA"@, r"\b(?P<param>SHA1|SHA256|SHA384|SHA512)\.Create\s*\("@, 10u8),
        ("SHA"@, r"\bnew\s+HMAC(?P<param>SHA1|SHA256|SHA384|SHA512|MD5)\s*\("@, 10u8),
        (""@, r#"(?i)["']?(?:algorithm|cipher|digest|signature_algo)["']?\s*[:=]\s*["']?(?P<param>RSA-\d+|AES-\d+-\w+|AES-\d+|SHA-?1|SHA-?256|SHA-?384|SHA-?512|MD5|3DES|DES|RC4)["']?"#@, 5u8),
    ]
}

fn source_rule_table() -> (t: Vec<(&'static str, &'static str, u8)>)
    ensures
        rules_view(t@) == source_rules(),
{
    let t: Vec<(&'static str, &'static str, u8)> = vec![
        ("RSA", r"RSA_generate_key(?:_ex)?\s*\([^,)]*,\s*(?P<param>\d+)", 0u8),
        ("AES", r"\bEVP_aes_(?P<param>128|192|256)_", 0u8),
        ("3DES", r"\bEVP_des_ede3\b", 0u8),
        ("DES", r"\bEVP_des_(?:cbc|ecb|cfb|ofb|ctr)\b", 0u8),
        ("RC4", r"\bEVP_rc4\b", 0u8),
        ("SHA", r"\bEVP_sha(?P<param>1|224|256|384|512)\b", 0u8),
        ("MD5", r"\bEVP_md5\b", 0u8),
        ("MD4", r"\bEVP_md4\b", 0u8),
        ("ECDSA", r"\bEC_KEY_new_by_curve_name\s*\(\s*(?P<param>\w+)", 0u8),
        ("RSA", r"\brsa\.generate_private_key\s*\([^)]*key_size\s*=\s*(?P<param>\d+)", 1u8),
        ("ECDSA", r"\bec\.(?P<param>SECP256R1|SECP384R1|SECP521R1|SECP256K1|BrainpoolP256R1)\s*\(", 1u8),
        ("SHA", r"\bhashes\.(?P<param>SHA1|SHA224|SHA256|SHA384|SHA512|MD5)\s*\(", 1u8),
        ("SHA", r"\bhashlib\.(?P<param>sha1|sha224|sha256|sha384|sha512|md5)\s*\(", 1u8),
        ("", r#"\bKeyPairGenerator\.getInstance\s*\(\s*"(?P<param>RSA|EC|DSA|DH)""#, 2u8),
        ("", r#"\bMessageDigest\.getInstance\s*\(\s*"(?P<param>SHA-?1|SHA-?256|SHA-?384|SHA-?512|MD5|MD4)""#, 2u8),
        ("", r#"\bCipher\.getInstance\s*\(\s*"(?P<param>AES|DES(?:ede)?|RC4|RC2|RSA)(?:[^"]*)?""#, 2u8),
        ("", r#"\bKeyGenerator\.getInstance\s*\(\s*"(?P<param>AES|DES(?:ede)?|Blowfish|RC4)""#, 2u8),
        ("RSA", r"\brsa\.GenerateKey\s*\([^,]+,\s*(?P<param>\d+)", 3u8),
        ("ECDSA", r"\becdsa\.GenerateKey\s*\(\s*elliptic\.(?P<param>P256|P384|P521)\s*\(", 3u8),
        ("SHA", r"\b(?P<param>sha1|sha256|sha512|sha3_256|sha3_512)\.New\s*\(", 3u8),
        ("MD5", r"\bmd5\.New\s*\(", 3u8),
        ("AES", r"\baes\.NewCipher\s*\(", 3u8),
        ("3DES", r"\bdes\.NewTripleDESCipher\s*\(", 3u8),
        ("DES", r"\bdes\.NewCipher\s*\([^)]*\)", 3u8),
        ("ring", r"\bring::(?:signature|agreement|hmac|aead|digest)::(?P<param>[A-Z][A-Z0-9_]+)", 4u8),
        ("RSA", r"\bOpenSSL::PKey::RSA\.(?:new|generate)\s*\(\s*(?P<param>\d+)", 6u8),
        ("ECDSA", r#"\bOpenSSL::PKey::EC\.(?:generate|new)\s*\(\s*["'](?P<param>[A-Za-z0-9_\-]+)["']"#, 6u8),
        ("SHA", r"\bOpenSSL::Digest::(?P<param>SHA1|SHA256|SHA384|SHA512|MD5)\b", 6u8),
        ("SHA", r#"\bOpenSSL::Digest\.new\s*\(\s*["'](?P<param>SHA1|SHA256|SHA384|SHA512|MD5)["']"#, 6u8),
        ("AES", r#"(?i)\bOpenSSL::Cipher\.new\s*\(\s*["']aes-?(?P<param>128|192|256)"#, 6u8),
        ("AES", r"\bOpenSSL::Cipher::AES\.new\s*\(\s*(?P<param>128|192|256)", 6u8),
        ("JWT", r#"\bJWT\.(?:encode|decode)\s*\(.*["'](?P<param>[RPE]S(?:256|384|512)|HS(?:256|384|512)|EdDSA)["']"#, 6u8),
        ("RSA", r#"["']private_key_bits["']\s*=>\s*(?P<param>\d+)"#, 7u8),
        ("RSA", r"\bOPENSSL_KEYTYPE_RSA\b", 7u8),
        ("ECDSA", r"\bOPENSSL_KEYTYPE_EC\b", 7u8),
        ("AES", r#"(?i)\bopenssl_encrypt\s*\([^,]*,\s*["']aes-(?P<param>128|192|256)"#, 7u8),
        ("3DES", r#"(?i)\bopenssl_encrypt\s*\([^,]*,\s*["']des-ede3"#, 7u8),
        ("", r#"(?i)\bhash(?:_hmac)?\s*\(\s*["'](?P<param>sha1|sha256|sha384|sha512|md5|md4)["']"#, 7u8),
        ("MD5", r"\bmd5\s*\(", 7u8),
        ("SHA", r"\b(?P<param>sha1)\s*\(", 7u8),
        ("RSA", r"\bopenssl_sign\s*\(", 7u8),
        ("ECDSA", r"\b(?P<param>P256|P384|P521)\.Signing\b", 8u8),
        ("SHA", r"\b(?P<param>SHA1|SHA256|SHA384|SHA512|MD5)\.hash\s*\(", 8u8),
        ("AES", r"\bAES\.GCM\.(?:seal|open)\s*\(", 8u8),
        ("RSA", r"\bkSecAttrKeyTypeRSA\b", 8u8),
        ("", r"\bKeyProperties\.KEY_ALGORITHM_(?P<param>RSA|EC|AES)\b", 9u8),
        ("", r"\bKeyProperties\.DIGEST_(?P<param>SHA1|SHA256|SHA384|SHA512|MD5)\b", 9u8),
        ("SHA", r#"(?:\bSecretKeySpec\s*\([^)]*|\bMac\.getInstance\s*\(\s*)"Hmac(?P<param>SHA1|SHA256|SHA384|SHA512|MD5)""#, 9u8),
        ("RSA", r"\bRSA\.Create\s*\(\s*(?P<param>\d+)\s*\)", 10u8),
        ("RSA", r"\bnew\s+(?:RSACryptoServiceProvider|RSACng)\s*\(\s*(?P<param>\d+)\s*\)", 10u8),
        ("ECDSA", r"\bECCurve\.NamedCurves\.nistP(?P<param>256|384|521)\b", 10u8),
        ("ECDSA", r"\bnew\s+ECDsaCng\s*\(\s*(?P<param>256|384|521)\s*\)", 10u8),
        ("AES", r"\b(?:Aes\.Create\s*\(|new\s+Aes(?:Managed|CryptoServiceProvider|Csp)\s*\()", 10u8),
        ("3DES", r"\b(?:TripleDES\.Create\s*\(|new\s+TripleDESCryptoServiceProvider\s*\()", 10u8),
        ("MD5", r"\bMD5\.Create\s*\(", 10u8),
        ("SHA", r"\b(?P<param>SHA1|SHA256|SHA384|SHA512)\.Create\s*\(", 10u8),
        ("SHA", r"\bnew\s+HMAC(?P<param>SHA1|SHA256|SHA384|SHA512|MD5)\s*\(", 10u8),
        ("", r#"(?i)["']?(?:algorithm|cipher|digest|signature_algo)["']?\s*[:=]\s*["']?(?P<param>RSA-\d+|AES-\d+-\w+|AES-\d+|SHA-?1|SHA-?256|SHA-?384|SHA-?512|MD5|3DES|DES|RC4)["']?"#, 5u8),
    ];
    assert(rules_view(t@) =~= source_rules());
    t
}

/// The file extensions of each extension group (the last group: every file).
pub open spec fn ext_group(g: u8) -> Seq<Seq<char>> {
    if g == 0 {
        seq!["c"@, "cpp"@, "cc"@, "cxx"@, "h"@, "hpp"@, "hxx"@]
    } else if g == 1 {
        seq!["py"@, "pyw"@]
    } else if g == 2 {
        seq!["java"@, "kt"@, "kts"@]
    } else if g == 3 {
        seq!["go"@]
    } else if g == 4 {
        seq!["rs"@]
    } else if g == 6 {
        seq!["rb"@]
    } else if g == 7 {
        seq!["php"@]
    } else if g == 8 {
        seq!["swift"@]
    } else if g == 9 {
        seq!["kt"@, "kts"@]
    } else if g == 10 {
        seq!["cs"@]
    } else {
        seq![]
    }
}

/// A rule of extension group `g` applies to files with extension `ext`.
pub open spec fn applies(g: u8, ext: Seq<char>) -> bool {
    ext_group(g).len() == 0 || ext_group(g).contains(ext)
}

pub open spec fn is_one_of(u: Seq<char>, opts: Seq<Seq<char>>) -> bool {
    opts.contains(u)
}

/// SHA family names (`EVP_sha256`, `hashes.SHA1`, `sha256.New`).
pub open spec fn normalize_sha(s: Seq<char>) -> Seq<char> {
    let u = unicode_upper(s);
    if is_one_of(u, seq!["1"@, "SHA1"@, "SHA-1"@]) {
        "SHA-1"@
    } else if is_one_of(u, seq!["224"@, "SHA224"@, "SHA-224"@]) {
        "SHA-224"@
    } else if is_one_of(u, seq!["256"@, "SHA256"@, "SHA-256"@, "SHA2"@, "SHA2_256"@]) {
        "SHA-256"@
    } else if is_one_of(u, seq!["384"@, "SHA384"@, "SHA-384"@]) {
        "SHA-384"@
    } else if is_one_of(u, seq!["512"@, "SHA512"@, "SHA-512"@, "SHA2_512"@]) {
        "SHA-512"@
    } else if is_one_of(u, seq!["3_256"@, "SHA3_256"@, "SHA3-256"@]) {
        "SHA3-256"@
    } else if is_one_of(u, seq!["3_512"@, "SHA3_512"@, "SHA3-512"@]) {
        "SHA3-512"@
    } else if is_one_of(u, seq!["MD5"@]) {
        "MD5"@
    } else {
        "SHA-"@ + s
    }
}

/// EC curve names.
pub open spec fn normalize_ec_curve(s: Seq<char>) -> Seq<char> {
    let u = unicode_upper(s);
    if is_one_of(u, seq!["SECP256R1"@, "P256"@, "P_256"@, "PRIME256V1"@, "NID_X9_62_PRIME256V1"@]) {
        "P-256"@
    } else if is_one_of(u, seq!["SECP384R1"@, "P384"@, "P_384"@]) {
        "P-384"@
    } else if is_one_of(u, seq!["SECP521R1"@, "P521"@, "P_521"@]) {
        "P-521"@
    } else if is_one_of(u, seq!["SECP256K1"@, "NID_SECP256K1"@]) {
        "secp256k1"@
    } else if u == "256"@ {
        "P-256"@
    } else if u == "384"@ {
        "P-384"@
    } else if u == "521"@ {
        "P-521"@
    } else {
        s
    }
}

/// `ring` constant names (`ECDSA_P256_SHA256_ASN1`, `X25519`, ...); empty
/// when the constant names none of these algorithms.
pub open spec fn normalize_ring_const(s: Seq<char>) -> Seq<char> {
    let u = unicode_upper(s);
    if has_infix(u, "ECDSA_P256"@) {
        "ECDSA-P-256"@
    } else if has_infix(u, "ECDSA_P384"@) {
        "ECDSA-P-384"@
    } else if has_infix(u, "ECDH_P256"@) || has_infix(u, "X25519_ECDH_P256"@) {
        "ECDH-P-256"@
    } else if has_infix(u, "ECDH_P384"@) {
        "ECDH-P-384"@
    } else if has_infix(u, "X25519"@) {
        "X25519"@
    } else if has_infix(u, "ED25519"@) {
        "Ed25519"@
    } else if has_infix(u, "RSA"@) {
        "RSA"@
    } else if has_infix(u, "SHA256"@) || has_infix(u, "SHA_256"@) {
        "SHA-256"@
    } else if has_infix(u, "SHA384"@) || has_infix(u, "SHA_384"@) {
        "SHA-384"@
    } else if has_infix(u, "SHA512"@) || has_infix(u, "SHA_512"@) {
        "SHA-512"@
    } else {
        seq![]
    }
}

/// Names captured whole (Java JCA and generic key-value rules).
pub open spec fn normalize_generic(s: Seq<char>) -> Seq<char> {
    let t = trim(unicode_upper(s));
    if t == "RSA"@ {
        "RSA"@
    } else if t == "EC"@ {
        "ECDSA"@
    } else if t == "DSA"@ {
        "DSA"@
    } else if t == "DH"@ {
        "DH-2048"@
    } else if t == "AES"@ {
        "AES"@
    } else if t == "DES"@ {
        "DES"@
    } else if is_one_of(t, seq!["DESEDE"@, "3DES"@, "DESEDE3"@]) {
        "3DES"@
    } else if t == "RC4"@ {
        "RC4"@
    } else if t == "RC2"@ {
        "RC2"@
    } else if is_one_of(t, seq!["SHA-1"@, "SHA1"@]) {
        "SHA-1"@
    } else if is_one_of(t, seq!["SHA-256"@, "SHA256"@]) {
        "SHA-256"@
    } else if is_one_of(t, seq!["SHA-384"@, "SHA384"@]) {
        "SHA-384"@
    } else if is_one_of(t, seq!["SHA-512"@, "SHA512"@]) {
        "SHA-512"@
    } else if t == "MD5"@ {
        "MD5"@
    } else if t == "MD4"@ {
        "MD4"@
    } else {
        t
    }
}

/// The canonical name for a rule's algorithm family and captured parameter.
pub open spec fn build_name_spec(base: Seq<char>, param: Option<Seq<char>>) -> Seq<char> {
    if base == ""@ {
        match param {
            Some(p) => normalize_generic(p),
            None => seq![],
        }
    } else if base == "SHA"@ && param is Some {
        normalize_sha(param.unwrap())
    } else if base == "ECDSA"@ {
        match param {
            Some(p) => "ECDSA-"@ + normalize_ec_curve(p),
            None => "ECDSA"@,
        }
    } else if base == "RSA"@ || base == "DSA"@ || base == "AES"@ {
        match param {
            Some(p) => base + "-"@ + p,
            None => base,
        }
    } else if base == "ring"@ {
        match param {
            Some(p) => normalize_ring_const(p),
            None => seq![],
        }
    } else if base == "JWT"@ {
        match param {
            Some(p) => match value_algorithm(p) {
                Some(c) => c,
                None => seq![],
            },
            None => seq![],
        }
    } else {
        base
    }
}

/// The captures of a rule's pattern in a line (none when it does not compile).
pub open spec fn rule_caps(pattern: Seq<char>, line: Seq<char>) -> Seq<CaptureView> {
    match regex_captures_of(pattern, "param"@, line) {
        Some(v) => v,
        None => seq![],
    }
}

/// The column of a match: its start offset plus one.
pub open spec fn column_of(start: Option<usize>) -> Option<u32> {
    match start {
        Some(s) => Some((s + 1) as u32),
        None => None,
    }
}

/// The findings of one rule's captures on line `ln`: empty and `Unknown`
/// names are passed over.
pub open spec fn cap_cands(base: Seq<char>, caps: Seq<CaptureView>, ln: u32) -> Seq<CandView>
    decreases caps.len(),
{
    if caps.len() == 0 {
        seq![]
    } else {
        let name = build_name_spec(base, caps.last().1);
        if name.len() == 0 || name == "Unknown"@ {
            cap_cands(base, caps.drop_last(), ln)
        } else {
            cap_cands(base, caps.drop_last(), ln).push((name, ln, column_of(caps.last().0)))
        }
    }
}

/// The findings of the rules on one line, rule by rule.
pub open spec fn line_cands(
    rules: Seq<(Seq<char>, Seq<char>, u8)>,
    ext: Seq<char>,
    line: Seq<char>,
    ln: u32,
) -> Seq<CandView>
    decreases rules.len(),
{
    if rules.len() == 0 {
        seq![]
    } else {
        let r = rules.last();
        line_cands(rules.drop_last(), ext, line, ln) + if applies(r.2, ext) {
            cap_cands(r.0, rule_caps(r.1, line), ln)
        } else {
            seq![]
        }
    }
}

/// The findings of every line, in order (line numbers from 1).
pub open spec fn source_cands(ls: Seq<Seq<char>>, ext: Seq<char>) -> Seq<CandView>
    decreases ls.len(),
{
    if ls.len() == 0 {
        seq![]
    } else {
        source_cands(ls.drop_last(), ext) + line_cands(
            source_rules(),
            ext,
            ls.last(),
            ls.len() as u32,
        )
    }
}

/// The assets found in source text with the given extension, at `source`.
pub open spec fn source_text_assets(text: Seq<char>, ext: Seq<char>, source: Seq<char>) -> Seq<
    crate::model::AssetView,
> {
    finding_assets(dedup_by_line(source_cands(lines(text), ext)), source, Evidence::SourceCodePattern)
}

// ── Normalization ─────────────────────────────────────────────────────────────

fn is_lit(u: &[char], lit: &str) -> (b: bool)
    ensures
        b == (u@ == lit@),
{
    chars_eq(u, &chars_of(lit))
}

fn has_lit(u: &[char], lit: &str) -> (b: bool)
    ensures
        b == has_infix(u@, lit@),
{
    contains(u, &chars_of(lit))
}

proof fn lemma_one_of2(u: Seq<char>, a: Seq<char>, b: Seq<char>)
    ensures
        is_one_of(u, seq![a, b]) == (u == a || u == b),
{
    if u == a {
        assert(seq![a, b][0] == u);
    }
    if u == b {
        assert(seq![a, b][1] == u);
    }
}

proof fn lemma_one_of3(u: Seq<char>, a: Seq<char>, b: Seq<char>, c: Seq<char>)
    ensures
        is_one_of(u, seq![a, b, c]) == (u == a || u == b || u == c),
{
    if u == a {
        assert(seq![a, b, c][0] == u);
    }
    if u == b {
        assert(seq![a, b, c][1] == u);
    }
    if u == c {
        assert(seq![a, b, c][2] == u);
    }
}

proof fn lemma_one_of4(u: Seq<char>, a: Seq<char>, b: Seq<char>, c: Seq<char>, d: Seq<char>)
    ensures
        is_one_of(u, seq![a, b, c, d]) == (u == a || u == b || u == c || u == d),
{
    let s = seq![a, b, c, d];
    if u == a {
        assert(s[0] == u);
    }
    if u == b {
        assert(s[1] == u);
    }
    if u == c {
        assert(s[2] == u);
    }
    if u == d {
        assert(s[3] == u);
    }
}

proof fn lemma_one_of5(u: Seq<char>, a: Seq<char>, b: Seq<char>, c: Seq<char>, d: Seq<char>, e: Seq<char>)
    ensures
        is_one_of(u, seq![a, b, c, d, e]) == (u == a || u == b || u == c || u == d || u == e),
{
    let s = seq![a, b, c, d, e];
    if u == a {
        assert(s[0] == u);
    }
    if u == b {
        assert(s[1] == u);
    }
    if u == c {
        assert(s[2] == u);
    }
    if u == d {
        assert(s[3] == u);
    }
    if u == e {
        assert(s[4] == u);
    }
}

proof fn lemma_one_of1(u: Seq<char>, a: Seq<char>)
    ensures
        is_one_of(u, seq![a]) == (u == a),
{
    if u == a {
        assert(seq![a][0] == u);
    }
}

/// SHA family names (see [`normalize_sha`]).
pub fn normalize_sha_exec(s: &str) -> (r: String)
    ensures
        r@ == normalize_sha(s@),
{
    let u = to_upper(&chars_of(s));
    proof {
        lemma_one_of3(u@, "1"@, "SHA1"@, "SHA-1"@);
        lemma_one_of3(u@, "224"@, "SHA224"@, "SHA-224"@);
        lemma_one_of5(u@, "256"@, "SHA256"@, "SHA-256"@, "SHA2"@, "SHA2_256"@);
        lemma_one_of3(u@, "384"@, "SHA384"@, "SHA-384"@);
        lemma_one_of4(u@, "512"@, "SHA512"@, "SHA-512"@, "SHA2_512"@);
        lemma_one_of3(u@, "3_256"@, "SHA3_256"@, "SHA3-256"@);
        lemma_one_of3(u@, "3_512"@, "SHA3_512"@, "SHA3-512"@);
        lemma_one_of1(u@, "MD5"@);
    }
    if is_lit(&u, "1") || is_lit(&u, "SHA1") || is_lit(&u, "SHA-1") {
        "SHA-1".to_owned()
    } else if is_lit(&u, "224") || is_lit(&u, "SHA224") || is_lit(&u, "SHA-224") {
        "SHA-224".to_owned()
    } else if is_lit(&u, "256") || is_lit(&u, "SHA256") || is_lit(&u, "SHA-256") || is_lit(&u, "SHA2")
        || is_lit(&u, "SHA2_256") {
        "SHA-256".to_owned()
    } else if is_lit(&u, "384") || is_lit(&u, "SHA384") || is_lit(&u, "SHA-384") {
        "SHA-384".to_owned()
    } else if is_lit(&u, "512") || is_lit(&u, "SHA512") || is_lit(&u, "SHA-512") || is_lit(
        &u,
        "SHA2_512",
    ) {
        "SHA-512".to_owned()
    } else if is_lit(&u, "3_256") || is_lit(&u, "SHA3_256") || is_lit(&u, "SHA3-256") {
        "SHA3-256".to_owned()
    } else if is_lit(&u, "3_512") || is_lit(&u, "SHA3_512") || is_lit(&u, "SHA3-512") {
        "SHA3-512".to_owned()
    } else if is_lit(&u, "MD5") {
        "MD5".to_owned()
    } else {
        let mut r = "SHA-".to_owned();
        r.append(s);
        r
    }
}

/// EC curve names (see [`normalize_ec_curve`]).
pub fn normalize_ec_curve_exec(s: &str) -> (r: String)
    ensures
        r@ == normalize_ec_curve(s@),
{
    let u = to_upper(&chars_of(s));
    proof {
        lemma_one_of5(u@, "SECP256R1"@, "P256"@, "P_256"@, "PRIME256V1"@, "NID_X9_62_PRIME256V1"@);
        lemma_one_of3(u@, "SECP384R1"@, "P384"@, "P_384"@);
        lemma_one_of3(u@, "SECP521R1"@, "P521"@, "P_521"@);
        lemma_one_of2(u@, "SECP256K1"@, "NID_SECP256K1"@);
    }
    if is_lit(&u, "SECP256R1") || is_lit(&u, "P256") || is_lit(&u, "P_256") || is_lit(&u, "PRIME256V1")
        || is_lit(&u, "NID_X9_62_PRIME256V1") {
        "P-256".to_owned()
    } else if is_lit(&u, "SECP384R1") || is_lit(&u, "P384") || is_lit(&u, "P_384") {
        "P-384".to_owned()
    } else if is_lit(&u, "SECP521R1") || is_lit(&u, "P521") || is_lit(&u, "P_521") {
        "P-521".to_owned()
    } else if is_lit(&u, "SECP256K1") || is_lit(&u, "NID_SECP256K1") {
        "secp256k1".to_owned()
    } else if is_lit(&u, "256") {
        "P-256".to_owned()
    } else if is_lit(&u, "384") {
        "P-384".to_owned()
    } else if is_lit(&u, "521") {
        "P-521".to_owned()
    } else {
        s.to_owned()
    }
}

/// `ring` constant names (see [`normalize_ring_const`]).
pub fn normalize_ring_const_exec(s: &str) -> (r: String)
    ensures
        r@ == normalize_ring_const(s@),
{
    let u = to_upper(&chars_of(s));
    if has_lit(&u, "ECDSA_P256") {
        "ECDSA-P-256".to_owned()
    } else if has_lit(&u, "ECDSA_P384") {
        "ECDSA-P-384".to_owned()
    } else if has_lit(&u, "ECDH_P256") || has_lit(&u, "X25519_ECDH_P256") {
        "ECDH-P-256".to_owned()
    } else if has_lit(&u, "ECDH_P384") {
        "ECDH-P-384".to_owned()
    } else if has_lit(&u, "X25519") {
        "X25519".to_owned()
    } else if has_lit(&u, "ED25519") {
        "Ed25519".to_owned()
    } else if has_lit(&u, "RSA") {
        "RSA".to_owned()
    } else if has_lit(&u, "SHA256") || has_lit(&u, "SHA_256") {
        "SHA-256".to_owned()
    } else if has_lit(&u, "SHA384") || has_lit(&u, "SHA_384") {
        "SHA-384".to_owned()
    } else if has_lit(&u, "SHA512") || has_lit(&u, "SHA_512") {
        "SHA-512".to_owned()
    } else {
        String::new()
    }
}

/// Whole-name captures (see [`normalize_generic`]).
pub fn normalize_generic_exec(s: &str) -> (r: String)
    ensures
        r@ == normalize_generic(s@),
{
    let t = trimmed(&to_upper(&chars_of(s)));
    proof {
        lemma_one_of3(t@, "DESEDE"@, "3DES"@, "DESEDE3"@);
        lemma_one_of2(t@, "SHA-1"@, "SHA1"@);
        lemma_one_of2(t@, "SHA-256"@, "SHA256"@);
        lemma_one_of2(t@, "SHA-384"@, "SHA384"@);
        lemma_one_of2(t@, "SHA-512"@, "SHA512"@);
    }
    if is_lit(&t, "RSA") {
        "RSA".to_owned()
    } else if is_lit(&t, "EC") {
        "ECDSA".to_owned()
    } else if is_lit(&t, "DSA") {
        "DSA".to_owned()
    } else if is_lit(&t, "DH") {
        "DH-2048".to_owned()
    } else if is_lit(&t, "AES") {
        "AES".to_owned()
    } else if is_lit(&t, "DES") {
        "DES".to_owned()
    } else if is_lit(&t, "DESEDE") || is_lit(&t, "3DES") || is_lit(&t, "DESEDE3") {
        "3DES".to_owned()
    } else if is_lit(&t, "RC4") {
        "RC4".to_owned()
    } else if is_lit(&t, "RC2") {
        "RC2".to_owned()
    } else if is_lit(&t, "SHA-1") || is_lit(&t, "SHA1") {
        "SHA-1".to_owned()
    } else if is_lit(&t, "SHA-256") || is_lit(&t, "SHA256") {
        "SHA-256".to_owned()
    } else if is_lit(&t, "SHA-384") || is_lit(&t, "SHA384") {
        "SHA-384".to_owned()
    } else if is_lit(&t, "SHA-512") || is_lit(&t, "SHA512") {
        "SHA-512".to_owned()
    } else if is_lit(&t, "MD5") {
        "MD5".to_owned()
    } else if is_lit(&t, "MD4") {
        "MD4".to_owned()
    } else {
        string_of(&t)
    }
}

/// The canonical name for a rule's algorithm family and captured parameter
/// (see [`build_name_spec`]).
pub fn build_name(base: &str, param: &Option<String>) -> (r: String)
    ensures
        r@ == build_name_spec(base@, match param {
            Some(p) => Some(p@),
            None => None,
        }),
{
    let b = chars_of(base);
    if b.len() == 0 {
        assert(base@ =~= ""@) by {
            reveal_strlit("");
        }
        match param {
            Some(p) => normalize_generic_exec(p.as_str()),
            None => String::new(),
        }
    } else {
        proof {
            reveal_strlit("");
            assert(base@ != ""@) by {
                assert(base@.len() > 0);
            }
        }
        if is_lit(&b, "SHA") && param.is_some() {
            match param {
                Some(p) => normalize_sha_exec(p.as_str()),
                None => String::new(),
            }
        } else if is_lit(&b, "ECDSA") {
            match param {
                Some(p) => {
                    let mut r = "ECDSA-".to_owned();
                    r.append(normalize_ec_curve_exec(p.as_str()).as_str());
                    r
                },
                None => "ECDSA".to_owned(),
            }
        } else if is_lit(&b, "RSA") || is_lit(&b, "DSA") || is_lit(&b, "AES") {
            match param {
                Some(p) => {
                    let mut r = base.to_owned();
                    r.append("-");
                    r.append(p.as_str());
                    r
                },
                None => base.to_owned(),
            }
        } else if is_lit(&b, "ring") {
            match param {
                Some(p) => normalize_ring_const_exec(p.as_str()),
                None => String::new(),
            }
        } else if is_lit(&b, "JWT") {
            match param {
                Some(p) => match value_to_canonical(p.as_str()) {
                    Some(c) => c.to_owned(),
                    None => String::new(),
                },
                None => String::new(),
            }
        } else {
            base.to_owned()
        }
    }
}

// ── Laws of the names the source scanner reports ──────────────────────────────

/// A SHA parameter names the SHA algorithm the scanner reports.
proof fn lemma_sha_base(p: Seq<char>)
    ensures
        build_name_spec("SHA"@, Some(p)) == normalize_sha(p),
{
    reveal_strlit("SHA");
    reveal_strlit("");
    assert("SHA"@.len() == 3);
}

proof fn lemma_sha_group_0(p: Seq<char>)
    requires
        unicode_upper(p) == "1"@ || unicode_upper(p) == "SHA1"@ || unicode_upper(p) == "SHA-1"@,
    ensures
        normalize_sha(p) == "SHA-1"@,
{
    reveal_strlit("1");
    reveal_strlit("SHA1");
    reveal_strlit("SHA-1");
    reveal_strlit("SHA-1");
    lemma_one_of3(unicode_upper(p), "1"@, "SHA1"@, "SHA-1"@);
}

proof fn lemma_sha_group_1(p: Seq<char>)
    requires
        unicode_upper(p) == "224"@ || unicode_upper(p) == "SHA224"@ || unicode_upper(p) == "SHA-224"@,
    ensures
        normalize_sha(p) == "SHA-224"@,
{
    reveal_strlit("1");
    reveal_strlit("SHA1");
    reveal_strlit("SHA-1");
    reveal_strlit("224");
    reveal_strlit("SHA224");
    reveal_strlit("SHA-224");
    reveal_strlit("SHA-224");
    lemma_one_of3(unicode_upper(p), "1"@, "SHA1"@, "SHA-1"@);
    lemma_one_of3(unicode_upper(p), "224"@, "SHA224"@, "SHA-224"@);
    assert("224"@.len() != "1"@.len());
    assert("224"@.len() != "SHA1"@.len());
    assert("224"@.len() != "SHA-1"@.len());
    assert("SHA224"@.len() != "1"@.len());
    assert("SHA224"@.len() != "SHA1"@.len());
    assert("SHA224"@.len() != "SHA-1"@.len());
    assert("SHA-224"@.len() != "1"@.len());
    assert("SHA-224"@.len() != "SHA1"@.len());
    assert("SHA-224"@.len() != "SHA-1"@.len());
}

proof fn lemma_sha_group_2(p: Seq<char>)
    requires
        unicode_upper(p) == "256"@ || unicode_upper(p) == "SHA256"@ || unicode_upper(p) == "SHA-256"@ || unicode_upper(p) == "SHA2"@ || unicode_upper(p) == "SHA2_256"@,
    ensures
        normalize_sha(p) == "SHA-256"@,
{
    reveal_strlit("1");
    reveal_strlit("SHA1");
    reveal_strlit("SHA-1");
    reveal_strlit("224");
    reveal_strlit("SHA224");
    reveal_strlit("SHA-224");
    reveal_strlit("256");
    reveal_strlit("SHA256");
    reveal_strlit("SHA-256");
    reveal_strlit("SHA2");
    reveal_strlit("SHA2_256");
    reveal_strlit("SHA-256");
    lemma_one_of3(unicode_upper(p), "1"@, "SHA1"@, "SHA-1"@);
    lemma_one_of3(unicode_upper(p), "224"@, "SHA224"@, "SHA-224"@);
    lemma_one_of5(unicode_upper(p), "256"@, "SHA256"@, "SHA-256"@, "SHA2"@, "SHA2_256"@);
    assert("256"@.len() != "1"@.len());
    assert("256"@.len() != "SHA1"@.len());
    assert("256"@.len() != "SHA-1"@.len());
    assert("256"@[1] != "224"@[1]);
    assert("256"@.len() != "SHA224"@.len());
    assert("256"@.len() != "SHA-224"@.len());
    assert("SHA256"@.len() != "1"@.len());
    assert("SHA256"@.len() != "SHA1"@.len());
    assert("SHA256"@.len() != "SHA-1"@.len());
    assert("SHA256"@.len() != "224"@.len());
    assert("SHA256"@[4] != "SHA224"@[4]);
    assert("SHA256"@.len() != "SHA-224"@.len());
    assert("SHA-256"@.len() != "1"@.len());
    assert("SHA-256"@.len() != "SHA1"@.len());
    assert("SHA-256"@.len() != "SHA-1"@.len());
    assert("SHA-256"@.len() != "224"@.len());
    assert("SHA-256"@.len() != "SHA224"@.len());
    assert("SHA-256"@[5] != "SHA-224"@[5]);
    assert("SHA2"@.len() != "1"@.len());
    assert("SHA2"@[3] != "SHA1"@[3]);
    assert("SHA2"@.len() != "SHA-1"@.len());
    assert("SHA2"@.len() != "224"@.len());
    assert("SHA2"@.len() != "SHA224"@.len());
    assert("SHA2"@.len() != "SHA-224"@.len());
    assert("SHA2_256"@.len() != "1"@.len());
    assert("SHA2_256"@.len() != "SHA1"@.len());
    assert("SHA2_256"@.len() != "SHA-1"@.len());
    assert("SHA2_256"@.len() != "224"@.len());
    assert("SHA2_256"@.len() != "SHA224"@.len());
    assert("SHA2_256"@.len() != "SHA-224"@.len());
}

proof fn lemma_sha_group_3(p: Seq<char>)
    requires
        unicode_upper(p) == "384"@ || unicode_upper(p) == "SHA384"@ || unicode_upper(p) == "SHA-384"@,
    ensures
        normalize_sha(p) == "SHA-384"@,
{
    reveal_strlit("1");
    reveal_strlit("SHA1");
    reveal_strlit("SHA-1");
    reveal_strlit("224");
    reveal_strlit("SHA224");
    reveal_strlit("SHA-224");
    reveal_strlit("256");
    reveal_strlit("SHA256");
    reveal_strlit("SHA-256");
    reveal_strlit("SHA2");
    reveal_strlit("SHA2_256");
    reveal_strlit("384");
    reveal_strlit("SHA384");
    reveal_strlit("SHA-384");
    reveal_strlit("SHA-384");
    lemma_one_of3(unicode_upper(p), "1"@, "SHA1"@, "SHA-1"@);
    lemma_one_of3(unicode_upper(p), "224"@, "SHA224"@, "SHA-224"@);
    lemma_one_of5(unicode_upper(p), "256"@, "SHA256"@, "SHA-256"@, "SHA2"@, "SHA2_256"@);
    lemma_one_of3(unicode_upper(p), "384"@, "SHA384"@, "SHA-384"@);
    assert("384"@.len() != "1"@.len());
    assert("384"@.len() != "SHA1"@.len());
    assert("384"@.len() != "SHA-1"@.len());
    assert("384"@[0] != "224"@[0]);
    assert("384"@.len() != "SHA224"@.len());
    assert("384"@.len() != "SHA-224"@.len());
    assert("384"@[0] != "256"@[0]);
    assert("384"@.len() != "SHA256"@.len());
    assert("384"@.len() != "SHA-256"@.len());
    assert("384"@.len() != "SHA2"@.len());
    assert("384"@.len() != "SHA2_256"@.len());
    assert("SHA384"@.len() != "1"@.len());
    assert("SHA384"@.len() != "SHA1"@.len());
    assert("SHA384"@.len() != "SHA-1"@.len());
    assert("SHA384"@.len() != "224"@.len());
    assert("SHA384"@[3] != "SHA224"@[3]);
    assert("SHA384"@.len() != "SHA-224"@.len());
    assert("SHA384"@.len() != "256"@.len());
    assert("SHA384"@[3] != "SHA256"@[3]);
    assert("SHA384"@.len() != "SHA-256"@.len());
    assert("SHA384"@.len() != "SHA2"@.len());
    assert("SHA384"@.len() != "SHA2_256"@.len());
    assert("SHA-384"@.len() != "1"@.len());
    assert("SHA-384"@.len() != "SHA1"@.len());
    assert("SHA-384"@.len() != "SHA-1"@.len());
    assert("SHA-384"@.len() != "224"@.len());
    assert("SHA-384"@.len() != "SHA224"@.len());
    assert("SHA-384"@[4] != "SHA-224"@[4]);
    assert("SHA-384"@.len() != "256"@.len());
    assert("SHA-384"@.len() != "SHA256"@.len());
    assert("SHA-384"@[4] != "SHA-256"@[4]);
    assert("SHA-384"@.len() != "SHA2"@.len());
    assert("SHA-384"@.len() != "SHA2_256"@.len());
}

proof fn lemma_sha_group_4(p: Seq<char>)
    requires
        unicode_upper(p) == "512"@ || unicode_upper(p) == "SHA512"@ || unicode_upper(p) == "SHA-512"@ || unicode_upper(p) == "SHA2_512"@,
    ensures
        normalize_sha(p) == "SHA-512"@,
{
    reveal_strlit("1");
    reveal_strlit("SHA1");
    reveal_strlit("SHA-1");
    reveal_strlit("224");
    reveal_strlit("SHA224");
    reveal_strlit("SHA-224");
    reveal_strlit("256");
    reveal_strlit("SHA256");
    reveal_strlit("SHA-256");
    reveal_strlit("SHA2");
    reveal_strlit("SHA2_256");
    reveal_strlit("384");
    reveal_strlit("SHA384");
    reveal_strlit("SHA-384");
    reveal_strlit("512");
    reveal_strlit("SHA512");
    reveal_strlit("SHA-512");
    reveal_strlit("SHA2_512");
    reveal_strlit("SHA-512");
    lemma_one_of3(unicode_upper(p), "1"@, "SHA1"@, "SHA-1"@);
    lemma_one_of3(unicode_upper(p), "224"@, "SHA224"@, "SHA-224"@);
    lemma_one_of5(unicode_upper(p), "256"@, "SHA256"@, "SHA-256"@, "SHA2"@, "SHA2_256"@);
    lemma_one_of3(unicode_upper(p), "384"@, "SHA384"@, "SHA-384"@);
    lemma_one_of4(unicode_upper(p), "512"@, "SHA512"@, "SHA-512"@, "SHA2_512"@);
    assert("512"@.len() != "1"@.len());
    assert("512"@.len() != "SHA1"@.len());
    assert("512"@.len() != "SHA-1"@.len());
    assert("512"@[0] != "224"@[0]);
    assert("512"@.len() != "SHA224"@.len());
    assert("512"@.len() != "SHA-224"@.len());
    assert("512"@[0] != "256"@[0]);
    assert("512"@.len() != "SHA256"@.len());
    assert("512"@.len() != "SHA-256"@.len());
    assert("512"@.len() != "SHA2"@.len());
    assert("512"@.len() != "SHA2_256"@.len());
    assert("512"@[0] != "384"@[0]);
    assert("512"@.len() != "SHA384"@.len());
    assert("512"@.len() != "SHA-384"@.len());
    assert("SHA512"@.len() != "1"@.len());
    assert("SHA512"@.len() != "SHA1"@.len());
    assert("SHA512"@.len() != "SHA-1"@.len());
    assert("SHA512"@.len() != "224"@.len());
    assert("SHA512"@[3] != "SHA224"@[3]);
    assert("SHA512"@.len() != "SHA-224"@.len());
    assert("SHA512"@.len() != "256"@.len());
    assert("SHA512"@[3] != "SHA256"@[3]);
    assert("SHA512"@.len() != "SHA-256"@.len());
    assert("SHA512"@.len() != "SHA2"@.len());
    assert("SHA512"@.len() != "SHA2_256"@.len());
    assert("SHA512"@.len() != "384"@.len());
    assert("SHA512"@[3] != "SHA384"@[3]);
    assert("SHA512"@.len() != "SHA-384"@.len());
    assert("SHA-512"@.len() != "1"@.len());
    assert("SHA-512"@.len() != "SHA1"@.len());
    assert("SHA-512"@.len() != "SHA-1"@.len());
    assert("SHA-512"@.len() != "224"@.len());
    assert("SHA-512"@.len() != "SHA224"@.len());
    assert("SHA-512"@[4] != "SHA-224"@[4]);
    assert("SHA-512"@.len() != "256"@.len());
    assert("SHA-512"@.len() != "SHA256"@.len());
    assert("SHA-512"@[4] != "SHA-256"@[4]);
    assert("SHA-512"@.len() != "SHA2"@.len());
    assert("SHA-512"@.len() != "SHA2_256"@.len());
    assert("SHA-512"@.len() != "384"@.len());
    assert("SHA-512"@.len() != "SHA384"@.len());
    assert("SHA-512"@[4] != "SHA-384"@[4]);
    assert("SHA2_512"@.len() != "1"@.len());
    assert("SHA2_512"@.len() != "SHA1"@.len());
    assert("SHA2_512"@.len() != "SHA-1"@.len());
    assert("SHA2_512"@.len() != "224"@.len());
    assert("SHA2_512"@.len() != "SHA224"@.len());
    assert("SHA2_512"@.len() != "SHA-224"@.len());
    assert("SHA2_512"@.len() != "256"@.len());
    assert("SHA2_512"@.len() != "SHA256"@.len());
    assert("SHA2_512"@.len() != "SHA-256"@.len());
    assert("SHA2_512"@.len() != "SHA2"@.len());
    assert("SHA2_512"@[5] != "SHA2_256"@[5]);
    assert("SHA2_512"@.len() != "384"@.len());
    assert("SHA2_512"@.len() != "SHA384"@.len());
    assert("SHA2_512"@.len() != "SHA-384"@.len());
}

proof fn lemma_sha_group_5(p: Seq<char>)
    requires
        unicode_upper(p) == "3_256"@ || unicode_upper(p) == "SHA3_256"@ || unicode_upper(p) == "SHA3-256"@,
    ensures
        normalize_sha(p) == "SHA3-256"@,
{
    reveal_strlit("1");
    reveal_strlit("SHA1");
    reveal_strlit("SHA-1");
    reveal_strlit("224");
    reveal_strlit("SHA224");
    reveal_strlit("SHA-224");
    reveal_strlit("256");
    reveal_strlit("SHA256");
    reveal_strlit("SHA-256");
    reveal_strlit("SHA2");
    reveal_strlit("SHA2_256");
    reveal_strlit("384");
    reveal_strlit("SHA384");
    reveal_strlit("SHA-384");
    reveal_strlit("512");
    reveal_strlit("SHA512");
    reveal_strlit("SHA-512");
    reveal_strlit("SHA2_512");
    reveal_strlit("3_256");
    reveal_strlit("SHA3_256");
    reveal_strlit("SHA3-256");
    reveal_strlit("SHA3-256");
    lemma_one_of3(unicode_upper(p), "1"@, "SHA1"@, "SHA-1"@);
    lemma_one_of3(unicode_upper(p), "224"@, "SHA224"@, "SHA-224"@);
    lemma_one_of5(unicode_upper(p), "256"@, "SHA256"@, "SHA-256"@, "SHA2"@, "SHA2_256"@);
    lemma_one_of3(unicode_upper(p), "384"@, "SHA384"@, "SHA-384"@);
    lemma_one_of4(unicode_upper(p), "512"@, "SHA512"@, "SHA-512"@, "SHA2_512"@);
    lemma_one_of3(unicode_upper(p), "3_256"@, "SHA3_256"@, "SHA3-256"@);
    assert("3_256"@.len() != "1"@.len());
    assert("3_256"@.len() != "SHA1"@.len());
    assert("3_256"@[0] != "SHA-1"@[0]);
    assert("3_256"@.len() != "224"@.len());
    assert("3_256"@.len() != "SHA224"@.len());
    assert("3_256"@.len() != "SHA-224"@.len());
    assert("3_256"@.len() != "256"@.len());
    assert("3_256"@.len() != "SHA256"@.len());
    assert("3_256"@.len() != "SHA-256"@.len());
    assert("3_256"@.len() != "SHA2"@.len());
    assert("3_256"@.len() != "SHA2_256"@.len());
    assert("3_256"@.len() != "384"@.len());
    assert("3_256"@.len() != "SHA384"@.len());
    assert("3_256"@.len() != "SHA-384"@.len());
    assert("3_256"@.len() != "512"@.len());
    assert("3_256"@.len() != "SHA512"@.len());
    assert("3_256"@.len() != "SHA-512"@.len());
    assert("3_256"@.len() != "SHA2_512"@.len());
    assert("SHA3_256"@.len() != "1"@.len());
    assert("SHA3_256"@.len() != "SHA1"@.len());
    assert("SHA3_256"@.len() != "SHA-1"@.len());
    assert("SHA3_256"@.len() != "224"@.len());
    assert("SHA3_256"@.len() != "SHA224"@.len());
    assert("SHA3_256"@.len() != "SHA-224"@.len());
    assert("SHA3_256"@.len() != "256"@.len());
    assert("SHA3_256"@.len() != "SHA256"@.len());
    assert("SHA3_256"@.len() != "SHA-256"@.len());
    assert("SHA3_256"@.len() != "SHA2"@.len());
    assert("SHA3_256"@[3] != "SHA2_256"@[3]);
    assert("SHA3_256"@.len() != "384"@.len());
    assert("SHA3_256"@.len() != "SHA384"@.len());
    assert("SHA3_256"@.len() != "SHA-384"@.len());
    assert("SHA3_256"@.len() != "512"@.len());
    assert("SHA3_256"@.len() != "SHA512"@.len());
    assert("SHA3_256"@.len() != "SHA-512"@.len());
    assert("SHA3_256"@[3] != "SHA2_512"@[3]);
    assert("SHA3-256"@.len() != "1"@.len());
    assert("SHA3-256"@.len() != "SHA1"@.len());
    assert("SHA3-256"@.len() != "SHA-1"@.len());
    assert("SHA3-256"@.len() != "224"@.len());
    assert("SHA3-256"@.len() != "SHA224"@.len());
    assert("SHA3-256"@.len() != "SHA-224"@.len());
    assert("SHA3-256"@.len() != "256"@.len());
    assert("SHA3-256"@.len() != "SHA256"@.len());
    assert("SHA3-256"@.len() != "SHA-256"@.len());
    assert("SHA3-256"@.len() != "SHA2"@.len());
    assert("SHA3-256"@[3] != "SHA2_256"@[3]);
    assert("SHA3-256"@.len() != "384"@.len());
    assert("SHA3-256"@.len() != "SHA384"@.len());
    assert("SHA3-256"@.len() != "SHA-384"@.len());
    assert("SHA3-256"@.len() != "512"@.len());
    assert("SHA3-256"@.len() != "SHA512"@.len());
    assert("SHA3-256"@.len() != "SHA-512"@.len());
    assert("SHA3-256"@[3] != "SHA2_512"@[3]);
}

proof fn lemma_sha_group_6(p: Seq<char>)
    requires
        unicode_upper(p) == "3_512"@ || unicode_upper(p) == "SHA3_512"@ || unicode_upper(p) == "SHA3-512"@,
    ensures
        normalize_sha(p) == "SHA3-512"@,
{
    reveal_strlit("1");
    reveal_strlit("SHA1");
    reveal_strlit("SHA-1");
    reveal_strlit("224");
    reveal_strlit("SHA224");
    reveal_strlit("SHA-224");
    reveal_strlit("256");
    reveal_strlit("SHA256");
    reveal_strlit("SHA-256");
    reveal_strlit("SHA2");
    reveal_strlit("SHA2_256");
    reveal_strlit("384");
    reveal_strlit("SHA384");
    reveal_strlit("SHA-384");
    reveal_strlit("512");
    reveal_strlit("SHA512");
    reveal_strlit("SHA-512");
    reveal_strlit("SHA2_512");
    reveal_strlit("3_256");
    reveal_strlit("SHA3_256");
    reveal_strlit("SHA3-256");
    reveal_strlit("3_512");
    reveal_strlit("SHA3_512");
    reveal_strlit("SHA3-512");
    reveal_strlit("SHA3-512");
    lemma_one_of3(unicode_upper(p), "1"@, "SHA1"@, "SHA-1"@);
    lemma_one_of3(unicode_upper(p), "224"@, "SHA224"@, "SHA-224"@);
    lemma_one_of5(unicode_upper(p), "256"@, "SHA256"@, "SHA-256"@, "SHA2"@, "SHA2_256"@);
    lemma_one_of3(unicode_upper(p), "384"@, "SHA384"@, "SHA-384"@);
    lemma_one_of4(unicode_upper(p), "512"@, "SHA512"@, "SHA-512"@, "SHA2_512"@);
    lemma_one_of3(unicode_upper(p), "3_256"@, "SHA3_256"@, "SHA3-256"@);
    lemma_one_of3(unicode_upper(p), "3_512"@, "SHA3_512"@, "SHA3-512"@);
    assert("3_512"@.len() != "1"@.len());
    assert("3_512"@.len() != "SHA1"@.len());
    assert("3_512"@[0] != "SHA-1"@[0]);
    assert("3_512"@.len() != "224"@.len());
    assert("3_512"@.len() != "SHA224"@.len());
    assert("3_512"@.len() != "SHA-224"@.len());
    assert("3_512"@.len() != "256"@.len());
    assert("3_512"@.len() != "SHA256"@.len());
    assert("3_512"@.len() != "SHA-256"@.len());
    assert("3_512"@.len() != "SHA2"@.len());
    assert("3_512"@.len() != "SHA2_256"@.len());
    assert("3_512"@.len() != "384"@.len());
    assert("3_512"@.len() != "SHA384"@.len());
    assert("3_512"@.len() != "SHA-384"@.len());
    assert("3_512"@.len() != "512"@.len());
    assert("3_512"@.len() != "SHA512"@.len());
    assert("3_512"@.len() != "SHA-512"@.len());
    assert("3_512"@.len() != "SHA2_512"@.len());
    assert("3_512"@[2] != "3_256"@[2]);
    assert("3_512"@.len() != "SHA3_256"@.len());
    assert("3_512"@.len() != "SHA3-256"@.len());
    assert("SHA3_512"@.len() != "1"@.len());
    assert("SHA3_512"@.len() != "SHA1"@.len());
    assert("SHA3_512"@.len() != "SHA-1"@.len());
    assert("SHA3_512"@.len() != "224"@.len());
    assert("SHA3_512"@.len() != "SHA224"@.len());
    assert("SHA3_512"@.len() != "SHA-224"@.len());
    assert("SHA3_512"@.len() != "256"@.len());
    assert("SHA3_512"@.len() != "SHA256"@.len());
    assert("SHA3_512"@.len() != "SHA-256"@.len());
    assert("SHA3_512"@.len() != "SHA2"@.len());
    assert("SHA3_512"@[3] != "SHA2_256"@[3]);
    assert("SHA3_512"@.len() != "384"@.len());
    assert("SHA3_512"@.len() != "SHA384"@.len());
    assert("SHA3_512"@.len() != "SHA-384"@.len());
    assert("SHA3_512"@.len() != "512"@.len());
    assert("SHA3_512"@.len() != "SHA512"@.len());
    assert("SHA3_512"@.len() != "SHA-512"@.len());
    assert("SHA3_512"@[3] != "SHA2_512"@[3]);
    assert("SHA3_512"@.len() != "3_256"@.len());
    assert("SHA3_512"@[5] != "SHA3_256"@[5]);
    assert("SHA3_512"@[4] != "SHA3-256"@[4]);
    assert("SHA3-512"@.len() != "1"@.len());
    assert("SHA3-512"@.len() != "SHA1"@.len());
    assert("SHA3-512"@.len() != "SHA-1"@.len());
    assert("SHA3-512"@.len() != "224"@.len());
    assert("SHA3-512"@.len() != "SHA224"@.len());
    assert("SHA3-512"@.len() != "SHA-224"@.len());
    assert("SHA3-512"@.len() != "256"@.len());
    assert("SHA3-512"@.len() != "SHA256"@.len());
    assert("SHA3-512"@.len() != "SHA-256"@.len());
    assert("SHA3-512"@.len() != "SHA2"@.len());
    assert("SHA3-512"@[3] != "SHA2_256"@[3]);
    assert("SHA3-512"@.len() != "384"@.len());
    assert("SHA3-512"@.len() != "SHA384"@.len());
    assert("SHA3-512"@.len() != "SHA-384"@.len());
    assert("SHA3-512"@.len() != "512"@.len());
    assert("SHA3-512"@.len() != "SHA512"@.len());
    assert("SHA3-512"@.len() != "SHA-512"@.len());
    assert("SHA3-512"@[3] != "SHA2_512"@[3]);
    assert("SHA3-512"@.len() != "3_256"@.len());
    assert("SHA3-512"@[4] != "SHA3_256"@[4]);
    assert("SHA3-512"@[5] != "SHA3-256"@[5]);
}

/// A SHA-2 parameter that spells a digest size (`512`, `SHA512` or `SHA-512`,
/// in any case) is reported as the SHA-2 algorithm of that size: the size is
/// kept.
pub proof fn lemma_sha_digest_size_kept(p: Seq<char>, d: Seq<char>)
    requires
        d == "1"@ || d == "224"@ || d == "256"@ || d == "384"@ || d == "512"@,
        unicode_upper(p) == d || unicode_upper(p) == "SHA"@ + d || unicode_upper(p) == "SHA-"@ + d,
    ensures
        build_name_spec("SHA"@, Some(p)) == "SHA-"@ + d,
{
    lemma_sha_base(p);
    reveal_strlit("SHA");
    reveal_strlit("SHA-");
    reveal_strlit("1");
    reveal_strlit("224");
    reveal_strlit("256");
    reveal_strlit("384");
    reveal_strlit("512");
    reveal_strlit("SHA1");
    reveal_strlit("SHA-1");
    reveal_strlit("SHA224");
    reveal_strlit("SHA-224");
    reveal_strlit("SHA256");
    reveal_strlit("SHA-256");
    reveal_strlit("SHA384");
    reveal_strlit("SHA-384");
    reveal_strlit("SHA512");
    reveal_strlit("SHA-512");
    if d == "1"@ {
        assert("SHA"@ + d =~= "SHA1"@);
        assert("SHA-"@ + d =~= "SHA-1"@);
        lemma_sha_group_0(p);
    } else if d == "224"@ {
        assert("SHA"@ + d =~= "SHA224"@);
        assert("SHA-"@ + d =~= "SHA-224"@);
        lemma_sha_group_1(p);
    } else if d == "256"@ {
        assert("SHA"@ + d =~= "SHA256"@);
        assert("SHA-"@ + d =~= "SHA-256"@);
        lemma_sha_group_2(p);
    } else if d == "384"@ {
        assert("SHA"@ + d =~= "SHA384"@);
        assert("SHA-"@ + d =~= "SHA-384"@);
        lemma_sha_group_3(p);
    } else {
        assert("SHA"@ + d =~= "SHA512"@);
        assert("SHA-"@ + d =~= "SHA-512"@);
        lemma_sha_group_4(p);
    }
}

/// The other spellings of SHA-2 sizes (`SHA2`, `SHA2_256`, `SHA2_512`) and of
/// SHA-3 sizes (`3_256`, `SHA3_256`, `SHA3-256`, and the same for 512), in any
/// case, are reported with their size.
pub proof fn lemma_sha_other_spellings(p: Seq<char>)
    ensures
        unicode_upper(p) == "SHA2"@ || unicode_upper(p) == "SHA2_256"@ ==> build_name_spec("SHA"@, Some(p)) == "SHA-256"@,
        unicode_upper(p) == "SHA2_512"@ ==> build_name_spec("SHA"@, Some(p)) == "SHA-512"@,
        unicode_upper(p) == "3_256"@ || unicode_upper(p) == "SHA3_256"@ || unicode_upper(p) == "SHA3-256"@
            ==> build_name_spec("SHA"@, Some(p)) == "SHA3-256"@,
        unicode_upper(p) == "3_512"@ || unicode_upper(p) == "SHA3_512"@ || unicode_upper(p) == "SHA3-512"@
            ==> build_name_spec("SHA"@, Some(p)) == "SHA3-512"@,
{
    lemma_sha_base(p);
    if unicode_upper(p) == "SHA2"@ || unicode_upper(p) == "SHA2_256"@ {
        lemma_sha_group_2(p);
    }
    if unicode_upper(p) == "SHA2_512"@ {
        lemma_sha_group_4(p);
    }
    if unicode_upper(p) == "3_256"@ || unicode_upper(p) == "SHA3_256"@ || unicode_upper(p) == "SHA3-256"@ {
        lemma_sha_group_5(p);
    }
    if unicode_upper(p) == "3_512"@ || unicode_upper(p) == "SHA3_512"@ || unicode_upper(p) == "SHA3-512"@ {
        lemma_sha_group_6(p);
    }
}

// ── Scanning ──────────────────────────────────────────────────────────────────

fn in_group(ext: &[char], g: u8) -> (b: bool)
    ensures
        b == applies(g, ext@),
{
    proof {
        lemma_one_of1(ext@, "go"@);
        lemma_one_of1(ext@, "rs"@);
        lemma_one_of1(ext@, "rb"@);
        lemma_one_of1(ext@, "php"@);
        lemma_one_of1(ext@, "swift"@);
        lemma_one_of1(ext@, "cs"@);
        lemma_one_of2(ext@, "kt"@, "kts"@);
        lemma_one_of2(ext@, "py"@, "pyw"@);
        lemma_one_of3(ext@, "java"@, "kt"@, "kts"@);
        let s = seq!["c"@, "cpp"@, "cc"@, "cxx"@, "h"@, "hpp"@, "hxx"@];
        if s.contains(ext@) {
            let k = choose|k: int| 0 <= k < s.len() && s[k] == ext@;
            assert(k == 0 || k == 1 || k == 2 || k == 3 || k == 4 || k == 5 || k == 6);
        }
        if ext@ == "c"@ { assert(s[0] == ext@); }
        if ext@ == "cpp"@ { assert(s[1] == ext@); }
        if ext@ == "cc"@ { assert(s[2] == ext@); }
        if ext@ == "cxx"@ { assert(s[3] == ext@); }
        if ext@ == "h"@ { assert(s[4] == ext@); }
        if ext@ == "hpp"@ { assert(s[5] == ext@); }
        if ext@ == "hxx"@ { assert(s[6] == ext@); }
    }
    if g == 0 {
        is_lit(ext, "c") || is_lit(ext, "cpp") || is_lit(ext, "cc") || is_lit(ext, "cxx") || is_lit(ext, "h")
            || is_lit(ext, "hpp") || is_lit(ext, "hxx")
    } else if g == 1 {
        is_lit(ext, "py") || is_lit(ext, "pyw")
    } else if g == 2 {
        is_lit(ext, "java") || is_lit(ext, "kt") || is_lit(ext, "kts")
    } else if g == 3 {
        is_lit(ext, "go")
    } else if g == 4 {
        is_lit(ext, "rs")
    } else if g == 6 {
        is_lit(ext, "rb")
    } else if g == 7 {
        is_lit(ext, "php")
    } else if g == 8 {
        is_lit(ext, "swift")
    } else if g == 9 {
        is_lit(ext, "kt") || is_lit(ext, "kts")
    } else if g == 10 {
        is_lit(ext, "cs")
    } else {
        true
    }
}

/// The per-rule captures, line by line, agree with the regular-expression
/// results wherever a rule applies.
pub open spec fn caps_match(
    rules: Seq<(Seq<char>, Seq<char>, u8)>,
    caps: Seq<Option<Vec<Vec<(Option<usize>, Option<String>)>>>>,
    ext: Seq<char>,
    ls: Seq<Seq<char>>,
) -> bool {
    &&& caps.len() == rules.len()
    &&& forall|k: int| 0 <= k < rules.len() ==> #[trigger] slot_match(rules[k], caps[k], ext, ls)
}

/// One rule's captures agree with the regular-expression results, where the
/// rule applies.
pub open spec fn slot_match(
    rule: (Seq<char>, Seq<char>, u8),
    slot: Option<Vec<Vec<(Option<usize>, Option<String>)>>>,
    ext: Seq<char>,
    ls: Seq<Seq<char>>,
) -> bool {
    applies(rule.2, ext) ==> match slot {
        Some(v) => v.len() == ls.len() && forall|i: int|
            0 <= i < ls.len() ==> rule_caps(rule.1, ls[i]) == captures_view(v@[i]@)
                && offsets_in_range(captures_view(v@[i]@)),
        None => forall|i: int| 0 <= i < ls.len() ==> rule_caps(rule.1, ls[i]) == Seq::<CaptureView>::empty(),
    }
}

fn capture_candidates(base: &str, caps: &Vec<(Option<usize>, Option<String>)>, ln: u32) -> (r: Vec<Candidate>)
    requires
        offsets_in_range(captures_view(caps@)),
    ensures
        r.deep_view() == cap_cands(base@, captures_view(caps@), ln),
{
    let ghost cv = captures_view(caps@);
    let mut out: Vec<Candidate> = Vec::new();
    let mut j: usize = 0;
    while j < caps.len()
        invariant
            j <= caps.len(),
            cv == captures_view(caps@),
            offsets_in_range(cv),
            out.deep_view() == cap_cands(base@, cv.take(j as int), ln),
        decreases caps.len() - j,
    {
        assert(cv.take(j + 1).drop_last() =~= cv.take(j as int));
        assert(cv.take(j + 1).last() == cv[j as int]);
        assert(cv[j as int] == crate::patterns::capture_view(caps@[j as int]));
        let name = build_name(base, &caps[j].1);
        let unknown = chars_of("Unknown");
        let nc = chars_of(name.as_str());
        if nc.len() > 0 && !chars_eq(&nc, &unknown) {
            let column = match caps[j].0 {
                Some(s) => {
                    assert(cv[j as int].0 == Some(s));
                    Some((s + 1) as u32)
                },
                None => None,
            };
            let c = Candidate { name, line: ln, column };
            let ghost before = out.deep_view();
            out.push(c);
            assert(out.deep_view() =~= before.push(c@));
        }
        j = j + 1;
    }
    assert(cv.take(caps.len() as int) =~= cv);
    out
}

fn line_candidates(
    rules: &Vec<(&'static str, &'static str, u8)>,
    caps: &Vec<Option<Vec<Vec<(Option<usize>, Option<String>)>>>>,
    ext: &[char],
    ls: Ghost<Seq<Seq<char>>>,
    i: usize,
    ln: u32,
) -> (r: Vec<Candidate>)
    requires
        caps_match(rules_view(rules@), caps@, ext@, ls@),
        i < ls@.len(),
    ensures
        r.deep_view() == line_cands(rules_view(rules@), ext@, ls@[i as int], ln),
{
    let ghost rv = rules_view(rules@);
    let ghost line = ls@[i as int];
    let mut out: Vec<Candidate> = Vec::new();
    let mut k: usize = 0;
    while k < rules.len()
        invariant
            k <= rules.len(),
            rv == rules_view(rules@),
            line == ls@[i as int],
            i < ls@.len(),
            caps_match(rv, caps@, ext@, ls@),
            out.deep_view() == line_cands(rv.take(k as int), ext@, line, ln),
        decreases rules.len() - k,
    {
        assert(rv.take(k + 1).drop_last() =~= rv.take(k as int));
        assert(rv.take(k + 1).last() == rv[k as int]);
        let rule = rules[k];
        assert(rv[k as int] == (rule.0@, rule.1@, rule.2));
        let ghost before = out.deep_view();
        assert(slot_match(rv[k as int], caps@[k as int], ext@, ls@));
        if in_group(ext, rule.2) {
            match &caps[k] {
                Some(v) => {
                    assert(rule_caps(rv[k as int].1, ls@[i as int]) == captures_view(v@[i as int]@));
                    let mut more = capture_candidates(rule.0, &v[i], ln);
                    let ghost mv = more.deep_view();
                    out.append(&mut more);
                    assert(out.deep_view() =~= before + mv);
                },
                None => {
                    assert(rule_caps(rv[k as int].1, ls@[i as int]) == Seq::<CaptureView>::empty());
                    assert(cap_cands(rule.0@, Seq::<CaptureView>::empty(), ln) =~= Seq::<CandView>::empty());
                    assert(out.deep_view() =~= before + Seq::<CandView>::empty());
                },
            }
        } else {
            assert(out.deep_view() =~= before + Seq::<CandView>::empty());
        }
        k = k + 1;
    }
    assert(rv.take(rules.len() as int) =~= rv);
    out
}

/// The assets found in source text with the given (lower-case) extension,
/// reported at `source`.
pub fn scan_source_text(text: &str, ext: &[char], source: &str) -> (r: Vec<CryptoAsset>)
    ensures
        r.deep_view() == source_text_assets(text@, ext@, source@),
{
    let ls = split_lines(&chars_of(text));
    let ghost lv = ls.deep_view();
    let mut line_strs: Vec<String> = Vec::new();
    let mut i: usize = 0;
    while i < ls.len()
        invariant
            i <= ls.len(),
            lv == ls.deep_view(),
            line_strs.len() == i,
            forall|k: int| 0 <= k < i ==> #[trigger] line_strs@[k]@ == lv[k],
        decreases ls.len() - i,
    {
        assert(lv[i as int] =~= ls@[i as int]@);
        line_strs.push(string_of(&ls[i]));
        i = i + 1;
    }
    let rules = source_rule_table();
    let ghost rv = rules_view(rules@);
    let mut caps: Vec<Option<Vec<Vec<(Option<usize>, Option<String>)>>>> = Vec::new();
    let mut k: usize = 0;
    while k < rules.len()
        invariant
            k <= rules.len(),
            rv == rules_view(rules@),
            line_strs.len() == lv.len(),
            forall|m: int| 0 <= m < lv.len() ==> #[trigger] line_strs@[m]@ == lv[m],
            caps_match(rv.take(k as int), caps@, ext@, lv),
        decreases rules.len() - k,
    {
        let rule = rules[k];
        assert(rv[k as int] == (rule.0@, rule.1@, rule.2));
        let ghost before = caps@;
        let app = in_group(ext, rule.2);
        if app {
            let c = regex_line_captures(rule.1, "param", &line_strs);
            proof {
                match &c {
                    Some(v) => {
                        assert forall|i: int| 0 <= i < lv.len() implies rule_caps(rv[k as int].1, lv[i])
                            == captures_view(v@[i]@) && offsets_in_range(captures_view(v@[i]@)) by {
                            assert(line_strs@[i]@ == lv[i]);
                        }
                    },
                    None => {
                        assert forall|i: int| 0 <= i < lv.len() implies rule_caps(rv[k as int].1, lv[i])
                            == Seq::<CaptureView>::empty() by {
                            assert(line_strs@[i]@ == lv[i]);
                        }
                    },
                }
            }
            assert(slot_match(rv[k as int], c, ext@, lv));
            caps.push(c);
        } else {
            assert(slot_match(rv[k as int], None, ext@, lv));
            caps.push(None);
        }
        proof {
            let t = rv.take(k + 1);
            assert(caps@.len() == t.len());
            assert forall|m: int| 0 <= m < t.len() implies #[trigger] slot_match(t[m], caps@[m], ext@, lv) by {
                if m < k {
                    assert(t[m] == rv.take(k as int)[m]);
                    assert(caps@[m] == before[m]);
                    assert(slot_match(rv.take(k as int)[m], before[m], ext@, lv));
                } else {
                    assert(t[m] == rv[k as int]);
                }
            }
        }
        k = k + 1;
    }
    assert(rv.take(rules.len() as int) =~= rv);
    let mut cands: Vec<Candidate> = Vec::new();
    let mut i: usize = 0;
    while i < ls.len()
        invariant
            i <= ls.len(),
            lv == ls.deep_view(),
            rv == rules_view(rules@),
            rv == source_rules(),
            caps_match(rv, caps@, ext@, lv),
            cands.deep_view() == source_cands(lv.take(i as int), ext@),
        decreases ls.len() - i,
    {
        assert(lv.take(i + 1).drop_last() =~= lv.take(i as int));
        assert(lv.take(i + 1).last() == lv[i as int]);
        assert(lv.take(i + 1).len() == i + 1);
        let ln: u32 = (i + 1) as u32;
        let ghost before = cands.deep_view();
        let mut more = line_candidates(&rules, &caps, ext, Ghost(lv), i, ln);
        let ghost mv = more.deep_view();
        cands.append(&mut more);
        assert(cands.deep_view() =~= before + mv);
        i = i + 1;
    }
    assert(lv.take(ls.len() as int) =~= lv);
    let kept = dedup_candidates(&cands);
    candidates_to_assets(&kept, source, Evidence::SourceCodePattern)
}

/// Scans a source-code file (path, size in bytes, contents) for cryptographic
/// API calls; files over 10 MiB are passed over.
pub fn scan_source(path: &str, size: u64, bytes: &[u8]) -> (r: Vec<CryptoAsset>)
    ensures
        r.deep_view() == if size > MAX_SOURCE_BYTES {
            Seq::empty()
        } else {
            source_text_assets(utf8_lossy_of(bytes@), lower_extension(path@), path@)
        },
{
    if size > MAX_SOURCE_BYTES {
        return Vec::new();
    }
    let text = lossy_text(bytes);
    let ext = extension_lower(path);
    scan_source_text(text.as_str(), &ext, path)
}

} // verus!
