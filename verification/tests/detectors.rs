use acdi::binary::scan_binary;
use acdi::config::scan_config;
use acdi::detect::{detect_in_file, needs_contents};
use acdi::model::{AssetType, CryptoAsset, Evidence, QuantumSafety, Risk};

fn fixture(name: &str) -> String {
    format!("tests/fixtures/{name}")
}

fn detect(name: &str, text: &str) -> Vec<CryptoAsset> {
    let bytes = text.as_bytes();
    detect_in_file(&fixture(name), bytes.len() as u64, bytes).expect("detect should succeed")
}

fn names(assets: &[CryptoAsset]) -> Vec<&str> {
    assets.iter().map(|a| a.name.as_str()).collect()
}

const OPENSSL_C: &str = r#"#include <openssl/rsa.h>
#include <openssl/evp.h>

int main(void) {
    RSA *rsa = RSA_new();
    RSA_generate_key_ex(rsa, 2048, e, NULL);
    const EVP_CIPHER *cipher = EVP_aes_256_cbc();
    const EVP_MD *md = EVP_sha1();
    EC_KEY *key = EC_KEY_new_by_curve_name(NID_X9_62_prime256v1);
    return 0;
}
"#;

const PYTHON_CRYPTO: &str = r#"from cryptography.hazmat.primitives.asymmetric import rsa, ec
from cryptography.hazmat.primitives import hashes
import hashlib

key = rsa.generate_private_key(public_exponent=65537, key_size=2048)
ec_key = ec.generate_private_key(ec.SECP256R1())
digest = hashes.Hash(hashes.SHA1())
legacy = hashlib.md5(b"data")
"#;

const JAVA_CRYPTO: &str = r#"import java.security.*;
import javax.crypto.Cipher;

class Crypto {
    void run() throws Exception {
        KeyPairGenerator kpg = KeyPairGenerator.getInstance("RSA");
        MessageDigest md = MessageDigest.getInstance("SHA-1");
        Cipher c = Cipher.getInstance("AES/CBC/PKCS5Padding");
    }
}
"#;

const GO_CRYPTO: &str = r#"package main

func main() {
	key, _ := rsa.GenerateKey(rand.Reader, 2048)
	ek, _ := ecdsa.GenerateKey(elliptic.P256(), rand.Reader)
	h := sha1.New()
	m := md5.New()
}
"#;

const RUBY_CRYPTO: &str = r#"require 'openssl'
require 'jwt'

key = OpenSSL::PKey::RSA.new(2048)
digest = OpenSSL::Digest::SHA1.new
token = JWT.encode(payload, key, 'RS256')
"#;

const PHP_CRYPTO: &str = r#"<?php
$res = openssl_pkey_new(array("private_key_bits" => 2048, "private_key_type" => OPENSSL_KEYTYPE_RSA));
$enc = openssl_encrypt($data, 'aes-256-cbc', $key, 0, $iv);
$h = md5($password);
$s = hash('sha1', $data);
"#;

const SWIFT_CRYPTO: &str = r#"import CryptoKit

let signingKey = P256.Signing.PrivateKey()
let digest = SHA256.hash(data: data)
let legacy = Insecure.SHA1.hash(data: data)
let attributes: [String: Any] = [kSecAttrKeyType as String: kSecAttrKeyTypeRSA]
"#;

const KOTLIN_CRYPTO: &str = r#"val kpg = KeyPairGenerator.getInstance(KeyProperties.KEY_ALGORITHM_RSA, "AndroidKeyStore")
val ecg = KeyPairGenerator.getInstance(KeyProperties.KEY_ALGORITHM_EC, "AndroidKeyStore")
val spec = KeyGenParameterSpec.Builder("alias", KeyProperties.PURPOSE_SIGN)
    .setDigests(KeyProperties.DIGEST_SHA1)
    .build()
val keySpec = SecretKeySpec(keyBytes, "HmacSHA256")
"#;

const CSHARP_CRYPTO: &str = r#"using System.Security.Cryptography;

using var rsa = RSA.Create(2048);
using var rsaCng = new RSACng(4096);
using var ecdsa = ECDsa.Create(ECCurve.NamedCurves.nistP256);
using var ecdsa384 = ECDsa.Create(ECCurve.NamedCurves.nistP384);
using var aes = Aes.Create();
using var tdes = TripleDES.Create();
using var md5 = MD5.Create();
using var sha1 = SHA1.Create();
using var sha256 = SHA256.Create();
using var hmac = new HMACSHA256(key);
"#;

// ── Source code scanning ──────────────────────────────────────────────────────

#[test]
fn source_c_detects_openssl_rsa_and_aes() {
    let assets = detect("source/openssl_c.c", OPENSSL_C);
    let names = names(&assets);
    assert!(names.contains(&"RSA-2048"), "must detect RSA-2048, got: {names:?}");
    assert!(names.contains(&"AES-256"), "must detect AES-256, got: {names:?}");
    assert!(names.contains(&"SHA-1"), "must detect SHA-1, got: {names:?}");
    assert!(names.contains(&"ECDSA-P-256"), "must detect ECDSA-P-256, got: {names:?}");
}

#[test]
fn source_c_findings_have_line_numbers() {
    let assets = detect("source/openssl_c.c", OPENSSL_C);
    assert!(!assets.is_empty(), "should find at least one asset");
    for asset in &assets {
        assert!(asset.locations[0].line.is_some(), "missing line for: {}", asset.name);
    }
}

#[test]
fn source_c_findings_have_exact_positions() {
    let assets = detect("source/openssl_c.c", OPENSSL_C);
    let rsa = assets.iter().find(|a| a.name == "RSA-2048").unwrap();
    assert_eq!(rsa.locations[0].line, Some(6));
    assert_eq!(rsa.locations[0].column, Some(5));
    assert_eq!(rsa.asset_type, AssetType::Algorithm);
}

#[test]
fn source_python_detects_crypto_lib_and_hashlib() {
    let assets = detect("source/python_crypto.py", PYTHON_CRYPTO);
    let names = names(&assets);
    assert!(names.contains(&"RSA-2048"), "got: {names:?}");
    assert!(names.contains(&"ECDSA-P-256"), "got: {names:?}");
    assert!(names.contains(&"SHA-1"), "got: {names:?}");
    assert!(names.contains(&"MD5"), "got: {names:?}");
}

#[test]
fn source_java_detects_jca_apis() {
    let assets = detect("source/java_crypto.java", JAVA_CRYPTO);
    let names = names(&assets);
    assert!(names.contains(&"RSA"), "got: {names:?}");
    assert!(names.contains(&"SHA-1"), "got: {names:?}");
    assert!(names.contains(&"AES"), "got: {names:?}");
}

#[test]
fn source_go_detects_crypto_apis() {
    let assets = detect("source/go_crypto.go", GO_CRYPTO);
    let names = names(&assets);
    assert!(names.contains(&"RSA-2048"), "got: {names:?}");
    assert!(names.contains(&"ECDSA-P-256"), "got: {names:?}");
    assert!(names.contains(&"SHA-1"), "got: {names:?}");
    assert!(names.contains(&"MD5"), "got: {names:?}");
}

#[test]
fn source_scan_uses_correct_evidence_type() {
    let assets = detect("source/openssl_c.c", OPENSSL_C);
    for asset in &assets {
        assert_eq!(asset.evidence, Evidence::SourceCodePattern);
    }
}

#[test]
fn source_vulnerable_algo_marked_correctly() {
    let assets = detect("source/openssl_c.c", OPENSSL_C);
    let sha1 = assets.iter().find(|a| a.name == "SHA-1").expect("SHA-1 must be found");
    assert_eq!(sha1.quantum_safe, QuantumSafety::Vulnerable, "SHA-1 must be VULNERABLE");
    assert!(sha1.hndl_risk >= Risk::Low, "SHA-1 must have non-None risk");
}

#[test]
fn source_rules_are_restricted_to_their_language() {
    // A Go call in a Python file is not a Python pattern.
    let assets = detect("source/misplaced.py", "h := sha1.New()\n");
    assert!(assets.is_empty(), "got: {:?}", names(&assets));
}

#[test]
fn source_generic_assignment_applies_to_any_source() {
    let assets = detect("source/settings.js", "const cfg = { algorithm: 'SHA256' };\n");
    assert_eq!(names(&assets), vec!["SHA-256"]);
}

#[test]
fn source_same_name_on_one_line_is_reported_once() {
    let assets = detect("source/twice.go", "a, b := md5.New(), md5.New()\n");
    assert_eq!(names(&assets), vec!["MD5"]);
}

#[test]
fn source_ruby_detects_openssl_rsa() {
    let assets = detect("source/ruby_crypto.rb", RUBY_CRYPTO);
    let names = names(&assets);
    assert!(names.iter().any(|n| n.starts_with("RSA")), "got {names:?}");
}

#[test]
fn source_ruby_detects_sha1_digest() {
    let assets = detect("source/ruby_crypto.rb", RUBY_CRYPTO);
    let names = names(&assets);
    assert!(names.contains(&"SHA-1"), "got {names:?}");
}

#[test]
fn source_ruby_detects_jwt_rsa() {
    let assets = detect("source/ruby_crypto.rb", RUBY_CRYPTO);
    let names = names(&assets);
    assert!(names.contains(&"RSA-2048"), "got {names:?}");
    let jwt = assets.iter().find(|a| a.locations[0].line == Some(6)).unwrap();
    assert_eq!(jwt.name, "RSA-2048");
}

#[test]
fn source_ruby_uses_source_code_evidence() {
    let assets = detect("source/ruby_crypto.rb", RUBY_CRYPTO);
    for a in &assets {
        assert_eq!(a.evidence, Evidence::SourceCodePattern);
    }
}

#[test]
fn source_php_detects_openssl_rsa() {
    let assets = detect("source/php_crypto.php", PHP_CRYPTO);
    let names = names(&assets);
    assert!(names.iter().any(|n| n.starts_with("RSA")), "got {names:?}");
}

#[test]
fn source_php_detects_aes_encryption() {
    let assets = detect("source/php_crypto.php", PHP_CRYPTO);
    let names = names(&assets);
    assert!(names.iter().any(|n| n.starts_with("AES")), "got {names:?}");
}

#[test]
fn source_php_detects_md5() {
    let assets = detect("source/php_crypto.php", PHP_CRYPTO);
    let names = names(&assets);
    assert!(names.contains(&"MD5"), "got {names:?}");
}

#[test]
fn source_php_detects_sha1_hash() {
    let assets = detect("source/php_crypto.php", PHP_CRYPTO);
    let names = names(&assets);
    assert!(names.contains(&"SHA-1"), "got {names:?}");
}

#[test]
fn source_swift_detects_p256_key() {
    let assets = detect("source/swift_crypto.swift", SWIFT_CRYPTO);
    let names = names(&assets);
    assert!(names.contains(&"ECDSA-P-256"), "got {names:?}");
}

#[test]
fn source_swift_detects_sha256() {
    let assets = detect("source/swift_crypto.swift", SWIFT_CRYPTO);
    let names = names(&assets);
    assert!(names.contains(&"SHA-256"), "got {names:?}");
}

#[test]
fn source_swift_detects_insecure_sha1() {
    let assets = detect("source/swift_crypto.swift", SWIFT_CRYPTO);
    let names = names(&assets);
    assert!(names.contains(&"SHA-1"), "got {names:?}");
}

#[test]
fn source_swift_detects_rsa_security_framework() {
    let assets = detect("source/swift_crypto.swift", SWIFT_CRYPTO);
    let names = names(&assets);
    assert!(names.iter().any(|n| n.starts_with("RSA")), "got {names:?}");
}

#[test]
fn source_kotlin_detects_android_keystore_rsa() {
    let assets = detect("source/kotlin_crypto.kt", KOTLIN_CRYPTO);
    let names = names(&assets);
    assert!(names.iter().any(|n| n.starts_with("RSA")), "got {names:?}");
}

#[test]
fn source_kotlin_detects_android_keystore_ec() {
    let assets = detect("source/kotlin_crypto.kt", KOTLIN_CRYPTO);
    let names = names(&assets);
    assert!(names.iter().any(|n| n.starts_with("ECDSA")), "got {names:?}");
}

#[test]
fn source_kotlin_detects_keyproperties_digest_sha1() {
    let assets = detect("source/kotlin_crypto.kt", KOTLIN_CRYPTO);
    let names = names(&assets);
    assert!(names.contains(&"SHA-1"), "got {names:?}");
}

#[test]
fn source_kotlin_detects_hmac_sha256() {
    let assets = detect("source/kotlin_crypto.kt", KOTLIN_CRYPTO);
    let names = names(&assets);
    assert!(names.contains(&"SHA-256"), "got {names:?}");
}

#[test]
fn source_kotlin_uses_source_code_evidence() {
    let assets = detect("source/kotlin_crypto.kt", KOTLIN_CRYPTO);
    assert!(assets.iter().all(|a| a.evidence == Evidence::SourceCodePattern));
}

#[test]
fn source_csharp_detects_rsa_create() {
    let assets = detect("source/csharp_crypto.cs", CSHARP_CRYPTO);
    let names = names(&assets);
    assert!(names.contains(&"RSA-2048"), "got {names:?}");
}

#[test]
fn source_csharp_detects_rsacng_key_size() {
    let assets = detect("source/csharp_crypto.cs", CSHARP_CRYPTO);
    let names = names(&assets);
    assert!(names.contains(&"RSA-4096"), "got {names:?}");
}

#[test]
fn source_csharp_detects_ecdsa_nist_curve() {
    let assets = detect("source/csharp_crypto.cs", CSHARP_CRYPTO);
    let names = names(&assets);
    assert!(names.contains(&"ECDSA-P-256"), "got {names:?}");
}

#[test]
fn source_csharp_detects_ecdsa_p384() {
    let assets = detect("source/csharp_crypto.cs", CSHARP_CRYPTO);
    let names = names(&assets);
    assert!(names.contains(&"ECDSA-P-384"), "got {names:?}");
}

#[test]
fn source_csharp_detects_aes_create() {
    let assets = detect("source/csharp_crypto.cs", CSHARP_CRYPTO);
    let names = names(&assets);
    assert!(names.contains(&"AES"), "got {names:?}");
}

#[test]
fn source_csharp_detects_tripledes() {
    let assets = detect("source/csharp_crypto.cs", CSHARP_CRYPTO);
    let names = names(&assets);
    assert!(names.contains(&"3DES"), "got {names:?}");
}

#[test]
fn source_csharp_detects_md5_create() {
    let assets = detect("source/csharp_crypto.cs", CSHARP_CRYPTO);
    let names = names(&assets);
    assert!(names.contains(&"MD5"), "got {names:?}");
}

#[test]
fn source_csharp_detects_sha_create() {
    let assets = detect("source/csharp_crypto.cs", CSHARP_CRYPTO);
    let names = names(&assets);
    assert!(names.contains(&"SHA-1") && names.contains(&"SHA-256"), "got {names:?}");
}

#[test]
fn source_csharp_detects_hmacsha256() {
    let assets = detect("source/csharp_crypto.cs", CSHARP_CRYPTO);
    let hmac = assets.iter().find(|a| a.locations[0].line == Some(12)).expect("HMAC line");
    assert_eq!(hmac.name, "SHA-256");
}

// ── Binary scanning ───────────────────────────────────────────────────────────

fn crypto_strings_bin() -> Vec<u8> {
    let mut v: Vec<u8> = vec![0x7f, b'E', b'L', b'F', 0x02, 0x01, 0x00];
    v.extend_from_slice(b"RSA-2048\x00SHA-1\x00AES-256\x00");
    // DER-encoded SHA-256 OID
    v.extend_from_slice(&[0x06, 0x09, 0x60, 0x86, 0x48, 0x01, 0x65, 0x03, 0x04, 0x02, 0x01, 0x00]);
    v
}

#[test]
fn binary_detects_algo_strings_and_oids() {
    let data = crypto_strings_bin();
    let assets = scan_binary(&fixture("binaries/crypto_strings.bin"), data.len() as u64, &data);
    let names = names(&assets);
    assert!(names.contains(&"RSA-2048") || names.contains(&"RSA"), "got: {names:?}");
    assert!(names.contains(&"SHA-1"), "got: {names:?}");
    assert!(names.contains(&"SHA-256") || names.contains(&"AES-256"), "got: {names:?}");
}

#[test]
fn binary_deduplicates_repeated_algo_name() {
    let content = b"RSA-2048\x00RSA-2048\x00RSA-2048\x00RSA-2048\x00RSA-2048\x00";
    let assets = scan_binary(&fixture("dup.bin"), content.len() as u64, content);
    let rsa_count = assets.iter().filter(|a| a.name == "RSA-2048").count();
    assert_eq!(rsa_count, 1, "must deduplicate: RSA-2048 should appear exactly once");
}

#[test]
fn binary_large_file_returns_empty_not_error() {
    let assets = scan_binary(&fixture("huge.bin"), 101 * 1024 * 1024, b"RSA-2048\x00");
    assert!(assets.is_empty(), "large file must return empty, not scan");
}

#[test]
fn binary_scan_uses_correct_evidence_type() {
    let data = crypto_strings_bin();
    let assets = scan_binary(&fixture("binaries/crypto_strings.bin"), data.len() as u64, &data);
    for asset in &assets {
        assert_eq!(asset.evidence, Evidence::BinaryStringSearch);
        assert_eq!(asset.locations[0].line, None);
    }
}

#[test]
fn binary_oid_scan_finds_rsa_oid_in_crafted_bytes() {
    let rsa_oid: &[u8] = &[
        0x00, 0x00, 0x06, 0x09, 0x2a, 0x86, 0x48, 0x86, 0xf7, 0x0d, 0x01, 0x01, 0x01, 0x00, 0x00,
    ];
    let assets = scan_binary(&fixture("oid_only.bin"), rsa_oid.len() as u64, rsa_oid);
    assert!(assets.iter().any(|a| a.name == "RSA"), "got: {:?}", names(&assets));
}

// ── Config file scanning ──────────────────────────────────────────────────────

const APP_YAML: &str = "jwt:\n  algorithm: RS256\ntls:\n  cipher_suite: TLS_ECDHE_RSA_WITH_AES_256_GCM_SHA384\nsecurity:\n  hash_algorithm: sha1\n";
const APP_TOML: &str = "[jwt]\nalg = \"RS256\"\n\n[crypto]\nencryption_algorithm = \"aes-128-gcm\"\n";
const APP_JSON: &str = "{\n  \"jwt\": { \"alg\": \"ES256\" }\n}\n";
const APP_PROPERTIES: &str = "jwt.signing.algorithm=RS256\ncrypto.cipher=AES-256\n";
const TERRAFORM_TF: &str = r#"resource "tls_private_key" "rsa" {
  algorithm = "RSA"
  rsa_bits  = 2048
}

resource "tls_private_key" "ec" {
  algorithm   = "ECDSA"
  ecdsa_curve = "P256"
}

resource "aws_kms_key" "signing" {
  customer_master_key_spec = "RSA_2048"
}

resource "aws_kms_key" "ecc" {
  customer_master_key_spec = "ECC_NIST_P256"
}

resource "aws_kms_key" "default" {
  customer_master_key_spec = "SYMMETRIC_DEFAULT"
}
"#;
const K8S_CERTMANAGER: &str = r#"apiVersion: cert-manager.io/v1
kind: Certificate
metadata:
  name: rsa-cert
spec:
  privateKey:
    algorithm: RSA
    size: 2048
---
apiVersion: cert-manager.io/v1
kind: Certificate
metadata:
  name: ec-cert
spec:
  privateKey:
    algorithm: ECDSA
    curve: P256
---
apiVersion: cert-manager.io/v1
kind: Certificate
metadata:
  name: ec384-cert
spec:
  privateKey:
    algorithm: ECDSA
    curve: P384
"#;

#[test]
fn config_yaml_detects_jwt_and_cipher_algorithms() {
    let assets = detect("config/app.yaml", APP_YAML);
    let names = names(&assets);
    assert!(names.contains(&"RSA-2048"), "yaml: got: {names:?}");
    assert!(names.contains(&"RSA"), "yaml: got: {names:?}");
}

#[test]
fn config_yaml_detects_sha1_as_vulnerable() {
    let assets = detect("config/app.yaml", APP_YAML);
    let sha1 = assets.iter().find(|a| a.name == "SHA-1");
    assert!(sha1.is_some(), "must detect SHA-1 from hash_algorithm");
    assert_eq!(sha1.unwrap().quantum_safe, QuantumSafety::Vulnerable);
}

#[test]
fn config_toml_detects_rsa_and_aes() {
    let assets = detect("config/app.toml", APP_TOML);
    let names = names(&assets);
    assert!(names.contains(&"RSA-2048") || names.contains(&"RSA"), "toml: got: {names:?}");
    assert!(names.contains(&"AES-128"), "toml: got: {names:?}");
}

#[test]
fn config_json_detects_jwt_es256() {
    let assets = detect("config/app.json", APP_JSON);
    let names = names(&assets);
    assert!(names.contains(&"ECDSA-P-256"), "json: got: {names:?}");
}

#[test]
fn config_properties_detects_algorithms() {
    let assets = detect("config/app.properties", APP_PROPERTIES);
    let names = names(&assets);
    assert!(names.contains(&"RSA-2048") || names.contains(&"RSA"), "properties: got: {names:?}");
    assert!(names.contains(&"AES-256"), "properties: got: {names:?}");
}

#[test]
fn config_scan_uses_correct_evidence_type() {
    let assets = detect("config/app.yaml", APP_YAML);
    assert!(!assets.is_empty(), "must find at least one asset");
    for asset in &assets {
        assert_eq!(asset.evidence, Evidence::ConfigFileRule);
    }
}

#[test]
fn config_findings_have_line_numbers() {
    let assets = detect("config/app.yaml", APP_YAML);
    for asset in &assets {
        assert!(asset.locations[0].line.is_some(), "config findings must have line numbers");
    }
    let rsa = assets.iter().find(|a| a.name == "RSA-2048").unwrap();
    assert_eq!(rsa.locations[0].line, Some(2));
}

#[test]
fn config_large_file_returns_empty_not_error() {
    let data: Vec<u8> = vec![b' '; 16];
    let assets = scan_config(&fixture("huge.yaml"), 5 * 1024 * 1024, &data).expect("must not error");
    assert!(assets.is_empty(), "large config must return empty, not scan");
}

#[test]
fn config_invalid_utf8_returns_empty() {
    let data: Vec<u8> = b"cipher: RC4\n\xff\xfe\n".to_vec();
    let assets = scan_config(&fixture("bad.yaml"), data.len() as u64, &data).expect("must not error");
    assert!(assets.is_empty());
    let assets = detect_in_file(&fixture("bad.yaml"), data.len() as u64, &data).expect("must not error");
    assert!(assets.is_empty());
}

#[test]
fn config_comment_lines_are_skipped() {
    let assets = detect("config/commented.yaml", "# algorithm: RS256\n// cipher: RC4\n");
    assert!(assets.is_empty(), "got: {:?}", names(&assets));
}

#[test]
fn config_terraform_detects_rsa_algorithm() {
    let assets = detect("config/terraform.tf", TERRAFORM_TF);
    let names = names(&assets);
    assert!(names.iter().any(|n| n.starts_with("RSA")), "got {names:?}");
}

#[test]
fn config_terraform_detects_rsa_bits() {
    let assets = detect("config/terraform.tf", TERRAFORM_TF);
    let bits = assets.iter().find(|a| a.locations[0].line == Some(3)).expect("rsa_bits line");
    assert_eq!(bits.name, "RSA-2048");
}

#[test]
fn config_terraform_detects_ecdsa_curve() {
    let assets = detect("config/terraform.tf", TERRAFORM_TF);
    let curve = assets.iter().find(|a| a.locations[0].line == Some(8)).expect("ecdsa_curve line");
    assert_eq!(curve.name, "ECDSA-P-256");
}

#[test]
fn config_terraform_detects_aws_kms_rsa() {
    let assets = detect("config/terraform.tf", TERRAFORM_TF);
    let kms = assets.iter().find(|a| a.locations[0].line == Some(12)).expect("kms rsa line");
    assert_eq!(kms.name, "RSA-2048");
}

#[test]
fn config_terraform_detects_aws_kms_ecc() {
    let assets = detect("config/terraform.tf", TERRAFORM_TF);
    let kms = assets.iter().find(|a| a.locations[0].line == Some(16)).expect("kms ecc line");
    assert_eq!(kms.name, "ECDSA-P-256");
}

#[test]
fn config_terraform_detects_symmetric_default_aes() {
    let assets = detect("config/terraform.tf", TERRAFORM_TF);
    let names = names(&assets);
    assert!(names.contains(&"AES-256"), "got {names:?}");
}

#[test]
fn config_terraform_rules_stay_in_terraform() {
    let assets = detect("config/vars.yaml", "rsa_bits = 2048\n");
    assert!(assets.is_empty(), "got {:?}", names(&assets));
}

#[test]
fn config_k8s_certmanager_detects_rsa_algorithm() {
    let assets = detect("config/k8s_certmanager.yaml", K8S_CERTMANAGER);
    let names = names(&assets);
    assert!(names.iter().any(|n| n.starts_with("RSA")), "got {names:?}");
}

#[test]
fn config_k8s_certmanager_detects_ecdsa_curve_p256() {
    let assets = detect("config/k8s_certmanager.yaml", K8S_CERTMANAGER);
    let names = names(&assets);
    assert!(names.contains(&"ECDSA-P-256"), "got {names:?}");
}

#[test]
fn config_k8s_certmanager_detects_ecdsa_curve_p384() {
    let assets = detect("config/k8s_certmanager.yaml", K8S_CERTMANAGER);
    let names = names(&assets);
    assert!(names.contains(&"ECDSA-P-384"), "got {names:?}");
}

// ── Package manifests ─────────────────────────────────────────────────────────

const CARGO_TOML: &str = r#"[package]
name = "demo"
version = "0.1.0"
edition = "2021"

[dependencies]
openssl = "0.10"
rsa = "0.9"
ring = "0.17"
md5 = "0.7"
serde = { version = "1", features = ["derive"] }

[dev-dependencies]
sha1 = "0.10"
"#;
const PACKAGE_JSON: &str = r#"{
  "name": "demo",
  "dependencies": {
    "node-forge": "^1.3.1",
    "jsonwebtoken": "^9.0.0",
    "elliptic": "^6.5.4",
    "express": "^4.18.2"
  }
}
"#;
const REQUIREMENTS_TXT: &str = "cryptography==41.0.0\nparamiko>=3.0\npycryptodome~=3.19\nrequests==2.31.0\n";
const GO_MOD: &str = "module example.com/demo\n\ngo 1.21\n\nrequire (\n\tgolang.org/x/crypto v0.17.0\n\tgithub.com/golang-jwt/jwt v3.2.2+incompatible\n\tgithub.com/cloudflare/circl v1.3.7\n)\n";
const POM_XML: &str = r#"<project>
  <groupId>com.example</groupId>
  <artifactId>demo</artifactId>
  <dependencies>
    <dependency>
      <groupId>org.bouncycastle</groupId>
      <artifactId>bcprov-jdk18on</artifactId>
      <version>1.78</version>
    </dependency>
    <dependency>
      <groupId>com.auth0</groupId>
      <artifactId>java-jwt</artifactId>
    </dependency>
    <dependency>
      <groupId>com.nimbusds</groupId>
      <artifactId>nimbus-jose-jwt</artifactId>
    </dependency>
    <dependency>
      <groupId>org.junit.jupiter</groupId>
      <artifactId>junit-jupiter</artifactId>
    </dependency>
  </dependencies>
</project>
"#;
const BUILD_GRADLE: &str = r#"dependencies {
    implementation 'org.bouncycastle:bcprov-jdk18on:1.78'
    implementation "io.jsonwebtoken:jjwt-api:0.12.5"
    implementation 'com.google.guava:guava:33.0.0-jre'
    testImplementation 'org.junit.jupiter:junit-jupiter:5.10.0'
}
"#;

#[test]
fn manifest_cargo_detects_crypto_crates() {
    let assets = detect("manifests/Cargo.toml", CARGO_TOML);
    let names = names(&assets);
    assert!(names.contains(&"openssl"), "got: {names:?}");
    assert!(names.contains(&"rsa"), "got: {names:?}");
    assert!(names.contains(&"ring"), "got: {names:?}");
    assert!(names.contains(&"md5"), "got: {names:?}");
}

#[test]
fn manifest_cargo_dev_dependencies_are_scanned() {
    let assets = detect("manifests/Cargo.toml", CARGO_TOML);
    let names = names(&assets);
    assert!(names.contains(&"sha1"), "dev-dependencies must be scanned, got: {names:?}");
}

#[test]
fn manifest_cargo_library_assets_have_correct_type() {
    let assets = detect("manifests/Cargo.toml", CARGO_TOML);
    assert!(!assets.is_empty());
    for asset in &assets {
        assert_eq!(asset.asset_type, AssetType::Library);
        assert_eq!(asset.evidence, Evidence::ManifestDependency);
    }
}

#[test]
fn manifest_cargo_vulnerable_crate_marked_correctly() {
    let assets = detect("manifests/Cargo.toml", CARGO_TOML);
    let rsa_crate = assets.iter().find(|a| a.name == "rsa");
    assert!(rsa_crate.is_some(), "must find rsa crate");
    assert_eq!(rsa_crate.unwrap().quantum_safe, QuantumSafety::Vulnerable);
}

#[test]
fn manifest_cargo_findings_have_line_numbers() {
    let assets = detect("manifests/Cargo.toml", CARGO_TOML);
    for asset in &assets {
        assert!(asset.locations[0].line.is_some(), "manifest findings must have line numbers");
    }
    let openssl = assets.iter().find(|a| a.name == "openssl").unwrap();
    assert_eq!(openssl.locations[0].line, Some(7));
}

#[test]
fn manifest_cargo_parameter_set_contains_algorithm() {
    let assets = detect("manifests/Cargo.toml", CARGO_TOML);
    let openssl = assets.iter().find(|a| a.name == "openssl").unwrap();
    assert!(openssl.parameter_set.is_some());
    assert_eq!(openssl.parameter_set.as_deref(), Some("RSA"));
}

#[test]
fn manifest_npm_detects_crypto_packages() {
    let assets = detect("manifests/package.json", PACKAGE_JSON);
    let names = names(&assets);
    assert!(names.contains(&"node-forge"), "got: {names:?}");
    assert!(names.contains(&"jsonwebtoken"), "got: {names:?}");
    assert!(names.contains(&"elliptic"), "got: {names:?}");
    assert!(!names.contains(&"express"), "got: {names:?}");
}

#[test]
fn manifest_python_detects_crypto_packages() {
    let assets = detect("manifests/requirements.txt", REQUIREMENTS_TXT);
    let names = names(&assets);
    assert!(names.contains(&"cryptography"), "got: {names:?}");
    assert!(names.contains(&"paramiko"), "got: {names:?}");
    assert!(names.contains(&"pycryptodome"), "got: {names:?}");
    assert!(!names.contains(&"requests"), "got: {names:?}");
}

#[test]
fn manifest_go_detects_crypto_modules() {
    let assets = detect("manifests/go.mod", GO_MOD);
    let names = names(&assets);
    assert!(names.contains(&"golang.org/x/crypto"), "got: {names:?}");
    assert!(names.contains(&"github.com/golang-jwt/jwt"), "got: {names:?}");
}

#[test]
fn manifest_go_detects_pqc_library_as_safe() {
    let assets = detect("manifests/go.mod", GO_MOD);
    let circl = assets.iter().find(|a| a.name == "github.com/cloudflare/circl");
    assert!(circl.is_some(), "must detect cloudflare/circl (PQC library)");
    assert_eq!(circl.unwrap().quantum_safe, QuantumSafety::Safe);
}

#[test]
fn manifest_cargo_toml_not_scanned_as_config() {
    let assets = detect("manifests/Cargo.toml", CARGO_TOML);
    for asset in &assets {
        assert_eq!(asset.evidence, Evidence::ManifestDependency);
    }
}

#[test]
fn manifest_maven_pom_detects_bouncy_castle() {
    let assets = detect("manifests/pom.xml", POM_XML);
    let names = names(&assets);
    assert!(names.contains(&"bcprov-jdk18on"), "got {names:?}");
    let bc = assets.iter().find(|a| a.name == "bcprov-jdk18on").unwrap();
    assert_eq!(bc.locations[0].line, Some(7));
    assert_eq!(bc.hndl_risk, Risk::Critical);
}

#[test]
fn manifest_maven_pom_detects_jwt_library() {
    let assets = detect("manifests/pom.xml", POM_XML);
    let names = names(&assets);
    assert!(names.contains(&"java-jwt"), "got {names:?}");
}

#[test]
fn manifest_maven_pom_detects_nimbus() {
    let assets = detect("manifests/pom.xml", POM_XML);
    let names = names(&assets);
    assert!(names.contains(&"nimbus-jose-jwt"), "got {names:?}");
}

#[test]
fn manifest_maven_pom_ignores_non_crypto_deps() {
    let assets = detect("manifests/pom.xml", POM_XML);
    let names = names(&assets);
    assert!(!names.contains(&"junit-jupiter"), "got {names:?}");
    assert!(!names.contains(&"demo"), "got {names:?}");
}

#[test]
fn manifest_maven_pom_assets_have_library_type() {
    let assets = detect("manifests/pom.xml", POM_XML);
    assert_eq!(assets.len(), 3);
    for a in &assets {
        assert_eq!(a.asset_type, AssetType::Library);
    }
}

#[test]
fn manifest_gradle_detects_bouncy_castle() {
    let assets = detect("manifests/build.gradle", BUILD_GRADLE);
    let names = names(&assets);
    assert!(names.contains(&"bcprov-jdk18on"), "got {names:?}");
}

#[test]
fn manifest_gradle_detects_jjwt() {
    let assets = detect("manifests/build.gradle", BUILD_GRADLE);
    let names = names(&assets);
    assert!(names.iter().any(|n| n.starts_with("jjwt")), "got {names:?}");
}

#[test]
fn manifest_gradle_ignores_non_crypto_deps() {
    let assets = detect("manifests/build.gradle", BUILD_GRADLE);
    let names = names(&assets);
    assert!(!names.contains(&"guava"), "should not detect guava");
    assert!(!names.contains(&"junit-jupiter"), "should not detect junit-jupiter");
}

#[test]
fn manifest_gradle_kts_is_scanned_too() {
    let assets = detect(
        "manifests/build.gradle.kts",
        "dependencies {\n    implementation(\"com.google.crypto.tink:tink:1.12.0\")\n}\n",
    );
    assert_eq!(names(&assets), vec!["tink"]);
    assert_eq!(assets[0].parameter_set.as_deref(), Some("AES-256"));
}

#[test]
fn unknown_extension_yields_nothing() {
    let assets = detect("notes/readme.xyz", "algorithm: RS256\n");
    assert!(assets.is_empty());
}

// ── Scanning a fixture directory ──────────────────────────────────────────────

fn scan_dir(files: &[(&str, &str)]) -> Vec<CryptoAsset> {
    let per_file: Vec<Vec<CryptoAsset>> = files.iter().map(|(n, t)| detect(n, t)).collect();
    acdi::scan::finalize_assets(&per_file, &acdi::ignore::IgnoreList::empty())
}

#[test]
fn cli_scan_source_dir_finds_vulnerable_algos() {
    let assets = scan_dir(&[
        ("source/openssl_c.c", OPENSSL_C),
        ("source/python_crypto.py", PYTHON_CRYPTO),
        ("source/java_crypto.java", JAVA_CRYPTO),
        ("source/go_crypto.go", GO_CRYPTO),
        ("source/ruby_crypto.rb", RUBY_CRYPTO),
        ("source/php_crypto.php", PHP_CRYPTO),
        ("source/swift_crypto.swift", SWIFT_CRYPTO),
        ("source/kotlin_crypto.kt", KOTLIN_CRYPTO),
        ("source/csharp_crypto.cs", CSHARP_CRYPTO),
    ]);
    let bom = acdi::cbom::build_bom(&assets);
    assert!(!bom.components.is_empty());
    let names: Vec<&str> = bom.components.iter().map(|c| c.name.as_str()).collect();
    assert!(names.contains(&"RSA-2048"), "got: {names:?}");
    assert_eq!(assets[0].hndl_risk, Risk::Critical, "highest risk first");
}

#[test]
fn cli_scan_config_dir_finds_vulnerable_algos() {
    let assets = scan_dir(&[
        ("config/app.yaml", APP_YAML),
        ("config/app.toml", APP_TOML),
        ("config/app.json", APP_JSON),
        ("config/app.properties", APP_PROPERTIES),
        ("config/terraform.tf", TERRAFORM_TF),
        ("config/k8s_certmanager.yaml", K8S_CERTMANAGER),
    ]);
    assert!(!acdi::cbom::build_bom(&assets).components.is_empty());
}

#[test]
fn cli_scan_manifest_dir_finds_library_assets() {
    let assets = scan_dir(&[
        ("manifests/Cargo.toml", CARGO_TOML),
        ("manifests/package.json", PACKAGE_JSON),
        ("manifests/requirements.txt", REQUIREMENTS_TXT),
        ("manifests/go.mod", GO_MOD),
        ("manifests/pom.xml", POM_XML),
        ("manifests/build.gradle", BUILD_GRADLE),
    ]);
    let bom = acdi::cbom::build_bom(&assets);
    assert!(!bom.components.is_empty());
    assert!(bom.components.iter().any(|c| c.component_type == "library"));
}

#[test]
fn unclaimed_files_get_the_binary_string_search() {
    let data: Vec<u8> = b"\x00\x01RSA-2048\x00".to_vec();
    let assets = detect_in_file(&fixture("blob.dat"), data.len() as u64, &data).expect("no error");
    let direct = scan_binary(&fixture("blob.dat"), data.len() as u64, &data);
    assert_eq!(names(&assets), names(&direct));
    assert_eq!(names(&assets), vec!["RSA-2048"]);
    assert_eq!(assets[0].evidence, Evidence::BinaryStringSearch);
}

#[test]
fn pkcs12_files_go_to_the_certificate_scanner() {
    let data: Vec<u8> = b"\x30\x82\x00\x10RSA-2048 not a certificate".to_vec();
    let p12 = detect_in_file(&fixture("store.p12"), data.len() as u64, &data).expect("no error");
    let pfx = detect_in_file(&fixture("store.pfx"), data.len() as u64, &data).expect("no error");
    assert!(p12.is_empty(), "no PEM or DER certificate in it");
    assert!(pfx.is_empty());
    let dat = detect_in_file(&fixture("store.dat"), data.len() as u64, &data).expect("no error");
    let direct = scan_binary(&fixture("store.dat"), data.len() as u64, &data);
    assert_eq!(names(&dat), names(&direct));
}

#[test]
fn oversized_files_need_not_be_read() {
    assert!(!needs_contents("big.yaml", 5 * 1024 * 1024));
    assert!(needs_contents("small.yaml", 1024));
    assert!(!needs_contents("Cargo.toml", 3 * 1024 * 1024));
    assert!(!needs_contents("huge.py", 11 * 1024 * 1024));
    assert!(needs_contents("server.pem", u64::MAX));
    assert!(needs_contents("blob.dat", u64::MAX));
}
