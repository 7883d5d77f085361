use std::io::Write;

use acdi::jar::{has_jar_magic, scan_class_bytes, scan_class_file, scan_jar};
use acdi::model::Evidence;
use acdi::symbols::{check_symbol, scan_symbols};

/// A class file whose constant pool holds the given Utf8 strings.
fn class_file(strings: &[&str]) -> Vec<u8> {
    let mut v: Vec<u8> = vec![0xca, 0xfe, 0xba, 0xbe, 0x00, 0x00, 0x00, 0x34];
    let count = (strings.len() + 1) as u16;
    v.extend_from_slice(&count.to_be_bytes());
    for s in strings {
        v.push(1);
        v.extend_from_slice(&(s.len() as u16).to_be_bytes());
        v.extend_from_slice(s.as_bytes());
    }
    v.extend_from_slice(&[0x00, 0x21]);
    v
}

fn jar(entries: &[(&str, Vec<u8>)]) -> Vec<u8> {
    let mut w = zip::ZipWriter::new(std::io::Cursor::new(Vec::new()));
    for (name, data) in entries {
        w.start_file(*name, zip::write::SimpleFileOptions::default()).unwrap();
        w.write_all(data).unwrap();
    }
    w.finish().unwrap().into_inner()
}

fn chars(s: &str) -> Vec<char> {
    s.chars().collect()
}

#[test]
fn class_constant_pool_strings_are_matched() {
    let data = class_file(&["java/security/MessageDigest", "SHA-1", "hello", "AES/GCM/NoPadding"]);
    let names: Vec<String> = scan_class_bytes(&data).iter().map(|n| n.iter().collect()).collect();
    assert_eq!(names, vec!["SHA-256", "SHA-1", "AES-256"]);
}

#[test]
fn class_file_assets_are_deduplicated() {
    let data = class_file(&["SHA256withRSA", "Sha1WithRSA", "HmacSHA256"]);
    let assets = scan_class_file("lib/App.class", &data);
    let names: Vec<&str> = assets.iter().map(|a| a.name.as_str()).collect();
    assert_eq!(names, vec!["RSA-2048", "SHA-256"]);
    assert!(assets.iter().all(|a| a.evidence == Evidence::JarClassFile));
    assert_eq!(assets[0].locations[0].source, "lib/App.class");
}

#[test]
fn non_class_bytes_yield_nothing() {
    assert!(scan_class_bytes(b"not a class file at all").is_empty());
    assert!(scan_class_bytes(&[0xca, 0xfe, 0xba]).is_empty());
}

#[test]
fn jar_entries_are_scanned() {
    let data = jar(&[
        ("META-INF/MANIFEST.MF", b"Manifest-Version: 1.0\n".to_vec()),
        ("com/example/A.class", class_file(&["javax/crypto/Cipher"])),
        ("com/example/B.class", class_file(&["MLKEM", "javax/crypto/Cipher"])),
    ]);
    assert!(has_jar_magic(&data));
    let assets = scan_jar("app.jar", data.len() as u64, &data);
    let names: Vec<&str> = assets.iter().map(|a| a.name.as_str()).collect();
    assert_eq!(names, vec!["AES-256", "ML-KEM-768"]);
    assert!(assets.iter().all(|a| a.locations[0].source == "app.jar"));
}

#[test]
fn oversized_or_invalid_jars_yield_nothing() {
    let data = jar(&[("A.class", class_file(&["SHA-1"]))]);
    assert!(scan_jar("big.jar", 200 * 1024 * 1024, &data).is_empty());
    assert!(scan_jar("bad.jar", 8, b"PK\x03\x04junk").is_empty());
    assert!(!has_jar_magic(b"PK"));
}

#[test]
fn crypto_symbols_are_recognised() {
    assert_eq!(check_symbol(&chars("RSA_generate_key_ex")), Some("RSA"));
    assert_eq!(check_symbol(&chars("EVP_aes_128_gcm")), Some("AES-128"));
    assert_eq!(check_symbol(&chars("printf")), None);
}

#[test]
fn unparsable_objects_have_no_symbols() {
    assert!(scan_symbols("blob.bin", b"\x7fELF garbage").is_empty());
    assert!(scan_symbols("empty.bin", b"").is_empty());
}
