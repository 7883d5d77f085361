//! The algorithm catalog (name → quantum safety, HNDL risk, NIST level,
//! primitive), the OID catalog, and classification of algorithm names.
use vstd::prelude::*;
use crate::model::{Classification, Primitive, QuantumSafety, Risk};
use crate::table::{assoc, lookup, opt_str_view, pairs_view, KeyMatch};
use crate::text::{chars_eq, chars_of, contains, has_infix, unicode_lower, to_lower};

verus! {

/// One catalog entry.
#[derive(Debug, Clone, Copy)]
pub struct AlgorithmInfo {
    pub name: &'static str,
    pub quantum_safe: QuantumSafety,
    pub hndl_risk: Risk,
    pub nist_quantum_security: u8,
    pub primitive: Primitive,
}

impl AlgorithmInfo {
    pub open spec fn class(self) -> Classification {
        Classification {
            quantum_safe: self.quantum_safe,
            hndl_risk: self.hndl_risk,
            nist_level: self.nist_quantum_security,
            primitive: self.primitive,
        }
    }

    pub fn classification(&self) -> (c: Classification)
        ensures
            c == self.class(),
    {
        Classification {
            quantum_safe: self.quantum_safe,
            hndl_risk: self.hndl_risk,
            nist_level: self.nist_quantum_security,
            primitive: self.primitive,
        }
    }
}

/// The catalog, as (name, classification) pairs.
pub open spec fn catalog_spec() -> Seq<(Seq<char>, Classification)> {
    seq![
        ("RSA-1024"@, Classification { quantum_safe: QuantumSafety::Vulnerable, hndl_risk: Risk::Critical, nist_level: 0, primitive: Primitive::PublicKeyEncryption }),
        ("RSA-2048"@, Classification { quantum_safe: QuantumSafety::Vulnerable, hndl_risk: Risk::Critical, nist_level: 0, primitive: Primitive::PublicKeyEncryption }),
        ("RSA-3072"@, Classification { quantum_safe: QuantumSafety::Vulnerable, hndl_risk: Risk::Critical, nist_level: 0, primitive: Primitive::PublicKeyEncryption }),
        ("RSA-4096"@, Classification { quantum_safe: QuantumSafety::Vulnerable, hndl_risk: Risk::High, nist_level: 0, primitive: Primitive::PublicKeyEncryption }),
        ("ECDSA-P-256"@, Classification { quantum_safe: QuantumSafety::Vulnerable, hndl_risk: Risk::Critical, nist_level: 0, primitive: Primitive::DigitalSignature }),
        ("ECDSA-P-384"@, Classification { quantum_safe: QuantumSafety::Vulnerable, hndl_risk: Risk::High, nist_level: 0, primitive: Primitive::DigitalSignature }),
        ("ECDSA-P-521"@, Classification { quantum_safe: QuantumSafety::Vulnerable, hndl_risk: Risk::High, nist_level: 0, primitive: Primitive::DigitalSignature }),
        ("ECDH-P-256"@, Classification { quantum_safe: QuantumSafety::Vulnerable, hndl_risk: Risk::Critical, nist_level: 0, primitive: Primitive::KeyEncapsulationMechanism }),
        ("ECDH-P-384"@, Classification { quantum_safe: QuantumSafety::Vulnerable, hndl_risk: Risk::High, nist_level: 0, primitive: Primitive::KeyEncapsulationMechanism }),
        ("ECDH-P-521"@, Classification { quantum_safe: QuantumSafety::Vulnerable, hndl_risk: Risk::High, nist_level: 0, primitive: Primitive::KeyEncapsulationMechanism }),
        ("DSA"@, Classification { quantum_safe: QuantumSafety::Vulnerable, hndl_risk: Risk::Critical, nist_level: 0, primitive: Primitive::DigitalSignature }),
        ("DH-1024"@, Classification { quantum_safe: QuantumSafety::Vulnerable, hndl_risk: Risk::Critical, nist_level: 0, primitive: Primitive::KeyAgreement }),
        ("SHA-1"@, Classification { quantum_safe: QuantumSafety::Vulnerable, hndl_risk: Risk::Medium, nist_level: 0, primitive: Primitive::Hash }),
        ("MD5"@, Classification { quantum_safe: QuantumSafety::Vulnerable, hndl_risk: Risk::Medium, nist_level: 0, primitive: Primitive::Hash }),
        ("3DES"@, Classification { quantum_safe: QuantumSafety::Vulnerable, hndl_risk: Risk::Medium, nist_level: 0, primitive: Primitive::BlockCipher }),
        ("RC4"@, Classification { quantum_safe: QuantumSafety::Vulnerable, hndl_risk: Risk::Medium, nist_level: 0, primitive: Primitive::StreamCipher }),
        ("DES"@, Classification { quantum_safe: QuantumSafety::Vulnerable, hndl_risk: Risk::Medium, nist_level: 0, primitive: Primitive::BlockCipher }),
        ("SHA-256"@, Classification { quantum_safe: QuantumSafety::ClassicallyAdequate, hndl_risk: Risk::Low, nist_level: 2, primitive: Primitive::Hash }),
        ("AES-128"@, Classification { quantum_safe: QuantumSafety::ClassicallyAdequate, hndl_risk: Risk::Low, nist_level: 1, primitive: Primitive::BlockCipher }),
        ("SHA-224"@, Classification { quantum_safe: QuantumSafety::ClassicallyAdequate, hndl_risk: Risk::Low, nist_level: 1, primitive: Primitive::Hash }),
        ("AES-256"@, Classification { quantum_safe: QuantumSafety::ClassicallyAdequate, hndl_risk: Risk::NoRisk, nist_level: 5, primitive: Primitive::BlockCipher }),
        ("AES-256-GCM"@, Classification { quantum_safe: QuantumSafety::ClassicallyAdequate, hndl_risk: Risk::NoRisk, nist_level: 5, primitive: Primitive::BlockCipher }),
        ("ChaCha20-Poly1305"@, Classification { quantum_safe: QuantumSafety::ClassicallyAdequate, hndl_risk: Risk::NoRisk, nist_level: 5, primitive: Primitive::StreamCipher }),
        ("SHA-384"@, Classification { quantum_safe: QuantumSafety::ClassicallyAdequate, hndl_risk: Risk::NoRisk, nist_level: 4, primitive: Primitive::Hash }),
        ("SHA-512"@, Classification { quantum_safe: QuantumSafety::ClassicallyAdequate, hndl_risk: Risk::NoRisk, nist_level: 5, primitive: Primitive::Hash }),
        ("SHA3-256"@, Classification { quantum_safe: QuantumSafety::ClassicallyAdequate, hndl_risk: Risk::NoRisk, nist_level: 2, primitive: Primitive::Hash }),
        ("SHA3-512"@, Classification { quantum_safe: QuantumSafety::ClassicallyAdequate, hndl_risk: Risk::NoRisk, nist_level: 5, primitive: Primitive::Hash }),
        ("ML-KEM-512"@, Classification { quantum_safe: QuantumSafety::Safe, hndl_risk: Risk::NoRisk, nist_level: 1, primitive: Primitive::PostQuantumKem }),
        ("ML-KEM-768"@, Classification { quantum_safe: QuantumSafety::Safe, hndl_risk: Risk::NoRisk, nist_level: 3, primitive: Primitive::PostQuantumKem }),
        ("ML-KEM-1024"@, Classification { quantum_safe: QuantumSafety::Safe, hndl_risk: Risk::NoRisk, nist_level: 5, primitive: Primitive::PostQuantumKem }),
        ("ML-DSA-44"@, Classification { quantum_safe: QuantumSafety::Safe, hndl_risk: Risk::NoRisk, nist_level: 2, primitive: Primitive::PostQuantumSignature }),
        ("ML-DSA-65"@, Classification { quantum_safe: QuantumSafety::Safe, hndl_risk: Risk::NoRisk, nist_level: 3, primitive: Primitive::PostQuantumSignature }),
        ("ML-DSA-87"@, Classification { quantum_safe: QuantumSafety::Safe, hndl_risk: Risk::NoRisk, nist_level: 5, primitive: Primitive::PostQuantumSignature }),
        ("SLH-DSA-128s"@, Classification { quantum_safe: QuantumSafety::Safe, hndl_risk: Risk::NoRisk, nist_level: 1, primitive: Primitive::PostQuantumSignature }),
        ("SLH-DSA-256s"@, Classification { quantum_safe: QuantumSafety::Safe, hndl_risk: Risk::NoRisk, nist_level: 5, primitive: Primitive::PostQuantumSignature }),
        ("Ed25519"@, Classification { quantum_safe: QuantumSafety::ClassicallyAdequate, hndl_risk: Risk::NoRisk, nist_level: 0, primitive: Primitive::DigitalSignature }),
        ("X25519"@, Classification { quantum_safe: QuantumSafety::ClassicallyAdequate, hndl_risk: Risk::NoRisk, nist_level: 0, primitive: Primitive::KeyAgreement }),
        ("X25519MLKEM768"@, Classification { quantum_safe: QuantumSafety::HybridSafe, hndl_risk: Risk::Low, nist_level: 3, primitive: Primitive::KeyAgreement }),
    ]
}

pub open spec fn catalog_view(t: Seq<AlgorithmInfo>) -> Seq<(Seq<char>, Classification)> {
    Seq::new(t.len(), |i: int| (t[i].name@, t[i].class()))
}

/// Every algorithm the catalog knows, with its classification.
pub fn algorithm_catalog() -> (t: Vec<AlgorithmInfo>)
    ensures
        catalog_view(t@) == catalog_spec(),
{
    let mut t: Vec<AlgorithmInfo> = Vec::new();
    t.push(AlgorithmInfo { name: "RSA-1024", quantum_safe: QuantumSafety::Vulnerable, hndl_risk: Risk::Critical, nist_quantum_security: 0, primitive: Primitive::PublicKeyEncryption });
    t.push(AlgorithmInfo { name: "RSA-2048", quantum_safe: QuantumSafety::Vulnerable, hndl_risk: Risk::Critical, nist_quantum_security: 0, primitive: Primitive::PublicKeyEncryption });
    t.push(AlgorithmInfo { name: "RSA-3072", quantum_safe: QuantumSafety::Vulnerable, hndl_risk: Risk::Critical, nist_quantum_security: 0, primitive: Primitive::PublicKeyEncryption });
    t.push(AlgorithmInfo { name: "RSA-4096", quantum_safe: QuantumSafety::Vulnerable, hndl_risk: Risk::High, nist_quantum_security: 0, primitive: Primitive::PublicKeyEncryption });
    t.push(AlgorithmInfo { name: "ECDSA-P-256", quantum_safe: QuantumSafety::Vulnerable, hndl_risk: Risk::Critical, nist_quantum_security: 0, primitive: Primitive::DigitalSignature });
    t.push(AlgorithmInfo { name: "ECDSA-P-384", quantum_safe: QuantumSafety::Vulnerable, hndl_risk: Risk::High, nist_quantum_security: 0, primitive: Primitive::DigitalSignature });
    t.push(AlgorithmInfo { name: "ECDSA-P-521", quantum_safe: QuantumSafety::Vulnerable, hndl_risk: Risk::High, nist_quantum_security: 0, primitive: Primitive::DigitalSignature });
    t.push(AlgorithmInfo { name: "ECDH-P-256", quantum_safe: QuantumSafety::Vulnerable, hndl_risk: Risk::Critical, nist_quantum_security: 0, primitive: Primitive::KeyEncapsulationMechanism });
    t.push(AlgorithmInfo { name: "ECDH-P-384", quantum_safe: QuantumSafety::Vulnerable, hndl_risk: Risk::High, nist_quantum_security: 0, primitive: Primitive::KeyEncapsulationMechanism });
    t.push(AlgorithmInfo { name: "ECDH-P-521", quantum_safe: QuantumSafety::Vulnerable, hndl_risk: Risk::High, nist_quantum_security: 0, primitive: Primitive::KeyEncapsulationMechanism });
    t.push(AlgorithmInfo { name: "DSA", quantum_safe: QuantumSafety::Vulnerable, hndl_risk: Risk::Critical, nist_quantum_security: 0, primitive: Primitive::DigitalSignature });
    t.push(AlgorithmInfo { name: "DH-1024", quantum_safe: QuantumSafety::Vulnerable, hndl_risk: Risk::Critical, nist_quantum_security: 0, primitive: Primitive::KeyAgreement });
    t.push(AlgorithmInfo { name: "SHA-1", quantum_safe: QuantumSafety::Vulnerable, hndl_risk: Risk::Medium, nist_quantum_security: 0, primitive: Primitive::Hash });
    t.push(AlgorithmInfo { name: "MD5", quantum_safe: QuantumSafety::Vulnerable, hndl_risk: Risk::Medium, nist_quantum_security: 0, primitive: Primitive::Hash });
    t.push(AlgorithmInfo { name: "3DES", quantum_safe: QuantumSafety::Vulnerable, hndl_risk: Risk::Medium, nist_quantum_security: 0, primitive: Primitive::BlockCipher });
    t.push(AlgorithmInfo { name: "RC4", quantum_safe: QuantumSafety::Vulnerable, hndl_risk: Risk::Medium, nist_quantum_security: 0, primitive: Primitive::StreamCipher });
    t.push(AlgorithmInfo { name: "DES", quantum_safe: QuantumSafety::Vulnerable, hndl_risk: Risk::Medium, nist_quantum_security: 0, primitive: Primitive::BlockCipher });
    t.push(AlgorithmInfo { name: "SHA-256", quantum_safe: QuantumSafety::ClassicallyAdequate, hndl_risk: Risk::Low, nist_quantum_security: 2, primitive: Primitive::Hash });
    t.push(AlgorithmInfo { name: "AES-128", quantum_safe: QuantumSafety::ClassicallyAdequate, hndl_risk: Risk::Low, nist_quantum_security: 1, primitive: Primitive::BlockCipher });
    t.push(AlgorithmInfo { name: "SHA-224", quantum_safe: QuantumSafety::ClassicallyAdequate, hndl_risk: Risk::Low, nist_quantum_security: 1, primitive: Primitive::Hash });
    t.push(AlgorithmInfo { name: "AES-256", quantum_safe: QuantumSafety::ClassicallyAdequate, hndl_risk: Risk::NoRisk, nist_quantum_security: 5, primitive: Primitive::BlockCipher });
    t.push(AlgorithmInfo { name: "AES-256-GCM", quantum_safe: QuantumSafety::ClassicallyAdequate, hndl_risk: Risk::NoRisk, nist_quantum_security: 5, primitive: Primitive::BlockCipher });
    t.push(AlgorithmInfo { name: "ChaCha20-Poly1305", quantum_safe: QuantumSafety::ClassicallyAdequate, hndl_risk: Risk::NoRisk, nist_quantum_security: 5, primitive: Primitive::StreamCipher });
    t.push(AlgorithmInfo { name: "SHA-384", quantum_safe: QuantumSafety::ClassicallyAdequate, hndl_risk: Risk::NoRisk, nist_quantum_security: 4, primitive: Primitive::Hash });
    t.push(AlgorithmInfo { name: "SHA-512", quantum_safe: QuantumSafety::ClassicallyAdequate, hndl_risk: Risk::NoRisk, nist_quantum_security: 5, primitive: Primitive::Hash });
    t.push(AlgorithmInfo { name: "SHA3-256", quantum_safe: QuantumSafety::ClassicallyAdequate, hndl_risk: Risk::NoRisk, nist_quantum_security: 2, primitive: Primitive::Hash });
    t.push(AlgorithmInfo { name: "SHA3-512", quantum_safe: QuantumSafety::ClassicallyAdequate, hndl_risk: Risk::NoRisk, nist_quantum_security: 5, primitive: Primitive::Hash });
    t.push(AlgorithmInfo { name: "ML-KEM-512", quantum_safe: QuantumSafety::Safe, hndl_risk: Risk::NoRisk, nist_quantum_security: 1, primitive: Primitive::PostQuantumKem });
    t.push(AlgorithmInfo { name: "ML-KEM-768", quantum_safe: QuantumSafety::Safe, hndl_risk: Risk::NoRisk, nist_quantum_security: 3, primitive: Primitive::PostQuantumKem });
    t.push(AlgorithmInfo { name: "ML-KEM-1024", quantum_safe: QuantumSafety::Safe, hndl_risk: Risk::NoRisk, nist_quantum_security: 5, primitive: Primitive::PostQuantumKem });
    t.push(AlgorithmInfo { name: "ML-DSA-44", quantum_safe: QuantumSafety::Safe, hndl_risk: Risk::NoRisk, nist_quantum_security: 2, primitive: Primitive::PostQuantumSignature });
    t.push(AlgorithmInfo { name: "ML-DSA-65", quantum_safe: QuantumSafety::Safe, hndl_risk: Risk::NoRisk, nist_quantum_security: 3, primitive: Primitive::PostQuantumSignature });
    t.push(AlgorithmInfo { name: "ML-DSA-87", quantum_safe: QuantumSafety::Safe, hndl_risk: Risk::NoRisk, nist_quantum_security: 5, primitive: Primitive::PostQuantumSignature });
    t.push(AlgorithmInfo { name: "SLH-DSA-128s", quantum_safe: QuantumSafety::Safe, hndl_risk: Risk::NoRisk, nist_quantum_security: 1, primitive: Primitive::PostQuantumSignature });
    t.push(AlgorithmInfo { name: "SLH-DSA-256s", quantum_safe: QuantumSafety::Safe, hndl_risk: Risk::NoRisk, nist_quantum_security: 5, primitive: Primitive::PostQuantumSignature });
    t.push(AlgorithmInfo { name: "Ed25519", quantum_safe: QuantumSafety::ClassicallyAdequate, hndl_risk: Risk::NoRisk, nist_quantum_security: 0, primitive: Primitive::DigitalSignature });
    t.push(AlgorithmInfo { name: "X25519", quantum_safe: QuantumSafety::ClassicallyAdequate, hndl_risk: Risk::NoRisk, nist_quantum_security: 0, primitive: Primitive::KeyAgreement });
    t.push(AlgorithmInfo { name: "X25519MLKEM768", quantum_safe: QuantumSafety::HybridSafe, hndl_risk: Risk::Low, nist_quantum_security: 3, primitive: Primitive::KeyAgreement });
    assert(catalog_view(t@) =~= catalog_spec());
    t
}

/// The classification of the first catalog entry named `name`.
pub open spec fn catalog_find(t: Seq<(Seq<char>, Classification)>, name: Seq<char>) -> Option<Classification>
    decreases t.len(),
{
    if t.len() == 0 {
        None
    } else if t[0].0 == name {
        Some(t[0].1)
    } else {
        catalog_find(t.drop_first(), name)
    }
}

pub open spec fn catalog_lookup(name: Seq<char>) -> Option<Classification> {
    catalog_find(catalog_spec(), name)
}

/// The catalog entry for an algorithm name (exact, case-sensitive match).
pub fn lookup_by_name(name: &str) -> (r: Option<AlgorithmInfo>)
    ensures
        match r {
            Some(info) => catalog_lookup(name@) == Some(info.class()) && info.name@ == name@,
            None => catalog_lookup(name@) is None,
        },
{
    let t = algorithm_catalog();
    let key = chars_of(name);
    let ghost full = catalog_spec();
    let mut i: usize = 0;
    assert(full.skip(0) =~= full);
    while i < t.len()
        invariant
            i <= t.len(),
            full == catalog_spec(),
            catalog_view(t@) == full,
            key@ == name@,
            catalog_find(full, name@) == catalog_find(full.skip(i as int), name@),
        decreases t.len() - i,
    {
        assert(full.skip(i as int).drop_first() =~= full.skip(i + 1));
        assert(full[i as int] == (t@[i as int].name@, t@[i as int].class()));
        let entry_name = chars_of(t[i].name);
        if chars_eq(&entry_name, &key) {
            return Some(t[i]);
        }
        i = i + 1;
    }
    None
}

/// Dotted OIDs of public-key, signature, hash and cipher algorithms, with the algorithm each names.
pub open spec fn oid_table_spec() -> Seq<(Seq<char>, Seq<char>)> {
    seq![
        ("1.2.840.113549.1.1.1"@, "RSA"@),
        ("1.2.840.113549.1.1.5"@, "RSA"@),
        ("1.2.840.113549.1.1.10"@, "RSA"@),
        ("1.2.840.113549.1.1.11"@, "RSA"@),
        ("1.2.840.113549.1.1.12"@, "RSA"@),
        ("1.2.840.113549.1.1.13"@, "RSA"@),
        ("1.2.840.10045.2.1"@, "ECDSA"@),
        ("1.2.840.10045.4.3.2"@, "ECDSA"@),
        ("1.2.840.10045.4.3.3"@, "ECDSA"@),
        ("1.2.840.10045.4.3.4"@, "ECDSA"@),
        ("1.2.840.10040.4.1"@, "DSA"@),
        ("1.2.840.10040.4.3"@, "DSA"@),
        ("1.2.840.113549.1.3.1"@, "DH"@),
        ("1.3.101.110"@, "X25519"@),
        ("1.3.101.111"@, "X448"@),
        ("1.3.101.112"@, "Ed25519"@),
        ("1.3.101.113"@, "Ed448"@),
        ("1.3.14.3.2.26"@, "SHA-1"@),
        ("1.2.840.113549.2.5"@, "MD5"@),
        ("2.16.840.1.101.3.4.2.1"@, "SHA-256"@),
        ("2.16.840.1.101.3.4.2.2"@, "SHA-384"@),
        ("2.16.840.1.101.3.4.2.3"@, "SHA-512"@),
        ("2.16.840.1.101.3.4.2.4"@, "SHA-224"@),
        ("2.16.840.1.101.3.4.2.8"@, "SHA3-256"@),
        ("2.16.840.1.101.3.4.2.10"@, "SHA3-512"@),
        ("2.16.840.1.101.3.4.1.2"@, "AES-128"@),
        ("2.16.840.1.101.3.4.1.6"@, "AES-128"@),
        ("2.16.840.1.101.3.4.1.42"@, "AES-256"@),
        ("2.16.840.1.101.3.4.1.46"@, "AES-256"@),
        ("2.16.840.1.101.3.4.4.1"@, "ML-KEM-512"@),
        ("2.16.840.1.101.3.4.4.2"@, "ML-KEM-768"@),
        ("2.16.840.1.101.3.4.4.3"@, "ML-KEM-1024"@),
        ("2.16.840.1.101.3.4.3.17"@, "ML-DSA-44"@),
        ("2.16.840.1.101.3.4.3.18"@, "ML-DSA-65"@),
        ("2.16.840.1.101.3.4.3.19"@, "ML-DSA-87"@),
    ]
}

/// Dotted OIDs of public-key, signature, hash and cipher algorithms, with the algorithm each names.
pub fn oid_table() -> (t: Vec<(&'static str, &'static str)>)
    ensures
        pairs_view(t@) == oid_table_spec(),
{
    let mut t: Vec<(&'static str, &'static str)> = Vec::new();
    t.push(("1.2.840.113549.1.1.1", "RSA"));
    t.push(("1.2.840.113549.1.1.5", "RSA"));
    t.push(("1.2.840.113549.1.1.10", "RSA"));
    t.push(("1.2.840.113549.1.1.11", "RSA"));
    t.push(("1.2.840.113549.1.1.12", "RSA"));
    t.push(("1.2.840.113549.1.1.13", "RSA"));
    t.push(("1.2.840.10045.2.1", "ECDSA"));
    t.push(("1.2.840.10045.4.3.2", "ECDSA"));
    t.push(("1.2.840.10045.4.3.3", "ECDSA"));
    t.push(("1.2.840.10045.4.3.4", "ECDSA"));
    t.push(("1.2.840.10040.4.1", "DSA"));
    t.push(("1.2.840.10040.4.3", "DSA"));
    t.push(("1.2.840.113549.1.3.1", "DH"));
    t.push(("1.3.101.110", "X25519"));
    t.push(("1.3.101.111", "X448"));
    t.push(("1.3.101.112", "Ed25519"));
    t.push(("1.3.101.113", "Ed448"));
    t.push(("1.3.14.3.2.26", "SHA-1"));
    t.push(("1.2.840.113549.2.5", "MD5"));
    t.push(("2.16.840.1.101.3.4.2.1", "SHA-256"));
    t.push(("2.16.840.1.101.3.4.2.2", "SHA-384"));
    t.push(("2.16.840.1.101.3.4.2.3", "SHA-512"));
    t.push(("2.16.840.1.101.3.4.2.4", "SHA-224"));
    t.push(("2.16.840.1.101.3.4.2.8", "SHA3-256"));
    t.push(("2.16.840.1.101.3.4.2.10", "SHA3-512"));
    t.push(("2.16.840.1.101.3.4.1.2", "AES-128"));
    t.push(("2.16.840.1.101.3.4.1.6", "AES-128"));
    t.push(("2.16.840.1.101.3.4.1.42", "AES-256"));
    t.push(("2.16.840.1.101.3.4.1.46", "AES-256"));
    t.push(("2.16.840.1.101.3.4.4.1", "ML-KEM-512"));
    t.push(("2.16.840.1.101.3.4.4.2", "ML-KEM-768"));
    t.push(("2.16.840.1.101.3.4.4.3", "ML-KEM-1024"));
    t.push(("2.16.840.1.101.3.4.3.17", "ML-DSA-44"));
    t.push(("2.16.840.1.101.3.4.3.18", "ML-DSA-65"));
    t.push(("2.16.840.1.101.3.4.3.19", "ML-DSA-87"));
    assert(pairs_view(t@) =~= oid_table_spec());
    t
}

/// The algorithm an OID (dotted form) names.
pub open spec fn oid_algorithm(oid: Seq<char>) -> Option<Seq<char>> {
    assoc(oid_table_spec(), oid)
}

/// The algorithm an OID (dotted form) names, if the catalog knows it.
pub fn oid_to_algorithm(oid: &str) -> (r: Option<&'static str>)
    ensures
        opt_str_view(r) == oid_algorithm(oid@),
{
    let t = oid_table();
    let key = chars_of(oid);
    lookup(&t, &key, KeyMatch::Exact)
}

pub open spec fn class_of(q: QuantumSafety, r: Risk, n: u8, p: Primitive) -> Classification {
    Classification { quantum_safe: q, hndl_risk: r, nist_level: n, primitive: p }
}

/// Name-based fallback for names the catalog does not hold (`lower_name` is
/// already lower-cased). The first matching rule wins.
pub open spec fn heuristic_class(lower_name: Seq<char>) -> Classification {
    if has_infix(lower_name, "rsa"@) {
        class_of(QuantumSafety::Vulnerable, Risk::Critical, 0, Primitive::PublicKeyEncryption)
    } else if has_infix(lower_name, "ecdsa"@) || has_infix(lower_name, "ec"@) {
        class_of(QuantumSafety::Vulnerable, Risk::Critical, 0, Primitive::DigitalSignature)
    } else if has_infix(lower_name, "dsa"@) {
        class_of(QuantumSafety::Vulnerable, Risk::High, 0, Primitive::DigitalSignature)
    } else if has_infix(lower_name, "ml-kem"@) || has_infix(lower_name, "kyber"@) {
        class_of(QuantumSafety::Safe, Risk::NoRisk, 3, Primitive::PostQuantumKem)
    } else if has_infix(lower_name, "ml-dsa"@) || has_infix(lower_name, "dilithium"@) {
        class_of(QuantumSafety::Safe, Risk::NoRisk, 3, Primitive::PostQuantumSignature)
    } else if has_infix(lower_name, "aes-256"@) {
        class_of(QuantumSafety::ClassicallyAdequate, Risk::NoRisk, 5, Primitive::BlockCipher)
    } else if has_infix(lower_name, "aes-128"@) {
        class_of(QuantumSafety::ClassicallyAdequate, Risk::Medium, 1, Primitive::BlockCipher)
    } else {
        class_of(QuantumSafety::Unknown, Risk::Medium, 0, Primitive::Other)
    }
}

/// Classification of an algorithm name: the catalog entry when there is one,
/// the name-based fallback otherwise.
pub open spec fn classify(name: Seq<char>) -> Classification {
    match catalog_lookup(name) {
        Some(c) => c,
        None => heuristic_class(unicode_lower(name)),
    }
}

fn has_lit(s: &[char], lit: &str) -> (b: bool)
    ensures
        b == has_infix(s@, lit@),
{
    let p = chars_of(lit);
    contains(s, &p)
}

/// Classifies an algorithm name (catalog first, then the name-based fallback).
pub fn classify_by_name(name: &str) -> (c: Classification)
    ensures
        c == classify(name@),
{
    if let Some(info) = lookup_by_name(name) {
        return info.classification();
    }
    let chars = chars_of(name);
    let l = to_lower(&chars);
    if has_lit(&l, "rsa") {
        Classification { quantum_safe: QuantumSafety::Vulnerable, hndl_risk: Risk::Critical, nist_level: 0, primitive: Primitive::PublicKeyEncryption }
    } else if has_lit(&l, "ecdsa") || has_lit(&l, "ec") {
        Classification { quantum_safe: QuantumSafety::Vulnerable, hndl_risk: Risk::Critical, nist_level: 0, primitive: Primitive::DigitalSignature }
    } else if has_lit(&l, "dsa") {
        Classification { quantum_safe: QuantumSafety::Vulnerable, hndl_risk: Risk::High, nist_level: 0, primitive: Primitive::DigitalSignature }
    } else if has_lit(&l, "ml-kem") || has_lit(&l, "kyber") {
        Classification { quantum_safe: QuantumSafety::Safe, hndl_risk: Risk::NoRisk, nist_level: 3, primitive: Primitive::PostQuantumKem }
    } else if has_lit(&l, "ml-dsa") || has_lit(&l, "dilithium") {
        Classification { quantum_safe: QuantumSafety::Safe, hndl_risk: Risk::NoRisk, nist_level: 3, primitive: Primitive::PostQuantumSignature }
    } else if has_lit(&l, "aes-256") {
        Classification { quantum_safe: QuantumSafety::ClassicallyAdequate, hndl_risk: Risk::NoRisk, nist_level: 5, primitive: Primitive::BlockCipher }
    } else if has_lit(&l, "aes-128") {
        Classification { quantum_safe: QuantumSafety::ClassicallyAdequate, hndl_risk: Risk::Medium, nist_level: 1, primitive: Primitive::BlockCipher }
    } else {
        Classification { quantum_safe: QuantumSafety::Unknown, hndl_risk: Risk::Medium, nist_level: 0, primitive: Primitive::Other }
    }
}

// ── The documented classification of each catalog algorithm ──────────────────

proof fn lemma_find_from(t: Seq<(Seq<char>, Classification)>, n: Seq<char>, k: int)
    requires
        0 <= k < t.len(),
        t[k].0 == n,
        forall|j: int| 0 <= j < k ==> #[trigger] t[j].0 != n,
    ensures
        catalog_find(t, n) == Some(t[k].1),
    decreases k,
{
    if k > 0 {
        lemma_find_from(t.drop_first(), n, k - 1);
    }
}

/// The quantum-vulnerable algorithms of the CRITICAL tier: RSA up to 3072 bits, ECDSA and ECDH on P-256, DSA and 1024-bit DH are vulnerable, at CRITICAL risk, with no NIST quantum security.
pub proof fn lemma_quantum_vulnerable_critical()
    ensures
        classify("RSA-1024"@).quantum_safe == QuantumSafety::Vulnerable,
        classify("RSA-1024"@).hndl_risk == Risk::Critical,
        classify("RSA-1024"@).nist_level == 0,
        classify("RSA-2048"@).quantum_safe == QuantumSafety::Vulnerable,
        classify("RSA-2048"@).hndl_risk == Risk::Critical,
        classify("RSA-2048"@).nist_level == 0,
        classify("RSA-3072"@).quantum_safe == QuantumSafety::Vulnerable,
        classify("RSA-3072"@).hndl_risk == Risk::Critical,
        classify("RSA-3072"@).nist_level == 0,
        classify("ECDSA-P-256"@).quantum_safe == QuantumSafety::Vulnerable,
        classify("ECDSA-P-256"@).hndl_risk == Risk::Critical,
        classify("ECDSA-P-256"@).nist_level == 0,
        classify("ECDH-P-256"@).quantum_safe == QuantumSafety::Vulnerable,
        classify("ECDH-P-256"@).hndl_risk == Risk::Critical,
        classify("ECDH-P-256"@).nist_level == 0,
        classify("DSA"@).quantum_safe == QuantumSafety::Vulnerable,
        classify("DSA"@).hndl_risk == Risk::Critical,
        classify("DSA"@).nist_level == 0,
        classify("DH-1024"@).quantum_safe == QuantumSafety::Vulnerable,
        classify("DH-1024"@).hndl_risk == Risk::Critical,
        classify("DH-1024"@).nist_level == 0,
{
    lemma_entry_rsa_1024();
    lemma_entry_rsa_2048();
    lemma_entry_rsa_3072();
    lemma_entry_ecdsa_p_256();
    lemma_entry_ecdh_p_256();
    lemma_entry_dsa();
    lemma_entry_dh_1024();
}

/// The quantum-vulnerable algorithms of the HIGH tier: 4096-bit RSA and ECDSA and ECDH on P-384 and P-521 are vulnerable, at HIGH risk, with no NIST quantum security.
pub proof fn lemma_quantum_vulnerable_high()
    ensures
        classify("RSA-4096"@).quantum_safe == QuantumSafety::Vulnerable,
        classify("RSA-4096"@).hndl_risk == Risk::High,
        classify("RSA-4096"@).nist_level == 0,
        classify("ECDSA-P-384"@).quantum_safe == QuantumSafety::Vulnerable,
        classify("ECDSA-P-384"@).hndl_risk == Risk::High,
        classify("ECDSA-P-384"@).nist_level == 0,
        classify("ECDSA-P-521"@).quantum_safe == QuantumSafety::Vulnerable,
        classify("ECDSA-P-521"@).hndl_risk == Risk::High,
        classify("ECDSA-P-521"@).nist_level == 0,
        classify("ECDH-P-384"@).quantum_safe == QuantumSafety::Vulnerable,
        classify("ECDH-P-384"@).hndl_risk == Risk::High,
        classify("ECDH-P-384"@).nist_level == 0,
        classify("ECDH-P-521"@).quantum_safe == QuantumSafety::Vulnerable,
        classify("ECDH-P-521"@).hndl_risk == Risk::High,
        classify("ECDH-P-521"@).nist_level == 0,
{
    lemma_entry_rsa_4096();
    lemma_entry_ecdsa_p_384();
    lemma_entry_ecdsa_p_521();
    lemma_entry_ecdh_p_384();
    lemma_entry_ecdh_p_521();
}

/// The classically weak algorithms (SHA-1, MD5, 3DES, RC4, DES) are vulnerable, at MEDIUM risk, with no NIST quantum security.
pub proof fn lemma_classically_weak_medium()
    ensures
        classify("SHA-1"@).quantum_safe == QuantumSafety::Vulnerable,
        classify("SHA-1"@).hndl_risk == Risk::Medium,
        classify("SHA-1"@).nist_level == 0,
        classify("MD5"@).quantum_safe == QuantumSafety::Vulnerable,
        classify("MD5"@).hndl_risk == Risk::Medium,
        classify("MD5"@).nist_level == 0,
        classify("3DES"@).quantum_safe == QuantumSafety::Vulnerable,
        classify("3DES"@).hndl_risk == Risk::Medium,
        classify("3DES"@).nist_level == 0,
        classify("RC4"@).quantum_safe == QuantumSafety::Vulnerable,
        classify("RC4"@).hndl_risk == Risk::Medium,
        classify("RC4"@).nist_level == 0,
        classify("DES"@).quantum_safe == QuantumSafety::Vulnerable,
        classify("DES"@).hndl_risk == Risk::Medium,
        classify("DES"@).nist_level == 0,
{
    lemma_entry_sha_1();
    lemma_entry_md5();
    lemma_entry_3des();
    lemma_entry_rc4();
    lemma_entry_des();
}

/// SHA-256, AES-128 and SHA-224 are classically adequate, at LOW risk, at NIST levels 2, 1 and 1.
pub proof fn lemma_adequate_low()
    ensures
        classify("SHA-256"@).quantum_safe == QuantumSafety::ClassicallyAdequate,
        classify("SHA-256"@).hndl_risk == Risk::Low,
        classify("SHA-256"@).nist_level == 2,
        classify("AES-128"@).quantum_safe == QuantumSafety::ClassicallyAdequate,
        classify("AES-128"@).hndl_risk == Risk::Low,
        classify("AES-128"@).nist_level == 1,
        classify("SHA-224"@).quantum_safe == QuantumSafety::ClassicallyAdequate,
        classify("SHA-224"@).hndl_risk == Risk::Low,
        classify("SHA-224"@).nist_level == 1,
{
    lemma_entry_sha_256();
    lemma_entry_aes_128();
    lemma_entry_sha_224();
}

/// AES-256, ChaCha20-Poly1305, SHA-384/512, SHA3, ML-KEM, ML-DSA, SLH-DSA, Ed25519 and X25519 carry no HNDL risk, at their NIST levels; the post-quantum standards are quantum-safe, the others classically adequate; the X25519 + ML-KEM-768 hybrid is hybrid-safe at LOW risk.
pub proof fn lemma_quantum_safe_none()
    ensures
        classify("AES-256"@).quantum_safe == QuantumSafety::ClassicallyAdequate,
        classify("AES-256"@).hndl_risk == Risk::NoRisk,
        classify("AES-256"@).nist_level == 5,
        classify("AES-256-GCM"@).quantum_safe == QuantumSafety::ClassicallyAdequate,
        classify("AES-256-GCM"@).hndl_risk == Risk::NoRisk,
        classify("AES-256-GCM"@).nist_level == 5,
        classify("ChaCha20-Poly1305"@).quantum_safe == QuantumSafety::ClassicallyAdequate,
        classify("ChaCha20-Poly1305"@).hndl_risk == Risk::NoRisk,
        classify("ChaCha20-Poly1305"@).nist_level == 5,
        classify("SHA-384"@).quantum_safe == QuantumSafety::ClassicallyAdequate,
        classify("SHA-384"@).hndl_risk == Risk::NoRisk,
        classify("SHA-384"@).nist_level == 4,
        classify("SHA-512"@).quantum_safe == QuantumSafety::ClassicallyAdequate,
        classify("SHA-512"@).hndl_risk == Risk::NoRisk,
        classify("SHA-512"@).nist_level == 5,
        classify("SHA3-256"@).quantum_safe == QuantumSafety::ClassicallyAdequate,
        classify("SHA3-256"@).hndl_risk == Risk::NoRisk,
        classify("SHA3-256"@).nist_level == 2,
        classify("SHA3-512"@).quantum_safe == QuantumSafety::ClassicallyAdequate,
        classify("SHA3-512"@).hndl_risk == Risk::NoRisk,
        classify("SHA3-512"@).nist_level == 5,
        classify("ML-KEM-512"@).quantum_safe == QuantumSafety::Safe,
        classify("ML-KEM-512"@).hndl_risk == Risk::NoRisk,
        classify("ML-KEM-512"@).nist_level == 1,
        classify("ML-KEM-768"@).quantum_safe == QuantumSafety::Safe,
        classify("ML-KEM-768"@).hndl_risk == Risk::NoRisk,
        classify("ML-KEM-768"@).nist_level == 3,
        classify("ML-KEM-1024"@).quantum_safe == QuantumSafety::Safe,
        classify("ML-KEM-1024"@).hndl_risk == Risk::NoRisk,
        classify("ML-KEM-1024"@).nist_level == 5,
        classify("ML-DSA-44"@).quantum_safe == QuantumSafety::Safe,
        classify("ML-DSA-44"@).hndl_risk == Risk::NoRisk,
        classify("ML-DSA-44"@).nist_level == 2,
        classify("ML-DSA-65"@).quantum_safe == QuantumSafety::Safe,
        classify("ML-DSA-65"@).hndl_risk == Risk::NoRisk,
        classify("ML-DSA-65"@).nist_level == 3,
        classify("ML-DSA-87"@).quantum_safe == QuantumSafety::Safe,
        classify("ML-DSA-87"@).hndl_risk == Risk::NoRisk,
        classify("ML-DSA-87"@).nist_level == 5,
        classify("SLH-DSA-128s"@).quantum_safe == QuantumSafety::Safe,
        classify("SLH-DSA-128s"@).hndl_risk == Risk::NoRisk,
        classify("SLH-DSA-128s"@).nist_level == 1,
        classify("SLH-DSA-256s"@).quantum_safe == QuantumSafety::Safe,
        classify("SLH-DSA-256s"@).hndl_risk == Risk::NoRisk,
        classify("SLH-DSA-256s"@).nist_level == 5,
        classify("Ed25519"@).quantum_safe == QuantumSafety::ClassicallyAdequate,
        classify("Ed25519"@).hndl_risk == Risk::NoRisk,
        classify("Ed25519"@).nist_level == 0,
        classify("X25519"@).quantum_safe == QuantumSafety::ClassicallyAdequate,
        classify("X25519"@).hndl_risk == Risk::NoRisk,
        classify("X25519"@).nist_level == 0,
        classify("X25519MLKEM768"@).quantum_safe == QuantumSafety::HybridSafe,
        classify("X25519MLKEM768"@).hndl_risk == Risk::Low,
        classify("X25519MLKEM768"@).nist_level == 3,
{
    lemma_entry_aes_256();
    lemma_entry_aes_256_gcm();
    lemma_entry_chacha20_poly1305();
    lemma_entry_sha_384();
    lemma_entry_sha_512();
    lemma_entry_sha3_256();
    lemma_entry_sha3_512();
    lemma_entry_ml_kem_512();
    lemma_entry_ml_kem_768();
    lemma_entry_ml_kem_1024();
    lemma_entry_ml_dsa_44();
    lemma_entry_ml_dsa_65();
    lemma_entry_ml_dsa_87();
    lemma_entry_slh_dsa_128s();
    lemma_entry_slh_dsa_256s();
    lemma_entry_ed25519();
    lemma_entry_x25519();
    lemma_entry_x25519mlkem768();
}

proof fn lemma_entry_rsa_1024()
    ensures
        catalog_lookup("RSA-1024"@) == Some(catalog_spec()[0].1),
{
    reveal_strlit("RSA-1024");
    let t = catalog_spec();
    assert(t[0].0 == "RSA-1024"@);
    assert forall|j: int| 0 <= j < 0 implies #[trigger] t[j].0 != "RSA-1024"@ by {
        assert(t[j].0.len() != "RSA-1024"@.len() || t[j].0 != "RSA-1024"@);
    }
    lemma_find_from(t, "RSA-1024"@, 0);
}

proof fn lemma_entry_rsa_2048()
    ensures
        catalog_lookup("RSA-2048"@) == Some(catalog_spec()[1].1),
{
    reveal_strlit("RSA-2048");
    let t = catalog_spec();
    assert(t[1].0 == "RSA-2048"@);
    reveal_strlit("RSA-1024");
    assert forall|j: int| 0 <= j < 1 implies #[trigger] t[j].0 != "RSA-2048"@ by {
        if j == 0 {
            assert(t[j].0[4] != "RSA-2048"@[4]);
        }
        assert(t[j].0.len() != "RSA-2048"@.len() || t[j].0 != "RSA-2048"@);
    }
    lemma_find_from(t, "RSA-2048"@, 1);
}

proof fn lemma_entry_rsa_3072()
    ensures
        catalog_lookup("RSA-3072"@) == Some(catalog_spec()[2].1),
{
    reveal_strlit("RSA-3072");
    let t = catalog_spec();
    assert(t[2].0 == "RSA-3072"@);
    reveal_strlit("RSA-1024");
    reveal_strlit("RSA-2048");
    assert forall|j: int| 0 <= j < 2 implies #[trigger] t[j].0 != "RSA-3072"@ by {
        if j == 0 {
            assert(t[j].0[4] != "RSA-3072"@[4]);
        }
        if j == 1 {
            assert(t[j].0[4] != "RSA-3072"@[4]);
        }
        assert(t[j].0.len() != "RSA-3072"@.len() || t[j].0 != "RSA-3072"@);
    }
    lemma_find_from(t, "RSA-3072"@, 2);
}

proof fn lemma_entry_ecdsa_p_256()
    ensures
        catalog_lookup("ECDSA-P-256"@) == Some(catalog_spec()[4].1),
{
    reveal_strlit("ECDSA-P-256");
    let t = catalog_spec();
    assert(t[4].0 == "ECDSA-P-256"@);
    reveal_strlit("RSA-1024");
    reveal_strlit("RSA-2048");
    reveal_strlit("RSA-3072");
    reveal_strlit("RSA-4096");
    assert forall|j: int| 0 <= j < 4 implies #[trigger] t[j].0 != "ECDSA-P-256"@ by {
        assert(t[j].0.len() != "ECDSA-P-256"@.len() || t[j].0 != "ECDSA-P-256"@);
    }
    lemma_find_from(t, "ECDSA-P-256"@, 4);
}

proof fn lemma_entry_ecdh_p_256()
    ensures
        catalog_lookup("ECDH-P-256"@) == Some(catalog_spec()[7].1),
{
    reveal_strlit("ECDH-P-256");
    let t = catalog_spec();
    assert(t[7].0 == "ECDH-P-256"@);
    reveal_strlit("RSA-1024");
    reveal_strlit("RSA-2048");
    reveal_strlit("RSA-3072");
    reveal_strlit("RSA-4096");
    reveal_strlit("ECDSA-P-256");
    reveal_strlit("ECDSA-P-384");
    reveal_strlit("ECDSA-P-521");
    assert forall|j: int| 0 <= j < 7 implies #[trigger] t[j].0 != "ECDH-P-256"@ by {
        assert(t[j].0.len() != "ECDH-P-256"@.len() || t[j].0 != "ECDH-P-256"@);
    }
    lemma_find_from(t, "ECDH-P-256"@, 7);
}

proof fn lemma_entry_dsa()
    ensures
        catalog_lookup("DSA"@) == Some(catalog_spec()[10].1),
{
    reveal_strlit("DSA");
    let t = catalog_spec();
    assert(t[10].0 == "DSA"@);
    reveal_strlit("RSA-1024");
    reveal_strlit("RSA-2048");
    reveal_strlit("RSA-3072");
    reveal_strlit("RSA-4096");
    reveal_strlit("ECDSA-P-256");
    reveal_strlit("ECDSA-P-384");
    reveal_strlit("ECDSA-P-521");
    reveal_strlit("ECDH-P-256");
    reveal_strlit("ECDH-P-384");
    reveal_strlit("ECDH-P-521");
    assert forall|j: int| 0 <= j < 10 implies #[trigger] t[j].0 != "DSA"@ by {
        assert(t[j].0.len() != "DSA"@.len() || t[j].0 != "DSA"@);
    }
    lemma_find_from(t, "DSA"@, 10);
}

proof fn lemma_entry_dh_1024()
    ensures
        catalog_lookup("DH-1024"@) == Some(catalog_spec()[11].1),
{
    reveal_strlit("DH-1024");
    let t = catalog_spec();
    assert(t[11].0 == "DH-1024"@);
    reveal_strlit("RSA-1024");
    reveal_strlit("RSA-2048");
    reveal_strlit("RSA-3072");
    reveal_strlit("RSA-4096");
    reveal_strlit("ECDSA-P-256");
    reveal_strlit("ECDSA-P-384");
    reveal_strlit("ECDSA-P-521");
    reveal_strlit("ECDH-P-256");
    reveal_strlit("ECDH-P-384");
    reveal_strlit("ECDH-P-521");
    reveal_strlit("DSA");
    assert forall|j: int| 0 <= j < 11 implies #[trigger] t[j].0 != "DH-1024"@ by {
        assert(t[j].0.len() != "DH-1024"@.len() || t[j].0 != "DH-1024"@);
    }
    lemma_find_from(t, "DH-1024"@, 11);
}

proof fn lemma_entry_rsa_4096()
    ensures
        catalog_lookup("RSA-4096"@) == Some(catalog_spec()[3].1),
{
    reveal_strlit("RSA-4096");
    let t = catalog_spec();
    assert(t[3].0 == "RSA-4096"@);
    reveal_strlit("RSA-1024");
    reveal_strlit("RSA-2048");
    reveal_strlit("RSA-3072");
    assert forall|j: int| 0 <= j < 3 implies #[trigger] t[j].0 != "RSA-4096"@ by {
        if j == 0 {
            assert(t[j].0[4] != "RSA-4096"@[4]);
        }
        if j == 1 {
            assert(t[j].0[4] != "RSA-4096"@[4]);
        }
        if j == 2 {
            assert(t[j].0[4] != "RSA-4096"@[4]);
        }
        assert(t[j].0.len() != "RSA-4096"@.len() || t[j].0 != "RSA-4096"@);
    }
    lemma_find_from(t, "RSA-4096"@, 3);
}

proof fn lemma_entry_ecdsa_p_384()
    ensures
        catalog_lookup("ECDSA-P-384"@) == Some(catalog_spec()[5].1),
{
    reveal_strlit("ECDSA-P-384");
    let t = catalog_spec();
    assert(t[5].0 == "ECDSA-P-384"@);
    reveal_strlit("RSA-1024");
    reveal_strlit("RSA-2048");
    reveal_strlit("RSA-3072");
    reveal_strlit("RSA-4096");
    reveal_strlit("ECDSA-P-256");
    assert forall|j: int| 0 <= j < 5 implies #[trigger] t[j].0 != "ECDSA-P-384"@ by {
        if j == 4 {
            assert(t[j].0[8] != "ECDSA-P-384"@[8]);
        }
        assert(t[j].0.len() != "ECDSA-P-384"@.len() || t[j].0 != "ECDSA-P-384"@);
    }
    lemma_find_from(t, "ECDSA-P-384"@, 5);
}

proof fn lemma_entry_ecdsa_p_521()
    ensures
        catalog_lookup("ECDSA-P-521"@) == Some(catalog_spec()[6].1),
{
    reveal_strlit("ECDSA-P-521");
    let t = catalog_spec();
    assert(t[6].0 == "ECDSA-P-521"@);
    reveal_strlit("RSA-1024");
    reveal_strlit("RSA-2048");
    reveal_strlit("RSA-3072");
    reveal_strlit("RSA-4096");
    reveal_strlit("ECDSA-P-256");
    reveal_strlit("ECDSA-P-384");
    assert forall|j: int| 0 <= j < 6 implies #[trigger] t[j].0 != "ECDSA-P-521"@ by {
        if j == 4 {
            assert(t[j].0[8] != "ECDSA-P-521"@[8]);
        }
        if j == 5 {
            assert(t[j].0[8] != "ECDSA-P-521"@[8]);
        }
        assert(t[j].0.len() != "ECDSA-P-521"@.len() || t[j].0 != "ECDSA-P-521"@);
    }
    lemma_find_from(t, "ECDSA-P-521"@, 6);
}

proof fn lemma_entry_ecdh_p_384()
    ensures
        catalog_lookup("ECDH-P-384"@) == Some(catalog_spec()[8].1),
{
    reveal_strlit("ECDH-P-384");
    let t = catalog_spec();
    assert(t[8].0 == "ECDH-P-384"@);
    reveal_strlit("RSA-1024");
    reveal_strlit("RSA-2048");
    reveal_strlit("RSA-3072");
    reveal_strlit("RSA-4096");
    reveal_strlit("ECDSA-P-256");
    reveal_strlit("ECDSA-P-384");
    reveal_strlit("ECDSA-P-521");
    reveal_strlit("ECDH-P-256");
    assert forall|j: int| 0 <= j < 8 implies #[trigger] t[j].0 != "ECDH-P-384"@ by {
        if j == 7 {
            assert(t[j].0[7] != "ECDH-P-384"@[7]);
        }
        assert(t[j].0.len() != "ECDH-P-384"@.len() || t[j].0 != "ECDH-P-384"@);
    }
    lemma_find_from(t, "ECDH-P-384"@, 8);
}

proof fn lemma_entry_ecdh_p_521()
    ensures
        catalog_lookup("ECDH-P-521"@) == Some(catalog_spec()[9].1),
{
    reveal_strlit("ECDH-P-521");
    let t = catalog_spec();
    assert(t[9].0 == "ECDH-P-521"@);
    reveal_strlit("RSA-1024");
    reveal_strlit("RSA-2048");
    reveal_strlit("RSA-3072");
    reveal_strlit("RSA-4096");
    reveal_strlit("ECDSA-P-256");
    reveal_strlit("ECDSA-P-384");
    reveal_strlit("ECDSA-P-521");
    reveal_strlit("ECDH-P-256");
    reveal_strlit("ECDH-P-384");
    assert forall|j: int| 0 <= j < 9 implies #[trigger] t[j].0 != "ECDH-P-521"@ by {
        if j == 7 {
            assert(t[j].0[7] != "ECDH-P-521"@[7]);
        }
        if j == 8 {
            assert(t[j].0[7] != "ECDH-P-521"@[7]);
        }
        assert(t[j].0.len() != "ECDH-P-521"@.len() || t[j].0 != "ECDH-P-521"@);
    }
    lemma_find_from(t, "ECDH-P-521"@, 9);
}

proof fn lemma_entry_sha_1()
    ensures
        catalog_lookup("SHA-1"@) == Some(catalog_spec()[12].1),
{
    reveal_strlit("SHA-1");
    let t = catalog_spec();
    assert(t[12].0 == "SHA-1"@);
    reveal_strlit("RSA-1024");
    reveal_strlit("RSA-2048");
    reveal_strlit("RSA-3072");
    reveal_strlit("RSA-4096");
    reveal_strlit("ECDSA-P-256");
    reveal_strlit("ECDSA-P-384");
    reveal_strlit("ECDSA-P-521");
    reveal_strlit("ECDH-P-256");
    reveal_strlit("ECDH-P-384");
    reveal_strlit("ECDH-P-521");
    reveal_strlit("DSA");
    reveal_strlit("DH-1024");
    assert forall|j: int| 0 <= j < 12 implies #[trigger] t[j].0 != "SHA-1"@ by {
        assert(t[j].0.len() != "SHA-1"@.len() || t[j].0 != "SHA-1"@);
    }
    lemma_find_from(t, "SHA-1"@, 12);
}

proof fn lemma_entry_md5()
    ensures
        catalog_lookup("MD5"@) == Some(catalog_spec()[13].1),
{
    reveal_strlit("MD5");
    let t = catalog_spec();
    assert(t[13].0 == "MD5"@);
    reveal_strlit("RSA-1024");
    reveal_strlit("RSA-2048");
    reveal_strlit("RSA-3072");
    reveal_strlit("RSA-4096");
    reveal_strlit("ECDSA-P-256");
    reveal_strlit("ECDSA-P-384");
    reveal_strlit("ECDSA-P-521");
    reveal_strlit("ECDH-P-256");
    reveal_strlit("ECDH-P-384");
    reveal_strlit("ECDH-P-521");
    reveal_strlit("DSA");
    reveal_strlit("DH-1024");
    reveal_strlit("SHA-1");
    assert forall|j: int| 0 <= j < 13 implies #[trigger] t[j].0 != "MD5"@ by {
        if j == 10 {
            assert(t[j].0[0] != "MD5"@[0]);
        }
        assert(t[j].0.len() != "MD5"@.len() || t[j].0 != "MD5"@);
    }
    lemma_find_from(t, "MD5"@, 13);
}

proof fn lemma_entry_3des()
    ensures
        catalog_lookup("3DES"@) == Some(catalog_spec()[14].1),
{
    reveal_strlit("3DES");
    let t = catalog_spec();
    assert(t[14].0 == "3DES"@);
    reveal_strlit("RSA-1024");
    reveal_strlit("RSA-2048");
    reveal_strlit("RSA-3072");
    reveal_strlit("RSA-4096");
    reveal_strlit("ECDSA-P-256");
    reveal_strlit("ECDSA-P-384");
    reveal_strlit("ECDSA-P-521");
    reveal_strlit("ECDH-P-256");
    reveal_strlit("ECDH-P-384");
    reveal_strlit("ECDH-P-521");
    reveal_strlit("DSA");
    reveal_strlit("DH-1024");
    reveal_strlit("SHA-1");
    reveal_strlit("MD5");
    assert forall|j: int| 0 <= j < 14 implies #[trigger] t[j].0 != "3DES"@ by {
        assert(t[j].0.len() != "3DES"@.len() || t[j].0 != "3DES"@);
    }
    lemma_find_from(t, "3DES"@, 14);
}

proof fn lemma_entry_rc4()
    ensures
        catalog_lookup("RC4"@) == Some(catalog_spec()[15].1),
{
    reveal_strlit("RC4");
    let t = catalog_spec();
    assert(t[15].0 == "RC4"@);
    reveal_strlit("RSA-1024");
    reveal_strlit("RSA-2048");
    reveal_strlit("RSA-3072");
    reveal_strlit("RSA-4096");
    reveal_strlit("ECDSA-P-256");
    reveal_strlit("ECDSA-P-384");
    reveal_strlit("ECDSA-P-521");
    reveal_strlit("ECDH-P-256");
    reveal_strlit("ECDH-P-384");
    reveal_strlit("ECDH-P-521");
    reveal_strlit("DSA");
    reveal_strlit("DH-1024");
    reveal_strlit("SHA-1");
    reveal_strlit("MD5");
    reveal_strlit("3DES");
    assert forall|j: int| 0 <= j < 15 implies #[trigger] t[j].0 != "RC4"@ by {
        if j == 10 {
            assert(t[j].0[0] != "RC4"@[0]);
        }
        if j == 13 {
            assert(t[j].0[0] != "RC4"@[0]);
        }
        assert(t[j].0.len() != "RC4"@.len() || t[j].0 != "RC4"@);
    }
    lemma_find_from(t, "RC4"@, 15);
}

proof fn lemma_entry_des()
    ensures
        catalog_lookup("DES"@) == Some(catalog_spec()[16].1),
{
    reveal_strlit("DES");
    let t = catalog_spec();
    assert(t[16].0 == "DES"@);
    reveal_strlit("RSA-1024");
    reveal_strlit("RSA-2048");
    reveal_strlit("RSA-3072");
    reveal_strlit("RSA-4096");
    reveal_strlit("ECDSA-P-256");
    reveal_strlit("ECDSA-P-384");
    reveal_strlit("ECDSA-P-521");
    reveal_strlit("ECDH-P-256");
    reveal_strlit("ECDH-P-384");
    reveal_strlit("ECDH-P-521");
    reveal_strlit("DSA");
    reveal_strlit("DH-1024");
    reveal_strlit("SHA-1");
    reveal_strlit("MD5");
    reveal_strlit("3DES");
    reveal_strlit("RC4");
    assert forall|j: int| 0 <= j < 16 implies #[trigger] t[j].0 != "DES"@ by {
        if j == 10 {
            assert(t[j].0[1] != "DES"@[1]);
        }
        if j == 13 {
            assert(t[j].0[0] != "DES"@[0]);
        }
        if j == 15 {
            assert(t[j].0[0] != "DES"@[0]);
        }
        assert(t[j].0.len() != "DES"@.len() || t[j].0 != "DES"@);
    }
    lemma_find_from(t, "DES"@, 16);
}

proof fn lemma_entry_sha_256()
    ensures
        catalog_lookup("SHA-256"@) == Some(catalog_spec()[17].1),
{
    reveal_strlit("SHA-256");
    let t = catalog_spec();
    assert(t[17].0 == "SHA-256"@);
    reveal_strlit("RSA-1024");
    reveal_strlit("RSA-2048");
    reveal_strlit("RSA-3072");
    reveal_strlit("RSA-4096");
    reveal_strlit("ECDSA-P-256");
    reveal_strlit("ECDSA-P-384");
    reveal_strlit("ECDSA-P-521");
    reveal_strlit("ECDH-P-256");
    reveal_strlit("ECDH-P-384");
    reveal_strlit("ECDH-P-521");
    reveal_strlit("DSA");
    reveal_strlit("DH-1024");
    reveal_strlit("SHA-1");
    reveal_strlit("MD5");
    reveal_strlit("3DES");
    reveal_strlit("RC4");
    reveal_strlit("DES");
    assert forall|j: int| 0 <= j < 17 implies #[trigger] t[j].0 != "SHA-256"@ by {
        if j == 11 {
            assert(t[j].0[0] != "SHA-256"@[0]);
        }
        assert(t[j].0.len() != "SHA-256"@.len() || t[j].0 != "SHA-256"@);
    }
    lemma_find_from(t, "SHA-256"@, 17);
}

proof fn lemma_entry_aes_128()
    ensures
        catalog_lookup("AES-128"@) == Some(catalog_spec()[18].1),
{
    reveal_strlit("AES-128");
    let t = catalog_spec();
    assert(t[18].0 == "AES-128"@);
    reveal_strlit("RSA-1024");
    reveal_strlit("RSA-2048");
    reveal_strlit("RSA-3072");
    reveal_strlit("RSA-4096");
    reveal_strlit("ECDSA-P-256");
    reveal_strlit("ECDSA-P-384");
    reveal_strlit("ECDSA-P-521");
    reveal_strlit("ECDH-P-256");
    reveal_strlit("ECDH-P-384");
    reveal_strlit("ECDH-P-521");
    reveal_strlit("DSA");
    reveal_strlit("DH-1024");
    reveal_strlit("SHA-1");
    reveal_strlit("MD5");
    reveal_strlit("3DES");
    reveal_strlit("RC4");
    reveal_strlit("DES");
    reveal_strlit("SHA-256");
    assert forall|j: int| 0 <= j < 18 implies #[trigger] t[j].0 != "AES-128"@ by {
        if j == 11 {
            assert(t[j].0[0] != "AES-128"@[0]);
        }
        if j == 17 {
            assert(t[j].0[0] != "AES-128"@[0]);
        }
        assert(t[j].0.len() != "AES-128"@.len() || t[j].0 != "AES-128"@);
    }
    lemma_find_from(t, "AES-128"@, 18);
}

proof fn lemma_entry_sha_224()
    ensures
        catalog_lookup("SHA-224"@) == Some(catalog_spec()[19].1),
{
    reveal_strlit("SHA-224");
    let t = catalog_spec();
    assert(t[19].0 == "SHA-224"@);
    reveal_strlit("RSA-1024");
    reveal_strlit("RSA-2048");
    reveal_strlit("RSA-3072");
    reveal_strlit("RSA-4096");
    reveal_strlit("ECDSA-P-256");
    reveal_strlit("ECDSA-P-384");
    reveal_strlit("ECDSA-P-521");
    reveal_strlit("ECDH-P-256");
    reveal_strlit("ECDH-P-384");
    reveal_strlit("ECDH-P-521");
    reveal_strlit("DSA");
    reveal_strlit("DH-1024");
    reveal_strlit("SHA-1");
    reveal_strlit("MD5");
    reveal_strlit("3DES");
    reveal_strlit("RC4");
    reveal_strlit("DES");
    reveal_strlit("SHA-256");
    reveal_strlit("AES-128");
    assert forall|j: int| 0 <= j < 19 implies #[trigger] t[j].0 != "SHA-224"@ by {
        if j == 11 {
            assert(t[j].0[0] != "SHA-224"@[0]);
        }
        if j == 17 {
            assert(t[j].0[5] != "SHA-224"@[5]);
        }
        if j == 18 {
            assert(t[j].0[0] != "SHA-224"@[0]);
        }
        assert(t[j].0.len() != "SHA-224"@.len() || t[j].0 != "SHA-224"@);
    }
    lemma_find_from(t, "SHA-224"@, 19);
}

proof fn lemma_entry_aes_256()
    ensures
        catalog_lookup("AES-256"@) == Some(catalog_spec()[20].1),
{
    reveal_strlit("AES-256");
    let t = catalog_spec();
    assert(t[20].0 == "AES-256"@);
    reveal_strlit("RSA-1024");
    reveal_strlit("RSA-2048");
    reveal_strlit("RSA-3072");
    reveal_strlit("RSA-4096");
    reveal_strlit("ECDSA-P-256");
    reveal_strlit("ECDSA-P-384");
    reveal_strlit("ECDSA-P-521");
    reveal_strlit("ECDH-P-256");
    reveal_strlit("ECDH-P-384");
    reveal_strlit("ECDH-P-521");
    reveal_strlit("DSA");
    reveal_strlit("DH-1024");
    reveal_strlit("SHA-1");
    reveal_strlit("MD5");
    reveal_strlit("3DES");
    reveal_strlit("RC4");
    reveal_strlit("DES");
    reveal_strlit("SHA-256");
    reveal_strlit("AES-128");
    reveal_strlit("SHA-224");
    assert forall|j: int| 0 <= j < 20 implies #[trigger] t[j].0 != "AES-256"@ by {
        if j == 11 {
            assert(t[j].0[0] != "AES-256"@[0]);
        }
        if j == 17 {
            assert(t[j].0[0] != "AES-256"@[0]);
        }
        if j == 18 {
            assert(t[j].0[4] != "AES-256"@[4]);
        }
        if j == 19 {
            assert(t[j].0[0] != "AES-256"@[0]);
        }
        assert(t[j].0.len() != "AES-256"@.len() || t[j].0 != "AES-256"@);
    }
    lemma_find_from(t, "AES-256"@, 20);
}

proof fn lemma_entry_aes_256_gcm()
    ensures
        catalog_lookup("AES-256-GCM"@) == Some(catalog_spec()[21].1),
{
    reveal_strlit("AES-256-GCM");
    let t = catalog_spec();
    assert(t[21].0 == "AES-256-GCM"@);
    reveal_strlit("RSA-1024");
    reveal_strlit("RSA-2048");
    reveal_strlit("RSA-3072");
    reveal_strlit("RSA-4096");
    reveal_strlit("ECDSA-P-256");
    reveal_strlit("ECDSA-P-384");
    reveal_strlit("ECDSA-P-521");
    reveal_strlit("ECDH-P-256");
    reveal_strlit("ECDH-P-384");
    reveal_strlit("ECDH-P-521");
    reveal_strlit("DSA");
    reveal_strlit("DH-1024");
    reveal_strlit("SHA-1");
    reveal_strlit("MD5");
    reveal_strlit("3DES");
    reveal_strlit("RC4");
    reveal_strlit("DES");
    reveal_strlit("SHA-256");
    reveal_strlit("AES-128");
    reveal_strlit("SHA-224");
    reveal_strlit("AES-256");
    assert forall|j: int| 0 <= j < 21 implies #[trigger] t[j].0 != "AES-256-GCM"@ by {
        if j == 4 {
            assert(t[j].0[0] != "AES-256-GCM"@[0]);
        }
        if j == 5 {
            assert(t[j].0[0] != "AES-256-GCM"@[0]);
        }
        if j == 6 {
            assert(t[j].0[0] != "AES-256-GCM"@[0]);
        }
        assert(t[j].0.len() != "AES-256-GCM"@.len() || t[j].0 != "AES-256-GCM"@);
    }
    lemma_find_from(t, "AES-256-GCM"@, 21);
}

proof fn lemma_entry_chacha20_poly1305()
    ensures
        catalog_lookup("ChaCha20-Poly1305"@) == Some(catalog_spec()[22].1),
{
    reveal_strlit("ChaCha20-Poly1305");
    let t = catalog_spec();
    assert(t[22].0 == "ChaCha20-Poly1305"@);
    reveal_strlit("RSA-1024");
    reveal_strlit("RSA-2048");
    reveal_strlit("RSA-3072");
    reveal_strlit("RSA-4096");
    reveal_strlit("ECDSA-P-256");
    reveal_strlit("ECDSA-P-384");
    reveal_strlit("ECDSA-P-521");
    reveal_strlit("ECDH-P-256");
    reveal_strlit("ECDH-P-384");
    reveal_strlit("ECDH-P-521");
    reveal_strlit("DSA");
    reveal_strlit("DH-1024");
    reveal_strlit("SHA-1");
    reveal_strlit("MD5");
    reveal_strlit("3DES");
    reveal_strlit("RC4");
    reveal_strlit("DES");
    reveal_strlit("SHA-256");
    reveal_strlit("AES-128");
    reveal_strlit("SHA-224");
    reveal_strlit("AES-256");
    reveal_strlit("AES-256-GCM");
    assert forall|j: int| 0 <= j < 22 implies #[trigger] t[j].0 != "ChaCha20-Poly1305"@ by {
        assert(t[j].0.len() != "ChaCha20-Poly1305"@.len() || t[j].0 != "ChaCha20-Poly1305"@);
    }
    lemma_find_from(t, "ChaCha20-Poly1305"@, 22);
}

proof fn lemma_entry_sha_384()
    ensures
        catalog_lookup("SHA-384"@) == Some(catalog_spec()[23].1),
{
    reveal_strlit("SHA-384");
    let t = catalog_spec();
    assert(t[23].0 == "SHA-384"@);
    reveal_strlit("RSA-1024");
    reveal_strlit("RSA-2048");
    reveal_strlit("RSA-3072");
    reveal_strlit("RSA-4096");
    reveal_strlit("ECDSA-P-256");
    reveal_strlit("ECDSA-P-384");
    reveal_strlit("ECDSA-P-521");
    reveal_strlit("ECDH-P-256");
    reveal_strlit("ECDH-P-384");
    reveal_strlit("ECDH-P-521");
    reveal_strlit("DSA");
    reveal_strlit("DH-1024");
    reveal_strlit("SHA-1");
    reveal_strlit("MD5");
    reveal_strlit("3DES");
    reveal_strlit("RC4");
    reveal_strlit("DES");
    reveal_strlit("SHA-256");
    reveal_strlit("AES-128");
    reveal_strlit("SHA-224");
    reveal_strlit("AES-256");
    reveal_strlit("AES-256-GCM");
    reveal_strlit("ChaCha20-Poly1305");
    assert forall|j: int| 0 <= j < 23 implies #[trigger] t[j].0 != "SHA-384"@ by {
        if j == 11 {
            assert(t[j].0[0] != "SHA-384"@[0]);
        }
        if j == 17 {
            assert(t[j].0[4] != "SHA-384"@[4]);
        }
        if j == 18 {
            assert(t[j].0[0] != "SHA-384"@[0]);
        }
        if j == 19 {
            assert(t[j].0[4] != "SHA-384"@[4]);
        }
        if j == 20 {
            assert(t[j].0[0] != "SHA-384"@[0]);
        }
        assert(t[j].0.len() != "SHA-384"@.len() || t[j].0 != "SHA-384"@);
    }
    lemma_find_from(t, "SHA-384"@, 23);
}

proof fn lemma_entry_sha_512()
    ensures
        catalog_lookup("SHA-512"@) == Some(catalog_spec()[24].1),
{
    reveal_strlit("SHA-512");
    let t = catalog_spec();
    assert(t[24].0 == "SHA-512"@);
    reveal_strlit("RSA-1024");
    reveal_strlit("RSA-2048");
    reveal_strlit("RSA-3072");
    reveal_strlit("RSA-4096");
    reveal_strlit("ECDSA-P-256");
    reveal_strlit("ECDSA-P-384");
    reveal_strlit("ECDSA-P-521");
    reveal_strlit("ECDH-P-256");
    reveal_strlit("ECDH-P-384");
    reveal_strlit("ECDH-P-521");
    reveal_strlit("DSA");
    reveal_strlit("DH-1024");
    reveal_strlit("SHA-1");
    reveal_strlit("MD5");
    reveal_strlit("3DES");
    reveal_strlit("RC4");
    reveal_strlit("DES");
    reveal_strlit("SHA-256");
    reveal_strlit("AES-128");
    reveal_strlit("SHA-224");
    reveal_strlit("AES-256");
    reveal_strlit("AES-256-GCM");
    reveal_strlit("ChaCha20-Poly1305");
    reveal_strlit("SHA-384");
    assert forall|j: int| 0 <= j < 24 implies #[trigger] t[j].0 != "SHA-512"@ by {
        if j == 11 {
            assert(t[j].0[0] != "SHA-512"@[0]);
        }
        if j == 17 {
            assert(t[j].0[4] != "SHA-512"@[4]);
        }
        if j == 18 {
            assert(t[j].0[0] != "SHA-512"@[0]);
        }
        if j == 19 {
            assert(t[j].0[4] != "SHA-512"@[4]);
        }
        if j == 20 {
            assert(t[j].0[0] != "SHA-512"@[0]);
        }
        if j == 23 {
            assert(t[j].0[4] != "SHA-512"@[4]);
        }
        assert(t[j].0.len() != "SHA-512"@.len() || t[j].0 != "SHA-512"@);
    }
    lemma_find_from(t, "SHA-512"@, 24);
}

proof fn lemma_entry_sha3_256()
    ensures
        catalog_lookup("SHA3-256"@) == Some(catalog_spec()[25].1),
{
    reveal_strlit("SHA3-256");
    let t = catalog_spec();
    assert(t[25].0 == "SHA3-256"@);
    reveal_strlit("RSA-1024");
    reveal_strlit("RSA-2048");
    reveal_strlit("RSA-3072");
    reveal_strlit("RSA-4096");
    reveal_strlit("ECDSA-P-256");
    reveal_strlit("ECDSA-P-384");
    reveal_strlit("ECDSA-P-521");
    reveal_strlit("ECDH-P-256");
    reveal_strlit("ECDH-P-384");
    reveal_strlit("ECDH-P-521");
    reveal_strlit("DSA");
    reveal_strlit("DH-1024");
    reveal_strlit("SHA-1");
    reveal_strlit("MD5");
    reveal_strlit("3DES");
    reveal_strlit("RC4");
    reveal_strlit("DES");
    reveal_strlit("SHA-256");
    reveal_strlit("AES-128");
    reveal_strlit("SHA-224");
    reveal_strlit("AES-256");
    reveal_strlit("AES-256-GCM");
    reveal_strlit("ChaCha20-Poly1305");
    reveal_strlit("SHA-384");
    reveal_strlit("SHA-512");
    assert forall|j: int| 0 <= j < 25 implies #[trigger] t[j].0 != "SHA3-256"@ by {
        if j == 0 {
            assert(t[j].0[0] != "SHA3-256"@[0]);
        }
        if j == 1 {
            assert(t[j].0[0] != "SHA3-256"@[0]);
        }
        if j == 2 {
            assert(t[j].0[0] != "SHA3-256"@[0]);
        }
        if j == 3 {
            assert(t[j].0[0] != "SHA3-256"@[0]);
        }
        assert(t[j].0.len() != "SHA3-256"@.len() || t[j].0 != "SHA3-256"@);
    }
    lemma_find_from(t, "SHA3-256"@, 25);
}

proof fn lemma_entry_sha3_512()
    ensures
        catalog_lookup("SHA3-512"@) == Some(catalog_spec()[26].1),
{
    reveal_strlit("SHA3-512");
    let t = catalog_spec();
    assert(t[26].0 == "SHA3-512"@);
    reveal_strlit("RSA-1024");
    reveal_strlit("RSA-2048");
    reveal_strlit("RSA-3072");
    reveal_strlit("RSA-4096");
    reveal_strlit("ECDSA-P-256");
    reveal_strlit("ECDSA-P-384");
    reveal_strlit("ECDSA-P-521");
    reveal_strlit("ECDH-P-256");
    reveal_strlit("ECDH-P-384");
    reveal_strlit("ECDH-P-521");
    reveal_strlit("DSA");
    reveal_strlit("DH-1024");
    reveal_strlit("SHA-1");
    reveal_strlit("MD5");
    reveal_strlit("3DES");
    reveal_strlit("RC4");
    reveal_strlit("DES");
    reveal_strlit("SHA-256");
    reveal_strlit("AES-128");
    reveal_strlit("SHA-224");
    reveal_strlit("AES-256");
    reveal_strlit("AES-256-GCM");
    reveal_strlit("ChaCha20-Poly1305");
    reveal_strlit("SHA-384");
    reveal_strlit("SHA-512");
    reveal_strlit("SHA3-256");
    assert forall|j: int| 0 <= j < 26 implies #[trigger] t[j].0 != "SHA3-512"@ by {
        if j == 0 {
            assert(t[j].0[0] != "SHA3-512"@[0]);
        }
        if j == 1 {
            assert(t[j].0[0] != "SHA3-512"@[0]);
        }
        if j == 2 {
            assert(t[j].0[0] != "SHA3-512"@[0]);
        }
        if j == 3 {
            assert(t[j].0[0] != "SHA3-512"@[0]);
        }
        if j == 25 {
            assert(t[j].0[5] != "SHA3-512"@[5]);
        }
        assert(t[j].0.len() != "SHA3-512"@.len() || t[j].0 != "SHA3-512"@);
    }
    lemma_find_from(t, "SHA3-512"@, 26);
}

proof fn lemma_entry_ml_kem_512()
    ensures
        catalog_lookup("ML-KEM-512"@) == Some(catalog_spec()[27].1),
{
    reveal_strlit("ML-KEM-512");
    let t = catalog_spec();
    assert(t[27].0 == "ML-KEM-512"@);
    reveal_strlit("RSA-1024");
    reveal_strlit("RSA-2048");
    reveal_strlit("RSA-3072");
    reveal_strlit("RSA-4096");
    reveal_strlit("ECDSA-P-256");
    reveal_strlit("ECDSA-P-384");
    reveal_strlit("ECDSA-P-521");
    reveal_strlit("ECDH-P-256");
    reveal_strlit("ECDH-P-384");
    reveal_strlit("ECDH-P-521");
    reveal_strlit("DSA");
    reveal_strlit("DH-1024");
    reveal_strlit("SHA-1");
    reveal_strlit("MD5");
    reveal_strlit("3DES");
    reveal_strlit("RC4");
    reveal_strlit("DES");
    reveal_strlit("SHA-256");
    reveal_strlit("AES-128");
    reveal_strlit("SHA-224");
    reveal_strlit("AES-256");
    reveal_strlit("AES-256-GCM");
    reveal_strlit("ChaCha20-Poly1305");
    reveal_strlit("SHA-384");
    reveal_strlit("SHA-512");
    reveal_strlit("SHA3-256");
    reveal_strlit("SHA3-512");
    assert forall|j: int| 0 <= j < 27 implies #[trigger] t[j].0 != "ML-KEM-512"@ by {
        if j == 7 {
            assert(t[j].0[0] != "ML-KEM-512"@[0]);
        }
        if j == 8 {
            assert(t[j].0[0] != "ML-KEM-512"@[0]);
        }
        if j == 9 {
            assert(t[j].0[0] != "ML-KEM-512"@[0]);
        }
        assert(t[j].0.len() != "ML-KEM-512"@.len() || t[j].0 != "ML-KEM-512"@);
    }
    lemma_find_from(t, "ML-KEM-512"@, 27);
}

proof fn lemma_entry_ml_kem_768()
    ensures
        catalog_lookup("ML-KEM-768"@) == Some(catalog_spec()[28].1),
{
    reveal_strlit("ML-KEM-768");
    let t = catalog_spec();
    assert(t[28].0 == "ML-KEM-768"@);
    reveal_strlit("RSA-1024");
    reveal_strlit("RSA-2048");
    reveal_strlit("RSA-3072");
    reveal_strlit("RSA-4096");
    reveal_strlit("ECDSA-P-256");
    reveal_strlit("ECDSA-P-384");
    reveal_strlit("ECDSA-P-521");
    reveal_strlit("ECDH-P-256");
    reveal_strlit("ECDH-P-384");
    reveal_strlit("ECDH-P-521");
    reveal_strlit("DSA");
    reveal_strlit("DH-1024");
    reveal_strlit("SHA-1");
    reveal_strlit("MD5");
    reveal_strlit("3DES");
    reveal_strlit("RC4");
    reveal_strlit("DES");
    reveal_strlit("SHA-256");
    reveal_strlit("AES-128");
    reveal_strlit("SHA-224");
    reveal_strlit("AES-256");
    reveal_strlit("AES-256-GCM");
    reveal_strlit("ChaCha20-Poly1305");
    reveal_strlit("SHA-384");
    reveal_strlit("SHA-512");
    reveal_strlit("SHA3-256");
    reveal_strlit("SHA3-512");
    reveal_strlit("ML-KEM-512");
    assert forall|j: int| 0 <= j < 28 implies #[trigger] t[j].0 != "ML-KEM-768"@ by {
        if j == 7 {
            assert(t[j].0[0] != "ML-KEM-768"@[0]);
        }
        if j == 8 {
            assert(t[j].0[0] != "ML-KEM-768"@[0]);
        }
        if j == 9 {
            assert(t[j].0[0] != "ML-KEM-768"@[0]);
        }
        if j == 27 {
            assert(t[j].0[7] != "ML-KEM-768"@[7]);
        }
        assert(t[j].0.len() != "ML-KEM-768"@.len() || t[j].0 != "ML-KEM-768"@);
    }
    lemma_find_from(t, "ML-KEM-768"@, 28);
}

proof fn lemma_entry_ml_kem_1024()
    ensures
        catalog_lookup("ML-KEM-1024"@) == Some(catalog_spec()[29].1),
{
    reveal_strlit("ML-KEM-1024");
    let t = catalog_spec();
    assert(t[29].0 == "ML-KEM-1024"@);
    reveal_strlit("RSA-1024");
    reveal_strlit("RSA-2048");
    reveal_strlit("RSA-3072");
    reveal_strlit("RSA-4096");
    reveal_strlit("ECDSA-P-256");
    reveal_strlit("ECDSA-P-384");
    reveal_strlit("ECDSA-P-521");
    reveal_strlit("ECDH-P-256");
    reveal_strlit("ECDH-P-384");
    reveal_strlit("ECDH-P-521");
    reveal_strlit("DSA");
    reveal_strlit("DH-1024");
    reveal_strlit("SHA-1");
    reveal_strlit("MD5");
    reveal_strlit("3DES");
    reveal_strlit("RC4");
    reveal_strlit("DES");
    reveal_strlit("SHA-256");
    reveal_strlit("AES-128");
    reveal_strlit("SHA-224");
    reveal_strlit("AES-256");
    reveal_strlit("AES-256-GCM");
    reveal_strlit("ChaCha20-Poly1305");
    reveal_strlit("SHA-384");
    reveal_strlit("SHA-512");
    reveal_strlit("SHA3-256");
    reveal_strlit("SHA3-512");
    reveal_strlit("ML-KEM-512");
    reveal_strlit("ML-KEM-768");
    assert forall|j: int| 0 <= j < 29 implies #[trigger] t[j].0 != "ML-KEM-1024"@ by {
        if j == 4 {
            assert(t[j].0[0] != "ML-KEM-1024"@[0]);
        }
        if j == 5 {
            assert(t[j].0[0] != "ML-KEM-1024"@[0]);
        }
        if j == 6 {
            assert(t[j].0[0] != "ML-KEM-1024"@[0]);
        }
        if j == 21 {
            assert(t[j].0[0] != "ML-KEM-1024"@[0]);
        }
        assert(t[j].0.len() != "ML-KEM-1024"@.len() || t[j].0 != "ML-KEM-1024"@);
    }
    lemma_find_from(t, "ML-KEM-1024"@, 29);
}

proof fn lemma_entry_ml_dsa_44()
    ensures
        catalog_lookup("ML-DSA-44"@) == Some(catalog_spec()[30].1),
{
    reveal_strlit("ML-DSA-44");
    let t = catalog_spec();
    assert(t[30].0 == "ML-DSA-44"@);
    reveal_strlit("RSA-1024");
    reveal_strlit("RSA-2048");
    reveal_strlit("RSA-3072");
    reveal_strlit("RSA-4096");
    reveal_strlit("ECDSA-P-256");
    reveal_strlit("ECDSA-P-384");
    reveal_strlit("ECDSA-P-521");
    reveal_strlit("ECDH-P-256");
    reveal_strlit("ECDH-P-384");
    reveal_strlit("ECDH-P-521");
    reveal_strlit("DSA");
    reveal_strlit("DH-1024");
    reveal_strlit("SHA-1");
    reveal_strlit("MD5");
    reveal_strlit("3DES");
    reveal_strlit("RC4");
    reveal_strlit("DES");
    reveal_strlit("SHA-256");
    reveal_strlit("AES-128");
    reveal_strlit("SHA-224");
    reveal_strlit("AES-256");
    reveal_strlit("AES-256-GCM");
    reveal_strlit("ChaCha20-Poly1305");
    reveal_strlit("SHA-384");
    reveal_strlit("SHA-512");
    reveal_strlit("SHA3-256");
    reveal_strlit("SHA3-512");
    reveal_strlit("ML-KEM-512");
    reveal_strlit("ML-KEM-768");
    reveal_strlit("ML-KEM-1024");
    assert forall|j: int| 0 <= j < 30 implies #[trigger] t[j].0 != "ML-DSA-44"@ by {
        assert(t[j].0.len() != "ML-DSA-44"@.len() || t[j].0 != "ML-DSA-44"@);
    }
    lemma_find_from(t, "ML-DSA-44"@, 30);
}

proof fn lemma_entry_ml_dsa_65()
    ensures
        catalog_lookup("ML-DSA-65"@) == Some(catalog_spec()[31].1),
{
    reveal_strlit("ML-DSA-65");
    let t = catalog_spec();
    assert(t[31].0 == "ML-DSA-65"@);
    reveal_strlit("RSA-1024");
    reveal_strlit("RSA-2048");
    reveal_strlit("RSA-3072");
    reveal_strlit("RSA-4096");
    reveal_strlit("ECDSA-P-256");
    reveal_strlit("ECDSA-P-384");
    reveal_strlit("ECDSA-P-521");
    reveal_strlit("ECDH-P-256");
    reveal_strlit("ECDH-P-384");
    reveal_strlit("ECDH-P-521");
    reveal_strlit("DSA");
    reveal_strlit("DH-1024");
    reveal_strlit("SHA-1");
    reveal_strlit("MD5");
    reveal_strlit("3DES");
    reveal_strlit("RC4");
    reveal_strlit("DES");
    reveal_strlit("SHA-256");
    reveal_strlit("AES-128");
    reveal_strlit("SHA-224");
    reveal_strlit("AES-256");
    reveal_strlit("AES-256-GCM");
    reveal_strlit("ChaCha20-Poly1305");
    reveal_strlit("SHA-384");
    reveal_strlit("SHA-512");
    reveal_strlit("SHA3-256");
    reveal_strlit("SHA3-512");
    reveal_strlit("ML-KEM-512");
    reveal_strlit("ML-KEM-768");
    reveal_strlit("ML-KEM-1024");
    reveal_strlit("ML-DSA-44");
    assert forall|j: int| 0 <= j < 31 implies #[trigger] t[j].0 != "ML-DSA-65"@ by {
        if j == 30 {
            assert(t[j].0[7] != "ML-DSA-65"@[7]);
        }
        assert(t[j].0.len() != "ML-DSA-65"@.len() || t[j].0 != "ML-DSA-65"@);
    }
    lemma_find_from(t, "ML-DSA-65"@, 31);
}

proof fn lemma_entry_ml_dsa_87()
    ensures
        catalog_lookup("ML-DSA-87"@) == Some(catalog_spec()[32].1),
{
    reveal_strlit("ML-DSA-87");
    let t = catalog_spec();
    assert(t[32].0 == "ML-DSA-87"@);
    reveal_strlit("RSA-1024");
    reveal_strlit("RSA-2048");
    reveal_strlit("RSA-3072");
    reveal_strlit("RSA-4096");
    reveal_strlit("ECDSA-P-256");
    reveal_strlit("ECDSA-P-384");
    reveal_strlit("ECDSA-P-521");
    reveal_strlit("ECDH-P-256");
    reveal_strlit("ECDH-P-384");
    reveal_strlit("ECDH-P-521");
    reveal_strlit("DSA");
    reveal_strlit("DH-1024");
    reveal_strlit("SHA-1");
    reveal_strlit("MD5");
    reveal_strlit("3DES");
    reveal_strlit("RC4");
    reveal_strlit("DES");
    reveal_strlit("SHA-256");
    reveal_strlit("AES-128");
    reveal_strlit("SHA-224");
    reveal_strlit("AES-256");
    reveal_strlit("AES-256-GCM");
    reveal_strlit("ChaCha20-Poly1305");
    reveal_strlit("SHA-384");
    reveal_strlit("SHA-512");
    reveal_strlit("SHA3-256");
    reveal_strlit("SHA3-512");
    reveal_strlit("ML-KEM-512");
    reveal_strlit("ML-KEM-768");
    reveal_strlit("ML-KEM-1024");
    reveal_strlit("ML-DSA-44");
    reveal_strlit("ML-DSA-65");
    assert forall|j: int| 0 <= j < 32 implies #[trigger] t[j].0 != "ML-DSA-87"@ by {
        if j == 30 {
            assert(t[j].0[7] != "ML-DSA-87"@[7]);
        }
        if j == 31 {
            assert(t[j].0[7] != "ML-DSA-87"@[7]);
        }
        assert(t[j].0.len() != "ML-DSA-87"@.len() || t[j].0 != "ML-DSA-87"@);
    }
    lemma_find_from(t, "ML-DSA-87"@, 32);
}

proof fn lemma_entry_slh_dsa_128s()
    ensures
        catalog_lookup("SLH-DSA-128s"@) == Some(catalog_spec()[33].1),
{
    reveal_strlit("SLH-DSA-128s");
    let t = catalog_spec();
    assert(t[33].0 == "SLH-DSA-128s"@);
    reveal_strlit("RSA-1024");
    reveal_strlit("RSA-2048");
    reveal_strlit("RSA-3072");
    reveal_strlit("RSA-4096");
    reveal_strlit("ECDSA-P-256");
    reveal_strlit("ECDSA-P-384");
    reveal_strlit("ECDSA-P-521");
    reveal_strlit("ECDH-P-256");
    reveal_strlit("ECDH-P-384");
    reveal_strlit("ECDH-P-521");
    reveal_strlit("DSA");
    reveal_strlit("DH-1024");
    reveal_strlit("SHA-1");
    reveal_strlit("MD5");
    reveal_strlit("3DES");
    reveal_strlit("RC4");
    reveal_strlit("DES");
    reveal_strlit("SHA-256");
    reveal_strlit("AES-128");
    reveal_strlit("SHA-224");
    reveal_strlit("AES-256");
    reveal_strlit("AES-256-GCM");
    reveal_strlit("ChaCha20-Poly1305");
    reveal_strlit("SHA-384");
    reveal_strlit("SHA-512");
    reveal_strlit("SHA3-256");
    reveal_strlit("SHA3-512");
    reveal_strlit("ML-KEM-512");
    reveal_strlit("ML-KEM-768");
    reveal_strlit("ML-KEM-1024");
    reveal_strlit("ML-DSA-44");
    reveal_strlit("ML-DSA-65");
    reveal_strlit("ML-DSA-87");
    assert forall|j: int| 0 <= j < 33 implies #[trigger] t[j].0 != "SLH-DSA-128s"@ by {
        assert(t[j].0.len() != "SLH-DSA-128s"@.len() || t[j].0 != "SLH-DSA-128s"@);
    }
    lemma_find_from(t, "SLH-DSA-128s"@, 33);
}

proof fn lemma_entry_slh_dsa_256s()
    ensures
        catalog_lookup("SLH-DSA-256s"@) == Some(catalog_spec()[34].1),
{
    reveal_strlit("SLH-DSA-256s");
    let t = catalog_spec();
    assert(t[34].0 == "SLH-DSA-256s"@);
    reveal_strlit("RSA-1024");
    reveal_strlit("RSA-2048");
    reveal_strlit("RSA-3072");
    reveal_strlit("RSA-4096");
    reveal_strlit("ECDSA-P-256");
    reveal_strlit("ECDSA-P-384");
    reveal_strlit("ECDSA-P-521");
    reveal_strlit("ECDH-P-256");
    reveal_strlit("ECDH-P-384");
    reveal_strlit("ECDH-P-521");
    reveal_strlit("DSA");
    reveal_strlit("DH-1024");
    reveal_strlit("SHA-1");
    reveal_strlit("MD5");
    reveal_strlit("3DES");
    reveal_strlit("RC4");
    reveal_strlit("DES");
    reveal_strlit("SHA-256");
    reveal_strlit("AES-128");
    reveal_strlit("SHA-224");
    reveal_strlit("AES-256");
    reveal_strlit("AES-256-GCM");
    reveal_strlit("ChaCha20-Poly1305");
    reveal_strlit("SHA-384");
    reveal_strlit("SHA-512");
    reveal_strlit("SHA3-256");
    reveal_strlit("SHA3-512");
    reveal_strlit("ML-KEM-512");
    reveal_strlit("ML-KEM-768");
    reveal_strlit("ML-KEM-1024");
    reveal_strlit("ML-DSA-44");
    reveal_strlit("ML-DSA-65");
    reveal_strlit("ML-DSA-87");
    reveal_strlit("SLH-DSA-128s");
    assert forall|j: int| 0 <= j < 34 implies #[trigger] t[j].0 != "SLH-DSA-256s"@ by {
        if j == 33 {
            assert(t[j].0[8] != "SLH-DSA-256s"@[8]);
        }
        assert(t[j].0.len() != "SLH-DSA-256s"@.len() || t[j].0 != "SLH-DSA-256s"@);
    }
    lemma_find_from(t, "SLH-DSA-256s"@, 34);
}

proof fn lemma_entry_ed25519()
    ensures
        catalog_lookup("Ed25519"@) == Some(catalog_spec()[35].1),
{
    reveal_strlit("Ed25519");
    let t = catalog_spec();
    assert(t[35].0 == "Ed25519"@);
    reveal_strlit("RSA-1024");
    reveal_strlit("RSA-2048");
    reveal_strlit("RSA-3072");
    reveal_strlit("RSA-4096");
    reveal_strlit("ECDSA-P-256");
    reveal_strlit("ECDSA-P-384");
    reveal_strlit("ECDSA-P-521");
    reveal_strlit("ECDH-P-256");
    reveal_strlit("ECDH-P-384");
    reveal_strlit("ECDH-P-521");
    reveal_strlit("DSA");
    reveal_strlit("DH-1024");
    reveal_strlit("SHA-1");
    reveal_strlit("MD5");
    reveal_strlit("3DES");
    reveal_strlit("RC4");
    reveal_strlit("DES");
    reveal_strlit("SHA-256");
    reveal_strlit("AES-128");
    reveal_strlit("SHA-224");
    reveal_strlit("AES-256");
    reveal_strlit("AES-256-GCM");
    reveal_strlit("ChaCha20-Poly1305");
    reveal_strlit("SHA-384");
    reveal_strlit("SHA-512");
    reveal_strlit("SHA3-256");
    reveal_strlit("SHA3-512");
    reveal_strlit("ML-KEM-512");
    reveal_strlit("ML-KEM-768");
    reveal_strlit("ML-KEM-1024");
    reveal_strlit("ML-DSA-44");
    reveal_strlit("ML-DSA-65");
    reveal_strlit("ML-DSA-87");
    reveal_strlit("SLH-DSA-128s");
    reveal_strlit("SLH-DSA-256s");
    assert forall|j: int| 0 <= j < 35 implies #[trigger] t[j].0 != "Ed25519"@ by {
        if j == 11 {
            assert(t[j].0[0] != "Ed25519"@[0]);
        }
        if j == 17 {
            assert(t[j].0[0] != "Ed25519"@[0]);
        }
        if j == 18 {
            assert(t[j].0[0] != "Ed25519"@[0]);
        }
        if j == 19 {
            assert(t[j].0[0] != "Ed25519"@[0]);
        }
        if j == 20 {
            assert(t[j].0[0] != "Ed25519"@[0]);
        }
        if j == 23 {
            assert(t[j].0[0] != "Ed25519"@[0]);
        }
        if j == 24 {
            assert(t[j].0[0] != "Ed25519"@[0]);
        }
        assert(t[j].0.len() != "Ed25519"@.len() || t[j].0 != "Ed25519"@);
    }
    lemma_find_from(t, "Ed25519"@, 35);
}

proof fn lemma_entry_x25519()
    ensures
        catalog_lookup("X25519"@) == Some(catalog_spec()[36].1),
{
    reveal_strlit("X25519");
    let t = catalog_spec();
    assert(t[36].0 == "X25519"@);
    reveal_strlit("RSA-1024");
    reveal_strlit("RSA-2048");
    reveal_strlit("RSA-3072");
    reveal_strlit("RSA-4096");
    reveal_strlit("ECDSA-P-256");
    reveal_strlit("ECDSA-P-384");
    reveal_strlit("ECDSA-P-521");
    reveal_strlit("ECDH-P-256");
    reveal_strlit("ECDH-P-384");
    reveal_strlit("ECDH-P-521");
    reveal_strlit("DSA");
    reveal_strlit("DH-1024");
    reveal_strlit("SHA-1");
    reveal_strlit("MD5");
    reveal_strlit("3DES");
    reveal_strlit("RC4");
    reveal_strlit("DES");
    reveal_strlit("SHA-256");
    reveal_strlit("AES-128");
    reveal_strlit("SHA-224");
    reveal_strlit("AES-256");
    reveal_strlit("AES-256-GCM");
    reveal_strlit("ChaCha20-Poly1305");
    reveal_strlit("SHA-384");
    reveal_strlit("SHA-512");
    reveal_strlit("SHA3-256");
    reveal_strlit("SHA3-512");
    reveal_strlit("ML-KEM-512");
    reveal_strlit("ML-KEM-768");
    reveal_strlit("ML-KEM-1024");
    reveal_strlit("ML-DSA-44");
    reveal_strlit("ML-DSA-65");
    reveal_strlit("ML-DSA-87");
    reveal_strlit("SLH-DSA-128s");
    reveal_strlit("SLH-DSA-256s");
    reveal_strlit("Ed25519");
    assert forall|j: int| 0 <= j < 36 implies #[trigger] t[j].0 != "X25519"@ by {
        assert(t[j].0.len() != "X25519"@.len() || t[j].0 != "X25519"@);
    }
    lemma_find_from(t, "X25519"@, 36);
}

proof fn lemma_entry_x25519mlkem768()
    ensures
        catalog_lookup("X25519MLKEM768"@) == Some(catalog_spec()[37].1),
{
    reveal_strlit("X25519MLKEM768");
    let t = catalog_spec();
    assert(t[37].0 == "X25519MLKEM768"@);
    reveal_strlit("RSA-1024");
    reveal_strlit("RSA-2048");
    reveal_strlit("RSA-3072");
    reveal_strlit("RSA-4096");
    reveal_strlit("ECDSA-P-256");
    reveal_strlit("ECDSA-P-384");
    reveal_strlit("ECDSA-P-521");
    reveal_strlit("ECDH-P-256");
    reveal_strlit("ECDH-P-384");
    reveal_strlit("ECDH-P-521");
    reveal_strlit("DSA");
    reveal_strlit("DH-1024");
    reveal_strlit("SHA-1");
    reveal_strlit("MD5");
    reveal_strlit("3DES");
    reveal_strlit("RC4");
    reveal_strlit("DES");
    reveal_strlit("SHA-256");
    reveal_strlit("AES-128");
    reveal_strlit("SHA-224");
    reveal_strlit("AES-256");
    reveal_strlit("AES-256-GCM");
    reveal_strlit("ChaCha20-Poly1305");
    reveal_strlit("SHA-384");
    reveal_strlit("SHA-512");
    reveal_strlit("SHA3-256");
    reveal_strlit("SHA3-512");
    reveal_strlit("ML-KEM-512");
    reveal_strlit("ML-KEM-768");
    reveal_strlit("ML-KEM-1024");
    reveal_strlit("ML-DSA-44");
    reveal_strlit("ML-DSA-65");
    reveal_strlit("ML-DSA-87");
    reveal_strlit("SLH-DSA-128s");
    reveal_strlit("SLH-DSA-256s");
    reveal_strlit("Ed25519");
    reveal_strlit("X25519");
    assert forall|j: int| 0 <= j < 37 implies #[trigger] t[j].0 != "X25519MLKEM768"@ by {
        assert(t[j].0.len() != "X25519MLKEM768"@.len() || t[j].0 != "X25519MLKEM768"@);
    }
    lemma_find_from(t, "X25519MLKEM768"@, 37);
}

} // verus!
