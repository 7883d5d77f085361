//! DER walking for key material: length fields, RSA modulus sizes, EC named
//! curves, PKCS#1 / PKCS#8 / SEC1 private keys, and the assets that PEM key
//! blocks stand for.
use vstd::prelude::*;
use crate::catalog::{classify, classify_by_name};
use crate::model::{
    asset_view, AssetType, AssetView, Classification, CryptoAsset, Evidence, Location,
    LocationView, opt_view,
};
use crate::text::{
    chars_of, contains, contains_bytes, decimal, decimal_string, has_infix, string_of, to_upper,
    unicode_upper,
};

verus! {

// ── Byte-level specification ──────────────────────────────────────────────────

/// Big-endian value of a byte string.
pub open spec fn be_num(s: Seq<u8>) -> nat
    decreases s.len(),
{
    if s.len() == 0 {
        0
    } else {
        (be_num(s.drop_last()) * 256 + s.last()) as nat
    }
}

/// A DER length field at the start of `d`: (extra bytes after the first, value).
/// Short form below 0x80; long form with 1 to 4 length bytes.
pub open spec fn der_length(d: Seq<u8>) -> Option<(nat, nat)> {
    if d.len() == 0 {
        None
    } else if d[0] < 0x80 {
        Some((0, d[0] as nat))
    } else {
        let n = (d[0] - 0x80) as nat;
        if n == 0 || n > 4 || d.len() < 1 + n {
            None
        } else {
            Some((n, be_num(d.subrange(1, 1 + n as int))))
        }
    }
}

/// `d[n..]`, if `n` is within bounds.
pub open spec fn skip_opt(d: Seq<u8>, n: int) -> Option<Seq<u8>> {
    if 0 <= n <= d.len() {
        Some(d.skip(n))
    } else {
        None
    }
}

/// `d[a..b]`, if the range is within bounds.
pub open spec fn slice_opt(d: Seq<u8>, a: int, b: int) -> Option<Seq<u8>> {
    if 0 <= a <= b <= d.len() {
        Some(d.subrange(a, b))
    } else {
        None
    }
}

/// A DER integer's bytes without the leading zero that marks it positive.
pub open spec fn strip_sign(m: Seq<u8>) -> Seq<u8> {
    if m.len() > 0 && m[0] == 0 {
        m.skip(1)
    } else {
        m
    }
}

/// The content after an element's tag and length, when `d` starts with `tag`.
pub open spec fn after_header(d: Seq<u8>, tag: u8) -> Option<Seq<u8>> {
    if d.len() == 0 || d[0] != tag {
        None
    } else {
        match der_length(d.skip(1)) {
            None => None,
            Some((e, _)) => skip_opt(d, 2 + e as int),
        }
    }
}

/// The content of an element of type `tag` at the start of `d`, and what follows it.
pub open spec fn element(d: Seq<u8>, tag: u8) -> Option<(Seq<u8>, Seq<u8>)> {
    if d.len() == 0 || d[0] != tag {
        None
    } else {
        match der_length(d.skip(1)) {
            None => None,
            Some((e, l)) => match slice_opt(d, 2 + e as int, 2 + e as int + l as int) {
                None => None,
                Some(c) => Some((c, d.skip(2 + e as int + l as int))),
            },
        }
    }
}

/// `d` starts with the INTEGER `v` encoded in one byte (`02 01 v`).
pub open spec fn starts_with_small_int(d: Seq<u8>, v: u8) -> bool {
    d.len() >= 3 && d[0] == 0x02 && d[1] == 0x01 && d[2] == v
}

/// Bit length of the modulus in a DER RSAPublicKey (`SEQUENCE { modulus, exponent }`).
pub open spec fn rsa_public_modulus_bits(k: Seq<u8>) -> Option<nat> {
    match after_header(k, 0x30) {
        None => None,
        Some(c) => match element(c, 0x02) {
            None => None,
            Some((m, _)) => Some(strip_sign(m).len() * 8),
        },
    }
}

/// Bit length of the modulus in a PKCS#1 RSAPrivateKey (`SEQUENCE { 0, modulus, ... }`).
pub open spec fn pkcs1_rsa_bits(d: Seq<u8>) -> Option<nat> {
    match after_header(d, 0x30) {
        None => None,
        Some(c) => if !starts_with_small_int(c, 0) {
            None
        } else {
            match element(c.skip(3), 0x02) {
                None => None,
                Some((m, _)) => Some(strip_sign(m).len() * 8),
            }
        },
    }
}

/// Bit length of the RSA modulus in a PKCS#8 PrivateKeyInfo
/// (`SEQUENCE { 0, AlgorithmIdentifier, OCTET STRING { RSAPrivateKey } }`).
pub open spec fn pkcs8_rsa_bits(d: Seq<u8>) -> Option<nat> {
    match after_header(d, 0x30) {
        None => None,
        Some(c) => if !starts_with_small_int(c, 0) {
            None
        } else {
            match element(c.skip(3), 0x30) {
                None => None,
                Some((_, rest)) => match after_header(rest, 0x04) {
                    None => None,
                    Some(inner) => pkcs1_rsa_bits(inner),
                },
            }
        },
    }
}

/// The named curve of an EC OID's value bytes.
pub open spec fn curve_of_oid(oid: Seq<u8>) -> Option<Seq<char>> {
    if oid == seq![0x2au8, 0x86, 0x48, 0xce, 0x3d, 0x03, 0x01, 0x07] {
        Some("P-256"@)
    } else if oid == seq![0x2bu8, 0x81, 0x04, 0x00, 0x22] {
        Some("P-384"@)
    } else if oid == seq![0x2bu8, 0x81, 0x04, 0x00, 0x23] {
        Some("P-521"@)
    } else if oid == seq![0x2bu8, 0x81, 0x04, 0x00, 0x0a] {
        Some("secp256k1"@)
    } else {
        None
    }
}

/// The named curve of a PKCS#8 EC private key: the second OID of its AlgorithmIdentifier.
pub open spec fn pkcs8_ec_curve(d: Seq<u8>) -> Option<Seq<char>> {
    match after_header(d, 0x30) {
        None => None,
        Some(c) => if !starts_with_small_int(c, 0) {
            None
        } else {
            match after_header(c.skip(3), 0x30) {
                None => None,
                Some(algid) => match element(algid, 0x06) {
                    None => None,
                    Some((_, rest)) => match element(rest, 0x06) {
                        None => None,
                        Some((oid, _)) => curve_of_oid(oid),
                    },
                },
            }
        },
    }
}

/// The named curve of a SEC1 ECPrivateKey: the OID in its `[0]` parameters.
pub open spec fn sec1_ec_curve(d: Seq<u8>) -> Option<Seq<char>> {
    match after_header(d, 0x30) {
        None => None,
        Some(c) => if !starts_with_small_int(c, 1) {
            None
        } else {
            match element(c.skip(3), 0x04) {
                None => None,
                Some((_, rest)) => match after_header(rest, 0xa0) {
                    None => None,
                    Some(params) => match element(params, 0x06) {
                        None => None,
                        Some((oid, _)) => curve_of_oid(oid),
                    },
                },
            }
        },
    }
}

/// Standard RSA key sizes: a bit count is rounded to the first standard size
/// that it does not exceed by more than 8 bits.
pub open spec fn round_rsa(bits: nat) -> nat {
    if bits <= 520 {
        512
    } else if bits <= 1032 {
        1024
    } else if bits <= 2056 {
        2048
    } else if bits <= 3080 {
        3072
    } else if bits <= 4104 {
        4096
    } else if bits <= 8200 {
        8192
    } else {
        bits
    }
}

pub open spec fn rsa_oid_bytes() -> Seq<u8> {
    seq![0x2au8, 0x86, 0x48, 0x86, 0xf7, 0x0d, 0x01, 0x01, 0x01]
}

pub open spec fn ec_public_key_oid_bytes() -> Seq<u8> {
    seq![0x2au8, 0x86, 0x48, 0xce, 0x3d, 0x02, 0x01]
}

pub open spec fn dsa_oid_bytes() -> Seq<u8> {
    seq![0x2au8, 0x86, 0x48, 0xce, 0x38, 0x04, 0x01]
}

/// The first 64 bytes of a DER blob, where algorithm OIDs are searched for.
pub open spec fn head64(d: Seq<u8>) -> Seq<u8> {
    if d.len() <= 64 {
        d
    } else {
        d.take(64)
    }
}

pub open spec fn opt_decimal(o: Option<nat>) -> Option<Seq<char>> {
    match o {
        Some(b) => Some(decimal(round_rsa(b))),
        None => None,
    }
}

/// Algorithm and parameter of an unencrypted PKCS#8 private key, found by the
/// algorithm OID among its first 64 bytes.
pub open spec fn pkcs8_algo_param(d: Seq<u8>) -> (Seq<char>, Option<Seq<char>>) {
    let s = head64(d);
    if has_infix(s, rsa_oid_bytes()) {
        ("RSA"@, opt_decimal(pkcs8_rsa_bits(d)))
    } else if has_infix(s, ec_public_key_oid_bytes()) {
        ("ECDSA"@, pkcs8_ec_curve(d))
    } else if has_infix(s, dsa_oid_bytes()) {
        ("DSA"@, None)
    } else if has_infix(s, seq![0x2bu8, 0x65, 0x70]) {
        ("Ed25519"@, None)
    } else if has_infix(s, seq![0x2bu8, 0x65, 0x71]) {
        ("Ed448"@, None)
    } else if has_infix(s, seq![0x2bu8, 0x65, 0x6e]) {
        ("X25519"@, None)
    } else {
        ("Unknown"@, None)
    }
}

/// Algorithm of an encrypted PKCS#8 key, guessed from an OID in its first 64 bytes.
pub open spec fn pkcs8_algo_hint(d: Seq<u8>) -> Seq<char> {
    let s = head64(d);
    if has_infix(s, rsa_oid_bytes()) {
        "RSA"@
    } else if has_infix(s, ec_public_key_oid_bytes()) {
        "ECDSA"@
    } else {
        "Unknown"@
    }
}

/// Algorithm and parameter of a PEM private key block, by its (upper-cased) label.
pub open spec fn private_key_algo_param(tag_up: Seq<char>, der: Seq<u8>) -> (
    Seq<char>,
    Option<Seq<char>>,
) {
    if has_infix(tag_up, "RSA PRIVATE KEY"@) {
        ("RSA"@, opt_decimal(pkcs1_rsa_bits(der)))
    } else if has_infix(tag_up, "EC PRIVATE KEY"@) {
        ("ECDSA"@, sec1_ec_curve(der))
    } else if has_infix(tag_up, "DSA PRIVATE KEY"@) {
        ("DSA"@, None)
    } else if has_infix(tag_up, "OPENSSH"@) {
        ("OpenSSH"@, None)
    } else if has_infix(tag_up, "ENCRYPTED"@) {
        (pkcs8_algo_hint(der), None)
    } else {
        pkcs8_algo_param(der)
    }
}

/// `algo-param`, or `algo` alone.
pub open spec fn joined_name(algo: Seq<char>, param: Option<Seq<char>>) -> Seq<char> {
    match param {
        Some(p) => algo + "-"@ + p,
        None => algo,
    }
}

/// The asset a PEM private key block stands for.
pub open spec fn private_key_view(tag: Seq<char>, der: Seq<u8>, loc: LocationView) -> AssetView {
    let (algo, param) = private_key_algo_param(unicode_upper(tag), der);
    let name = joined_name(algo, param);
    asset_view(
        AssetType::PrivateKey,
        name,
        None,
        param,
        classify(name),
        seq![loc],
        Evidence::CertificateParsing,
    )
}

/// The algorithm a PEM public key label names.
pub open spec fn public_key_algo(tag_up: Seq<char>) -> Seq<char> {
    if has_infix(tag_up, "RSA"@) {
        "RSA"@
    } else if has_infix(tag_up, "EC"@) {
        "ECDSA"@
    } else {
        "Unknown"@
    }
}

/// The asset a PEM public key block stands for.
pub open spec fn public_key_view(tag: Seq<char>, loc: LocationView) -> AssetView {
    let algo = public_key_algo(unicode_upper(tag));
    asset_view(
        AssetType::PublicKey,
        algo,
        None,
        None,
        classify(algo),
        seq![loc],
        Evidence::CertificateParsing,
    )
}

// ── Executable walkers ────────────────────────────────────────────────────────

/// `d[n..]` as a slice.
fn tail(d: &[u8], n: usize) -> (r: &[u8])
    requires
        n <= d.len(),
    ensures
        r@ == d@.skip(n as int),
{
    let r = &d[n..d.len()];
    assert(r@ =~= d@.skip(n as int));
    r
}

/// Parses a DER length field: (extra bytes consumed, length value).
pub fn parse_der_length(data: &[u8]) -> (r: Option<(usize, usize)>)
    ensures
        match r {
            Some((e, l)) => der_length(data@) == Some((e as nat, l as nat)),
            None => der_length(data@) is None,
        },
{
    if data.len() == 0 {
        return None;
    }
    let first = data[0];
    if first < 0x80 {
        return Some((0, first as usize));
    }
    let n = (first - 0x80) as usize;
    if n == 0 || n > 4 || data.len() < 1 + n {
        return None;
    }
    let ghost bytes = data@.subrange(1, 1 + n as int);
    let mut len: usize = 0;
    let mut k: usize = 0;
    assert(bytes.take(0) =~= Seq::<u8>::empty());
    while k < n
        invariant
            n <= 4,
            1 + n <= data.len(),
            k <= n,
            bytes == data@.subrange(1, 1 + n as int),
            len as nat == be_num(bytes.take(k as int)),
            k == 0 ==> len < 1,
            k == 1 ==> len < 256,
            k == 2 ==> len < 65536,
            k == 3 ==> len < 16777216,
            k == 4 ==> len < 4294967296,
        decreases n - k,
    {
        assert(bytes.take(k + 1).drop_last() =~= bytes.take(k as int));
        let b = data[1 + k];
        assert(bytes[k as int] == b);
        len = len * 256 + b as usize;
        k = k + 1;
    }
    assert(bytes.take(n as int) =~= bytes);
    Some((n, len))
}

/// The content after an element's header (see [`after_header`]).
fn after_header_exec(d: &[u8], tag: u8) -> (r: Option<&[u8]>)
    ensures
        match r {
            Some(c) => after_header(d@, tag) == Some(c@),
            None => after_header(d@, tag) is None,
        },
{
    if d.len() == 0 || d[0] != tag {
        return None;
    }
    let rest = tail(d, 1);
    match parse_der_length(rest) {
        None => None,
        Some((e, _)) => {
            if e > d.len() - 2 {
                None
            } else {
                Some(tail(d, 2 + e))
            }
        },
    }
}

/// An element's content and what follows it (see [`element`]).
fn element_exec(d: &[u8], tag: u8) -> (r: Option<(&[u8], &[u8])>)
    ensures
        match r {
            Some((c, rest)) => element(d@, tag) == Some((c@, rest@)),
            None => element(d@, tag) is None,
        },
{
    if d.len() == 0 || d[0] != tag {
        return None;
    }
    let rest = tail(d, 1);
    match parse_der_length(rest) {
        None => None,
        Some((e, l)) => {
            if d.len() < 2 || e > d.len() - 2 || l > d.len() - 2 - e {
                None
            } else {
                let start = 2 + e;
                let end = start + l;
                let c = &d[start..end];
                Some((c, tail(d, end)))
            }
        },
    }
}

fn starts_with_small_int_exec(d: &[u8], v: u8) -> (b: bool)
    ensures
        b == starts_with_small_int(d@, v),
{
    d.len() >= 3 && d[0] == 0x02 && d[1] == 0x01 && d[2] == v
}

fn strip_sign_len(m: &[u8]) -> (n: usize)
    ensures
        n == strip_sign(m@).len(),
{
    if m.len() > 0 && m[0] == 0 {
        m.len() - 1
    } else {
        m.len()
    }
}

fn bits_of(n: usize) -> (r: u64)
    requires
        n < 4294967296,
    ensures
        r == n * 8,
{
    (n as u64) * 8
}

/// Modulus bit length of a DER RSAPublicKey.
pub fn rsa_modulus_bits(key_data: &[u8]) -> (r: Option<u64>)
    ensures
        match r {
            Some(b) => rsa_public_modulus_bits(key_data@) == Some(b as nat),
            None => rsa_public_modulus_bits(key_data@) is None,
        },
{
    let c = after_header_exec(key_data, 0x30)?;
    let (m, _) = element_exec(c, 0x02)?;
    proof { lemma_element_len(c@, 0x02); }
    Some(bits_of(strip_sign_len(m)))
}

/// The content of an element found by [`element`] is shorter than 2^32 bytes
/// (its length field has at most four bytes).
pub proof fn lemma_element_len(d: Seq<u8>, tag: u8)
    ensures
        element(d, tag) matches Some((c, _)) ==> c.len() < 4294967296,
{
    if let Some((c, _)) = element(d, tag) {
        let s = d.skip(1);
        let (e, l) = der_length(s).unwrap();
        if s[0] >= 0x80 {
            let n = (s[0] - 0x80) as nat;
            lemma_be_num_bound(s.subrange(1, 1 + n as int));
            if n == 1 {
            } else if n == 2 {
            } else if n == 3 {
            } else {
            }
        }
    }
}

/// The value of `k` big-endian bytes is below 256^k (for k up to 4).
pub proof fn lemma_be_num_bound(s: Seq<u8>)
    requires
        s.len() <= 4,
    ensures
        s.len() == 0 ==> be_num(s) < 1,
        s.len() == 1 ==> be_num(s) < 256,
        s.len() == 2 ==> be_num(s) < 65536,
        s.len() == 3 ==> be_num(s) < 16777216,
        s.len() == 4 ==> be_num(s) < 4294967296,
    decreases s.len(),
{
    if s.len() > 0 {
        lemma_be_num_bound(s.drop_last());
    }
}

/// Rounds a bit count to the standard RSA key size (see [`round_rsa`]).
pub fn round_rsa_bits(bits: u64) -> (r: u64)
    ensures
        r == round_rsa(bits as nat),
{
    if bits <= 520 {
        512
    } else if bits <= 1032 {
        1024
    } else if bits <= 2056 {
        2048
    } else if bits <= 3080 {
        3072
    } else if bits <= 4104 {
        4096
    } else if bits <= 8200 {
        8192
    } else {
        bits
    }
}

/// Modulus bit length of a PKCS#1 RSAPrivateKey.
pub fn pkcs1_rsa_key_size(der: &[u8]) -> (r: Option<u64>)
    ensures
        match r {
            Some(b) => pkcs1_rsa_bits(der@) == Some(b as nat),
            None => pkcs1_rsa_bits(der@) is None,
        },
{
    let c = after_header_exec(der, 0x30)?;
    if !starts_with_small_int_exec(c, 0) {
        return None;
    }
    let (m, _) = element_exec(tail(c, 3), 0x02)?;
    proof { lemma_element_len(c@.skip(3), 0x02); }
    Some(bits_of(strip_sign_len(m)))
}

/// Modulus bit length of the RSA key inside a PKCS#8 PrivateKeyInfo.
pub fn pkcs8_rsa_key_size(der: &[u8]) -> (r: Option<u64>)
    ensures
        match r {
            Some(b) => pkcs8_rsa_bits(der@) == Some(b as nat),
            None => pkcs8_rsa_bits(der@) is None,
        },
{
    let c = after_header_exec(der, 0x30)?;
    if !starts_with_small_int_exec(c, 0) {
        return None;
    }
    let (_, rest) = element_exec(tail(c, 3), 0x30)?;
    let inner = after_header_exec(rest, 0x04)?;
    pkcs1_rsa_key_size(inner)
}

/// The named curve of an EC OID's value bytes.
pub fn oid_bytes_to_curve(oid: &[u8]) -> (r: Option<String>)
    ensures
        opt_view(r) == curve_of_oid(oid@),
{
    let p256: [u8; 8] = [0x2a, 0x86, 0x48, 0xce, 0x3d, 0x03, 0x01, 0x07];
    let p384: [u8; 5] = [0x2b, 0x81, 0x04, 0x00, 0x22];
    let p521: [u8; 5] = [0x2b, 0x81, 0x04, 0x00, 0x23];
    let k256: [u8; 5] = [0x2b, 0x81, 0x04, 0x00, 0x0a];
    assert(p256@ =~= seq![0x2au8, 0x86, 0x48, 0xce, 0x3d, 0x03, 0x01, 0x07]);
    assert(p384@ =~= seq![0x2bu8, 0x81, 0x04, 0x00, 0x22]);
    assert(p521@ =~= seq![0x2bu8, 0x81, 0x04, 0x00, 0x23]);
    assert(k256@ =~= seq![0x2bu8, 0x81, 0x04, 0x00, 0x0a]);
    if bytes_eq(oid, &p256) {
        Some("P-256".to_owned())
    } else if bytes_eq(oid, &p384) {
        Some("P-384".to_owned())
    } else if bytes_eq(oid, &p521) {
        Some("P-521".to_owned())
    } else if bytes_eq(oid, &k256) {
        Some("secp256k1".to_owned())
    } else {
        None
    }
}

/// Equality of two byte strings.
pub fn bytes_eq(a: &[u8], b: &[u8]) -> (r: bool)
    ensures
        r == (a@ == b@),
{
    if a.len() != b.len() {
        return false;
    }
    let mut i: usize = 0;
    while i < a.len()
        invariant
            a.len() == b.len(),
            i <= a.len(),
            a@.take(i as int) == b@.take(i as int),
        decreases a.len() - i,
    {
        if a[i] != b[i] {
            assert(a@[i as int] != b@[i as int]);
            return false;
        }
        i = i + 1;
        assert(a@.take(i as int) =~= b@.take(i as int));
    }
    assert(a@ =~= a@.take(a.len() as int));
    assert(b@ =~= b@.take(b.len() as int));
    true
}

/// The named curve of a PKCS#8 EC private key.
pub fn pkcs8_ec_curve_exec(der: &[u8]) -> (r: Option<String>)
    ensures
        opt_view(r) == pkcs8_ec_curve(der@),
{
    let c = after_header_exec(der, 0x30)?;
    if !starts_with_small_int_exec(c, 0) {
        return None;
    }
    let algid = after_header_exec(tail(c, 3), 0x30)?;
    let (_, rest) = element_exec(algid, 0x06)?;
    let (oid, _) = element_exec(rest, 0x06)?;
    oid_bytes_to_curve(oid)
}

/// The named curve of a SEC1 ECPrivateKey.
pub fn sec1_ec_curve_exec(der: &[u8]) -> (r: Option<String>)
    ensures
        opt_view(r) == sec1_ec_curve(der@),
{
    let c = after_header_exec(der, 0x30)?;
    if !starts_with_small_int_exec(c, 1) {
        return None;
    }
    let (_, rest) = element_exec(tail(c, 3), 0x04)?;
    let params = after_header_exec(rest, 0xa0)?;
    let (oid, _) = element_exec(params, 0x06)?;
    oid_bytes_to_curve(oid)
}

fn head64_exec(d: &[u8]) -> (r: &[u8])
    ensures
        r@ == head64(d@),
{
    if d.len() <= 64 {
        d
    } else {
        let r = &d[0..64];
        assert(r@ =~= d@.take(64));
        r
    }
}

fn has_oid(s: &[u8], pat: &[u8]) -> (b: bool)
    ensures
        b == has_infix(s@, pat@),
{
    contains_bytes(s, pat)
}

fn rounded_decimal(b: Option<u64>) -> (r: Option<String>)
    requires
        b matches Some(x) ==> x < 4294967296 * 8,
    ensures
        opt_view(r) == opt_decimal(match b {
            Some(x) => Some(x as nat),
            None => None,
        }),
{
    match b {
        Some(x) => Some(decimal_string(round_rsa_bits(x))),
        None => None,
    }
}

/// Algorithm and parameter of an unencrypted PKCS#8 private key.
pub fn pkcs8_algo_and_param(der: &[u8]) -> (r: (&'static str, Option<String>))
    ensures
        (r.0@, opt_view(r.1)) == pkcs8_algo_param(der@),
{
    let s = head64_exec(der);
    let rsa: [u8; 9] = [0x2a, 0x86, 0x48, 0x86, 0xf7, 0x0d, 0x01, 0x01, 0x01];
    let ec: [u8; 7] = [0x2a, 0x86, 0x48, 0xce, 0x3d, 0x02, 0x01];
    let dsa: [u8; 7] = [0x2a, 0x86, 0x48, 0xce, 0x38, 0x04, 0x01];
    let ed25519: [u8; 3] = [0x2b, 0x65, 0x70];
    let ed448: [u8; 3] = [0x2b, 0x65, 0x71];
    let x25519: [u8; 3] = [0x2b, 0x65, 0x6e];
    assert(rsa@ =~= rsa_oid_bytes());
    assert(ec@ =~= ec_public_key_oid_bytes());
    assert(dsa@ =~= dsa_oid_bytes());
    assert(ed25519@ =~= seq![0x2bu8, 0x65, 0x70]);
    assert(ed448@ =~= seq![0x2bu8, 0x65, 0x71]);
    assert(x25519@ =~= seq![0x2bu8, 0x65, 0x6e]);
    if has_oid(s, &rsa) {
        let bits = pkcs8_rsa_key_size(der);
        proof {
            if let Some(x) = bits {
                lemma_pkcs8_bits_bound(der@);
            }
        }
        return ("RSA", rounded_decimal(bits));
    }
    if has_oid(s, &ec) {
        return ("ECDSA", pkcs8_ec_curve_exec(der));
    }
    if has_oid(s, &dsa) {
        return ("DSA", None);
    }
    if has_oid(s, &ed25519) {
        return ("Ed25519", None);
    }
    if has_oid(s, &ed448) {
        return ("Ed448", None);
    }
    if has_oid(s, &x25519) {
        return ("X25519", None);
    }
    ("Unknown", None)
}

/// RSAPublicKey modulus sizes fit in 2^35 bits.
pub proof fn lemma_rsa_public_bits_bound(k: Seq<u8>)
    ensures
        rsa_public_modulus_bits(k) matches Some(b) ==> b < 4294967296 * 8,
{
    if let Some(c) = after_header(k, 0x30) {
        lemma_element_len(c, 0x02);
    }
}

/// PKCS#1 modulus sizes fit in 2^35 bits.
pub proof fn lemma_pkcs1_bits_bound(d: Seq<u8>)
    ensures
        pkcs1_rsa_bits(d) matches Some(b) ==> b < 4294967296 * 8,
{
    if let Some(c) = after_header(d, 0x30) {
        lemma_element_len(c.skip(3), 0x02);
    }
}

/// PKCS#8 RSA modulus sizes fit in 2^35 bits.
pub proof fn lemma_pkcs8_bits_bound(d: Seq<u8>)
    ensures
        pkcs8_rsa_bits(d) matches Some(b) ==> b < 4294967296 * 8,
{
    if let Some(c) = after_header(d, 0x30) {
        if let Some((_, rest)) = element(c.skip(3), 0x30) {
            if let Some(inner) = after_header(rest, 0x04) {
                lemma_pkcs1_bits_bound(inner);
            }
        }
    }
}

/// Algorithm of an encrypted PKCS#8 key, from an OID hint.
pub fn pkcs8_algo_hint_exec(der: &[u8]) -> (r: &'static str)
    ensures
        r@ == pkcs8_algo_hint(der@),
{
    let s = head64_exec(der);
    let rsa: [u8; 9] = [0x2a, 0x86, 0x48, 0x86, 0xf7, 0x0d, 0x01, 0x01, 0x01];
    let ec: [u8; 7] = [0x2a, 0x86, 0x48, 0xce, 0x3d, 0x02, 0x01];
    assert(rsa@ =~= rsa_oid_bytes());
    assert(ec@ =~= ec_public_key_oid_bytes());
    if has_oid(s, &rsa) {
        "RSA"
    } else if has_oid(s, &ec) {
        "ECDSA"
    } else {
        "Unknown"
    }
}

fn has_lit(s: &[char], lit: &str) -> (b: bool)
    ensures
        b == has_infix(s@, lit@),
{
    contains(s, &chars_of(lit))
}

/// `algo-param`, or `algo` alone.
pub fn join_name(algo: &str, param: &Option<String>) -> (r: String)
    ensures
        r@ == joined_name(algo@, opt_view(*param)),
{
    match param {
        Some(p) => {
            let mut s = algo.to_owned();
            s.append("-");
            s.append(p.as_str());
            s
        },
        None => algo.to_owned(),
    }
}

/// The asset a PEM private key block (label `tag`, DER `der`) stands for.
pub fn private_key_asset_from_der(tag: &str, der: &[u8], location: Location) -> (r: CryptoAsset)
    ensures
        r@ == private_key_view(tag@, der@, location@),
{
    let tag_up = to_upper(&chars_of(tag));
    let (algo, param): (&'static str, Option<String>) = if has_lit(&tag_up, "RSA PRIVATE KEY") {
        let bits = pkcs1_rsa_key_size(der);
        proof {
            lemma_pkcs1_bits_bound(der@);
        }
        ("RSA", rounded_decimal(bits))
    } else if has_lit(&tag_up, "EC PRIVATE KEY") {
        ("ECDSA", sec1_ec_curve_exec(der))
    } else if has_lit(&tag_up, "DSA PRIVATE KEY") {
        ("DSA", None)
    } else if has_lit(&tag_up, "OPENSSH") {
        ("OpenSSH", None)
    } else if has_lit(&tag_up, "ENCRYPTED") {
        (pkcs8_algo_hint_exec(der), None)
    } else {
        pkcs8_algo_and_param(der)
    };
    let name = join_name(algo, &param);
    let class = classify_by_name(name.as_str());
    CryptoAsset::single(
        AssetType::PrivateKey,
        name,
        None,
        param,
        class,
        location,
        Evidence::CertificateParsing,
    )
}

/// The asset a PEM public key block (label `tag`) stands for.
pub fn public_key_asset_from_tag(tag: &str, location: Location) -> (r: CryptoAsset)
    ensures
        r@ == public_key_view(tag@, location@),
{
    let tag_up = to_upper(&chars_of(tag));
    let algo = if has_lit(&tag_up, "RSA") {
        "RSA"
    } else if has_lit(&tag_up, "EC") {
        "ECDSA"
    } else {
        "Unknown"
    };
    let class = classify_by_name(algo);
    CryptoAsset::single(
        AssetType::PublicKey,
        algo.to_owned(),
        None,
        None,
        class,
        location,
        Evidence::CertificateParsing,
    )
}

} // verus!
