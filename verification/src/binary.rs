//! The binary scanner: DER-encoded OIDs in the raw bytes, and printable ASCII
//! strings that name an algorithm; one asset per algorithm per file.
use vstd::prelude::*;
use crate::catalog::{classify, classify_by_name};
use crate::model::{asset_view, AssetType, AssetView, CryptoAsset, Evidence, Location, plain_location};
use crate::table::{assoc, lookup, opt_str_view, pairs_view, KeyMatch};
use crate::text::{chars_eq, contains_bytes, has_infix, unicode_lower, occurs_at, string_of, to_lower, trim, trimmed};

verus! {

/// Files larger than this are not scanned.
pub const MAX_BINARY_BYTES: u64 = 104857600;

/// Printable strings shorter than this are not considered.
pub const MIN_STRING_LEN: usize = 4;

pub open spec fn oid_table_view(t: Seq<(Vec<u8>, &'static str)>) -> Seq<(Seq<u8>, Seq<char>)> {
    t.map_values(|e: (Vec<u8>, &'static str)| (e.0@, e.1@))
}

/// DER-encoded OID value bytes and the algorithms they identify.
pub open spec fn oid_patterns() -> Seq<(Seq<u8>, Seq<char>)> {
    seq![
        (seq![0x2au8, 0x86, 0x48, 0x86, 0xf7, 0x0d, 0x01, 0x01, 0x01], "RSA"@),
        (seq![0x2au8, 0x86, 0x48, 0xce, 0x3d, 0x02, 0x01], "ECDSA"@),
        (seq![0x2au8, 0x86, 0x48, 0xce, 0x38, 0x04, 0x01], "DSA"@),
        (seq![0x60u8, 0x86, 0x48, 0x01, 0x65, 0x03, 0x04, 0x01, 0x02], "AES-128"@),
        (seq![0x60u8, 0x86, 0x48, 0x01, 0x65, 0x03, 0x04, 0x01, 0x06], "AES-128"@),
        (seq![0x60u8, 0x86, 0x48, 0x01, 0x65, 0x03, 0x04, 0x01, 0x2a], "AES-256"@),
        (seq![0x60u8, 0x86, 0x48, 0x01, 0x65, 0x03, 0x04, 0x01, 0x2e], "AES-256"@),
        (seq![0x60u8, 0x86, 0x48, 0x01, 0x65, 0x03, 0x04, 0x02, 0x01], "SHA-256"@),
        (seq![0x60u8, 0x86, 0x48, 0x01, 0x65, 0x03, 0x04, 0x02, 0x02], "SHA-384"@),
        (seq![0x60u8, 0x86, 0x48, 0x01, 0x65, 0x03, 0x04, 0x02, 0x03], "SHA-512"@),
        (seq![0x2bu8, 0x0e, 0x03, 0x02, 0x1a], "SHA-1"@),
        (seq![0x2au8, 0x86, 0x48, 0x86, 0xf7, 0x0d, 0x02, 0x05], "MD5"@),
        (seq![0x2bu8, 0x65, 0x70], "Ed25519"@),
        (seq![0x2bu8, 0x65, 0x6e], "X25519"@),
    ]
}

fn oid_pattern_table() -> (t: Vec<(Vec<u8>, &'static str)>)
    ensures
        oid_table_view(t@) == oid_patterns(),
{
    let mut t: Vec<(Vec<u8>, &'static str)> = Vec::new();
    t.push((vec![0x2a, 0x86, 0x48, 0x86, 0xf7, 0x0d, 0x01, 0x01, 0x01], "RSA"));
    t.push((vec![0x2a, 0x86, 0x48, 0xce, 0x3d, 0x02, 0x01], "ECDSA"));
    t.push((vec![0x2a, 0x86, 0x48, 0xce, 0x38, 0x04, 0x01], "DSA"));
    t.push((vec![0x60, 0x86, 0x48, 0x01, 0x65, 0x03, 0x04, 0x01, 0x02], "AES-128"));
    t.push((vec![0x60, 0x86, 0x48, 0x01, 0x65, 0x03, 0x04, 0x01, 0x06], "AES-128"));
    t.push((vec![0x60, 0x86, 0x48, 0x01, 0x65, 0x03, 0x04, 0x01, 0x2a], "AES-256"));
    t.push((vec![0x60, 0x86, 0x48, 0x01, 0x65, 0x03, 0x04, 0x01, 0x2e], "AES-256"));
    t.push((vec![0x60, 0x86, 0x48, 0x01, 0x65, 0x03, 0x04, 0x02, 0x01], "SHA-256"));
    t.push((vec![0x60, 0x86, 0x48, 0x01, 0x65, 0x03, 0x04, 0x02, 0x02], "SHA-384"));
    t.push((vec![0x60, 0x86, 0x48, 0x01, 0x65, 0x03, 0x04, 0x02, 0x03], "SHA-512"));
    t.push((vec![0x2b, 0x0e, 0x03, 0x02, 0x1a], "SHA-1"));
    t.push((vec![0x2a, 0x86, 0x48, 0x86, 0xf7, 0x0d, 0x02, 0x05], "MD5"));
    t.push((vec![0x2b, 0x65, 0x70], "Ed25519"));
    t.push((vec![0x2b, 0x65, 0x6e], "X25519"));
    assert(oid_table_view(t@) =~= oid_patterns());
    t
}

/// Strings (lower case) and the algorithms they name.
pub open spec fn string_aliases() -> Seq<(Seq<char>, Seq<char>)> {
    seq![
        ("rsa-2048"@, "RSA-2048"@),
        ("rsa-4096"@, "RSA-4096"@),
        ("rsa-3072"@, "RSA-3072"@),
        ("rsa-1024"@, "RSA-1024"@),
        ("rsa2048"@, "RSA-2048"@),
        ("rsa4096"@, "RSA-4096"@),
        ("rsa"@, "RSA"@),
        ("aes-128-cbc"@, "AES-128"@),
        ("aes-128-gcm"@, "AES-128"@),
        ("aes-256-cbc"@, "AES-256"@),
        ("aes-256-gcm"@, "AES-256"@),
        ("aes-192-cbc"@, "AES-192"@),
        ("aes-128"@, "AES-128"@),
        ("aes-192"@, "AES-192"@),
        ("aes-256"@, "AES-256"@),
        ("aes128"@, "AES-128"@),
        ("aes192"@, "AES-192"@),
        ("aes256"@, "AES-256"@),
        ("3des"@, "3DES"@),
        ("des3"@, "3DES"@),
        ("des-ede3"@, "3DES"@),
        ("triple-des"@, "3DES"@),
        ("des"@, "DES"@),
        ("rc4"@, "RC4"@),
        ("rc2"@, "RC2"@),
        ("ecdsa-p256"@, "ECDSA-P-256"@),
        ("ecdsa-p384"@, "ECDSA-P-384"@),
        ("ecdsa-p521"@, "ECDSA-P-521"@),
        ("ecdsa-p-256"@, "ECDSA-P-256"@),
        ("ecdsa-p-384"@, "ECDSA-P-384"@),
        ("ecdsa-p-521"@, "ECDSA-P-521"@),
        ("ecdsa"@, "ECDSA"@),
        ("prime256v1"@, "ECDSA-P-256"@),
        ("secp256r1"@, "ECDSA-P-256"@),
        ("secp384r1"@, "ECDSA-P-384"@),
        ("secp521r1"@, "ECDSA-P-521"@),
        ("p-256"@, "ECDSA-P-256"@),
        ("p-384"@, "ECDSA-P-384"@),
        ("p-521"@, "ECDSA-P-521"@),
        ("x25519"@, "X25519"@),
        ("ed25519"@, "Ed25519"@),
        ("sha-512"@, "SHA-512"@),
        ("sha-384"@, "SHA-384"@),
        ("sha-256"@, "SHA-256"@),
        ("sha-224"@, "SHA-224"@),
        ("sha-1"@, "SHA-1"@),
        ("sha512"@, "SHA-512"@),
        ("sha384"@, "SHA-384"@),
        ("sha256"@, "SHA-256"@),
        ("sha224"@, "SHA-224"@),
        ("sha1"@, "SHA-1"@),
        ("md5"@, "MD5"@),
        ("md4"@, "MD4"@),
        ("ml-kem-512"@, "ML-KEM-512"@),
        ("ml-kem-768"@, "ML-KEM-768"@),
        ("ml-kem-1024"@, "ML-KEM-1024"@),
        ("ml-dsa-44"@, "ML-DSA-44"@),
        ("ml-dsa-65"@, "ML-DSA-65"@),
        ("ml-dsa-87"@, "ML-DSA-87"@),
    ]
}

fn string_alias_table() -> (t: Vec<(&'static str, &'static str)>)
    ensures
        pairs_view(t@) == string_aliases(),
{
    let t: Vec<(&'static str, &'static str)> = vec![
        ("rsa-2048", "RSA-2048"),
        ("rsa-4096", "RSA-4096"),
        ("rsa-3072", "RSA-3072"),
        ("rsa-1024", "RSA-1024"),
        ("rsa2048", "RSA-2048"),
        ("rsa4096", "RSA-4096"),
        ("rsa", "RSA"),
        ("aes-128-cbc", "AES-128"),
        ("aes-128-gcm", "AES-128"),
        ("aes-256-cbc", "AES-256"),
        ("aes-256-gcm", "AES-256"),
        ("aes-192-cbc", "AES-192"),
        ("aes-128", "AES-128"),
        ("aes-192", "AES-192"),
        ("aes-256", "AES-256"),
        ("aes128", "AES-128"),
        ("aes192", "AES-192"),
        ("aes256", "AES-256"),
        ("3des", "3DES"),
        ("des3", "3DES"),
        ("des-ede3", "3DES"),
        ("triple-des", "3DES"),
        ("des", "DES"),
        ("rc4", "RC4"),
        ("rc2", "RC2"),
        ("ecdsa-p256", "ECDSA-P-256"),
        ("ecdsa-p384", "ECDSA-P-384"),
        ("ecdsa-p521", "ECDSA-P-521"),
        ("ecdsa-p-256", "ECDSA-P-256"),
        ("ecdsa-p-384", "ECDSA-P-384"),
        ("ecdsa-p-521", "ECDSA-P-521"),
        ("ecdsa", "ECDSA"),
        ("prime256v1", "ECDSA-P-256"),
        ("secp256r1", "ECDSA-P-256"),
        ("secp384r1", "ECDSA-P-384"),
        ("secp521r1", "ECDSA-P-521"),
        ("p-256", "ECDSA-P-256"),
        ("p-384", "ECDSA-P-384"),
        ("p-521", "ECDSA-P-521"),
        ("x25519", "X25519"),
        ("ed25519", "Ed25519"),
        ("sha-512", "SHA-512"),
        ("sha-384", "SHA-384"),
        ("sha-256", "SHA-256"),
        ("sha-224", "SHA-224"),
        ("sha-1", "SHA-1"),
        ("sha512", "SHA-512"),
        ("sha384", "SHA-384"),
        ("sha256", "SHA-256"),
        ("sha224", "SHA-224"),
        ("sha1", "SHA-1"),
        ("md5", "MD5"),
        ("md4", "MD4"),
        ("ml-kem-512", "ML-KEM-512"),
        ("ml-kem-768", "ML-KEM-768"),
        ("ml-kem-1024", "ML-KEM-1024"),
        ("ml-dsa-44", "ML-DSA-44"),
        ("ml-dsa-65", "ML-DSA-65"),
        ("ml-dsa-87", "ML-DSA-87"),
    ];
    assert(pairs_view(t@) =~= string_aliases());
    t
}

/// The algorithms whose OID bytes occur in `data`, in table order.
pub open spec fn oid_names(pats: Seq<(Seq<u8>, Seq<char>)>, data: Seq<u8>) -> Seq<Seq<char>>
    decreases pats.len(),
{
    if pats.len() == 0 {
        seq![]
    } else {
        oid_names(pats.drop_last(), data) + if has_infix(data, pats.last().0) {
            seq![pats.last().1]
        } else {
            seq![]
        }
    }
}

pub open spec fn is_printable(b: u8) -> bool {
    0x20 <= b <= 0x7e
}

/// The run `cur` if it is long enough to count.
pub open spec fn kept_run(cur: Seq<u8>) -> Seq<Seq<u8>> {
    if cur.len() >= MIN_STRING_LEN {
        seq![cur]
    } else {
        seq![]
    }
}

/// Maximal runs of printable ASCII bytes of at least four bytes, after the
/// partial run `cur`.
pub open spec fn runs_from(d: Seq<u8>, cur: Seq<u8>) -> Seq<Seq<u8>>
    decreases d.len(),
{
    if d.len() == 0 {
        kept_run(cur)
    } else if is_printable(d[0]) {
        runs_from(d.drop_first(), cur.push(d[0]))
    } else {
        kept_run(cur) + runs_from(d.drop_first(), seq![])
    }
}

pub open spec fn printable_runs(d: Seq<u8>) -> Seq<Seq<u8>> {
    runs_from(d, seq![])
}

/// ASCII bytes as characters.
pub open spec fn ascii_chars(b: Seq<u8>) -> Seq<char> {
    b.map_values(|x: u8| x as char)
}

/// The algorithms that the printable strings name, in order.
pub open spec fn string_names(runs: Seq<Seq<u8>>) -> Seq<Seq<char>>
    decreases runs.len(),
{
    if runs.len() == 0 {
        seq![]
    } else {
        string_names(runs.drop_last()) + match assoc(
            string_aliases(),
            trim(unicode_lower(ascii_chars(runs.last()))),
        ) {
            Some(n) => seq![n],
            None => seq![],
        }
    }
}

/// The names with the first of each kept.
pub open spec fn dedup_names(s: Seq<Seq<char>>) -> Seq<Seq<char>>
    decreases s.len(),
{
    if s.len() == 0 {
        seq![]
    } else if dedup_names(s.drop_last()).contains(s.last()) {
        dedup_names(s.drop_last())
    } else {
        dedup_names(s.drop_last()).push(s.last())
    }
}

/// The asset of an algorithm found (without a line) in `source`.
pub open spec fn named_asset(name: Seq<char>, source: Seq<char>, evidence: Evidence) -> AssetView {
    asset_view(AssetType::Algorithm, name, None, None, classify(name), seq![plain_location(source)], evidence)
}

pub open spec fn named_assets(names: Seq<Seq<char>>, source: Seq<char>, evidence: Evidence) -> Seq<AssetView> {
    names.map_values(|n: Seq<char>| named_asset(n, source, evidence))
}

/// The assets found in a binary's bytes, reported at `source`.
pub open spec fn binary_assets(data: Seq<u8>, source: Seq<char>) -> Seq<AssetView> {
    named_assets(
        dedup_names(oid_names(oid_patterns(), data) + string_names(printable_runs(data))),
        source,
        Evidence::BinaryStringSearch,
    )
}

/// ELF, PE (`MZ`) or Mach-O magic at the start of `data`.
pub open spec fn binary_magic(d: Seq<u8>) -> bool {
    d.len() >= 4 && (d.take(4) == seq![0x7fu8, 0x45, 0x4c, 0x46] || (d[0] == 0x4d && d[1] == 0x5a)
        || d.take(4) == seq![0xceu8, 0xfa, 0xed, 0xfe] || d.take(4) == seq![0xcfu8, 0xfa, 0xed, 0xfe]
        || d.take(4) == seq![0xfeu8, 0xed, 0xfa, 0xce] || d.take(4) == seq![0xfeu8, 0xed, 0xfa, 0xcf])
}

// ── Scanning ──────────────────────────────────────────────────────────────────

/// Whether the file starts with ELF, PE or Mach-O magic.
pub fn has_binary_magic(data: &[u8]) -> (b: bool)
    ensures
        b == binary_magic(data@),
{
    if data.len() < 4 {
        return false;
    }
    let (a, b, c, d) = (data[0], data[1], data[2], data[3]);
    let r = (a == 0x7f && b == 0x45 && c == 0x4c && d == 0x46) || (a == 0x4d && b == 0x5a) || (a == 0xce
        && b == 0xfa && c == 0xed && d == 0xfe) || (a == 0xcf && b == 0xfa && c == 0xed && d == 0xfe) || (
    a == 0xfe && b == 0xed && c == 0xfa && d == 0xce) || (a == 0xfe && b == 0xed && c == 0xfa && d == 0xcf);
    proof {
        let t = data@.take(4);
        assert(t[0] == a && t[1] == b && t[2] == c && t[3] == d);
        if t == seq![0x7fu8, 0x45, 0x4c, 0x46] {
            assert(seq![0x7fu8, 0x45, 0x4c, 0x46][0] == 0x7f);
        }
        assert(r == binary_magic(data@)) by {
            assert((a == 0x7f && b == 0x45 && c == 0x4c && d == 0x46) == (t =~= seq![0x7fu8, 0x45, 0x4c, 0x46]));
            assert((a == 0xce && b == 0xfa && c == 0xed && d == 0xfe) == (t =~= seq![0xceu8, 0xfa, 0xed, 0xfe]));
            assert((a == 0xcf && b == 0xfa && c == 0xed && d == 0xfe) == (t =~= seq![0xcfu8, 0xfa, 0xed, 0xfe]));
            assert((a == 0xfe && b == 0xed && c == 0xfa && d == 0xce) == (t =~= seq![0xfeu8, 0xed, 0xfa, 0xce]));
            assert((a == 0xfe && b == 0xed && c == 0xfa && d == 0xcf) == (t =~= seq![0xfeu8, 0xed, 0xfa, 0xcf]));
        }
    }
    r
}

/// Runs of printable ASCII bytes (0x20–0x7e) at least four bytes long.
pub fn extract_printable_strings(data: &[u8]) -> (r: Vec<Vec<u8>>)
    ensures
        r.deep_view() == printable_runs(data@),
{
    let mut out: Vec<Vec<u8>> = Vec::new();
    let mut run: Vec<u8> = Vec::new();
    let mut i: usize = 0;
    assert(data@.skip(0) =~= data@);
    assert(out.deep_view() =~= Seq::<Seq<u8>>::empty());
    while i < data.len()
        invariant
            i <= data.len(),
            out.deep_view() + runs_from(data@.skip(i as int), run@) == printable_runs(data@),
        decreases data.len() - i,
    {
        let ghost old_out = out.deep_view();
        let ghost old_run = run@;
        assert(data@.skip(i as int).drop_first() =~= data@.skip(i + 1));
        let b = data[i];
        if 0x20 <= b && b <= 0x7e {
            run.push(b);
        } else {
            if run.len() >= MIN_STRING_LEN {
                assert(run.deep_view() =~= run@);
                out.push(run);
                assert(out.deep_view() =~= old_out + kept_run(old_run));
            } else {
                assert(out.deep_view() =~= old_out + kept_run(old_run));
            }
            run = Vec::new();
            assert(out.deep_view() + runs_from(data@.skip(i + 1), run@) =~= old_out + (kept_run(old_run)
                + runs_from(data@.skip(i + 1), seq![])));
        }
        i = i + 1;
    }
    let ghost old_out = out.deep_view();
    if run.len() >= MIN_STRING_LEN {
        assert(run.deep_view() =~= run@);
        out.push(run);
        assert(out.deep_view() =~= old_out + kept_run(run@));
    } else {
        assert(out.deep_view() =~= old_out + kept_run(run@));
    }
    out
}

fn ascii_of(b: &[u8]) -> (r: Vec<char>)
    ensures
        r@ == ascii_chars(b@),
{
    let mut r: Vec<char> = Vec::new();
    let mut i: usize = 0;
    while i < b.len()
        invariant
            i <= b.len(),
            r@ == ascii_chars(b@.take(i as int)),
        decreases b.len() - i,
    {
        r.push(b[i] as char);
        assert(r@ =~= ascii_chars(b@.take(i + 1)));
        i = i + 1;
    }
    assert(b@.take(b.len() as int) =~= b@);
    r
}

/// Appends `name` unless it is already listed.
pub fn push_unique_name(names: &mut Vec<Vec<char>>, name: Vec<char>)
    ensures
        final(names).deep_view() == if old(names).deep_view().contains(name@) {
            old(names).deep_view()
        } else {
            old(names).deep_view().push(name@)
        },
{
    let ghost nv = names.deep_view();
    let mut k: usize = 0;
    while k < names.len()
        invariant
            k <= names.len(),
            nv == names.deep_view(),
            forall|j: int| 0 <= j < k ==> nv[j] != name@,
        decreases names.len() - k,
    {
        assert(nv[k as int] =~= names@[k as int]@);
        if chars_eq(&names[k], &name) {
            return;
        }
        k = k + 1;
    }
    assert(name.deep_view() =~= name@);
    names.push(name);
    assert(names.deep_view() =~= nv.push(name@));
}

/// The assets of algorithm names found in `source`.
pub fn names_to_assets(names: &Vec<Vec<char>>, source: &str, evidence: Evidence) -> (r: Vec<CryptoAsset>)
    ensures
        r.deep_view() == named_assets(names.deep_view(), source@, evidence),
{
    let ghost nv = names.deep_view();
    let mut out: Vec<CryptoAsset> = Vec::new();
    let mut i: usize = 0;
    while i < names.len()
        invariant
            i <= names.len(),
            nv == names.deep_view(),
            out.deep_view() == named_assets(nv.take(i as int), source@, evidence),
        decreases names.len() - i,
    {
        let name = string_of(&names[i]);
        assert(nv[i as int] =~= names@[i as int]@);
        let class = classify_by_name(name.as_str());
        let a = CryptoAsset::single(
            AssetType::Algorithm,
            name,
            None,
            None,
            class,
            Location::at_source(source),
            evidence,
        );
        let ghost before = out.deep_view();
        out.push(a);
        assert(out.deep_view() =~= before.push(a@));
        assert(named_assets(nv.take(i + 1), source@, evidence) =~= named_assets(nv.take(i as int), source@, evidence).push(
            named_asset(nv[i as int], source@, evidence),
        ));
        i = i + 1;
    }
    assert(nv.take(names.len() as int) =~= nv);
    out
}

pub proof fn lemma_dedup_push(s: Seq<Seq<char>>, x: Seq<char>)
    ensures
        dedup_names(s.push(x)) == if dedup_names(s).contains(x) {
            dedup_names(s)
        } else {
            dedup_names(s).push(x)
        },
{
    assert(s.push(x).drop_last() =~= s);
}

/// The assets found in a binary's bytes, reported at `source`.
pub fn scan_binary_bytes(data: &[u8], source: &str) -> (r: Vec<CryptoAsset>)
    ensures
        r.deep_view() == binary_assets(data@, source@),
{
    let pats = oid_pattern_table();
    let ghost pv = oid_table_view(pats@);
    let ghost mut all: Seq<Seq<char>> = seq![];
    let mut names: Vec<Vec<char>> = Vec::new();
    let mut k: usize = 0;
    while k < pats.len()
        invariant
            k <= pats.len(),
            pv == oid_table_view(pats@),
            all == oid_names(pv.take(k as int), data@),
            names.deep_view() == dedup_names(all),
        decreases pats.len() - k,
    {
        assert(pv.take(k + 1).drop_last() =~= pv.take(k as int));
        assert(pv.take(k + 1).last() == pv[k as int]);
        assert(pv[k as int] == (pats@[k as int].0@, pats@[k as int].1@));
        if contains_bytes(data, pats[k].0.as_slice()) {
            let n = crate::text::chars_of(pats[k].1);
            proof {
                lemma_dedup_push(all, n@);
                all = all.push(n@);
            }
            push_unique_name(&mut names, n);
            assert(all =~= oid_names(pv.take(k + 1), data@));
        } else {
            assert(all =~= oid_names(pv.take(k + 1), data@));
        }
        k = k + 1;
    }
    assert(pv.take(pats.len() as int) =~= pv);
    let ghost oids = all;
    let runs = extract_printable_strings(data);
    let ghost rv = runs.deep_view();
    let aliases = string_alias_table();
    let mut i: usize = 0;
    while i < runs.len()
        invariant
            i <= runs.len(),
            rv == runs.deep_view(),
            rv == printable_runs(data@),
            pairs_view(aliases@) == string_aliases(),
            all == oids + string_names(rv.take(i as int)),
            names.deep_view() == dedup_names(all),
        decreases runs.len() - i,
    {
        assert(rv.take(i + 1).drop_last() =~= rv.take(i as int));
        assert(rv.take(i + 1).last() == rv[i as int]);
        assert(rv[i as int] =~= runs@[i as int]@);
        let key = trimmed(&to_lower(&ascii_of(&runs[i])));
        match lookup(&aliases, &key, KeyMatch::Exact) {
            Some(canonical) => {
                let n = crate::text::chars_of(canonical);
                proof {
                    lemma_dedup_push(all, n@);
                    all = all.push(n@);
                }
                push_unique_name(&mut names, n);
                assert(all =~= oids + string_names(rv.take(i + 1)));
            },
            None => {
                assert(all =~= oids + string_names(rv.take(i + 1)));
            },
        }
        i = i + 1;
    }
    assert(rv.take(runs.len() as int) =~= rv);
    names_to_assets(&names, source, Evidence::BinaryStringSearch)
}

/// Scans a binary file (path, size in bytes, contents) for embedded algorithm
/// names and OIDs; files over 100 MiB are passed over.
pub fn scan_binary(path: &str, size: u64, data: &[u8]) -> (r: Vec<CryptoAsset>)
    ensures
        r.deep_view() == if size > MAX_BINARY_BYTES {
            Seq::empty()
        } else {
            binary_assets(data@, path@)
        },
{
    if size > MAX_BINARY_BYTES {
        return Vec::new();
    }
    scan_binary_bytes(data, path)
}

} // verus!
