//! Java class files and JAR archives: the Utf8 constants of a class file's
//! constant pool matched against crypto API fragments.
use vstd::prelude::*;
use vstd::utf8::{decode_utf8, valid_utf8};
use crate::binary::{dedup_names, lemma_dedup_push, named_assets, names_to_assets, push_unique_name};
use crate::model::{CryptoAsset, Evidence};
use crate::patterns::utf8_text;
use crate::table::{assoc_infix, lookup, opt_str_view, pairs_view, KeyMatch};
use crate::text::{chars_of, ends_with, has_suffix, unicode_lower, to_lower};

verus! {

/// Archives larger than this are not scanned.
pub const MAX_JAR_BYTES: u64 = 104857600;

/// Fragments of class-file strings (lower case) and the algorithms they point to.
pub open spec fn class_fragments() -> Seq<(Seq<char>, Seq<char>)> {
    seq![
        ("javax/crypto/cipher"@, "AES-256"@),
        ("javax/crypto/keygenerator"@, "AES-128"@),
        ("java/security/keyfactory"@, "RSA"@),
        ("java/security/keypairgenerator"@, "RSA"@),
        ("java/security/messagedigest"@, "SHA-256"@),
        ("java/security/signature"@, "RSA"@),
        ("aes/cbc/pkcs5padding"@, "AES-128"@),
        ("aes/gcm/nopadding"@, "AES-256"@),
        ("aes/ecb/nopadding"@, "AES-128"@),
        ("rsa/ecb/oaepwithsha-256"@, "RSA-2048"@),
        ("rsa/ecb/pkcs1padding"@, "RSA-2048"@),
        ("sha256withrsa"@, "RSA-2048"@),
        ("sha384withrsa"@, "RSA-2048"@),
        ("sha512withrsa"@, "RSA-2048"@),
        ("sha256withecdsa"@, "ECDSA-P-256"@),
        ("sha384withecdsa"@, "ECDSA-P-384"@),
        ("sha1withrsa"@, "RSA-2048"@),
        ("sha-256"@, "SHA-256"@),
        ("sha-384"@, "SHA-384"@),
        ("sha-512"@, "SHA-512"@),
        ("sha-1"@, "SHA-1"@),
        ("hmacsha256"@, "SHA-256"@),
        ("hmacsha384"@, "SHA-384"@),
        ("hmacsha512"@, "SHA-512"@),
        ("hmacsha1"@, "SHA-1"@),
        ("hmacmd5"@, "MD5"@),
        ("org/bouncycastle/crypto/engines/rsaengine"@, "RSA"@),
        ("org/bouncycastle/crypto/engines/aesengine"@, "AES-256"@),
        ("mlkem"@, "ML-KEM-768"@),
        ("kyber"@, "ML-KEM-768"@),
        ("mldsa"@, "ML-DSA-65"@),
        ("dilithium"@, "ML-DSA-65"@),
    ]
}

fn class_fragment_table() -> (t: Vec<(&'static str, &'static str)>)
    ensures
        pairs_view(t@) == class_fragments(),
{
    let t: Vec<(&'static str, &'static str)> = vec![
        ("javax/crypto/cipher", "AES-256"),
        ("javax/crypto/keygenerator", "AES-128"),
        ("java/security/keyfactory", "RSA"),
        ("java/security/keypairgenerator", "RSA"),
        ("java/security/messagedigest", "SHA-256"),
        ("java/security/signature", "RSA"),
        ("aes/cbc/pkcs5padding", "AES-128"),
        ("aes/gcm/nopadding", "AES-256"),
        ("aes/ecb/nopadding", "AES-128"),
        ("rsa/ecb/oaepwithsha-256", "RSA-2048"),
        ("rsa/ecb/pkcs1padding", "RSA-2048"),
        ("sha256withrsa", "RSA-2048"),
        ("sha384withrsa", "RSA-2048"),
        ("sha512withrsa", "RSA-2048"),
        ("sha256withecdsa", "ECDSA-P-256"),
        ("sha384withecdsa", "ECDSA-P-384"),
        ("sha1withrsa", "RSA-2048"),
        ("sha-256", "SHA-256"),
        ("sha-384", "SHA-384"),
        ("sha-512", "SHA-512"),
        ("sha-1", "SHA-1"),
        ("hmacsha256", "SHA-256"),
        ("hmacsha384", "SHA-384"),
        ("hmacsha512", "SHA-512"),
        ("hmacsha1", "SHA-1"),
        ("hmacmd5", "MD5"),
        ("org/bouncycastle/crypto/engines/rsaengine", "RSA"),
        ("org/bouncycastle/crypto/engines/aesengine", "AES-256"),
        ("mlkem", "ML-KEM-768"),
        ("kyber", "ML-KEM-768"),
        ("mldsa", "ML-DSA-65"),
        ("dilithium", "ML-DSA-65"),
    ];
    assert(pairs_view(t@) =~= class_fragments());
    t
}

/// The big-endian 16-bit value at `p`.
pub open spec fn u16_at(d: Seq<u8>, p: int) -> int {
    d[p] as int * 256 + d[p + 1] as int
}

pub open spec fn pool_measure(i: int, n: int) -> int {
    if n - i > 0 {
        n - i
    } else {
        0
    }
}

/// The Utf8 constants of a constant pool of `n` slots, from slot `i` at byte
/// `pos`, as byte strings. Parsing stops at the end of the data or at an
/// unknown tag.
pub open spec fn pool_strings(d: Seq<u8>, pos: int, i: int, n: int) -> Seq<Seq<u8>>
    decreases pool_measure(i, n),
{
    if i >= n || pos < 0 || pos >= d.len() {
        seq![]
    } else {
        let tag = d[pos];
        let p = pos + 1;
        if tag == 1 {
            if p + 2 > d.len() {
                seq![]
            } else {
                let s = p + 2;
                let e = s + u16_at(d, p);
                let rest = pool_strings(d, e, i + 1, n);
                if e <= d.len() {
                    seq![d.subrange(s, e)] + rest
                } else {
                    rest
                }
            }
        } else if tag == 3 || tag == 4 || (9 <= tag <= 12) || tag == 17 || tag == 18 {
            pool_strings(d, p + 4, i + 1, n)
        } else if tag == 5 || tag == 6 {
            pool_strings(d, p + 8, i + 2, n)
        } else if tag == 7 || tag == 8 || tag == 16 || tag == 19 || tag == 20 {
            pool_strings(d, p + 2, i + 1, n)
        } else if tag == 15 {
            pool_strings(d, p + 3, i + 1, n)
        } else {
            seq![]
        }
    }
}

pub open spec fn class_magic() -> Seq<u8> {
    seq![0xcau8, 0xfe, 0xba, 0xbe]
}

/// The Utf8 constants of a class file (none without the `CAFEBABE` magic).
pub open spec fn class_strings(d: Seq<u8>) -> Seq<Seq<u8>> {
    if d.len() < 10 || d.take(4) != class_magic() {
        seq![]
    } else {
        pool_strings(d, 10, 1, u16_at(d, 8))
    }
}

/// The algorithm a class-file string points to: the first fragment it holds
/// (in unicode_lower case).
pub open spec fn class_string_name(s: Seq<u8>) -> Seq<Seq<char>> {
    if valid_utf8(s) {
        match assoc_infix(class_fragments(), unicode_lower(decode_utf8(s))) {
            Some(n) => seq![n],
            None => seq![],
        }
    } else {
        seq![]
    }
}

pub open spec fn class_string_names(ss: Seq<Seq<u8>>) -> Seq<Seq<char>>
    decreases ss.len(),
{
    if ss.len() == 0 {
        seq![]
    } else {
        class_string_names(ss.drop_last()) + class_string_name(ss.last())
    }
}

/// The algorithms a class file's strings point to, in order (repeats kept).
pub open spec fn class_names(d: Seq<u8>) -> Seq<Seq<char>> {
    class_string_names(class_strings(d))
}

// ── Class files ───────────────────────────────────────────────────────────────

/// The algorithm one class-file string points to.
fn match_class_string(s: &[u8]) -> (r: Option<&'static str>)
    ensures
        match r {
            Some(n) => class_string_name(s@) == seq![n@],
            None => class_string_name(s@) == Seq::<Seq<char>>::empty(),
        },
{
    match utf8_text(s) {
        None => None,
        Some(text) => {
            let l = to_lower(&chars_of(text.as_str()));
            lookup(&class_fragment_table(), &l, KeyMatch::Infix)
        },
    }
}

/// The algorithms a class file's constant-pool strings point to, in order.
pub fn scan_class_bytes(data: &[u8]) -> (r: Vec<Vec<char>>)
    ensures
        r.deep_view() == class_names(data@),
{
    let mut out: Vec<Vec<char>> = Vec::new();
    if data.len() < 10 || !(data[0] == 0xca && data[1] == 0xfe && data[2] == 0xba && data[3] == 0xbe) {
        proof {
            if data.len() >= 10 {
                assert(data@.take(4) != class_magic()) by {
                    if data@.take(4) == class_magic() {
                        assert(data@.take(4)[0] == data@[0]);
                        assert(data@.take(4)[1] == data@[1]);
                        assert(data@.take(4)[2] == data@[2]);
                        assert(data@.take(4)[3] == data@[3]);
                    }
                }
            }
        }
        assert(out.deep_view() =~= Seq::<Seq<char>>::empty());
        return out;
    }
    assert(data@.take(4) =~= class_magic());
    let ghost d = data@;
    let n: usize = (data[8] as usize) * 256 + data[9] as usize;
    let len = data.len();
    let mut pos: usize = 10;
    let mut i: usize = 1;
    let ghost mut strs: Seq<Seq<u8>> = seq![];
    while i < n && pos < len
        invariant
            d == data@,
            len == data.len(),
            n < 65536,
            i <= n + 1,
            pos <= len,
            strs + pool_strings(d, pos as int, i as int, n as int) == class_strings(d),
            out.deep_view() == class_string_names(strs),
        decreases pool_measure(i as int, n as int),
    {
        let tag = data[pos];
        let p = pos + 1;
        if tag == 1 {
            if len - p < 2 {
                proof {
                    assert(pool_strings(d, pos as int, i as int, n as int) =~= Seq::<Seq<u8>>::empty());
                    assert(pool_strings(d, pos as int, n as int, n as int) =~= Seq::<Seq<u8>>::empty());
                }
                i = n;
            } else {
                let size = (data[p] as usize) * 256 + data[p + 1] as usize;
                let st = p + 2;
                assert(size as int == u16_at(d, p as int));
                if size <= len - st {
                    let e = st + size;
                    let slice = &data[st..e];
                    assert(slice@ =~= d.subrange(st as int, e as int));
                    let hit = match_class_string(slice);
                    proof {
                        assert(class_string_names(strs.push(slice@)) == class_string_names(strs) + class_string_name(slice@)) by {
                            assert(strs.push(slice@).drop_last() =~= strs);
                        }
                        assert((strs.push(slice@)) + pool_strings(d, e as int, i + 1, n as int) =~= strs + (seq![slice@] + pool_strings(d, e as int, i + 1, n as int)));
                        strs = strs.push(slice@);
                    }
                    match hit {
                        Some(name) => {
                            let c = chars_of(name);
                            let ghost before = out.deep_view();
                            assert(c.deep_view() =~= c@);
                            out.push(c);
                            assert(out.deep_view() =~= before + seq![name@]);
                        },
                        None => {
                            assert(out.deep_view() =~= out.deep_view() + Seq::<Seq<char>>::empty());
                        },
                    }
                    pos = e;
                } else {
                    proof {
                        let e = st + size;
                        assert(pool_strings(d, e as int, i + 1, n as int) =~= Seq::<Seq<u8>>::empty());
                        assert(pool_strings(d, len as int, i + 1, n as int) =~= Seq::<Seq<u8>>::empty());
                    }
                    pos = len;
                }
                i = i + 1;
            }
        } else {
            let step: usize = if tag == 3 || tag == 4 || (9 <= tag && tag <= 12) || tag == 17 || tag == 18 {
                4
            } else if tag == 5 || tag == 6 {
                8
            } else if tag == 7 || tag == 8 || tag == 16 || tag == 19 || tag == 20 {
                2
            } else if tag == 15 {
                3
            } else {
                0
            };
            if step == 0 {
                proof {
                    assert(pool_strings(d, pos as int, i as int, n as int) =~= Seq::<Seq<u8>>::empty());
                    assert(pool_strings(d, pos as int, n as int, n as int) =~= Seq::<Seq<u8>>::empty());
                }
                i = n;
            } else {
                let slots: usize = if step == 8 { 2 } else { 1 };
                let next: usize = if len - p < step { len } else { p + step };
                proof {
                    if len - p < step {
                        assert(pool_strings(d, (p + step) as int, i + slots, n as int) =~= Seq::<Seq<u8>>::empty());
                        assert(pool_strings(d, len as int, i + slots, n as int) =~= Seq::<Seq<u8>>::empty());
                    }
                }
                pos = next;
                i = i + slots;
            }
        }
    }
    proof {
        assert(pool_strings(d, pos as int, i as int, n as int) =~= Seq::<Seq<u8>>::empty());
        assert(strs =~= strs + Seq::<Seq<u8>>::empty());
    }
    out
}

/// The assets of a standalone class file at `source`: one per algorithm.
pub fn scan_class_file(source: &str, data: &[u8]) -> (r: Vec<CryptoAsset>)
    ensures
        r.deep_view() == named_assets(dedup_names(class_names(data@)), source@, Evidence::JarClassFile),
{
    let found = scan_class_bytes(data);
    let ghost fv = found.deep_view();
    let ghost mut all: Seq<Seq<char>> = seq![];
    let mut names: Vec<Vec<char>> = Vec::new();
    let mut i: usize = 0;
    while i < found.len()
        invariant
            i <= found.len(),
            fv == found.deep_view(),
            all == fv.take(i as int),
            names.deep_view() == dedup_names(all),
        decreases found.len() - i,
    {
        let n = chars_of(crate::text::string_of(&found[i]).as_str());
        assert(n@ =~= fv[i as int]);
        proof {
            lemma_dedup_push(all, n@);
            all = all.push(n@);
        }
        push_unique_name(&mut names, n);
        assert(all =~= fv.take(i + 1));
        i = i + 1;
    }
    assert(fv.take(found.len() as int) =~= fv);
    names_to_assets(&names, source, Evidence::JarClassFile)
}

/// The ZIP magic (`PK\x03\x04`) at the start of `data`.
pub fn has_jar_magic(data: &[u8]) -> (b: bool)
    ensures
        b == (data@.len() >= 4 && data@[0] == 0x50 && data@[1] == 0x4b && data@[2] == 0x03 && data@[3]
            == 0x04),
{
    data.len() >= 4 && data[0] == 0x50 && data[1] == 0x4b && data[2] == 0x03 && data[3] == 0x04
}

// ── JAR archives ──────────────────────────────────────────────────────────────

/// The entries of a ZIP archive as the `zip` crate reads it: for each index,
/// the entry's name and contents (`None` for contents it could not read),
/// or `None` for an entry it could not open; `None` for no archive.
pub uninterp spec fn zip_entries_of(data: Seq<u8>) -> Option<Seq<Option<(Seq<char>, Option<Seq<u8>>)>>>;

pub open spec fn zip_entry_view(e: Option<(String, Option<Vec<u8>>)>) -> Option<(Seq<char>, Option<Seq<u8>>)> {
    match e {
        Some((n, c)) => Some((n@, match c {
            Some(b) => Some(b@),
            None => None,
        })),
        None => None,
    }
}

/// Opens `data` with `zip::ZipArchive::new` and reads every entry by index
/// (`by_index`, `name`, `read_to_end`). The contract claims only that the
/// result is a function of the bytes, named [`zip_entries_of`].
#[verifier::external_body]
fn zip_entries(data: &[u8]) -> (r: Option<Vec<Option<(String, Option<Vec<u8>>)>>>)
    ensures
        match r {
            Some(v) => zip_entries_of(data@) == Some(v@.map_values(|e: Option<(String, Option<Vec<u8>>)>| zip_entry_view(e))),
            None => zip_entries_of(data@) is None,
        },
{
    let mut archive = zip::ZipArchive::new(std::io::Cursor::new(data)).ok()?;
    Some((0..archive.len()).map(|i| archive.by_index(i).ok().map(|mut e| {
        let mut buf = Vec::new();
        let read = std::io::Read::read_to_end(&mut e, &mut buf);
        (e.name().to_owned(), read.ok().map(|_| buf))
    })).collect())
}

/// The algorithm names of the class entries of an archive, in order.
pub open spec fn entries_names(es: Seq<Option<(Seq<char>, Option<Seq<u8>>)>>) -> Seq<Seq<char>>
    decreases es.len(),
{
    if es.len() == 0 {
        seq![]
    } else {
        entries_names(es.drop_last()) + match es.last() {
            Some((n, Some(b))) => if has_suffix(unicode_lower(n), ".class"@) {
                class_names(b)
            } else {
                seq![]
            },
            _ => seq![],
        }
    }
}

/// The assets of a JAR (or WAR, AAR, EAR) archive at `source`.
pub open spec fn jar_assets(data: Seq<u8>, source: Seq<char>) -> Seq<crate::model::AssetView> {
    match zip_entries_of(data) {
        Some(es) => named_assets(dedup_names(entries_names(es)), source, Evidence::JarClassFile),
        None => seq![],
    }
}

/// The assets of a list of archive entries at `source` (see [`entries_names`]).
pub fn assets_from_entries(entries: &Vec<Option<(String, Option<Vec<u8>>)>>, source: &str) -> (r: Vec<CryptoAsset>)
    ensures
        r.deep_view() == named_assets(
            dedup_names(entries_names(entries@.map_values(|e: Option<(String, Option<Vec<u8>>)>| zip_entry_view(e)))),
            source@,
            Evidence::JarClassFile,
        ),
{
    let ghost ev = entries@.map_values(|e: Option<(String, Option<Vec<u8>>)>| zip_entry_view(e));
    let ghost mut all: Seq<Seq<char>> = seq![];
    let mut names: Vec<Vec<char>> = Vec::new();
    let mut i: usize = 0;
    while i < entries.len()
        invariant
            i <= entries.len(),
            ev == entries@.map_values(|e: Option<(String, Option<Vec<u8>>)>| zip_entry_view(e)),
            all == entries_names(ev.take(i as int)),
            names.deep_view() == dedup_names(all),
        decreases entries.len() - i,
    {
        assert(ev.take(i + 1).drop_last() =~= ev.take(i as int));
        assert(ev.take(i + 1).last() == zip_entry_view(entries@[i as int]));
        match &entries[i] {
            Some((name, Some(bytes))) => {
                let l = to_lower(&chars_of(name.as_str()));
                if ends_with(&l, &chars_of(".class")) {
                    let found = scan_class_bytes(bytes.as_slice());
                    let ghost fv = found.deep_view();
                    let ghost base = all;
                    let mut j: usize = 0;
                    while j < found.len()
                        invariant
                            j <= found.len(),
                            fv == found.deep_view(),
                            all == base + fv.take(j as int),
                            names.deep_view() == dedup_names(all),
                        decreases found.len() - j,
                    {
                        let n = chars_of(crate::text::string_of(&found[j]).as_str());
                        assert(n@ =~= fv[j as int]);
                        proof {
                            lemma_dedup_push(all, n@);
                            all = all.push(n@);
                        }
                        push_unique_name(&mut names, n);
                        assert(all =~= base + fv.take(j + 1));
                        j = j + 1;
                    }
                    assert(fv.take(found.len() as int) =~= fv);
                } else {
                    assert(all =~= all + Seq::<Seq<char>>::empty());
                }
            },
            _ => {
                assert(all =~= all + Seq::<Seq<char>>::empty());
            },
        }
        assert(all == entries_names(ev.take(i + 1)));
        i = i + 1;
    }
    assert(ev.take(entries.len() as int) =~= ev);
    names_to_assets(&names, source, Evidence::JarClassFile)
}

/// Scans a JAR archive (path, size in bytes, contents) by scanning every
/// `.class` entry; archives over 100 MiB, or that do not open, give nothing.
pub fn scan_jar(path: &str, size: u64, data: &[u8]) -> (r: Vec<CryptoAsset>)
    ensures
        r.deep_view() == if size > MAX_JAR_BYTES {
            Seq::empty()
        } else {
            jar_assets(data@, path@)
        },
{
    if size > MAX_JAR_BYTES {
        return Vec::new();
    }
    match zip_entries(data) {
        None => Vec::new(),
        Some(entries) => assets_from_entries(&entries, path),
    }
}

} // verus!
