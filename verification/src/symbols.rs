//! The symbol-table scanner for ELF, PE and Mach-O binaries: imported and
//! exported function names matched against known crypto APIs.
use vstd::prelude::*;
use goblin::mach::Mach::{Binary, Fat};
use goblin::mach::SingleArch::MachO;
use goblin::Object;
use crate::binary::{dedup_names, lemma_dedup_push, named_assets, names_to_assets, push_unique_name};
use crate::model::{CryptoAsset, Evidence};
use crate::table::{assoc, lookup, opt_str_view, pairs_view, KeyMatch};
use crate::text::chars_of;

verus! {

/// Function symbols of crypto APIs and the algorithms they implement.
pub open spec fn symbol_map() -> Seq<(Seq<char>, Seq<char>)> {
    seq![
        ("RSA_generate_key"@, "RSA"@),
        ("RSA_generate_key_ex"@, "RSA"@),
        ("RSA_sign"@, "RSA"@),
        ("RSA_verify"@, "RSA"@),
        ("RSA_public_encrypt"@, "RSA"@),
        ("RSA_private_decrypt"@, "RSA"@),
        ("EVP_PKEY_CTX_set_rsa_keygen_bits"@, "RSA"@),
        ("BCryptGenerateKeyPair"@, "RSA"@),
        ("EC_KEY_new_by_curve_name"@, "ECDSA"@),
        ("EC_GROUP_new_by_curve_name"@, "ECDSA"@),
        ("ECDSA_sign"@, "ECDSA"@),
        ("ECDSA_verify"@, "ECDSA"@),
        ("ECDSA_do_sign"@, "ECDSA"@),
        ("ECDSA_do_verify"@, "ECDSA"@),
        ("EVP_aes_128_cbc"@, "AES-128"@),
        ("EVP_aes_128_ecb"@, "AES-128"@),
        ("EVP_aes_128_gcm"@, "AES-128"@),
        ("EVP_aes_128_ctr"@, "AES-128"@),
        ("EVP_aes_256_cbc"@, "AES-256"@),
        ("EVP_aes_256_ecb"@, "AES-256"@),
        ("EVP_aes_256_gcm"@, "AES-256"@),
        ("EVP_aes_256_ctr"@, "AES-256"@),
        ("EVP_aes_192_cbc"@, "AES-192"@),
        ("EVP_aes_192_gcm"@, "AES-192"@),
        ("EVP_sha1"@, "SHA-1"@),
        ("EVP_sha256"@, "SHA-256"@),
        ("EVP_sha384"@, "SHA-384"@),
        ("EVP_sha512"@, "SHA-512"@),
        ("EVP_md5"@, "MD5"@),
        ("EVP_md4"@, "MD4"@),
        ("SHA1"@, "SHA-1"@),
        ("SHA256"@, "SHA-256"@),
        ("SHA384"@, "SHA-384"@),
        ("SHA512"@, "SHA-512"@),
        ("MD5"@, "MD5"@),
        ("EVP_des_ede3_cbc"@, "3DES"@),
        ("EVP_des_ede3"@, "3DES"@),
        ("crypto_sign_ed25519"@, "Ed25519"@),
        ("crypto_sign_ed25519_keypair"@, "Ed25519"@),
        ("EVP_PKEY_CTX_new_id"@, "Ed25519"@),
        ("crypto_box_curve25519xsalsa20poly1305"@, "X25519"@),
        ("CryptGenKey"@, "RSA"@),
        ("CryptSignHash"@, "RSA"@),
        ("NCryptCreatePersistedKey"@, "RSA"@),
        ("C_GenerateKeyPair"@, "RSA"@),
        ("C_SignInit"@, "RSA"@),
        ("C_DecryptInit"@, "RSA"@),
        ("PQCLEAN_MLKEM768_CLEAN_crypto_kem_keypair"@, "ML-KEM-768"@),
        ("OQS_KEM_ml_kem_768_keypair"@, "ML-KEM-768"@),
    ]
}

fn symbol_table() -> (t: Vec<(&'static str, &'static str)>)
    ensures
        pairs_view(t@) == symbol_map(),
{
    let t: Vec<(&'static str, &'static str)> = vec![
        ("RSA_generate_key", "RSA"),
        ("RSA_generate_key_ex", "RSA"),
        ("RSA_sign", "RSA"),
        ("RSA_verify", "RSA"),
        ("RSA_public_encrypt", "RSA"),
        ("RSA_private_decrypt", "RSA"),
        ("EVP_PKEY_CTX_set_rsa_keygen_bits", "RSA"),
        ("BCryptGenerateKeyPair", "RSA"),
        ("EC_KEY_new_by_curve_name", "ECDSA"),
        ("EC_GROUP_new_by_curve_name", "ECDSA"),
        ("ECDSA_sign", "ECDSA"),
        ("ECDSA_verify", "ECDSA"),
        ("ECDSA_do_sign", "ECDSA"),
        ("ECDSA_do_verify", "ECDSA"),
        ("EVP_aes_128_cbc", "AES-128"),
        ("EVP_aes_128_ecb", "AES-128"),
        ("EVP_aes_128_gcm", "AES-128"),
        ("EVP_aes_128_ctr", "AES-128"),
        ("EVP_aes_256_cbc", "AES-256"),
        ("EVP_aes_256_ecb", "AES-256"),
        ("EVP_aes_256_gcm", "AES-256"),
        ("EVP_aes_256_ctr", "AES-256"),
        ("EVP_aes_192_cbc", "AES-192"),
        ("EVP_aes_192_gcm", "AES-192"),
        ("EVP_sha1", "SHA-1"),
        ("EVP_sha256", "SHA-256"),
        ("EVP_sha384", "SHA-384"),
        ("EVP_sha512", "SHA-512"),
        ("EVP_md5", "MD5"),
        ("EVP_md4", "MD4"),
        ("SHA1", "SHA-1"),
        ("SHA256", "SHA-256"),
        ("SHA384", "SHA-384"),
        ("SHA512", "SHA-512"),
        ("MD5", "MD5"),
        ("EVP_des_ede3_cbc", "3DES"),
        ("EVP_des_ede3", "3DES"),
        ("crypto_sign_ed25519", "Ed25519"),
        ("crypto_sign_ed25519_keypair", "Ed25519"),
        ("EVP_PKEY_CTX_new_id", "Ed25519"),
        ("crypto_box_curve25519xsalsa20poly1305", "X25519"),
        ("CryptGenKey", "RSA"),
        ("CryptSignHash", "RSA"),
        ("NCryptCreatePersistedKey", "RSA"),
        ("C_GenerateKeyPair", "RSA"),
        ("C_SignInit", "RSA"),
        ("C_DecryptInit", "RSA"),
        ("PQCLEAN_MLKEM768_CLEAN_crypto_kem_keypair", "ML-KEM-768"),
        ("OQS_KEM_ml_kem_768_keypair", "ML-KEM-768"),
    ];
    assert(pairs_view(t@) =~= symbol_map());
    t
}

pub open spec fn opt_text(o: Option<String>) -> Option<Seq<char>> {
    match o {
        Some(s) => Some(s@),
        None => None,
    }
}

pub open spec fn opt_texts(v: Seq<Option<String>>) -> Seq<Option<Seq<char>>> {
    v.map_values(|o: Option<String>| opt_text(o))
}

pub open spec fn texts(v: Seq<String>) -> Seq<Seq<char>> {
    v.map_values(|s: String| s@)
}

/// The dynamic and static symbol names of an ELF file as `goblin` reads them
/// (`None` for a name missing from its string table); `None` when the data is
/// not an ELF file.
pub uninterp spec fn elf_symbols_of(data: Seq<u8>) -> Option<(Seq<Option<Seq<char>>>, Seq<Option<Seq<char>>>)>;

/// The import names and export names of a PE file as `goblin` reads them;
/// `None` when the data is not a PE file.
pub uninterp spec fn pe_symbols_of(data: Seq<u8>) -> Option<(Seq<Seq<char>>, Seq<Option<Seq<char>>>)>;

/// For each Mach-O slice of the data, in order (a plain Mach-O file is one
/// slice; a fat binary has one per architecture), its symbol names (`None` for
/// an entry that does not read; `None` overall without a symbol table) and
/// import names (`None` when they do not read) as `goblin` reads them, or
/// `None` for a slice that is not a Mach-O file; `None` when the data is
/// neither a Mach-O file nor a fat binary.
pub uninterp spec fn macho_symbols_of(data: Seq<u8>) -> Option<Seq<Option<(Option<Seq<Option<Seq<char>>>>, Option<Seq<Seq<char>>>)>>>;

/// Parses `data` with `Object::parse` and, for an ELF file, resolves
/// each dynamic and static symbol's name in its string table. The contract
/// claims only that the result is a function of the bytes, named
/// [`elf_symbols_of`].
#[verifier::external_body]
fn elf_symbols(data: &[u8]) -> (r: Option<(Vec<Option<String>>, Vec<Option<String>>)>)
    ensures
        match r {
            Some((d, s)) => elf_symbols_of(data@) == Some((opt_texts(d@), opt_texts(s@))),
            None => elf_symbols_of(data@) is None,
        },
{
    match Object::parse(data) {
        Ok(Object::Elf(elf)) => Some((
            elf.dynsyms.iter().map(|s| elf.dynstrtab.get_at(s.st_name).map(|n| n.to_owned())).collect(),
            elf.syms.iter().map(|s| elf.strtab.get_at(s.st_name).map(|n| n.to_owned())).collect(),
        )),
        _ => None,
    }
}

/// Parses `data` with `Object::parse` and, for a PE file, lists its
/// import names and export names. The contract claims only that the result is
/// a function of the bytes, named [`pe_symbols_of`].
#[verifier::external_body]
fn pe_symbols(data: &[u8]) -> (r: Option<(Vec<String>, Vec<Option<String>>)>)
    ensures
        match r {
            Some((i, e)) => pe_symbols_of(data@) == Some((texts(i@), opt_texts(e@))),
            None => pe_symbols_of(data@) is None,
        },
{
    match Object::parse(data) {
        Ok(Object::PE(pe)) => Some((
            pe.imports.iter().map(|i| i.name.to_string()).collect(),
            pe.exports.iter().map(|e| e.name.map(|n| n.to_owned())).collect(),
        )),
        _ => None,
    }
}

/// What one Mach-O slice's names are, as plain values.
pub open spec fn macho_slice_view(x: Option<(Option<Vec<Option<String>>>, Option<Vec<String>>)>) -> Option<
    (Option<Seq<Option<Seq<char>>>>, Option<Seq<Seq<char>>>),
> {
    match x {
        Some((s, i)) => Some(
            (
                match s {
                    Some(v) => Some(opt_texts(v@)),
                    None => None,
                },
                match i {
                    Some(v) => Some(texts(v@)),
                    None => None,
                },
            ),
        ),
        None => None,
    }
}

pub open spec fn slice_views(
    v: Seq<Option<(Option<Vec<Option<String>>>, Option<Vec<String>>)>>,
) -> Seq<Option<(Option<Seq<Option<Seq<char>>>>, Option<Seq<Seq<char>>>)>> {
    v.map_values(|x: Option<(Option<Vec<Option<String>>>, Option<Vec<String>>)>| macho_slice_view(x))
}

/// Parses `data` with `Object::parse` and, for a Mach-O file or each
/// slice of a fat binary, lists its symbol-table names and its `imports()`
/// names. The contract claims only that the result is a function of the
/// bytes, named [`macho_symbols_of`].
#[verifier::external_body]
fn macho_symbols(data: &[u8]) -> (r: Option<Vec<Option<(Option<Vec<Option<String>>>, Option<Vec<String>>)>>>)
    ensures
        match r {
            Some(v) => macho_symbols_of(data@) == Some(slice_views(v@)),
            None => macho_symbols_of(data@) is None,
        },
{
    let slices = match Object::parse(data) {
        Ok(Object::Mach(Binary(m))) => vec![Ok(MachO(m))],
        Ok(Object::Mach(Fat(fat))) => fat.into_iter().collect(),
        _ => return None,
    };
    Some(slices.into_iter().map(|a| match a {
        Ok(MachO(m)) => Some((
            m.symbols.as_ref().map(|s| s.iter().map(|e| e.ok().map(|e| e.0.to_owned())).collect()),
            m.imports().ok().map(|v| v.iter().map(|i| i.name.to_owned()).collect()),
        )),
        _ => None,
    }).collect())
}

// ── Specification ─────────────────────────────────────────────────────────────

/// The algorithm of a symbol name (exact match).
pub open spec fn symbol_algorithm(sym: Seq<char>) -> Seq<Seq<char>> {
    match assoc(symbol_map(), sym) {
        Some(a) => seq![a],
        None => seq![],
    }
}

/// The algorithms of a list of names, in order; with `skip_empty`, empty names
/// are passed over.
pub open spec fn names_algorithms(s: Seq<Seq<char>>) -> Seq<Seq<char>>
    decreases s.len(),
{
    if s.len() == 0 {
        seq![]
    } else {
        names_algorithms(s.drop_last()) + symbol_algorithm(s.last())
    }
}

/// The names present in a list of optional names; with `skip_empty`, empty
/// names are left out too.
pub open spec fn present(s: Seq<Option<Seq<char>>>, skip_empty: bool) -> Seq<Seq<char>>
    decreases s.len(),
{
    if s.len() == 0 {
        seq![]
    } else {
        present(s.drop_last(), skip_empty) + match s.last() {
            Some(n) => if skip_empty && n.len() == 0 {
                seq![]
            } else {
                seq![n]
            },
            None => seq![],
        }
    }
}

/// Leading underscores removed (the Mach-O symbol prefix).
pub open spec fn strip_underscores(s: Seq<char>) -> Seq<char>
    decreases s.len(),
{
    if s.len() > 0 && s[0] == '_' {
        strip_underscores(s.drop_first())
    } else {
        s
    }
}

pub open spec fn strip_all(s: Seq<Seq<char>>) -> Seq<Seq<char>> {
    s.map_values(|n: Seq<char>| strip_underscores(n))
}

/// The Mach-O names checked: symbol names without leading underscores (empty
/// ones left out), then import names without leading underscores.
pub open spec fn macho_names(
    syms: Option<Seq<Option<Seq<char>>>>,
    imports: Option<Seq<Seq<char>>>,
) -> Seq<Seq<char>> {
    (match syms {
        Some(v) => present(v.map_values(|o: Option<Seq<char>>| match o {
            Some(n) => Some(strip_underscores(n)),
            None => None,
        }), true),
        None => seq![],
    }) + match imports {
        Some(v) => strip_all(v),
        None => seq![],
    }
}

/// The first present entry of a sequence.
pub open spec fn first_some<A>(s: Seq<Option<A>>) -> Option<A>
    decreases s.len(),
{
    if s.len() == 0 {
        None
    } else if s[0] is Some {
        s[0]
    } else {
        first_some(s.drop_first())
    }
}

/// The names a binary's symbol tables give, in the order they are checked; of
/// a fat binary, those of its first Mach-O slice.
pub open spec fn object_names(data: Seq<u8>) -> Seq<Seq<char>> {
    match elf_symbols_of(data) {
        Some((d, s)) => present(d, false) + present(s, true),
        None => match pe_symbols_of(data) {
            Some((i, e)) => i + present(e, false),
            None => match macho_symbols_of(data) {
                Some(slices) => match first_some(slices) {
                    Some((s, i)) => macho_names(s, i),
                    None => seq![],
                },
                None => seq![],
            },
        },
    }
}

/// The assets of a binary's crypto symbols at `source`: one per algorithm.
pub open spec fn symbol_assets(data: Seq<u8>, source: Seq<char>) -> Seq<crate::model::AssetView> {
    named_assets(dedup_names(names_algorithms(object_names(data))), source, Evidence::ElfSymbol)
}

// ── Scanning ──────────────────────────────────────────────────────────────────

/// The names present in a list of optional names (see [`present`]).
fn present_names(v: &Vec<Option<String>>, skip_empty: bool) -> (r: Vec<Vec<char>>)
    ensures
        r.deep_view() == present(opt_texts(v@), skip_empty),
{
    let ghost ov = opt_texts(v@);
    let mut out: Vec<Vec<char>> = Vec::new();
    let mut i: usize = 0;
    while i < v.len()
        invariant
            i <= v.len(),
            ov == opt_texts(v@),
            out.deep_view() == present(ov.take(i as int), skip_empty),
        decreases v.len() - i,
    {
        assert(ov.take(i + 1).drop_last() =~= ov.take(i as int));
        assert(ov.take(i + 1).last() == opt_text(v@[i as int]));
        let ghost before = out.deep_view();
        match &v[i] {
            Some(n) => {
                let c = chars_of(n.as_str());
                if skip_empty && c.len() == 0 {
                    assert(out.deep_view() =~= before + Seq::<Seq<char>>::empty());
                } else {
                    assert(c.deep_view() =~= c@);
                    out.push(c);
                    assert(out.deep_view() =~= before + seq![n@]);
                }
            },
            None => {
                assert(out.deep_view() =~= before + Seq::<Seq<char>>::empty());
            },
        }
        i = i + 1;
    }
    assert(ov.take(v.len() as int) =~= ov);
    out
}

fn all_names(v: &Vec<String>) -> (r: Vec<Vec<char>>)
    ensures
        r.deep_view() == texts(v@),
{
    let mut out: Vec<Vec<char>> = Vec::new();
    let mut i: usize = 0;
    while i < v.len()
        invariant
            i <= v.len(),
            out.deep_view() == texts(v@).take(i as int),
        decreases v.len() - i,
    {
        let c = chars_of(v[i].as_str());
        let ghost before = out.deep_view();
        assert(c.deep_view() =~= c@);
        out.push(c);
        assert(out.deep_view() =~= before.push(c@));
        assert(texts(v@)[i as int] == v@[i as int]@);
        assert(out.deep_view() =~= texts(v@).take(i + 1));
        i = i + 1;
    }
    assert(texts(v@).take(v.len() as int) =~= texts(v@));
    out
}

fn strip_underscores_exec(s: &Vec<char>) -> (r: Vec<char>)
    ensures
        r@ == strip_underscores(s@),
{
    let mut a: usize = 0;
    assert(s@.skip(0) =~= s@);
    while a < s.len() && s[a] == '_'
        invariant
            a <= s.len(),
            strip_underscores(s@) == strip_underscores(s@.skip(a as int)),
        decreases s.len() - a,
    {
        assert(s@.skip(a as int).drop_first() =~= s@.skip(a + 1));
        a = a + 1;
    }
    let mut r: Vec<char> = Vec::new();
    let mut i: usize = a;
    while i < s.len()
        invariant
            a <= i <= s.len(),
            r@ == s@.subrange(a as int, i as int),
        decreases s.len() - i,
    {
        r.push(s[i]);
        i = i + 1;
        assert(r@ =~= s@.subrange(a as int, i as int));
    }
    assert(r@ =~= s@.skip(a as int));
    r
}

fn macho_name_list(syms: &Option<Vec<Option<String>>>, imports: &Option<Vec<String>>) -> (r: Vec<Vec<char>>)
    ensures
        r.deep_view() == macho_names(
            match syms {
                Some(v) => Some(opt_texts(v@)),
                None => None,
            },
            match imports {
                Some(v) => Some(texts(v@)),
                None => None,
            },
        ),
{
    let mut out: Vec<Vec<char>> = Vec::new();
    match syms {
        Some(v) => {
            let ghost sv = opt_texts(v@).map_values(|o: Option<Seq<char>>| match o {
                Some(n) => Some(strip_underscores(n)),
                None => None,
            });
            let mut i: usize = 0;
            while i < v.len()
                invariant
                    i <= v.len(),
                    sv == opt_texts(v@).map_values(|o: Option<Seq<char>>| match o {
                        Some(n) => Some(strip_underscores(n)),
                        None => None,
                    }),
                    out.deep_view() == present(sv.take(i as int), true),
                decreases v.len() - i,
            {
                assert(sv.take(i + 1).drop_last() =~= sv.take(i as int));
                let ghost before = out.deep_view();
                match &v[i] {
                    Some(n) => {
                        let c = strip_underscores_exec(&chars_of(n.as_str()));
                        assert(sv.take(i + 1).last() == Some(c@));
                        if c.len() == 0 {
                            assert(out.deep_view() =~= before + Seq::<Seq<char>>::empty());
                        } else {
                            assert(c.deep_view() =~= c@);
                            out.push(c);
                            assert(out.deep_view() =~= before + seq![c@]);
                        }
                    },
                    None => {
                        assert(sv.take(i + 1).last() == None::<Seq<char>>);
                        assert(out.deep_view() =~= before + Seq::<Seq<char>>::empty());
                    },
                }
                i = i + 1;
            }
            assert(sv.take(v.len() as int) =~= sv);
        },
        None => {},
    }
    let ghost first = out.deep_view();
    match imports {
        Some(v) => {
            let mut i: usize = 0;
            while i < v.len()
                invariant
                    i <= v.len(),
                    out.deep_view() == first + strip_all(texts(v@)).take(i as int),
                decreases v.len() - i,
            {
                let c = strip_underscores_exec(&chars_of(v[i].as_str()));
                let ghost before = out.deep_view();
                assert(c.deep_view() =~= c@);
                out.push(c);
                assert(out.deep_view() =~= before.push(c@));
                assert(strip_all(texts(v@))[i as int] == strip_underscores(v@[i as int]@));
                assert(out.deep_view() =~= first + strip_all(texts(v@)).take(i + 1));
                i = i + 1;
            }
            assert(strip_all(texts(v@)).take(v.len() as int) =~= strip_all(texts(v@)));
        },
        None => {
            assert(out.deep_view() =~= first + Seq::<Seq<char>>::empty());
        },
    }
    out
}

/// Where the first Mach-O slice of a list of slices stands.
fn first_macho_index(v: &Vec<Option<(Option<Vec<Option<String>>>, Option<Vec<String>>)>>) -> (r: Option<
    usize,
>)
    ensures
        match r {
            Some(k) => k < v.len() && v@[k as int] is Some && first_some(slice_views(v@))
                == macho_slice_view(v@[k as int]),
            None => first_some(slice_views(v@)) is None,
        },
{
    let ghost all = slice_views(v@);
    let mut i: usize = 0;
    assert(all.skip(0) =~= all);
    while i < v.len()
        invariant
            i <= v.len(),
            all == slice_views(v@),
            first_some(all) == first_some(all.skip(i as int)),
        decreases v.len() - i,
    {
        assert(all.skip(i as int).drop_first() =~= all.skip(i + 1));
        assert(all.skip(i as int)[0] == macho_slice_view(v@[i as int]));
        if v[i].is_some() {
            assert(first_some(all.skip(i as int)) == all.skip(i as int)[0]);
            return Some(i);
        }
        i = i + 1;
    }
    assert(all.skip(i as int) =~= Seq::<Option<(Option<Seq<Option<Seq<char>>>>, Option<Seq<Seq<char>>>)>>::empty());
    None
}

/// The names a binary's symbol tables give (see [`object_names`]).
pub fn symbol_names(data: &[u8]) -> (r: Vec<Vec<char>>)
    ensures
        r.deep_view() == object_names(data@),
{
    match elf_symbols(data) {
        Some((d, s)) => {
            let mut a = present_names(&d, false);
            let mut b = present_names(&s, true);
            let ghost av = a.deep_view();
            let ghost bv = b.deep_view();
            a.append(&mut b);
            assert(a.deep_view() =~= av + bv);
            a
        },
        None => match pe_symbols(data) {
            Some((i, e)) => {
                let mut a = all_names(&i);
                let mut b = present_names(&e, false);
                let ghost av = a.deep_view();
                let ghost bv = b.deep_view();
                a.append(&mut b);
                assert(a.deep_view() =~= av + bv);
                a
            },
            None => match macho_symbols(data) {
                Some(slices) => match first_macho_index(&slices) {
                    Some(k) => match &slices[k] {
                        Some((s, i)) => macho_name_list(s, i),
                        None => Vec::new(),
                    },
                    None => Vec::new(),
                },
                None => Vec::new(),
            },
        },
    }
}

/// The algorithm a function symbol names, if it is a known crypto API.
pub fn check_symbol(sym: &[char]) -> (r: Option<&'static str>)
    ensures
        opt_str_view(r) == assoc(symbol_map(), sym@),
{
    lookup(&symbol_table(), sym, KeyMatch::Exact)
}

/// Scans a binary's symbol tables (ELF, PE, Mach-O) for known crypto function
/// names, reported at `source`; data of any other kind gives nothing.
pub fn scan_symbols(source: &str, data: &[u8]) -> (r: Vec<CryptoAsset>)
    ensures
        r.deep_view() == symbol_assets(data@, source@),
{
    let syms = symbol_names(data);
    let ghost sv = syms.deep_view();
    let ghost mut all: Seq<Seq<char>> = seq![];
    let mut names: Vec<Vec<char>> = Vec::new();
    let mut i: usize = 0;
    while i < syms.len()
        invariant
            i <= syms.len(),
            sv == syms.deep_view(),
            all == names_algorithms(sv.take(i as int)),
            names.deep_view() == dedup_names(all),
        decreases syms.len() - i,
    {
        assert(sv.take(i + 1).drop_last() =~= sv.take(i as int));
        assert(sv.take(i + 1).last() =~= syms@[i as int]@);
        match check_symbol(&syms[i]) {
            Some(algo) => {
                let n = chars_of(algo);
                proof {
                    lemma_dedup_push(all, n@);
                    all = all.push(n@);
                }
                push_unique_name(&mut names, n);
                assert(all =~= names_algorithms(sv.take(i + 1)));
            },
            None => {
                assert(all =~= names_algorithms(sv.take(i + 1)));
            },
        }
        i = i + 1;
    }
    assert(sv.take(syms.len() as int) =~= sv);
    names_to_assets(&names, source, Evidence::ElfSymbol)
}

} // verus!
