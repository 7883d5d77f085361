//! The package-manifest scanner: dependencies declared in `Cargo.toml`,
//! `package.json`, `requirements.txt` / `Pipfile`, `go.mod`, Maven `pom.xml`
//! and Gradle build files that name a known cryptographic library.
use vstd::prelude::*;
use vstd::utf8::{decode_utf8, valid_utf8};
use crate::catalog::{classify, classify_by_name};
use crate::config::{result_view, DetectError};
use crate::model::{asset_view, AssetType, AssetView, CryptoAsset, Evidence, Location, LocationView, QuantumSafety, Risk};
use crate::paths::{file_name, file_name_of};
use crate::patterns::utf8_text;
use crate::table::{assoc, lookup, opt_str_view, pairs_view, KeyMatch};
use crate::text::{
    chars_eq, chars_of, first_index, find_char, has_prefix, lines, unicode_lower, split_lines, split_words,
    split_on, starts_with, string_of, to_lower, trim, trimmed, words,
};

verus! {

/// Files larger than this are not scanned.
pub const MAX_MANIFEST_BYTES: u64 = 2097152;

/// Library names (lower case) and the algorithm each primarily implements.
pub open spec fn library_catalog() -> Seq<(Seq<char>, Seq<char>)> {
    seq![
        ("openssl"@, "RSA"@),
        ("native-tls"@, "RSA"@),
        ("ring"@, "ECDSA"@),
        ("boring"@, "ECDSA"@),
        ("rustls"@, "ECDSA"@),
        ("rsa"@, "RSA-2048"@),
        ("dsa"@, "DSA-2048"@),
        ("ecdsa"@, "ECDSA"@),
        ("ed25519-dalek"@, "Ed25519"@),
        ("x25519-dalek"@, "X25519"@),
        ("p256"@, "ECDSA-P-256"@),
        ("p384"@, "ECDSA-P-384"@),
        ("k256"@, "ECDSA"@),
        ("sha1"@, "SHA-1"@),
        ("md5"@, "MD5"@),
        ("des"@, "DES"@),
        ("rc4"@, "RC4"@),
        ("aes"@, "AES-256"@),
        ("sha2"@, "SHA-256"@),
        ("sha3"@, "SHA3-256"@),
        ("hmac"@, "SHA-256"@),
        ("pqcrypto-kyber"@, "ML-KEM-768"@),
        ("pqcrypto-dilithium"@, "ML-DSA-65"@),
        ("ml-kem"@, "ML-KEM-768"@),
        ("ml-dsa"@, "ML-DSA-65"@),
        ("node-forge"@, "RSA"@),
        ("jsonwebtoken"@, "RSA-2048"@),
        ("jose"@, "ECDSA-P-256"@),
        ("node-rsa"@, "RSA-2048"@),
        ("elliptic"@, "ECDSA"@),
        ("crypto-js"@, "AES-256"@),
        ("jsrsasign"@, "RSA"@),
        ("bcrypt"@, "SHA-256"@),
        ("bcryptjs"@, "SHA-256"@),
        ("cryptography"@, "RSA"@),
        ("paramiko"@, "RSA"@),
        ("pycryptodome"@, "RSA"@),
        ("pycryptodomex"@, "RSA"@),
        ("pyopenssl"@, "RSA"@),
        ("pyjwt"@, "RSA-2048"@),
        ("python-jose"@, "ECDSA-P-256"@),
        ("rsa"@, "RSA-2048"@),
        ("ecdsa"@, "ECDSA"@),
        ("golang.org/x/crypto"@, "Ed25519"@),
        ("github.com/cloudflare/circl"@, "ML-KEM-768"@),
        ("gopkg.in/square/go-jose.v2"@, "ECDSA-P-256"@),
        ("gopkg.in/go-jose/go-jose.v3"@, "ECDSA-P-256"@),
        ("github.com/golang-jwt/jwt"@, "RSA-2048"@),
        ("github.com/dgrijalva/jwt-go"@, "RSA-2048"@),
        ("github.com/lestrrat-go/jwx"@, "ECDSA-P-256"@),
        ("github.com/lestrrat-go/jwx/v2"@, "ECDSA-P-256"@),
        ("bcprov-jdk18on"@, "RSA-2048"@),
        ("bcpkix-jdk18on"@, "RSA-2048"@),
        ("java-jwt"@, "RSA-2048"@),
        ("jjwt-api"@, "RSA-2048"@),
        ("jjwt-impl"@, "RSA-2048"@),
        ("nimbus-jose-jwt"@, "ECDSA-P-256"@),
        ("spring-security-crypto"@, "RSA-2048"@),
        ("tink"@, "AES-256"@),
        ("conscrypt-openjdk-uber"@, "ECDSA-P-256"@),
        ("google-cloud-kms"@, "RSA-2048"@),
    ]
}

fn library_table() -> (t: Vec<(&'static str, &'static str)>)
    ensures
        pairs_view(t@) == library_catalog(),
{
    let t: Vec<(&'static str, &'static str)> = vec![
        ("openssl", "RSA"),
        ("native-tls", "RSA"),
        ("ring", "ECDSA"),
        ("boring", "ECDSA"),
        ("rustls", "ECDSA"),
        ("rsa", "RSA-2048"),
        ("dsa", "DSA-2048"),
        ("ecdsa", "ECDSA"),
        ("ed25519-dalek", "Ed25519"),
        ("x25519-dalek", "X25519"),
        ("p256", "ECDSA-P-256"),
        ("p384", "ECDSA-P-384"),
        ("k256", "ECDSA"),
        ("sha1", "SHA-1"),
        ("md5", "MD5"),
        ("des", "DES"),
        ("rc4", "RC4"),
        ("aes", "AES-256"),
        ("sha2", "SHA-256"),
        ("sha3", "SHA3-256"),
        ("hmac", "SHA-256"),
        ("pqcrypto-kyber", "ML-KEM-768"),
        ("pqcrypto-dilithium", "ML-DSA-65"),
        ("ml-kem", "ML-KEM-768"),
        ("ml-dsa", "ML-DSA-65"),
        ("node-forge", "RSA"),
        ("jsonwebtoken", "RSA-2048"),
        ("jose", "ECDSA-P-256"),
        ("node-rsa", "RSA-2048"),
        ("elliptic", "ECDSA"),
        ("crypto-js", "AES-256"),
        ("jsrsasign", "RSA"),
        ("bcrypt", "SHA-256"),
        ("bcryptjs", "SHA-256"),
        ("cryptography", "RSA"),
        ("paramiko", "RSA"),
        ("pycryptodome", "RSA"),
        ("pycryptodomex", "RSA"),
        ("pyopenssl", "RSA"),
        ("pyjwt", "RSA-2048"),
        ("python-jose", "ECDSA-P-256"),
        ("rsa", "RSA-2048"),
        ("ecdsa", "ECDSA"),
        ("golang.org/x/crypto", "Ed25519"),
        ("github.com/cloudflare/circl", "ML-KEM-768"),
        ("gopkg.in/square/go-jose.v2", "ECDSA-P-256"),
        ("gopkg.in/go-jose/go-jose.v3", "ECDSA-P-256"),
        ("github.com/golang-jwt/jwt", "RSA-2048"),
        ("github.com/dgrijalva/jwt-go", "RSA-2048"),
        ("github.com/lestrrat-go/jwx", "ECDSA-P-256"),
        ("github.com/lestrrat-go/jwx/v2", "ECDSA-P-256"),
        ("bcprov-jdk18on", "RSA-2048"),
        ("bcpkix-jdk18on", "RSA-2048"),
        ("java-jwt", "RSA-2048"),
        ("jjwt-api", "RSA-2048"),
        ("jjwt-impl", "RSA-2048"),
        ("nimbus-jose-jwt", "ECDSA-P-256"),
        ("spring-security-crypto", "RSA-2048"),
        ("tink", "AES-256"),
        ("conscrypt-openjdk-uber", "ECDSA-P-256"),
        ("google-cloud-kms", "RSA-2048"),
    ];
    assert(pairs_view(t@) =~= library_catalog());
    t
}

/// The algorithm of a library, by its name in any case.
pub open spec fn library_algorithm(name: Seq<char>) -> Option<Seq<char>> {
    assoc(library_catalog(), unicode_lower(name))
}

/// A dependency found on a line: library name as written, line number, and
/// the algorithm it implements.
pub type Hit = (Seq<char>, u32, Seq<char>);

/// The hit for `name` on line `ln`, when the library is known.
pub open spec fn hit_of(name: Seq<char>, ln: u32) -> Seq<Hit> {
    match library_algorithm(name) {
        Some(a) => seq![(name, ln, a)],
        None => seq![],
    }
}

/// `s` up to its first `c` (all of it when there is none).
pub open spec fn before_char(s: Seq<char>, c: char) -> Seq<char> {
    match first_index(s, c) {
        Some(i) => s.take(i),
        None => s,
    }
}

pub open spec fn lead_quotes(s: Seq<char>) -> nat
    decreases s.len(),
{
    if s.len() > 0 && s[0] == '"' {
        1 + lead_quotes(s.drop_first())
    } else {
        0
    }
}

pub open spec fn trail_quotes(s: Seq<char>) -> nat
    decreases s.len(),
{
    if s.len() > 0 && s.last() == '"' {
        1 + trail_quotes(s.drop_last())
    } else {
        0
    }
}

/// `str::trim_matches('"')`.
pub open spec fn strip_quotes(s: Seq<char>) -> Seq<char> {
    let t = s.skip(lead_quotes(s) as int);
    t.take(t.len() - trail_quotes(t))
}

/// The section headers that open a Cargo dependency table.
pub open spec fn is_deps_header(t: Seq<char>) -> bool {
    t == "[dependencies]"@ || t == "[dev-dependencies]"@ || t == "[build-dependencies]"@ || t
        == "[workspace.dependencies]"@
}

/// Whether the line after `ls` is inside a Cargo dependency table.
pub open spec fn cargo_in_deps(ls: Seq<Seq<char>>) -> bool
    decreases ls.len(),
{
    if ls.len() == 0 {
        false
    } else {
        let t = trim(ls.last());
        if has_prefix(t, "["@) {
            is_deps_header(t)
        } else {
            cargo_in_deps(ls.drop_last())
        }
    }
}

/// `Cargo.toml`: the key of each line inside a dependency table.
pub open spec fn cargo_hits(ls: Seq<Seq<char>>) -> Seq<Hit>
    decreases ls.len(),
{
    if ls.len() == 0 {
        seq![]
    } else {
        let prev = ls.drop_last();
        let t = trim(ls.last());
        cargo_hits(prev) + if has_prefix(t, "["@) || !cargo_in_deps(prev) || t.len() == 0 || has_prefix(
            t,
            "#"@,
        ) {
            seq![]
        } else {
            hit_of(strip_quotes(trim(before_char(t, '='))), ls.len() as u32)
        }
    }
}

/// `package.json`: the first quoted string of each line that starts with one.
pub open spec fn package_json_hits(ls: Seq<Seq<char>>) -> Seq<Hit>
    decreases ls.len(),
{
    if ls.len() == 0 {
        seq![]
    } else {
        let t = trim(ls.last());
        package_json_hits(ls.drop_last()) + if has_prefix(t, "\""@) {
            match first_index(t.drop_first(), '"') {
                Some(c) => hit_of(t.drop_first().take(c), ls.len() as u32),
                None => seq![],
            }
        } else {
            seq![]
        }
    }
}

/// The characters that end a requirement's package name.
pub open spec fn is_req_stop(c: char) -> bool {
    c == '=' || c == '<' || c == '>' || c == '!' || c == '~' || c == '[' || c == ';' || c == ' ' || c
        == '\t'
}

/// `s` up to its first name-ending character.
pub open spec fn until_stop(s: Seq<char>) -> Seq<char>
    decreases s.len(),
{
    if s.len() == 0 || is_req_stop(s[0]) {
        seq![]
    } else {
        seq![s[0]] + until_stop(s.drop_first())
    }
}

/// `requirements.txt` / `Pipfile`: the package name opening each line.
pub open spec fn requirements_hits(ls: Seq<Seq<char>>) -> Seq<Hit>
    decreases ls.len(),
{
    if ls.len() == 0 {
        seq![]
    } else {
        let t = trim(ls.last());
        let name = trim(until_stop(t));
        requirements_hits(ls.drop_last()) + if t.len() == 0 || has_prefix(t, "#"@) || has_prefix(
            t,
            "-"@,
        ) || name.len() == 0 {
            seq![]
        } else {
            hit_of(name, ls.len() as u32)
        }
    }
}

/// The first word of a line (empty when it has none).
pub open spec fn first_word(s: Seq<char>) -> Seq<char> {
    if words(s).len() > 0 {
        words(s)[0]
    } else {
        seq![]
    }
}

/// Whether the line after `ls` is inside a `require ( ... )` block.
pub open spec fn go_in_require(ls: Seq<Seq<char>>) -> bool
    decreases ls.len(),
{
    if ls.len() == 0 {
        false
    } else {
        let t = trim(ls.last());
        let prev = go_in_require(ls.drop_last());
        if t == "require ("@ {
            true
        } else if t == ")"@ && prev {
            false
        } else {
            prev
        }
    }
}

/// `go.mod`: single-line requires and the lines of require blocks.
pub open spec fn go_mod_hits(ls: Seq<Seq<char>>) -> Seq<Hit>
    decreases ls.len(),
{
    if ls.len() == 0 {
        seq![]
    } else {
        let prev = ls.drop_last();
        let t = trim(ls.last());
        let inside = go_in_require(prev);
        go_mod_hits(prev) + if t == "require ("@ || (t == ")"@ && inside) {
            seq![]
        } else if has_prefix(t, "require "@) {
            hit_of(first_word(t.skip(8)), ls.len() as u32)
        } else if inside && t.len() > 0 && !has_prefix(t, "//"@) {
            hit_of(first_word(t), ls.len() as u32)
        } else {
            seq![]
        }
    }
}

/// The first position at or after `i` where `p` occurs in `s`.
pub open spec fn find_from(s: Seq<char>, p: Seq<char>, i: int) -> Option<int>
    decreases s.len() + 1 - i,
{
    if i < 0 || i + p.len() > s.len() {
        None
    } else if s.subrange(i, i + p.len()) == p {
        Some(i)
    } else {
        find_from(s, p, i + 1)
    }
}

/// The text between the first `open` and the first `close` after it.
pub open spec fn tag_value(t: Seq<char>, open: Seq<char>, close: Seq<char>) -> Option<Seq<char>> {
    match find_from(t, open, 0) {
        Some(i) => {
            let rest = t.skip(i + open.len());
            match find_from(rest, close, 0) {
                Some(j) => Some(rest.take(j)),
                None => None,
            }
        },
        None => None,
    }
}

/// Whether the line after `ls` is inside a `<dependency>` element.
pub open spec fn pom_in_dependency(ls: Seq<Seq<char>>) -> bool
    decreases ls.len(),
{
    if ls.len() == 0 {
        false
    } else {
        let t = ls.last();
        if find_from(t, "</dependency>"@, 0) is Some {
            false
        } else if find_from(t, "<dependency>"@, 0) is Some {
            true
        } else {
            pom_in_dependency(ls.drop_last())
        }
    }
}

/// Maven `pom.xml`: the `<artifactId>` of each `<dependency>` element.
pub open spec fn pom_hits(ls: Seq<Seq<char>>) -> Seq<Hit>
    decreases ls.len(),
{
    if ls.len() == 0 {
        seq![]
    } else {
        let prev = ls.drop_last();
        let t = ls.last();
        let inside = find_from(t, "<dependency>"@, 0) is Some || pom_in_dependency(prev);
        pom_hits(prev) + if inside {
            match tag_value(t, "<artifactId>"@, "</artifactId>"@) {
                Some(a) => hit_of(trim(a), ls.len() as u32),
                None => seq![],
            }
        } else {
            seq![]
        }
    }
}

pub open spec fn is_quote(c: char) -> bool {
    c == '"' || c == '\''
}

/// The position of the first quote character (`"` or `'`).
pub open spec fn first_quote(s: Seq<char>, i: int) -> Option<int>
    decreases s.len() - i,
{
    if i < 0 || i >= s.len() {
        None
    } else if is_quote(s[i]) {
        Some(i)
    } else {
        first_quote(s, i + 1)
    }
}

/// The first quoted string of a line: after its first quote character, up to
/// the next occurrence of that same character.
pub open spec fn first_quoted(t: Seq<char>) -> Option<Seq<char>> {
    match first_quote(t, 0) {
        Some(i) => {
            let rest = t.skip(i + 1);
            match first_index(rest, t[i]) {
                Some(j) => Some(rest.take(j)),
                None => None,
            }
        },
        None => None,
    }
}

/// Gradle (`build.gradle`, `build.gradle.kts`): the artifact of the first
/// quoted `group:artifact[:version]` coordinate of each line.
pub open spec fn gradle_hits(ls: Seq<Seq<char>>) -> Seq<Hit>
    decreases ls.len(),
{
    if ls.len() == 0 {
        seq![]
    } else {
        let prev = ls.drop_last();
        gradle_hits(prev) + match first_quoted(ls.last()) {
            Some(q) => if split_on(q, ':').len() >= 2 {
                hit_of(split_on(q, ':')[1], ls.len() as u32)
            } else {
                seq![]
            },
            None => seq![],
        }
    }
}

/// The hits of a manifest, by its file name.
pub open spec fn manifest_hits(name: Option<Seq<char>>, text: Seq<char>) -> Seq<Hit> {
    let ls = lines(text);
    match name {
        Some(n) => if n == "Cargo.toml"@ {
            cargo_hits(ls)
        } else if n == "package.json"@ {
            package_json_hits(ls)
        } else if n == "requirements.txt"@ || n == "Pipfile"@ {
            requirements_hits(ls)
        } else if n == "go.mod"@ {
            go_mod_hits(ls)
        } else if n == "pom.xml"@ {
            pom_hits(ls)
        } else if n == "build.gradle"@ || n == "build.gradle.kts"@ {
            gradle_hits(ls)
        } else {
            seq![]
        },
        None => seq![],
    }
}

/// The asset of a dependency hit at `source`.
pub open spec fn library_asset(h: Hit, source: Seq<char>) -> AssetView {
    asset_view(
        AssetType::Library,
        h.0,
        None,
        Some(h.2),
        classify(h.2),
        seq![LocationView { source, line: Some(h.1), column: None }],
        Evidence::ManifestDependency,
    )
}

pub open spec fn manifest_assets(name: Option<Seq<char>>, text: Seq<char>, source: Seq<char>) -> Seq<
    AssetView,
> {
    manifest_hits(name, text).map_values(|h: Hit| library_asset(h, source))
}

// ── Line parsing ──────────────────────────────────────────────────────────────

fn is_lit(u: &[char], lit: &str) -> (b: bool)
    ensures
        b == (u@ == lit@),
{
    chars_eq(u, &chars_of(lit))
}

fn starts_lit(u: &[char], lit: &str) -> (b: bool)
    ensures
        b == has_prefix(u@, lit@),
{
    starts_with(u, &chars_of(lit))
}

fn slice_of(s: &[char], a: usize, b: usize) -> (r: Vec<char>)
    requires
        a <= b <= s.len(),
    ensures
        r@ == s@.subrange(a as int, b as int),
{
    let mut r: Vec<char> = Vec::new();
    let mut i: usize = a;
    while i < b
        invariant
            a <= i <= b <= s.len(),
            r@ == s@.subrange(a as int, i as int),
        decreases b - i,
    {
        r.push(s[i]);
        i = i + 1;
        assert(r@ =~= s@.subrange(a as int, i as int));
    }
    r
}

proof fn lemma_first_index_bound(s: Seq<char>, c: char)
    ensures
        first_index(s, c) matches Some(i) ==> 0 <= i < s.len(),
    decreases s.len(),
{
    if s.len() > 0 {
        lemma_first_index_bound(s.drop_first(), c);
    }
}

fn before_char_exec(s: &[char], c: char) -> (r: Vec<char>)
    ensures
        r@ == before_char(s@, c),
{
    match find_char(s, c) {
        Some(i) => {
            proof {
                lemma_first_index_bound(s@, c);
            }
            let r = slice_of(s, 0, i);
            assert(r@ =~= s@.take(i as int));
            r
        },
        None => slice_of(s, 0, s.len()),
    }
}

proof fn lemma_lead_quotes_bound(s: Seq<char>)
    ensures
        lead_quotes(s) <= s.len(),
    decreases s.len(),
{
    if s.len() > 0 && s[0] == '"' {
        lemma_lead_quotes_bound(s.drop_first());
    }
}

proof fn lemma_trail_quotes_bound(s: Seq<char>)
    ensures
        trail_quotes(s) <= s.len(),
    decreases s.len(),
{
    if s.len() > 0 && s.last() == '"' {
        lemma_trail_quotes_bound(s.drop_last());
    }
}

fn strip_quotes_exec(s: &[char]) -> (r: Vec<char>)
    ensures
        r@ == strip_quotes(s@),
{
    let mut a: usize = 0;
    assert(s@.skip(0) =~= s@);
    while a < s.len() && s[a] == '"'
        invariant
            a <= s.len(),
            lead_quotes(s@) == a + lead_quotes(s@.skip(a as int)),
        decreases s.len() - a,
    {
        assert(s@.skip(a as int).drop_first() =~= s@.skip(a + 1));
        a = a + 1;
    }
    proof {
        assert(s@.skip(0) =~= s@);
    }
    let t = slice_of(s, a, s.len());
    assert(t@ =~= s@.skip(lead_quotes(s@) as int));
    let mut b: usize = t.len();
    assert(t@.take(t.len() as int) =~= t@);
    while b > 0 && t[b - 1] == '"'
        invariant
            b <= t.len(),
            trail_quotes(t@) == (t.len() - b) + trail_quotes(t@.take(b as int)),
        decreases b,
    {
        assert(t@.take(b as int).drop_last() =~= t@.take(b - 1));
        b = b - 1;
    }
    proof {
        assert(t@.take(t.len() as int) =~= t@);
        lemma_trail_quotes_bound(t@);
    }
    let r = slice_of(&t, 0, b);
    assert(r@ =~= t@.take(t@.len() - trail_quotes(t@)));
    r
}

fn until_stop_exec(s: &[char]) -> (r: Vec<char>)
    ensures
        r@ == until_stop(s@),
{
    let mut i: usize = 0;
    assert(s@.skip(0) =~= s@);
    assert(s@.take(0) =~= Seq::<char>::empty());
    while i < s.len() && !(s[i] == '=' || s[i] == '<' || s[i] == '>' || s[i] == '!' || s[i] == '~'
        || s[i] == '[' || s[i] == ';' || s[i] == ' ' || s[i] == '\t')
        invariant
            i <= s.len(),
            until_stop(s@) == s@.take(i as int) + until_stop(s@.skip(i as int)),
        decreases s.len() - i,
    {
        assert(s@.skip(i as int).drop_first() =~= s@.skip(i + 1));
        assert(s@.take(i + 1) =~= s@.take(i as int) + seq![s@[i as int]]);
        i = i + 1;
    }
    proof {
        assert(s@.skip(0) =~= s@);
    }
    let r = slice_of(s, 0, i);
    assert(r@ =~= s@.take(i as int));
    assert(until_stop(s@.skip(i as int)) =~= Seq::<char>::empty());
    assert(until_stop(s@) =~= s@.take(i as int));
    r
}

fn first_word_exec(s: &[char]) -> (r: Vec<char>)
    ensures
        r@ == first_word(s@),
{
    let w = split_words(s);
    if w.len() > 0 {
        assert(w.deep_view()[0] =~= w@[0]@);
        slice_of(&w[0], 0, w[0].len())
    } else {
        Vec::new()
    }
}

fn skip_chars(s: &[char], n: usize) -> (r: Vec<char>)
    requires
        n <= s.len(),
    ensures
        r@ == s@.skip(n as int),
{
    let r = slice_of(s, n, s.len());
    assert(r@ =~= s@.skip(n as int));
    r
}

// ── Manifests ─────────────────────────────────────────────────────────────────

/// The algorithm of a known library (by name in any case).
pub fn lookup_library(name: &[char]) -> (r: Option<&'static str>)
    ensures
        opt_str_view(r) == library_algorithm(name@),
{
    let l = to_lower(name);
    lookup(&library_table(), &l, KeyMatch::Exact)
}

/// Appends the asset of `name` on line `ln` when the library is known.
fn push_hit(assets: &mut Vec<CryptoAsset>, name: &[char], ln: u32, source: &str)
    ensures
        final(assets).deep_view() == old(assets).deep_view() + hit_of(name@, ln).map_values(
            |h: Hit| library_asset(h, source@),
        ),
{
    match lookup_library(name) {
        Some(algo) => {
            let class = classify_by_name(algo);
            let loc = Location { source: source.to_owned(), line: Some(ln), column: None };
            let a = CryptoAsset::single(
                AssetType::Library,
                string_of(name),
                None,
                Some(algo.to_owned()),
                class,
                loc,
                Evidence::ManifestDependency,
            );
            let ghost before = assets.deep_view();
            assets.push(a);
            assert(hit_of(name@, ln) =~= seq![(name@, ln, algo@)]);
            assert(assets.deep_view() =~= before + hit_of(name@, ln).map_values(
                |h: Hit| library_asset(h, source@),
            ));
        },
        None => {
            assert(hit_of(name@, ln).map_values(|h: Hit| library_asset(h, source@)) =~= Seq::<
                AssetView,
            >::empty());
            assert(assets.deep_view() =~= assets.deep_view() + Seq::<AssetView>::empty());
        },
    }
}

pub open spec fn hits_assets(h: Seq<Hit>, source: Seq<char>) -> Seq<AssetView> {
    h.map_values(|x: Hit| library_asset(x, source))
}

proof fn lemma_hits_assets_add(a: Seq<Hit>, b: Seq<Hit>, source: Seq<char>)
    ensures
        hits_assets(a + b, source) == hits_assets(a, source) + hits_assets(b, source),
{
    assert(hits_assets(a + b, source) =~= hits_assets(a, source) + hits_assets(b, source));
}

/// `Cargo.toml` dependencies.
pub fn parse_cargo_toml(ls: &Vec<Vec<char>>, source: &str) -> (r: Vec<CryptoAsset>)
    ensures
        r.deep_view() == hits_assets(cargo_hits(ls.deep_view()), source@),
{
    let ghost lv = ls.deep_view();
    let mut out: Vec<CryptoAsset> = Vec::new();
    let mut in_deps = false;
    let mut i: usize = 0;
    while i < ls.len()
        invariant
            i <= ls.len(),
            lv == ls.deep_view(),
            in_deps == cargo_in_deps(lv.take(i as int)),
            out.deep_view() == hits_assets(cargo_hits(lv.take(i as int)), source@),
        decreases ls.len() - i,
    {
        let ghost prev = lv.take(i as int);
        assert(lv.take(i + 1).drop_last() =~= prev);
        assert(lv.take(i + 1).last() == lv[i as int]);
        assert(lv[i as int] =~= ls@[i as int]@);
        assert(lv.take(i + 1).len() == i + 1);
        let t = trimmed(&ls[i]);
        let ln: u32 = (i + 1) as u32;
        proof {
            lemma_hits_assets_add(cargo_hits(prev), seq![], source@);
        }
        if starts_lit(&t, "[") {
            in_deps = is_lit(&t, "[dependencies]") || is_lit(&t, "[dev-dependencies]") || is_lit(
                &t,
                "[build-dependencies]",
            ) || is_lit(&t, "[workspace.dependencies]");
            assert(hits_assets(Seq::<Hit>::empty(), source@) =~= Seq::<AssetView>::empty());
        } else if !in_deps || t.len() == 0 || starts_lit(&t, "#") {
            assert(hits_assets(Seq::<Hit>::empty(), source@) =~= Seq::<AssetView>::empty());
        } else {
            let key = trimmed(&before_char_exec(&t, '='));
            let name = strip_quotes_exec(&key);
            proof {
                lemma_hits_assets_add(cargo_hits(prev), hit_of(name@, ln), source@);
            }
            push_hit(&mut out, &name, ln, source);
        }
        i = i + 1;
    }
    assert(lv.take(ls.len() as int) =~= lv);
    out
}

/// `package.json` dependencies.
pub fn parse_package_json(ls: &Vec<Vec<char>>, source: &str) -> (r: Vec<CryptoAsset>)
    ensures
        r.deep_view() == hits_assets(package_json_hits(ls.deep_view()), source@),
{
    let ghost lv = ls.deep_view();
    let mut out: Vec<CryptoAsset> = Vec::new();
    let mut i: usize = 0;
    while i < ls.len()
        invariant
            i <= ls.len(),
            lv == ls.deep_view(),
            out.deep_view() == hits_assets(package_json_hits(lv.take(i as int)), source@),
        decreases ls.len() - i,
    {
        let ghost prev = lv.take(i as int);
        assert(lv.take(i + 1).drop_last() =~= prev);
        assert(lv.take(i + 1).last() == lv[i as int]);
        assert(lv[i as int] =~= ls@[i as int]@);
        assert(lv.take(i + 1).len() == i + 1);
        let t = trimmed(&ls[i]);
        let ln: u32 = (i + 1) as u32;
        proof {
            lemma_hits_assets_add(package_json_hits(prev), seq![], source@);
            assert(hits_assets(Seq::<Hit>::empty(), source@) =~= Seq::<AssetView>::empty());
        }
        if starts_lit(&t, "\"") {
            proof {
                reveal_strlit("\"");
            }
            let rest = skip_chars(&t, 1);
            assert(rest@ =~= t@.drop_first());
            match find_char(&rest, '"') {
                Some(c) => {
                    proof {
                        lemma_first_index_bound(rest@, '"');
                    }
                    let name = slice_of(&rest, 0, c);
                    assert(name@ =~= rest@.take(c as int));
                    proof {
                        lemma_hits_assets_add(package_json_hits(prev), hit_of(name@, ln), source@);
                    }
                    push_hit(&mut out, &name, ln, source);
                },
                None => {},
            }
        }
        i = i + 1;
    }
    assert(lv.take(ls.len() as int) =~= lv);
    out
}

/// `requirements.txt` / `Pipfile` dependencies.
pub fn parse_requirements(ls: &Vec<Vec<char>>, source: &str) -> (r: Vec<CryptoAsset>)
    ensures
        r.deep_view() == hits_assets(requirements_hits(ls.deep_view()), source@),
{
    let ghost lv = ls.deep_view();
    let mut out: Vec<CryptoAsset> = Vec::new();
    let mut i: usize = 0;
    while i < ls.len()
        invariant
            i <= ls.len(),
            lv == ls.deep_view(),
            out.deep_view() == hits_assets(requirements_hits(lv.take(i as int)), source@),
        decreases ls.len() - i,
    {
        let ghost prev = lv.take(i as int);
        assert(lv.take(i + 1).drop_last() =~= prev);
        assert(lv.take(i + 1).last() == lv[i as int]);
        assert(lv[i as int] =~= ls@[i as int]@);
        assert(lv.take(i + 1).len() == i + 1);
        let t = trimmed(&ls[i]);
        let ln: u32 = (i + 1) as u32;
        let name = trimmed(&until_stop_exec(&t));
        proof {
            lemma_hits_assets_add(requirements_hits(prev), seq![], source@);
            assert(hits_assets(Seq::<Hit>::empty(), source@) =~= Seq::<AssetView>::empty());
        }
        if !(t.len() == 0 || starts_lit(&t, "#") || starts_lit(&t, "-") || name.len() == 0) {
            proof {
                lemma_hits_assets_add(requirements_hits(prev), hit_of(name@, ln), source@);
            }
            push_hit(&mut out, &name, ln, source);
        }
        i = i + 1;
    }
    assert(lv.take(ls.len() as int) =~= lv);
    out
}

/// `go.mod` dependencies.
pub fn parse_go_mod(ls: &Vec<Vec<char>>, source: &str) -> (r: Vec<CryptoAsset>)
    ensures
        r.deep_view() == hits_assets(go_mod_hits(ls.deep_view()), source@),
{
    let ghost lv = ls.deep_view();
    let mut out: Vec<CryptoAsset> = Vec::new();
    let mut in_require = false;
    let mut i: usize = 0;
    while i < ls.len()
        invariant
            i <= ls.len(),
            lv == ls.deep_view(),
            in_require == go_in_require(lv.take(i as int)),
            out.deep_view() == hits_assets(go_mod_hits(lv.take(i as int)), source@),
        decreases ls.len() - i,
    {
        let ghost prev = lv.take(i as int);
        assert(lv.take(i + 1).drop_last() =~= prev);
        assert(lv.take(i + 1).last() == lv[i as int]);
        assert(lv[i as int] =~= ls@[i as int]@);
        assert(lv.take(i + 1).len() == i + 1);
        let t = trimmed(&ls[i]);
        let ln: u32 = (i + 1) as u32;
        proof {
            lemma_hits_assets_add(go_mod_hits(prev), seq![], source@);
            assert(hits_assets(Seq::<Hit>::empty(), source@) =~= Seq::<AssetView>::empty());
        }
        if is_lit(&t, "require (") {
            in_require = true;
        } else if is_lit(&t, ")") && in_require {
            in_require = false;
        } else if starts_lit(&t, "require ") {
            proof {
                reveal_strlit("require ");
            }
            let module = first_word_exec(&skip_chars(&t, 8));
            proof {
                lemma_hits_assets_add(go_mod_hits(prev), hit_of(module@, ln), source@);
            }
            push_hit(&mut out, &module, ln, source);
        } else if in_require && t.len() > 0 && !starts_lit(&t, "//") {
            let module = first_word_exec(&t);
            proof {
                lemma_hits_assets_add(go_mod_hits(prev), hit_of(module@, ln), source@);
            }
            push_hit(&mut out, &module, ln, source);
        }
        i = i + 1;
    }
    assert(lv.take(ls.len() as int) =~= lv);
    out
}

fn find_from_exec(s: &[char], p: &[char], start: usize) -> (r: Option<usize>)
    requires
        start <= s.len(),
    ensures
        match r {
            Some(k) => find_from(s@, p@, start as int) == Some(k as int) && k + p.len() <= s.len(),
            None => find_from(s@, p@, start as int) is None,
        },
{
    let mut i: usize = start;
    while p.len() <= s.len() - i
        invariant
            start <= i <= s.len(),
            find_from(s@, p@, i as int) == find_from(s@, p@, start as int),
        decreases s.len() - i,
    {
        if p.len() == 0 {
            assert(s@.subrange(i as int, i as int) =~= p@);
        }
        if crate::text::chars_at(s, p, i) {
            assert(s@.subrange(i as int, i + p.len()) =~= p@);
            return Some(i);
        }
        assert(s@.subrange(i as int, i + p.len()) != p@) by {
            if s@.subrange(i as int, i + p.len()) == p@ {
                assert forall|k: int| 0 <= k < p@.len() implies s@[i + k] == p@[k] by {
                    assert(s@.subrange(i as int, i + p.len())[k] == s@[i + k]);
                }
            }
        }
        i = i + 1;
    }
    None
}

fn tag_value_exec(t: &[char], open: &str, close: &str) -> (r: Option<Vec<char>>)
    ensures
        match r {
            Some(v) => tag_value(t@, open@, close@) == Some(v@),
            None => tag_value(t@, open@, close@) is None,
        },
{
    let o = chars_of(open);
    let c = chars_of(close);
    match find_from_exec(t, &o, 0) {
        Some(i) => {
            let rest = skip_chars(t, i + o.len());
            match find_from_exec(&rest, &c, 0) {
                Some(j) => {
                    let v = slice_of(&rest, 0, j);
                    assert(v@ =~= rest@.take(j as int));
                    Some(v)
                },
                None => None,
            }
        },
        None => None,
    }
}

/// Maven `pom.xml` dependencies.
pub fn parse_pom(ls: &Vec<Vec<char>>, source: &str) -> (r: Vec<CryptoAsset>)
    ensures
        r.deep_view() == hits_assets(pom_hits(ls.deep_view()), source@),
{
    let ghost lv = ls.deep_view();
    let open = chars_of("<dependency>");
    let close = chars_of("</dependency>");
    let mut out: Vec<CryptoAsset> = Vec::new();
    let mut inside = false;
    let mut i: usize = 0;
    while i < ls.len()
        invariant
            i <= ls.len(),
            lv == ls.deep_view(),
            open@ == "<dependency>"@,
            close@ == "</dependency>"@,
            inside == pom_in_dependency(lv.take(i as int)),
            out.deep_view() == hits_assets(pom_hits(lv.take(i as int)), source@),
        decreases ls.len() - i,
    {
        let ghost prev = lv.take(i as int);
        assert(lv.take(i + 1).drop_last() =~= prev);
        assert(lv.take(i + 1).last() == lv[i as int]);
        assert(lv[i as int] =~= ls@[i as int]@);
        let t = &ls[i];
        let ln: u32 = (i + 1) as u32;
        let opens = find_from_exec(t, &open, 0).is_some();
        let closes = find_from_exec(t, &close, 0).is_some();
        if opens || inside {
            match tag_value_exec(t, "<artifactId>", "</artifactId>") {
                Some(a) => {
                    let name = trimmed(&a);
                    proof {
                        lemma_hits_assets_add(pom_hits(prev), hit_of(name@, ln), source@);
                    }
                    push_hit(&mut out, &name, ln, source);
                },
                None => {
                    proof {
                        lemma_hits_assets_add(pom_hits(prev), seq![], source@);
                        assert(hits_assets(Seq::<Hit>::empty(), source@) =~= Seq::<AssetView>::empty());
                    }
                },
            }
        } else {
            proof {
                lemma_hits_assets_add(pom_hits(prev), seq![], source@);
                assert(hits_assets(Seq::<Hit>::empty(), source@) =~= Seq::<AssetView>::empty());
            }
        }
        if closes {
            inside = false;
        } else if opens {
            inside = true;
        }
        i = i + 1;
    }
    assert(lv.take(ls.len() as int) =~= lv);
    out
}

fn first_quote_exec(s: &[char]) -> (r: Option<usize>)
    ensures
        match r {
            Some(k) => first_quote(s@, 0) == Some(k as int) && k < s.len(),
            None => first_quote(s@, 0) is None,
        },
{
    let mut i: usize = 0;
    while i < s.len()
        invariant
            i <= s.len(),
            first_quote(s@, i as int) == first_quote(s@, 0),
        decreases s.len() - i,
    {
        if s[i] == '"' || s[i] == '\'' {
            return Some(i);
        }
        i = i + 1;
    }
    None
}

fn first_quoted_exec(t: &[char]) -> (r: Option<Vec<char>>)
    ensures
        match r {
            Some(v) => first_quoted(t@) == Some(v@),
            None => first_quoted(t@) is None,
        },
{
    match first_quote_exec(t) {
        Some(i) => {
            let rest = skip_chars(t, i + 1);
            proof {
                lemma_first_index_bound(rest@, t@[i as int]);
            }
            match find_char(&rest, t[i]) {
                Some(j) => {
                    let v = slice_of(&rest, 0, j);
                    assert(v@ =~= rest@.take(j as int));
                    Some(v)
                },
                None => None,
            }
        },
        None => None,
    }
}

/// Gradle build-file dependencies.
pub fn parse_gradle(ls: &Vec<Vec<char>>, source: &str) -> (r: Vec<CryptoAsset>)
    ensures
        r.deep_view() == hits_assets(gradle_hits(ls.deep_view()), source@),
{
    let ghost lv = ls.deep_view();
    let mut out: Vec<CryptoAsset> = Vec::new();
    let mut i: usize = 0;
    while i < ls.len()
        invariant
            i <= ls.len(),
            lv == ls.deep_view(),
            out.deep_view() == hits_assets(gradle_hits(lv.take(i as int)), source@),
        decreases ls.len() - i,
    {
        let ghost prev = lv.take(i as int);
        assert(lv.take(i + 1).drop_last() =~= prev);
        assert(lv.take(i + 1).last() == lv[i as int]);
        assert(lv[i as int] =~= ls@[i as int]@);
        let ln: u32 = (i + 1) as u32;
        let mut pushed = false;
        if let Some(q) = first_quoted_exec(&ls[i]) {
            let parts = crate::text::split_char(&q, ':');
            if parts.len() >= 2 {
                assert(parts@[1]@ == split_on(q@, ':')[1]);
                proof {
                    lemma_hits_assets_add(gradle_hits(prev), hit_of(parts@[1]@, ln), source@);
                }
                push_hit(&mut out, &parts[1], ln, source);
                pushed = true;
            }
        }
        if !pushed {
            proof {
                lemma_hits_assets_add(gradle_hits(prev), seq![], source@);
                assert(hits_assets(Seq::<Hit>::empty(), source@) =~= Seq::<AssetView>::empty());
            }
        }
        i = i + 1;
    }
    assert(lv.take(ls.len() as int) =~= lv);
    out
}

/// The library assets of a manifest's text, by the manifest's file name.
pub fn scan_manifest_text(name: &Option<String>, text: &str, source: &str) -> (r: Vec<CryptoAsset>)
    ensures
        r.deep_view() == manifest_assets(
            match name {
                Some(n) => Some(n@),
                None => None,
            },
            text@,
            source@,
        ),
{
    let ls = split_lines(&chars_of(text));
    match name {
        Some(n) => {
            let c = chars_of(n.as_str());
            if is_lit(&c, "Cargo.toml") {
                parse_cargo_toml(&ls, source)
            } else if is_lit(&c, "package.json") {
                parse_package_json(&ls, source)
            } else if is_lit(&c, "requirements.txt") || is_lit(&c, "Pipfile") {
                parse_requirements(&ls, source)
            } else if is_lit(&c, "go.mod") {
                parse_go_mod(&ls, source)
            } else if is_lit(&c, "pom.xml") {
                parse_pom(&ls, source)
            } else if is_lit(&c, "build.gradle") || is_lit(&c, "build.gradle.kts") {
                parse_gradle(&ls, source)
            } else {
                Vec::new()
            }
        },
        None => Vec::new(),
    }
}

/// What scanning a package manifest gives (see [`scan_manifest`]).
pub open spec fn manifest_result(path: Seq<char>, size: u64, bytes: Seq<u8>) -> Result<
    Seq<AssetView>,
    DetectError,
> {
    if size > MAX_MANIFEST_BYTES {
        Ok(seq![])
    } else if !valid_utf8(bytes) {
        Err(DetectError::InvalidUtf8)
    } else {
        Ok(manifest_assets(file_name_of(path), decode_utf8(bytes), path))
    }
}

/// Scans a package manifest (path, size in bytes, contents) for crypto library
/// dependencies. Files over 2 MiB are passed over; others must be UTF-8 text.
pub fn scan_manifest(path: &str, size: u64, bytes: &[u8]) -> (r: Result<Vec<CryptoAsset>, DetectError>)
    ensures
        result_view(r) == manifest_result(path@, size, bytes@),
{
    if size > MAX_MANIFEST_BYTES {
        let v: Vec<CryptoAsset> = Vec::new();
        assert(v.deep_view() =~= Seq::<AssetView>::empty());
        return Ok(v);
    }
    match utf8_text(bytes) {
        None => Err(DetectError::InvalidUtf8),
        Some(text) => {
            let name = file_name(path);
            Ok(scan_manifest_text(&name, text.as_str(), path))
        },
    }
}

// ── The documented library mapping ────────────────────────────────────────────

proof fn lemma_assoc_from(t: Seq<(Seq<char>, Seq<char>)>, k: Seq<char>, i: int)
    requires
        0 <= i < t.len(),
        t[i].0 == k,
        forall|j: int| 0 <= j < i ==> #[trigger] t[j].0 != k,
    ensures
        assoc(t, k) == Some(t[i].1),
    decreases i,
{
    if i > 0 {
        lemma_assoc_from(t.drop_first(), k, i - 1);
    }
}

/// Each known crypto library, named in any case, maps to its primary algorithm
/// (for example `md5` to MD5, `sha2` to SHA-256, `ml-kem` to ML-KEM-768).
pub proof fn lemma_library_algorithms(n: Seq<char>)
    ensures
        unicode_lower(n) == "openssl"@ ==> library_algorithm(n) == Some("RSA"@),
        unicode_lower(n) == "native-tls"@ ==> library_algorithm(n) == Some("RSA"@),
        unicode_lower(n) == "ring"@ ==> library_algorithm(n) == Some("ECDSA"@),
        unicode_lower(n) == "boring"@ ==> library_algorithm(n) == Some("ECDSA"@),
        unicode_lower(n) == "rustls"@ ==> library_algorithm(n) == Some("ECDSA"@),
        unicode_lower(n) == "rsa"@ ==> library_algorithm(n) == Some("RSA-2048"@),
        unicode_lower(n) == "dsa"@ ==> library_algorithm(n) == Some("DSA-2048"@),
        unicode_lower(n) == "ecdsa"@ ==> library_algorithm(n) == Some("ECDSA"@),
        unicode_lower(n) == "ed25519-dalek"@ ==> library_algorithm(n) == Some("Ed25519"@),
        unicode_lower(n) == "x25519-dalek"@ ==> library_algorithm(n) == Some("X25519"@),
        unicode_lower(n) == "p256"@ ==> library_algorithm(n) == Some("ECDSA-P-256"@),
        unicode_lower(n) == "p384"@ ==> library_algorithm(n) == Some("ECDSA-P-384"@),
        unicode_lower(n) == "k256"@ ==> library_algorithm(n) == Some("ECDSA"@),
        unicode_lower(n) == "sha1"@ ==> library_algorithm(n) == Some("SHA-1"@),
        unicode_lower(n) == "md5"@ ==> library_algorithm(n) == Some("MD5"@),
        unicode_lower(n) == "des"@ ==> library_algorithm(n) == Some("DES"@),
        unicode_lower(n) == "rc4"@ ==> library_algorithm(n) == Some("RC4"@),
        unicode_lower(n) == "aes"@ ==> library_algorithm(n) == Some("AES-256"@),
        unicode_lower(n) == "sha2"@ ==> library_algorithm(n) == Some("SHA-256"@),
        unicode_lower(n) == "sha3"@ ==> library_algorithm(n) == Some("SHA3-256"@),
        unicode_lower(n) == "hmac"@ ==> library_algorithm(n) == Some("SHA-256"@),
        unicode_lower(n) == "pqcrypto-kyber"@ ==> library_algorithm(n) == Some("ML-KEM-768"@),
        unicode_lower(n) == "pqcrypto-dilithium"@ ==> library_algorithm(n) == Some("ML-DSA-65"@),
        unicode_lower(n) == "ml-kem"@ ==> library_algorithm(n) == Some("ML-KEM-768"@),
        unicode_lower(n) == "ml-dsa"@ ==> library_algorithm(n) == Some("ML-DSA-65"@),
        unicode_lower(n) == "node-forge"@ ==> library_algorithm(n) == Some("RSA"@),
        unicode_lower(n) == "jsonwebtoken"@ ==> library_algorithm(n) == Some("RSA-2048"@),
        unicode_lower(n) == "jose"@ ==> library_algorithm(n) == Some("ECDSA-P-256"@),
        unicode_lower(n) == "node-rsa"@ ==> library_algorithm(n) == Some("RSA-2048"@),
        unicode_lower(n) == "elliptic"@ ==> library_algorithm(n) == Some("ECDSA"@),
        unicode_lower(n) == "crypto-js"@ ==> library_algorithm(n) == Some("AES-256"@),
        unicode_lower(n) == "jsrsasign"@ ==> library_algorithm(n) == Some("RSA"@),
        unicode_lower(n) == "bcrypt"@ ==> library_algorithm(n) == Some("SHA-256"@),
        unicode_lower(n) == "bcryptjs"@ ==> library_algorithm(n) == Some("SHA-256"@),
        unicode_lower(n) == "cryptography"@ ==> library_algorithm(n) == Some("RSA"@),
        unicode_lower(n) == "paramiko"@ ==> library_algorithm(n) == Some("RSA"@),
        unicode_lower(n) == "pycryptodome"@ ==> library_algorithm(n) == Some("RSA"@),
        unicode_lower(n) == "pycryptodomex"@ ==> library_algorithm(n) == Some("RSA"@),
        unicode_lower(n) == "pyopenssl"@ ==> library_algorithm(n) == Some("RSA"@),
        unicode_lower(n) == "pyjwt"@ ==> library_algorithm(n) == Some("RSA-2048"@),
        unicode_lower(n) == "python-jose"@ ==> library_algorithm(n) == Some("ECDSA-P-256"@),
        unicode_lower(n) == "golang.org/x/crypto"@ ==> library_algorithm(n) == Some("Ed25519"@),
        unicode_lower(n) == "github.com/cloudflare/circl"@ ==> library_algorithm(n) == Some("ML-KEM-768"@),
        unicode_lower(n) == "gopkg.in/square/go-jose.v2"@ ==> library_algorithm(n) == Some("ECDSA-P-256"@),
        unicode_lower(n) == "gopkg.in/go-jose/go-jose.v3"@ ==> library_algorithm(n) == Some("ECDSA-P-256"@),
        unicode_lower(n) == "github.com/golang-jwt/jwt"@ ==> library_algorithm(n) == Some("RSA-2048"@),
        unicode_lower(n) == "github.com/dgrijalva/jwt-go"@ ==> library_algorithm(n) == Some("RSA-2048"@),
        unicode_lower(n) == "github.com/lestrrat-go/jwx"@ ==> library_algorithm(n) == Some("ECDSA-P-256"@),
        unicode_lower(n) == "github.com/lestrrat-go/jwx/v2"@ ==> library_algorithm(n) == Some("ECDSA-P-256"@),
        unicode_lower(n) == "bcprov-jdk18on"@ ==> library_algorithm(n) == Some("RSA-2048"@),
        unicode_lower(n) == "bcpkix-jdk18on"@ ==> library_algorithm(n) == Some("RSA-2048"@),
        unicode_lower(n) == "java-jwt"@ ==> library_algorithm(n) == Some("RSA-2048"@),
        unicode_lower(n) == "jjwt-api"@ ==> library_algorithm(n) == Some("RSA-2048"@),
        unicode_lower(n) == "jjwt-impl"@ ==> library_algorithm(n) == Some("RSA-2048"@),
        unicode_lower(n) == "nimbus-jose-jwt"@ ==> library_algorithm(n) == Some("ECDSA-P-256"@),
        unicode_lower(n) == "spring-security-crypto"@ ==> library_algorithm(n) == Some("RSA-2048"@),
        unicode_lower(n) == "tink"@ ==> library_algorithm(n) == Some("AES-256"@),
        unicode_lower(n) == "conscrypt-openjdk-uber"@ ==> library_algorithm(n) == Some("ECDSA-P-256"@),
        unicode_lower(n) == "google-cloud-kms"@ ==> library_algorithm(n) == Some("RSA-2048"@),
{
    lemma_library_entry_openssl();
    lemma_library_entry_native_tls();
    lemma_library_entry_ring();
    lemma_library_entry_boring();
    lemma_library_entry_rustls();
    lemma_library_entry_rsa();
    lemma_library_entry_dsa();
    lemma_library_entry_ecdsa();
    lemma_library_entry_ed25519_dalek();
    lemma_library_entry_x25519_dalek();
    lemma_library_entry_p256();
    lemma_library_entry_p384();
    lemma_library_entry_k256();
    lemma_library_entry_sha1();
    lemma_library_entry_md5();
    lemma_library_entry_des();
    lemma_library_entry_rc4();
    lemma_library_entry_aes();
    lemma_library_entry_sha2();
    lemma_library_entry_sha3();
    lemma_library_entry_hmac();
    lemma_library_entry_pqcrypto_kyber();
    lemma_library_entry_pqcrypto_dilithium();
    lemma_library_entry_ml_kem();
    lemma_library_entry_ml_dsa();
    lemma_library_entry_node_forge();
    lemma_library_entry_jsonwebtoken();
    lemma_library_entry_jose();
    lemma_library_entry_node_rsa();
    lemma_library_entry_elliptic();
    lemma_library_entry_crypto_js();
    lemma_library_entry_jsrsasign();
    lemma_library_entry_bcrypt();
    lemma_library_entry_bcryptjs();
    lemma_library_entry_cryptography();
    lemma_library_entry_paramiko();
    lemma_library_entry_pycryptodome();
    lemma_library_entry_pycryptodomex();
    lemma_library_entry_pyopenssl();
    lemma_library_entry_pyjwt();
    lemma_library_entry_python_jose();
    lemma_library_entry_golang_org_x_crypto();
    lemma_library_entry_github_com_cloudflare_circl();
    lemma_library_entry_gopkg_in_square_go_jose_v2();
    lemma_library_entry_gopkg_in_go_jose_go_jose_v3();
    lemma_library_entry_github_com_golang_jwt_jwt();
    lemma_library_entry_github_com_dgrijalva_jwt_go();
    lemma_library_entry_github_com_lestrrat_go_jwx();
    lemma_library_entry_github_com_lestrrat_go_jwx_v2();
    lemma_library_entry_bcprov_jdk18on();
    lemma_library_entry_bcpkix_jdk18on();
    lemma_library_entry_java_jwt();
    lemma_library_entry_jjwt_api();
    lemma_library_entry_jjwt_impl();
    lemma_library_entry_nimbus_jose_jwt();
    lemma_library_entry_spring_security_crypto();
    lemma_library_entry_tink();
    lemma_library_entry_conscrypt_openjdk_uber();
    lemma_library_entry_google_cloud_kms();
}

/// A dependency on the `md5` crate (in any case) on line `ln` is reported as a
/// library asset of that name implementing MD5: quantum-vulnerable, at MEDIUM
/// risk, with no NIST quantum security.
pub proof fn lemma_md5_dependency(n: Seq<char>, ln: u32, source: Seq<char>)
    requires
        unicode_lower(n) == "md5"@,
    ensures
        hit_of(n, ln) == seq![(n, ln, "MD5"@)],
        library_asset((n, ln, "MD5"@), source).asset_type == AssetType::Library,
        library_asset((n, ln, "MD5"@), source).name == n,
        library_asset((n, ln, "MD5"@), source).parameter_set == Some("MD5"@),
        library_asset((n, ln, "MD5"@), source).quantum_safe == QuantumSafety::Vulnerable,
        library_asset((n, ln, "MD5"@), source).hndl_risk == Risk::Medium,
        library_asset((n, ln, "MD5"@), source).nist_quantum_security == 0,
{
    lemma_library_algorithms(n);
    crate::catalog::lemma_classically_weak_medium();
}

proof fn lemma_library_entry_openssl()
    ensures
        assoc(library_catalog(), "openssl"@) == Some("RSA"@),
{
    reveal_strlit("openssl");
    let t = library_catalog();
    assert(t[0] == ("openssl"@, "RSA"@));
    assert forall|j: int| 0 <= j < 0 implies #[trigger] t[j].0 != "openssl"@ by {
        assert(t[j].0.len() != "openssl"@.len() || t[j].0 != "openssl"@);
    }
    lemma_assoc_from(t, "openssl"@, 0);
}

proof fn lemma_library_entry_native_tls()
    ensures
        assoc(library_catalog(), "native-tls"@) == Some("RSA"@),
{
    reveal_strlit("native-tls");
    let t = library_catalog();
    assert(t[1] == ("native-tls"@, "RSA"@));
    reveal_strlit("openssl");
    assert forall|j: int| 0 <= j < 1 implies #[trigger] t[j].0 != "native-tls"@ by {
        assert(t[j].0.len() != "native-tls"@.len() || t[j].0 != "native-tls"@);
    }
    lemma_assoc_from(t, "native-tls"@, 1);
}

proof fn lemma_library_entry_ring()
    ensures
        assoc(library_catalog(), "ring"@) == Some("ECDSA"@),
{
    reveal_strlit("ring");
    let t = library_catalog();
    assert(t[2] == ("ring"@, "ECDSA"@));
    reveal_strlit("openssl");
    reveal_strlit("native-tls");
    assert forall|j: int| 0 <= j < 2 implies #[trigger] t[j].0 != "ring"@ by {
        assert(t[j].0.len() != "ring"@.len() || t[j].0 != "ring"@);
    }
    lemma_assoc_from(t, "ring"@, 2);
}

proof fn lemma_library_entry_boring()
    ensures
        assoc(library_catalog(), "boring"@) == Some("ECDSA"@),
{
    reveal_strlit("boring");
    let t = library_catalog();
    assert(t[3] == ("boring"@, "ECDSA"@));
    reveal_strlit("openssl");
    reveal_strlit("native-tls");
    reveal_strlit("ring");
    assert forall|j: int| 0 <= j < 3 implies #[trigger] t[j].0 != "boring"@ by {
        assert(t[j].0.len() != "boring"@.len() || t[j].0 != "boring"@);
    }
    lemma_assoc_from(t, "boring"@, 3);
}

proof fn lemma_library_entry_rustls()
    ensures
        assoc(library_catalog(), "rustls"@) == Some("ECDSA"@),
{
    reveal_strlit("rustls");
    let t = library_catalog();
    assert(t[4] == ("rustls"@, "ECDSA"@));
    reveal_strlit("openssl");
    reveal_strlit("native-tls");
    reveal_strlit("ring");
    reveal_strlit("boring");
    assert forall|j: int| 0 <= j < 4 implies #[trigger] t[j].0 != "rustls"@ by {
        if j == 3 {
            assert(t[j].0[0] != "rustls"@[0]);
        }
        assert(t[j].0.len() != "rustls"@.len() || t[j].0 != "rustls"@);
    }
    lemma_assoc_from(t, "rustls"@, 4);
}

proof fn lemma_library_entry_rsa()
    ensures
        assoc(library_catalog(), "rsa"@) == Some("RSA-2048"@),
{
    reveal_strlit("rsa");
    let t = library_catalog();
    assert(t[5] == ("rsa"@, "RSA-2048"@));
    reveal_strlit("openssl");
    reveal_strlit("native-tls");
    reveal_strlit("ring");
    reveal_strlit("boring");
    reveal_strlit("rustls");
    assert forall|j: int| 0 <= j < 5 implies #[trigger] t[j].0 != "rsa"@ by {
        assert(t[j].0.len() != "rsa"@.len() || t[j].0 != "rsa"@);
    }
    lemma_assoc_from(t, "rsa"@, 5);
}

proof fn lemma_library_entry_dsa()
    ensures
        assoc(library_catalog(), "dsa"@) == Some("DSA-2048"@),
{
    reveal_strlit("dsa");
    let t = library_catalog();
    assert(t[6] == ("dsa"@, "DSA-2048"@));
    reveal_strlit("openssl");
    reveal_strlit("native-tls");
    reveal_strlit("ring");
    reveal_strlit("boring");
    reveal_strlit("rustls");
    reveal_strlit("rsa");
    assert forall|j: int| 0 <= j < 6 implies #[trigger] t[j].0 != "dsa"@ by {
        if j == 5 {
            assert(t[j].0[0] != "dsa"@[0]);
        }
        assert(t[j].0.len() != "dsa"@.len() || t[j].0 != "dsa"@);
    }
    lemma_assoc_from(t, "dsa"@, 6);
}

proof fn lemma_library_entry_ecdsa()
    ensures
        assoc(library_catalog(), "ecdsa"@) == Some("ECDSA"@),
{
    reveal_strlit("ecdsa");
    let t = library_catalog();
    assert(t[7] == ("ecdsa"@, "ECDSA"@));
    reveal_strlit("openssl");
    reveal_strlit("native-tls");
    reveal_strlit("ring");
    reveal_strlit("boring");
    reveal_strlit("rustls");
    reveal_strlit("rsa");
    reveal_strlit("dsa");
    assert forall|j: int| 0 <= j < 7 implies #[trigger] t[j].0 != "ecdsa"@ by {
        assert(t[j].0.len() != "ecdsa"@.len() || t[j].0 != "ecdsa"@);
    }
    lemma_assoc_from(t, "ecdsa"@, 7);
}

proof fn lemma_library_entry_ed25519_dalek()
    ensures
        assoc(library_catalog(), "ed25519-dalek"@) == Some("Ed25519"@),
{
    reveal_strlit("ed25519-dalek");
    let t = library_catalog();
    assert(t[8] == ("ed25519-dalek"@, "Ed25519"@));
    reveal_strlit("openssl");
    reveal_strlit("native-tls");
    reveal_strlit("ring");
    reveal_strlit("boring");
    reveal_strlit("rustls");
    reveal_strlit("rsa");
    reveal_strlit("dsa");
    reveal_strlit("ecdsa");
    assert forall|j: int| 0 <= j < 8 implies #[trigger] t[j].0 != "ed25519-dalek"@ by {
        assert(t[j].0.len() != "ed25519-dalek"@.len() || t[j].0 != "ed25519-dalek"@);
    }
    lemma_assoc_from(t, "ed25519-dalek"@, 8);
}

proof fn lemma_library_entry_x25519_dalek()
    ensures
        assoc(library_catalog(), "x25519-dalek"@) == Some("X25519"@),
{
    reveal_strlit("x25519-dalek");
    let t = library_catalog();
    assert(t[9] == ("x25519-dalek"@, "X25519"@));
    reveal_strlit("openssl");
    reveal_strlit("native-tls");
    reveal_strlit("ring");
    reveal_strlit("boring");
    reveal_strlit("rustls");
    reveal_strlit("rsa");
    reveal_strlit("dsa");
    reveal_strlit("ecdsa");
    reveal_strlit("ed25519-dalek");
    assert forall|j: int| 0 <= j < 9 implies #[trigger] t[j].0 != "x25519-dalek"@ by {
        assert(t[j].0.len() != "x25519-dalek"@.len() || t[j].0 != "x25519-dalek"@);
    }
    lemma_assoc_from(t, "x25519-dalek"@, 9);
}

proof fn lemma_library_entry_p256()
    ensures
        assoc(library_catalog(), "p256"@) == Some("ECDSA-P-256"@),
{
    reveal_strlit("p256");
    let t = library_catalog();
    assert(t[10] == ("p256"@, "ECDSA-P-256"@));
    reveal_strlit("openssl");
    reveal_strlit("native-tls");
    reveal_strlit("ring");
    reveal_strlit("boring");
    reveal_strlit("rustls");
    reveal_strlit("rsa");
    reveal_strlit("dsa");
    reveal_strlit("ecdsa");
    reveal_strlit("ed25519-dalek");
    reveal_strlit("x25519-dalek");
    assert forall|j: int| 0 <= j < 10 implies #[trigger] t[j].0 != "p256"@ by {
        if j == 2 {
            assert(t[j].0[0] != "p256"@[0]);
        }
        assert(t[j].0.len() != "p256"@.len() || t[j].0 != "p256"@);
    }
    lemma_assoc_from(t, "p256"@, 10);
}

proof fn lemma_library_entry_p384()
    ensures
        assoc(library_catalog(), "p384"@) == Some("ECDSA-P-384"@),
{
    reveal_strlit("p384");
    let t = library_catalog();
    assert(t[11] == ("p384"@, "ECDSA-P-384"@));
    reveal_strlit("openssl");
    reveal_strlit("native-tls");
    reveal_strlit("ring");
    reveal_strlit("boring");
    reveal_strlit("rustls");
    reveal_strlit("rsa");
    reveal_strlit("dsa");
    reveal_strlit("ecdsa");
    reveal_strlit("ed25519-dalek");
    reveal_strlit("x25519-dalek");
    reveal_strlit("p256");
    assert forall|j: int| 0 <= j < 11 implies #[trigger] t[j].0 != "p384"@ by {
        if j == 2 {
            assert(t[j].0[0] != "p384"@[0]);
        }
        if j == 10 {
            assert(t[j].0[1] != "p384"@[1]);
        }
        assert(t[j].0.len() != "p384"@.len() || t[j].0 != "p384"@);
    }
    lemma_assoc_from(t, "p384"@, 11);
}

proof fn lemma_library_entry_k256()
    ensures
        assoc(library_catalog(), "k256"@) == Some("ECDSA"@),
{
    reveal_strlit("k256");
    let t = library_catalog();
    assert(t[12] == ("k256"@, "ECDSA"@));
    reveal_strlit("openssl");
    reveal_strlit("native-tls");
    reveal_strlit("ring");
    reveal_strlit("boring");
    reveal_strlit("rustls");
    reveal_strlit("rsa");
    reveal_strlit("dsa");
    reveal_strlit("ecdsa");
    reveal_strlit("ed25519-dalek");
    reveal_strlit("x25519-dalek");
    reveal_strlit("p256");
    reveal_strlit("p384");
    assert forall|j: int| 0 <= j < 12 implies #[trigger] t[j].0 != "k256"@ by {
        if j == 2 {
            assert(t[j].0[0] != "k256"@[0]);
        }
        if j == 10 {
            assert(t[j].0[0] != "k256"@[0]);
        }
        if j == 11 {
            assert(t[j].0[0] != "k256"@[0]);
        }
        assert(t[j].0.len() != "k256"@.len() || t[j].0 != "k256"@);
    }
    lemma_assoc_from(t, "k256"@, 12);
}

proof fn lemma_library_entry_sha1()
    ensures
        assoc(library_catalog(), "sha1"@) == Some("SHA-1"@),
{
    reveal_strlit("sha1");
    let t = library_catalog();
    assert(t[13] == ("sha1"@, "SHA-1"@));
    reveal_strlit("openssl");
    reveal_strlit("native-tls");
    reveal_strlit("ring");
    reveal_strlit("boring");
    reveal_strlit("rustls");
    reveal_strlit("rsa");
    reveal_strlit("dsa");
    reveal_strlit("ecdsa");
    reveal_strlit("ed25519-dalek");
    reveal_strlit("x25519-dalek");
    reveal_strlit("p256");
    reveal_strlit("p384");
    reveal_strlit("k256");
    assert forall|j: int| 0 <= j < 13 implies #[trigger] t[j].0 != "sha1"@ by {
        if j == 2 {
            assert(t[j].0[0] != "sha1"@[0]);
        }
        if j == 10 {
            assert(t[j].0[0] != "sha1"@[0]);
        }
        if j == 11 {
            assert(t[j].0[0] != "sha1"@[0]);
        }
        if j == 12 {
            assert(t[j].0[0] != "sha1"@[0]);
        }
        assert(t[j].0.len() != "sha1"@.len() || t[j].0 != "sha1"@);
    }
    lemma_assoc_from(t, "sha1"@, 13);
}

proof fn lemma_library_entry_md5()
    ensures
        assoc(library_catalog(), "md5"@) == Some("MD5"@),
{
    reveal_strlit("md5");
    let t = library_catalog();
    assert(t[14] == ("md5"@, "MD5"@));
    reveal_strlit("openssl");
    reveal_strlit("native-tls");
    reveal_strlit("ring");
    reveal_strlit("boring");
    reveal_strlit("rustls");
    reveal_strlit("rsa");
    reveal_strlit("dsa");
    reveal_strlit("ecdsa");
    reveal_strlit("ed25519-dalek");
    reveal_strlit("x25519-dalek");
    reveal_strlit("p256");
    reveal_strlit("p384");
    reveal_strlit("k256");
    reveal_strlit("sha1");
    assert forall|j: int| 0 <= j < 14 implies #[trigger] t[j].0 != "md5"@ by {
        if j == 5 {
            assert(t[j].0[0] != "md5"@[0]);
        }
        if j == 6 {
            assert(t[j].0[0] != "md5"@[0]);
        }
        assert(t[j].0.len() != "md5"@.len() || t[j].0 != "md5"@);
    }
    lemma_assoc_from(t, "md5"@, 14);
}

proof fn lemma_library_entry_des()
    ensures
        assoc(library_catalog(), "des"@) == Some("DES"@),
{
    reveal_strlit("des");
    let t = library_catalog();
    assert(t[15] == ("des"@, "DES"@));
    reveal_strlit("openssl");
    reveal_strlit("native-tls");
    reveal_strlit("ring");
    reveal_strlit("boring");
    reveal_strlit("rustls");
    reveal_strlit("rsa");
    reveal_strlit("dsa");
    reveal_strlit("ecdsa");
    reveal_strlit("ed25519-dalek");
    reveal_strlit("x25519-dalek");
    reveal_strlit("p256");
    reveal_strlit("p384");
    reveal_strlit("k256");
    reveal_strlit("sha1");
    reveal_strlit("md5");
    assert forall|j: int| 0 <= j < 15 implies #[trigger] t[j].0 != "des"@ by {
        if j == 5 {
            assert(t[j].0[0] != "des"@[0]);
        }
        if j == 6 {
            assert(t[j].0[1] != "des"@[1]);
        }
        if j == 14 {
            assert(t[j].0[0] != "des"@[0]);
        }
        assert(t[j].0.len() != "des"@.len() || t[j].0 != "des"@);
    }
    lemma_assoc_from(t, "des"@, 15);
}

proof fn lemma_library_entry_rc4()
    ensures
        assoc(library_catalog(), "rc4"@) == Some("RC4"@),
{
    reveal_strlit("rc4");
    let t = library_catalog();
    assert(t[16] == ("rc4"@, "RC4"@));
    reveal_strlit("openssl");
    reveal_strlit("native-tls");
    reveal_strlit("ring");
    reveal_strlit("boring");
    reveal_strlit("rustls");
    reveal_strlit("rsa");
    reveal_strlit("dsa");
    reveal_strlit("ecdsa");
    reveal_strlit("ed25519-dalek");
    reveal_strlit("x25519-dalek");
    reveal_strlit("p256");
    reveal_strlit("p384");
    reveal_strlit("k256");
    reveal_strlit("sha1");
    reveal_strlit("md5");
    reveal_strlit("des");
    assert forall|j: int| 0 <= j < 16 implies #[trigger] t[j].0 != "rc4"@ by {
        if j == 5 {
            assert(t[j].0[1] != "rc4"@[1]);
        }
        if j == 6 {
            assert(t[j].0[0] != "rc4"@[0]);
        }
        if j == 14 {
            assert(t[j].0[0] != "rc4"@[0]);
        }
        if j == 15 {
            assert(t[j].0[0] != "rc4"@[0]);
        }
        assert(t[j].0.len() != "rc4"@.len() || t[j].0 != "rc4"@);
    }
    lemma_assoc_from(t, "rc4"@, 16);
}

proof fn lemma_library_entry_aes()
    ensures
        assoc(library_catalog(), "aes"@) == Some("AES-256"@),
{
    reveal_strlit("aes");
    let t = library_catalog();
    assert(t[17] == ("aes"@, "AES-256"@));
    reveal_strlit("openssl");
    reveal_strlit("native-tls");
    reveal_strlit("ring");
    reveal_strlit("boring");
    reveal_strlit("rustls");
    reveal_strlit("rsa");
    reveal_strlit("dsa");
    reveal_strlit("ecdsa");
    reveal_strlit("ed25519-dalek");
    reveal_strlit("x25519-dalek");
    reveal_strlit("p256");
    reveal_strlit("p384");
    reveal_strlit("k256");
    reveal_strlit("sha1");
    reveal_strlit("md5");
    reveal_strlit("des");
    reveal_strlit("rc4");
    assert forall|j: int| 0 <= j < 17 implies #[trigger] t[j].0 != "aes"@ by {
        if j == 5 {
            assert(t[j].0[0] != "aes"@[0]);
        }
        if j == 6 {
            assert(t[j].0[0] != "aes"@[0]);
        }
        if j == 14 {
            assert(t[j].0[0] != "aes"@[0]);
        }
        if j == 15 {
            assert(t[j].0[0] != "aes"@[0]);
        }
        if j == 16 {
            assert(t[j].0[0] != "aes"@[0]);
        }
        assert(t[j].0.len() != "aes"@.len() || t[j].0 != "aes"@);
    }
    lemma_assoc_from(t, "aes"@, 17);
}

proof fn lemma_library_entry_sha2()
    ensures
        assoc(library_catalog(), "sha2"@) == Some("SHA-256"@),
{
    reveal_strlit("sha2");
    let t = library_catalog();
    assert(t[18] == ("sha2"@, "SHA-256"@));
    reveal_strlit("openssl");
    reveal_strlit("native-tls");
    reveal_strlit("ring");
    reveal_strlit("boring");
    reveal_strlit("rustls");
    reveal_strlit("rsa");
    reveal_strlit("dsa");
    reveal_strlit("ecdsa");
    reveal_strlit("ed25519-dalek");
    reveal_strlit("x25519-dalek");
    reveal_strlit("p256");
    reveal_strlit("p384");
    reveal_strlit("k256");
    reveal_strlit("sha1");
    reveal_strlit("md5");
    reveal_strlit("des");
    reveal_strlit("rc4");
    reveal_strlit("aes");
    assert forall|j: int| 0 <= j < 18 implies #[trigger] t[j].0 != "sha2"@ by {
        if j == 2 {
            assert(t[j].0[0] != "sha2"@[0]);
        }
        if j == 10 {
            assert(t[j].0[0] != "sha2"@[0]);
        }
        if j == 11 {
            assert(t[j].0[0] != "sha2"@[0]);
        }
        if j == 12 {
            assert(t[j].0[0] != "sha2"@[0]);
        }
        if j == 13 {
            assert(t[j].0[3] != "sha2"@[3]);
        }
        assert(t[j].0.len() != "sha2"@.len() || t[j].0 != "sha2"@);
    }
    lemma_assoc_from(t, "sha2"@, 18);
}

proof fn lemma_library_entry_sha3()
    ensures
        assoc(library_catalog(), "sha3"@) == Some("SHA3-256"@),
{
    reveal_strlit("sha3");
    let t = library_catalog();
    assert(t[19] == ("sha3"@, "SHA3-256"@));
    reveal_strlit("openssl");
    reveal_strlit("native-tls");
    reveal_strlit("ring");
    reveal_strlit("boring");
    reveal_strlit("rustls");
    reveal_strlit("rsa");
    reveal_strlit("dsa");
    reveal_strlit("ecdsa");
    reveal_strlit("ed25519-dalek");
    reveal_strlit("x25519-dalek");
    reveal_strlit("p256");
    reveal_strlit("p384");
    reveal_strlit("k256");
    reveal_strlit("sha1");
    reveal_strlit("md5");
    reveal_strlit("des");
    reveal_strlit("rc4");
    reveal_strlit("aes");
    reveal_strlit("sha2");
    assert forall|j: int| 0 <= j < 19 implies #[trigger] t[j].0 != "sha3"@ by {
        if j == 2 {
            assert(t[j].0[0] != "sha3"@[0]);
        }
        if j == 10 {
            assert(t[j].0[0] != "sha3"@[0]);
        }
        if j == 11 {
            assert(t[j].0[0] != "sha3"@[0]);
        }
        if j == 12 {
            assert(t[j].0[0] != "sha3"@[0]);
        }
        if j == 13 {
            assert(t[j].0[3] != "sha3"@[3]);
        }
        if j == 18 {
            assert(t[j].0[3] != "sha3"@[3]);
        }
        assert(t[j].0.len() != "sha3"@.len() || t[j].0 != "sha3"@);
    }
    lemma_assoc_from(t, "sha3"@, 19);
}

proof fn lemma_library_entry_hmac()
    ensures
        assoc(library_catalog(), "hmac"@) == Some("SHA-256"@),
{
    reveal_strlit("hmac");
    let t = library_catalog();
    assert(t[20] == ("hmac"@, "SHA-256"@));
    reveal_strlit("openssl");
    reveal_strlit("native-tls");
    reveal_strlit("ring");
    reveal_strlit("boring");
    reveal_strlit("rustls");
    reveal_strlit("rsa");
    reveal_strlit("dsa");
    reveal_strlit("ecdsa");
    reveal_strlit("ed25519-dalek");
    reveal_strlit("x25519-dalek");
    reveal_strlit("p256");
    reveal_strlit("p384");
    reveal_strlit("k256");
    reveal_strlit("sha1");
    reveal_strlit("md5");
    reveal_strlit("des");
    reveal_strlit("rc4");
    reveal_strlit("aes");
    reveal_strlit("sha2");
    reveal_strlit("sha3");
    assert forall|j: int| 0 <= j < 20 implies #[trigger] t[j].0 != "hmac"@ by {
        if j == 2 {
            assert(t[j].0[0] != "hmac"@[0]);
        }
        if j == 10 {
            assert(t[j].0[0] != "hmac"@[0]);
        }
        if j == 11 {
            assert(t[j].0[0] != "hmac"@[0]);
        }
        if j == 12 {
            assert(t[j].0[0] != "hmac"@[0]);
        }
        if j == 13 {
            assert(t[j].0[0] != "hmac"@[0]);
        }
        if j == 18 {
            assert(t[j].0[0] != "hmac"@[0]);
        }
        if j == 19 {
            assert(t[j].0[0] != "hmac"@[0]);
        }
        assert(t[j].0.len() != "hmac"@.len() || t[j].0 != "hmac"@);
    }
    lemma_assoc_from(t, "hmac"@, 20);
}

proof fn lemma_library_entry_pqcrypto_kyber()
    ensures
        assoc(library_catalog(), "pqcrypto-kyber"@) == Some("ML-KEM-768"@),
{
    reveal_strlit("pqcrypto-kyber");
    let t = library_catalog();
    assert(t[21] == ("pqcrypto-kyber"@, "ML-KEM-768"@));
    reveal_strlit("openssl");
    reveal_strlit("native-tls");
    reveal_strlit("ring");
    reveal_strlit("boring");
    reveal_strlit("rustls");
    reveal_strlit("rsa");
    reveal_strlit("dsa");
    reveal_strlit("ecdsa");
    reveal_strlit("ed25519-dalek");
    reveal_strlit("x25519-dalek");
    reveal_strlit("p256");
    reveal_strlit("p384");
    reveal_strlit("k256");
    reveal_strlit("sha1");
    reveal_strlit("md5");
    reveal_strlit("des");
    reveal_strlit("rc4");
    reveal_strlit("aes");
    reveal_strlit("sha2");
    reveal_strlit("sha3");
    reveal_strlit("hmac");
    assert forall|j: int| 0 <= j < 21 implies #[trigger] t[j].0 != "pqcrypto-kyber"@ by {
        assert(t[j].0.len() != "pqcrypto-kyber"@.len() || t[j].0 != "pqcrypto-kyber"@);
    }
    lemma_assoc_from(t, "pqcrypto-kyber"@, 21);
}

proof fn lemma_library_entry_pqcrypto_dilithium()
    ensures
        assoc(library_catalog(), "pqcrypto-dilithium"@) == Some("ML-DSA-65"@),
{
    reveal_strlit("pqcrypto-dilithium");
    let t = library_catalog();
    assert(t[22] == ("pqcrypto-dilithium"@, "ML-DSA-65"@));
    reveal_strlit("openssl");
    reveal_strlit("native-tls");
    reveal_strlit("ring");
    reveal_strlit("boring");
    reveal_strlit("rustls");
    reveal_strlit("rsa");
    reveal_strlit("dsa");
    reveal_strlit("ecdsa");
    reveal_strlit("ed25519-dalek");
    reveal_strlit("x25519-dalek");
    reveal_strlit("p256");
    reveal_strlit("p384");
    reveal_strlit("k256");
    reveal_strlit("sha1");
    reveal_strlit("md5");
    reveal_strlit("des");
    reveal_strlit("rc4");
    reveal_strlit("aes");
    reveal_strlit("sha2");
    reveal_strlit("sha3");
    reveal_strlit("hmac");
    reveal_strlit("pqcrypto-kyber");
    assert forall|j: int| 0 <= j < 22 implies #[trigger] t[j].0 != "pqcrypto-dilithium"@ by {
        assert(t[j].0.len() != "pqcrypto-dilithium"@.len() || t[j].0 != "pqcrypto-dilithium"@);
    }
    lemma_assoc_from(t, "pqcrypto-dilithium"@, 22);
}

proof fn lemma_library_entry_ml_kem()
    ensures
        assoc(library_catalog(), "ml-kem"@) == Some("ML-KEM-768"@),
{
    reveal_strlit("ml-kem");
    let t = library_catalog();
    assert(t[23] == ("ml-kem"@, "ML-KEM-768"@));
    reveal_strlit("openssl");
    reveal_strlit("native-tls");
    reveal_strlit("ring");
    reveal_strlit("boring");
    reveal_strlit("rustls");
    reveal_strlit("rsa");
    reveal_strlit("dsa");
    reveal_strlit("ecdsa");
    reveal_strlit("ed25519-dalek");
    reveal_strlit("x25519-dalek");
    reveal_strlit("p256");
    reveal_strlit("p384");
    reveal_strlit("k256");
    reveal_strlit("sha1");
    reveal_strlit("md5");
    reveal_strlit("des");
    reveal_strlit("rc4");
    reveal_strlit("aes");
    reveal_strlit("sha2");
    reveal_strlit("sha3");
    reveal_strlit("hmac");
    reveal_strlit("pqcrypto-kyber");
    reveal_strlit("pqcrypto-dilithium");
    assert forall|j: int| 0 <= j < 23 implies #[trigger] t[j].0 != "ml-kem"@ by {
        if j == 3 {
            assert(t[j].0[0] != "ml-kem"@[0]);
        }
        if j == 4 {
            assert(t[j].0[0] != "ml-kem"@[0]);
        }
        assert(t[j].0.len() != "ml-kem"@.len() || t[j].0 != "ml-kem"@);
    }
    lemma_assoc_from(t, "ml-kem"@, 23);
}

proof fn lemma_library_entry_ml_dsa()
    ensures
        assoc(library_catalog(), "ml-dsa"@) == Some("ML-DSA-65"@),
{
    reveal_strlit("ml-dsa");
    let t = library_catalog();
    assert(t[24] == ("ml-dsa"@, "ML-DSA-65"@));
    reveal_strlit("openssl");
    reveal_strlit("native-tls");
    reveal_strlit("ring");
    reveal_strlit("boring");
    reveal_strlit("rustls");
    reveal_strlit("rsa");
    reveal_strlit("dsa");
    reveal_strlit("ecdsa");
    reveal_strlit("ed25519-dalek");
    reveal_strlit("x25519-dalek");
    reveal_strlit("p256");
    reveal_strlit("p384");
    reveal_strlit("k256");
    reveal_strlit("sha1");
    reveal_strlit("md5");
    reveal_strlit("des");
    reveal_strlit("rc4");
    reveal_strlit("aes");
    reveal_strlit("sha2");
    reveal_strlit("sha3");
    reveal_strlit("hmac");
    reveal_strlit("pqcrypto-kyber");
    reveal_strlit("pqcrypto-dilithium");
    reveal_strlit("ml-kem");
    assert forall|j: int| 0 <= j < 24 implies #[trigger] t[j].0 != "ml-dsa"@ by {
        if j == 3 {
            assert(t[j].0[0] != "ml-dsa"@[0]);
        }
        if j == 4 {
            assert(t[j].0[0] != "ml-dsa"@[0]);
        }
        if j == 23 {
            assert(t[j].0[3] != "ml-dsa"@[3]);
        }
        assert(t[j].0.len() != "ml-dsa"@.len() || t[j].0 != "ml-dsa"@);
    }
    lemma_assoc_from(t, "ml-dsa"@, 24);
}

proof fn lemma_library_entry_node_forge()
    ensures
        assoc(library_catalog(), "node-forge"@) == Some("RSA"@),
{
    reveal_strlit("node-forge");
    let t = library_catalog();
    assert(t[25] == ("node-forge"@, "RSA"@));
    reveal_strlit("openssl");
    reveal_strlit("native-tls");
    reveal_strlit("ring");
    reveal_strlit("boring");
    reveal_strlit("rustls");
    reveal_strlit("rsa");
    reveal_strlit("dsa");
    reveal_strlit("ecdsa");
    reveal_strlit("ed25519-dalek");
    reveal_strlit("x25519-dalek");
    reveal_strlit("p256");
    reveal_strlit("p384");
    reveal_strlit("k256");
    reveal_strlit("sha1");
    reveal_strlit("md5");
    reveal_strlit("des");
    reveal_strlit("rc4");
    reveal_strlit("aes");
    reveal_strlit("sha2");
    reveal_strlit("sha3");
    reveal_strlit("hmac");
    reveal_strlit("pqcrypto-kyber");
    reveal_strlit("pqcrypto-dilithium");
    reveal_strlit("ml-kem");
    reveal_strlit("ml-dsa");
    assert forall|j: int| 0 <= j < 25 implies #[trigger] t[j].0 != "node-forge"@ by {
        if j == 1 {
            assert(t[j].0[1] != "node-forge"@[1]);
        }
        assert(t[j].0.len() != "node-forge"@.len() || t[j].0 != "node-forge"@);
    }
    lemma_assoc_from(t, "node-forge"@, 25);
}

proof fn lemma_library_entry_jsonwebtoken()
    ensures
        assoc(library_catalog(), "jsonwebtoken"@) == Some("RSA-2048"@),
{
    reveal_strlit("jsonwebtoken");
    let t = library_catalog();
    assert(t[26] == ("jsonwebtoken"@, "RSA-2048"@));
    reveal_strlit("openssl");
    reveal_strlit("native-tls");
    reveal_strlit("ring");
    reveal_strlit("boring");
    reveal_strlit("rustls");
    reveal_strlit("rsa");
    reveal_strlit("dsa");
    reveal_strlit("ecdsa");
    reveal_strlit("ed25519-dalek");
    reveal_strlit("x25519-dalek");
    reveal_strlit("p256");
    reveal_strlit("p384");
    reveal_strlit("k256");
    reveal_strlit("sha1");
    reveal_strlit("md5");
    reveal_strlit("des");
    reveal_strlit("rc4");
    reveal_strlit("aes");
    reveal_strlit("sha2");
    reveal_strlit("sha3");
    reveal_strlit("hmac");
    reveal_strlit("pqcrypto-kyber");
    reveal_strlit("pqcrypto-dilithium");
    reveal_strlit("ml-kem");
    reveal_strlit("ml-dsa");
    reveal_strlit("node-forge");
    assert forall|j: int| 0 <= j < 26 implies #[trigger] t[j].0 != "jsonwebtoken"@ by {
        if j == 9 {
            assert(t[j].0[0] != "jsonwebtoken"@[0]);
        }
        assert(t[j].0.len() != "jsonwebtoken"@.len() || t[j].0 != "jsonwebtoken"@);
    }
    lemma_assoc_from(t, "jsonwebtoken"@, 26);
}

proof fn lemma_library_entry_jose()
    ensures
        assoc(library_catalog(), "jose"@) == Some("ECDSA-P-256"@),
{
    reveal_strlit("jose");
    let t = library_catalog();
    assert(t[27] == ("jose"@, "ECDSA-P-256"@));
    reveal_strlit("openssl");
    reveal_strlit("native-tls");
    reveal_strlit("ring");
    reveal_strlit("boring");
    reveal_strlit("rustls");
    reveal_strlit("rsa");
    reveal_strlit("dsa");
    reveal_strlit("ecdsa");
    reveal_strlit("ed25519-dalek");
    reveal_strlit("x25519-dalek");
    reveal_strlit("p256");
    reveal_strlit("p384");
    reveal_strlit("k256");
    reveal_strlit("sha1");
    reveal_strlit("md5");
    reveal_strlit("des");
    reveal_strlit("rc4");
    reveal_strlit("aes");
    reveal_strlit("sha2");
    reveal_strlit("sha3");
    reveal_strlit("hmac");
    reveal_strlit("pqcrypto-kyber");
    reveal_strlit("pqcrypto-dilithium");
    reveal_strlit("ml-kem");
    reveal_strlit("ml-dsa");
    reveal_strlit("node-forge");
    reveal_strlit("jsonwebtoken");
    assert forall|j: int| 0 <= j < 27 implies #[trigger] t[j].0 != "jose"@ by {
        if j == 2 {
            assert(t[j].0[0] != "jose"@[0]);
        }
        if j == 10 {
            assert(t[j].0[0] != "jose"@[0]);
        }
        if j == 11 {
            assert(t[j].0[0] != "jose"@[0]);
        }
        if j == 12 {
            assert(t[j].0[0] != "jose"@[0]);
        }
        if j == 13 {
            assert(t[j].0[0] != "jose"@[0]);
        }
        if j == 18 {
            assert(t[j].0[0] != "jose"@[0]);
        }
        if j == 19 {
            assert(t[j].0[0] != "jose"@[0]);
        }
        if j == 20 {
            assert(t[j].0[0] != "jose"@[0]);
        }
        assert(t[j].0.len() != "jose"@.len() || t[j].0 != "jose"@);
    }
    lemma_assoc_from(t, "jose"@, 27);
}

proof fn lemma_library_entry_node_rsa()
    ensures
        assoc(library_catalog(), "node-rsa"@) == Some("RSA-2048"@),
{
    reveal_strlit("node-rsa");
    let t = library_catalog();
    assert(t[28] == ("node-rsa"@, "RSA-2048"@));
    reveal_strlit("openssl");
    reveal_strlit("native-tls");
    reveal_strlit("ring");
    reveal_strlit("boring");
    reveal_strlit("rustls");
    reveal_strlit("rsa");
    reveal_strlit("dsa");
    reveal_strlit("ecdsa");
    reveal_strlit("ed25519-dalek");
    reveal_strlit("x25519-dalek");
    reveal_strlit("p256");
    reveal_strlit("p384");
    reveal_strlit("k256");
    reveal_strlit("sha1");
    reveal_strlit("md5");
    reveal_strlit("des");
    reveal_strlit("rc4");
    reveal_strlit("aes");
    reveal_strlit("sha2");
    reveal_strlit("sha3");
    reveal_strlit("hmac");
    reveal_strlit("pqcrypto-kyber");
    reveal_strlit("pqcrypto-dilithium");
    reveal_strlit("ml-kem");
    reveal_strlit("ml-dsa");
    reveal_strlit("node-forge");
    reveal_strlit("jsonwebtoken");
    reveal_strlit("jose");
    assert forall|j: int| 0 <= j < 28 implies #[trigger] t[j].0 != "node-rsa"@ by {
        assert(t[j].0.len() != "node-rsa"@.len() || t[j].0 != "node-rsa"@);
    }
    lemma_assoc_from(t, "node-rsa"@, 28);
}

proof fn lemma_library_entry_elliptic()
    ensures
        assoc(library_catalog(), "elliptic"@) == Some("ECDSA"@),
{
    reveal_strlit("elliptic");
    let t = library_catalog();
    assert(t[29] == ("elliptic"@, "ECDSA"@));
    reveal_strlit("openssl");
    reveal_strlit("native-tls");
    reveal_strlit("ring");
    reveal_strlit("boring");
    reveal_strlit("rustls");
    reveal_strlit("rsa");
    reveal_strlit("dsa");
    reveal_strlit("ecdsa");
    reveal_strlit("ed25519-dalek");
    reveal_strlit("x25519-dalek");
    reveal_strlit("p256");
    reveal_strlit("p384");
    reveal_strlit("k256");
    reveal_strlit("sha1");
    reveal_strlit("md5");
    reveal_strlit("des");
    reveal_strlit("rc4");
    reveal_strlit("aes");
    reveal_strlit("sha2");
    reveal_strlit("sha3");
    reveal_strlit("hmac");
    reveal_strlit("pqcrypto-kyber");
    reveal_strlit("pqcrypto-dilithium");
    reveal_strlit("ml-kem");
    reveal_strlit("ml-dsa");
    reveal_strlit("node-forge");
    reveal_strlit("jsonwebtoken");
    reveal_strlit("jose");
    reveal_strlit("node-rsa");
    assert forall|j: int| 0 <= j < 29 implies #[trigger] t[j].0 != "elliptic"@ by {
        if j == 28 {
            assert(t[j].0[0] != "elliptic"@[0]);
        }
        assert(t[j].0.len() != "elliptic"@.len() || t[j].0 != "elliptic"@);
    }
    lemma_assoc_from(t, "elliptic"@, 29);
}

proof fn lemma_library_entry_crypto_js()
    ensures
        assoc(library_catalog(), "crypto-js"@) == Some("AES-256"@),
{
    reveal_strlit("crypto-js");
    let t = library_catalog();
    assert(t[30] == ("crypto-js"@, "AES-256"@));
    reveal_strlit("openssl");
    reveal_strlit("native-tls");
    reveal_strlit("ring");
    reveal_strlit("boring");
    reveal_strlit("rustls");
    reveal_strlit("rsa");
    reveal_strlit("dsa");
    reveal_strlit("ecdsa");
    reveal_strlit("ed25519-dalek");
    reveal_strlit("x25519-dalek");
    reveal_strlit("p256");
    reveal_strlit("p384");
    reveal_strlit("k256");
    reveal_strlit("sha1");
    reveal_strlit("md5");
    reveal_strlit("des");
    reveal_strlit("rc4");
    reveal_strlit("aes");
    reveal_strlit("sha2");
    reveal_strlit("sha3");
    reveal_strlit("hmac");
    reveal_strlit("pqcrypto-kyber");
    reveal_strlit("pqcrypto-dilithium");
    reveal_strlit("ml-kem");
    reveal_strlit("ml-dsa");
    reveal_strlit("node-forge");
    reveal_strlit("jsonwebtoken");
    reveal_strlit("jose");
    reveal_strlit("node-rsa");
    reveal_strlit("elliptic");
    assert forall|j: int| 0 <= j < 30 implies #[trigger] t[j].0 != "crypto-js"@ by {
        assert(t[j].0.len() != "crypto-js"@.len() || t[j].0 != "crypto-js"@);
    }
    lemma_assoc_from(t, "crypto-js"@, 30);
}

proof fn lemma_library_entry_jsrsasign()
    ensures
        assoc(library_catalog(), "jsrsasign"@) == Some("RSA"@),
{
    reveal_strlit("jsrsasign");
    let t = library_catalog();
    assert(t[31] == ("jsrsasign"@, "RSA"@));
    reveal_strlit("openssl");
    reveal_strlit("native-tls");
    reveal_strlit("ring");
    reveal_strlit("boring");
    reveal_strlit("rustls");
    reveal_strlit("rsa");
    reveal_strlit("dsa");
    reveal_strlit("ecdsa");
    reveal_strlit("ed25519-dalek");
    reveal_strlit("x25519-dalek");
    reveal_strlit("p256");
    reveal_strlit("p384");
    reveal_strlit("k256");
    reveal_strlit("sha1");
    reveal_strlit("md5");
    reveal_strlit("des");
    reveal_strlit("rc4");
    reveal_strlit("aes");
    reveal_strlit("sha2");
    reveal_strlit("sha3");
    reveal_strlit("hmac");
    reveal_strlit("pqcrypto-kyber");
    reveal_strlit("pqcrypto-dilithium");
    reveal_strlit("ml-kem");
    reveal_strlit("ml-dsa");
    reveal_strlit("node-forge");
    reveal_strlit("jsonwebtoken");
    reveal_strlit("jose");
    reveal_strlit("node-rsa");
    reveal_strlit("elliptic");
    reveal_strlit("crypto-js");
    assert forall|j: int| 0 <= j < 31 implies #[trigger] t[j].0 != "jsrsasign"@ by {
        if j == 30 {
            assert(t[j].0[0] != "jsrsasign"@[0]);
        }
        assert(t[j].0.len() != "jsrsasign"@.len() || t[j].0 != "jsrsasign"@);
    }
    lemma_assoc_from(t, "jsrsasign"@, 31);
}

proof fn lemma_library_entry_bcrypt()
    ensures
        assoc(library_catalog(), "bcrypt"@) == Some("SHA-256"@),
{
    reveal_strlit("bcrypt");
    let t = library_catalog();
    assert(t[32] == ("bcrypt"@, "SHA-256"@));
    reveal_strlit("openssl");
    reveal_strlit("native-tls");
    reveal_strlit("ring");
    reveal_strlit("boring");
    reveal_strlit("rustls");
    reveal_strlit("rsa");
    reveal_strlit("dsa");
    reveal_strlit("ecdsa");
    reveal_strlit("ed25519-dalek");
    reveal_strlit("x25519-dalek");
    reveal_strlit("p256");
    reveal_strlit("p384");
    reveal_strlit("k256");
    reveal_strlit("sha1");
    reveal_strlit("md5");
    reveal_strlit("des");
    reveal_strlit("rc4");
    reveal_strlit("aes");
    reveal_strlit("sha2");
    reveal_strlit("sha3");
    reveal_strlit("hmac");
    reveal_strlit("pqcrypto-kyber");
    reveal_strlit("pqcrypto-dilithium");
    reveal_strlit("ml-kem");
    reveal_strlit("ml-dsa");
    reveal_strlit("node-forge");
    reveal_strlit("jsonwebtoken");
    reveal_strlit("jose");
    reveal_strlit("node-rsa");
    reveal_strlit("elliptic");
    reveal_strlit("crypto-js");
    reveal_strlit("jsrsasign");
    assert forall|j: int| 0 <= j < 32 implies #[trigger] t[j].0 != "bcrypt"@ by {
        if j == 3 {
            assert(t[j].0[1] != "bcrypt"@[1]);
        }
        if j == 4 {
            assert(t[j].0[0] != "bcrypt"@[0]);
        }
        if j == 23 {
            assert(t[j].0[0] != "bcrypt"@[0]);
        }
        if j == 24 {
            assert(t[j].0[0] != "bcrypt"@[0]);
        }
        assert(t[j].0.len() != "bcrypt"@.len() || t[j].0 != "bcrypt"@);
    }
    lemma_assoc_from(t, "bcrypt"@, 32);
}

proof fn lemma_library_entry_bcryptjs()
    ensures
        assoc(library_catalog(), "bcryptjs"@) == Some("SHA-256"@),
{
    reveal_strlit("bcryptjs");
    let t = library_catalog();
    assert(t[33] == ("bcryptjs"@, "SHA-256"@));
    reveal_strlit("openssl");
    reveal_strlit("native-tls");
    reveal_strlit("ring");
    reveal_strlit("boring");
    reveal_strlit("rustls");
    reveal_strlit("rsa");
    reveal_strlit("dsa");
    reveal_strlit("ecdsa");
    reveal_strlit("ed25519-dalek");
    reveal_strlit("x25519-dalek");
    reveal_strlit("p256");
    reveal_strlit("p384");
    reveal_strlit("k256");
    reveal_strlit("sha1");
    reveal_strlit("md5");
    reveal_strlit("des");
    reveal_strlit("rc4");
    reveal_strlit("aes");
    reveal_strlit("sha2");
    reveal_strlit("sha3");
    reveal_strlit("hmac");
    reveal_strlit("pqcrypto-kyber");
    reveal_strlit("pqcrypto-dilithium");
    reveal_strlit("ml-kem");
    reveal_strlit("ml-dsa");
    reveal_strlit("node-forge");
    reveal_strlit("jsonwebtoken");
    reveal_strlit("jose");
    reveal_strlit("node-rsa");
    reveal_strlit("elliptic");
    reveal_strlit("crypto-js");
    reveal_strlit("jsrsasign");
    reveal_strlit("bcrypt");
    assert forall|j: int| 0 <= j < 33 implies #[trigger] t[j].0 != "bcryptjs"@ by {
        if j == 28 {
            assert(t[j].0[0] != "bcryptjs"@[0]);
        }
        if j == 29 {
            assert(t[j].0[0] != "bcryptjs"@[0]);
        }
        assert(t[j].0.len() != "bcryptjs"@.len() || t[j].0 != "bcryptjs"@);
    }
    lemma_assoc_from(t, "bcryptjs"@, 33);
}

proof fn lemma_library_entry_cryptography()
    ensures
        assoc(library_catalog(), "cryptography"@) == Some("RSA"@),
{
    reveal_strlit("cryptography");
    let t = library_catalog();
    assert(t[34] == ("cryptography"@, "RSA"@));
    reveal_strlit("openssl");
    reveal_strlit("native-tls");
    reveal_strlit("ring");
    reveal_strlit("boring");
    reveal_strlit("rustls");
    reveal_strlit("rsa");
    reveal_strlit("dsa");
    reveal_strlit("ecdsa");
    reveal_strlit("ed25519-dalek");
    reveal_strlit("x25519-dalek");
    reveal_strlit("p256");
    reveal_strlit("p384");
    reveal_strlit("k256");
    reveal_strlit("sha1");
    reveal_strlit("md5");
    reveal_strlit("des");
    reveal_strlit("rc4");
    reveal_strlit("aes");
    reveal_strlit("sha2");
    reveal_strlit("sha3");
    reveal_strlit("hmac");
    reveal_strlit("pqcrypto-kyber");
    reveal_strlit("pqcrypto-dilithium");
    reveal_strlit("ml-kem");
    reveal_strlit("ml-dsa");
    reveal_strlit("node-forge");
    reveal_strlit("jsonwebtoken");
    reveal_strlit("jose");
    reveal_strlit("node-rsa");
    reveal_strlit("elliptic");
    reveal_strlit("crypto-js");
    reveal_strlit("jsrsasign");
    reveal_strlit("bcrypt");
    reveal_strlit("bcryptjs");
    assert forall|j: int| 0 <= j < 34 implies #[trigger] t[j].0 != "cryptography"@ by {
        if j == 9 {
            assert(t[j].0[0] != "cryptography"@[0]);
        }
        if j == 26 {
            assert(t[j].0[0] != "cryptography"@[0]);
        }
        assert(t[j].0.len() != "cryptography"@.len() || t[j].0 != "cryptography"@);
    }
    lemma_assoc_from(t, "cryptography"@, 34);
}

proof fn lemma_library_entry_paramiko()
    ensures
        assoc(library_catalog(), "paramiko"@) == Some("RSA"@),
{
    reveal_strlit("paramiko");
    let t = library_catalog();
    assert(t[35] == ("paramiko"@, "RSA"@));
    reveal_strlit("openssl");
    reveal_strlit("native-tls");
    reveal_strlit("ring");
    reveal_strlit("boring");
    reveal_strlit("rustls");
    reveal_strlit("rsa");
    reveal_strlit("dsa");
    reveal_strlit("ecdsa");
    reveal_strlit("ed25519-dalek");
    reveal_strlit("x25519-dalek");
    reveal_strlit("p256");
    reveal_strlit("p384");
    reveal_strlit("k256");
    reveal_strlit("sha1");
    reveal_strlit("md5");
    reveal_strlit("des");
    reveal_strlit("rc4");
    reveal_strlit("aes");
    reveal_strlit("sha2");
    reveal_strlit("sha3");
    reveal_strlit("hmac");
    reveal_strlit("pqcrypto-kyber");
    reveal_strlit("pqcrypto-dilithium");
    reveal_strlit("ml-kem");
    reveal_strlit("ml-dsa");
    reveal_strlit("node-forge");
    reveal_strlit("jsonwebtoken");
    reveal_strlit("jose");
    reveal_strlit("node-rsa");
    reveal_strlit("elliptic");
    reveal_strlit("crypto-js");
    reveal_strlit("jsrsasign");
    reveal_strlit("bcrypt");
    reveal_strlit("bcryptjs");
    reveal_strlit("cryptography");
    assert forall|j: int| 0 <= j < 35 implies #[trigger] t[j].0 != "paramiko"@ by {
        if j == 28 {
            assert(t[j].0[0] != "paramiko"@[0]);
        }
        if j == 29 {
            assert(t[j].0[0] != "paramiko"@[0]);
        }
        if j == 33 {
            assert(t[j].0[0] != "paramiko"@[0]);
        }
        assert(t[j].0.len() != "paramiko"@.len() || t[j].0 != "paramiko"@);
    }
    lemma_assoc_from(t, "paramiko"@, 35);
}

proof fn lemma_library_entry_pycryptodome()
    ensures
        assoc(library_catalog(), "pycryptodome"@) == Some("RSA"@),
{
    reveal_strlit("pycryptodome");
    let t = library_catalog();
    assert(t[36] == ("pycryptodome"@, "RSA"@));
    reveal_strlit("openssl");
    reveal_strlit("native-tls");
    reveal_strlit("ring");
    reveal_strlit("boring");
    reveal_strlit("rustls");
    reveal_strlit("rsa");
    reveal_strlit("dsa");
    reveal_strlit("ecdsa");
    reveal_strlit("ed25519-dalek");
    reveal_strlit("x25519-dalek");
    reveal_strlit("p256");
    reveal_strlit("p384");
    reveal_strlit("k256");
    reveal_strlit("sha1");
    reveal_strlit("md5");
    reveal_strlit("des");
    reveal_strlit("rc4");
    reveal_strlit("aes");
    reveal_strlit("sha2");
    reveal_strlit("sha3");
    reveal_strlit("hmac");
    reveal_strlit("pqcrypto-kyber");
    reveal_strlit("pqcrypto-dilithium");
    reveal_strlit("ml-kem");
    reveal_strlit("ml-dsa");
    reveal_strlit("node-forge");
    reveal_strlit("jsonwebtoken");
    reveal_strlit("jose");
    reveal_strlit("node-rsa");
    reveal_strlit("elliptic");
    reveal_strlit("crypto-js");
    reveal_strlit("jsrsasign");
    reveal_strlit("bcrypt");
    reveal_strlit("bcryptjs");
    reveal_strlit("cryptography");
    reveal_strlit("paramiko");
    assert forall|j: int| 0 <= j < 36 implies #[trigger] t[j].0 != "pycryptodome"@ by {
        if j == 9 {
            assert(t[j].0[0] != "pycryptodome"@[0]);
        }
        if j == 26 {
            assert(t[j].0[0] != "pycryptodome"@[0]);
        }
        if j == 34 {
            assert(t[j].0[0] != "pycryptodome"@[0]);
        }
        assert(t[j].0.len() != "pycryptodome"@.len() || t[j].0 != "pycryptodome"@);
    }
    lemma_assoc_from(t, "pycryptodome"@, 36);
}

proof fn lemma_library_entry_pycryptodomex()
    ensures
        assoc(library_catalog(), "pycryptodomex"@) == Some("RSA"@),
{
    reveal_strlit("pycryptodomex");
    let t = library_catalog();
    assert(t[37] == ("pycryptodomex"@, "RSA"@));
    reveal_strlit("openssl");
    reveal_strlit("native-tls");
    reveal_strlit("ring");
    reveal_strlit("boring");
    reveal_strlit("rustls");
    reveal_strlit("rsa");
    reveal_strlit("dsa");
    reveal_strlit("ecdsa");
    reveal_strlit("ed25519-dalek");
    reveal_strlit("x25519-dalek");
    reveal_strlit("p256");
    reveal_strlit("p384");
    reveal_strlit("k256");
    reveal_strlit("sha1");
    reveal_strlit("md5");
    reveal_strlit("des");
    reveal_strlit("rc4");
    reveal_strlit("aes");
    reveal_strlit("sha2");
    reveal_strlit("sha3");
    reveal_strlit("hmac");
    reveal_strlit("pqcrypto-kyber");
    reveal_strlit("pqcrypto-dilithium");
    reveal_strlit("ml-kem");
    reveal_strlit("ml-dsa");
    reveal_strlit("node-forge");
    reveal_strlit("jsonwebtoken");
    reveal_strlit("jose");
    reveal_strlit("node-rsa");
    reveal_strlit("elliptic");
    reveal_strlit("crypto-js");
    reveal_strlit("jsrsasign");
    reveal_strlit("bcrypt");
    reveal_strlit("bcryptjs");
    reveal_strlit("cryptography");
    reveal_strlit("paramiko");
    reveal_strlit("pycryptodome");
    assert forall|j: int| 0 <= j < 37 implies #[trigger] t[j].0 != "pycryptodomex"@ by {
        if j == 8 {
            assert(t[j].0[0] != "pycryptodomex"@[0]);
        }
        assert(t[j].0.len() != "pycryptodomex"@.len() || t[j].0 != "pycryptodomex"@);
    }
    lemma_assoc_from(t, "pycryptodomex"@, 37);
}

proof fn lemma_library_entry_pyopenssl()
    ensures
        assoc(library_catalog(), "pyopenssl"@) == Some("RSA"@),
{
    reveal_strlit("pyopenssl");
    let t = library_catalog();
    assert(t[38] == ("pyopenssl"@, "RSA"@));
    reveal_strlit("openssl");
    reveal_strlit("native-tls");
    reveal_strlit("ring");
    reveal_strlit("boring");
    reveal_strlit("rustls");
    reveal_strlit("rsa");
    reveal_strlit("dsa");
    reveal_strlit("ecdsa");
    reveal_strlit("ed25519-dalek");
    reveal_strlit("x25519-dalek");
    reveal_strlit("p256");
    reveal_strlit("p384");
    reveal_strlit("k256");
    reveal_strlit("sha1");
    reveal_strlit("md5");
    reveal_strlit("des");
    reveal_strlit("rc4");
    reveal_strlit("aes");
    reveal_strlit("sha2");
    reveal_strlit("sha3");
    reveal_strlit("hmac");
    reveal_strlit("pqcrypto-kyber");
    reveal_strlit("pqcrypto-dilithium");
    reveal_strlit("ml-kem");
    reveal_strlit("ml-dsa");
    reveal_strlit("node-forge");
    reveal_strlit("jsonwebtoken");
    reveal_strlit("jose");
    reveal_strlit("node-rsa");
    reveal_strlit("elliptic");
    reveal_strlit("crypto-js");
    reveal_strlit("jsrsasign");
    reveal_strlit("bcrypt");
    reveal_strlit("bcryptjs");
    reveal_strlit("cryptography");
    reveal_strlit("paramiko");
    reveal_strlit("pycryptodome");
    reveal_strlit("pycryptodomex");
    assert forall|j: int| 0 <= j < 38 implies #[trigger] t[j].0 != "pyopenssl"@ by {
        if j == 30 {
            assert(t[j].0[0] != "pyopenssl"@[0]);
        }
        if j == 31 {
            assert(t[j].0[0] != "pyopenssl"@[0]);
        }
        assert(t[j].0.len() != "pyopenssl"@.len() || t[j].0 != "pyopenssl"@);
    }
    lemma_assoc_from(t, "pyopenssl"@, 38);
}

proof fn lemma_library_entry_pyjwt()
    ensures
        assoc(library_catalog(), "pyjwt"@) == Some("RSA-2048"@),
{
    reveal_strlit("pyjwt");
    let t = library_catalog();
    assert(t[39] == ("pyjwt"@, "RSA-2048"@));
    reveal_strlit("openssl");
    reveal_strlit("native-tls");
    reveal_strlit("ring");
    reveal_strlit("boring");
    reveal_strlit("rustls");
    reveal_strlit("rsa");
    reveal_strlit("dsa");
    reveal_strlit("ecdsa");
    reveal_strlit("ed25519-dalek");
    reveal_strlit("x25519-dalek");
    reveal_strlit("p256");
    reveal_strlit("p384");
    reveal_strlit("k256");
    reveal_strlit("sha1");
    reveal_strlit("md5");
    reveal_strlit("des");
    reveal_strlit("rc4");
    reveal_strlit("aes");
    reveal_strlit("sha2");
    reveal_strlit("sha3");
    reveal_strlit("hmac");
    reveal_strlit("pqcrypto-kyber");
    reveal_strlit("pqcrypto-dilithium");
    reveal_strlit("ml-kem");
    reveal_strlit("ml-dsa");
    reveal_strlit("node-forge");
    reveal_strlit("jsonwebtoken");
    reveal_strlit("jose");
    reveal_strlit("node-rsa");
    reveal_strlit("elliptic");
    reveal_strlit("crypto-js");
    reveal_strlit("jsrsasign");
    reveal_strlit("bcrypt");
    reveal_strlit("bcryptjs");
    reveal_strlit("cryptography");
    reveal_strlit("paramiko");
    reveal_strlit("pycryptodome");
    reveal_strlit("pycryptodomex");
    reveal_strlit("pyopenssl");
    assert forall|j: int| 0 <= j < 39 implies #[trigger] t[j].0 != "pyjwt"@ by {
        if j == 7 {
            assert(t[j].0[0] != "pyjwt"@[0]);
        }
        assert(t[j].0.len() != "pyjwt"@.len() || t[j].0 != "pyjwt"@);
    }
    lemma_assoc_from(t, "pyjwt"@, 39);
}

proof fn lemma_library_entry_python_jose()
    ensures
        assoc(library_catalog(), "python-jose"@) == Some("ECDSA-P-256"@),
{
    reveal_strlit("python-jose");
    let t = library_catalog();
    assert(t[40] == ("python-jose"@, "ECDSA-P-256"@));
    reveal_strlit("openssl");
    reveal_strlit("native-tls");
    reveal_strlit("ring");
    reveal_strlit("boring");
    reveal_strlit("rustls");
    reveal_strlit("rsa");
    reveal_strlit("dsa");
    reveal_strlit("ecdsa");
    reveal_strlit("ed25519-dalek");
    reveal_strlit("x25519-dalek");
    reveal_strlit("p256");
    reveal_strlit("p384");
    reveal_strlit("k256");
    reveal_strlit("sha1");
    reveal_strlit("md5");
    reveal_strlit("des");
    reveal_strlit("rc4");
    reveal_strlit("aes");
    reveal_strlit("sha2");
    reveal_strlit("sha3");
    reveal_strlit("hmac");
    reveal_strlit("pqcrypto-kyber");
    reveal_strlit("pqcrypto-dilithium");
    reveal_strlit("ml-kem");
    reveal_strlit("ml-dsa");
    reveal_strlit("node-forge");
    reveal_strlit("jsonwebtoken");
    reveal_strlit("jose");
    reveal_strlit("node-rsa");
    reveal_strlit("elliptic");
    reveal_strlit("crypto-js");
    reveal_strlit("jsrsasign");
    reveal_strlit("bcrypt");
    reveal_strlit("bcryptjs");
    reveal_strlit("cryptography");
    reveal_strlit("paramiko");
    reveal_strlit("pycryptodome");
    reveal_strlit("pycryptodomex");
    reveal_strlit("pyopenssl");
    reveal_strlit("pyjwt");
    assert forall|j: int| 0 <= j < 40 implies #[trigger] t[j].0 != "python-jose"@ by {
        assert(t[j].0.len() != "python-jose"@.len() || t[j].0 != "python-jose"@);
    }
    lemma_assoc_from(t, "python-jose"@, 40);
}

proof fn lemma_library_entry_golang_org_x_crypto()
    ensures
        assoc(library_catalog(), "golang.org/x/crypto"@) == Some("Ed25519"@),
{
    reveal_strlit("golang.org/x/crypto");
    let t = library_catalog();
    assert(t[43] == ("golang.org/x/crypto"@, "Ed25519"@));
    reveal_strlit("openssl");
    reveal_strlit("native-tls");
    reveal_strlit("ring");
    reveal_strlit("boring");
    reveal_strlit("rustls");
    reveal_strlit("rsa");
    reveal_strlit("dsa");
    reveal_strlit("ecdsa");
    reveal_strlit("ed25519-dalek");
    reveal_strlit("x25519-dalek");
    reveal_strlit("p256");
    reveal_strlit("p384");
    reveal_strlit("k256");
    reveal_strlit("sha1");
    reveal_strlit("md5");
    reveal_strlit("des");
    reveal_strlit("rc4");
    reveal_strlit("aes");
    reveal_strlit("sha2");
    reveal_strlit("sha3");
    reveal_strlit("hmac");
    reveal_strlit("pqcrypto-kyber");
    reveal_strlit("pqcrypto-dilithium");
    reveal_strlit("ml-kem");
    reveal_strlit("ml-dsa");
    reveal_strlit("node-forge");
    reveal_strlit("jsonwebtoken");
    reveal_strlit("jose");
    reveal_strlit("node-rsa");
    reveal_strlit("elliptic");
    reveal_strlit("crypto-js");
    reveal_strlit("jsrsasign");
    reveal_strlit("bcrypt");
    reveal_strlit("bcryptjs");
    reveal_strlit("cryptography");
    reveal_strlit("paramiko");
    reveal_strlit("pycryptodome");
    reveal_strlit("pycryptodomex");
    reveal_strlit("pyopenssl");
    reveal_strlit("pyjwt");
    reveal_strlit("python-jose");
    assert forall|j: int| 0 <= j < 43 implies #[trigger] t[j].0 != "golang.org/x/crypto"@ by {
        assert(t[j].0.len() != "golang.org/x/crypto"@.len() || t[j].0 != "golang.org/x/crypto"@);
    }
    lemma_assoc_from(t, "golang.org/x/crypto"@, 43);
}

proof fn lemma_library_entry_github_com_cloudflare_circl()
    ensures
        assoc(library_catalog(), "github.com/cloudflare/circl"@) == Some("ML-KEM-768"@),
{
    reveal_strlit("github.com/cloudflare/circl");
    let t = library_catalog();
    assert(t[44] == ("github.com/cloudflare/circl"@, "ML-KEM-768"@));
    reveal_strlit("openssl");
    reveal_strlit("native-tls");
    reveal_strlit("ring");
    reveal_strlit("boring");
    reveal_strlit("rustls");
    reveal_strlit("rsa");
    reveal_strlit("dsa");
    reveal_strlit("ecdsa");
    reveal_strlit("ed25519-dalek");
    reveal_strlit("x25519-dalek");
    reveal_strlit("p256");
    reveal_strlit("p384");
    reveal_strlit("k256");
    reveal_strlit("sha1");
    reveal_strlit("md5");
    reveal_strlit("des");
    reveal_strlit("rc4");
    reveal_strlit("aes");
    reveal_strlit("sha2");
    reveal_strlit("sha3");
    reveal_strlit("hmac");
    reveal_strlit("pqcrypto-kyber");
    reveal_strlit("pqcrypto-dilithium");
    reveal_strlit("ml-kem");
    reveal_strlit("ml-dsa");
    reveal_strlit("node-forge");
    reveal_strlit("jsonwebtoken");
    reveal_strlit("jose");
    reveal_strlit("node-rsa");
    reveal_strlit("elliptic");
    reveal_strlit("crypto-js");
    reveal_strlit("jsrsasign");
    reveal_strlit("bcrypt");
    reveal_strlit("bcryptjs");
    reveal_strlit("cryptography");
    reveal_strlit("paramiko");
    reveal_strlit("pycryptodome");
    reveal_strlit("pycryptodomex");
    reveal_strlit("pyopenssl");
    reveal_strlit("pyjwt");
    reveal_strlit("python-jose");
    reveal_strlit("golang.org/x/crypto");
    assert forall|j: int| 0 <= j < 44 implies #[trigger] t[j].0 != "github.com/cloudflare/circl"@ by {
        assert(t[j].0.len() != "github.com/cloudflare/circl"@.len() || t[j].0 != "github.com/cloudflare/circl"@);
    }
    lemma_assoc_from(t, "github.com/cloudflare/circl"@, 44);
}

proof fn lemma_library_entry_gopkg_in_square_go_jose_v2()
    ensures
        assoc(library_catalog(), "gopkg.in/square/go-jose.v2"@) == Some("ECDSA-P-256"@),
{
    reveal_strlit("gopkg.in/square/go-jose.v2");
    let t = library_catalog();
    assert(t[45] == ("gopkg.in/square/go-jose.v2"@, "ECDSA-P-256"@));
    reveal_strlit("openssl");
    reveal_strlit("native-tls");
    reveal_strlit("ring");
    reveal_strlit("boring");
    reveal_strlit("rustls");
    reveal_strlit("rsa");
    reveal_strlit("dsa");
    reveal_strlit("ecdsa");
    reveal_strlit("ed25519-dalek");
    reveal_strlit("x25519-dalek");
    reveal_strlit("p256");
    reveal_strlit("p384");
    reveal_strlit("k256");
    reveal_strlit("sha1");
    reveal_strlit("md5");
    reveal_strlit("des");
    reveal_strlit("rc4");
    reveal_strlit("aes");
    reveal_strlit("sha2");
    reveal_strlit("sha3");
    reveal_strlit("hmac");
    reveal_strlit("pqcrypto-kyber");
    reveal_strlit("pqcrypto-dilithium");
    reveal_strlit("ml-kem");
    reveal_strlit("ml-dsa");
    reveal_strlit("node-forge");
    reveal_strlit("jsonwebtoken");
    reveal_strlit("jose");
    reveal_strlit("node-rsa");
    reveal_strlit("elliptic");
    reveal_strlit("crypto-js");
    reveal_strlit("jsrsasign");
    reveal_strlit("bcrypt");
    reveal_strlit("bcryptjs");
    reveal_strlit("cryptography");
    reveal_strlit("paramiko");
    reveal_strlit("pycryptodome");
    reveal_strlit("pycryptodomex");
    reveal_strlit("pyopenssl");
    reveal_strlit("pyjwt");
    reveal_strlit("python-jose");
    reveal_strlit("golang.org/x/crypto");
    reveal_strlit("github.com/cloudflare/circl");
    assert forall|j: int| 0 <= j < 45 implies #[trigger] t[j].0 != "gopkg.in/square/go-jose.v2"@ by {
        assert(t[j].0.len() != "gopkg.in/square/go-jose.v2"@.len() || t[j].0 != "gopkg.in/square/go-jose.v2"@);
    }
    lemma_assoc_from(t, "gopkg.in/square/go-jose.v2"@, 45);
}

proof fn lemma_library_entry_gopkg_in_go_jose_go_jose_v3()
    ensures
        assoc(library_catalog(), "gopkg.in/go-jose/go-jose.v3"@) == Some("ECDSA-P-256"@),
{
    reveal_strlit("gopkg.in/go-jose/go-jose.v3");
    let t = library_catalog();
    assert(t[46] == ("gopkg.in/go-jose/go-jose.v3"@, "ECDSA-P-256"@));
    reveal_strlit("openssl");
    reveal_strlit("native-tls");
    reveal_strlit("ring");
    reveal_strlit("boring");
    reveal_strlit("rustls");
    reveal_strlit("rsa");
    reveal_strlit("dsa");
    reveal_strlit("ecdsa");
    reveal_strlit("ed25519-dalek");
    reveal_strlit("x25519-dalek");
    reveal_strlit("p256");
    reveal_strlit("p384");
    reveal_strlit("k256");
    reveal_strlit("sha1");
    reveal_strlit("md5");
    reveal_strlit("des");
    reveal_strlit("rc4");
    reveal_strlit("aes");
    reveal_strlit("sha2");
    reveal_strlit("sha3");
    reveal_strlit("hmac");
    reveal_strlit("pqcrypto-kyber");
    reveal_strlit("pqcrypto-dilithium");
    reveal_strlit("ml-kem");
    reveal_strlit("ml-dsa");
    reveal_strlit("node-forge");
    reveal_strlit("jsonwebtoken");
    reveal_strlit("jose");
    reveal_strlit("node-rsa");
    reveal_strlit("elliptic");
    reveal_strlit("crypto-js");
    reveal_strlit("jsrsasign");
    reveal_strlit("bcrypt");
    reveal_strlit("bcryptjs");
    reveal_strlit("cryptography");
    reveal_strlit("paramiko");
    reveal_strlit("pycryptodome");
    reveal_strlit("pycryptodomex");
    reveal_strlit("pyopenssl");
    reveal_strlit("pyjwt");
    reveal_strlit("python-jose");
    reveal_strlit("golang.org/x/crypto");
    reveal_strlit("github.com/cloudflare/circl");
    reveal_strlit("gopkg.in/square/go-jose.v2");
    assert forall|j: int| 0 <= j < 46 implies #[trigger] t[j].0 != "gopkg.in/go-jose/go-jose.v3"@ by {
        if j == 44 {
            assert(t[j].0[1] != "gopkg.in/go-jose/go-jose.v3"@[1]);
        }
        assert(t[j].0.len() != "gopkg.in/go-jose/go-jose.v3"@.len() || t[j].0 != "gopkg.in/go-jose/go-jose.v3"@);
    }
    lemma_assoc_from(t, "gopkg.in/go-jose/go-jose.v3"@, 46);
}

proof fn lemma_library_entry_github_com_golang_jwt_jwt()
    ensures
        assoc(library_catalog(), "github.com/golang-jwt/jwt"@) == Some("RSA-2048"@),
{
    reveal_strlit("github.com/golang-jwt/jwt");
    let t = library_catalog();
    assert(t[47] == ("github.com/golang-jwt/jwt"@, "RSA-2048"@));
    reveal_strlit("openssl");
    reveal_strlit("native-tls");
    reveal_strlit("ring");
    reveal_strlit("boring");
    reveal_strlit("rustls");
    reveal_strlit("rsa");
    reveal_strlit("dsa");
    reveal_strlit("ecdsa");
    reveal_strlit("ed25519-dalek");
    reveal_strlit("x25519-dalek");
    reveal_strlit("p256");
    reveal_strlit("p384");
    reveal_strlit("k256");
    reveal_strlit("sha1");
    reveal_strlit("md5");
    reveal_strlit("des");
    reveal_strlit("rc4");
    reveal_strlit("aes");
    reveal_strlit("sha2");
    reveal_strlit("sha3");
    reveal_strlit("hmac");
    reveal_strlit("pqcrypto-kyber");
    reveal_strlit("pqcrypto-dilithium");
    reveal_strlit("ml-kem");
    reveal_strlit("ml-dsa");
    reveal_strlit("node-forge");
    reveal_strlit("jsonwebtoken");
    reveal_strlit("jose");
    reveal_strlit("node-rsa");
    reveal_strlit("elliptic");
    reveal_strlit("crypto-js");
    reveal_strlit("jsrsasign");
    reveal_strlit("bcrypt");
    reveal_strlit("bcryptjs");
    reveal_strlit("cryptography");
    reveal_strlit("paramiko");
    reveal_strlit("pycryptodome");
    reveal_strlit("pycryptodomex");
    reveal_strlit("pyopenssl");
    reveal_strlit("pyjwt");
    reveal_strlit("python-jose");
    reveal_strlit("golang.org/x/crypto");
    reveal_strlit("github.com/cloudflare/circl");
    reveal_strlit("gopkg.in/square/go-jose.v2");
    reveal_strlit("gopkg.in/go-jose/go-jose.v3");
    assert forall|j: int| 0 <= j < 47 implies #[trigger] t[j].0 != "github.com/golang-jwt/jwt"@ by {
        assert(t[j].0.len() != "github.com/golang-jwt/jwt"@.len() || t[j].0 != "github.com/golang-jwt/jwt"@);
    }
    lemma_assoc_from(t, "github.com/golang-jwt/jwt"@, 47);
}

proof fn lemma_library_entry_github_com_dgrijalva_jwt_go()
    ensures
        assoc(library_catalog(), "github.com/dgrijalva/jwt-go"@) == Some("RSA-2048"@),
{
    reveal_strlit("github.com/dgrijalva/jwt-go");
    let t = library_catalog();
    assert(t[48] == ("github.com/dgrijalva/jwt-go"@, "RSA-2048"@));
    reveal_strlit("openssl");
    reveal_strlit("native-tls");
    reveal_strlit("ring");
    reveal_strlit("boring");
    reveal_strlit("rustls");
    reveal_strlit("rsa");
    reveal_strlit("dsa");
    reveal_strlit("ecdsa");
    reveal_strlit("ed25519-dalek");
    reveal_strlit("x25519-dalek");
    reveal_strlit("p256");
    reveal_strlit("p384");
    reveal_strlit("k256");
    reveal_strlit("sha1");
    reveal_strlit("md5");
    reveal_strlit("des");
    reveal_strlit("rc4");
    reveal_strlit("aes");
    reveal_strlit("sha2");
    reveal_strlit("sha3");
    reveal_strlit("hmac");
    reveal_strlit("pqcrypto-kyber");
    reveal_strlit("pqcrypto-dilithium");
    reveal_strlit("ml-kem");
    reveal_strlit("ml-dsa");
    reveal_strlit("node-forge");
    reveal_strlit("jsonwebtoken");
    reveal_strlit("jose");
    reveal_strlit("node-rsa");
    reveal_strlit("elliptic");
    reveal_strlit("crypto-js");
    reveal_strlit("jsrsasign");
    reveal_strlit("bcrypt");
    reveal_strlit("bcryptjs");
    reveal_strlit("cryptography");
    reveal_strlit("paramiko");
    reveal_strlit("pycryptodome");
    reveal_strlit("pycryptodomex");
    reveal_strlit("pyopenssl");
    reveal_strlit("pyjwt");
    reveal_strlit("python-jose");
    reveal_strlit("golang.org/x/crypto");
    reveal_strlit("github.com/cloudflare/circl");
    reveal_strlit("gopkg.in/square/go-jose.v2");
    reveal_strlit("gopkg.in/go-jose/go-jose.v3");
    reveal_strlit("github.com/golang-jwt/jwt");
    assert forall|j: int| 0 <= j < 48 implies #[trigger] t[j].0 != "github.com/dgrijalva/jwt-go"@ by {
        if j == 44 {
            assert(t[j].0[11] != "github.com/dgrijalva/jwt-go"@[11]);
        }
        if j == 46 {
            assert(t[j].0[1] != "github.com/dgrijalva/jwt-go"@[1]);
        }
        assert(t[j].0.len() != "github.com/dgrijalva/jwt-go"@.len() || t[j].0 != "github.com/dgrijalva/jwt-go"@);
    }
    lemma_assoc_from(t, "github.com/dgrijalva/jwt-go"@, 48);
}

proof fn lemma_library_entry_github_com_lestrrat_go_jwx()
    ensures
        assoc(library_catalog(), "github.com/lestrrat-go/jwx"@) == Some("ECDSA-P-256"@),
{
    reveal_strlit("github.com/lestrrat-go/jwx");
    let t = library_catalog();
    assert(t[49] == ("github.com/lestrrat-go/jwx"@, "ECDSA-P-256"@));
    reveal_strlit("openssl");
    reveal_strlit("native-tls");
    reveal_strlit("ring");
    reveal_strlit("boring");
    reveal_strlit("rustls");
    reveal_strlit("rsa");
    reveal_strlit("dsa");
    reveal_strlit("ecdsa");
    reveal_strlit("ed25519-dalek");
    reveal_strlit("x25519-dalek");
    reveal_strlit("p256");
    reveal_strlit("p384");
    reveal_strlit("k256");
    reveal_strlit("sha1");
    reveal_strlit("md5");
    reveal_strlit("des");
    reveal_strlit("rc4");
    reveal_strlit("aes");
    reveal_strlit("sha2");
    reveal_strlit("sha3");
    reveal_strlit("hmac");
    reveal_strlit("pqcrypto-kyber");
    reveal_strlit("pqcrypto-dilithium");
    reveal_strlit("ml-kem");
    reveal_strlit("ml-dsa");
    reveal_strlit("node-forge");
    reveal_strlit("jsonwebtoken");
    reveal_strlit("jose");
    reveal_strlit("node-rsa");
    reveal_strlit("elliptic");
    reveal_strlit("crypto-js");
    reveal_strlit("jsrsasign");
    reveal_strlit("bcrypt");
    reveal_strlit("bcryptjs");
    reveal_strlit("cryptography");
    reveal_strlit("paramiko");
    reveal_strlit("pycryptodome");
    reveal_strlit("pycryptodomex");
    reveal_strlit("pyopenssl");
    reveal_strlit("pyjwt");
    reveal_strlit("python-jose");
    reveal_strlit("golang.org/x/crypto");
    reveal_strlit("github.com/cloudflare/circl");
    reveal_strlit("gopkg.in/square/go-jose.v2");
    reveal_strlit("gopkg.in/go-jose/go-jose.v3");
    reveal_strlit("github.com/golang-jwt/jwt");
    reveal_strlit("github.com/dgrijalva/jwt-go");
    assert forall|j: int| 0 <= j < 49 implies #[trigger] t[j].0 != "github.com/lestrrat-go/jwx"@ by {
        if j == 45 {
            assert(t[j].0[1] != "github.com/lestrrat-go/jwx"@[1]);
        }
        assert(t[j].0.len() != "github.com/lestrrat-go/jwx"@.len() || t[j].0 != "github.com/lestrrat-go/jwx"@);
    }
    lemma_assoc_from(t, "github.com/lestrrat-go/jwx"@, 49);
}

proof fn lemma_library_entry_github_com_lestrrat_go_jwx_v2()
    ensures
        assoc(library_catalog(), "github.com/lestrrat-go/jwx/v2"@) == Some("ECDSA-P-256"@),
{
    reveal_strlit("github.com/lestrrat-go/jwx/v2");
    let t = library_catalog();
    assert(t[50] == ("github.com/lestrrat-go/jwx/v2"@, "ECDSA-P-256"@));
    reveal_strlit("openssl");
    reveal_strlit("native-tls");
    reveal_strlit("ring");
    reveal_strlit("boring");
    reveal_strlit("rustls");
    reveal_strlit("rsa");
    reveal_strlit("dsa");
    reveal_strlit("ecdsa");
    reveal_strlit("ed25519-dalek");
    reveal_strlit("x25519-dalek");
    reveal_strlit("p256");
    reveal_strlit("p384");
    reveal_strlit("k256");
    reveal_strlit("sha1");
    reveal_strlit("md5");
    reveal_strlit("des");
    reveal_strlit("rc4");
    reveal_strlit("aes");
    reveal_strlit("sha2");
    reveal_strlit("sha3");
    reveal_strlit("hmac");
    reveal_strlit("pqcrypto-kyber");
    reveal_strlit("pqcrypto-dilithium");
    reveal_strlit("ml-kem");
    reveal_strlit("ml-dsa");
    reveal_strlit("node-forge");
    reveal_strlit("jsonwebtoken");
    reveal_strlit("jose");
    reveal_strlit("node-rsa");
    reveal_strlit("elliptic");
    reveal_strlit("crypto-js");
    reveal_strlit("jsrsasign");
    reveal_strlit("bcrypt");
    reveal_strlit("bcryptjs");
    reveal_strlit("cryptography");
    reveal_strlit("paramiko");
    reveal_strlit("pycryptodome");
    reveal_strlit("pycryptodomex");
    reveal_strlit("pyopenssl");
    reveal_strlit("pyjwt");
    reveal_strlit("python-jose");
    reveal_strlit("golang.org/x/crypto");
    reveal_strlit("github.com/cloudflare/circl");
    reveal_strlit("gopkg.in/square/go-jose.v2");
    reveal_strlit("gopkg.in/go-jose/go-jose.v3");
    reveal_strlit("github.com/golang-jwt/jwt");
    reveal_strlit("github.com/dgrijalva/jwt-go");
    reveal_strlit("github.com/lestrrat-go/jwx");
    assert forall|j: int| 0 <= j < 50 implies #[trigger] t[j].0 != "github.com/lestrrat-go/jwx/v2"@ by {
        assert(t[j].0.len() != "github.com/lestrrat-go/jwx/v2"@.len() || t[j].0 != "github.com/lestrrat-go/jwx/v2"@);
    }
    lemma_assoc_from(t, "github.com/lestrrat-go/jwx/v2"@, 50);
}

proof fn lemma_library_entry_bcprov_jdk18on()
    ensures
        assoc(library_catalog(), "bcprov-jdk18on"@) == Some("RSA-2048"@),
{
    reveal_strlit("bcprov-jdk18on");
    let t = library_catalog();
    assert(t[51] == ("bcprov-jdk18on"@, "RSA-2048"@));
    reveal_strlit("openssl");
    reveal_strlit("native-tls");
    reveal_strlit("ring");
    reveal_strlit("boring");
    reveal_strlit("rustls");
    reveal_strlit("rsa");
    reveal_strlit("dsa");
    reveal_strlit("ecdsa");
    reveal_strlit("ed25519-dalek");
    reveal_strlit("x25519-dalek");
    reveal_strlit("p256");
    reveal_strlit("p384");
    reveal_strlit("k256");
    reveal_strlit("sha1");
    reveal_strlit("md5");
    reveal_strlit("des");
    reveal_strlit("rc4");
    reveal_strlit("aes");
    reveal_strlit("sha2");
    reveal_strlit("sha3");
    reveal_strlit("hmac");
    reveal_strlit("pqcrypto-kyber");
    reveal_strlit("pqcrypto-dilithium");
    reveal_strlit("ml-kem");
    reveal_strlit("ml-dsa");
    reveal_strlit("node-forge");
    reveal_strlit("jsonwebtoken");
    reveal_strlit("jose");
    reveal_strlit("node-rsa");
    reveal_strlit("elliptic");
    reveal_strlit("crypto-js");
    reveal_strlit("jsrsasign");
    reveal_strlit("bcrypt");
    reveal_strlit("bcryptjs");
    reveal_strlit("cryptography");
    reveal_strlit("paramiko");
    reveal_strlit("pycryptodome");
    reveal_strlit("pycryptodomex");
    reveal_strlit("pyopenssl");
    reveal_strlit("pyjwt");
    reveal_strlit("python-jose");
    reveal_strlit("golang.org/x/crypto");
    reveal_strlit("github.com/cloudflare/circl");
    reveal_strlit("gopkg.in/square/go-jose.v2");
    reveal_strlit("gopkg.in/go-jose/go-jose.v3");
    reveal_strlit("github.com/golang-jwt/jwt");
    reveal_strlit("github.com/dgrijalva/jwt-go");
    reveal_strlit("github.com/lestrrat-go/jwx");
    reveal_strlit("github.com/lestrrat-go/jwx/v2");
    assert forall|j: int| 0 <= j < 51 implies #[trigger] t[j].0 != "bcprov-jdk18on"@ by {
        if j == 21 {
            assert(t[j].0[0] != "bcprov-jdk18on"@[0]);
        }
        assert(t[j].0.len() != "bcprov-jdk18on"@.len() || t[j].0 != "bcprov-jdk18on"@);
    }
    lemma_assoc_from(t, "bcprov-jdk18on"@, 51);
}

proof fn lemma_library_entry_bcpkix_jdk18on()
    ensures
        assoc(library_catalog(), "bcpkix-jdk18on"@) == Some("RSA-2048"@),
{
    reveal_strlit("bcpkix-jdk18on");
    let t = library_catalog();
    assert(t[52] == ("bcpkix-jdk18on"@, "RSA-2048"@));
    reveal_strlit("openssl");
    reveal_strlit("native-tls");
    reveal_strlit("ring");
    reveal_strlit("boring");
    reveal_strlit("rustls");
    reveal_strlit("rsa");
    reveal_strlit("dsa");
    reveal_strlit("ecdsa");
    reveal_strlit("ed25519-dalek");
    reveal_strlit("x25519-dalek");
    reveal_strlit("p256");
    reveal_strlit("p384");
    reveal_strlit("k256");
    reveal_strlit("sha1");
    reveal_strlit("md5");
    reveal_strlit("des");
    reveal_strlit("rc4");
    reveal_strlit("aes");
    reveal_strlit("sha2");
    reveal_strlit("sha3");
    reveal_strlit("hmac");
    reveal_strlit("pqcrypto-kyber");
    reveal_strlit("pqcrypto-dilithium");
    reveal_strlit("ml-kem");
    reveal_strlit("ml-dsa");
    reveal_strlit("node-forge");
    reveal_strlit("jsonwebtoken");
    reveal_strlit("jose");
    reveal_strlit("node-rsa");
    reveal_strlit("elliptic");
    reveal_strlit("crypto-js");
    reveal_strlit("jsrsasign");
    reveal_strlit("bcrypt");
    reveal_strlit("bcryptjs");
    reveal_strlit("cryptography");
    reveal_strlit("paramiko");
    reveal_strlit("pycryptodome");
    reveal_strlit("pycryptodomex");
    reveal_strlit("pyopenssl");
    reveal_strlit("pyjwt");
    reveal_strlit("python-jose");
    reveal_strlit("golang.org/x/crypto");
    reveal_strlit("github.com/cloudflare/circl");
    reveal_strlit("gopkg.in/square/go-jose.v2");
    reveal_strlit("gopkg.in/go-jose/go-jose.v3");
    reveal_strlit("github.com/golang-jwt/jwt");
    reveal_strlit("github.com/dgrijalva/jwt-go");
    reveal_strlit("github.com/lestrrat-go/jwx");
    reveal_strlit("github.com/lestrrat-go/jwx/v2");
    reveal_strlit("bcprov-jdk18on");
    assert forall|j: int| 0 <= j < 52 implies #[trigger] t[j].0 != "bcpkix-jdk18on"@ by {
        if j == 21 {
            assert(t[j].0[0] != "bcpkix-jdk18on"@[0]);
        }
        if j == 51 {
            assert(t[j].0[3] != "bcpkix-jdk18on"@[3]);
        }
        assert(t[j].0.len() != "bcpkix-jdk18on"@.len() || t[j].0 != "bcpkix-jdk18on"@);
    }
    lemma_assoc_from(t, "bcpkix-jdk18on"@, 52);
}

proof fn lemma_library_entry_java_jwt()
    ensures
        assoc(library_catalog(), "java-jwt"@) == Some("RSA-2048"@),
{
    reveal_strlit("java-jwt");
    let t = library_catalog();
    assert(t[53] == ("java-jwt"@, "RSA-2048"@));
    reveal_strlit("openssl");
    reveal_strlit("native-tls");
    reveal_strlit("ring");
    reveal_strlit("boring");
    reveal_strlit("rustls");
    reveal_strlit("rsa");
    reveal_strlit("dsa");
    reveal_strlit("ecdsa");
    reveal_strlit("ed25519-dalek");
    reveal_strlit("x25519-dalek");
    reveal_strlit("p256");
    reveal_strlit("p384");
    reveal_strlit("k256");
    reveal_strlit("sha1");
    reveal_strlit("md5");
    reveal_strlit("des");
    reveal_strlit("rc4");
    reveal_strlit("aes");
    reveal_strlit("sha2");
    reveal_strlit("sha3");
    reveal_strlit("hmac");
    reveal_strlit("pqcrypto-kyber");
    reveal_strlit("pqcrypto-dilithium");
    reveal_strlit("ml-kem");
    reveal_strlit("ml-dsa");
    reveal_strlit("node-forge");
    reveal_strlit("jsonwebtoken");
    reveal_strlit("jose");
    reveal_strlit("node-rsa");
    reveal_strlit("elliptic");
    reveal_strlit("crypto-js");
    reveal_strlit("jsrsasign");
    reveal_strlit("bcrypt");
    reveal_strlit("bcryptjs");
    reveal_strlit("cryptography");
    reveal_strlit("paramiko");
    reveal_strlit("pycryptodome");
    reveal_strlit("pycryptodomex");
    reveal_strlit("pyopenssl");
    reveal_strlit("pyjwt");
    reveal_strlit("python-jose");
    reveal_strlit("golang.org/x/crypto");
    reveal_strlit("github.com/cloudflare/circl");
    reveal_strlit("gopkg.in/square/go-jose.v2");
    reveal_strlit("gopkg.in/go-jose/go-jose.v3");
    reveal_strlit("github.com/golang-jwt/jwt");
    reveal_strlit("github.com/dgrijalva/jwt-go");
    reveal_strlit("github.com/lestrrat-go/jwx");
    reveal_strlit("github.com/lestrrat-go/jwx/v2");
    reveal_strlit("bcprov-jdk18on");
    reveal_strlit("bcpkix-jdk18on");
    assert forall|j: int| 0 <= j < 53 implies #[trigger] t[j].0 != "java-jwt"@ by {
        if j == 28 {
            assert(t[j].0[0] != "java-jwt"@[0]);
        }
        if j == 29 {
            assert(t[j].0[0] != "java-jwt"@[0]);
        }
        if j == 33 {
            assert(t[j].0[0] != "java-jwt"@[0]);
        }
        if j == 35 {
            assert(t[j].0[0] != "java-jwt"@[0]);
        }
        assert(t[j].0.len() != "java-jwt"@.len() || t[j].0 != "java-jwt"@);
    }
    lemma_assoc_from(t, "java-jwt"@, 53);
}

proof fn lemma_library_entry_jjwt_api()
    ensures
        assoc(library_catalog(), "jjwt-api"@) == Some("RSA-2048"@),
{
    reveal_strlit("jjwt-api");
    let t = library_catalog();
    assert(t[54] == ("jjwt-api"@, "RSA-2048"@));
    reveal_strlit("openssl");
    reveal_strlit("native-tls");
    reveal_strlit("ring");
    reveal_strlit("boring");
    reveal_strlit("rustls");
    reveal_strlit("rsa");
    reveal_strlit("dsa");
    reveal_strlit("ecdsa");
    reveal_strlit("ed25519-dalek");
    reveal_strlit("x25519-dalek");
    reveal_strlit("p256");
    reveal_strlit("p384");
    reveal_strlit("k256");
    reveal_strlit("sha1");
    reveal_strlit("md5");
    reveal_strlit("des");
    reveal_strlit("rc4");
    reveal_strlit("aes");
    reveal_strlit("sha2");
    reveal_strlit("sha3");
    reveal_strlit("hmac");
    reveal_strlit("pqcrypto-kyber");
    reveal_strlit("pqcrypto-dilithium");
    reveal_strlit("ml-kem");
    reveal_strlit("ml-dsa");
    reveal_strlit("node-forge");
    reveal_strlit("jsonwebtoken");
    reveal_strlit("jose");
    reveal_strlit("node-rsa");
    reveal_strlit("elliptic");
    reveal_strlit("crypto-js");
    reveal_strlit("jsrsasign");
    reveal_strlit("bcrypt");
    reveal_strlit("bcryptjs");
    reveal_strlit("cryptography");
    reveal_strlit("paramiko");
    reveal_strlit("pycryptodome");
    reveal_strlit("pycryptodomex");
    reveal_strlit("pyopenssl");
    reveal_strlit("pyjwt");
    reveal_strlit("python-jose");
    reveal_strlit("golang.org/x/crypto");
    reveal_strlit("github.com/cloudflare/circl");
    reveal_strlit("gopkg.in/square/go-jose.v2");
    reveal_strlit("gopkg.in/go-jose/go-jose.v3");
    reveal_strlit("github.com/golang-jwt/jwt");
    reveal_strlit("github.com/dgrijalva/jwt-go");
    reveal_strlit("github.com/lestrrat-go/jwx");
    reveal_strlit("github.com/lestrrat-go/jwx/v2");
    reveal_strlit("bcprov-jdk18on");
    reveal_strlit("bcpkix-jdk18on");
    reveal_strlit("java-jwt");
    assert forall|j: int| 0 <= j < 54 implies #[trigger] t[j].0 != "jjwt-api"@ by {
        if j == 28 {
            assert(t[j].0[0] != "jjwt-api"@[0]);
        }
        if j == 29 {
            assert(t[j].0[0] != "jjwt-api"@[0]);
        }
        if j == 33 {
            assert(t[j].0[0] != "jjwt-api"@[0]);
        }
        if j == 35 {
            assert(t[j].0[0] != "jjwt-api"@[0]);
        }
        if j == 53 {
            assert(t[j].0[1] != "jjwt-api"@[1]);
        }
        assert(t[j].0.len() != "jjwt-api"@.len() || t[j].0 != "jjwt-api"@);
    }
    lemma_assoc_from(t, "jjwt-api"@, 54);
}

proof fn lemma_library_entry_jjwt_impl()
    ensures
        assoc(library_catalog(), "jjwt-impl"@) == Some("RSA-2048"@),
{
    reveal_strlit("jjwt-impl");
    let t = library_catalog();
    assert(t[55] == ("jjwt-impl"@, "RSA-2048"@));
    reveal_strlit("openssl");
    reveal_strlit("native-tls");
    reveal_strlit("ring");
    reveal_strlit("boring");
    reveal_strlit("rustls");
    reveal_strlit("rsa");
    reveal_strlit("dsa");
    reveal_strlit("ecdsa");
    reveal_strlit("ed25519-dalek");
    reveal_strlit("x25519-dalek");
    reveal_strlit("p256");
    reveal_strlit("p384");
    reveal_strlit("k256");
    reveal_strlit("sha1");
    reveal_strlit("md5");
    reveal_strlit("des");
    reveal_strlit("rc4");
    reveal_strlit("aes");
    reveal_strlit("sha2");
    reveal_strlit("sha3");
    reveal_strlit("hmac");
    reveal_strlit("pqcrypto-kyber");
    reveal_strlit("pqcrypto-dilithium");
    reveal_strlit("ml-kem");
    reveal_strlit("ml-dsa");
    reveal_strlit("node-forge");
    reveal_strlit("jsonwebtoken");
    reveal_strlit("jose");
    reveal_strlit("node-rsa");
    reveal_strlit("elliptic");
    reveal_strlit("crypto-js");
    reveal_strlit("jsrsasign");
    reveal_strlit("bcrypt");
    reveal_strlit("bcryptjs");
    reveal_strlit("cryptography");
    reveal_strlit("paramiko");
    reveal_strlit("pycryptodome");
    reveal_strlit("pycryptodomex");
    reveal_strlit("pyopenssl");
    reveal_strlit("pyjwt");
    reveal_strlit("python-jose");
    reveal_strlit("golang.org/x/crypto");
    reveal_strlit("github.com/cloudflare/circl");
    reveal_strlit("gopkg.in/square/go-jose.v2");
    reveal_strlit("gopkg.in/go-jose/go-jose.v3");
    reveal_strlit("github.com/golang-jwt/jwt");
    reveal_strlit("github.com/dgrijalva/jwt-go");
    reveal_strlit("github.com/lestrrat-go/jwx");
    reveal_strlit("github.com/lestrrat-go/jwx/v2");
    reveal_strlit("bcprov-jdk18on");
    reveal_strlit("bcpkix-jdk18on");
    reveal_strlit("java-jwt");
    reveal_strlit("jjwt-api");
    assert forall|j: int| 0 <= j < 55 implies #[trigger] t[j].0 != "jjwt-impl"@ by {
        if j == 30 {
            assert(t[j].0[0] != "jjwt-impl"@[0]);
        }
        if j == 31 {
            assert(t[j].0[1] != "jjwt-impl"@[1]);
        }
        if j == 38 {
            assert(t[j].0[0] != "jjwt-impl"@[0]);
        }
        assert(t[j].0.len() != "jjwt-impl"@.len() || t[j].0 != "jjwt-impl"@);
    }
    lemma_assoc_from(t, "jjwt-impl"@, 55);
}

proof fn lemma_library_entry_nimbus_jose_jwt()
    ensures
        assoc(library_catalog(), "nimbus-jose-jwt"@) == Some("ECDSA-P-256"@),
{
    reveal_strlit("nimbus-jose-jwt");
    let t = library_catalog();
    assert(t[56] == ("nimbus-jose-jwt"@, "ECDSA-P-256"@));
    reveal_strlit("openssl");
    reveal_strlit("native-tls");
    reveal_strlit("ring");
    reveal_strlit("boring");
    reveal_strlit("rustls");
    reveal_strlit("rsa");
    reveal_strlit("dsa");
    reveal_strlit("ecdsa");
    reveal_strlit("ed25519-dalek");
    reveal_strlit("x25519-dalek");
    reveal_strlit("p256");
    reveal_strlit("p384");
    reveal_strlit("k256");
    reveal_strlit("sha1");
    reveal_strlit("md5");
    reveal_strlit("des");
    reveal_strlit("rc4");
    reveal_strlit("aes");
    reveal_strlit("sha2");
    reveal_strlit("sha3");
    reveal_strlit("hmac");
    reveal_strlit("pqcrypto-kyber");
    reveal_strlit("pqcrypto-dilithium");
    reveal_strlit("ml-kem");
    reveal_strlit("ml-dsa");
    reveal_strlit("node-forge");
    reveal_strlit("jsonwebtoken");
    reveal_strlit("jose");
    reveal_strlit("node-rsa");
    reveal_strlit("elliptic");
    reveal_strlit("crypto-js");
    reveal_strlit("jsrsasign");
    reveal_strlit("bcrypt");
    reveal_strlit("bcryptjs");
    reveal_strlit("cryptography");
    reveal_strlit("paramiko");
    reveal_strlit("pycryptodome");
    reveal_strlit("pycryptodomex");
    reveal_strlit("pyopenssl");
    reveal_strlit("pyjwt");
    reveal_strlit("python-jose");
    reveal_strlit("golang.org/x/crypto");
    reveal_strlit("github.com/cloudflare/circl");
    reveal_strlit("gopkg.in/square/go-jose.v2");
    reveal_strlit("gopkg.in/go-jose/go-jose.v3");
    reveal_strlit("github.com/golang-jwt/jwt");
    reveal_strlit("github.com/dgrijalva/jwt-go");
    reveal_strlit("github.com/lestrrat-go/jwx");
    reveal_strlit("github.com/lestrrat-go/jwx/v2");
    reveal_strlit("bcprov-jdk18on");
    reveal_strlit("bcpkix-jdk18on");
    reveal_strlit("java-jwt");
    reveal_strlit("jjwt-api");
    reveal_strlit("jjwt-impl");
    assert forall|j: int| 0 <= j < 56 implies #[trigger] t[j].0 != "nimbus-jose-jwt"@ by {
        assert(t[j].0.len() != "nimbus-jose-jwt"@.len() || t[j].0 != "nimbus-jose-jwt"@);
    }
    lemma_assoc_from(t, "nimbus-jose-jwt"@, 56);
}

proof fn lemma_library_entry_spring_security_crypto()
    ensures
        assoc(library_catalog(), "spring-security-crypto"@) == Some("RSA-2048"@),
{
    reveal_strlit("spring-security-crypto");
    let t = library_catalog();
    assert(t[57] == ("spring-security-crypto"@, "RSA-2048"@));
    reveal_strlit("openssl");
    reveal_strlit("native-tls");
    reveal_strlit("ring");
    reveal_strlit("boring");
    reveal_strlit("rustls");
    reveal_strlit("rsa");
    reveal_strlit("dsa");
    reveal_strlit("ecdsa");
    reveal_strlit("ed25519-dalek");
    reveal_strlit("x25519-dalek");
    reveal_strlit("p256");
    reveal_strlit("p384");
    reveal_strlit("k256");
    reveal_strlit("sha1");
    reveal_strlit("md5");
    reveal_strlit("des");
    reveal_strlit("rc4");
    reveal_strlit("aes");
    reveal_strlit("sha2");
    reveal_strlit("sha3");
    reveal_strlit("hmac");
    reveal_strlit("pqcrypto-kyber");
    reveal_strlit("pqcrypto-dilithium");
    reveal_strlit("ml-kem");
    reveal_strlit("ml-dsa");
    reveal_strlit("node-forge");
    reveal_strlit("jsonwebtoken");
    reveal_strlit("jose");
    reveal_strlit("node-rsa");
    reveal_strlit("elliptic");
    reveal_strlit("crypto-js");
    reveal_strlit("jsrsasign");
    reveal_strlit("bcrypt");
    reveal_strlit("bcryptjs");
    reveal_strlit("cryptography");
    reveal_strlit("paramiko");
    reveal_strlit("pycryptodome");
    reveal_strlit("pycryptodomex");
    reveal_strlit("pyopenssl");
    reveal_strlit("pyjwt");
    reveal_strlit("python-jose");
    reveal_strlit("golang.org/x/crypto");
    reveal_strlit("github.com/cloudflare/circl");
    reveal_strlit("gopkg.in/square/go-jose.v2");
    reveal_strlit("gopkg.in/go-jose/go-jose.v3");
    reveal_strlit("github.com/golang-jwt/jwt");
    reveal_strlit("github.com/dgrijalva/jwt-go");
    reveal_strlit("github.com/lestrrat-go/jwx");
    reveal_strlit("github.com/lestrrat-go/jwx/v2");
    reveal_strlit("bcprov-jdk18on");
    reveal_strlit("bcpkix-jdk18on");
    reveal_strlit("java-jwt");
    reveal_strlit("jjwt-api");
    reveal_strlit("jjwt-impl");
    reveal_strlit("nimbus-jose-jwt");
    assert forall|j: int| 0 <= j < 57 implies #[trigger] t[j].0 != "spring-security-crypto"@ by {
        assert(t[j].0.len() != "spring-security-crypto"@.len() || t[j].0 != "spring-security-crypto"@);
    }
    lemma_assoc_from(t, "spring-security-crypto"@, 57);
}

proof fn lemma_library_entry_tink()
    ensures
        assoc(library_catalog(), "tink"@) == Some("AES-256"@),
{
    reveal_strlit("tink");
    let t = library_catalog();
    assert(t[58] == ("tink"@, "AES-256"@));
    reveal_strlit("openssl");
    reveal_strlit("native-tls");
    reveal_strlit("ring");
    reveal_strlit("boring");
    reveal_strlit("rustls");
    reveal_strlit("rsa");
    reveal_strlit("dsa");
    reveal_strlit("ecdsa");
    reveal_strlit("ed25519-dalek");
    reveal_strlit("x25519-dalek");
    reveal_strlit("p256");
    reveal_strlit("p384");
    reveal_strlit("k256");
    reveal_strlit("sha1");
    reveal_strlit("md5");
    reveal_strlit("des");
    reveal_strlit("rc4");
    reveal_strlit("aes");
    reveal_strlit("sha2");
    reveal_strlit("sha3");
    reveal_strlit("hmac");
    reveal_strlit("pqcrypto-kyber");
    reveal_strlit("pqcrypto-dilithium");
    reveal_strlit("ml-kem");
    reveal_strlit("ml-dsa");
    reveal_strlit("node-forge");
    reveal_strlit("jsonwebtoken");
    reveal_strlit("jose");
    reveal_strlit("node-rsa");
    reveal_strlit("elliptic");
    reveal_strlit("crypto-js");
    reveal_strlit("jsrsasign");
    reveal_strlit("bcrypt");
    reveal_strlit("bcryptjs");
    reveal_strlit("cryptography");
    reveal_strlit("paramiko");
    reveal_strlit("pycryptodome");
    reveal_strlit("pycryptodomex");
    reveal_strlit("pyopenssl");
    reveal_strlit("pyjwt");
    reveal_strlit("python-jose");
    reveal_strlit("golang.org/x/crypto");
    reveal_strlit("github.com/cloudflare/circl");
    reveal_strlit("gopkg.in/square/go-jose.v2");
    reveal_strlit("gopkg.in/go-jose/go-jose.v3");
    reveal_strlit("github.com/golang-jwt/jwt");
    reveal_strlit("github.com/dgrijalva/jwt-go");
    reveal_strlit("github.com/lestrrat-go/jwx");
    reveal_strlit("github.com/lestrrat-go/jwx/v2");
    reveal_strlit("bcprov-jdk18on");
    reveal_strlit("bcpkix-jdk18on");
    reveal_strlit("java-jwt");
    reveal_strlit("jjwt-api");
    reveal_strlit("jjwt-impl");
    reveal_strlit("nimbus-jose-jwt");
    reveal_strlit("spring-security-crypto");
    assert forall|j: int| 0 <= j < 58 implies #[trigger] t[j].0 != "tink"@ by {
        if j == 2 {
            assert(t[j].0[0] != "tink"@[0]);
        }
        if j == 10 {
            assert(t[j].0[0] != "tink"@[0]);
        }
        if j == 11 {
            assert(t[j].0[0] != "tink"@[0]);
        }
        if j == 12 {
            assert(t[j].0[0] != "tink"@[0]);
        }
        if j == 13 {
            assert(t[j].0[0] != "tink"@[0]);
        }
        if j == 18 {
            assert(t[j].0[0] != "tink"@[0]);
        }
        if j == 19 {
            assert(t[j].0[0] != "tink"@[0]);
        }
        if j == 20 {
            assert(t[j].0[0] != "tink"@[0]);
        }
        if j == 27 {
            assert(t[j].0[0] != "tink"@[0]);
        }
        assert(t[j].0.len() != "tink"@.len() || t[j].0 != "tink"@);
    }
    lemma_assoc_from(t, "tink"@, 58);
}

proof fn lemma_library_entry_conscrypt_openjdk_uber()
    ensures
        assoc(library_catalog(), "conscrypt-openjdk-uber"@) == Some("ECDSA-P-256"@),
{
    reveal_strlit("conscrypt-openjdk-uber");
    let t = library_catalog();
    assert(t[59] == ("conscrypt-openjdk-uber"@, "ECDSA-P-256"@));
    reveal_strlit("openssl");
    reveal_strlit("native-tls");
    reveal_strlit("ring");
    reveal_strlit("boring");
    reveal_strlit("rustls");
    reveal_strlit("rsa");
    reveal_strlit("dsa");
    reveal_strlit("ecdsa");
    reveal_strlit("ed25519-dalek");
    reveal_strlit("x25519-dalek");
    reveal_strlit("p256");
    reveal_strlit("p384");
    reveal_strlit("k256");
    reveal_strlit("sha1");
    reveal_strlit("md5");
    reveal_strlit("des");
    reveal_strlit("rc4");
    reveal_strlit("aes");
    reveal_strlit("sha2");
    reveal_strlit("sha3");
    reveal_strlit("hmac");
    reveal_strlit("pqcrypto-kyber");
    reveal_strlit("pqcrypto-dilithium");
    reveal_strlit("ml-kem");
    reveal_strlit("ml-dsa");
    reveal_strlit("node-forge");
    reveal_strlit("jsonwebtoken");
    reveal_strlit("jose");
    reveal_strlit("node-rsa");
    reveal_strlit("elliptic");
    reveal_strlit("crypto-js");
    reveal_strlit("jsrsasign");
    reveal_strlit("bcrypt");
    reveal_strlit("bcryptjs");
    reveal_strlit("cryptography");
    reveal_strlit("paramiko");
    reveal_strlit("pycryptodome");
    reveal_strlit("pycryptodomex");
    reveal_strlit("pyopenssl");
    reveal_strlit("pyjwt");
    reveal_strlit("python-jose");
    reveal_strlit("golang.org/x/crypto");
    reveal_strlit("github.com/cloudflare/circl");
    reveal_strlit("gopkg.in/square/go-jose.v2");
    reveal_strlit("gopkg.in/go-jose/go-jose.v3");
    reveal_strlit("github.com/golang-jwt/jwt");
    reveal_strlit("github.com/dgrijalva/jwt-go");
    reveal_strlit("github.com/lestrrat-go/jwx");
    reveal_strlit("github.com/lestrrat-go/jwx/v2");
    reveal_strlit("bcprov-jdk18on");
    reveal_strlit("bcpkix-jdk18on");
    reveal_strlit("java-jwt");
    reveal_strlit("jjwt-api");
    reveal_strlit("jjwt-impl");
    reveal_strlit("nimbus-jose-jwt");
    reveal_strlit("spring-security-crypto");
    reveal_strlit("tink");
    assert forall|j: int| 0 <= j < 59 implies #[trigger] t[j].0 != "conscrypt-openjdk-uber"@ by {
        if j == 57 {
            assert(t[j].0[0] != "conscrypt-openjdk-uber"@[0]);
        }
        assert(t[j].0.len() != "conscrypt-openjdk-uber"@.len() || t[j].0 != "conscrypt-openjdk-uber"@);
    }
    lemma_assoc_from(t, "conscrypt-openjdk-uber"@, 59);
}

proof fn lemma_library_entry_google_cloud_kms()
    ensures
        assoc(library_catalog(), "google-cloud-kms"@) == Some("RSA-2048"@),
{
    reveal_strlit("google-cloud-kms");
    let t = library_catalog();
    assert(t[60] == ("google-cloud-kms"@, "RSA-2048"@));
    reveal_strlit("openssl");
    reveal_strlit("native-tls");
    reveal_strlit("ring");
    reveal_strlit("boring");
    reveal_strlit("rustls");
    reveal_strlit("rsa");
    reveal_strlit("dsa");
    reveal_strlit("ecdsa");
    reveal_strlit("ed25519-dalek");
    reveal_strlit("x25519-dalek");
    reveal_strlit("p256");
    reveal_strlit("p384");
    reveal_strlit("k256");
    reveal_strlit("sha1");
    reveal_strlit("md5");
    reveal_strlit("des");
    reveal_strlit("rc4");
    reveal_strlit("aes");
    reveal_strlit("sha2");
    reveal_strlit("sha3");
    reveal_strlit("hmac");
    reveal_strlit("pqcrypto-kyber");
    reveal_strlit("pqcrypto-dilithium");
    reveal_strlit("ml-kem");
    reveal_strlit("ml-dsa");
    reveal_strlit("node-forge");
    reveal_strlit("jsonwebtoken");
    reveal_strlit("jose");
    reveal_strlit("node-rsa");
    reveal_strlit("elliptic");
    reveal_strlit("crypto-js");
    reveal_strlit("jsrsasign");
    reveal_strlit("bcrypt");
    reveal_strlit("bcryptjs");
    reveal_strlit("cryptography");
    reveal_strlit("paramiko");
    reveal_strlit("pycryptodome");
    reveal_strlit("pycryptodomex");
    reveal_strlit("pyopenssl");
    reveal_strlit("pyjwt");
    reveal_strlit("python-jose");
    reveal_strlit("golang.org/x/crypto");
    reveal_strlit("github.com/cloudflare/circl");
    reveal_strlit("gopkg.in/square/go-jose.v2");
    reveal_strlit("gopkg.in/go-jose/go-jose.v3");
    reveal_strlit("github.com/golang-jwt/jwt");
    reveal_strlit("github.com/dgrijalva/jwt-go");
    reveal_strlit("github.com/lestrrat-go/jwx");
    reveal_strlit("github.com/lestrrat-go/jwx/v2");
    reveal_strlit("bcprov-jdk18on");
    reveal_strlit("bcpkix-jdk18on");
    reveal_strlit("java-jwt");
    reveal_strlit("jjwt-api");
    reveal_strlit("jjwt-impl");
    reveal_strlit("nimbus-jose-jwt");
    reveal_strlit("spring-security-crypto");
    reveal_strlit("tink");
    reveal_strlit("conscrypt-openjdk-uber");
    assert forall|j: int| 0 <= j < 60 implies #[trigger] t[j].0 != "google-cloud-kms"@ by {
        assert(t[j].0.len() != "google-cloud-kms"@.len() || t[j].0 != "google-cloud-kms"@);
    }
    lemma_assoc_from(t, "google-cloud-kms"@, 60);
}

} // verus!
