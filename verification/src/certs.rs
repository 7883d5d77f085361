//! Certificates and PEM blobs: X.509 certificates become assets named after
//! their public-key algorithm and parameter, PEM blocks are sorted into
//! certificates, private keys and public keys.
use vstd::prelude::*;
use x509_parser::prelude::FromDer;
use crate::catalog::{classify, classify_by_name, oid_algorithm, oid_to_algorithm};
use crate::keys::{
    curve_of_oid, joined_name, join_name, oid_bytes_to_curve, opt_decimal, private_key_view,
    private_key_asset_from_der, public_key_view, public_key_asset_from_tag, rsa_modulus_bits,
    rsa_public_modulus_bits, round_rsa_bits,
};
use crate::model::{
    asset_view, AssetType, AssetView, CryptoAsset, Evidence, Location, LocationView, opt_view,
    plain_location,
};
use crate::paths::{extension_lower, lower_extension};
use crate::table::{contains_str, strs_view};
use crate::text::{
    bytes_at, chars_of, contains, decimal_string, has_infix, occurs_at, str_eq, to_upper, unicode_upper,
};

verus! {

// ── What the certificate parser reports ───────────────────────────────────────

/// The parts of a parsed X.509 certificate that classification reads.
pub struct CertKeyInfo {
    /// Signature algorithm OID, dotted (`1.2.840.113549.1.1.11`).
    pub sig_oid: String,
    /// SubjectPublicKeyInfo algorithm OID, dotted.
    pub spki_oid: String,
    /// The subject public key BIT STRING content.
    pub key_data: Vec<u8>,
    /// The AlgorithmIdentifier parameters: DER tag number and content bytes.
    pub params: Option<(u32, Vec<u8>)>,
}

pub struct CertKeyInfoView {
    pub sig_oid: Seq<char>,
    pub spki_oid: Seq<char>,
    pub key_data: Seq<u8>,
    pub params: Option<(u32, Seq<u8>)>,
}

impl View for CertKeyInfo {
    type V = CertKeyInfoView;

    open spec fn view(&self) -> CertKeyInfoView {
        CertKeyInfoView {
            sig_oid: self.sig_oid@,
            spki_oid: self.spki_oid@,
            key_data: self.key_data@,
            params: match self.params {
                Some((t, d)) => Some((t, d@)),
                None => None,
            },
        }
    }
}

pub open spec fn opt_info_view(o: Option<CertKeyInfo>) -> Option<CertKeyInfoView> {
    match o {
        Some(i) => Some(i@),
        None => None,
    }
}

/// What `X509Certificate::from_der` reports of a DER certificate (`None` when
/// it does not parse).
pub uninterp spec fn x509_key_info_of(der: Seq<u8>) -> Option<CertKeyInfoView>;

/// The PEM blocks `Pem::iter_from_buffer` yields for a buffer: the label and
/// decoded contents of each block, `None` for a block that does not decode.
pub uninterp spec fn pem_items_of(data: Seq<u8>) -> Seq<Option<(Seq<char>, Seq<u8>)>>;

/// Calls `x509_parser`'s `X509Certificate::from_der` and reads the signature
/// algorithm OID, the public key algorithm OID, its parameters and the public
/// key bits. The contract claims only that the result is a function of the DER
/// bytes, named [`x509_key_info_of`].
#[verifier::external_body]
fn x509_key_info(der: &[u8]) -> (r: Option<CertKeyInfo>)
    ensures
        opt_info_view(r) == x509_key_info_of(der@),
{
    let (_, cert) = x509_parser::certificate::X509Certificate::from_der(der).ok()?;
    let spki = cert.public_key();
    Some(CertKeyInfo {
        sig_oid: cert.signature_algorithm.algorithm.to_id_string(),
        spki_oid: spki.algorithm.algorithm.to_id_string(),
        key_data: spki.subject_public_key.data.to_vec(),
        params: spki.algorithm.parameters.as_ref().map(|p| (p.header.tag().0, p.data.to_vec())),
    })
}

pub open spec fn pem_item_view(o: Option<(String, Vec<u8>)>) -> Option<(Seq<char>, Seq<u8>)> {
    match o {
        Some((l, c)) => Some((l@, c@)),
        None => None,
    }
}

pub open spec fn pem_items_view(v: Seq<Option<(String, Vec<u8>)>>) -> Seq<
    Option<(Seq<char>, Seq<u8>)>,
> {
    v.map_values(|o: Option<(String, Vec<u8>)>| pem_item_view(o))
}

/// Runs `x509_parser`'s `Pem::iter_from_buffer` over the buffer and collects each
/// item: label and contents of a block, `None` where the iterator reports an
/// error. The contract claims only that the result is a function of the bytes,
/// named [`pem_items_of`].
#[verifier::external_body]
fn pem_items(data: &[u8]) -> (r: Vec<Option<(String, Vec<u8>)>>)
    ensures
        pem_items_view(r@) == pem_items_of(data@),
{
    x509_parser::pem::Pem::iter_from_buffer(data).map(|p| p.ok().map(|p| (p.label, p.contents))).collect()
}

// ── Specification ─────────────────────────────────────────────────────────────

pub open spec fn rsa_oid() -> Seq<char> {
    "1.2.840.113549.1.1.1"@
}

pub open spec fn ec_public_key_oid() -> Seq<char> {
    "1.2.840.10045.2.1"@
}

/// The key size or named curve a certificate's public key carries.
pub open spec fn cert_parameter(i: CertKeyInfoView) -> Option<Seq<char>> {
    if i.spki_oid == rsa_oid() {
        opt_decimal(rsa_public_modulus_bits(i.key_data))
    } else if i.spki_oid == ec_public_key_oid() {
        match i.params {
            Some((t, d)) => if t == 6 {
                curve_of_oid(d)
            } else {
                None
            },
            None => None,
        }
    } else if i.spki_oid == "1.3.101.112"@ {
        Some("Ed25519"@)
    } else if i.spki_oid == "1.3.101.113"@ {
        Some("Ed448"@)
    } else if i.spki_oid == "1.3.101.110"@ {
        Some("X25519"@)
    } else if i.spki_oid == "1.3.101.111"@ {
        Some("X448"@)
    } else {
        None
    }
}

/// The algorithm a certificate names: that of its public key OID, else that of
/// its signature OID, else `Unknown`.
pub open spec fn cert_base_algorithm(i: CertKeyInfoView) -> Seq<char> {
    match oid_algorithm(i.spki_oid) {
        Some(a) => a,
        None => match oid_algorithm(i.sig_oid) {
            Some(a) => a,
            None => "Unknown"@,
        },
    }
}

/// The asset a parsed certificate stands for.
pub open spec fn cert_asset_view(i: CertKeyInfoView, loc: LocationView) -> AssetView {
    let param = cert_parameter(i);
    let name = joined_name(cert_base_algorithm(i), param);
    asset_view(
        AssetType::Certificate,
        name,
        Some(i.spki_oid),
        param,
        classify(name),
        seq![loc],
        Evidence::CertificateParsing,
    )
}

/// The asset of a DER certificate, if it parses.
pub open spec fn x509_asset(der: Seq<u8>, loc: LocationView) -> Option<AssetView> {
    match x509_key_info_of(der) {
        Some(i) => Some(cert_asset_view(i, loc)),
        None => None,
    }
}

pub open spec fn opt_seq(o: Option<AssetView>) -> Seq<AssetView> {
    match o {
        Some(a) => seq![a],
        None => seq![],
    }
}

/// A PEM label (upper-cased) that names a certificate.
pub open spec fn cert_tag(t: Seq<char>) -> bool {
    has_infix(t, "CERTIFICATE"@) || has_infix(t, "X509 CERTIFICATE"@) || has_infix(
        t,
        "TRUSTED CERTIFICATE"@,
    )
}

/// A PEM label (upper-cased) that names a private key.
pub open spec fn key_tag(t: Seq<char>) -> bool {
    ||| has_infix(t, "PRIVATE KEY"@)
    ||| has_infix(t, "ENCRYPTED PRIVATE KEY"@)
    ||| has_infix(t, "RSA PRIVATE KEY"@)
    ||| has_infix(t, "EC PRIVATE KEY"@)
    ||| has_infix(t, "DSA PRIVATE KEY"@)
    ||| has_infix(t, "OPENSSH PRIVATE KEY"@)
}

/// A PEM label (upper-cased) that names a public key.
pub open spec fn pubkey_tag(t: Seq<char>) -> bool {
    has_infix(t, "PUBLIC KEY"@) || has_infix(t, "RSA PUBLIC KEY"@)
}

/// The assets one PEM item stands for. With `certs_only`, key blocks are passed over.
pub open spec fn pem_item_assets(
    item: Option<(Seq<char>, Seq<u8>)>,
    loc: LocationView,
    certs_only: bool,
) -> Seq<AssetView> {
    match item {
        None => seq![],
        Some((label, der)) => {
            let tag = unicode_upper(label);
            if cert_tag(tag) {
                opt_seq(x509_asset(der, loc))
            } else if certs_only {
                seq![]
            } else if key_tag(tag) {
                seq![private_key_view(tag, der, loc)]
            } else if pubkey_tag(tag) {
                seq![public_key_view(tag, loc)]
            } else {
                seq![]
            }
        },
    }
}

/// The assets of a sequence of PEM items, in order.
pub open spec fn pem_assets(
    items: Seq<Option<(Seq<char>, Seq<u8>)>>,
    loc: LocationView,
    certs_only: bool,
) -> Seq<AssetView>
    decreases items.len(),
{
    if items.len() == 0 {
        seq![]
    } else {
        pem_assets(items.drop_last(), loc, certs_only) + pem_item_assets(
            items.last(),
            loc,
            certs_only,
        )
    }
}

/// `-----BEGIN` as bytes.
pub open spec fn pem_begin() -> Seq<u8> {
    seq![45u8, 45, 45, 45, 45, 66, 69, 71, 73, 78]
}

/// The assets found in raw certificate bytes (PEM or DER) received from `source`.
pub open spec fn bytes_assets(bytes: Seq<u8>, source: Seq<char>, hint: Seq<char>) -> Seq<AssetView> {
    let loc = plain_location(source);
    if occurs_at(bytes, pem_begin(), 0) {
        pem_assets(pem_items_of(bytes), loc, true)
    } else if hint == "certificate"@ || hint.len() == 0 {
        opt_seq(x509_asset(bytes, loc))
    } else {
        seq![]
    }
}

// ── Certificates ──────────────────────────────────────────────────────────────

/// The key size or named curve of a parsed certificate's public key.
pub fn extract_key_parameter(info: &CertKeyInfo) -> (r: Option<String>)
    ensures
        opt_view(r) == cert_parameter(info@),
{
    let oid = info.spki_oid.as_str();
    if str_eq(oid, "1.2.840.113549.1.1.1") {
        match rsa_modulus_bits(info.key_data.as_slice()) {
            Some(bits) => {
                proof {
                    crate::keys::lemma_rsa_public_bits_bound(info.key_data@);
                }
                Some(decimal_string(round_rsa_bits(bits)))
            },
            None => None,
        }
    } else if str_eq(oid, "1.2.840.10045.2.1") {
        match &info.params {
            Some((t, d)) => if *t == 6 {
                oid_bytes_to_curve(d.as_slice())
            } else {
                None
            },
            None => None,
        }
    } else if str_eq(oid, "1.3.101.112") {
        Some("Ed25519".to_owned())
    } else if str_eq(oid, "1.3.101.113") {
        Some("Ed448".to_owned())
    } else if str_eq(oid, "1.3.101.110") {
        Some("X25519".to_owned())
    } else if str_eq(oid, "1.3.101.111") {
        Some("X448".to_owned())
    } else {
        None
    }
}

/// The asset a parsed certificate stands for.
pub fn cert_asset_from_info(info: &CertKeyInfo, location: Location) -> (r: CryptoAsset)
    ensures
        r@ == cert_asset_view(info@, location@),
{
    let base: &str = match oid_to_algorithm(info.spki_oid.as_str()) {
        Some(a) => a,
        None => match oid_to_algorithm(info.sig_oid.as_str()) {
            Some(a) => a,
            None => "Unknown",
        },
    };
    let param = extract_key_parameter(info);
    let name = join_name(base, &param);
    let class = classify_by_name(name.as_str());
    CryptoAsset::single(
        AssetType::Certificate,
        name,
        Some(info.spki_oid.clone()),
        param,
        class,
        location,
        Evidence::CertificateParsing,
    )
}

/// The asset of a DER-encoded X.509 certificate, or `None` when it does not parse.
pub fn parse_x509_der(der: &[u8], location: Location) -> (r: Option<CryptoAsset>)
    ensures
        match r {
            Some(a) => x509_asset(der@, location@) == Some(a@),
            None => x509_asset(der@, location@) is None,
        },
{
    match x509_key_info(der) {
        Some(info) => Some(cert_asset_from_info(&info, location)),
        None => None,
    }
}

// ── PEM ───────────────────────────────────────────────────────────────────────

fn has_lit(s: &[char], lit: &str) -> (b: bool)
    ensures
        b == has_infix(s@, lit@),
{
    contains(s, &chars_of(lit))
}

fn is_cert_tag(t: &[char]) -> (b: bool)
    ensures
        b == cert_tag(t@),
{
    has_lit(t, "CERTIFICATE") || has_lit(t, "X509 CERTIFICATE") || has_lit(t, "TRUSTED CERTIFICATE")
}

fn is_key_tag(t: &[char]) -> (b: bool)
    ensures
        b == key_tag(t@),
{
    has_lit(t, "PRIVATE KEY") || has_lit(t, "ENCRYPTED PRIVATE KEY") || has_lit(t, "RSA PRIVATE KEY")
        || has_lit(t, "EC PRIVATE KEY") || has_lit(t, "DSA PRIVATE KEY") || has_lit(
        t,
        "OPENSSH PRIVATE KEY",
    )
}

fn is_pubkey_tag(t: &[char]) -> (b: bool)
    ensures
        b == pubkey_tag(t@),
{
    has_lit(t, "PUBLIC KEY") || has_lit(t, "RSA PUBLIC KEY")
}

/// The assets of one PEM item found at `source`.
fn item_assets(item: &Option<(String, Vec<u8>)>, source: &str, certs_only: bool) -> (r: Vec<
    CryptoAsset,
>)
    ensures
        r.deep_view() == pem_item_assets(pem_item_view(*item), plain_location(source@), certs_only),
{
    let mut out: Vec<CryptoAsset> = Vec::new();
    match item {
        None => {},
        Some((label, der)) => {
            let tag_chars = to_upper(&chars_of(label.as_str()));
            if is_cert_tag(&tag_chars) {
                if let Some(a) = parse_x509_der(der.as_slice(), Location::at_source(source)) {
                    out.push(a);
                }
            } else if certs_only {
            } else if is_key_tag(&tag_chars) {
                let tag = crate::text::string_of(&tag_chars);
                out.push(private_key_asset_from_der(tag.as_str(), der.as_slice(), Location::at_source(source)));
            } else if is_pubkey_tag(&tag_chars) {
                let tag = crate::text::string_of(&tag_chars);
                out.push(public_key_asset_from_tag(tag.as_str(), Location::at_source(source)));
            }
        },
    }
    proof {
        assert(out.deep_view() =~= pem_item_assets(pem_item_view(*item), plain_location(source@), certs_only));
    }
    out
}

/// The assets of a sequence of PEM items (as `Pem::iter_from_buffer` yields
/// them) found at `source`: certificates always; private and public keys unless
/// `certs_only`; undecodable blocks and other labels are passed over.
pub fn assets_from_pem_items(
    items: &Vec<Option<(String, Vec<u8>)>>,
    source: &str,
    certs_only: bool,
) -> (r: Vec<CryptoAsset>)
    ensures
        r.deep_view() == pem_assets(pem_items_view(items@), plain_location(source@), certs_only),
{
    let ghost iv = pem_items_view(items@);
    let ghost loc = plain_location(source@);
    let mut out: Vec<CryptoAsset> = Vec::new();
    let mut i: usize = 0;
    while i < items.len()
        invariant
            i <= items.len(),
            iv == pem_items_view(items@),
            loc == plain_location(source@),
            out.deep_view() == pem_assets(iv.take(i as int), loc, certs_only),
        decreases items.len() - i,
    {
        let mut more = item_assets(&items[i], source, certs_only);
        proof {
            assert(iv.take(i + 1).drop_last() =~= iv.take(i as int));
            assert(iv.take(i + 1).last() == pem_item_view(items@[i as int]));
        }
        let ghost before = out.deep_view();
        let ghost added = more.deep_view();
        out.append(&mut more);
        proof {
            assert(out.deep_view() =~= before + added);
        }
        i = i + 1;
    }
    proof {
        assert(iv.take(items.len() as int) =~= iv);
    }
    out
}

/// The assets in a PEM buffer found at `source`: certificates, and private and
/// public keys unless `certs_only`.
pub fn parse_pem_bytes(data: &[u8], source: &str, certs_only: bool) -> (r: Vec<CryptoAsset>)
    ensures
        r.deep_view() == pem_assets(pem_items_of(data@), plain_location(source@), certs_only),
{
    let items = pem_items(data);
    assets_from_pem_items(&items, source, certs_only)
}

/// Detects crypto assets in raw bytes (a DER certificate or a PEM blob), with
/// `source` as the location label (e.g. a TLS endpoint). Bytes that start with
/// `-----BEGIN` are read as PEM and only their certificates are kept; other
/// bytes are read as one DER certificate when `hint` is `certificate` or empty.
pub fn detect_in_bytes_pem_der(bytes: &[u8], source: &str, hint: &str) -> (r: Vec<CryptoAsset>)
    ensures
        r.deep_view() == bytes_assets(bytes@, source@, hint@),
{
    let begin: [u8; 10] = [45, 45, 45, 45, 45, 66, 69, 71, 73, 78];
    assert(begin@ =~= pem_begin());
    if bytes_at(bytes, &begin, 0) {
        return parse_pem_bytes(bytes, source, true);
    }
    let mut out: Vec<CryptoAsset> = Vec::new();
    if str_eq(hint, "certificate") || chars_of(hint).len() == 0 {
        if let Some(a) = parse_x509_der(bytes, Location::at_source(source)) {
            out.push(a);
        }
    }
    proof {
        assert(out.deep_view() =~= bytes_assets(bytes@, source@, hint@));
    }
    out
}

// ── Certificate and key files ─────────────────────────────────────────────────

/// `-----BEGIN ` as bytes.
pub open spec fn pem_header_bytes() -> Seq<u8> {
    seq![45u8, 45, 45, 45, 45, 66, 69, 71, 73, 78, 32]
}

/// The data starts with a PEM header.
pub open spec fn pem_header(d: Seq<u8>) -> bool {
    occurs_at(d, pem_header_bytes(), 0)
}

/// Extensions of PEM files.
pub open spec fn pem_extensions() -> Seq<Seq<char>> {
    seq!["pem"@, "crt"@, "cer"@, "key"@, "pub"@, "p7b"@, "p7c"@]
}

/// The assets of a certificate or key file: PEM by extension (every kind of
/// block), DER by the `.der` extension (one certificate), and PEM by its
/// header for other files.
pub open spec fn cert_file_assets(path: Seq<char>, bytes: Seq<u8>) -> Seq<AssetView> {
    let ext = lower_extension(path);
    let loc = plain_location(path);
    if pem_extensions().contains(ext) {
        pem_assets(pem_items_of(bytes), loc, false)
    } else if ext == "der"@ {
        opt_seq(x509_asset(bytes, loc))
    } else if pem_header(bytes) {
        pem_assets(pem_items_of(bytes), loc, false)
    } else {
        seq![]
    }
}

/// Whether the data starts with a PEM header (`-----BEGIN `).
pub fn looks_like_pem_pub(bytes: &[u8]) -> (b: bool)
    ensures
        b == pem_header(bytes@),
{
    let header: [u8; 11] = [45, 45, 45, 45, 45, 66, 69, 71, 73, 78, 32];
    assert(header@ =~= pem_header_bytes());
    bytes_at(bytes, &header, 0)
}

fn pem_extension_list() -> (t: Vec<&'static str>)
    ensures
        strs_view(t@) == pem_extensions(),
{
    let t: Vec<&'static str> = vec!["pem", "crt", "cer", "key", "pub", "p7b", "p7c"];
    assert(strs_view(t@) =~= pem_extensions());
    t
}

/// The assets of a certificate or key file (path and contents).
pub fn detect_in_file(path: &str, bytes: &[u8]) -> (r: Vec<CryptoAsset>)
    ensures
        r.deep_view() == cert_file_assets(path@, bytes@),
{
    let ext = extension_lower(path);
    if contains_str(&pem_extension_list(), &ext) {
        return parse_pem_bytes(bytes, path, false);
    }
    let mut out: Vec<CryptoAsset> = Vec::new();
    if crate::text::chars_eq(&ext, &chars_of("der")) {
        if let Some(a) = parse_x509_der(bytes, Location::at_source(path)) {
            out.push(a);
        }
        assert(out.deep_view() =~= cert_file_assets(path@, bytes@));
        return out;
    }
    if looks_like_pem_pub(bytes) {
        return parse_pem_bytes(bytes, path, false);
    }
    assert(out.deep_view() =~= Seq::<AssetView>::empty());
    out
}

} // verus!
