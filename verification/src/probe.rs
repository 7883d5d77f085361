//! TLS endpoint probing: the targets, what a handshake yields as assets, and
//! the decisions of the PQC hybrid probe that runs `openssl s_client`.
use vstd::prelude::*;
use crate::catalog::{catalog_lookup, lookup_by_name};
use crate::certs::{bytes_assets, detect_in_bytes_pem_der};
use crate::model::{
    asset_view, plain_location, AssetType, AssetView, Classification, CryptoAsset, Evidence,
    Location, Primitive, QuantumSafety, Risk,
};
use crate::paths::{find_last, last_index};
use crate::patterns::{lossy_text, utf8_lossy_of};
use crate::text::{
    chars_of, contains, decimal, find_char, first_index, decimal_string, has_infix, has_prefix, lines, unicode_lower, split_char,
    split_lines, split_on, split_words, string_of, to_lower, trim, trimmed, u32_of_text,
    parse_u32_text, words,
};

verus! {

// ── Targets ───────────────────────────────────────────────────────────────────

/// The value of a decimal `u16` text, as `str::parse::<u16>` reads it.
pub open spec fn u16_of_text(t: Seq<char>) -> Option<u16> {
    match u32_of_text(t) {
        Some(v) => if v <= 65535 {
            Some(v as u16)
        } else {
            None
        },
        None => None,
    }
}

/// A text wrapped in square brackets, as an IPv6 literal is in a target.
pub open spec fn is_bracketed(h: Seq<char>) -> bool {
    h.len() >= 2 && h[0] == '[' && h.last() == ']'
}

/// The host inside square brackets, or the text itself when it has none.
pub open spec fn unbracket(h: Seq<char>) -> Seq<char> {
    if is_bracketed(h) {
        h.subrange(1, h.len() - 1)
    } else {
        h
    }
}

/// Host and port of a `host:port` text: split at the last `:`, the port read
/// as a `u16`; the whole text and port 443 when there is no `:`; `None` when
/// the port does not read. A bracketed IPv6 host (`[::1]:443`, or `[::1]`
/// alone for port 443) is given without its brackets.
pub open spec fn target_parts(t: Seq<char>) -> Option<(Seq<char>, u16)> {
    if is_bracketed(t) {
        Some((unbracket(t), 443))
    } else {
        match last_index(t, ':') {
            Some(k) => match u16_of_text(t.skip(k + 1)) {
                Some(p) => Some((unbracket(t.take(k)), p)),
                None => None,
            },
            None => Some((t, 443)),
        }
    }
}

/// A target whose port is not a number from 0 to 65535.
pub struct InvalidPort {
    pub target: String,
}

fn parse_u16_text(t: &str) -> (r: Option<u16>)
    ensures
        r == u16_of_text(t@),
{
    match parse_u32_text(t) {
        Some(v) => if v <= 65535 {
            Some(v as u16)
        } else {
            None
        },
        None => None,
    }
}

fn bracketed_exec(c: &[char]) -> (b: bool)
    ensures
        b == is_bracketed(c@),
{
    c.len() >= 2 && c[0] == '[' && c[c.len() - 1] == ']'
}

/// The host of `c` without the brackets of an IPv6 literal.
fn unbracketed(c: &[char]) -> (r: String)
    ensures
        r@ == unbracket(c@),
{
    if bracketed_exec(c) {
        let r = string_of(&c[1..c.len() - 1]);
        assert(r@ =~= c@.subrange(1, c@.len() - 1));
        r
    } else {
        string_of(c)
    }
}

/// Parse a `host:port` string. Port defaults to 443 if omitted; an IPv6
/// host is written in brackets (`[::1]:443`) and given without them.
pub fn parse_target(target: &str) -> (r: Result<(String, u16), InvalidPort>)
    ensures
        match r {
            Ok((h, p)) => target_parts(target@) == Some((h@, p)),
            Err(e) => target_parts(target@) is None && e.target@ == target@,
        },
{
    let c = chars_of(target);
    if bracketed_exec(c.as_slice()) {
        return Ok((unbracketed(c.as_slice()), 443));
    }
    match find_last(&c, ':') {
        Some(k) => {
            let port_text = string_of(&c.as_slice()[k + 1..c.len()]);
            assert(port_text@ =~= target@.skip(k + 1));
            match parse_u16_text(port_text.as_str()) {
                Some(p) => {
                    let head = &c.as_slice()[0..k];
                    assert(head@ =~= target@.take(k as int));
                    let host = unbracketed(head);
                    Ok((host, p))
                },
                None => Err(InvalidPort { target: target.to_owned() }),
            }
        },
        None => Ok((target.to_owned(), 443)),
    }
}

/// Host and port of a target, falling back to the whole text and port 443
/// when its port does not read.
pub open spec fn resolved_target(t: Seq<char>) -> (Seq<char>, u16) {
    match target_parts(t) {
        Some(hp) => hp,
        None => (t, 443),
    }
}

pub fn resolve_target(target: &str) -> (r: (String, u16))
    ensures
        (r.0@, r.1) == resolved_target(target@),
{
    match parse_target(target) {
        Ok(hp) => hp,
        Err(_) => (target.to_owned(), 443),
    }
}

/// A host as it stands before `:port`: an IPv6 address (one holding a `:`)
/// in square brackets, any other host as it is.
pub open spec fn host_text(host: Seq<char>) -> Seq<char> {
    if first_index(host, ':') is Some {
        "["@ + host + "]"@
    } else {
        host
    }
}

/// `host:port`, with an IPv6 host in brackets.
pub open spec fn endpoint_text(host: Seq<char>, port: u16) -> Seq<char> {
    host_text(host) + ":"@ + decimal(port as nat)
}

pub fn endpoint(host: &str, port: u16) -> (r: String)
    ensures
        r@ == endpoint_text(host@, port),
{
    let c = chars_of(host);
    let mut r = String::new();
    if find_char(c.as_slice(), ':').is_some() {
        r.append("[");
        r.append(host);
        r.append("]");
    } else {
        r.append(host);
    }
    r.append(":");
    r.append(decimal_string(port as u64).as_str());
    r
}

/// A line of a hosts file that names a target: not blank and not a `#` comment.
pub open spec fn target_line(l: Seq<char>) -> bool {
    trim(l).len() > 0 && trim(l)[0] != '#'
}

/// The targets that the lines of a hosts file name, trimmed, in order.
pub open spec fn host_file_targets(ls: Seq<Seq<char>>) -> Seq<Seq<char>>
    decreases ls.len(),
{
    if ls.len() == 0 {
        Seq::empty()
    } else {
        let rest = host_file_targets(ls.drop_last());
        if target_line(ls.last()) {
            rest.push(trim(ls.last()))
        } else {
            rest
        }
    }
}

/// The targets of a `tls` run: the one on the command line, then those of the
/// hosts file.
pub open spec fn all_targets(target: Option<Seq<char>>, hosts: Option<Seq<char>>) -> Seq<
    Seq<char>,
> {
    (match target {
        Some(t) => seq![t],
        None => Seq::empty(),
    }) + match hosts {
        Some(h) => host_file_targets(lines(h)),
        None => Seq::empty(),
    }
}

pub fn collect_targets(target: &Option<String>, hosts_text: &Option<String>) -> (r: Vec<String>)
    ensures
        r.deep_view() == all_targets(crate::model::opt_view(*target), crate::model::opt_view(*hosts_text)),
{
    let mut out: Vec<String> = Vec::new();
    if let Some(t) = target {
        out.push(t.clone());
    }
    let ghost first = out.deep_view();
    assert(first =~= match crate::model::opt_view(*target) {
        Some(t) => seq![t],
        None => Seq::<Seq<char>>::empty(),
    });
    if let Some(h) = hosts_text {
        let ls = split_lines(&chars_of(h.as_str()));
        let ghost lv = ls.deep_view();
        let mut i: usize = 0;
        assert(lv.take(0) =~= Seq::<Seq<char>>::empty());
        assert(first + host_file_targets(lv.take(0)) =~= first);
        while i < ls.len()
            invariant
                i <= ls.len(),
                lv == ls.deep_view(),
                out.deep_view() == first + host_file_targets(lv.take(i as int)),
            decreases ls.len() - i,
        {
            assert(lv.take(i + 1).drop_last() =~= lv.take(i as int));
            assert(lv.take(i + 1).last() == ls@[i as int]@);
            let t = trimmed(ls[i].as_slice());
            if t.len() > 0 && t[0] != '#' {
                let ghost before = out.deep_view();
                out.push(string_of(&t));
                assert(out.deep_view() =~= before.push(t@));
            }
            i = i + 1;
        }
        assert(lv.take(ls.len() as int) =~= lv);
    } else {
        assert(out.deep_view() =~= first + Seq::<Seq<char>>::empty());
    }
    out
}

// ── Handshake results ─────────────────────────────────────────────────────────

/// Summary of a completed (or failed) TLS handshake.
pub struct TlsHandshakeResult {
    pub host: String,
    pub port: u16,
    pub tls_version: String,
    pub cipher_suite: String,
    /// DER-encoded peer certificates (leaf first).
    pub peer_certs: Vec<Vec<u8>>,
    /// True if PQC hybrid key exchange was detected.
    pub pqc_hybrid: bool,
    pub error: Option<String>,
}

impl TlsHandshakeResult {
    /// A probe that failed with the given error.
    pub fn failed(host: String, port: u16, err: String) -> (r: Self)
        ensures
            r.host@ == host@,
            r.port == port,
            r.tls_version@ == Seq::<char>::empty(),
            r.cipher_suite@ == Seq::<char>::empty(),
            r.peer_certs@.len() == 0,
            !r.pqc_hybrid,
            crate::model::opt_view(r.error) == Some(err@),
    {
        TlsHandshakeResult {
            host,
            port,
            tls_version: String::new(),
            cipher_suite: String::new(),
            peer_certs: Vec::new(),
            pqc_hybrid: false,
            error: Some(err),
        }
    }
}

/// The assets of the peer certificates, each parsed as a certificate found at
/// `host:port`, in chain order.
pub open spec fn chain_assets(certs: Seq<Seq<u8>>, source: Seq<char>) -> Seq<AssetView>
    decreases certs.len(),
{
    if certs.len() == 0 {
        Seq::empty()
    } else {
        chain_assets(certs.drop_last(), source) + bytes_assets(certs.last(), source, "certificate"@)
    }
}

/// The assets of the peer certificates of a handshake with `host:port`.
pub fn extract_assets_from_result(result: &TlsHandshakeResult, host: &str, port: u16) -> (r: Vec<
    CryptoAsset,
>)
    ensures
        r.deep_view() == chain_assets(result.peer_certs.deep_view(), endpoint_text(host@, port)),
{
    let source = endpoint(host, port);
    let ghost certs = result.peer_certs.deep_view();
    let mut out: Vec<CryptoAsset> = Vec::new();
    let mut i: usize = 0;
    while i < result.peer_certs.len()
        invariant
            i <= result.peer_certs.len(),
            certs == result.peer_certs.deep_view(),
            source@ == endpoint_text(host@, port),
            out.deep_view() == chain_assets(certs.take(i as int), source@),
        decreases result.peer_certs.len() - i,
    {
        let found = detect_in_bytes_pem_der(result.peer_certs[i].as_slice(), source.as_str(), "certificate");
        assert(certs.take(i + 1).drop_last() =~= certs.take(i as int));
        assert(certs.take(i + 1).last() == result.peer_certs@[i as int]@);
        let ghost before = out.deep_view();
        let mut j: usize = 0;
        while j < found.len()
            invariant
                j <= found.len(),
                out.deep_view() == before + found.deep_view().take(j as int),
            decreases found.len() - j,
        {
            let ghost o = out.deep_view();
            out.push(found[j].duplicate());
            assert(out.deep_view() =~= o.push(found@[j as int]@));
            assert(found.deep_view().take(j + 1) =~= found.deep_view().take(j as int).push(
                found@[j as int]@,
            ));
            j = j + 1;
        }
        assert(found.deep_view().take(found.len() as int) =~= found.deep_view());
        i = i + 1;
    }
    assert(certs.take(result.peer_certs.len() as int) =~= certs);
    out
}

/// The hybrid key-exchange group that a PQC-hybrid handshake reports.
pub open spec fn hybrid_group() -> Seq<char> {
    "X25519MLKEM768"@
}

/// The synthetic asset of a PQC hybrid handshake with `host:port`: its NIST
/// level is the catalog's for the group, 5 when the catalog lacks it.
pub open spec fn hybrid_asset_view(source: Seq<char>) -> AssetView {
    asset_view(
        AssetType::Protocol,
        hybrid_group(),
        None,
        None,
        Classification {
            quantum_safe: QuantumSafety::HybridSafe,
            hndl_risk: Risk::Low,
            nist_level: match catalog_lookup(hybrid_group()) {
                Some(c) => c.nist_level,
                None => 5,
            },
            primitive: Primitive::KeyAgreement,
        },
        seq![plain_location(source)],
        Evidence::TlsHandshake,
    )
}

/// The synthetic asset of a handshake that negotiated a PQC hybrid group;
/// `None` for any other handshake.
pub fn pqc_hybrid_asset(result: &TlsHandshakeResult) -> (r: Option<CryptoAsset>)
    ensures
        match r {
            Some(a) => result.pqc_hybrid && a@ == hybrid_asset_view(
                endpoint_text(result.host@, result.port),
            ),
            None => !result.pqc_hybrid,
        },
{
    if !result.pqc_hybrid {
        return None;
    }
    let group = "X25519MLKEM768";
    let source = endpoint(result.host.as_str(), result.port);
    let nist: u8 = match lookup_by_name(group) {
        Some(info) => info.nist_quantum_security,
        None => 5,
    };
    let class = Classification {
        quantum_safe: QuantumSafety::HybridSafe,
        hndl_risk: Risk::Low,
        nist_level: nist,
        primitive: Primitive::KeyAgreement,
    };
    Some(
        CryptoAsset::single(
            AssetType::Protocol,
            group.to_owned(),
            None,
            None,
            class,
            Location { source, line: None, column: None },
            Evidence::TlsHandshake,
        ),
    )
}

/// The warning line of a failed probe.
pub open spec fn probe_error_line(host: Seq<char>, port: u16, err: Seq<char>) -> Seq<char> {
    endpoint_text(host, port) + " — "@ + err
}

/// What one finished probe adds to the run: its warning if it failed;
/// otherwise the synthetic hybrid asset, if any, after its certificate assets.
pub open spec fn probe_adds(
    host: Seq<char>,
    port: u16,
    pqc_hybrid: bool,
    error: Option<Seq<char>>,
    assets: Seq<AssetView>,
) -> (Seq<AssetView>, Seq<Seq<char>>) {
    match error {
        Some(e) => (Seq::empty(), seq![probe_error_line(host, port, e)]),
        None => (
            if pqc_hybrid {
                assets.push(hybrid_asset_view(endpoint_text(host, port)))
            } else {
                assets
            },
            Seq::empty(),
        ),
    }
}

/// Adds the outcome of one probe to the assets and warnings of the run.
pub fn absorb_probe(
    result: &TlsHandshakeResult,
    assets: &Vec<CryptoAsset>,
    all: &mut Vec<CryptoAsset>,
    errors: &mut Vec<String>,
)
    ensures
        final(all).deep_view() == old(all).deep_view() + probe_adds(
            result.host@,
            result.port,
            result.pqc_hybrid,
            crate::model::opt_view(result.error),
            assets.deep_view(),
        ).0,
        final(errors).deep_view() == old(errors).deep_view() + probe_adds(
            result.host@,
            result.port,
            result.pqc_hybrid,
            crate::model::opt_view(result.error),
            assets.deep_view(),
        ).1,
{
    let ghost a0 = all.deep_view();
    let ghost e0 = errors.deep_view();
    match &result.error {
        Some(err) => {
            let mut line = endpoint(result.host.as_str(), result.port);
            line.append(" — ");
            line.append(err.as_str());
            errors.push(line);
            assert(errors.deep_view() =~= e0 + seq![line@]);
            assert(all.deep_view() =~= a0 + Seq::<AssetView>::empty());
        },
        None => {
            let ghost av = assets.deep_view();
            let mut i: usize = 0;
            assert(av.take(0) =~= Seq::<AssetView>::empty());
            assert(a0 + av.take(0) =~= a0);
            while i < assets.len()
                invariant
                    i <= assets.len(),
                    av == assets.deep_view(),
                    all.deep_view() == a0 + av.take(i as int),
                decreases assets.len() - i,
            {
                let ghost o = all.deep_view();
                all.push(assets[i].duplicate());
                assert(all.deep_view() =~= o.push(av[i as int]));
                assert(av.take(i + 1) =~= av.take(i as int).push(av[i as int]));
                i = i + 1;
            }
            assert(av.take(assets.len() as int) =~= av);
            if let Some(h) = pqc_hybrid_asset(result) {
                let ghost o = all.deep_view();
                all.push(h);
                assert(all.deep_view() =~= o.push(h@));
            }
            assert(errors.deep_view() =~= e0 + Seq::<Seq<char>>::empty());
        },
    }
}

// ── PQC hybrid probe ──────────────────────────────────────────────────────────

/// Whether `char::is_alphanumeric` holds of a character (Unicode alphabetic or
/// numeric).
pub uninterp spec fn unicode_alphanumeric(c: char) -> bool;

/// `char::is_alphanumeric`. The contract names the result and states what the
/// documentation gives for ASCII: letters and digits, and nothing else.
#[verifier::external_body]
fn is_alphanumeric(c: char) -> (b: bool)
    ensures
        b == unicode_alphanumeric(c),
        (c as u32) < 128 ==> (b <==> ascii_alphanumeric(c)),
{
    c.is_alphanumeric()
}

/// An ASCII letter or digit.
pub open spec fn ascii_alphanumeric(c: char) -> bool {
    ('a' <= c && c <= 'z') || ('A' <= c && c <= 'Z') || ('0' <= c && c <= '9')
}

/// A character that may stand in a host name handed to `openssl`: of ASCII
/// characters only letters, digits, `.` and `-` (no space, quote, `$`, `(`,
/// `;`, `|` or other shell character); of the others, what Unicode counts as
/// alphanumeric.
pub open spec fn host_char_ok(c: char) -> bool {
    if (c as u32) < 128 {
        ascii_alphanumeric(c) || c == '.' || c == '-'
    } else {
        unicode_alphanumeric(c)
    }
}

/// Whether the host name holds only alphanumeric characters, `.` and `-`, so
/// that it cannot escape the argument list of `openssl s_client`.
pub fn valid_probe_host(host: &str) -> (b: bool)
    ensures
        b == forall|i: int| 0 <= i < host@.len() ==> host_char_ok(#[trigger] host@[i]),
{
    let c = chars_of(host);
    let mut i: usize = 0;
    while i < c.len()
        invariant
            i <= c.len(),
            c@ == host@,
            forall|k: int| 0 <= k < i ==> host_char_ok(#[trigger] c@[k]),
        decreases c.len() - i,
    {
        let ch = c[i];
        if !(is_alphanumeric(ch) || ch == '.' || ch == '-') {
            assert(!host_char_ok(host@[i as int]));
            return false;
        }
        i = i + 1;
    }
    true
}

/// The `-groups` argument of the probe: the hybrid groups first.
pub const S_CLIENT_GROUPS: &'static str = "X25519MLKEM768:P256MLKEM768:X25519:P-256:P-384";

/// Result of the PQC hybrid detection probe.
pub struct PqcProbeResult {
    /// Whether any PQC hybrid group was detected in the handshake.
    pub hybrid_detected: bool,
    /// The negotiated KEM group name if detectable (e.g. "X25519MLKEM768").
    pub group_name: Option<String>,
    /// Raw openssl version string for diagnostics.
    pub openssl_version: Option<String>,
    /// Non-fatal notes about why detection was skipped.
    pub note: Option<String>,
}

pub struct PqcView {
    pub hybrid_detected: bool,
    pub group_name: Option<Seq<char>>,
    pub openssl_version: Option<Seq<char>>,
    pub note: Option<Seq<char>>,
}

impl View for PqcProbeResult {
    type V = PqcView;

    open spec fn view(&self) -> PqcView {
        PqcView {
            hybrid_detected: self.hybrid_detected,
            group_name: crate::model::opt_view(self.group_name),
            openssl_version: crate::model::opt_view(self.openssl_version),
            note: crate::model::opt_view(self.note),
        }
    }
}

/// The result of a probe that failed for the given reason.
pub open spec fn failed_probe(reason: Seq<char>) -> PqcView {
    PqcView {
        hybrid_detected: false,
        group_name: None,
        openssl_version: None,
        note: Some("PQC probe failed: "@ + reason),
    }
}

pub fn pqc_failure(reason: &str) -> (r: PqcProbeResult)
    ensures
        r@ == failed_probe(reason@),
{
    let mut note = "PQC probe failed: ".to_owned();
    note.append(reason);
    PqcProbeResult { hybrid_detected: false, group_name: None, openssl_version: None, note: Some(note) }
}

/// The reason given for a host name that `valid_probe_host` refuses.
pub open spec fn invalid_host_reason(host: Seq<char>) -> Seq<char> {
    "invalid hostname: '"@ + host + "'"@
}

/// The first step of the probe: a failed result when the host name is refused,
/// `None` when the probe may go on to ask `openssl version`.
pub fn pqc_start(host: &str) -> (r: Option<PqcProbeResult>)
    ensures
        match r {
            Some(p) => !(forall|i: int| 0 <= i < host@.len() ==> host_char_ok(#[trigger] host@[i]))
                && p@ == failed_probe(invalid_host_reason(host@)),
            None => forall|i: int| 0 <= i < host@.len() ==> host_char_ok(#[trigger] host@[i]),
        },
{
    if valid_probe_host(host) {
        None
    } else {
        let mut reason = "invalid hostname: '".to_owned();
        reason.append(host);
        reason.append("'");
        Some(pqc_failure(reason.as_str()))
    }
}

/// The text of `openssl version` output: decoded leniently, then trimmed.
pub open spec fn version_text_of(stdout: Seq<u8>) -> Seq<char> {
    trim(utf8_lossy_of(stdout))
}

pub fn version_text(stdout: &[u8]) -> (r: String)
    ensures
        r@ == version_text_of(stdout@),
{
    let t = lossy_text(stdout);
    string_of(&trimmed(&chars_of(t.as_str())))
}

/// A dotted version component read as a number, 0 when it does not read.
pub open spec fn number_or_zero(t: Seq<char>) -> nat {
    match u32_of_text(t) {
        Some(v) => v as nat,
        None => 0,
    }
}

/// Whether an `openssl version` text names OpenSSL 3.5 or later, the first
/// release with ML-KEM groups (e.g. "OpenSSL 3.5.0 8 Apr 2025").
pub open spec fn version_supports_mlkem(v: Seq<char>) -> bool {
    has_prefix(v, "OpenSSL "@) && {
        let parts = split_on(split_on(v.skip(8), ' ')[0], '.');
        parts.len() >= 2 && {
            let major = number_or_zero(parts[0]);
            let minor = number_or_zero(parts[1]);
            major > 3 || (major == 3 && minor >= 5)
        }
    }
}

fn number_or_zero_exec(t: &[char]) -> (r: u32)
    ensures
        r as nat == number_or_zero(t@),
{
    match parse_u32_text(string_of(t).as_str()) {
        Some(v) => v,
        None => 0,
    }
}

/// Determine whether the openssl version string indicates >= 3.5 with ML-KEM support.
pub fn supports_mlkem(version: &str) -> (b: bool)
    ensures
        b == version_supports_mlkem(version@),
{
    let c = chars_of(version);
    let prefix = chars_of("OpenSSL ");
    proof {
        reveal_strlit("OpenSSL ");
    }
    if !crate::text::starts_with(&c, &prefix) {
        return false;
    }
    let rest = &c.as_slice()[8..c.len()];
    assert(rest@ =~= version@.skip(8));
    let words = split_char(rest, ' ');
    proof {
        crate::text::lemma_split_nonempty(rest@, seq![], ' ');
    }
    let parts = split_char(words[0].as_slice(), '.');
    assert(words@[0]@ == split_on(version@.skip(8), ' ')[0]);
    let ghost pv = split_on(split_on(version@.skip(8), ' ')[0], '.');
    assert(parts.deep_view() == pv);
    if parts.len() >= 2 {
        assert(parts@[0]@ == pv[0]);
        assert(parts@[1]@ == pv[1]);
        let major = number_or_zero_exec(parts[0].as_slice());
        let minor = number_or_zero_exec(parts[1].as_slice());
        return major > 3 || (major == 3 && minor >= 5);
    }
    false
}

/// The note of a probe skipped because the local openssl lacks ML-KEM groups.
pub open spec fn unsupported_note(version: Seq<char>) -> Seq<char> {
    version + " does not support ML-KEM groups; skipping PQC probe"@
}

/// The second step of the probe, once `openssl version` answered: a skipped
/// result when that openssl is LibreSSL or older than 3.5, `None` when the
/// probe may go on to run `openssl s_client`.
pub fn pqc_after_version(version: &str) -> (r: Option<PqcProbeResult>)
    ensures
        match r {
            Some(p) => (has_prefix(version@, "LibreSSL"@) || !version_supports_mlkem(version@))
                && p@ == (PqcView {
                hybrid_detected: false,
                group_name: None,
                openssl_version: Some(version@),
                note: Some(unsupported_note(version@)),
            }),
            None => !has_prefix(version@, "LibreSSL"@) && version_supports_mlkem(version@),
        },
{
    let c = chars_of(version);
    let libre = crate::text::starts_with(&c, &chars_of("LibreSSL"));
    if libre || !supports_mlkem(version) {
        let mut note = version.to_owned();
        note.append(" does not support ML-KEM groups; skipping PQC probe");
        return Some(
            PqcProbeResult {
                hybrid_detected: false,
                group_name: None,
                openssl_version: Some(version.to_owned()),
                note: Some(note),
            },
        );
    }
    None
}

/// The first word of the list that names an ML-KEM group (case-insensitive),
/// "ML-KEM (unknown)" when none does.
pub open spec fn first_mlkem_word(ws: Seq<Seq<char>>) -> Seq<char>
    decreases ws.len(),
{
    if ws.len() == 0 {
        "ML-KEM (unknown)"@
    } else if has_infix(unicode_lower(ws[0]), "mlkem"@) {
        ws[0]
    } else {
        first_mlkem_word(ws.drop_first())
    }
}

/// The KEM group that `openssl s_client` output shows: on the first line that
/// mentions one, the hybrid group it names.
pub open spec fn kem_group_in(ls: Seq<Seq<char>>) -> (bool, Option<Seq<char>>)
    decreases ls.len(),
{
    if ls.len() == 0 {
        (false, None)
    } else {
        let l = unicode_lower(ls[0]);
        if has_infix(l, "x25519mlkem768"@) {
            (true, Some("X25519MLKEM768"@))
        } else if has_infix(l, "p256mlkem768"@) {
            (true, Some("P256MLKEM768"@))
        } else if has_infix(l, "mlkem"@) {
            (true, Some(first_mlkem_word(words(ls[0]))))
        } else {
            kem_group_in(ls.drop_first())
        }
    }
}

fn first_mlkem_word_exec(ws: &Vec<Vec<char>>) -> (r: Vec<char>)
    ensures
        r@ == first_mlkem_word(ws.deep_view()),
{
    let ghost wv = ws.deep_view();
    let marker = chars_of("mlkem");
    let mut i: usize = 0;
    assert(wv.skip(0) =~= wv);
    while i < ws.len()
        invariant
            i <= ws.len(),
            wv == ws.deep_view(),
            marker@ == "mlkem"@,
            first_mlkem_word(wv.skip(i as int)) == first_mlkem_word(wv),
        decreases ws.len() - i,
    {
        assert(wv.skip(i as int).len() > 0);
        assert(wv.skip(i as int)[0] == wv[i as int]);
        assert(wv.skip(i as int).drop_first() =~= wv.skip(i + 1));
        assert(ws@[i as int]@ == wv[i as int]);
        if contains(&to_lower(ws[i].as_slice()), &marker) {
            let w = ws[i].clone();
            assert(w@ =~= wv[i as int]);
            return w;
        }
        i = i + 1;
    }
    assert(wv.skip(ws.len() as int) =~= Seq::<Seq<char>>::empty());
    chars_of("ML-KEM (unknown)")
}

/// Look for PQC KEM group names in openssl s_client output.
pub fn parse_kem_group(output: &str) -> (r: (bool, Option<String>))
    ensures
        (r.0, crate::model::opt_view(r.1)) == kem_group_in(lines(output@)),
{
    let ls = split_lines(&chars_of(output));
    let ghost lv = ls.deep_view();
    let x25519 = chars_of("x25519mlkem768");
    let p256 = chars_of("p256mlkem768");
    let marker = chars_of("mlkem");
    let mut i: usize = 0;
    assert(lv.skip(0) =~= lv);
    while i < ls.len()
        invariant
            i <= ls.len(),
            lv == ls.deep_view(),
            lv == lines(output@),
            x25519@ == "x25519mlkem768"@,
            p256@ == "p256mlkem768"@,
            marker@ == "mlkem"@,
            kem_group_in(lv.skip(i as int)) == kem_group_in(lv),
        decreases ls.len() - i,
    {
        assert(lv.skip(i as int).len() > 0);
        assert(lv.skip(i as int)[0] == lv[i as int]);
        assert(lv.skip(i as int).drop_first() =~= lv.skip(i + 1));
        assert(ls@[i as int]@ == lv[i as int]);
        let l = to_lower(ls[i].as_slice());
        assert(l@ == unicode_lower(lv[i as int]));
        if contains(&l, &x25519) {
            return (true, Some("X25519MLKEM768".to_owned()));
        }
        if contains(&l, &p256) {
            return (true, Some("P256MLKEM768".to_owned()));
        }
        if contains(&l, &marker) {
            assert(ls@[i as int]@ == lv[i as int]);
            let ws = split_words(ls[i].as_slice());
            let w = first_mlkem_word_exec(&ws);
            return (true, Some(string_of(&w)));
        }
        i = i + 1;
    }
    assert(lv.skip(ls.len() as int) =~= Seq::<Seq<char>>::empty());
    (false, None)
}

/// The result of a probe whose `openssl s_client` run printed the given
/// output and errors: what the handshake shows of a KEM group.
pub open spec fn finished_probe(version: Seq<char>, stdout: Seq<u8>, stderr: Seq<u8>) -> PqcView {
    let found = kem_group_in(lines(utf8_lossy_of(stdout) + utf8_lossy_of(stderr)));
    PqcView {
        hybrid_detected: found.0,
        group_name: found.1,
        openssl_version: Some(version),
        note: None,
    }
}

/// The last step of the probe, from the `openssl s_client` output.
pub fn pqc_finish(version: String, stdout: &[u8], stderr: &[u8]) -> (r: PqcProbeResult)
    ensures
        r@ == finished_probe(version@, stdout@, stderr@),
{
    let mut combined = lossy_text(stdout);
    let err = lossy_text(stderr);
    combined.append(err.as_str());
    let (hybrid_detected, group_name) = parse_kem_group(combined.as_str());
    PqcProbeResult { hybrid_detected, group_name, openssl_version: Some(version), note: None }
}

proof fn lemma_last_index_before(a: Seq<char>, b: Seq<char>, c: char)
    requires
        forall|i: int| 0 <= i < b.len() ==> b[i] != c,
    ensures
        last_index(a.push(c) + b, c) == Some(a.len() as int),
    decreases b.len(),
{
    if b.len() == 0 {
        assert(a.push(c) + b =~= a.push(c));
    } else {
        lemma_last_index_before(a, b.drop_last(), c);
        assert((a.push(c) + b).drop_last() =~= a.push(c) + b.drop_last());
    }
}

/// A target written as `host:port` reads back as that host and port, for any
/// host that is not itself wrapped in brackets (an IPv6 host is bracketed on
/// the way out and unwrapped on the way in).
pub proof fn lemma_endpoint_round_trip(host: Seq<char>, port: u16)
    requires
        !is_bracketed(host),
    ensures
        target_parts(endpoint_text(host, port)) == Some((host, port)),
{
    let d = decimal(port as nat);
    crate::text::lemma_decimal_reads_back(port as nat);
    assert forall|i: int| 0 <= i < d.len() implies d[i] != ':' by {
        assert(crate::text::is_digit(d[i]));
    }
    let h = host_text(host);
    let t = endpoint_text(host, port);
    reveal_strlit(":");
    reveal_strlit("[");
    reveal_strlit("]");
    assert(t =~= h.push(':') + d);
    assert(crate::text::is_digit(d[0]));
    assert(crate::text::is_digit(d.last()));
    assert(t.last() == d.last());
    assert(!is_bracketed(t));
    lemma_last_index_before(h, d, ':');
    assert(t.skip(h.len() as int + 1) =~= d);
    assert(t.take(h.len() as int) =~= h);
    assert(crate::text::unsigned_part(d) == d);
    if first_index(host, ':') is Some {
        assert(is_bracketed(h));
        assert(h.subrange(1, h.len() - 1) =~= host);
    }
}

} // verus!
