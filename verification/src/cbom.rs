//! The CycloneDX 1.7 CBOM of a scan: one component per asset, carrying its
//! classification as `acdi:` properties that the diff reads back.
use vstd::prelude::*;
use crate::diff::{RawView, SummaryView, prop_value, props_of, summarize};
use crate::model::{AssetType, AssetView, CryptoAsset, LocationView, Primitive, opt_view, duplicate_opt_string};
use crate::sarif::TOOL_VERSION;
use crate::text::{decimal, decimal_string};

verus! {

// ── Document ──────────────────────────────────────────────────────────────────

pub struct Tool {
    pub vendor: String,
    pub name: String,
    pub version: String,
}

pub struct Metadata {
    pub timestamp: String,
    pub tools: Vec<Tool>,
}

pub struct Property {
    pub name: String,
    pub value: String,
}

pub struct AlgorithmProperties {
    pub primitive: String,
    pub parameter_set_identifier: Option<String>,
    pub execution_environment: String,
    pub implementation_platform: String,
    pub certification_level: Vec<String>,
    pub mode: String,
    pub padding: String,
    pub crypto_functions: Vec<String>,
    pub nist_quantum_security_level: u8,
}

pub struct CryptoProperties {
    pub asset_type: String,
    pub algorithm_properties: Option<AlgorithmProperties>,
    pub oid: Option<String>,
}

pub struct Occurrence {
    pub location: String,
    pub line: Option<u32>,
    pub symbol: Option<String>,
    pub additional_context: Option<String>,
}

pub struct ComponentEvidence {
    pub occurrences: Vec<Occurrence>,
}

pub struct Component {
    pub component_type: String,
    pub bom_ref: String,
    pub name: String,
    pub description: Option<String>,
    pub crypto_properties: CryptoProperties,
    pub evidence: ComponentEvidence,
    pub properties: Vec<Property>,
}

pub struct Bom {
    pub bom_format: String,
    pub spec_version: String,
    pub serial_number: String,
    pub version: u32,
    pub metadata: Metadata,
    pub components: Vec<Component>,
}

// ── Views ─────────────────────────────────────────────────────────────────────

pub struct AlgPropsView {
    pub primitive: Seq<char>,
    pub parameter_set_identifier: Option<Seq<char>>,
    pub execution_environment: Seq<char>,
    pub implementation_platform: Seq<char>,
    pub certification_level: Seq<Seq<char>>,
    pub mode: Seq<char>,
    pub padding: Seq<char>,
    pub crypto_functions: Seq<Seq<char>>,
    pub nist_quantum_security_level: u8,
}

pub struct OccurrenceView {
    pub location: Seq<char>,
    pub line: Option<u32>,
    pub symbol: Option<Seq<char>>,
    pub additional_context: Option<Seq<char>>,
}

pub struct ComponentView {
    pub component_type: Seq<char>,
    pub bom_ref: Seq<char>,
    pub name: Seq<char>,
    pub description: Option<Seq<char>>,
    pub asset_type: Seq<char>,
    pub algorithm_properties: Option<AlgPropsView>,
    pub oid: Option<Seq<char>>,
    pub occurrences: Seq<OccurrenceView>,
    pub properties: Seq<(Seq<char>, Seq<char>)>,
}

impl View for AlgorithmProperties {
    type V = AlgPropsView;

    open spec fn view(&self) -> AlgPropsView {
        AlgPropsView {
            primitive: self.primitive@,
            parameter_set_identifier: opt_view(self.parameter_set_identifier),
            execution_environment: self.execution_environment@,
            implementation_platform: self.implementation_platform@,
            certification_level: self.certification_level.deep_view(),
            mode: self.mode@,
            padding: self.padding@,
            crypto_functions: self.crypto_functions.deep_view(),
            nist_quantum_security_level: self.nist_quantum_security_level,
        }
    }
}

impl View for Occurrence {
    type V = OccurrenceView;

    open spec fn view(&self) -> OccurrenceView {
        OccurrenceView {
            location: self.location@,
            line: self.line,
            symbol: opt_view(self.symbol),
            additional_context: opt_view(self.additional_context),
        }
    }
}

impl DeepView for Occurrence {
    type V = OccurrenceView;

    open spec fn deep_view(&self) -> OccurrenceView {
        self@
    }
}

impl View for Property {
    type V = (Seq<char>, Seq<char>);

    open spec fn view(&self) -> (Seq<char>, Seq<char>) {
        (self.name@, self.value@)
    }
}

impl DeepView for Property {
    type V = (Seq<char>, Seq<char>);

    open spec fn deep_view(&self) -> (Seq<char>, Seq<char>) {
        self@
    }
}

impl View for Component {
    type V = ComponentView;

    open spec fn view(&self) -> ComponentView {
        ComponentView {
            component_type: self.component_type@,
            bom_ref: self.bom_ref@,
            name: self.name@,
            description: opt_view(self.description),
            asset_type: self.crypto_properties.asset_type@,
            algorithm_properties: match self.crypto_properties.algorithm_properties {
                Some(p) => Some(p@),
                None => None,
            },
            oid: opt_view(self.crypto_properties.oid),
            occurrences: self.evidence.occurrences.deep_view(),
            properties: self.properties.deep_view(),
        }
    }
}

impl DeepView for Component {
    type V = ComponentView;

    open spec fn deep_view(&self) -> ComponentView {
        self@
    }
}

// ── Specification ─────────────────────────────────────────────────────────────

/// The CycloneDX component type of an asset type.
pub open spec fn component_type_of(t: AssetType) -> Seq<char> {
    match t {
        AssetType::Library => "library"@,
        _ => "cryptographic-asset"@,
    }
}

/// The CycloneDX crypto asset type of an asset type.
pub open spec fn cdx_asset_type(t: AssetType) -> Seq<char> {
    match t {
        AssetType::Certificate => "certificate"@,
        AssetType::PrivateKey => "private-key"@,
        AssetType::PublicKey => "public-key"@,
        AssetType::Algorithm => "algorithm"@,
        AssetType::Protocol => "protocol"@,
        AssetType::Library => "library"@,
    }
}

/// The CycloneDX primitive name.
pub open spec fn cdx_primitive(p: Primitive) -> Seq<char> {
    match p {
        Primitive::PublicKeyEncryption => "pke"@,
        Primitive::KeyEncapsulationMechanism => "kem"@,
        Primitive::DigitalSignature => "signature"@,
        Primitive::KeyDerivation => "kdf"@,
        Primitive::KeyAgreement => "key-agree"@,
        Primitive::BlockCipher => "block-cipher"@,
        Primitive::StreamCipher => "stream-cipher"@,
        Primitive::Hash => "hash"@,
        Primitive::Mac => "mac"@,
        Primitive::PostQuantumKem => "kem"@,
        Primitive::PostQuantumSignature => "signature"@,
        Primitive::Other => "other"@,
    }
}

/// The crypto function a primitive performs.
pub open spec fn cdx_function(p: Primitive) -> Seq<char> {
    match p {
        Primitive::PublicKeyEncryption => "encrypt"@,
        Primitive::KeyEncapsulationMechanism | Primitive::PostQuantumKem => "encapsulate"@,
        Primitive::DigitalSignature | Primitive::PostQuantumSignature => "sign"@,
        Primitive::KeyDerivation => "derive"@,
        Primitive::KeyAgreement => "agree"@,
        Primitive::BlockCipher | Primitive::StreamCipher => "encrypt"@,
        Primitive::Hash => "digest"@,
        Primitive::Mac => "authenticate"@,
        Primitive::Other => "other"@,
    }
}

pub open spec fn occurrence_of(a: AssetView, l: LocationView) -> OccurrenceView {
    OccurrenceView {
        location: l.source,
        line: l.line,
        symbol: None,
        additional_context: Some(
            "quantum_safe="@ + a.quantum_safe.label() + " hndl_risk="@ + a.hndl_risk.label(),
        ),
    }
}

/// The `acdi:` properties of an asset.
pub open spec fn acdi_properties(a: AssetView) -> Seq<(Seq<char>, Seq<char>)> {
    seq![
        ("acdi:quantum_safe"@, a.quantum_safe.cbom_name()),
        ("acdi:hndl_risk"@, a.hndl_risk.label()),
        ("acdi:nist_level"@, decimal(a.nist_quantum_security as nat)),
    ]
}

/// The component of an asset, with the given `bom-ref`.
pub open spec fn component_of(a: AssetView, bom_ref: Seq<char>) -> ComponentView {
    ComponentView {
        component_type: component_type_of(a.asset_type),
        bom_ref,
        name: a.name,
        description: Some(
            "Quantum safety: "@ + a.quantum_safe.label() + " | HNDL risk: "@ + a.hndl_risk.label()
                + " | NIST level: "@ + decimal(a.nist_quantum_security as nat),
        ),
        asset_type: cdx_asset_type(a.asset_type),
        algorithm_properties: Some(
            AlgPropsView {
                primitive: cdx_primitive(a.primitive),
                parameter_set_identifier: a.parameter_set,
                execution_environment: "unknown"@,
                implementation_platform: "unknown"@,
                certification_level: seq![],
                mode: "unknown"@,
                padding: "unknown"@,
                crypto_functions: seq![cdx_function(a.primitive)],
                nist_quantum_security_level: a.nist_quantum_security,
            },
        ),
        oid: a.oid,
        occurrences: a.locations.map_values(|l: LocationView| occurrence_of(a, l)),
        properties: acdi_properties(a),
    }
}

// ── Building ──────────────────────────────────────────────────────────────────

pub fn primitive_to_cdx(p: &Primitive) -> (s: String)
    ensures
        s@ == cdx_primitive(*p),
{
    match p {
        Primitive::PublicKeyEncryption => "pke",
        Primitive::KeyEncapsulationMechanism => "kem",
        Primitive::DigitalSignature => "signature",
        Primitive::KeyDerivation => "kdf",
        Primitive::KeyAgreement => "key-agree",
        Primitive::BlockCipher => "block-cipher",
        Primitive::StreamCipher => "stream-cipher",
        Primitive::Hash => "hash",
        Primitive::Mac => "mac",
        Primitive::PostQuantumKem => "kem",
        Primitive::PostQuantumSignature => "signature",
        Primitive::Other => "other",
    }.to_owned()
}

pub fn crypto_function(p: &Primitive) -> (s: String)
    ensures
        s@ == cdx_function(*p),
{
    match p {
        Primitive::PublicKeyEncryption => "encrypt",
        Primitive::KeyEncapsulationMechanism | Primitive::PostQuantumKem => "encapsulate",
        Primitive::DigitalSignature | Primitive::PostQuantumSignature => "sign",
        Primitive::KeyDerivation => "derive",
        Primitive::KeyAgreement => "agree",
        Primitive::BlockCipher | Primitive::StreamCipher => "encrypt",
        Primitive::Hash => "digest",
        Primitive::Mac => "authenticate",
        Primitive::Other => "other",
    }.to_owned()
}

/// The CycloneDX crypto asset type of an asset type.
pub fn asset_type_name(t: &AssetType) -> (s: &'static str)
    ensures
        s@ == cdx_asset_type(*t),
{
    match t {
        AssetType::Certificate => "certificate",
        AssetType::PrivateKey => "private-key",
        AssetType::PublicKey => "public-key",
        AssetType::Algorithm => "algorithm",
        AssetType::Protocol => "protocol",
        AssetType::Library => "library",
    }
}

fn prop(name: &str, value: String) -> (r: Property)
    ensures
        r@ == (name@, value@),
{
    Property { name: name.to_owned(), value }
}

/// The component of one asset, with the given `bom-ref`.
pub fn asset_to_component(asset: &CryptoAsset, bom_ref: String) -> (r: Component)
    ensures
        r@ == component_of(asset@, bom_ref@),
{
    let ghost av = asset@;
    let component_type = match asset.asset_type {
        AssetType::Library => "library",
        _ => "cryptographic-asset",
    };
    let cdx_type = asset_type_name(&asset.asset_type);
    let mut functions: Vec<String> = Vec::new();
    functions.push(crypto_function(&asset.primitive));
    let ghost fv = functions.deep_view();
    assert(fv =~= seq![cdx_function(av.primitive)]);
    let no_levels: Vec<String> = Vec::new();
    assert(no_levels.deep_view() =~= Seq::<Seq<char>>::empty());
    let algorithm_properties = AlgorithmProperties {
        primitive: primitive_to_cdx(&asset.primitive),
        parameter_set_identifier: duplicate_opt_string(&asset.parameter_set),
        execution_environment: "unknown".to_owned(),
        implementation_platform: "unknown".to_owned(),
        certification_level: no_levels,
        mode: "unknown".to_owned(),
        padding: "unknown".to_owned(),
        crypto_functions: functions,
        nist_quantum_security_level: asset.nist_quantum_security,
    };
    let qs = asset.quantum_safe.to_label();
    let risk = asset.hndl_risk.to_label();
    let nist = decimal_string(asset.nist_quantum_security as u64);
    let mut context = "quantum_safe=".to_owned();
    context.append(qs);
    context.append(" hndl_risk=");
    context.append(risk);
    let mut occurrences: Vec<Occurrence> = Vec::new();
    let mut i: usize = 0;
    while i < asset.locations.len()
        invariant
            i <= asset.locations.len(),
            av == asset@,
            context@ == "quantum_safe="@ + av.quantum_safe.label() + " hndl_risk="@ + av.hndl_risk.label(),
            occurrences.deep_view() == av.locations.take(i as int).map_values(
                |l: LocationView| occurrence_of(av, l),
            ),
        decreases asset.locations.len() - i,
    {
        let l = &asset.locations[i];
        let o = Occurrence {
            location: l.source.clone(),
            line: l.line,
            symbol: None,
            additional_context: Some(context.clone()),
        };
        let ghost before = occurrences.deep_view();
        occurrences.push(o);
        assert(occurrences.deep_view() =~= before.push(o@));
        assert(av.locations[i as int] == asset.locations@[i as int]@);
        assert(av.locations.take(i + 1).map_values(|l: LocationView| occurrence_of(av, l)) =~= av.locations.take(
            i as int,
        ).map_values(|l: LocationView| occurrence_of(av, l)).push(occurrence_of(av, av.locations[i as int])));
        i = i + 1;
    }
    assert(av.locations.take(asset.locations.len() as int) =~= av.locations);
    let mut description = "Quantum safety: ".to_owned();
    description.append(qs);
    description.append(" | HNDL risk: ");
    description.append(risk);
    description.append(" | NIST level: ");
    description.append(nist.as_str());
    let mut properties: Vec<Property> = Vec::new();
    properties.push(prop("acdi:quantum_safe", asset.quantum_safe.to_cbom_name().to_owned()));
    properties.push(prop("acdi:hndl_risk", risk.to_owned()));
    properties.push(prop("acdi:nist_level", nist));
    assert(properties.deep_view() =~= acdi_properties(av));
    let r = Component {
        component_type: component_type.to_owned(),
        bom_ref,
        name: asset.name.clone(),
        description: Some(description),
        crypto_properties: CryptoProperties {
            asset_type: cdx_type.to_owned(),
            algorithm_properties: Some(algorithm_properties),
            oid: duplicate_opt_string(&asset.oid),
        },
        evidence: ComponentEvidence { occurrences },
        properties,
    };
    r
}

/// A random (version 4) UUID, from `uuid::Uuid::new_v4`, as text: its
/// `Display` form is the hyphenated one, 36 characters long. Nothing is
/// promised of the value itself.
#[verifier::external_body]
fn new_uuid() -> (r: String)
    ensures
        r@.len() == 36,
{
    uuid::Uuid::new_v4().to_string()
}

/// The current time in RFC 3339, from `chrono::Utc::now().to_rfc3339()`.
/// Nothing is promised of its value.
#[verifier::external_body]
fn now_rfc3339() -> String {
    chrono::Utc::now().to_rfc3339()
}

/// The CBOM of a list of assets, with the given serial UUID, timestamp and one
/// `bom-ref` per asset.
pub fn bom_from_parts(
    assets: &Vec<CryptoAsset>,
    serial_uuid: &str,
    timestamp: String,
    refs: Vec<String>,
) -> (r: Bom)
    requires
        refs.len() == assets.len(),
    ensures
        r.bom_format@ == "CycloneDX"@,
        r.spec_version@ == "1.7"@,
        r.serial_number@ == "urn:uuid:"@ + serial_uuid@,
        r.version == 1,
        r.metadata.timestamp@ == timestamp@,
        r.metadata.tools.len() == 1,
        r.metadata.tools@[0].vendor@ == "acdi"@,
        r.metadata.tools@[0].name@ == "acdi"@,
        r.metadata.tools@[0].version@ == TOOL_VERSION@,
        r.components.len() == assets.len(),
        forall|i: int|
            0 <= i < assets.len() ==> #[trigger] r.components@[i]@ == component_of(
                assets@[i]@,
                refs@[i]@,
            ),
{
    let mut components: Vec<Component> = Vec::new();
    let mut i: usize = 0;
    while i < assets.len()
        invariant
            i <= assets.len(),
            refs.len() == assets.len(),
            components.len() == i,
            forall|k: int|
                0 <= k < i ==> #[trigger] components@[k]@ == component_of(assets@[k]@, refs@[k]@),
        decreases assets.len() - i,
    {
        let c = asset_to_component(&assets[i], refs[i].clone());
        components.push(c);
        i = i + 1;
    }
    let mut serial = "urn:uuid:".to_owned();
    serial.append(serial_uuid);
    let mut tools: Vec<Tool> = Vec::new();
    tools.push(
        Tool { vendor: "acdi".to_owned(), name: "acdi".to_owned(), version: TOOL_VERSION.to_owned() },
    );
    Bom {
        bom_format: "CycloneDX".to_owned(),
        spec_version: "1.7".to_owned(),
        serial_number: serial,
        version: 1,
        metadata: Metadata { timestamp, tools },
        components,
    }
}

/// The CBOM of a list of assets, with a fresh serial number, the current time
/// and a fresh `bom-ref` for each component.
pub fn build_bom(assets: &Vec<CryptoAsset>) -> (r: Bom)
    ensures
        r.bom_format@ == "CycloneDX"@,
        r.spec_version@ == "1.7"@,
        exists|u: Seq<char>| u.len() == 36 && r.serial_number@ == "urn:uuid:"@ + u,
        r.version == 1,
        r.metadata.tools.len() == 1,
        r.metadata.tools@[0].vendor@ == "acdi"@,
        r.metadata.tools@[0].name@ == "acdi"@,
        r.metadata.tools@[0].version@ == TOOL_VERSION@,
        r.components.len() == assets.len(),
        forall|i: int|
            0 <= i < assets.len() ==> #[trigger] r.components@[i]@ == component_of(
                assets@[i]@,
                r.components@[i].bom_ref@,
            ),
{
    let serial = new_uuid();
    let timestamp = now_rfc3339();
    let mut refs: Vec<String> = Vec::new();
    let mut i: usize = 0;
    while i < assets.len()
        invariant
            i <= assets.len(),
            refs.len() == i,
        decreases assets.len() - i,
    {
        refs.push(new_uuid());
        i = i + 1;
    }
    let ghost rv = refs@;
    let r = bom_from_parts(assets, serial.as_str(), timestamp, refs);
    assert(serial@.len() == 36 && r.serial_number@ == "urn:uuid:"@ + serial@);
    proof {
        assert forall|i: int| 0 <= i < assets.len() implies #[trigger] r.components@[i]@ == component_of(
            assets@[i]@,
            r.components@[i].bom_ref@,
        ) by {
            assert(r.components@[i]@ == component_of(assets@[i]@, rv[i]@));
        }
    }
    r
}

// ── Read back by the diff ─────────────────────────────────────────────────────

/// What the diff reads of a component as this library writes it: its name,
/// asset type and properties, each present.
pub open spec fn raw_of(c: ComponentView) -> RawView {
    RawView {
        name: Some(c.name),
        asset_type: Some(c.asset_type),
        properties: Some(
            c.properties.map_values(|p: (Seq<char>, Seq<char>)| (Some(p.0), Some(p.1))),
        ),
    }
}

/// The diff reads back from a component what the CBOM wrote of the asset: its
/// name, quantum safety and risk labels, NIST level and asset type.
pub proof fn lemma_component_read_back(a: AssetView, bom_ref: Seq<char>)
    ensures
        summarize(raw_of(component_of(a, bom_ref))) == (SummaryView {
            name: a.name,
            quantum_safe: a.quantum_safe.cbom_name(),
            hndl_risk: a.hndl_risk.label(),
            nist_level: decimal(a.nist_quantum_security as nat),
            asset_type: cdx_asset_type(a.asset_type),
        }),
{
    let c = component_of(a, bom_ref);
    let props = c.properties.map_values(|p: (Seq<char>, Seq<char>)| (Some(p.0), Some(p.1)));
    reveal_strlit("acdi:quantum_safe");
    reveal_strlit("acdi:hndl_risk");
    reveal_strlit("acdi:nist_level");
    assert(props.drop_last().drop_last().drop_last() =~= seq![]);
    assert(props.drop_last().drop_last().last() == (Some("acdi:quantum_safe"@), Some(a.quantum_safe.cbom_name())));
    assert(props.drop_last().last() == (Some("acdi:hndl_risk"@), Some(a.hndl_risk.label())));
    assert(props.last() == (Some("acdi:nist_level"@), Some(decimal(a.nist_quantum_security as nat))));
    assert("acdi:nist_level"@[5] != "acdi:quantum_safe"@[5]);
    assert("acdi:hndl_risk"@[5] != "acdi:quantum_safe"@[5]);
    assert("acdi:nist_level"@ != "acdi:hndl_risk"@);
    let q = "acdi:quantum_safe"@;
    let h = "acdi:hndl_risk"@;
    let n = "acdi:nist_level"@;
    assert(props_of(raw_of(c)) == props);
    let p1 = props.drop_last();
    let p2 = p1.drop_last();
    assert(prop_value(p2, q) == Some(a.quantum_safe.cbom_name()));
    assert(prop_value(p1, q) == prop_value(p2, q));
    assert(prop_value(props, q) == prop_value(p1, q));
    assert(prop_value(p1, h) == Some(a.hndl_risk.label()));
    assert(prop_value(props, h) == prop_value(p1, h));
    assert(prop_value(props, n) == Some(decimal(a.nist_quantum_security as nat)));
}

} // verus!
