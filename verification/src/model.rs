//! The data model: one detected cryptographic asset, where it was found, how it
//! was found, and how it is classified.
use vstd::prelude::*;

verus! {

/// Quantum safety classification per NIST IR 8547.
#[derive(Debug, Clone, Copy, PartialEq, Eq, Structural, Hash)]
pub enum QuantumSafety {
    /// Broken by Shor's algorithm (RSA, ECC, DSA, DH, ECDH, ECDSA)
    Vulnerable,
    /// Post-quantum standardized (ML-KEM, ML-DSA, SLH-DSA, HQC)
    Safe,
    /// Classical algorithm with sufficient key size to resist Grover's (AES-256, SHA-384+)
    ClassicallyAdequate,
    /// Hybrid: classical + PQC (e.g. X25519MLKEM768)
    HybridSafe,
    /// Algorithm not in catalog or insufficient information
    Unknown,
}

/// Harvest-Now-Decrypt-Later (HNDL) risk level, from `None` (lowest) to `Critical`.
#[derive(Debug, Clone, Copy, PartialEq, Eq, Structural, PartialOrd, Ord, Hash)]
pub enum Risk {
    NoRisk,
    Low,
    Medium,
    High,
    Critical,
}

#[derive(Debug, Clone, Copy, PartialEq, Eq, Structural, Hash)]
pub enum AssetType {
    Algorithm,
    Certificate,
    PrivateKey,
    PublicKey,
    Protocol,
    Library,
}

#[derive(Debug, Clone, Copy, PartialEq, Eq, Structural, Hash)]
pub enum Primitive {
    PublicKeyEncryption,
    KeyEncapsulationMechanism,
    DigitalSignature,
    KeyDerivation,
    KeyAgreement,
    BlockCipher,
    StreamCipher,
    Hash,
    Mac,
    /// Post-quantum KEM (ML-KEM / Kyber)
    PostQuantumKem,
    /// Post-quantum signature (ML-DSA / Dilithium, SLH-DSA / SPHINCS+)
    PostQuantumSignature,
    Other,
}

/// How the asset was detected — used for the audit trail in the reports.
#[derive(Debug, Clone, Copy, PartialEq, Eq, Structural, Hash)]
pub enum Evidence {
    /// Parsed directly from a certificate or key file
    CertificateParsing,
    /// Found by probing a TLS endpoint handshake
    TlsHandshake,
    /// Matched a pattern in source code
    SourceCodePattern,
    /// Found in binary string search (OID or algorithm name string)
    BinaryStringSearch,
    /// Matched a rule against a configuration file
    ConfigFileRule,
    /// Found as a declared dependency in a package manifest
    ManifestDependency,
    /// Found in the symbol table of an ELF, PE, or Mach-O binary
    ElfSymbol,
    /// Found in the constant pool of a Java class file (direct or inside a JAR)
    JarClassFile,
}

/// Where in the filesystem or network an asset was found.
#[derive(Debug, Clone)]
pub struct Location {
    /// File path or TLS endpoint string
    pub source: String,
    /// Line number inside the file (None for binary/cert parsing)
    pub line: Option<u32>,
    /// Column number (for source-code findings)
    pub column: Option<u32>,
}

/// A single detected cryptographic asset — algorithm, certificate, key, protocol, or library.
#[derive(Debug, Clone)]
pub struct CryptoAsset {
    pub asset_type: AssetType,
    /// Human-readable name, e.g. "RSA-2048", "ML-KEM-768"
    pub name: String,
    /// ASN.1 OID if applicable, e.g. "1.2.840.113549.1.1.1"
    pub oid: Option<String>,
    pub primitive: Primitive,
    /// Key size, curve name, or parameter set, e.g. "2048", "P-256"
    pub parameter_set: Option<String>,
    /// NIST quantum security level (0 = broken, 1–5 = post-quantum levels)
    pub nist_quantum_security: u8,
    pub quantum_safe: QuantumSafety,
    pub hndl_risk: Risk,
    pub locations: Vec<Location>,
    pub evidence: Evidence,
}

/// Classification of an algorithm name: the four values every asset carries.
#[derive(Debug, Clone, Copy, PartialEq, Eq, Structural)]
pub struct Classification {
    pub quantum_safe: QuantumSafety,
    pub hndl_risk: Risk,
    pub nist_level: u8,
    pub primitive: Primitive,
}

// ── Abstract views ────────────────────────────────────────────────────────────

pub struct LocationView {
    pub source: Seq<char>,
    pub line: Option<u32>,
    pub column: Option<u32>,
}

pub struct AssetView {
    pub asset_type: AssetType,
    pub name: Seq<char>,
    pub oid: Option<Seq<char>>,
    pub primitive: Primitive,
    pub parameter_set: Option<Seq<char>>,
    pub nist_quantum_security: u8,
    pub quantum_safe: QuantumSafety,
    pub hndl_risk: Risk,
    pub locations: Seq<LocationView>,
    pub evidence: Evidence,
}

pub open spec fn opt_view(o: Option<String>) -> Option<Seq<char>> {
    match o {
        Some(s) => Some(s@),
        None => None,
    }
}

impl View for Location {
    type V = LocationView;

    open spec fn view(&self) -> LocationView {
        LocationView { source: self.source@, line: self.line, column: self.column }
    }
}

impl DeepView for Location {
    type V = LocationView;

    open spec fn deep_view(&self) -> LocationView {
        self@
    }
}

impl View for CryptoAsset {
    type V = AssetView;

    open spec fn view(&self) -> AssetView {
        AssetView {
            asset_type: self.asset_type,
            name: self.name@,
            oid: opt_view(self.oid),
            primitive: self.primitive,
            parameter_set: opt_view(self.parameter_set),
            nist_quantum_security: self.nist_quantum_security,
            quantum_safe: self.quantum_safe,
            hndl_risk: self.hndl_risk,
            locations: self.locations.deep_view(),
            evidence: self.evidence,
        }
    }
}

impl DeepView for CryptoAsset {
    type V = AssetView;

    open spec fn deep_view(&self) -> AssetView {
        self@
    }
}

/// The view of an asset with the given fields.
pub open spec fn asset_view(
    asset_type: AssetType,
    name: Seq<char>,
    oid: Option<Seq<char>>,
    parameter_set: Option<Seq<char>>,
    class: Classification,
    locations: Seq<LocationView>,
    evidence: Evidence,
) -> AssetView {
    AssetView {
        asset_type,
        name,
        oid,
        primitive: class.primitive,
        parameter_set,
        nist_quantum_security: class.nist_level,
        quantum_safe: class.quantum_safe,
        hndl_risk: class.hndl_risk,
        locations,
        evidence,
    }
}

/// A location with only a source (no line or column).
pub open spec fn plain_location(source: Seq<char>) -> LocationView {
    LocationView { source, line: None, column: None }
}

// ── Labels ────────────────────────────────────────────────────────────────────

impl QuantumSafety {
    /// The display label.
    pub open spec fn label(self) -> Seq<char> {
        match self {
            QuantumSafety::Vulnerable => "VULNERABLE"@,
            QuantumSafety::Safe => "SAFE"@,
            QuantumSafety::ClassicallyAdequate => "CLASSICALLY ADEQUATE"@,
            QuantumSafety::HybridSafe => "HYBRID SAFE"@,
            QuantumSafety::Unknown => "UNKNOWN"@,
        }
    }

    pub fn to_label(&self) -> (s: &'static str)
        ensures
            s@ == self.label(),
    {
        match self {
            QuantumSafety::Vulnerable => "VULNERABLE",
            QuantumSafety::Safe => "SAFE",
            QuantumSafety::ClassicallyAdequate => "CLASSICALLY ADEQUATE",
            QuantumSafety::HybridSafe => "HYBRID SAFE",
            QuantumSafety::Unknown => "UNKNOWN",
        }
    }

    /// The value of the `acdi:quantum_safe` property of a CBOM component.
    pub open spec fn cbom_name(self) -> Seq<char> {
        match self {
            QuantumSafety::Vulnerable => "VULNERABLE"@,
            QuantumSafety::Safe => "QUANTUM_SAFE"@,
            QuantumSafety::ClassicallyAdequate => "ADEQUATE"@,
            QuantumSafety::HybridSafe => "HYBRID_SAFE"@,
            QuantumSafety::Unknown => "UNKNOWN"@,
        }
    }

    pub fn to_cbom_name(&self) -> (s: &'static str)
        ensures
            s@ == self.cbom_name(),
    {
        match self {
            QuantumSafety::Vulnerable => "VULNERABLE",
            QuantumSafety::Safe => "QUANTUM_SAFE",
            QuantumSafety::ClassicallyAdequate => "ADEQUATE",
            QuantumSafety::HybridSafe => "HYBRID_SAFE",
            QuantumSafety::Unknown => "UNKNOWN",
        }
    }

    /// The value of the `QuantumSafety` column of a CSV report.
    pub open spec fn csv_name(self) -> Seq<char> {
        match self {
            QuantumSafety::Vulnerable => "VULNERABLE"@,
            QuantumSafety::Safe => "SAFE"@,
            QuantumSafety::ClassicallyAdequate => "ADEQUATE"@,
            QuantumSafety::HybridSafe => "HYBRID_SAFE"@,
            QuantumSafety::Unknown => "UNKNOWN"@,
        }
    }

    pub fn to_csv_name(&self) -> (s: &'static str)
        ensures
            s@ == self.csv_name(),
    {
        match self {
            QuantumSafety::Vulnerable => "VULNERABLE",
            QuantumSafety::Safe => "SAFE",
            QuantumSafety::ClassicallyAdequate => "ADEQUATE",
            QuantumSafety::HybridSafe => "HYBRID_SAFE",
            QuantumSafety::Unknown => "UNKNOWN",
        }
    }

    /// The variant name, as `Debug` prints it.
    pub open spec fn variant_name(self) -> Seq<char> {
        match self {
            QuantumSafety::Vulnerable => "Vulnerable"@,
            QuantumSafety::Safe => "Safe"@,
            QuantumSafety::ClassicallyAdequate => "ClassicallyAdequate"@,
            QuantumSafety::HybridSafe => "HybridSafe"@,
            QuantumSafety::Unknown => "Unknown"@,
        }
    }

    pub fn to_variant_name(&self) -> (s: &'static str)
        ensures
            s@ == self.variant_name(),
    {
        match self {
            QuantumSafety::Vulnerable => "Vulnerable",
            QuantumSafety::Safe => "Safe",
            QuantumSafety::ClassicallyAdequate => "ClassicallyAdequate",
            QuantumSafety::HybridSafe => "HybridSafe",
            QuantumSafety::Unknown => "Unknown",
        }
    }
}

impl Risk {
    /// Position in the order `None < Low < Medium < High < Critical`.
    pub open spec fn rank(self) -> nat {
        match self {
            Risk::NoRisk => 0,
            Risk::Low => 1,
            Risk::Medium => 2,
            Risk::High => 3,
            Risk::Critical => 4,
        }
    }

    pub fn to_rank(&self) -> (r: u8)
        ensures
            r as nat == self.rank(),
    {
        match self {
            Risk::NoRisk => 0,
            Risk::Low => 1,
            Risk::Medium => 2,
            Risk::High => 3,
            Risk::Critical => 4,
        }
    }

    /// Whether `self` is at or above `other` in the risk order.
    pub fn at_least(&self, other: &Risk) -> (b: bool)
        ensures
            b == (self.rank() >= other.rank()),
    {
        self.to_rank() >= other.to_rank()
    }

    /// The display label (also the upper-case variant name).
    pub open spec fn label(self) -> Seq<char> {
        match self {
            Risk::NoRisk => "NONE"@,
            Risk::Low => "LOW"@,
            Risk::Medium => "MEDIUM"@,
            Risk::High => "HIGH"@,
            Risk::Critical => "CRITICAL"@,
        }
    }

    pub fn to_label(&self) -> (s: &'static str)
        ensures
            s@ == self.label(),
    {
        match self {
            Risk::NoRisk => "NONE",
            Risk::Low => "LOW",
            Risk::Medium => "MEDIUM",
            Risk::High => "HIGH",
            Risk::Critical => "CRITICAL",
        }
    }

    /// The variant name, as `Debug` prints it.
    pub open spec fn variant_name(self) -> Seq<char> {
        match self {
            Risk::NoRisk => "None"@,
            Risk::Low => "Low"@,
            Risk::Medium => "Medium"@,
            Risk::High => "High"@,
            Risk::Critical => "Critical"@,
        }
    }

    pub fn to_variant_name(&self) -> (s: &'static str)
        ensures
            s@ == self.variant_name(),
    {
        match self {
            Risk::NoRisk => "None",
            Risk::Low => "Low",
            Risk::Medium => "Medium",
            Risk::High => "High",
            Risk::Critical => "Critical",
        }
    }
}

impl Location {
    /// A location with only a source.
    pub fn at_source(source: &str) -> (r: Location)
        ensures
            r@ == plain_location(source@),
    {
        Location { source: source.to_owned(), line: None, column: None }
    }

    pub fn duplicate(&self) -> (r: Location)
        ensures
            r@ == self@,
    {
        Location { source: self.source.clone(), line: self.line, column: self.column }
    }
}

pub fn duplicate_opt_string(o: &Option<String>) -> (r: Option<String>)
    ensures
        opt_view(r) == opt_view(*o),
{
    match o {
        Some(s) => Some(s.clone()),
        None => None,
    }
}

pub fn duplicate_locations(v: &Vec<Location>) -> (r: Vec<Location>)
    ensures
        r.deep_view() == v.deep_view(),
{
    let mut r: Vec<Location> = Vec::new();
    let mut i: usize = 0;
    while i < v.len()
        invariant
            i <= v.len(),
            r@.len() == i,
            forall|k: int| 0 <= k < i ==> r@[k]@ == v@[k]@,
        decreases v.len() - i,
    {
        r.push(v[i].duplicate());
        i = i + 1;
    }
    assert(r.deep_view() =~= v.deep_view());
    r
}

impl CryptoAsset {
    pub fn duplicate(&self) -> (r: CryptoAsset)
        ensures
            r@ == self@,
    {
        CryptoAsset {
            asset_type: self.asset_type,
            name: self.name.clone(),
            oid: duplicate_opt_string(&self.oid),
            primitive: self.primitive,
            parameter_set: duplicate_opt_string(&self.parameter_set),
            nist_quantum_security: self.nist_quantum_security,
            quantum_safe: self.quantum_safe,
            hndl_risk: self.hndl_risk,
            locations: duplicate_locations(&self.locations),
            evidence: self.evidence,
        }
    }

    /// An asset found at a single location.
    pub fn single(
        asset_type: AssetType,
        name: String,
        oid: Option<String>,
        parameter_set: Option<String>,
        class: Classification,
        location: Location,
        evidence: Evidence,
    ) -> (r: CryptoAsset)
        ensures
            r@ == asset_view(
                asset_type,
                name@,
                opt_view(oid),
                opt_view(parameter_set),
                class,
                seq![location@],
                evidence,
            ),
    {
        let mut locations: Vec<Location> = Vec::new();
        locations.push(location);
        let r = CryptoAsset {
            asset_type,
            name,
            oid,
            primitive: class.primitive,
            parameter_set,
            nist_quantum_security: class.nist_level,
            quantum_safe: class.quantum_safe,
            hndl_risk: class.hndl_risk,
            locations,
            evidence,
        };
        assert(r.locations.deep_view() =~= seq![r.locations[0]@]);
        r
    }
}

} // verus!
