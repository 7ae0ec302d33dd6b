//! Post-quantum compatibility layer: backend descriptors, configuration, and the
//! lattice-, hash- and hybrid-based proof backends.

pub mod hybrid_mode;
pub mod lattice_backend;
pub mod migration;
pub mod pq_backends;

pub use hybrid_mode::HybridStrategy;
pub use migration::PlaceholderBackend;
pub use pq_backends::{
    CodeProof, HashProof, HybridProofEnvelope, PqcProofEnvelope, ProofMetadata,
    checked_verify_pqc_location_proof, checked_verify_pqc_training_proof,
    generate_pqc_location_proof, generate_pqc_training_proof, verify_pqc_location_proof,
    verify_pqc_training_proof,
};

use vstd::prelude::*;
use vstd::hash_map::StringHashMap;

verus! {

/// Status of a post-quantum backend implementation.
#[derive(Debug, Clone, Copy, PartialEq, Eq, Structural)]
pub enum PostQuantumBackendStatus {
    /// Reserved for a future implementation.
    Reserved,
    /// Planned but not yet implemented.
    Planned,
    /// Ready for production use.
    Ready,
}

/// Metadata about a post-quantum backend.
#[derive(Debug, Clone, PartialEq, Eq)]
pub struct PostQuantumBackendDescriptor {
    /// Human-readable name of the backend.
    pub name: &'static str,
    /// Current implementation status.
    pub status: PostQuantumBackendStatus,
    /// Additional notes about the backend.
    pub notes: &'static str,
    /// Steps required to migrate to this backend.
    pub migration_steps: &'static [&'static str],
}

/// Implemented by every post-quantum backend.
pub trait PostQuantumBackend {
    /// Returns the descriptor of the backend.
    fn descriptor(&self) -> PostQuantumBackendDescriptor;
}

/// The algorithm family of a post-quantum backend.
#[derive(Debug, Clone, Copy, PartialEq, Eq, Hash, Structural)]
pub enum PqcBackendType {
    /// Lattice-based (Kyber/Dilithium inspired).
    Lattice,
    /// Hash-based (SHA-3/Keccak).
    Hash,
    /// Code-based (McEliece/Niederreiter).
    Code,
    /// Classical and post-quantum combined.
    Hybrid,
}

impl PqcBackendType {
    /// The NIST security level of the family's common parameter sets.
    pub open spec fn nist_level(self) -> u32 {
        match self {
            PqcBackendType::Lattice => 3,
            PqcBackendType::Hash => 5,
            PqcBackendType::Code => 5,
            PqcBackendType::Hybrid => 3,
        }
    }

    /// Whether the family's backend is ready for production.
    pub open spec fn production_ready(self) -> bool {
        !(self is Code)
    }

    /// Returns the NIST security level of the family's common parameter sets.
    pub fn get_nist_security_level(&self) -> (r: u32)
        ensures
            r == self.nist_level(),
    {
        match self {
            PqcBackendType::Lattice => 3,
            PqcBackendType::Hash => 5,
            PqcBackendType::Code => 5,
            PqcBackendType::Hybrid => 3,
        }
    }

    /// Whether the family's backend is ready for production.
    pub fn is_production_ready(&self) -> (r: bool)
        ensures
            r == self.production_ready(),
    {
        match self {
            PqcBackendType::Lattice | PqcBackendType::Hash | PqcBackendType::Hybrid => true,
            PqcBackendType::Code => false,
        }
    }
}

/// Configuration of post-quantum proof operations.
pub struct PqcConfig {
    /// The backend family to use.
    pub backend_type: PqcBackendType,
    /// Target security level in bits (128, 192, 256, ...).
    pub security_level_bits: u32,
    /// Whether classical and post-quantum proofs are combined.
    pub hybrid_mode: bool,
    /// Custom parameters for specific backends.
    pub custom_params: StringHashMap<String>,
}

impl PqcConfig {
    /// Creates a configuration without hybrid mode or custom parameters.
    pub fn new(backend_type: PqcBackendType, security_level_bits: u32) -> (r: Self)
        ensures
            r.backend_type == backend_type,
            r.security_level_bits == security_level_bits,
            !r.hybrid_mode,
            r.custom_params@ == Map::<Seq<char>, String>::empty(),
    {
        PqcConfig { backend_type, security_level_bits, hybrid_mode: false, custom_params: StringHashMap::new() }
    }

    /// Sets hybrid mode, keeping everything else.
    pub fn with_hybrid_mode(self, enabled: bool) -> (r: Self)
        ensures
            r.hybrid_mode == enabled,
            r.backend_type == self.backend_type,
            r.security_level_bits == self.security_level_bits,
            r.custom_params@ == self.custom_params@,
    {
        let mut config = self;
        config.hybrid_mode = enabled;
        config
    }

    /// Adds (or replaces) a custom parameter, keeping everything else.
    pub fn with_param(self, key: &str, value: &str) -> (r: Self)
        ensures
            r.custom_params@ == self.custom_params@.insert(key@, r.custom_params@[key@]),
            r.custom_params@[key@]@ == value@,
            r.hybrid_mode == self.hybrid_mode,
            r.backend_type == self.backend_type,
            r.security_level_bits == self.security_level_bits,
    {
        let mut config = self;
        config.custom_params.insert(key.to_owned(), value.to_owned());
        config
    }

    /// What `validate` reports: nothing when the level is at least 128 bits and the
    /// backend is production ready.
    pub open spec fn validation_failure(&self) -> Option<PqcError> {
        if self.security_level_bits < 128 {
            Some(PqcError::InsufficientSecurityLevel(self.security_level_bits))
        } else if !self.backend_type.production_ready() {
            Some(PqcError::BackendNotReady(self.backend_type))
        } else {
            None
        }
    }

    /// Checks that the security level is at least 128 bits and that the backend is
    /// ready for production.
    pub fn validate(&self) -> (r: Result<(), PqcError>)
        ensures
            match self.validation_failure() {
                None => r is Ok,
                Some(e) => r == Err::<(), PqcError>(e),
            },
    {
        if self.security_level_bits < 128 {
            return Err(PqcError::InsufficientSecurityLevel(self.security_level_bits));
        }
        if !self.backend_type.is_production_ready() {
            return Err(PqcError::BackendNotReady(self.backend_type));
        }
        Ok(())
    }
}

impl Default for PqcConfig {
    fn default() -> (r: Self)
        ensures
            r.backend_type == PqcBackendType::Lattice,
            r.security_level_bits == 128,
            !r.hybrid_mode,
            r.custom_params@ == Map::<Seq<char>, String>::empty(),
    {
        Self::new(PqcBackendType::Lattice, 128)
    }
}

/// Errors of post-quantum operations.
#[derive(Debug, Clone)]
pub enum PqcError {
    /// The security level is below 128 bits.
    InsufficientSecurityLevel(u32),
    /// The backend is not ready for production use.
    BackendNotReady(PqcBackendType),
    /// A proof could not be generated.
    ProofGenerationFailed(String),
    /// A proof could not be verified.
    VerificationFailed(String),
    /// A proof is malformed.
    InvalidProofFormat(String),
    /// Encoding or decoding failed.
    SerializationError(String),
    /// The parts of a hybrid proof do not agree.
    HybridMismatch(String),
}

/// The character of a decimal digit.
pub open spec fn digit_char(d: nat) -> char {
    ('0' as u32 + d) as char
}

/// The decimal notation of a number, without leading zeros.
pub open spec fn decimal(n: nat) -> Seq<char>
    decreases n,
{
    if n < 10 {
        seq![digit_char(n)]
    } else {
        decimal(n / 10).push(digit_char(n % 10))
    }
}

fn digit_str(d: u32) -> (r: &'static str)
    requires
        d < 10,
    ensures
        r@ == seq![digit_char(d as nat)],
{
    proof {
        reveal_strlit("0");
        reveal_strlit("1");
        reveal_strlit("2");
        reveal_strlit("3");
        reveal_strlit("4");
        reveal_strlit("5");
        reveal_strlit("6");
        reveal_strlit("7");
        reveal_strlit("8");
        reveal_strlit("9");
    }
    let r = match d {
        0 => "0",
        1 => "1",
        2 => "2",
        3 => "3",
        4 => "4",
        5 => "5",
        6 => "6",
        7 => "7",
        8 => "8",
        _ => "9",
    };
    assert(r@ =~= seq![digit_char(d as nat)]);
    r
}

fn push_decimal(out: &mut String, n: u32)
    ensures
        final(out)@ == old(out)@ + decimal(n as nat),
    decreases n,
{
    if n >= 10 {
        push_decimal(out, n / 10);
    }
    out.append(digit_str(n % 10));
    assert(out@ =~= old(out)@ + decimal(n as nat));
}

impl PqcBackendType {
    /// The variant's name.
    pub open spec fn name(self) -> Seq<char> {
        match self {
            PqcBackendType::Lattice => "Lattice"@,
            PqcBackendType::Hash => "Hash"@,
            PqcBackendType::Code => "Code"@,
            PqcBackendType::Hybrid => "Hybrid"@,
        }
    }
}

impl PqcError {
    /// The human-readable rendering of the error.
    pub open spec fn spec_display(&self) -> Seq<char> {
        match self {
            PqcError::InsufficientSecurityLevel(b) => "Insufficient security level: "@ + decimal(
                *b as nat,
            ) + " bits (minimum 128)"@,
            PqcError::BackendNotReady(t) => "Backend "@ + t.name() + " is not ready for production use"@,
            PqcError::ProofGenerationFailed(m) => "Proof generation failed: "@ + m@,
            PqcError::VerificationFailed(m) => "Proof verification failed: "@ + m@,
            PqcError::InvalidProofFormat(m) => "Invalid proof format: "@ + m@,
            PqcError::SerializationError(m) => "Serialization error: "@ + m@,
            PqcError::HybridMismatch(m) => "Hybrid proof mismatch: "@ + m@,
        }
    }

    /// Renders the error as text.
    pub fn to_string(&self) -> (r: String)
        ensures
            r@ == self.spec_display(),
    {
        let mut out = String::new();
        match self {
            PqcError::InsufficientSecurityLevel(b) => {
                out.append("Insufficient security level: ");
                push_decimal(&mut out, *b);
                out.append(" bits (minimum 128)");
            },
            PqcError::BackendNotReady(t) => {
                out.append("Backend ");
                out.append(
                    match t {
                        PqcBackendType::Lattice => "Lattice",
                        PqcBackendType::Hash => "Hash",
                        PqcBackendType::Code => "Code",
                        PqcBackendType::Hybrid => "Hybrid",
                    },
                );
                out.append(" is not ready for production use");
            },
            PqcError::ProofGenerationFailed(m) => {
                out.append("Proof generation failed: ");
                out.append(m.as_str());
            },
            PqcError::VerificationFailed(m) => {
                out.append("Proof verification failed: ");
                out.append(m.as_str());
            },
            PqcError::InvalidProofFormat(m) => {
                out.append("Invalid proof format: ");
                out.append(m.as_str());
            },
            PqcError::SerializationError(m) => {
                out.append("Serialization error: ");
                out.append(m.as_str());
            },
            PqcError::HybridMismatch(m) => {
                out.append("Hybrid proof mismatch: ");
                out.append(m.as_str());
            },
        }
        out
    }
}

/// The result type of post-quantum operations.
pub type PqcResult<T> = Result<T, PqcError>;

} // verus!
