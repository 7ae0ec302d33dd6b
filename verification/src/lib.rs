//! Verifiable location and training statements for distributed spatial networks.
//!
//! Two statements are modelled: a node knows coordinates, committed to, that lie in
//! a public bounding box; and a node knows a committed weight update whose step
//! count matches a public schedule and whose loss stays under a public bound. The
//! default backend checks the circuit constraints locally, digests the statement and
//! the constraint report, and signs the transcript with Ed25519; the wire format,
//! the checks and the verifier's decisions are specified and proved here.

pub mod constraints;
pub mod crypto;
pub mod encoding;
pub mod error;
pub mod pq_compatibility;
pub mod proofs;
pub mod utils;

pub use constraints::{ConstraintReport, LocationCircuit, TrainingCircuit};
pub use error::ZkProofError;
pub use pq_compatibility::{
    PlaceholderBackend, PostQuantumBackend, PostQuantumBackendDescriptor, PostQuantumBackendStatus,
};
pub use proofs::generator::{ProvingContext, prove_location, prove_training};
pub use proofs::types::{
    BoundingBox, CircuitKind, LocationPrivateWitness, LocationPublicInputs, Proof, ProofScheme,
    TrainingPrivateWitness, TrainingPublicInputs, VerificationKey,
};
pub use proofs::verification::{verify_location_proof, verify_training_proof};
pub use utils::{
    constant_time_eq_bytes, generate_csprng_blinding_factor, generate_deterministic_blinding_factor,
    generate_secure_blinding_factor, hash_bytes, location_commitment, training_commitment,
    validate_blinding_factor,
};
