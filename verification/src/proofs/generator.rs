//! Proof generation with the development signed-transcript scheme.

use vstd::prelude::*;
use crate::constraints::{
    Circuit, ConstraintReport, LocationCircuit, TrainingCircuit, report_wire,
};
use crate::constraints::location_circuit::{location_checks, location_failure};
use crate::constraints::training_circuit::{training_checks, training_failure};
use crate::crypto::{self, ed25519_public_key, ed25519_signature, sha256_digest};
use crate::encoding::push_bytes;
use crate::error::ZkProofError;
use crate::proofs::{transcript_bytes, transcript_message};
use crate::proofs::types::{
    CircuitKind, LocationPrivateWitness, LocationPublicInputs, Proof, ProofScheme,
    TrainingPrivateWitness, TrainingPublicInputs, VerificationKey, WireFormat,
};
use crate::proofs::verification::transcript_failure;
use crate::proofs::halo2_backend;
use crate::proofs::halo2_circuits::{halo2_location_marker, halo2_training_marker};
use crate::utils::{location_commitment_of, training_commitment_of};

verus! {

/// Holds the Ed25519 secret seed that signs development-scheme proofs.
///
/// The seed is used directly as the Ed25519 secret key, with no key derivation: it
/// must carry enough entropy and never be shared between contexts.
pub struct ProvingContext {
    seed: [u8; 32],
}

impl ProvingContext {
    /// The secret seed of the context's signing key.
    pub closed spec fn signing_seed(&self) -> Seq<u8> {
        self.seed@
    }

    /// Creates a context whose signing key is derived from a raw 32-byte seed.
    pub fn from_seed(seed: [u8; 32]) -> (r: Self)
        ensures
            r.signing_seed() == seed@,
    {
        ProvingContext { seed }
    }

    /// The verification key that matches this context's signing key.
    pub fn verification_key(&self) -> (r: VerificationKey)
        ensures
            r.verifying_key@ == ed25519_public_key(self.signing_seed()),
            r.zk_snark_vk is None,
    {
        VerificationKey { verifying_key: crypto::ed25519_derive_public_key(&self.seed), zk_snark_vk: None }
    }
}

/// The proof that signing a report for a statement yields: the report's circuit, the
/// development scheme, both digests, the signature of the transcript, no backend proof.
pub open spec fn signed_proof(
    seed: Seq<u8>,
    public_wire: Seq<u8>,
    report: (CircuitKind, Seq<Seq<char>>),
) -> (CircuitKind, ProofScheme, Seq<u8>, Seq<u8>, Seq<u8>, Option<Seq<u8>>) {
    let statement_digest = sha256_digest(public_wire);
    let constraint_digest = sha256_digest(report_wire(report));
    let scheme = ProofScheme::DevelopmentSignedTranscriptV1;
    (
        report.0,
        scheme,
        statement_digest,
        constraint_digest,
        ed25519_signature(
            seed,
            transcript_bytes(report.0, scheme, statement_digest, constraint_digest, public_wire),
        ),
        None,
    )
}

fn sign_proof<T: WireFormat>(
    context: &ProvingContext,
    public_inputs: &T,
    report: ConstraintReport,
) -> (r: Result<Proof, ZkProofError>)
    ensures
        r matches Ok(p) && p@ == signed_proof(context.signing_seed(), public_inputs.wire_bytes(), report@)
            && p.wire_bytes().len() == 145 && transcript_failure(
            ed25519_public_key(context.signing_seed()),
            report@.0,
            public_inputs.wire_bytes(),
            p@,
        ) is None,
{
    let mut encoded: Vec<u8> = Vec::new();
    public_inputs.write_wire(&mut encoded);
    assert(encoded@ =~= public_inputs.wire_bytes());
    let statement_digest = crypto::sha256(encoded.as_slice());
    let constraint_digest = report.digest()?;
    let scheme = ProofScheme::DevelopmentSignedTranscriptV1;
    let message = transcript_message(report.circuit, scheme, statement_digest, constraint_digest, public_inputs)?;
    let signature_bytes = crypto::ed25519_sign(&context.seed, message.as_slice());
    let mut signature: Vec<u8> = Vec::new();
    push_bytes(&mut signature, signature_bytes.as_slice());
    assert(signature@ =~= signature_bytes@);
    Ok(Proof {
        circuit: report.circuit,
        scheme,
        statement_digest,
        constraint_digest,
        signature,
        backend_proof: None,
    })
}

/// Proves that a private location witness satisfies the constraints of
/// `public_inputs`, with the development signed-transcript scheme.
///
/// The proof is returned exactly when the location circuit accepts the witness; it
/// is then accepted by the verifier under this context's verification key, and it
/// encodes in 145 bytes.
pub fn prove_location(
    context: &ProvingContext,
    public_inputs: &LocationPublicInputs,
    private_witness: &LocationPrivateWitness,
) -> (r: Result<Proof, ZkProofError>)
    ensures
        match location_failure(
            *public_inputs,
            *private_witness,
            location_commitment_of(private_witness.x, private_witness.y, private_witness.blinding@),
        ) {
            Some(f) => r matches Err(e) && e.parts() == f,
            None => r matches Ok(p) && p@ == signed_proof(
                context.signing_seed(),
                public_inputs.wire_bytes(),
                (CircuitKind::Location, location_checks()),
            ) && transcript_failure(
                ed25519_public_key(context.signing_seed()),
                CircuitKind::Location,
                public_inputs.wire_bytes(),
                p@,
            ) is None && p.wire_bytes().len() == 145,
        },
{
    let report = LocationCircuit.evaluate(public_inputs, private_witness)?;
    sign_proof(context, public_inputs, report)
}

/// Proves that a private training witness satisfies the constraints of
/// `public_inputs`, with the development signed-transcript scheme.
///
/// The proof is returned exactly when the training circuit accepts the witness; it
/// is then accepted by the verifier under this context's verification key, and it
/// encodes in 145 bytes.
pub fn prove_training(
    context: &ProvingContext,
    public_inputs: &TrainingPublicInputs,
    private_witness: &TrainingPrivateWitness,
) -> (r: Result<Proof, ZkProofError>)
    ensures
        match training_failure(
            *public_inputs,
            *private_witness,
            training_commitment_of(
                public_inputs.base_model_digest@,
                private_witness.weight_update_digest@,
                private_witness.blinding@,
            ),
        ) {
            Some(f) => r matches Err(e) && e.parts() == f,
            None => r matches Ok(p) && p@ == signed_proof(
                context.signing_seed(),
                public_inputs.wire_bytes(),
                (CircuitKind::Training, training_checks()),
            ) && transcript_failure(
                ed25519_public_key(context.signing_seed()),
                CircuitKind::Training,
                public_inputs.wire_bytes(),
                p@,
            ) is None && p.wire_bytes().len() == 145,
        },
{
    let report = TrainingCircuit.evaluate(public_inputs, private_witness)?;
    sign_proof(context, public_inputs, report)
}


/// The envelope around a backend proof: the report's circuit, the backend's scheme,
/// both digests, no signature, and the backend proof bytes.
pub open spec fn backend_envelope(
    public_wire: Seq<u8>,
    report: (CircuitKind, Seq<Seq<char>>),
    scheme: ProofScheme,
    backend_proof: Seq<u8>,
) -> (CircuitKind, ProofScheme, Seq<u8>, Seq<u8>, Seq<u8>, Option<Seq<u8>>) {
    (
        report.0,
        scheme,
        sha256_digest(public_wire),
        sha256_digest(report_wire(report)),
        Seq::empty(),
        Some(backend_proof),
    )
}

fn envelope_backend_proof<T: WireFormat>(
    public_inputs: &T,
    report: ConstraintReport,
    scheme: ProofScheme,
    backend_proof: Vec<u8>,
) -> (r: Result<Proof, ZkProofError>)
    ensures
        r matches Ok(p) && p@ == backend_envelope(public_inputs.wire_bytes(), report@, scheme, backend_proof@),
{
    let mut encoded: Vec<u8> = Vec::new();
    public_inputs.write_wire(&mut encoded);
    assert(encoded@ =~= public_inputs.wire_bytes());
    let statement_digest = crypto::sha256(encoded.as_slice());
    let constraint_digest = report.digest()?;
    let proof = Proof {
        circuit: report.circuit,
        scheme,
        statement_digest,
        constraint_digest,
        signature: Vec::new(),
        backend_proof: Some(backend_proof),
    };
    assert(proof@.4 =~= Seq::<u8>::empty());
    Ok(proof)
}

/// Wraps the proof that a location proving backend produced in the standard
/// envelope: the location circuit is evaluated again, and the envelope carries the
/// backend's scheme, both digests and the backend proof.
pub fn envelope_location_backend_proof(
    public_inputs: &LocationPublicInputs,
    private_witness: &LocationPrivateWitness,
    scheme: ProofScheme,
    backend_proof: Vec<u8>,
) -> (r: Result<Proof, ZkProofError>)
    ensures
        match location_failure(
            *public_inputs,
            *private_witness,
            location_commitment_of(private_witness.x, private_witness.y, private_witness.blinding@),
        ) {
            Some(f) => r matches Err(e) && e.parts() == f,
            None => r matches Ok(p) && p@ == backend_envelope(
                public_inputs.wire_bytes(),
                (CircuitKind::Location, location_checks()),
                scheme,
                backend_proof@,
            ),
        },
{
    let report = LocationCircuit.evaluate(public_inputs, private_witness)?;
    envelope_backend_proof(public_inputs, report, scheme, backend_proof)
}

/// Wraps the proof that a training proving backend produced in the standard
/// envelope: the training circuit is evaluated again, and the envelope carries the
/// backend's scheme, both digests and the backend proof.
pub fn envelope_training_backend_proof(
    public_inputs: &TrainingPublicInputs,
    private_witness: &TrainingPrivateWitness,
    scheme: ProofScheme,
    backend_proof: Vec<u8>,
) -> (r: Result<Proof, ZkProofError>)
    ensures
        match training_failure(
            *public_inputs,
            *private_witness,
            training_commitment_of(
                public_inputs.base_model_digest@,
                private_witness.weight_update_digest@,
                private_witness.blinding@,
            ),
        ) {
            Some(f) => r matches Err(e) && e.parts() == f,
            None => r matches Ok(p) && p@ == backend_envelope(
                public_inputs.wire_bytes(),
                (CircuitKind::Training, training_checks()),
                scheme,
                backend_proof@,
            ),
        },
{
    let report = TrainingCircuit.evaluate(public_inputs, private_witness)?;
    envelope_backend_proof(public_inputs, report, scheme, backend_proof)
}

/// Proves a location statement with the (stub) Halo2 backend and wraps the result
/// in the standard envelope. The context is not used.
pub fn prove_location_halo2(
    _context: &ProvingContext,
    public_inputs: &LocationPublicInputs,
    private_witness: &LocationPrivateWitness,
) -> (r: Result<Proof, ZkProofError>)
    ensures
        match location_failure(
            *public_inputs,
            *private_witness,
            location_commitment_of(private_witness.x, private_witness.y, private_witness.blinding@),
        ) {
            Some(f) => r matches Err(e) && e.parts() == f,
            None => r matches Ok(p) && p@ == backend_envelope(
                public_inputs.wire_bytes(),
                (CircuitKind::Location, location_checks()),
                ProofScheme::Halo2V1,
                halo2_location_marker(),
            ),
        },
{
    let proof_bytes = halo2_backend::prove_location_halo2(public_inputs, private_witness)?;
    envelope_location_backend_proof(public_inputs, private_witness, ProofScheme::Halo2V1, proof_bytes)
}

/// Proves a training statement with the (stub) Halo2 backend and wraps the result
/// in the standard envelope. The context is not used.
pub fn prove_training_halo2(
    _context: &ProvingContext,
    public_inputs: &TrainingPublicInputs,
    private_witness: &TrainingPrivateWitness,
) -> (r: Result<Proof, ZkProofError>)
    ensures
        match training_failure(
            *public_inputs,
            *private_witness,
            training_commitment_of(
                public_inputs.base_model_digest@,
                private_witness.weight_update_digest@,
                private_witness.blinding@,
            ),
        ) {
            Some(f) => r matches Err(e) && e.parts() == f,
            None => r matches Ok(p) && p@ == backend_envelope(
                public_inputs.wire_bytes(),
                (CircuitKind::Training, training_checks()),
                ProofScheme::Halo2V1,
                halo2_training_marker(),
            ),
        },
{
    let proof_bytes = halo2_backend::prove_training_halo2(public_inputs, private_witness)?;
    envelope_training_backend_proof(public_inputs, private_witness, ProofScheme::Halo2V1, proof_bytes)
}

} // verus!
