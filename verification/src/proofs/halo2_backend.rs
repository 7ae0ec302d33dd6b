//! The Halo2 backend.
//!
//! This backend is a stub with no cryptographic security: the prover runs the
//! native constraint evaluator and emits a fixed marker, and the verifier accepts
//! exactly that marker. It is scaffolding for a real Halo2 circuit and must not be
//! used in production.

use vstd::prelude::*;
use crate::constraints::location_circuit::location_failure;
use crate::constraints::training_circuit::training_failure;
use crate::encoding::bytes_eq;
use crate::error::{ZkErrorKind, ZkProofError};
use crate::proofs::halo2_circuits::{
    self, Halo2LocationCircuit, halo2_location_marker, halo2_training_marker,
};
use crate::proofs::types::{
    LocationPrivateWitness, LocationPublicInputs, TrainingPrivateWitness, TrainingPublicInputs,
};
use crate::utils::{location_commitment_of, training_commitment_of};

verus! {

/// Why the Halo2 location verifier rejects `proof_bytes`; `None` when it accepts.
pub open spec fn halo2_location_failure(public: LocationPublicInputs, proof_bytes: Seq<u8>) -> Option<(ZkErrorKind, Seq<char>)> {
    if proof_bytes != halo2_location_marker() {
        Some((ZkErrorKind::VerificationFailed, "Invalid Halo2 proof marker"@))
    } else {
        public.bounding_box.validation_failure()
    }
}

/// Why the Halo2 training verifier rejects `proof_bytes`; `None` when it accepts.
pub open spec fn halo2_training_failure(proof_bytes: Seq<u8>) -> Option<(ZkErrorKind, Seq<char>)> {
    if proof_bytes != halo2_training_marker() {
        Some((ZkErrorKind::VerificationFailed, "Invalid Halo2 proof marker"@))
    } else {
        None
    }
}

/// Produces a (stub) Halo2 proof for the location circuit; the proof is returned
/// exactly when the native constraints hold, and the Halo2 verifier accepts it.
pub fn prove_location_halo2(
    public_inputs: &LocationPublicInputs,
    private_witness: &LocationPrivateWitness,
) -> (r: Result<Vec<u8>, ZkProofError>)
    ensures
        match location_failure(
            *public_inputs,
            *private_witness,
            location_commitment_of(private_witness.x, private_witness.y, private_witness.blinding@),
        ) {
            None => r matches Ok(v) && v@ == halo2_location_marker()
                && halo2_location_failure(*public_inputs, v@) is None,
            Some(f) => r matches Err(e) && e.parts() == f,
        },
{
    Halo2LocationCircuit::validate_bounding_box(&public_inputs.bounding_box)?;
    halo2_circuits::prove_location_halo2_internal(public_inputs, private_witness)
}

/// Produces a (stub) Halo2 proof for the training circuit; the proof is returned
/// exactly when the native constraints hold, and the Halo2 verifier accepts it.
pub fn prove_training_halo2(
    public_inputs: &TrainingPublicInputs,
    private_witness: &TrainingPrivateWitness,
) -> (r: Result<Vec<u8>, ZkProofError>)
    ensures
        match training_failure(
            *public_inputs,
            *private_witness,
            training_commitment_of(
                public_inputs.base_model_digest@,
                private_witness.weight_update_digest@,
                private_witness.blinding@,
            ),
        ) {
            None => r matches Ok(v) && v@ == halo2_training_marker() && halo2_training_failure(v@) is None,
            Some(f) => r matches Err(e) && e.parts() == f,
        },
{
    halo2_circuits::prove_training_halo2_internal(public_inputs, private_witness)
}

/// Verifies a (stub) Halo2 location proof: the bytes must be the location marker
/// and the bounding box well formed. The verification key is not read.
pub fn verify_location_halo2(
    _verification_key: &[u8],
    public_inputs: &LocationPublicInputs,
    proof_bytes: &[u8],
) -> (r: Result<(), ZkProofError>)
    ensures
        match halo2_location_failure(*public_inputs, proof_bytes@) {
            None => r is Ok,
            Some(f) => r matches Err(e) && e.parts() == f,
        },
{
    if bytes_eq(proof_bytes, "halo2_location_proof_valid".as_bytes()) {
        Halo2LocationCircuit::validate_bounding_box(&public_inputs.bounding_box)?;
        Ok(())
    } else {
        Err(ZkProofError::VerificationFailed("Invalid Halo2 proof marker".to_owned()))
    }
}

/// Verifies a (stub) Halo2 training proof: the bytes must be the training marker.
/// Neither the verification key nor the public inputs are read.
pub fn verify_training_halo2(
    _verification_key: &[u8],
    _public_inputs: &TrainingPublicInputs,
    proof_bytes: &[u8],
) -> (r: Result<(), ZkProofError>)
    ensures
        match halo2_training_failure(proof_bytes@) {
            None => r is Ok,
            Some(f) => r matches Err(e) && e.parts() == f,
        },
{
    if bytes_eq(proof_bytes, "halo2_training_proof_valid".as_bytes()) {
        Ok(())
    } else {
        Err(ZkProofError::VerificationFailed("Invalid Halo2 proof marker".to_owned()))
    }
}

} // verus!
