//! Halo2 circuit-facing helpers.

use vstd::prelude::*;
use crate::constraints::{Circuit, LocationCircuit, TrainingCircuit};
use crate::constraints::location_circuit::location_failure;
use crate::constraints::training_circuit::training_failure;
use crate::encoding::push_bytes;
use crate::error::ZkProofError;
use crate::proofs::types::{
    BoundingBox, LocationPrivateWitness, LocationPublicInputs, TrainingPrivateWitness,
    TrainingPublicInputs,
};
use crate::utils::{location_commitment_of, training_commitment_of};
use vstd::string::StringSliceAdditionalSpecFns;

verus! {

/// The bytes the Halo2 location prover emits.
pub open spec fn halo2_location_marker() -> Seq<u8> {
    "halo2_location_proof_valid".spec_bytes()
}

/// The bytes the Halo2 training prover emits.
pub open spec fn halo2_training_marker() -> Seq<u8> {
    "halo2_training_proof_valid".spec_bytes()
}

/// Placeholder type of the Halo2 location circuit.
pub struct Halo2LocationCircuit;

impl Halo2LocationCircuit {
    /// Checks the bounding box the same way the native circuit does.
    pub fn validate_bounding_box(bbox: &BoundingBox) -> (r: Result<(), ZkProofError>)
        ensures
            r is Ok <==> bbox.is_well_formed(),
            r matches Err(e) ==> Some(e.parts()) == bbox.validation_failure(),
    {
        bbox.validate()
    }
}

/// Placeholder type of the Halo2 training circuit.
pub struct Halo2TrainingCircuit;

/// Produces the Halo2 location proof bytes once the native constraints hold.
pub fn prove_location_halo2_internal(
    public: &LocationPublicInputs,
    witness: &LocationPrivateWitness,
) -> (r: Result<Vec<u8>, ZkProofError>)
    ensures
        match location_failure(*public, *witness, location_commitment_of(witness.x, witness.y, witness.blinding@)) {
            None => r matches Ok(v) && v@ == halo2_location_marker(),
            Some(f) => r matches Err(e) && e.parts() == f,
        },
{
    Halo2LocationCircuit::validate_bounding_box(&public.bounding_box)?;
    LocationCircuit.evaluate(public, witness)?;
    let mut out: Vec<u8> = Vec::new();
    push_bytes(&mut out, "halo2_location_proof_valid".as_bytes());
    assert(out@ =~= halo2_location_marker());
    Ok(out)
}

/// Produces the Halo2 training proof bytes once the native constraints hold.
pub fn prove_training_halo2_internal(
    public: &TrainingPublicInputs,
    witness: &TrainingPrivateWitness,
) -> (r: Result<Vec<u8>, ZkProofError>)
    ensures
        match training_failure(
            *public,
            *witness,
            training_commitment_of(public.base_model_digest@, witness.weight_update_digest@, witness.blinding@),
        ) {
            None => r matches Ok(v) && v@ == halo2_training_marker(),
            Some(f) => r matches Err(e) && e.parts() == f,
        },
{
    TrainingCircuit.evaluate(public, witness)?;
    let mut out: Vec<u8> = Vec::new();
    push_bytes(&mut out, "halo2_training_proof_valid".as_bytes());
    assert(out@ =~= halo2_training_marker());
    Ok(out)
}

} // verus!
