use vstd::prelude::*;
use crate::constraints::{Circuit, ConstraintReport};
use crate::encoding::bytes_eq;
use crate::error::{ZkErrorKind, ZkProofError};
use crate::proofs::types::{BoundingBox, CircuitKind, LocationPrivateWitness, LocationPublicInputs};
use crate::utils::{self, location_commitment_of};

verus! {

/// The circuit proving that committed coordinates lie inside a public bounding box.
#[derive(Debug, Default, Clone, Copy)]
pub struct LocationCircuit;

/// The labels of the checks the location circuit reports.
pub open spec fn location_checks() -> Seq<Seq<char>> {
    seq![
        "validated public bounding box shape"@,
        "matched coordinate commitment to witness"@,
        "proved witness is within the public bounding box"@,
    ]
}

/// The first constraint of the location circuit that fails, given the commitment
/// recomputed from the witness; `None` when all hold.
pub open spec fn location_failure(
    public_inputs: LocationPublicInputs,
    witness: LocationPrivateWitness,
    recomputed: Seq<u8>,
) -> Option<(ZkErrorKind, Seq<char>)> {
    if !public_inputs.bounding_box.is_well_formed() {
        public_inputs.bounding_box.validation_failure()
    } else if recomputed != public_inputs.coordinate_commitment@ {
        Some((ZkErrorKind::ConstraintUnsatisfied, "coordinate commitment does not match the private witness"@))
    } else if !public_inputs.bounding_box.holds_point(witness.x, witness.y) {
        Some((ZkErrorKind::ConstraintUnsatisfied, "coordinate witness is outside the declared bounding box"@))
    } else {
        None
    }
}

impl LocationCircuit {
    /// Checks the location constraints against `recomputed`, the commitment to the
    /// witness's coordinates: the box must be well formed, `recomputed` must equal
    /// the public commitment, and the point must lie in the box.
    pub fn evaluate_with_commitment(
        &self,
        public_inputs: &LocationPublicInputs,
        private_witness: &LocationPrivateWitness,
        recomputed: &[u8; 32],
    ) -> (r: Result<ConstraintReport, ZkProofError>)
        ensures
            match location_failure(*public_inputs, *private_witness, recomputed@) {
                None => r matches Ok(rep) && rep@ == (CircuitKind::Location, location_checks()),
                Some(f) => r matches Err(e) && e.parts() == f,
            },
    {
        public_inputs.bounding_box.validate()?;
        if !bytes_eq(recomputed.as_slice(), public_inputs.coordinate_commitment.as_slice()) {
            return Err(ZkProofError::ConstraintUnsatisfied(
                "coordinate commitment does not match the private witness".to_owned(),
            ));
        }
        if !public_inputs.bounding_box.contains(private_witness.x, private_witness.y) {
            return Err(ZkProofError::ConstraintUnsatisfied(
                "coordinate witness is outside the declared bounding box".to_owned(),
            ));
        }
        let mut checks: Vec<String> = Vec::new();
        checks.push("validated public bounding box shape".to_owned());
        checks.push("matched coordinate commitment to witness".to_owned());
        checks.push("proved witness is within the public bounding box".to_owned());
        let report = ConstraintReport { circuit: self.kind(), checks };
        assert(report@.1 =~= location_checks());
        Ok(report)
    }
}

impl Circuit for LocationCircuit {
    type PublicInputs = LocationPublicInputs;
    type PrivateWitness = LocationPrivateWitness;

    fn kind(&self) -> (r: CircuitKind)
        ensures
            r == CircuitKind::Location,
    {
        CircuitKind::Location
    }

    fn evaluate(
        &self,
        public_inputs: &LocationPublicInputs,
        private_witness: &LocationPrivateWitness,
    ) -> (r: Result<ConstraintReport, ZkProofError>)
        ensures
            match location_failure(
                *public_inputs,
                *private_witness,
                location_commitment_of(private_witness.x, private_witness.y, private_witness.blinding@),
            ) {
                None => r matches Ok(rep) && rep@ == (CircuitKind::Location, location_checks()),
                Some(f) => r matches Err(e) && e.parts() == f,
            },
    {
        let recomputed = utils::location_commitment(private_witness.x, private_witness.y, &private_witness.blinding)?;
        self.evaluate_with_commitment(public_inputs, private_witness, &recomputed)
    }
}


/// A statement that `LocationPublicInputs::from_witness` built from a witness is
/// satisfied by that witness exactly when the witness's point lies in the box.
pub proof fn lemma_location_statement_of_witness(
    bounding_box: BoundingBox,
    witness: LocationPrivateWitness,
    statement: LocationPublicInputs,
)
    requires
        bounding_box.is_well_formed(),
        statement.bounding_box == bounding_box,
        statement.coordinate_commitment@ == location_commitment_of(witness.x, witness.y, witness.blinding@),
    ensures
        location_failure(
            statement,
            witness,
            location_commitment_of(witness.x, witness.y, witness.blinding@),
        ) is None <==> bounding_box.holds_point(witness.x, witness.y),
{
}

/// With a well-formed box and the commitment to the witness, the location circuit
/// (and so `prove_location`) rejects a witness exactly when one of its coordinates
/// lies below or above that axis's bounds, reporting that it is outside the box.
pub proof fn lemma_location_rejects_points_outside_the_box(
    statement: LocationPublicInputs,
    witness: LocationPrivateWitness,
)
    requires
        statement.bounding_box.x_min <= statement.bounding_box.x_max,
        statement.bounding_box.y_min <= statement.bounding_box.y_max,
        statement.coordinate_commitment@ == location_commitment_of(witness.x, witness.y, witness.blinding@),
    ensures
        witness.x < statement.bounding_box.x_min || witness.x > statement.bounding_box.x_max
            || witness.y < statement.bounding_box.y_min || witness.y > statement.bounding_box.y_max
            ==> location_failure(
            statement,
            witness,
            location_commitment_of(witness.x, witness.y, witness.blinding@),
        ) == Some(
            (ZkErrorKind::ConstraintUnsatisfied, "coordinate witness is outside the declared bounding box"@),
        ),
        statement.bounding_box.x_min <= witness.x <= statement.bounding_box.x_max
            && statement.bounding_box.y_min <= witness.y <= statement.bounding_box.y_max
            ==> location_failure(
            statement,
            witness,
            location_commitment_of(witness.x, witness.y, witness.blinding@),
        ) is None,
{
}

} // verus!
