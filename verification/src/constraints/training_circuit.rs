use vstd::prelude::*;
use crate::constraints::{Circuit, ConstraintReport};
use crate::encoding::bytes_eq;
use crate::error::{ZkErrorKind, ZkProofError};
use crate::proofs::types::{CircuitKind, TrainingPrivateWitness, TrainingPublicInputs};
use crate::utils::{self, training_commitment_of};

verus! {

/// The circuit proving that a committed weight update ran the scheduled number of
/// steps and stayed within the loss bound.
#[derive(Debug, Default, Clone, Copy)]
pub struct TrainingCircuit;

/// The labels of the checks the training circuit reports.
pub open spec fn training_checks() -> Seq<Seq<char>> {
    seq![
        "matched weight update commitment to witness"@,
        "verified exact local step count"@,
        "verified loss threshold remained below the declared bound"@,
    ]
}

/// The first constraint of the training circuit that fails, given the commitment
/// recomputed from the witness; `None` when all hold.
pub open spec fn training_failure(
    public_inputs: TrainingPublicInputs,
    witness: TrainingPrivateWitness,
    recomputed: Seq<u8>,
) -> Option<(ZkErrorKind, Seq<char>)> {
    if public_inputs.expected_steps == 0 {
        Some((ZkErrorKind::InvalidPublicInputs, "expected training steps must be greater than zero"@))
    } else if recomputed != public_inputs.update_commitment@ {
        Some((ZkErrorKind::ConstraintUnsatisfied, "weight update commitment does not match the private witness"@))
    } else if witness.steps_completed != public_inputs.expected_steps {
        Some((ZkErrorKind::ConstraintUnsatisfied, "training step count does not match the public statement"@))
    } else if witness.observed_loss_milli > public_inputs.max_loss_milli {
        Some((ZkErrorKind::ConstraintUnsatisfied, "observed training loss exceeds the public threshold"@))
    } else {
        None
    }
}

impl TrainingCircuit {
    /// Checks the training constraints against `recomputed`, the commitment to the
    /// witness's update: at least one step must be scheduled, `recomputed` must equal
    /// the public commitment, the step counts must agree and the loss must not
    /// exceed the bound.
    pub fn evaluate_with_commitment(
        &self,
        public_inputs: &TrainingPublicInputs,
        private_witness: &TrainingPrivateWitness,
        recomputed: &[u8; 32],
    ) -> (r: Result<ConstraintReport, ZkProofError>)
        ensures
            match training_failure(*public_inputs, *private_witness, recomputed@) {
                None => r matches Ok(rep) && rep@ == (CircuitKind::Training, training_checks()),
                Some(f) => r matches Err(e) && e.parts() == f,
            },
    {
        if public_inputs.expected_steps == 0 {
            return Err(ZkProofError::InvalidPublicInputs(
                "expected training steps must be greater than zero".to_owned(),
            ));
        }
        if !bytes_eq(recomputed.as_slice(), public_inputs.update_commitment.as_slice()) {
            return Err(ZkProofError::ConstraintUnsatisfied(
                "weight update commitment does not match the private witness".to_owned(),
            ));
        }
        if private_witness.steps_completed != public_inputs.expected_steps {
            return Err(ZkProofError::ConstraintUnsatisfied(
                "training step count does not match the public statement".to_owned(),
            ));
        }
        if private_witness.observed_loss_milli > public_inputs.max_loss_milli {
            return Err(ZkProofError::ConstraintUnsatisfied(
                "observed training loss exceeds the public threshold".to_owned(),
            ));
        }
        let mut checks: Vec<String> = Vec::new();
        checks.push("matched weight update commitment to witness".to_owned());
        checks.push("verified exact local step count".to_owned());
        checks.push("verified loss threshold remained below the declared bound".to_owned());
        let report = ConstraintReport { circuit: self.kind(), checks };
        assert(report@.1 =~= training_checks());
        Ok(report)
    }
}

impl Circuit for TrainingCircuit {
    type PublicInputs = TrainingPublicInputs;
    type PrivateWitness = TrainingPrivateWitness;

    fn kind(&self) -> (r: CircuitKind)
        ensures
            r == CircuitKind::Training,
    {
        CircuitKind::Training
    }

    fn evaluate(
        &self,
        public_inputs: &TrainingPublicInputs,
        private_witness: &TrainingPrivateWitness,
    ) -> (r: Result<ConstraintReport, ZkProofError>)
        ensures
            match training_failure(
                *public_inputs,
                *private_witness,
                training_commitment_of(
                    public_inputs.base_model_digest@,
                    private_witness.weight_update_digest@,
                    private_witness.blinding@,
                ),
            ) {
                None => r matches Ok(rep) && rep@ == (CircuitKind::Training, training_checks()),
                Some(f) => r matches Err(e) && e.parts() == f,
            },
    {
        let recomputed = utils::training_commitment(
            public_inputs.base_model_digest,
            private_witness.weight_update_digest,
            &private_witness.blinding,
        )?;
        self.evaluate_with_commitment(public_inputs, private_witness, &recomputed)
    }
}


/// A statement that `TrainingPublicInputs::from_witness` built from a witness is
/// satisfied by that witness exactly when at least one step is scheduled, the
/// witness ran exactly the scheduled steps, and its loss is within the bound.
pub proof fn lemma_training_statement_of_witness(witness: TrainingPrivateWitness, statement: TrainingPublicInputs)
    requires
        statement.update_commitment@ == training_commitment_of(
            statement.base_model_digest@,
            witness.weight_update_digest@,
            witness.blinding@,
        ),
    ensures
        training_failure(
            statement,
            witness,
            training_commitment_of(
                statement.base_model_digest@,
                witness.weight_update_digest@,
                witness.blinding@,
            ),
        ) is None <==> (statement.expected_steps > 0 && witness.steps_completed
            == statement.expected_steps && witness.observed_loss_milli <= statement.max_loss_milli),
{
}

} // verus!
