use smp_zk_proofs::{
    prove_location, prove_training, BoundingBox, CircuitKind, LocationPrivateWitness,
    LocationPublicInputs, Proof, ProofScheme, ProvingContext, TrainingPrivateWitness,
    TrainingPublicInputs, VerificationKey,
};

fn fuzz_location_proof_serialization(data: &[u8]) {
    if let Ok(proof) = Proof::from_bytes(data) {
        assert_eq!(proof.circuit, CircuitKind::Location);
        assert_eq!(proof.scheme, ProofScheme::DevelopmentSignedTranscriptV1);
    }

    let context = ProvingContext::from_seed([0_u8; 32]);
    let witness = LocationPrivateWitness {
        x: 41,
        y: 12,
        blinding: [3_u8; 32],
    };
    let x_min = (data[0] % 100) as i64;
    let x_max = ((data[0] + 50) % 100) as i64 + x_min;
    let y_min = (data[1] % 50) as i64;
    let y_max = ((data[1] + 30) % 50) as i64 + y_min;
    let bounding_box = BoundingBox {
        x_min,
        x_max,
        y_min,
        y_max,
    };
    if let Ok(public_inputs) = LocationPublicInputs::from_witness(bounding_box, &witness) {
        if let Ok(proof) = prove_location(&context, &public_inputs, &witness) {
            let bytes = proof.to_bytes().unwrap();
            assert_eq!(Proof::from_bytes(&bytes).unwrap(), proof);
        }
    }
}

fn fuzz_training_proof_serialization(data: &[u8]) {
    if let Ok(proof) = Proof::from_bytes(data) {
        assert_eq!(proof.circuit, CircuitKind::Training);
        assert_eq!(proof.scheme, ProofScheme::DevelopmentSignedTranscriptV1);
    }

    let context = ProvingContext::from_seed([0_u8; 32]);
    let steps_completed = (data[0] % 20) as u32 + 1;
    let observed_loss_milli = (data[1] as u64 % 500) + 10;
    let witness = TrainingPrivateWitness {
        steps_completed,
        observed_loss_milli,
        weight_update_digest: [5_u8; 32],
        blinding: [1_u8; 32],
    };
    if let Ok(public_inputs) = TrainingPublicInputs::from_witness(
        steps_completed,
        (data[2] as u64 % 1000) + 100,
        [2_u8; 32],
        &witness,
    ) {
        if let Ok(proof) = prove_training(&context, &public_inputs, &witness) {
            let bytes = proof.to_bytes().unwrap();
            assert_eq!(Proof::from_bytes(&bytes).unwrap(), proof);
        }
    }
}

fn fuzz_location_public_inputs_serialization(data: &[u8]) {
    if let Ok(inputs) = LocationPublicInputs::from_bytes(data) {
        assert!(inputs.bounding_box.validate().is_ok());
    }

    let witness = LocationPrivateWitness {
        x: (data[0] % 200) as i64,
        y: (data[1] % 200) as i64,
        blinding: [3_u8; 32],
    };
    let bounding_box = BoundingBox {
        x_min: (data[2] % 100) as i64,
        x_max: ((data[2] + 50) % 100) as i64 + (data[2] % 100) as i64,
        y_min: (data[3] % 50) as i64,
        y_max: ((data[3] + 30) % 50) as i64 + (data[3] % 50) as i64,
    };
    if let Ok(inputs) = LocationPublicInputs::from_witness(bounding_box, &witness) {
        let bytes = inputs.to_bytes().unwrap();
        assert_eq!(LocationPublicInputs::from_bytes(&bytes).unwrap(), inputs);
    }
}

fn fuzz_training_public_inputs_serialization(data: &[u8]) {
    if let Ok(inputs) = TrainingPublicInputs::from_bytes(data) {
        assert!(inputs.expected_steps > 0);
    }

    let witness = TrainingPrivateWitness {
        steps_completed: (data[0] % 30) as u32 + 1,
        observed_loss_milli: (data[1] as u64 % 1000) + 10,
        weight_update_digest: [5_u8; 32],
        blinding: [1_u8; 32],
    };
    if let Ok(inputs) = TrainingPublicInputs::from_witness(
        (data[2] % 50) as u32 + 1,
        (data[3] as u64 % 2000) + 100,
        [2_u8; 32],
        &witness,
    ) {
        let bytes = inputs.to_bytes().unwrap();
        assert_eq!(TrainingPublicInputs::from_bytes(&bytes).unwrap(), inputs);
    }
}

fn fuzz_proof_verification_key_serialization(data: &[u8]) {
    if let Ok(vk) = VerificationKey::from_bytes(data) {
        assert_eq!(vk.verifying_key.len(), 32);
    }

    let context = ProvingContext::from_seed([0_u8; 32]);
    let vk = context.verification_key();
    let bytes = vk.to_bytes().unwrap();
    assert_eq!(VerificationKey::from_bytes(&bytes).unwrap(), vk);
}

fn run_all_fuzz_targets(data: &[u8]) {
    fuzz_location_proof_serialization(data);
    fuzz_training_proof_serialization(data);
    fuzz_location_public_inputs_serialization(data);
    fuzz_training_public_inputs_serialization(data);
    fuzz_proof_verification_key_serialization(data);
}

#[test]
fn fuzz_targets_hold_on_short_inputs() {
    for data in [
        &[0_u8, 0, 0, 0][..],
        &[7, 9, 3, 4],
        &[99, 49, 150, 200],
        &[205, 205, 205, 205, 1, 2, 3],
    ] {
        run_all_fuzz_targets(data);
    }
}

#[test]
fn fuzz_targets_hold_on_a_well_formed_verification_key() {
    let mut data = vec![1_u8; 32];
    data.push(0);
    run_all_fuzz_targets(&data);
}

#[test]
fn fuzz_location_target_accepts_a_location_proof_encoding() {
    let context = ProvingContext::from_seed([0_u8; 32]);
    let witness = LocationPrivateWitness {
        x: 41,
        y: 12,
        blinding: [3_u8; 32],
    };
    let public_inputs = LocationPublicInputs::from_witness(
        BoundingBox {
            x_min: 0,
            x_max: 50,
            y_min: 0,
            y_max: 50,
        },
        &witness,
    )
    .unwrap();
    let bytes = prove_location(&context, &public_inputs, &witness)
        .unwrap()
        .to_bytes()
        .unwrap();
    fuzz_location_proof_serialization(&bytes);
}
