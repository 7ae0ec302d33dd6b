use ark_ec::AffineRepr;
use ark_serialize::CanonicalSerialize;
use smp_zk_proofs::constraints::Circuit;
use smp_zk_proofs::proofs::generator::{prove_location_halo2, prove_training_halo2};
use smp_zk_proofs::proofs::groth16_backend::{
    assemble_groth16_blob, check_groth16_key_points, groth16_decision, location_r1cs, split_groth16_blob, training_r1cs,
    verify_location_groth16, verify_training_groth16, LocationR1CS, TrainingR1CS,
};
use smp_zk_proofs::proofs::halo2_backend::{verify_location_halo2, verify_training_halo2};
use smp_zk_proofs::proofs::verification::check_signed_transcript;
use smp_zk_proofs::{
    location_commitment, prove_location, prove_training, validate_blinding_factor, verify_location_proof,
    verify_training_proof, BoundingBox, CircuitKind, LocationCircuit, LocationPrivateWitness,
    LocationPublicInputs, Proof, ProofScheme, ProvingContext, TrainingCircuit,
    TrainingPrivateWitness, TrainingPublicInputs, VerificationKey, ZkProofError,
};

fn unit_box() -> BoundingBox {
    BoundingBox {
        x_min: 0,
        x_max: 10,
        y_min: 0,
        y_max: 10,
    }
}

fn location_statement(x: i64, y: i64) -> (LocationPublicInputs, LocationPrivateWitness) {
    let witness = LocationPrivateWitness {
        x,
        y,
        blinding: [11; 32],
    };
    let public = LocationPublicInputs {
        bounding_box: unit_box(),
        coordinate_commitment: location_commitment(x, y, &witness.blinding).unwrap(),
    };
    (public, witness)
}

fn training_statement(steps: u32, loss: u64, bound: u64) -> (TrainingPublicInputs, TrainingPrivateWitness) {
    let witness = TrainingPrivateWitness {
        steps_completed: steps,
        observed_loss_milli: loss,
        weight_update_digest: [21; 32],
        blinding: [22; 32],
    };
    let public = TrainingPublicInputs::from_witness(steps, bound, [23; 32], &witness).unwrap();
    (public, witness)
}

#[test]
fn every_error_variant_renders_with_its_prefix() {
    let cases = [
        (ZkProofError::InvalidPublicInputs("a".into()), "invalid public inputs: a"),
        (ZkProofError::ConstraintUnsatisfied("b".into()), "constraint not satisfied: b"),
        (ZkProofError::SerializationFailed("c".into()), "serialization error: c"),
        (ZkProofError::DeserializationFailed("d".into()), "deserialization error: d"),
        (ZkProofError::VerificationFailed("e".into()), "proof verification failed: e"),
        (ZkProofError::SetupFailed("f".into()), "setup failed: f"),
        (ZkProofError::ProofGenerationFailed("g".into()), "proof generation failed: g"),
        (ZkProofError::IoError("h".into()), "IO error: h"),
    ];
    for (error, text) in cases {
        assert_eq!(error.to_string(), text);
    }
}

#[test]
fn bounding_box_errors_name_the_first_empty_axis() {
    let both = BoundingBox {
        x_min: 5,
        x_max: 4,
        y_min: 9,
        y_max: 8,
    };
    assert_eq!(
        both.validate().unwrap_err().to_string(),
        "invalid public inputs: x_min must not exceed x_max"
    );
    let y_only = BoundingBox {
        x_min: 4,
        x_max: 4,
        y_min: 9,
        y_max: 8,
    };
    assert_eq!(
        y_only.validate().unwrap_err().to_string(),
        "invalid public inputs: y_min must not exceed y_max"
    );
    assert!(BoundingBox {
        x_min: i64::MIN,
        x_max: i64::MAX,
        y_min: 7,
        y_max: 7
    }
    .validate()
    .is_ok());
}

#[test]
fn bounding_box_contains_its_bounds() {
    let b = unit_box();
    assert!(b.contains(0, 0) && b.contains(10, 10) && b.contains(0, 10));
    assert!(!b.contains(-1, 5) && !b.contains(5, 11) && !b.contains(11, 0));
}

#[test]
fn from_witness_rejects_a_witness_outside_the_box() {
    let witness = LocationPrivateWitness {
        x: 150,
        y: 50,
        blinding: [0; 32],
    };
    let bounding_box = BoundingBox {
        x_min: 0,
        x_max: 100,
        y_min: 0,
        y_max: 100,
    };
    let error = LocationPublicInputs::from_witness(bounding_box, &witness).unwrap_err();
    assert!(matches!(error, ZkProofError::ConstraintUnsatisfied(_)));
    assert_eq!(
        error.to_string(),
        "constraint not satisfied: coordinate witness is outside the declared bounding box"
    );
    let inside = LocationPrivateWitness { x: 100, ..witness };
    assert!(LocationPublicInputs::from_witness(bounding_box, &inside).is_ok());
}

#[test]
fn decoding_rejects_invalid_statements() {
    let mut bytes = LocationPublicInputs {
        bounding_box: BoundingBox {
            x_min: 5,
            x_max: 4,
            y_min: 0,
            y_max: 0,
        },
        coordinate_commitment: [1; 32],
    }
    .to_bytes()
    .unwrap();
    assert_eq!(
        LocationPublicInputs::from_bytes(&bytes).unwrap_err().to_string(),
        "invalid public inputs: x_min must not exceed x_max"
    );
    bytes[0] = 4;
    assert!(LocationPublicInputs::from_bytes(&bytes).is_ok());

    let training = TrainingPublicInputs {
        expected_steps: 0,
        max_loss_milli: 1,
        base_model_digest: [0; 32],
        update_commitment: [0; 32],
    };
    let bytes = training.to_bytes().unwrap();
    assert_eq!(
        TrainingPublicInputs::from_bytes(&bytes).unwrap_err().to_string(),
        "invalid public inputs: expected training steps must be greater than zero"
    );
}

#[test]
fn from_witness_rejects_an_empty_box() {
    let witness = LocationPrivateWitness {
        x: 0,
        y: 0,
        blinding: [1; 32],
    };
    let error = LocationPublicInputs::from_witness(
        BoundingBox {
            x_min: 1,
            x_max: 0,
            y_min: 0,
            y_max: 0,
        },
        &witness,
    )
    .unwrap_err();
    assert!(matches!(error, ZkProofError::InvalidPublicInputs(ref m) if m == "x_min must not exceed x_max"));
}

#[test]
fn location_circuit_reports_commitment_mismatch_before_the_box_check() {
    let (mut public, witness) = location_statement(50, 50);
    public.coordinate_commitment[0] ^= 1;
    let error = LocationCircuit.evaluate(&public, &witness).unwrap_err();
    assert_eq!(
        error.to_string(),
        "constraint not satisfied: coordinate commitment does not match the private witness"
    );
    let (public, witness) = location_statement(50, 50);
    let error = LocationCircuit.evaluate(&public, &witness).unwrap_err();
    assert_eq!(
        error.to_string(),
        "constraint not satisfied: coordinate witness is outside the declared bounding box"
    );
}

#[test]
fn training_circuit_reports_each_failure() {
    let (public, witness) = training_statement(0, 10, 20);
    assert_eq!(
        TrainingCircuit.evaluate(&public, &witness).unwrap_err().to_string(),
        "invalid public inputs: expected training steps must be greater than zero"
    );
    let mut wrong_commitment = public.clone();
    wrong_commitment.update_commitment[0] ^= 1;
    assert!(matches!(
        TrainingCircuit.evaluate(&wrong_commitment, &witness),
        Err(ZkProofError::InvalidPublicInputs(_))
    ));

    let (mut public, witness) = training_statement(3, 10, 20);
    public.update_commitment[31] ^= 0x80;
    assert_eq!(
        TrainingCircuit.evaluate(&public, &witness).unwrap_err().to_string(),
        "constraint not satisfied: weight update commitment does not match the private witness"
    );

    let (mut public, witness) = training_statement(3, 10, 20);
    public.expected_steps = 4;
    assert_eq!(
        TrainingCircuit.evaluate(&public, &witness).unwrap_err().to_string(),
        "constraint not satisfied: training step count does not match the public statement"
    );

    let (public, witness) = training_statement(3, 21, 20);
    assert_eq!(
        TrainingCircuit.evaluate(&public, &witness).unwrap_err().to_string(),
        "constraint not satisfied: observed training loss exceeds the public threshold"
    );

    let (public, witness) = training_statement(3, 20, 20);
    let report = TrainingCircuit.evaluate(&public, &witness).unwrap();
    assert_eq!(report.circuit, CircuitKind::Training);
    assert_eq!(
        report.checks,
        vec![
            "matched weight update commitment to witness".to_owned(),
            "verified exact local step count".to_owned(),
            "verified loss threshold remained below the declared bound".to_owned(),
        ]
    );
}

#[test]
fn training_statement_of_witness_ignores_the_loss_bound_until_proving() {
    let witness = TrainingPrivateWitness {
        steps_completed: 2,
        observed_loss_milli: 900,
        weight_update_digest: [1; 32],
        blinding: [2; 32],
    };
    let public = TrainingPublicInputs::from_witness(2, 100, [3; 32], &witness).unwrap();
    assert_eq!(public.expected_steps, 2);
    assert_eq!(public.max_loss_milli, 100);
    let error = prove_training(&ProvingContext::from_seed([1; 32]), &public, &witness).unwrap_err();
    assert!(matches!(error, ZkProofError::ConstraintUnsatisfied(_)));
}

#[test]
fn proofs_from_satisfied_statements_verify_and_others_fail() {
    let context = ProvingContext::from_seed([42; 32]);
    let key = context.verification_key();
    assert!(key.zk_snark_vk.is_none());
    for (x, y, inside) in [(0, 0, true), (10, 10, true), (5, 11, false), (-1, 3, false)] {
        let (public, witness) = location_statement(x, y);
        match prove_location(&context, &public, &witness) {
            Ok(proof) => {
                assert!(inside);
                assert_eq!(proof.circuit, CircuitKind::Location);
                assert_eq!(proof.scheme, ProofScheme::DevelopmentSignedTranscriptV1);
                assert_eq!(proof.signature.len(), 64);
                assert!(proof.backend_proof.is_none());
                assert_eq!(proof.to_bytes().unwrap().len(), 145);
                verify_location_proof(&key, &public, &proof).unwrap();
            }
            Err(error) => {
                assert!(!inside);
                assert!(matches!(error, ZkProofError::ConstraintUnsatisfied(_)));
            }
        }
    }
}

#[test]
fn proving_is_deterministic() {
    let context = ProvingContext::from_seed([42; 32]);
    let (public, witness) = training_statement(5, 1, 2);
    let first = prove_training(&context, &public, &witness).unwrap();
    let second = prove_training(&context, &public, &witness).unwrap();
    assert_eq!(first, second);
}

#[test]
fn verifier_reports_each_check_in_order() {
    let context = ProvingContext::from_seed([43; 32]);
    let key = context.verification_key();
    let (public, witness) = location_statement(1, 2);
    let proof = prove_location(&context, &public, &witness).unwrap();

    let mut wrong_scheme = proof.clone();
    wrong_scheme.scheme = ProofScheme::Halo2V1;
    assert_eq!(
        verify_location_proof(&key, &public, &wrong_scheme)
            .unwrap_err()
            .to_string(),
        "proof verification failed: unsupported proof scheme"
    );

    let (other_public, _) = location_statement(2, 2);
    assert_eq!(
        verify_location_proof(&key, &other_public, &proof)
            .unwrap_err()
            .to_string(),
        "proof verification failed: statement digest does not match the supplied public inputs"
    );

    let (training_public, training_witness) = training_statement(1, 1, 1);
    let training_proof = prove_training(&context, &training_public, &training_witness).unwrap();
    assert_eq!(
        verify_location_proof(&key, &public, &training_proof)
            .unwrap_err()
            .to_string(),
        "proof verification failed: proof circuit does not match the expected circuit"
    );
    verify_training_proof(&key, &training_public, &training_proof).unwrap();

    let mut tampered_digest = training_proof.clone();
    tampered_digest.constraint_digest[0] ^= 1;
    assert_eq!(
        verify_training_proof(&key, &training_public, &tampered_digest)
            .unwrap_err()
            .to_string(),
        "proof verification failed: signature verification failed"
    );
}

#[test]
fn check_signed_transcript_decides_from_its_inputs() {
    let proof = Proof {
        circuit: CircuitKind::Training,
        scheme: ProofScheme::DevelopmentSignedTranscriptV1,
        statement_digest: [1; 32],
        constraint_digest: [2; 32],
        signature: vec![],
        backend_proof: None,
    };
    check_signed_transcript(CircuitKind::Training, &proof, &[1; 32], true).unwrap();
    assert!(check_signed_transcript(CircuitKind::Training, &proof, &[1; 32], false).is_err());
    assert!(check_signed_transcript(CircuitKind::Training, &proof, &[0; 32], true).is_err());
    assert!(check_signed_transcript(CircuitKind::Location, &proof, &[1; 32], true).is_err());
}

#[test]
fn malformed_encodings_are_serialization_errors() {
    assert!(matches!(
        Proof::from_bytes(&[0; 71]),
        Err(ZkProofError::SerializationFailed(_))
    ));
    let mut bytes = vec![0_u8; 80];
    bytes[0] = 2;
    assert_eq!(
        Proof::from_bytes(&bytes).unwrap_err().to_string(),
        "serialization error: invalid circuit variant index"
    );
    bytes[0] = 0;
    bytes[4] = 4;
    assert_eq!(
        Proof::from_bytes(&bytes).unwrap_err().to_string(),
        "serialization error: invalid proof scheme variant index"
    );
    bytes[4] = 0;
    bytes[72] = 1;
    assert!(matches!(
        Proof::from_bytes(&bytes),
        Err(ZkProofError::SerializationFailed(_))
    ));
    assert!(matches!(
        LocationPublicInputs::from_bytes(&[0; 63]),
        Err(ZkProofError::SerializationFailed(_))
    ));
    assert!(LocationPublicInputs::from_bytes(&[0; 64]).is_ok());
    assert!(matches!(
        TrainingPublicInputs::from_bytes(&[0; 75]),
        Err(ZkProofError::SerializationFailed(_))
    ));
    let mut key_bytes = vec![0_u8; 33];
    key_bytes[32] = 2;
    assert_eq!(
        VerificationKey::from_bytes(&key_bytes).unwrap_err().to_string(),
        "serialization error: invalid option tag"
    );
}

#[test]
fn blinding_validation_thresholds() {
    let mut sixteen_zeros = [0_u8; 32];
    for (i, b) in sixteen_zeros.iter_mut().enumerate().skip(16) {
        *b = (i % 4) as u8 + 1;
    }
    assert!(validate_blinding_factor(&sixteen_zeros).is_ok());

    let mut seventeen_zeros = [7_u8; 32];
    seventeen_zeros[..17].fill(0);
    assert_eq!(
        validate_blinding_factor(&seventeen_zeros)
            .unwrap_err()
            .to_string(),
        "invalid public inputs: Blinding factor has insufficient entropy"
    );

    let mut three_values = [1_u8; 32];
    three_values[0] = 2;
    three_values[1] = 3;
    assert!(validate_blinding_factor(&three_values).is_err());
    three_values[2] = 4;
    assert!(validate_blinding_factor(&three_values).is_ok());
}

#[test]
fn halo2_proofs_are_markers_in_envelopes() {
    let context = ProvingContext::from_seed([3; 32]);
    let (public, witness) = location_statement(4, 4);
    let proof = prove_location_halo2(&context, &public, &witness).unwrap();
    assert_eq!(proof.scheme, ProofScheme::Halo2V1);
    assert_eq!(proof.circuit, CircuitKind::Location);
    assert!(proof.signature.is_empty());
    let marker = proof.backend_proof.clone().unwrap();
    assert_eq!(marker, b"halo2_location_proof_valid".to_vec());
    verify_location_halo2(&[], &public, &marker).unwrap();
    assert_eq!(
        verify_location_halo2(&[], &public, b"halo2_training_proof_valid")
            .unwrap_err()
            .to_string(),
        "proof verification failed: Invalid Halo2 proof marker"
    );
    let mut empty_box = public.clone();
    empty_box.bounding_box.y_min = 11;
    assert!(matches!(
        verify_location_halo2(&[], &empty_box, &marker),
        Err(ZkProofError::InvalidPublicInputs(_))
    ));

    let (training_public, training_witness) = training_statement(2, 2, 2);
    let training_proof = prove_training_halo2(&context, &training_public, &training_witness).unwrap();
    let training_marker = training_proof.backend_proof.unwrap();
    verify_training_halo2(&[], &training_public, &training_marker).unwrap();
    assert!(verify_training_halo2(&[], &training_public, &marker).is_err());

    let (outside, outside_witness) = location_statement(12, 4);
    assert!(matches!(
        prove_location_halo2(&context, &outside, &outside_witness),
        Err(ZkProofError::ConstraintUnsatisfied(_))
    ));
}

#[test]
fn groth16_blob_layout_round_trips() {
    let blob = assemble_groth16_blob(&[1, 2, 3], &[4, 5]);
    assert_eq!(blob, vec![3, 0, 0, 0, 1, 2, 3, 4, 5]);
    let (vk, proof) = split_groth16_blob(&blob).unwrap();
    assert_eq!(vk, vec![1, 2, 3]);
    assert_eq!(proof, vec![4, 5]);
    let (vk, proof) = split_groth16_blob(&assemble_groth16_blob(&[], &[])).unwrap();
    assert!(vk.is_empty() && proof.is_empty());
    assert_eq!(
        split_groth16_blob(&[1, 0, 0]).unwrap_err().to_string(),
        "proof verification failed: proof blob too short"
    );
    assert_eq!(
        split_groth16_blob(&[5, 0, 0, 0, 1, 2, 3, 4]).unwrap_err().to_string(),
        "proof verification failed: invalid proof blob"
    );
}

#[test]
fn groth16_verifier_decodes_before_reading_the_bounds() {
    let negative = LocationPublicInputs {
        bounding_box: BoundingBox {
            x_min: -1,
            x_max: 3,
            y_min: 0,
            y_max: 3,
        },
        coordinate_commitment: [0; 32],
    };
    let garbage = assemble_groth16_blob(&[0xff; 8], &[0xff; 8]);
    assert!(matches!(
        verify_location_groth16(&[], &negative, &garbage),
        Err(ZkProofError::VerificationFailed(_))
    ));
    assert_eq!(
        verify_location_groth16(&[], &negative, &[0, 0])
            .unwrap_err()
            .to_string(),
        "proof verification failed: proof blob too short"
    );
    let training = TrainingPublicInputs {
        expected_steps: 1,
        max_loss_milli: 1,
        base_model_digest: [0; 32],
        update_commitment: [0; 32],
    };
    assert!(matches!(
        verify_training_groth16(&[], &training, &garbage),
        Err(ZkProofError::VerificationFailed(_))
    ));
}

#[test]
fn groth16_decision_maps_the_outcome() {
    assert!(groth16_decision(Ok(true)).is_ok());
    assert_eq!(
        groth16_decision(Ok(false)).unwrap_err().to_string(),
        "proof verification failed: proof did not verify"
    );
    assert_eq!(
        groth16_decision(Err(ZkProofError::SetupFailed("x".into())))
            .unwrap_err()
            .to_string(),
        "setup failed: x"
    );
}

#[test]
fn circuit_assignments_require_non_negative_u32_values() {
    let (public, witness) = location_statement(3, 4);
    assert_eq!(
        location_r1cs(&public, &witness).unwrap(),
        LocationR1CS {
            x: 3,
            y: 4,
            x_min: 0,
            x_max: 10,
            y_min: 0,
            y_max: 10,
        }
    );
    let mut negative = witness.clone();
    negative.x = -1;
    assert_eq!(
        location_r1cs(&public, &negative).unwrap_err().to_string(),
        "invalid public inputs: x must be a non-negative 32-bit integer"
    );
    let mut huge = public.clone();
    huge.bounding_box.y_max = u32::MAX as i64 + 1;
    assert_eq!(
        location_r1cs(&huge, &witness).unwrap_err().to_string(),
        "invalid public inputs: y_max must be a non-negative 32-bit integer"
    );
    huge.bounding_box.y_max = u32::MAX as i64;
    assert!(location_r1cs(&huge, &witness).is_ok());

    let (training_public, training_witness) = training_statement(6, 7, 8);
    assert_eq!(
        training_r1cs(&training_public, &training_witness),
        TrainingR1CS {
            steps_completed: 6,
            observed_loss: 7,
            expected_steps: 6,
            max_loss: 8,
        }
    );
}

#[test]
fn zero_scheduled_steps_are_rejected_by_every_prover() {
    let context = ProvingContext::from_seed([0; 32]);
    let (public, witness) = training_statement(0, 100, 200);
    let error = prove_training(&context, &public, &witness).unwrap_err();
    assert_eq!(
        error.to_string(),
        "invalid public inputs: expected training steps must be greater than zero"
    );
    assert!(matches!(
        prove_training_halo2(&context, &public, &witness),
        Err(ZkProofError::InvalidPublicInputs(_))
    ));
    let mut other = witness.clone();
    other.steps_completed = 3;
    assert!(matches!(
        prove_training(&context, &public, &other),
        Err(ZkProofError::InvalidPublicInputs(_))
    ));
    let (scheduled, scheduled_witness) = training_statement(1, 100, 200);
    let proof = prove_training(&context, &scheduled, &scheduled_witness).unwrap();
    verify_training_proof(&context.verification_key(), &scheduled, &proof).unwrap();
}

#[test]
fn groth16_key_declaring_too_many_points_is_rejected() {
    let mut key = Vec::new();
    ark_bn254::G1Affine::generator()
        .serialize_uncompressed(&mut key)
        .unwrap();
    for _ in 0..3 {
        ark_bn254::G2Affine::generator()
            .serialize_uncompressed(&mut key)
            .unwrap();
    }
    assert_eq!(key.len(), 448);
    let mut huge = key.clone();
    huge.extend_from_slice(&u64::MAX.to_le_bytes());
    let (public, _) = location_statement(1, 1);
    assert_eq!(
        verify_location_groth16(&[], &public, &assemble_groth16_blob(&huge, &[]))
            .unwrap_err()
            .to_string(),
        "proof verification failed: vk deserialize: more gamma_abc_g1 points declared than the key holds"
    );

    let mut one = key.clone();
    one.extend_from_slice(&1_u64.to_le_bytes());
    let mut point = Vec::new();
    ark_bn254::G1Affine::generator()
        .serialize_uncompressed(&mut point)
        .unwrap();
    one.extend_from_slice(&point);
    assert!(check_groth16_key_points(&one).is_ok());
    one[448] = 2;
    assert!(check_groth16_key_points(&one).is_err());
    assert!(check_groth16_key_points(&key).is_ok());
}
