use sha2::{Digest, Sha256};
use smp_zk_proofs::constraints::{Circuit, ConstraintReport};
use smp_zk_proofs::proofs::types::ZkSnarkVerifyingKey;
use smp_zk_proofs::{
    generate_deterministic_blinding_factor, hash_bytes, location_commitment, training_commitment,
    BoundingBox, CircuitKind, LocationCircuit, LocationPrivateWitness, LocationPublicInputs, Proof,
    ProofScheme, TrainingCircuit, TrainingPrivateWitness, TrainingPublicInputs, VerificationKey,
};

fn sha256(bytes: &[u8]) -> [u8; 32] {
    Sha256::digest(bytes).into()
}

fn hex(bytes: &[u8]) -> String {
    bytes.iter().map(|b| format!("{b:02x}")).collect()
}

#[test]
fn hash_bytes_of_abc_is_the_fips_vector() {
    let digest = hash_bytes(&[b"abc"]);
    assert_eq!(
        hex(&digest),
        "ba7816bf8f01cfea414140de5dae2223b00361a396177a9cb410ff61f20015ad"
    );
}

#[test]
fn hash_bytes_hashes_the_concatenation_of_its_parts() {
    assert_eq!(hash_bytes(&[b"ab", b"", b"c"]), hash_bytes(&[b"abc"]));
    assert_eq!(
        hex(&hash_bytes(&[])),
        "e3b0c44298fc1c149afbf4c8996fb92427ae41e4649b934ca495991b7852b855"
    );
}

#[test]
fn location_commitment_is_the_digest_of_the_bincode_tuple() {
    let blinding = [9_u8; 32];
    for (x, y) in [(5_i64, 7_i64), (-3, 1_000_000_007), (i64::MIN, i64::MAX)] {
        let encoded = bincode::serialize(&(b"location-commitment-v1", x, y, &blinding)).unwrap();
        assert_eq!(location_commitment(x, y, &blinding).unwrap(), sha256(&encoded));
    }
}

#[test]
fn training_commitment_is_the_digest_of_the_bincode_tuple() {
    let base = [1_u8; 32];
    let update = [2_u8; 32];
    let blinding = [3_u8; 32];
    let encoded =
        bincode::serialize(&(b"training-commitment-v1", base, update, &blinding)).unwrap();
    assert_eq!(
        training_commitment(base, update, &blinding).unwrap(),
        sha256(&encoded)
    );
}

#[test]
fn commitments_bind_every_input() {
    let blinding = [9_u8; 32];
    let c = location_commitment(5, 7, &blinding).unwrap();
    assert_ne!(c, location_commitment(7, 5, &blinding).unwrap());
    assert_ne!(c, location_commitment(5, 7, &[8_u8; 32]).unwrap());
    let t = training_commitment([1; 32], [2; 32], &[3; 32]).unwrap();
    assert_ne!(t, training_commitment([2; 32], [1; 32], &[3; 32]).unwrap());
}

#[test]
fn deterministic_blinding_is_the_seeded_digest() {
    let seed = [4_u8; 32];
    let mut preimage = b"BLINDING_SEED:".to_vec();
    preimage.extend_from_slice(&seed);
    assert_eq!(generate_deterministic_blinding_factor(seed), sha256(&preimage));
}

#[test]
fn location_public_inputs_encode_as_bincode_does() {
    let inputs = LocationPublicInputs {
        bounding_box: BoundingBox {
            x_min: -4,
            x_max: 40,
            y_min: 3,
            y_max: 300,
        },
        coordinate_commitment: [0xab; 32],
    };
    let expected = bincode::serialize(&((-4_i64, 40_i64, 3_i64, 300_i64), [0xab_u8; 32])).unwrap();
    let bytes = inputs.to_bytes().unwrap();
    assert_eq!(bytes, expected);
    assert_eq!(LocationPublicInputs::from_bytes(&bytes).unwrap(), inputs);
}

#[test]
fn training_public_inputs_encode_as_bincode_does() {
    let inputs = TrainingPublicInputs {
        expected_steps: 12,
        max_loss_milli: 777,
        base_model_digest: [1; 32],
        update_commitment: [2; 32],
    };
    let expected = bincode::serialize(&(12_u32, 777_u64, [1_u8; 32], [2_u8; 32])).unwrap();
    let bytes = inputs.to_bytes().unwrap();
    assert_eq!(bytes, expected);
    assert_eq!(TrainingPublicInputs::from_bytes(&bytes).unwrap(), inputs);
}

#[test]
fn proof_encodes_as_bincode_does() {
    let proof = Proof {
        circuit: CircuitKind::Training,
        scheme: ProofScheme::Groth16V1,
        statement_digest: [5; 32],
        constraint_digest: [6; 32],
        signature: vec![1, 2, 3],
        backend_proof: Some(vec![9, 8]),
    };
    let expected = bincode::serialize(&(
        1_u32,
        2_u32,
        [5_u8; 32],
        [6_u8; 32],
        vec![1_u8, 2, 3],
        Some(vec![9_u8, 8]),
    ))
    .unwrap();
    let bytes = proof.to_bytes().unwrap();
    assert_eq!(bytes, expected);
    assert_eq!(Proof::from_bytes(&bytes).unwrap(), proof);

    let bare = Proof {
        backend_proof: None,
        signature: Vec::new(),
        ..proof
    };
    let expected_bare = bincode::serialize(&(
        1_u32,
        2_u32,
        [5_u8; 32],
        [6_u8; 32],
        Vec::<u8>::new(),
        None::<Vec<u8>>,
    ))
    .unwrap();
    assert_eq!(bare.to_bytes().unwrap(), expected_bare);
}

#[test]
fn verification_key_encodes_as_bincode_does() {
    let key = VerificationKey {
        verifying_key: [7; 32],
        zk_snark_vk: Some(ZkSnarkVerifyingKey {
            alpha_g1: vec![1],
            beta_g2: vec![2, 2],
            gamma_g2: vec![],
            delta_g2: vec![4, 4, 4, 4],
            gamma_abc_g1: vec![5],
        }),
    };
    let expected = bincode::serialize(&(
        [7_u8; 32],
        Some((
            vec![1_u8],
            vec![2_u8, 2],
            Vec::<u8>::new(),
            vec![4_u8, 4, 4, 4],
            vec![5_u8],
        )),
    ))
    .unwrap();
    let bytes = key.to_bytes().unwrap();
    assert_eq!(bytes, expected);
    assert_eq!(VerificationKey::from_bytes(&bytes).unwrap(), key);

    let plain = VerificationKey {
        verifying_key: [7; 32],
        zk_snark_vk: None,
    };
    let plain_bytes = plain.to_bytes().unwrap();
    assert_eq!(plain_bytes.len(), 33);
    assert_eq!(VerificationKey::from_bytes(&plain_bytes).unwrap(), plain);
}

#[test]
fn decoding_ignores_trailing_bytes() {
    let inputs = TrainingPublicInputs {
        expected_steps: 1,
        max_loss_milli: 2,
        base_model_digest: [3; 32],
        update_commitment: [4; 32],
    };
    let mut bytes = inputs.to_bytes().unwrap();
    bytes.extend_from_slice(&[0xff; 5]);
    assert_eq!(TrainingPublicInputs::from_bytes(&bytes).unwrap(), inputs);
}

#[test]
fn constraint_report_digest_is_the_digest_of_its_bincode_encoding() {
    let witness = LocationPrivateWitness {
        x: 2,
        y: 3,
        blinding: [6; 32],
    };
    let public = LocationPublicInputs::from_witness(
        BoundingBox {
            x_min: 0,
            x_max: 5,
            y_min: 0,
            y_max: 5,
        },
        &witness,
    )
    .unwrap();
    let report = LocationCircuit.evaluate(&public, &witness).unwrap();
    assert_eq!(report.circuit, CircuitKind::Location);
    let expected = bincode::serialize(&(0_u32, report.checks.clone())).unwrap();
    assert_eq!(report.digest().unwrap(), sha256(&expected));

    let training_report = ConstraintReport {
        circuit: CircuitKind::Training,
        checks: vec!["one".to_owned(), "".to_owned(), "three".to_owned()],
    };
    let expected = bincode::serialize(&(1_u32, training_report.checks.clone())).unwrap();
    assert_eq!(training_report.digest().unwrap(), sha256(&expected));
    assert_eq!(TrainingCircuit.kind(), CircuitKind::Training);
}
