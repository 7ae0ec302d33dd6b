use sha2::{Digest as _, Sha256};
use sha3::Sha3_256;
use smp_zk_proofs::pq_compatibility::lattice_backend::{
    self as lattice, LatticeBackend, LatticeParams,
};
use smp_zk_proofs::pq_compatibility::pq_backends::ProofMetadata;
use smp_zk_proofs::pq_compatibility::{
    checked_verify_pqc_location_proof, checked_verify_pqc_training_proof,
    generate_pqc_location_proof, generate_pqc_training_proof, verify_pqc_location_proof,
    verify_pqc_training_proof, HybridStrategy, PqcBackendType, PqcConfig, PqcError,
    PqcProofEnvelope, PostQuantumBackend,
};

fn sha256(bytes: &[u8]) -> Vec<u8> {
    Sha256::digest(bytes).to_vec()
}

fn sha3(bytes: &[u8]) -> Vec<u8> {
    Sha3_256::digest(bytes).to_vec()
}

#[test]
fn pqc_errors_render_as_documented() {
    assert_eq!(
        PqcError::InsufficientSecurityLevel(64).to_string(),
        "Insufficient security level: 64 bits (minimum 128)"
    );
    assert_eq!(
        PqcError::InsufficientSecurityLevel(0).to_string(),
        "Insufficient security level: 0 bits (minimum 128)"
    );
    assert_eq!(
        PqcError::InsufficientSecurityLevel(u32::MAX).to_string(),
        "Insufficient security level: 4294967295 bits (minimum 128)"
    );
    assert_eq!(
        PqcError::BackendNotReady(PqcBackendType::Code).to_string(),
        "Backend Code is not ready for production use"
    );
    assert_eq!(
        PqcError::ProofGenerationFailed("a".into()).to_string(),
        "Proof generation failed: a"
    );
    assert_eq!(
        PqcError::VerificationFailed("b".into()).to_string(),
        "Proof verification failed: b"
    );
    assert_eq!(
        PqcError::InvalidProofFormat("c".into()).to_string(),
        "Invalid proof format: c"
    );
    assert_eq!(
        PqcError::SerializationError("d".into()).to_string(),
        "Serialization error: d"
    );
    assert_eq!(
        PqcError::HybridMismatch("e".into()).to_string(),
        "Hybrid proof mismatch: e"
    );
}

#[test]
fn config_validation_reports_the_level_before_the_backend() {
    assert!(matches!(
        PqcConfig::new(PqcBackendType::Code, 64).validate(),
        Err(PqcError::InsufficientSecurityLevel(64))
    ));
    assert!(matches!(
        PqcConfig::new(PqcBackendType::Code, 256).validate(),
        Err(PqcError::BackendNotReady(PqcBackendType::Code))
    ));
    assert!(PqcConfig::new(PqcBackendType::Hybrid, 128).validate().is_ok());
    assert!(PqcConfig::new(PqcBackendType::Hash, 127).validate().is_err());
    let default = PqcConfig::default();
    assert_eq!(default.backend_type, PqcBackendType::Lattice);
    assert_eq!(default.security_level_bits, 128);
    assert!(default.validate().is_ok());
}

#[test]
fn later_parameters_replace_earlier_ones() {
    let config = PqcConfig::new(PqcBackendType::Hash, 192)
        .with_param("mode", "fast")
        .with_param("other", "x")
        .with_param("mode", "slow");
    assert_eq!(config.custom_params.get("mode"), Some(&"slow".to_string()));
    assert_eq!(config.custom_params.get("other"), Some(&"x".to_string()));
    assert_eq!(config.custom_params.len(), 2);
    assert_eq!(config.backend_type, PqcBackendType::Hash);
    assert_eq!(config.security_level_bits, 192);
}

#[test]
fn backend_families_report_levels_and_readiness() {
    let expected = [
        (PqcBackendType::Lattice, 3, true),
        (PqcBackendType::Hash, 5, true),
        (PqcBackendType::Code, 5, false),
        (PqcBackendType::Hybrid, 3, true),
    ];
    for (kind, level, ready) in expected {
        assert_eq!(kind.get_nist_security_level(), level);
        assert_eq!(kind.is_production_ready(), ready);
    }
    assert_eq!(HybridStrategy::default(), HybridStrategy::RequireBoth);
}

#[test]
fn lattice_parameter_sets_by_level() {
    for (bits, n, level) in [
        (0, 1024, 256),
        (1, 512, 128),
        (128, 512, 128),
        (129, 768, 192),
        (192, 768, 192),
        (193, 1024, 256),
    ] {
        let params = LatticeParams::from_security_level(bits);
        assert_eq!((params.n, params.q, params.security_bits), (n, 3329, level));
    }
}

#[test]
fn lattice_proof_fields_follow_the_construction() {
    let config = PqcConfig::new(PqcBackendType::Lattice, 128);
    let proof = lattice::generate_pqc_location_proof(b"data", b"inputs", &config).unwrap();
    let mut randomness_input = b"LATTICE_RANDOMNESS:".to_vec();
    randomness_input.extend_from_slice(b"data");
    let randomness = sha256(&randomness_input);
    assert_eq!(proof.commitment.randomness, randomness);
    let mut committed = b"data".to_vec();
    committed.extend_from_slice(&[0_u8; 512]);
    committed.extend_from_slice(&randomness);
    assert_eq!(proof.commitment.commitment, sha256(&committed));
    let mut challenge_input = proof.commitment.commitment.clone();
    challenge_input.extend_from_slice(b"inputs");
    assert_eq!(proof.challenge, sha256(&challenge_input));
    let masked: Vec<u8> = proof
        .challenge
        .iter()
        .zip(randomness.iter())
        .map(|(c, r)| c ^ r)
        .collect();
    assert_eq!(proof.response, masked);
    assert_eq!(proof.public_inputs_hash, sha256(b"inputs"));
    assert_eq!(proof.metadata.backend, "lattice-kyber");
    assert_eq!(proof.metadata.security_level, 128);
    assert_eq!(proof.metadata.version, "0.1.0");
}

#[test]
fn lattice_routing_requires_the_lattice_family() {
    let config = PqcConfig::new(PqcBackendType::Hash, 128);
    assert!(matches!(
        lattice::generate_pqc_location_proof(b"d", b"p", &config),
        Err(PqcError::BackendNotReady(PqcBackendType::Hash))
    ));
    assert!(matches!(
        lattice::generate_pqc_training_proof(b"d", b"p", &config),
        Err(PqcError::BackendNotReady(PqcBackendType::Hash))
    ));
}

#[test]
fn fixed_parameters_override_the_requested_level() {
    let backend = LatticeBackend::new(LatticeParams::from_security_level(256));
    let config = PqcConfig::new(PqcBackendType::Lattice, 128);
    let commitment = backend.commit_location(b"x", &config).unwrap();
    assert_eq!(commitment.params.security_bits, 256);
    let training = backend.commit_training(b"x", &config).unwrap();
    assert_ne!(training.commitment, commitment.commitment);
    assert_eq!(backend.descriptor().name, "lattice-kyber-backend");
}

#[test]
fn tampered_lattice_proofs_are_rejected() {
    let backend = LatticeBackend::default();
    let config = PqcConfig::new(PqcBackendType::Lattice, 192);
    let proof = backend.prove_training(b"weights", b"inputs", &config).unwrap();
    assert!(backend.verify_training(&proof, b"inputs").unwrap());
    let mut bad_response = proof.clone();
    bad_response.response[7] ^= 1;
    assert!(!backend.verify_training(&bad_response, b"inputs").unwrap());
    let mut short_response = proof.clone();
    short_response.response.truncate(3);
    assert!(backend.verify_training(&short_response, b"inputs").unwrap());
    let mut bad_hash = proof.clone();
    bad_hash.public_inputs_hash.push(0);
    assert!(!backend.verify_training(&bad_hash, b"inputs").unwrap());
}

#[test]
fn hash_proof_fields_follow_the_construction() {
    let config = PqcConfig::new(PqcBackendType::Hash, 256);
    let envelope = generate_pqc_location_proof(b"loc", b"pub", &config).unwrap();
    let PqcProofEnvelope::Hash(proof) = &envelope else {
        panic!("expected a hash proof");
    };
    let root = sha3(b"loc");
    assert_eq!(proof.merkle_root, root);
    assert_eq!(proof.auth_path, vec![root.clone()]);
    let mut challenge_input = root.clone();
    challenge_input.extend_from_slice(b"pub");
    assert_eq!(proof.response, sha3(&challenge_input));
    assert_eq!(proof.public_inputs_hash, sha3(b"pub"));
    assert_eq!(proof.metadata.backend, "hash-sha3");
    assert_eq!(proof.metadata.security_level, 256);
    assert!(verify_pqc_location_proof(&envelope, b"pub", &config).unwrap());
    assert!(!verify_pqc_location_proof(&envelope, b"other", &config).unwrap());
}

#[test]
fn hash_training_proofs_commit_to_the_tagged_data() {
    let config = PqcConfig::new(PqcBackendType::Hash, 128);
    let envelope = generate_pqc_training_proof(b"w", b"p", &config).unwrap();
    let PqcProofEnvelope::Hash(proof) = &envelope else {
        panic!("expected a hash proof");
    };
    assert_eq!(proof.merkle_root, sha3(b"TRAINING_PROOF:w"));
    assert!(verify_pqc_training_proof(&envelope, b"p", &config).unwrap());
}

#[test]
fn hybrid_proofs_link_both_components() {
    let config = PqcConfig::new(PqcBackendType::Hybrid, 128).with_hybrid_mode(true);
    let envelope = generate_pqc_training_proof(b"w", b"p", &config).unwrap();
    let PqcProofEnvelope::Hybrid(hybrid) = &envelope else {
        panic!("expected a hybrid proof");
    };
    assert_eq!(hybrid.classical_proof, sha3(b"CLASSICAL_PROOF:TRAINING_PROOF:w"));
    let PqcProofEnvelope::Lattice(lattice_proof) = hybrid.pqc_proof.as_ref() else {
        panic!("expected a lattice component");
    };
    let mut link = hybrid.classical_proof.clone();
    link.extend_from_slice(&lattice_proof.commitment.commitment);
    link.extend_from_slice(b"p");
    assert_eq!(hybrid.linkage_proof, sha3(&link));
    assert_eq!(hybrid.metadata.backend, "hybrid-classical-pqc");
    assert!(verify_pqc_training_proof(&envelope, b"p", &config).unwrap());
    assert!(!verify_pqc_training_proof(&envelope, b"q", &config).unwrap());
}

#[test]
fn code_backend_is_not_available() {
    let config = PqcConfig::new(PqcBackendType::Code, 256);
    let location_error = generate_pqc_location_proof(b"d", b"p", &config).unwrap_err();
    assert_eq!(
        location_error.to_string(),
        "Proof generation failed: Code-based backend is under development. Use Lattice or Hash backend."
    );
    let training_error = generate_pqc_training_proof(b"d", b"p", &config).unwrap_err();
    assert_eq!(
        training_error.to_string(),
        "Proof generation failed: Code-based backend is under development."
    );
    let code = PqcProofEnvelope::Code(smp_zk_proofs::pq_compatibility::CodeProof {
        syndrome: vec![],
        error_commitment: vec![],
        decoding_proof: vec![],
        public_inputs_hash: vec![],
        metadata: ProofMetadata::new("code", 256),
    });
    assert_eq!(
        verify_pqc_location_proof(&code, b"p", &config)
            .unwrap_err()
            .to_string(),
        "Proof verification failed: Code-based backend is under development."
    );
    assert!(verify_pqc_training_proof(&code, b"p", &config).is_err());
}

#[test]
fn proof_metadata_records_backend_level_and_version() {
    let metadata = ProofMetadata::new("hash-sha3", 192);
    assert_eq!(metadata.backend, "hash-sha3");
    assert_eq!(metadata.security_level, 192);
    assert_eq!(metadata.version, "0.1.0");
    assert!(metadata.timestamp > 1_600_000_000);
}

#[test]
fn checked_verification_flags_proofs_without_randomness() {
    let config = PqcConfig::new(PqcBackendType::Lattice, 128);
    let envelope = generate_pqc_location_proof(b"d", b"p", &config).unwrap();
    assert!(matches!(
        checked_verify_pqc_location_proof(&envelope, b"p", &config),
        Some(Ok(true))
    ));
    assert!(matches!(
        checked_verify_pqc_training_proof(&envelope, b"other", &config),
        Some(Ok(false))
    ));
    let PqcProofEnvelope::Lattice(mut proof) = envelope else {
        panic!("expected a lattice proof");
    };
    proof.commitment.randomness.clear();
    let stripped = PqcProofEnvelope::Lattice(proof);
    assert!(checked_verify_pqc_location_proof(&stripped, b"p", &config).is_none());
    assert!(matches!(
        checked_verify_pqc_location_proof(&stripped, b"other", &config),
        Some(Ok(false))
    ));
}
