//! Verification of development signed-transcript proofs.

use vstd::prelude::*;
use crate::crypto::{self, ed25519_accepts, sha256_digest};
use crate::encoding::bytes_eq;
use crate::error::{ZkErrorKind, ZkProofError};
use crate::proofs::{transcript_bytes, transcript_message};
use crate::proofs::types::{
    decode_proof, lemma_proof_round_trip,
    CircuitKind, LocationPublicInputs, Proof, ProofScheme, TrainingPublicInputs, VerificationKey,
    WireFormat,
};

verus! {

/// The first check a proof fails, given the digest of the supplied public inputs
/// and whether the transcript signature was accepted; `None` when all pass.
pub open spec fn check_failure(
    expected: CircuitKind,
    proof: (CircuitKind, ProofScheme, Seq<u8>, Seq<u8>, Seq<u8>, Option<Seq<u8>>),
    statement_digest: Seq<u8>,
    signature_accepted: bool,
) -> Option<(ZkErrorKind, Seq<char>)> {
    if proof.0 != expected {
        Some((ZkErrorKind::VerificationFailed, "proof circuit does not match the expected circuit"@))
    } else if proof.1 != ProofScheme::DevelopmentSignedTranscriptV1 {
        Some((ZkErrorKind::VerificationFailed, "unsupported proof scheme"@))
    } else if proof.2 != statement_digest {
        Some((ZkErrorKind::VerificationFailed, "statement digest does not match the supplied public inputs"@))
    } else if !signature_accepted {
        Some((ZkErrorKind::VerificationFailed, "signature verification failed"@))
    } else {
        None
    }
}

/// The first check a proof fails against a verifying key and the encoded public
/// inputs of the expected circuit; `None` when it is accepted.
pub open spec fn transcript_failure(
    verifying_key: Seq<u8>,
    expected: CircuitKind,
    public_wire: Seq<u8>,
    proof: (CircuitKind, ProofScheme, Seq<u8>, Seq<u8>, Seq<u8>, Option<Seq<u8>>),
) -> Option<(ZkErrorKind, Seq<char>)> {
    check_failure(
        expected,
        proof,
        sha256_digest(public_wire),
        ed25519_accepts(
            verifying_key,
            transcript_bytes(proof.0, proof.1, proof.2, proof.3, public_wire),
            proof.4,
        ),
    )
}

/// Decides a proof from the digest of the supplied public inputs and from whether
/// its transcript signature was accepted: the circuit must be the expected one, the
/// scheme the development scheme, the statement digest must match, and the
/// signature must have been accepted.
pub fn check_signed_transcript(
    expected: CircuitKind,
    proof: &Proof,
    statement_digest: &[u8; 32],
    signature_accepted: bool,
) -> (r: Result<(), ZkProofError>)
    ensures
        match check_failure(expected, proof@, statement_digest@, signature_accepted) {
            None => r is Ok,
            Some(f) => r matches Err(e) && e.parts() == f,
        },
{
    if proof.circuit != expected {
        return Err(ZkProofError::VerificationFailed(
            "proof circuit does not match the expected circuit".to_owned(),
        ));
    }
    if proof.scheme != ProofScheme::DevelopmentSignedTranscriptV1 {
        return Err(ZkProofError::VerificationFailed("unsupported proof scheme".to_owned()));
    }
    if !bytes_eq(proof.statement_digest.as_slice(), statement_digest.as_slice()) {
        return Err(ZkProofError::VerificationFailed(
            "statement digest does not match the supplied public inputs".to_owned(),
        ));
    }
    if !signature_accepted {
        return Err(ZkProofError::VerificationFailed("signature verification failed".to_owned()));
    }
    Ok(())
}

fn verify_transcript_proof<T: WireFormat>(
    verification_key: &VerificationKey,
    expected: CircuitKind,
    public_inputs: &T,
    proof: &Proof,
) -> (r: Result<(), ZkProofError>)
    ensures
        match transcript_failure(verification_key.verifying_key@, expected, public_inputs.wire_bytes(), proof@) {
            None => r is Ok,
            Some(f) => r matches Err(e) && e.parts() == f,
        },
{
    let mut encoded: Vec<u8> = Vec::new();
    public_inputs.write_wire(&mut encoded);
    assert(encoded@ =~= public_inputs.wire_bytes());
    let statement_digest = crypto::sha256(encoded.as_slice());
    let message = transcript_message(
        proof.circuit,
        proof.scheme,
        proof.statement_digest,
        proof.constraint_digest,
        public_inputs,
    )?;
    let accepted = crypto::ed25519_verify(&verification_key.verifying_key, message.as_slice(), proof.signature.as_slice());
    check_signed_transcript(expected, proof, &statement_digest, accepted)
}

/// Verifies a location proof against the verification key and the public inputs.
pub fn verify_location_proof(
    verification_key: &VerificationKey,
    public_inputs: &LocationPublicInputs,
    proof: &Proof,
) -> (r: Result<(), ZkProofError>)
    ensures
        match transcript_failure(
            verification_key.verifying_key@,
            CircuitKind::Location,
            public_inputs.wire_bytes(),
            proof@,
        ) {
            None => r is Ok,
            Some(f) => r matches Err(e) && e.parts() == f,
        },
{
    verify_transcript_proof(verification_key, CircuitKind::Location, public_inputs, proof)
}

/// Verifies a training proof against the verification key and the public inputs.
pub fn verify_training_proof(
    verification_key: &VerificationKey,
    public_inputs: &TrainingPublicInputs,
    proof: &Proof,
) -> (r: Result<(), ZkProofError>)
    ensures
        match transcript_failure(
            verification_key.verifying_key@,
            CircuitKind::Training,
            public_inputs.wire_bytes(),
            proof@,
        ) {
            None => r is Ok,
            Some(f) => r matches Err(e) && e.parts() == f,
        },
{
    verify_transcript_proof(verification_key, CircuitKind::Training, public_inputs, proof)
}


/// Encoding a proof and decoding the bytes (with anything after them) changes
/// nothing the verifier decides.
pub proof fn lemma_verdict_survives_wire_round_trip(
    verifying_key: Seq<u8>,
    expected: CircuitKind,
    public_wire: Seq<u8>,
    proof: Proof,
    rest: Seq<u8>,
)
    ensures
        decode_proof(proof.wire_bytes() + rest) matches Some(decoded) && transcript_failure(
            verifying_key,
            expected,
            public_wire,
            decoded,
        ) == transcript_failure(verifying_key, expected, public_wire, proof@),
{
    lemma_proof_round_trip(proof, rest);
}

} // verus!
