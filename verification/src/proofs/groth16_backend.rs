//! The Groth16 backend over BN254: the circuit assignments, the proof blob layout
//! and the verifier. Proving itself runs where the constraint synthesis is
//! implemented, and hands its key and proof bytes to [`assemble_groth16_blob`].

use vstd::prelude::*;
use crate::crypto::{self, groth16_bn254_decodes, groth16_bn254_outcome, groth16_key_points_fit};
use crate::encoding::{le_u32, push_bytes, push_u32, read_u32, read_u64, copy_range, u32_from_le};
use crate::error::{ZkErrorKind, ZkProofError};
use crate::proofs::types::{
    BoundingBox, LocationPrivateWitness, LocationPublicInputs, TrainingPrivateWitness,
    TrainingPublicInputs,
};
pub use crate::proofs::groth16_circuits::LocationR1CS;

verus! {

/// The assignment of the Groth16 training circuit, which requires
/// `steps_completed == expected_steps` and `observed_loss <= max_loss`. Its public
/// inputs are allocated in the order `expected_steps`, `max_loss`.
#[derive(Debug, Clone, Copy, PartialEq, Eq, Structural)]
pub struct TrainingR1CS {
    /// Private number of training steps completed (witness).
    pub steps_completed: u32,
    /// Private observed training loss in milli-units (witness).
    pub observed_loss: u64,
    /// Expected step count (public input).
    pub expected_steps: u32,
    /// Maximum allowed loss in milli-units (public input).
    pub max_loss: u64,
}

/// The error for a value that is not a non-negative 32-bit integer.
pub open spec fn not_u32_failure(field: Seq<char>) -> (ZkErrorKind, Seq<char>) {
    (ZkErrorKind::InvalidPublicInputs, field + " must be a non-negative 32-bit integer"@)
}

/// `value` as a 32-bit circuit value, or the error naming `field`.
pub open spec fn as_circuit_u32(value: i64, field: Seq<char>) -> Result<u32, (ZkErrorKind, Seq<char>)> {
    if 0 <= value <= u32::MAX {
        Ok(value as u32)
    } else {
        Err(not_u32_failure(field))
    }
}

fn non_negative_i64_to_u32(value: i64, field: &str) -> (r: Result<u32, ZkProofError>)
    ensures
        match as_circuit_u32(value, field@) {
            Ok(v) => r == Ok::<u32, ZkProofError>(v),
            Err(f) => r matches Err(e) && e.parts() == f,
        },
{
    if 0 <= value && value <= 0xffff_ffffi64 {
        Ok(value as u32)
    } else {
        let mut message = String::new();
        message.append(field);
        message.append(" must be a non-negative 32-bit integer");
        Err(ZkProofError::InvalidPublicInputs(message))
    }
}

/// The location circuit's assignment for a statement and a witness, or the error for
/// the first of `x`, `y`, `x_min`, `x_max`, `y_min`, `y_max` that is not a
/// non-negative 32-bit integer.
pub open spec fn location_assignment(
    bbox: BoundingBox,
    x: i64,
    y: i64,
) -> Result<LocationR1CS, (ZkErrorKind, Seq<char>)> {
    match (
        as_circuit_u32(x, "x"@),
        as_circuit_u32(y, "y"@),
        as_circuit_u32(bbox.x_min, "x_min"@),
        as_circuit_u32(bbox.x_max, "x_max"@),
        as_circuit_u32(bbox.y_min, "y_min"@),
        as_circuit_u32(bbox.y_max, "y_max"@),
    ) {
        (Err(f), _, _, _, _, _) => Err(f),
        (Ok(_), Err(f), _, _, _, _) => Err(f),
        (Ok(_), Ok(_), Err(f), _, _, _) => Err(f),
        (Ok(_), Ok(_), Ok(_), Err(f), _, _) => Err(f),
        (Ok(_), Ok(_), Ok(_), Ok(_), Err(f), _) => Err(f),
        (Ok(_), Ok(_), Ok(_), Ok(_), Ok(_), Err(f)) => Err(f),
        (Ok(x), Ok(y), Ok(x_min), Ok(x_max), Ok(y_min), Ok(y_max)) => Ok(
            LocationR1CS { x, y, x_min, x_max, y_min, y_max },
        ),
    }
}

/// Converts a location statement and witness into the Groth16 circuit's assignment.
pub fn location_r1cs(
    public_inputs: &LocationPublicInputs,
    private_witness: &LocationPrivateWitness,
) -> (r: Result<LocationR1CS, ZkProofError>)
    ensures
        match location_assignment(public_inputs.bounding_box, private_witness.x, private_witness.y) {
            Ok(c) => r == Ok::<LocationR1CS, ZkProofError>(c),
            Err(f) => r matches Err(e) && e.parts() == f,
        },
{
    let bbox = &public_inputs.bounding_box;
    Ok(LocationR1CS {
        x: non_negative_i64_to_u32(private_witness.x, "x")?,
        y: non_negative_i64_to_u32(private_witness.y, "y")?,
        x_min: non_negative_i64_to_u32(bbox.x_min, "x_min")?,
        x_max: non_negative_i64_to_u32(bbox.x_max, "x_max")?,
        y_min: non_negative_i64_to_u32(bbox.y_min, "y_min")?,
        y_max: non_negative_i64_to_u32(bbox.y_max, "y_max")?,
    })
}

/// Converts a training statement and witness into the Groth16 circuit's assignment.
pub fn training_r1cs(
    public_inputs: &TrainingPublicInputs,
    private_witness: &TrainingPrivateWitness,
) -> (r: TrainingR1CS)
    ensures
        r == (TrainingR1CS {
            steps_completed: private_witness.steps_completed,
            observed_loss: private_witness.observed_loss_milli,
            expected_steps: public_inputs.expected_steps,
            max_loss: public_inputs.max_loss_milli,
        }),
{
    TrainingR1CS {
        steps_completed: private_witness.steps_completed,
        observed_loss: private_witness.observed_loss_milli,
        expected_steps: public_inputs.expected_steps,
        max_loss: public_inputs.max_loss_milli,
    }
}

/// The proof blob: the verifying key's length as a little-endian `u32` (truncated
/// to 32 bits), the verifying key, then the proof.
pub open spec fn groth16_blob(vk: Seq<u8>, proof: Seq<u8>) -> Seq<u8> {
    le_u32(vk.len() as u32) + vk + proof
}

/// Lays out a serialized verifying key and proof as one proof blob.
pub fn assemble_groth16_blob(vk_bytes: &[u8], proof_bytes: &[u8]) -> (r: Vec<u8>)
    ensures
        r@ == groth16_blob(vk_bytes@, proof_bytes@),
{
    let mut out: Vec<u8> = Vec::new();
    push_u32(&mut out, vk_bytes.len() as u32);
    push_bytes(&mut out, vk_bytes);
    push_bytes(&mut out, proof_bytes);
    assert(out@ =~= groth16_blob(vk_bytes@, proof_bytes@));
    out
}

/// The verifying key and proof a blob holds, or the error for a malformed blob.
pub open spec fn split_blob(blob: Seq<u8>) -> Result<(Seq<u8>, Seq<u8>), (ZkErrorKind, Seq<char>)> {
    if blob.len() < 4 {
        Err((ZkErrorKind::VerificationFailed, "proof blob too short"@))
    } else {
        let vk_len = u32_from_le(blob.subrange(0, 4)) as int;
        if blob.len() < 4 + vk_len {
            Err((ZkErrorKind::VerificationFailed, "invalid proof blob"@))
        } else {
            Ok((blob.subrange(4, 4 + vk_len), blob.subrange(4 + vk_len, blob.len() as int)))
        }
    }
}

/// Splits a proof blob into the verifying key and the proof.
pub fn split_groth16_blob(blob: &[u8]) -> (r: Result<(Vec<u8>, Vec<u8>), ZkProofError>)
    ensures
        match split_blob(blob@) {
            Ok((vk, proof)) => r matches Ok((v, p)) && v@ == vk && p@ == proof,
            Err(f) => r matches Err(e) && e.parts() == f,
        },
{
    let n = blob.len();
    if n < 4 {
        return Err(ZkProofError::VerificationFailed("proof blob too short".to_owned()));
    }
    let vk_len = read_u32(blob, 0);
    if ((n - 4) as u64) < (vk_len as u64) {
        return Err(ZkProofError::VerificationFailed("invalid proof blob".to_owned()));
    }
    let vk_len = vk_len as usize;
    let vk = copy_range(blob, 4, vk_len);
    let proof = copy_range(blob, 4 + vk_len, n - 4 - vk_len);
    Ok((vk, proof))
}

/// Splitting the blob laid out from a verifying key and a proof gives them back,
/// for a key shorter than 2^32 bytes.
pub proof fn lemma_groth16_blob_round_trip(vk: Seq<u8>, proof: Seq<u8>)
    requires
        vk.len() <= u32::MAX,
    ensures
        split_blob(groth16_blob(vk, proof)) == Ok::<(Seq<u8>, Seq<u8>), (ZkErrorKind, Seq<char>)>((vk, proof)),
{
    let blob = groth16_blob(vk, proof);
    assert(blob.subrange(0, 4) =~= le_u32(vk.len() as u32));
    crate::encoding::lemma_le_u32_round_trip(vk.len() as u32);
    assert(blob.subrange(4, 4 + vk.len() as int) =~= vk);
    assert(blob.subrange(4 + vk.len() as int, blob.len() as int) =~= proof);
}

/// Checks that the verifying key declares no more `gamma_abc_g1` points than its
/// bytes can hold, so that decoding it cannot panic; a key that fails the check
/// does not decode.
pub fn check_groth16_key_points(vk: &[u8]) -> (r: Result<(), ZkProofError>)
    ensures
        r is Ok <==> groth16_key_points_fit(vk@),
        r matches Err(e) ==> e.parts() == groth16_key_points_failure(),
{
    if vk.len() < 456 {
        return Ok(());
    }
    let count = read_u64(vk, 448);
    if count <= ((vk.len() - 456) / 64) as u64 {
        Ok(())
    } else {
        Err(ZkProofError::VerificationFailed(
            "vk deserialize: more gamma_abc_g1 points declared than the key holds".to_owned(),
        ))
    }
}

/// The error for a verifying key that declares more points than it holds.
pub open spec fn groth16_key_points_failure() -> (ZkErrorKind, Seq<char>) {
    (ZkErrorKind::VerificationFailed, "vk deserialize: more gamma_abc_g1 points declared than the key holds"@)
}

/// Maps what the Groth16 check returned to the result of verification: success
/// when the proof holds, "proof did not verify" when it does not, and any error
/// unchanged.
pub fn groth16_decision(outcome: Result<bool, ZkProofError>) -> (r: Result<(), ZkProofError>)
    ensures
        match outcome {
            Ok(true) => r is Ok,
            Ok(false) => r matches Err(e) && e.parts() == (
                ZkErrorKind::VerificationFailed,
                "proof did not verify"@,
            ),
            Err(e0) => r == Err::<(), ZkProofError>(e0),
        },
{
    match outcome {
        Ok(true) => Ok(()),
        Ok(false) => Err(ZkProofError::VerificationFailed("proof did not verify".to_owned())),
        Err(e) => Err(e),
    }
}

/// The public inputs of the location circuit as verifier scalars, or the error for
/// the first bound that is not a non-negative 32-bit integer.
pub open spec fn location_scalars(bbox: BoundingBox) -> Result<Seq<u64>, (ZkErrorKind, Seq<char>)> {
    match (
        as_circuit_u32(bbox.x_min, "x_min"@),
        as_circuit_u32(bbox.x_max, "x_max"@),
        as_circuit_u32(bbox.y_min, "y_min"@),
        as_circuit_u32(bbox.y_max, "y_max"@),
    ) {
        (Err(f), _, _, _) => Err(f),
        (Ok(_), Err(f), _, _) => Err(f),
        (Ok(_), Ok(_), Err(f), _) => Err(f),
        (Ok(_), Ok(_), Ok(_), Err(f)) => Err(f),
        (Ok(a), Ok(b), Ok(c), Ok(d)) => Ok(seq![a as u64, b as u64, c as u64, d as u64]),
    }
}

/// What verifying a location blob comes to: `Ok` when accepted, otherwise the
/// variant of the error and, where this crate writes it, its message.
pub open spec fn groth16_location_verdict(public: LocationPublicInputs, blob: Seq<u8>) -> Result<(), (ZkErrorKind, Option<Seq<char>>)> {
    match split_blob(blob) {
        Err(f) => Err((f.0, Some(f.1))),
        Ok((vk, proof)) => if !groth16_key_points_fit(vk) {
            Err((groth16_key_points_failure().0, Some(groth16_key_points_failure().1)))
        } else if !groth16_bn254_decodes(vk, proof) {
            Err((ZkErrorKind::VerificationFailed, None))
        } else {
            match location_scalars(public.bounding_box) {
                Err(f) => Err((f.0, Some(f.1))),
                Ok(inputs) => match groth16_bn254_outcome(vk, proof, inputs) {
                    Some(true) => Ok(()),
                    Some(false) => Err((ZkErrorKind::VerificationFailed, Some("proof did not verify"@))),
                    None => Err((ZkErrorKind::VerificationFailed, None)),
                },
            }
        },
    }
}

/// What verifying a training blob comes to, as for the location circuit.
pub open spec fn groth16_training_verdict(public: TrainingPublicInputs, blob: Seq<u8>) -> Result<(), (ZkErrorKind, Option<Seq<char>>)> {
    match split_blob(blob) {
        Err(f) => Err((f.0, Some(f.1))),
        Ok((vk, proof)) => if !groth16_key_points_fit(vk) {
            Err((groth16_key_points_failure().0, Some(groth16_key_points_failure().1)))
        } else if !groth16_bn254_decodes(vk, proof) {
            Err((ZkErrorKind::VerificationFailed, None))
        } else {
            match groth16_bn254_outcome(vk, proof, seq![public.expected_steps as u64, public.max_loss_milli]) {
                Some(true) => Ok(()),
                Some(false) => Err((ZkErrorKind::VerificationFailed, Some("proof did not verify"@))),
                None => Err((ZkErrorKind::VerificationFailed, None)),
            }
        },
    }
}

/// `r` reports `verdict`: success, or an error of the stated variant (and message,
/// where stated).
pub open spec fn reports(r: Result<(), ZkProofError>, verdict: Result<(), (ZkErrorKind, Option<Seq<char>>)>) -> bool {
    match verdict {
        Ok(()) => r is Ok,
        Err((kind, message)) => r matches Err(e) && e.parts().0 == kind && (message matches Some(
            m,
        ) ==> e.parts().1 == m),
    }
}

/// Verifies a Groth16 location proof blob: the blob is split into verifying key and
/// proof, the key's declared point count is checked against its bytes, both are
/// decoded, the bounds become the public scalars, and the Groth16 verifier decides.
/// The separate verification key argument is not read: the key travels in the blob.
pub fn verify_location_groth16(
    _verification_key: &[u8],
    public_inputs: &LocationPublicInputs,
    proof_blob: &[u8],
) -> (r: Result<(), ZkProofError>)
    ensures
        reports(r, groth16_location_verdict(*public_inputs, proof_blob@)),
{
    let (vk, proof) = split_groth16_blob(proof_blob)?;
    check_groth16_key_points(vk.as_slice())?;
    crypto::groth16_bn254_decode(vk.as_slice(), proof.as_slice())?;
    let bbox = &public_inputs.bounding_box;
    let mut scalars: Vec<u64> = Vec::new();
    scalars.push(non_negative_i64_to_u32(bbox.x_min, "x_min")? as u64);
    scalars.push(non_negative_i64_to_u32(bbox.x_max, "x_max")? as u64);
    scalars.push(non_negative_i64_to_u32(bbox.y_min, "y_min")? as u64);
    scalars.push(non_negative_i64_to_u32(bbox.y_max, "y_max")? as u64);
    proof {
        let inputs = location_scalars(public_inputs.bounding_box);
        assert(inputs matches Ok(s) && s =~= scalars@);
    }
    let outcome = crypto::groth16_bn254_verify(vk.as_slice(), proof.as_slice(), scalars.as_slice());
    groth16_decision(outcome)
}

/// Verifies a Groth16 training proof blob: the blob is split into verifying key and
/// proof, the key's declared point count is checked against its bytes, both are
/// decoded, the step count and the loss bound are the public scalars, and the
/// Groth16 verifier decides. The separate verification key argument is not read.
pub fn verify_training_groth16(
    _verification_key: &[u8],
    public_inputs: &TrainingPublicInputs,
    proof_blob: &[u8],
) -> (r: Result<(), ZkProofError>)
    ensures
        reports(r, groth16_training_verdict(*public_inputs, proof_blob@)),
{
    let (vk, proof) = split_groth16_blob(proof_blob)?;
    check_groth16_key_points(vk.as_slice())?;
    crypto::groth16_bn254_decode(vk.as_slice(), proof.as_slice())?;
    let mut scalars: Vec<u64> = Vec::new();
    scalars.push(public_inputs.expected_steps as u64);
    scalars.push(public_inputs.max_loss_milli);
    assert(scalars@ =~= seq![public_inputs.expected_steps as u64, public_inputs.max_loss_milli]);
    let outcome = crypto::groth16_bn254_verify(vk.as_slice(), proof.as_slice(), scalars.as_slice());
    groth16_decision(outcome)
}

/// The location verifier's public scalars are the box's bounds in the order the
/// location circuit allocates its public inputs: `x_min`, `x_max`, `y_min`, `y_max`,
/// the same values the circuit's assignment holds; they exist exactly when every
/// bound is a non-negative 32-bit integer.
pub proof fn lemma_location_scalars_in_circuit_order(bbox: BoundingBox, x: i64, y: i64)
    ensures
        location_scalars(bbox) is Ok <==> (0 <= bbox.x_min <= u32::MAX && 0 <= bbox.x_max <= u32::MAX && 0
            <= bbox.y_min <= u32::MAX && 0 <= bbox.y_max <= u32::MAX),
        location_scalars(bbox) matches Ok(s) ==> s == seq![
            bbox.x_min as u64,
            bbox.x_max as u64,
            bbox.y_min as u64,
            bbox.y_max as u64,
        ],
        location_assignment(bbox, x, y) matches Ok(c) ==> c.x == x && c.y == y && c.x_min == bbox.x_min
            && c.x_max == bbox.x_max && c.y_min == bbox.y_min && c.y_max == bbox.y_max
            && location_scalars(bbox) == Ok::<Seq<u64>, (ZkErrorKind, Seq<char>)>(
            seq![c.x_min as u64, c.x_max as u64, c.y_min as u64, c.y_max as u64],
        ),
{
    if location_scalars(bbox) is Ok {
        assert(location_scalars(bbox) matches Ok(s) && s =~= seq![
            bbox.x_min as u64,
            bbox.x_max as u64,
            bbox.y_min as u64,
            bbox.y_max as u64,
        ]);
    }
}

/// For a blob whose key and proof decode, the location verifier accepts exactly when
/// Groth16 accepts the proof for the public inputs `x_min`, `x_max`, `y_min`, `y_max`
/// of the box, in the circuit's order.
pub proof fn lemma_location_verdict_uses_the_bounds(public: LocationPublicInputs, blob: Seq<u8>)
    requires
        split_blob(blob) is Ok,
        groth16_key_points_fit(split_blob(blob)->Ok_0.0),
        groth16_bn254_decodes(split_blob(blob)->Ok_0.0, split_blob(blob)->Ok_0.1),
        0 <= public.bounding_box.x_min <= u32::MAX,
        0 <= public.bounding_box.x_max <= u32::MAX,
        0 <= public.bounding_box.y_min <= u32::MAX,
        0 <= public.bounding_box.y_max <= u32::MAX,
    ensures
        groth16_location_verdict(public, blob) is Ok <==> groth16_bn254_outcome(
            split_blob(blob)->Ok_0.0,
            split_blob(blob)->Ok_0.1,
            seq![
                public.bounding_box.x_min as u64,
                public.bounding_box.x_max as u64,
                public.bounding_box.y_min as u64,
                public.bounding_box.y_max as u64,
            ],
        ) == Some(true),
{
    lemma_location_scalars_in_circuit_order(public.bounding_box, 0, 0);
}

/// For a blob whose key and proof decode, the training verifier accepts exactly when
/// Groth16 accepts the proof for the public inputs `expected_steps`, `max_loss` of
/// the statement, in the order the training circuit allocates them, the values its
/// assignment holds.
pub proof fn lemma_training_verdict_uses_steps_then_loss(
    public: TrainingPublicInputs,
    witness: TrainingPrivateWitness,
    blob: Seq<u8>,
)
    requires
        split_blob(blob) is Ok,
        groth16_key_points_fit(split_blob(blob)->Ok_0.0),
        groth16_bn254_decodes(split_blob(blob)->Ok_0.0, split_blob(blob)->Ok_0.1),
    ensures
        groth16_training_verdict(public, blob) is Ok <==> groth16_bn254_outcome(
            split_blob(blob)->Ok_0.0,
            split_blob(blob)->Ok_0.1,
            seq![public.expected_steps as u64, public.max_loss_milli],
        ) == Some(true),
        ({
            let c = TrainingR1CS {
                steps_completed: witness.steps_completed,
                observed_loss: witness.observed_loss_milli,
                expected_steps: public.expected_steps,
                max_loss: public.max_loss_milli,
            };
            groth16_training_verdict(public, blob) is Ok <==> groth16_bn254_outcome(
                split_blob(blob)->Ok_0.0,
                split_blob(blob)->Ok_0.1,
                seq![c.expected_steps as u64, c.max_loss],
            ) == Some(true)
        }),
{
}

} // verus!
