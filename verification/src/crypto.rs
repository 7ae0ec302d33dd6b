//! The outside primitives this crate computes with, each behind one trusted
//! item whose contract names or states what the outside crate returns.

use vstd::prelude::*;
use ark_bn254::{Bn254, Fr};
use ark_groth16::{Groth16, Proof as Groth16Proof, VerifyingKey as Groth16Key};
use ark_serialize::{CanonicalDeserialize, Compress, Validate};
use crate::encoding::{le_i64, u64_from_le};
use crate::error::ZkProofError;

verus! {

/// The SHA-256 digest (FIPS 180-4) of a byte string, as computed by `sha2::Sha256`.
pub uninterp spec fn sha256_digest(data: Seq<u8>) -> Seq<u8>;

/// The SHA3-256 digest (FIPS 202) of a byte string, as computed by `sha3::Sha3_256`.
pub uninterp spec fn sha3_256_digest(data: Seq<u8>) -> Seq<u8>;

/// The Ed25519 public key (RFC 8032) derived from a 32-byte secret seed by `ed25519-dalek`.
pub uninterp spec fn ed25519_public_key(seed: Seq<u8>) -> Seq<u8>;

/// The Ed25519 signature (RFC 8032, deterministic) of `msg` under the key derived from `seed`.
pub uninterp spec fn ed25519_signature(seed: Seq<u8>, msg: Seq<u8>) -> Seq<u8>;

/// Whether `ed25519-dalek` accepts `sig` as a signature of `msg` under the encoded `public_key`.
pub uninterp spec fn ed25519_accepts(public_key: Seq<u8>, msg: Seq<u8>, sig: Seq<u8>) -> bool;

/// What `ark-groth16` makes of an uncompressed BN254 verifying key, an uncompressed
/// proof and the public inputs: `None` when a byte string does not decode or the
/// verifier reports an error, otherwise whether the proof verifies.
pub uninterp spec fn groth16_bn254_outcome(vk: Seq<u8>, proof: Seq<u8>, inputs: Seq<u64>) -> Option<bool>;

/// Whether `ark-serialize` decodes (uncompressed, validated) `vk` as a BN254 Groth16
/// verifying key and `proof` as a BN254 Groth16 proof.
pub uninterp spec fn groth16_bn254_decodes(vk: Seq<u8>, proof: Seq<u8>) -> bool;

/// The count of `gamma_abc_g1` points that an uncompressed BN254 Groth16 verifying
/// key declares (the `u64` after its four points, at byte 448) is at most what the
/// bytes after it can hold, 64 bytes a point; or the key is too short to declare one.
/// `ark-serialize` reserves room for the declared count before reading any point,
/// and panics on a count whose room cannot be reserved.
pub open spec fn groth16_key_points_fit(vk: Seq<u8>) -> bool {
    vk.len() < 456 || u64_from_le(vk.subrange(448, 456)) <= (vk.len() - 456) / 64
}

/// `sha2::Sha256::digest`: the contract names the result `sha256_digest` of the input.
#[verifier::external_body]
pub(crate) fn sha256(data: &[u8]) -> (r: [u8; 32])
    ensures
        r@ == sha256_digest(data@),
{
    <sha2::Sha256 as sha2::Digest>::digest(data).into()
}

/// `sha3::Sha3_256::digest`: the contract names the result `sha3_256_digest` of the input.
#[verifier::external_body]
pub(crate) fn sha3_256(data: &[u8]) -> (r: [u8; 32])
    ensures
        r@ == sha3_256_digest(data@),
{
    <sha3::Sha3_256 as sha3::Digest>::digest(data).into()
}

/// `bincode::serialize` of the tuple `(tag, x, y, bytes)`: bincode's default
/// configuration writes the elements of a tuple and of an array in order with no
/// length and an `i64` as its 8 little-endian bytes, and with no size limit it does
/// not fail on these types.
#[verifier::external_body]
pub(crate) fn bincode_tag_two_i64_array(tag: &[u8; 22], x: i64, y: i64, bytes: &[u8; 32]) -> (r: Result<Vec<u8>, ZkProofError>)
    ensures
        r is Ok,
        r matches Ok(v) ==> v@ == tag@ + le_i64(x) + le_i64(y) + bytes@,
{
    bincode::serialize(&(tag, x, y, bytes)).map_err(|e| ZkProofError::SerializationFailed(e.to_string()))
}

/// `bincode::serialize` of the tuple `(tag, a, b, c)`: bincode's default
/// configuration writes the elements of a tuple and of an array in order with no
/// length, and with no size limit it does not fail on these types.
#[verifier::external_body]
pub(crate) fn bincode_tag_three_arrays(tag: &[u8; 22], a: &[u8; 32], b: &[u8; 32], c: &[u8; 32]) -> (r: Result<Vec<u8>, ZkProofError>)
    ensures
        r is Ok,
        r matches Ok(v) ==> v@ == tag@ + a@ + b@ + c@,
{
    bincode::serialize(&(tag, a, b, c)).map_err(|e| ZkProofError::SerializationFailed(e.to_string()))
}

/// `constant_time_eq::constant_time_eq`: true exactly when both slices hold the same
/// bytes (its source returns false for different lengths and otherwise ORs the XOR
/// of every byte pair).
#[verifier::external_body]
pub(crate) fn bytes_equal_constant_time(a: &[u8], b: &[u8]) -> (r: bool)
    ensures
        r == (a@ == b@),
{
    constant_time_eq::constant_time_eq(a, b)
}

/// `ed25519_dalek::SigningKey::from_bytes` followed by `verifying_key().to_bytes()`:
/// the contract names the encoded public key of the seed.
#[verifier::external_body]
pub(crate) fn ed25519_derive_public_key(seed: &[u8; 32]) -> (r: [u8; 32])
    ensures
        r@ == ed25519_public_key(seed@),
{
    ed25519_dalek::SigningKey::from_bytes(seed).verifying_key().to_bytes()
}

/// `ed25519_dalek::Signer::sign` with the key of `seed`: the contract names the
/// signature, and states the correctness of Ed25519 that the crate documents: a
/// signature made with a seed's key is accepted under that seed's public key.
#[verifier::external_body]
pub(crate) fn ed25519_sign(seed: &[u8; 32], msg: &[u8]) -> (r: [u8; 64])
    ensures
        r@ == ed25519_signature(seed@, msg@),
        ed25519_accepts(ed25519_public_key(seed@), msg@, r@),
{
    ed25519_dalek::Signer::sign(&ed25519_dalek::SigningKey::from_bytes(seed), msg).to_bytes()
}

/// `ed25519_dalek::Verifier::verify` on the decoded key and signature (a key or a
/// signature that does not decode is rejected): the contract names the verdict.
#[verifier::external_body]
pub(crate) fn ed25519_verify(public_key: &[u8; 32], msg: &[u8], sig: &[u8]) -> (r: bool)
    ensures
        r == ed25519_accepts(public_key@, msg@, sig@),
{
    let Ok(sig) = ed25519_dalek::Signature::from_slice(sig) else {
        return false;
    };
    match ed25519_dalek::VerifyingKey::from_bytes(public_key) {
        Ok(key) => ed25519_dalek::Verifier::verify(&key, msg, &sig).is_ok(),
        Err(_) => false,
    }
}

/// `rand::rngs::OsRng` through `RngCore::try_fill_bytes`: 32 bytes from the operating
/// system, or `None` when the generator fails. Nothing is stated of the bytes.
#[verifier::external_body]
pub(crate) fn os_random_bytes() -> (r: Option<[u8; 32]>) {
    let mut bytes = [0u8; 32];
    match rand::RngCore::try_fill_bytes(&mut rand::rngs::OsRng, &mut bytes) {
        Ok(()) => Some(bytes),
        Err(_) => None,
    }
}

/// `std::time::SystemTime::now` as whole seconds since the Unix epoch (0 for a clock
/// set before it). Nothing is stated of the value: it is the machine's clock.
#[verifier::external_body]
pub(crate) fn unix_time_seconds() -> (r: u64) {
    std::time::SystemTime::now().duration_since(std::time::UNIX_EPOCH).unwrap_or_default().as_secs()
}

/// `CanonicalDeserialize::deserialize_with_mode` (uncompressed, validated) of a BN254
/// Groth16 verifying key from `vk`, then of a proof from `proof`: the contract names
/// whether both decode; a failure is reported as `VerificationFailed`, whose message
/// (the outside error's text) is not stated.
#[verifier::external_body]
pub(crate) fn groth16_bn254_decode(vk: &[u8], proof: &[u8]) -> (r: Result<(), ZkProofError>)
    requires
        groth16_key_points_fit(vk@),
    ensures
        r is Ok <==> groth16_bn254_decodes(vk@, proof@),
        r matches Err(e) ==> e is VerificationFailed,
{
    Groth16Key::<Bn254>::deserialize_with_mode(vk, Compress::No, Validate::Yes)
        .map_err(|e| ZkProofError::VerificationFailed(format!("vk deserialize: {e}")))?;
    Groth16Proof::<Bn254>::deserialize_with_mode(proof, Compress::No, Validate::Yes)
        .map_err(|e| ZkProofError::VerificationFailed(format!("proof deserialize: {e}")))?;
    Ok(())
}

/// `ark_groth16::Groth16::<Bn254>::verify_proof` on the verifying key and proof decoded
/// (uncompressed, validated) by `ark-serialize` and on the inputs as scalars: the
/// contract names the outcome; an error is reported as `VerificationFailed`, whose
/// message (the outside error's text) is not stated.
#[verifier::external_body]
pub(crate) fn groth16_bn254_verify(vk: &[u8], proof: &[u8], inputs: &[u64]) -> (r: Result<bool, ZkProofError>)
    requires
        groth16_key_points_fit(vk@),
    ensures
        r is Ok <==> groth16_bn254_outcome(vk@, proof@, inputs@) is Some,
        r matches Ok(b) ==> groth16_bn254_outcome(vk@, proof@, inputs@) == Some(b),
        r matches Err(e) ==> e is VerificationFailed,
{
    let vk = Groth16Key::<Bn254>::deserialize_with_mode(vk, Compress::No, Validate::Yes)
        .map_err(|e| ZkProofError::VerificationFailed(format!("vk deserialize: {e}")))?;
    let proof = Groth16Proof::<Bn254>::deserialize_with_mode(proof, Compress::No, Validate::Yes)
        .map_err(|e| ZkProofError::VerificationFailed(format!("proof deserialize: {e}")))?;
    let scalars: Vec<Fr> = inputs.iter().map(|v| Fr::from(*v)).collect();
    Groth16::<Bn254>::verify_proof(&ark_groth16::prepare_verifying_key(&vk), &proof, &scalars)
        .map_err(|e| ZkProofError::VerificationFailed(format!("verify: {e}")))
}

} // verus!
