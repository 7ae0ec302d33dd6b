//! Hashing, commitment and blinding-factor helpers.

use vstd::prelude::*;
use crate::crypto::{self, sha256_digest};
use crate::encoding::{le_i64, lemma_i64_bits, lemma_le_u64_round_trip, push_bytes, u64_from_le};
use crate::error::ZkProofError;
use vstd::string::StringSliceAdditionalSpecFns;

verus! {

/// The concatenation of byte strings, in order.
pub open spec fn concat_parts(parts: Seq<Seq<u8>>) -> Seq<u8>
    decreases parts.len(),
{
    if parts.len() == 0 {
        Seq::empty()
    } else {
        concat_parts(parts.drop_last()) + parts.last()
    }
}

/// The byte strings of a slice of slices.
pub open spec fn parts_view(parts: Seq<&[u8]>) -> Seq<Seq<u8>> {
    parts.map_values(|p: &[u8]| p@)
}

/// Computes the SHA-256 digest over the concatenation of all `parts`.
pub fn hash_bytes(parts: &[&[u8]]) -> (r: [u8; 32])
    ensures
        r@ == sha256_digest(concat_parts(parts_view(parts@))),
{
    let mut buffer: Vec<u8> = Vec::new();
    let mut i: usize = 0;
    while i < parts.len()
        invariant
            i <= parts@.len(),
            buffer@ == concat_parts(parts_view(parts@.take(i as int))),
        decreases parts@.len() - i,
    {
        push_bytes(&mut buffer, parts[i]);
        assert(parts_view(parts@.take(i + 1)).drop_last() =~= parts_view(parts@.take(i as int)));
        i = i + 1;
    }
    assert(parts@.take(i as int) =~= parts@);
    crypto::sha256(buffer.as_slice())
}

/// The bytes committed to for a location: the domain tag, both coordinates and
/// the blinding factor, laid out as the bincode encoding of the tuple
/// `(b"location-commitment-v1", x, y, blinding)`.
pub open spec fn location_commitment_preimage(x: i64, y: i64, blinding: Seq<u8>) -> Seq<u8> {
    "location-commitment-v1".spec_bytes() + le_i64(x) + le_i64(y) + blinding
}

/// The commitment to a location.
pub open spec fn location_commitment_of(x: i64, y: i64, blinding: Seq<u8>) -> Seq<u8> {
    sha256_digest(location_commitment_preimage(x, y, blinding))
}

/// The bytes committed to for a weight update: the domain tag, both digests and the
/// blinding factor, laid out as the bincode encoding of the tuple
/// `(b"training-commitment-v1", base_model_digest, update_digest, blinding)`.
pub open spec fn training_commitment_preimage(base: Seq<u8>, update: Seq<u8>, blinding: Seq<u8>) -> Seq<u8> {
    "training-commitment-v1".spec_bytes() + base + update + blinding
}

/// The commitment to a weight update.
pub open spec fn training_commitment_of(base: Seq<u8>, update: Seq<u8>, blinding: Seq<u8>) -> Seq<u8> {
    sha256_digest(training_commitment_preimage(base, update, blinding))
}

/// The location commitment's domain tag as a byte array.
fn location_tag() -> (r: [u8; 22])
    ensures
        r@ == "location-commitment-v1".spec_bytes(),
{
    let r: [u8; 22] = [
        0x6c, 0x6f, 0x63, 0x61, 0x74, 0x69, 0x6f, 0x6e, 0x2d, 0x63, 0x6f, 0x6d, 0x6d, 0x69, 0x74,
        0x6d, 0x65, 0x6e, 0x74, 0x2d, 0x76, 0x31,
    ];
    proof {
        reveal_strlit("location-commitment-v1");
        vstd::string::is_ascii_spec_bytes("location-commitment-v1");
        assert(vstd::string::is_ascii("location-commitment-v1"));
        assert(r@ =~= "location-commitment-v1".spec_bytes());
    }
    r
}

/// The training commitment's domain tag as a byte array.
fn training_tag() -> (r: [u8; 22])
    ensures
        r@ == "training-commitment-v1".spec_bytes(),
{
    let r: [u8; 22] = [
        0x74, 0x72, 0x61, 0x69, 0x6e, 0x69, 0x6e, 0x67, 0x2d, 0x63, 0x6f, 0x6d, 0x6d, 0x69, 0x74,
        0x6d, 0x65, 0x6e, 0x74, 0x2d, 0x76, 0x31,
    ];
    proof {
        reveal_strlit("training-commitment-v1");
        vstd::string::is_ascii_spec_bytes("training-commitment-v1");
        assert(vstd::string::is_ascii("training-commitment-v1"));
        assert(r@ =~= "training-commitment-v1".spec_bytes());
    }
    r
}

/// Distinct coordinate pairs or blinding factors give distinct location preimages:
/// the preimage determines `x`, `y` and the 32-byte blinding factor.
pub proof fn lemma_location_preimage_injective(x1: i64, y1: i64, b1: Seq<u8>, x2: i64, y2: i64, b2: Seq<u8>)
    requires
        b1.len() == 32,
        b2.len() == 32,
        location_commitment_preimage(x1, y1, b1) == location_commitment_preimage(x2, y2, b2),
    ensures
        x1 == x2,
        y1 == y2,
        b1 == b2,
{
    let tag = "location-commitment-v1".spec_bytes();
    let p1 = location_commitment_preimage(x1, y1, b1);
    let p2 = location_commitment_preimage(x2, y2, b2);
    let t = tag.len() as int;
    lemma_le_u64_round_trip(x1 as u64);
    lemma_le_u64_round_trip(x2 as u64);
    lemma_le_u64_round_trip(y1 as u64);
    lemma_le_u64_round_trip(y2 as u64);
    assert(p1.subrange(t, t + 8) =~= le_i64(x1));
    assert(p2.subrange(t, t + 8) =~= le_i64(x2));
    assert(p1.subrange(t + 8, t + 16) =~= le_i64(y1));
    assert(p2.subrange(t + 8, t + 16) =~= le_i64(y2));
    assert(p1.subrange(t + 16, t + 48) =~= b1);
    assert(p2.subrange(t + 16, t + 48) =~= b2);
    assert(u64_from_le(le_i64(x1)) == u64_from_le(le_i64(x2)));
    assert(u64_from_le(le_i64(y1)) == u64_from_le(le_i64(y2)));
    lemma_i64_bits(x1);
    lemma_i64_bits(x2);
    lemma_i64_bits(y1);
    lemma_i64_bits(y2);
}

/// Distinct digests or blinding factors give distinct training preimages: the
/// preimage determines the base-model digest, the update digest and the blinding
/// factor, each of 32 bytes.
pub proof fn lemma_training_preimage_injective(
    base1: Seq<u8>,
    update1: Seq<u8>,
    b1: Seq<u8>,
    base2: Seq<u8>,
    update2: Seq<u8>,
    b2: Seq<u8>,
)
    requires
        base1.len() == 32,
        update1.len() == 32,
        b1.len() == 32,
        base2.len() == 32,
        update2.len() == 32,
        b2.len() == 32,
        training_commitment_preimage(base1, update1, b1) == training_commitment_preimage(base2, update2, b2),
    ensures
        base1 == base2,
        update1 == update2,
        b1 == b2,
{
    let t = "training-commitment-v1".spec_bytes().len() as int;
    let p1 = training_commitment_preimage(base1, update1, b1);
    let p2 = training_commitment_preimage(base2, update2, b2);
    assert(p1.subrange(t, t + 32) =~= base1);
    assert(p2.subrange(t, t + 32) =~= base2);
    assert(p1.subrange(t + 32, t + 64) =~= update1);
    assert(p2.subrange(t + 32, t + 64) =~= update2);
    assert(p1.subrange(t + 64, t + 96) =~= b1);
    assert(p2.subrange(t + 64, t + 96) =~= b2);
}

/// Commits to a `(x, y)` coordinate pair with a 32-byte blinding factor, under the
/// domain separation tag `"location-commitment-v1"`.
pub fn location_commitment(x: i64, y: i64, blinding: &[u8; 32]) -> (r: Result<[u8; 32], ZkProofError>)
    ensures
        r matches Ok(c) && c@ == location_commitment_of(x, y, blinding@),
{
    let tag = location_tag();
    let preimage = crypto::bincode_tag_two_i64_array(&tag, x, y, blinding)?;
    Ok(crypto::sha256(preimage.as_slice()))
}

/// Commits to a model weight update given the base-model digest, the update digest
/// and a 32-byte blinding factor, under the domain separation tag
/// `"training-commitment-v1"`.
pub fn training_commitment(
    base_model_digest: [u8; 32],
    update_digest: [u8; 32],
    blinding: &[u8; 32],
) -> (r: Result<[u8; 32], ZkProofError>)
    ensures
        r matches Ok(c) && c@ == training_commitment_of(base_model_digest@, update_digest@, blinding@),
{
    let tag = training_tag();
    let preimage = crypto::bincode_tag_three_arrays(&tag, &base_model_digest, &update_digest, blinding)?;
    Ok(crypto::sha256(preimage.as_slice()))
}

/// Generates a cryptographically secure random 32-byte blinding factor from the
/// operating system's generator, reporting `SetupFailed` when the generator fails.
pub fn generate_csprng_blinding_factor() -> (r: Result<[u8; 32], ZkProofError>)
    ensures
        r matches Err(e) ==> e matches ZkProofError::SetupFailed(m) && m@
            == "operating system random number generator failed"@,
{
    match crypto::os_random_bytes() {
        Some(bytes) => Ok(bytes),
        None => Err(ZkProofError::SetupFailed("operating system random number generator failed".to_owned())),
    }
}

/// The blinding factor derived from a seed.
pub open spec fn deterministic_blinding_of(seed: Seq<u8>) -> Seq<u8> {
    sha256_digest("BLINDING_SEED:".spec_bytes() + seed)
}

/// Derives a deterministic blinding factor from a seed, for reproducible tests only.
pub fn generate_deterministic_blinding_factor(seed: [u8; 32]) -> (r: [u8; 32])
    ensures
        r@ == deterministic_blinding_of(seed@),
{
    let mut preimage: Vec<u8> = Vec::new();
    push_bytes(&mut preimage, "BLINDING_SEED:".as_bytes());
    push_bytes(&mut preimage, seed.as_slice());
    crypto::sha256(preimage.as_slice())
}

/// Compares two byte strings in constant time (for equal lengths).
pub fn constant_time_eq_bytes(a: &[u8], b: &[u8]) -> (r: bool)
    ensures
        r == (a@ == b@),
{
    if a.len() != b.len() {
        return false;
    }
    crypto::bytes_equal_constant_time(a, b)
}

/// Generates a cryptographically secure random blinding factor from the operating
/// system's generator, reporting `SetupFailed` when the generator fails.
pub fn generate_secure_blinding_factor() -> (r: Result<[u8; 32], ZkProofError>)
    ensures
        r matches Err(e) ==> e matches ZkProofError::SetupFailed(m) && m@
            == "operating system random number generator failed"@,
{
    match crypto::os_random_bytes() {
        Some(bytes) => Ok(bytes),
        None => Err(ZkProofError::SetupFailed("operating system random number generator failed".to_owned())),
    }
}

/// How many times `v` occurs in `s`.
pub open spec fn count_of(s: Seq<u8>, v: u8) -> nat
    decreases s.len(),
{
    if s.len() == 0 {
        0
    } else {
        count_of(s.drop_last(), v) + if s.last() == v {
            1nat
        } else {
            0nat
        }
    }
}

/// A blinding factor is strong enough when at most half of its bytes are zero and
/// it holds at least four distinct byte values.
pub open spec fn blinding_has_entropy(b: Seq<u8>) -> bool {
    &&& count_of(b, 0) <= 16
    &&& b.to_set().len() >= 4
}

/// Checks that a blinding factor is not obviously weak: more than half of its bytes
/// zero, or fewer than four distinct byte values, is rejected.
pub fn validate_blinding_factor(blinding: &[u8; 32]) -> (r: Result<(), ZkProofError>)
    ensures
        r is Ok <==> blinding_has_entropy(blinding@),
        r matches Err(e) ==> e matches ZkProofError::InvalidPublicInputs(m) && m@
            == "Blinding factor has insufficient entropy"@,
{
    let mut zeros: usize = 0;
    let mut i: usize = 0;
    while i < 32
        invariant
            i <= 32,
            blinding@.len() == 32,
            zeros <= i,
            zeros == count_of(blinding@.take(i as int), 0),
        decreases 32 - i,
    {
        assert(blinding@.take(i + 1).drop_last() =~= blinding@.take(i as int));
        if blinding[i] == 0 {
            zeros = zeros + 1;
        }
        i = i + 1;
    }
    assert(blinding@.take(32) =~= blinding@);
    if zeros > 16 {
        return Err(ZkProofError::InvalidPublicInputs("Blinding factor has insufficient entropy".to_owned()));
    }
    let mut seen: Vec<bool> = Vec::new();
    let mut k: usize = 0;
    while k < 256
        invariant
            k <= 256,
            seen@.len() == k,
            forall|j: int| 0 <= j < k ==> !seen@[j],
        decreases 256 - k,
    {
        seen.push(false);
        k = k + 1;
    }
    let mut distinct: usize = 0;
    let mut i: usize = 0;
    proof {
        assert(blinding@.take(0).to_set() =~= Set::<u8>::empty());
        broadcast use vstd::set::axiom_set_empty_len;
    }
    while i < 32
        invariant
            i <= 32,
            blinding@.len() == 32,
            seen@.len() == 256,
            forall|v: u8| #[trigger] seen@[v as int] <==> blinding@.take(i as int).contains(v),
            distinct == blinding@.take(i as int).to_set().len(),
            distinct <= i,
        decreases 32 - i,
    {
        let v = blinding[i];
        proof {
            broadcast use vstd::seq_lib::seq_to_set_is_finite;
            broadcast use vstd::set::axiom_set_insert_len;
            assert(blinding@.take(i + 1) =~= blinding@.take(i as int).push(v));
            blinding@.take(i as int).lemma_push_to_set_commute(v);
            assert(blinding@.take(i as int).to_set().contains(v) <==> blinding@.take(i as int).contains(v));
            assert forall|w: u8| #[trigger] blinding@.take(i + 1).contains(w) <==> (blinding@.take(i as int).contains(w) || w == v) by {
                if blinding@.take(i as int).contains(w) {
                    let j = choose|j: int| 0 <= j < i && #[trigger] blinding@.take(i as int)[j] == w;
                    assert(blinding@.take(i + 1)[j] == w);
                }
                if w == v {
                    assert(blinding@.take(i + 1)[i as int] == w);
                }
                if blinding@.take(i + 1).contains(w) {
                    let j = choose|j: int| 0 <= j < i + 1 && #[trigger] blinding@.take(i + 1)[j] == w;
                    if j < i {
                        assert(blinding@.take(i as int)[j] == w);
                    }
                }
            }
        }
        if !seen[v as usize] {
            distinct = distinct + 1;
            seen.set(v as usize, true);
        }
        i = i + 1;
    }
    assert(blinding@.take(32) =~= blinding@);
    if distinct < 4 {
        return Err(ZkProofError::InvalidPublicInputs("Blinding factor has insufficient entropy".to_owned()));
    }
    Ok(())
}

} // verus!
