//! A lattice-inspired post-quantum backend.
//!
//! Parameter sets: NIST level 1 (128 bits) with `n = 512`, level 3 (192 bits) with
//! `n = 768` and level 5 (256 bits) with `n = 1024`, all with `q = 3329`. The error
//! distribution's deviation (2.0 in every set) is not part of this model: nothing
//! in the commitment or the proofs reads it.

use vstd::prelude::*;
use crate::crypto::{self, sha256_digest};
use crate::encoding::{bytes_eq, push_bytes};
use crate::pq_compatibility::{
    PostQuantumBackend, PostQuantumBackendDescriptor, PostQuantumBackendStatus, PqcBackendType,
    PqcConfig, PqcError, PqcResult,
};
use vstd::string::StringSliceAdditionalSpecFns;

verus! {

broadcast use vstd::std_specs::vec::axiom_spec_len;

/// Lattice parameters for a security level.
#[derive(Debug, Clone, Copy, PartialEq, Eq, Structural)]
pub struct LatticeParams {
    /// Polynomial ring dimension.
    pub n: usize,
    /// Modulus.
    pub q: u32,
    /// Target security level in bits.
    pub security_bits: u32,
}

/// The parameter set for a requested security level: up to 128 bits (from 1), up to
/// 192 bits, and otherwise (0 included) the 256-bit set.
pub open spec fn params_for_level(bits: u32) -> LatticeParams {
    if 1 <= bits <= 128 {
        LatticeParams { n: 512, q: 3329, security_bits: 128 }
    } else if 129 <= bits <= 192 {
        LatticeParams { n: 768, q: 3329, security_bits: 192 }
    } else {
        LatticeParams { n: 1024, q: 3329, security_bits: 256 }
    }
}

impl LatticeParams {
    /// The byte the secret's coefficients are reduced by: the modulus truncated to
    /// its low byte.
    pub open spec fn reduction_byte(self) -> u8 {
        self.q as u8
    }

    /// Returns the parameter set for a requested security level.
    pub fn from_security_level(bits: u32) -> (r: Self)
        ensures
            r == params_for_level(bits),
    {
        if 1 <= bits && bits <= 128 {
            LatticeParams { n: 512, q: 3329, security_bits: 128 }
        } else if 129 <= bits && bits <= 192 {
            LatticeParams { n: 768, q: 3329, security_bits: 192 }
        } else {
            LatticeParams { n: 1024, q: 3329, security_bits: 256 }
        }
    }
}

/// Every standard parameter set reduces by a non-zero byte.
pub proof fn lemma_standard_params_reduce(bits: u32)
    ensures
        params_for_level(bits).reduction_byte() == 1,
{
    assert(3329u32 as u8 == 1u8) by (bit_vector);
}

/// A commitment of the lattice backend.
#[derive(Debug, Clone)]
pub struct LatticeCommitment {
    /// The commitment bytes.
    pub commitment: Vec<u8>,
    /// The randomness used in the commitment.
    pub randomness: Vec<u8>,
    /// The parameters used.
    pub params: LatticeParams,
}

/// A proof of the lattice backend.
#[derive(Debug, Clone)]
pub struct LatticeProof {
    /// The commitment.
    pub commitment: LatticeCommitment,
    /// The Fiat-Shamir challenge.
    pub challenge: Vec<u8>,
    /// The response to the challenge.
    pub response: Vec<u8>,
    /// Digest of the public inputs.
    pub public_inputs_hash: Vec<u8>,
    /// When, by which backend and at which level the proof was made.
    pub metadata: ProofMetadata,
}

/// Metadata of a lattice proof.
#[derive(Debug, Clone)]
pub struct ProofMetadata {
    /// Seconds since the Unix epoch when the proof was made.
    pub timestamp: u64,
    /// Backend identifier.
    pub backend: String,
    /// Security level in bits.
    pub security_level: u32,
    /// Version of the backend.
    pub version: String,
}

/// The version of this crate, recorded in proof metadata.
pub open spec fn crate_version() -> Seq<char> {
    "0.1.0"@
}

impl ProofMetadata {
    /// Metadata for a lattice proof made now at the given level.
    pub fn new(security_level: u32) -> (r: Self)
        ensures
            r.backend@ == "lattice-kyber"@,
            r.security_level == security_level,
            r.version@ == crate_version(),
    {
        ProofMetadata {
            timestamp: crypto::unix_time_seconds(),
            backend: "lattice-kyber".to_owned(),
            security_level,
            version: "0.1.0".to_owned(),
        }
    }
}

/// The lattice backend, with fixed parameters or parameters chosen per request.
#[derive(Debug, Clone)]
pub struct LatticeBackend {
    params: Option<LatticeParams>,
}

impl Default for LatticeBackend {
    fn default() -> (r: Self)
        ensures
            r.fixed_params() is None,
    {
        LatticeBackend { params: None }
    }
}

/// The secret derived from a seed: `n` coefficients, the `i`-th being seed byte
/// `i mod 32` reduced by the parameters' reduction byte.
pub open spec fn lattice_secret(seed: Seq<u8>, params: LatticeParams) -> Seq<u8> {
    Seq::new(params.n as nat, |i: int| seed[i % 32] % params.reduction_byte())
}

/// The data committed to, prefixed with a domain tag.
pub open spec fn tagged(tag: &str, data: Seq<u8>) -> Seq<u8> {
    tag.spec_bytes() + data
}

/// The randomness of the commitment to `data`.
pub open spec fn lattice_randomness(data: Seq<u8>) -> Seq<u8> {
    sha256_digest(tagged("LATTICE_RANDOMNESS:", data))
}

/// The commitment bytes for `data` under `params`.
pub open spec fn lattice_commitment_bytes(data: Seq<u8>, params: LatticeParams) -> Seq<u8> {
    let seed = sha256_digest(tagged("LATTICE_SECRET:", data));
    sha256_digest(data + lattice_secret(seed, params) + lattice_randomness(data))
}

/// The challenge-masked randomness: byte `i` of the challenge XOR byte `i mod len`
/// of the randomness.
pub open spec fn masked(challenge: Seq<u8>, randomness: Seq<u8>) -> Seq<u8> {
    Seq::new(challenge.len(), |i: int| challenge[i] ^ randomness[i % randomness.len() as int])
}

/// The response matches the challenge and the randomness on every position both the
/// response and the challenge have.
pub open spec fn lattice_response_ok(response: Seq<u8>, challenge: Seq<u8>, randomness: Seq<u8>) -> bool {
    forall|i: int|
        0 <= i < response.len() && i < challenge.len() ==> #[trigger] response[i] == challenge[i]
            ^ randomness[i % randomness.len() as int]
}

/// Whether the lattice verifier accepts `proof` for `public_inputs`.
pub open spec fn lattice_accepts(proof: LatticeProof, public_inputs: Seq<u8>) -> bool {
    &&& proof.challenge@ == sha256_digest(proof.commitment.commitment@ + public_inputs)
    &&& proof.public_inputs_hash@ == sha256_digest(public_inputs)
    &&& lattice_response_ok(proof.response@, proof.challenge@, proof.commitment.randomness@)
}

/// The lattice verifier would index into empty randomness: the proof's challenge and
/// public-input digest check out, the response is not empty and the randomness is.
pub open spec fn lattice_verify_undefined(proof: LatticeProof, public_inputs: Seq<u8>) -> bool {
    &&& proof.challenge@ == sha256_digest(proof.commitment.commitment@ + public_inputs)
    &&& proof.public_inputs_hash@ == sha256_digest(public_inputs)
    &&& proof.response@.len() > 0
    &&& proof.commitment.randomness@.len() == 0
}

/// `proof` is the lattice proof of `data` for `public_inputs` under `params` at
/// `level` bits, its timestamp aside.
pub open spec fn is_lattice_proof_of(
    proof: LatticeProof,
    data: Seq<u8>,
    public_inputs: Seq<u8>,
    params: LatticeParams,
    level: u32,
) -> bool {
    let commitment = lattice_commitment_bytes(data, params);
    let challenge = sha256_digest(commitment + public_inputs);
    &&& proof.commitment.commitment@ == commitment
    &&& proof.commitment.randomness@ == lattice_randomness(data)
    &&& lattice_randomness(data).len() == 32
    &&& proof.commitment.params == params
    &&& proof.challenge@ == challenge
    &&& proof.response@ == masked(challenge, lattice_randomness(data))
    &&& proof.public_inputs_hash@ == sha256_digest(public_inputs)
    &&& proof.metadata.backend@ == "lattice-kyber"@
    &&& proof.metadata.security_level == level
    &&& proof.metadata.version@ == crate_version()
}

/// A lattice proof is accepted for the public inputs it was made for.
pub proof fn lemma_lattice_proof_is_accepted(
    proof: LatticeProof,
    data: Seq<u8>,
    public_inputs: Seq<u8>,
    params: LatticeParams,
    level: u32,
)
    requires
        is_lattice_proof_of(proof, data, public_inputs, params, level),
    ensures
        lattice_accepts(proof, public_inputs),
        !lattice_verify_undefined(proof, public_inputs),
{
}

/// The training data behind a training proof: the data with its domain tag.
pub open spec fn tagged_training_data(data: Seq<u8>) -> Seq<u8> {
    tagged("TRAINING_PROOF:", data)
}

fn push_tagged(out: &mut Vec<u8>, tag: &str, data: &[u8])
    ensures
        final(out)@ == old(out)@ + tagged(tag, data@),
{
    push_bytes(out, tag.as_bytes());
    push_bytes(out, data);
    assert(out@ =~= old(out)@ + tagged(tag, data@));
}

fn digest_vec(data: &[u8]) -> (r: Vec<u8>)
    ensures
        r@ == sha256_digest(data@),
        r@.len() == 32,
{
    let d = crypto::sha256(data);
    let mut out: Vec<u8> = Vec::new();
    push_bytes(&mut out, d.as_slice());
    assert(out@ =~= d@);
    out
}

impl LatticeBackend {
    /// The parameters the backend was created with, if any.
    pub closed spec fn fixed_params(&self) -> Option<LatticeParams> {
        self.params
    }

    /// The parameters used for a request at `bits`: the fixed ones, or the standard set
    /// for the level.
    pub open spec fn params_for(&self, bits: u32) -> LatticeParams {
        match self.fixed_params() {
            Some(p) => p,
            None => params_for_level(bits),
        }
    }

    /// The backend's commitments are defined: fixed parameters reduce by a non-zero byte.
    pub open spec fn well_formed(&self) -> bool {
        self.fixed_params() matches Some(p) ==> p.reduction_byte() != 0
    }

    /// Creates a backend with fixed parameters.
    pub fn new(params: LatticeParams) -> (r: Self)
        ensures
            r.fixed_params() == Some(params),
    {
        LatticeBackend { params: Some(params) }
    }

    /// Commits to location data.
    pub fn commit_location(&self, location_data: &[u8], config: &PqcConfig) -> (r: PqcResult<LatticeCommitment>)
        requires
            self.well_formed(),
        ensures
            r matches Ok(c) && c.commitment@ == lattice_commitment_bytes(
                location_data@,
                self.params_for(config.security_level_bits),
            ) && c.randomness@ == lattice_randomness(location_data@) && c.randomness@.len() == 32
                && c.params == self.params_for(
                config.security_level_bits,
            ),
    {
        let params = match self.params {
            Some(p) => p,
            None => LatticeParams::from_security_level(config.security_level_bits),
        };
        proof {
            lemma_standard_params_reduce(config.security_level_bits);
        }
        let mut seed_input: Vec<u8> = Vec::new();
        push_tagged(&mut seed_input, "LATTICE_SECRET:", location_data);
        let seed = crypto::sha256(seed_input.as_slice());
        let divisor: u8 = params.q as u8;
        let mut secret: Vec<u8> = Vec::new();
        let mut i: usize = 0;
        while i < params.n
            invariant
                i <= params.n,
                divisor == params.reduction_byte(),
                divisor != 0,
                secret@ == lattice_secret(seed@, params).take(i as int),
            decreases params.n - i,
        {
            secret.push(seed[i % 32] % divisor);
            i = i + 1;
            assert(secret@ =~= lattice_secret(seed@, params).take(i as int));
        }
        assert(lattice_secret(seed@, params).take(i as int) =~= lattice_secret(seed@, params));
        let mut rand_input: Vec<u8> = Vec::new();
        push_tagged(&mut rand_input, "LATTICE_RANDOMNESS:", location_data);
        let randomness = digest_vec(rand_input.as_slice());
        let mut committed: Vec<u8> = Vec::new();
        push_bytes(&mut committed, location_data);
        push_bytes(&mut committed, secret.as_slice());
        push_bytes(&mut committed, randomness.as_slice());
        let commitment = digest_vec(committed.as_slice());
        Ok(LatticeCommitment { commitment, randomness, params })
    }

    /// Commits to training data: the data with the domain tag `"TRAINING_PROOF:"`.
    pub fn commit_training(&self, training_data: &[u8], config: &PqcConfig) -> (r: PqcResult<LatticeCommitment>)
        requires
            self.well_formed(),
        ensures
            r matches Ok(c) && c.commitment@ == lattice_commitment_bytes(
                tagged_training_data(training_data@),
                self.params_for(config.security_level_bits),
            ) && c.randomness@ == lattice_randomness(tagged_training_data(training_data@))
                && c.randomness@.len() == 32
                && c.params == self.params_for(config.security_level_bits),
    {
        let mut data: Vec<u8> = Vec::new();
        push_tagged(&mut data, "TRAINING_PROOF:", training_data);
        self.commit_location(data.as_slice(), config)
    }

    /// Proves location data against public inputs: commitment, Fiat-Shamir challenge
    /// over the commitment and the public inputs, the challenge-masked randomness as
    /// response, and the digest of the public inputs.
    pub fn prove_location(&self, location_data: &[u8], public_inputs: &[u8], config: &PqcConfig) -> (r: PqcResult<LatticeProof>)
        requires
            self.well_formed(),
        ensures
            r matches Ok(p) && is_lattice_proof_of(
                p,
                location_data@,
                public_inputs@,
                self.params_for(config.security_level_bits),
                config.security_level_bits,
            ),
    {
        let commitment = self.commit_location(location_data, config)?;
        let mut challenge_input: Vec<u8> = Vec::new();
        push_bytes(&mut challenge_input, commitment.commitment.as_slice());
        push_bytes(&mut challenge_input, public_inputs);
        let challenge = digest_vec(challenge_input.as_slice());
        let rlen = commitment.randomness.len();
        let mut response: Vec<u8> = Vec::new();
        let mut i: usize = 0;
        while i < challenge.len()
            invariant
                i <= challenge@.len(),
                rlen == commitment.randomness@.len(),
                rlen == 32,
                response@ == masked(challenge@, commitment.randomness@).take(i as int),
            decreases challenge@.len() - i,
        {
            response.push(challenge[i] ^ commitment.randomness[i % rlen]);
            i = i + 1;
            assert(response@ =~= masked(challenge@, commitment.randomness@).take(i as int));
        }
        assert(masked(challenge@, commitment.randomness@).take(i as int) =~= masked(
            challenge@,
            commitment.randomness@,
        ));
        let public_inputs_hash = digest_vec(public_inputs);
        Ok(LatticeProof {
            commitment,
            challenge,
            response,
            public_inputs_hash,
            metadata: ProofMetadata::new(config.security_level_bits),
        })
    }

    /// Proves training data: the data with the domain tag `"TRAINING_PROOF:"`.
    pub fn prove_training(&self, training_data: &[u8], public_inputs: &[u8], config: &PqcConfig) -> (r: PqcResult<LatticeProof>)
        requires
            self.well_formed(),
        ensures
            r matches Ok(p) && is_lattice_proof_of(
                p,
                tagged_training_data(training_data@),
                public_inputs@,
                self.params_for(config.security_level_bits),
                config.security_level_bits,
            ),
    {
        let mut data: Vec<u8> = Vec::new();
        push_tagged(&mut data, "TRAINING_PROOF:", training_data);
        self.prove_location(data.as_slice(), public_inputs, config)
    }

    /// Verifies a lattice proof: the challenge must be recomputed from the commitment
    /// and the public inputs, the public-input digest must match, and the response
    /// must be the challenge-masked randomness.
    pub fn verify_location(&self, proof: &LatticeProof, public_inputs: &[u8]) -> (r: PqcResult<bool>)
        requires
            !lattice_verify_undefined(*proof, public_inputs@),
        ensures
            r == Ok::<bool, PqcError>(lattice_accepts(*proof, public_inputs@)),
    {
        let mut challenge_input: Vec<u8> = Vec::new();
        push_bytes(&mut challenge_input, proof.commitment.commitment.as_slice());
        push_bytes(&mut challenge_input, public_inputs);
        let expected_challenge = crypto::sha256(challenge_input.as_slice());
        if !bytes_eq(expected_challenge.as_slice(), proof.challenge.as_slice()) {
            return Ok(false);
        }
        let expected_hash = crypto::sha256(public_inputs);
        if !bytes_eq(expected_hash.as_slice(), proof.public_inputs_hash.as_slice()) {
            return Ok(false);
        }
        let n = if proof.response.len() < proof.challenge.len() {
            proof.response.len()
        } else {
            proof.challenge.len()
        };
        let rlen = proof.commitment.randomness.len();
        let mut i: usize = 0;
        while i < n
            invariant
                i <= n,
                n <= proof.response@.len(),
                n <= proof.challenge@.len(),
                n == proof.response@.len() || n == proof.challenge@.len(),
                rlen == proof.commitment.randomness@.len(),
                n > 0 ==> rlen > 0,
                forall|j: int|
                    0 <= j < i ==> #[trigger] proof.response@[j] == proof.challenge@[j]
                        ^ proof.commitment.randomness@[j % rlen as int],
            decreases n - i,
        {
            let expected = proof.challenge[i] ^ proof.commitment.randomness[i % rlen];
            if proof.response[i] != expected {
                return Ok(false);
            }
            i = i + 1;
        }
        Ok(true)
    }

    /// Verifies a lattice training proof, as [`LatticeBackend::verify_location`].
    pub fn verify_training(&self, proof: &LatticeProof, public_inputs: &[u8]) -> (r: PqcResult<bool>)
        requires
            !lattice_verify_undefined(*proof, public_inputs@),
        ensures
            r == Ok::<bool, PqcError>(lattice_accepts(*proof, public_inputs@)),
    {
        self.verify_location(proof, public_inputs)
    }
}

/// The migration steps the lattice backend publishes.
pub open spec fn lattice_migration_steps() -> Seq<Seq<char>> {
    seq![
        "Configure LatticeParams with desired security level (128/192/256 bits)."@,
        "Replace classical proof generation with prove_location/prove_training functions."@,
        "Update verification logic to use verify_location/verify_training."@,
        "Enable hybrid mode during transition period for backward compatibility."@,
        "Run migration tools to convert existing proofs to lattice-based format."@,
    ]
}

impl PostQuantumBackend for LatticeBackend {
    fn descriptor(&self) -> (r: PostQuantumBackendDescriptor)
        ensures
            r.name@ == "lattice-kyber-backend"@,
            r.status == PostQuantumBackendStatus::Ready,
            r.notes@ == "Production-ready lattice-based PQC backend inspired by Kyber/Dilithium. Provides NIST Level 1/3/5 security."@,
            r.migration_steps@.map_values(|s: &str| s@) == lattice_migration_steps(),
    {
        let steps: &'static [&'static str] = &[
            "Configure LatticeParams with desired security level (128/192/256 bits).",
            "Replace classical proof generation with prove_location/prove_training functions.",
            "Update verification logic to use verify_location/verify_training.",
            "Enable hybrid mode during transition period for backward compatibility.",
            "Run migration tools to convert existing proofs to lattice-based format.",
        ];
        PostQuantumBackendDescriptor {
            name: "lattice-kyber-backend",
            status: PostQuantumBackendStatus::Ready,
            notes: "Production-ready lattice-based PQC backend inspired by Kyber/Dilithium. Provides NIST Level 1/3/5 security.",
            migration_steps: steps,
        }
    }
}

/// Generates a location proof with a default lattice backend; the configuration
/// must select the lattice family.
pub fn generate_pqc_location_proof(location_data: &[u8], public_inputs: &[u8], config: &PqcConfig) -> (r: PqcResult<LatticeProof>)
    ensures
        config.backend_type != PqcBackendType::Lattice ==> r == Err::<LatticeProof, PqcError>(
            PqcError::BackendNotReady(config.backend_type),
        ),
        config.backend_type == PqcBackendType::Lattice ==> (r matches Ok(p) && is_lattice_proof_of(
            p,
            location_data@,
            public_inputs@,
            params_for_level(config.security_level_bits),
            config.security_level_bits,
        )),
{
    if config.backend_type != PqcBackendType::Lattice {
        return Err(PqcError::BackendNotReady(config.backend_type));
    }
    let backend = LatticeBackend::default();
    backend.prove_location(location_data, public_inputs, config)
}

/// Verifies a location proof with a default lattice backend; the configuration is
/// not read.
pub fn verify_pqc_location_proof(proof: &LatticeProof, public_inputs: &[u8], _config: &PqcConfig) -> (r: PqcResult<bool>)
    requires
        !lattice_verify_undefined(*proof, public_inputs@),
    ensures
        r == Ok::<bool, PqcError>(lattice_accepts(*proof, public_inputs@)),
{
    let backend = LatticeBackend::default();
    backend.verify_location(proof, public_inputs)
}

/// Generates a training proof with a default lattice backend; the configuration
/// must select the lattice family.
pub fn generate_pqc_training_proof(training_data: &[u8], public_inputs: &[u8], config: &PqcConfig) -> (r: PqcResult<LatticeProof>)
    ensures
        config.backend_type != PqcBackendType::Lattice ==> r == Err::<LatticeProof, PqcError>(
            PqcError::BackendNotReady(config.backend_type),
        ),
        config.backend_type == PqcBackendType::Lattice ==> (r matches Ok(p) && is_lattice_proof_of(
            p,
            tagged_training_data(training_data@),
            public_inputs@,
            params_for_level(config.security_level_bits),
            config.security_level_bits,
        )),
{
    if config.backend_type != PqcBackendType::Lattice {
        return Err(PqcError::BackendNotReady(config.backend_type));
    }
    let backend = LatticeBackend::default();
    backend.prove_training(training_data, public_inputs, config)
}

/// Verifies a training proof with a default lattice backend; the configuration is
/// not read.
pub fn verify_pqc_training_proof(proof: &LatticeProof, public_inputs: &[u8], _config: &PqcConfig) -> (r: PqcResult<bool>)
    requires
        !lattice_verify_undefined(*proof, public_inputs@),
    ensures
        r == Ok::<bool, PqcError>(lattice_accepts(*proof, public_inputs@)),
{
    let backend = LatticeBackend::default();
    backend.verify_training(proof, public_inputs)
}

} // verus!
