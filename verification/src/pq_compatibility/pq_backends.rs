//! Routing of post-quantum proofs to the lattice, hash, code and hybrid backends.

use vstd::prelude::*;
use crate::crypto::{self, sha3_256_digest};
use crate::encoding::{bytes_eq, push_bytes};
use crate::pq_compatibility::{PqcBackendType, PqcConfig, PqcError, PqcResult};
use crate::pq_compatibility::lattice_backend::{
    self, LatticeProof, crate_version, is_lattice_proof_of, lattice_accepts,
    lattice_verify_undefined, lemma_lattice_proof_is_accepted, params_for_level, tagged,
    tagged_training_data,
};
use vstd::string::StringSliceAdditionalSpecFns;

verus! {

broadcast use vstd::std_specs::vec::axiom_spec_len;

/// A proof from any of the post-quantum backends.
#[derive(Debug)]
pub enum PqcProofEnvelope {
    /// Lattice-based proof.
    Lattice(LatticeProof),
    /// Hash-based proof.
    Hash(HashProof),
    /// Code-based proof.
    Code(CodeProof),
    /// Classical and post-quantum proofs combined.
    Hybrid(HybridProofEnvelope),
}

/// A hash-based (SHA3-256) proof.
#[derive(Debug, Clone)]
pub struct HashProof {
    /// Root of the commitment to the data.
    pub merkle_root: Vec<u8>,
    /// Authentication path.
    pub auth_path: Vec<Vec<u8>>,
    /// Response to the challenge.
    pub response: Vec<u8>,
    /// Digest of the public inputs.
    pub public_inputs_hash: Vec<u8>,
    /// When, by which backend and at which level the proof was made.
    pub metadata: ProofMetadata,
}

/// A code-based proof.
#[derive(Debug, Clone)]
pub struct CodeProof {
    /// Encrypted syndrome.
    pub syndrome: Vec<u8>,
    /// Commitment to the error vector.
    pub error_commitment: Vec<u8>,
    /// Decoding proof.
    pub decoding_proof: Vec<u8>,
    /// Digest of the public inputs.
    pub public_inputs_hash: Vec<u8>,
    /// When, by which backend and at which level the proof was made.
    pub metadata: ProofMetadata,
}

/// A classical proof and a post-quantum proof of the same statement, with the
/// digest that links them.
#[derive(Debug)]
pub struct HybridProofEnvelope {
    /// The classical component.
    pub classical_proof: Vec<u8>,
    /// The post-quantum component.
    pub pqc_proof: Box<PqcProofEnvelope>,
    /// Digest binding both components to the public inputs.
    pub linkage_proof: Vec<u8>,
    /// When, by which backend and at which level the proof was made.
    pub metadata: ProofMetadata,
}

impl Clone for PqcProofEnvelope {
    fn clone(&self) -> (r: Self)
        decreases self,
    {
        match self {
            PqcProofEnvelope::Lattice(p) => PqcProofEnvelope::Lattice(p.clone()),
            PqcProofEnvelope::Hash(p) => PqcProofEnvelope::Hash(p.clone()),
            PqcProofEnvelope::Code(p) => PqcProofEnvelope::Code(p.clone()),
            PqcProofEnvelope::Hybrid(h) => PqcProofEnvelope::Hybrid(h.clone()),
        }
    }
}

impl Clone for HybridProofEnvelope {
    fn clone(&self) -> (r: Self)
        decreases self,
    {
        HybridProofEnvelope {
            classical_proof: self.classical_proof.clone(),
            pqc_proof: Box::new((*self.pqc_proof).clone()),
            linkage_proof: self.linkage_proof.clone(),
            metadata: self.metadata.clone(),
        }
    }
}

/// Metadata of a hash, code or hybrid proof.
#[derive(Debug, Clone)]
pub struct ProofMetadata {
    /// Seconds since the Unix epoch when the proof was made.
    pub timestamp: u64,
    /// Backend identifier.
    pub backend: String,
    /// Security level in bits.
    pub security_level: u32,
    /// Version of the backend.
    pub version: String,
}

impl ProofMetadata {
    /// Metadata for a proof made now by `backend` at the given level.
    pub fn new(backend: &str, security_level: u32) -> (r: Self)
        ensures
            r.backend@ == backend@,
            r.security_level == security_level,
            r.version@ == crate_version(),
    {
        ProofMetadata {
            timestamp: crypto::unix_time_seconds(),
            backend: backend.to_owned(),
            security_level,
            version: "0.1.0".to_owned(),
        }
    }
}

fn digest3_vec(data: &[u8]) -> (r: Vec<u8>)
    ensures
        r@ == sha3_256_digest(data@),
        r@.len() == 32,
{
    let d = crypto::sha3_256(data);
    let mut out: Vec<u8> = Vec::new();
    push_bytes(&mut out, d.as_slice());
    assert(out@ =~= d@);
    out
}

/// Whether the hash verifier accepts `proof` for `public_inputs`.
pub open spec fn hash_accepts(proof: HashProof, public_inputs: Seq<u8>) -> bool {
    &&& proof.auth_path@.len() > 0
    &&& proof.auth_path@[0]@ == proof.merkle_root@
    &&& proof.response@ == sha3_256_digest(proof.merkle_root@ + public_inputs)
    &&& proof.public_inputs_hash@ == sha3_256_digest(public_inputs)
}

/// `proof` is the hash proof of `data` for `public_inputs` at `level` bits, its
/// timestamp aside.
pub open spec fn is_hash_proof_of(proof: HashProof, data: Seq<u8>, public_inputs: Seq<u8>, level: u32) -> bool {
    let root = sha3_256_digest(data);
    &&& proof.merkle_root@ == root
    &&& proof.auth_path@.len() == 1
    &&& proof.auth_path@[0]@ == root
    &&& proof.response@ == sha3_256_digest(root + public_inputs)
    &&& proof.public_inputs_hash@ == sha3_256_digest(public_inputs)
    &&& proof.metadata.backend@ == "hash-sha3"@
    &&& proof.metadata.security_level == level
    &&& proof.metadata.version@ == crate_version()
}

/// The classical component of a hybrid proof of `data`.
pub open spec fn hybrid_classical(data: Seq<u8>) -> Seq<u8> {
    sha3_256_digest(tagged("CLASSICAL_PROOF:", data))
}

/// Whether the hybrid verifier accepts `proof` for `public_inputs`: the classical
/// component is present, the post-quantum component is an accepted lattice proof,
/// and the linkage is the digest of both components and the public inputs.
pub open spec fn hybrid_accepts(proof: HybridProofEnvelope, public_inputs: Seq<u8>) -> bool {
    &&& proof.classical_proof@.len() > 0
    &&& *proof.pqc_proof matches PqcProofEnvelope::Lattice(lp)
    &&& lattice_accepts(lp, public_inputs)
    &&& proof.linkage_proof@ == sha3_256_digest(
        proof.classical_proof@ + lp.commitment.commitment@ + public_inputs,
    )
}

/// The hybrid verifier would reach the lattice verifier on a proof it cannot check.
pub open spec fn hybrid_verify_undefined(proof: HybridProofEnvelope, public_inputs: Seq<u8>) -> bool {
    &&& proof.classical_proof@.len() > 0
    &&& *proof.pqc_proof matches PqcProofEnvelope::Lattice(lp)
    &&& lattice_verify_undefined(lp, public_inputs)
}

/// `proof` is the hybrid proof of `data` for `public_inputs` at `level` bits, its
/// timestamps aside.
pub open spec fn is_hybrid_proof_of(proof: HybridProofEnvelope, data: Seq<u8>, public_inputs: Seq<u8>, level: u32) -> bool {
    &&& proof.classical_proof@ == hybrid_classical(data)
    &&& hybrid_classical(data).len() == 32
    &&& *proof.pqc_proof matches PqcProofEnvelope::Lattice(lp)
    &&& is_lattice_proof_of(lp, data, public_inputs, params_for_level(level), level)
    &&& proof.linkage_proof@ == sha3_256_digest(
        hybrid_classical(data) + lp.commitment.commitment@ + public_inputs,
    )
    &&& proof.metadata.backend@ == "hybrid-classical-pqc"@
    &&& proof.metadata.security_level == level
    &&& proof.metadata.version@ == crate_version()
}

/// `envelope` is the proof that the backend `kind` makes of `data` for
/// `public_inputs` at `level` bits, timestamps aside.
pub open spec fn is_envelope_of(
    envelope: PqcProofEnvelope,
    kind: PqcBackendType,
    data: Seq<u8>,
    public_inputs: Seq<u8>,
    level: u32,
) -> bool {
    match kind {
        PqcBackendType::Lattice => envelope matches PqcProofEnvelope::Lattice(p)
            && is_lattice_proof_of(p, data, public_inputs, params_for_level(level), level),
        PqcBackendType::Hash => envelope matches PqcProofEnvelope::Hash(p) && is_hash_proof_of(
            p,
            data,
            public_inputs,
            level,
        ),
        PqcBackendType::Code => false,
        PqcBackendType::Hybrid => envelope matches PqcProofEnvelope::Hybrid(p)
            && is_hybrid_proof_of(p, data, public_inputs, level),
    }
}

/// The verifier of the envelope's backend would reach a proof it cannot check.
pub open spec fn envelope_verify_undefined(envelope: PqcProofEnvelope, public_inputs: Seq<u8>) -> bool {
    match envelope {
        PqcProofEnvelope::Lattice(p) => lattice_verify_undefined(p, public_inputs),
        PqcProofEnvelope::Hybrid(p) => hybrid_verify_undefined(p, public_inputs),
        _ => false,
    }
}

/// Whether the verifier of the envelope's backend accepts it (the code backend
/// reports an error instead).
pub open spec fn envelope_accepts(envelope: PqcProofEnvelope, public_inputs: Seq<u8>) -> bool {
    match envelope {
        PqcProofEnvelope::Lattice(p) => lattice_accepts(p, public_inputs),
        PqcProofEnvelope::Hash(p) => hash_accepts(p, public_inputs),
        PqcProofEnvelope::Code(_) => false,
        PqcProofEnvelope::Hybrid(p) => hybrid_accepts(p, public_inputs),
    }
}

/// Every proof a backend makes is accepted by that backend's verifier for the
/// public inputs it was made for.
pub proof fn lemma_envelope_is_accepted(
    envelope: PqcProofEnvelope,
    kind: PqcBackendType,
    data: Seq<u8>,
    public_inputs: Seq<u8>,
    level: u32,
)
    requires
        is_envelope_of(envelope, kind, data, public_inputs, level),
    ensures
        envelope_accepts(envelope, public_inputs),
        !envelope_verify_undefined(envelope, public_inputs),
{
    match envelope {
        PqcProofEnvelope::Lattice(p) => {
            lemma_lattice_proof_is_accepted(p, data, public_inputs, params_for_level(level), level);
        },
        PqcProofEnvelope::Hybrid(h) => {
            if let PqcProofEnvelope::Lattice(lp) = *h.pqc_proof {
                lemma_lattice_proof_is_accepted(lp, data, public_inputs, params_for_level(level), level);
            }
        },
        _ => {},
    }
}

fn generate_hash_location_proof(location_data: &[u8], public_inputs: &[u8], config: &PqcConfig) -> (r: PqcResult<HashProof>)
    ensures
        r matches Ok(p) && is_hash_proof_of(p, location_data@, public_inputs@, config.security_level_bits),
{
    let merkle_root = digest3_vec(location_data);
    let mut leaf: Vec<u8> = Vec::new();
    push_bytes(&mut leaf, merkle_root.as_slice());
    let mut auth_path: Vec<Vec<u8>> = Vec::new();
    auth_path.push(leaf);
    let mut challenge_input: Vec<u8> = Vec::new();
    push_bytes(&mut challenge_input, merkle_root.as_slice());
    push_bytes(&mut challenge_input, public_inputs);
    let response = digest3_vec(challenge_input.as_slice());
    let public_inputs_hash = digest3_vec(public_inputs);
    Ok(HashProof {
        merkle_root,
        auth_path,
        response,
        public_inputs_hash,
        metadata: ProofMetadata::new("hash-sha3", config.security_level_bits),
    })
}

fn verify_hash_location_proof(proof: &HashProof, public_inputs: &[u8], _config: &PqcConfig) -> (r: PqcResult<bool>)
    ensures
        r == Ok::<bool, PqcError>(hash_accepts(*proof, public_inputs@)),
{
    if proof.auth_path.len() == 0 || !bytes_eq(proof.auth_path[0].as_slice(), proof.merkle_root.as_slice()) {
        return Ok(false);
    }
    let mut challenge_input: Vec<u8> = Vec::new();
    push_bytes(&mut challenge_input, proof.merkle_root.as_slice());
    push_bytes(&mut challenge_input, public_inputs);
    let expected_challenge = crypto::sha3_256(challenge_input.as_slice());
    if !bytes_eq(expected_challenge.as_slice(), proof.response.as_slice()) {
        return Ok(false);
    }
    let expected_hash = crypto::sha3_256(public_inputs);
    Ok(bytes_eq(expected_hash.as_slice(), proof.public_inputs_hash.as_slice()))
}

fn generate_hybrid_location_proof(location_data: &[u8], public_inputs: &[u8], config: &PqcConfig) -> (r: PqcResult<PqcProofEnvelope>)
    ensures
        r matches Ok(PqcProofEnvelope::Hybrid(p)) && is_hybrid_proof_of(
            p,
            location_data@,
            public_inputs@,
            config.security_level_bits,
        ),
{
    let mut classical_input: Vec<u8> = Vec::new();
    push_bytes(&mut classical_input, "CLASSICAL_PROOF:".as_bytes());
    push_bytes(&mut classical_input, location_data);
    assert(classical_input@ =~= tagged("CLASSICAL_PROOF:", location_data@));
    let classical_proof = digest3_vec(classical_input.as_slice());
    let pqc_config = PqcConfig::new(PqcBackendType::Lattice, config.security_level_bits).with_hybrid_mode(false);
    let pqc_proof = lattice_backend::generate_pqc_location_proof(location_data, public_inputs, &pqc_config)?;
    let mut link_input: Vec<u8> = Vec::new();
    push_bytes(&mut link_input, classical_proof.as_slice());
    push_bytes(&mut link_input, pqc_proof.commitment.commitment.as_slice());
    push_bytes(&mut link_input, public_inputs);
    let linkage_proof = digest3_vec(link_input.as_slice());
    Ok(PqcProofEnvelope::Hybrid(HybridProofEnvelope {
        classical_proof,
        pqc_proof: Box::new(PqcProofEnvelope::Lattice(pqc_proof)),
        linkage_proof,
        metadata: ProofMetadata::new("hybrid-classical-pqc", config.security_level_bits),
    }))
}

fn verify_hybrid_location_proof(proof: &HybridProofEnvelope, public_inputs: &[u8], _config: &PqcConfig) -> (r: PqcResult<bool>)
    requires
        !hybrid_verify_undefined(*proof, public_inputs@),
    ensures
        r == Ok::<bool, PqcError>(hybrid_accepts(*proof, public_inputs@)),
{
    if proof.classical_proof.len() == 0 {
        return Ok(false);
    }
    let lattice_proof = match &*proof.pqc_proof {
        PqcProofEnvelope::Lattice(lp) => lp,
        _ => {
            return Ok(false);
        },
    };
    let valid = lattice_backend::verify_pqc_location_proof(lattice_proof, public_inputs, &PqcConfig::default())?;
    if !valid {
        return Ok(false);
    }
    let mut link_input: Vec<u8> = Vec::new();
    push_bytes(&mut link_input, proof.classical_proof.as_slice());
    push_bytes(&mut link_input, lattice_proof.commitment.commitment.as_slice());
    push_bytes(&mut link_input, public_inputs);
    let expected = crypto::sha3_256(link_input.as_slice());
    Ok(bytes_eq(expected.as_slice(), proof.linkage_proof.as_slice()))
}

fn tag_training(training_data: &[u8]) -> (r: Vec<u8>)
    ensures
        r@ == tagged_training_data(training_data@),
{
    let mut data: Vec<u8> = Vec::new();
    push_bytes(&mut data, "TRAINING_PROOF:".as_bytes());
    push_bytes(&mut data, training_data);
    assert(data@ =~= tagged_training_data(training_data@));
    data
}

fn generate_hash_training_proof(training_data: &[u8], public_inputs: &[u8], config: &PqcConfig) -> (r: PqcResult<HashProof>)
    ensures
        r matches Ok(p) && is_hash_proof_of(
            p,
            tagged_training_data(training_data@),
            public_inputs@,
            config.security_level_bits,
        ),
{
    let data = tag_training(training_data);
    generate_hash_location_proof(data.as_slice(), public_inputs, config)
}

fn verify_hash_training_proof(proof: &HashProof, public_inputs: &[u8], config: &PqcConfig) -> (r: PqcResult<bool>)
    ensures
        r == Ok::<bool, PqcError>(hash_accepts(*proof, public_inputs@)),
{
    verify_hash_location_proof(proof, public_inputs, config)
}

fn generate_code_location_proof(_location_data: &[u8], _public_inputs: &[u8], _config: &PqcConfig) -> (r: PqcResult<CodeProof>)
    ensures
        r matches Err(PqcError::ProofGenerationFailed(m)) && m@
            == "Code-based backend is under development. Use Lattice or Hash backend."@,
{
    Err(PqcError::ProofGenerationFailed(
        "Code-based backend is under development. Use Lattice or Hash backend.".to_owned(),
    ))
}

fn verify_code_location_proof(_proof: &CodeProof, _public_inputs: &[u8], _config: &PqcConfig) -> (r: PqcResult<bool>)
    ensures
        r matches Err(PqcError::VerificationFailed(m)) && m@ == "Code-based backend is under development."@,
{
    Err(PqcError::VerificationFailed("Code-based backend is under development.".to_owned()))
}

fn generate_code_training_proof(_training_data: &[u8], _public_inputs: &[u8], _config: &PqcConfig) -> (r: PqcResult<CodeProof>)
    ensures
        r matches Err(PqcError::ProofGenerationFailed(m)) && m@ == "Code-based backend is under development."@,
{
    Err(PqcError::ProofGenerationFailed("Code-based backend is under development.".to_owned()))
}

fn verify_code_training_proof(_proof: &CodeProof, _public_inputs: &[u8], _config: &PqcConfig) -> (r: PqcResult<bool>)
    ensures
        r matches Err(PqcError::VerificationFailed(m)) && m@ == "Code-based backend is under development."@,
{
    Err(PqcError::VerificationFailed("Code-based backend is under development.".to_owned()))
}

fn generate_hybrid_training_proof(training_data: &[u8], public_inputs: &[u8], config: &PqcConfig) -> (r: PqcResult<PqcProofEnvelope>)
    ensures
        r matches Ok(PqcProofEnvelope::Hybrid(p)) && is_hybrid_proof_of(
            p,
            tagged_training_data(training_data@),
            public_inputs@,
            config.security_level_bits,
        ),
{
    let data = tag_training(training_data);
    generate_hybrid_location_proof(data.as_slice(), public_inputs, config)
}

fn verify_hybrid_training_proof(proof: &HybridProofEnvelope, public_inputs: &[u8], config: &PqcConfig) -> (r: PqcResult<bool>)
    requires
        !hybrid_verify_undefined(*proof, public_inputs@),
    ensures
        r == Ok::<bool, PqcError>(hybrid_accepts(*proof, public_inputs@)),
{
    verify_hybrid_location_proof(proof, public_inputs, config)
}

/// Generates a location proof with the backend the configuration selects; the code
/// backend is not available. Every proof returned is accepted by
/// [`verify_pqc_location_proof`] for the same public inputs.
pub fn generate_pqc_location_proof(location_data: &[u8], public_inputs: &[u8], config: &PqcConfig) -> (r: PqcResult<PqcProofEnvelope>)
    ensures
        config.backend_type is Code ==> (r matches Err(PqcError::ProofGenerationFailed(m)) && m@
            == "Code-based backend is under development. Use Lattice or Hash backend."@),
        !(config.backend_type is Code) ==> (r matches Ok(env) && is_envelope_of(
            env,
            config.backend_type,
            location_data@,
            public_inputs@,
            config.security_level_bits,
        )),
        r matches Ok(env) ==> envelope_accepts(env, public_inputs@) && !envelope_verify_undefined(
            env,
            public_inputs@,
        ),
{
    let r = match config.backend_type {
        PqcBackendType::Lattice => {
            let proof = lattice_backend::generate_pqc_location_proof(location_data, public_inputs, config)?;
            Ok(PqcProofEnvelope::Lattice(proof))
        },
        PqcBackendType::Hash => {
            let proof = generate_hash_location_proof(location_data, public_inputs, config)?;
            Ok(PqcProofEnvelope::Hash(proof))
        },
        PqcBackendType::Code => {
            let proof = generate_code_location_proof(location_data, public_inputs, config)?;
            Ok(PqcProofEnvelope::Code(proof))
        },
        PqcBackendType::Hybrid => generate_hybrid_location_proof(location_data, public_inputs, config),
    };
    proof {
        if let Ok(env) = &r {
            lemma_envelope_is_accepted(*env, config.backend_type, location_data@, public_inputs@, config.security_level_bits);
        }
    }
    r
}

/// Verifies a location proof with the backend that made it; a code-based proof is
/// reported as an error. The configuration is not read.
pub fn verify_pqc_location_proof(envelope: &PqcProofEnvelope, public_inputs: &[u8], config: &PqcConfig) -> (r: PqcResult<bool>)
    requires
        !envelope_verify_undefined(*envelope, public_inputs@),
    ensures
        envelope is Code ==> (r matches Err(PqcError::VerificationFailed(m)) && m@
            == "Code-based backend is under development."@),
        !(envelope is Code) ==> r == Ok::<bool, PqcError>(envelope_accepts(*envelope, public_inputs@)),
{
    match envelope {
        PqcProofEnvelope::Lattice(p) => lattice_backend::verify_pqc_location_proof(p, public_inputs, config),
        PqcProofEnvelope::Hash(p) => verify_hash_location_proof(p, public_inputs, config),
        PqcProofEnvelope::Code(p) => verify_code_location_proof(p, public_inputs, config),
        PqcProofEnvelope::Hybrid(p) => verify_hybrid_location_proof(p, public_inputs, config),
    }
}

/// Generates a training proof with the backend the configuration selects: the proof
/// of the data behind the domain tag `"TRAINING_PROOF:"`; the code backend is not
/// available. Every proof returned is accepted by [`verify_pqc_training_proof`] for
/// the same public inputs.
pub fn generate_pqc_training_proof(training_data: &[u8], public_inputs: &[u8], config: &PqcConfig) -> (r: PqcResult<PqcProofEnvelope>)
    ensures
        config.backend_type is Code ==> (r matches Err(PqcError::ProofGenerationFailed(m)) && m@
            == "Code-based backend is under development."@),
        !(config.backend_type is Code) ==> (r matches Ok(env) && is_envelope_of(
            env,
            config.backend_type,
            tagged_training_data(training_data@),
            public_inputs@,
            config.security_level_bits,
        )),
        r matches Ok(env) ==> envelope_accepts(env, public_inputs@) && !envelope_verify_undefined(
            env,
            public_inputs@,
        ),
{
    let r = match config.backend_type {
        PqcBackendType::Lattice => {
            let proof = lattice_backend::generate_pqc_training_proof(training_data, public_inputs, config)?;
            Ok(PqcProofEnvelope::Lattice(proof))
        },
        PqcBackendType::Hash => {
            let proof = generate_hash_training_proof(training_data, public_inputs, config)?;
            Ok(PqcProofEnvelope::Hash(proof))
        },
        PqcBackendType::Code => {
            let proof = generate_code_training_proof(training_data, public_inputs, config)?;
            Ok(PqcProofEnvelope::Code(proof))
        },
        PqcBackendType::Hybrid => generate_hybrid_training_proof(training_data, public_inputs, config),
    };
    proof {
        if let Ok(env) = &r {
            lemma_envelope_is_accepted(
                *env,
                config.backend_type,
                tagged_training_data(training_data@),
                public_inputs@,
                config.security_level_bits,
            );
        }
    }
    r
}

/// Verifies a training proof with the backend that made it, exactly as
/// [`verify_pqc_location_proof`] does. The configuration is not read.
pub fn verify_pqc_training_proof(envelope: &PqcProofEnvelope, public_inputs: &[u8], config: &PqcConfig) -> (r: PqcResult<bool>)
    requires
        !envelope_verify_undefined(*envelope, public_inputs@),
    ensures
        envelope is Code ==> (r matches Err(PqcError::VerificationFailed(m)) && m@
            == "Code-based backend is under development."@),
        !(envelope is Code) ==> r == Ok::<bool, PqcError>(envelope_accepts(*envelope, public_inputs@)),
{
    match envelope {
        PqcProofEnvelope::Lattice(p) => lattice_backend::verify_pqc_training_proof(p, public_inputs, config),
        PqcProofEnvelope::Hash(p) => verify_hash_training_proof(p, public_inputs, config),
        PqcProofEnvelope::Code(p) => verify_code_training_proof(p, public_inputs, config),
        PqcProofEnvelope::Hybrid(p) => verify_hybrid_training_proof(p, public_inputs, config),
    }
}

fn lattice_verify_is_undefined(proof: &LatticeProof, public_inputs: &[u8]) -> (r: bool)
    ensures
        r == lattice_verify_undefined(*proof, public_inputs@),
{
    if proof.response.len() == 0 || proof.commitment.randomness.len() != 0 {
        return false;
    }
    let mut challenge_input: Vec<u8> = Vec::new();
    push_bytes(&mut challenge_input, proof.commitment.commitment.as_slice());
    push_bytes(&mut challenge_input, public_inputs);
    let expected_challenge = crypto::sha256(challenge_input.as_slice());
    let expected_hash = crypto::sha256(public_inputs);
    bytes_eq(expected_challenge.as_slice(), proof.challenge.as_slice()) && bytes_eq(
        expected_hash.as_slice(),
        proof.public_inputs_hash.as_slice(),
    )
}

fn envelope_verify_is_undefined(envelope: &PqcProofEnvelope, public_inputs: &[u8]) -> (r: bool)
    ensures
        r == envelope_verify_undefined(*envelope, public_inputs@),
{
    match envelope {
        PqcProofEnvelope::Lattice(p) => lattice_verify_is_undefined(p, public_inputs),
        PqcProofEnvelope::Hybrid(h) => {
            if h.classical_proof.len() == 0 {
                return false;
            }
            match &*h.pqc_proof {
                PqcProofEnvelope::Lattice(lp) => lattice_verify_is_undefined(lp, public_inputs),
                _ => false,
            }
        },
        _ => false,
    }
}

/// Verifies a location proof as [`verify_pqc_location_proof`] does, on every proof:
/// `None` stands for the proofs that verifier cannot check (a lattice proof whose
/// digests match, with a response but no randomness).
pub fn checked_verify_pqc_location_proof(envelope: &PqcProofEnvelope, public_inputs: &[u8], config: &PqcConfig) -> (r: Option<PqcResult<bool>>)
    ensures
        r is None <==> envelope_verify_undefined(*envelope, public_inputs@),
        r matches Some(v) ==> (envelope is Code ==> (v matches Err(PqcError::VerificationFailed(m)) && m@
            == "Code-based backend is under development."@)) && (!(envelope is Code) ==> v == Ok::<
            bool,
            PqcError,
        >(envelope_accepts(*envelope, public_inputs@))),
{
    if envelope_verify_is_undefined(envelope, public_inputs) {
        None
    } else {
        Some(verify_pqc_location_proof(envelope, public_inputs, config))
    }
}

/// Verifies a training proof as [`verify_pqc_training_proof`] does, on every proof:
/// `None` stands for the proofs that verifier cannot check.
pub fn checked_verify_pqc_training_proof(envelope: &PqcProofEnvelope, public_inputs: &[u8], config: &PqcConfig) -> (r: Option<PqcResult<bool>>)
    ensures
        r is None <==> envelope_verify_undefined(*envelope, public_inputs@),
        r matches Some(v) ==> (envelope is Code ==> (v matches Err(PqcError::VerificationFailed(m)) && m@
            == "Code-based backend is under development."@)) && (!(envelope is Code) ==> v == Ok::<
            bool,
            PqcError,
        >(envelope_accepts(*envelope, public_inputs@))),
{
    if envelope_verify_is_undefined(envelope, public_inputs) {
        None
    } else {
        Some(verify_pqc_training_proof(envelope, public_inputs, config))
    }
}

/// The hybrid verifier accepts only proofs whose linkage is the SHA3-256 digest of
/// the classical component, the lattice commitment and the public inputs, whose
/// classical component is present, and whose lattice component is accepted for the
/// same public inputs; so does every router verifier on a hybrid envelope.
pub proof fn lemma_hybrid_acceptance_checks_the_linkage(proof: HybridProofEnvelope, public_inputs: Seq<u8>)
    ensures
        hybrid_accepts(proof, public_inputs) ==> proof.classical_proof@.len() > 0 && (*proof.pqc_proof
            matches PqcProofEnvelope::Lattice(lp) && lattice_accepts(lp, public_inputs)
            && proof.linkage_proof@ == sha3_256_digest(
            proof.classical_proof@ + lp.commitment.commitment@ + public_inputs,
        )),
        envelope_accepts(PqcProofEnvelope::Hybrid(proof), public_inputs) ==> (*proof.pqc_proof
            matches PqcProofEnvelope::Lattice(lp) && proof.linkage_proof@ == sha3_256_digest(
            proof.classical_proof@ + lp.commitment.commitment@ + public_inputs,
        )),
{
}

} // verus!
