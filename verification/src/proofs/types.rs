//! Statements, witnesses, proofs and verification keys, with their wire format.
//!
//! Every wire value is laid out as bincode (fixed-width little-endian integers,
//! `u32` enum variant indices, `u64` length prefixes, a one-byte `Option` tag and
//! fixed arrays without a prefix); decoding accepts a value followed by any bytes.

use vstd::prelude::*;
use crate::encoding::{
    dec_fixed, dec_i64, dec_len_prefixed, dec_option_bytes, dec_u32, dec_u64, holds_at,
    le_i64, le_u32, le_u64, len_prefixed, option_bytes, push_bytes, push_i64,
    push_len_prefixed, push_option_bytes, push_u32, push_u64, read_array32, read_i64,
    read_len_prefixed, read_option_bytes, read_u32, read_u64, view_option_bytes,
    lemma_dec_fixed, lemma_dec_i64, lemma_dec_len_prefixed, lemma_dec_option_bytes,
    lemma_dec_u32, lemma_dec_u64, lemma_holds_at_split, lemma_holds_at_start,
};
use crate::error::{ZkErrorKind, ZkProofError};
use crate::utils::{self, location_commitment_of, training_commitment_of};

verus! {

broadcast use vstd::std_specs::vec::axiom_spec_len;

/// A value with a fixed wire encoding.
pub trait WireFormat {
    /// The bytes that encode the value.
    spec fn wire_bytes(&self) -> Seq<u8>;

    /// Appends the encoding of the value.
    fn write_wire(&self, out: &mut Vec<u8>)
        ensures
            final(out)@ == old(out)@ + self.wire_bytes(),
    ;
}

/// The error reported for bytes that do not decode.
fn malformed(detail: &str) -> (e: ZkProofError)
    ensures
        e matches ZkProofError::SerializationFailed(m) && m@ == detail@,
{
    ZkProofError::SerializationFailed(detail.to_owned())
}

/// Which circuit a statement or proof belongs to.
#[derive(Debug, Clone, Copy, PartialEq, Eq, Structural)]
pub enum CircuitKind {
    /// The location (bounding-box) circuit.
    Location,
    /// The training (step count and loss bound) circuit.
    Training,
}

impl CircuitKind {
    /// The variant index on the wire.
    pub open spec fn wire_index(self) -> u32 {
        match self {
            CircuitKind::Location => 0,
            CircuitKind::Training => 1,
        }
    }

    /// The variant with a given wire index.
    pub open spec fn from_wire_index(i: u32) -> Option<CircuitKind> {
        if i == 0 {
            Some(CircuitKind::Location)
        } else if i == 1 {
            Some(CircuitKind::Training)
        } else {
            None
        }
    }

    pub(crate) fn index(&self) -> (r: u32)
        ensures
            r == self.wire_index(),
    {
        match self {
            CircuitKind::Location => 0,
            CircuitKind::Training => 1,
        }
    }

    pub(crate) fn with_index(i: u32) -> (r: Option<CircuitKind>)
        ensures
            r == Self::from_wire_index(i),
    {
        if i == 0 {
            Some(CircuitKind::Location)
        } else if i == 1 {
            Some(CircuitKind::Training)
        } else {
            None
        }
    }
}

/// The proving scheme a proof was produced with.
#[derive(Debug, Clone, Copy, PartialEq, Eq, Structural)]
pub enum ProofScheme {
    /// Constraints checked by the prover, transcript signed with Ed25519.
    DevelopmentSignedTranscriptV1,
    /// The Halo2 backend.
    Halo2V1,
    /// The Groth16 backend over BN254.
    Groth16V1,
    /// Groth16 over BLS12-381.
    Groth16Bls12_381,
}

impl ProofScheme {
    /// The variant index on the wire.
    pub open spec fn wire_index(self) -> u32 {
        match self {
            ProofScheme::DevelopmentSignedTranscriptV1 => 0,
            ProofScheme::Halo2V1 => 1,
            ProofScheme::Groth16V1 => 2,
            ProofScheme::Groth16Bls12_381 => 3,
        }
    }

    /// The variant with a given wire index.
    pub open spec fn from_wire_index(i: u32) -> Option<ProofScheme> {
        if i == 0 {
            Some(ProofScheme::DevelopmentSignedTranscriptV1)
        } else if i == 1 {
            Some(ProofScheme::Halo2V1)
        } else if i == 2 {
            Some(ProofScheme::Groth16V1)
        } else if i == 3 {
            Some(ProofScheme::Groth16Bls12_381)
        } else {
            None
        }
    }

    pub(crate) fn index(&self) -> (r: u32)
        ensures
            r == self.wire_index(),
    {
        match self {
            ProofScheme::DevelopmentSignedTranscriptV1 => 0,
            ProofScheme::Halo2V1 => 1,
            ProofScheme::Groth16V1 => 2,
            ProofScheme::Groth16Bls12_381 => 3,
        }
    }

    pub(crate) fn with_index(i: u32) -> (r: Option<ProofScheme>)
        ensures
            r == Self::from_wire_index(i),
    {
        if i == 0 {
            Some(ProofScheme::DevelopmentSignedTranscriptV1)
        } else if i == 1 {
            Some(ProofScheme::Halo2V1)
        } else if i == 2 {
            Some(ProofScheme::Groth16V1)
        } else if i == 3 {
            Some(ProofScheme::Groth16Bls12_381)
        } else {
            None
        }
    }
}

/// An axis-aligned rectangle with inclusive bounds.
#[derive(Debug, Clone, Copy, PartialEq, Eq, Structural)]
pub struct BoundingBox {
    /// Smallest admitted x.
    pub x_min: i64,
    /// Largest admitted x.
    pub x_max: i64,
    /// Smallest admitted y.
    pub y_min: i64,
    /// Largest admitted y.
    pub y_max: i64,
}

impl BoundingBox {
    /// Neither axis is empty.
    pub open spec fn is_well_formed(self) -> bool {
        self.x_min <= self.x_max && self.y_min <= self.y_max
    }

    /// `(x, y)` lies inside the box, bounds included.
    pub open spec fn holds_point(self, x: i64, y: i64) -> bool {
        self.x_min <= x <= self.x_max && self.y_min <= y <= self.y_max
    }

    /// The encoding: the four bounds in field order.
    pub open spec fn wire_bytes(self) -> Seq<u8> {
        le_i64(self.x_min) + le_i64(self.x_max) + le_i64(self.y_min) + le_i64(self.y_max)
    }

    /// Checks that the box is not empty on either axis.
    pub fn validate(&self) -> (r: Result<(), ZkProofError>)
        ensures
            r is Ok <==> self.is_well_formed(),
            r matches Err(e) ==> Some(e.parts()) == self.validation_failure(),
            r is Ok <==> self.x_min <= self.x_max && self.y_min <= self.y_max,
            self.x_min > self.x_max ==> (r matches Err(e) && e.parts() == (
                ZkErrorKind::InvalidPublicInputs,
                "x_min must not exceed x_max"@,
            )),
            self.x_min <= self.x_max && self.y_min > self.y_max ==> (r matches Err(e) && e.parts() == (
                ZkErrorKind::InvalidPublicInputs,
                "y_min must not exceed y_max"@,
            )),
    {
        if self.x_min > self.x_max {
            return Err(ZkProofError::InvalidPublicInputs("x_min must not exceed x_max".to_owned()));
        }
        if self.y_min > self.y_max {
            return Err(ZkProofError::InvalidPublicInputs("y_min must not exceed y_max".to_owned()));
        }
        Ok(())
    }

    /// Whether `(x, y)` lies inside the box, bounds included.
    pub fn contains(&self, x: i64, y: i64) -> (r: bool)
        ensures
            r == self.holds_point(x, y),
            r <==> self.x_min <= x && x <= self.x_max && self.y_min <= y && y <= self.y_max,
    {
        self.x_min <= x && x <= self.x_max && self.y_min <= y && y <= self.y_max
    }

    pub(crate) fn write_wire(&self, out: &mut Vec<u8>)
        ensures
            final(out)@ == old(out)@ + self.wire_bytes(),
    {
        push_i64(out, self.x_min);
        push_i64(out, self.x_max);
        push_i64(out, self.y_min);
        push_i64(out, self.y_max);
        assert(out@ =~= old(out)@ + self.wire_bytes());
    }
}

/// Decodes a bounding box at `pos`.
pub open spec fn decode_bounding_box(b: Seq<u8>, pos: int) -> Option<(BoundingBox, int)> {
    match dec_i64(b, pos) {
        Some((x_min, p1)) => match dec_i64(b, p1) {
            Some((x_max, p2)) => match dec_i64(b, p2) {
                Some((y_min, p3)) => match dec_i64(b, p3) {
                    Some((y_max, p4)) => Some(
                        (BoundingBox { x_min, x_max, y_min, y_max }, p4),
                    ),
                    None => None,
                },
                None => None,
            },
            None => None,
        },
        None => None,
    }
}

proof fn lemma_decode_bounding_box(b: Seq<u8>, pos: int, bb: BoundingBox)
    requires
        holds_at(b, pos, bb.wire_bytes()),
    ensures
        decode_bounding_box(b, pos) == Some((bb, pos + 32)),
{
    let a = le_i64(bb.x_min);
    let c = le_i64(bb.x_max);
    let d = le_i64(bb.y_min);
    let e = le_i64(bb.y_max);
    lemma_holds_at_split(b, pos, a + c + d, e);
    lemma_holds_at_split(b, pos, a + c, d);
    lemma_holds_at_split(b, pos, a, c);
    lemma_dec_i64(b, pos, bb.x_min);
    lemma_dec_i64(b, pos + 8, bb.x_max);
    lemma_dec_i64(b, pos + 16, bb.y_min);
    lemma_dec_i64(b, pos + 24, bb.y_max);
}

/// The public statement of the location circuit.
#[derive(Debug, Clone, PartialEq, Eq)]
pub struct LocationPublicInputs {
    /// The box the committed coordinates must lie in.
    pub bounding_box: BoundingBox,
    /// The commitment to the private coordinates.
    pub coordinate_commitment: [u8; 32],
}

/// The private witness of the location circuit.
#[derive(Debug, Clone, PartialEq, Eq)]
pub struct LocationPrivateWitness {
    /// Private x coordinate.
    pub x: i64,
    /// Private y coordinate.
    pub y: i64,
    /// Blinding factor of the commitment.
    pub blinding: [u8; 32],
}

impl View for LocationPublicInputs {
    type V = (BoundingBox, Seq<u8>);

    open spec fn view(&self) -> (BoundingBox, Seq<u8>) {
        (self.bounding_box, self.coordinate_commitment@)
    }
}

impl WireFormat for LocationPublicInputs {
    open spec fn wire_bytes(&self) -> Seq<u8> {
        self.bounding_box.wire_bytes() + self.coordinate_commitment@
    }

    fn write_wire(&self, out: &mut Vec<u8>) {
        self.bounding_box.write_wire(out);
        push_bytes(out, self.coordinate_commitment.as_slice());
        assert(out@ =~= old(out)@ + self.wire_bytes());
    }
}

/// Decodes a location statement at the start of `b`.
pub open spec fn decode_location_public(b: Seq<u8>) -> Option<(BoundingBox, Seq<u8>)> {
    match decode_bounding_box(b, 0) {
        Some((bb, p)) => match dec_fixed(b, p, 32) {
            Some((c, _)) => Some((bb, c)),
            None => None,
        },
        None => None,
    }
}

impl LocationPublicInputs {
    /// Builds the statement for a witness: the box is checked, the witness must lie
    /// in it, and the coordinates are committed to with the witness's blinding
    /// factor.
    pub fn from_witness(bounding_box: BoundingBox, witness: &LocationPrivateWitness) -> (r: Result<Self, ZkProofError>)
        ensures
            r is Ok <==> bounding_box.is_well_formed() && bounding_box.holds_point(witness.x, witness.y),
            !bounding_box.is_well_formed() ==> (r matches Err(e) && Some(e.parts())
                == bounding_box.validation_failure()),
            bounding_box.is_well_formed() && !bounding_box.holds_point(witness.x, witness.y) ==> (
            r matches Err(e) && e.parts() == (
                ZkErrorKind::ConstraintUnsatisfied,
                "coordinate witness is outside the declared bounding box"@,
            )),
            r matches Ok(p) ==> p.bounding_box == bounding_box && p.coordinate_commitment@
                == location_commitment_of(witness.x, witness.y, witness.blinding@),
    {
        bounding_box.validate()?;
        if !bounding_box.contains(witness.x, witness.y) {
            return Err(ZkProofError::ConstraintUnsatisfied(
                "coordinate witness is outside the declared bounding box".to_owned(),
            ));
        }
        let coordinate_commitment = utils::location_commitment(witness.x, witness.y, &witness.blinding)?;
        Ok(LocationPublicInputs { bounding_box, coordinate_commitment })
    }

    /// Encodes the statement.
    pub fn to_bytes(&self) -> (r: Result<Vec<u8>, ZkProofError>)
        ensures
            r matches Ok(v) && v@ == self.wire_bytes(),
    {
        let mut out: Vec<u8> = Vec::new();
        self.write_wire(&mut out);
        assert(out@ =~= self.wire_bytes());
        Ok(out)
    }

    /// Decodes a statement from the start of `bytes`.
    pub fn from_bytes(bytes: &[u8]) -> (r: Result<Self, ZkProofError>)
        ensures
            match decode_location_public(bytes@) {
                None => r matches Err(e) && e is SerializationFailed,
                Some((bb, c)) => if bb.is_well_formed() {
                    r matches Ok(p) && p@ == (bb, c)
                } else {
                    r matches Err(e) && Some(e.parts()) == bb.validation_failure()
                },
            },
    {
        if bytes.len() < 64 {
            return Err(malformed("unexpected end of input"));
        }
        let bounding_box = BoundingBox {
            x_min: read_i64(bytes, 0),
            x_max: read_i64(bytes, 8),
            y_min: read_i64(bytes, 16),
            y_max: read_i64(bytes, 24),
        };
        bounding_box.validate()?;
        let coordinate_commitment = read_array32(bytes, 32);
        Ok(LocationPublicInputs { bounding_box, coordinate_commitment })
    }
}

impl BoundingBox {
    /// What `validate` reports for this box: nothing for a well-formed box,
    /// otherwise the variant and message of the error for the first empty axis.
    pub open spec fn validation_failure(self) -> Option<(ZkErrorKind, Seq<char>)> {
        if self.x_min > self.x_max {
            Some((ZkErrorKind::InvalidPublicInputs, "x_min must not exceed x_max"@))
        } else if self.y_min > self.y_max {
            Some((ZkErrorKind::InvalidPublicInputs, "y_min must not exceed y_max"@))
        } else {
            None
        }
    }
}

/// A box is well formed exactly when neither axis is empty: each axis is checked
/// against its own bounds only, whatever the relation between the two axes.
pub proof fn lemma_box_well_formed_reads_each_axis(b: BoundingBox)
    ensures
        b.is_well_formed() <==> b.x_min <= b.x_max && b.y_min <= b.y_max,
        b.x_min > b.x_max ==> b.validation_failure() == Some(
            (ZkErrorKind::InvalidPublicInputs, "x_min must not exceed x_max"@),
        ),
        b.x_min <= b.x_max && b.y_min > b.y_max ==> b.validation_failure() == Some(
            (ZkErrorKind::InvalidPublicInputs, "y_min must not exceed y_max"@),
        ),
        b.x_min <= b.x_max && b.y_min <= b.y_max ==> b.validation_failure() is None,
{
}

/// A box holds a point exactly when each coordinate lies between its axis's
/// bounds, both included: a point below or above either bound is outside.
pub proof fn lemma_box_holds_point_within_all_four_bounds(b: BoundingBox, x: i64, y: i64)
    ensures
        b.holds_point(x, y) ==> b.x_min <= x && x <= b.x_max && b.y_min <= y && y <= b.y_max,
        x < b.x_min || b.x_max < x || y < b.y_min || b.y_max < y ==> !b.holds_point(x, y),
        b.x_min <= x && x <= b.x_max && b.y_min <= y && y <= b.y_max ==> b.holds_point(x, y),
{
}

/// The public statement of the training circuit.
#[derive(Debug, Clone, PartialEq, Eq)]
pub struct TrainingPublicInputs {
    /// Number of local steps the schedule asks for.
    pub expected_steps: u32,
    /// Largest admitted loss, in thousandths.
    pub max_loss_milli: u64,
    /// Digest of the model the update starts from.
    pub base_model_digest: [u8; 32],
    /// Commitment to the private weight update.
    pub update_commitment: [u8; 32],
}

/// The private witness of the training circuit.
#[derive(Debug, Clone, PartialEq, Eq)]
pub struct TrainingPrivateWitness {
    /// Local steps actually run.
    pub steps_completed: u32,
    /// Loss observed, in thousandths.
    pub observed_loss_milli: u64,
    /// Digest of the weight update.
    pub weight_update_digest: [u8; 32],
    /// Blinding factor of the commitment.
    pub blinding: [u8; 32],
}

impl View for TrainingPublicInputs {
    type V = (u32, u64, Seq<u8>, Seq<u8>);

    open spec fn view(&self) -> (u32, u64, Seq<u8>, Seq<u8>) {
        (self.expected_steps, self.max_loss_milli, self.base_model_digest@, self.update_commitment@)
    }
}

impl WireFormat for TrainingPublicInputs {
    open spec fn wire_bytes(&self) -> Seq<u8> {
        le_u32(self.expected_steps) + le_u64(self.max_loss_milli) + self.base_model_digest@
            + self.update_commitment@
    }

    fn write_wire(&self, out: &mut Vec<u8>) {
        push_u32(out, self.expected_steps);
        push_u64(out, self.max_loss_milli);
        push_bytes(out, self.base_model_digest.as_slice());
        push_bytes(out, self.update_commitment.as_slice());
        assert(out@ =~= old(out)@ + self.wire_bytes());
    }
}

/// Decodes a training statement at the start of `b`.
pub open spec fn decode_training_public(b: Seq<u8>) -> Option<(u32, u64, Seq<u8>, Seq<u8>)> {
    match dec_u32(b, 0) {
        Some((steps, p1)) => match dec_u64(b, p1) {
            Some((loss, p2)) => match dec_fixed(b, p2, 32) {
                Some((base, p3)) => match dec_fixed(b, p3, 32) {
                    Some((commit, _)) => Some((steps, loss, base, commit)),
                    None => None,
                },
                None => None,
            },
            None => None,
        },
        None => None,
    }
}

impl TrainingPublicInputs {
    /// Builds the statement for a witness, committing to its weight update.
    pub fn from_witness(
        expected_steps: u32,
        max_loss_milli: u64,
        base_model_digest: [u8; 32],
        witness: &TrainingPrivateWitness,
    ) -> (r: Result<Self, ZkProofError>)
        ensures
            r matches Ok(p) && p.expected_steps == expected_steps && p.max_loss_milli
                == max_loss_milli && p.base_model_digest == base_model_digest
                && p.update_commitment@ == training_commitment_of(
                base_model_digest@,
                witness.weight_update_digest@,
                witness.blinding@,
            ),
    {
        let update_commitment = utils::training_commitment(
            base_model_digest,
            witness.weight_update_digest,
            &witness.blinding,
        )?;
        Ok(TrainingPublicInputs { expected_steps, max_loss_milli, base_model_digest, update_commitment })
    }

    /// Encodes the statement.
    pub fn to_bytes(&self) -> (r: Result<Vec<u8>, ZkProofError>)
        ensures
            r matches Ok(v) && v@ == self.wire_bytes(),
    {
        let mut out: Vec<u8> = Vec::new();
        self.write_wire(&mut out);
        assert(out@ =~= self.wire_bytes());
        Ok(out)
    }

    /// Decodes a statement from the start of `bytes`.
    pub fn from_bytes(bytes: &[u8]) -> (r: Result<Self, ZkProofError>)
        ensures
            match decode_training_public(bytes@) {
                None => r matches Err(e) && e is SerializationFailed,
                Some(t) => if t.0 > 0 {
                    r matches Ok(p) && p@ == t
                } else {
                    r matches Err(e) && e.parts() == (
                        ZkErrorKind::InvalidPublicInputs,
                        "expected training steps must be greater than zero"@,
                    )
                },
            },
    {
        if bytes.len() < 76 {
            return Err(malformed("unexpected end of input"));
        }
        let expected_steps = read_u32(bytes, 0);
        if expected_steps == 0 {
            return Err(ZkProofError::InvalidPublicInputs(
                "expected training steps must be greater than zero".to_owned(),
            ));
        }
        Ok(TrainingPublicInputs {
            expected_steps,
            max_loss_milli: read_u64(bytes, 4),
            base_model_digest: read_array32(bytes, 12),
            update_commitment: read_array32(bytes, 44),
        })
    }
}


/// Decoding the encoding of a location statement, followed by anything, gives the
/// statement back.
#[verifier::spinoff_prover]
pub proof fn lemma_location_public_round_trip(p: LocationPublicInputs, rest: Seq<u8>)
    ensures
        decode_location_public(p.wire_bytes() + rest) == Some(p@),
{
    let b = p.wire_bytes() + rest;
    lemma_holds_at_start(p.wire_bytes(), rest);
    lemma_holds_at_split(b, 0, p.bounding_box.wire_bytes(), p.coordinate_commitment@);
    lemma_decode_bounding_box(b, 0, p.bounding_box);
    lemma_dec_fixed(b, 32, p.coordinate_commitment@);
}

/// Decoding the encoding of a training statement, followed by anything, gives the
/// statement back.
pub proof fn lemma_training_public_round_trip(p: TrainingPublicInputs, rest: Seq<u8>)
    ensures
        decode_training_public(p.wire_bytes() + rest) == Some(p@),
{
    let b = p.wire_bytes() + rest;
    let a = le_u32(p.expected_steps);
    let c = le_u64(p.max_loss_milli);
    let d = p.base_model_digest@;
    let e = p.update_commitment@;
    lemma_holds_at_start(p.wire_bytes(), rest);
    lemma_holds_at_split(b, 0, a + c + d, e);
    lemma_holds_at_split(b, 0, a + c, d);
    lemma_holds_at_split(b, 0, a, c);
    lemma_dec_u32(b, 0, p.expected_steps);
    lemma_dec_u64(b, 4, p.max_loss_milli);
    lemma_dec_fixed(b, 12, d);
    lemma_dec_fixed(b, 44, e);
}

/// A proof envelope: which circuit and scheme, the digests of the statement and of
/// the constraint report, the transcript signature, and an optional backend proof.
#[derive(Debug, Clone, PartialEq, Eq)]
pub struct Proof {
    /// The circuit the proof is about.
    pub circuit: CircuitKind,
    /// The scheme that produced it.
    pub scheme: ProofScheme,
    /// Digest of the encoded public inputs.
    pub statement_digest: [u8; 32],
    /// Digest of the encoded constraint report.
    pub constraint_digest: [u8; 32],
    /// Ed25519 signature over the transcript (empty for backend proofs).
    pub signature: Vec<u8>,
    /// Bytes of a backend proof, when a proving backend produced one.
    pub backend_proof: Option<Vec<u8>>,
}

impl View for Proof {
    type V = (CircuitKind, ProofScheme, Seq<u8>, Seq<u8>, Seq<u8>, Option<Seq<u8>>);

    open spec fn view(&self) -> Self::V {
        (
            self.circuit,
            self.scheme,
            self.statement_digest@,
            self.constraint_digest@,
            self.signature@,
            view_option_bytes(self.backend_proof),
        )
    }
}

impl Proof {
    /// The encoding of a proof.
    pub open spec fn wire_bytes(&self) -> Seq<u8> {
        le_u32(self.circuit.wire_index()) + le_u32(self.scheme.wire_index())
            + self.statement_digest@ + self.constraint_digest@ + len_prefixed(self.signature@)
            + option_bytes(view_option_bytes(self.backend_proof))
    }

    /// Encodes the proof.
    pub fn to_bytes(&self) -> (r: Result<Vec<u8>, ZkProofError>)
        ensures
            r matches Ok(v) && v@ == self.wire_bytes(),
    {
        let mut out: Vec<u8> = Vec::new();
        push_u32(&mut out, self.circuit.index());
        push_u32(&mut out, self.scheme.index());
        push_bytes(&mut out, self.statement_digest.as_slice());
        push_bytes(&mut out, self.constraint_digest.as_slice());
        push_len_prefixed(&mut out, self.signature.as_slice());
        push_option_bytes(&mut out, &self.backend_proof);
        assert(out@ =~= self.wire_bytes());
        Ok(out)
    }

    /// Decodes a proof from the start of `bytes`.
    pub fn from_bytes(bytes: &[u8]) -> (r: Result<Self, ZkProofError>)
        ensures
            r is Ok <==> decode_proof(bytes@) is Some,
            r matches Ok(p) ==> decode_proof(bytes@) == Some(p@),
            r matches Err(e) ==> e is SerializationFailed,
    {
        if bytes.len() < 72 {
            return Err(malformed("unexpected end of input"));
        }
        let circuit = match CircuitKind::with_index(read_u32(bytes, 0)) {
            Some(c) => c,
            None => {
                return Err(malformed("invalid circuit variant index"));
            },
        };
        let scheme = match ProofScheme::with_index(read_u32(bytes, 4)) {
            Some(s) => s,
            None => {
                return Err(malformed("invalid proof scheme variant index"));
            },
        };
        let statement_digest = read_array32(bytes, 8);
        let constraint_digest = read_array32(bytes, 40);
        let (signature, pos) = match read_len_prefixed(bytes, 72) {
            Some(x) => x,
            None => {
                return Err(malformed("unexpected end of input"));
            },
        };
        let (backend_proof, _) = match read_option_bytes(bytes, pos) {
            Some(x) => x,
            None => {
                return Err(malformed("invalid optional backend proof"));
            },
        };
        Ok(Proof { circuit, scheme, statement_digest, constraint_digest, signature, backend_proof })
    }
}

/// Decodes a proof at the start of `b`.
pub open spec fn decode_proof(b: Seq<u8>) -> Option<
    (CircuitKind, ProofScheme, Seq<u8>, Seq<u8>, Seq<u8>, Option<Seq<u8>>),
> {
    match dec_u32(b, 0) {
        Some((ci, p1)) => match dec_u32(b, p1) {
            Some((si, p2)) => match (CircuitKind::from_wire_index(ci), ProofScheme::from_wire_index(si)) {
                (Some(circuit), Some(scheme)) => match dec_fixed(b, p2, 32) {
                    Some((sd, p3)) => match dec_fixed(b, p3, 32) {
                        Some((cd, p4)) => match dec_len_prefixed(b, p4) {
                            Some((sig, p5)) => match dec_option_bytes(b, p5) {
                                Some((bp, _)) => Some((circuit, scheme, sd, cd, sig, bp)),
                                None => None,
                            },
                            None => None,
                        },
                        None => None,
                    },
                    None => None,
                },
                _ => None,
            },
            None => None,
        },
        None => None,
    }
}

proof fn lemma_proof_fields_at(b: Seq<u8>, p: Proof)
    requires
        holds_at(b, 0, p.wire_bytes()),
    ensures
        holds_at(b, 0, le_u32(p.circuit.wire_index())),
        holds_at(b, 4, le_u32(p.scheme.wire_index())),
        holds_at(b, 8, p.statement_digest@),
        holds_at(b, 40, p.constraint_digest@),
        holds_at(b, 72, len_prefixed(p.signature@)),
        holds_at(b, 80 + p.signature@.len() as int, option_bytes(view_option_bytes(p.backend_proof))),
{
    let a = le_u32(p.circuit.wire_index());
    let s = le_u32(p.scheme.wire_index());
    let sd = p.statement_digest@;
    let cd = p.constraint_digest@;
    let sig = len_prefixed(p.signature@);
    let bp = option_bytes(view_option_bytes(p.backend_proof));
    assert(p.wire_bytes() == a + s + sd + cd + sig + bp);
    lemma_holds_at_split(b, 0, a + s + sd + cd + sig, bp);
    lemma_holds_at_split(b, 0, a + s + sd + cd, sig);
    lemma_holds_at_split(b, 0, a + s + sd, cd);
    lemma_holds_at_split(b, 0, a + s, sd);
    lemma_holds_at_split(b, 0, a, s);
}

/// Decoding the encoding of a proof, followed by anything, gives the proof back.
pub proof fn lemma_proof_round_trip(p: Proof, rest: Seq<u8>)
    ensures
        decode_proof(p.wire_bytes() + rest) == Some(p@),
{
    let b = p.wire_bytes() + rest;
    lemma_holds_at_start(p.wire_bytes(), rest);
    lemma_proof_fields_at(b, p);
    lemma_dec_u32(b, 0, p.circuit.wire_index());
    lemma_dec_u32(b, 4, p.scheme.wire_index());
    lemma_dec_fixed(b, 8, p.statement_digest@);
    lemma_dec_fixed(b, 40, p.constraint_digest@);
    assert(p.signature@.len() == p.signature.len());
    lemma_dec_len_prefixed(b, 72, p.signature@);
    match p.backend_proof {
        Some(v) => {
            assert(v@.len() == v.len());
        },
        None => {},
    }
    lemma_dec_option_bytes(b, 80 + p.signature@.len() as int, view_option_bytes(p.backend_proof));
}

/// A Groth16 proof over BLS12-381, each group element compressed.
#[derive(Debug, Clone)]
pub struct ZkSnarkProof {
    /// Compressed `A` (G1).
    pub a: Vec<u8>,
    /// Compressed `B` (G2).
    pub b: Vec<u8>,
    /// Compressed `C` (G1).
    pub c: Vec<u8>,
}

/// A Groth16 verifying key over BLS12-381, each element compressed.
#[derive(Debug, Clone, PartialEq, Eq)]
pub struct ZkSnarkVerifyingKey {
    /// Compressed `alpha` (G1).
    pub alpha_g1: Vec<u8>,
    /// Compressed `beta` (G2).
    pub beta_g2: Vec<u8>,
    /// Compressed `gamma` (G2).
    pub gamma_g2: Vec<u8>,
    /// Compressed `delta` (G2).
    pub delta_g2: Vec<u8>,
    /// Compressed input commitments (G1 elements).
    pub gamma_abc_g1: Vec<u8>,
}

impl View for ZkSnarkVerifyingKey {
    type V = (Seq<u8>, Seq<u8>, Seq<u8>, Seq<u8>, Seq<u8>);

    open spec fn view(&self) -> Self::V {
        (self.alpha_g1@, self.beta_g2@, self.gamma_g2@, self.delta_g2@, self.gamma_abc_g1@)
    }
}

/// The encoding of a Groth16 verifying key view: its five byte strings, each
/// length-prefixed.
pub open spec fn zk_vk_wire(k: (Seq<u8>, Seq<u8>, Seq<u8>, Seq<u8>, Seq<u8>)) -> Seq<u8> {
    len_prefixed(k.0) + len_prefixed(k.1) + len_prefixed(k.2) + len_prefixed(k.3) + len_prefixed(
        k.4,
    )
}

/// Decodes a Groth16 verifying key at `pos`.
pub open spec fn decode_zk_vk(b: Seq<u8>, pos: int) -> Option<
    ((Seq<u8>, Seq<u8>, Seq<u8>, Seq<u8>, Seq<u8>), int),
> {
    match dec_len_prefixed(b, pos) {
        Some((k0, p1)) => match dec_len_prefixed(b, p1) {
            Some((k1, p2)) => match dec_len_prefixed(b, p2) {
                Some((k2, p3)) => match dec_len_prefixed(b, p3) {
                    Some((k3, p4)) => match dec_len_prefixed(b, p4) {
                        Some((k4, p5)) => Some(((k0, k1, k2, k3, k4), p5)),
                        None => None,
                    },
                    None => None,
                },
                None => None,
            },
            None => None,
        },
        None => None,
    }
}

proof fn lemma_decode_zk_vk(b: Seq<u8>, pos: int, k: ZkSnarkVerifyingKey)
    requires
        holds_at(b, pos, zk_vk_wire(k@)),
    ensures
        decode_zk_vk(b, pos) == Some((k@, pos + zk_vk_wire(k@).len())),
{
    let (k0, k1, k2, k3, k4) = k@;
    assert(k0.len() == k.alpha_g1.len());
    assert(k1.len() == k.beta_g2.len());
    assert(k2.len() == k.gamma_g2.len());
    assert(k3.len() == k.delta_g2.len());
    assert(k4.len() == k.gamma_abc_g1.len());
    let l0 = len_prefixed(k0);
    let l1 = len_prefixed(k1);
    let l2 = len_prefixed(k2);
    let l3 = len_prefixed(k3);
    let l4 = len_prefixed(k4);
    lemma_holds_at_split(b, pos, l0 + l1 + l2 + l3, l4);
    lemma_holds_at_split(b, pos, l0 + l1 + l2, l3);
    lemma_holds_at_split(b, pos, l0 + l1, l2);
    lemma_holds_at_split(b, pos, l0, l1);
    lemma_dec_len_prefixed(b, pos, k0);
    lemma_dec_len_prefixed(b, pos + l0.len(), k1);
    lemma_dec_len_prefixed(b, pos + l0.len() + l1.len(), k2);
    lemma_dec_len_prefixed(b, pos + l0.len() + l1.len() + l2.len(), k3);
    lemma_dec_len_prefixed(b, pos + l0.len() + l1.len() + l2.len() + l3.len(), k4);
}

/// The key a verifier checks proofs against.
#[derive(Debug, Clone, PartialEq, Eq)]
pub struct VerificationKey {
    /// Encoded Ed25519 public key of the prover.
    pub verifying_key: [u8; 32],
    /// A Groth16 verifying key, when one accompanies the signing key.
    pub zk_snark_vk: Option<ZkSnarkVerifyingKey>,
}

impl View for VerificationKey {
    type V = (Seq<u8>, Option<(Seq<u8>, Seq<u8>, Seq<u8>, Seq<u8>, Seq<u8>)>);

    open spec fn view(&self) -> Self::V {
        (
            self.verifying_key@,
            match self.zk_snark_vk {
                Some(k) => Some(k@),
                None => None,
            },
        )
    }
}

impl VerificationKey {
    /// The encoding of a verification key.
    pub open spec fn wire_bytes(&self) -> Seq<u8> {
        self.verifying_key@ + match self.zk_snark_vk {
            None => seq![0u8],
            Some(k) => seq![1u8] + zk_vk_wire(k@),
        }
    }

    /// Encodes the key.
    pub fn to_bytes(&self) -> (r: Result<Vec<u8>, ZkProofError>)
        ensures
            r matches Ok(v) && v@ == self.wire_bytes(),
    {
        let mut out: Vec<u8> = Vec::new();
        push_bytes(&mut out, self.verifying_key.as_slice());
        match &self.zk_snark_vk {
            None => {
                out.push(0u8);
            },
            Some(k) => {
                out.push(1u8);
                push_len_prefixed(&mut out, k.alpha_g1.as_slice());
                push_len_prefixed(&mut out, k.beta_g2.as_slice());
                push_len_prefixed(&mut out, k.gamma_g2.as_slice());
                push_len_prefixed(&mut out, k.delta_g2.as_slice());
                push_len_prefixed(&mut out, k.gamma_abc_g1.as_slice());
            },
        }
        assert(out@ =~= self.wire_bytes());
        Ok(out)
    }

    /// Decodes a key from the start of `bytes`.
    pub fn from_bytes(bytes: &[u8]) -> (r: Result<Self, ZkProofError>)
        ensures
            r is Ok <==> decode_verification_key(bytes@) is Some,
            r matches Ok(k) ==> decode_verification_key(bytes@) == Some(k@),
            r matches Err(e) ==> e is SerializationFailed,
    {
        if bytes.len() < 33 {
            return Err(malformed("unexpected end of input"));
        }
        let verifying_key = read_array32(bytes, 0);
        let tag = bytes[32];
        if tag == 0 {
            return Ok(VerificationKey { verifying_key, zk_snark_vk: None });
        }
        if tag != 1 {
            return Err(malformed("invalid option tag"));
        }
        let (alpha_g1, p1) = match read_len_prefixed(bytes, 33) {
            Some(x) => x,
            None => {
                return Err(malformed("unexpected end of input"));
            },
        };
        let (beta_g2, p2) = match read_len_prefixed(bytes, p1) {
            Some(x) => x,
            None => {
                return Err(malformed("unexpected end of input"));
            },
        };
        let (gamma_g2, p3) = match read_len_prefixed(bytes, p2) {
            Some(x) => x,
            None => {
                return Err(malformed("unexpected end of input"));
            },
        };
        let (delta_g2, p4) = match read_len_prefixed(bytes, p3) {
            Some(x) => x,
            None => {
                return Err(malformed("unexpected end of input"));
            },
        };
        let (gamma_abc_g1, _) = match read_len_prefixed(bytes, p4) {
            Some(x) => x,
            None => {
                return Err(malformed("unexpected end of input"));
            },
        };
        Ok(
            VerificationKey {
                verifying_key,
                zk_snark_vk: Some(
                    ZkSnarkVerifyingKey { alpha_g1, beta_g2, gamma_g2, delta_g2, gamma_abc_g1 },
                ),
            },
        )
    }
}

/// Decodes a verification key at the start of `b`.
pub open spec fn decode_verification_key(b: Seq<u8>) -> Option<
    (Seq<u8>, Option<(Seq<u8>, Seq<u8>, Seq<u8>, Seq<u8>, Seq<u8>)>),
> {
    match dec_fixed(b, 0, 32) {
        Some((vk, p)) => if p < b.len() && b[p] == 0 {
            Some((vk, None))
        } else if p < b.len() && b[p] == 1 {
            match decode_zk_vk(b, p + 1) {
                Some((k, _)) => Some((vk, Some(k))),
                None => None,
            }
        } else {
            None
        },
        None => None,
    }
}

/// Decoding the encoding of a verification key, followed by anything, gives the key back.
pub proof fn lemma_verification_key_round_trip(k: VerificationKey, rest: Seq<u8>)
    ensures
        decode_verification_key(k.wire_bytes() + rest) == Some(k@),
{
    let b = k.wire_bytes() + rest;
    lemma_holds_at_start(k.wire_bytes(), rest);
    match k.zk_snark_vk {
        None => {
            lemma_holds_at_split(b, 0, k.verifying_key@, seq![0u8]);
            lemma_dec_fixed(b, 0, k.verifying_key@);
            assert(b[32] == b.subrange(32, 33)[0]);
        },
        Some(z) => {
            lemma_holds_at_split(b, 0, k.verifying_key@, seq![1u8] + zk_vk_wire(z@));
            lemma_holds_at_split(b, 32, seq![1u8], zk_vk_wire(z@));
            lemma_dec_fixed(b, 0, k.verifying_key@);
            assert(b[32] == b.subrange(32, 33)[0]);
            lemma_decode_zk_vk(b, 33, z);
        },
    }
}

} // verus!
