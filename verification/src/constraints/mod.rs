//! Circuit definitions and native constraint evaluation.
//!
//! Each circuit's `evaluate` checks whether a private witness satisfies the public
//! constraints. The result is a [`ConstraintReport`] whose digest is committed to in
//! the generated proof.

pub mod location_circuit;
pub mod training_circuit;

pub use location_circuit::LocationCircuit;
pub use training_circuit::TrainingCircuit;

use vstd::prelude::*;
use vstd::utf8::encode_utf8;
use crate::crypto::{self, sha256_digest};
use crate::encoding::{le_u32, le_u64, len_prefixed, push_len_prefixed, push_u32, push_u64};
use crate::error::ZkProofError;
use crate::proofs::types::CircuitKind;

verus! {

/// Implemented by every circuit of this crate.
pub trait Circuit {
    /// The public inputs visible to the verifier.
    type PublicInputs;
    /// The private witness known only to the prover.
    type PrivateWitness;

    /// The circuit's tag.
    fn kind(&self) -> CircuitKind;

    /// Evaluates the constraints on a statement and a witness, returning a report of
    /// the checks that passed, or the first constraint that fails.
    fn evaluate(
        &self,
        public_inputs: &Self::PublicInputs,
        private_witness: &Self::PrivateWitness,
    ) -> Result<ConstraintReport, ZkProofError>;
}

/// A record of which constraint checks passed for a given witness.
#[derive(Debug, Clone, PartialEq, Eq)]
pub struct ConstraintReport {
    /// Which circuit produced this report.
    pub circuit: CircuitKind,
    /// Labels of the satisfied checks.
    pub checks: Vec<String>,
}

impl View for ConstraintReport {
    type V = (CircuitKind, Seq<Seq<char>>);

    open spec fn view(&self) -> (CircuitKind, Seq<Seq<char>>) {
        (self.circuit, self.checks@.map_values(|s: String| s@))
    }
}

/// The encoding of a list of strings' elements: each one's UTF-8 bytes, length-prefixed.
pub open spec fn strings_wire(s: Seq<Seq<char>>) -> Seq<u8>
    decreases s.len(),
{
    if s.len() == 0 {
        Seq::empty()
    } else {
        strings_wire(s.drop_last()) + len_prefixed(encode_utf8(s.last()))
    }
}

/// The encoding of a report: the circuit's variant index, the number of checks,
/// then the checks.
pub open spec fn report_wire(r: (CircuitKind, Seq<Seq<char>>)) -> Seq<u8> {
    le_u32(r.0.wire_index()) + le_u64(r.1.len() as u64) + strings_wire(r.1)
}

impl ConstraintReport {
    /// Computes the SHA-256 digest of the encoded report.
    pub fn digest(&self) -> (r: Result<[u8; 32], ZkProofError>)
        ensures
            r matches Ok(d) && d@ == sha256_digest(report_wire(self@)),
    {
        let mut out: Vec<u8> = Vec::new();
        push_u32(&mut out, self.circuit.index());
        push_u64(&mut out, self.checks.len() as u64);
        let ghost head = out@;
        let ghost labels = self@.1;
        let mut i: usize = 0;
        while i < self.checks.len()
            invariant
                i <= self.checks@.len(),
                labels == self.checks@.map_values(|s: String| s@),
                out@ == head + strings_wire(labels.take(i as int)),
            decreases self.checks@.len() - i,
        {
            let text = self.checks[i].as_str();
            push_len_prefixed(&mut out, text.as_bytes());
            assert(labels.take(i + 1).drop_last() =~= labels.take(i as int));
            i = i + 1;
        }
        assert(labels.take(i as int) =~= labels);
        Ok(crypto::sha256(out.as_slice()))
    }
}

} // verus!
