//! Proof generation, verification, statement types and proving backends.

pub mod generator;
pub mod groth16_backend;
pub mod groth16_circuits;
pub mod halo2_backend;
pub mod halo2_circuits;
pub mod types;
pub mod verification;

use vstd::prelude::*;
use crate::encoding::{le_u32, push_bytes, push_u32};
use crate::error::ZkProofError;
use types::{CircuitKind, ProofScheme, WireFormat};

verus! {

/// The signed transcript of a proof: the circuit's and the scheme's variant
/// indices, the statement digest, the constraint digest, then the encoded public
/// inputs.
pub open spec fn transcript_bytes(
    circuit: CircuitKind,
    scheme: ProofScheme,
    statement_digest: Seq<u8>,
    constraint_digest: Seq<u8>,
    public_inputs: Seq<u8>,
) -> Seq<u8> {
    le_u32(circuit.wire_index()) + le_u32(scheme.wire_index()) + statement_digest
        + constraint_digest + public_inputs
}

/// Builds the byte message that a development-scheme proof signs and that its
/// verifier checks the signature against.
pub fn transcript_message<T: WireFormat>(
    circuit: CircuitKind,
    scheme: ProofScheme,
    statement_digest: [u8; 32],
    constraint_digest: [u8; 32],
    public_inputs: &T,
) -> (r: Result<Vec<u8>, ZkProofError>)
    ensures
        r matches Ok(m) && m@ == transcript_bytes(
            circuit,
            scheme,
            statement_digest@,
            constraint_digest@,
            public_inputs.wire_bytes(),
        ),
{
    let mut message: Vec<u8> = Vec::new();
    push_u32(&mut message, circuit.index());
    push_u32(&mut message, scheme.index());
    push_bytes(&mut message, statement_digest.as_slice());
    push_bytes(&mut message, constraint_digest.as_slice());
    public_inputs.write_wire(&mut message);
    assert(message@ =~= transcript_bytes(
        circuit,
        scheme,
        statement_digest@,
        constraint_digest@,
        public_inputs.wire_bytes(),
    ));
    Ok(message)
}

} // verus!
