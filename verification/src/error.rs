use vstd::prelude::*;

verus! {

/// Every error that an operation of this crate reports.
#[derive(Debug)]
pub enum ZkProofError {
    /// The public statement is malformed.
    InvalidPublicInputs(String),
    /// The private witness does not satisfy the circuit.
    ConstraintUnsatisfied(String),
    /// Encoding or decoding of a wire value failed.
    SerializationFailed(String),
    /// A byte string could not be decoded.
    DeserializationFailed(String),
    /// A proof was rejected.
    VerificationFailed(String),
    /// Setting up a proving backend failed.
    SetupFailed(String),
    /// A proving backend could not produce a proof.
    ProofGenerationFailed(String),
    /// An input/output operation failed.
    IoError(String),
}

/// The variant of a [`ZkProofError`], without its message.
#[derive(Debug, Clone, Copy, PartialEq, Eq, Structural)]
pub enum ZkErrorKind {
    /// See [`ZkProofError::InvalidPublicInputs`].
    InvalidPublicInputs,
    /// See [`ZkProofError::ConstraintUnsatisfied`].
    ConstraintUnsatisfied,
    /// See [`ZkProofError::SerializationFailed`].
    SerializationFailed,
    /// See [`ZkProofError::DeserializationFailed`].
    DeserializationFailed,
    /// See [`ZkProofError::VerificationFailed`].
    VerificationFailed,
    /// See [`ZkProofError::SetupFailed`].
    SetupFailed,
    /// See [`ZkProofError::ProofGenerationFailed`].
    ProofGenerationFailed,
    /// See [`ZkProofError::IoError`].
    IoError,
}

impl ZkProofError {
    /// The variant and the message of the error.
    pub open spec fn parts(&self) -> (ZkErrorKind, Seq<char>) {
        match self {
            ZkProofError::InvalidPublicInputs(m) => (ZkErrorKind::InvalidPublicInputs, m@),
            ZkProofError::ConstraintUnsatisfied(m) => (ZkErrorKind::ConstraintUnsatisfied, m@),
            ZkProofError::SerializationFailed(m) => (ZkErrorKind::SerializationFailed, m@),
            ZkProofError::DeserializationFailed(m) => (ZkErrorKind::DeserializationFailed, m@),
            ZkProofError::VerificationFailed(m) => (ZkErrorKind::VerificationFailed, m@),
            ZkProofError::SetupFailed(m) => (ZkErrorKind::SetupFailed, m@),
            ZkProofError::ProofGenerationFailed(m) => (ZkErrorKind::ProofGenerationFailed, m@),
            ZkProofError::IoError(m) => (ZkErrorKind::IoError, m@),
        }
    }

    /// The human-readable rendering of the error: a fixed prefix per variant
    /// followed by the detail message.
    pub open spec fn spec_display(&self) -> Seq<char> {
        match self {
            ZkProofError::InvalidPublicInputs(m) => "invalid public inputs: "@ + m@,
            ZkProofError::ConstraintUnsatisfied(m) => "constraint not satisfied: "@ + m@,
            ZkProofError::SerializationFailed(m) => "serialization error: "@ + m@,
            ZkProofError::DeserializationFailed(m) => "deserialization error: "@ + m@,
            ZkProofError::VerificationFailed(m) => "proof verification failed: "@ + m@,
            ZkProofError::SetupFailed(m) => "setup failed: "@ + m@,
            ZkProofError::ProofGenerationFailed(m) => "proof generation failed: "@ + m@,
            ZkProofError::IoError(m) => "IO error: "@ + m@,
        }
    }

    /// Renders the error as text.
    pub fn to_string(&self) -> (r: String)
        ensures
            r@ == self.spec_display(),
    {
        let (prefix, detail) = match self {
            ZkProofError::InvalidPublicInputs(m) => ("invalid public inputs: ", m),
            ZkProofError::ConstraintUnsatisfied(m) => ("constraint not satisfied: ", m),
            ZkProofError::SerializationFailed(m) => ("serialization error: ", m),
            ZkProofError::DeserializationFailed(m) => ("deserialization error: ", m),
            ZkProofError::VerificationFailed(m) => ("proof verification failed: ", m),
            ZkProofError::SetupFailed(m) => ("setup failed: ", m),
            ZkProofError::ProofGenerationFailed(m) => ("proof generation failed: ", m),
            ZkProofError::IoError(m) => ("IO error: ", m),
        };
        let mut out = String::new();
        out.append(prefix);
        out.append(detail.as_str());
        out
    }
}

} // verus!
