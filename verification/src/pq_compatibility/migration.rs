//! A placeholder post-quantum backend that publishes the migration plan.

use vstd::prelude::*;
use crate::pq_compatibility::{
    PostQuantumBackend, PostQuantumBackendDescriptor, PostQuantumBackendStatus,
};

verus! {

/// A placeholder backend used until a production post-quantum proving backend is
/// integrated; its descriptor lays out the migration steps.
pub struct PlaceholderBackend;

/// The migration steps the placeholder backend publishes.
pub open spec fn placeholder_migration_steps() -> Seq<Seq<char>> {
    seq![
        "Implement the public circuit API for the chosen PQC scheme."@,
        "Register the new backend in PqcBackendType and route proofs accordingly."@,
        "Run the full test suite to validate correctness and performance targets."@,
    ]
}

impl PostQuantumBackend for PlaceholderBackend {
    fn descriptor(&self) -> (r: PostQuantumBackendDescriptor)
        ensures
            r.name@ == "placeholder-pq-backend"@,
            r.status == PostQuantumBackendStatus::Reserved,
            r.notes@ == "Reserved slot for a future post-quantum proving backend. Not suitable for production use."@,
            r.migration_steps@.map_values(|s: &str| s@) == placeholder_migration_steps(),
    {
        let steps: &'static [&'static str] = &[
            "Implement the public circuit API for the chosen PQC scheme.",
            "Register the new backend in PqcBackendType and route proofs accordingly.",
            "Run the full test suite to validate correctness and performance targets.",
        ];
        PostQuantumBackendDescriptor {
            name: "placeholder-pq-backend",
            status: PostQuantumBackendStatus::Reserved,
            notes: "Reserved slot for a future post-quantum proving backend. Not suitable for production use.",
            migration_steps: steps,
        }
    }
}

} // verus!
