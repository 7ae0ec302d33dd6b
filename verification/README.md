# smp-zk-proofs

Verifiable location and training statements for distributed spatial networks,
written in Verus.

A node proves either that it knows coordinates, committed to, inside a public
bounding box, or that it knows a committed weight update whose step count matches
a public schedule and whose loss stays under a public bound. The default scheme
checks the circuit constraints locally, digests the statement and the constraint
report, and signs the transcript with Ed25519. A stub Halo2 backend, a Groth16
verifier over BN254 and experimental post-quantum backends (lattice, hash,
hybrid) sit beside it.

## Layout

- `src/` – the verified library. Every function carries a contract that Verus
  proves; the outside primitives (SHA-256, SHA3-256, Ed25519, bincode, arkworks
  Groth16 verification, the OS random generator, the clock) are reached only
  through the trusted items in `src/crypto.rs`, whose contracts name or state
  what those crates return.
  - `encoding.rs` – the little-endian wire primitives and their decoding lemmas.
  - `constraints/` – the location and training circuits and constraint reports.
  - `proofs/` – statement and proof types with their wire format, the prover,
    the verifier, and the Halo2 and Groth16 backends.
  - `pq_compatibility/` – configuration, backend descriptors, and the lattice,
    hash and hybrid post-quantum proofs.
  - `utils/` – hashing, commitments and blinding factors.
- `tests/` – tests run against the compiled library with the real outside crates.
- `app/` – what the library cannot hold: serde and bincode on its types,
  `thiserror` renderings of its errors, Groth16 constraint synthesis and proving
  with arkworks, and conversions of arkworks values.

## Main guarantees

- Encoding any proof or verification key, or any statement with a well-formed
  box or at least one scheduled step, and decoding the bytes gives the value back,
  and the verifier's decision survives the trip.
- A proof is produced exactly when the witness satisfies the circuit, and the
  verifier then accepts it under the context's verification key; each rejection
  is reported with the first failing check.
- Every post-quantum proof a backend makes is accepted by that backend's verifier
  for the public inputs it was made for.
