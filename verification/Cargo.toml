[package]
name = "smp-zk-proofs"
version = "0.1.0"
edition = "2021"
publish = false

[dependencies]
sha2 = "0.10"
sha3 = "0.10"
ed25519-dalek = "2"
constant_time_eq = "0.3"
rand = "0.8"
bincode = "1.3"
serde = { version = "1", features = ["derive"] }
thiserror = "2"
ark-groth16 = "0.5"
ark-bn254 = "0.5"
ark-bls12-381 = "0.5"
ark-ec = "0.5"
ark-ff = "0.5"
ark-serialize = "0.5"
ark-relations = "0.5"
ark-r1cs-std = "0.5"
