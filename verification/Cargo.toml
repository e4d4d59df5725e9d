[package]
name = "receipt_verifier"
version = "0.1.0"
edition = "2021"
publish = false

[dependencies]
ark-bn254 = "=0.4.0"
ark-ff = "=0.4.2"
ark-groth16 = "=0.4.0"
blake3 = "=1.8.7"
sha2 = "=0.10.9"
risc0-zkvm = { version = "=1.2.6", default-features = false, features = ["std"] }
risc0-binfmt = "=1.2.6"
risc0-zkp = "=1.2.6"
risc0-circuit-recursion = { version = "=1.2.6", default-features = false, features = ["std"] }
