//! Verification side of a zkVM receipt pipeline: derives the single Groth16
//! public input that a receipt's proof must attest to, parses the fixed-layout
//! 256-byte seal into proof points, and checks the proof against a fixed
//! trusted-setup verifying key over BN254.

pub mod bits;
pub mod hashing;
pub mod binding;
pub mod public_input;
pub mod seal;
pub mod vk;
pub mod pairing;
pub mod pipeline;
