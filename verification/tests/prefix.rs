//! The output prefix against an independent computation from the backend's
//! own parameters, and its determinism.

use receipt_verifier::binding::calculate_succinct_output_prefix;
use risc0_binfmt::Digestible;
use sha2::{Digest, Sha256};

/// Recomputes the output prefix straight from the backend crates.
fn reference_prefix(method_id: &[u8]) -> [u8; 32] {
    let params = risc0_zkvm::SuccinctReceiptVerifierParameters::default();
    let mut root: [u8; 32] = params.control_root.as_bytes().try_into().unwrap();
    for b in root.iter_mut() {
        *b = b.reverse_bits();
    }
    let control_id: [u8; 32] =
        risc0_circuit_recursion::control_id::BN254_IDENTITY_CONTROL_ID.into();
    let post_state = risc0_zkvm::SystemState {
        pc: 0,
        merkle_root: risc0_zkp::core::digest::Digest::default(),
    };
    let post_bytes: [u8; 32] = post_state.digest::<risc0_zkvm::sha::Impl>().into();
    let mut hasher = Sha256::new();
    hasher.update(root);
    hasher.update(method_id);
    hasher.update(post_bytes);
    hasher.update(control_id);
    hasher.finalize().into()
}

#[test]
fn prefix_matches_backend_for_zero_identity() {
    let id = [0u8; 32];
    assert_eq!(calculate_succinct_output_prefix(&id), reference_prefix(&id));
}

#[test]
fn prefix_matches_backend_for_patterned_identity() {
    let id: Vec<u8> = (0..32).map(|i| (7 * i + 3) as u8).collect();
    assert_eq!(calculate_succinct_output_prefix(&id), reference_prefix(&id));
}

#[test]
fn prefix_is_deterministic_across_calls() {
    let id = [0xabu8; 32];
    let first = calculate_succinct_output_prefix(&id);
    for _ in 0..3 {
        assert_eq!(calculate_succinct_output_prefix(&id), first);
    }
}

#[test]
fn prefix_distinguishes_identities() {
    let a = calculate_succinct_output_prefix(&[0u8; 32]);
    let b = calculate_succinct_output_prefix(&[1u8; 32]);
    assert_ne!(a, b);
}
