//! The verification pipeline as a whole: structural errors are distinct from
//! boolean answers, corrupt seals are rejected with `false`, and the input-count
//! check fires exactly when the counts disagree.

use receipt_verifier::pairing::{verify, VerifyError};
use receipt_verifier::pipeline::{verify_receipt_claim, ReceiptError};
use receipt_verifier::public_input::derive_public_input;
use receipt_verifier::seal::{parse_seal, DecodeError};
use receipt_verifier::vk::get_verifying_key;

fn patterned_seal() -> Vec<u8> {
    (0..256).map(|i| (i as u8).wrapping_mul(37).wrapping_add(11)).collect()
}

/// The end-to-end scenario journal: the little-endian bytes of 15 * 2^27 + 1.
fn scenario_journal() -> [u8; 4] {
    (15u32 * (1u32 << 27) + 1).to_le_bytes()
}

#[test]
fn too_few_public_inputs_is_an_arity_error() {
    let vk = get_verifying_key();
    let proof = parse_seal(&patterned_seal()).unwrap();
    assert_eq!(
        verify(&proof, &vk, &[]),
        Err(VerifyError::InputCountMismatch { vk_terms: 2, inputs: 0 })
    );
}

#[test]
fn too_many_public_inputs_is_an_arity_error() {
    let vk = get_verifying_key();
    let proof = parse_seal(&patterned_seal()).unwrap();
    let scalar = derive_public_input(&[0u8; 32], &scenario_journal());
    assert_eq!(
        verify(&proof, &vk, &[scalar, scalar]),
        Err(VerifyError::InputCountMismatch { vk_terms: 2, inputs: 2 })
    );
}

#[test]
fn garbage_seal_is_rejected_with_an_answer() {
    let answer = verify_receipt_claim(&[0u8; 32], &scenario_journal(), &patterned_seal());
    assert_eq!(answer, Ok(false));
}

#[test]
fn all_zero_seal_is_rejected_with_an_answer() {
    let answer = verify_receipt_claim(&[0u8; 32], &scenario_journal(), &[0u8; 256]);
    assert_eq!(answer, Ok(false));
}

#[test]
fn truncated_seal_is_a_structural_error_not_an_answer() {
    let seal = patterned_seal();
    let answer = verify_receipt_claim(&[0u8; 32], &scenario_journal(), &seal[..255]);
    assert_eq!(
        answer,
        Err(ReceiptError::Decode(DecodeError::WrongLength { expected: 256, actual: 255 }))
    );
}

#[test]
fn single_bit_seal_corruption_never_yields_a_structural_error() {
    let seal = patterned_seal();
    for bit in [0usize, 13, 255 * 8 + 7, 96 * 8 + 3, 2047] {
        let mut corrupt = seal.clone();
        corrupt[bit / 8] ^= 1 << (bit % 8);
        let answer = verify_receipt_claim(&[0u8; 32], &scenario_journal(), &corrupt);
        assert!(
            matches!(answer, Ok(_)),
            "bit {bit}: corruption of a fixed-length seal must stay a boolean answer"
        );
        assert_eq!(answer, Ok(false), "bit {bit}: a garbage seal must be rejected");
    }
}

#[test]
fn answer_is_deterministic() {
    let seal = patterned_seal();
    let first = verify_receipt_claim(&[7u8; 32], b"output", &seal);
    let second = verify_receipt_claim(&[7u8; 32], b"output", &seal);
    assert_eq!(first, second);
}
