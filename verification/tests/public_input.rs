//! The public input scalar: its value against the hash crate, determinism,
//! and sensitivity to single-bit changes of the journal.

use receipt_verifier::public_input::derive_public_input;

#[test]
fn scalar_is_truncated_blake3_of_prefix_and_journal() {
    let prefix = [7u8; 32];
    let journal = b"journal bytes";
    let scalar = derive_public_input(&prefix, journal);
    let mut concat = prefix.to_vec();
    concat.extend_from_slice(journal);
    let digest = blake3::hash(&concat);
    assert_eq!(&scalar.bytes[..], &digest.as_bytes()[..31]);
}

#[test]
fn scalar_derivation_is_deterministic() {
    let prefix = [0x5au8; 32];
    let journal = [1u8, 2, 3, 4];
    let first = derive_public_input(&prefix, &journal);
    let second = derive_public_input(&prefix, &journal);
    assert_eq!(first.bytes, second.bytes);
}

#[test]
fn scalar_changes_when_a_journal_bit_flips() {
    let prefix = [0u8; 32];
    let journal: Vec<u8> = (0..16).collect();
    let base = derive_public_input(&prefix, &journal);
    for bit in 0..(journal.len() * 8) {
        let mut flipped = journal.clone();
        flipped[bit / 8] ^= 1 << (bit % 8);
        let other = derive_public_input(&prefix, &flipped);
        assert_ne!(base.bytes, other.bytes, "bit {bit} did not change the scalar");
    }
}

#[test]
fn scalar_works_for_empty_journal() {
    let prefix = [3u8; 32];
    let scalar = derive_public_input(&prefix, &[]);
    let digest = blake3::hash(&prefix);
    assert_eq!(&scalar.bytes[..], &digest.as_bytes()[..31]);
}
