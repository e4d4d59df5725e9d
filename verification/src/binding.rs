//! Derivation of the 32-byte output prefix that binds a program identity and
//! the canonical successful-halt machine state to the proving backend's fixed
//! control parameters.
//!
//! Two byte-order quirks are protocol constants, not incidental choices: the
//! control root's bytes have their bit order reversed before hashing (the
//! source digest uses a different bit convention than SHA-256), and the
//! concatenation order below is fixed.

use vstd::prelude::*;

use crate::bits::{rev_bytes, reverse_bits_byte, push_all};
use crate::hashing::{sha256, sha256_of};

verus! {

/// Control root of the backend's succinct-proof verifier parameters, i.e. the
/// `ALLOWED_CONTROL_ROOT` digest of `risc0-circuit-recursion`, byte for byte.
pub const SUCCINCT_CONTROL_ROOT: [u8; 32] = [
    0x8c,
    0xda,
    0xd9,
    0x24,
    0x26,
    0x64,
    0xbe,
    0x31,
    0x12,
    0xab,
    0xa3,
    0x77,
    0xc5,
    0x42,
    0x5a,
    0x4d,
    0xf7,
    0x35,
    0xeb,
    0x1c,
    0x69,
    0x66,
    0x47,
    0x2b,
    0x56,
    0x1d,
    0x28,
    0x55,
    0x93,
    0x2c,
    0x04,
    0x69,
];

/// Control ID of the backend's identity recursion program over the BN254
/// scalar field, i.e. `BN254_IDENTITY_CONTROL_ID` of `risc0-circuit-recursion`.
pub const BN254_IDENTITY_CONTROL_ID: [u8; 32] = [
    0xc0,
    0x7a,
    0x65,
    0x14,
    0x5c,
    0x3c,
    0xb4,
    0x8b,
    0x61,
    0x01,
    0x96,
    0x2e,
    0xa6,
    0x07,
    0xa4,
    0xdd,
    0x93,
    0xc7,
    0x53,
    0xbb,
    0x26,
    0x97,
    0x5c,
    0xb4,
    0x7f,
    0xeb,
    0x00,
    0xd3,
    0x66,
    0x6e,
    0x44,
    0x04,
];

/// The all-zero digest: the merkle root of the canonical successful-halt state.
pub const ZERO_DIGEST: [u8; 32] = [
    0,
    0,
    0,
    0,
    0,
    0,
    0,
    0,
    0,
    0,
    0,
    0,
    0,
    0,
    0,
    0,
    0,
    0,
    0,
    0,
    0,
    0,
    0,
    0,
    0,
    0,
    0,
    0,
    0,
    0,
    0,
    0,
];

/// The 32-byte digest of a zkVM system state with the given program counter
/// and memory merkle root, as computed by `risc0-binfmt`'s tagged-struct
/// hashing. The function of the two arguments alone.
pub uninterp spec fn state_digest_of(pc: u32, merkle_root: Seq<u8>) -> Seq<u8>;

/// The output prefix bound to a program identity: the SHA-256 digest of the
/// bit-reversed control root, the identity, the successful-halt state digest
/// (program counter 0, all-zero merkle root), and the BN254 identity control
/// ID, concatenated in that order.
pub open spec fn output_prefix_spec(method_id: Seq<u8>) -> Seq<u8> {
    sha256_of(
        rev_bytes(SUCCINCT_CONTROL_ROOT@) + method_id + state_digest_of(0, ZERO_DIGEST@)
            + BN254_IDENTITY_CONTROL_ID@,
    )
}

/// Relies on `risc0_zkvm::SuccinctReceiptVerifierParameters::default()`: its
/// `control_root` field is the `ALLOWED_CONTROL_ROOT` constant of
/// `risc0-circuit-recursion`, whose bytes are `SUCCINCT_CONTROL_ROOT`.
#[verifier::external_body]
fn succinct_control_root() -> (r: [u8; 32])
    ensures
        r@ == SUCCINCT_CONTROL_ROOT@,
{
    let params = risc0_zkvm::SuccinctReceiptVerifierParameters::default();
    params.control_root.as_bytes().try_into().unwrap()
}

/// Relies on `risc0_circuit_recursion::control_id::BN254_IDENTITY_CONTROL_ID`:
/// a digest constant whose bytes are `BN254_IDENTITY_CONTROL_ID` above.
#[verifier::external_body]
fn bn254_identity_control_id() -> (r: [u8; 32])
    ensures
        r@ == BN254_IDENTITY_CONTROL_ID@,
{
    risc0_circuit_recursion::control_id::BN254_IDENTITY_CONTROL_ID.into()
}

/// Relies on `risc0_binfmt::Digestible::digest` for `SystemState` with the
/// SHA-256 implementation of `risc0_zkvm::sha::Impl`: the digest is a function
/// of the program counter and merkle root alone, named by `state_digest_of`.
#[verifier::external_body]
fn system_state_digest(pc: u32, merkle_root: &[u8; 32]) -> (r: [u8; 32])
    ensures
        r@ == state_digest_of(pc, merkle_root@),
{
    let state = risc0_zkvm::SystemState {
        pc,
        merkle_root: risc0_zkp::core::digest::Digest::from(*merkle_root),
    };
    let d = risc0_binfmt::Digestible::digest::<risc0_zkvm::sha::Impl>(&state);
    d.into()
}

/// Derives the output prefix bound to a program identity. The prefix is a
/// pure function of the identity: calling this any number of times, in any
/// process, yields the same 32 bytes for the same `method_id`.
pub fn calculate_succinct_output_prefix(method_id: &[u8]) -> (r: [u8; 32])
    ensures
        r@ == output_prefix_spec(method_id@),
{
    let root = succinct_control_root();
    let mut reversed_root: Vec<u8> = Vec::new();
    let mut i: usize = 0;
    while i < 32
        invariant
            i <= 32,
            root@ == SUCCINCT_CONTROL_ROOT@,
            reversed_root@.len() == i,
            forall|j: int| 0 <= j < i ==> reversed_root@[j] == crate::bits::rev8(
                SUCCINCT_CONTROL_ROOT@[j],
            ),
        decreases 32 - i,
    {
        reversed_root.push(reverse_bits_byte(root[i]));
        i = i + 1;
    }
    proof {
        assert(reversed_root@ =~= rev_bytes(SUCCINCT_CONTROL_ROOT@));
    }
    let halt_state_digest = system_state_digest(0, &ZERO_DIGEST);
    let control_id = bn254_identity_control_id();
    let mut message: Vec<u8> = Vec::new();
    push_all(&mut message, reversed_root.as_slice());
    push_all(&mut message, method_id);
    push_all(&mut message, halt_state_digest.as_slice());
    push_all(&mut message, control_id.as_slice());
    sha256(message.as_slice())
}

} // verus!
