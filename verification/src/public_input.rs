//! Derivation of the single scalar public input from the output prefix and
//! the journal bytes. The 32-byte BLAKE3 digest of `prefix ‖ journal` is
//! truncated to its first 31 bytes and read as a big-endian integer; 31 bytes
//! (not 32) is intentional, since any 31-byte value lies strictly below the
//! BN254 scalar field order, so no rejection or retry step is needed.

use vstd::prelude::*;

use crate::bits::push_all;
use crate::hashing::{blake3_hash, blake3_of};

verus! {

/// The scalar public input, carried as the 31 big-endian bytes it was derived
/// from. Its integer value (`be_nat`) is always below the scalar field order.
#[derive(Debug, Clone, Copy, PartialEq, Eq)]
pub struct PublicInputScalar {
    pub bytes: [u8; 31],
}

impl View for PublicInputScalar {
    type V = Seq<u8>;

    open spec fn view(&self) -> Seq<u8> {
        self.bytes@
    }
}

/// The bytes the public input scalar is derived from: the first 31 bytes of
/// the BLAKE3 digest of the prefix followed by the journal.
pub open spec fn public_input_spec(prefix: Seq<u8>, journal: Seq<u8>) -> Seq<u8> {
    blake3_of(prefix + journal).take(31)
}

/// The big-endian integer value of a byte sequence.
pub open spec fn be_nat(s: Seq<u8>) -> nat
    decreases s.len(),
{
    if s.len() == 0 {
        0
    } else {
        be_nat(s.drop_last()) * 256 + s.last() as nat
    }
}

/// 256 raised to the given power.
pub open spec fn pow256(n: nat) -> nat
    decreases n,
{
    if n == 0 {
        1nat
    } else {
        256 * pow256((n - 1) as nat)
    }
}

/// The order of the BN254 scalar field.
pub open spec fn scalar_field_order() -> nat {
    21888242871839275222246405745257275088548364400416034343698204186575808495617nat
}

/// A sequence of `n` bytes read big-endian is below `256^n`.
pub proof fn lemma_be_nat_bound(s: Seq<u8>)
    ensures
        be_nat(s) < pow256(s.len()),
    decreases s.len(),
{
    if s.len() == 0 {
    } else {
        lemma_be_nat_bound(s.drop_last());
        assert(be_nat(s.drop_last()) + 1 <= pow256((s.len() - 1) as nat));
        assert((be_nat(s.drop_last()) + 1) * 256 <= pow256((s.len() - 1) as nat) * 256)
            by (nonlinear_arith)
            requires
                be_nat(s.drop_last()) + 1 <= pow256((s.len() - 1) as nat),
        ;
        assert(be_nat(s.drop_last()) * 256 + 256 == (be_nat(s.drop_last()) + 1) * 256)
            by (nonlinear_arith);
    }
}

/// Truncation to 31 bytes guarantees the derived value lies strictly below
/// the scalar field order, so interpreting it modulo that order never wraps.
pub proof fn lemma_public_input_below_field_order(s: Seq<u8>)
    requires
        s.len() == 31,
    ensures
        be_nat(s) < scalar_field_order(),
{
    lemma_be_nat_bound(s);
    assert(pow256(31) == 0x100000000000000000000000000000000000000000000000000000000000000nat) by {
        reveal_with_fuel(pow256, 32);
    };
}

/// Derives the public input scalar from the output prefix and the journal.
/// Deterministic: the result is a pure function of the two inputs, so two
/// calls on the same pair yield bit-identical output.
pub fn derive_public_input(prefix: &[u8; 32], journal: &[u8]) -> (r: PublicInputScalar)
    ensures
        r@ == public_input_spec(prefix@, journal@),
{
    let mut message: Vec<u8> = Vec::new();
    push_all(&mut message, prefix.as_slice());
    push_all(&mut message, journal);
    let digest = blake3_hash(message.as_slice());
    let mut truncated: [u8; 31] = [0u8; 31];
    let mut i: usize = 0;
    while i < 31
        invariant
            i <= 31,
            digest@ == blake3_of(prefix@ + journal@),
            forall|j: int| 0 <= j < i ==> truncated@[j] == digest@[j],
        decreases 31 - i,
    {
        truncated[i] = digest[i];
        i = i + 1;
    }
    proof {
        assert(truncated@ =~= blake3_of(prefix@ + journal@).take(31));
    }
    PublicInputScalar { bytes: truncated }
}

} // verus!
