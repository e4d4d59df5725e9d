//! The receipt-claim check: everything between obtaining a receipt and the
//! final answer. From the program identity the output prefix is derived,
//! from prefix and journal the public input scalar, from the seal the proof
//! points; the pairing equation then decides. A structural failure is
//! reported as an error, never silently downgraded to a `false` answer, and
//! a `false` answer ("proof rejected") is never presented as a failure.

use vstd::prelude::*;

use crate::binding::{calculate_succinct_output_prefix, output_prefix_spec};
use crate::pairing::{groth16_accepts, verify, VerifyError};
use crate::public_input::{derive_public_input, public_input_spec, PublicInputScalar};
use crate::seal::{parse_seal, seal_proof_spec, DecodeError};
use crate::vk::{get_verifying_key, verifying_key_spec};

verus! {

/// A structural failure while checking a receipt claim: the seal could not
/// be decoded, or the public input count disagreed with the verifying key.
#[derive(Debug, Clone, Copy, PartialEq, Eq, Structural)]
pub enum ReceiptError {
    Decode(DecodeError),
    Arity(VerifyError),
}

/// Whether the fixed verifying key accepts the claim that the program with
/// this identity halted successfully with this journal, as attested by this
/// 256-byte seal.
pub open spec fn receipt_accepts(method_id: Seq<u8>, journal: Seq<u8>, seal: Seq<u8>) -> bool {
    groth16_accepts(
        verifying_key_spec(),
        seal_proof_spec(seal),
        seq![public_input_spec(output_prefix_spec(method_id), journal)],
    )
}

/// Checks a receipt claim. A 256-byte seal always gets a boolean answer:
/// `Ok(true)` when the pairing equation holds for the derived public input,
/// `Ok(false)` when the proof is rejected. Any other seal length gets the
/// structural decode error, and nothing is evaluated.
pub fn verify_receipt_claim(method_id: &[u8], journal: &[u8], seal: &[u8]) -> (r: Result<
    bool,
    ReceiptError,
>)
    ensures
        seal@.len() == 256 ==> (r matches Ok(b) && b == receipt_accepts(
            method_id@,
            journal@,
            seal@,
        )),
        seal@.len() != 256 ==> r == Err::<bool, ReceiptError>(
            ReceiptError::Decode(
                DecodeError::WrongLength { expected: 256, actual: seal@.len() as usize },
            ),
        ),
{
    let proof = match parse_seal(seal) {
        Ok(p) => p,
        Err(e) => {
            return Err(ReceiptError::Decode(e));
        },
    };
    let prefix = calculate_succinct_output_prefix(method_id);
    let scalar = derive_public_input(&prefix, journal);
    let vk = get_verifying_key();
    let mut inputs: Vec<PublicInputScalar> = Vec::new();
    inputs.push(scalar);
    proof {
        assert(crate::pairing::scalars_view(inputs@) =~= seq![
            public_input_spec(output_prefix_spec(method_id@), journal@),
        ]);
    }
    match verify(&proof, &vk, inputs.as_slice()) {
        Ok(b) => Ok(b),
        Err(e) => Err(ReceiptError::Arity(e)),
    }
}

} // verus!
