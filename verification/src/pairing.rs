//! The Groth16 pairing check: the parsed proof, the verifying key and the
//! derived public inputs are handed to the pairing engine, whose answer is a
//! deterministic function of those bytes. A failed (but well-formed) check is
//! a legitimate `false` answer, distinct from the structural arity error.

use vstd::prelude::*;

use ark_bn254::{Bn254, Fq, Fq2, Fr, G1Affine, G2Affine};
use ark_ff::PrimeField;

use crate::public_input::PublicInputScalar;
use crate::seal::{G1PointBytes, G2PointBytes, Proof, ProofView};
use crate::vk::{verifying_key_spec, VerifyingKey, VerifyingKeyView};

verus! {

/// The byte sequences of a sequence of public input scalars.
pub open spec fn scalars_view(s: Seq<PublicInputScalar>) -> Seq<Seq<u8>> {
    s.map_values(|x: PublicInputScalar| x@)
}

/// Whether the Groth16 pairing equation holds for this verifying key, proof
/// and public input list, every coordinate read as big-endian bytes modulo
/// the respective field order and no point validated against the curve: the
/// outcome of `ark_groth16`'s proof verification on these values. A function
/// of its arguments alone; its value is not axiomatized here.
pub uninterp spec fn groth16_accepts(
    vk: VerifyingKeyView,
    proof: ProofView,
    inputs: Seq<Seq<u8>>,
) -> bool;

/// A structural failure while checking a proof.
#[derive(Debug, Clone, Copy, PartialEq, Eq, Structural)]
pub enum VerifyError {
    /// The verifying key expects one input-commitment term per public input
    /// plus one constant term; the two counts disagree.
    InputCountMismatch { vk_terms: usize, inputs: usize },
}

/// Holds the curve library's prepared (Miller-loop-friendly) verifying key.
/// The whole struct is opaque to the verifier: the key type's `Pairing`
/// bound belongs to the curve library and cannot be declared here, so the
/// value is hidden in a field and only carried from `ark_prepared_key` into
/// the pairing check.
#[verifier::external_body]
struct PreparedKey {
    inner: ark_groth16::PreparedVerifyingKey<Bn254>,
}

/// Relies on `ark_ff`'s `from_be_bytes_mod_order` (big-endian bytes modulo
/// the field order, total), `Fq2::new` (component pair to extension element),
/// `ark_ec`'s `Affine::new_unchecked` (no on-curve check, total) and
/// `ark_groth16::prepare_verifying_key` to convert the key's coordinate
/// bytes, one for one, into the curve library's prepared verifying key.
///
/// Restricted to the library's one fixed key: `prepare_verifying_key`
/// evaluates the pairing of `alpha_g1` and `beta_g2` and aborts when the
/// Miller loop value is zero, which degenerate coordinates (an all-zero
/// point built unchecked) can reach. The fixed key's `alpha_g1` and
/// `beta_g2` are valid non-identity curve points, whose Miller value is a
/// unit, so on this key the call returns normally.
#[verifier::external_body]
fn ark_prepared_key(vk: &VerifyingKey) -> PreparedKey
    requires
        vk@ == verifying_key_spec(),
{
    let f = |b: &[u8; 32]| Fq::from_be_bytes_mod_order(b);
    let g1 = |p: &G1PointBytes| G1Affine::new_unchecked(f(&p.x), f(&p.y));
    let g2 = |p: &G2PointBytes|
        G2Affine::new_unchecked(Fq2::new(f(&p.x_c0), f(&p.x_c1)), Fq2::new(f(&p.y_c0), f(&p.y_c1)));
    let inner = ark_groth16::prepare_verifying_key(
        &ark_groth16::VerifyingKey::<Bn254> {
            alpha_g1: g1(&vk.alpha_g1),
            beta_g2: g2(&vk.beta_g2),
            gamma_g2: g2(&vk.gamma_g2),
            delta_g2: g2(&vk.delta_g2),
            gamma_abc_g1: vk.gamma_abc_g1.iter().map(g1).collect(),
        },
    );
    PreparedKey { inner }
}

/// Holds the curve library's proof-point triple; opaque to the verifier for
/// the same reason as `PreparedKey`, and only carried from `ark_proof_points`
/// into the pairing check.
#[verifier::external_body]
struct ProofPoints {
    inner: ark_groth16::Proof<Bn254>,
}

/// Relies on `ark_ff`'s `from_be_bytes_mod_order` (total), `Fq2::new` and
/// `ark_ec`'s `Affine::new_unchecked` (no on-curve check, total) to convert
/// the proof's coordinate bytes, one for one, into the curve library's proof.
#[verifier::external_body]
fn ark_proof_points(proof: &Proof) -> ProofPoints {
    let f = |b: &[u8; 32]| Fq::from_be_bytes_mod_order(b);
    let a = G1Affine::new_unchecked(f(&proof.a.x), f(&proof.a.y));
    let b = G2Affine::new_unchecked(
        Fq2::new(f(&proof.b.x_c0), f(&proof.b.x_c1)),
        Fq2::new(f(&proof.b.y_c0), f(&proof.b.y_c1)),
    );
    let c = G1Affine::new_unchecked(f(&proof.c.x), f(&proof.c.y));
    ProofPoints { inner: ark_groth16::Proof::<Bn254> { a, b, c } }
}

/// Relies on `ark_groth16::Groth16::<Bn254>::verify_proof`, with the key and
/// proof converted by `ark_prepared_key` and `ark_proof_points` and each
/// scalar read by `ark_ff`'s `from_be_bytes_mod_order` (total). With one
/// input-commitment term per input plus one constant term, `verify_proof`
/// returns `Ok` of the pairing outcome, except that a degenerate pairing
/// value yields `Err(UnexpectedIdentity)`, which can only arise when the
/// equation does not hold; `ok()` turns that into `None`. The whole
/// computation is a deterministic function of the byte arguments, named by
/// `groth16_accepts`. Restricted to the library's one fixed key, on which
/// `ark_prepared_key` returns normally; the arity bound rules out the one
/// error `prepare_inputs` can raise.
#[verifier::external_body]
fn pairing_check(vk: &VerifyingKey, proof: &Proof, inputs: &[PublicInputScalar]) -> (r: Option<
    bool,
>)
    requires
        vk@ == verifying_key_spec(),
        inputs@.len() + 1 == vk.gamma_abc_g1@.len(),
    ensures
        r matches Some(b) ==> b == groth16_accepts(vk@, proof@, scalars_view(inputs@)),
        r is None ==> !groth16_accepts(vk@, proof@, scalars_view(inputs@)),
{
    let scalars: Vec<Fr> = inputs.iter().map(|s| Fr::from_be_bytes_mod_order(&s.bytes)).collect();
    let pvk = ark_prepared_key(vk);
    let points = ark_proof_points(proof);
    ark_groth16::Groth16::<Bn254>::verify_proof(&pvk.inner, &points.inner, &scalars).ok()
}

/// Evaluates the Groth16 verification equation over the parsed proof, the
/// verifying key and the derived public inputs. With the right number of
/// inputs the result is the pairing outcome, `Ok(true)` or `Ok(false)`; a
/// count mismatch is a structural error carrying both counts, and nothing is
/// evaluated.
///
/// The key must be the library's one fixed key, the value `get_verifying_key`
/// returns: the key is a process-wide immutable constant, and a malformed
/// key is a configuration defect, not a runtime input (the pairing engine
/// can abort on degenerate key points, so no contract covers them).
pub fn verify(proof: &Proof, vk: &VerifyingKey, public_inputs: &[PublicInputScalar]) -> (r: Result<
    bool,
    VerifyError,
>)
    requires
        vk@ == verifying_key_spec(),
    ensures
        public_inputs@.len() + 1 == vk.gamma_abc_g1@.len() ==> (r matches Ok(b) && b
            == groth16_accepts(vk@, proof@, scalars_view(public_inputs@))),
        public_inputs@.len() + 1 != vk.gamma_abc_g1@.len() ==> r == Err::<bool, VerifyError>(
            VerifyError::InputCountMismatch {
                vk_terms: vk.gamma_abc_g1@.len() as usize,
                inputs: public_inputs@.len() as usize,
            },
        ),
{
    let vk_terms = vk.gamma_abc_g1.len();
    let input_count = public_inputs.len();
    if vk_terms < 1 || input_count != vk_terms - 1 {
        return Err(VerifyError::InputCountMismatch { vk_terms, inputs: input_count });
    }
    match pairing_check(vk, proof, public_inputs) {
        Some(b) => Ok(b),
        None => Ok(false),
    }
}

} // verus!
