//! The two 256-bit hash functions the protocol binds its layers with. The two
//! are deliberately distinct and must not be interchanged: SHA-256 binds the
//! program identity into the output prefix, BLAKE3 binds the prefix to the
//! journal bytes.

use vstd::prelude::*;

verus! {

/// The 32-byte SHA-256 digest of a byte sequence, as computed by the `sha2`
/// crate. The function of the input alone; its value is not axiomatized here.
pub uninterp spec fn sha256_of(data: Seq<u8>) -> Seq<u8>;

/// The 32-byte BLAKE3 digest of a byte sequence, as computed by the `blake3`
/// crate. The function of the input alone; its value is not axiomatized here.
pub uninterp spec fn blake3_of(data: Seq<u8>) -> Seq<u8>;

/// Relies on `sha2::Sha256` (`Digest::digest`): the one-shot SHA-256 digest of
/// the input, 32 bytes.
#[verifier::external_body]
pub(crate) fn sha256(data: &[u8]) -> (r: [u8; 32])
    ensures
        r@ == sha256_of(data@),
{
    let d = <sha2::Sha256 as sha2::Digest>::digest(data);
    d.into()
}

/// Relies on `blake3::hash`: the 32-byte BLAKE3 digest of the input.
#[verifier::external_body]
pub(crate) fn blake3_hash(data: &[u8]) -> (r: [u8; 32])
    ensures
        r@ == blake3_of(data@),
{
    *blake3::hash(data).as_bytes()
}

} // verus!
