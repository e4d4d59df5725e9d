//! Parsing of the fixed-layout 256-byte seal into the three curve-point
//! components of a Groth16 proof, kept as the raw big-endian coordinate bytes.
//!
//! One layout quirk is a fixed serialization convention of the proving
//! backend and must be reproduced exactly: within each 64-byte extension
//! field coordinate of `B`, the *second* 32-byte half is the first (`c0`)
//! component of the extension element. No on-curve check happens here; a
//! structurally valid but off-curve point simply fails the later pairing
//! check.

use vstd::prelude::*;

use crate::bits::read32;

verus! {

/// A point on the base curve, as two 32-byte big-endian coordinates.
#[derive(Debug, Clone, PartialEq, Eq)]
pub struct G1PointBytes {
    pub x: [u8; 32],
    pub y: [u8; 32],
}

/// A point on the quadratic-extension curve: each coordinate is an extension
/// element with components `c0` and `c1`, each 32 big-endian bytes.
#[derive(Debug, Clone, PartialEq, Eq)]
pub struct G2PointBytes {
    pub x_c0: [u8; 32],
    pub x_c1: [u8; 32],
    pub y_c0: [u8; 32],
    pub y_c1: [u8; 32],
}

/// A Groth16 proof: `A` and `C` on the base curve, `B` on the extension curve.
#[derive(Debug, Clone, PartialEq, Eq)]
pub struct Proof {
    pub a: G1PointBytes,
    pub b: G2PointBytes,
    pub c: G1PointBytes,
}

/// Mathematical image of a base-curve point: its coordinate byte sequences.
#[verifier::ext_equal]
pub struct G1PointView {
    pub x: Seq<u8>,
    pub y: Seq<u8>,
}

/// Mathematical image of an extension-curve point.
#[verifier::ext_equal]
pub struct G2PointView {
    pub x_c0: Seq<u8>,
    pub x_c1: Seq<u8>,
    pub y_c0: Seq<u8>,
    pub y_c1: Seq<u8>,
}

/// Mathematical image of a proof.
#[verifier::ext_equal]
pub struct ProofView {
    pub a: G1PointView,
    pub b: G2PointView,
    pub c: G1PointView,
}

impl View for G1PointBytes {
    type V = G1PointView;

    open spec fn view(&self) -> G1PointView {
        G1PointView { x: self.x@, y: self.y@ }
    }
}

impl View for G2PointBytes {
    type V = G2PointView;

    open spec fn view(&self) -> G2PointView {
        G2PointView { x_c0: self.x_c0@, x_c1: self.x_c1@, y_c0: self.y_c0@, y_c1: self.y_c1@ }
    }
}

impl View for Proof {
    type V = ProofView;

    open spec fn view(&self) -> ProofView {
        ProofView { a: self.a@, b: self.b@, c: self.c@ }
    }
}

/// A structural failure while decoding a seal.
#[derive(Debug, Clone, Copy, PartialEq, Eq, Structural)]
pub enum DecodeError {
    /// The seal does not have the one admissible length.
    WrongLength { expected: usize, actual: usize },
}

/// Where each coordinate of the proof lies in a 256-byte seal. Within the
/// two 64-byte extension coordinates of `B`, the second half is `c0`.
pub open spec fn seal_proof_spec(s: Seq<u8>) -> ProofView {
    ProofView {
        a: G1PointView { x: s.subrange(0, 32), y: s.subrange(32, 64) },
        b: G2PointView {
            x_c0: s.subrange(96, 128),
            x_c1: s.subrange(64, 96),
            y_c0: s.subrange(160, 192),
            y_c1: s.subrange(128, 160),
        },
        c: G1PointView { x: s.subrange(192, 224), y: s.subrange(224, 256) },
    }
}

/// Decodes a 256-byte seal into the three proof points. Succeeds exactly on
/// seals of length 256; any other length is a structural error carrying the
/// expected and the actual length, and nothing is decoded.
pub fn parse_seal(seal: &[u8]) -> (r: Result<Proof, DecodeError>)
    ensures
        seal@.len() == 256 ==> (r matches Ok(p) && p@ == seal_proof_spec(seal@)),
        seal@.len() != 256 ==> r == Err::<Proof, DecodeError>(
            DecodeError::WrongLength { expected: 256, actual: seal@.len() as usize },
        ),
{
    if seal.len() != 256 {
        return Err(DecodeError::WrongLength { expected: 256, actual: seal.len() });
    }
    let proof = Proof {
        a: G1PointBytes { x: read32(seal, 0), y: read32(seal, 32) },
        b: G2PointBytes {
            x_c0: read32(seal, 96),
            x_c1: read32(seal, 64),
            y_c0: read32(seal, 160),
            y_c1: read32(seal, 128),
        },
        c: G1PointBytes { x: read32(seal, 192), y: read32(seal, 224) },
    };
    Ok(proof)
}

} // verus!
