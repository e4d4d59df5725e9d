//! The fixed Groth16 verifying key for the target protocol instance: five
//! curve-point groups from one trusted-setup ceremony, baked in as big-endian
//! coordinate constants and never mutated. The input-commitment vector has two
//! entries: one constant term plus one term for the single public input.

use vstd::prelude::*;

use crate::seal::{G1PointBytes, G1PointView, G2PointBytes, G2PointView};

verus! {

pub const VK_ALPHA_G1_X: [u8; 32] = [
    0x2d, 0x4d, 0x9a, 0xa7, 0xe3, 0x02, 0xd9, 0xdf,
    0x41, 0x74, 0x9d, 0x55, 0x07, 0x94, 0x9d, 0x05,
    0xdb, 0xea, 0x33, 0xfb, 0xb1, 0x6c, 0x64, 0x3b,
    0x22, 0xf5, 0x99, 0xa2, 0xbe, 0x6d, 0xf2, 0xe2,
];

pub const VK_ALPHA_G1_Y: [u8; 32] = [
    0x14, 0xbe, 0xdd, 0x50, 0x3c, 0x37, 0xce, 0xb0,
    0x61, 0xd8, 0xec, 0x60, 0x20, 0x9f, 0xe3, 0x45,
    0xce, 0x89, 0x83, 0x0a, 0x19, 0x23, 0x03, 0x01,
    0xf0, 0x76, 0xca, 0xff, 0x00, 0x4d, 0x19, 0x26,
];

pub const VK_BETA_G2_X_C0: [u8; 32] = [
    0x0e, 0x18, 0x78, 0x47, 0xad, 0x4c, 0x79, 0x83,
    0x74, 0xd0, 0xd6, 0x73, 0x2b, 0xf5, 0x01, 0x84,
    0x7d, 0xd6, 0x8b, 0xc0, 0xe0, 0x71, 0x24, 0x1e,
    0x02, 0x13, 0xbc, 0x7f, 0xc1, 0x3d, 0xb7, 0xab,
];

pub const VK_BETA_G2_X_C1: [u8; 32] = [
    0x09, 0x67, 0x03, 0x2f, 0xcb, 0xf7, 0x76, 0xd1,
    0xaf, 0xc9, 0x85, 0xf8, 0x88, 0x77, 0xf1, 0x82,
    0xd3, 0x84, 0x80, 0xa6, 0x53, 0xf2, 0xde, 0xca,
    0xa9, 0x79, 0x4c, 0xbc, 0x3b, 0xf3, 0x06, 0x0c,
];

pub const VK_BETA_G2_Y_C0: [u8; 32] = [
    0x17, 0x39, 0xc1, 0xb1, 0xa4, 0x57, 0xa8, 0xc7,
    0x31, 0x31, 0x23, 0xd2, 0x4d, 0x2f, 0x91, 0x92,
    0xf8, 0x96, 0xb7, 0xc6, 0x3e, 0xea, 0x05, 0xa9,
    0xd5, 0x7f, 0x06, 0x54, 0x7a, 0xd0, 0xce, 0xc8,
];

pub const VK_BETA_G2_Y_C1: [u8; 32] = [
    0x30, 0x4c, 0xfb, 0xd1, 0xe0, 0x8a, 0x70, 0x4a,
    0x99, 0xf5, 0xe8, 0x47, 0xd9, 0x3f, 0x8c, 0x3c,
    0xaa, 0xfd, 0xde, 0xc4, 0x6b, 0x7a, 0x0d, 0x37,
    0x9d, 0xa6, 0x9a, 0x4d, 0x11, 0x23, 0x46, 0xa7,
];

pub const VK_GAMMA_G2_X_C0: [u8; 32] = [
    0x18, 0x00, 0xde, 0xef, 0x12, 0x1f, 0x1e, 0x76,
    0x42, 0x6a, 0x00, 0x66, 0x5e, 0x5c, 0x44, 0x79,
    0x67, 0x43, 0x22, 0xd4, 0xf7, 0x5e, 0xda, 0xdd,
    0x46, 0xde, 0xbd, 0x5c, 0xd9, 0x92, 0xf6, 0xed,
];

pub const VK_GAMMA_G2_X_C1: [u8; 32] = [
    0x19, 0x8e, 0x93, 0x93, 0x92, 0x0d, 0x48, 0x3a,
    0x72, 0x60, 0xbf, 0xb7, 0x31, 0xfb, 0x5d, 0x25,
    0xf1, 0xaa, 0x49, 0x33, 0x35, 0xa9, 0xe7, 0x12,
    0x97, 0xe4, 0x85, 0xb7, 0xae, 0xf3, 0x12, 0xc2,
];

pub const VK_GAMMA_G2_Y_C0: [u8; 32] = [
    0x12, 0xc8, 0x5e, 0xa5, 0xdb, 0x8c, 0x6d, 0xeb,
    0x4a, 0xab, 0x71, 0x80, 0x8d, 0xcb, 0x40, 0x8f,
    0xe3, 0xd1, 0xe7, 0x69, 0x0c, 0x43, 0xd3, 0x7b,
    0x4c, 0xe6, 0xcc, 0x01, 0x66, 0xfa, 0x7d, 0xaa,
];

pub const VK_GAMMA_G2_Y_C1: [u8; 32] = [
    0x09, 0x06, 0x89, 0xd0, 0x58, 0x5f, 0xf0, 0x75,
    0xec, 0x9e, 0x99, 0xad, 0x69, 0x0c, 0x33, 0x95,
    0xbc, 0x4b, 0x31, 0x33, 0x70, 0xb3, 0x8e, 0xf3,
    0x55, 0xac, 0xda, 0xdc, 0xd1, 0x22, 0x97, 0x5b,
];

pub const VK_DELTA_G2_X_C0: [u8; 32] = [
    0x2c, 0x0f, 0x39, 0x54, 0x35, 0xa8, 0x74, 0x5c,
    0x25, 0x12, 0xfb, 0x6d, 0xac, 0x51, 0x46, 0x57,
    0x7d, 0x65, 0xf3, 0x07, 0x9c, 0x56, 0xd3, 0x08,
    0x06, 0x54, 0x91, 0x78, 0x3e, 0xc4, 0xaf, 0x22,
];

pub const VK_DELTA_G2_X_C1: [u8; 32] = [
    0x2c, 0x08, 0x59, 0xce, 0xc3, 0x2a, 0x8a, 0xc8,
    0x27, 0x2b, 0x87, 0xc1, 0x1c, 0xf9, 0x49, 0xb6,
    0x73, 0x88, 0xd6, 0xf4, 0x8c, 0x43, 0xa9, 0x2a,
    0xbe, 0x71, 0x5a, 0x62, 0x2d, 0x72, 0xcd, 0x7d,
];

pub const VK_DELTA_G2_Y_C0: [u8; 32] = [
    0x0a, 0x22, 0xca, 0xcd, 0x7e, 0x87, 0xb8, 0x5c,
    0x3c, 0xd0, 0x35, 0x64, 0x13, 0x38, 0xc9, 0xf4,
    0x1a, 0x94, 0x92, 0x76, 0x5d, 0xb7, 0xa2, 0xd5,
    0x9b, 0xbd, 0xcc, 0x32, 0x91, 0x12, 0x00, 0xee,
];

pub const VK_DELTA_G2_Y_C1: [u8; 32] = [
    0x01, 0xff, 0x15, 0xf2, 0x90, 0x23, 0x11, 0xb2,
    0xef, 0x58, 0x61, 0x7c, 0x7d, 0x89, 0x07, 0x9b,
    0xf8, 0x7a, 0x7c, 0x95, 0x02, 0xa4, 0x7e, 0xa3,
    0x10, 0xa8, 0x1d, 0x52, 0x36, 0xa2, 0x9f, 0x48,
];

pub const VK_ABC_0_X: [u8; 32] = [
    0x0e, 0xcf, 0x6f, 0x8b, 0xd1, 0x5c, 0x24, 0x7a,
    0x36, 0x0b, 0xd4, 0x0a, 0xad, 0x38, 0xac, 0xa3,
    0xc0, 0x51, 0x22, 0xd8, 0x67, 0x57, 0x4d, 0x6d,
    0x9f, 0xa4, 0x57, 0x8d, 0x62, 0xa2, 0x35, 0x69,
];

pub const VK_ABC_0_Y: [u8; 32] = [
    0x17, 0x0f, 0xc9, 0x5a, 0x0b, 0x81, 0xb9, 0x60,
    0x14, 0x5a, 0x37, 0x4c, 0x54, 0x41, 0xfd, 0xa1,
    0x71, 0x3b, 0xaa, 0x2c, 0x68, 0xfe, 0x5d, 0x82,
    0x90, 0x6a, 0xbe, 0x3d, 0x17, 0xa7, 0x8e, 0x3c,
];

pub const VK_ABC_1_X: [u8; 32] = [
    0x2c, 0xb7, 0x4a, 0x0c, 0x83, 0x34, 0x1e, 0x68,
    0xf5, 0x0b, 0x89, 0x1a, 0x4a, 0x87, 0xfb, 0x9d,
    0xc4, 0xb3, 0x9e, 0x6a, 0x16, 0x1a, 0xfd, 0x12,
    0x17, 0x59, 0x30, 0xc5, 0x03, 0xf1, 0xd3, 0xfa,
];

pub const VK_ABC_1_Y: [u8; 32] = [
    0x07, 0x27, 0xaf, 0xd0, 0xd1, 0x91, 0xe0, 0x4d,
    0x7e, 0xbd, 0x95, 0x1b, 0xb4, 0x40, 0x66, 0x8a,
    0x57, 0x56, 0xd6, 0xbc, 0x6f, 0x4a, 0xbb, 0xb0,
    0xcc, 0xa6, 0xbb, 0x2a, 0x94, 0xfb, 0x12, 0x64,
];
/// A Groth16 verifying key: the four group elements of the pairing equation
/// and the input-commitment vector, one entry per public input plus one
/// constant term.
#[derive(Debug, Clone, PartialEq, Eq)]
pub struct VerifyingKey {
    pub alpha_g1: G1PointBytes,
    pub beta_g2: G2PointBytes,
    pub gamma_g2: G2PointBytes,
    pub delta_g2: G2PointBytes,
    pub gamma_abc_g1: Vec<G1PointBytes>,
}

/// Mathematical image of a verifying key.
#[verifier::ext_equal]
pub struct VerifyingKeyView {
    pub alpha_g1: G1PointView,
    pub beta_g2: G2PointView,
    pub gamma_g2: G2PointView,
    pub delta_g2: G2PointView,
    pub gamma_abc_g1: Seq<G1PointView>,
}

impl View for VerifyingKey {
    type V = VerifyingKeyView;

    open spec fn view(&self) -> VerifyingKeyView {
        VerifyingKeyView {
            alpha_g1: self.alpha_g1@,
            beta_g2: self.beta_g2@,
            gamma_g2: self.gamma_g2@,
            delta_g2: self.delta_g2@,
            gamma_abc_g1: self.gamma_abc_g1@.map_values(|p: G1PointBytes| p@),
        }
    }
}

/// The one verifying key this library checks proofs against.
pub open spec fn verifying_key_spec() -> VerifyingKeyView {
    VerifyingKeyView {
        alpha_g1: G1PointView { x: VK_ALPHA_G1_X@, y: VK_ALPHA_G1_Y@ },
        beta_g2: G2PointView {
            x_c0: VK_BETA_G2_X_C0@,
            x_c1: VK_BETA_G2_X_C1@,
            y_c0: VK_BETA_G2_Y_C0@,
            y_c1: VK_BETA_G2_Y_C1@,
        },
        gamma_g2: G2PointView {
            x_c0: VK_GAMMA_G2_X_C0@,
            x_c1: VK_GAMMA_G2_X_C1@,
            y_c0: VK_GAMMA_G2_Y_C0@,
            y_c1: VK_GAMMA_G2_Y_C1@,
        },
        delta_g2: G2PointView {
            x_c0: VK_DELTA_G2_X_C0@,
            x_c1: VK_DELTA_G2_X_C1@,
            y_c0: VK_DELTA_G2_Y_C0@,
            y_c1: VK_DELTA_G2_Y_C1@,
        },
        gamma_abc_g1: seq![
            G1PointView { x: VK_ABC_0_X@, y: VK_ABC_0_Y@ },
            G1PointView { x: VK_ABC_1_X@, y: VK_ABC_1_Y@ },
        ],
    }
}

/// Returns the fixed verifying key. Pure: every call yields the same
/// constants, and the input-commitment vector always has exactly two entries.
pub fn get_verifying_key() -> (r: VerifyingKey)
    ensures
        r@ == verifying_key_spec(),
        r.gamma_abc_g1@.len() == 2,
{
    let mut gamma_abc_g1: Vec<G1PointBytes> = Vec::new();
    gamma_abc_g1.push(G1PointBytes { x: VK_ABC_0_X, y: VK_ABC_0_Y });
    gamma_abc_g1.push(G1PointBytes { x: VK_ABC_1_X, y: VK_ABC_1_Y });
    let r = VerifyingKey {
        alpha_g1: G1PointBytes { x: VK_ALPHA_G1_X, y: VK_ALPHA_G1_Y },
        beta_g2: G2PointBytes {
            x_c0: VK_BETA_G2_X_C0,
            x_c1: VK_BETA_G2_X_C1,
            y_c0: VK_BETA_G2_Y_C0,
            y_c1: VK_BETA_G2_Y_C1,
        },
        gamma_g2: G2PointBytes {
            x_c0: VK_GAMMA_G2_X_C0,
            x_c1: VK_GAMMA_G2_X_C1,
            y_c0: VK_GAMMA_G2_Y_C0,
            y_c1: VK_GAMMA_G2_Y_C1,
        },
        delta_g2: G2PointBytes {
            x_c0: VK_DELTA_G2_X_C0,
            x_c1: VK_DELTA_G2_X_C1,
            y_c0: VK_DELTA_G2_Y_C0,
            y_c1: VK_DELTA_G2_Y_C1,
        },
        gamma_abc_g1,
    };
    proof {
        assert(r@.gamma_abc_g1 =~= verifying_key_spec().gamma_abc_g1);
        assert(r@ =~= verifying_key_spec());
    }
    r
}

} // verus!
