//! The seal parser: the fixed length precondition and the exact byte layout,
//! including the swapped extension-field halves of `B`.

use receipt_verifier::seal::{parse_seal, DecodeError};

fn patterned_seal() -> Vec<u8> {
    (0..256).map(|i| i as u8).collect()
}

#[test]
fn rejects_empty_seal() {
    assert_eq!(
        parse_seal(&[]),
        Err(DecodeError::WrongLength { expected: 256, actual: 0 })
    );
}

#[test]
fn rejects_truncated_seal() {
    let seal = patterned_seal();
    assert_eq!(
        parse_seal(&seal[..255]),
        Err(DecodeError::WrongLength { expected: 256, actual: 255 })
    );
}

#[test]
fn rejects_overlong_seal() {
    let mut seal = patterned_seal();
    seal.push(0);
    assert_eq!(
        parse_seal(&seal),
        Err(DecodeError::WrongLength { expected: 256, actual: 257 })
    );
}

#[test]
fn routes_coordinates_by_fixed_offsets() {
    let seal = patterned_seal();
    let proof = parse_seal(&seal).unwrap();
    assert_eq!(&proof.a.x[..], &seal[0..32]);
    assert_eq!(&proof.a.y[..], &seal[32..64]);
    assert_eq!(&proof.c.x[..], &seal[192..224]);
    assert_eq!(&proof.c.y[..], &seal[224..256]);
}

#[test]
fn swaps_extension_halves_of_b() {
    let seal = patterned_seal();
    let proof = parse_seal(&seal).unwrap();
    assert_eq!(&proof.b.x_c0[..], &seal[96..128]);
    assert_eq!(&proof.b.x_c1[..], &seal[64..96]);
    assert_eq!(&proof.b.y_c0[..], &seal[160..192]);
    assert_eq!(&proof.b.y_c1[..], &seal[128..160]);
}
