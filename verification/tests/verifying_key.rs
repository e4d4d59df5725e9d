//! The baked-in verifying key constants against the curve library's own
//! decimal parser: each big-endian coordinate must denote the same field
//! element as the ceremony's published decimal string.

use ark_bn254::Fq;
use ark_ff::PrimeField;
use receipt_verifier::vk::get_verifying_key;
use std::str::FromStr;

fn same_element(bytes: &[u8; 32], decimal: &str) {
    assert_eq!(
        Fq::from_be_bytes_mod_order(bytes),
        Fq::from_str(decimal).unwrap(),
        "coordinate mismatch for {decimal}"
    );
}

#[test]
fn alpha_g1_matches_ceremony() {
    let vk = get_verifying_key();
    same_element(
        &vk.alpha_g1.x,
        "20491192805390485299153009773594534940189261866228447918068658471970481763042",
    );
    same_element(
        &vk.alpha_g1.y,
        "9383485363053290200918347156157836566562967994039712273449902621266178545958",
    );
}

#[test]
fn beta_g2_matches_ceremony() {
    let vk = get_verifying_key();
    same_element(
        &vk.beta_g2.x_c0,
        "6375614351688725206403948262868962793625744043794305715222011528459656738731",
    );
    same_element(
        &vk.beta_g2.x_c1,
        "4252822878758300859123897981450591353533073413197771768651442665752259397132",
    );
    same_element(
        &vk.beta_g2.y_c0,
        "10505242626370262277552901082094356697409835680220590971873171140371331206856",
    );
    same_element(
        &vk.beta_g2.y_c1,
        "21847035105528745403288232691147584728191162732299865338377159692350059136679",
    );
}

#[test]
fn gamma_g2_matches_ceremony() {
    let vk = get_verifying_key();
    same_element(
        &vk.gamma_g2.x_c0,
        "10857046999023057135944570762232829481370756359578518086990519993285655852781",
    );
    same_element(
        &vk.gamma_g2.x_c1,
        "11559732032986387107991004021392285783925812861821192530917403151452391805634",
    );
    same_element(
        &vk.gamma_g2.y_c0,
        "8495653923123431417604973247489272438418190587263600148770280649306958101930",
    );
    same_element(
        &vk.gamma_g2.y_c1,
        "4082367875863433681332203403145435568316851327593401208105741076214120093531",
    );
}

#[test]
fn delta_g2_matches_ceremony() {
    let vk = get_verifying_key();
    same_element(
        &vk.delta_g2.x_c0,
        "19928663713463533589216209779412278386769407450988172849262535478593422929698",
    );
    same_element(
        &vk.delta_g2.x_c1,
        "19916519943909223643323234301580053157586699704876134064841182937085943926141",
    );
    same_element(
        &vk.delta_g2.y_c0,
        "4584600978911428195337731119171761277167808711062125916470525050324985708782",
    );
    same_element(
        &vk.delta_g2.y_c1,
        "903010326261527050999816348900764705196723158942686053018929539519969664840",
    );
}

#[test]
fn input_commitment_vector_matches_ceremony() {
    let vk = get_verifying_key();
    assert_eq!(vk.gamma_abc_g1.len(), 2);
    same_element(
        &vk.gamma_abc_g1[0].x,
        "6698887085900109660417671413804888867145870700073340970189635830129386206569",
    );
    same_element(
        &vk.gamma_abc_g1[0].y,
        "10431087902009508261375793061696708147989126018612269070732549055898651692604",
    );
    same_element(
        &vk.gamma_abc_g1[1].x,
        "20225609417084538563062516991929114218412992453664808591983416996515711931386",
    );
    same_element(
        &vk.gamma_abc_g1[1].y,
        "3236310410959095762960658876334609343091075204896196791007975095263664214628",
    );
}
