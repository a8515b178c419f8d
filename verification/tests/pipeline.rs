use solana_zk_verifier::error::VerifyError;
use solana_zk_verifier::layout::{
    parse_proof, parse_public_inputs, parse_verification_key_at, NoirProof, PublicInputs,
    VerificationKey,
};
use solana_zk_verifier::pipeline::verify_request;
use solana_zk_verifier::prepare::prepare_public_inputs;
use solana_zk_verifier::process_instruction;

const G1_1: &str = "00000000000000000000000000000000000000000000000000000000000000010000000000000000000000000000000000000000000000000000000000000002";
const G1_2: &str = "030644e72e131a029b85045b68181585d97816a916871ca8d3c208c16d87cfd315ed738c0e0a7c92e7845f96b2ae9c0a68a6a449e3538fc7ff3ebf7a5a18a2c4";
const G1_3: &str = "0769bf9ac56bea3ff40232bcb1b6bd159315d84715b8e679f2d355961915abf02ab799bee0489429554fdb7c8d086475319e63b40b9c5b57cdf1ff3dd9fe2261";
const G1_4: &str = "06a7b64af8f414bcbeef455b1da5208c9b592b83ee6599824caa6d2ee9141a7608e74e438cee31ac104ce59b94e45fe98a97d8f8a6e75664ce88ef5a41e72fbc";
const G1_6: &str = "09f4ca411a3f52f4e0792fd9e792779856719215d3b32a762afe3d5b8c684af90d8ef3d795acd4b35d4366ab22e4ad335273aa59429e26929d0f64583474d9c8";
const G1_32: &str = "0ac610b573e9fb98deaf5aa48feb447536418ddc4cefd17c277c852a2a02a4131940e395f5eeaaf3b73a54a9db9910c3b7f907cad7f55137fb0c3847a682d315";
const G1_53: &str = "2a82de6403f176ebf924b2a21c45cf3d7a925f5b91cd17053ddaa4aa5fc0f8a805388612b753a376eccc8bed6b11b2c58e4cdbce56b08bc3bf5369746c57872b";
const G1_NEG_53: &str = "2a82de6403f176ebf924b2a21c45cf3d7a925f5b91cd17053ddaa4aa5fc0f8a82b2bc86029ddfcb2cb83b9c9166fa59809348ec311c13ec97ccd22a26c25761c";
const G2_2: &str = "203e205db4f19b37b60121b83a7333706db86431c6d835849957ed8c3928ad7927dc7234fd11d3e8c36c59277c3e6f149d5cd3cfa9a62aee49f8130962b4b3b9195e8aa5b7827463722b8c153931579d3505566b4edf48d498e185f0509de15204bb53b8977e5f92a0bc372742c4830944a59b4fe6b1c0466e2a6dad122b5d2e";
const G2_3: &str = "1014772f57bb9742735191cd5dcfe4ebbc04156b6878a0a7c9824f32ffb66e8506064e784db10e9051e52826e192715e8d7e478cb09a5e0012defa0694fbc7f5021e2335f3354bb7922ffcc2f38d3323dd9453ac49b55441452aeaca147711b2058e1d5681b5b9e0074b0f9c8d2c68a069b920d74521e79765036d57666c5597";
const G2_5: &str = "0a09ccf561b55fd99d1c1208dee1162457b57ac5af3759d50671e510e428b2a12e539c423b302d13f4e5773c603948eaf5db5df8ae8a9a9113708390a06410d819b763513924a736e4eebd0d78c91c1bc1d657fee4214057d21414011cfcc7632f8d9f9ab83727c77a2fec063cb7b6e5eb23044ccf535ad49d46d394fb6f6bf6";

fn hex(text: &str) -> Vec<u8> {
    let digits: Vec<u8> = text
        .bytes()
        .map(|c| match c {
            b'0'..=b'9' => c - b'0',
            b'a'..=b'f' => c - b'a' + 10,
            _ => panic!("not a hex digit"),
        })
        .collect();
    digits.chunks(2).map(|pair| pair[0] * 16 + pair[1]).collect()
}

fn g1(text: &str) -> [u8; 64] {
    hex(text).try_into().unwrap()
}

fn scalar(value: u64) -> [u8; 32] {
    let mut out = [0u8; 32];
    out[24..].copy_from_slice(&value.to_be_bytes());
    out
}

fn g2(text: &str) -> [u8; 128] {
    hex(text).try_into().unwrap()
}

// Public inputs 5 and 7 over ic = [G, 2G, 3G] prepare to 32G, and
// e(-53G, 2H) e(32G, 2H) e(4G, 3H) e(6G, 5H) = 1.
fn valid_parts() -> (NoirProof, PublicInputs, VerificationKey) {
    let proof = NoirProof { proof_a: g1(G1_NEG_53), proof_b: g2(G2_2), proof_c: g1(G1_4) };
    let inputs = PublicInputs(vec![scalar(5), scalar(7)]);
    let vk = VerificationKey {
        vk_alpha_g1: g1(G1_6),
        vk_beta_g2: g2(G2_5),
        vk_gamma_g2: g2(G2_2),
        vk_delta_g2: g2(G2_3),
        vk_ic: vec![g1(G1_1), g1(G1_2), g1(G1_3)],
    };
    (proof, inputs, vk)
}

/// Proof, inputs, fixed key points and ic points back to back.
fn wire(proof: &NoirProof, inputs: &PublicInputs, vk: &VerificationKey) -> Vec<u8> {
    let mut out = Vec::new();
    out.extend_from_slice(&proof.proof_a);
    out.extend_from_slice(&proof.proof_b);
    out.extend_from_slice(&proof.proof_c);
    for input in &inputs.0 {
        out.extend_from_slice(input);
    }
    out.extend_from_slice(&vk.vk_alpha_g1);
    out.extend_from_slice(&vk.vk_beta_g2);
    out.extend_from_slice(&vk.vk_gamma_g2);
    out.extend_from_slice(&vk.vk_delta_g2);
    for point in &vk.vk_ic {
        out.extend_from_slice(point);
    }
    out
}

#[test]
fn valid_parts_are_accepted() {
    let (proof, inputs, vk) = valid_parts();
    assert_eq!(prepare_public_inputs(&inputs, &vk).unwrap(), g1(G1_32));
    assert_eq!(verify_request(&proof, &inputs, &vk), Ok(()));
}

#[test]
fn valid_parts_without_inputs_are_accepted() {
    let (proof, _, mut vk) = valid_parts();
    vk.vk_ic = vec![g1(G1_32)];
    assert_eq!(verify_request(&proof, &PublicInputs(vec![]), &vk), Ok(()));
}

#[test]
fn changed_input_fails_verification() {
    let (proof, mut inputs, vk) = valid_parts();
    inputs.0[1] = scalar(8);
    assert_eq!(verify_request(&proof, &inputs, &vk), Err(VerifyError::VerificationFailed));
}

#[test]
fn inputs_in_other_order_fail_verification() {
    let (proof, mut inputs, vk) = valid_parts();
    inputs.0.swap(0, 1);
    assert_eq!(verify_request(&proof, &inputs, &vk), Err(VerifyError::VerificationFailed));
}

#[test]
fn other_curve_point_for_a_fails_verification() {
    let (mut proof, inputs, vk) = valid_parts();
    proof.proof_a = g1(G1_53);
    assert_eq!(verify_request(&proof, &inputs, &vk), Err(VerifyError::VerificationFailed));
}

#[test]
fn inverted_byte_of_a_is_refused_not_accepted() {
    let (proof, inputs, vk) = valid_parts();
    for at in 0..64 {
        let mut changed = proof.clone();
        changed.proof_a[at] ^= 0xff;
        assert_eq!(verify_request(&changed, &inputs, &vk), Err(VerifyError::MalformedInput));
    }
}

#[test]
fn missing_ic_point_is_malformed() {
    let (proof, inputs, mut vk) = valid_parts();
    vk.vk_ic.pop();
    assert_eq!(verify_request(&proof, &inputs, &vk), Err(VerifyError::MalformedInput));
}

#[test]
fn parts_read_at_their_offsets_are_accepted() {
    let (proof, inputs, vk) = valid_parts();
    let data = wire(&proof, &inputs, &vk);
    assert_eq!(data.len(), 256 + 2 * 32 + 448 + 3 * 64);
    let key_start = 256 + 2 * 32;
    let read_proof = parse_proof(&data).unwrap();
    let read_inputs = parse_public_inputs(&data[..key_start]).unwrap();
    let read_key = parse_verification_key_at(&data, key_start).unwrap();
    assert_eq!(read_proof, proof);
    assert_eq!(read_inputs, inputs);
    assert_eq!(read_key, vk);
    assert_eq!(verify_request(&read_proof, &read_inputs, &read_key), Ok(()));
}

#[test]
fn request_finds_no_key_behind_its_last_row() {
    // The whole tail is read as public inputs, and the key is looked for
    // where the tail ends.
    let (proof, inputs, vk) = valid_parts();
    let data = wire(&proof, &inputs, &vk);
    assert_eq!(parse_public_inputs(&data).unwrap().0.len(), (data.len() - 256) / 32);
    assert_eq!(process_instruction(&data), Err(VerifyError::MalformedInput));
}

#[test]
fn short_request_is_malformed() {
    for len in [0usize, 1, 8, 255] {
        assert_eq!(process_instruction(&vec![0u8; len]), Err(VerifyError::MalformedInput));
    }
}

#[test]
fn eight_byte_request_is_malformed() {
    let x: u32 = 23;
    let y: u32 = 19;
    let instruction_data = [x.to_le_bytes(), y.to_le_bytes()].concat();
    assert_eq!(process_instruction(&instruction_data), Err(VerifyError::MalformedInput));
}

#[test]
fn misaligned_request_is_malformed() {
    for len in [257usize, 300, 767, 769, 1000] {
        assert_eq!(process_instruction(&vec![0u8; len]), Err(VerifyError::MalformedInput));
    }
}

#[test]
fn aligned_request_is_malformed() {
    for len in [256usize, 288, 704, 768, 864, 960, 4096] {
        assert_eq!(process_instruction(&vec![0u8; len]), Err(VerifyError::MalformedInput));
    }
}

#[test]
fn same_request_same_answer() {
    let (proof, inputs, vk) = valid_parts();
    let data = wire(&proof, &inputs, &vk);
    assert_eq!(process_instruction(&data), process_instruction(&data.clone()));
    assert_eq!(verify_request(&proof, &inputs, &vk), verify_request(&proof, &inputs, &vk));
}
