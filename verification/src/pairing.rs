use vstd::prelude::*;
use solana_program::alt_bn128::prelude::alt_bn128_pairing;
use crate::curve::pairing_word;
use crate::error::VerifyError;
use crate::layout::{KeyFields, NoirProof, ProofFields, VerificationKey};
use crate::prepare::append_bytes;

verus! {

/// The operand buffer of the pairing check: four (G1, G2) pairs in the order
/// `(a, b)`, `(prepared, gamma)`, `(c, delta)`, `(alpha, beta)`.
pub open spec fn pairing_operands(proof: ProofFields, prepared: Seq<u8>, key: KeyFields) -> Seq<u8> {
    proof.a + proof.b + prepared + key.gamma_g2 + proof.c + key.delta_g2 + key.alpha_g1
        + key.beta_g2
}

/// Lays out the four pairs of the Groth16 equation for the pairing check.
pub fn pairing_input(proof: &NoirProof, prepared_inputs: &[u8; 64], vk: &VerificationKey) -> (out:
    Vec<u8>)
    ensures
        out@ == pairing_operands(proof@, prepared_inputs@, vk@),
        out@.len() == 768,
{
    let mut out: Vec<u8> = Vec::new();
    append_bytes(&mut out, proof.proof_a.as_slice());
    append_bytes(&mut out, proof.proof_b.as_slice());
    append_bytes(&mut out, prepared_inputs.as_slice());
    append_bytes(&mut out, vk.vk_gamma_g2.as_slice());
    append_bytes(&mut out, proof.proof_c.as_slice());
    append_bytes(&mut out, vk.vk_delta_g2.as_slice());
    append_bytes(&mut out, vk.vk_alpha_g1.as_slice());
    append_bytes(&mut out, vk.vk_beta_g2.as_slice());
    out
}

/// How the outcome of the pairing check is read: a rejected operand buffer
/// is malformed input; a 32-byte word that ends in 1 accepts; anything else
/// is a failed verification.
pub open spec fn verdict(outcome: Option<Seq<u8>>) -> Result<(), VerifyError> {
    match outcome {
        None => Err(VerifyError::MalformedInput),
        Some(word) => if word.len() == 32 && word[31] == 1 {
            Ok(())
        } else {
            Err(VerifyError::VerificationFailed)
        },
    }
}

/// Reads the outcome of a pairing check: `None` where the check rejected
/// its operands, else the word it returned.
pub fn judge(outcome: Option<&[u8]>) -> (r: Result<(), VerifyError>)
    ensures
        r == verdict(
            match outcome {
                Some(word) => Some(word@),
                None => None,
            },
        ),
{
    match outcome {
        None => Err(VerifyError::MalformedInput),
        Some(word) => {
            if word.len() == 32 && word[31] == 1 {
                Ok(())
            } else {
                Err(VerifyError::VerificationFailed)
            }
        },
    }
}

/// Checks the Groth16 equation for a proof, its prepared inputs and a key.
pub fn verify_proof(proof: &NoirProof, prepared_inputs: &[u8; 64], vk: &VerificationKey) -> (r:
    Result<(), VerifyError>)
    ensures
        r == verdict(pairing_word(pairing_operands(proof@, prepared_inputs@, vk@))),
{
    let operands = pairing_input(proof, prepared_inputs, vk);
    match alt_bn128_pairing(operands.as_slice()) {
        Ok(word) => judge(Some(word.as_slice())),
        Err(_) => judge(None),
    }
}

} // verus!
