use vstd::prelude::*;
use crate::curve::pairing_word;
use crate::error::VerifyError;
use crate::layout::{
    key_fields,
    parse_proof,
    parse_public_inputs,
    parse_verification_key,
    proof_fields,
    public_input_rows,
    KeyFields,
    NoirProof,
    ProofFields,
    PublicInputs,
    VerificationKey,
};
use crate::pairing::{pairing_operands, verdict, verify_proof};
use crate::prepare::{prepare_public_inputs, prepared_inputs};

verus! {

/// The answer for a proof, public inputs and key that are already cut out of
/// a buffer: the inputs are prepared, then the pairing equation is checked.
pub open spec fn parts_outcome(proof: ProofFields, inputs: Seq<Seq<u8>>, key: KeyFields) -> Result<
    (),
    VerifyError,
> {
    match prepared_inputs(key.ic, inputs) {
        Err(e) => Err(e),
        Ok(prepared) => verdict(pairing_word(pairing_operands(proof, prepared, key))),
    }
}

/// The answer for a request buffer: its three parts are read, each from its
/// place as the buffer's length fixes it, and a part that cannot be read
/// makes the request malformed.
pub open spec fn request_outcome(data: Seq<u8>) -> Result<(), VerifyError> {
    match (proof_fields(data), public_input_rows(data), key_fields(data)) {
        (Some(proof), Some(inputs), Some(key)) => parts_outcome(proof, inputs, key),
        _ => Err(VerifyError::MalformedInput),
    }
}

/// Prepares the public inputs and checks the pairing equation.
pub fn verify_request(proof: &NoirProof, inputs: &PublicInputs, vk: &VerificationKey) -> (r: Result<
    (),
    VerifyError,
>)
    ensures
        r == parts_outcome(proof@, inputs@, vk@),
{
    let prepared = match prepare_public_inputs(inputs, vk) {
        Ok(prepared) => prepared,
        Err(e) => {
            return Err(e);
        },
    };
    verify_proof(proof, &prepared, vk)
}

/// Verifies one request: parses the buffer, prepares the public inputs and
/// checks the pairing equation.
pub fn process_instruction(instruction_data: &[u8]) -> (r: Result<(), VerifyError>)
    ensures
        r == request_outcome(instruction_data@),
{
    let proof = match parse_proof(instruction_data) {
        Ok(proof) => proof,
        Err(e) => {
            return Err(e);
        },
    };
    let public_inputs = match parse_public_inputs(instruction_data) {
        Ok(public_inputs) => public_inputs,
        Err(e) => {
            return Err(e);
        },
    };
    let vk = match parse_verification_key(instruction_data) {
        Ok(vk) => vk,
        Err(e) => {
            return Err(e);
        },
    };
    verify_request(&proof, &public_inputs, &vk)
}

/// A buffer shorter than a proof is malformed.
pub proof fn lemma_short_buffer_malformed(data: Seq<u8>)
    requires
        data.len() < 256,
    ensures
        proof_fields(data) is None,
        request_outcome(data) == Err::<(), VerifyError>(VerifyError::MalformedInput),
{
}

/// The answer depends on the bytes of the request and on nothing else: equal
/// buffers are read as equal parts and answered alike.
pub proof fn lemma_outcome_determined_by_bytes(first: &[u8], second: &[u8])
    requires
        first@ == second@,
    ensures
        proof_fields(first@) == proof_fields(second@),
        public_input_rows(first@) == public_input_rows(second@),
        key_fields(first@) == key_fields(second@),
        request_outcome(first@) == request_outcome(second@),
{
}

/// The key is looked for behind the last whole 32-byte row of the buffer,
/// where fewer than 32 bytes are left: it is never found, and every request
/// is answered as malformed.
pub proof fn lemma_no_request_carries_a_key(data: Seq<u8>)
    ensures
        request_outcome(data) == Err::<(), VerifyError>(VerifyError::MalformedInput),
{
}

} // verus!
