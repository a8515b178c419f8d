use vstd::prelude::*;
use solana_program::alt_bn128::prelude::{alt_bn128_addition, alt_bn128_multiplication};
use crate::curve::{g1_product, g1_sum};
use crate::error::VerifyError;
use crate::layout::{copy_bytes, PublicInputs, VerificationKey};

verus! {

/// Appends the bytes of `part` to `out`.
pub fn append_bytes(out: &mut Vec<u8>, part: &[u8])
    ensures
        final(out)@ == old(out)@ + part@,
{
    let mut i: usize = 0;
    while i < part.len()
        invariant
            i <= part.len(),
            out@ == old(out)@ + part@.subrange(0, i as int),
        decreases part.len() - i,
    {
        out.push(part[i]);
        i += 1;
        assert(out@ =~= old(out)@ + part@.subrange(0, i as int));
    }
    assert(part@.subrange(0, part@.len() as int) =~= part@);
}

/// The operand buffer of a scalar multiplication: the point, then the scalar.
pub fn multiplication_operands(point: &[u8; 64], scalar: &[u8; 32]) -> (out: Vec<u8>)
    ensures
        out@ == point@ + scalar@,
{
    let mut out: Vec<u8> = Vec::new();
    append_bytes(&mut out, point.as_slice());
    append_bytes(&mut out, scalar.as_slice());
    out
}

/// The operand buffer of an addition: the fresh term, then the running sum.
pub fn addition_operands(term: &[u8], acc: &[u8; 64]) -> (out: Vec<u8>)
    ensures
        out@ == term@ + acc@,
{
    let mut out: Vec<u8> = Vec::new();
    append_bytes(&mut out, term);
    append_bytes(&mut out, acc.as_slice());
    out
}

/// A sum is taken as the next accumulator only if it is one encoded point.
pub open spec fn as_point(sum: Seq<u8>) -> Option<Seq<u8>> {
    if sum.len() == 64 {
        Some(sum)
    } else {
        None
    }
}

/// Takes the bytes returned by an addition as the next accumulator.
pub fn point_from_sum(sum: &[u8]) -> (r: Result<[u8; 64], VerifyError>)
    ensures
        r is Ok <==> as_point(sum@) is Some,
        r matches Ok(p) ==> as_point(sum@) == Some(p@),
        r matches Err(e) ==> e == VerifyError::MalformedInput,
{
    if sum.len() != 64 {
        return Err(VerifyError::MalformedInput);
    }
    let p: [u8; 64] = copy_bytes(sum, 0);
    assert(sum@.subrange(0, 64) =~= sum@);
    Ok(p)
}

/// One step of the weighted sum: `scalar * point + acc`, with the product as
/// first operand of the addition. Nothing where either operation rejects its
/// operands or the sum is not one encoded point.
pub open spec fn weighted_step(acc: Seq<u8>, point: Seq<u8>, scalar: Seq<u8>) -> Option<Seq<u8>> {
    match g1_product(point + scalar) {
        None => None,
        Some(term) => match g1_sum(term + acc) {
            None => None,
            Some(sum) => as_point(sum),
        },
    }
}

/// The accumulator after the first `n` public inputs: `ic[0]`, then one
/// `weighted_step` per input `i` with point `ic[i + 1]`, in order.
pub open spec fn folded(ic: Seq<Seq<u8>>, inputs: Seq<Seq<u8>>, n: nat) -> Option<Seq<u8>>
    decreases n,
{
    if n == 0 {
        Some(ic[0])
    } else {
        match folded(ic, inputs, (n - 1) as nat) {
            None => None,
            Some(acc) => weighted_step(acc, ic[n as int], inputs[n - 1]),
        }
    }
}

/// The prepared input point `ic[0] + sum of inputs[i] * ic[i + 1]`, or the
/// reason there is none.
pub open spec fn prepared_inputs(ic: Seq<Seq<u8>>, inputs: Seq<Seq<u8>>) -> Result<
    Seq<u8>,
    VerifyError,
> {
    if inputs.len() + 1 != ic.len() {
        Err(VerifyError::MalformedInput)
    } else {
        match folded(ic, inputs, inputs.len()) {
            Some(point) => Ok(point),
            None => Err(VerifyError::MalformedInput),
        }
    }
}

/// Folds the public inputs and the key's `ic` points into one G1 point.
pub fn prepare_public_inputs(inputs: &PublicInputs, vk: &VerificationKey) -> (r: Result<
    [u8; 64],
    VerifyError,
>)
    ensures
        r is Ok <==> prepared_inputs(vk@.ic, inputs@) is Ok,
        r matches Ok(p) ==> prepared_inputs(vk@.ic, inputs@) == Ok::<Seq<u8>, VerifyError>(p@),
        r matches Err(e) ==> e == VerifyError::MalformedInput,
        inputs@.len() + 1 != vk@.ic.len() ==> r is Err,
        inputs@.len() == 0 && vk@.ic.len() == 1 ==> (r matches Ok(p) && p@ == vk@.ic[0]),
{
    let n = inputs.0.len();
    if vk.vk_ic.len() == 0 || n != vk.vk_ic.len() - 1 {
        return Err(VerifyError::MalformedInput);
    }
    let ghost ic = vk@.ic;
    let ghost scalars = inputs@;
    let mut acc: [u8; 64] = vk.vk_ic[0];
    let mut i: usize = 0;
    while i < n
        invariant
            n == inputs.0.len(),
            n + 1 == vk.vk_ic.len(),
            ic == vk@.ic,
            scalars == inputs@,
            i <= n,
            folded(ic, scalars, i as nat) == Some(acc@),
        decreases n - i,
    {
        let operands = multiplication_operands(&vk.vk_ic[i + 1], &inputs.0[i]);
        let term = match alt_bn128_multiplication(operands.as_slice()) {
            Ok(term) => term,
            Err(_) => {
                proof {
                    lemma_failure_is_final(ic, scalars, (i + 1) as nat, n as nat);
                }
                return Err(VerifyError::MalformedInput);
            },
        };
        let operands = addition_operands(term.as_slice(), &acc);
        let sum = match alt_bn128_addition(operands.as_slice()) {
            Ok(sum) => sum,
            Err(_) => {
                proof {
                    lemma_failure_is_final(ic, scalars, (i + 1) as nat, n as nat);
                }
                return Err(VerifyError::MalformedInput);
            },
        };
        acc = match point_from_sum(sum.as_slice()) {
            Ok(next) => next,
            Err(e) => {
                proof {
                    lemma_failure_is_final(ic, scalars, (i + 1) as nat, n as nat);
                }
                return Err(e);
            },
        };
        i += 1;
    }
    Ok(acc)
}

/// Once a step has failed, every longer fold fails too.
pub proof fn lemma_failure_is_final(ic: Seq<Seq<u8>>, inputs: Seq<Seq<u8>>, k: nat, n: nat)
    requires
        k <= n,
        folded(ic, inputs, k) is None,
    ensures
        folded(ic, inputs, n) is None,
    decreases n,
{
    if k < n {
        lemma_failure_is_final(ic, inputs, k, (n - 1) as nat);
    }
}

/// A key and inputs whose counts do not correspond are rejected whatever the
/// curve operations would return.
pub proof fn lemma_count_mismatch_rejected(ic: Seq<Seq<u8>>, inputs: Seq<Seq<u8>>)
    requires
        ic.len() != inputs.len() + 1,
    ensures
        prepared_inputs(ic, inputs) == Err::<Seq<u8>, VerifyError>(VerifyError::MalformedInput),
{
}

/// Without public inputs the prepared point is the constant term itself:
/// no curve operation takes part.
pub proof fn lemma_no_inputs_constant_term(ic: Seq<Seq<u8>>, inputs: Seq<Seq<u8>>)
    requires
        inputs.len() == 0,
        ic.len() == 1,
    ensures
        prepared_inputs(ic, inputs) == Ok::<Seq<u8>, VerifyError>(ic[0]),
{
}

} // verus!
