//! The curve arithmetic is not part of this library. It is done by
//! `solana_program::alt_bn128`, and what is stated of it here is believed,
//! not proved: each operation is a function of its operand bytes. Nothing
//! is claimed about which bytes come back.

use vstd::prelude::*;
use solana_program::alt_bn128::prelude::{
    alt_bn128_addition,
    alt_bn128_multiplication,
    alt_bn128_pairing,
};

verus! {

/// `solana_program::alt_bn128::AltBn128Error`, carried through unread: every
/// failure of a curve operation is treated alike.
#[verifier::external_type_specification]
#[verifier::external_body]
pub struct ExAltBn128Error(solana_program::alt_bn128::AltBn128Error);

/// What `alt_bn128_addition` returns for an operand buffer: the bytes of
/// its `Ok`, or nothing where it returns an error.
pub uninterp spec fn g1_sum(operands: Seq<u8>) -> Option<Seq<u8>>;

/// What `alt_bn128_multiplication` returns for an operand buffer: the bytes
/// of its `Ok`, or nothing where it returns an error.
pub uninterp spec fn g1_product(operands: Seq<u8>) -> Option<Seq<u8>>;

/// What `alt_bn128_pairing` returns for an operand buffer: the bytes of its
/// `Ok`, or nothing where it returns an error.
pub uninterp spec fn pairing_word(operands: Seq<u8>) -> Option<Seq<u8>>;

/// Trusted: `solana_program::alt_bn128::prelude::alt_bn128_addition` reads
/// nothing but `input`, so equal inputs get equal answers. It returns `Ok`
/// exactly where `g1_sum` has a value, and then that value.
pub assume_specification[ alt_bn128_addition ](input: &[u8]) -> (r: Result<
    Vec<u8>,
    solana_program::alt_bn128::AltBn128Error,
>)
    ensures
        r is Ok <==> g1_sum(input@) is Some,
        r matches Ok(out) ==> g1_sum(input@) == Some(out@),
;

/// Trusted: `solana_program::alt_bn128::prelude::alt_bn128_multiplication`
/// reads nothing but `input`, so equal inputs get equal answers. It returns
/// `Ok` exactly where `g1_product` has a value, and then that value.
pub assume_specification[ alt_bn128_multiplication ](input: &[u8]) -> (r: Result<
    Vec<u8>,
    solana_program::alt_bn128::AltBn128Error,
>)
    ensures
        r is Ok <==> g1_product(input@) is Some,
        r matches Ok(out) ==> g1_product(input@) == Some(out@),
;

/// Trusted: `solana_program::alt_bn128::prelude::alt_bn128_pairing` reads
/// nothing but `input`, so equal inputs get equal answers. It returns `Ok`
/// exactly where `pairing_word` has a value, and then that value.
pub assume_specification[ alt_bn128_pairing ](input: &[u8]) -> (r: Result<
    Vec<u8>,
    solana_program::alt_bn128::AltBn128Error,
>)
    ensures
        r is Ok <==> pairing_word(input@) is Some,
        r matches Ok(out) ==> pairing_word(input@) == Some(out@),
;

} // verus!
