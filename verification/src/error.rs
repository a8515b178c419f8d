use vstd::prelude::*;

verus! {

/// Why a request was not accepted.
#[derive(Clone, Copy, Debug, PartialEq, Eq, Structural)]
pub enum VerifyError {
    /// The buffer is too short or misaligned, the key does not match the
    /// number of public inputs, or a curve operation rejected its operands.
    MalformedInput,
    /// Every curve operation succeeded and the pairing product is not one.
    VerificationFailed,
}

} // verus!
