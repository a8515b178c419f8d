//! Groth16 proof verification over BN254 for a single flat request buffer.
//!
//! A request carries a proof, the public inputs and a verification key as
//! fixed-width big-endian fields without length prefixes. The buffer is cut
//! into its parts, the public inputs are folded into one curve point, and a
//! single multi-pairing decides acceptance.

pub mod curve;
pub mod error;
pub mod layout;
pub mod pairing;
pub mod pipeline;
pub mod prepare;

pub use pipeline::process_instruction;
