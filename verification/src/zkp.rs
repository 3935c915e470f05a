//! The zero-knowledge-proof math engine: the Chaum-Pedersen protocol steps
//! and the error type its arithmetic can surface.

use vstd::prelude::*;

pub mod chaum_pedersen;

verus! {

/// Failure of the arithmetic core. `MathOverflow` reports a modulus the
/// group arithmetic cannot work with; `CastError` reports an exponent that
/// does not fit the 32-bit range the engine accepts.
#[derive(Clone, Copy, Debug, PartialEq, Eq, Structural)]
pub enum ZKPError {
    MathOverflow,
    CastError,
}

} // verus!
