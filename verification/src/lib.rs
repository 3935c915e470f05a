//! Password-less authentication built on a Chaum-Pedersen zero-knowledge
//! proof: a prover shows knowledge of a secret exponent by exchanging a
//! commitment, a challenge and a response, checked against two public
//! discrete-log values. All group arithmetic reduces modulo the configured
//! modulus at every step.

pub mod auth;
pub mod crypto;
mod modmath;
pub mod repository;
pub mod router;
pub mod zkp;

pub use zkp::ZKPError;
