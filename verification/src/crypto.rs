//! The challenge-engine seam: a trait for drawing challenge scalars and
//! checking responses, so that the orchestrating code can run against a
//! secure random source in production and a deterministic engine in tests.

use vstd::prelude::*;

pub mod chaum_pedersen;

verus! {

/// A zero-knowledge-proof authentication engine: it hands out challenge
/// scalars and checks responses against a credential and a commitment pair.
pub trait ZKPAuth {
    /// Whether the engine's parameters admit drawing and checking
    /// challenges.
    spec fn ready(&self) -> bool;

    /// What every challenge drawn by this engine satisfies.
    spec fn challenge_valid(&self, c: i64) -> bool;

    /// The exact outcome of checking a response `s` under challenge `c`
    /// against the credential `(y1, y2)` and the commitments `(r1, r2)`.
    spec fn verify_spec(&self, y1: i64, y2: i64, r1: i64, r2: i64, c: i64, s: i64) -> bool;

    fn create_auth_challenge(&self) -> (c: i64)
        ensures
            self.ready() ==> self.challenge_valid(c),
    ;

    fn verify_auth_challenge(&self, y1: i64, y2: i64, r1: i64, r2: i64, c: i64, s: i64) -> (r:
        bool)
        requires
            self.ready(),
        ensures
            r == self.verify_spec(y1, y2, r1, r2, c, s),
    ;
}

} // verus!
