//! Keyed record stores and the record types they hold: per-identity
//! credentials and per-identity outstanding challenges.

use vstd::prelude::*;

pub mod error;
pub mod in_memory;

verus! {

type DBResult<T> = Result<T, error::RepositoryError>;

/// The credential record of a registered identity: the two public
/// discrete-log values derived once from the prover's secret.
pub struct UserDTO {
    pub username: String,
    pub y1: i64,
    pub y2: i64,
}

impl UserDTO {
    pub fn new(username: String, y1: i64, y2: i64) -> (r: Self)
        ensures
            r == (UserDTO { username, y1, y2 }),
    {
        Self { username, y1, y2 }
    }
}

impl Clone for UserDTO {
    fn clone(&self) -> (r: Self)
        ensures
            r == *self,
    {
        UserDTO { username: self.username.clone(), y1: self.y1, y2: self.y2 }
    }
}

/// The per-login challenge record: the prover's ephemeral commitments and
/// the challenge scalar issued against them.
pub struct ChallengeDTO {
    pub username: String,
    pub r1: i64,
    pub r2: i64,
    pub c: i64,
}

impl ChallengeDTO {
    pub fn new(username: String, r1: i64, r2: i64, c: i64) -> (r: Self)
        ensures
            r == (ChallengeDTO { username, r1, r2, c }),
    {
        Self { username, r1, r2, c }
    }
}

impl Clone for ChallengeDTO {
    fn clone(&self) -> (r: Self)
        ensures
            r == *self,
    {
        ChallengeDTO { username: self.username.clone(), r1: self.r1, r2: self.r2, c: self.c }
    }
}

} // verus!
