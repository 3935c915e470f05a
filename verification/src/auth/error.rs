//! Failures of the authentication orchestrator, and how store and engine
//! failures map into them.

use vstd::prelude::*;

use crate::repository::error::RepositoryError;
use crate::zkp::ZKPError;

verus! {

/// The typed outcomes of a failed orchestrator operation.
#[derive(Clone, Copy, Debug, PartialEq, Eq, Structural)]
pub enum AuthActorError {
    AuthChallengeNotFound,
    AuthChallengeFailed,
    UserAlreadyRegistered,
    UserNotFound,
    ZKPMathError,
}

impl From<RepositoryError> for AuthActorError {
    fn from(_val: RepositoryError) -> (r: Self) {
        AuthActorError::UserAlreadyRegistered
    }
}

impl vstd::std_specs::convert::FromSpecImpl<RepositoryError> for AuthActorError {
    open spec fn obeys_from_spec() -> bool {
        true
    }

    open spec fn from_spec(_v: RepositoryError) -> Self {
        AuthActorError::UserAlreadyRegistered
    }
}

impl From<ZKPError> for AuthActorError {
    fn from(_val: ZKPError) -> (r: Self) {
        AuthActorError::ZKPMathError
    }
}

impl vstd::std_specs::convert::FromSpecImpl<ZKPError> for AuthActorError {
    open spec fn obeys_from_spec() -> bool {
        true
    }

    open spec fn from_spec(_v: ZKPError) -> Self {
        AuthActorError::ZKPMathError
    }
}

} // verus!
