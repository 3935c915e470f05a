//! Failures the gateway reports to its HTTP callers.

use vstd::prelude::*;

use crate::zkp::ZKPError;

verus! {

/// Everything a gateway call can fail with, from the prover's point of
/// view.
#[derive(Clone, Copy, Debug, PartialEq, Eq, Structural)]
pub enum AuthClientError {
    AuthenticationFailure,
    ConnectionFailed,
    InternalServerError,
    ServerMathError,
    UserAlreadyRegistered,
    UserNotFound,
    UnexpectedResponse,
}

impl From<ZKPError> for AuthClientError {
    fn from(_val: ZKPError) -> (r: Self) {
        AuthClientError::ServerMathError
    }
}

impl vstd::std_specs::convert::FromSpecImpl<ZKPError> for AuthClientError {
    open spec fn obeys_from_spec() -> bool {
        true
    }

    open spec fn from_spec(_v: ZKPError) -> Self {
        AuthClientError::ServerMathError
    }
}

} // verus!
