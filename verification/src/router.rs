//! The client-side helpers of the HTTP gateway: the request and response
//! records it exchanges, and the registration computation it performs on
//! behalf of a prover.

use vstd::prelude::*;

pub mod error;

use crate::zkp::chaum_pedersen::{exp_in_range, response_value, ChaumPedersenProtocol};
use error::AuthClientError;

verus! {

use vstd::arithmetic::power::pow;

/// A request to derive registration data: an identity and its secret
/// exponent.
pub struct RegisterCalculateRequest {
    pub user: String,
    pub x: i64,
}

/// The derived registration data: the identity and its two public
/// discrete-log values.
pub struct RegisterCalculateResponse {
    pub user: String,
    pub y1: i64,
    pub y2: i64,
}

/// The payload of a registration call: identity and credential pair.
pub struct RegisterData {
    pub username: String,
    pub y1: i64,
    pub y2: i64,
}

/// The payload of a login call: identity, secret and ephemeral exponent.
pub struct LoginData {
    pub user: String,
    pub x: i64,
    pub k: i64,
}

/// A response to an issued challenge: the challenge identifier and the
/// prover's response scalar.
pub struct AuthChallengeData {
    pub auth_id: String,
    pub s: i64,
}

/// The session handle a successful login ends with.
pub struct SessionData {
    pub session_id: String,
}

/// Derives the credential pair for a registration request through the math
/// engine: `(g^x mod q, h^x mod q)` for the request's secret `x`. Engine
/// failures surface as `ServerMathError`.
pub fn register_calculate(
    zkp: &ChaumPedersenProtocol,
    data: &RegisterCalculateRequest,
) -> (r: Result<RegisterCalculateResponse, AuthClientError>)
    ensures
        match r {
            Ok(resp) => {
                &&& zkp.q() >= 1
                &&& exp_in_range(data.x as int)
                &&& resp.user@ == data.user@
                &&& resp.y1 == pow(zkp.g() as int, data.x as nat) % (zkp.q() as int)
                &&& resp.y2 == pow(zkp.h() as int, data.x as nat) % (zkp.q() as int)
            },
            Err(AuthClientError::ServerMathError) => zkp.q() < 1 || !exp_in_range(data.x as int),
            Err(_) => false,
        },
{
    match zkp.calculate_registration_data(data.x) {
        Ok((y1, y2)) => Ok(RegisterCalculateResponse { user: data.user.clone(), y1, y2 }),
        Err(e) => Err(AuthClientError::from(e)),
    }
}

/// The commitments a login attempt opens with: `(g^k mod q, h^k mod q)` for
/// the attempt's ephemeral exponent `k`. This is the first compute step of
/// the client's login flow; the transport sends the pair to the verifier.
pub fn login_commitments(zkp: &ChaumPedersenProtocol, data: &LoginData) -> (r: Result<
    (i64, i64),
    AuthClientError,
>)
    ensures
        match r {
            Ok(pair) => {
                &&& zkp.q() >= 1
                &&& exp_in_range(data.k as int)
                &&& pair.0 == pow(zkp.g() as int, data.k as nat) % (zkp.q() as int)
                &&& pair.1 == pow(zkp.h() as int, data.k as nat) % (zkp.q() as int)
            },
            Err(AuthClientError::ServerMathError) => zkp.q() < 1 || !exp_in_range(data.k as int),
            Err(_) => false,
        },
{
    match zkp.calculate_login_challenge_data(data.k) {
        Ok(pair) => Ok(pair),
        Err(e) => Err(AuthClientError::from(e)),
    }
}

/// The answer to an issued challenge: the response scalar
/// `(k - c * x) mod q` for the attempt's secret `x` and ephemeral `k`,
/// packed with the challenge identifier the verifier handed out. This is the
/// second compute step of the client's login flow.
pub fn login_response(zkp: &ChaumPedersenProtocol, data: &LoginData, auth_id: String, c: i64) -> (r:
    Result<AuthChallengeData, AuthClientError>)
    ensures
        match r {
            Ok(answer) => {
                &&& zkp.q() >= 1
                &&& answer.auth_id@ == auth_id@
                &&& answer.s == response_value(
                    data.k as int,
                    c as int,
                    data.x as int,
                    zkp.q() as int,
                )
            },
            Err(AuthClientError::ServerMathError) => zkp.q() < 1,
            Err(_) => false,
        },
{
    match zkp.calculate_challenge(data.k, c, data.x) {
        Ok(s) => Ok(AuthChallengeData { auth_id, s }),
        Err(e) => Err(AuthClientError::from(e)),
    }
}

} // verus!
