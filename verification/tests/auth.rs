use zkp_auth::auth::error::AuthActorError;
use zkp_auth::auth::AuthActor;
use zkp_auth::zkp::chaum_pedersen::{ChaumPedersenProtocol, Context};

/// An orchestrator with the deterministic challenge engine injected, so the
/// issued scalar is predictable (2 for this modulus).
fn actor() -> AuthActor<ChaumPedersenProtocol> {
    AuthActor::with_engine(
        Context::new(3, 5, 10009),
        ChaumPedersenProtocol::new(Context::new(3, 5, 10009)),
    )
}

#[test]
fn register_twice_keeps_first_credential() {
    let mut actor = actor();
    assert!(actor.register(String::from("alice"), 9674, 1370).is_ok());
    assert_eq!(
        actor.register(String::from("alice"), 1, 2),
        Err(AuthActorError::UserAlreadyRegistered)
    );
    // The credential of the first call is still the one verification uses:
    // a full login against it succeeds.
    let challenge = actor
        .create_authentication_challenge(String::from("alice"), 8438, 864)
        .unwrap();
    // r1 = 3^27 mod 10009 = 8438, r2 = 5^27 mod 10009 = 864, and the
    // response to the fixed challenge c = 2 with secret 9 is 27 - 2 * 9 = 9.
    assert_eq!(challenge.c, 2);
    assert_eq!(challenge.auth_id, "alice");
    let session = actor.verify_authentication(String::from("alice"), 9);
    assert!(session.is_ok());
}

#[test]
fn challenge_needs_a_registered_identity() {
    let mut actor = actor();
    assert!(matches!(
        actor.create_authentication_challenge(String::from("bob"), 1, 2),
        Err(AuthActorError::UserNotFound)
    ));
}

#[test]
fn verification_needs_a_credential_and_a_challenge() {
    let mut actor = actor();
    assert!(matches!(
        actor.verify_authentication(String::from("bob"), 9),
        Err(AuthActorError::UserNotFound)
    ));
    assert!(actor.register(String::from("bob"), 9674, 1370).is_ok());
    assert!(matches!(
        actor.verify_authentication(String::from("bob"), 9),
        Err(AuthActorError::AuthChallengeNotFound)
    ));
}

#[test]
fn latest_challenge_supersedes_the_first() {
    let mut actor = actor();
    assert!(actor.register(String::from("carol"), 9674, 1370).is_ok());
    // First login attempt: commitments for ephemeral k = 27.
    assert!(actor
        .create_authentication_challenge(String::from("carol"), 8438, 864)
        .is_ok());
    // Second login attempt supersedes it: commitments for ephemeral k = 42,
    // r1 = 3^42 mod 10009 = 6786, r2 = 5^42 mod 10009 = 9476.
    assert!(actor
        .create_authentication_challenge(String::from("carol"), 6786, 9476)
        .is_ok());
    // The honest response for the first attempt (s = 27 - 2 * 9 = 9) now
    // fails: the stored challenge is the second one.
    assert!(matches!(
        actor.verify_authentication(String::from("carol"), 9),
        Err(AuthActorError::AuthChallengeFailed)
    ));
    // The honest response for the second attempt (s = 42 - 2 * 9 = 24)
    // succeeds.
    assert!(actor
        .verify_authentication(String::from("carol"), 24)
        .is_ok());
}

#[test]
fn successful_verification_returns_a_session() {
    let mut actor = actor();
    assert!(actor.register(String::from("dave"), 9674, 1370).is_ok());
    assert!(actor
        .create_authentication_challenge(String::from("dave"), 8438, 864)
        .is_ok());
    let session = actor
        .verify_authentication(String::from("dave"), 9)
        .unwrap();
    assert_eq!(session.session_id, "test session");
    // A wrong response is an authentication rejection, not a fault.
    assert!(matches!(
        actor.verify_authentication(String::from("dave"), 10),
        Err(AuthActorError::AuthChallengeFailed)
    ));
}

#[test]
fn default_engine_draws_challenges_in_scalar_range() {
    let mut actor = AuthActor::new(Context::new(3, 5, 10009));
    assert!(actor.register(String::from("fay"), 9674, 1370).is_ok());
    let mut i = 0;
    while i < 20 {
        let challenge = actor
            .create_authentication_challenge(String::from("fay"), 8438, 864)
            .unwrap();
        assert_eq!(challenge.auth_id, "fay");
        assert!(0 <= challenge.c && challenge.c < 10009);
        i += 1;
    }
}

#[test]
fn engine_failure_surfaces_as_math_error() {
    let mut actor = AuthActor::new(Context::new(3, 5, 0));
    assert!(actor.register(String::from("erin"), 1, 1).is_ok());
    assert!(actor
        .create_authentication_challenge(String::from("erin"), 1, 1)
        .is_ok());
    assert!(matches!(
        actor.verify_authentication(String::from("erin"), 1),
        Err(AuthActorError::ZKPMathError)
    ));
}
