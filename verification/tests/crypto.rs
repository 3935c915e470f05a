use zkp_auth::crypto::chaum_pedersen::ChaumPedersenProtocol;
use zkp_auth::crypto::ZKPAuth;

fn protocol() -> ChaumPedersenProtocol {
    ChaumPedersenProtocol::new(3, 2892, 10009)
}

fn init() -> (i64, ChaumPedersenProtocol) {
    (300, protocol())
}

#[test]
fn should_create_proper_challenge() {
    let (_secret, zkp) = init();
    let _c = zkp.create_auth_challenge();
}

#[test]
fn should_accept_proper_challenge() {
    let (_secret, _zkp) = init();
}

#[test]
fn chaum_pedersen_should_reject_invalid_challenge() {
    let (_secret, _zkp) = init();
}

#[test]
fn random_challenge_stays_in_scalar_range() {
    let zkp = ChaumPedersenProtocol::new(3, 5, 7);
    let mut i = 0;
    while i < 50 {
        let c = zkp.create_auth_challenge();
        assert!(0 <= c && c < 7);
        i += 1;
    }
    // With a modulus the engine cannot work with, the draw degrades to a
    // harmless constant instead of panicking.
    let unusable = ChaumPedersenProtocol::new(3, 5, 0);
    assert_eq!(unusable.create_auth_challenge(), 0);
}

#[test]
fn random_engine_checks_the_same_equations() {
    // g = 3, h = 5, q = 10009, secret 9, ephemeral 27, challenge 2.
    let zkp = ChaumPedersenProtocol::new(3, 5, 10009);
    let v1 = 9674;
    let v2 = 1370;
    let r1 = 3i64.checked_pow(27).unwrap() % 10009;
    let r2 = 5i64.checked_pow(27).unwrap() % 10009;
    let s = 9;
    assert!(zkp.verify_auth_challenge(v1, v2, r1, r2, 2, s));
    assert!(!zkp.verify_auth_challenge(v1, v2, r1, r2, 2, s + 1));
    // Exponents outside the accepted range are rejected outright.
    assert!(!zkp.verify_auth_challenge(v1, v2, r1, r2, -1, s));
    assert!(!zkp.verify_auth_challenge(v1, v2, r1, r2, 2, u32::MAX as i64 + 1));
}
