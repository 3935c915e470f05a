use zkp_auth::zkp::chaum_pedersen::{ChaumPedersenProtocol, Context};
use zkp_auth::zkp::ZKPError;

fn protocol() -> ChaumPedersenProtocol {
    ChaumPedersenProtocol::new(Context::new(3, 5, 10009))
}

fn init() -> (i64, ChaumPedersenProtocol) {
    (9, protocol())
}

#[test]
fn should_calculate_proper_registration_data() {
    let (secret, zkp) = init();
    let (y1, y2) = zkp.calculate_registration_data(secret).unwrap();
    assert_eq!(y1, 3i64.checked_pow(secret.try_into().unwrap()).unwrap() % 10009);
    assert_eq!(y2, 5i64.checked_pow(secret.try_into().unwrap()).unwrap() % 10009);
}

#[test]
fn should_calculate_proper_login_challenge_data() {
    let (_secret, zkp) = init();
    let (r1, r2) = zkp.calculate_login_challenge_data(27).unwrap();
    assert_eq!(r1, 3i64.checked_pow(27).unwrap() % 10009);
    assert_eq!(r2, 5i64.checked_pow(27).unwrap() % 10009);
}

#[test]
fn should_calculate_proper_auth_challenge() {
    let (secret, zkp) = init();
    let challenge_c = zkp.create_auth_challenge();
    let challenge_s = zkp.calculate_challenge(27, challenge_c, secret).unwrap();
    assert_eq!(
        challenge_s,
        27i64
            .checked_sub(challenge_c.checked_mul(secret).unwrap())
            .unwrap()
            % 10009
    );
}

#[test]
fn should_accept_valid_challenge() {
    let (secret, zkp) = init();
    let (y1, y2) = zkp.calculate_registration_data(secret).unwrap();
    let (r1, r2) = zkp.calculate_login_challenge_data(27).unwrap();
    let challenge_c = zkp.create_auth_challenge();
    let challenge_s = zkp.calculate_challenge(27, challenge_c, secret).unwrap();
    assert!(zkp
        .verify_auth_challenge(y1, y2, r1, r2, challenge_c, challenge_s)
        .unwrap());
}

#[test]
fn should_reject_invalid_challenge() {
    let (secret, zkp) = init();
    let (y1, y2) = zkp.calculate_registration_data(secret).unwrap();
    let (r1, r2) = zkp.calculate_login_challenge_data(27).unwrap();
    let challenge_c = zkp.create_auth_challenge();
    let invalid_challenge_s = zkp
        .calculate_challenge(27, challenge_c, secret.checked_add(1).unwrap())
        .unwrap();
    assert!(!zkp
        .verify_auth_challenge(y1, y2, r1, r2, challenge_c, invalid_challenge_s)
        .unwrap());
}

#[test]
fn registration_data_reduces_modulo_q() {
    let zkp = protocol();
    let (y1, y2) = zkp.calculate_registration_data(27).unwrap();
    assert_eq!(y1, 8438);
    assert_eq!(y2, 864);
    let (v1, v2) = zkp.calculate_registration_data(9).unwrap();
    assert_eq!(v1, 9674);
    assert_eq!(v2, 1370);
}

#[test]
fn response_is_normalized_into_scalar_range() {
    let zkp = protocol();
    // 2 - 3 * 5 = -13, whose Euclidean remainder modulo 10009 is 9996.
    assert_eq!(zkp.calculate_challenge(2, 3, 5).unwrap(), 9996);
    // A non-negative difference is returned as is.
    assert_eq!(zkp.calculate_challenge(27, 2, 9).unwrap(), 9);
}

#[test]
fn large_exponents_stay_reduced() {
    let zkp = protocol();
    let (y1, _y2) = zkp.calculate_registration_data(1000000).unwrap();
    assert_eq!(y1, 5840);
    let big = ChaumPedersenProtocol::new(Context::new(7, 7, 1000003));
    let (z1, z2) = big.calculate_registration_data(u32::MAX as i64).unwrap();
    assert_eq!(z1, 285510);
    assert_eq!(z2, 285510);
}

#[test]
fn negative_exponent_is_a_cast_error() {
    let zkp = protocol();
    assert_eq!(
        zkp.calculate_registration_data(-1),
        Err(ZKPError::CastError)
    );
    assert_eq!(
        zkp.verify_auth_challenge(1, 1, 1, 1, -2, 3),
        Err(ZKPError::CastError)
    );
    assert_eq!(
        zkp.calculate_registration_data(u32::MAX as i64 + 1),
        Err(ZKPError::CastError)
    );
}

#[test]
fn non_positive_modulus_is_a_math_error() {
    let zkp = ChaumPedersenProtocol::new(Context::new(3, 5, 0));
    assert_eq!(zkp.calculate_registration_data(9), Err(ZKPError::MathOverflow));
    assert_eq!(zkp.calculate_challenge(27, 2, 9), Err(ZKPError::MathOverflow));
    assert_eq!(
        zkp.verify_auth_challenge(1, 1, 1, 1, 2, 3),
        Err(ZKPError::MathOverflow)
    );
}

#[test]
fn fixed_challenge_is_reduced_into_scalar_range() {
    assert_eq!(protocol().create_auth_challenge(), 2);
    let tiny = ChaumPedersenProtocol::new(Context::new(3, 5, 1));
    assert_eq!(tiny.create_auth_challenge(), 0);
    let two = ChaumPedersenProtocol::new(Context::new(3, 5, 2));
    assert_eq!(two.create_auth_challenge(), 0);
}

#[test]
fn wrapped_response_fails_verification() {
    // With c * x > k the response wraps around the modulus and no longer
    // encodes the exponent difference k - c * x itself, so verification
    // fails: completeness holds only for non-wrapping responses.
    let zkp = protocol();
    let (v1, v2) = zkp.calculate_registration_data(9).unwrap();
    let (r1, r2) = zkp.calculate_login_challenge_data(2).unwrap();
    let s = zkp.calculate_challenge(2, 2, 9).unwrap();
    assert_eq!(s, (2 - 18) + 10009);
    assert!(!zkp.verify_auth_challenge(v1, v2, r1, r2, 2, s).unwrap());
}

#[test]
fn verification_scenario_with_fixed_values() {
    // g = 3, h = 5, q = 10009, secret x = 9, ephemeral k = 27, challenge c = 2:
    // v1 = 3^9 mod 10009 = 9674, v2 = 5^9 mod 10009 = 1370,
    // r1 = 3^27 mod 10009, r2 = 5^27 mod 10009, s = (27 - 2 * 9) mod 10009.
    let zkp = protocol();
    let (v1, v2) = zkp.calculate_registration_data(9).unwrap();
    assert_eq!((v1, v2), (9674, 1370));
    let (r1, r2) = zkp.calculate_login_challenge_data(27).unwrap();
    let c = 2;
    let s = zkp.calculate_challenge(27, c, 9).unwrap();
    assert!(zkp.verify_auth_challenge(v1, v2, r1, r2, c, s).unwrap());
    assert!(!zkp.verify_auth_challenge(v1, v2, r1, r2, c, s + 1).unwrap());
}
