use zkp_auth::router::error::AuthClientError;
use zkp_auth::router::{
    login_commitments, login_response, register_calculate, LoginData, RegisterCalculateRequest,
};
use zkp_auth::zkp::chaum_pedersen::{ChaumPedersenProtocol, Context};

#[test]
fn register_calculate_derives_the_credential_pair() {
    let zkp = ChaumPedersenProtocol::new(Context::new(3, 5, 10009));
    let request = RegisterCalculateRequest {
        user: String::from("alice"),
        x: 9,
    };
    let response = register_calculate(&zkp, &request).unwrap();
    assert_eq!(response.user, "alice");
    assert_eq!(response.y1, 9674);
    assert_eq!(response.y2, 1370);
}

#[test]
fn register_calculate_reports_engine_failures() {
    let zkp = ChaumPedersenProtocol::new(Context::new(3, 5, 10009));
    let request = RegisterCalculateRequest {
        user: String::from("alice"),
        x: -9,
    };
    assert!(matches!(
        register_calculate(&zkp, &request),
        Err(AuthClientError::ServerMathError)
    ));
    let broken = ChaumPedersenProtocol::new(Context::new(3, 5, -1));
    let request = RegisterCalculateRequest {
        user: String::from("alice"),
        x: 9,
    };
    assert!(matches!(
        register_calculate(&broken, &request),
        Err(AuthClientError::ServerMathError)
    ));
}

#[test]
fn login_flow_computes_commitments_and_response() {
    let zkp = ChaumPedersenProtocol::new(Context::new(3, 5, 10009));
    let data = LoginData {
        user: String::from("alice"),
        x: 9,
        k: 27,
    };
    let (r1, r2) = login_commitments(&zkp, &data).unwrap();
    assert_eq!(r1, 8438);
    assert_eq!(r2, 864);
    let answer = login_response(&zkp, &data, String::from("alice"), 2).unwrap();
    assert_eq!(answer.auth_id, "alice");
    assert_eq!(answer.s, 9);
    // The full round closes: the engine accepts the computed response.
    assert!(zkp
        .verify_auth_challenge(9674, 1370, r1, r2, 2, answer.s)
        .unwrap());
}
