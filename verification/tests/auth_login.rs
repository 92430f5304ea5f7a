use time::OffsetDateTime;

use tora_backend::auth::{
    authenticate_token, authorize, generate_jwt_token, login, AuthError, Claim, LoginCredential,
    LoginOutcome,
};

const SECRET: &str = "test-signing-secret";

fn creds(name: &str, pass: &str) -> LoginCredential {
    LoginCredential { user_name: name.to_string(), password: pass.to_string() }
}

#[test]
fn wrong_credentials_are_unauthorized() {
    let r = login(&creds("bot", "wrong"), "bot", "pass", SECRET, 1_700_000_000);
    assert!(matches!(r, LoginOutcome::Unauthorized));
    let r = login(&creds("other", "pass"), "bot", "pass", SECRET, 1_700_000_000);
    assert!(matches!(r, LoginOutcome::Unauthorized));
}

#[test]
fn a_login_hands_out_a_decodable_token() {
    let now = OffsetDateTime::now_utc().unix_timestamp();
    let r = login(&creds("bot", "pass"), "bot", "pass", SECRET, now);
    match r {
        LoginOutcome::Success { response } => {
            let claim = authenticate_token(&response.token, SECRET, now)
                .expect("the fresh token authorizes");
            assert_eq!(claim.sub, "bot");
            assert_eq!(claim.exp, (now + 3600) as u64);
            let expected_expiry = OffsetDateTime::from_unix_timestamp(now + 3600)
                .unwrap()
                .format(&time::format_description::well_known::Rfc3339)
                .unwrap();
            assert_eq!(response.expiry, expected_expiry);
        },
        _ => panic!("matching credentials log in"),
    }
}

#[test]
fn a_token_under_another_secret_is_rejected() {
    let now = OffsetDateTime::now_utc().unix_timestamp();
    let token = generate_jwt_token("bot", SECRET, now);
    assert!(authenticate_token(&token, SECRET, now).is_ok());
    assert!(matches!(
        authenticate_token(&token, "another-signing-secret", now),
        Err(AuthError::Invalid)
    ));
    assert!(matches!(authenticate_token("not-a-token", SECRET, now), Err(AuthError::Invalid)));
}

#[test]
fn an_undecodable_token_is_unauthorized() {
    let r = authorize(None, 1_700_000_000);
    match r {
        Err(e) => {
            assert_eq!(e.status_code(), 401);
            assert_eq!(e.message(), "Unauthorized");
        },
        Ok(_) => panic!("a missing claim cannot authorize"),
    }
}

#[test]
fn an_unrepresentable_expiry_is_a_bad_request() {
    let claim = Claim { sub: "bot".to_string(), exp: 253_402_300_800 };
    let r = authorize(Some(claim), 1_700_000_000);
    match r {
        Err(e) => {
            assert!(matches!(e, AuthError::BadExpiryStamp));
            assert_eq!(e.status_code(), 400);
            assert_eq!(e.message(), "Failed to retrieve token expiration data from timestamp.");
        },
        Ok(_) => panic!("the stamp lies beyond the representable years"),
    }
}

#[test]
fn a_passed_expiry_is_expired() {
    let claim = Claim { sub: "bot".to_string(), exp: 1_000 };
    let r = authorize(Some(claim), 1_700_000_000);
    match r {
        Err(e) => {
            assert!(matches!(e, AuthError::Expired));
            assert_eq!(e.message(), "Token expired");
        },
        Ok(_) => panic!("the expiry has passed"),
    }
}

#[test]
fn a_live_claim_authorizes() {
    let claim = Claim { sub: "bot".to_string(), exp: 1_700_003_600 };
    let r = authorize(Some(claim), 1_700_000_000).expect("the claim is live");
    assert_eq!(r.sub, "bot");
    assert_eq!(r.exp, 1_700_003_600);
}

#[test]
fn an_expiry_at_the_very_instant_is_already_expired() {
    let claim = Claim { sub: "bot".to_string(), exp: 1_700_000_000 };
    assert!(authorize(Some(claim), 1_700_000_000).is_err());
}
