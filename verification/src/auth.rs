//! Login and bearer-token authorization: tokens are minted and checked
//! through the `jsonwebtoken` crate, the decisions around them are verified.

use vstd::prelude::*;

use crate::strutil::str_eq;
use crate::timefmt::{format_rfc3339_or_empty, rfc3339_of};

verus! {

/// How many seconds a freshly minted token lives.
pub const TOKEN_LIFETIME_SECONDS: i64 = 3600;

/// The earliest and latest instants the `time` crate represents, which gate
/// an expiry stamp before it can be compared with the clock.
pub const MIN_UNIX_TIMESTAMP: i64 = -377705116800;

pub const MAX_UNIX_TIMESTAMP: i64 = 253402300799;

/// The claims a token carries: who it names and when it expires.
#[derive(Debug, Clone)]
pub struct Claim {
    pub sub: String,
    pub exp: u64,
}

/// The name and password a login request carries.
#[derive(Debug, Clone)]
pub struct LoginCredential {
    pub user_name: String,
    pub password: String,
}

/// The token a successful login answers with, and when it expires.
#[derive(Debug, Clone)]
pub struct LoginResponse {
    pub token: String,
    pub expiry: String,
}

/// The token an `{sub, exp}` claim signs to under this secret, with the
/// default header.
pub uninterp spec fn jwt_of(sub: Seq<char>, exp: int, secret: Seq<char>) -> Seq<char>;

/// Relies on `jsonwebtoken::encode` with the default (HS256) header over the
/// claims `{sub, exp}`: the token depends on the claims and the secret
/// alone. The call always succeeds: the key and the default header share the
/// HMAC family, this header and claim map always serialize, and the HS256
/// arm of `jsonwebtoken::crypto::sign` is `Ok(sign_hmac(..))`.
#[verifier::external_body]
fn encode_jwt(sub: &str, exp: u64, secret: &str) -> (r: Option<String>)
    ensures
        r is Some,
        r matches Some(t) ==> t@ == jwt_of(sub@, exp as int, secret@),
{
    let mut claims = std::collections::BTreeMap::new();
    claims.insert("exp", serde_json::Value::from(exp));
    claims.insert("sub", serde_json::Value::String(sub.to_string()));
    jsonwebtoken::encode(
        &jsonwebtoken::Header::default(),
        &claims,
        &jsonwebtoken::EncodingKey::from_secret(secret.as_bytes()),
    ).ok()
}

/// Relies on `jsonwebtoken::decode` with the default validation, which
/// checks the HS256 signature and the expiry against the clock; because the
/// clock takes part, nothing is promised of the outcome.
#[verifier::external_body]
fn decode_jwt(token: &str, secret: &str) -> (r: Option<Claim>)
{
    let data = jsonwebtoken::decode::<serde_json::Value>(
        token,
        &jsonwebtoken::DecodingKey::from_secret(secret.as_bytes()),
        &jsonwebtoken::Validation::default(),
    ).ok()?;
    let sub = data.claims.get("sub")?.as_str()?.to_string();
    let exp = data.claims.get("exp")?.as_u64()?;
    Some(Claim { sub, exp })
}

/// How a login request is answered.
#[derive(Debug)]
pub enum LoginOutcome {
    /// The credentials match; here are the token and its expiry.
    Success { response: LoginResponse },
    /// Wrong name or password.
    Unauthorized,
}

/// Decides a login request: on matching credentials a token for the
/// configured user is minted, expiring in an hour.
pub fn login(
    credential: &LoginCredential,
    expected_user: &str,
    expected_pass: &str,
    jwt_secret: &str,
    now_ts: i64,
) -> (r: LoginOutcome)
    requires
        0 <= now_ts <= i64::MAX - TOKEN_LIFETIME_SECONDS,
    ensures
        (credential.user_name@ == expected_user@ && credential.password@ == expected_pass@) <==> (
        r is Success),
        r matches LoginOutcome::Success { response } ==> response.token@ == jwt_of(
            expected_user@,
            now_ts + TOKEN_LIFETIME_SECONDS,
            jwt_secret@,
        ) && response.expiry@ == rfc3339_of((now_ts + TOKEN_LIFETIME_SECONDS) as i64),
{
    if str_eq(credential.user_name.as_str(), expected_user) && str_eq(
        credential.password.as_str(),
        expected_pass,
    ) {
        let exp_ts = now_ts + TOKEN_LIFETIME_SECONDS;
        let token = encode_jwt(expected_user, exp_ts as u64, jwt_secret).unwrap();
        LoginOutcome::Success {
            response: LoginResponse { token, expiry: format_rfc3339_or_empty(exp_ts) },
        }
    } else {
        LoginOutcome::Unauthorized
    }
}

/// Why a bearer token is turned away.
#[derive(Debug, Clone, Copy)]
pub enum AuthError {
    /// The token did not decode against the shared secret.
    Invalid,
    /// The expiry stamp lies outside the instants a timestamp can name.
    BadExpiryStamp,
    /// The token's expiry has passed.
    Expired,
}

impl AuthError {
    /// The HTTP status the error answers with.
    pub fn status_code(&self) -> (r: u16)
        ensures
            r == (match self {
                AuthError::Invalid => 401u16,
                AuthError::BadExpiryStamp => 400u16,
                AuthError::Expired => 401u16,
            }),
    {
        match self {
            AuthError::Invalid => 401,
            AuthError::BadExpiryStamp => 400,
            AuthError::Expired => 401,
        }
    }

    /// The message the error answers with.
    pub fn message(&self) -> (r: String)
        ensures
            r@ == (match self {
                AuthError::Invalid => "Unauthorized"@,
                AuthError::BadExpiryStamp =>
                    "Failed to retrieve token expiration data from timestamp."@,
                AuthError::Expired => "Token expired"@,
            }),
    {
        match self {
            AuthError::Invalid => "Unauthorized".to_owned(),
            AuthError::BadExpiryStamp => "Failed to retrieve token expiration data from timestamp."
                .to_owned(),
            AuthError::Expired => "Token expired".to_owned(),
        }
    }
}

/// The expiry stamp read as a signed timestamp: a count beyond the signed
/// range wraps around, as the cast to a signed integer does.
pub open spec fn wrapped_exp(exp: u64) -> int {
    if exp <= i64::MAX {
        exp as int
    } else {
        exp - 0x1_0000_0000_0000_0000
    }
}

/// Decides what a decoded bearer token is worth at instant `now_ts`: a token
/// that failed to decode is turned away, an expiry stamp no timestamp can
/// name is malformed, a passed expiry is expired, and otherwise the claim is
/// accepted.
pub fn authorize(decoded: Option<Claim>, now_ts: i64) -> (r: Result<Claim, AuthError>)
    ensures
        decoded is None <==> (r matches Err(e) && e is Invalid),
        decoded matches Some(c) ==> {
            let e = wrapped_exp(c.exp);
            if !(MIN_UNIX_TIMESTAMP <= e <= MAX_UNIX_TIMESTAMP) {
                r matches Err(err) && err is BadExpiryStamp
            } else if e > now_ts {
                r matches Ok(claim) && claim == c
            } else {
                r matches Err(err) && err is Expired
            }
        },
{
    match decoded {
        None => Err(AuthError::Invalid),
        Some(claim) => {
            let wrapped: i64 = if claim.exp <= i64::MAX as u64 {
                claim.exp as i64
            } else {
                ((claim.exp as i128) - 0x1_0000_0000_0000_0000i128) as i64
            };
            if wrapped < MIN_UNIX_TIMESTAMP || wrapped > MAX_UNIX_TIMESTAMP {
                Err(AuthError::BadExpiryStamp)
            } else if wrapped > now_ts {
                Ok(claim)
            } else {
                Err(AuthError::Expired)
            }
        },
    }
}

/// Checks a bearer token whole: it is decoded against the shared secret and
/// the decoded claim is then judged by [`authorize`]. Whatever the decode
/// returned, an accepted claim always carries an expiry a timestamp can name
/// and that still lies ahead of `now_ts`.
pub fn authenticate_token(token: &str, secret: &str, now_ts: i64) -> (r: Result<Claim, AuthError>)
    ensures
        r matches Ok(c) ==> MIN_UNIX_TIMESTAMP <= wrapped_exp(c.exp) <= MAX_UNIX_TIMESTAMP
            && wrapped_exp(c.exp) > now_ts,
{
    let decoded = decode_jwt(token, secret);
    authorize(decoded, now_ts)
}

/// Mints the signed token a login hands out: it names the configured user
/// and expires an hour past `now_ts`.
pub fn generate_jwt_token(user_name: &str, jwt_secret: &str, now_ts: i64) -> (r: String)
    requires
        0 <= now_ts <= i64::MAX - TOKEN_LIFETIME_SECONDS,
    ensures
        r@ == jwt_of(user_name@, now_ts + TOKEN_LIFETIME_SECONDS, jwt_secret@),
{
    let exp_ts = now_ts + TOKEN_LIFETIME_SECONDS;
    encode_jwt(user_name, exp_ts as u64, jwt_secret).unwrap()
}

} // verus!
