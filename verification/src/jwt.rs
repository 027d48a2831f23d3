//! Signed tokens (JSON Web Tokens, HS256) that name a user.

use vstd::prelude::*;
use crate::clock::{now_secs, CLOCK_MAX_SECS};
use crate::session::MAX_DURATION_HOURS;
use vstd::string::StringSliceAdditionalSpecFns;

verus! {

#[verifier::external_type_specification]
#[verifier::external_body]
pub struct ExJwtError(jsonwebtoken::errors::Error);

/// Key that signs and checks tokens (in production, take it from the environment).
pub const JWT_SECRET: &'static str = "your-secret-key-change-this-in-production";

/// Seconds in an hour.
pub const SECONDS_PER_HOUR: i64 = 3600;

/// The bytes of the signing key.
pub open spec fn jwt_secret_bytes() -> Seq<u8> {
    JWT_SECRET.spec_bytes()
}

/// The claims a token carries.
#[derive(Debug, Clone)]
pub struct Claims {
    pub user_id: i64,
    pub username: String,
    /// Expiration time (seconds since 1970).
    pub exp: i64,
    /// Time of issue (seconds since 1970).
    pub iat: i64,
}

/// Why a token was not made or not accepted.
#[derive(Debug)]
pub enum TokenError {
    /// `jsonwebtoken` refused the token (bad format or signature, `exp` missing or not a
    /// whole number of seconds from 1970 on).
    Jwt(jsonwebtoken::errors::Error),
    /// The token checked out but lacks one of the claims, or holds one of the wrong type.
    MalformedClaims,
    /// The token expired more than the leeway ago.
    Expired,
}

/// The token that `jsonwebtoken::encode` makes, with the default header (HS256) and key
/// `secret`, of the claims `user_id`, `username`, `exp`, `iat` in that order.
pub uninterp spec fn hs256_token(
    user_id: i64,
    username: Seq<char>,
    exp: i64,
    iat: i64,
    secret: Seq<u8>,
) -> Seq<char>;

/// Calls `jsonwebtoken::encode` with `Header::default()` (HS256), the claims as a JSON
/// object with the fields `user_id`, `username`, `exp`, `iat`, and `secret` as HMAC key.
/// Signing depends on its arguments alone. It does not fail here: the key (HMAC) fits the
/// algorithm of the header, the header and a JSON map always serialize, and HMAC signing
/// takes a key of any length. The token is never empty: it is three parts joined by dots.
#[verifier::external_body]
fn jwt_encode_hs256(user_id: i64, username: &str, exp: i64, iat: i64, secret: &[u8]) -> (r:
    Result<String, jsonwebtoken::errors::Error>)
    ensures
        r is Ok,
        r matches Ok(t) ==> t@ == hs256_token(user_id, username@, exp, iat, secret@),
        r matches Ok(t) ==> t@.len() > 0,
{
    let mut claims = serde_json::Map::new();
    claims.insert("user_id".to_string(), user_id.into());
    claims.insert("username".to_string(), username.into());
    claims.insert("exp".to_string(), exp.into());
    claims.insert("iat".to_string(), iat.into());
    let key = jsonwebtoken::EncodingKey::from_secret(secret);
    jsonwebtoken::encode(&jsonwebtoken::Header::default(), &claims, &key)
}

/// The claims `user_id`, `username`, `exp` and `iat` that `jsonwebtoken::decode` reads out of
/// `token` when it checks it with key `secret` (HS256, `exp` required, expiry not checked),
/// each `None` when missing or of another type; `None` when the token is refused.
pub uninterp spec fn hs256_claims(token: Seq<char>, secret: Seq<u8>) -> Option<
    (Option<i64>, Option<Seq<char>>, Option<i64>, Option<i64>),
>;

/// The text of an optional string.
pub open spec fn opt_text(o: Option<String>) -> Option<Seq<char>> {
    match o {
        Some(s) => Some(s@),
        None => None,
    }
}

/// Calls `jsonwebtoken::decode` with `Validation::default()` but `validate_exp` turned off
/// (HS256, `exp` still required, no claim checked against the clock) and `secret` as HMAC
/// key, and reads the claims `user_id`, `username`, `exp` and `iat` out of the decoded JSON
/// object (`serde_json::Value::get` with `as_i64` or `as_str`), each `None` when missing or
/// of another type.
///
/// With the expiry check off, decoding reads no clock and depends on its arguments alone.
/// It gives back the claims that `jsonwebtoken::encode` put into a token signed with the
/// same key, when `exp` is not negative (`jsonwebtoken` reads `exp` as an unsigned number).
#[verifier::external_body]
fn jwt_decode_claims(token: &str, secret: &[u8]) -> (r: Result<
    (Option<i64>, Option<String>, Option<i64>, Option<i64>),
    jsonwebtoken::errors::Error,
>)
    ensures
        r is Ok <==> hs256_claims(token@, secret@) is Some,
        r matches Ok(x) ==> hs256_claims(token@, secret@) == Some(
            (x.0, opt_text(x.1), x.2, x.3),
        ),
        forall|user_id: i64, username: Seq<char>, exp: i64, iat: i64|
            token@ == #[trigger] hs256_token(user_id, username, exp, iat, secret@) && exp >= 0
                ==> r is Ok,
        forall|user_id: i64, username: Seq<char>, exp: i64, iat: i64|
            token@ == #[trigger] hs256_token(user_id, username, exp, iat, secret@) ==> (r matches Ok(
                c,
            ) ==> c.0 == Some(user_id) && (c.1 matches Some(n) && n@ == username) && c.2 == Some(
                exp,
            ) && c.3 == Some(iat)),
{
    let key = jsonwebtoken::DecodingKey::from_secret(secret);
    let mut validation = jsonwebtoken::Validation::default();
    validation.validate_exp = false;
    let c = jsonwebtoken::decode::<serde_json::Value>(token, &key, &validation)?.claims;
    let text = c.get("username").and_then(serde_json::Value::as_str).map(str::to_string);
    Ok((c.get("user_id").and_then(serde_json::Value::as_i64), text, c.get("exp").and_then(
        serde_json::Value::as_i64,
    ), c.get("iat").and_then(serde_json::Value::as_i64)))
}

/// Puts the four claims of a token together, when all of them are present.
pub fn claims_from_fields(
    user_id: Option<i64>,
    username: Option<String>,
    exp: Option<i64>,
    iat: Option<i64>,
) -> (r: Option<Claims>)
    ensures
        r is Some <==> user_id is Some && username is Some && exp is Some && iat is Some,
        r matches Some(c) ==> c.user_id == user_id.unwrap() && c.username == username.unwrap()
            && c.exp == exp.unwrap() && c.iat == iat.unwrap(),
{
    match (user_id, username, exp, iat) {
        (Some(user_id), Some(username), Some(exp), Some(iat)) => Some(
            Claims { user_id, username, exp, iat },
        ),
        _ => None,
    }
}

/// Makes a token for a user, issued at `now` (seconds since 1970) and valid for
/// `duration_hours`.
pub fn create_token_at(user_id: i64, username: &str, duration_hours: i64, now: i64) -> (r: Result<
    String,
    TokenError,
>)
    requires
        -MAX_DURATION_HOURS <= duration_hours <= MAX_DURATION_HOURS,
        0 <= now <= CLOCK_MAX_SECS,
    ensures
        r matches Ok(t) ==> t@ == hs256_token(
            user_id,
            username@,
            (now + duration_hours * SECONDS_PER_HOUR) as i64,
            now,
            jwt_secret_bytes(),
        ),
        r matches Ok(t) ==> t@.len() > 0,
        r is Ok,
{
    let exp = now + duration_hours * SECONDS_PER_HOUR;
    match jwt_encode_hs256(user_id, username, exp, now, JWT_SECRET.as_bytes()) {
        Ok(token) => Ok(token),
        Err(e) => Err(TokenError::Jwt(e)),
    }
}

/// Makes a token for a user, issued now and valid for `duration_hours`.
pub fn create_token(user_id: i64, username: &str, duration_hours: i64) -> (r: Result<
    String,
    TokenError,
>)
    requires
        -MAX_DURATION_HOURS <= duration_hours <= MAX_DURATION_HOURS,
    ensures
        r matches Ok(t) ==> exists|now: i64|
            0 <= now <= CLOCK_MAX_SECS && t@ == #[trigger] hs256_token(
                user_id,
                username@,
                (now + duration_hours * SECONDS_PER_HOUR) as i64,
                now,
                jwt_secret_bytes(),
            ),
        r matches Ok(t) ==> t@.len() > 0,
        r is Ok,
{
    let now = now_secs();
    create_token_at(user_id, username, duration_hours, now)
}

/// Seconds by which a token may be past its expiry and still be accepted.
pub const LEEWAY_SECONDS: i64 = 60;

/// What checking `token` at `now` (seconds since 1970) gives: the decoder's refusal, a
/// refusal for a missing claim, a refusal for expiry (`exp` more than the leeway before
/// `now`), or the claims.
pub open spec fn verify_outcome(token: Seq<char>, now: int, r: Result<Claims, TokenError>) -> bool {
    &&& match hs256_claims(token, jwt_secret_bytes()) {
        None => r matches Err(TokenError::Jwt(_)),
        Some((Some(user_id), Some(username), Some(exp), Some(iat))) => if exp < now - LEEWAY_SECONDS {
            r matches Err(TokenError::Expired)
        } else {
            r matches Ok(c) && c.user_id == user_id && c.username@ == username && c.exp == exp
                && c.iat == iat
        },
        Some(_) => r matches Err(TokenError::MalformedClaims),
    }
    &&& forall|user_id: i64, username: Seq<char>, exp: i64, iat: i64|
        token == #[trigger] hs256_token(user_id, username, exp, iat, jwt_secret_bytes()) && exp
            >= 0 ==> {
            &&& (r is Ok <==> exp >= now - LEEWAY_SECONDS)
            &&& (r matches Ok(c) ==> c.user_id == user_id && c.username@ == username && c.exp
                == exp && c.iat == iat)
        }
}

/// Checks a token's signature and reads its claims, refusing it when it expired more than
/// the leeway before `now` (seconds since 1970). A token made by `create_token` with an
/// expiry from 1970 on is accepted until then and gives back the claims it was made with.
pub fn verify_token_at(token: &str, now: i64) -> (r: Result<Claims, TokenError>)
    ensures
        verify_outcome(token@, now as int, r),
{
    match jwt_decode_claims(token, JWT_SECRET.as_bytes()) {
        Ok((user_id, username, exp, iat)) => match claims_from_fields(user_id, username, exp, iat) {
            Some(claims) => {
                if (claims.exp as i128) < (now as i128) - (LEEWAY_SECONDS as i128) {
                    Err(TokenError::Expired)
                } else {
                    Ok(claims)
                }
            },
            None => Err(TokenError::MalformedClaims),
        },
        Err(e) => Err(TokenError::Jwt(e)),
    }
}

/// Checks a token's signature and expiry against the clock and reads its claims.
pub fn verify_token(token: &str) -> (r: Result<Claims, TokenError>)
    ensures
        exists|now: int| 0 <= now <= CLOCK_MAX_SECS && #[trigger] verify_outcome(token@, now, r),
{
    let now = now_secs();
    verify_token_at(token, now)
}

} // verus!
