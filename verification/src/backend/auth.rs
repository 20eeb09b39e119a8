//! Passwords and access tokens.
use argon2::password_hash::{PasswordHasher, PasswordVerifier};
use vstd::prelude::*;

use crate::backend::config::AppConfig;

verus! {

/// Whether `argon2` accepts a password against a stored hash string.
pub uninterp spec fn password_matches(password: Seq<char>, hash: Seq<char>) -> bool;

/// Calls `Argon2::default().hash_password` with a fresh random salt from
/// `OsRng`.  The contract claims that a hash it gives accepts the password
/// it was made from (the verifier recomputes the hash with the salt and
/// parameters stored in it); the hash itself depends on the random salt.
/// An error carries the hasher's own description.
#[verifier::external_body]
pub fn hash_password(password: &str) -> (r: Result<String, String>)
    ensures
        r matches Ok(h) ==> password_matches(password@, h@),
{
    let salt = argon2::password_hash::SaltString::generate(&mut argon2::password_hash::rand_core::OsRng);
    argon2::Argon2::default()
        .hash_password(password.as_bytes(), &salt)
        .map(|hash| hash.to_string())
        .map_err(|error| error.to_string())
}

/// Calls `PasswordHash::new` and `Argon2::default().verify_password`.  The
/// contract claims that the answer is `password_matches` of the two texts
/// (false when the hash string cannot be parsed).
#[verifier::external_body]
pub fn verify_password(password: &str, password_hash: &str) -> (r: bool)
    ensures
        r == password_matches(password@, password_hash@),
{
    match argon2::password_hash::PasswordHash::new(password_hash) {
        Ok(parsed) => argon2::Argon2::default().verify_password(password.as_bytes(), &parsed).is_ok(),
        Err(_) => false,
    }
}

/// The earliest and latest second that `chrono` can represent.
pub const MIN_TIMESTAMP: i64 = -8334601315200;
pub const MAX_TIMESTAMP: i64 = 8210266876799;

/// The largest token lifetime in minutes that `chrono::Duration::minutes`
/// accepts.
pub const MAX_TTL_MINUTES: i64 = 153722867280912;

/// Calls `chrono::Utc::now` and gives its Unix timestamp.  The contract
/// claims only what holds of every outcome: the time is at or after the
/// epoch (`now` panics otherwise) and representable by `chrono`.
#[verifier::external_body]
fn now_unix_seconds() -> (t: i64)
    ensures
        0 <= t <= MAX_TIMESTAMP,
{
    chrono::Utc::now().timestamp()
}

/// The HS256 token that `jsonwebtoken::encode` makes, with the default
/// header, of the claims `user_id`, `email` and `exp`, signed with the
/// secret; none when encoding fails.
pub uninterp spec fn jwt_token(user_id: Seq<char>, email: Seq<char>, exp: u64, secret: Seq<char>) -> Option<
    Seq<char>,
>;

/// Calls `jsonwebtoken::encode` with the default header, the claims
/// `user_id`, `email`, `exp` and a key made from the secret's bytes.  The
/// contract claims that the outcome is `jwt_token` of these values.
#[verifier::external_body]
fn encode_token(user_id: &str, email: &str, exp: u64, secret: &str) -> (r: Result<String, String>)
    ensures
        match r {
            Ok(t) => jwt_token(user_id@, email@, exp, secret@) == Some(t@),
            Err(_) => jwt_token(user_id@, email@, exp, secret@) is None,
        },
{
    let mut claims = serde_json::Map::new();
    claims.insert("user_id".to_owned(), serde_json::Value::from(user_id));
    claims.insert("email".to_owned(), serde_json::Value::from(email));
    claims.insert("exp".to_owned(), serde_json::Value::from(exp));
    let key = jsonwebtoken::EncodingKey::from_secret(secret.as_bytes());
    jsonwebtoken::encode(&jsonwebtoken::Header::default(), &claims, &key).map_err(|e| e.to_string())
}

/// The user an access token is issued to.
pub struct AuthUserResponse {
    pub id: String,
    pub email: String,
}

/// An access token and what it is good for.
pub struct AuthResponse {
    pub access_token: String,
    pub token_type: String,
    pub expires_in_seconds: i64,
    pub user: AuthUserResponse,
}

/// Why no token could be issued.
#[derive(Debug)]
pub enum TokenError {
    /// The expiry would fall outside what `chrono` can represent.
    ExpiryOutOfRange,
    /// Encoding failed, with the encoder's description.
    Encoding(String),
}

/// The `exp` claim of a token issued at `now`: the expiry in Unix seconds,
/// as an unsigned machine word.
pub open spec fn expiry_claim(now: int, ttl_minutes: i64) -> u64 {
    (now + ttl_minutes * 60) as u64
}

/// The token lifetime is one `chrono::Duration::minutes` accepts.
pub open spec fn ttl_in_range(config: AppConfig) -> bool {
    -MAX_TTL_MINUTES <= config.access_token_ttl_minutes <= MAX_TTL_MINUTES
}

/// What issuing a token at second `now` gives: refused when the expiry
/// falls outside what `chrono` can represent; otherwise the token that
/// `jsonwebtoken` encodes of the user's claims and the expiry, or the
/// encoder's failure.
pub open spec fn token_issued(
    config: AppConfig,
    user_id: Seq<char>,
    email: Seq<char>,
    now: int,
    r: Result<AuthResponse, TokenError>,
) -> bool {
    let expires_at = now + config.access_token_ttl_minutes * 60;
    if expires_at < MIN_TIMESTAMP || expires_at > MAX_TIMESTAMP {
        r matches Err(TokenError::ExpiryOutOfRange)
    } else {
        match jwt_token(
            user_id,
            email,
            expiry_claim(now, config.access_token_ttl_minutes),
            config.jwt_secret@,
        ) {
            Some(t) => match r {
                Ok(a) => {
                    &&& a.access_token@ == t
                    &&& a.token_type@ == "Bearer"@
                    &&& a.expires_in_seconds == config.access_token_ttl_minutes * 60
                    &&& a.user.id@ == user_id
                    &&& a.user.email@ == email
                },
                Err(_) => false,
            },
            None => r matches Err(TokenError::Encoding(_)),
        }
    }
}

/// `issue_access_token` at a given second since the epoch.
pub fn issue_access_token_at(config: &AppConfig, user_id: &str, email: String, now: i64) -> (r:
    Result<AuthResponse, TokenError>)
    requires
        ttl_in_range(*config),
        0 <= now <= MAX_TIMESTAMP,
    ensures
        token_issued(*config, user_id@, email@, now as int, r),
{
    let ttl_seconds = config.access_token_ttl_minutes * 60;
    let expires_at = now + ttl_seconds;
    if expires_at < MIN_TIMESTAMP || expires_at > MAX_TIMESTAMP {
        return Err(TokenError::ExpiryOutOfRange);
    }
    let exp: u64 = #[verifier::truncate] (expires_at as u64);
    assert(exp == expiry_claim(now as int, config.access_token_ttl_minutes));
    match encode_token(user_id, email.as_str(), exp, config.jwt_secret.as_str()) {
        Ok(access_token) => Ok(AuthResponse {
            access_token,
            token_type: "Bearer".to_owned(),
            expires_in_seconds: ttl_seconds,
            user: AuthUserResponse { id: user_id.to_owned(), email },
        }),
        Err(message) => Err(TokenError::Encoding(message)),
    }
}

/// `issue_access_token`: a bearer token for the user that expires the
/// configured number of minutes from now.
pub fn issue_access_token(config: &AppConfig, user_id: &str, email: String) -> (r: Result<
    AuthResponse,
    TokenError,
>)
    requires
        ttl_in_range(*config),
    ensures
        exists|now: int|
            0 <= now <= MAX_TIMESTAMP && #[trigger] token_issued(
                *config,
                user_id@,
                email@,
                now,
                r,
            ),
{
    let now = now_unix_seconds();
    issue_access_token_at(config, user_id, email, now)
}

} // verus!
