//! Registration and login.
use vstd::prelude::*;

use crate::backend::auth::{
    hash_password, issue_access_token, password_matches, token_issued, ttl_in_range,
    verify_password, AuthResponse, TokenError, MAX_TIMESTAMP,
};
use crate::backend::config::AppConfig;
use crate::backend::error::ServiceError;
use crate::text::push_str;

verus! {

/// A stored user, as login reads it.
pub struct StoredUser {
    pub id: String,
    pub email: String,
    pub password_hash: String,
}

/// Registers users and logs them in.
pub struct AuthService {
    config: AppConfig,
}

/// The message of an internal error: a context, `: ` and a description.
pub open spec fn internal_message(context: Seq<char>, detail: Seq<char>) -> Seq<char> {
    context + ": "@ + detail
}

fn internal(context: &str, detail: &str) -> (e: ServiceError)
    ensures
        e matches ServiceError::Internal(m) && m@ == internal_message(context@, detail@),
{
    let mut m = context.to_owned();
    push_str(&mut m, ": ");
    push_str(&mut m, detail);
    ServiceError::Internal(m)
}

/// The answer the service gives for the outcome of issuing a token: the
/// token itself, or an internal error that names what went wrong.
pub open spec fn answers_token(t: Result<AuthResponse, TokenError>, r: Result<AuthResponse, ServiceError>) -> bool {
    match t {
        Ok(a) => r == Ok::<AuthResponse, ServiceError>(a),
        Err(TokenError::ExpiryOutOfRange) => r matches Err(ServiceError::Internal(m)) && m@
            == internal_message("failed to issue access token"@, "expiry out of range"@),
        Err(TokenError::Encoding(d)) => r matches Err(ServiceError::Internal(m)) && m@
            == internal_message("failed to issue access token"@, d@),
    }
}

/// What the service answers with a token issued for the user at some second
/// since the epoch that the clock gave.
pub open spec fn token_answer(
    config: AppConfig,
    user_id: Seq<char>,
    email: Seq<char>,
    r: Result<AuthResponse, ServiceError>,
) -> bool {
    exists|now: int, t: Result<AuthResponse, TokenError>|
        0 <= now <= MAX_TIMESTAMP && #[trigger] token_issued(config, user_id, email, now, t)
            && answers_token(t, r)
}

fn token_answer_of(t: Result<AuthResponse, TokenError>) -> (r: Result<AuthResponse, ServiceError>)
    ensures
        answers_token(t, r),
{
    match t {
        Ok(a) => Ok(a),
        Err(TokenError::ExpiryOutOfRange) => Err(
            internal("failed to issue access token", "expiry out of range"),
        ),
        Err(TokenError::Encoding(m)) => Err(internal("failed to issue access token", m.as_str())),
    }
}

/// The error of a failed hashing with the description `detail`.
pub open spec fn hash_failure(e: ServiceError, detail: Seq<char>) -> bool {
    e matches ServiceError::Internal(m) && m@ == internal_message("failed to hash password"@, detail)
}

/// Login succeeds for a known user whose stored hash accepts the password.
pub open spec fn login_accepted(user: Option<StoredUser>, password: Seq<char>) -> bool {
    match user {
        Some(u) => password_matches(password, u.password_hash@),
        None => false,
    }
}

impl AuthService {
    /// The configuration tokens are issued with.
    pub closed spec fn config_spec(&self) -> AppConfig {
        self.config
    }

    /// `AuthService::new`.
    pub fn new(config: AppConfig) -> (s: AuthService)
        ensures
            s.config_spec() == config,
    {
        AuthService { config }
    }

    /// `register`, its first step: the hash stored for the new user's
    /// password; when hashing fails, an internal error that gives the
    /// hasher's description.
    pub fn prepare_registration(&self, password: &str) -> (r: Result<String, ServiceError>)
        ensures
            match r {
                Ok(h) => password_matches(password@, h@),
                Err(e) => exists|d: Seq<char>| #[trigger] hash_failure(e, d),
            },
    {
        let hashed = hash_password(password);
        let ghost g = hashed;
        let r = Self::registration_hash_answer(hashed);
        proof {
            match g {
                Err(d) => {
                    assert(hash_failure(r->Err_0, d@));
                },
                Ok(_) => {},
            }
        }
        r
    }

    /// `register`, what it makes of the hasher's outcome: the hash, or an
    /// internal error "failed to hash password: " and the description.
    pub fn registration_hash_answer(hashed: Result<String, String>) -> (r: Result<
        String,
        ServiceError,
    >)
        ensures
            match hashed {
                Ok(h) => r matches Ok(g) && g@ == h@,
                Err(d) => r matches Err(e) && hash_failure(e, d@),
            },
    {
        match hashed {
            Ok(h) => Ok(h),
            Err(m) => Err(internal("failed to hash password", m.as_str())),
        }
    }

    /// `register`, its check: an email that is taken is refused.
    pub fn ensure_email_available(email_taken: bool) -> (r: Result<(), ServiceError>)
        ensures
            r is Ok <==> !email_taken,
            r matches Err(e) ==> e matches ServiceError::Conflict(m) && m@
                == "email already exists"@,
    {
        if email_taken {
            Err(ServiceError::Conflict("email already exists".to_owned()))
        } else {
            Ok(())
        }
    }

    /// `register`, its last step: the token of the user just stored.
    pub fn finish_registration(&self, user_id: &str, email: String) -> (r: Result<
        AuthResponse,
        ServiceError,
    >)
        requires
            ttl_in_range(self.config_spec()),
        ensures
            token_answer(self.config_spec(), user_id@, email@, r),
    {
        let ghost e = email@;
        let t = issue_access_token(&self.config, user_id, email);
        let ghost tg = t;
        let r = token_answer_of(t);
        proof {
            let now = choose|now: int|
                0 <= now <= MAX_TIMESTAMP && #[trigger] token_issued(
                    self.config_spec(),
                    user_id@,
                    e,
                    now,
                    tg,
                );
            assert(token_issued(self.config_spec(), user_id@, e, now, tg));
        }
        r
    }

    /// `login`, its decision on the user found by email: unauthorised when
    /// there is none or the password does not match, else a token.
    pub fn login(&self, user: Option<StoredUser>, password: &str) -> (r: Result<
        AuthResponse,
        ServiceError,
    >)
        requires
            login_accepted(user, password@) ==> ttl_in_range(self.config_spec()),
        ensures
            !login_accepted(user, password@) ==> r matches Err(ServiceError::Unauthorized),
            login_accepted(user, password@) ==> token_answer(
                self.config_spec(),
                user->0.id@,
                user->0.email@,
                r,
            ),
    {
        let u = match user {
            Some(u) => u,
            None => return Err(ServiceError::Unauthorized),
        };
        if !verify_password(password, u.password_hash.as_str()) {
            return Err(ServiceError::Unauthorized);
        }
        let ghost id = u.id@;
        let ghost e = u.email@;
        let t = issue_access_token(&self.config, u.id.as_str(), u.email);
        let ghost tg = t;
        let r = token_answer_of(t);
        proof {
            let now = choose|now: int|
                0 <= now <= MAX_TIMESTAMP && #[trigger] token_issued(
                    self.config_spec(),
                    id,
                    e,
                    now,
                    tg,
                );
            assert(token_issued(self.config_spec(), id, e, now, tg));
        }
        r
    }
}

/// A user logs in with the password they registered with: the hash that
/// registration stores for a password accepts that password at login.
pub proof fn law_registered_password_logs_in(
    password: Seq<char>,
    stored_hash: String,
    id: String,
    email: String,
)
    requires
        password_matches(password, stored_hash@),
    ensures
        login_accepted(Some(StoredUser { id, email, password_hash: stored_hash }), password),
{
}

} // verus!
