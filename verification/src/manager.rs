//! The token manager: it holds the signing secret, issues tokens, verifies
//! them, and checks the bearer's role.
//!
//! Every operation that reads the clock has a twin that takes the time as
//! an argument. The twin's contract is exact; the operation itself promises
//! that its result is the twin's at some time.

use crate::claims::{claims_view, ClaimsView, TokenClaims};
use crate::clock::unix_now;
use crate::error::{AuthError, TokenError};
use crate::role::UserRole;
use crate::token::{open_token, opened_fields, sign_payload, signed_token};
use crate::wire::{claim_fields, claims_of_fields, lemma_claim_fields_plain};
use vstd::prelude::*;

verus! {

/// What issuing gives at `now`: the token that the signer makes of the
/// issued claims' fields; a signing failure where the claims cannot be
/// filled in or the signer makes no token.
pub open spec fn issue_outcome(
    secret: Seq<char>,
    user_id: Seq<char>,
    user_name: Seq<char>,
    role: UserRole,
    iap: Option<usize>,
    lifetime: int,
    now: int,
) -> Result<Seq<char>, TokenError> {
    match ClaimsView::issued(user_id, user_name, role, iap, lifetime, now) {
        Some(claims) => match signed_token(secret, claim_fields(claims)) {
            Some(token) => Ok(token),
            None => Err(TokenError::SigningFailure),
        },
        None => Err(TokenError::SigningFailure),
    }
}

/// What verifying gives for claims read from a payload, at `now`: the
/// claims, unless there are none or they have expired.
pub open spec fn accept_outcome(claims: Option<ClaimsView>, now: int) -> Result<
    ClaimsView,
    TokenError,
> {
    match claims {
        Some(c) => if c.expired_at(now) {
            Err(TokenError::InvalidOrExpired)
        } else {
            Ok(c)
        },
        None => Err(TokenError::InvalidOrExpired),
    }
}

/// What verifying gives at `now`: the claims in the token's payload, unless
/// the token is refused, its payload holds no claims, or `now` is at or
/// after the expiry. Every failure is the same error.
pub open spec fn decode_outcome(secret: Seq<char>, token: Seq<char>, now: int) -> Result<
    ClaimsView,
    TokenError,
> {
    match opened_fields(secret, token) {
        Some(fields) => accept_outcome(claims_of_fields(fields), now),
        None => Err(TokenError::InvalidOrExpired),
    }
}

/// What the role check gives for the outcome of verifying: the claims where
/// their role is allowed, `Forbidden` where it is not, and the verifier's
/// error, wrapped, whatever the allowed roles are.
pub open spec fn authorize_outcome(
    decoded: Result<ClaimsView, TokenError>,
    allowed: Seq<UserRole>,
) -> Result<ClaimsView, AuthError> {
    match decoded {
        Ok(claims) => if allowed.contains(claims.role) {
            Ok(claims)
        } else {
            Err(AuthError::Forbidden)
        },
        Err(cause) => Err(AuthError::Jwt(cause)),
    }
}

/// Whether the outcome of verifying is claims with an allowed role.
pub open spec fn has_role_outcome(
    decoded: Result<ClaimsView, TokenError>,
    allowed: Seq<UserRole>,
) -> bool {
    match decoded {
        Ok(claims) => allowed.contains(claims.role),
        Err(_) => false,
    }
}

/// The value of a token or the error in its place.
pub open spec fn token_view(token: Result<String, TokenError>) -> Result<Seq<char>, TokenError> {
    match token {
        Ok(text) => Ok(text@),
        Err(cause) => Err(cause),
    }
}

/// The value of claims or the error in their place.
pub open spec fn outcome_view<E>(outcome: Result<TokenClaims, E>) -> Result<ClaimsView, E> {
    match outcome {
        Ok(claims) => Ok(claims@),
        Err(cause) => Err(cause),
    }
}

/// Judges claims read from a payload at `now`: they are returned unless
/// there are none or they have expired.
pub fn accept_claims(claims: Option<TokenClaims>, now: i64) -> (outcome: Result<
    TokenClaims,
    TokenError,
>)
    ensures
        outcome_view(outcome) == accept_outcome(claims_view(claims), now as int),
{
    match claims {
        Some(c) => {
            if c.is_expired_at(now) {
                Err(TokenError::InvalidOrExpired)
            } else {
                Ok(c)
            }
        },
        None => Err(TokenError::InvalidOrExpired),
    }
}

/// Checks the role of verified claims against the allowed roles.
pub fn authorize_claims(decoded: Result<TokenClaims, TokenError>, allowed: &[UserRole]) -> (outcome:
    Result<TokenClaims, AuthError>)
    ensures
        outcome_view(outcome) == authorize_outcome(outcome_view(decoded), allowed@),
{
    match decoded {
        Ok(claims) => {
            if claims.role.is_one_of(allowed) {
                Ok(claims)
            } else {
                Err(AuthError::Forbidden)
            }
        },
        Err(cause) => Err(AuthError::Jwt(cause)),
    }
}

/// Issues and verifies tokens under one secret, which is set once and
/// never changes.
#[derive(Clone)]
pub struct JwtManager {
    secret_key: String,
}

impl JwtManager {
    /// The secret that the manager signs and verifies with.
    pub closed spec fn secret(&self) -> Seq<char> {
        self.secret_key@
    }

    /// A manager for the given secret.
    pub fn new(secret_key: &str) -> (manager: Self)
        ensures
            manager.secret() == secret_key@,
    {
        JwtManager { secret_key: secret_key.to_owned() }
    }

    /// Issues a token as of `now`, in seconds since the epoch.
    pub fn generate_jwt_at(
        &self,
        user_id: &str,
        user_name: &str,
        role: UserRole,
        iap: Option<usize>,
        expiration_seconds: i64,
        now: i64,
    ) -> (token: Result<String, TokenError>)
        ensures
            token_view(token) == issue_outcome(
                self.secret(),
                user_id@,
                user_name@,
                role,
                iap,
                expiration_seconds as int,
                now as int,
            ),
    {
        match TokenClaims::issue(user_id, user_name, role, iap, expiration_seconds, now) {
            Some(claims) => {
                let payload = claims.to_payload();
                proof {
                    lemma_claim_fields_plain(claims@);
                }
                match sign_payload(&payload, self.secret_key.as_str()) {
                    Ok(token) => Ok(token),
                    Err(_) => Err(TokenError::SigningFailure),
                }
            },
            None => Err(TokenError::SigningFailure),
        }
    }

    /// Issues a token for the user, in the role given, that expires
    /// `expiration_seconds` after the current time.
    pub fn generate_jwt(
        &self,
        user_id: &str,
        user_name: &str,
        role: UserRole,
        iap: Option<usize>,
        expiration_seconds: i64,
    ) -> (token: Result<String, TokenError>)
        ensures
            exists|now: int|
                0 <= now <= i64::MAX && token_view(token) == #[trigger] issue_outcome(
                    self.secret(),
                    user_id@,
                    user_name@,
                    role,
                    iap,
                    expiration_seconds as int,
                    now,
                ),
    {
        let now = unix_now();
        self.generate_jwt_at(user_id, user_name, role, iap, expiration_seconds, now)
    }

    /// Verifies a token as of `now`, in seconds since the epoch.
    pub fn decode_jwt_at(&self, token: &str, now: i64) -> (outcome: Result<TokenClaims, TokenError>)
        ensures
            outcome_view(outcome) == decode_outcome(self.secret(), token@, now as int),
    {
        match open_token(token, self.secret_key.as_str()) {
            Ok(payload) => accept_claims(TokenClaims::from_payload(&payload), now),
            Err(_) => Err(TokenError::InvalidOrExpired),
        }
    }

    /// Verifies a token at the current time and returns its claims.
    pub fn decode_jwt(&self, token: &str) -> (outcome: Result<TokenClaims, TokenError>)
        ensures
            exists|now: int|
                0 <= now <= i64::MAX && outcome_view(outcome) == #[trigger] decode_outcome(
                    self.secret(),
                    token@,
                    now,
                ),
    {
        let now = unix_now();
        self.decode_jwt_at(token, now)
    }

    /// Whether the token is valid as of `now` and carries an allowed role.
    pub fn has_role_at(&self, token: &str, allowed: &[UserRole], now: i64) -> (permitted: bool)
        ensures
            permitted == has_role_outcome(
                decode_outcome(self.secret(), token@, now as int),
                allowed@,
            ),
    {
        match self.decode_jwt_at(token, now) {
            Ok(claims) => claims.role.is_one_of(allowed),
            Err(_) => false,
        }
    }

    /// Whether the token is valid at the current time and carries an
    /// allowed role. An invalid token and a role that is not allowed both
    /// give `false`.
    pub fn has_role(&self, token: &str, allowed: &[UserRole]) -> (permitted: bool)
        ensures
            exists|now: int|
                0 <= now <= i64::MAX && permitted == has_role_outcome(
                    #[trigger] decode_outcome(self.secret(), token@, now),
                    allowed@,
                ),
    {
        let now = unix_now();
        self.has_role_at(token, allowed, now)
    }

    /// Verifies a token as of `now` and checks its role.
    pub fn authorize_roles_at(&self, token: &str, allowed: &[UserRole], now: i64) -> (outcome:
        Result<TokenClaims, AuthError>)
        ensures
            outcome_view(outcome) == authorize_outcome(
                decode_outcome(self.secret(), token@, now as int),
                allowed@,
            ),
    {
        authorize_claims(self.decode_jwt_at(token, now), allowed)
    }

    /// Verifies a token at the current time and checks its role: the claims
    /// where the role is allowed, `Forbidden` where it is not, and the
    /// verifier's error where the token is not valid.
    pub fn authorize_roles(&self, token: &str, allowed: &[UserRole]) -> (outcome: Result<
        TokenClaims,
        AuthError,
    >)
        ensures
            exists|now: int|
                0 <= now <= i64::MAX && outcome_view(outcome) == authorize_outcome(
                    #[trigger] decode_outcome(self.secret(), token@, now),
                    allowed@,
                ),
    {
        let now = unix_now();
        self.authorize_roles_at(token, allowed, now)
    }
}

} // verus!
