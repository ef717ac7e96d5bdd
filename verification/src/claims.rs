//! The claims a token carries, how an issuer fills them in, and when they
//! have expired.

use crate::role::UserRole;
use vstd::prelude::*;

verus! {

/// The payload of a token: who the bearer is, in which role, and for how
/// long the token holds.
#[derive(Debug, Clone, PartialEq, Eq)]
pub struct TokenClaims {
    /// The user's identity.
    pub user_id: String,
    /// The user's display name.
    pub user_name: String,
    /// An auxiliary identifier, absent unless the issuer was given one.
    pub iap: Option<usize>,
    /// When the token was issued, in seconds since the epoch.
    pub iat: usize,
    /// When the token expires, in seconds since the epoch.
    pub exp: usize,
    /// The user's role.
    pub role: UserRole,
}

/// The mathematical value of a [`TokenClaims`].
pub struct ClaimsView {
    pub user_id: Seq<char>,
    pub user_name: Seq<char>,
    pub iap: Option<usize>,
    pub iat: usize,
    pub exp: usize,
    pub role: UserRole,
}

impl View for TokenClaims {
    type V = ClaimsView;

    open spec fn view(&self) -> ClaimsView {
        ClaimsView {
            user_id: self.user_id@,
            user_name: self.user_name@,
            iap: self.iap,
            iat: self.iat,
            exp: self.exp,
            role: self.role,
        }
    }
}

/// The value of claims that may be absent.
pub open spec fn claims_view(claims: Option<TokenClaims>) -> Option<ClaimsView> {
    match claims {
        Some(c) => Some(c@),
        None => None,
    }
}

/// Whether a time, in seconds since the epoch, fits a claims record.
pub open spec fn fits_claims(seconds: int) -> bool {
    0 <= seconds <= usize::MAX
}

impl ClaimsView {
    /// The claims of a token issued at `now` for `lifetime` seconds: issued
    /// at `now`, expiring at `now + lifetime`. There are none where one of
    /// the two times does not fit a claims record.
    pub open spec fn issued(
        user_id: Seq<char>,
        user_name: Seq<char>,
        role: UserRole,
        iap: Option<usize>,
        lifetime: int,
        now: int,
    ) -> Option<ClaimsView> {
        if fits_claims(now) && fits_claims(now + lifetime) {
            Some(
                ClaimsView {
                    user_id,
                    user_name,
                    iap,
                    iat: now as usize,
                    exp: (now + lifetime) as usize,
                    role,
                },
            )
        } else {
            None
        }
    }

    /// Whether the claims have expired at `now`: the expiry itself is
    /// already too late.
    pub open spec fn expired_at(self, now: int) -> bool {
        now >= self.exp
    }
}

impl TokenClaims {
    /// Fills in the claims of a token issued at `now`, in seconds since the
    /// epoch, for `lifetime_seconds`. The lifetime is not judged: with a
    /// lifetime of zero or less the claims have expired from the start.
    /// Returns `None` where `now` or the expiry does not fit the claims.
    pub fn issue(
        user_id: &str,
        user_name: &str,
        role: UserRole,
        iap: Option<usize>,
        lifetime_seconds: i64,
        now: i64,
    ) -> (claims: Option<TokenClaims>)
        ensures
            claims_view(claims) == ClaimsView::issued(
                user_id@,
                user_name@,
                role,
                iap,
                lifetime_seconds as int,
                now as int,
            ),
    {
        let expiry: i128 = now as i128 + lifetime_seconds as i128;
        if now < 0 || now as i128 > usize::MAX as i128 || expiry < 0 || expiry > usize::MAX as i128 {
            return None;
        }
        Some(
            TokenClaims {
                user_id: user_id.to_owned(),
                user_name: user_name.to_owned(),
                iap,
                iat: now as usize,
                exp: expiry as usize,
                role,
            },
        )
    }

    /// Whether the claims have expired at `now`, in seconds since the epoch.
    pub fn is_expired_at(&self, now: i64) -> (expired: bool)
        ensures
            expired == self@.expired_at(now as int),
    {
        now as i128 >= self.exp as i128
    }
}

} // verus!
