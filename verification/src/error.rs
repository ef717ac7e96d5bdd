//! The ways in which issuing, verifying and authorizing can fail.

use vstd::prelude::*;

verus! {

/// Why a token could not be issued or was not accepted.
#[derive(Debug, Clone, Copy, PartialEq, Eq, Structural)]
pub enum TokenError {
    /// No token could be produced: the signer refused the claims, or a
    /// timestamp does not fit the claims.
    SigningFailure,
    /// The token is malformed, its signature does not match, or it has
    /// expired. The three are not told apart.
    InvalidOrExpired,
}

/// Why a request was not authorized.
#[derive(Debug, Clone, Copy, PartialEq, Eq, Structural)]
pub enum AuthError {
    /// The token itself was not accepted; the cause is inside.
    Jwt(TokenError),
    /// The token is valid, but its role is not among the allowed ones.
    Forbidden,
    /// The request carried no token.
    MissingToken,
    /// The request's authorization header was not a bearer header.
    InvalidAuthHeader,
}

impl AuthError {
    /// The HTTP status that answers the error: 403 for a role that is not
    /// allowed, 401 for everything else.
    pub fn status_code(&self) -> (code: u16)
        ensures
            code == (match *self {
                AuthError::Forbidden => 403u16,
                AuthError::Jwt(_) | AuthError::MissingToken | AuthError::InvalidAuthHeader => 401u16,
            }),
    {
        match self {
            AuthError::Forbidden => 403,
            _ => 401,
        }
    }

    /// The text that answers the error.
    pub fn message(&self) -> (text: &'static str)
        ensures
            text@ == (match *self {
                AuthError::Jwt(_) => "Invalid or expired token"@,
                AuthError::Forbidden => "Insufficient permissions"@,
                AuthError::MissingToken => "Missing authorization token"@,
                AuthError::InvalidAuthHeader => "Invalid authorization header"@,
            }),
    {
        match self {
            AuthError::Jwt(_) => "Invalid or expired token",
            AuthError::Forbidden => "Insufficient permissions",
            AuthError::MissingToken => "Missing authorization token",
            AuthError::InvalidAuthHeader => "Invalid authorization header",
        }
    }
}

} // verus!
