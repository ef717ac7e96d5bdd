//! Signed session tokens that carry a user's identity and role, and the
//! role check that decides whether the bearer of a token may proceed.

pub mod claims;
mod clock;
pub mod error;
pub mod laws;
pub mod manager;
pub mod payload;
pub mod role;
pub mod token;
pub mod wire;

pub use claims::TokenClaims;
pub use error::{AuthError, TokenError};
pub use manager::JwtManager;
pub use role::UserRole;
