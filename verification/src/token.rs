//! Signing a payload into a token and opening a token again, both done by
//! `jsonwebtoken` with HMAC-SHA256. The two results are named, not
//! described: the library's contracts say what is signed and what is done
//! with what was opened.

use crate::payload::{payload_fields, plain_fields, MemberView};
use vstd::prelude::*;

verus! {

/// `jsonwebtoken::errors::Error`, the signer's and the verifier's error.
/// It is carried through and never looked into.
#[verifier::external_type_specification]
#[verifier::external_body]
pub struct ExSignerError(jsonwebtoken::errors::Error);

/// The token that `jsonwebtoken::encode` makes of a payload with these
/// fields under this secret, or `None` where it makes none.
pub uninterp spec fn signed_token(secret: Seq<char>, fields: Map<Seq<char>, MemberView>) -> Option<Seq<char>>;

/// The fields of the payload that `jsonwebtoken::decode` finds in a token
/// under this secret, the expiry left unjudged, or `None` where it refuses
/// the token.
pub uninterp spec fn opened_fields(secret: Seq<char>, token: Seq<char>) -> Option<Map<Seq<char>, MemberView>>;

/// `jsonwebtoken::encode` with the default header, which names HS256, and
/// the secret's bytes as the key. The result depends on the secret and on
/// the payload alone; for a payload of `null`s, unsigned integers and
/// strings the payload is given by its fields.
#[verifier::external_body]
pub(crate) fn sign_payload(payload: &serde_json::Map<String, serde_json::Value>, secret: &str) -> (token:
    Result<String, jsonwebtoken::errors::Error>)
    requires
        plain_fields(payload_fields(*payload)),
    ensures
        match token {
            Ok(text) => signed_token(secret@, payload_fields(*payload)) == Some(text@),
            Err(_) => signed_token(secret@, payload_fields(*payload)) is None,
        },
{
    jsonwebtoken::encode(
        &jsonwebtoken::Header::default(),
        payload,
        &jsonwebtoken::EncodingKey::from_secret(secret.as_bytes()),
    )
}

/// `jsonwebtoken::decode` for HS256 with the secret's bytes as the key, and
/// with its own expiry check switched off: it never reads the clock, so the
/// result depends on the token and the secret alone. It still refuses a
/// token that is not three segments, whose header names another algorithm,
/// whose signature does not match, or whose payload is not a JSON object
/// with a numeric `exp` and without an `aud`.
#[verifier::external_body]
pub(crate) fn open_token(token: &str, secret: &str) -> (payload: Result<
    serde_json::Map<String, serde_json::Value>,
    jsonwebtoken::errors::Error,
>)
    ensures
        match payload {
            Ok(found) => opened_fields(secret@, token@) == Some(payload_fields(found)),
            Err(_) => opened_fields(secret@, token@) is None,
        },
{
    let mut validation = jsonwebtoken::Validation::new(jsonwebtoken::Algorithm::HS256);
    validation.validate_exp = false;
    let key = jsonwebtoken::DecodingKey::from_secret(secret.as_bytes());
    jsonwebtoken::decode::<serde_json::Map<String, serde_json::Value>>(token, &key, &validation).map(
        |data| data.claims,
    )
}

} // verus!
