//! How claims stand in a token payload: six members, under the keys
//! `userId`, `userName`, `iap`, `iat`, `exp` and `role`.

use crate::claims::{claims_view, ClaimsView, TokenClaims};
use crate::payload::{
    no_fields, payload_fields, payload_get, payload_new, payload_put_null, payload_put_text,
    payload_put_unsigned, plain_fields, Member, MemberView,
};
use crate::role::UserRole;
use vstd::prelude::*;

verus! {

/// The member that stands for an optional number: the number, or `null`
/// where there is none.
pub open spec fn optional_member(number: Option<usize>) -> MemberView {
    match number {
        Some(n) => MemberView::Number(Some(n as u64)),
        None => MemberView::Null,
    }
}

/// The fields that a payload holds for `claims`. The role stands under its
/// upper-case name, and an absent `iap` as `null`.
pub open spec fn claim_fields(claims: ClaimsView) -> Map<Seq<char>, MemberView> {
    no_fields().insert("userId"@, MemberView::Text(claims.user_id)).insert(
        "userName"@,
        MemberView::Text(claims.user_name),
    ).insert("iap"@, optional_member(claims.iap)).insert(
        "iat"@,
        MemberView::Number(Some(claims.iat as u64)),
    ).insert("exp"@, MemberView::Number(Some(claims.exp as u64))).insert(
        "role"@,
        MemberView::Text(claims.role.wire_name()),
    )
}

/// The string under `key`, where there is a member under `key` and it is a
/// string.
pub open spec fn text_field(fields: Map<Seq<char>, MemberView>, key: Seq<char>) -> Option<
    Seq<char>,
> {
    if fields.contains_key(key) {
        match fields[key] {
            MemberView::Text(text) => Some(text),
            _ => None,
        }
    } else {
        None
    }
}

/// The number under `key`, where there is a member under `key` and it is
/// an unsigned integer that fits `usize`.
pub open spec fn number_field(fields: Map<Seq<char>, MemberView>, key: Seq<char>) -> Option<
    usize,
> {
    if fields.contains_key(key) {
        match fields[key] {
            MemberView::Number(Some(n)) if n <= usize::MAX => Some(n as usize),
            _ => None,
        }
    } else {
        None
    }
}

/// The optional number under `key`: none where the member is missing or
/// `null`, the number where it is an unsigned integer that fits `usize`.
/// Any other member is an error, which is the outer `None`.
pub open spec fn optional_number_field(
    fields: Map<Seq<char>, MemberView>,
    key: Seq<char>,
) -> Option<Option<usize>> {
    if fields.contains_key(key) {
        match fields[key] {
            MemberView::Null => Some(None),
            MemberView::Number(Some(n)) if n <= usize::MAX => Some(Some(n as usize)),
            _ => None,
        }
    } else {
        Some(None)
    }
}

/// The claims that a payload's fields stand for. There are none unless
/// `userId` and `userName` are strings, `iat` and `exp` are unsigned
/// integers that fit `usize`, `iap` is such an integer, `null` or missing,
/// and `role` is one of the four upper-case role names. Members under other
/// keys are ignored.
pub open spec fn claims_of_fields(fields: Map<Seq<char>, MemberView>) -> Option<ClaimsView> {
    match (
        text_field(fields, "userId"@),
        text_field(fields, "userName"@),
        optional_number_field(fields, "iap"@),
        number_field(fields, "iat"@),
        number_field(fields, "exp"@),
        text_field(fields, "role"@),
    ) {
        (Some(user_id), Some(user_name), Some(iap), Some(iat), Some(exp), Some(role_name)) => {
            match UserRole::of_wire_name(role_name) {
                Some(role) => Some(ClaimsView { user_id, user_name, iap, iat, exp, role }),
                None => None,
            }
        },
        _ => None,
    }
}

/// The six keys of a payload are six different texts.
pub proof fn lemma_keys_differ()
    ensures
        "userId"@ != "userName"@,
        "userId"@ != "iap"@,
        "userId"@ != "iat"@,
        "userId"@ != "exp"@,
        "userId"@ != "role"@,
        "userName"@ != "iap"@,
        "userName"@ != "iat"@,
        "userName"@ != "exp"@,
        "userName"@ != "role"@,
        "iap"@ != "iat"@,
        "iap"@ != "exp"@,
        "iap"@ != "role"@,
        "iat"@ != "exp"@,
        "iat"@ != "role"@,
        "exp"@ != "role"@,
{
    reveal_strlit("userId");
    reveal_strlit("userName");
    reveal_strlit("iap");
    reveal_strlit("iat");
    reveal_strlit("exp");
    reveal_strlit("role");
    assert("userId"@.len() == 6);
    assert("userName"@.len() == 8);
    assert("iap"@.len() == 3);
    assert("iat"@.len() == 3);
    assert("exp"@.len() == 3);
    assert("role"@.len() == 4);
    assert("iap"@[2] != "iat"@[2]);
    assert("iap"@[0] != "exp"@[0]);
    assert("iat"@[0] != "exp"@[0]);
}

/// The payload written for claims holds nothing but `null`s, unsigned
/// integers and strings.
pub proof fn lemma_claim_fields_plain(claims: ClaimsView)
    ensures
        plain_fields(claim_fields(claims)),
{
}

/// The value of a string that may be absent.
pub open spec fn text_view(text: Option<String>) -> Option<Seq<char>> {
    match text {
        Some(s) => Some(s@),
        None => None,
    }
}

fn read_text(payload: &serde_json::Map<String, serde_json::Value>, key: &str) -> (text: Option<
    String,
>)
    ensures
        text_view(text) == text_field(payload_fields(*payload), key@),
{
    match payload_get(payload, key) {
        Some(Member::Text(s)) => Some(s),
        _ => None,
    }
}

fn read_number(payload: &serde_json::Map<String, serde_json::Value>, key: &str) -> (number: Option<
    usize,
>)
    ensures
        number == number_field(payload_fields(*payload), key@),
{
    match payload_get(payload, key) {
        Some(Member::Number(Some(n))) => {
            if n <= usize::MAX as u64 {
                Some(n as usize)
            } else {
                None
            }
        },
        _ => None,
    }
}

fn read_optional_number(payload: &serde_json::Map<String, serde_json::Value>, key: &str) -> (number:
    Option<Option<usize>>)
    ensures
        number == optional_number_field(payload_fields(*payload), key@),
{
    match payload_get(payload, key) {
        None => Some(None),
        Some(Member::Null) => Some(None),
        Some(Member::Number(Some(n))) => {
            if n <= usize::MAX as u64 {
                Some(Some(n as usize))
            } else {
                None
            }
        },
        Some(_) => None,
    }
}

impl TokenClaims {
    /// Writes the claims into a fresh payload.
    pub fn to_payload(&self) -> (payload: serde_json::Map<String, serde_json::Value>)
        ensures
            payload_fields(payload) == claim_fields(self@),
    {
        let mut payload = payload_new();
        payload_put_text(&mut payload, "userId", self.user_id.as_str());
        payload_put_text(&mut payload, "userName", self.user_name.as_str());
        match self.iap {
            Some(n) => payload_put_unsigned(&mut payload, "iap", n as u64),
            None => payload_put_null(&mut payload, "iap"),
        }
        payload_put_unsigned(&mut payload, "iat", self.iat as u64);
        payload_put_unsigned(&mut payload, "exp", self.exp as u64);
        payload_put_text(&mut payload, "role", self.role.name());
        payload
    }

    /// Reads claims from a payload. Returns `None` where the payload does
    /// not hold claims: a required member is missing, or a member is of the
    /// wrong kind, or the role's name is not one of the four.
    pub fn from_payload(payload: &serde_json::Map<String, serde_json::Value>) -> (claims: Option<
        TokenClaims,
    >)
        ensures
            claims_view(claims) == claims_of_fields(payload_fields(*payload)),
    {
        let user_id = read_text(payload, "userId");
        let user_name = read_text(payload, "userName");
        let iap = read_optional_number(payload, "iap");
        let iat = read_number(payload, "iat");
        let exp = read_number(payload, "exp");
        let role_name = read_text(payload, "role");
        match (user_id, user_name, iap, iat, exp, role_name) {
            (Some(user_id), Some(user_name), Some(iap), Some(iat), Some(exp), Some(role_name)) => {
                match UserRole::from_name(role_name.as_str()) {
                    Some(role) => Some(TokenClaims { user_id, user_name, iap, iat, exp, role }),
                    None => None,
                }
            },
            _ => None,
        }
    }
}

} // verus!
