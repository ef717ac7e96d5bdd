//! The payload of a token: a JSON object, kept in `serde_json`'s own map.
//!
//! Verus sees nothing inside that map. What the library reads of it is
//! modelled by [`payload_fields`], and the functions below are the only
//! places that touch it. Their contracts are believed, not proved.

use vstd::prelude::*;

verus! {

/// `serde_json::Value`, a JSON value. Nothing inside it is visible here.
#[verifier::external_type_specification]
#[verifier::external_body]
pub struct ExJsonValue(serde_json::Value);

/// `serde_json::Map`, a JSON object. Nothing inside it is visible here;
/// [`payload_fields`] stands for what it holds.
#[verifier::external_type_specification]
#[verifier::external_body]
#[verifier::reject_recursive_types(K)]
#[verifier::reject_recursive_types(V)]
pub struct ExJsonMap<K, V>(serde_json::Map<K, V>);

/// One member of a payload, as far as the library reads it.
#[derive(Debug)]
pub enum Member {
    /// JSON `null`.
    Null,
    /// A number, with its value where it is a non-negative integer below
    /// 2^64. A negative or fractional number has no such value.
    Number(Option<u64>),
    /// A string.
    Text(String),
    /// Anything else: a boolean, an array, an object.
    Other,
}

/// The mathematical value of a [`Member`].
pub enum MemberView {
    Null,
    Number(Option<u64>),
    Text(Seq<char>),
    Other,
}

impl View for Member {
    type V = MemberView;

    open spec fn view(&self) -> MemberView {
        match self {
            Member::Null => MemberView::Null,
            Member::Number(n) => MemberView::Number(*n),
            Member::Text(s) => MemberView::Text(s@),
            Member::Other => MemberView::Other,
        }
    }
}

/// The members of a payload, by key.
pub uninterp spec fn payload_fields(payload: serde_json::Map<String, serde_json::Value>) -> Map<Seq<char>, MemberView>;

/// The fields of a payload without members.
pub open spec fn no_fields() -> Map<Seq<char>, MemberView> {
    Map::empty()
}

/// A member that is `null`, an unsigned integer or a string.
pub open spec fn plain_member(member: MemberView) -> bool {
    match member {
        MemberView::Null => true,
        MemberView::Number(value) => value is Some,
        MemberView::Text(_) => true,
        MemberView::Other => false,
    }
}

/// A payload in which every member is `null`, an unsigned integer or a
/// string. Such a payload is determined by its fields.
pub open spec fn plain_fields(fields: Map<Seq<char>, MemberView>) -> bool {
    forall|key: Seq<char>| fields.contains_key(key) ==> plain_member(#[trigger] fields[key])
}

/// `serde_json::Map::new`: a map without members.
#[verifier::external_body]
pub(crate) fn payload_new() -> (payload: serde_json::Map<String, serde_json::Value>)
    ensures
        payload_fields(payload) == no_fields(),
{
    serde_json::Map::new()
}

/// `serde_json::Map::insert` with a string value: the member under `key` is
/// now that string, and the other members are as before.
#[verifier::external_body]
pub(crate) fn payload_put_text(
    payload: &mut serde_json::Map<String, serde_json::Value>,
    key: &str,
    text: &str,
)
    ensures
        payload_fields(*final(payload)) == payload_fields(*old(payload)).insert(
            key@,
            MemberView::Text(text@),
        ),
{
    payload.insert(key.to_string(), serde_json::Value::String(text.to_string()));
}

/// `serde_json::Map::insert` with an unsigned number: the member under `key`
/// is now that number, and the other members are as before.
#[verifier::external_body]
pub(crate) fn payload_put_unsigned(
    payload: &mut serde_json::Map<String, serde_json::Value>,
    key: &str,
    number: u64,
)
    ensures
        payload_fields(*final(payload)) == payload_fields(*old(payload)).insert(
            key@,
            MemberView::Number(Some(number)),
        ),
{
    payload.insert(key.to_string(), serde_json::Value::from(number));
}

/// `serde_json::Map::insert` with `null`: the member under `key` is now
/// `null`, and the other members are as before.
#[verifier::external_body]
pub(crate) fn payload_put_null(payload: &mut serde_json::Map<String, serde_json::Value>, key: &str)
    ensures
        payload_fields(*final(payload)) == payload_fields(*old(payload)).insert(
            key@,
            MemberView::Null,
        ),
{
    payload.insert(key.to_string(), serde_json::Value::Null);
}

/// `serde_json::Map::get`: the member under `key`, if there is one. A
/// number comes with what `serde_json::Number::as_u64` gives for it.
#[verifier::external_body]
pub(crate) fn payload_get(payload: &serde_json::Map<String, serde_json::Value>, key: &str) -> (member:
    Option<Member>)
    ensures
        match member {
            Some(m) => payload_fields(*payload).contains_key(key@) && payload_fields(
                *payload,
            )[key@] == m@,
            None => !payload_fields(*payload).contains_key(key@),
        },
{
    match payload.get(key) {
        None => None,
        Some(serde_json::Value::Null) => Some(Member::Null),
        Some(serde_json::Value::String(s)) => Some(Member::Text(s.clone())),
        Some(serde_json::Value::Number(n)) => Some(Member::Number(n.as_u64())),
        Some(_) => Some(Member::Other),
    }
}

} // verus!
