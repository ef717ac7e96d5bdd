//! What holds of the library as a whole, proved from the contracts and the
//! definitions they rest on.

use crate::claims::ClaimsView;
use crate::error::{AuthError, TokenError};
use crate::manager::{authorize_outcome, decode_outcome, has_role_outcome, issue_outcome};
use crate::payload::MemberView;
use crate::role::UserRole;
use crate::token::opened_fields;
use crate::wire::{claim_fields, claims_of_fields, lemma_keys_differ, optional_member};
use vstd::prelude::*;

verus! {

/// The four role names are four different texts.
pub proof fn lemma_role_names_differ(a: UserRole, b: UserRole)
    ensures
        a.wire_name() == b.wire_name() <==> a == b,
{
    reveal_strlit("ADMIN");
    reveal_strlit("MANAGER");
    reveal_strlit("STUDENT");
    reveal_strlit("TEACHER");
    if a != b {
        assert(a.wire_name().len() == 5 || a.wire_name().len() == 7);
        assert(a.wire_name()[0] != b.wire_name()[0]);
    }
}

/// A role written under its name and read back is the same role.
pub proof fn lemma_role_round_trip(role: UserRole)
    ensures
        UserRole::of_wire_name(role.wire_name()) == Some(role),
{
    lemma_role_names_differ(role, UserRole::ADMIN);
    lemma_role_names_differ(role, UserRole::MANAGER);
    lemma_role_names_differ(role, UserRole::STUDENT);
    lemma_role_names_differ(role, UserRole::TEACHER);
}

/// Only a role's own upper-case name is read as that role. A name in
/// another case is read as no role.
pub proof fn lemma_role_name_exact(name: Seq<char>, role: UserRole)
    ensures
        UserRole::of_wire_name(name) == Some(role) <==> name == role.wire_name(),
{
    lemma_role_round_trip(role);
}

/// Claims written into a payload and read back are the same claims.
pub proof fn lemma_claims_round_trip(claims: ClaimsView)
    ensures
        claims_of_fields(claim_fields(claims)) == Some(claims),
{
    lemma_keys_differ();
    lemma_role_round_trip(claims.role);
    let fields = claim_fields(claims);
    assert(fields["userId"@] == MemberView::Text(claims.user_id));
    assert(fields["userName"@] == MemberView::Text(claims.user_name));
    assert(fields["iap"@] == optional_member(claims.iap));
    assert(fields["iat"@] == MemberView::Number(Some(claims.iat as u64)));
    assert(fields["exp"@] == MemberView::Number(Some(claims.exp as u64)));
    assert(fields["role"@] == MemberView::Text(claims.role.wire_name()));
}

/// Issued claims carry what the issuer was given, are issued at `now`, and
/// expire exactly `lifetime` seconds later; with a positive lifetime the
/// expiry lies after the issue.
pub proof fn lemma_issued_claims(
    user_id: Seq<char>,
    user_name: Seq<char>,
    role: UserRole,
    iap: Option<usize>,
    lifetime: int,
    now: int,
)
    ensures
        match ClaimsView::issued(user_id, user_name, role, iap, lifetime, now) {
            Some(claims) => {
                &&& claims.user_id == user_id
                &&& claims.user_name == user_name
                &&& claims.role == role
                &&& claims.iap == iap
                &&& claims.iat == now
                &&& claims.exp == claims.iat + lifetime
                &&& lifetime > 0 ==> claims.exp > claims.iat
                &&& lifetime <= 0 ==> claims.expired_at(now)
            },
            None => now < 0 || now > usize::MAX || now + lifetime < 0 || now + lifetime
                > usize::MAX,
        },
{
}

/// Verifying fails in one way only.
pub proof fn lemma_one_verification_error(secret: Seq<char>, token: Seq<char>, now: int)
    ensures
        decode_outcome(secret, token, now) is Err ==> decode_outcome(secret, token, now) == Err::<
            ClaimsView,
            TokenError,
        >(TokenError::InvalidOrExpired),
{
}

/// A token verified at its expiry or later is refused.
pub proof fn lemma_expired_token_refused(
    secret: Seq<char>,
    token: Seq<char>,
    earlier: int,
    now: int,
)
    requires
        decode_outcome(secret, token, earlier) is Ok,
        now >= decode_outcome(secret, token, earlier)->Ok_0.exp,
    ensures
        decode_outcome(secret, token, now) == Err::<ClaimsView, TokenError>(
            TokenError::InvalidOrExpired,
        ),
{
}

/// A token that is accepted at some time is accepted at every time before
/// its expiry, with the same claims.
pub proof fn lemma_valid_until_expiry(secret: Seq<char>, token: Seq<char>, earlier: int, now: int)
    requires
        decode_outcome(secret, token, earlier) is Ok,
        now < decode_outcome(secret, token, earlier)->Ok_0.exp,
    ensures
        decode_outcome(secret, token, now) == decode_outcome(secret, token, earlier),
{
}

/// If the verifier finds in an issued token the payload that was signed,
/// then the token verifies from its issue until its expiry, and gives back
/// the claims it was issued with.
pub proof fn lemma_issued_token_verifies(
    secret: Seq<char>,
    user_id: Seq<char>,
    user_name: Seq<char>,
    role: UserRole,
    iap: Option<usize>,
    lifetime: int,
    issued_at: int,
    token: Seq<char>,
    now: int,
)
    requires
        lifetime > 0,
        issue_outcome(secret, user_id, user_name, role, iap, lifetime, issued_at) == Ok::<
            Seq<char>,
            TokenError,
        >(token),
        opened_fields(secret, token) == Some(
            claim_fields(
                ClaimsView::issued(user_id, user_name, role, iap, lifetime, issued_at)->Some_0,
            ),
        ),
        issued_at <= now < issued_at + lifetime,
    ensures
        decode_outcome(secret, token, now) == Ok::<ClaimsView, TokenError>(
            ClaimsView {
                user_id,
                user_name,
                iap,
                iat: issued_at as usize,
                exp: (issued_at + lifetime) as usize,
                role,
            },
        ),
{
    let claims = ClaimsView::issued(user_id, user_name, role, iap, lifetime, issued_at)->Some_0;
    lemma_claims_round_trip(claims);
}

/// The role check says yes exactly when verifying succeeds and the role in
/// the claims is allowed, and exactly when authorizing succeeds.
pub proof fn lemma_has_role_iff_authorized(
    decoded: Result<ClaimsView, TokenError>,
    allowed: Seq<UserRole>,
)
    ensures
        has_role_outcome(decoded, allowed) <==> (decoded is Ok && allowed.contains(
            decoded->Ok_0.role,
        )),
        has_role_outcome(decoded, allowed) <==> authorize_outcome(decoded, allowed) is Ok,
{
}

/// Authorizing gives the verified claims where their role is allowed,
/// `Forbidden` where it is not, and the verifier's error, wrapped, for a
/// token that does not verify, whatever roles are allowed.
pub proof fn lemma_authorize_cases(decoded: Result<ClaimsView, TokenError>, allowed: Seq<UserRole>)
    ensures
        decoded is Ok && allowed.contains(decoded->Ok_0.role) ==> authorize_outcome(
            decoded,
            allowed,
        ) == Ok::<ClaimsView, AuthError>(decoded->Ok_0),
        decoded is Ok && !allowed.contains(decoded->Ok_0.role) ==> authorize_outcome(
            decoded,
            allowed,
        ) == Err::<ClaimsView, AuthError>(AuthError::Forbidden),
        decoded is Err ==> authorize_outcome(decoded, allowed) == Err::<ClaimsView, AuthError>(
            AuthError::Jwt(decoded->Err_0),
        ),
{
}

} // verus!
