//! The authenticated caller of a request, taken from the
//! `Authorization: Bearer <token>` header.

use vstd::prelude::*;
use crate::encoding::{parse_uuid, uuid_parsed, lemma_uuid_round_trip};
use crate::config::Config;
use crate::models::auth::User;
use crate::time::Timestamp;
use vstd::utf8::encode_utf8;
use crate::time::well_formed;
use crate::utils::{
    access_claims_spec, claims_values, hs256_claims, invalid_token_message, verified_claims,
    verify_access_token,
};
use crate::errors::{AppError, is_unauthorized};
use crate::models::auth::Claims;
use crate::text::{chars_of, owned, push_char};

verus! {

/// The caller of a request, known by the claims of their access token.
#[derive(Debug, Clone)]
pub struct AuthUser(pub Claims);

/// The scheme that prefixes a bearer token in the `Authorization` header.
pub open spec fn bearer_prefix() -> Seq<char> {
    seq!['B', 'e', 'a', 'r', 'e', 'r', ' ']
}

/// The token in an `Authorization` header value: what follows `Bearer `.
pub open spec fn bearer_token_spec(header: Seq<char>) -> Option<Seq<char>> {
    if header.len() >= 7 && header.subrange(0, 7) == bearer_prefix() {
        Some(header.subrange(7, header.len() as int))
    } else {
        None
    }
}

/// Takes the bearer token out of the `Authorization` header value, if
/// there is one; a missing header or one without the `Bearer ` prefix is
/// answered with 401.
pub fn bearer_token(header: Option<&str>) -> (res: Result<String, AppError>)
    ensures
        match res {
            Ok(t) => header is Some && bearer_token_spec(header->0@) == Some(t@),
            Err(e) => (header is None || bearer_token_spec(header->0@) is None) && is_unauthorized(
                e,
                "Missing Authorization header"@,
            ),
        },
        header is Some && header->0@.len() >= 7 && header->0@[0] == 'B' && header->0@[1] == 'e'
            && header->0@[2] == 'a' && header->0@[3] == 'r' && header->0@[4] == 'e'
            && header->0@[5] == 'r' && header->0@[6] == ' ' ==> (res matches Ok(t) && t@.len()
            == header->0@.len() - 7 && forall|i: int|
            0 <= i < t@.len() ==> #[trigger] t@[i] == header->0@[i + 7]),
{
    let missing = AppError::Unauthorized(owned("Missing Authorization header"));
    let h = match header {
        Some(h) => h,
        None => return Err(missing),
    };
    let cs = chars_of(h);
    let n = cs.len();
    if n < 7 || cs[0] != 'B' || cs[1] != 'e' || cs[2] != 'a' || cs[3] != 'r' || cs[4] != 'e'
        || cs[5] != 'r' || cs[6] != ' ' {
        proof {
            if n >= 7 {
                assert(h@.subrange(0, 7)[0] == cs@[0]);
                assert(h@.subrange(0, 7)[1] == cs@[1]);
                assert(h@.subrange(0, 7)[2] == cs@[2]);
                assert(h@.subrange(0, 7)[3] == cs@[3]);
                assert(h@.subrange(0, 7)[4] == cs@[4]);
                assert(h@.subrange(0, 7)[5] == cs@[5]);
                assert(h@.subrange(0, 7)[6] == cs@[6]);
            }
        }
        return Err(missing);
    }
    assert(h@.subrange(0, 7) =~= bearer_prefix());
    let mut token = String::new();
    let mut i: usize = 7;
    while i < n
        invariant
            n == cs@.len(),
            cs@ == h@,
            7 <= i <= n,
            token@ == cs@.subrange(7, i as int),
        decreases n - i,
    {
        push_char(&mut token, cs[i]);
        i = i + 1;
        assert(token@ =~= cs@.subrange(7, i as int));
    }
    Ok(token)
}

/// The token of a header that starts with `Bearer ` (capital B, one
/// space) is all the rest of the header, however long; a header that does
/// not start so gives none.
pub proof fn lemma_bearer_token_is_the_rest(h: Seq<char>)
    ensures
        h.len() >= 7 && h[0] == 'B' && h[1] == 'e' && h[2] == 'a' && h[3] == 'r' && h[4] == 'e'
            && h[5] == 'r' && h[6] == ' ' ==> bearer_token_spec(h) == Some(h.subrange(7, h.len() as int))
            && bearer_token_spec(h)->0.len() == h.len() - 7,
        !(h.len() >= 7 && h[0] == 'B' && h[1] == 'e' && h[2] == 'a' && h[3] == 'r' && h[4] == 'e'
            && h[5] == 'r' && h[6] == ' ') ==> bearer_token_spec(h) is None,
{
    if h.len() >= 7 && h[0] == 'B' && h[1] == 'e' && h[2] == 'a' && h[3] == 'r' && h[4] == 'e'
        && h[5] == 'r' && h[6] == ' ' {
        assert(h.subrange(0, 7) =~= bearer_prefix());
    } else if h.len() >= 7 {
        if h.subrange(0, 7) == bearer_prefix() {
            assert(h.subrange(0, 7)[0] == h[0]);
            assert(h.subrange(0, 7)[1] == h[1]);
            assert(h.subrange(0, 7)[2] == h[2]);
            assert(h.subrange(0, 7)[3] == h[3]);
            assert(h.subrange(0, 7)[4] == h[4]);
            assert(h.subrange(0, 7)[5] == h[5]);
            assert(h.subrange(0, 7)[6] == h[6]);
        }
    }
}

/// The first decision of authenticating a request: the bearer token of
/// the `Authorization` header (else 401), then the presence of the
/// service's state (else an internal error). The token is then verified.
pub fn request_token(header: Option<&str>, has_state: bool) -> (res: Result<String, AppError>)
    ensures
        match res {
            Ok(t) => has_state && header is Some && bearer_token_spec(header->0@) == Some(t@),
            Err(e) => if header is None || bearer_token_spec(header->0@) is None {
                is_unauthorized(e, "Missing Authorization header"@)
            } else {
                !has_state && e is InternalServerError
            },
        },
{
    let token = match bearer_token(header) {
        Ok(t) => t,
        Err(e) => return Err(e),
    };
    if !has_state {
        return Err(AppError::InternalServerError);
    }
    Ok(token)
}

/// The caller whose access token this is: the token must verify with the
/// configured secret (else 401 `Invalid or expired access token`).
pub fn authenticated(token: &str, config: &Config) -> (res: Result<AuthUser, AppError>)
    ensures
        hs256_claims(token@, encode_utf8(config.jwt_secret@)) is None ==> res is Err,
        res matches Ok(u) ==> exists|now: Timestamp|
            well_formed(now) && verified_claims(token@, encode_utf8(config.jwt_secret@), now.secs as int)
                == Some(claims_values(u.0)),
        res matches Err(e) ==> is_unauthorized(e, invalid_token_message()) && exists|now: Timestamp|
            well_formed(now) && verified_claims(token@, encode_utf8(config.jwt_secret@), now.secs as int)
                is None,
{
    match verify_access_token(token, config) {
        Ok(c) => Ok(AuthUser(c)),
        Err(e) => Err(e),
    }
}

/// The claims of an access token issued to a user name that user: their
/// `sub` reads back as the user's id.
pub proof fn lemma_issued_token_names_its_user(user: User, config: Config, now: Timestamp)
    ensures
        uuid_parsed(access_claims_spec(user, config, now).0) == Some(user.id),
{
    lemma_uuid_round_trip(user.id);
}

impl AuthUser {
    /// The claims of the caller's access token.
    pub fn claims(&self) -> (c: &Claims)
        ensures
            *c == self.0,
    {
        &self.0
    }

    /// The caller's user id, read from the `sub` claim; the claim must be a
    /// UUID.
    pub fn user_id(&self) -> (id: u128)
        requires
            uuid_parsed(self.0.sub@) is Some,
        ensures
            id == uuid_parsed(self.0.sub@)->0,
    {
        match parse_uuid(self.0.sub.as_str()) {
            Some(v) => v,
            None => 0,
        }
    }

    /// The caller's user id, or `None` when the `sub` claim is not a UUID.
    pub fn try_user_id(&self) -> (id: Option<u128>)
        ensures
            id == uuid_parsed(self.0.sub@),
    {
        match parse_uuid(self.0.sub.as_str()) {
            Some(_) => Some(self.user_id()),
            None => None,
        }
    }
}

} // verus!
