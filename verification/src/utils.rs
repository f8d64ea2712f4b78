//! Password hashing, access tokens, and refresh tokens.

use vstd::prelude::*;
use vstd::utf8::encode_utf8;
use sha2::Digest;
use serde_json::{Map as JsonMap, Value};
use jsonwebtoken::{Algorithm, DecodingKey, EncodingKey, Header, Validation};
use rand::Rng;
use argon2::PasswordHasher;
use argon2::PasswordVerifier;
use crate::config::Config;
use crate::encoding::{hex_text, hex_encode, uuid_text, uuid_to_string, is_lower_hex};
use crate::errors::{AppError, is_unauthorized};
use crate::text::owned;
use crate::models::auth::{Claims, User};
use crate::time::{Timestamp, well_formed, can_add_seconds, checked_add_seconds, utc_now};

verus! {

// ─── Password hashing ────────────────────────────────────────────────────────

/// Whether `argon2::PasswordHash::new` reads a text as a PHC hash string.
pub uninterp spec fn phc_parses(hash: Seq<char>) -> bool;

/// Whether `Argon2::default().verify_password` accepts the password's
/// UTF-8 bytes for the PHC hash string.
pub uninterp spec fn argon2_accepts(password: Seq<char>, hash: Seq<char>) -> bool;

/// `Argon2::default().hash_password` of the password's bytes with a salt
/// from `SaltString::generate(&mut OsRng)`, as its PHC string; `None` when
/// hashing fails. The salt is random, so which string comes back is not
/// stated; what is stated is the crate's round trip (the string parses as
/// a PHC hash, and verifying the same password against it succeeds) and
/// the string's head: the default algorithm is Argon2id and the default
/// version 0x13, which `PasswordHash`'s `Display` writes as
/// `$argon2id$v=19$` before the parameters, salt and hash. Hashing fails
/// only for a password longer than `0xFFFF_FFFF` bytes (`PwdTooLong`): the
/// generated salt is always 16 bytes and the default parameters and output
/// length are within Argon2's bounds.
#[verifier::external_body]
fn argon2_hash(password: &str) -> (res: Option<String>)
    ensures
        encode_utf8(password@).len() <= 0xFFFF_FFFF ==> res is Some,
        res matches Some(h) ==> phc_parses(h@) && argon2_accepts(password@, h@),
        res matches Some(h) ==> h@.len() >= 15 && h@.subrange(0, 15) == argon2id_prefix(),
{
    let salt = argon2::password_hash::SaltString::generate(&mut argon2::password_hash::rand_core::OsRng);
    match argon2::Argon2::default().hash_password(password.as_bytes(), &salt) {
        Ok(h) => Some(h.to_string()),
        Err(_) => None,
    }
}

/// `argon2::PasswordHash::new(hash)`, then
/// `Argon2::default().verify_password(password, &parsed).is_ok()`: `None`
/// when the hash does not parse, else whether the password matches.
#[verifier::external_body]
fn argon2_verify(password: &str, hash: &str) -> (res: Option<bool>)
    ensures
        res == if phc_parses(hash@) {
            Some(argon2_accepts(password@, hash@))
        } else {
            None
        },
{
    match argon2::PasswordHash::new(hash) {
        Ok(parsed) => Some(argon2::Argon2::default().verify_password(password.as_bytes(), &parsed).is_ok()),
        Err(_) => None,
    }
}

/// What checking `password` against the stored `hash` gives: `None` when
/// the hash is not a PHC string, else whether Argon2 accepts the password.
pub open spec fn password_check(password: Seq<char>, hash: Seq<char>) -> Option<bool> {
    if phc_parses(hash) {
        Some(argon2_accepts(password, hash))
    } else {
        None
    }
}

/// The head of every PHC string that `Argon2::default()` produces.
pub open spec fn argon2id_prefix() -> Seq<char> {
    "$argon2id$v=19$"@
}

/// Hashes a password with Argon2id and a fresh random salt, as a PHC
/// string (starting `$argon2id$v=19$`). It succeeds for every password of
/// at most `0xFFFF_FFFF` bytes; a failure of the hasher is an internal
/// error. Checking the same password against the result succeeds.
pub fn hash_password(password: &str) -> (res: Result<String, AppError>)
    ensures
        encode_utf8(password@).len() <= 0xFFFF_FFFF ==> res is Ok,
        match res {
            Ok(h) => password_check(password@, h@) == Some(true) && h@.len() >= 15 && h@.subrange(
                0,
                15,
            ) == argon2id_prefix(),
            Err(e) => e is InternalServerError,
        },
{
    match argon2_hash(password) {
        Some(h) => Ok(h),
        None => Err(AppError::InternalServerError),
    }
}

/// A stored hash is never the password itself when the password does not
/// begin with the Argon2id PHC head, as every hash `hash_password` makes
/// does.
pub proof fn lemma_hash_is_not_the_password(password: Seq<char>, hash: Seq<char>)
    requires
        hash.len() >= 15 && hash.subrange(0, 15) == argon2id_prefix(),
        !(password.len() >= 15 && password.subrange(0, 15) == argon2id_prefix()),
    ensures
        hash != password,
{
}

/// Checks a password against a stored PHC hash string. A hash that does
/// not parse is an internal error.
pub fn verify_password(password: &str, hash: &str) -> (res: Result<bool, AppError>)
    ensures
        match res {
            Ok(b) => password_check(password@, hash@) == Some(b),
            Err(e) => password_check(password@, hash@) is None && e is InternalServerError,
        },
{
    match argon2_verify(password, hash) {
        Some(b) => Ok(b),
        None => Err(AppError::InternalServerError),
    }
}

// ─── Access tokens (JWT, HS256) ──────────────────────────────────────────────

/// The claims of an access token issued to `user` at `now`: the user's id
/// in hyphenated form, their e-mail, name and role, the issue time, and
/// the expiry `jwt_access_expiry_seconds` later, both in whole seconds.
pub open spec fn access_claims_spec(user: User, config: Config, now: Timestamp) -> (
    Seq<char>,
    Seq<char>,
    Seq<char>,
    Seq<char>,
    usize,
    usize,
) {
    (
        uuid_text(user.id),
        user.email@,
        user.name@,
        user.role@,
        (now.secs + config.jwt_access_expiry_seconds) as usize,
        now.secs as usize,
    )
}

/// An access token issued at a time after the epoch lives exactly the
/// configured number of seconds: its expiry minus its issue time is
/// `jwt_access_expiry_seconds`, when that expiry is not before the epoch
/// (and both times fit in `usize`).
pub proof fn lemma_access_token_lifetime(user: User, config: Config, now: Timestamp)
    requires
        well_formed(now),
        now.secs >= 0,
        can_add_seconds(now, config.jwt_access_expiry_seconds),
        now.secs + config.jwt_access_expiry_seconds >= 0,
        now.secs <= usize::MAX,
        now.secs + config.jwt_access_expiry_seconds <= usize::MAX,
    ensures
        access_claims_spec(user, config, now).4 - access_claims_spec(user, config, now).5
            == config.jwt_access_expiry_seconds,
{
}

/// The claims as plain values.
pub open spec fn claims_values(c: Claims) -> (Seq<char>, Seq<char>, Seq<char>, Seq<char>, usize, usize) {
    (c.sub@, c.email@, c.name@, c.role@, c.exp, c.iat)
}

/// The claims of an access token issued to `user` at `now`.
pub fn access_claims(user: &User, config: &Config, now: Timestamp) -> (claims: Claims)
    requires
        well_formed(now),
        can_add_seconds(now, config.jwt_access_expiry_seconds),
    ensures
        claims_values(claims) == access_claims_spec(*user, *config, now),
{
    let exp_secs = now.secs + config.jwt_access_expiry_seconds;
    Claims {
        sub: uuid_to_string(user.id),
        email: user.email.clone(),
        name: user.name.clone(),
        role: user.role.clone(),
        exp: exp_secs as usize,
        iat: now.secs as usize,
    }
}

/// The compact JWT that `jsonwebtoken::encode` produces with the default
/// header (`HS256`) for a JSON object of the claims `sub`, `email`, `name`,
/// `role`, `exp`, `iat` in that order, signed with the secret's bytes.
pub uninterp spec fn hs256_jwt(
    sub: Seq<char>,
    email: Seq<char>,
    name: Seq<char>,
    role: Seq<char>,
    exp: usize,
    iat: usize,
    secret: Seq<u8>,
) -> Seq<char>;

/// What `jsonwebtoken::decode` reads from a token with
/// `Validation::new(Algorithm::HS256)` without its expiry check
/// (`validate_exp = false`) and `DecodingKey::from_secret(secret)`, the
/// payload taken as a JSON object: the string fields `sub`, `email`,
/// `name`, `role` and the unsigned integer fields `exp`, `iat` (fitting
/// `usize`). `None` when the token is malformed, its header does not
/// name HS256, its signature does not match the secret, `exp` is missing,
/// it carries an `aud` claim, or one of the six fields is missing or of
/// another JSON type. The payload is read as a JSON object, so a field
/// named twice counts with its last value.
pub uninterp spec fn hs256_claims(token: Seq<char>, secret: Seq<u8>) -> Option<
    (Seq<char>, Seq<char>, Seq<char>, Seq<char>, usize, usize),
>;

/// `jsonwebtoken::decode` of an HS256 token signed with `secret`, the
/// signature, header and claims checked as `Validation::new(HS256)` does
/// except for the expiry, which the caller checks; the claims are read
/// from the decoded JSON object. The contract is the name `hs256_claims`.
#[verifier::external_body]
fn decode_hs256(token: &str, secret: &[u8]) -> (res: Option<Claims>)
    ensures
        match res {
            Some(c) => hs256_claims(token@, secret@) == Some(claims_values(c)),
            None => hs256_claims(token@, secret@) is None,
        },
{
    let mut validation = Validation::new(Algorithm::HS256);
    validation.validate_exp = false;
    let key = DecodingKey::from_secret(secret);
    let m = jsonwebtoken::decode::<JsonMap<String, Value>>(token, &key, &validation).ok()?.claims;
    let text = |k: &str| m.get(k)?.as_str().map(String::from);
    let number = |k: &str| usize::try_from(m.get(k)?.as_u64()?).ok();
    Some(Claims { sub: text("sub")?, email: text("email")?, name: text("name")?, role: text("role")?, exp: number("exp")?, iat: number("iat")? })
}

/// `jsonwebtoken::encode(&Header::default(), claims, &EncodingKey::from_secret(secret))`,
/// the claims given as a JSON object with the fields in declaration
/// order. It always succeeds: the default header names HS256, which
/// matches the HMAC key that `from_secret` makes; a JSON object and the
/// header always serialise; and HS256 signing cannot fail. Decoding the
/// token with the same secret (without the expiry check) gives the claims
/// back, as the signature verifies, `exp` is present and no `aud` claim is.
#[verifier::external_body]
fn encode_hs256(claims: &Claims, secret: &[u8]) -> (res: Option<String>)
    ensures
        res is Some,
        res matches Some(t) ==> t@ == hs256_jwt(
            claims.sub@,
            claims.email@,
            claims.name@,
            claims.role@,
            claims.exp,
            claims.iat,
            secret@,
        ),
        res matches Some(t) ==> hs256_claims(t@, secret@) == Some(claims_values(*claims)),
{
    let mut m = JsonMap::new();
    m.insert("sub".to_string(), Value::from(claims.sub.clone()));
    m.insert("email".to_string(), Value::from(claims.email.clone()));
    m.insert("name".to_string(), Value::from(claims.name.clone()));
    m.insert("role".to_string(), Value::from(claims.role.clone()));
    m.insert("exp".to_string(), Value::from(claims.exp));
    m.insert("iat".to_string(), Value::from(claims.iat));
    let key = EncodingKey::from_secret(secret);
    jsonwebtoken::encode(&Header::default(), &Value::Object(m), &key).ok()
}

/// The access token issued to `user` at `now`.
pub open spec fn access_token_spec(user: User, config: Config, now: Timestamp) -> Seq<char> {
    let c = access_claims_spec(user, config, now);
    hs256_jwt(c.0, c.1, c.2, c.3, c.4, c.5, encode_utf8(config.jwt_secret@))
}

/// The access token for `user` with `now` as the issue time; it decodes
/// back to its claims with the configured secret. Where the expiry falls
/// outside what `chrono` represents (where plain `chrono` arithmetic
/// panics) the error is internal; otherwise it succeeds.
pub fn create_access_token_at(user: &User, config: &Config, now: Timestamp) -> (res: Result<
    String,
    AppError,
>)
    requires
        well_formed(now),
    ensures
        res is Ok <==> can_add_seconds(now, config.jwt_access_expiry_seconds),
        res matches Ok(t) ==> t@ == access_token_spec(*user, *config, now),
        res matches Ok(t) ==> hs256_claims(t@, encode_utf8(config.jwt_secret@)) == Some(
            access_claims_spec(*user, *config, now),
        ),
        res matches Err(e) ==> e is InternalServerError,
{
    if checked_add_seconds(now, config.jwt_access_expiry_seconds).is_none() {
        return Err(AppError::InternalServerError);
    }
    let claims = access_claims(user, config, now);
    match encode_hs256(&claims, config.jwt_secret.as_str().as_bytes()) {
        Some(t) => Ok(t),
        None => Err(AppError::InternalServerError),
    }
}

/// The access token for `user`, issued now.
pub fn create_access_token(user: &User, config: &Config) -> (res: Result<String, AppError>)
    ensures
        res matches Ok(t) ==> exists|now: Timestamp|
            well_formed(now) && t@ == access_token_spec(*user, *config, now) && hs256_claims(
                t@,
                encode_utf8(config.jwt_secret@),
            ) == Some(access_claims_spec(*user, *config, now)),
        res matches Err(e) ==> e is InternalServerError && exists|now: Timestamp|
            well_formed(now) && !can_add_seconds(now, config.jwt_access_expiry_seconds),
{
    let now = utc_now();
    create_access_token_at(user, config, now)
}

/// Whether a token whose `exp` claim is `exp` counts as expired at the
/// clock reading `now_secs`: `jsonwebtoken`'s default validation refuses
/// it when `exp < now - 60`, allowing 60 seconds of leeway (for any clock
/// reading after the first minute of 1970).
pub open spec fn token_expired(exp: usize, now_secs: int) -> bool {
    exp + 60 < now_secs
}

/// The claims that an access token verifies to at the clock reading
/// `now_secs`: those it decodes to with the secret, unless it has expired.
pub open spec fn verified_claims(token: Seq<char>, secret: Seq<u8>, now_secs: int) -> Option<
    (Seq<char>, Seq<char>, Seq<char>, Seq<char>, usize, usize),
> {
    match hs256_claims(token, secret) {
        Some(c) => if token_expired(c.4, now_secs) {
            None
        } else {
            Some(c)
        },
        None => None,
    }
}

/// The refusal of a token that does not verify.
pub open spec fn invalid_token_message() -> Seq<char> {
    "Invalid or expired access token"@
}

/// The claims of an access token at `now`: it must be an HS256 token
/// signed with the configured secret that carries the claims and has not
/// expired; otherwise 401 `Invalid or expired access token`.
pub fn verify_access_token_at(token: &str, config: &Config, now: Timestamp) -> (res: Result<
    Claims,
    AppError,
>)
    ensures
        match verified_claims(token@, encode_utf8(config.jwt_secret@), now.secs as int) {
            Some(v) => res matches Ok(c) && claims_values(c) == v,
            None => res matches Err(e) && is_unauthorized(e, invalid_token_message()),
        },
{
    let claims = match decode_hs256(token, config.jwt_secret.as_str().as_bytes()) {
        Some(c) => c,
        None => return Err(AppError::Unauthorized(owned("Invalid or expired access token"))),
    };
    if (claims.exp as i128) + 60 < (now.secs as i128) {
        return Err(AppError::Unauthorized(owned("Invalid or expired access token")));
    }
    Ok(claims)
}

/// The claims of an access token, checked against the clock now.
pub fn verify_access_token(token: &str, config: &Config) -> (res: Result<Claims, AppError>)
    ensures
        hs256_claims(token@, encode_utf8(config.jwt_secret@)) is None ==> res is Err,
        res matches Ok(c) ==> exists|now: Timestamp|
            well_formed(now) && verified_claims(token@, encode_utf8(config.jwt_secret@), now.secs as int)
                == Some(claims_values(c)),
        res matches Err(e) ==> is_unauthorized(e, invalid_token_message()) && exists|now: Timestamp|
            well_formed(now) && verified_claims(token@, encode_utf8(config.jwt_secret@), now.secs as int) is None,
{
    let now = utc_now();
    verify_access_token_at(token, config, now)
}

/// An access token issued at `now` verifies, to the claims it was issued
/// with, at every later clock reading up to 60 seconds past its expiry,
/// and at none after that.
pub proof fn lemma_issued_token_verifies(
    token: Seq<char>,
    user: User,
    config: Config,
    now: Timestamp,
    later_secs: int,
)
    requires
        hs256_claims(token, encode_utf8(config.jwt_secret@)) == Some(
            access_claims_spec(user, config, now),
        ),
    ensures
        later_secs <= access_claims_spec(user, config, now).4 + 60 ==> verified_claims(
            token,
            encode_utf8(config.jwt_secret@),
            later_secs,
        ) == Some(access_claims_spec(user, config, now)),
        later_secs > access_claims_spec(user, config, now).4 + 60 ==> verified_claims(
            token,
            encode_utf8(config.jwt_secret@),
            later_secs,
        ) is None,
{
}

// ─── Refresh tokens (random hex, stored as a SHA-256 hash) ───────────────────

/// One random byte from `rand::thread_rng()`; nothing is stated of its
/// value.
#[verifier::external_body]
fn random_byte() -> (b: u8) {
    rand::thread_rng().gen::<u8>()
}

/// A fresh refresh token: 32 random bytes in lowercase hexadecimal.
pub fn generate_refresh_token() -> (token: String)
    ensures
        exists|b: Seq<u8>| b.len() == 32 && token@ == hex_text(b),
        token@.len() == 64,
        forall|i: int| 0 <= i < 64 ==> is_lower_hex(#[trigger] token@[i]),
{
    let mut bytes: Vec<u8> = Vec::new();
    for _i in 0..32usize
        invariant
            bytes@.len() == _i,
    {
        bytes.push(random_byte());
    }
    let token = hex_encode(bytes.as_slice());
    assert(bytes@.len() == 32 && token@ == hex_text(bytes@));
    proof {
        lemma_refresh_token_shape(bytes@, token@);
    }
    token
}

/// The SHA-256 digest of a byte string.
pub uninterp spec fn sha256(bytes: Seq<u8>) -> Seq<u8>;

/// `sha2::Sha256` over the bytes: the 32-byte digest.
#[verifier::external_body]
fn sha256_digest(bytes: &[u8]) -> (res: Vec<u8>)
    ensures
        res@ == sha256(bytes@),
        res@.len() == 32,
{
    let mut hasher = sha2::Sha256::new();
    hasher.update(bytes);
    hasher.finalize().to_vec()
}

/// The stored form of a refresh token: the lowercase hexadecimal SHA-256
/// digest of its UTF-8 bytes.
pub open spec fn token_hash_spec(token: Seq<char>) -> Seq<char> {
    hex_text(sha256(encode_utf8(token)))
}

/// Hashes a refresh token for storage.
pub fn hash_token(token: &str) -> (res: String)
    ensures
        res@ == token_hash_spec(token@),
        res@.len() == 64,
        forall|i: int| 0 <= i < 64 ==> is_lower_hex(#[trigger] res@[i]),
{
    let digest = sha256_digest(token.as_bytes());
    proof {
        lemma_hex_text_shape(digest@);
    }
    hex_encode(digest.as_slice())
}

/// Every character of the hexadecimal form is a lowercase hex digit, and
/// there are two per byte.
pub proof fn lemma_hex_text_shape(b: Seq<u8>)
    ensures
        hex_text(b).len() == 2 * b.len(),
        forall|i: int| 0 <= i < hex_text(b).len() ==> is_lower_hex(#[trigger] hex_text(b)[i]),
{
    assert forall|i: int| 0 <= i < hex_text(b).len() implies is_lower_hex(#[trigger] hex_text(b)[i]) by {
        let d: int = if i % 2 == 0 { b[i / 2] as int / 16 } else { b[i / 2] as int % 16 };
        assert(0 <= d < 16);
        lemma_hex_digit_is_lower_hex(d);
    }
}

proof fn lemma_hex_digit_is_lower_hex(d: int)
    requires
        0 <= d < 16,
    ensures
        is_lower_hex(crate::encoding::hex_digit(d)),
{
    let digits = seq!['0', '1', '2', '3', '4', '5', '6', '7', '8', '9', 'a', 'b', 'c', 'd', 'e', 'f'];
    assert(crate::encoding::hex_digit(d) == digits[d]);
}

/// A refresh token, the hex form of 32 bytes, is 64 lowercase
/// hexadecimal characters.
pub proof fn lemma_refresh_token_shape(token_bytes: Seq<u8>, token: Seq<char>)
    requires
        token_bytes.len() == 32,
        token == hex_text(token_bytes),
    ensures
        token.len() == 64,
        forall|i: int| 0 <= i < token.len() ==> is_lower_hex(#[trigger] token[i]),
{
    lemma_hex_text_shape(token_bytes);
}

} // verus!
