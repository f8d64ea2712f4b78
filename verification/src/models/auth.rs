//! Users, refresh tokens, token claims, and the bodies of the
//! authentication endpoints.

use vstd::prelude::*;
use vstd::std_specs::convert::FromSpecImpl;
use crate::time::Timestamp;
use crate::validation::{
    ValidationErrors, rule, email_accepted, length_within, validate_email, validate_length,
};

verus! {

/// A stored user account. Identifiers are the 128 bits of a UUID.
#[derive(Debug, Clone)]
pub struct User {
    pub id: u128,
    pub email: String,
    pub name: String,
    /// The PHC string of the password's Argon2 hash; never sent to clients.
    pub password_hash: String,
    pub role: String,
    pub is_active: bool,
    pub created_at: Timestamp,
    pub updated_at: Timestamp,
}

/// A stored refresh token: only the SHA-256 hash of the token is kept.
#[derive(Debug, Clone)]
pub struct RefreshToken {
    pub id: u128,
    pub user_id: u128,
    pub token_hash: String,
    pub expires_at: Timestamp,
    pub created_at: Timestamp,
}

/// A user as clients see it: without the password hash.
#[derive(Debug, Clone)]
pub struct UserResponse {
    pub id: u128,
    pub email: String,
    pub name: String,
    pub role: String,
    pub is_active: bool,
    pub created_at: Timestamp,
}

/// The public view of a stored user: the same fields, less the password
/// hash and the update time.
pub open spec fn user_response_of(u: User) -> UserResponse {
    UserResponse {
        id: u.id,
        email: u.email,
        name: u.name,
        role: u.role,
        is_active: u.is_active,
        created_at: u.created_at,
    }
}

/// A registration is accepted exactly when the e-mail is one `validator`
/// accepts, the name has 2 to 100 characters and the password at least 8;
/// a login when the e-mail is accepted and a password is given.
pub proof fn lemma_auth_bodies_accepted(r: RegisterRequest, l: LoginRequest)
    ensures
        register_failures(r).len() == 0 <==> (email_accepted(r.email@) && 2 <= r.name@.len() <= 100
            && r.password@.len() >= 8),
        login_failures(l).len() == 0 <==> (email_accepted(l.email@) && l.password@.len() >= 1),
{
}

/// The public profile keeps each of the user's public fields as it is.
pub proof fn lemma_profile_keeps_fields(u: User)
    ensures
        user_response_of(u).id == u.id,
        user_response_of(u).email == u.email,
        user_response_of(u).name == u.name,
        user_response_of(u).role == u.role,
        user_response_of(u).is_active == u.is_active,
        user_response_of(u).created_at == u.created_at,
{
}

impl From<User> for UserResponse {
    fn from(u: User) -> (r: UserResponse)
        ensures
            r.id == u.id,
            r.email == u.email,
            r.name == u.name,
            r.role == u.role,
            r.is_active == u.is_active,
            r.created_at == u.created_at,
    {
        UserResponse {
            id: u.id,
            email: u.email,
            name: u.name,
            role: u.role,
            is_active: u.is_active,
            created_at: u.created_at,
        }
    }
}

impl FromSpecImpl<User> for UserResponse {
    open spec fn obeys_from_spec() -> bool {
        true
    }

    open spec fn from_spec(u: User) -> UserResponse {
        user_response_of(u)
    }
}

/// The claims of an access token.
#[derive(Debug, Clone)]
pub struct Claims {
    /// The user's id in hyphenated UUID form.
    pub sub: String,
    pub email: String,
    pub name: String,
    pub role: String,
    /// Expiry, in seconds since the Unix epoch.
    pub exp: usize,
    /// Issue time, in seconds since the Unix epoch.
    pub iat: usize,
}

/// `POST /auth/register` body.
#[derive(Debug)]
pub struct RegisterRequest {
    pub email: String,
    pub name: String,
    pub password: String,
}

/// The rules a registration body fails, in field order.
pub open spec fn register_failures(r: RegisterRequest) -> Seq<(Seq<char>, Seq<char>, Seq<char>)> {
    rule("email"@, "email"@, "Invalid email format"@, email_accepted(r.email@)) + rule(
        "name"@,
        "length"@,
        "Name must be 2-100 characters"@,
        length_within(r.name@.len(), Some(2), Some(100)),
    ) + rule(
        "password"@,
        "length"@,
        "Password must be at least 8 characters"@,
        length_within(r.password@.len(), Some(8), None),
    )
}

impl RegisterRequest {
    /// Checks the e-mail format, a name of 2 to 100 characters and a
    /// password of at least 8 characters.
    pub fn validate(&self) -> (res: Result<(), ValidationErrors>)
        ensures
            res is Ok <==> register_failures(*self).len() == 0,
            res is Ok <==> (email_accepted(self.email@) && 2 <= self.name@.len() <= 100
                && self.password@.len() >= 8),
            res matches Err(e) ==> e@ == register_failures(*self),
    {
        let mut errors = ValidationErrors::new();
        errors.check(
            validate_email(self.email.as_str()),
            "email",
            "email",
            "Invalid email format",
        );
        errors.check(
            validate_length(self.name.as_str(), Some(2), Some(100)),
            "name",
            "length",
            "Name must be 2-100 characters",
        );
        errors.check(
            validate_length(self.password.as_str(), Some(8), None),
            "password",
            "length",
            "Password must be at least 8 characters",
        );
        errors.into_result()
    }
}

/// `POST /auth/login` body.
#[derive(Debug)]
pub struct LoginRequest {
    pub email: String,
    pub password: String,
}

/// The rules a login body fails, in field order.
pub open spec fn login_failures(r: LoginRequest) -> Seq<(Seq<char>, Seq<char>, Seq<char>)> {
    rule("email"@, "email"@, "Invalid email format"@, email_accepted(r.email@)) + rule(
        "password"@,
        "length"@,
        "Password is required"@,
        length_within(r.password@.len(), Some(1), None),
    )
}

impl LoginRequest {
    /// Checks the e-mail format and that a password is given.
    pub fn validate(&self) -> (res: Result<(), ValidationErrors>)
        ensures
            res is Ok <==> login_failures(*self).len() == 0,
            res is Ok <==> (email_accepted(self.email@) && self.password@.len() >= 1),
            res matches Err(e) ==> e@ == login_failures(*self),
    {
        let mut errors = ValidationErrors::new();
        errors.check(
            validate_email(self.email.as_str()),
            "email",
            "email",
            "Invalid email format",
        );
        errors.check(
            validate_length(self.password.as_str(), Some(1), None),
            "password",
            "length",
            "Password is required",
        );
        errors.into_result()
    }
}

/// `POST /auth/refresh` and `POST /auth/logout` body.
#[derive(Debug)]
pub struct RefreshRequest {
    pub refresh_token: String,
}

/// The answer to a successful registration or login.
#[derive(Debug)]
pub struct AuthResponse {
    pub access_token: String,
    pub refresh_token: String,
    pub token_type: String,
    /// Lifetime of the access token, in seconds.
    pub expires_in: i64,
    pub user: UserResponse,
}

/// The answer to a successful refresh.
#[derive(Debug)]
pub struct TokenResponse {
    pub access_token: String,
    pub token_type: String,
    /// Lifetime of the access token, in seconds.
    pub expires_in: i64,
}

} // verus!
