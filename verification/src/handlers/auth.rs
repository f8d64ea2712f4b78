//! Decisions of the authentication endpoints: registration, login,
//! refresh, and the session (access and refresh token) they hand out.

use vstd::prelude::*;
use crate::config::Config;
use crate::encoding::is_lower_hex;
use crate::errors::{
    AppError, is_conflict, is_validation, is_forbidden, is_not_found, is_unauthorized, status_of,
    public_message_of,
};
use crate::models::auth::{
    AuthResponse, LoginRequest, RegisterRequest, register_failures, RefreshToken, TokenResponse, User, UserResponse, user_response_of,
};
use crate::text::{join3, owned};
use crate::time::{
    Timestamp, can_add_seconds, checked_add_seconds, plus_seconds, utc_now, well_formed,
};
use vstd::utf8::encode_utf8;
use crate::utils::{
    access_claims_spec, hs256_claims, access_token_spec, create_access_token_at, generate_refresh_token, hash_token,
    argon2id_prefix, hash_password, password_check, token_hash_spec, verify_password,
};

verus! {

// ─── Registration ────────────────────────────────────────────────────────────

/// `Email '<email>' is already registered`.
pub open spec fn email_taken_message(email: Seq<char>) -> Seq<char> {
    "Email '"@ + email + "' is already registered"@
}

/// A registration may proceed only when no account has the e-mail yet.
pub fn check_email_available(email: &str, existing: &Option<User>) -> (res: Result<(), AppError>)
    ensures
        res is Ok <==> existing is None,
        res matches Err(e) ==> is_conflict(e, email_taken_message(email@)),
{
    if existing.is_some() {
        return Err(AppError::Conflict(join3("Email '", email, "' is already registered")));
    }
    Ok(())
}

/// A registration whose body is valid, waiting for the lookup of the
/// account that has its e-mail.
#[derive(Debug)]
pub struct Registration {
    pub body: RegisterRequest,
}

/// What a registration does next.
#[derive(Debug)]
pub enum RegistrationStep {
    /// Look up the account with the body's e-mail and hand the result to
    /// `email_looked_up`.
    LookUpEmail(Registration),
    /// Store a new account with these values, then hand it a session
    /// (`SessionHandout::issue`).
    InsertUser { email: String, name: String, password_hash: String },
    /// The registration is refused; nothing is stored.
    Refused(AppError),
}

impl Registration {
    /// Starts a registration: an invalid body is refused with its
    /// validation errors before anything is looked up.
    pub fn start(body: RegisterRequest) -> (step: RegistrationStep)
        ensures
            register_failures(body).len() == 0 ==> (step matches RegistrationStep::LookUpEmail(r)
                && r.body == body),
            register_failures(body).len() != 0 ==> (step matches RegistrationStep::Refused(e)
                && is_validation(e, register_failures(body))),
    {
        match body.validate() {
            Ok(()) => RegistrationStep::LookUpEmail(Registration { body }),
            Err(errors) => RegistrationStep::Refused(AppError::Validation(errors)),
        }
    }

    /// The lookup of the e-mail returned `existing`: a taken e-mail is a
    /// 409 and nothing is stored; otherwise the password is hashed and the
    /// account is to be stored with the body's e-mail and name.
    pub fn email_looked_up(self, existing: Option<User>) -> (step: RegistrationStep)
        ensures
            existing is Some ==> (step matches RegistrationStep::Refused(e) && is_conflict(
                e,
                email_taken_message(self.body.email@),
            )),
            existing is None ==> match step {
                RegistrationStep::InsertUser { email, name, password_hash } => {
                    &&& email@ == self.body.email@
                    &&& name@ == self.body.name@
                    &&& password_check(self.body.password@, password_hash@) == Some(true)
                    &&& password_hash@.len() >= 15
                    &&& password_hash@.subrange(0, 15) == argon2id_prefix()
                },
                RegistrationStep::Refused(e) => e is InternalServerError && encode_utf8(
                    self.body.password@,
                ).len() > 0xFFFF_FFFF,
                _ => false,
            },
    {
        let body = self.body;
        if let Err(e) = check_email_available(body.email.as_str(), &existing) {
            return RegistrationStep::Refused(e);
        }
        match hash_password(body.password.as_str()) {
            Ok(password_hash) => RegistrationStep::InsertUser {
                email: body.email,
                name: body.name,
                password_hash,
            },
            Err(e) => RegistrationStep::Refused(e),
        }
    }
}

// ─── Login ───────────────────────────────────────────────────────────────────

/// The message of a failed login, whether the account is unknown,
/// deactivated or the password wrong.
pub open spec fn invalid_credentials() -> Seq<char> {
    "Invalid email or password"@
}

/// What a client is answered to a login, as a status and a message
/// (`200` and an empty message on success), given the account that the
/// e-mail found.
pub open spec fn login_answer(found: Option<User>, password: Seq<char>) -> (u16, Seq<char>) {
    match found {
        None => (401, "Unauthorized: "@ + invalid_credentials()),
        Some(u) => if !u.is_active {
            (401, "Unauthorized: "@ + invalid_credentials())
        } else {
            match password_check(password, u.password_hash@) {
                None => (500, "An internal error occurred"@),
                Some(false) => (401, "Unauthorized: "@ + invalid_credentials()),
                Some(true) => (200, Seq::empty()),
            }
        },
    }
}

/// Decides a login given the account that the e-mail found: an unknown
/// e-mail, a deactivated account and a wrong password are all answered
/// 401 `Invalid email or password`, so that the answer does not tell
/// which accounts exist.
pub fn authenticate_login(body: &LoginRequest, found: Option<User>) -> (res: Result<User, AppError>)
    ensures
        match res {
            Ok(u) => found == Some(u) && login_answer(found, body.password@).0 == 200,
            Err(e) => (status_of(e), public_message_of(e)) == login_answer(found, body.password@)
                && login_answer(found, body.password@).0 != 200,
        },
        match found {
            None => res matches Err(e) && is_unauthorized(e, invalid_credentials()),
            Some(u) => (!u.is_active || password_check(body.password@, u.password_hash@) == Some(
                false,
            )) ==> (res matches Err(e) && is_unauthorized(e, invalid_credentials())),
        },
{
    let user = match found {
        Some(u) => u,
        None => return Err(AppError::Unauthorized(owned("Invalid email or password"))),
    };
    if !user.is_active {
        return Err(AppError::Unauthorized(owned("Invalid email or password")));
    }
    let ok = match verify_password(body.password.as_str(), user.password_hash.as_str()) {
        Ok(b) => b,
        Err(e) => return Err(e),
    };
    if !ok {
        return Err(AppError::Unauthorized(owned("Invalid email or password")));
    }
    Ok(user)
}

/// A client cannot tell an unknown e-mail from a deactivated account or a
/// wrong password: all get the same answer.
pub proof fn lemma_login_hides_accounts(u: User, password: Seq<char>)
    requires
        !u.is_active || password_check(password, u.password_hash@) == Some(false),
    ensures
        login_answer(None, password) == login_answer(Some(u), password),
        login_answer(Some(u), password) == (401u16, "Unauthorized: Invalid email or password"@),
{
    reveal_strlit("Unauthorized: ");
    reveal_strlit("Invalid email or password");
    reveal_strlit("Unauthorized: Invalid email or password");
    assert("Unauthorized: "@ + "Invalid email or password"@ =~= "Unauthorized: Invalid email or password"@);
}

// ─── Refresh ─────────────────────────────────────────────────────────────────

/// The user of a stored, unexpired refresh token, or a 401 when the
/// lookup found none.
pub fn refresh_token_owner(stored: &Option<RefreshToken>) -> (res: Result<u128, AppError>)
    ensures
        match stored {
            Some(t) => res == Ok::<u128, AppError>(t.user_id),
            None => res matches Err(e) && is_unauthorized(
                e,
                "Invalid or expired refresh token"@,
            ),
        },
{
    match stored {
        Some(t) => Ok(t.user_id),
        None => Err(AppError::Unauthorized(owned("Invalid or expired refresh token"))),
    }
}

/// The owner of a refresh token must still exist (else the error is
/// internal) and be active.
pub fn check_refresh_user(user: Option<User>) -> (res: Result<User, AppError>)
    ensures
        match user {
            None => res matches Err(e) && e is InternalServerError,
            Some(u) => if u.is_active {
                res matches Ok(v) && v == u
            } else {
                res matches Err(e) && is_forbidden(e, "Account is deactivated"@)
            },
        },
{
    let u = match user {
        Some(u) => u,
        None => return Err(AppError::InternalServerError),
    };
    if !u.is_active {
        return Err(AppError::Forbidden(owned("Account is deactivated")));
    }
    Ok(u)
}

// ─── Me ──────────────────────────────────────────────────────────────────────

/// The caller's profile, or a 404 when their account is gone.
pub fn me_response(user: Option<User>) -> (res: Result<UserResponse, AppError>)
    ensures
        match user {
            Some(u) => res matches Ok(r) && r == user_response_of(u),
            None => res matches Err(e) && is_not_found(e, "User not found"@),
        },
{
    match user {
        Some(u) => Ok(UserResponse::from(u)),
        None => Err(AppError::NotFound(owned("User not found"))),
    }
}

// ─── Sessions ────────────────────────────────────────────────────────────────

/// The tokens handed out at registration and login: an access token, a
/// refresh token, the hash under which the refresh token is stored, and
/// when it expires.
#[derive(Debug)]
pub struct Session {
    pub access_token: String,
    pub refresh_token: String,
    pub refresh_token_hash: String,
    pub refresh_expires_at: Timestamp,
}

/// Issues a session for `user` at `now`: the access token, a fresh random
/// refresh token, its SHA-256 hash, and its expiry
/// `jwt_refresh_expiry_seconds` after `now`. Where either expiry falls
/// outside what `chrono` represents (where plain `chrono` arithmetic
/// panics) the error is internal; otherwise it succeeds.
pub fn issue_session_at(user: &User, config: &Config, now: Timestamp) -> (res: Result<
    Session,
    AppError,
>)
    requires
        well_formed(now),
    ensures
        res is Ok <==> can_add_seconds(now, config.jwt_access_expiry_seconds) && can_add_seconds(
            now,
            config.jwt_refresh_expiry_seconds,
        ),
        res matches Err(e) ==> e is InternalServerError,
        res matches Ok(s) ==> {
            &&& s.access_token@ == access_token_spec(*user, *config, now)
            &&& hs256_claims(s.access_token@, encode_utf8(config.jwt_secret@)) == Some(
                access_claims_spec(*user, *config, now),
            )
            &&& s.refresh_token_hash@ == token_hash_spec(s.refresh_token@)
            &&& s.refresh_token@.len() == 64
            &&& forall|i: int| 0 <= i < 64 ==> is_lower_hex(#[trigger] s.refresh_token@[i])
            &&& s.refresh_expires_at == plus_seconds(now, config.jwt_refresh_expiry_seconds)
        },
{
    let access_token = match create_access_token_at(user, config, now) {
        Ok(t) => t,
        Err(e) => return Err(e),
    };
    let refresh_token = generate_refresh_token();
    let refresh_token_hash = hash_token(refresh_token.as_str());
    let refresh_expires_at = match checked_add_seconds(now, config.jwt_refresh_expiry_seconds) {
        Some(t) => t,
        None => return Err(AppError::InternalServerError),
    };
    Ok(Session { access_token, refresh_token, refresh_token_hash, refresh_expires_at })
}

/// Issues a session for `user`, now.
pub fn issue_session(user: &User, config: &Config) -> (res: Result<Session, AppError>)
    ensures
        res matches Err(e) ==> e is InternalServerError && exists|now: Timestamp|
            well_formed(now) && !(can_add_seconds(now, config.jwt_access_expiry_seconds)
                && can_add_seconds(now, config.jwt_refresh_expiry_seconds)),
        res matches Ok(s) ==> {
            &&& exists|now: Timestamp|
                well_formed(now) && s.access_token@ == access_token_spec(*user, *config, now)
                    && hs256_claims(s.access_token@, encode_utf8(config.jwt_secret@)) == Some(
                    access_claims_spec(*user, *config, now),
                ) && s.refresh_expires_at == plus_seconds(now, config.jwt_refresh_expiry_seconds)
            &&& s.refresh_token_hash@ == token_hash_spec(s.refresh_token@)
        },
{
    let now = utc_now();
    issue_session_at(user, config, now)
}

/// A session handed to `user` at some reading of the clock: its access
/// token carries the user's claims, and its refresh token is stored under
/// its SHA-256 hash until `jwt_refresh_expiry_seconds` later.
pub open spec fn session_issued(s: Session, user: User, config: Config) -> bool {
    &&& exists|now: Timestamp|
        well_formed(now) && s.access_token@ == access_token_spec(user, config, now) && hs256_claims(
            s.access_token@,
            encode_utf8(config.jwt_secret@),
        ) == Some(access_claims_spec(user, config, now)) && s.refresh_expires_at == plus_seconds(
            now,
            config.jwt_refresh_expiry_seconds,
        )
    &&& s.refresh_token_hash@ == token_hash_spec(s.refresh_token@)
}

/// A session issued to an account (just registered, or logged in),
/// waiting for its refresh token to be stored.
#[derive(Debug)]
pub struct SessionHandout {
    pub session: Session,
    pub user: User,
}

/// What handing out a session does next.
#[derive(Debug)]
pub enum HandoutStep {
    /// Store the refresh token's hash for the user with its expiry, then
    /// call `refresh_token_stored` on `next`.
    StoreRefreshToken { user_id: u128, token_hash: String, expires_at: Timestamp, next: SessionHandout },
    /// No session could be issued; nothing is stored.
    Refused(AppError),
}

impl SessionHandout {
    /// Issues a session to `user`: the refresh token's hash is to be
    /// stored before anything is answered.
    pub fn issue(user: User, config: &Config) -> (step: HandoutStep)
        ensures
            match step {
                HandoutStep::StoreRefreshToken { user_id, token_hash, expires_at, next } => {
                    &&& user_id == user.id
                    &&& token_hash@ == next.session.refresh_token_hash@
                    &&& expires_at == next.session.refresh_expires_at
                    &&& next.user == user
                    &&& session_issued(next.session, user, *config)
                },
                HandoutStep::Refused(e) => e is InternalServerError && exists|now: Timestamp|
                    well_formed(now) && !(can_add_seconds(now, config.jwt_access_expiry_seconds)
                        && can_add_seconds(now, config.jwt_refresh_expiry_seconds)),
            },
    {
        match issue_session(&user, config) {
            Ok(session) => {
                let user_id = user.id;
                let token_hash = session.refresh_token_hash.clone();
                let expires_at = session.refresh_expires_at;
                HandoutStep::StoreRefreshToken {
                    user_id,
                    token_hash,
                    expires_at,
                    next: SessionHandout { session, user },
                }
            },
            Err(e) => HandoutStep::Refused(e),
        }
    }

    /// The refresh token is stored: the answer carries both tokens, type
    /// `Bearer`, the access token's lifetime and the user's profile.
    pub fn refresh_token_stored(self, config: &Config) -> (res: AuthResponse)
        ensures
            res.access_token == self.session.access_token,
            res.refresh_token == self.session.refresh_token,
            res.token_type@ == "Bearer"@,
            res.expires_in == config.jwt_access_expiry_seconds,
            res.user == user_response_of(self.user),
    {
        auth_response(self.session, self.user, config)
    }
}

/// The answer to a registration or login: both tokens, type `Bearer`, the
/// access token's lifetime, and the user's public profile.
pub fn auth_response(session: Session, user: User, config: &Config) -> (res: AuthResponse)
    ensures
        res.access_token == session.access_token,
        res.refresh_token == session.refresh_token,
        res.token_type@ == "Bearer"@,
        res.expires_in == config.jwt_access_expiry_seconds,
        res.user == user_response_of(user),
{
    AuthResponse {
        access_token: session.access_token,
        refresh_token: session.refresh_token,
        token_type: owned("Bearer"),
        expires_in: config.jwt_access_expiry_seconds,
        user: UserResponse::from(user),
    }
}

/// The answer to a refresh: the new access token, type `Bearer`, and its
/// lifetime.
pub fn token_response(access_token: String, config: &Config) -> (res: TokenResponse)
    ensures
        res.access_token == access_token,
        res.token_type@ == "Bearer"@,
        res.expires_in == config.jwt_access_expiry_seconds,
{
    TokenResponse {
        access_token,
        token_type: owned("Bearer"),
        expires_in: config.jwt_access_expiry_seconds,
    }
}

} // verus!
