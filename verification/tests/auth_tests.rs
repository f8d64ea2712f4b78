use calendar_task_api::config::Config;
use calendar_task_api::errors::AppError;
use calendar_task_api::handlers::auth::{
    auth_response, authenticate_login, HandoutStep, Registration, RegistrationStep, SessionHandout, check_email_available, check_refresh_user, issue_session,
    issue_session_at, me_response, refresh_token_owner, token_response,
};
use calendar_task_api::middleware::auth::{authenticated, bearer_token, request_token, AuthUser};
use calendar_task_api::models::auth::{Claims, LoginRequest, RefreshToken, RegisterRequest, User, UserResponse};
use calendar_task_api::time::{checked_add_seconds, Timestamp};
use calendar_task_api::utils::{
    access_claims, create_access_token, create_access_token_at, generate_refresh_token, hash_password,
    hash_token, verify_access_token, verify_access_token_at, verify_password,
};

const UID: u128 = 0x550e8400_e29b_41d4_a716_446655440000;

fn config() -> Config {
    Config::from_env_values(Some("postgres://db".to_string()), Some("test-secret".to_string()), None, None, None, None)
}

fn user(active: bool, hash: &str) -> User {
    let t = Timestamp { secs: 1_773_214_200, nanos: 0 };
    User {
        id: UID,
        email: "user@example.com".to_string(),
        name: "John Doe".to_string(),
        password_hash: hash.to_string(),
        role: "user".to_string(),
        is_active: active,
        created_at: t,
        updated_at: t,
    }
}

fn text(e: AppError) -> String {
    e.to_string()
}

#[test]
fn hash_token_is_sha256_hex() {
    assert_eq!(hash_token("abc"), "ba7816bf8f01cfea414140de5dae2223b00361a396177a9cb410ff61f20015ad");
    assert_eq!(hash_token(""), "e3b0c44298fc1c149afbf4c8996fb92427ae41e4649b934ca495991b7852b855");
    assert_eq!(hash_token("abc"), hash_token("abc"));
}

#[test]
fn refresh_tokens_are_64_hex_and_fresh() {
    let a = generate_refresh_token();
    let b = generate_refresh_token();
    assert_eq!(a.len(), 64);
    assert!(a.chars().all(|c| c.is_ascii_hexdigit() && !c.is_ascii_uppercase()));
    assert_ne!(a, b);
    assert_eq!(hash_token(&a).len(), 64);
}

#[test]
fn password_round_trip() {
    let h = hash_password("securepassword123").ok().unwrap();
    assert!(h.starts_with("$argon2id$v=19$"));
    assert_ne!(h, "securepassword123");
    assert!(h.starts_with("$argon2id$"));
    assert_eq!(verify_password("securepassword123", &h).ok(), Some(true));
    assert_eq!(verify_password("wrong", &h).ok(), Some(false));
    assert!(matches!(verify_password("x", "not a phc string"), Err(AppError::InternalServerError)));
}

#[test]
fn access_claims_follow_the_user_and_clock() {
    let now = Timestamp { secs: 1_000, nanos: 5 };
    let c = access_claims(&user(true, ""), &config(), now);
    assert_eq!(c.sub, "550e8400-e29b-41d4-a716-446655440000");
    assert_eq!(c.email, "user@example.com");
    assert_eq!(c.name, "John Doe");
    assert_eq!(c.role, "user");
    assert_eq!(c.iat, 1_000);
    assert_eq!(c.exp, 1_900);
}

#[test]
fn access_token_decodes_to_the_claims() {
    let cfg = config();
    let token = create_access_token(&user(true, ""), &cfg).ok().unwrap();
    let data = jsonwebtoken::decode::<serde_json::Value>(
        &token,
        &jsonwebtoken::DecodingKey::from_secret(b"test-secret"),
        &jsonwebtoken::Validation::new(jsonwebtoken::Algorithm::HS256),
    )
    .unwrap();
    let v = data.claims;
    assert_eq!(v["sub"], "550e8400-e29b-41d4-a716-446655440000");
    assert_eq!(v["email"], "user@example.com");
    assert_eq!(v["role"], "user");
    let exp = v["exp"].as_u64().unwrap();
    let iat = v["iat"].as_u64().unwrap();
    assert_eq!(exp - iat, 900);
    // a token signed with another secret is rejected
    assert!(jsonwebtoken::decode::<serde_json::Value>(
        &token,
        &jsonwebtoken::DecodingKey::from_secret(b"other"),
        &jsonwebtoken::Validation::new(jsonwebtoken::Algorithm::HS256),
    )
    .is_err());
}

#[test]
fn access_token_out_of_range_expiry_is_internal_error() {
    let mut cfg = config();
    cfg.jwt_access_expiry_seconds = i64::MAX;
    let now = Timestamp { secs: 1_000, nanos: 0 };
    assert!(matches!(create_access_token_at(&user(true, ""), &cfg, now), Err(AppError::InternalServerError)));
    assert!(checked_add_seconds(now, i64::MAX).is_none());
    assert_eq!(checked_add_seconds(now, 5), Some(Timestamp { secs: 1_005, nanos: 0 }));
}

#[test]
fn registration_requires_a_free_email() {
    assert!(check_email_available("a@b.cz", &None).is_ok());
    match check_email_available("a@b.cz", &Some(user(true, ""))) {
        Err(AppError::Conflict(m)) => assert_eq!(m, "Email 'a@b.cz' is already registered"),
        _ => panic!("expected 409"),
    }
}

#[test]
fn login_decisions() {
    let h = hash_password("right-password").ok().unwrap();
    let body = |p: &str| LoginRequest { email: "user@example.com".to_string(), password: p.to_string() };
    assert_eq!(authenticate_login(&body("right-password"), Some(user(true, &h))).ok().unwrap().id, UID);
    let unknown = authenticate_login(&body("right-password"), None).err().unwrap();
    let wrong = authenticate_login(&body("wrong-password"), Some(user(true, &h))).err().unwrap();
    // an unknown e-mail and a wrong password get the same answer
    assert_eq!(unknown.error_response().code, wrong.error_response().code);
    assert_eq!(unknown.error_response().message, wrong.error_response().message);
    assert_eq!(text(unknown), "Unauthorized: Invalid email or password");
    let inactive = authenticate_login(&body("right-password"), Some(user(false, &h))).err().unwrap();
    assert_eq!(text(inactive), "Unauthorized: Invalid email or password");
    let inactive_wrong = authenticate_login(&body("wrong-password"), Some(user(false, &h))).err().unwrap();
    assert_eq!(inactive_wrong.error_response().code, 401);
    assert_eq!(inactive_wrong.error_response().message, "Unauthorized: Invalid email or password");
    let broken = authenticate_login(&body("right-password"), Some(user(true, "garbage"))).err().unwrap();
    assert!(matches!(broken, AppError::InternalServerError));
}

#[test]
fn refresh_decisions() {
    let t = Timestamp { secs: 10, nanos: 0 };
    let stored = RefreshToken { id: 1, user_id: UID, token_hash: hash_token("x"), expires_at: t, created_at: t };
    assert_eq!(refresh_token_owner(&Some(stored)).ok(), Some(UID));
    assert_eq!(text(refresh_token_owner(&None).err().unwrap()), "Unauthorized: Invalid or expired refresh token");
    assert!(matches!(check_refresh_user(None), Err(AppError::InternalServerError)));
    assert_eq!(text(check_refresh_user(Some(user(false, ""))).err().unwrap()), "Forbidden: Account is deactivated");
    assert_eq!(check_refresh_user(Some(user(true, ""))).ok().unwrap().id, UID);
}

#[test]
fn me_hides_the_password_hash() {
    let r: UserResponse = me_response(Some(user(true, "$argon2id$secret"))).ok().unwrap();
    assert_eq!(r.id, UID);
    assert_eq!(r.email, "user@example.com");
    assert_eq!(text(me_response(None).err().unwrap()), "Not found: User not found");
}

#[test]
fn sessions_and_responses() {
    let cfg = config();
    let now = Timestamp { secs: 1_773_214_200, nanos: 7 };
    let s = issue_session_at(&user(true, ""), &cfg, now).ok().unwrap();
    assert_eq!(s.refresh_token.len(), 64);
    assert_eq!(s.refresh_token_hash, hash_token(&s.refresh_token));
    assert_eq!(s.refresh_expires_at, Timestamp { secs: 1_773_214_200 + 604_800, nanos: 7 });
    assert_eq!(s.access_token, create_access_token_at(&user(true, ""), &cfg, now).ok().unwrap());
    let token = s.access_token.clone();
    let r = auth_response(s, user(true, ""), &cfg);
    assert_eq!(r.token_type, "Bearer");
    assert_eq!(r.expires_in, 900);
    assert_eq!(r.access_token, token);
    assert_eq!(r.user.name, "John Doe");
    let t = token_response(token.clone(), &cfg);
    assert_eq!((t.token_type.as_str(), t.expires_in), ("Bearer", 900));
    assert!(issue_session(&user(true, ""), &cfg).is_ok());
    let mut bad = config();
    bad.jwt_refresh_expiry_seconds = i64::MIN;
    assert!(matches!(issue_session_at(&user(true, ""), &bad, now), Err(AppError::InternalServerError)));
}

#[test]
fn bearer_header_parsing() {
    assert_eq!(bearer_token(Some("Bearer abc.def")).ok(), Some("abc.def".to_string()));
    assert_eq!(bearer_token(Some("Bearer ")).ok(), Some(String::new()));
    assert_eq!(text(bearer_token(None).err().unwrap()), "Unauthorized: Missing Authorization header");
    assert!(bearer_token(Some("bearer abc")).is_err());
    assert!(bearer_token(Some("Basic abc")).is_err());
    assert!(bearer_token(Some("Bearer")).is_err());
    assert!(matches!(request_token(Some("Bearer t"), false), Err(AppError::InternalServerError)));
    assert!(matches!(request_token(None, false), Err(AppError::Unauthorized(_))));
    assert_eq!(request_token(Some("Bearer t"), true).ok(), Some("t".to_string()));
}

#[test]
fn caller_identity() {
    let cfg = config();
    let token = create_access_token(&user(true, ""), &cfg).ok().unwrap();
    let caller = authenticated(&token, &cfg).ok().unwrap();
    assert_eq!(caller.user_id(), UID);
    assert_eq!(caller.try_user_id(), Some(UID));
    assert_eq!(caller.claims().sub, "550e8400-e29b-41d4-a716-446655440000");
    assert_eq!(caller.claims().exp - caller.claims().iat, 900);
    let odd = AuthUser(Claims {
        sub: "not-a-uuid".to_string(),
        email: String::new(),
        name: String::new(),
        role: String::new(),
        exp: 0,
        iat: 0,
    });
    assert_eq!(odd.try_user_id(), None);
    assert_eq!(text(authenticated("garbage", &cfg).err().unwrap()), "Unauthorized: Invalid or expired access token");
}

#[test]
fn issued_tokens_verify_until_expiry_and_leeway() {
    let cfg = config();
    let now = Timestamp { secs: 1_773_214_200, nanos: 0 };
    let token = create_access_token_at(&user(true, ""), &cfg, now).ok().unwrap();
    let claims = verify_access_token_at(&token, &cfg, now).ok().unwrap();
    assert_eq!(claims.sub, "550e8400-e29b-41d4-a716-446655440000");
    assert_eq!(claims.email, "user@example.com");
    assert_eq!(claims.name, "John Doe");
    assert_eq!(claims.role, "user");
    assert_eq!(claims.iat, 1_773_214_200);
    assert_eq!(claims.exp, 1_773_214_200 + 900);
    // valid up to 60 seconds past the expiry, refused after
    let edge = Timestamp { secs: 1_773_214_200 + 900 + 60, nanos: 0 };
    assert!(verify_access_token_at(&token, &cfg, edge).is_ok());
    let late = Timestamp { secs: 1_773_214_200 + 900 + 61, nanos: 0 };
    assert_eq!(
        text(verify_access_token_at(&token, &cfg, late).err().unwrap()),
        "Unauthorized: Invalid or expired access token"
    );
}

#[test]
fn tokens_with_another_secret_or_tampered_are_refused() {
    let cfg = config();
    let now = Timestamp { secs: 1_773_214_200, nanos: 0 };
    let token = create_access_token_at(&user(true, ""), &cfg, now).ok().unwrap();
    let mut other = config();
    other.jwt_secret = "another-secret".to_string();
    assert!(matches!(verify_access_token_at(&token, &other, now), Err(AppError::Unauthorized(_))));
    let mut tampered = token.clone();
    tampered.push('x');
    assert!(matches!(verify_access_token_at(&tampered, &cfg, now), Err(AppError::Unauthorized(_))));
    assert!(matches!(verify_access_token_at("a.b.c", &cfg, now), Err(AppError::Unauthorized(_))));
    assert!(verify_access_token(&token, &cfg).is_err());
    let fresh = create_access_token(&user(true, ""), &cfg).ok().unwrap();
    assert_eq!(verify_access_token(&fresh, &cfg).ok().unwrap().sub, "550e8400-e29b-41d4-a716-446655440000");
}

#[test]
fn timestamps_stay_within_chrono_range() {
    // -262143-01-01T00:00:00Z and +262142-12-31T23:59:59Z
    let min = Timestamp { secs: -8_334_601_228_800, nanos: 0 };
    let max = Timestamp { secs: 8_210_266_876_799, nanos: 0 };
    assert_eq!(checked_add_seconds(min, 0), Some(min));
    assert_eq!(checked_add_seconds(min, -1), None);
    assert_eq!(checked_add_seconds(max, 0), Some(max));
    assert_eq!(checked_add_seconds(max, 1), None);
}

fn register_body(email: &str, password: &str) -> RegisterRequest {
    RegisterRequest { email: email.to_string(), name: "John Doe".to_string(), password: password.to_string() }
}

#[test]
fn registration_steps() {
    // an invalid body is refused before any lookup
    match Registration::start(register_body("not-an-email", "short")) {
        RegistrationStep::Refused(AppError::Validation(v)) => assert_eq!(v.errors.len(), 2),
        _ => panic!("expected 422"),
    }
    let r = match Registration::start(register_body("user@example.com", "securepassword123")) {
        RegistrationStep::LookUpEmail(r) => r,
        _ => panic!("expected the e-mail lookup"),
    };
    assert_eq!(r.body.email, "user@example.com");
    // a taken e-mail is refused before anything is stored
    match r.email_looked_up(Some(user(true, ""))) {
        RegistrationStep::Refused(e) => assert_eq!(text(e), "Conflict: Email 'user@example.com' is already registered"),
        _ => panic!("expected 409"),
    }
    let r = Registration { body: register_body("user@example.com", "securepassword123") };
    match r.email_looked_up(None) {
        RegistrationStep::InsertUser { email, name, password_hash } => {
            assert_eq!(email, "user@example.com");
            assert_eq!(name, "John Doe");
            assert!(password_hash.starts_with("$argon2id$v=19$"));
            assert_eq!(verify_password("securepassword123", &password_hash).ok(), Some(true));
        }
        _ => panic!("expected the insert"),
    }
}

#[test]
fn session_handout_stores_before_answering() {
    let cfg = config();
    match SessionHandout::issue(user(true, ""), &cfg) {
        HandoutStep::StoreRefreshToken { user_id, token_hash, expires_at, next } => {
            assert_eq!(user_id, UID);
            assert_eq!(token_hash, hash_token(&next.session.refresh_token));
            assert_eq!(expires_at, next.session.refresh_expires_at);
            let refresh = next.session.refresh_token.clone();
            let r = next.refresh_token_stored(&cfg);
            assert_eq!(r.refresh_token, refresh);
            assert_eq!(r.token_type, "Bearer");
            assert_eq!(r.expires_in, 900);
            assert_eq!(r.user.id, UID);
        }
        HandoutStep::Refused(_) => panic!("expected a session"),
    }
}
