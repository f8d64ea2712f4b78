use calendar_task_api::config::Config;
use calendar_task_api::handlers::calendar::found_calendar;
use calendar_task_api::middleware::auth::AuthUser;
use calendar_task_api::models::auth::{Claims, User};
use calendar_task_api::time::Timestamp;
use calendar_task_api::utils::{access_claims, hash_token};

fn caller(sub: &str) -> AuthUser {
    AuthUser(Claims {
        sub: sub.to_string(),
        email: String::new(),
        name: String::new(),
        role: String::new(),
        exp: 0,
        iat: 0,
    })
}

fn user_with_id(id: u128) -> User {
    let t = Timestamp { secs: 0, nanos: 0 };
    User {
        id,
        email: "e@x.io".to_string(),
        name: "Ann".to_string(),
        password_hash: String::new(),
        role: "user".to_string(),
        is_active: true,
        created_at: t,
        updated_at: t,
    }
}

fn config() -> Config {
    Config::from_env_values(Some("d".to_string()), Some("k".to_string()), None, None, None, None)
}

fn uuid_text(id: u128) -> String {
    access_claims(&user_with_id(id), &config(), Timestamp { secs: 0, nanos: 0 }).sub
}

#[test]
fn uuid_hyphenated_lowercase() {
    assert_eq!(uuid_text(0x67e5504410b1426f9247bb680e5fe0c8), "67e55044-10b1-426f-9247-bb680e5fe0c8");
    assert_eq!(uuid_text(0), "00000000-0000-0000-0000-000000000000");
    match found_calendar(0xffffffff_ffff_ffff_ffff_ffffffffffff, None) {
        Err(e) => assert_eq!(e.to_string(), "Not found: Calendar ffffffff-ffff-ffff-ffff-ffffffffffff not found"),
        Ok(_) => panic!("expected 404"),
    }
}

#[test]
fn uuid_forms_parse() {
    let v: u128 = 0x67e5504410b1426f9247bb680e5fe0c8;
    let id = |s: &str| caller(s).try_user_id();
    assert_eq!(id("67e55044-10b1-426f-9247-bb680e5fe0c8"), Some(v));
    assert_eq!(id("67E55044-10B1-426F-9247-BB680E5FE0C8"), Some(v));
    assert_eq!(id("67e5504410b1426f9247bb680e5fe0c8"), Some(v));
    assert_eq!(id("{67e55044-10b1-426f-9247-bb680e5fe0c8}"), Some(v));
    assert_eq!(id("urn:uuid:67e55044-10b1-426f-9247-bb680e5fe0c8"), Some(v));
    assert_eq!(id("URN:UUID:67e55044-10b1-426f-9247-bb680e5fe0c8"), Some(v));
    assert_eq!(id("67e55044-10b1-426f-9247-bb680e5fe0cg"), None);
    assert_eq!(id("67e55044_10b1-426f-9247-bb680e5fe0c8"), None);
    assert_eq!(id(""), None);
    assert_eq!(id("[67e55044-10b1-426f-9247-bb680e5fe0c8]"), None);
    assert_eq!(caller("67e55044-10b1-426f-9247-bb680e5fe0c8").user_id(), v);
}

#[test]
fn uuid_round_trip() {
    for v in [0u128, 1, u128::MAX, 0x0123456789abcdef0123456789abcdef] {
        assert_eq!(caller(&uuid_text(v)).try_user_id(), Some(v));
    }
}

#[test]
fn hex_is_lowercase_two_digits_per_byte() {
    let h = hash_token("The quick brown fox jumps over the lazy dog");
    assert_eq!(h, "d7a8fbb307d7809469ca9abcb0082e4f8d5651e46d3cdb762d02d0bf37c9e592");
    assert_eq!(h.len(), 64);
}
