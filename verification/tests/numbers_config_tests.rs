use calendar_task_api::config::Config;
use calendar_task_api::numbers::{parse_i64, parse_u16};

#[test]
fn parse_i64_reads_like_str_parse() {
    let cases = [
        "900", "-5", "+7", "", "-", "+", "0", "-0", "007", "9223372036854775807",
        "9223372036854775808", "-9223372036854775808", "-9223372036854775809", "12a", " 1", "1 ",
        "+-1", "-+1", "\u{0663}", "1_000", "99999999999999999999999",
    ];
    for c in cases {
        assert_eq!(parse_i64(c), c.parse::<i64>().ok(), "case {:?}", c);
    }
    assert_eq!(parse_i64("-9223372036854775808"), Some(i64::MIN));
    assert_eq!(parse_i64("604800"), Some(604800));
}

#[test]
fn parse_u16_reads_like_str_parse() {
    let cases = ["3000", "65535", "65536", "-0", "+0", "0", "", "+", "-1", "8080x", "00080"];
    for c in cases {
        assert_eq!(parse_u16(c), c.parse::<u16>().ok(), "case {:?}", c);
    }
    assert_eq!(parse_u16("65535"), Some(65535));
    assert_eq!(parse_u16("65536"), None);
}

fn some(x: &str) -> Option<String> {
    Some(x.to_string())
}

#[test]
fn config_defaults() {
    let c = Config::from_env_values(some("postgres://db"), some("s3cret"), None, None, None, None);
    assert_eq!(c.database_url, "postgres://db");
    assert_eq!(c.jwt_secret, "s3cret");
    assert_eq!(c.jwt_access_expiry_seconds, 900);
    assert_eq!(c.jwt_refresh_expiry_seconds, 604800);
    assert_eq!(c.host, "127.0.0.1");
    assert_eq!(c.port, 3000);
}

#[test]
fn config_takes_given_values() {
    let c = Config::from_env_values(
        some("postgres://db"),
        some("k"),
        some("60"),
        some("-1"),
        some("0.0.0.0"),
        some("8080"),
    );
    assert_eq!(c.jwt_access_expiry_seconds, 60);
    assert_eq!(c.jwt_refresh_expiry_seconds, -1);
    assert_eq!(c.host, "0.0.0.0");
    assert_eq!(c.port, 8080);
}

fn err(
    d: Option<String>,
    k: Option<String>,
    a: Option<String>,
    r: Option<String>,
    h: Option<String>,
    p: Option<String>,
) -> String {
    match Config::env_values_error(&d, &k, &a, &r, &h, &p) {
        None => panic!("expected an error"),
        Some(e) => e.message(),
    }
}

#[test]
fn config_errors_in_order() {
    assert_eq!(err(None, None, some("x"), None, None, None), "DATABASE_URL must be set");
    assert_eq!(err(some("d"), None, some("x"), None, None, None), "JWT_SECRET must be set");
    assert_eq!(
        err(some("d"), some("k"), some("x"), some("y"), None, None),
        "JWT_ACCESS_EXPIRY_SECONDS must be a number"
    );
    assert_eq!(
        err(some("d"), some("k"), None, some("y"), None, some("z")),
        "JWT_REFRESH_EXPIRY_SECONDS must be a number"
    );
    assert_eq!(err(some("d"), some("k"), None, None, None, some("70000")), "PORT must be a number");
    assert_eq!(err(some("d"), some("k"), None, None, None, some("abc")), "PORT must be a number");
    assert!(Config::env_values_error(&some("d"), &some("k"), &None, &None, &None, &None).is_none());
}
