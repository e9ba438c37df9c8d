use authcore::config::{Config, ConfigError};
use authcore::error::ApiError;
use authcore::handlers::validate_registration;

fn build(
    database_url: Option<&str>,
    jwt_secret: Option<&str>,
    ttl: Option<&str>,
    days: Option<&str>,
    domain: Option<&str>,
    secure: Option<&str>,
    port: Option<&str>,
    cors: Option<&str>,
    credentials: Option<&str>,
) -> Result<Config, ConfigError> {
    Config::from_values(
        database_url.map(|s| s.to_string()),
        jwt_secret.map(|s| s.to_string()),
        ttl.map(|s| s.to_string()),
        days.map(|s| s.to_string()),
        domain.map(|s| s.to_string()),
        secure.map(|s| s.to_string()),
        port.map(|s| s.to_string()),
        cors.map(|s| s.to_string()),
        credentials.map(|s| s.to_string()),
    )
}

#[test]
fn missing_database_url_is_an_error() {
    let r = build(None, Some("s"), None, None, None, None, None, None, None);
    assert!(matches!(r, Err(ConfigError::MissingDatabaseUrl)));
}

#[test]
fn missing_jwt_secret_is_an_error() {
    let r = build(Some("db"), None, None, None, None, None, None, None, None);
    assert!(matches!(r, Err(ConfigError::MissingJwtSecret)));
}

#[test]
fn defaults_apply_when_entries_are_absent() {
    let cfg = match build(Some("db"), Some("s"), None, None, None, None, None, None, None) {
        Ok(c) => c,
        Err(_) => panic!("both required entries are present"),
    };
    assert_eq!(cfg.database_url, "db");
    assert_eq!(cfg.jwt_secret, "s");
    assert_eq!(cfg.token_ttl_minutes, 15);
    assert_eq!(cfg.refresh_ttl_days, 7);
    assert!(cfg.cookie_domain.is_none());
    assert!(!cfg.cookie_secure);
    assert_eq!(cfg.port, 8080);
    assert!(cfg.cors_allowed_origins.is_none());
    assert!(!cfg.cors_allow_credentials);
}

#[test]
fn numeric_entries_parse() {
    let cfg = match build(
        Some("db"),
        Some("s"),
        Some("30"),
        Some("14"),
        Some("example.com"),
        Some("true"),
        Some("9090"),
        None,
        Some("1"),
    ) {
        Ok(c) => c,
        Err(_) => panic!("both required entries are present"),
    };
    assert_eq!(cfg.token_ttl_minutes, 30);
    assert_eq!(cfg.refresh_ttl_days, 14);
    assert_eq!(cfg.cookie_domain.as_deref(), Some("example.com"));
    assert!(cfg.cookie_secure);
    assert_eq!(cfg.port, 9090);
    assert!(cfg.cors_allow_credentials);
}

#[test]
fn unreadable_numbers_fall_back_to_defaults() {
    let cfg = match build(
        Some("db"),
        Some("s"),
        Some("abc"),
        Some("99999999999999999999999999"),
        None,
        Some("yes"),
        Some("70000"),
        None,
        Some("0"),
    ) {
        Ok(c) => c,
        Err(_) => panic!("both required entries are present"),
    };
    assert_eq!(cfg.token_ttl_minutes, 15);
    assert_eq!(cfg.refresh_ttl_days, 7);
    assert!(!cfg.cookie_secure);
    assert_eq!(cfg.port, 8080);
    assert!(!cfg.cors_allow_credentials);
}

#[test]
fn truthiness_ignores_letter_case() {
    let t = match build(Some("db"), Some("s"), None, None, None, Some("TRUE"), None, None, Some("True")) {
        Ok(c) => c,
        Err(_) => panic!("both required entries are present"),
    };
    assert!(t.cookie_secure);
    assert!(t.cors_allow_credentials);
    let f = match build(Some("db"), Some("s"), None, None, None, Some("truely"), None, None, Some("10")) {
        Ok(c) => c,
        Err(_) => panic!("both required entries are present"),
    };
    assert!(!f.cookie_secure);
    assert!(!f.cors_allow_credentials);
}

#[test]
fn cors_origins_split_trim_and_drop_empties() {
    let cfg = match build(
        Some("db"),
        Some("s"),
        None,
        None,
        None,
        None,
        None,
        Some(" https://a.com , https://b.com ,, "),
        None,
    ) {
        Ok(c) => c,
        Err(_) => panic!("both required entries are present"),
    };
    assert_eq!(
        cfg.cors_allowed_origins,
        Some(vec!["https://a.com".to_string(), "https://b.com".to_string()])
    );
}

#[test]
fn cors_entry_without_origins_is_dropped() {
    let empty = match build(Some("db"), Some("s"), None, None, None, None, None, Some(""), None) {
        Ok(c) => c,
        Err(_) => panic!("both required entries are present"),
    };
    assert!(empty.cors_allowed_origins.is_none());
    let blank = match build(Some("db"), Some("s"), None, None, None, None, None, Some(" , "), None) {
        Ok(c) => c,
        Err(_) => panic!("both required entries are present"),
    };
    assert!(blank.cors_allowed_origins.is_none());
}

#[test]
fn single_origin_needs_no_comma() {
    let cfg = match build(
        Some("db"),
        Some("s"),
        None,
        None,
        None,
        None,
        None,
        Some("http://localhost:3000"),
        None,
    ) {
        Ok(c) => c,
        Err(_) => panic!("both required entries are present"),
    };
    assert_eq!(cfg.cors_allowed_origins, Some(vec!["http://localhost:3000".to_string()]));
}

#[test]
fn error_mapper_covers_every_kind() {
    assert_eq!(
        ApiError::BadRequest("x".to_string()).into_response(),
        (400, "{\"error\":\"x\"}".to_string())
    );
    assert_eq!(
        ApiError::Unauthorized.into_response(),
        (401, "{\"error\":\"unauthorized\"}".to_string())
    );
    assert_eq!(
        ApiError::Conflict("y".to_string()).into_response(),
        (409, "{\"error\":\"y\"}".to_string())
    );
    assert_eq!(
        ApiError::Storage.into_response(),
        (500, "{\"error\":\"internal error\"}".to_string())
    );
    assert_eq!(
        ApiError::Internal.into_response(),
        (500, "{\"error\":\"internal error\"}".to_string())
    );
}

#[test]
fn validation_checks_password_before_email() {
    assert!(validate_registration("a@b.c", "correct-horse").is_ok());
    match validate_registration("abc", "short") {
        Err(ApiError::BadRequest(m)) => assert_eq!(m, "password must be at least 8 characters"),
        _ => panic!("a short password must be rejected first"),
    }
    match validate_registration("abc", "correct-horse") {
        Err(ApiError::BadRequest(m)) => assert_eq!(m, "invalid email"),
        _ => panic!("an email without @ must be rejected"),
    }
}
