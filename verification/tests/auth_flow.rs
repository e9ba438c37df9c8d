use authcore::config::Config;
use authcore::error::ApiError;
use authcore::handlers::{auth, register, AuthRequest, RegisterRequest};
use authcore::hasher::{hash_password, verify_password};
use authcore::store::{InsertOutcome, UserStore};
use authcore::token::{create_access_token, create_access_token_at, create_refresh_token_at};

fn test_config() -> Config {
    Config {
        database_url: "postgres://localhost/unused".to_string(),
        jwt_secret: "test-signing-secret".to_string(),
        token_ttl_minutes: 15,
        refresh_ttl_days: 7,
        cookie_domain: None,
        cookie_secure: false,
        port: 8080,
        cors_allowed_origins: None,
        cors_allow_credentials: false,
    }
}

fn decode_claims(token: &str, secret: &str) -> serde_json::Value {
    let mut validation = jsonwebtoken::Validation::new(jsonwebtoken::Algorithm::HS256);
    validation.validate_exp = false;
    let data = jsonwebtoken::decode::<serde_json::Value>(
        token,
        &jsonwebtoken::DecodingKey::from_secret(secret.as_bytes()),
        &validation,
    )
    .expect("token must decode under the signing secret");
    data.claims
}

#[test]
fn hash_round_trip() {
    let h = hash_password("correct-horse").expect("hashing must succeed");
    assert!(verify_password("correct-horse", &h));
}

#[test]
fn hash_rejects_other_password() {
    let h = hash_password("correct-horse").expect("hashing must succeed");
    assert!(!verify_password("wrong-horse", &h));
    assert!(!verify_password("", &h));
}

#[test]
fn hash_is_salted_fresh_each_call() {
    let h1 = hash_password("correct-horse").expect("hashing must succeed");
    let h2 = hash_password("correct-horse").expect("hashing must succeed");
    assert_ne!(h1, h2);
}

#[test]
fn hash_is_not_the_password() {
    let h = hash_password("correct-horse").expect("hashing must succeed");
    assert!(!h.is_empty());
    assert_ne!(h, "correct-horse");
    assert!(!h.contains("correct-horse"));
}

#[test]
fn hash_is_a_phc_string() {
    let h = hash_password("correct-horse").expect("hashing must succeed");
    assert!(h.starts_with("$argon2"));
}

#[test]
fn verify_malformed_hash_is_false() {
    assert!(!verify_password("anything123", "not-a-phc-string"));
    assert!(!verify_password("anything123", ""));
}

#[test]
fn access_token_claims_are_exact() {
    let cfg = test_config();
    let now: u64 = 1_700_000_000;
    let t = create_access_token_at(&cfg, "11111111-2222-3333-4444-555555555555", "a@b.c", now)
        .expect("signing must succeed");
    let claims = decode_claims(&t, "test-signing-secret");
    assert_eq!(claims.get("exp").unwrap().as_u64().unwrap(), now + 15 * 60);
    assert_eq!(claims.get("typ").unwrap().as_str().unwrap(), "access");
    assert_eq!(claims.get("sub").unwrap().as_str().unwrap(), "11111111-2222-3333-4444-555555555555");
    assert_eq!(claims.get("email").unwrap().as_str().unwrap(), "a@b.c");
}

#[test]
fn refresh_token_claims_are_exact() {
    let cfg = test_config();
    let now: u64 = 1_700_000_000;
    let t = create_refresh_token_at(&cfg, "11111111-2222-3333-4444-555555555555", "a@b.c", now)
        .expect("signing must succeed");
    let claims = decode_claims(&t, "test-signing-secret");
    assert_eq!(claims.get("exp").unwrap().as_u64().unwrap(), now + 7 * 86400);
    assert_eq!(claims.get("typ").unwrap().as_str().unwrap(), "refresh");
}

#[test]
fn token_freshness_tracks_the_clock() {
    let cfg = test_config();
    let t1 = create_access_token(&cfg, "id-1", "a@b.c").expect("signing must succeed");
    let t2 = create_access_token(&cfg, "id-1", "a@b.c").expect("signing must succeed");
    let now = chrono::Utc::now().timestamp() as u64;
    let e1 = decode_claims(&t1, "test-signing-secret").get("exp").unwrap().as_u64().unwrap();
    let e2 = decode_claims(&t2, "test-signing-secret").get("exp").unwrap().as_u64().unwrap();
    let want = now + 15 * 60;
    assert!(e1 + 1 >= want && e1 <= want + 1);
    assert!(e2 + 1 >= want && e2 <= want + 1);
}

#[test]
fn happy_path_register() {
    let cfg = test_config();
    let mut store = UserStore::new();
    let out = register(
        &mut store,
        &cfg,
        RegisterRequest { email: "a@b.c".to_string(), password: "correct-horse".to_string() },
    )
    .expect("registration must succeed");
    assert_eq!(out.response.email, "a@b.c");
    assert_eq!(out.response.id.len(), 36);

    assert_eq!(out.token_cookie.name, "token");
    assert!(!out.token_cookie.value.is_empty());
    assert!(out.token_cookie.http_only);
    assert!(out.token_cookie.same_site_lax);
    assert_eq!(out.token_cookie.path, "/");
    assert_eq!(out.token_cookie.max_age_seconds, 15 * 60);
    assert!(!out.token_cookie.secure);
    assert!(out.token_cookie.domain.is_none());

    assert_eq!(out.refresh_cookie.name, "refresh_token");
    assert!(!out.refresh_cookie.value.is_empty());
    assert_eq!(out.refresh_cookie.max_age_seconds, 7 * 86400);

    let row = store.lookup_by_email(&"a@b.c".to_string()).expect("the row must exist");
    assert_eq!(row.email, "a@b.c");
    assert_eq!(row.id, out.response.id);
    assert!(verify_password("correct-horse", &row.password_hash));
}

#[test]
fn register_cookies_carry_configured_scope() {
    let mut cfg = test_config();
    cfg.cookie_domain = Some("example.com".to_string());
    cfg.cookie_secure = true;
    let mut store = UserStore::new();
    let out = register(
        &mut store,
        &cfg,
        RegisterRequest { email: "a@b.c".to_string(), password: "correct-horse".to_string() },
    )
    .expect("registration must succeed");
    assert!(out.token_cookie.secure);
    assert_eq!(out.token_cookie.domain.as_deref(), Some("example.com"));
    assert!(out.refresh_cookie.secure);
    assert_eq!(out.refresh_cookie.domain.as_deref(), Some("example.com"));
}

#[test]
fn short_password_is_rejected() {
    let cfg = test_config();
    let mut store = UserStore::new();
    let err = register(
        &mut store,
        &cfg,
        RegisterRequest { email: "a@b.c".to_string(), password: "short".to_string() },
    )
    .expect_err("a short password must be rejected");
    let (status, body) = err.into_response();
    assert_eq!(status, 400);
    assert_eq!(body, "{\"error\":\"password must be at least 8 characters\"}");
    assert!(store.lookup_by_email(&"a@b.c".to_string()).is_none());
}

#[test]
fn email_without_at_is_rejected() {
    let cfg = test_config();
    let mut store = UserStore::new();
    let err = register(
        &mut store,
        &cfg,
        RegisterRequest { email: "abc".to_string(), password: "correct-horse".to_string() },
    )
    .expect_err("an email without @ must be rejected");
    let (status, body) = err.into_response();
    assert_eq!(status, 400);
    assert_eq!(body, "{\"error\":\"invalid email\"}");
    assert!(store.lookup_by_email(&"abc".to_string()).is_none());
}

#[test]
fn duplicate_email_conflicts_and_keeps_the_row() {
    let cfg = test_config();
    let mut store = UserStore::new();
    let first = register(
        &mut store,
        &cfg,
        RegisterRequest { email: "a@b.c".to_string(), password: "correct-horse".to_string() },
    )
    .expect("the first registration must succeed");

    let err = register(
        &mut store,
        &cfg,
        RegisterRequest { email: "a@b.c".to_string(), password: "other-password".to_string() },
    )
    .expect_err("the second registration must conflict");
    let (status, body) = err.into_response();
    assert_eq!(status, 409);
    assert_eq!(body, "{\"error\":\"email already registered\"}");

    let row = store.lookup_by_email(&"a@b.c".to_string()).expect("the row must still exist");
    assert_eq!(row.id, first.response.id);
    assert!(verify_password("correct-horse", &row.password_hash));
    assert!(!verify_password("other-password", &row.password_hash));
}

#[test]
fn happy_path_auth() {
    let cfg = test_config();
    let mut store = UserStore::new();
    register(
        &mut store,
        &cfg,
        RegisterRequest { email: "a@b.c".to_string(), password: "correct-horse".to_string() },
    )
    .expect("registration must succeed");

    let out = auth(
        &store,
        &cfg,
        AuthRequest { email: "a@b.c".to_string(), password: "correct-horse".to_string() },
    )
    .expect("authentication must succeed");
    assert!(!out.response.access_token.is_empty());
    assert!(!out.response.refresh_token.is_empty());
    assert_eq!(out.token_cookie.value, out.response.access_token);
    assert_eq!(out.refresh_cookie.value, out.response.refresh_token);

    let claims = decode_claims(&out.response.access_token, "test-signing-secret");
    assert_eq!(claims.get("typ").unwrap().as_str().unwrap(), "access");
    assert_eq!(claims.get("email").unwrap().as_str().unwrap(), "a@b.c");
}

#[test]
fn wrong_password_is_unauthorized() {
    let cfg = test_config();
    let mut store = UserStore::new();
    register(
        &mut store,
        &cfg,
        RegisterRequest { email: "a@b.c".to_string(), password: "correct-horse".to_string() },
    )
    .expect("registration must succeed");

    let err = auth(
        &store,
        &cfg,
        AuthRequest { email: "a@b.c".to_string(), password: "wrong-horse".to_string() },
    )
    .expect_err("a wrong password must be rejected");
    let (status, body) = err.into_response();
    assert_eq!(status, 401);
    assert_eq!(body, "{\"error\":\"unauthorized\"}");
}

#[test]
fn unknown_email_is_indistinguishable_from_wrong_password() {
    let cfg = test_config();
    let mut store = UserStore::new();
    register(
        &mut store,
        &cfg,
        RegisterRequest { email: "a@b.c".to_string(), password: "correct-horse".to_string() },
    )
    .expect("registration must succeed");

    let wrong_password = auth(
        &store,
        &cfg,
        AuthRequest { email: "a@b.c".to_string(), password: "wrong-horse".to_string() },
    )
    .expect_err("a wrong password must be rejected");
    let unknown_email = auth(
        &store,
        &cfg,
        AuthRequest { email: "nobody@x.y".to_string(), password: "anything123".to_string() },
    )
    .expect_err("an unknown email must be rejected");

    assert_eq!(wrong_password.into_response(), unknown_email.into_response());
}

#[test]
fn store_insert_reports_conflict_without_overwriting() {
    let mut store = UserStore::new();
    let first = store.insert_user(
        &"id-1".to_string(),
        &"a@b.c".to_string(),
        &"hash-1".to_string(),
    );
    assert!(matches!(first, InsertOutcome::Inserted));
    let second = store.insert_user(
        &"id-2".to_string(),
        &"a@b.c".to_string(),
        &"hash-2".to_string(),
    );
    assert!(matches!(second, InsertOutcome::ConflictOnEmail));
    let row = store.lookup_by_email(&"a@b.c".to_string()).expect("the row must exist");
    assert_eq!(row.id, "id-1");
    assert_eq!(row.password_hash, "hash-1");
}

#[test]
fn register_after_storage_error_kinds_never_leak_detail() {
    let e = ApiError::Internal;
    let (status, body) = e.into_response();
    assert_eq!(status, 500);
    assert_eq!(body, "{\"error\":\"internal error\"}");
}

#[test]
fn two_users_register_and_authenticate_independently() {
    let cfg = test_config();
    let mut store = UserStore::new();
    let first = register(
        &mut store,
        &cfg,
        RegisterRequest { email: "a@b.c".to_string(), password: "correct-horse".to_string() },
    )
    .expect("the first registration must succeed");
    let second = register(
        &mut store,
        &cfg,
        RegisterRequest { email: "d@e.f".to_string(), password: "battery-staple".to_string() },
    )
    .expect("a second email must register");
    assert_ne!(first.response.id, second.response.id);

    auth(
        &store,
        &cfg,
        AuthRequest { email: "a@b.c".to_string(), password: "correct-horse".to_string() },
    )
    .expect("the first user must authenticate");
    auth(
        &store,
        &cfg,
        AuthRequest { email: "d@e.f".to_string(), password: "battery-staple".to_string() },
    )
    .expect("the second user must authenticate");
    let crossed = auth(
        &store,
        &cfg,
        AuthRequest { email: "a@b.c".to_string(), password: "battery-staple".to_string() },
    )
    .expect_err("the other user's password must not authenticate");
    assert!(matches!(crossed, ApiError::Unauthorized));
}

#[test]
fn cookie_lifetimes_follow_the_configuration() {
    let mut cfg = test_config();
    cfg.token_ttl_minutes = 2;
    cfg.refresh_ttl_days = 1;
    let mut store = UserStore::new();
    let out = register(
        &mut store,
        &cfg,
        RegisterRequest { email: "a@b.c".to_string(), password: "correct-horse".to_string() },
    )
    .expect("registration must succeed");
    assert_eq!(out.token_cookie.max_age_seconds, 120);
    assert_eq!(out.refresh_cookie.max_age_seconds, 86400);
}
