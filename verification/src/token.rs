//! The token issuer: building access and refresh claims and signing them as
//! compact bearer tokens over the configured symmetric secret.

use vstd::prelude::*;
use crate::config::Config;
use crate::error::ApiError;

verus! {

/// The claims carried by an issued token; transient, never persisted.
pub struct Claims {
    pub sub: String,
    pub email: String,
    pub exp: u64,
    pub typ: String,
}

/// The compact signed token that encoding the claims `(sub, email, exp,
/// typ)` under `secret` yields: a function of those values alone.
pub uninterp spec fn jwt_of(
    sub: Seq<char>,
    email: Seq<char>,
    exp: u64,
    typ: Seq<char>,
    secret: Seq<char>,
) -> Seq<char>;

/// The expiration of an access token issued at `now`: the configured
/// lifetime in minutes past issuance.
pub open spec fn access_exp(cfg: Config, now: u64) -> int {
    now + cfg.token_ttl_minutes * 60
}

/// The expiration of a refresh token issued at `now`: the configured
/// lifetime in days past issuance.
pub open spec fn refresh_exp(cfg: Config, now: u64) -> int {
    now + cfg.refresh_ttl_days * 86400
}

/// Relies on jsonwebtoken's `encode` with its default header: the token is
/// the base64url form of the header and of the claims joined with their
/// HMAC-SHA-256 signature under the secret — never empty, and a function of
/// the claims and the secret alone. For HMAC under a key built with
/// `from_secret` the call cannot fail: the key family matches the default
/// header's algorithm, string-keyed claims always serialize, and HMAC
/// signing is unconditional.
#[verifier::external_body]
fn encode_claims(claims: &Claims, secret: &str) -> (r: Result<String, ApiError>)
    ensures
        r is Ok,
        r matches Ok(t) ==> t@ == jwt_of(claims.sub@, claims.email@, claims.exp, claims.typ@, secret@)
            && t@.len() > 0,
{
    let key = jsonwebtoken::EncodingKey::from_secret(secret.as_bytes());
    let mut body = serde_json::Map::new();
    body.insert("sub".to_string(), serde_json::Value::String(claims.sub.clone()));
    body.insert("email".to_string(), serde_json::Value::String(claims.email.clone()));
    body.insert("exp".to_string(), serde_json::Value::Number(serde_json::Number::from(claims.exp)));
    body.insert("typ".to_string(), serde_json::Value::String(claims.typ.clone()));
    match jsonwebtoken::encode(&jsonwebtoken::Header::default(), &serde_json::Value::Object(body), &key) {
        Ok(t) => Ok(t),
        Err(_) => Err(ApiError::Internal),
    }
}

/// Relies on chrono's `Utc::now`: the current time as whole seconds since
/// the epoch, about whose value nothing is assumed.
#[verifier::external_body]
pub fn now_timestamp() -> (r: i64) {
    chrono::Utc::now().timestamp()
}

/// The current time as seconds since the epoch, clamped below at zero.
pub fn now_seconds() -> (r: u64) {
    let t = now_timestamp();
    if t < 0 {
        0
    } else {
        t as u64
    }
}

/// Signs an access token issued at `now` for this user: the claims are
/// `(user_id, email, now + token_ttl_minutes in seconds, "access")`. Fails
/// only internally — when that expiration does not fit in 64 bits, or on a
/// signing fault.
pub fn create_access_token_at(cfg: &Config, user_id: &str, email: &str, now: u64) -> (r: Result<
    String,
    ApiError,
>)
    ensures
        r matches Ok(t) ==> access_exp(*cfg, now) <= u64::MAX && t@ == jwt_of(
            user_id@,
            email@,
            access_exp(*cfg, now) as u64,
            "access"@,
            cfg.jwt_secret@,
        ) && t@.len() > 0,
        access_exp(*cfg, now) <= u64::MAX ==> r is Ok,
        access_exp(*cfg, now) > u64::MAX ==> (r matches Err(e) && e is Internal),
        r matches Err(e) ==> e is Internal,
        cfg.token_ttl_minutes >= 1 ==> access_exp(*cfg, now) > now,
{
    let ttl_seconds = match cfg.token_ttl_minutes.checked_mul(60) {
        Some(s) => s,
        None => {
            return Err(ApiError::Internal);
        },
    };
    let exp = match now.checked_add(ttl_seconds) {
        Some(e) => e,
        None => {
            return Err(ApiError::Internal);
        },
    };
    let claims = Claims {
        sub: user_id.to_owned(),
        email: email.to_owned(),
        exp,
        typ: String::from_str("access"),
    };
    encode_claims(&claims, cfg.jwt_secret.as_str())
}

/// Signs a refresh token issued at `now` for this user: the claims are
/// `(user_id, email, now + refresh_ttl_days in seconds, "refresh")`. Fails
/// only internally — when that expiration does not fit in 64 bits, or on a
/// signing fault.
pub fn create_refresh_token_at(cfg: &Config, user_id: &str, email: &str, now: u64) -> (r: Result<
    String,
    ApiError,
>)
    ensures
        r matches Ok(t) ==> refresh_exp(*cfg, now) <= u64::MAX && t@ == jwt_of(
            user_id@,
            email@,
            refresh_exp(*cfg, now) as u64,
            "refresh"@,
            cfg.jwt_secret@,
        ) && t@.len() > 0,
        refresh_exp(*cfg, now) <= u64::MAX ==> r is Ok,
        refresh_exp(*cfg, now) > u64::MAX ==> (r matches Err(e) && e is Internal),
        r matches Err(e) ==> e is Internal,
        cfg.refresh_ttl_days >= 1 ==> refresh_exp(*cfg, now) > now,
{
    let ttl_seconds = match cfg.refresh_ttl_days.checked_mul(86400) {
        Some(s) => s,
        None => {
            return Err(ApiError::Internal);
        },
    };
    let exp = match now.checked_add(ttl_seconds) {
        Some(e) => e,
        None => {
            return Err(ApiError::Internal);
        },
    };
    let claims = Claims {
        sub: user_id.to_owned(),
        email: email.to_owned(),
        exp,
        typ: String::from_str("refresh"),
    };
    encode_claims(&claims, cfg.jwt_secret.as_str())
}

/// `t` is a well-signed access token for this user under this
/// configuration, issued at some instant.
pub open spec fn access_token_for(t: Seq<char>, cfg: Config, sub: Seq<char>, email: Seq<char>) -> bool {
    exists|now: u64|
        access_exp(cfg, now) <= u64::MAX && t == jwt_of(
            sub,
            email,
            access_exp(cfg, now) as u64,
            "access"@,
            cfg.jwt_secret@,
        )
}

/// `t` is a well-signed refresh token for this user under this
/// configuration, issued at some instant.
pub open spec fn refresh_token_for(t: Seq<char>, cfg: Config, sub: Seq<char>, email: Seq<char>) -> bool {
    exists|now: u64|
        refresh_exp(cfg, now) <= u64::MAX && t == jwt_of(
            sub,
            email,
            refresh_exp(cfg, now) as u64,
            "refresh"@,
            cfg.jwt_secret@,
        )
}

/// Mints an access token for this user expiring `token_ttl_minutes` from
/// the current time.
pub fn create_access_token(cfg: &Config, user_id: &str, email: &str) -> (r: Result<String, ApiError>)
    ensures
        r matches Ok(t) ==> access_token_for(t@, *cfg, user_id@, email@) && t@.len() > 0,
        r matches Err(e) ==> e is Internal,
{
    let now = now_seconds();
    let r = create_access_token_at(cfg, user_id, email, now);
    proof {
        if r is Ok {
            assert(access_exp(*cfg, now) <= u64::MAX && r->Ok_0@ == jwt_of(
                user_id@,
                email@,
                access_exp(*cfg, now) as u64,
                "access"@,
                cfg.jwt_secret@,
            ));
        }
    }
    r
}

/// Mints a refresh token for this user expiring `refresh_ttl_days` from
/// the current time.
pub fn create_refresh_token(cfg: &Config, user_id: &str, email: &str) -> (r: Result<String, ApiError>)
    ensures
        r matches Ok(t) ==> refresh_token_for(t@, *cfg, user_id@, email@) && t@.len() > 0,
        r matches Err(e) ==> e is Internal,
{
    let now = now_seconds();
    let r = create_refresh_token_at(cfg, user_id, email, now);
    proof {
        if r is Ok {
            assert(refresh_exp(*cfg, now) <= u64::MAX && r->Ok_0@ == jwt_of(
                user_id@,
                email@,
                refresh_exp(*cfg, now) as u64,
                "refresh"@,
                cfg.jwt_secret@,
            ));
        }
    }
    r
}

/// Token freshness: tokens issued at the same instant for the same user
/// under the same configuration carry the same expiration — issuance adds
/// exactly the configured lifetime to the clock, so two successive calls
/// agree to within the clock's movement between them — and any positive
/// lifetime puts the expiration strictly after issuance.
pub proof fn lemma_token_freshness(cfg: Config, now: u64)
    ensures
        access_exp(cfg, now) == now + cfg.token_ttl_minutes * 60,
        refresh_exp(cfg, now) == now + cfg.refresh_ttl_days * 86400,
        cfg.token_ttl_minutes >= 1 ==> access_exp(cfg, now) > now,
        cfg.refresh_ttl_days >= 1 ==> refresh_exp(cfg, now) > now,
{
}

} // verus!
