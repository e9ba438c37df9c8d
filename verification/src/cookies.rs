//! The cookie emitter: translating a freshly issued token pair into the two
//! scoped, secured cookies the transport layer attaches to the response.

use vstd::prelude::*;
use crate::config::Config;

verus! {

/// Every attribute of one `Set-Cookie` header, as plain values.
#[derive(Debug)]
pub struct CookieSpec {
    pub name: String,
    pub value: String,
    pub http_only: bool,
    pub same_site_lax: bool,
    pub path: String,
    pub max_age_seconds: u64,
    pub secure: bool,
    pub domain: Option<String>,
}

/// The scoping every auth cookie shares: HttpOnly, SameSite=Lax, path `/`,
/// with `Secure` and `Domain` taken verbatim from the configuration (no
/// configured domain omits the attribute).
pub open spec fn scoped_for(c: CookieSpec, cfg: Config) -> bool {
    &&& c.http_only
    &&& c.same_site_lax
    &&& c.path@ == "/"@
    &&& c.secure == cfg.cookie_secure
    &&& c.domain.deep_view() == cfg.cookie_domain.deep_view()
}

/// The two cookies that carry a token pair: `token` holds the access token
/// for its lifetime in seconds, `refresh_token` the refresh token for its
/// own, both scoped by the configuration.
pub open spec fn auth_cookie_pair(
    token: CookieSpec,
    refresh: CookieSpec,
    cfg: Config,
    access_value: Seq<char>,
    refresh_value: Seq<char>,
) -> bool {
    &&& token.name@ == "token"@
    &&& token.value@ == access_value
    &&& token.max_age_seconds == cfg.token_ttl_minutes * 60
    &&& scoped_for(token, cfg)
    &&& refresh.name@ == "refresh_token"@
    &&& refresh.value@ == refresh_value
    &&& refresh.max_age_seconds == cfg.refresh_ttl_days * 86400
    &&& scoped_for(refresh, cfg)
}

/// Builds the `token` and `refresh_token` cookies for an issued pair. The
/// lifetimes must fit in seconds; issuance has already established that when
/// the tokens were minted.
pub fn set_auth_cookies(cfg: &Config, access: &str, refresh: &str) -> (r: (CookieSpec, CookieSpec))
    requires
        cfg.token_ttl_minutes * 60 <= u64::MAX,
        cfg.refresh_ttl_days * 86400 <= u64::MAX,
    ensures
        auth_cookie_pair(r.0, r.1, *cfg, access@, refresh@),
{
    let access_age: u64 = cfg.token_ttl_minutes * 60;
    let refresh_age: u64 = cfg.refresh_ttl_days * 86400;

    let token_domain: Option<String> = match &cfg.cookie_domain {
        Some(d) => Some(d.clone()),
        None => None,
    };
    let refresh_domain: Option<String> = match &cfg.cookie_domain {
        Some(d) => Some(d.clone()),
        None => None,
    };

    let token_cookie = CookieSpec {
        name: String::from_str("token"),
        value: access.to_owned(),
        http_only: true,
        same_site_lax: true,
        path: String::from_str("/"),
        max_age_seconds: access_age,
        secure: cfg.cookie_secure,
        domain: token_domain,
    };
    let refresh_cookie = CookieSpec {
        name: String::from_str("refresh_token"),
        value: refresh.to_owned(),
        http_only: true,
        same_site_lax: true,
        path: String::from_str("/"),
        max_age_seconds: refresh_age,
        secure: cfg.cookie_secure,
        domain: refresh_domain,
    };
    (token_cookie, refresh_cookie)
}

} // verus!
