//! The registration and authentication handlers: input validation, the
//! hash-then-insert discipline with its conflict semantics, token issuance
//! and cookie emission, over the user repository.

use vstd::prelude::*;
use crate::config::Config;
use crate::cookies::{CookieSpec, auth_cookie_pair, set_auth_cookies};
use crate::error::ApiError;
use crate::hasher::{derived_from, hash_password, kdf_accepts, verify_password};
use crate::store::{InsertOutcome, UserStore, UserView};
use crate::token::{
    access_exp, create_access_token_at, create_refresh_token_at, jwt_of, now_seconds, refresh_exp,
};

verus! {

/// A registration request body.
pub struct RegisterRequest {
    pub email: String,
    pub password: String,
}

/// A successful registration body: the new identity, and deliberately not
/// the tokens — those ride only in the cookies.
#[derive(Debug)]
pub struct RegisterResponse {
    pub id: String,
    pub email: String,
}

/// An authentication request body.
pub struct AuthRequest {
    pub email: String,
    pub password: String,
}

/// A successful authentication body: the token pair, which also rides in
/// the cookies.
#[derive(Debug)]
pub struct AuthResponse {
    pub access_token: String,
    pub refresh_token: String,
}

/// Everything a successful registration sends: the JSON body and the two
/// cookies.
#[derive(Debug)]
pub struct RegisterOk {
    pub response: RegisterResponse,
    pub token_cookie: CookieSpec,
    pub refresh_cookie: CookieSpec,
}

/// Everything a successful authentication sends: the JSON body and the two
/// cookies.
#[derive(Debug)]
pub struct AuthOk {
    pub response: AuthResponse,
    pub token_cookie: CookieSpec,
    pub refresh_cookie: CookieSpec,
}

/// The password meets the minimum length rule.
pub open spec fn password_long_enough(pw: Seq<char>) -> bool {
    pw.len() >= 8
}

/// The email contains at least one `@`.
pub open spec fn email_has_at(e: Seq<char>) -> bool {
    exists|i: int| 0 <= i < e.len() && e[i] == '@'
}

/// Both pre-validation rules hold, so registration may touch storage.
pub open spec fn valid_registration(e: Seq<char>, pw: Seq<char>) -> bool {
    password_long_enough(pw) && email_has_at(e)
}

/// Whether the string contains an `@`.
fn contains_at(s: &str) -> (r: bool)
    ensures
        r == email_has_at(s@),
{
    let n = s.unicode_len();
    let mut i: usize = 0;
    while i < n
        invariant
            i <= n,
            n == s@.len(),
            forall|k: int| 0 <= k < i ==> s@[k] != '@',
        decreases n - i,
    {
        if s.get_char(i) == '@' {
            return true;
        }
        i += 1;
    }
    false
}

/// Checks the two pre-validation rules, in order and before any other
/// effect: a password of fewer than eight characters, then an email without
/// `@`, each rejected with its exact message.
pub fn validate_registration(email: &str, password: &str) -> (r: Result<(), ApiError>)
    ensures
        !password_long_enough(password@) ==> (r matches Err(err) && err matches
        ApiError::BadRequest(m) && m@ == "password must be at least 8 characters"@),
        (password_long_enough(password@) && !email_has_at(email@)) ==> (r matches Err(err)
            && err matches ApiError::BadRequest(m) && m@ == "invalid email"@),
        r is Ok <==> valid_registration(email@, password@),
{
    if password.unicode_len() < 8 {
        return Err(
            ApiError::BadRequest(String::from_str("password must be at least 8 characters")),
        );
    }
    if !contains_at(email) {
        return Err(ApiError::BadRequest(String::from_str("invalid email")));
    }
    Ok(())
}

/// Relies on uuid's `Uuid::new_v4` and its canonical hyphenated rendering:
/// a fresh random version-4 identifier as its 36-character string.
#[verifier::external_body]
pub fn new_user_id() -> (r: String)
    ensures
        r@.len() == 36,
{
    uuid::Uuid::new_v4().to_string()
}

/// The new user set is the old with exactly this registration added: the
/// row carries the fresh id and some hash freshly derived from the password.
pub open spec fn registered_row(
    m_old: Map<Seq<char>, UserView>,
    m_new: Map<Seq<char>, UserView>,
    e: Seq<char>,
    pw: Seq<char>,
    user_id: Seq<char>,
) -> bool {
    exists|h: Seq<char>|
        #[trigger] derived_from(h, pw) && m_new == m_old.insert(
            e,
            UserView { id: user_id, email: e, password_hash: h },
        )
}

/// What a successful registration sends: the new identity as the body, and
/// the freshly signed access and refresh tokens riding in the two scoped
/// cookies.
pub open spec fn register_success(
    out: RegisterOk,
    cfg: Config,
    user_id: Seq<char>,
    e: Seq<char>,
    now: u64,
) -> bool {
    &&& out.response.id@ == user_id
    &&& out.response.email@ == e
    &&& access_exp(cfg, now) <= u64::MAX
    &&& refresh_exp(cfg, now) <= u64::MAX
    &&& auth_cookie_pair(
        out.token_cookie,
        out.refresh_cookie,
        cfg,
        jwt_of(user_id, e, access_exp(cfg, now) as u64, "access"@, cfg.jwt_secret@),
        jwt_of(user_id, e, refresh_exp(cfg, now) as u64, "refresh"@, cfg.jwt_secret@),
    )
}

/// Registers a user at instant `now` under the fresh identity `user_id`:
/// validates, hashes, inserts — surfacing a duplicate email as a conflict —
/// then mints the token pair and builds the auth cookies.
pub fn register_at(
    store: &mut UserStore,
    cfg: &Config,
    payload: RegisterRequest,
    user_id: String,
    now: u64,
) -> (r: Result<RegisterOk, ApiError>)
    requires
        old(store).wf(),
    ensures
        final(store).wf(),
        !password_long_enough(payload.password@) ==> ((r matches Err(err) && err matches
        ApiError::BadRequest(m) && m@ == "password must be at least 8 characters"@) && final(store)@ == old(store)@),
        (password_long_enough(payload.password@) && !email_has_at(payload.email@)) ==> ((
        r matches Err(err) && err matches ApiError::BadRequest(m) && m@ == "invalid email"@)
            && final(store)@ == old(store)@),
        (valid_registration(payload.email@, payload.password@) && old(store)@.contains_key(
            payload.email@,
        )) ==> (final(store)@ == old(store)@ && (r matches Err(err) && ((err matches
        ApiError::Conflict(m) && m@ == "email already registered"@) || err is Internal))),
        (valid_registration(payload.email@, payload.password@) && !old(store)@.contains_key(
            payload.email@,
        )) ==> ((r matches Ok(out) ==> register_success(out, *cfg, user_id@, payload.email@, now)
            && registered_row(
            old(store)@,
            final(store)@,
            payload.email@,
            payload.password@,
            user_id@,
        )) && (r matches Err(err) ==> err is Internal && (final(store)@ == old(store)@
            || registered_row(
            old(store)@,
            final(store)@,
            payload.email@,
            payload.password@,
            user_id@,
        )))),
        (valid_registration(payload.email@, payload.password@) && vstd::utf8::encode_utf8(
            payload.password@,
        ).len() <= u32::MAX && old(store)@.contains_key(payload.email@)) ==> (r matches Err(err)
            && err matches ApiError::Conflict(m) && m@ == "email already registered"@),
        (valid_registration(payload.email@, payload.password@) && vstd::utf8::encode_utf8(
            payload.password@,
        ).len() <= u32::MAX && !old(store)@.contains_key(payload.email@) && access_exp(*cfg, now)
            <= u64::MAX && refresh_exp(*cfg, now) <= u64::MAX) ==> r is Ok,
        (valid_registration(payload.email@, payload.password@) && !old(store)@.contains_key(
            payload.email@,
        ) && access_exp(*cfg, now) <= u64::MAX && refresh_exp(*cfg, now) <= u64::MAX && r is Err)
            ==> final(store)@ == old(store)@,
        r matches Err(err) ==> !(err is Unauthorized) && !(err is Storage),
{
    if let Err(e) = validate_registration(payload.email.as_str(), payload.password.as_str()) {
        return Err(e);
    }
    let password_hash = match hash_password(payload.password.as_str()) {
        Ok(h) => h,
        Err(e) => {
            return Err(e);
        },
    };
    match store.insert_user(&user_id, &payload.email, &password_hash) {
        InsertOutcome::ConflictOnEmail => Err(
            ApiError::Conflict(String::from_str("email already registered")),
        ),
        InsertOutcome::StorageError => Err(ApiError::Storage),
        InsertOutcome::Inserted => {
            let access = match create_access_token_at(
                cfg,
                user_id.as_str(),
                payload.email.as_str(),
                now,
            ) {
                Ok(t) => t,
                Err(e) => {
                    return Err(e);
                },
            };
            let refresh = match create_refresh_token_at(
                cfg,
                user_id.as_str(),
                payload.email.as_str(),
                now,
            ) {
                Ok(t) => t,
                Err(e) => {
                    return Err(e);
                },
            };
            let (token_cookie, refresh_cookie) = set_auth_cookies(
                cfg,
                access.as_str(),
                refresh.as_str(),
            );
            Ok(
                RegisterOk {
                    response: RegisterResponse { id: user_id, email: payload.email },
                    token_cookie,
                    refresh_cookie,
                },
            )
        },
    }
}

/// A successful registration happened under some fresh identity and at some
/// instant.
pub open spec fn fresh_registration(
    m_old: Map<Seq<char>, UserView>,
    m_new: Map<Seq<char>, UserView>,
    e: Seq<char>,
    pw: Seq<char>,
    out: RegisterOk,
    cfg: Config,
) -> bool {
    exists|uid: Seq<char>, now: u64|
        #[trigger] register_success(out, cfg, uid, e, now) && registered_row(m_old, m_new, e, pw, uid)
            && uid.len() == 36
}

/// The registration handler: generates a fresh identity, stamps the current
/// time, and registers. Validation failures and duplicate emails leave the
/// user set unchanged; success adds exactly the new row and sends the
/// identity with the auth cookies.
pub fn register(store: &mut UserStore, cfg: &Config, payload: RegisterRequest) -> (r: Result<
    RegisterOk,
    ApiError,
>)
    requires
        old(store).wf(),
    ensures
        final(store).wf(),
        !password_long_enough(payload.password@) ==> ((r matches Err(err) && err matches
        ApiError::BadRequest(m) && m@ == "password must be at least 8 characters"@) && final(store)@ == old(store)@),
        (password_long_enough(payload.password@) && !email_has_at(payload.email@)) ==> ((
        r matches Err(err) && err matches ApiError::BadRequest(m) && m@ == "invalid email"@)
            && final(store)@ == old(store)@),
        (valid_registration(payload.email@, payload.password@) && old(store)@.contains_key(
            payload.email@,
        )) ==> (final(store)@ == old(store)@ && (r matches Err(err) && ((err matches
        ApiError::Conflict(m) && m@ == "email already registered"@) || err is Internal))),
        (valid_registration(payload.email@, payload.password@) && !old(store)@.contains_key(
            payload.email@,
        )) ==> ((r matches Ok(out) ==> fresh_registration(
            old(store)@,
            final(store)@,
            payload.email@,
            payload.password@,
            out,
            *cfg,
        )) && (r matches Err(err) ==> err is Internal && (final(store)@ == old(store)@ || (
        exists|uid: Seq<char>|
            #[trigger] registered_row(
                old(store)@,
                final(store)@,
                payload.email@,
                payload.password@,
                uid,
            )
        )))),
        (valid_registration(payload.email@, payload.password@) && vstd::utf8::encode_utf8(
            payload.password@,
        ).len() <= u32::MAX && old(store)@.contains_key(payload.email@)) ==> (r matches Err(err)
            && err matches ApiError::Conflict(m) && m@ == "email already registered"@),
        r matches Err(err) ==> !(err is Unauthorized) && !(err is Storage),
{
    let user_id = new_user_id();
    let now = now_seconds();
    let ghost m_old = store@;
    let ghost e = payload.email@;
    let ghost pw = payload.password@;
    let ghost uid = user_id@;
    let r = register_at(store, cfg, payload, user_id, now);
    proof {
        if valid_registration(e, pw) && !m_old.contains_key(e) {
            if r is Ok {
                let out = r->Ok_0;
                assert(register_success(out, *cfg, uid, e, now) && registered_row(
                    m_old,
                    store@,
                    e,
                    pw,
                    uid,
                ) && uid.len() == 36);
            } else {
                if store@ != m_old {
                    assert(registered_row(m_old, store@, e, pw, uid));
                }
            }
        }
    }
    r
}

/// Authentication fails uniformly in exactly these two cases: the email is
/// unknown, or the password does not verify against the stored hash.
pub open spec fn auth_rejected(
    m: Map<Seq<char>, UserView>,
    e: Seq<char>,
    pw: Seq<char>,
) -> bool {
    !m.contains_key(e) || !kdf_accepts(pw, m[e].password_hash)
}

/// What a successful authentication at `now` sends: the freshly signed
/// token pair for the stored identity, both in the body and in the two
/// scoped cookies.
pub open spec fn auth_success(out: AuthOk, cfg: Config, u: UserView, now: u64) -> bool {
    &&& access_exp(cfg, now) <= u64::MAX
    &&& refresh_exp(cfg, now) <= u64::MAX
    &&& out.response.access_token@ == jwt_of(
        u.id,
        u.email,
        access_exp(cfg, now) as u64,
        "access"@,
        cfg.jwt_secret@,
    )
    &&& out.response.refresh_token@ == jwt_of(
        u.id,
        u.email,
        refresh_exp(cfg, now) as u64,
        "refresh"@,
        cfg.jwt_secret@,
    )
    &&& out.response.access_token@.len() > 0
    &&& out.response.refresh_token@.len() > 0
    &&& auth_cookie_pair(
        out.token_cookie,
        out.refresh_cookie,
        cfg,
        out.response.access_token@,
        out.response.refresh_token@,
    )
}

/// Authenticates at instant `now`: looks the email up, verifies the
/// password against the stored hash, and on success mints the token pair
/// for the stored identity and builds the auth cookies. Unknown email and
/// wrong password are indistinguishable in the result.
pub fn auth_at(store: &UserStore, cfg: &Config, payload: AuthRequest, now: u64) -> (r: Result<
    AuthOk,
    ApiError,
>)
    requires
        store.wf(),
    ensures
        auth_rejected(store@, payload.email@, payload.password@) ==> (r matches Err(err)
            && err is Unauthorized),
        r matches Err(err) ==> (err is Unauthorized <==> auth_rejected(
            store@,
            payload.email@,
            payload.password@,
        )),
        !auth_rejected(store@, payload.email@, payload.password@) ==> ((r matches Ok(out)
            ==> auth_success(out, *cfg, store@[payload.email@], now)) && (r matches Err(err)
            ==> err is Internal)),
        (!auth_rejected(store@, payload.email@, payload.password@) && access_exp(*cfg, now)
            <= u64::MAX && refresh_exp(*cfg, now) <= u64::MAX) ==> r is Ok,
{
    let user = match store.lookup_by_email(&payload.email) {
        Some(u) => u,
        None => {
            return Err(ApiError::Unauthorized);
        },
    };
    if !verify_password(payload.password.as_str(), user.password_hash.as_str()) {
        return Err(ApiError::Unauthorized);
    }
    let access = match create_access_token_at(cfg, user.id.as_str(), user.email.as_str(), now) {
        Ok(t) => t,
        Err(e) => {
            return Err(e);
        },
    };
    let refresh = match create_refresh_token_at(cfg, user.id.as_str(), user.email.as_str(), now) {
        Ok(t) => t,
        Err(e) => {
            return Err(e);
        },
    };
    let (token_cookie, refresh_cookie) = set_auth_cookies(cfg, access.as_str(), refresh.as_str());
    Ok(
        AuthOk {
            response: AuthResponse { access_token: access, refresh_token: refresh },
            token_cookie,
            refresh_cookie,
        },
    )
}

/// A successful authentication happened at some instant.
pub open spec fn authenticated(out: AuthOk, cfg: Config, u: UserView) -> bool {
    exists|now: u64| #[trigger] auth_success(out, cfg, u, now)
}

/// The authentication handler: stamps the current time and authenticates.
/// Every rejection — unknown email or wrong password alike — is the one
/// uniform unauthorized failure; success sends the token pair for the
/// stored identity.
pub fn auth(store: &UserStore, cfg: &Config, payload: AuthRequest) -> (r: Result<AuthOk, ApiError>)
    requires
        store.wf(),
    ensures
        auth_rejected(store@, payload.email@, payload.password@) ==> (r matches Err(err)
            && err is Unauthorized),
        r matches Err(err) ==> (err is Unauthorized <==> auth_rejected(
            store@,
            payload.email@,
            payload.password@,
        )),
        !auth_rejected(store@, payload.email@, payload.password@) ==> ((r matches Ok(out)
            ==> authenticated(out, *cfg, store@[payload.email@])) && (r matches Err(err)
            ==> err is Internal)),
{
    let now = now_seconds();
    let ghost e = payload.email@;
    let ghost pw = payload.password@;
    let r = auth_at(store, cfg, payload, now);
    proof {
        if !auth_rejected(store@, e, pw) && r is Ok {
            let out = r->Ok_0;
            assert(auth_success(out, *cfg, store@[e], now));
        }
    }
    r
}

/// Unauthorized uniformity: any two rejected authentications produce the
/// very same value — the same failure, hence the same status code and the
/// same body — whether the email was unknown or the password wrong.
pub proof fn lemma_unauthorized_uniform(r1: Result<AuthOk, ApiError>, r2: Result<AuthOk, ApiError>)
    requires
        r1 matches Err(e1) && e1 is Unauthorized,
        r2 matches Err(e2) && e2 is Unauthorized,
    ensures
        r1 == r2,
        r1->Err_0.spec_status() == 401,
        r1->Err_0.spec_message() == "unauthorized"@,
{
}

} // verus!
