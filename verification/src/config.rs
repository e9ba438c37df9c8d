//! The frozen service configuration and the rules that build it from the
//! raw environment values: required entries, numeric and boolean parsing
//! with defaults, and the comma-separated origin list.

use vstd::prelude::*;

verus! {

/// The immutable configuration record handed to the handler set at startup.
#[derive(Clone)]
pub struct Config {
    pub database_url: String,
    pub jwt_secret: String,
    pub token_ttl_minutes: u64,
    pub refresh_ttl_days: u64,
    pub cookie_domain: Option<String>,
    pub cookie_secure: bool,
    pub port: u16,
    pub cors_allowed_origins: Option<Vec<String>>,
    pub cors_allow_credentials: bool,
}

/// Why a configuration could not be built: one of the two required values
/// was absent.
pub enum ConfigError {
    MissingDatabaseUrl,
    MissingJwtSecret,
}

/// `c` is an ASCII decimal digit.
pub open spec fn is_digit(c: char) -> bool {
    48 <= c as int <= 57
}

/// The value of a digit character.
pub open spec fn digit_val(c: char) -> int {
    c as int - 48
}

/// The number a digit string denotes, most significant digit first.
pub open spec fn dec_value(s: Seq<char>) -> int
    decreases s.len(),
{
    if s.len() == 0 {
        0
    } else {
        dec_value(s.drop_last()) * 10 + digit_val(s.last())
    }
}

/// `s` is a plain decimal numeral whose value fits in 64 bits.
pub open spec fn is_u64_decimal(s: Seq<char>) -> bool {
    &&& s.len() > 0
    &&& forall|k: int| 0 <= k < s.len() ==> is_digit(s[k])
    &&& dec_value(s) <= u64::MAX
}

/// A digit string denotes a non-negative number.
proof fn lemma_dec_value_nonneg(s: Seq<char>)
    requires
        forall|k: int| 0 <= k < s.len() ==> is_digit(s[k]),
    ensures
        dec_value(s) >= 0,
    decreases s.len(),
{
    if s.len() > 0 {
        lemma_dec_value_nonneg(s.drop_last());
    }
}

/// A digit string denotes at least what any of its prefixes denotes.
proof fn lemma_dec_value_prefix(s: Seq<char>, i: int)
    requires
        forall|k: int| 0 <= k < s.len() ==> is_digit(s[k]),
        0 <= i <= s.len(),
    ensures
        dec_value(s.take(i)) <= dec_value(s),
    decreases s.len() - i,
{
    if i < s.len() {
        lemma_dec_value_prefix(s, i + 1);
        assert(s.take(i + 1).drop_last() =~= s.take(i));
        lemma_dec_value_nonneg(s.take(i));
    } else {
        assert(s.take(i) =~= s);
    }
}

/// Parses a plain decimal numeral; anything else — empty, a stray
/// character, or a value over 64 bits — is no numeral.
pub fn parse_u64(s: &str) -> (r: Option<u64>)
    ensures
        r == if is_u64_decimal(s@) {
            Some(dec_value(s@) as u64)
        } else {
            Option::<u64>::None
        },
{
    let n = s.unicode_len();
    if n == 0 {
        return None;
    }
    let mut acc: u64 = 0;
    let mut i: usize = 0;
    while i < n
        invariant
            0 < n == s@.len(),
            i <= n,
            forall|k: int| 0 <= k < i ==> is_digit(s@[k]),
            acc == dec_value(s@.take(i as int)),
        decreases n - i,
    {
        let c = s.get_char(i);
        let cv = c as u32;
        proof {
            assert(s@.take(i as int + 1).drop_last() =~= s@.take(i as int));
        }
        if cv < 48 || cv > 57 {
            proof {
                assert(!is_digit(s@[i as int]));
            }
            return None;
        }
        let d: u64 = (cv - 48) as u64;
        let next = match acc.checked_mul(10) {
            Some(m) => m.checked_add(d),
            None => None,
        };
        match next {
            Some(a) => {
                acc = a;
            },
            None => {
                proof {
                    if forall|k: int| 0 <= k < s@.len() ==> is_digit(s@[k]) {
                        lemma_dec_value_prefix(s@, i as int + 1);
                    }
                }
                return None;
            },
        }
        i += 1;
    }
    proof {
        assert(s@.take(n as int) =~= s@);
    }
    Some(acc)
}

/// The numeral's value, or the default where the entry is absent or is no
/// numeral.
pub open spec fn u64_or(v: Option<String>, d: u64) -> u64 {
    match v {
        Option::Some(s) => if is_u64_decimal(s@) {
            dec_value(s@) as u64
        } else {
            d
        },
        Option::None => d,
    }
}

/// As `u64_or`, further requiring the value to fit a port number.
pub open spec fn u16_or(v: Option<String>, d: u16) -> u16 {
    match v {
        Option::Some(s) => if is_u64_decimal(s@) && dec_value(s@) <= u16::MAX {
            dec_value(s@) as u16
        } else {
            d
        },
        Option::None => d,
    }
}

/// The entry is set and spells truth: `1`, or `true` in any letter case.
pub open spec fn truthy(v: Option<String>) -> bool {
    match v {
        Option::Some(s) => (s@.len() == 1 && s@[0] == '1') || (s@.len() == 4 && (s@[0] == 't'
            || s@[0] == 'T') && (s@[1] == 'r' || s@[1] == 'R') && (s@[2] == 'u' || s@[2] == 'U')
            && (s@[3] == 'e' || s@[3] == 'E')),
        Option::None => false,
    }
}

fn is_truthy(v: &Option<String>) -> (r: bool)
    ensures
        r == truthy(*v),
{
    match v {
        Some(s) => {
            let t = s.as_str();
            let n = t.unicode_len();
            if n == 1 {
                t.get_char(0) == '1'
            } else if n == 4 {
                let c0 = t.get_char(0);
                let c1 = t.get_char(1);
                let c2 = t.get_char(2);
                let c3 = t.get_char(3);
                (c0 == 't' || c0 == 'T') && (c1 == 'r' || c1 == 'R') && (c2 == 'u' || c2 == 'U')
                    && (c3 == 'e' || c3 == 'E')
            } else {
                false
            }
        },
        None => false,
    }
}

/// `c` counts as whitespace for trimming an origin entry.
pub open spec fn is_sp(c: char) -> bool {
    c == ' ' || c == '\t' || c == '\n' || c == '\r'
}

fn is_sp_char(c: char) -> (r: bool)
    ensures
        r == is_sp(c),
{
    c == ' ' || c == '\t' || c == '\n' || c == '\r'
}

/// `s` without leading whitespace.
pub open spec fn ltrim(s: Seq<char>) -> Seq<char>
    decreases s.len(),
{
    if s.len() > 0 && is_sp(s.first()) {
        ltrim(s.drop_first())
    } else {
        s
    }
}

/// `s` without trailing whitespace.
pub open spec fn rtrim(s: Seq<char>) -> Seq<char>
    decreases s.len(),
{
    if s.len() > 0 && is_sp(s.last()) {
        rtrim(s.drop_last())
    } else {
        s
    }
}

/// `s` without leading or trailing whitespace.
pub open spec fn trimmed(s: Seq<char>) -> Seq<char> {
    rtrim(ltrim(s))
}

/// The segments of `s` between commas, in order; one more segment than
/// there are commas.
pub open spec fn split_commas(s: Seq<char>) -> Seq<Seq<char>>
    decreases s.len(),
{
    if s.len() == 0 {
        seq![Seq::<char>::empty()]
    } else if s.last() == ',' {
        split_commas(s.drop_last()).push(Seq::<char>::empty())
    } else {
        let r = split_commas(s.drop_last());
        r.update(r.len() - 1, r.last().push(s.last()))
    }
}

/// A split always yields at least one segment.
proof fn lemma_split_commas_nonempty(s: Seq<char>)
    ensures
        split_commas(s).len() >= 1,
    decreases s.len(),
{
    if s.len() > 0 {
        lemma_split_commas_nonempty(s.drop_last());
    }
}

/// The origin list an entry denotes: its comma-separated segments, each
/// trimmed, the empty ones dropped.
pub open spec fn origins_of(s: Seq<char>) -> Seq<Seq<char>> {
    split_commas(s).map_values(|t: Seq<char>| trimmed(t)).filter(|t: Seq<char>| t.len() > 0)
}

/// The strings of a vector, as their character sequences.
pub open spec fn views_of(v: Seq<String>) -> Seq<Seq<char>> {
    v.map_values(|x: String| x@)
}

/// Relies on `String::push`: appends exactly the one character.
#[verifier::external_body]
fn push_char(s: &mut String, c: char)
    ensures
        final(s)@ == old(s)@.push(c),
{
    s.push(c);
}

/// Cuts `s` at every comma.
fn split_commas_str(s: &str) -> (r: Vec<String>)
    ensures
        views_of(r@) == split_commas(s@),
        r@.len() >= 1,
{
    let n = s.unicode_len();
    let mut segs: Vec<String> = Vec::new();
    segs.push(String::new());
    proof {
        assert(views_of(segs@) =~= split_commas(s@.take(0)));
    }
    let mut i: usize = 0;
    while i < n
        invariant
            i <= n,
            n == s@.len(),
            segs@.len() >= 1,
            views_of(segs@) == split_commas(s@.take(i as int)),
        decreases n - i,
    {
        let c = s.get_char(i);
        proof {
            assert(s@.take(i as int + 1).drop_last() =~= s@.take(i as int));
            assert(s@.take(i as int + 1).last() == s@[i as int]);
        }
        if c == ',' {
            segs.push(String::new());
            proof {
                assert(views_of(segs@) =~= split_commas(s@.take(i as int)).push(
                    Seq::<char>::empty(),
                ));
            }
        } else {
            let mut last_seg = segs.pop().unwrap();
            push_char(&mut last_seg, c);
            segs.push(last_seg);
            proof {
                let prev = split_commas(s@.take(i as int));
                assert(views_of(segs@) =~= prev.update(prev.len() - 1, prev.last().push(
                    s@[i as int],
                )));
            }
        }
        i += 1;
    }
    proof {
        assert(s@.take(n as int) =~= s@);
    }
    segs
}

/// Drops the whitespace at either end of `s`.
fn trim_str(s: &str) -> (r: String)
    ensures
        r@ == trimmed(s@),
{
    let n = s.unicode_len();
    proof {
        assert(s@.subrange(0, n as int) =~= s@);
    }
    let mut a: usize = 0;
    while a < n && is_sp_char(s.get_char(a))
        invariant
            a <= n,
            n == s@.len(),
            ltrim(s@) == ltrim(s@.subrange(a as int, n as int)),
        decreases n - a,
    {
        proof {
            assert(s@.subrange(a as int, n as int).drop_first() =~= s@.subrange(
                a as int + 1,
                n as int,
            ));
        }
        a += 1;
    }
    proof {
        assert(ltrim(s@) == s@.subrange(a as int, n as int));
    }
    let mut b: usize = n;
    while b > a && is_sp_char(s.get_char(b - 1))
        invariant
            a <= b <= n,
            n == s@.len(),
            ltrim(s@) == s@.subrange(a as int, n as int),
            rtrim(s@.subrange(a as int, n as int)) == rtrim(s@.subrange(a as int, b as int)),
        decreases b,
    {
        proof {
            assert(s@.subrange(a as int, b as int).drop_last() =~= s@.subrange(
                a as int,
                b as int - 1,
            ));
        }
        b -= 1;
    }
    let r = s.substring_char(a, b);
    proof {
        assert(r@ == trimmed(s@));
    }
    r.to_owned()
}

/// The comma-separated origins of `s`, trimmed, the empty ones dropped.
fn parse_origins(s: &str) -> (r: Vec<String>)
    ensures
        views_of(r@) == origins_of(s@),
{
    let segs = split_commas_str(s);
    let ghost raw = split_commas(s@);
    let ghost mapped = raw.map_values(|t: Seq<char>| trimmed(t));
    let mut out: Vec<String> = Vec::new();
    proof {
        reveal(Seq::filter);
        assert(views_of(out@) =~= mapped.take(0).filter(|t: Seq<char>| t.len() > 0));
    }
    let mut i: usize = 0;
    let n = segs.len();
    while i < n
        invariant
            i <= n,
            n == segs@.len(),
            views_of(segs@) == raw,
            mapped == raw.map_values(|t: Seq<char>| trimmed(t)),
            views_of(out@) == mapped.take(i as int).filter(|t: Seq<char>| t.len() > 0),
        decreases n - i,
    {
        let t = trim_str(segs[i].as_str());
        proof {
            reveal(Seq::filter);
            assert(raw[i as int] == views_of(segs@)[i as int]);
            assert(mapped[i as int] == trimmed(raw[i as int]));
            assert(mapped.take(i as int + 1).drop_last() =~= mapped.take(i as int));
            assert(mapped.take(i as int + 1).last() == mapped[i as int]);
            assert(t@ == mapped[i as int]);
        }
        if t.unicode_len() > 0 {
            out.push(t);
            proof {
                assert(views_of(out@) =~= mapped.take(i as int).filter(
                    |t: Seq<char>| t.len() > 0,
                ).push(mapped[i as int]));
            }
        }
        i += 1;
    }
    proof {
        assert(mapped.take(n as int) =~= mapped);
    }
    out
}

/// The origin list, or nothing where the entry is absent or holds no
/// non-empty origin.
pub open spec fn cors_origins(v: Option<String>) -> Option<Seq<Seq<char>>> {
    match v {
        Option::Some(s) => if origins_of(s@).len() == 0 {
            Option::<Seq<Seq<char>>>::None
        } else {
            Option::Some(origins_of(s@))
        },
        Option::None => Option::<Seq<Seq<char>>>::None,
    }
}

impl Config {
    /// Builds the configuration from the raw environment entries, in their
    /// recognized order: the store's address and the signing secret are
    /// required; lifetimes, the port and the two switches fall back to
    /// their defaults when absent or unreadable; the origin list is split
    /// at commas, trimmed and kept only when something is left.
    pub fn from_values(
        database_url: Option<String>,
        jwt_secret: Option<String>,
        token_ttl_minutes: Option<String>,
        refresh_ttl_days: Option<String>,
        cookie_domain: Option<String>,
        cookie_secure: Option<String>,
        port: Option<String>,
        cors_allowed_origins: Option<String>,
        cors_allow_credentials: Option<String>,
    ) -> (r: Result<Config, ConfigError>)
        ensures
            database_url is None ==> (r matches Err(e) && e is MissingDatabaseUrl),
            (database_url is Some && jwt_secret is None) ==> (r matches Err(e)
                && e is MissingJwtSecret),
            (database_url is Some && jwt_secret is Some) ==> (r matches Ok(cfg)
                && cfg.database_url@ == database_url->Some_0@ && cfg.jwt_secret@
                == jwt_secret->Some_0@ && cfg.token_ttl_minutes
                == u64_or(token_ttl_minutes, 15) && cfg.refresh_ttl_days == u64_or(
                refresh_ttl_days,
                7,
            ) && cfg.cookie_domain.deep_view() == cookie_domain.deep_view() && cfg.cookie_secure
                == truthy(cookie_secure) && cfg.port == u16_or(port, 8080)
                && cfg.cors_allowed_origins.deep_view() == cors_origins(cors_allowed_origins)
                && cfg.cors_allow_credentials == truthy(cors_allow_credentials)),
    {
        let database_url = match database_url {
            Some(u) => u,
            None => {
                return Err(ConfigError::MissingDatabaseUrl);
            },
        };
        let jwt_secret = match jwt_secret {
            Some(s) => s,
            None => {
                return Err(ConfigError::MissingJwtSecret);
            },
        };
        let token_ttl_minutes = match &token_ttl_minutes {
            Some(s) => match parse_u64(s.as_str()) {
                Some(x) => x,
                None => 15,
            },
            None => 15,
        };
        let refresh_ttl_days = match &refresh_ttl_days {
            Some(s) => match parse_u64(s.as_str()) {
                Some(x) => x,
                None => 7,
            },
            None => 7,
        };
        let cookie_secure = is_truthy(&cookie_secure);
        let port: u16 = match &port {
            Some(s) => match parse_u64(s.as_str()) {
                Some(x) => {
                    proof {
                        if is_u64_decimal(s@) {
                            lemma_dec_value_nonneg(s@);
                        }
                    }
                    if x <= 65535 {
                        x as u16
                    } else {
                        8080
                    }
                },
                None => 8080,
            },
            None => 8080,
        };
        let cors: Option<Vec<String>> = match &cors_allowed_origins {
            Some(s) => {
                let list = parse_origins(s.as_str());
                proof {
                    assert(list.deep_view() =~= views_of(list@));
                    assert(origins_of(s@).len() == list@.len());
                }
                if list.len() == 0 {
                    None
                } else {
                    Some(list)
                }
            },
            None => None,
        };
        proof {
            assert(cors.deep_view() == cors_origins(cors_allowed_origins));
        }
        let cors_allow_credentials = is_truthy(&cors_allow_credentials);
        Ok(
            Config {
                database_url,
                jwt_secret,
                token_ttl_minutes,
                refresh_ttl_days,
                cookie_domain,
                cookie_secure,
                port,
                cors_allowed_origins: cors,
                cors_allow_credentials,
            },
        )
    }
}

} // verus!
