use vstd::prelude::*;

verus! {

/// Lifetime of a session, in seconds: sixty days.
pub const SESSION_TTL: u64 = 5184000;

/// Prefix under which session tokens are kept in the store.
pub const SESSION_KEY_PREFIX: &'static str = "meblog_session:";

/// The store key of a session token.
pub open spec fn session_key_of(token: Seq<char>) -> Seq<char> {
    SESSION_KEY_PREFIX@ + token
}

/// The store key under which `token` is written and looked up. Writing and
/// reading go through this one function, so the expiry always lands on the
/// key that holds the account.
pub fn session_key(token: &str) -> (r: String)
    ensures
        r@ == session_key_of(token@),
{
    let mut k = String::from_str(SESSION_KEY_PREFIX);
    k.append(token);
    k
}


/// Name of the cookie that carries the session token.
pub const SESSION_COOKIE_NAME: &'static str = "meblog_sid";

/// Path to which the session cookie is scoped.
pub const SESSION_COOKIE_PATH: &'static str = "/";

/// The lowercase hex SHA-256 digest of `bytes`.
pub uninterp spec fn sha256_hex_of(bytes: Seq<u8>) -> Seq<char>;

/// Relies on `sha256::digest`: the hex encoding of the SHA-256 digest of the
/// bytes, which depends on the bytes alone and has two digits per digest byte.
#[verifier::external_body]
fn sha256_hex(bytes: &[u8; 32]) -> (r: String)
    ensures
        r@ == sha256_hex_of(bytes@),
        r@.len() == 64,
{
    sha256::digest(bytes)
}

/// Relies on `rand::random`: 32 bytes drawn from the thread-local generator.
/// Nothing is known of them.
#[verifier::external_body]
fn random_seed() -> (r: [u8; 32]) {
    rand::random::<[u8; 32]>()
}

/// One write to the session store: `key` maps to `account`, and the entry
/// expires `ttl_secs` seconds after it is written. The key and its expiry are
/// one command, so no entry can be left without an expiry.
pub struct SessionWrite {
    pub token: String,
    pub key: String,
    pub account: String,
    pub ttl_secs: u64,
}

/// What the store holds under one key.
pub struct StoredEntry {
    pub account: Seq<char>,
    pub expires_at: int,
}

/// The store's contents after `key` was written for `account` with lifetime
/// `ttl_secs` at instant `now` (seconds).
pub open spec fn store_after_write(
    m: Map<Seq<char>, StoredEntry>,
    key: Seq<char>,
    account: Seq<char>,
    ttl_secs: int,
    now: int,
) -> Map<Seq<char>, StoredEntry> {
    m.insert(key, StoredEntry { account, expires_at: now + ttl_secs })
}

/// What a lookup of `key` at instant `now` returns: the account while the entry
/// lives, nothing once it has expired or if it was never written.
pub open spec fn store_lookup(m: Map<Seq<char>, StoredEntry>, key: Seq<char>, now: int) -> Option<
    Seq<char>,
> {
    if m.contains_key(key) && now < m[key].expires_at {
        Some(m[key].account)
    } else {
        None
    }
}

/// The write that stores `token` for `account` with a lifetime of `ttl_secs`.
pub fn session_write_for(token: &str, account: &str, ttl_secs: u64) -> (r: SessionWrite)
    ensures
        r.token@ == token@,
        r.key@ == session_key_of(token@),
        r.account@ == account@,
        r.ttl_secs == ttl_secs,
{
    SessionWrite {
        token: String::from_str(token),
        key: session_key(token),
        account: String::from_str(account),
        ttl_secs,
    }
}

/// The session issued from 32 bytes of randomness: the token is the hex digest
/// of the bytes, stored for `account` with the fixed session lifetime.
pub fn session_from_seed(seed: &[u8; 32], account: &str) -> (r: SessionWrite)
    ensures
        r.token@ == sha256_hex_of(seed@),
        r.token@.len() == 64,
        r.key@ == session_key_of(r.token@),
        r.account@ == account@,
        r.ttl_secs == SESSION_TTL,
{
    let token = sha256_hex(seed);
    session_write_for(token.as_str(), account, SESSION_TTL)
}

/// Issues a fresh session for `account`: a random seed, hashed into a token,
/// and the store write that the caller must apply before answering.
pub fn set_session(account: &str) -> (r: SessionWrite)
    ensures
        exists|seed: Seq<u8>| seed.len() == 32 && r.token@ == sha256_hex_of(seed),
        r.token@.len() == 64,
        r.key@ == session_key_of(r.token@),
        r.account@ == account@,
        r.ttl_secs == SESSION_TTL,
{
    let seed = random_seed();
    session_from_seed(&seed, account)
}

/// The session cookie as the browser receives it.
pub struct SessionCookie {
    pub name: String,
    pub value: String,
    pub path: String,
    pub max_age_secs: u64,
    pub http_only: bool,
}

/// The cookie that hands `token` to the browser: HTTP-only, scoped to the
/// root path, and living exactly as long as the stored session.
pub fn session_cookie(token: &str) -> (r: SessionCookie)
    ensures
        r.name@ == SESSION_COOKIE_NAME@,
        r.value@ == token@,
        r.path@ == SESSION_COOKIE_PATH@,
        r.max_age_secs == SESSION_TTL,
        r.http_only,
{
    SessionCookie {
        name: String::from_str(SESSION_COOKIE_NAME),
        value: String::from_str(token),
        path: String::from_str(SESSION_COOKIE_PATH),
        max_age_secs: SESSION_TTL,
        http_only: true,
    }
}

proof fn lemma_session_key_injective(a: Seq<char>, b: Seq<char>)
    requires
        session_key_of(a) == session_key_of(b),
    ensures
        a == b,
{
    let n = SESSION_KEY_PREFIX@.len();
    assert(a =~= session_key_of(a).subrange(n as int, session_key_of(a).len() as int));
    assert(b =~= session_key_of(b).subrange(n as int, session_key_of(b).len() as int));
}

/// A token written for `account` with lifetime `ttl_secs` at instant `now`
/// (the write that `session_write_for` builds) resolves to that account at
/// every instant before `now + ttl_secs`, and to nothing from then on; the
/// lookups of every other token are left as they were.
pub proof fn lemma_session_lives_for_ttl(
    m: Map<Seq<char>, StoredEntry>,
    token: Seq<char>,
    account: Seq<char>,
    ttl_secs: u64,
    now: int,
    later: int,
    other: Seq<char>,
)
    requires
        now <= later,
        other != token,
    ensures
        ({
            let m2 = store_after_write(m, session_key_of(token), account, ttl_secs as int, now);
            &&& store_lookup(m2, session_key_of(token), later) == if later < now + ttl_secs {
                Some(account)
            } else {
                None
            }
            &&& store_lookup(m2, session_key_of(other), later) == store_lookup(
                m,
                session_key_of(other),
                later,
            )
        }),
{
    if session_key_of(other) == session_key_of(token) {
        lemma_session_key_injective(other, token);
    }
}

} // verus!
