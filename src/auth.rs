use vstd::prelude::*;
use crate::session::{session_key, session_key_of, store_lookup, StoredEntry};

verus! {

/// The session store could not be reached or answered with an error.
#[derive(Clone, Copy, Debug, PartialEq, Eq, Structural)]
pub enum StoreError {
    Unavailable,
}

/// The store key to look up for a request, given the value of its session
/// cookie: none when the request carries no session cookie.
pub fn session_lookup_key(cookie: Option<&str>) -> (r: Option<String>)
    ensures
        match cookie {
            None => r is None,
            Some(t) => r is Some && r->0@ == session_key_of(t@),
        },
{
    match cookie {
        None => None,
        Some(t) => Some(session_key(t)),
    }
}

/// The identity attached to a request from the answer of the store: the
/// account when the store holds a live session, and no identity when the
/// token is unknown or expired or the store failed. It never fails.
pub fn identity_from_lookup(lookup: Result<Option<String>, StoreError>) -> (r: Option<String>)
    ensures
        r == match lookup {
            Ok(Some(account)) => Some(account),
            _ => None,
        },
{
    match lookup {
        Ok(Some(account)) => Some(account),
        _ => None,
    }
}

/// The identity of a request with session cookie `cookie` against store `m`
/// at instant `now`.
pub open spec fn identity_of(
    m: Map<Seq<char>, StoredEntry>,
    cookie: Option<Seq<char>>,
    now: int,
) -> Option<Seq<char>> {
    match cookie {
        None => None,
        Some(t) => store_lookup(m, session_key_of(t), now),
    }
}

/// A request without a session cookie, or whose token the store does not hold
/// alive, is anonymous; one whose token is alive carries that token's account.
pub proof fn lemma_identity_needs_live_session(
    m: Map<Seq<char>, StoredEntry>,
    cookie: Option<Seq<char>>,
    now: int,
)
    ensures
        cookie is None ==> identity_of(m, cookie, now) is None,
        cookie is Some ==> (identity_of(m, cookie, now) is Some <==> m.contains_key(
            session_key_of(cookie->0),
        ) && now < m[session_key_of(cookie->0)].expires_at),
{
}

} // verus!
