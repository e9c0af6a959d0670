//! Decisions of the session store: which stored sessions are served, and
//! how sessions are created, extended and keyed.

use vstd::prelude::*;

use crate::model::session::{expiry_after, Session, SessionState};

verus! {

/// The outcome of looking a session up.
#[derive(Debug)]
pub enum SessionLookup {
    /// The session is valid; its state is served.
    Valid(SessionState),
    /// The session has expired; it should be deleted and nothing served.
    Expired,
    /// No session is stored under the key.
    Missing,
}

/// Serves a stored session if it is still valid at second `now`.
pub fn lookup_session(stored: Option<Session>, now: i64) -> (r: SessionLookup)
    ensures
        stored is None ==> r is Missing,
        stored matches Some(s) ==> (s.valid_at(now) ==> r == SessionLookup::Valid(s.state)),
        stored matches Some(s) ==> (!s.valid_at(now) ==> r is Expired),
{
    match stored {
        None => SessionLookup::Missing,
        Some(s) => if s.is_valid_at(now) {
            SessionLookup::Valid(s.state)
        } else {
            SessionLookup::Expired
        },
    }
}

/// The session stored for a new login: valid for `ttl` seconds from `now`.
pub fn new_session(state: SessionState, now: i64, ttl: i64) -> (s: Session)
    ensures
        s.state == state,
        s.time_to_logout == expiry_after(now, ttl),
{
    Session::expiring(state, now, ttl)
}

/// A stored session with replaced state, valid for `ttl` seconds from `now`.
pub fn update_session(session: Session, state: SessionState, now: i64, ttl: i64) -> (s: Session)
    ensures
        s.state == state,
        s.time_to_logout == expiry_after(now, ttl),
{
    let mut session = session;
    session.state = state;
    session.refresh_at(now, ttl);
    session
}

/// A session saved for `ttl` seconds at second `now` is served at every
/// later second before `now + ttl`, and from then on it has expired (for a
/// lifetime whose end does not overflow).
pub proof fn lemma_session_served_until_expiry(state: SessionState, now: i64, ttl: i64, t: i64)
    requires
        0 < ttl,
        now + ttl <= i64::MAX,
        now <= t,
    ensures
        (Session { time_to_logout: expiry_after(now, ttl), state }).valid_at(t) <==> t < now + ttl,
{
}

/// An ASCII letter or digit.
pub open spec fn is_alphanumeric(c: u8) -> bool {
    (0x30 <= c <= 0x39) || (0x41 <= c <= 0x5a) || (0x61 <= c <= 0x7a)
}

/// Calls `rand::Rng::sample` on `rand::rngs::OsRng` with
/// `rand::distributions::Alphanumeric`, which draws uniformly from the ASCII
/// letters and digits. Which one comes back is random: only its range is stated.
#[verifier::external_body]
fn random_alphanumeric() -> (c: u8)
    ensures
        is_alphanumeric(c),
{
    rand::Rng::sample(&mut rand::rngs::OsRng, rand::distributions::Alphanumeric)
}

/// Number of characters of a session key: 64 alphanumerics, over 256 bits.
pub const SESSION_KEY_LEN: usize = 64;

/// A fresh session key: 64 random ASCII letters and digits.
pub fn generate_session_key() -> (key: Vec<u8>)
    ensures
        key@.len() == SESSION_KEY_LEN,
        forall|i: int| 0 <= i < key@.len() ==> is_alphanumeric(#[trigger] key@[i]),
{
    let mut key: Vec<u8> = Vec::new();
    while key.len() < SESSION_KEY_LEN
        invariant
            key@.len() <= SESSION_KEY_LEN,
            forall|i: int| 0 <= i < key@.len() ==> is_alphanumeric(#[trigger] key@[i]),
        decreases SESSION_KEY_LEN - key@.len(),
    {
        key.push(random_alphanumeric());
    }
    key
}

} // verus!
