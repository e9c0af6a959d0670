//! Server-side login sessions with an expiry time.

use std::collections::HashMap;

use vstd::prelude::*;

use super::Identifiable;

verus! {

/// Key/value state kept for a session.
pub type SessionState = HashMap<String, String>;

/// A session: its state and the second (since the Unix epoch) at which it
/// stops being valid.
#[derive(Debug)]
pub struct Session {
    pub time_to_logout: i64,
    pub state: SessionState,
}

/// The system clock.
#[verifier::external_type_specification]
#[verifier::external_body]
pub struct ExSystemTime(std::time::SystemTime);

/// Calls `std::time::SystemTime::now`. Nothing is stated of the reading: it
/// is whatever the clock says.
#[verifier::external_body]
fn system_now() -> (t: std::time::SystemTime) {
    std::time::SystemTime::now()
}

/// Calls `std::time::SystemTime::duration_since` with the Unix epoch: the
/// time elapsed since the epoch, or `None` when the reading lies before it.
/// Which of the two comes back depends on the reading, which is opaque here.
#[verifier::external_body]
fn elapsed_since_epoch(t: &std::time::SystemTime) -> (d: Option<std::time::Duration>) {
    t.duration_since(std::time::UNIX_EPOCH).ok()
}

/// Calls `std::time::Duration::as_secs`: the whole seconds of the duration,
/// which is opaque here.
#[verifier::external_body]
fn whole_seconds(d: &std::time::Duration) -> (s: u64) {
    d.as_secs()
}

/// A clock reading in whole seconds since the Unix epoch as a time: the
/// seconds converted to `i64` (wrapping around past `i64::MAX`). A reading
/// before the epoch gives no time.
pub fn seconds_as_time(reading: Option<u64>) -> (t: Option<i64>)
    ensures
        reading matches Some(s) ==> t == Some(s as i64),
        reading is None ==> t is None,
{
    match reading {
        Some(s) => Some(s as i64),
        None => None,
    }
}

/// The second `ttl` seconds after `now`, wrapping around on overflow.
pub open spec fn expiry_after(now: i64, ttl: i64) -> i64 {
    now.wrapping_add(ttl)
}

impl Session {
    /// The session is still valid at second `now`.
    pub open spec fn valid_at(&self, now: i64) -> bool {
        self.time_to_logout > now
    }

    /// The session has not expired at second `now`.
    pub fn is_valid_at(&self, now: i64) -> (b: bool)
        ensures
            b == self.valid_at(now),
    {
        self.time_to_logout > now
    }

    /// Whether the session has not expired at the current time; `None` when
    /// the clock is set before the Unix epoch and gives no time.
    pub fn is_valid(&self) -> (b: Option<bool>)
        ensures
            b matches Some(v) ==> exists|now: i64| v == #[trigger] self.valid_at(now),
    {
        match Self::get_current_time() {
            Some(now) => Some(self.is_valid_at(now)),
            None => None,
        }
    }

    /// The current time in whole seconds since the Unix epoch, converted to
    /// `i64` with wrap-around; `None` when the clock is set before the epoch.
    pub fn get_current_time() -> (t: Option<i64>) {
        let now = system_now();
        let reading = match elapsed_since_epoch(&now) {
            Some(d) => Some(whole_seconds(&d)),
            None => None,
        };
        seconds_as_time(reading)
    }

    /// A session with `state` that expires `ttl` seconds after `now`
    /// (the sum wraps around on overflow).
    pub fn expiring(state: SessionState, now: i64, ttl: i64) -> (s: Self)
        ensures
            s.time_to_logout == expiry_after(now, ttl),
            s.state == state,
    {
        Session { time_to_logout: now.wrapping_add(ttl), state }
    }

    /// Moves the expiry to `ttl` seconds after `now` (wrapping on overflow).
    pub fn refresh_at(&mut self, now: i64, ttl: i64)
        ensures
            final(self).time_to_logout == expiry_after(now, ttl),
            final(self).state == old(self).state,
    {
        self.time_to_logout = now.wrapping_add(ttl);
    }

    /// Moves the expiry to `ttl` seconds after the current time. Returns
    /// whether it did: with the clock set before the Unix epoch there is no
    /// current time and the session stays as it was.
    pub fn refresh(&mut self, ttl: i64) -> (refreshed: bool)
        ensures
            refreshed ==> exists|now: i64| final(self).time_to_logout == #[trigger] expiry_after(now, ttl),
            !refreshed ==> final(self).time_to_logout == old(self).time_to_logout,
            final(self).state == old(self).state,
    {
        match Self::get_current_time() {
            Some(now) => {
                self.refresh_at(now, ttl);
                true
            },
            None => false,
        }
    }
}

/// A session refreshed (or created) with a positive lifetime that does not
/// overflow is valid at the moment it was refreshed, and expires exactly
/// `ttl` seconds later.
pub proof fn lemma_fresh_session_valid(now: i64, ttl: i64)
    requires
        0 < ttl,
        now + ttl <= i64::MAX,
    ensures
        expiry_after(now, ttl) > now,
        expiry_after(now, ttl) == now + ttl,
{
}

impl Identifiable for Session {
    type Id = u64;
}

} // verus!
