use vstd::prelude::*;

verus! {

/// Idle time after which a session expires, in minutes.
pub const SESSION_TIMEOUT_MINUTES: u64 = 15;

/// Idle time after which a session expires, in seconds.
pub const SESSION_TIMEOUT_SECS: u64 = SESSION_TIMEOUT_MINUTES * 60;

/// Bookkeeping of one active session.
#[derive(Debug, Clone, Copy, PartialEq, Eq, Structural)]
pub struct SessionInfo {
    /// Unix time (seconds) at which the session was issued.
    pub created_at: u64,
    /// Unix time (seconds) of the latest successful validation.
    pub last_activity: u64,
}

/// The table of active sessions, keyed by token.
pub type SessionTable = Map<Seq<char>, SessionInfo>;

/// Whether a session idle since `info.last_activity` has expired at `now`.
pub open spec fn expired_at(info: SessionInfo, now: u64) -> bool {
    now > info.last_activity && now - info.last_activity > SESSION_TIMEOUT_SECS
}

/// The table after issuing `token` at time `now`.
pub open spec fn after_start(t: SessionTable, token: Seq<char>, now: u64) -> SessionTable {
    t.insert(token, SessionInfo { created_at: now, last_activity: now })
}

/// Whether validating `token` at `now` succeeds.
pub open spec fn validation_result(t: SessionTable, token: Seq<char>, now: u64) -> bool {
    t.contains_key(token) && !expired_at(t[token], now)
}

/// The table after validating `token` at `now`: an expired session is
/// dropped, a live one has its activity time moved to `now`.
pub open spec fn after_validation(t: SessionTable, token: Seq<char>, now: u64) -> SessionTable {
    if !t.contains_key(token) {
        t
    } else if expired_at(t[token], now) {
        t.remove(token)
    } else {
        t.insert(token, SessionInfo { created_at: t[token].created_at, last_activity: now })
    }
}

/// The table after locking `token`.
pub open spec fn after_lock(t: SessionTable, token: Seq<char>) -> SessionTable {
    t.remove(token)
}

/// A session validates at any time up to the timeout after it was issued;
/// validated later, it fails and is dropped.
pub proof fn lemma_fresh_session_validates(t: SessionTable, token: Seq<char>, issued: u64, now: u64)
    ensures
        now <= issued + SESSION_TIMEOUT_SECS ==> validation_result(after_start(t, token, issued), token, now),
        now > issued + SESSION_TIMEOUT_SECS ==> !validation_result(after_start(t, token, issued), token, now)
            && !after_validation(after_start(t, token, issued), token, now).contains_key(token),
{
}

/// A locked token no longer validates, validating it changes nothing, and
/// locking it again changes nothing.
pub proof fn lemma_locked_session_is_gone(t: SessionTable, token: Seq<char>, now: u64)
    ensures
        !validation_result(after_lock(t, token), token, now),
        after_validation(after_lock(t, token), token, now) == after_lock(t, token),
        after_lock(after_lock(t, token), token) == after_lock(t, token),
{
    assert(after_lock(after_lock(t, token), token) =~= after_lock(t, token));
}

} // verus!
