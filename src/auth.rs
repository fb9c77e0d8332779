use vstd::hash_map::StringHashMap;
use vstd::prelude::*;

use crate::error::AuthError;
use crate::session::{
    after_lock, after_start, after_validation, validation_result, SessionInfo, SessionTable,
    SESSION_TIMEOUT_SECS,
};
use crate::throttle::{
    after_failure, after_failures, after_success, attempt_table_wf, failure_count,
    lock_end, lemma_failures_from_clean, lemma_lockout_after_max_failures, locked_at, saturating_sum, AttemptTable, LoginAttemptInfo,
    LOCKOUT_DURATION_SECS, MAX_LOGIN_ATTEMPTS,
};
use crate::password::{argon2_accepts, check_password, is_hash_of, phc_parses};
use crate::random::draw_random_bytes;
use crate::token::{
    hex_of, is_hex_text, is_session_token, lemma_session_token_shape, session_token_of,
    SESSION_TOKEN_BYTES,
};
use vstd::string::StringSliceAdditionalSpecFns;

verus! {

/// The client identity under which a single-user vault counts failures.
pub const DEFAULT_CLIENT_ID: &'static str = "default";

/// The view of an optional stored hash.
pub open spec fn stored_view(stored: Option<&str>) -> Option<Seq<char>> {
    match stored {
        Some(s) => Some(s@),
        None => None,
    }
}

/// The result of checking `password` for `client` at `now` against the
/// stored hash, for an identity that is not locked out, and the failure
/// table afterwards. Without a stored hash the answer is `false` and nothing
/// is recorded; an unparsable hash is corrupt configuration; otherwise the
/// Argon2 verdict is returned and recorded as a success or a failure.
pub open spec fn check_outcome(
    t: AttemptTable,
    client: Seq<char>,
    password: Seq<u8>,
    stored: Option<Seq<char>>,
    now: u64,
) -> (Result<bool, AuthError>, AttemptTable) {
    match stored {
        None => (Ok(false), t),
        Some(s) => if !phc_parses(s) {
            (Err(AuthError::CorruptConfiguration), t)
        } else if argon2_accepts(password, s) {
            (Ok(true), after_success(t, client))
        } else {
            (Ok(false), after_failure(t, client, now))
        },
    }
}

/// The result of verifying `password` for `client` at `now`, and the failure
/// table afterwards: a locked identity is refused, with the end of its
/// lockout, and nothing changes;
/// otherwise the password is checked as `check_outcome` says.
pub open spec fn verification_outcome(
    t: AttemptTable,
    client: Seq<char>,
    password: Seq<u8>,
    stored: Option<Seq<char>>,
    now: u64,
) -> (Result<bool, AuthError>, AttemptTable) {
    if locked_at(t, client, now) {
        (Err(AuthError::AccountLocked(t[client].locked_until->0)), t)
    } else {
        check_outcome(t, client, password, stored, now)
    }
}

/// A password verifies against a hash made from it, which clears the
/// identity's failure record; a password that Argon2 rejects against that
/// hash yields `false` and counts one more failure, up to the maximum.
pub proof fn lemma_verify_after_set(
    t: AttemptTable,
    client: Seq<char>,
    password: Seq<u8>,
    other: Seq<u8>,
    hash: Seq<char>,
    now: u64,
)
    requires
        is_hash_of(hash, password),
        !locked_at(t, client, now),
    ensures
        verification_outcome(t, client, password, Some(hash), now) == (
            Ok::<bool, AuthError>(true),
            after_success(t, client),
        ),
        !argon2_accepts(other, hash) ==> verification_outcome(t, client, other, Some(hash), now) == (
            Ok::<bool, AuthError>(false),
            after_failure(t, client, now),
        ),
        !argon2_accepts(other, hash) && failure_count(t, client) < MAX_LOGIN_ATTEMPTS
            ==> failure_count(after_failure(t, client, now), client) == failure_count(t, client) + 1,
{
}

/// After as many consecutive failures as the maximum, from no record, every
/// verification of the identity is refused, whatever the password, with the
/// end of the lockout, until the lockout duration has passed since the
/// latest failure; from then on the
/// password is checked as usual.
pub proof fn lemma_lockout_refuses_verification(
    t: AttemptTable,
    client: Seq<char>,
    times: Seq<u64>,
    password: Seq<u8>,
    stored: Option<Seq<char>>,
    now: u64,
)
    requires
        !t.contains_key(client),
        times.len() == MAX_LOGIN_ATTEMPTS,
    ensures
        now < saturating_sum(times.last(), LOCKOUT_DURATION_SECS) ==> verification_outcome(
            after_failures(t, client, times),
            client,
            password,
            stored,
            now,
        ) == (
            Err::<bool, AuthError>(AuthError::AccountLocked(saturating_sum(times.last(), LOCKOUT_DURATION_SECS))),
            after_failures(t, client, times),
        ),
        now >= saturating_sum(times.last(), LOCKOUT_DURATION_SECS) ==> verification_outcome(
            after_failures(t, client, times),
            client,
            password,
            stored,
            now,
        ) == check_outcome(after_failures(t, client, times), client, password, stored, now),
{
    lemma_lockout_after_max_failures(t, client, times, now);
    lemma_failures_from_clean(t, client, times);
}

/// In-memory authentication state: active sessions and failed-login records.
pub struct AuthService {
    sessions: StringHashMap<SessionInfo>,
    login_attempts: StringHashMap<LoginAttemptInfo>,
}

impl AuthService {
    /// The active sessions, by token.
    pub closed spec fn session_table(&self) -> SessionTable {
        self.sessions@
    }

    /// The failure records, by client identity.
    pub closed spec fn attempt_table(&self) -> AttemptTable {
        self.login_attempts@
    }

    /// Every failure record is well formed.
    pub open spec fn wf(&self) -> bool {
        attempt_table_wf(self.attempt_table())
    }

    /// A service with no sessions and no failure records.
    pub fn new() -> (r: Self)
        ensures
            r.session_table() == SessionTable::empty(),
            r.attempt_table() == AttemptTable::empty(),
            r.wf(),
    {
        AuthService { sessions: StringHashMap::new(), login_attempts: StringHashMap::new() }
    }

    /// Records `token` as a session issued at `now`.
    pub fn start_session(&mut self, token: String, now: u64)
        requires
            old(self).wf(),
        ensures
            final(self).wf(),
            final(self).session_table() == after_start(old(self).session_table(), token@, now),
            final(self).attempt_table() == old(self).attempt_table(),
    {
        self.sessions.insert(token, SessionInfo { created_at: now, last_activity: now });
    }

    /// Validates `token` at time `now`, dropping it if it has expired and
    /// refreshing its activity time otherwise.
    pub fn validate_session_at(&mut self, token: &str, now: u64) -> (r: bool)
        requires
            old(self).wf(),
        ensures
            final(self).wf(),
            r == validation_result(old(self).session_table(), token@, now),
            final(self).session_table() == after_validation(old(self).session_table(), token@, now),
            final(self).attempt_table() == old(self).attempt_table(),
    {
        match self.sessions.get(token) {
            None => false,
            Some(found) => {
                let info: SessionInfo = *found;
                if now > info.last_activity && now - info.last_activity > SESSION_TIMEOUT_SECS {
                    self.sessions.remove(token);
                    false
                } else {
                    self.sessions.insert(
                        token.to_owned(),
                        SessionInfo { created_at: info.created_at, last_activity: now },
                    );
                    true
                }
            },
        }
    }

    /// Ends the session of `token`, if there is one.
    pub fn lock_session(&mut self, token: &str) -> (r: Result<(), AuthError>)
        requires
            old(self).wf(),
        ensures
            final(self).wf(),
            r is Ok,
            final(self).session_table() == after_lock(old(self).session_table(), token@),
            final(self).attempt_table() == old(self).attempt_table(),
    {
        self.sessions.remove(token);
        Ok(())
    }

    /// The end of the latest lockout recorded for `client_id`, if any.
    pub fn lockout_end(&self, client_id: &str) -> (r: Option<u64>)
        ensures
            r == lock_end(self.attempt_table(), client_id@),
    {
        match self.login_attempts.get(client_id) {
            Some(info) => info.locked_until,
            None => None,
        }
    }

    /// Whether `client_id` is refused verification at time `now`.
    pub fn is_account_locked_at(&self, client_id: &str, now: u64) -> (r: bool)
        ensures
            r == locked_at(self.attempt_table(), client_id@, now),
    {
        match self.login_attempts.get(client_id) {
            Some(info) => match info.locked_until {
                Some(until) => now < until,
                None => false,
            },
            None => false,
        }
    }

    /// Records a failed verification of `client_id` at time `now`.
    pub fn record_failed_attempt_at(&mut self, client_id: &str, now: u64)
        requires
            old(self).wf(),
        ensures
            final(self).wf(),
            final(self).attempt_table() == after_failure(old(self).attempt_table(), client_id@, now),
            final(self).session_table() == old(self).session_table(),
    {
        let prev: Option<LoginAttemptInfo> = match self.login_attempts.get(client_id) {
            Some(info) => Some(*info),
            None => None,
        };
        let (count, previous_lock): (u32, Option<u64>) = match prev {
            Some(info) => (info.attempts, info.locked_until),
            None => (0, None),
        };
        let attempts: u32 = if count < MAX_LOGIN_ATTEMPTS { count + 1 } else { count };
        let locked_until: Option<u64> = if attempts >= MAX_LOGIN_ATTEMPTS {
            Some(now.saturating_add(LOCKOUT_DURATION_SECS))
        } else {
            previous_lock
        };
        self.login_attempts.insert(
            client_id.to_owned(),
            LoginAttemptInfo { attempts, last_attempt: now, locked_until },
        );
    }

    /// Applies the outcome of a password check for `client_id` at `now`:
    /// an accepted password clears the identity's record, a rejected one
    /// counts as a failure. Returns whether the password was accepted.
    pub fn record_verification_result(&mut self, client_id: &str, accepted: bool, now: u64) -> (r: bool)
        requires
            old(self).wf(),
        ensures
            final(self).wf(),
            r == accepted,
            final(self).attempt_table() == (if accepted {
                after_success(old(self).attempt_table(), client_id@)
            } else {
                after_failure(old(self).attempt_table(), client_id@, now)
            }),
            final(self).session_table() == old(self).session_table(),
    {
        if accepted {
            self.login_attempts.remove(client_id);
            true
        } else {
            self.record_failed_attempt_at(client_id, now);
            false
        }
    }

    /// Relies on `std::time::SystemTime::elapsed` from the Unix epoch: the
    /// current wall-clock time in whole seconds, or zero when the clock
    /// reads earlier than the epoch. Nothing is promised of its value.
    #[verifier::external_body]
    fn current_timestamp(&self) -> u64 {
        match std::time::SystemTime::UNIX_EPOCH.elapsed() {
            Ok(elapsed) => elapsed.as_secs(),
            Err(_) => 0,
        }
    }

    /// Issues the session whose token is made of `bytes`, valid from `now`.
    pub fn create_session_from(&mut self, bytes: &[u8], now: u64) -> (r: String)
        requires
            old(self).wf(),
            bytes@.len() == SESSION_TOKEN_BYTES,
        ensures
            final(self).wf(),
            r@ == hex_of(bytes@),
            is_session_token(r@),
            final(self).session_table() == after_start(old(self).session_table(), r@, now),
            final(self).attempt_table() == old(self).attempt_table(),
    {
        let token = session_token_of(bytes);
        self.start_session(token.clone(), now);
        token
    }

    /// Issues a fresh random session token, valid from the current time, or
    /// reports that the generator failed, issuing nothing.
    pub fn create_session(&mut self) -> (r: Result<String, AuthError>)
        requires
            old(self).wf(),
        ensures
            final(self).wf(),
            final(self).attempt_table() == old(self).attempt_table(),
            match r {
                Ok(token) => is_session_token(token@)
                    && token@.len() == 2 * SESSION_TOKEN_BYTES
                    && is_hex_text(token@)
                    && exists|now: u64|
                    final(self).session_table() == after_start(old(self).session_table(), token@, now),
                Err(e) => e == AuthError::RandomUnavailable
                    && final(self).session_table() == old(self).session_table(),
            },
    {
        let (bytes, filled) = draw_random_bytes(SESSION_TOKEN_BYTES);
        if !filled {
            return Err(AuthError::RandomUnavailable);
        }
        let now = self.current_timestamp();
        let token = self.create_session_from(bytes.as_slice(), now);
        proof {
            lemma_session_token_shape(token@);
        }
        Ok(token)
    }

    /// Validates `token` at the current time; see `validate_session_at`.
    pub fn validate_session(&mut self, token: &str) -> (r: Result<bool, AuthError>)
        requires
            old(self).wf(),
        ensures
            final(self).wf(),
            final(self).attempt_table() == old(self).attempt_table(),
            r matches Ok(valid) && exists|now: u64|
                valid == validation_result(old(self).session_table(), token@, now)
                && final(self).session_table() == after_validation(old(self).session_table(), token@, now),
    {
        let now = self.current_timestamp();
        let valid = self.validate_session_at(token, now);
        Ok(valid)
    }

    /// Whether `client_id` is refused verification at the current time.
    pub fn is_account_locked(&self, client_id: &str) -> (r: bool)
        ensures
            exists|now: u64| r == locked_at(self.attempt_table(), client_id@, now),
    {
        let now = self.current_timestamp();
        self.is_account_locked_at(client_id, now)
    }

    /// Records a failed verification of `client_id` at the current time.
    pub fn record_failed_attempt(&mut self, client_id: &str)
        requires
            old(self).wf(),
        ensures
            final(self).wf(),
            final(self).session_table() == old(self).session_table(),
            exists|now: u64| final(self).attempt_table() == after_failure(old(self).attempt_table(), client_id@, now),
    {
        let now = self.current_timestamp();
        self.record_failed_attempt_at(client_id, now);
    }

    /// Verifies `password` for `client_id` at time `now` against the stored
    /// master-password hash (`None` when no master password is set), and
    /// updates the identity's failure record.
    pub fn verify_master_password_at(
        &mut self,
        client_id: &str,
        password: &str,
        stored: Option<&str>,
        now: u64,
    ) -> (r: Result<bool, AuthError>)
        requires
            old(self).wf(),
        ensures
            final(self).wf(),
            final(self).session_table() == old(self).session_table(),
            (r, final(self).attempt_table()) == verification_outcome(
                old(self).attempt_table(),
                client_id@,
                password.spec_bytes(),
                stored_view(stored),
                now,
            ),
    {
        if let Some(until) = self.lockout_end(client_id) {
            if now < until {
                return Err(AuthError::AccountLocked(until));
            }
        }
        match stored {
            None => Ok(false),
            Some(hash) => {
                let accepted = check_password(password, hash)?;
                Ok(self.record_verification_result(client_id, accepted, now))
            },
        }
    }

    /// Verifies `password` for the single-user identity at the current time;
    /// see `verify_master_password_at`.
    pub fn verify_master_password(&mut self, password: &str, stored: Option<&str>) -> (r: Result<bool, AuthError>)
        requires
            old(self).wf(),
        ensures
            final(self).wf(),
            final(self).session_table() == old(self).session_table(),
            exists|now: u64|
                (r, final(self).attempt_table()) == verification_outcome(
                    old(self).attempt_table(),
                    DEFAULT_CLIENT_ID@,
                    password.spec_bytes(),
                    stored_view(stored),
                    now,
                ),
    {
        let now = self.current_timestamp();
        self.verify_master_password_at(DEFAULT_CLIENT_ID, password, stored, now)
    }

    /// Consecutive failures currently recorded for `client_id`.
    pub fn failure_count_of(&self, client_id: &str) -> (r: u32)
        ensures
            r as nat == failure_count(self.attempt_table(), client_id@),
    {
        match self.login_attempts.get(client_id) {
            Some(info) => info.attempts,
            None => 0,
        }
    }

    /// Whether `token` names an active (not yet dropped) session.
    pub fn has_session(&self, token: &str) -> (r: bool)
        ensures
            r == self.session_table().contains_key(token@),
    {
        self.sessions.contains_key(token)
    }
}

} // verus!
