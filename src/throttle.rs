use vstd::prelude::*;

verus! {

/// Consecutive failed verifications after which an identity is locked out.
pub const MAX_LOGIN_ATTEMPTS: u32 = 5;

/// Length of a lockout, in minutes.
pub const LOCKOUT_DURATION_MINUTES: u64 = 30;

/// Length of a lockout, in seconds.
pub const LOCKOUT_DURATION_SECS: u64 = LOCKOUT_DURATION_MINUTES * 60;

/// Failed-verification record of one client identity.
#[derive(Debug, Clone, Copy, PartialEq, Eq, Structural)]
pub struct LoginAttemptInfo {
    /// Consecutive failures, capped at `MAX_LOGIN_ATTEMPTS`.
    pub attempts: u32,
    /// Unix time (seconds) of the latest failure.
    pub last_attempt: u64,
    /// Unix time (seconds) until which verification is refused.
    pub locked_until: Option<u64>,
}

/// The table of failure records, keyed by client identity.
pub type AttemptTable = Map<Seq<char>, LoginAttemptInfo>;

/// A record exists only after a failure, never counts past the maximum,
/// and carries a lockout only once the maximum is reached.
pub open spec fn attempt_record_wf(info: LoginAttemptInfo) -> bool {
    &&& 1 <= info.attempts <= MAX_LOGIN_ATTEMPTS
    &&& info.locked_until is Some ==> info.attempts == MAX_LOGIN_ATTEMPTS
}

pub open spec fn attempt_table_wf(t: AttemptTable) -> bool {
    forall|c: Seq<char>| #[trigger] t.contains_key(c) ==> attempt_record_wf(t[c])
}

/// `a + b`, or `u64::MAX` where the sum does not fit.
pub open spec fn saturating_sum(a: u64, b: u64) -> u64 {
    if a + b > u64::MAX {
        u64::MAX
    } else {
        (a + b) as u64
    }
}

/// Whether `client` is refused verification at time `now`.
pub open spec fn locked_at(t: AttemptTable, client: Seq<char>, now: u64) -> bool {
    &&& t.contains_key(client)
    &&& t[client].locked_until matches Some(until)
    &&& now < until
}

/// The end of the latest lockout recorded for `client`, if any.
pub open spec fn lock_end(t: AttemptTable, client: Seq<char>) -> Option<u64> {
    if t.contains_key(client) {
        t[client].locked_until
    } else {
        None
    }
}

/// Consecutive failures recorded for `client` (zero without a record).
pub open spec fn failure_count(t: AttemptTable, client: Seq<char>) -> nat {
    if t.contains_key(client) {
        t[client].attempts as nat
    } else {
        0
    }
}

/// The record of `client` after one more failure at time `now`: the count
/// grows up to the maximum, and from the maximum on each failure locks the
/// identity for the lockout duration starting at `now`.
pub open spec fn record_after_failure(t: AttemptTable, client: Seq<char>, now: u64) -> LoginAttemptInfo {
    let prev = failure_count(t, client);
    let attempts: u32 = if prev < MAX_LOGIN_ATTEMPTS { (prev + 1) as u32 } else { prev as u32 };
    LoginAttemptInfo {
        attempts,
        last_attempt: now,
        locked_until: if attempts >= MAX_LOGIN_ATTEMPTS {
            Some(saturating_sum(now, LOCKOUT_DURATION_SECS))
        } else if t.contains_key(client) {
            t[client].locked_until
        } else {
            None
        },
    }
}

/// The table after a failure of `client` at time `now`.
pub open spec fn after_failure(t: AttemptTable, client: Seq<char>, now: u64) -> AttemptTable {
    t.insert(client, record_after_failure(t, client, now))
}

/// The table after a successful verification of `client`: its record is gone.
pub open spec fn after_success(t: AttemptTable, client: Seq<char>) -> AttemptTable {
    t.remove(client)
}

/// The table after failures of `client` at each of `times`, in order.
pub open spec fn after_failures(t: AttemptTable, client: Seq<char>, times: Seq<u64>) -> AttemptTable
    decreases times.len(),
{
    if times.len() == 0 {
        t
    } else {
        after_failure(after_failures(t, client, times.drop_last()), client, times.last())
    }
}

/// From no record, consecutive failures count up to the maximum; the record
/// carries no lockout before the maximum, and from then on a lockout that
/// ends the lockout duration after the latest failure.
pub proof fn lemma_failures_from_clean(t: AttemptTable, client: Seq<char>, times: Seq<u64>)
    requires
        !t.contains_key(client),
    ensures
        failure_count(after_failures(t, client, times), client)
            == if times.len() < MAX_LOGIN_ATTEMPTS { times.len() } else { MAX_LOGIN_ATTEMPTS as nat },
        times.len() < MAX_LOGIN_ATTEMPTS && after_failures(t, client, times).contains_key(client)
            ==> after_failures(t, client, times)[client].locked_until is None,
        times.len() >= MAX_LOGIN_ATTEMPTS ==> after_failures(t, client, times).contains_key(client)
            && after_failures(t, client, times)[client].locked_until
                == Some(saturating_sum(times.last(), LOCKOUT_DURATION_SECS)),
    decreases times.len(),
{
    if times.len() > 0 {
        lemma_failures_from_clean(t, client, times.drop_last());
    }
}

/// Consecutive failures of an identity that had no record: fewer than the
/// maximum never lock it; from the maximum on, it is locked exactly until
/// the lockout duration has passed since the latest failure.
pub proof fn lemma_lockout_after_max_failures(t: AttemptTable, client: Seq<char>, times: Seq<u64>, now: u64)
    requires
        !t.contains_key(client),
    ensures
        times.len() < MAX_LOGIN_ATTEMPTS ==> !locked_at(after_failures(t, client, times), client, now),
        times.len() >= MAX_LOGIN_ATTEMPTS ==> (locked_at(after_failures(t, client, times), client, now)
            <==> now < saturating_sum(times.last(), LOCKOUT_DURATION_SECS)),
{
    lemma_failures_from_clean(t, client, times);
}

/// A success clears the identity's record, so one later failure counts one
/// and locks at no time.
pub proof fn lemma_success_resets_failures(t: AttemptTable, client: Seq<char>, failed_at: u64, now: u64)
    ensures
        failure_count(after_success(t, client), client) == 0,
        failure_count(after_failure(after_success(t, client), client, failed_at), client) == 1,
        !locked_at(after_failure(after_success(t, client), client, failed_at), client, now),
{
}

/// Failures and successes keep every record well formed.
pub proof fn lemma_records_stay_wf(t: AttemptTable, client: Seq<char>, now: u64)
    requires
        attempt_table_wf(t),
    ensures
        attempt_table_wf(after_failure(t, client, now)),
        attempt_table_wf(after_success(t, client)),
{
}

} // verus!
