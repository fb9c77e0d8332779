use vault_auth::{AuthError, AuthService, DEFAULT_CLIENT_ID};

const CLIENT: &str = "default";

#[test]
fn verify_after_set_with_same_password() {
    let mut auth = AuthService::new();
    let hash = auth.set_master_password("abc12345").unwrap();
    assert_eq!(auth.verify_master_password("abc12345", Some(&hash)), Ok(true));
    assert_eq!(auth.failure_count_of(DEFAULT_CLIENT_ID), 0);
}

#[test]
fn verify_with_other_password_fails_and_counts() {
    let mut auth = AuthService::new();
    let hash = auth.set_master_password("abc12345").unwrap();
    assert_eq!(auth.verify_master_password_at(CLIENT, "abc12346", Some(&hash), 1000), Ok(false));
    assert_eq!(auth.failure_count_of(CLIENT), 1);
    assert_eq!(auth.verify_master_password_at(CLIENT, "ABC12345", Some(&hash), 1001), Ok(false));
    assert_eq!(auth.failure_count_of(CLIENT), 2);
}

#[test]
fn lockout_after_five_failures() {
    let mut auth = AuthService::new();
    let hash = auth.set_master_password("abc12345").unwrap();
    for i in 0..5u64 {
        assert!(!auth.is_account_locked_at(CLIENT, 1000 + i));
        assert_eq!(auth.verify_master_password_at(CLIENT, "wrong1234", Some(&hash), 1000 + i), Ok(false));
    }
    assert_eq!(auth.failure_count_of(CLIENT), 5);
    // sixth attempt, even with the right password
    assert_eq!(
        auth.verify_master_password_at(CLIENT, "abc12345", Some(&hash), 1005),
        Err(AuthError::AccountLocked(1004 + 1800))
    );
    // still locked one second before the lockout ends
    assert_eq!(
        auth.verify_master_password_at(CLIENT, "abc12345", Some(&hash), 1004 + 1800 - 1),
        Err(AuthError::AccountLocked(1004 + 1800))
    );
    // after the lockout the password is checked again
    assert_eq!(auth.verify_master_password_at(CLIENT, "abc12345", Some(&hash), 1004 + 1800), Ok(true));
    assert_eq!(auth.failure_count_of(CLIENT), 0);
}

#[test]
fn failure_after_expired_lockout_locks_again() {
    let mut auth = AuthService::new();
    for i in 0..5u64 {
        auth.record_failed_attempt_at(CLIENT, 10 + i);
    }
    assert!(auth.is_account_locked_at(CLIENT, 100));
    assert!(!auth.is_account_locked_at(CLIENT, 14 + 1800));
    auth.record_failed_attempt_at(CLIENT, 5000);
    assert_eq!(auth.failure_count_of(CLIENT), 5);
    assert!(auth.is_account_locked_at(CLIENT, 5001));
    assert!(!auth.is_account_locked_at(CLIENT, 6800));
}

#[test]
fn four_failures_do_not_lock() {
    let mut auth = AuthService::new();
    for i in 0..4u64 {
        auth.record_failed_attempt_at(CLIENT, 10 + i);
    }
    assert_eq!(auth.failure_count_of(CLIENT), 4);
    assert!(!auth.is_account_locked_at(CLIENT, 14));
    assert!(!auth.is_account_locked(CLIENT));
}

#[test]
fn identities_are_throttled_separately() {
    let mut auth = AuthService::new();
    for i in 0..5u64 {
        auth.record_failed_attempt_at("alice", 10 + i);
    }
    assert!(auth.is_account_locked_at("alice", 20));
    assert!(!auth.is_account_locked_at("bob", 20));
    assert_eq!(auth.failure_count_of("bob"), 0);
}

#[test]
fn success_resets_failure_count() {
    let mut auth = AuthService::new();
    let hash = auth.set_master_password("abc12345").unwrap();
    for i in 0..4u64 {
        assert_eq!(auth.verify_master_password_at(CLIENT, "wrong1234", Some(&hash), 100 + i), Ok(false));
    }
    assert_eq!(auth.verify_master_password_at(CLIENT, "abc12345", Some(&hash), 110), Ok(true));
    assert_eq!(auth.failure_count_of(CLIENT), 0);
    assert_eq!(auth.verify_master_password_at(CLIENT, "wrong1234", Some(&hash), 111), Ok(false));
    assert_eq!(auth.failure_count_of(CLIENT), 1);
    assert!(!auth.is_account_locked_at(CLIENT, 112));
}

#[test]
fn recorded_results_on_given_values() {
    let mut auth = AuthService::new();
    assert!(!auth.record_verification_result(CLIENT, false, 50));
    assert_eq!(auth.failure_count_of(CLIENT), 1);
    assert!(auth.record_verification_result(CLIENT, true, 51));
    assert_eq!(auth.failure_count_of(CLIENT), 0);
}

#[test]
fn missing_hash_returns_false_without_counting() {
    let mut auth = AuthService::new();
    assert_eq!(auth.verify_master_password_at(CLIENT, "abc12345", None, 10), Ok(false));
    assert_eq!(auth.failure_count_of(CLIENT), 0);
    assert_eq!(auth.verify_master_password("abc12345", None), Ok(false));
}

#[test]
fn corrupt_hash_is_reported() {
    let mut auth = AuthService::new();
    assert_eq!(
        auth.verify_master_password_at(CLIENT, "abc12345", Some("garbage"), 10),
        Err(AuthError::CorruptConfiguration)
    );
    assert_eq!(auth.failure_count_of(CLIENT), 0);
}

#[test]
fn failed_attempt_recorded_at_current_time() {
    let mut auth = AuthService::new();
    auth.record_failed_attempt(CLIENT);
    assert_eq!(auth.failure_count_of(CLIENT), 1);
}

#[test]
fn lockout_end_is_reported() {
    let mut auth = AuthService::new();
    assert_eq!(auth.lockout_end(CLIENT), None);
    for i in 0..4u64 {
        auth.record_failed_attempt_at(CLIENT, 100 + i);
    }
    assert_eq!(auth.lockout_end(CLIENT), None);
    auth.record_failed_attempt_at(CLIENT, 200);
    assert_eq!(auth.lockout_end(CLIENT), Some(2000));
    assert_eq!(
        auth.verify_master_password_at(CLIENT, "abc12345", None, 1999),
        Err(AuthError::AccountLocked(2000))
    );
    assert_eq!(auth.verify_master_password_at(CLIENT, "abc12345", None, 2000), Ok(false));
}

#[test]
fn lockout_end_saturates() {
    let mut auth = AuthService::new();
    for _ in 0..5 {
        auth.record_failed_attempt_at(CLIENT, u64::MAX - 10);
    }
    assert_eq!(auth.lockout_end(CLIENT), Some(u64::MAX));
}
