use vault_auth::password::{check_password, check_password_policy, hash_password, hash_password_with_salt};
use vault_auth::{AuthError, AuthService};

#[test]
fn short_password_is_weak() {
    let auth = AuthService::new();
    assert_eq!(auth.set_master_password("abc1234"), Err(AuthError::WeakPassword));
    assert_eq!(auth.set_master_password(""), Err(AuthError::WeakPassword));
    assert_eq!(auth.set_master_password("a1"), Err(AuthError::WeakPassword));
}

#[test]
fn password_without_digit_is_weak() {
    let auth = AuthService::new();
    assert_eq!(auth.set_master_password("abcdefgh"), Err(AuthError::WeakPassword));
    assert_eq!(auth.set_master_password("only letters here"), Err(AuthError::WeakPassword));
}

#[test]
fn password_without_letter_is_weak() {
    let auth = AuthService::new();
    assert_eq!(auth.set_master_password("12345678"), Err(AuthError::WeakPassword));
    assert_eq!(auth.set_master_password("1234 5678 !!"), Err(AuthError::WeakPassword));
}

#[test]
fn minimal_strong_password_is_accepted() {
    let auth = AuthService::new();
    let hash = auth.set_master_password("abc12345").expect("strong password");
    assert!(hash.starts_with("$argon2id$"));
    assert_eq!(check_password("abc12345", &hash), Ok(true));
}

#[test]
fn length_counts_bytes() {
    let auth = AuthService::new();
    // five characters, ten bytes: long enough
    assert_eq!(auth.validate_password_strength("пар12"), Ok(()));
    // seven ASCII bytes: too short
    assert_eq!(auth.validate_password_strength("pass123"), Err(AuthError::WeakPassword));
    assert_eq!(auth.validate_password_strength("pass1234"), Ok(()));
}

#[test]
fn unicode_letters_and_numerals_count() {
    let auth = AuthService::new();
    assert_eq!(auth.validate_password_strength("ßßßßßßß٣"), Ok(()));
    assert_eq!(auth.validate_password_strength("!!!!!!!!٣"), Err(AuthError::WeakPassword));
}

#[test]
fn policy_verdict_on_given_values() {
    assert_eq!(check_password_policy(8, true, true), Ok(()));
    assert_eq!(check_password_policy(100, true, true), Ok(()));
    assert_eq!(check_password_policy(7, true, true), Err(AuthError::WeakPassword));
    assert_eq!(check_password_policy(8, false, true), Err(AuthError::WeakPassword));
    assert_eq!(check_password_policy(8, true, false), Err(AuthError::WeakPassword));
    assert_eq!(check_password_policy(0, false, false), Err(AuthError::WeakPassword));
}

#[test]
fn hashes_are_salted_and_verify() {
    let first = hash_password("correct horse 1").unwrap();
    let second = hash_password("correct horse 1").unwrap();
    assert_ne!(first, second);
    assert_eq!(check_password("correct horse 1", &first), Ok(true));
    assert_eq!(check_password("correct horse 1", &second), Ok(true));
    assert_eq!(check_password("correct horse 2", &first), Ok(false));
}

#[test]
fn malformed_hash_is_corrupt_configuration() {
    assert_eq!(check_password("abc12345", "not a hash"), Err(AuthError::CorruptConfiguration));
    assert_eq!(check_password("abc12345", ""), Err(AuthError::CorruptConfiguration));
}

#[test]
fn hash_with_given_salt_is_determined_by_it() {
    let salt = [0u8; 16];
    let a = hash_password_with_salt("abc12345", &salt).unwrap();
    let b = hash_password_with_salt("abc12345", &salt).unwrap();
    assert_eq!(a, b);
    assert!(a.contains("$AAAAAAAAAAAAAAAAAAAAAA$"));
    assert_eq!(check_password("abc12345", &a), Ok(true));
    let c = hash_password_with_salt("abc12345", &[1u8; 16]).unwrap();
    assert_ne!(a, c);
    assert_eq!(check_password("abc12345", &c), Ok(true));
}

#[test]
fn salt_length_out_of_range_fails() {
    assert_eq!(hash_password_with_salt("abc12345", &[7u8; 7]), Err(AuthError::HashFailed));
    assert_eq!(hash_password_with_salt("abc12345", &[7u8; 49]), Err(AuthError::HashFailed));
    assert_eq!(hash_password_with_salt("abc12345", &[]), Err(AuthError::HashFailed));
    assert!(hash_password_with_salt("abc12345", &[7u8; 8]).is_ok());
    assert!(hash_password_with_salt("abc12345", &[7u8; 48]).is_ok());
}

#[test]
fn set_with_salt_follows_policy() {
    let auth = AuthService::new();
    let salt = [9u8; 16];
    assert_eq!(auth.set_master_password_with_salt("abcdefgh", &salt), Err(AuthError::WeakPassword));
    let h = auth.set_master_password_with_salt("abc12345", &salt).unwrap();
    assert_eq!(Ok(h), hash_password_with_salt("abc12345", &salt));
    assert_eq!(auth.set_master_password_with_salt("abc12345", &[9u8; 4]), Err(AuthError::HashFailed));
}
