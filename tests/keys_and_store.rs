use vault_auth::derive_encryption_key;
use vault_auth::store::{pending_migrations, search_pattern, vault_file_name};
use vault_auth::GeneratorOptions;

#[test]
fn key_derivation_is_deterministic() {
    let a = derive_encryption_key("correct1");
    let b = derive_encryption_key("correct1");
    assert_eq!(a, b);
    assert_eq!(a.len(), 32);
}

#[test]
fn key_derivation_known_values() {
    assert_eq!(
        hex::encode(derive_encryption_key("correct1")),
        "071a053f4f9108fca1010e3bac75abaffc7b9f6d0d023b5309c5da281972eb77"
    );
    assert_eq!(
        hex::encode(derive_encryption_key("wrong1234")),
        "eb83fe4df9f776166cd8ce214a2701690e02eb3c8840917f910d06705b59a449"
    );
    assert_eq!(
        hex::encode(derive_encryption_key("")),
        "32218a951275d47380c38c88285057a6b25b656363131ae1317d80034426c185"
    );
}

#[test]
fn different_passwords_give_different_keys() {
    assert_ne!(derive_encryption_key("correct1"), derive_encryption_key("wrong1234"));
}

#[test]
fn vault_names_carry_the_timestamp() {
    assert_eq!(vault_file_name(1700000000), "vault_1700000000.db");
    assert_eq!(vault_file_name(0), "vault_0.db");
    assert_eq!(vault_file_name(u64::MAX), "vault_18446744073709551615.db");
}

#[test]
fn search_pattern_wraps_query() {
    assert_eq!(search_pattern("mail"), "%mail%");
    assert_eq!(search_pattern(""), "%%");
}

#[test]
fn pending_migrations_from_versions() {
    assert_eq!(pending_migrations(0, 7), vec![1, 2, 3, 4, 5, 6, 7]);
    assert_eq!(pending_migrations(3, 7), vec![4, 5, 6, 7]);
    assert_eq!(pending_migrations(7, 7), Vec::<i64>::new());
    assert_eq!(pending_migrations(9, 7), Vec::<i64>::new());
    assert_eq!(pending_migrations(-1, 3), vec![1, 2, 3]);
    assert_eq!(pending_migrations(0, 0), Vec::<i64>::new());
}

#[test]
fn generator_defaults() {
    let o = GeneratorOptions::default();
    assert!(o.include_uppercase && o.include_lowercase && o.include_numbers);
    assert!(!o.include_symbols);
    assert!(o.exclude_ambiguous);
}
