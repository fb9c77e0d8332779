use argon2::password_hash::{Error as PhcError, PasswordHash, PasswordHasher, PasswordVerifier, SaltString};
use argon2::Argon2;
use vstd::prelude::*;
use vstd::string::StringSliceAdditionalSpecFns;

use crate::auth::AuthService;
use crate::error::AuthError;
use crate::random::draw_random_bytes;

verus! {

/// Minimum length of a master password, in bytes.
pub const MIN_PASSWORD_BYTES: usize = 8;

/// Longest password Argon2 hashes, in bytes.
pub const MAX_PASSWORD_BYTES: usize = 0xFFFF_FFFF;

/// Length of the random salt drawn for each new hash, in bytes.
pub const SALT_BYTES: usize = 16;

/// Shortest salt Argon2 takes, in bytes.
pub const MIN_SALT_BYTES: usize = 8;

/// Longest salt whose B64 text fits a PHC salt field (64 characters), in bytes.
pub const MAX_SALT_BYTES: usize = 48;

/// The PHC string that Argon2 with default parameters gives for `password`
/// hashed under the salt `salt`.
pub uninterp spec fn argon2_phc_of(password: Seq<u8>, salt: Seq<u8>) -> Seq<char>;

/// What `char::is_alphabetic` returns for `c` (the Unicode Alphabetic property).
pub uninterp spec fn char_is_alphabetic(c: char) -> bool;

/// What `char::is_numeric` returns for `c` (the Unicode Numeric categories).
pub uninterp spec fn char_is_numeric(c: char) -> bool;

/// Whether `PasswordHash::new` accepts `s` as a PHC string.
pub uninterp spec fn phc_parses(s: Seq<char>) -> bool;

/// Whether Argon2 verification of `password` against the PHC string `phc` succeeds.
pub uninterp spec fn argon2_accepts(password: Seq<u8>, phc: Seq<char>) -> bool;

/// Relies on `char::is_alphabetic`: whether `c` has the Unicode Alphabetic
/// property, which every ASCII letter has.
#[verifier::external_body]
fn is_alphabetic(c: char) -> (r: bool)
    ensures
        r == char_is_alphabetic(c),
        ('a' <= c && c <= 'z') || ('A' <= c && c <= 'Z') ==> r,
{
    c.is_alphabetic()
}

/// Relies on `char::is_numeric`: whether `c` is in a Unicode number
/// category, as every ASCII digit (category Nd) is.
#[verifier::external_body]
fn is_numeric(c: char) -> (r: bool)
    ensures
        r == char_is_numeric(c),
        '0' <= c && c <= '9' ==> r,
{
    c.is_numeric()
}

#[verifier::external_type_specification]
#[verifier::external_body]
pub struct ExPhcError(PhcError);

/// Relies on `SaltString::encode_b64`, which turns the salt bytes into the
/// B64 salt text that hashing takes, and on `PasswordHasher::hash_password`
/// of `Argon2::default()` with the PHC string rendering of its result.
/// Hashing fails only for a password over `MAX_PASSWORD_BYTES` (argon2's
/// input check); salts in the admitted range encode and pass that check.
/// The crate documents the round trip: a string so produced parses with
/// `PasswordHash::new`, and `verify_password` with the same password
/// succeeds on it.
#[verifier::external_body]
fn argon2_hash(password: &[u8], salt: &[u8]) -> (r: Result<String, PhcError>)
    requires
        MIN_SALT_BYTES <= salt@.len() <= MAX_SALT_BYTES,
    ensures
        r is Ok <==> password@.len() <= MAX_PASSWORD_BYTES,
        r matches Ok(h) ==> h@ == argon2_phc_of(password@, salt@) && phc_parses(h@)
            && argon2_accepts(password@, h@),
{
    match SaltString::encode_b64(salt) {
        Ok(salt) => match Argon2::default().hash_password(password, &salt) {
            Ok(hash) => Ok(hash.to_string()),
            Err(e) => Err(e),
        },
        Err(e) => Err(e),
    }
}

/// Relies on `PasswordHash::new`, which parses `stored` as a PHC string, and
/// on `PasswordVerifier::verify_password` of `Argon2::default()`, which
/// recomputes the hash of `password` with the salt and parameters of the
/// parsed string and compares.
#[verifier::external_body]
fn argon2_verify(password: &[u8], stored: &str) -> (r: Result<bool, PhcError>)
    ensures
        r is Ok <==> phc_parses(stored@),
        r matches Ok(accepted) ==> accepted == argon2_accepts(password@, stored@),
{
    match PasswordHash::new(stored) {
        Ok(parsed) => Ok(Argon2::default().verify_password(password, &parsed).is_ok()),
        Err(e) => Err(e),
    }
}

/// Some character of `p` is alphabetic.
pub open spec fn has_letter(p: Seq<char>) -> bool {
    exists|i: int| 0 <= i < p.len() && char_is_alphabetic(#[trigger] p[i])
}

/// Some character of `p` is numeric.
pub open spec fn has_number(p: Seq<char>) -> bool {
    exists|i: int| 0 <= i < p.len() && char_is_numeric(#[trigger] p[i])
}

/// The strength policy on a password's byte length and character classes.
pub open spec fn meets_policy(byte_len: nat, letter: bool, number: bool) -> bool {
    byte_len >= MIN_PASSWORD_BYTES && letter && number
}

/// Whether `p` is acceptable as a master password: at least eight bytes,
/// with at least one alphabetic and one numeric character.
pub open spec fn is_strong_password(p: &str) -> bool {
    meets_policy(p.len() as nat, has_letter(p@), has_number(p@))
}

/// `s` is a stored hash of `password`: it parses, and Argon2 accepts the
/// password against it.
pub open spec fn is_hash_of(s: Seq<char>, password: Seq<u8>) -> bool {
    phc_parses(s) && argon2_accepts(password, s)
}

/// Decides the strength policy from a password's byte length and whether
/// it holds a letter and a number.
pub fn check_password_policy(byte_len: usize, letter: bool, number: bool) -> (r: Result<(), AuthError>)
    ensures
        r is Ok <==> meets_policy(byte_len as nat, letter, number),
        r matches Err(e) ==> e == AuthError::WeakPassword,
{
    if byte_len < MIN_PASSWORD_BYTES {
        return Err(AuthError::WeakPassword);
    }
    if !letter || !number {
        return Err(AuthError::WeakPassword);
    }
    Ok(())
}

/// Whether Argon2 hashes `password` under a salt of `salt_len` bytes.
pub open spec fn hashable(password: Seq<u8>, salt_len: nat) -> bool {
    MIN_SALT_BYTES <= salt_len <= MAX_SALT_BYTES && password.len() <= MAX_PASSWORD_BYTES
}

/// Hashes `password` with Argon2 under the salt `salt`, giving its PHC
/// string, or `HashFailed` when the salt or password length is out of range.
pub fn hash_password_with_salt(password: &str, salt: &[u8]) -> (r: Result<String, AuthError>)
    ensures
        r is Ok <==> hashable(password.spec_bytes(), salt@.len()),
        r matches Ok(h) ==> h@ == argon2_phc_of(password.spec_bytes(), salt@)
            && is_hash_of(h@, password.spec_bytes()),
        r matches Err(e) ==> e == AuthError::HashFailed,
{
    if salt.len() < MIN_SALT_BYTES || salt.len() > MAX_SALT_BYTES {
        return Err(AuthError::HashFailed);
    }
    match argon2_hash(password.as_bytes(), salt) {
        Ok(h) => Ok(h),
        Err(_) => Err(AuthError::HashFailed),
    }
}

/// `s` is the hash of `password` under some salt of the drawn length.
pub open spec fn is_salted_hash_of(s: Seq<char>, password: Seq<u8>) -> bool {
    exists|salt: Seq<u8>| salt.len() == SALT_BYTES && s == argon2_phc_of(password, salt)
}

/// Hashes `password` with Argon2 under a salt freshly drawn from the
/// system's secure generator, giving the PHC string to store as the
/// master-password hash. Fails only when the generator fails or the
/// password is too long to hash.
pub fn hash_password(password: &str) -> (r: Result<String, AuthError>)
    ensures
        r matches Ok(h) ==> is_hash_of(h@, password.spec_bytes())
            && is_salted_hash_of(h@, password.spec_bytes()),
        password.spec_bytes().len() <= MAX_PASSWORD_BYTES
            ==> r is Ok || r == Err::<String, AuthError>(AuthError::RandomUnavailable),
        r matches Err(e) ==> e == AuthError::RandomUnavailable || e == AuthError::HashFailed,
{
    let (salt, filled) = draw_random_bytes(SALT_BYTES);
    if !filled {
        return Err(AuthError::RandomUnavailable);
    }
    hash_password_with_salt(password, salt.as_slice())
}

/// Checks `password` against the stored PHC string `stored`: `Ok(accepted)`
/// when `stored` parses, `CorruptConfiguration` when it does not.
pub fn check_password(password: &str, stored: &str) -> (r: Result<bool, AuthError>)
    ensures
        r is Ok <==> phc_parses(stored@),
        r matches Ok(accepted) ==> accepted == argon2_accepts(password.spec_bytes(), stored@),
        r matches Err(e) ==> e == AuthError::CorruptConfiguration,
{
    match argon2_verify(password.as_bytes(), stored) {
        Ok(accepted) => Ok(accepted),
        Err(_) => Err(AuthError::CorruptConfiguration),
    }
}

impl AuthService {
    /// Checks the strength policy on `password`.
    pub fn validate_password_strength(&self, password: &str) -> (r: Result<(), AuthError>)
        ensures
            r is Ok <==> is_strong_password(password),
            r matches Err(e) ==> e == AuthError::WeakPassword,
    {
        let mut letter = false;
        let mut number = false;
        for c in it: password.chars()
            invariant
                it.seq() == password@,
                letter <==> exists|i: int| 0 <= i < it.index() && char_is_alphabetic(#[trigger] password@[i]),
                number <==> exists|i: int| 0 <= i < it.index() && char_is_numeric(#[trigger] password@[i]),
        {
            if is_alphabetic(c) {
                letter = true;
            }
            if is_numeric(c) {
                number = true;
            }
        }
        assert(letter == has_letter(password@));
        assert(number == has_number(password@));
        check_password_policy(password.len(), letter, number)
    }

    /// Checks the strength policy on `password` and, when it holds, hashes
    /// it under the salt `salt`.
    pub fn set_master_password_with_salt(&self, password: &str, salt: &[u8]) -> (r: Result<String, AuthError>)
        ensures
            !is_strong_password(password) ==> r == Err::<String, AuthError>(AuthError::WeakPassword),
            is_strong_password(password) && hashable(password.spec_bytes(), salt@.len()) ==> (r matches Ok(h)
                && h@ == argon2_phc_of(password.spec_bytes(), salt@)
                && is_hash_of(h@, password.spec_bytes())),
            is_strong_password(password) && !hashable(password.spec_bytes(), salt@.len())
                ==> r == Err::<String, AuthError>(AuthError::HashFailed),
    {
        self.validate_password_strength(password)?;
        hash_password_with_salt(password, salt)
    }

    /// Checks the strength policy on `password` and, when it holds, hashes
    /// it under a freshly drawn salt. The returned PHC string is what the
    /// store keeps as the master-password hash, replacing any earlier one.
    /// A strong password fails only when the generator fails.
    pub fn set_master_password(&self, password: &str) -> (r: Result<String, AuthError>)
        ensures
            r == Err::<String, AuthError>(AuthError::WeakPassword) <==> !is_strong_password(password),
            is_strong_password(password) && password.spec_bytes().len() <= MAX_PASSWORD_BYTES
                ==> r is Ok || r == Err::<String, AuthError>(AuthError::RandomUnavailable),
            r matches Ok(h) ==> is_hash_of(h@, password.spec_bytes())
                && is_salted_hash_of(h@, password.spec_bytes()),
            r matches Err(e) ==> e == AuthError::WeakPassword || e == AuthError::RandomUnavailable
                || e == AuthError::HashFailed,
    {
        self.validate_password_strength(password)?;
        let (salt, filled) = draw_random_bytes(SALT_BYTES);
        if !filled {
            return Err(AuthError::RandomUnavailable);
        }
        self.set_master_password_with_salt(password, salt.as_slice())
    }
}

} // verus!
