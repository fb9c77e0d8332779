use sha2::{Digest, Sha256};
use vstd::prelude::*;
use vstd::string::StringSliceAdditionalSpecFns;

verus! {

/// Application-wide salt appended to the password before hashing.
pub const KEY_SALT: &'static str = "vault-encryption-key-salt";

/// Length of a derived store key, in bytes.
pub const KEY_BYTES: usize = 32;

/// The SHA-256 digest of `data`.
pub uninterp spec fn sha256_of(data: Seq<u8>) -> Seq<u8>;

/// Relies on `sha2::Sha256::digest`: the SHA-256 digest of `data`, whose
/// output size is 32 bytes.
#[verifier::external_body]
fn sha256(data: &[u8]) -> (r: Vec<u8>)
    ensures
        r@ == sha256_of(data@),
        r@.len() == KEY_BYTES,
{
    Sha256::digest(data).to_vec()
}

/// The store key for a password given as UTF-8 bytes: the SHA-256 digest
/// of the password followed by the fixed salt.
pub open spec fn derived_key(password: Seq<u8>) -> Seq<u8> {
    sha256_of(password + KEY_SALT.spec_bytes())
}

/// Derives the symmetric key of the encrypted store from the master password.
pub fn derive_encryption_key(master_password: &str) -> (r: Vec<u8>)
    ensures
        r@ == derived_key(master_password.spec_bytes()),
        r@.len() == KEY_BYTES,
{
    let mut data: Vec<u8> = Vec::new();
    data.extend_from_slice(master_password.as_bytes());
    data.extend_from_slice(KEY_SALT.as_bytes());
    assert(data@ =~= master_password.spec_bytes() + KEY_SALT.spec_bytes());
    sha256(data.as_slice())
}

/// Passwords with the same text derive the same key.
pub proof fn lemma_key_derivation_deterministic(a: &str, b: &str)
    requires
        a@ == b@,
    ensures
        derived_key(a.spec_bytes()) == derived_key(b.spec_bytes()),
{
}

} // verus!
