use ring::error::Unspecified;
use ring::rand::{SecureRandom, SystemRandom};
use vstd::prelude::*;

verus! {

#[verifier::external_type_specification]
#[verifier::external_body]
pub struct ExUnspecified(Unspecified);

/// Relies on `ring::rand::SystemRandom::fill`: overwrites `dest` with bytes
/// from the operating system's secure generator, keeping its length, or
/// reports that the generator failed. It does not panic.
#[verifier::external_body]
fn fill_random(dest: &mut [u8]) -> (r: Result<(), Unspecified>)
    ensures
        final(dest)@.len() == old(dest)@.len(),
{
    SystemRandom::new().fill(dest)
}

/// Draws `n` bytes from the system's secure generator. Returns the buffer
/// and whether the generator filled it; when it did not, the content of the
/// buffer is unspecified and must not be used.
pub fn draw_random_bytes(n: usize) -> (r: (Vec<u8>, bool))
    ensures
        r.0@.len() == n,
{
    let mut bytes: Vec<u8> = vec![0u8; n];
    let filled = fill_random(bytes.as_mut_slice()).is_ok();
    (bytes, filled)
}

} // verus!
