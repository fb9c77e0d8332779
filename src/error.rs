use vstd::prelude::*;

verus! {

/// Failures reported by the authentication subsystem.
#[derive(Debug, Clone, Copy, PartialEq, Eq, Structural)]
pub enum AuthError {
    /// The password is shorter than eight bytes or lacks a letter or a digit.
    WeakPassword,
    /// Too many consecutive failed verifications; verification is refused
    /// until the Unix time (seconds) held here.
    AccountLocked(u64),
    /// The stored master-password hash is not a well-formed PHC string.
    CorruptConfiguration,
    /// The password hasher reported an error while hashing.
    HashFailed,
    /// The system random number generator could not produce bytes.
    RandomUnavailable,
}

} // verus!
