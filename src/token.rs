use vstd::prelude::*;

use crate::error::AuthError;
use crate::random::draw_random_bytes;

verus! {

/// Number of random bytes behind a session token.
pub const SESSION_TOKEN_BYTES: usize = 32;

/// The lowercase hexadecimal digits, in order of value.
pub open spec fn hex_alphabet() -> Seq<char> {
    seq!['0', '1', '2', '3', '4', '5', '6', '7', '8', '9', 'a', 'b', 'c', 'd', 'e', 'f']
}

/// Lowercase hexadecimal text of `b`: two digits per byte, high nibble first.
pub open spec fn hex_of(b: Seq<u8>) -> Seq<char>
    decreases b.len(),
{
    if b.len() == 0 {
        Seq::empty()
    } else {
        seq![hex_alphabet()[b[0] as int / 16], hex_alphabet()[b[0] as int % 16]] + hex_of(b.drop_first())
    }
}

/// Every character of `s` is a lowercase hexadecimal digit.
pub open spec fn is_hex_text(s: Seq<char>) -> bool {
    forall|i: int| 0 <= i < s.len() ==> hex_alphabet().contains(#[trigger] s[i])
}

/// The form of a session token: the hexadecimal text of some 32 bytes.
pub open spec fn is_session_token(s: Seq<char>) -> bool {
    exists|b: Seq<u8>| b.len() == SESSION_TOKEN_BYTES && s == hex_of(b)
}

/// Hexadecimal text has two digits per byte, all of them lowercase hexadecimal.
pub proof fn lemma_hex_of_shape(b: Seq<u8>)
    ensures
        hex_of(b).len() == 2 * b.len(),
        is_hex_text(hex_of(b)),
    decreases b.len(),
{
    if b.len() > 0 {
        lemma_hex_of_shape(b.drop_first());
        let hi = hex_alphabet()[b[0] as int / 16];
        let lo = hex_alphabet()[b[0] as int % 16];
        assert(hex_alphabet().contains(hi)) by {
            assert(hex_alphabet()[b[0] as int / 16] == hi);
        }
        assert(hex_alphabet().contains(lo)) by {
            assert(hex_alphabet()[b[0] as int % 16] == lo);
        }
        let whole = hex_of(b);
        let rest = hex_of(b.drop_first());
        assert forall|i: int| 0 <= i < whole.len() implies hex_alphabet().contains(#[trigger] whole[i]) by {
            if i >= 2 {
                assert(whole[i] == rest[i - 2]);
            }
        }
    }
}

/// Every session token is 64 lowercase hexadecimal digits.
pub proof fn lemma_session_token_shape(s: Seq<char>)
    requires
        is_session_token(s),
    ensures
        s.len() == 2 * SESSION_TOKEN_BYTES,
        is_hex_text(s),
{
    let b = choose|b: Seq<u8>| b.len() == SESSION_TOKEN_BYTES && s == hex_of(b);
    lemma_hex_of_shape(b);
}

/// Relies on `hex::encode`: each byte becomes two lowercase hexadecimal
/// digits, high nibble first.
#[verifier::external_body]
fn to_hex(data: &[u8]) -> (r: String)
    ensures
        r@ == hex_of(data@),
{
    hex::encode(data)
}

/// The session token made of `bytes`: their lowercase hexadecimal text.
pub fn session_token_of(bytes: &[u8]) -> (r: String)
    requires
        bytes@.len() == SESSION_TOKEN_BYTES,
    ensures
        r@ == hex_of(bytes@),
        is_session_token(r@),
{
    to_hex(bytes)
}

/// The token for the outcome of drawing its bytes: the token of `bytes`
/// when the generator `filled` them, `RandomUnavailable` when it failed.
pub fn session_token_from_fill(filled: bool, bytes: &[u8]) -> (r: Result<String, AuthError>)
    requires
        bytes@.len() == SESSION_TOKEN_BYTES,
    ensures
        filled ==> (r matches Ok(t) && t@ == hex_of(bytes@)),
        !filled ==> r == Err::<String, AuthError>(AuthError::RandomUnavailable),
{
    if filled {
        Ok(session_token_of(bytes))
    } else {
        Err(AuthError::RandomUnavailable)
    }
}

/// Draws 32 random bytes and returns them as 64 lowercase hexadecimal digits.
pub fn generate_session_token() -> (r: Result<String, AuthError>)
    ensures
        r matches Ok(t) ==> is_session_token(t@),
        r matches Err(e) ==> e == AuthError::RandomUnavailable,
{
    let (bytes, filled) = draw_random_bytes(SESSION_TOKEN_BYTES);
    session_token_from_fill(filled, bytes.as_slice())
}

} // verus!
