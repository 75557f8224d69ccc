use vstd::prelude::*;
use crate::error::Error;
use crate::nonce::Nonce;
use crate::params::TAG_LEN;

verus! {

/// Output length of an encryption: the tag is appended to the ciphertext,
/// so the output holds the plaintext length plus `TAG_LEN` bytes. The sum
/// must fit in `usize`, a machine limit.
pub fn ciphertext_len(plaintext_len: usize) -> (n: usize)
    requires
        plaintext_len + TAG_LEN <= usize::MAX,
    ensures
        n == plaintext_len + TAG_LEN,
{
    plaintext_len + TAG_LEN
}

/// Output length of a decryption: the tag is stripped from the ciphertext
/// edge, so the output holds `TAG_LEN` bytes fewer. A ciphertext shorter
/// than the tag is a caller logic error, ruled out up front rather than
/// classified at run time.
pub fn plaintext_len(ciphertext_len: usize) -> (n: usize)
    requires
        TAG_LEN <= ciphertext_len,
    ensures
        n == ciphertext_len - TAG_LEN,
{
    ciphertext_len - TAG_LEN
}

/// The decision at the head of an encryption: a nonce drawn from the
/// source goes through unchanged; an exhausted source fails with
/// `NonceNotAvailable` before the engine is ever touched.
pub fn nonce_or_error(drawn: Option<Nonce>) -> (r: Result<Nonce, Error>)
    ensures
        drawn matches Some(n) ==> r == Ok::<Nonce, Error>(n),
        drawn is None ==> r == Err::<Nonce, Error>(Error::NonceNotAvailable),
{
    match drawn {
        Some(n) => Ok(n),
        None => Err(Error::NonceNotAvailable),
    }
}

} // verus!
