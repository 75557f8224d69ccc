use vstd::prelude::*;

verus! {

/// Engine status code: the operation succeeded.
pub const AE_SUCCESS: i32 = 0;

/// Engine status code: a parameter was rejected at initialization, or —
/// far more commonly — an authentication tag failed to verify.
pub const AE_INVALID: i32 = -1;

/// Engine status code: the requested algorithm parameters are not
/// supported by this build of the engine.
pub const AE_NOT_SUPPORTED: i32 = -2;

/// Errors the library can produce.
#[derive(Copy, Clone, Debug, PartialEq, Eq, PartialOrd, Ord, Hash)]
pub enum Error {
    /// Authentication failed (tampered or corrupted ciphertext, wrong key,
    /// wrong nonce, or wrong associated data), or an initialization
    /// parameter was rejected as invalid.
    InvalidTag,
    /// The requested algorithm parameters are not supported by this build
    /// of the engine.
    NotSupported,
    /// The nonce source was exhausted before encryption.
    NonceNotAvailable,
    /// Any other negative engine status, preserved for diagnostics.
    Other(i32),
}

/// Classify a raw engine status code into the typed error taxonomy:
/// the reserved "invalid" code becomes `InvalidTag`, the reserved
/// "not supported" code becomes `NotSupported`, any other negative code
/// is preserved as `Other`, and non-negative codes pass through as the
/// success length or value.
pub fn check(x: i32) -> (r: Result<i32, Error>)
    ensures
        x == AE_INVALID ==> r == Err::<i32, Error>(Error::InvalidTag),
        x == AE_NOT_SUPPORTED ==> r == Err::<i32, Error>(Error::NotSupported),
        x < 0 && x != AE_INVALID && x != AE_NOT_SUPPORTED ==> r == Err::<i32, Error>(
            Error::Other(x),
        ),
        0 <= x ==> r == Ok::<i32, Error>(x),
{
    if x == AE_INVALID {
        Err(Error::InvalidTag)
    } else if x == AE_NOT_SUPPORTED {
        Err(Error::NotSupported)
    } else if x < 0 {
        Err(Error::Other(x))
    } else {
        Ok(x)
    }
}

} // verus!
