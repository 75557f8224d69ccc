use vstd::prelude::*;

verus! {

/// AES-128 key size = 16 bytes.
pub const KEY_LEN: usize = 16;

/// Authentication tag length = 16 bytes.
pub const TAG_LEN: usize = 16;

// OCB's init entry point only accepts this value.
/// Nonce length = 12 bytes.
pub const NONCE_LEN: usize = 12;

} // verus!
