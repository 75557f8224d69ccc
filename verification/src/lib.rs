//! A safe, misuse-resistant interface to an OCB-mode AEAD engine.
//!
//! The verified core: the key, nonce and counter data types with their
//! secrecy and sequencing contracts, the classification of raw engine
//! status codes into a typed error taxonomy, and the length bookkeeping
//! of the encrypt/decrypt operations. The native engine itself is an
//! external collaborator reached over a C ABI; the unverified context
//! that drives it lives outside this crate and hands it plain values
//! checked here.

mod aead;
mod error;
mod key;
mod nonce;
mod params;

pub use crate::aead::ciphertext_len;
pub use crate::aead::nonce_or_error;
pub use crate::aead::plaintext_len;
pub use crate::error::AE_INVALID;
pub use crate::error::AE_NOT_SUPPORTED;
pub use crate::error::AE_SUCCESS;
pub use crate::error::Error;
pub use crate::error::check;
pub use crate::key::Key;
pub use crate::key::all_zero;
pub use crate::nonce::Counter;
pub use crate::nonce::Nonce;
pub use crate::nonce::counter_mod;
pub use crate::nonce::le_val;
pub use crate::nonce::lemma_le_val_injective;
pub use crate::nonce::pow256;
pub use crate::params::KEY_LEN;
pub use crate::params::NONCE_LEN;
pub use crate::params::TAG_LEN;
