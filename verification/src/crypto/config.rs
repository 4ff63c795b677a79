//! Shared cryptographic parameters.

use vstd::prelude::*;

verus! {

/// Default RSA key length in bits.
pub const RSA_DEFAULT_BITS: usize = 2048;

/// Smallest accepted RSA key length in bits.
pub const RSA_MIN_BITS: usize = 1024;

/// Largest accepted RSA key length in bits.
pub const RSA_MAX_BITS: usize = 4096;

/// AES key length in bytes (32 bytes selects AES-256).
pub const AES_KEY_SIZE: usize = 32;

/// AES-GCM nonce length in bytes.
pub const AES_GCM_NONCE_SIZE: usize = 12;

/// AES-CBC initialization vector length in bytes.
pub const AES_CBC_IV_SIZE: usize = 16;

/// Whether hash digests are rendered in uppercase hexadecimal.
pub const HASH_UPPERCASE: bool = false;

} // verus!
