//! Cryptographic helpers: symmetric encryption, asymmetric encryption, and
//! message digests, with the framing the library puts around them.

pub mod aes;
pub mod config;
pub mod hash;
pub mod rsa;
