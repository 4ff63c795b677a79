//! A verified utility library: a binary message protocol with framing and
//! chunked-transfer support, connection retry policies with exponential
//! backoff, command builders, cryptographic helpers, environment and system
//! information readers, and small text utilities.
//!
//! The message protocol is the heart of the crate: every frame is a 9-byte
//! header (one type tag byte, eight big-endian length bytes) followed by
//! exactly that many payload bytes.

pub mod cmd_config;
pub mod command;
pub mod crypto;
pub mod datetime;
pub mod env_config;
pub mod file_watcher;
pub mod http;
pub mod progress;
pub mod protocol;
pub mod serial;
pub mod sysinfo;
pub mod tcp;
pub mod text;
pub mod updater;
pub mod websocket;
