//! Host-side logic for the ET312B serial-line protocol: the additive
//! checksum and key-based XOR obfuscation applied to outgoing bytes, the
//! wire-frame codec, and the session exchanges (handshake, key exchange,
//! register read and write).
//!
//! All transport I/O is left to the caller: each exchange is exposed as a
//! pair of functions, one that produces the exact bytes to write and one
//! that interprets the bytes read back.

pub mod codec;
pub mod errors;
pub mod session;
pub mod utils;
