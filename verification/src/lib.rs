//! A confidential, authenticated, bidirectional text channel between exactly
//! two peers over a raw byte stream: an ephemeral Diffie-Hellman handshake
//! derives a shared secret without prior key material, and a length-framed,
//! per-message-nonce authenticated-encryption protocol turns that secret
//! into a stream of confidential, tamper-evident messages.
//!
//! Transport acquisition (dialling, listening), console input and output,
//! and argument handling live outside this crate; the protocol core here
//! works on plain byte values that such collaborators hand it.

pub mod channel;
pub mod codec;
pub mod errors;
pub mod handshake;
pub mod session;
