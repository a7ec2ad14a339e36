use vstd::prelude::*;

verus! {

/// The peer's key material could not be read in full: the handshake expects
/// exactly 32 bytes of public key, and any other count is fatal.
#[derive(Clone, Copy, Debug, PartialEq, Eq, Structural)]
pub enum HandshakeError {
    WrongKeyLength,
}

/// A wire frame was inconsistent with the bytes actually available: one of
/// its three segments (nonce, length field, ciphertext) was cut short.
#[derive(Clone, Copy, Debug, PartialEq, Eq, Structural)]
pub enum FramingError {
    TruncatedNonce,
    TruncatedLength,
    TruncatedCiphertext,
}

/// A failure of the authenticated-encryption layer: a plaintext too large
/// for the 16-bit length budget, a ciphertext whose authentication tag does
/// not verify, or decrypted bytes that are not valid UTF-8 text.
#[derive(Clone, Copy, Debug, PartialEq, Eq, Structural)]
pub enum CryptoError {
    OversizedPlaintext,
    AuthenticationFailure,
    InvalidUtf8,
}

} // verus!
