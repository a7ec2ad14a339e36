//! The authenticated-encryption layer. A channel is keyed once from the
//! shared secret — the raw 32 bytes are used directly as the 256-bit AES-GCM
//! key, a deliberate simplification of this protocol (no key-derivation
//! function) — and then seals outgoing plaintexts under fresh random nonces
//! and opens incoming frames, rejecting any whose authentication tag does
//! not verify.
use vstd::prelude::*;

use aes_gcm::aead::{Aead, KeyInit};

use crate::codec::{Frame, MAX_CIPHERTEXT_LEN};
use crate::errors::CryptoError;
use crate::handshake::SharedSecret;

verus! {

/// Largest plaintext one message can carry: its ciphertext, 16 bytes longer,
/// must still fit the frame's 16-bit length field.
pub const MAX_PLAINTEXT_LEN: usize = 65519;

/// Byte length of the authentication tag AES-GCM appends to the plaintext.
pub const TAG_LEN: usize = 16;

/// AES-256-GCM encryption as `aes_gcm::Aes256Gcm` computes it: the
/// ciphertext-with-tag is a function of key, nonce and plaintext alone (no
/// associated data is ever passed on this channel).
pub uninterp spec fn aead_enc(key: Seq<u8>, nonce: Seq<u8>, plaintext: Seq<u8>) -> Seq<u8>;

/// Relies on `aead::Generate` for `[u8; 12]`: 12 bytes drawn from the
/// operating system's secure random source. Nothing is promised of the
/// value; every caller must hold for every outcome.
#[verifier::external_body]
fn generate_nonce() -> (r: [u8; 12]) {
    let nonce: [u8; 12] = aes_gcm::aead::Generate::generate();
    nonce
}

/// Relies on `aead::Aead::encrypt` on `aes_gcm::Aes256Gcm`: the result is
/// the ciphertext of the plaintext followed by the 16-byte authentication
/// tag, deterministic in key, nonce and plaintext; the cipher rejects only
/// plaintexts past 2^36 bytes, far above the bound required here, so the
/// call cannot fail.
#[verifier::external_body]
fn aead_encrypt(key: &[u8; 32], nonce: &[u8; 12], plaintext: &[u8]) -> (r: Vec<u8>)
    requires
        plaintext@.len() <= MAX_PLAINTEXT_LEN,
    ensures
        r@ == aead_enc(key@, nonce@, plaintext@),
        r@.len() == plaintext@.len() + TAG_LEN,
{
    let cipher = aes_gcm::Aes256Gcm::new(&(*key).into());
    let nonce_arr: &aes_gcm::Nonce<_> = nonce.into();
    match cipher.encrypt(nonce_arr, plaintext) {
        Ok(ciphertext) => ciphertext,
        Err(_) => Vec::new(),
    }
}

/// Relies on `aead::Aead::decrypt` on `aes_gcm::Aes256Gcm`: decryption
/// succeeds exactly on ciphertexts that AES-256-GCM encryption of some
/// plaintext under this key and nonce produces, and then returns that
/// plaintext; on any other input the tag comparison fails and the call
/// returns an error.
#[verifier::external_body]
fn aead_decrypt(key: &[u8; 32], nonce: &[u8; 12], ciphertext: &[u8]) -> (r: Option<Vec<u8>>)
    requires
        ciphertext@.len() <= MAX_CIPHERTEXT_LEN,
    ensures
        forall|p: Seq<u8>| ciphertext@ == aead_enc(key@, nonce@, p) ==> r is Some && r->0@ == p,
        r is Some ==> ciphertext@ == aead_enc(key@, nonce@, r->0@),
        r is Some ==> r->0@.len() + TAG_LEN == ciphertext@.len(),
{
    let cipher = aes_gcm::Aes256Gcm::new(&(*key).into());
    let nonce_arr: &aes_gcm::Nonce<_> = nonce.into();
    match cipher.decrypt(nonce_arr, ciphertext) {
        Ok(plaintext) => Some(plaintext),
        Err(_) => None,
    }
}

/// One AEAD context for a connection, keyed from the handshake's shared
/// secret and then immutable: both directions seal and open under it, and
/// each call supplies its own nonce explicitly.
pub struct SecureChannel {
    key: [u8; 32],
}

impl SecureChannel {
    /// The 256-bit key, visible to specifications only.
    pub closed spec fn key_view(&self) -> Seq<u8> {
        self.key@
    }

    /// Keys the channel: the shared secret's raw bytes become the AES-256
    /// key, and the secret is consumed — the channel owns it from here on.
    pub fn new(secret: SharedSecret) -> (r: SecureChannel)
        ensures
            r.key_view() == secret@,
    {
        SecureChannel { key: secret.into_bytes() }
    }

    /// Seals one outgoing plaintext: generates a fresh random 12-byte nonce
    /// and authenticates-and-encrypts the plaintext under it, with no
    /// associated data. Fails exactly when the plaintext exceeds the 16-bit
    /// length budget.
    pub fn seal(&self, plaintext: &[u8]) -> (r: Result<Frame, CryptoError>)
        ensures
            r is Ok <==> plaintext@.len() <= MAX_PLAINTEXT_LEN,
            r is Ok ==> r->Ok_0.ciphertext@ == aead_enc(self.key_view(), r->Ok_0.nonce@, plaintext@),
            r is Ok ==> r->Ok_0.ciphertext@.len() == plaintext@.len() + TAG_LEN && r->Ok_0.wf(),
            r is Err ==> r->Err_0 == CryptoError::OversizedPlaintext,
    {
        if plaintext.len() > MAX_PLAINTEXT_LEN {
            return Err(CryptoError::OversizedPlaintext);
        }
        let nonce = generate_nonce();
        let ciphertext = aead_encrypt(&self.key, &nonce, plaintext);
        Ok(Frame { nonce, ciphertext })
    }

    /// Opens one incoming frame: decrypts and verifies its ciphertext under
    /// the channel key and the frame's own nonce. Succeeds exactly on
    /// frames whose ciphertext is a genuine sealing of some plaintext under
    /// this key and that nonce, and then returns that plaintext; a frame
    /// altered in any way fails verification, which is fatal for the
    /// message but recoverable for the caller.
    pub fn open(&self, frame: &Frame) -> (r: Result<Vec<u8>, CryptoError>)
        requires
            frame.wf(),
        ensures
            forall|p: Seq<u8>|
                frame.ciphertext@ == aead_enc(self.key_view(), frame.nonce@, p) ==> r is Ok
                    && r->Ok_0@ == p,
            r is Ok ==> frame.ciphertext@ == aead_enc(self.key_view(), frame.nonce@, r->Ok_0@),
            r is Err ==> r->Err_0 == CryptoError::AuthenticationFailure,
    {
        match aead_decrypt(&self.key, &frame.nonce, frame.ciphertext.as_slice()) {
            Some(plaintext) => Ok(plaintext),
            None => Err(CryptoError::AuthenticationFailure),
        }
    }

    /// Seal/open round-trip: any plaintext within the length budget, sealed
    /// and then opened under one channel, comes back unchanged. Verus proves
    /// this from the contracts of `seal` and `open` alone; the function
    /// exists to state it.
    pub fn seal_open_round_trip(&self, plaintext: &[u8]) -> (r: Vec<u8>)
        requires
            plaintext@.len() <= MAX_PLAINTEXT_LEN,
        ensures
            r@ == plaintext@,
    {
        let frame = match self.seal(plaintext) {
            Ok(frame) => frame,
            Err(_) => {
                return Vec::new();
            },
        };
        match self.open(&frame) {
            Ok(recovered) => recovered,
            Err(_) => Vec::new(),
        }
    }
}

} // verus!
