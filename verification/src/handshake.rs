//! The ephemeral key exchange: each peer generates a fresh key pair, writes
//! its 32-byte public key, reads exactly 32 bytes for the peer's public key,
//! and derives the shared secret from own-private and peer-public. The
//! write-then-read order is identical for both roles, so the protocol needs
//! no role-specific branching. The peer's identity is deliberately not
//! authenticated: this is a trust-on-first-use design.
use vstd::prelude::*;

use crate::errors::HandshakeError;

verus! {

/// Byte length of a public key on the wire, and of the derived secret.
pub const KEY_LEN: usize = 32;

/// The X25519 function of RFC 7748 on raw scalar and point bytes, as
/// `x25519_dalek::x25519` computes it: a function of its two arguments
/// alone.
pub uninterp spec fn x25519_of(scalar: Seq<u8>, point: Seq<u8>) -> Seq<u8>;

/// The X25519 base point: the byte 9 followed by 31 zero bytes.
pub open spec fn x25519_base() -> Seq<u8> {
    Seq::new(32, |i: int| if i == 0 { 9u8 } else { 0u8 })
}

/// Relies on `x25519_dalek::StaticSecret::random`: 32 bytes drawn from the
/// operating system's secure random source. Nothing is promised of the
/// value; every caller must hold for every outcome.
#[verifier::external_body]
fn fresh_secret_bytes() -> (r: [u8; 32]) {
    x25519_dalek::StaticSecret::random().to_bytes()
}

/// Relies on `x25519_dalek::X25519_BASEPOINT_BYTES`: the X25519 base point
/// of RFC 7748, the byte 9 followed by 31 zero bytes.
#[verifier::external_body]
fn basepoint_bytes() -> (r: [u8; 32])
    ensures
        r@ == x25519_base(),
{
    x25519_dalek::X25519_BASEPOINT_BYTES
}

/// Relies on `x25519_dalek::x25519`: the byte-oriented X25519 function of
/// RFC 7748, deterministic in the scalar and point bytes. The second clause
/// is the Diffie-Hellman property that function exists for, exactly as the
/// crate documents it: when the point is the public key of some scalar `k`,
/// the product equals what `k`'s owner computes from this scalar's own
/// public key.
#[verifier::external_body]
fn x25519_mul(scalar: &[u8; 32], point: &[u8; 32]) -> (r: [u8; 32])
    ensures
        r@ == x25519_of(scalar@, point@),
        forall|k: Seq<u8>|
            point@ == x25519_of(k, x25519_base()) ==> r@ == x25519_of(
                k,
                x25519_of(scalar@, x25519_base()),
            ),
{
    x25519_dalek::x25519(*scalar, *point)
}

/// The 32-byte secret both peers derive from the handshake. It is owned
/// exclusively by the secure channel for the connection's lifetime, and is
/// deliberately neither copyable nor cloneable.
pub struct SharedSecret {
    bytes: [u8; 32],
}

impl View for SharedSecret {
    type V = Seq<u8>;

    closed spec fn view(&self) -> Seq<u8> {
        self.bytes@
    }
}

impl SharedSecret {
    /// Hands the raw secret to the one component entitled to it.
    pub fn into_bytes(self) -> (r: [u8; 32])
        ensures
            r@ == self@,
    {
        self.bytes
    }
}

/// A fresh ephemeral key pair: a 32-byte private scalar, never transmitted,
/// and the 32-byte public curve point derived from it. Deriving the shared
/// secret consumes the pair, so the private half cannot outlive the
/// handshake; the type is deliberately neither copyable nor cloneable.
pub struct KeyPair {
    secret: [u8; 32],
    public: [u8; 32],
}

impl KeyPair {
    /// The private scalar, visible to specifications only.
    pub closed spec fn secret_view(&self) -> Seq<u8> {
        self.secret@
    }

    /// The public curve point, sent to the peer in the clear.
    pub closed spec fn public_view(&self) -> Seq<u8> {
        self.public@
    }

    /// The public half is the X25519 product of the private scalar and the
    /// base point.
    pub open spec fn wf(&self) -> bool {
        self.public_view() == x25519_of(self.secret_view(), x25519_base())
    }

    /// The public half, for writing to the peer.
    pub fn public_bytes(&self) -> (r: [u8; 32])
        ensures
            r@ == self.public_view(),
    {
        self.public
    }

    /// Generates a fresh ephemeral key pair from the system's secure random
    /// source.
    pub fn generate() -> (r: KeyPair)
        ensures
            r.wf(),
    {
        let secret = fresh_secret_bytes();
        let base = basepoint_bytes();
        let public = x25519_mul(&secret, &base);
        KeyPair { secret, public }
    }

    /// Derives the shared secret from own-private and peer-public, consuming
    /// the key pair: the private half is used exactly once. When the peer's
    /// bytes are a genuine public key, the result is what that peer derives
    /// in turn from this pair's public key.
    pub fn diffie_hellman(self, peer_public: &[u8; 32]) -> (r: SharedSecret)
        ensures
            r@ == x25519_of(self.secret_view(), peer_public@),
            forall|k: Seq<u8>|
                peer_public@ == x25519_of(k, x25519_base()) ==> r@ == x25519_of(
                    k,
                    x25519_of(self.secret_view(), x25519_base()),
                ),
    {
        let bytes = x25519_mul(&self.secret, peer_public);
        SharedSecret { bytes }
    }
}

/// Handshake symmetry: for any two key pairs, each peer's derivation from
/// the other's public key yields the same shared secret. Verus proves this
/// from the contracts of `diffie_hellman` and `public_bytes` alone; the
/// function exists to state it.
pub fn handshake_symmetry(first: KeyPair, second: KeyPair) -> (r: (SharedSecret, SharedSecret))
    requires
        first.wf(),
        second.wf(),
    ensures
        r.0@ == r.1@,
{
    let first_public = first.public_bytes();
    let second_public = second.public_bytes();
    let shared_of_first = first.diffie_hellman(&second_public);
    let shared_of_second = second.diffie_hellman(&first_public);
    (shared_of_first, shared_of_second)
}

/// Finishes the handshake on the bytes read for the peer's public key. The
/// read must have produced exactly 32 bytes: any other count — in
/// particular a stream that closed partway through the key — is a fatal
/// handshake failure, never a retry condition. On exactly 32 bytes the
/// result is the X25519 shared secret of own-private and peer-public.
pub fn complete_handshake(keys: KeyPair, peer_bytes: &Vec<u8>) -> (r: Result<
    SharedSecret,
    HandshakeError,
>)
    ensures
        r is Ok <==> peer_bytes@.len() == KEY_LEN,
        r is Ok ==> r->Ok_0@ == x25519_of(keys.secret_view(), peer_bytes@),
        r is Err ==> r->Err_0 == HandshakeError::WrongKeyLength,
{
    if peer_bytes.len() != KEY_LEN {
        return Err(HandshakeError::WrongKeyLength);
    }
    let mut peer_public: [u8; 32] = [0u8; 32];
    for i in 0..KEY_LEN
        invariant
            peer_bytes@.len() == KEY_LEN,
            forall|j: int| 0 <= j < i ==> peer_public@[j] == peer_bytes@[j],
    {
        peer_public[i] = peer_bytes[i];
    }
    proof {
        assert(peer_public@ =~= peer_bytes@);
    }
    Ok(keys.diffie_hellman(&peer_public))
}

} // verus!
