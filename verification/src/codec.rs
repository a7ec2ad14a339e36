//! The wire framing: a frame is `nonce[12] || length[2, big-endian] ||
//! ciphertext[length]`, with no magic number, version byte, or checksum.
//! Framing integrity relies entirely on the AEAD tag verified when the
//! frame is opened.
use vstd::prelude::*;

use crate::errors::FramingError;

verus! {

/// Byte length of a frame's nonce segment.
pub const NONCE_LEN: usize = 12;

/// Byte length of a frame's header (nonce plus the 2-byte length field).
pub const HEADER_LEN: usize = 14;

/// Largest ciphertext a frame can carry: the length field is 16 bits.
pub const MAX_CIPHERTEXT_LEN: usize = 65535;

/// The integer a 2-byte big-endian length field encodes.
pub open spec fn be16(b: Seq<u8>) -> int {
    b[0] * 256 + b[1]
}

/// The 2-byte big-endian encoding of an integer below 2^16.
pub open spec fn be16_bytes(n: int) -> Seq<u8> {
    seq![(n / 256) as u8, (n % 256) as u8]
}

/// One wire frame: `nonce || be16(ciphertext.len()) || ciphertext`.
pub open spec fn encode_spec(nonce: Seq<u8>, ciphertext: Seq<u8>) -> Seq<u8> {
    nonce + be16_bytes(ciphertext.len() as int) + ciphertext
}

/// The nonce and ciphertext of the frame at the head of `bytes`, or `None`
/// if `bytes` ends before the three segments are complete. Bytes after the
/// frame are left for the next decode, as on a stream.
pub open spec fn decode_spec(bytes: Seq<u8>) -> Option<(Seq<u8>, Seq<u8>)> {
    if bytes.len() < HEADER_LEN {
        None
    } else {
        let n = be16(bytes.subrange(NONCE_LEN as int, HEADER_LEN as int));
        if bytes.len() < HEADER_LEN + n {
            None
        } else {
            Some((bytes.subrange(0, NONCE_LEN as int), bytes.subrange(HEADER_LEN as int, HEADER_LEN + n)))
        }
    }
}

/// One wire-level unit: a fresh nonce and the AEAD output it was made with.
/// The ciphertext byte count must fit the 16-bit length field.
pub struct Frame {
    pub nonce: [u8; 12],
    pub ciphertext: Vec<u8>,
}

impl Frame {
    /// The ciphertext fits the frame's 16-bit length field.
    pub open spec fn wf(&self) -> bool {
        self.ciphertext@.len() <= MAX_CIPHERTEXT_LEN
    }
}

/// Reads a 2-byte big-endian length field, as the wire format requires.
pub fn parse_bytes_to_read(buf: &[u8; 2]) -> (r: u16)
    ensures
        r as int == be16(buf@),
{
    (buf[0] as u16) * 256 + (buf[1] as u16)
}

/// Appends all of `src` to `dst`.
fn append_slice(dst: &mut Vec<u8>, src: &[u8])
    ensures
        final(dst)@ == old(dst)@ + src@,
{
    let n = src.len();
    for i in 0..n
        invariant
            n == src@.len(),
            dst@ == old(dst)@ + src@.subrange(0, i as int),
    {
        dst.push(src[i]);
        proof {
            assert(dst@ =~= old(dst)@ + src@.subrange(0, i + 1 as int));
        }
    }
    proof {
        assert(dst@ =~= old(dst)@ + src@);
    }
}

/// Serializes one message for the wire: the nonce, then the ciphertext
/// byte count big-endian, then the ciphertext itself.
pub fn construct_encoded_msg(nonce: [u8; 12], bytes_to_read: u16, ciphertext: &[u8]) -> (r: Vec<u8>)
    ensures
        r@ == nonce@ + be16_bytes(bytes_to_read as int) + ciphertext@,
{
    let mut bytes: Vec<u8> = Vec::new();
    append_slice(&mut bytes, nonce.as_slice());
    bytes.push((bytes_to_read / 256) as u8);
    bytes.push((bytes_to_read % 256) as u8);
    append_slice(&mut bytes, ciphertext);
    proof {
        assert(bytes@ =~= nonce@ + be16_bytes(bytes_to_read as int) + ciphertext@);
    }
    bytes
}

/// Encodes a frame for the wire. A pure, non-failing concatenation.
pub fn encode_frame(frame: &Frame) -> (r: Vec<u8>)
    requires
        frame.wf(),
    ensures
        r@ == encode_spec(frame.nonce@, frame.ciphertext@),
{
    let len = frame.ciphertext.len() as u16;
    construct_encoded_msg(frame.nonce, len, frame.ciphertext.as_slice())
}

/// Decodes the frame at the head of `bytes`, returning it together with the
/// number of bytes it occupied; bytes past the frame belong to the next one.
/// Fails if any of the three segments (nonce, length field, ciphertext)
/// ends before its full size, as when the stream closed mid-frame. A length
/// field of zero is a valid, empty message.
pub fn decode_frame(bytes: &[u8]) -> (r: Result<(Frame, usize), FramingError>)
    ensures
        r is Ok <==> decode_spec(bytes@) is Some,
        r is Ok ==> decode_spec(bytes@) == Some((r->Ok_0.0.nonce@, r->Ok_0.0.ciphertext@)),
        r is Ok ==> r->Ok_0.1 == HEADER_LEN + r->Ok_0.0.ciphertext@.len() && r->Ok_0.0.wf(),
        bytes@.len() < NONCE_LEN ==> r == Err::<(Frame, usize), FramingError>(FramingError::TruncatedNonce),
        NONCE_LEN <= bytes@.len() < HEADER_LEN ==> r == Err::<(Frame, usize), FramingError>(
            FramingError::TruncatedLength,
        ),
        bytes@.len() >= HEADER_LEN && decode_spec(bytes@) is None ==> r == Err::<(Frame, usize), FramingError>(
            FramingError::TruncatedCiphertext,
        ),
{
    if bytes.len() < NONCE_LEN {
        return Err(FramingError::TruncatedNonce);
    }
    if bytes.len() < HEADER_LEN {
        return Err(FramingError::TruncatedLength);
    }
    let mut nonce: [u8; 12] = [0u8; 12];
    for i in 0..NONCE_LEN
        invariant
            bytes@.len() >= HEADER_LEN,
            forall|j: int| 0 <= j < i ==> nonce@[j] == bytes@[j],
    {
        nonce[i] = bytes[i];
    }
    let len_field: [u8; 2] = [bytes[NONCE_LEN], bytes[NONCE_LEN + 1]];
    let n = parse_bytes_to_read(&len_field) as usize;
    proof {
        assert(len_field@ =~= bytes@.subrange(NONCE_LEN as int, HEADER_LEN as int));
    }
    if bytes.len() - HEADER_LEN < n {
        return Err(FramingError::TruncatedCiphertext);
    }
    let mut ciphertext: Vec<u8> = Vec::new();
    for i in 0..n
        invariant
            bytes@.len() >= HEADER_LEN + n,
            HEADER_LEN + n <= usize::MAX,
            ciphertext@ == bytes@.subrange(HEADER_LEN as int, HEADER_LEN + i),
    {
        ciphertext.push(bytes[HEADER_LEN + i]);
        proof {
            assert(ciphertext@ =~= bytes@.subrange(HEADER_LEN as int, HEADER_LEN + i + 1));
        }
    }
    proof {
        assert(nonce@ =~= bytes@.subrange(0, NONCE_LEN as int));
    }
    Ok((Frame { nonce, ciphertext }, HEADER_LEN + n))
}

/// Round-trip framing: a frame serialized by `encode_spec` decodes back to
/// exactly the nonce and ciphertext it was built from.
pub proof fn lemma_frame_round_trip(nonce: Seq<u8>, ciphertext: Seq<u8>)
    requires
        nonce.len() == NONCE_LEN,
        ciphertext.len() <= MAX_CIPHERTEXT_LEN,
    ensures
        decode_spec(encode_spec(nonce, ciphertext)) == Some((nonce, ciphertext)),
{
    let encoded = encode_spec(nonce, ciphertext);
    let n = ciphertext.len() as int;
    assert(encoded.len() == HEADER_LEN + n);
    assert(encoded.subrange(NONCE_LEN as int, HEADER_LEN as int) =~= be16_bytes(n));
    assert(be16(be16_bytes(n)) == n) by {
        assert(0 <= n / 256 < 256);
        assert(0 <= n % 256 < 256);
    }
    assert(encoded.subrange(0, NONCE_LEN as int) =~= nonce);
    assert(encoded.subrange(HEADER_LEN as int, HEADER_LEN + n) =~= ciphertext);
}

} // verus!
