//! The per-message decisions of the two messaging tasks. The loops
//! themselves — socket reads and writes, console input, display — run
//! outside the library and hand each message here: the send side turns one
//! line of user input into a sealed frame or an exit decision, the receive
//! side turns one decoded frame back into text. Either task terminating
//! ends the whole session; no failure is ever retried.
use vstd::prelude::*;

use vstd::utf8::{encode_utf8, valid_utf8};

use crate::channel::{SecureChannel, MAX_PLAINTEXT_LEN, aead_enc};
use crate::codec::Frame;
use crate::errors::CryptoError;

verus! {

broadcast use vstd::utf8::encode_utf8_decode_utf8, vstd::utf8::encode_utf8_valid_utf8;

/// The exit sentinel, `quit`, as UTF-8 bytes.
pub open spec fn exit_sentinel() -> Seq<u8> {
    seq![113u8, 117u8, 105u8, 116u8]
}

/// One line of input, its line ending removed: a trailing line feed is
/// dropped, then a trailing carriage return, as a console's line reader
/// leaves them.
pub open spec fn strip_line_ending(b: Seq<u8>) -> Seq<u8> {
    let without_lf = if b.len() > 0 && b.last() == 10u8 {
        b.drop_last()
    } else {
        b
    };
    if without_lf.len() > 0 && without_lf.last() == 13u8 {
        without_lf.drop_last()
    } else {
        without_lf
    }
}

/// The line, stripped of its line ending, is the exit sentinel.
pub open spec fn is_exit_bytes(b: Seq<u8>) -> bool {
    strip_line_ending(b) == exit_sentinel()
}

/// Relies on `String::from_utf8`: succeeds exactly on valid UTF-8 input,
/// and the string it returns encodes back to exactly the input bytes.
#[verifier::external_body]
fn bytes_to_string(bytes: Vec<u8>) -> (r: Option<String>)
    ensures
        r is Some <==> valid_utf8(bytes@),
        r is Some ==> encode_utf8(r->0@) == bytes@,
{
    match String::from_utf8(bytes) {
        Ok(s) => Some(s),
        Err(_) => None,
    }
}

/// Decides whether a line of user input is the exit sentinel that ends the
/// send task intentionally.
pub fn is_exit_command(line: &str) -> (r: bool)
    ensures
        r == is_exit_bytes(encode_utf8(line@)),
{
    let b = line.as_bytes();
    let mut n = b.len();
    if n > 0 && b[n - 1] == 10u8 {
        n = n - 1;
    }
    if n > 0 && b[n - 1] == 13u8 {
        n = n - 1;
    }
    proof {
        assert(strip_line_ending(b@) =~= b@.subrange(0, n as int));
    }
    if n != 4 {
        proof {
            assert(strip_line_ending(b@).len() != exit_sentinel().len());
        }
        return false;
    }
    let r = b[0] == 113u8 && b[1] == 117u8 && b[2] == 105u8 && b[3] == 116u8;
    proof {
        if r {
            assert(b@.subrange(0, 4) =~= exit_sentinel());
        } else {
            assert(b@.subrange(0, 4) != exit_sentinel());
        }
    }
    r
}

/// What the send task does with one line of input: transmit a sealed frame,
/// or end the session intentionally.
pub enum SendAction {
    Transmit(Frame),
    Exit,
}

/// Turns one line of user input into the send task's action: the exit
/// sentinel ends the task; any other line is sealed under a fresh nonce
/// into a frame for the wire. Fails exactly when the line's UTF-8 encoding
/// exceeds the per-message plaintext budget.
pub fn send_step(channel: &SecureChannel, line: &str) -> (r: Result<SendAction, CryptoError>)
    ensures
        is_exit_bytes(encode_utf8(line@)) ==> r is Ok && r->Ok_0 is Exit,
        !is_exit_bytes(encode_utf8(line@)) && encode_utf8(line@).len() <= MAX_PLAINTEXT_LEN ==> r is Ok
            && r->Ok_0 is Transmit && r->Ok_0->Transmit_0.wf()
            && r->Ok_0->Transmit_0.ciphertext@ == aead_enc(
            channel.key_view(),
            r->Ok_0->Transmit_0.nonce@,
            encode_utf8(line@),
        ),
        !is_exit_bytes(encode_utf8(line@)) && encode_utf8(line@).len() > MAX_PLAINTEXT_LEN ==> r
            is Err && r->Err_0 == CryptoError::OversizedPlaintext,
{
    if is_exit_command(line) {
        return Ok(SendAction::Exit);
    }
    match channel.seal(line.as_bytes()) {
        Ok(frame) => Ok(SendAction::Transmit(frame)),
        Err(e) => Err(e),
    }
}

/// Turns one decoded frame back into the text it carries: opens it under
/// the channel key and interprets the plaintext as UTF-8. A frame whose tag
/// does not verify, or whose plaintext is not valid UTF-8, is a fatal error
/// for the message, never a panic.
pub fn receive_step(channel: &SecureChannel, frame: &Frame) -> (r: Result<String, CryptoError>)
    requires
        frame.wf(),
    ensures
        forall|p: Seq<char>|
            frame.ciphertext@ == aead_enc(channel.key_view(), frame.nonce@, encode_utf8(p))
                ==> r is Ok && r->Ok_0@ == p,
        r is Ok ==> frame.ciphertext@ == aead_enc(
            channel.key_view(),
            frame.nonce@,
            encode_utf8(r->Ok_0@),
        ),
        forall|q: Seq<u8>|
            frame.ciphertext@ == aead_enc(channel.key_view(), frame.nonce@, q) && !valid_utf8(q)
                ==> r is Err && r->Err_0 == CryptoError::InvalidUtf8,
        r is Err ==> r->Err_0 == CryptoError::AuthenticationFailure || r->Err_0
            == CryptoError::InvalidUtf8,
{
    let ghost key = channel.key_view();
    let bytes = match channel.open(frame) {
        Ok(b) => b,
        Err(e) => {
            proof {
                assert forall|p: Seq<char>|
                    frame.ciphertext@ == aead_enc(key, frame.nonce@, encode_utf8(p)) implies false by {
                    assert(frame.ciphertext@ == aead_enc(key, frame.nonce@, encode_utf8(p)));
                }
            }
            return Err(e);
        },
    };
    let ghost plain = bytes@;
    match bytes_to_string(bytes) {
        Some(text) => {
            proof {
                assert forall|p: Seq<char>|
                    frame.ciphertext@ == aead_enc(key, frame.nonce@, encode_utf8(p)) implies text@
                    == p by {
                    assert(plain == encode_utf8(p));
                    assert(encode_utf8(text@) == encode_utf8(p));
                    assert(vstd::utf8::decode_utf8(encode_utf8(text@)) == text@);
                    assert(vstd::utf8::decode_utf8(encode_utf8(p)) == p);
                }
            }
            Ok(text)
        },
        None => {
            proof {
                assert forall|p: Seq<char>|
                    frame.ciphertext@ == aead_enc(key, frame.nonce@, encode_utf8(p)) implies false by {
                    assert(plain == encode_utf8(p));
                }
            }
            Err(CryptoError::InvalidUtf8)
        },
    }
}

} // verus!
