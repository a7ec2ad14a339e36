use pi6eon::channel::SecureChannel;
use pi6eon::codec::Frame;
use pi6eon::errors::CryptoError;
use pi6eon::handshake::KeyPair;
use pi6eon::session::{is_exit_command, receive_step, send_step, SendAction};

fn channel_for_tests() -> SecureChannel {
    let a = KeyPair::generate();
    let b = KeyPair::generate();
    let b_public = b.public_bytes();
    SecureChannel::new(a.diffie_hellman(&b_public))
}

#[test]
fn exit_sentinel_forms() {
    assert!(is_exit_command("quit"));
    assert!(is_exit_command("quit\n"));
    assert!(is_exit_command("quit\r\n"));
    assert!(!is_exit_command("quit \n"));
    assert!(!is_exit_command("quitting\n"));
    assert!(!is_exit_command("Quit\n"));
    assert!(!is_exit_command(""));
    assert!(!is_exit_command("\n"));
}

#[test]
fn send_step_exit() {
    let channel = channel_for_tests();
    let action = send_step(&channel, "quit\n").unwrap();
    assert!(matches!(action, SendAction::Exit));
}

#[test]
fn send_step_transmits_ordinary_lines() {
    let channel = channel_for_tests();
    let action = send_step(&channel, "hello\n").unwrap();
    match action {
        SendAction::Transmit(frame) => {
            assert_eq!(frame.ciphertext.len(), "hello\n".len() + 16);
            let text = receive_step(&channel, &frame).unwrap();
            assert_eq!(text, "hello\n");
        }
        SendAction::Exit => panic!("an ordinary line must be transmitted"),
    }
}

#[test]
fn send_step_rejects_oversized_line() {
    let channel = channel_for_tests();
    let line = "a".repeat(65520);
    let result = send_step(&channel, &line);
    assert!(matches!(result, Err(CryptoError::OversizedPlaintext)));
}

#[test]
fn receive_step_rejects_tampering() {
    let channel = channel_for_tests();
    let frame = match send_step(&channel, "payload\n").unwrap() {
        SendAction::Transmit(frame) => frame,
        SendAction::Exit => panic!("an ordinary line must be transmitted"),
    };
    let mut ciphertext = frame.ciphertext.clone();
    ciphertext[0] ^= 0x01;
    let flipped = Frame { nonce: frame.nonce, ciphertext };
    let result = receive_step(&channel, &flipped);
    assert!(matches!(result, Err(CryptoError::AuthenticationFailure)));
}

#[test]
fn receive_step_rejects_invalid_utf8() {
    let channel = channel_for_tests();
    let frame = channel.seal(&[0xff, 0xfe, 0x80]).unwrap();
    let result = receive_step(&channel, &frame);
    assert!(matches!(result, Err(CryptoError::InvalidUtf8)));
}

#[test]
fn receive_step_accepts_empty_message() {
    let channel = channel_for_tests();
    let frame = channel.seal(b"").unwrap();
    let text = receive_step(&channel, &frame).unwrap();
    assert_eq!(text, "");
}
