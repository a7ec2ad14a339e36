use pi6eon::errors::HandshakeError;
use pi6eon::handshake::{complete_handshake, handshake_symmetry, KeyPair};

#[test]
fn handshake_symmetry_stated_in_the_library() {
    let a = KeyPair::generate();
    let b = KeyPair::generate();
    let (shared_ab, shared_ba) = handshake_symmetry(a, b);
    assert_eq!(shared_ab.into_bytes(), shared_ba.into_bytes());
}

#[test]
fn handshake_symmetry_by_hand() {
    let a = KeyPair::generate();
    let b = KeyPair::generate();
    let a_public = a.public_bytes();
    let b_public = b.public_bytes();
    let shared_ab = a.diffie_hellman(&b_public);
    let shared_ba = b.diffie_hellman(&a_public);
    assert_eq!(shared_ab.into_bytes(), shared_ba.into_bytes());
}

#[test]
fn fresh_key_pairs_differ() {
    let a = KeyPair::generate();
    let b = KeyPair::generate();
    assert_ne!(a.public_bytes(), b.public_bytes());
}

#[test]
fn short_read_is_rejected() {
    let keys = KeyPair::generate();
    let ten_of_thirty_two = vec![0xabu8; 10];
    let result = complete_handshake(keys, &ten_of_thirty_two);
    assert!(matches!(result, Err(HandshakeError::WrongKeyLength)));
}

#[test]
fn empty_peer_key_is_rejected() {
    let keys = KeyPair::generate();
    let result = complete_handshake(keys, &Vec::new());
    assert!(matches!(result, Err(HandshakeError::WrongKeyLength)));
}

#[test]
fn oversized_peer_key_is_rejected() {
    let keys = KeyPair::generate();
    let result = complete_handshake(keys, &vec![1u8; 33]);
    assert!(matches!(result, Err(HandshakeError::WrongKeyLength)));
}

#[test]
fn exact_peer_key_is_accepted() {
    let a = KeyPair::generate();
    let b = KeyPair::generate();
    let a_public = a.public_bytes();
    let b_public = b.public_bytes();
    let from_handshake = complete_handshake(a, &b_public.to_vec()).unwrap();
    let direct = b.diffie_hellman(&a_public);
    assert_eq!(from_handshake.into_bytes(), direct.into_bytes());
}
