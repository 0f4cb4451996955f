use adb_cli::error::ProtocolError;
use adb_cli::handshake::{Handshake, HandshakeAction, HandshakeState};
use adb_cli::protocol::Message;
use adb_cli::protocol::{A_AUTH, A_CNXN, A_OKAY, AUTH_PUBLICKEY, AUTH_SIGNATURE, AUTH_TOKEN};

fn peer_cnxn() -> Message {
    Message::new(A_CNXN, 0x01000001, 256 * 1024, b"device::\0".to_vec())
}

fn peer_auth(challenge: &[u8]) -> Message {
    Message::new(A_AUTH, AUTH_TOKEN, 0, challenge.to_vec())
}

#[test]
fn handshake_starts_with_connect_frame() {
    let (hs, first) = Handshake::start();
    assert_eq!(hs.state, HandshakeState::Connecting);
    assert_eq!(hs.exchanges, 0);
    assert_eq!(first.cmd, A_CNXN);
    assert_eq!(first.payload, b"host::notadb\0".to_vec());
}

#[test]
fn handshake_no_auth_path() {
    let (mut hs, _) = Handshake::start();
    let a = hs.receive(&peer_cnxn());
    assert!(matches!(a, HandshakeAction::Connected));
    assert_eq!(hs.state, HandshakeState::Connected);
    assert_eq!(hs.exchanges, 1);
    assert_eq!(hs.version, 0x01000001);
    assert_eq!(hs.max_payload, 256 * 1024);
}

#[test]
fn handshake_auth_path() {
    let challenge = [3u8; 20];
    let (mut hs, _) = Handshake::start();
    let sig = match hs.receive(&peer_auth(&challenge)) {
        HandshakeAction::Send(m) => m,
        other => panic!("unexpected {:?}", other),
    };
    assert_eq!((sig.cmd, sig.arg0), (A_AUTH, AUTH_SIGNATURE));
    assert_eq!(hs.state, HandshakeState::ChallengeSigned);
    let pk = hs.public_key.clone();
    let key = openssl::pkey::PKey::public_key_from_der(&pk[..pk.len() - 1]).unwrap();
    let mut v = openssl::sign::Verifier::new(openssl::hash::MessageDigest::sha1(), &key).unwrap();
    v.update(&challenge).unwrap();
    assert!(v.verify(&sig.payload).unwrap());
    assert!(matches!(hs.receive(&peer_cnxn()), HandshakeAction::Connected));
    assert_eq!(hs.state, HandshakeState::Connected);
    assert_eq!(hs.exchanges, 2);
}

#[test]
fn handshake_auth_fallback() {
    let (mut hs, _) = Handshake::start();
    assert!(matches!(hs.receive(&peer_auth(&[1, 2, 3])), HandshakeAction::Send(_)));
    let pk = hs.public_key.clone();
    match hs.receive(&peer_auth(&[4, 5, 6])) {
        HandshakeAction::Send(m) => {
            assert_eq!((m.cmd, m.arg0, m.arg1), (A_AUTH, AUTH_PUBLICKEY, 0));
            assert_eq!(m.payload, pk);
        }
        other => panic!("unexpected {:?}", other),
    }
    assert_eq!(hs.state, HandshakeState::PublicKeySent);
    assert!(matches!(hs.receive(&peer_cnxn()), HandshakeAction::Connected));
    assert_eq!(hs.exchanges, 3);
}

#[test]
fn handshake_rejected_public_key() {
    let (mut hs, _) = Handshake::start();
    hs.receive(&peer_auth(&[1]));
    hs.receive(&peer_auth(&[2]));
    let a = hs.receive(&peer_auth(&[3]));
    assert!(matches!(a, HandshakeAction::Failed(ProtocolError::AuthRejected)));
    assert_eq!(hs.state, HandshakeState::Failed(ProtocolError::AuthRejected));
}

#[test]
fn handshake_unexpected_first_reply() {
    let (mut hs, _) = Handshake::start();
    let a = hs.receive(&Message::new(A_OKAY, 1, 1, vec![]));
    assert!(matches!(a, HandshakeAction::Failed(ProtocolError::UnexpectedResponse)));
    assert_eq!(hs.state, HandshakeState::Failed(ProtocolError::UnexpectedResponse));
}

#[test]
fn handshake_invalid_frame_fails() {
    let (mut hs, _) = Handshake::start();
    let mut m = peer_cnxn();
    m.checksum = m.checksum.wrapping_add(1);
    assert!(matches!(hs.receive(&m), HandshakeAction::Failed(ProtocolError::UnexpectedResponse)));
}

#[test]
fn handshake_steps_with_outside_signer() {
    let (mut hs, _) = Handshake::start();
    assert!(matches!(hs.on_frame(&peer_auth(&[9, 9])), HandshakeAction::Sign));
    assert_eq!(hs.state, HandshakeState::AwaitingAuthChallenge);
    assert_eq!(hs.challenge, vec![9, 9]);
    let sig = Message::new(A_AUTH, AUTH_SIGNATURE, 0, vec![1, 2, 3]);
    match hs.on_signed(Ok((sig, vec![5, 6, 0]))) {
        HandshakeAction::Send(m) => assert_eq!(m.payload, vec![1, 2, 3]),
        other => panic!("unexpected {:?}", other),
    }
    assert_eq!(hs.public_key, vec![5, 6, 0]);
    assert_eq!(hs.state, HandshakeState::ChallengeSigned);
}

#[test]
fn handshake_signing_failure() {
    let (mut hs, _) = Handshake::start();
    hs.on_frame(&peer_auth(&[9]));
    let a = hs.on_signed(Err(ProtocolError::SigningError));
    assert!(matches!(a, HandshakeAction::Failed(ProtocolError::SigningError)));
    assert_eq!(hs.state, HandshakeState::Failed(ProtocolError::SigningError));
}

#[test]
fn handshake_unexpected_reply_after_signature_sends_no_key() {
    let (mut hs, _) = Handshake::start();
    assert!(matches!(hs.receive(&peer_auth(&[1, 2])), HandshakeAction::Send(_)));
    let a = hs.receive(&Message::new(A_OKAY, 1, 1, vec![]));
    assert!(matches!(a, HandshakeAction::Failed(ProtocolError::UnexpectedResponse)));
    assert_eq!(hs.state, HandshakeState::Failed(ProtocolError::UnexpectedResponse));
    assert_eq!(hs.exchanges, 2);
}
