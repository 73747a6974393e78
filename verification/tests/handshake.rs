use std::io::{Error, ErrorKind};
use yclip::secure::{
    HandshakeError, HandshakeEvent, HostAction, HostState, Noise, SatelliteAction, SatelliteState,
    Secret,
};

const SALT: [u8; 32] = [7; 32];

fn frame(bytes: &[u8]) -> HandshakeEvent {
    HandshakeEvent::Frame(bytes.to_vec())
}

fn eof() -> HandshakeEvent {
    HandshakeEvent::Eof(Error::from(ErrorKind::UnexpectedEof))
}

fn failed() -> HandshakeEvent {
    HandshakeEvent::Failed(Error::from(ErrorKind::ConnectionReset))
}

/// A host that has checked the client's version, and the salt that it sends.
fn host(secret: &Secret) -> (HostState, Vec<u8>) {
    match Noise::host(HostState::Version, frame(b"1"), "1", secret).unwrap() {
        HostAction::Send { frame, next } => (next, frame),
        HostAction::Finish { .. } => panic!("finished too early"),
    }
}

/// A client that has taken the salt, and the message that it sends.
fn satellite(password: &str) -> (SatelliteState, Vec<u8>) {
    match Noise::satellite(SatelliteState::Salt, frame(&SALT), "1", password).unwrap() {
        SatelliteAction::Send { frame, next } => (next, frame),
        _ => panic!("no message"),
    }
}

#[test]
fn secrets_are_argon2_hashes() {
    let secret = Secret::new("foobar", Some(SALT));
    assert_eq!(secret.salt(), &SALT);
    let mut expected = [0; 32];
    argon2::Argon2::default()
        .hash_password_into(b"foobar", &SALT, &mut expected)
        .unwrap();
    assert_eq!(secret.hash(), &expected);
    assert_ne!(secret.hash(), Secret::new("foobas", Some(SALT)).hash());
}

#[test]
fn salts_are_random() {
    let a = Secret::new("x", None);
    let b = Secret::new("x", None);
    assert_ne!(a.salt(), b.salt());
    assert_ne!(a.hash(), b.hash());
    let again = Secret::new("x", Some(*a.salt()));
    assert_eq!(again.hash(), a.hash());
}

#[test]
fn frames_have_their_length_in_front() {
    assert_eq!(Noise::handshake_send(b""), vec![0, 0]);
    assert_eq!(Noise::handshake_send(b"abc"), vec![0, 3, b'a', b'b', b'c']);
    let long = vec![9; 0x1234];
    let framed = Noise::handshake_send(&long);
    assert_eq!(&framed[..2], &[0x12, 0x34]);
    assert_eq!(&framed[2..], &long);
    assert_eq!(Noise::handshake_recv([0x12, 0x34]), 0x1234);
    assert_eq!(Noise::handshake_recv([0xff, 0xff]), 65535);
    assert_eq!(Noise::version_frame("0.1.0"), vec![0, 5, b'0', b'.', b'1', b'.', b'0']);
}

#[test]
fn versions_have_to_match() {
    assert!(Noise::version_check("0.1.0", b"0.1.0").is_ok());
    match Noise::version_check("0.1.0", b"0.2.0") {
        Err(HandshakeError::VersionMismatch { peer, mine }) => {
            assert_eq!(peer, "0.2.0");
            assert_eq!(mine, "0.1.0");
        }
        _ => panic!("expected a mismatch"),
    }
    match Noise::version_check("0.1.0", b"0.1.0\xff") {
        Err(HandshakeError::VersionMismatch { peer, .. }) => assert_eq!(peer, "0.1.0\u{FFFD}"),
        _ => panic!("expected a mismatch"),
    }
}

#[test]
fn a_host_refuses_another_version() {
    let secret = Secret::new("x", Some(SALT));
    match Noise::host(HostState::Version, frame(b"2"), "1", &secret) {
        Err(HandshakeError::VersionMismatch { peer, mine }) => {
            assert_eq!((peer.as_str(), mine.as_str()), ("2", "1"));
        }
        _ => panic!("expected a mismatch"),
    }
}

#[test]
fn a_client_refuses_another_version() {
    match Noise::satellite(SatelliteState::Version, frame(b"1.0"), "1", "x") {
        Err(HandshakeError::VersionMismatch { peer, mine }) => {
            assert_eq!((peer.as_str(), mine.as_str()), ("1.0", "1"));
        }
        _ => panic!("expected a mismatch"),
    }
    assert!(matches!(
        Noise::satellite(SatelliteState::Version, frame(b"1"), "1", "x"),
        Ok(SatelliteAction::Wait { next: SatelliteState::Salt })
    ));
}

#[test]
fn a_host_sends_its_salt() {
    let secret = Secret::new("x", Some(SALT));
    let (_, salt) = host(&secret);
    assert_eq!(salt, Noise::handshake_send(&SALT));
}

#[test]
fn sessions_encrypt_and_decrypt() {
    let secret = Secret::new("foobar", Some(SALT));
    let (state, _) = host(&secret);
    let (client, hello) = satellite("foobar");
    assert_eq!(hello.len(), 2 + 32 + 16);
    let (answer, mut host) = match Noise::host(state, frame(&hello[2..]), "1", &secret).unwrap() {
        HostAction::Finish { frame, noise } => (frame, noise),
        HostAction::Send { .. } => panic!("not finished"),
    };
    assert_eq!(answer.len(), 2 + 32 + 16);
    let mut client = match Noise::satellite(client, frame(&answer[2..]), "1", "foobar").unwrap() {
        SatelliteAction::Finish { noise } => noise,
        _ => panic!("not finished"),
    };

    let sealed = host.encode_message(b"to the client").unwrap().to_vec();
    assert_eq!(sealed.len(), 13 + 16);
    assert_ne!(&sealed[..13], b"to the client");
    assert_eq!(client.decode_message(&sealed).unwrap(), b"to the client");
    let sealed = client.encode_message(b"").unwrap().to_vec();
    assert_eq!(sealed.len(), 16);
    assert_eq!(host.decode_message(&sealed).unwrap(), b"");

    // Each message is good once, in its place, and as it was sent
    let first = host.encode_message(b"first").unwrap().to_vec();
    let second = host.encode_message(b"second").unwrap().to_vec();
    assert!(client.decode_message(&second).is_err());
    let mut forged = first.clone();
    forged[0] ^= 1;
    assert!(client.decode_message(&forged).is_err());
    assert_eq!(client.decode_message(&first).unwrap(), b"first");
    assert!(client.decode_message(&first).is_err());
    assert_eq!(client.decode_message(&second).unwrap(), b"second");

    // There is a limit to the length
    assert_eq!(host.encode_message(&vec![0; 65519]).unwrap().len(), 65535);
    assert!(host.encode_message(&vec![0; 65520]).is_err());
    assert!(client.decode_message(&[0; 15]).is_err());
    assert!(client.decode_message(&vec![0; 65536]).is_err());
}

#[test]
fn a_host_refuses_another_password() {
    let secret = Secret::new("right", Some(SALT));
    let (state, _) = host(&secret);
    let (_, hello) = satellite("wrong");
    assert!(matches!(
        Noise::host(state, frame(&hello[2..]), "1", &secret),
        Err(HandshakeError::WrongPassword)
    ));
}

#[test]
fn a_host_refuses_a_message_without_a_key() {
    let secret = Secret::new("x", Some(SALT));
    let (state, _) = host(&secret);
    assert!(matches!(
        Noise::host(state, frame(&[0; 31]), "1", &secret),
        Err(HandshakeError::Noise(_))
    ));
    let (state, _) = host(&secret);
    assert!(matches!(
        Noise::host(state, frame(&[0; 32]), "1", &secret),
        Err(HandshakeError::WrongPassword)
    ));
}

#[test]
fn a_client_refuses_a_forged_answer() {
    let (client, _) = satellite("x");
    assert!(matches!(
        Noise::satellite(client, frame(&[0; 48]), "1", "x"),
        Err(HandshakeError::Noise(_))
    ));
}

#[test]
fn a_host_that_hangs_up_did_not_like_the_password() {
    let (client, _) = satellite("x");
    assert!(matches!(
        Noise::satellite(client, eof(), "1", "x"),
        Err(HandshakeError::ServerDropped)
    ));
    let (client, _) = satellite("x");
    assert!(matches!(
        Noise::satellite(client, failed(), "1", "x"),
        Err(HandshakeError::Io(e)) if e.kind() == ErrorKind::ConnectionReset
    ));
    assert!(matches!(
        Noise::satellite(SatelliteState::Salt, eof(), "1", "x"),
        Err(HandshakeError::Io(_))
    ));
}

#[test]
fn a_client_that_hangs_up_is_an_error() {
    let secret = Secret::new("x", Some(SALT));
    assert!(matches!(
        Noise::host(HostState::Version, eof(), "1", &secret),
        Err(HandshakeError::Io(e)) if e.kind() == ErrorKind::UnexpectedEof
    ));
    let (state, _) = host(&secret);
    assert!(matches!(
        Noise::host(state, failed(), "1", &secret),
        Err(HandshakeError::Io(e)) if e.kind() == ErrorKind::ConnectionReset
    ));
}
