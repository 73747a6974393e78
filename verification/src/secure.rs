//! Sessions: the handshake that a password opens, and the encrypted messages after it.

use crate::bytes::{be16, join16, put_bytes, put_u16_be, u16_of};
use crate::outside::noise::{
    handshake_initiates, handshake_messages, handshake_payload, handshake_protocol, handshake_psk,
    opened, receiving_key, receiving_nonce, sealed, sending_key, sending_nonce, session_key,
    snow_handshake_read, snow_handshake_write, snow_initiator, snow_into_transport, snow_responder,
    snow_transport_read, snow_transport_write, transport_protocol, HandshakeReadError, KEY_LEN,
    MAX_MESSAGE_LEN, PROTOCOL, PSK_SLOT, TAG_LEN,
};
use crate::outside::password::{argon2_hash, argon2id, random_salt};
use crate::outside::text::{lossy_utf8, utf8_lossy};
use vstd::prelude::*;
use vstd::utf8::{decode_utf8, encode_utf8, valid_utf8};

verus! {

/// The version that this side of a handshake runs.
pub const VERSION: &'static str = "0.1.0";

/// The length of the buffer that a session works in.
pub const BUFFER_LEN: usize = 65536;

/// The longest password that can be hashed, in bytes.
pub const MAX_PASSWORD_LEN: usize = 0xffff_ffff;

/// A handshake frame: the length of a message, high byte first, and the message.
pub open spec fn framed(message: Seq<u8>) -> Seq<u8> {
    be16(message.len() as u16) + message
}

/// The length of the message in a handshake frame, by the frame's first two bytes.
pub open spec fn frame_len(header: Seq<u8>) -> u16 {
    join16(header[1], header[0])
}

/// A frame says how long its message is, and holds the message.
pub proof fn framing_keeps_the_message(message: Seq<u8>)
    requires
        message.len() <= u16::MAX,
    ensures
        frame_len(framed(message).take(2)) == message.len(),
        framed(message).skip(2) == message,
{
    crate::bytes::join16_of_split(message.len() as u16);
    assert(framed(message).skip(2) =~= message);
}

/// Whether a salt was drawn at random.
pub closed spec fn is_drawn(salt: Seq<u8>) -> bool {
    exists|drawn: [u8; 32]| drawn@ == salt && #[trigger] call_ensures(random_salt, (), drawn)
}

/// A password's hash under a salt.
#[derive(Clone, Copy)]
pub struct Secret {
    hash: [u8; 32],
    salt: [u8; 32],
}

impl Secret {
    pub closed spec fn spec_hash(&self) -> Seq<u8> {
        self.hash@
    }

    pub closed spec fn spec_salt(&self) -> Seq<u8> {
        self.salt@
    }

    /// Whether this is the hash of a password under the salt.
    pub open spec fn of(&self, password: Seq<char>) -> bool {
        self.spec_hash() == argon2id(encode_utf8(password), self.spec_salt())
    }

    /// Hashes a password under the given salt, or under a random one.
    pub fn new(password: &str, salt: Option<[u8; 32]>) -> (secret: Self)
        requires
            encode_utf8(password@).len() <= MAX_PASSWORD_LEN,
        ensures
            salt matches Some(salt) ==> secret.spec_salt() == salt@,
            salt is None ==> is_drawn(secret.spec_salt()),
            secret.spec_salt().len() == 32,
            secret.spec_hash().len() == 32,
            secret.spec_hash() == argon2id(encode_utf8(password@), secret.spec_salt()),
            secret.of(password@),
    {
        let salt: [u8; 32] = match salt {
            Some(salt) => salt,
            None => random_salt(),
        };
        let hash: [u8; 32] = argon2_hash(password.as_bytes(), &salt);
        Self { hash, salt }
    }

    pub fn hash(&self) -> (hash: &[u8; 32])
        ensures
            hash@ == self.spec_hash(),
    {
        &self.hash
    }

    pub fn salt(&self) -> (salt: &[u8; 32])
        ensures
            salt@ == self.spec_salt(),
    {
        &self.salt
    }
}

/// The salt that 32 bytes are.
fn salt_of(bytes: &[u8]) -> (salt: [u8; 32])
    requires
        bytes@.len() == 32,
    ensures
        salt@ == bytes@,
{
    let mut salt: [u8; 32] = [0; 32];
    let mut i: usize = 0;
    while i < 32
        invariant
            bytes@.len() == 32,
            i <= 32,
            forall|j: int| 0 <= j < i ==> salt@[j] == bytes@[j],
        decreases 32 - i,
    {
        salt[i] = bytes[i];
        i = i + 1;
    }
    assert(salt@ =~= bytes@);
    salt
}

/// Why a handshake came to nothing.
#[derive(Debug)]
pub enum HandshakeError {
    /// The two sides run different versions.
    VersionMismatch { peer: String, mine: String },
    /// The client's first message does not authenticate under the host's password.
    WrongPassword,
    /// The host hung up on the client's first message.
    ServerDropped,
    /// The protocol refused a message.
    Noise(snow::Error),
    /// The connection failed.
    Io(std::io::Error),
}

/// What a side of the handshake waited for and got.
#[derive(Debug)]
pub enum HandshakeEvent {
    /// The next frame's message.
    Frame(Vec<u8>),
    /// The connection ended within the next frame.
    Eof(std::io::Error),
    /// Reading the next frame failed otherwise.
    Failed(std::io::Error),
}

/// A host's handshake that waits for the client's message.
pub struct Responder {
    handshake: snow::HandshakeState,
}

impl Responder {
    pub closed spec fn wf(&self) -> bool {
        &&& handshake_protocol(self.handshake) == PROTOCOL@
        &&& !handshake_initiates(self.handshake)
        &&& handshake_messages(self.handshake) == Seq::<Seq<u8>>::empty()
    }

    pub closed spec fn psk(&self) -> Seq<u8> {
        handshake_psk(self.handshake)
    }
}

/// A client's handshake that waits for the host's answer.
pub struct Initiator {
    handshake: snow::HandshakeState,
}

impl Initiator {
    pub closed spec fn wf(&self) -> bool {
        &&& handshake_protocol(self.handshake) == PROTOCOL@
        &&& handshake_initiates(self.handshake)
        &&& handshake_messages(self.handshake).len() == 1
    }

    pub closed spec fn psk(&self) -> Seq<u8> {
        handshake_psk(self.handshake)
    }

    /// The message that the host answers.
    pub closed spec fn message(&self) -> Seq<u8> {
        handshake_messages(self.handshake)[0]
    }

    /// Whether the message proves knowledge of a password, hashed under a salt.
    pub open spec fn of(&self, password: Seq<char>, salt: Seq<u8>) -> bool {
        &&& self.wf()
        &&& self.psk() == argon2id(encode_utf8(password), salt)
        &&& self.message().len() == KEY_LEN + TAG_LEN
        &&& handshake_payload(self.psk(), seq![], self.message()) == Some(Seq::<u8>::empty())
    }
}

/// What a host waits for. It has sent its version to begin with.
pub enum HostState {
    Version,
    Message(Responder),
}

impl HostState {
    pub open spec fn wf(&self) -> bool {
        self matches HostState::Message(responder) ==> responder.wf()
    }
}

/// What a host does next.
pub enum HostAction {
    /// Send a frame, and wait again.
    Send { frame: Vec<u8>, next: HostState },
    /// Send a last frame; the session is established.
    Finish { frame: Vec<u8>, noise: Noise },
}

/// What a client waits for. It has sent its version to begin with.
pub enum SatelliteState {
    Version,
    Salt,
    Answer(Initiator),
}

impl SatelliteState {
    pub open spec fn wf(&self) -> bool {
        self matches SatelliteState::Answer(initiator) ==> initiator.wf()
    }
}

/// What a client does next.
pub enum SatelliteAction {
    /// Wait for the salt.
    Wait { next: SatelliteState },
    /// Send a frame, and wait again.
    Send { frame: Vec<u8>, next: SatelliteState },
    /// The session is established.
    Finish { noise: Noise },
}

/// An established session: what one side sends the other is encrypted and authenticated.
pub struct Noise {
    transport: snow::TransportState,
    buf: Vec<u8>,
}

/// The keys of a session, and how many messages it has seen each way.
pub struct Session {
    /// The key under which this side encrypts.
    pub sending_key: Seq<u8>,
    /// The number of messages that this side has encrypted.
    pub sending_nonce: u64,
    /// The key under which this side decrypts.
    pub receiving_key: Seq<u8>,
    /// The number of messages that this side has decrypted.
    pub receiving_nonce: u64,
}

impl Session {
    /// The session after `n` more encrypted messages.
    pub open spec fn sent(self, n: nat) -> Session {
        Session { sending_nonce: (self.sending_nonce + n) as u64, ..self }
    }

    /// The session after `n` more decrypted messages.
    pub open spec fn received(self, n: nat) -> Session {
        Session { receiving_nonce: (self.receiving_nonce + n) as u64, ..self }
    }

    /// Whether a message as it came is accepted as the next one.
    pub open spec fn accepts(self, message: Seq<u8>) -> bool {
        &&& TAG_LEN <= message.len() <= MAX_MESSAGE_LEN
        &&& self.receiving_nonce < u64::MAX
        &&& opened(self.receiving_key, self.receiving_nonce, message) is Some
    }

    /// Whether this side decrypts next what `peer` encrypts next.
    pub open spec fn follows(self, peer: Session) -> bool {
        &&& self.receiving_key == peer.sending_key
        &&& self.receiving_nonce == peer.sending_nonce
    }
}

impl View for Noise {
    type V = Session;

    closed spec fn view(&self) -> Session {
        Session {
            sending_key: sending_key(self.transport),
            sending_nonce: sending_nonce(self.transport),
            receiving_key: receiving_key(self.transport),
            receiving_nonce: receiving_nonce(self.transport),
        }
    }
}

impl Noise {
    pub closed spec fn wf(&self) -> bool {
        &&& transport_protocol(self.transport) == PROTOCOL@
        &&& self.buf@.len() == BUFFER_LEN
    }

    /// A fresh session between the two sides of a handshake, on one of the sides.
    pub open spec fn established(
        &self,
        psk: Seq<u8>,
        messages: Seq<Seq<u8>>,
        initiates: bool,
    ) -> bool {
        &&& self.wf()
        &&& self@.sending_key == session_key(psk, messages, initiates)
        &&& self@.receiving_key == session_key(psk, messages, !initiates)
        &&& self@.sending_nonce == 0
        &&& self@.receiving_nonce == 0
    }

    /// What a host makes of a message, by the bytes that came.
    pub open spec fn host_answers(
        psk: Seq<u8>,
        message: Seq<u8>,
        res: Result<HostAction, HandshakeError>,
    ) -> bool {
        if !(KEY_LEN <= message.len() <= MAX_MESSAGE_LEN) {
            res matches Err(HandshakeError::Noise(_))
        } else if handshake_payload(psk, seq![], message) is None {
            res matches Err(HandshakeError::WrongPassword)
        } else {
            res matches Ok(HostAction::Finish { frame, noise }) && {
                let answer = frame@.skip(2);
                &&& frame@ == framed(answer)
                &&& answer.len() == KEY_LEN + TAG_LEN
                &&& handshake_payload(psk, seq![message], answer) == Some(Seq::<u8>::empty())
                &&& noise.established(psk, seq![message, answer], false)
            }
        }
    }

    /// Whether a client takes an answer to its message.
    pub open spec fn satellite_accepts(psk: Seq<u8>, message: Seq<u8>, answer: Seq<u8>) -> bool {
        &&& KEY_LEN <= answer.len() <= MAX_MESSAGE_LEN
        &&& handshake_payload(psk, seq![message], answer) is Some
    }

    /// The host's side of the handshake: check the client's version, send the salt, let the
    /// client's message prove that it knows the password, and answer it.
    pub fn host(
        state: HostState,
        event: HandshakeEvent,
        version: &str,
        secret: &Secret,
    ) -> (res: Result<HostAction, HandshakeError>)
        requires
            state.wf(),
        ensures
            match event {
                HandshakeEvent::Eof(e) => res == Err::<HostAction, _>(HandshakeError::Io(e)),
                HandshakeEvent::Failed(e) => res == Err::<HostAction, _>(HandshakeError::Io(e)),
                HandshakeEvent::Frame(received) => match state {
                    HostState::Version => if lossy_utf8(received@) == version@ {
                        res matches Ok(
                            HostAction::Send { frame, next: HostState::Message(responder) },
                        ) && frame@ == framed(secret.spec_salt()) && responder.wf()
                            && responder.psk() == secret.spec_hash()
                    } else {
                        res matches Err(HandshakeError::VersionMismatch { peer, mine }) && peer@
                            == lossy_utf8(received@) && mine@ == version@
                    },
                    HostState::Message(responder) => Self::host_answers(
                        responder.psk(),
                        received@,
                        res,
                    ),
                },
            },
            event matches HandshakeEvent::Frame(received) ==> (state is Version && received@
                == encode_utf8(version@) ==> res is Ok),
            event matches HandshakeEvent::Frame(received) ==> (state is Version && res is Ok
                && !version@.contains('\u{FFFD}') ==> received@ == encode_utf8(version@)),
    {
        let received: Vec<u8> = match event {
            HandshakeEvent::Frame(received) => received,
            HandshakeEvent::Eof(e) => return Err(HandshakeError::Io(e)),
            HandshakeEvent::Failed(e) => return Err(HandshakeError::Io(e)),
        };
        match state {
            HostState::Version => {
                match Self::version_check(version, received.as_slice()) {
                    Ok(()) => {},
                    Err(e) => return Err(e),
                }
                let frame = Self::handshake_send(secret.salt().as_slice());
                match Self::init_handshake(secret.hash(), false) {
                    Ok(handshake) => Ok(
                        HostAction::Send {
                            frame,
                            next: HostState::Message(Responder { handshake }),
                        },
                    ),
                    Err(e) => Err(HandshakeError::Noise(e)),
                }
            },
            HostState::Message(responder) => {
                let mut handshake = responder.handshake;
                let mut buf: Vec<u8> = vec![0; BUFFER_LEN];
                match snow_handshake_read(&mut handshake, received.as_slice(), &mut buf) {
                    Ok(_) => {},
                    Err(HandshakeReadError::Decrypt(_)) => {
                        return Err(HandshakeError::WrongPassword);
                    },
                    Err(HandshakeReadError::Other(e)) => return Err(HandshakeError::Noise(e)),
                }
                assert(handshake_messages(handshake) =~= seq![received@]);
                let payload: [u8; 0] = [];
                assert(payload@ =~= Seq::<u8>::empty());
                let len: usize = match snow_handshake_write(
                    &mut handshake,
                    payload.as_slice(),
                    &mut buf,
                ) {
                    Ok(len) => len,
                    Err(e) => return Err(HandshakeError::Noise(e)),
                };
                let answer = vstd::slice::slice_subrange(buf.as_slice(), 0, len);
                let frame = Self::handshake_send(answer);
                proof {
                    assert(frame@.skip(2) =~= answer@);
                    assert(handshake_messages(handshake) =~= seq![received@, answer@]);
                }
                match snow_into_transport(handshake) {
                    Ok(transport) => {
                        Ok(HostAction::Finish { frame, noise: Noise { transport, buf } })
                    },
                    Err(e) => Err(HandshakeError::Noise(e)),
                }
            },
        }
    }

    /// The client's side of the handshake: check the host's version, take the salt, send a
    /// message that proves knowledge of the password, and take the host's answer.
    pub fn satellite(
        state: SatelliteState,
        event: HandshakeEvent,
        version: &str,
        password: &str,
    ) -> (res: Result<SatelliteAction, HandshakeError>)
        requires
            state.wf(),
            encode_utf8(password@).len() <= MAX_PASSWORD_LEN,
            state is Salt && event is Frame ==> event->Frame_0@.len() == 32,
        ensures
            match event {
                HandshakeEvent::Eof(e) => res == Err::<SatelliteAction, _>(
                    if state is Answer {
                        HandshakeError::ServerDropped
                    } else {
                        HandshakeError::Io(e)
                    },
                ),
                HandshakeEvent::Failed(e) => res == Err::<SatelliteAction, _>(
                    HandshakeError::Io(e),
                ),
                HandshakeEvent::Frame(received) => match state {
                    SatelliteState::Version => if lossy_utf8(received@) == version@ {
                        res == Ok::<_, HandshakeError>(
                            SatelliteAction::Wait { next: SatelliteState::Salt },
                        )
                    } else {
                        res matches Err(HandshakeError::VersionMismatch { peer, mine }) && peer@
                            == lossy_utf8(received@) && mine@ == version@
                    },
                    SatelliteState::Salt => res matches Ok(
                        SatelliteAction::Send { frame, next: SatelliteState::Answer(initiator) },
                    ) && frame@ == framed(initiator.message()) && initiator.of(
                        password@,
                        received@,
                    ),
                    SatelliteState::Answer(initiator) => if Self::satellite_accepts(
                        initiator.psk(),
                        initiator.message(),
                        received@,
                    ) {
                        res matches Ok(SatelliteAction::Finish { noise }) && noise.established(
                            initiator.psk(),
                            seq![initiator.message(), received@],
                            true,
                        )
                    } else {
                        res matches Err(HandshakeError::Noise(_))
                    },
                },
            },
            event matches HandshakeEvent::Frame(received) ==> (state is Version && received@
                == encode_utf8(version@) ==> res is Ok),
            event matches HandshakeEvent::Frame(received) ==> (state is Version && res is Ok
                && !version@.contains('\u{FFFD}') ==> received@ == encode_utf8(version@)),
    {
        let received: Vec<u8> = match event {
            HandshakeEvent::Frame(received) => received,
            HandshakeEvent::Eof(e) => return match state {
                SatelliteState::Answer(_) => Err(HandshakeError::ServerDropped),
                _ => Err(HandshakeError::Io(e)),
            },
            HandshakeEvent::Failed(e) => return Err(HandshakeError::Io(e)),
        };
        match state {
            SatelliteState::Version => match Self::version_check(version, received.as_slice()) {
                Ok(()) => Ok(SatelliteAction::Wait { next: SatelliteState::Salt }),
                Err(e) => Err(e),
            },
            SatelliteState::Salt => {
                let secret = Secret::new(password, Some(salt_of(received.as_slice())));
                let mut handshake = match Self::init_handshake(secret.hash(), true) {
                    Ok(handshake) => handshake,
                    Err(e) => return Err(HandshakeError::Noise(e)),
                };
                let mut buf: Vec<u8> = vec![0; BUFFER_LEN];
                let payload: [u8; 0] = [];
                assert(payload@ =~= Seq::<u8>::empty());
                let len: usize = match snow_handshake_write(
                    &mut handshake,
                    payload.as_slice(),
                    &mut buf,
                ) {
                    Ok(len) => len,
                    Err(e) => return Err(HandshakeError::Noise(e)),
                };
                let message = vstd::slice::slice_subrange(buf.as_slice(), 0, len);
                let frame = Self::handshake_send(message);
                Ok(
                    SatelliteAction::Send {
                        frame,
                        next: SatelliteState::Answer(Initiator { handshake }),
                    },
                )
            },
            SatelliteState::Answer(initiator) => {
                let mut handshake = initiator.handshake;
                assert(handshake_messages(handshake) =~= seq![initiator.message()]);
                let mut buf: Vec<u8> = vec![0; BUFFER_LEN];
                match snow_handshake_read(&mut handshake, received.as_slice(), &mut buf) {
                    Ok(_) => {},
                    Err(HandshakeReadError::Decrypt(e)) => return Err(HandshakeError::Noise(e)),
                    Err(HandshakeReadError::Other(e)) => return Err(HandshakeError::Noise(e)),
                }
                assert(handshake_messages(handshake) =~= seq![initiator.message(), received@]);
                match snow_into_transport(handshake) {
                    Ok(transport) => {
                        Ok(SatelliteAction::Finish { noise: Noise { transport, buf } })
                    },
                    Err(e) => Err(HandshakeError::Noise(e)),
                }
            },
        }
    }

    /// Encrypts a message.
    pub fn encode_message(&mut self, msg: &[u8]) -> (res: Result<&[u8], snow::Error>)
        requires
            old(self).wf(),
            msg@.len() + TAG_LEN <= usize::MAX,
        ensures
            final(self).wf(),
            res is Ok <==> msg@.len() + TAG_LEN <= MAX_MESSAGE_LEN && old(self)@.sending_nonce
                < u64::MAX,
            final(self)@ == if res is Ok {
                old(self)@.sent(1)
            } else {
                old(self)@
            },
            res matches Ok(encoded) ==> {
                &&& encoded@ == sealed(old(self)@.sending_key, old(self)@.sending_nonce, msg@)
                &&& encoded@.len() == msg@.len() + TAG_LEN
                &&& opened(old(self)@.sending_key, old(self)@.sending_nonce, encoded@) == Some(msg@)
            },
    {
        match snow_transport_write(&mut self.transport, msg, &mut self.buf) {
            Ok(len) => Ok(vstd::slice::slice_subrange(self.buf.as_slice(), 0, len)),
            Err(e) => Err(e),
        }
    }

    /// Decrypts a message.
    pub fn decode_message(&mut self, msg: &[u8]) -> (res: Result<&[u8], snow::Error>)
        requires
            old(self).wf(),
        ensures
            final(self).wf(),
            res is Ok <==> old(self)@.accepts(msg@),
            final(self)@ == if res is Ok {
                old(self)@.received(1)
            } else {
                old(self)@
            },
            res matches Ok(decoded) ==> {
                &&& decoded@.len() == msg@.len() - TAG_LEN
                &&& opened(old(self)@.receiving_key, old(self)@.receiving_nonce, msg@) == Some(
                    decoded@,
                )
            },
    {
        match snow_transport_read(&mut self.transport, msg, &mut self.buf) {
            Ok(len) => Ok(vstd::slice::slice_subrange(self.buf.as_slice(), 0, len)),
            Err(e) => Err(e),
        }
    }

    /// Begins a handshake under a pre-shared key, on one of the two sides.
    fn init_handshake(hash: &[u8; 32], initiator: bool) -> (res: Result<
        snow::HandshakeState,
        snow::Error,
    >)
        ensures
            res is Ok,
            handshake_protocol(res->Ok_0) == PROTOCOL@,
            handshake_psk(res->Ok_0) == hash@,
            handshake_initiates(res->Ok_0) == initiator,
            handshake_messages(res->Ok_0) == Seq::<Seq<u8>>::empty(),
    {
        if initiator {
            snow_initiator(PROTOCOL, PSK_SLOT, hash)
        } else {
            snow_responder(PROTOCOL, PSK_SLOT, hash)
        }
    }

    /// The length of the message that follows a frame's first two bytes.
    pub fn handshake_recv(header: [u8; 2]) -> (len: usize)
        ensures
            len == frame_len(header@),
    {
        u16_of(header[1], header[0]) as usize
    }

    /// Frames a message of the handshake.
    pub fn handshake_send(buf: &[u8]) -> (frame: Vec<u8>)
        requires
            buf@.len() <= u16::MAX,
        ensures
            frame@ == framed(buf@),
    {
        let mut frame: Vec<u8> = Vec::new();
        put_u16_be(&mut frame, buf.len() as u16);
        put_bytes(&mut frame, buf);
        assert(frame@ =~= framed(buf@));
        frame
    }

    /// The frame that tells the peer this side's version.
    pub fn version_frame(version: &str) -> (frame: Vec<u8>)
        requires
            encode_utf8(version@).len() <= u16::MAX,
        ensures
            frame@ == framed(encode_utf8(version@)),
    {
        Self::handshake_send(version.as_bytes())
    }

    /// Compares the peer's version, as it came, with this side's.
    pub fn version_check(version: &str, peer_bytes: &[u8]) -> (res: Result<(), HandshakeError>)
        ensures
            res is Ok <==> lossy_utf8(peer_bytes@) == version@,
            res matches Err(e) ==> (e matches HandshakeError::VersionMismatch { peer, mine }
                && peer@ == lossy_utf8(peer_bytes@) && mine@ == version@),
            peer_bytes@ == encode_utf8(version@) ==> res is Ok,
            res is Ok && !version@.contains('\u{FFFD}') ==> peer_bytes@ == encode_utf8(version@),
            res matches Err(e) ==> (valid_utf8(peer_bytes@) ==> e->peer@ == decode_utf8(
                peer_bytes@,
            )),
    {
        proof {
            vstd::utf8::encode_utf8_valid_utf8(version@);
            vstd::utf8::encode_utf8_decode_utf8(version@);
            if valid_utf8(peer_bytes@) {
                vstd::utf8::decode_utf8_encode_utf8(peer_bytes@);
            }
        }
        let mine: String = version.to_owned();
        let peer: String = utf8_lossy(peer_bytes);
        if mine == peer {
            Ok(())
        } else {
            Err(HandshakeError::VersionMismatch { peer, mine })
        }
    }
}

/// A client that knows the host's password is let in: the host answers its message, the client
/// takes the answer, and each side then decrypts what the other encrypts.
pub proof fn the_password_opens_a_session(
    password: Seq<char>,
    secret: Secret,
    initiator: Initiator,
    res: Result<HostAction, HandshakeError>,
    satellite: Noise,
)
    ensures
        secret.of(password) && initiator.of(password, secret.spec_salt()) && Noise::host_answers(
            secret.spec_hash(),
            initiator.message(),
            res,
        ) ==> {
            let answer = res->Ok_0->Finish_frame@.skip(2);
            let host = res->Ok_0->Finish_noise;
            &&& res is Ok
            &&& res->Ok_0 is Finish
            &&& res->Ok_0->Finish_frame@ == framed(answer)
            &&& Noise::satellite_accepts(initiator.psk(), initiator.message(), answer)
            &&& satellite.established(
                initiator.psk(),
                seq![initiator.message(), answer],
                true,
            ) ==> host@.follows(satellite@) && satellite@.follows(host@)
        },
{
}

/// Where each side decrypts what the other encrypts, it goes on doing so once what was encrypted
/// has been decrypted.
pub proof fn following_goes_on(a: Session, b: Session, n: nat)
    requires
        a.follows(b),
    ensures
        a.received(n).follows(b.sent(n)),
{
}

} // verus!
