//! Handshakes and sessions.

use crate::outside::noise::{handshake_payload, opened, session_key};
use crate::outside::password::argon2id;
use crate::secure::{
    frame_len, framed, HandshakeError, HostAction, HostState, Initiator, Noise, SatelliteState,
    Secret, Session,
};
use vstd::prelude::*;
use vstd::utf8::encode_utf8;

verus! {

/// The frame of a message is the length of the message, high byte first, and the message.
pub proof fn frames_begin_with_the_length(message: Seq<u8>)
    requires
        message.len() <= 65535,
    ensures
        framed(message).len() == message.len() + 2,
        256 * framed(message)[0] + framed(message)[1] == message.len(),
        framed(message).skip(2) == message,
        frame_len(framed(message)) == message.len(),
{
    assert(framed(message).skip(2) =~= message);
}

/// The length that a frame announces is in its first two bytes, high byte first.
pub proof fn the_length_is_in_two_bytes(header: Seq<u8>)
    ensures
        frame_len(header) == 256 * header[0] + header[1],
{
}

/// A secret, and the message of a client, are made of the whole password and the salt.
pub proof fn secrets_are_made_of_the_whole_password(
    secret: Secret,
    initiator: Initiator,
    password: Seq<char>,
    salt: Seq<u8>,
)
    ensures
        secret.of(password) <==> secret.spec_hash() == argon2id(
            encode_utf8(password),
            secret.spec_salt(),
        ),
        initiator.of(password, salt) ==> initiator.psk() == argon2id(encode_utf8(password), salt)
            && initiator.message().len() == 48 && handshake_payload(
            initiator.psk(),
            seq![],
            initiator.message(),
        ) == Some(Seq::<u8>::empty()),
{
}

/// A host lets a client in if and only if the client's message is of a length that the protocol
/// admits and authenticates under the host's key. Otherwise it says which of the two failed.
pub proof fn a_host_lets_in_who_knows_the_password(
    psk: Seq<u8>,
    message: Seq<u8>,
    res: Result<HostAction, HandshakeError>,
)
    ensures
        Noise::host_answers(psk, message, res) ==> {
            let well_formed = 32 <= message.len() <= 65535;
            let authentic = handshake_payload(psk, seq![], message) is Some;
            &&& res is Ok <==> well_formed && authentic
            &&& res is Ok ==> res->Ok_0 is Finish
            &&& !well_formed ==> (res matches Err(HandshakeError::Noise(_)))
            &&& well_formed && !authentic ==> (res matches Err(HandshakeError::WrongPassword))
        },
{
}

/// What a host answers a client that it lets in is a frame, whose message authenticates as the
/// second message of the handshake; and its session has the keys of that handshake, fresh.
pub proof fn a_host_answers_who_it_lets_in(
    psk: Seq<u8>,
    message: Seq<u8>,
    res: Result<HostAction, HandshakeError>,
)
    ensures
        Noise::host_answers(psk, message, res) && res is Ok ==> {
            let answer = res->Ok_0->Finish_frame@.skip(2);
            let host = res->Ok_0->Finish_noise;
            &&& res->Ok_0->Finish_frame@ == framed(answer)
            &&& answer.len() == 48
            &&& handshake_payload(psk, seq![message], answer) == Some(Seq::<u8>::empty())
            &&& host@.sending_key == session_key(psk, seq![message, answer], false)
            &&& host@.receiving_key == session_key(psk, seq![message, answer], true)
            &&& host@.sending_nonce == 0
            &&& host@.receiving_nonce == 0
        },
{
}

/// A client takes an answer if and only if it is of a length that the protocol admits and
/// authenticates after the client's message.
pub proof fn a_client_takes_authentic_answers(psk: Seq<u8>, message: Seq<u8>, answer: Seq<u8>)
    ensures
        Noise::satellite_accepts(psk, message, answer) <==> 32 <= answer.len() <= 65535
            && handshake_payload(psk, seq![message], answer) is Some,
{
}

/// A fresh session encrypts under the key of its own side and decrypts under that of the other.
pub proof fn fresh_sessions_have_the_keys_of_the_handshake(
    noise: Noise,
    psk: Seq<u8>,
    messages: Seq<Seq<u8>>,
    initiates: bool,
)
    ensures
        noise.established(psk, messages, initiates) ==> {
            &&& noise.wf()
            &&& noise@.sending_key == session_key(psk, messages, initiates)
            &&& noise@.receiving_key == session_key(psk, messages, !initiates)
            &&& noise@.sending_nonce == 0
            &&& noise@.receiving_nonce == 0
        },
{
}

/// The first states of the handshake need nothing.
pub proof fn handshakes_can_begin(host: HostState, satellite: SatelliteState)
    ensures
        host is Version ==> host.wf(),
        satellite is Version || satellite is Salt ==> satellite.wf(),
{
}

/// A message is accepted if and only if it is of a length that the protocol admits, there is a
/// nonce left for it, and it opens under the key and the nonce that are next.
pub proof fn what_opens_is_accepted(session: Session, message: Seq<u8>)
    ensures
        session.accepts(message) <==> 16 <= message.len() <= 65535 && session.receiving_nonce
            < u64::MAX && opened(session.receiving_key, session.receiving_nonce, message) is Some,
{
}

/// Encrypting and decrypting messages counts them, and changes nothing else.
pub proof fn messages_are_counted(session: Session, n: nat)
    ensures
        session.sending_nonce + n <= u64::MAX ==> session.sent(n) == (Session {
            sending_nonce: (session.sending_nonce + n) as u64,
            ..session
        }),
        session.receiving_nonce + n <= u64::MAX ==> session.received(n) == (Session {
            receiving_nonce: (session.receiving_nonce + n) as u64,
            ..session
        }),
        session.nonces_left() == u64::MAX - session.sending_nonce,
{
}

/// A side follows another if it decrypts next, under the same key, what the other encrypts next.
pub proof fn following_is_decrypting_what_comes_next(a: Session, b: Session)
    ensures
        a.follows(b) <==> a.receiving_key == b.sending_key && a.receiving_nonce == b.sending_nonce,
{
}

} // verus!
