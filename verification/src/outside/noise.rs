//! The Noise protocol, by the crate `snow`.

use vstd::prelude::*;

verus! {

/// The protocol that both sides speak. The pre-shared key goes into the chaining key first:
///
/// -> psk, e
/// <- e, ee
pub const PROTOCOL: &'static str = "Noise_NNpsk0_25519_ChaChaPoly_BLAKE2s";

/// The slot of the pre-shared key in the protocol.
pub const PSK_SLOT: u8 = 0;

/// The longest message of the Noise protocol.
pub const MAX_MESSAGE_LEN: usize = 65535;

/// The length of an authentication tag.
pub const TAG_LEN: usize = 16;

/// The length of an ephemeral public key.
pub const KEY_LEN: usize = 32;

/// The handshake phase of a session.
#[verifier::external_type_specification]
#[verifier::external_body]
pub struct ExHandshakeState(snow::HandshakeState);

/// The transport phase of a session.
#[verifier::external_type_specification]
#[verifier::external_body]
pub struct ExTransportState(snow::TransportState);

/// An error of `snow`, carried through unread.
#[verifier::external_type_specification]
#[verifier::external_body]
pub struct ExNoiseError(snow::Error);

/// The protocol that a handshake runs.
pub uninterp spec fn handshake_protocol(handshake: snow::HandshakeState) -> Seq<char>;

/// The pre-shared key that a handshake holds.
pub uninterp spec fn handshake_psk(handshake: snow::HandshakeState) -> Seq<u8>;

/// Whether a handshake is on the side that writes the first message.
pub uninterp spec fn handshake_initiates(handshake: snow::HandshakeState) -> bool;

/// The messages that a handshake has written and read so far, in order.
pub uninterp spec fn handshake_messages(handshake: snow::HandshakeState) -> Seq<Seq<u8>>;

/// The payload of a handshake message, read under a pre-shared key after the given messages;
/// `None` where the message does not authenticate. The side that reads the second message has
/// written the first, so that the messages fix what the two sides' ephemeral keys agree on.
pub uninterp spec fn handshake_payload(
    psk: Seq<u8>,
    messages: Seq<Seq<u8>>,
    message: Seq<u8>,
) -> Option<Seq<u8>>;

/// The key under which one side of a finished handshake encrypts: the initiator's or the
/// responder's.
pub uninterp spec fn session_key(
    psk: Seq<u8>,
    messages: Seq<Seq<u8>>,
    of_initiator: bool,
) -> Seq<u8>;

/// The protocol from whose handshake a transport came.
pub uninterp spec fn transport_protocol(transport: snow::TransportState) -> Seq<char>;

/// The key under which a transport encrypts.
pub uninterp spec fn sending_key(transport: snow::TransportState) -> Seq<u8>;

/// The nonce of the next message that a transport encrypts.
pub uninterp spec fn sending_nonce(transport: snow::TransportState) -> u64;

/// The key under which a transport decrypts.
pub uninterp spec fn receiving_key(transport: snow::TransportState) -> Seq<u8>;

/// The nonce of the next message that a transport decrypts.
pub uninterp spec fn receiving_nonce(transport: snow::TransportState) -> u64;

/// ChaCha20-Poly1305 encryption of a message, followed by its tag.
pub uninterp spec fn sealed(key: Seq<u8>, nonce: u64, message: Seq<u8>) -> Seq<u8>;

/// ChaCha20-Poly1305 decryption; `None` where the tag does not verify.
pub uninterp spec fn opened(key: Seq<u8>, nonce: u64, message: Seq<u8>) -> Option<Seq<u8>>;

/// Whether it is this side's turn to write a message of the two that the protocol has.
pub open spec fn turn_to_write(initiates: bool, messages: Seq<Seq<u8>>) -> bool {
    messages.len() == if initiates { 0nat } else { 1nat }
}

/// Whether it is this side's turn to read a message of the two that the protocol has.
pub open spec fn turn_to_read(initiates: bool, messages: Seq<Seq<u8>>) -> bool {
    messages.len() == if initiates { 1nat } else { 0nat }
}

/// `snow::Builder`: `new`, `psk` and `build_initiator`. The protocol needs no static keys and the
/// default resolver has all of its primitives, so that a handshake comes out.
#[verifier::external_body]
pub(crate) fn snow_initiator(protocol: &str, slot: u8, psk: &[u8; 32]) -> (res: Result<
    snow::HandshakeState,
    snow::Error,
>)
    requires
        protocol@ == PROTOCOL@,
        slot == PSK_SLOT,
    ensures
        res is Ok,
        handshake_protocol(res->Ok_0) == PROTOCOL@,
        handshake_psk(res->Ok_0) == psk@,
        handshake_initiates(res->Ok_0),
        handshake_messages(res->Ok_0) == Seq::<Seq<u8>>::empty(),
{
    snow::Builder::new(protocol.parse()?).psk(slot, psk).build_initiator()
}

/// `snow::Builder`: `new`, `psk` and `build_responder`. As for the initiator, a handshake comes
/// out.
#[verifier::external_body]
pub(crate) fn snow_responder(protocol: &str, slot: u8, psk: &[u8; 32]) -> (res: Result<
    snow::HandshakeState,
    snow::Error,
>)
    requires
        protocol@ == PROTOCOL@,
        slot == PSK_SLOT,
    ensures
        res is Ok,
        handshake_protocol(res->Ok_0) == PROTOCOL@,
        handshake_psk(res->Ok_0) == psk@,
        !handshake_initiates(res->Ok_0),
        handshake_messages(res->Ok_0) == Seq::<Seq<u8>>::empty(),
{
    snow::Builder::new(protocol.parse()?).psk(slot, psk).build_responder()
}

/// `snow::HandshakeState::write_message`. In turn, and with room for it, the message is a fresh
/// ephemeral key and the sealed payload. Which key is a matter of chance; whichever it is, the
/// other side, with the same pre-shared key and after the same messages, reads the payload back.
#[verifier::external_body]
pub(crate) fn snow_handshake_write(
    handshake: &mut snow::HandshakeState,
    payload: &[u8],
    message: &mut Vec<u8>,
) -> (res: Result<usize, snow::Error>)
    requires
        handshake_protocol(*old(handshake)) == PROTOCOL@,
        turn_to_write(handshake_initiates(*old(handshake)), handshake_messages(*old(handshake))),
        KEY_LEN + payload@.len() + TAG_LEN <= MAX_MESSAGE_LEN <= old(message)@.len(),
    ensures
        res is Ok,
        res->Ok_0 == KEY_LEN + payload@.len() + TAG_LEN,
        final(message)@.len() == old(message)@.len(),
        handshake_protocol(*final(handshake)) == PROTOCOL@,
        handshake_psk(*final(handshake)) == handshake_psk(*old(handshake)),
        handshake_initiates(*final(handshake)) == handshake_initiates(*old(handshake)),
        handshake_messages(*final(handshake)) == handshake_messages(*old(handshake)).push(
            final(message)@.subrange(0, res->Ok_0 as int),
        ),
        handshake_payload(
            handshake_psk(*old(handshake)),
            handshake_messages(*old(handshake)),
            final(message)@.subrange(0, res->Ok_0 as int),
        ) == Some(payload@),
{
    handshake.write_message(payload, message)
}

/// Why a handshake message was refused.
#[derive(Debug)]
pub enum HandshakeReadError {
    /// The message does not authenticate.
    Decrypt(snow::Error),
    /// Anything else.
    Other(snow::Error),
}

/// `snow::HandshakeState::read_message`. In turn, and with room for the payload, a message that is
/// too long, or too short to hold a key, is refused as ill-formed; any other is read, or refused
/// as not authentic.
#[verifier::external_body]
pub(crate) fn snow_handshake_read(
    handshake: &mut snow::HandshakeState,
    message: &[u8],
    payload: &mut Vec<u8>,
) -> (res: Result<usize, HandshakeReadError>)
    requires
        handshake_protocol(*old(handshake)) == PROTOCOL@,
        turn_to_read(handshake_initiates(*old(handshake)), handshake_messages(*old(handshake))),
        MAX_MESSAGE_LEN <= old(payload)@.len(),
    ensures
        final(payload)@.len() == old(payload)@.len(),
        res matches Err(HandshakeReadError::Other(_)) <==> !(KEY_LEN <= message@.len()
            <= MAX_MESSAGE_LEN),
        res matches Ok(len) ==> len <= final(payload)@.len() && handshake_payload(
            handshake_psk(*old(handshake)),
            handshake_messages(*old(handshake)),
            message@,
        ) == Some(final(payload)@.subrange(0, len as int)),
        res matches Err(HandshakeReadError::Decrypt(_)) ==> handshake_payload(
            handshake_psk(*old(handshake)),
            handshake_messages(*old(handshake)),
            message@,
        ) is None,
        res is Ok ==> handshake_protocol(*final(handshake)) == PROTOCOL@,
        res is Ok ==> handshake_psk(*final(handshake)) == handshake_psk(*old(handshake)),
        res is Ok ==> handshake_initiates(*final(handshake)) == handshake_initiates(
            *old(handshake),
        ),
        res is Ok ==> handshake_messages(*final(handshake)) == handshake_messages(
            *old(handshake),
        ).push(message@),
{
    handshake.read_message(message, payload).map_err(
        |e|
            match e {
                e @ snow::Error::Decrypt => HandshakeReadError::Decrypt(e),
                e => HandshakeReadError::Other(e),
            },
    )
}

/// `snow::HandshakeState::into_transport_mode`. After both messages a transport comes out; the
/// pre-shared key and the messages fix its two keys, and its nonces start at zero.
#[verifier::external_body]
pub(crate) fn snow_into_transport(handshake: snow::HandshakeState) -> (res: Result<
    snow::TransportState,
    snow::Error,
>)
    requires
        handshake_protocol(handshake) == PROTOCOL@,
        handshake_messages(handshake).len() == 2,
    ensures
        res is Ok,
        transport_protocol(res->Ok_0) == PROTOCOL@,
        sending_key(res->Ok_0) == session_key(
            handshake_psk(handshake),
            handshake_messages(handshake),
            handshake_initiates(handshake),
        ),
        receiving_key(res->Ok_0) == session_key(
            handshake_psk(handshake),
            handshake_messages(handshake),
            !handshake_initiates(handshake),
        ),
        sending_nonce(res->Ok_0) == 0,
        receiving_nonce(res->Ok_0) == 0,
{
    handshake.into_transport_mode()
}

/// `snow::TransportState::write_message`. Where the sealed message has its tag within the limit of
/// the protocol and of the buffer, and a nonce is left, it is written, its nonce is used up, and
/// opening it under the same key and nonce gives the message back. Otherwise nothing changes but
/// the buffer.
#[verifier::external_body]
pub(crate) fn snow_transport_write(
    transport: &mut snow::TransportState,
    message: &[u8],
    buffer: &mut Vec<u8>,
) -> (res: Result<usize, snow::Error>)
    requires
        transport_protocol(*old(transport)) == PROTOCOL@,
        message@.len() + TAG_LEN <= usize::MAX,
    ensures
        final(buffer)@.len() == old(buffer)@.len(),
        transport_protocol(*final(transport)) == PROTOCOL@,
        sending_key(*final(transport)) == sending_key(*old(transport)),
        receiving_key(*final(transport)) == receiving_key(*old(transport)),
        receiving_nonce(*final(transport)) == receiving_nonce(*old(transport)),
        res is Ok <==> message@.len() + TAG_LEN <= MAX_MESSAGE_LEN && message@.len() + TAG_LEN
            <= old(buffer)@.len() && sending_nonce(*old(transport)) < u64::MAX,
        res is Err ==> sending_nonce(*final(transport)) == sending_nonce(*old(transport)),
        res matches Ok(len) ==> {
            let key = sending_key(*old(transport));
            let nonce = sending_nonce(*old(transport));
            &&& sending_nonce(*final(transport)) == nonce + 1
            &&& len == message@.len() + TAG_LEN
            &&& final(buffer)@.subrange(0, len as int) == sealed(key, nonce, message@)
            &&& opened(key, nonce, final(buffer)@.subrange(0, len as int)) == Some(message@)
        },
{
    transport.write_message(message, buffer)
}

/// `snow::TransportState::read_message`, with a buffer that has room for any message. Where the
/// message is within the limit of the protocol, a nonce is left and the tag verifies, the content
/// is written and the nonce used up. Otherwise nothing changes but the buffer.
#[verifier::external_body]
pub(crate) fn snow_transport_read(
    transport: &mut snow::TransportState,
    message: &[u8],
    buffer: &mut Vec<u8>,
) -> (res: Result<usize, snow::Error>)
    requires
        transport_protocol(*old(transport)) == PROTOCOL@,
        MAX_MESSAGE_LEN <= old(buffer)@.len(),
    ensures
        final(buffer)@.len() == old(buffer)@.len(),
        transport_protocol(*final(transport)) == PROTOCOL@,
        sending_key(*final(transport)) == sending_key(*old(transport)),
        sending_nonce(*final(transport)) == sending_nonce(*old(transport)),
        receiving_key(*final(transport)) == receiving_key(*old(transport)),
        res is Ok <==> TAG_LEN <= message@.len() <= MAX_MESSAGE_LEN && receiving_nonce(
            *old(transport),
        ) < u64::MAX && opened(
            receiving_key(*old(transport)),
            receiving_nonce(*old(transport)),
            message@,
        ) is Some,
        res is Err ==> receiving_nonce(*final(transport)) == receiving_nonce(*old(transport)),
        res matches Ok(len) ==> {
            &&& receiving_nonce(*final(transport)) == receiving_nonce(*old(transport)) + 1
            &&& len == message@.len() - TAG_LEN
            &&& opened(
                receiving_key(*old(transport)),
                receiving_nonce(*old(transport)),
                message@,
            ) == Some(final(buffer)@.subrange(0, len as int))
        },
{
    transport.read_message(message, buffer)
}

} // verus!
