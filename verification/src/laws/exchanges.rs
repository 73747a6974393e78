//! What the operations on handshakes, sessions and connections give back for what they are given.

use crate::clipboard::{ClipboardChange, ClipboardHashes};
use crate::connection::{
    parse, Connection, Incoming, LogicError, ReadError, ReadEvent, SendError, Sending,
};
use crate::delivery::arrives;
use crate::laws::copying::lengths_are_what_they_should_be;
use crate::laws::operations::bytes_of;
use crate::laws::reading::{what_a_piece_leads_to, writing_undoes_parsing};
use crate::laws::sending::{
    clipboards_are_sent_unless_there_is_a_reason, what_has_been_written_arrives,
};
use crate::outside::compression::{zstd_content, zstd_frame, EncodeError};
use crate::outside::fingerprint::{fx_image, fx_text};
use crate::outside::noise::{handshake_payload, opened, sealed, session_key};
use crate::outside::password::argon2id;
use crate::packing::{decoder_reports, encoder_reports};
use crate::secure::{
    is_drawn, HandshakeError, HandshakeEvent, HostAction, HostState, Noise, SatelliteAction,
    SatelliteState, Secret,
};
use crate::watch::{watch_remote, RemoteAction, RemoteError, RemoteEvent};
use crate::wire::Metadata;
use vstd::bytes::spec_u64_from_le_bytes;
use vstd::prelude::*;
use vstd::utf8::{decode_utf8, encode_utf8, valid_utf8};

verus! {

/// A secret is the Argon2id hash of the whole password, under the salt that was given, or one that
/// was drawn at random.
pub proof fn a_secret_is_the_hash_of_the_whole_password(
    password: &str,
    salt: Option<[u8; 32]>,
    secret: Secret,
    hash: &[u8; 32],
    salted: &[u8; 32],
)
    ensures
        call_ensures(Secret::new, (password, salt), secret) && call_ensures(
            Secret::hash,
            (&secret,),
            hash,
        ) && call_ensures(Secret::salt, (&secret,), salted) ==> {
            &&& hash@ == argon2id(encode_utf8(password@), salted@)
            &&& salt matches Some(salt) ==> salted@ == salt@
            &&& salt is None ==> is_drawn(salted@)
        },
{
}

/// A frame of the handshake is the length of a message in two bytes, high byte first, and the
/// message; and that is how the length is read. The first message is the version.
pub proof fn a_frame_is_a_message_behind_its_length(
    buf: &[u8],
    frame: Vec<u8>,
    header: [u8; 2],
    len: usize,
    version: &str,
    first: Vec<u8>,
)
    ensures
        call_ensures(Noise::handshake_send, (buf,), frame) && buf@.len() <= 65535 ==> {
            &&& frame@.skip(2) == buf@
            &&& frame@.len() == 2 + buf@.len()
            &&& 256 * frame@[0] + frame@[1] == buf@.len()
        },
        call_ensures(Noise::handshake_recv, (header,), len) ==> len == 256 * header@[0]
            + header@[1],
        call_ensures(Noise::version_frame, (version,), first) && encode_utf8(version@).len()
            <= 65535 ==> {
            &&& first@.skip(2) == encode_utf8(version@)
            &&& 256 * first@[0] + first@[1] == encode_utf8(version@).len()
        },
{
    assert(crate::secure::framed(buf@).skip(2) =~= buf@);
    assert(crate::secure::framed(encode_utf8(version@)).skip(2) =~= encode_utf8(version@));
}

/// The same version passes, and no other does, short of a version with replacement characters.
pub proof fn the_same_version_passes(
    version: &str,
    received: &[u8],
    res: Result<(), HandshakeError>,
)
    ensures
        call_ensures(Noise::version_check, (version, received), res) ==> {
            &&& received@ == encode_utf8(version@) ==> res is Ok
            &&& !version@.contains('\u{FFFD}') ==> (res is Ok <==> received@ == encode_utf8(
                version@,
            ))
            &&& res is Err ==> res->Err_0 is VersionMismatch
            &&& res is Err ==> res->Err_0->mine@ == version@
            &&& res is Err && valid_utf8(received@) ==> res->Err_0->peer@ == decode_utf8(received@)
        },
{
    vstd::utf8::encode_utf8_valid_utf8(version@);
}

/// A host answers the client's version with its salt, if it is its own; the client's message is
/// then judged under the host's hash.
pub proof fn a_host_answers_a_version_with_the_salt(
    received: Vec<u8>,
    version: &str,
    secret: &Secret,
    res: Result<HostAction, HandshakeError>,
)
    ensures
        call_ensures(
            Noise::host,
            (HostState::Version, HandshakeEvent::Frame(received), version, secret),
            res,
        ) ==> {
            &&& received@ == encode_utf8(version@) ==> res is Ok
            &&& !version@.contains('\u{FFFD}') ==> (res is Ok <==> received@ == encode_utf8(
                version@,
            ))
            &&& res is Err ==> res->Err_0 is VersionMismatch
            &&& res is Ok ==> {
                &&& res->Ok_0 is Send
                &&& res->Ok_0->Send_frame@.skip(2) == secret.spec_salt()
                &&& res->Ok_0->Send_next is Message
                &&& res->Ok_0->Send_next->Message_0.psk() == secret.spec_hash()
            }
        },
{
    assert(crate::secure::framed(secret.spec_salt()).skip(2) =~= secret.spec_salt());
}

/// A host lets a client in if and only if its message authenticates under the host's hash, and
/// answers it with a message that authenticates after it; the session has the keys of the two.
pub proof fn a_host_judges_a_message_by_its_hash(
    state: HostState,
    received: Vec<u8>,
    version: &str,
    secret: &Secret,
    res: Result<HostAction, HandshakeError>,
)
    ensures
        call_ensures(
            Noise::host,
            (state, HandshakeEvent::Frame(received), version, secret),
            res,
        ) && state is Message ==> {
            let psk = state->Message_0.psk();
            let answer = res->Ok_0->Finish_frame@.skip(2);
            let session = res->Ok_0->Finish_noise@;
            &&& res is Ok <==> 32 <= received@.len() <= 65535 && handshake_payload(
                psk,
                seq![],
                received@,
            ) is Some
            &&& res is Err ==> (res->Err_0 is WrongPassword <==> 32 <= received@.len() <= 65535)
            &&& res is Err ==> res->Err_0 is WrongPassword || res->Err_0 is Noise
            &&& res is Ok ==> {
                &&& res->Ok_0 is Finish
                &&& handshake_payload(psk, seq![received@], answer) == Some(Seq::<u8>::empty())
                &&& session.sending_key == session_key(psk, seq![received@, answer], false)
                &&& session.receiving_key == session_key(psk, seq![received@, answer], true)
                &&& session.sending_nonce == 0 && session.receiving_nonce == 0
            }
        },
{
}

/// A client answers the salt with a message that authenticates under the Argon2id hash of the
/// whole password; and it takes an answer if and only if that authenticates after its message.
pub proof fn a_client_proves_that_it_knows_the_password(
    state: SatelliteState,
    received: Vec<u8>,
    version: &str,
    password: &str,
    res: Result<SatelliteAction, HandshakeError>,
)
    ensures
        call_ensures(
            Noise::satellite,
            (state, HandshakeEvent::Frame(received), version, password),
            res,
        ) && state is Salt ==> {
            let message = res->Ok_0->Send_frame@.skip(2);
            let initiator = res->Ok_0->Send_next->Answer_0;
            &&& res is Ok
            &&& res->Ok_0 is Send
            &&& res->Ok_0->Send_next is Answer
            &&& initiator.psk() == argon2id(encode_utf8(password@), received@)
            &&& initiator.message() == message
            &&& message.len() == 48
            &&& handshake_payload(initiator.psk(), seq![], message) == Some(Seq::<u8>::empty())
        },
        call_ensures(
            Noise::satellite,
            (state, HandshakeEvent::Frame(received), version, password),
            res,
        ) && state is Answer ==> {
            let psk = state->Answer_0.psk();
            let messages = seq![state->Answer_0.message(), received@];
            let session = res->Ok_0->Finish_noise@;
            &&& res is Ok <==> 32 <= received@.len() <= 65535 && handshake_payload(
                psk,
                seq![state->Answer_0.message()],
                received@,
            ) is Some
            &&& res is Err ==> res->Err_0 is Noise
            &&& res is Ok ==> {
                &&& res->Ok_0 is Finish
                &&& session.sending_key == session_key(psk, messages, true)
                &&& session.receiving_key == session_key(psk, messages, false)
                &&& session.sending_nonce == 0 && session.receiving_nonce == 0
            }
        },
        call_ensures(
            Noise::satellite,
            (state, HandshakeEvent::Frame(received), version, password),
            res,
        ) && state is Version ==> {
            &&& received@ == encode_utf8(version@) ==> res is Ok
            &&& !version@.contains('\u{FFFD}') ==> (res is Ok <==> received@ == encode_utf8(
                version@,
            ))
            &&& res is Ok ==> res->Ok_0 is Wait && res->Ok_0->Wait_next is Salt
            &&& res is Err ==> res->Err_0 is VersionMismatch
        },
{
    if res is Ok && res->Ok_0 is Send {
        let message = res->Ok_0->Send_next->Answer_0.message();
        assert(crate::secure::framed(message).skip(2) =~= message);
    }
}

/// A connection that fails in the handshake is an error of I/O; but a host that hangs up on a
/// client's message has dropped it.
pub proof fn a_handshake_fails_with_its_connection(
    host: HostState,
    satellite: SatelliteState,
    error: std::io::Error,
    version: &str,
    password: &str,
    secret: &Secret,
    event: HandshakeEvent,
    answered: Result<HostAction, HandshakeError>,
    res: Result<SatelliteAction, HandshakeError>,
)
    requires
        event == HandshakeEvent::Eof(error) || event == HandshakeEvent::Failed(error),
    ensures
        call_ensures(Noise::host, (host, event, version, secret), answered) ==> answered == Err::<
            HostAction,
            _,
        >(HandshakeError::Io(error)),
        call_ensures(Noise::satellite, (satellite, event, version, password), res) ==> res == Err::<
            SatelliteAction,
            _,
        >(
            if satellite is Answer && event is Eof {
                HandshakeError::ServerDropped
            } else {
                HandshakeError::Io(error)
            },
        ),
{
}

/// Encrypting seals the whole message under the session's key and the next nonce, and decrypting
/// opens what opens under the peer's; each counts the messages, and changes nothing else. A
/// message fails only if it is too long, or opens to nothing, or there is no nonce left.
pub proof fn messages_are_sealed_and_opened(
    noise: &mut Noise,
    msg: &[u8],
    encoded: Result<&[u8], snow::Error>,
    decoded: Result<&[u8], snow::Error>,
)
    ensures
        call_ensures(Noise::encode_message, (noise, msg), encoded) ==> {
            &&& encoded is Ok <==> msg@.len() <= 65519 && old(noise)@.sending_nonce < u64::MAX
            &&& encoded is Ok ==> encoded->Ok_0@ == sealed(
                old(noise)@.sending_key,
                old(noise)@.sending_nonce,
                msg@,
            )
            &&& final(noise)@.sending_nonce == old(noise)@.sending_nonce + if encoded is Ok {
                1int
            } else {
                0
            }
            &&& final(noise)@.receiving_nonce == old(noise)@.receiving_nonce
            &&& final(noise)@.sending_key == old(noise)@.sending_key
            &&& final(noise)@.receiving_key == old(noise)@.receiving_key
        },
        call_ensures(Noise::decode_message, (noise, msg), decoded) ==> {
            let content = opened(old(noise)@.receiving_key, old(noise)@.receiving_nonce, msg@);
            &&& decoded is Ok <==> 16 <= msg@.len() <= 65535 && old(noise)@.receiving_nonce
                < u64::MAX && content is Some
            &&& decoded is Ok ==> content == Some(decoded->Ok_0@)
            &&& final(noise)@.receiving_nonce == old(noise)@.receiving_nonce + if decoded is Ok {
                1int
            } else {
                0
            }
            &&& final(noise)@.sending_nonce == old(noise)@.sending_nonce
            &&& final(noise)@.sending_key == old(noise)@.sending_key
            &&& final(noise)@.receiving_key == old(noise)@.receiving_key
        },
{
}

/// What the bytes of headers say: a text has kind zero, a compressed message a one, and numbers
/// have their low byte first.
pub proof fn headers_say_what_is_to_come(
    meta: &Metadata,
    header: [u8; 4],
    flag: bool,
    n: u16,
    len: usize,
)
    ensures
        call_ensures(Metadata::is_text, (meta,), flag) ==> flag == (meta.meta_bytes@[0] == 0),
        call_ensures(Metadata::compress, (meta,), flag) ==> flag == (meta.meta_bytes@[1] == 1),
        call_ensures(Metadata::n_chunks, (meta,), n) ==> n == meta.meta_bytes@[2] + 256
            * meta.meta_bytes@[3],
        call_ensures(Metadata::chunk_idx, (header,), n) ==> n == header@[0] + 256 * header@[1],
        call_ensures(Metadata::chunk_len, (header,), len) ==> len == header@[2] + 256 * header@[3],
{
}

/// Bytes are parsed to the change whose bytes they are: for a text, if they are UTF-8, and for an
/// image, if they end in dimensions that this machine holds. Otherwise the error says why not.
pub proof fn bytes_are_parsed_to_what_they_are_of(
    bytes: Vec<u8>,
    is_text: bool,
    res: Result<ClipboardChange, ReadError>,
)
    ensures
        call_ensures(parse, (bytes, is_text), res) ==> {
            let n = bytes@.len() as int;
            let width = spec_u64_from_le_bytes(bytes@.subrange(n - 16, n - 8));
            let height = spec_u64_from_le_bytes(bytes@.subrange(n - 8, n));
            &&& res is Ok ==> bytes_of(&res->Ok_0) == bytes@ && (res->Ok_0 is Text <==> is_text)
            &&& is_text ==> (res is Ok <==> valid_utf8(bytes@))
            &&& is_text && res is Err ==> res->Err_0 is NonUt8
            &&& !is_text ==> (res is Ok <==> n >= 16 && width <= usize::MAX && height <= usize::MAX)
            &&& !is_text && n < 16 ==> res == Err::<ClipboardChange, _>(
                ReadError::Adhoc(LogicError::MissingDimensions),
            )
            &&& !is_text && n >= 16 && res is Err ==> res == Err::<ClipboardChange, _>(
                ReadError::Adhoc(LogicError::DimensionTooLarge),
            )
        },
{
    writing_undoes_parsing(is_text, bytes@);
}

/// A connection is new at its first message, knows its peer, and wants what is missing from the
/// header, the header of a chunk, or the chunk that it is reading.
pub proof fn a_connection_wants_what_is_missing(
    peer_addr: String,
    noise: Noise,
    fresh: Connection,
    connection: &Connection,
    addr: &str,
    wanted: usize,
)
    ensures
        call_ensures(Connection::new, (peer_addr, noise), fresh) ==> {
            &&& fresh.spec_peer_addr() == peer_addr@
            &&& fresh@.session == noise@
            &&& fresh@.meta is None && fresh@.header is None
            &&& fresh@.finished.len() == 0 && fresh@.partial.len() == 0
        },
        call_ensures(Connection::peer_addr, (connection,), addr) ==> addr@
            == connection.spec_peer_addr(),
        call_ensures(Connection::wanted, (connection,), wanted) && connection@.partial.len()
            <= connection@.piece_len() ==> wanted + connection@.partial.len() == match (
            connection@.meta,
            connection@.header,
        ) {
            (Some(_), Some(header)) => header[2] + 256 * header[3],
            _ => 4int,
        },
{
}

/// Reading on, a connection fails with an error of decompression only if the decoder reported that
/// error on exactly what the chunks of the message opened to, put together. Otherwise a compressed
/// message comes out with its last chunk, whatever it is of and however long it is: what the
/// chunks decompress to, with the message's header.
pub proof fn reading_hands_out_what_the_chunks_decompress_to(
    connection: &mut Connection,
    bytes: Vec<u8>,
    res: Result<Option<(Vec<u8>, Metadata)>, ReadError>,
)
    ensures
        call_ensures(Connection::read_inner, (connection, ReadEvent::Bytes(bytes)), res) ==> {
            let before = old(connection)@;
            let piece = before.partial + bytes@;
            let meta = before.meta->Some_0;
            let header = before.header->Some_0;
            let complete = before.meta is Some && before.header is Some && piece.len() == header[2]
                + 256 * header[3];
            let content = opened(
                before.session.receiving_key,
                before.session.receiving_nonce,
                piece,
            );
            let accepted = 16 <= piece.len() && before.session.receiving_nonce < u64::MAX
                && content is Some;
            let announced = meta[2] + 256 * meta[3];
            let last = header[0] + 256 * header[1] == announced - 1;
            let collected = before.finished + content->Some_0;
            &&& complete && accepted && meta[1] == 1 && last ==> match res {
                Ok(Some((read, metadata))) => zstd_content(collected) == Some(read@)
                    && metadata.meta_bytes@ == meta && final(connection)@.finished.len() == 0,
                Err(ReadError::Zstd(e)) => decoder_reports(collected, e)
                    && final(connection)@.finished == collected,
                _ => false,
            }
            &&& complete && accepted && meta[1] == 1 && !last && announced > 0 ==> res == Ok::<
                _,
                ReadError,
            >(None::<(Vec<u8>, Metadata)>) && final(connection)@.finished == collected
            &&& complete && accepted && meta[1] != 1 && announced == 1 ==> match res {
                Ok(Some((read, metadata))) => read@ == content->Some_0 && metadata.meta_bytes@
                    == meta,
                _ => false,
            }
            &&& complete && accepted && meta[1] != 1 && announced != 1 ==> res == Err::<
                Option<(Vec<u8>, Metadata)>,
                _,
            >(ReadError::Adhoc(LogicError::UncompressedChunks))
            &&& complete && !accepted ==> (res matches Err(
                ReadError::Adhoc(LogicError::Decode(_)),
            ))
            &&& res is Err && res->Err_0 is Zstd && complete ==> accepted && meta[1] == 1
        },
{
    let before = old(connection)@;
    let piece = before.partial + bytes@;
    what_a_piece_leads_to(crate::link::Link { partial: Seq::empty(), ..before }, piece);
}

/// The same for one who waits for a clipboard: it is the one whose bytes the chunks decompress to.
pub proof fn reading_hands_out_the_whole_clipboard(
    connection: &mut Connection,
    bytes: Vec<u8>,
    res: Result<Incoming, ReadError>,
)
    ensures
        call_ensures(Connection::read, (connection, ReadEvent::Bytes(bytes)), res) ==> {
            let before = old(connection)@;
            let piece = before.partial + bytes@;
            let meta = before.meta->Some_0;
            let header = before.header->Some_0;
            let complete = before.meta is Some && before.header is Some && piece.len() == header[2]
                + 256 * header[3];
            let content = opened(
                before.session.receiving_key,
                before.session.receiving_nonce,
                piece,
            );
            let accepted = 16 <= piece.len() && before.session.receiving_nonce < u64::MAX
                && content is Some;
            let announced = meta[2] + 256 * meta[3];
            let last = header[0] + 256 * header[1] == announced - 1;
            let collected = before.finished + content->Some_0;
            &&& complete && accepted && meta[1] == 1 && last ==> match res {
                Ok(Incoming::Change(change)) => zstd_content(collected) == Some(bytes_of(&change))
                    && (change is Text <==> meta[0] == 0),
                Ok(_) => false,
                Err(ReadError::Zstd(e)) => decoder_reports(collected, e),
                Err(e) => zstd_content(collected) is Some && (e is NonUt8 ==> meta[0] == 0
                    && !valid_utf8(zstd_content(collected)->Some_0)),
            }
            &&& complete && accepted && meta[1] != 1 && announced == 1 ==> match res {
                Ok(Incoming::Change(change)) => bytes_of(&change) == content->Some_0 && (change
                    is Text <==> meta[0] == 0),
                Ok(_) => false,
                Err(e) => meta[0] == 0 ==> !valid_utf8(content->Some_0),
            }
            &&& complete && !accepted ==> res is Err
        },
{
    let before = old(connection)@;
    let piece = before.partial + bytes@;
    let content = opened(before.session.receiving_key, before.session.receiving_nonce, piece);
    what_a_piece_leads_to(crate::link::Link { partial: Seq::empty(), ..before }, piece);
    let is_text = before.meta->Some_0[0] == 0;
    writing_undoes_parsing(is_text, content->Some_0);
    writing_undoes_parsing(is_text, zstd_content(before.finished + content->Some_0)->Some_0);
}

/// Sending a clipboard fails with an error of compression only if the encoder reported that error
/// on its bytes, and it is longer than 1024. It fails otherwise only if it is empty, or too big, or
/// the session has run out of nonces; and then nothing is written, unless a nonce ran out on the
/// way. In all other cases it is sent, whole; and it arrives, unless it needs several chunks but is
/// not compressed, as an image does whose dimensions are too small for its bytes.
pub proof fn a_clipboard_is_sent_unless_there_is_a_reason(
    connection: &mut Connection,
    change: &ClipboardChange,
    out: &mut Vec<u8>,
    res: Result<(), SendError>,
)
    requires
        change matches ClipboardChange::Text(text) ==> encode_utf8(text@).len() <= usize::MAX,
    ensures
        call_ensures(Connection::send_inner, (connection, change, out), res) ==> {
            let long = match change {
                ClipboardChange::Text(text) => encode_utf8(text@).len() as int,
                ClipboardChange::Image(image) => (image.width * image.height + 2 * (usize::BITS
                    / 8)) % (usize::MAX + 1),
            };
            let packed = if long > 1024 {
                zstd_frame(bytes_of(change), 0)
            } else {
                bytes_of(change)
            };
            let chunks = (packed.len() + 64511) / 64512;
            let session = old(connection)@.session;
            let written = final(out)@.skip(old(out)@.len() as int);
            &&& final(connection).spec_peer_addr() == old(connection).spec_peer_addr()
            &&& final(connection)@.meta == old(connection)@.meta
            &&& final(connection)@.finished == old(connection)@.finished
            &&& final(connection)@.partial == old(connection)@.partial
            &&& old(out)@.is_prefix_of(final(out)@)
            &&& long == 0 <==> res == Err::<(), _>(SendError::ClipboardEmpty)
            &&& res matches Err(SendError::ClipboardTooBig { bytes }) ==> packed.len() > 64512000
            &&& res matches Err(SendError::Zstd(e)) ==> long > 1024 && encoder_reports(
                bytes_of(change),
                0,
                EncodeError::Write(e),
            )
            &&& res matches Err(SendError::Io(e)) ==> long > 1024 && (encoder_reports(
                bytes_of(change),
                0,
                EncodeError::Start(e),
            ) || encoder_reports(bytes_of(change), 0, EncodeError::Finish(e)))
            &&& res matches Err(SendError::Noise(_)) ==> session.sending_nonce + chunks > u64::MAX
            &&& res is Err && !(res->Err_0 is Noise) ==> final(out)@ == old(out)@
            &&& res is Ok ==> {
                &&& packed.len() <= 64512000
                &&& written == session.message(change is Text, long > 1024, packed)
                &&& final(connection)@.session.sending_nonce == session.sending_nonce + chunks
                &&& long > 1024 || packed.len() <= 64512 ==> arrives(
                    session,
                    written,
                    change@,
                    chunks as nat,
                )
            }
        },
{
    match change {
        ClipboardChange::Text(text) => {
            lengths_are_what_they_should_be(text@, 0, 0, Seq::empty());
        },
        ClipboardChange::Image(image) => {
            lengths_are_what_they_should_be(Seq::empty(), image.width, image.height, image.bytes@);
        },
    }
    let session = old(connection)@.session;
    let after = final(connection)@.session;
    let written = final(out)@.skip(old(out)@.len() as int);
    clipboards_are_sent_unless_there_is_a_reason(session, change@, after, written, res);
    what_has_been_written_arrives(session, change@, after, written);
    if old(out)@.is_prefix_of(final(out)@) && written.len() == 0 {
        assert(final(out)@ =~= old(out)@);
    }
}

/// A clipboard is skipped, without a trace, if it cannot be sent; but a connection that may have
/// half a message on it, or whose encoder failed, is given up.
pub proof fn only_what_cannot_be_sent_is_skipped(
    connection: &mut Connection,
    change: &ClipboardChange,
    out: &mut Vec<u8>,
    res: Result<Sending, SendError>,
    error: &SendError,
    recoverable: bool,
)
    ensures
        call_ensures(SendError::recoverable, (error,), recoverable) ==> recoverable == !(error is Io
            || error is Noise),
        call_ensures(Connection::send, (connection, change, out), res) ==> match res {
            Ok(Sending::Sent) => true,
            Ok(Sending::Skipped(e)) => !(e is Io) && !(e is Noise) && final(out)@ == old(out)@
                && final(connection)@ == old(connection)@,
            Err(e) => e is Io || e is Noise,
        },
{
}

/// What comes from a peer is set on the local clipboard, noted by the hash of the whole of it, and
/// becomes the latest change, whole; and nothing else does any of that.
pub proof fn what_comes_from_a_peer_is_set_and_noted(
    connection: &mut Connection,
    hashes: &mut ClipboardHashes,
    event: RemoteEvent,
    latest: &mut Option<ClipboardChange>,
    out: &mut Vec<u8>,
    res: Result<RemoteAction, RemoteError>,
)
    ensures
        call_ensures(watch_remote, (connection, hashes, event, latest, out), res) ==> {
            let setting = res is Ok && (res->Ok_0 is SetText || res->Ok_0 is SetImage);
            &&& setting ==> event is Read && *final(latest) is Some
            &&& !setting ==> final(hashes)@ == old(hashes)@ && *final(latest) == *old(latest)
            &&& event is Read ==> final(out)@ == old(out)@
            &&& event is Notified ==> {
                ||| res is Ok && res->Ok_0 is Write
                ||| res is Err && res->Err_0 is Send
            }
            &&& res matches Ok(RemoteAction::SetText(text)) ==> {
                &&& (*final(latest))->Some_0 is Text
                &&& (*final(latest))->Some_0->Text_0@ == text@
                &&& final(hashes)@.text == Some(fx_text(text@, usize::BITS))
                &&& final(hashes)@.image == old(hashes)@.image
            }
            &&& res matches Ok(RemoteAction::SetImage(image)) ==> {
                let set = (*final(latest))->Some_0->Image_0;
                &&& (*final(latest))->Some_0 is Image
                &&& set.width == image.width && set.height == image.height
                &&& set.bytes@ == image.bytes@
                &&& final(hashes)@.image == Some(
                    fx_image(image.width, image.height, image.bytes@, usize::BITS),
                )
                &&& final(hashes)@.text == old(hashes)@.text
            }
        },
{
}

} // verus!
