//! What is written for a clipboard, and when it is not.

use crate::bytes::le64_round_trip;
use crate::clipboard::{wrapping_is_taking_the_rest, ClipboardChange, Content, ImageData};
use crate::connection::{encoding_failure, sending_result, Incoming, SendError, Sending};
use crate::delivery::{arrival, arrives};
use crate::laws::copying::a_text_has_bytes_if_it_has_characters;
use crate::outside::compression::{zstd_content, zstd_frame, EncodeError};
use crate::outside::noise::{opened, sealed};
use crate::packing::encoder_reports;
use crate::secure::Session;
use crate::watch::{read, sent, tells, RemoteAction, RemoteError};
use crate::wire::{
    chunk, chunk_count, gets_across, message_header, parsing_undoes_writing, spec_chunk_idx,
    spec_chunk_len, spec_compress, spec_is_text, spec_n_chunks,
};
use vstd::bytes::{spec_u64_from_le_bytes, spec_u64_to_le_bytes};
use vstd::prelude::*;
use vstd::utf8::encode_utf8;

verus! {

/// The bytes that are sent for a text are its UTF-8 encoding. Those for an image are all its
/// pixels, followed by eight bytes for the width and eight for the height, low bytes first.
pub proof fn payloads_hold_the_whole_content(
    text: Seq<char>,
    width: usize,
    height: usize,
    bytes: Seq<u8>,
)
    ensures
        Content::Text(text).payload() == encode_utf8(text),
        ({
            let payload = (Content::Image { width, height, bytes }).payload();
            let n = bytes.len() as int;
            &&& payload.len() == n + 16
            &&& payload.take(n) == bytes
            &&& spec_u64_from_le_bytes(payload.subrange(n, n + 8)) == width
            &&& spec_u64_from_le_bytes(payload.subrange(n + 8, n + 16)) == height
        }),
{
    le64_round_trip(width as u64);
    le64_round_trip(height as u64);
    let payload = (Content::Image { width, height, bytes }).payload();
    let n = bytes.len() as int;
    assert(payload.take(n) =~= bytes);
    assert(payload.subrange(n, n + 8) =~= spec_u64_to_le_bytes(width as u64));
    assert(payload.subrange(n + 8, n + 16) =~= spec_u64_to_le_bytes(height as u64));
}

/// A content of more than 1024 bytes is compressed; of any other, the payload is sent as it is.
pub proof fn long_contents_are_compressed(content: Content)
    ensures
        content.compressed() <==> content.len() > 1024,
        content.len() > 1024 ==> content.packed() == zstd_frame(content.payload(), 0),
        content.len() <= 1024 ==> content.packed() == content.payload(),
        content.chunks() == chunk_count(content.packed().len()),
        content.gets_across() <==> content.len() > 1024 || content.payload().len() <= 64512,
{
}

/// Bytes are cut into chunks of 64512 bytes, none of them empty, of which only the last may be
/// shorter; and the chunks put together are the bytes.
pub proof fn chunks_are_cut_without_loss(bytes: Seq<u8>, i: int)
    requires
        0 <= i < chunk_count(bytes.len()),
    ensures
        64512 * (chunk_count(bytes.len()) - 1) < bytes.len() <= 64512 * chunk_count(bytes.len()),
        0 < chunk(bytes, i).len() <= 64512,
        i < chunk_count(bytes.len()) - 1 ==> chunk(bytes, i).len() == 64512,
        bytes.take(64512 * i) + chunk(bytes, i) == if i < chunk_count(bytes.len()) - 1 {
            bytes.take(64512 * (i + 1))
        } else {
            bytes
        },
        gets_across(true, bytes.len()),
{
    let next = if i < chunk_count(bytes.len()) - 1 {
        bytes.take(64512 * (i + 1))
    } else {
        bytes
    };
    assert(bytes.take(64512 * i) + chunk(bytes, i) =~= next);
}

/// There are no chunks for no bytes, and no more than a thousand for 64512000 bytes.
pub proof fn the_number_of_chunks_is_limited(len: nat)
    ensures
        chunk_count(0) == 0,
        chunk_count(len) <= 1000 <==> len <= 64512000,
{
}

/// The header of a message is its kind, whether it is compressed, and the number of its chunks,
/// low byte first; and that is what its reader makes of it.
pub proof fn headers_are_laid_out(is_text: bool, compress: bool, n_chunks: u16)
    ensures
        ({
            let header = message_header(is_text, compress, n_chunks);
            &&& header.len() == 4
            &&& header[0] == if is_text {
                0
            } else {
                1int
            }
            &&& header[1] == if compress {
                1
            } else {
                0int
            }
            &&& header[2] + 256 * header[3] == n_chunks
        }),
{
}

/// What the bytes of headers say: a text has kind zero, a compressed message a one, and numbers
/// have their low byte first.
pub proof fn headers_are_read(meta: Seq<u8>, header: Seq<u8>)
    ensures
        spec_is_text(meta) <==> meta[0] == 0,
        spec_compress(meta) <==> meta[1] == 1,
        spec_n_chunks(meta) == meta[2] + 256 * meta[3],
        spec_chunk_idx(header) == header[0] + 256 * header[1],
        spec_chunk_len(header) == header[2] + 256 * header[3],
{
}

/// A chunk goes out behind its index and its length, sealed under the key of the session and a
/// nonce of its own.
pub proof fn frames_are_laid_out(session: Session, bytes: Seq<u8>, i: int)
    requires
        0 <= i < 1000,
        session.sending_nonce + i <= u64::MAX,
    ensures
        ({
            let frame = session.frame(bytes, i);
            let code = sealed(
                session.sending_key,
                (session.sending_nonce + i) as u64,
                chunk(bytes, i),
            );
            &&& code.len() <= 65535 ==> frame.len() == 4 + code.len()
            &&& code.len() <= 65535 ==> frame[0] + 256 * frame[1] == i
            &&& code.len() <= 65535 ==> frame[2] + 256 * frame[3] == code.len()
            &&& frame.skip(4) == code
        }),
{
    let frame = session.frame(bytes, i);
    let code = session.sealed_chunk(bytes, i);
    assert(frame.skip(4) =~= code);
}

/// A message is its header and the frames of all its chunks, in order.
pub proof fn messages_are_laid_out(
    session: Session,
    is_text: bool,
    compress: bool,
    bytes: Seq<u8>,
    n: nat,
)
    ensures
        session.message(is_text, compress, bytes) == message_header(
            is_text,
            compress,
            chunk_count(bytes.len()) as u16,
        ) + session.frames(bytes, chunk_count(bytes.len())),
        session.frames(bytes, 0) == Seq::<u8>::empty(),
        session.frames(bytes, n + 1) == session.frames(bytes, n) + session.frame(bytes, n as int),
{
}

/// What can be decrypted is all of each of the chunks.
pub proof fn legible_chunks_open(session: Session, bytes: Seq<u8>, n: nat, i: int)
    requires
        0 <= i < n,
        session.sending_nonce + i <= u64::MAX,
    ensures
        session.legible(bytes, n) ==> {
            let nonce = (session.sending_nonce + i) as u64;
            let code = sealed(session.sending_key, nonce, chunk(bytes, i));
            &&& code.len() == chunk(bytes, i).len() + 16
            &&& opened(session.sending_key, nonce, code) == Some(chunk(bytes, i))
        },
{
    let code = session.sealed_chunk(bytes, i);
}

/// Whether a content is empty: a text without characters, or an image whose length wraps around
/// to zero.
pub open spec fn is_nothing(content: Content) -> bool {
    match content {
        Content::Text(text) => text.len() == 0,
        Content::Image { width, height, .. } => (width * height + 2 * (usize::BITS / 8)) % (
        usize::MAX + 1) == 0,
    }
}

/// The payload of a content fits into the memory of a machine.
pub open spec fn fits_in_memory(content: Content) -> bool {
    match content {
        Content::Text(text) => encode_utf8(text).len() <= usize::MAX,
        Content::Image { .. } => true,
    }
}

/// When a clipboard is not sent, and why: because it is empty; because it is too big; because the
/// encoder, run on its payload, reported the error; or because the session has run out of nonces,
/// which shows when the chunks that there were nonces for have been written. In all other cases it
/// is sent.
pub proof fn clipboards_are_sent_unless_there_is_a_reason(
    session: Session,
    content: Content,
    after: Session,
    written: Seq<u8>,
    res: Result<(), SendError>,
)
    requires
        fits_in_memory(content),
    ensures
        session.sends_content(content, after, written, res) ==> {
            let len = content.packed().len();
            let chunks = (len + 64511) / 64512;
            &&& is_nothing(content) <==> res == Err::<(), _>(SendError::ClipboardEmpty)
            &&& res is Ok ==> len <= 64512000 && session.sending_nonce + chunks <= u64::MAX
            &&& res matches Err(SendError::ClipboardTooBig { bytes }) ==> len > 64512000 && bytes
                == len as usize
            &&& res matches Err(SendError::Zstd(e)) ==> content.len() > 1024 && encoder_reports(
                content.payload(),
                0,
                EncodeError::Write(e),
            )
            &&& res matches Err(SendError::Io(e)) ==> content.len() > 1024 && (encoder_reports(
                content.payload(),
                0,
                EncodeError::Start(e),
            ) || encoder_reports(content.payload(), 0, EncodeError::Finish(e)))
            &&& res matches Err(SendError::Noise(_)) ==> {
                &&& session.sending_nonce + chunks > u64::MAX
                &&& after == (Session { sending_nonce: u64::MAX, ..session })
                &&& written == message_header(
                    content is Text,
                    content.len() > 1024,
                    chunks as u16,
                ) + session.frames(content.packed(), (u64::MAX - session.sending_nonce) as nat)
            }
            &&& res is Err && !(res->Err_0 is Noise) ==> written.len() == 0 && after == session
        },
{
    match content {
        Content::Text(text) => {
            a_text_has_bytes_if_it_has_characters(text);
        },
        Content::Image { width, height, .. } => {
            assert(width * height >= 0) by (nonlinear_arith);
            wrapping_is_taking_the_rest((width * height + 2 * (usize::BITS / 8)) as nat);
        },
    }
    if session.sends_content(content, after, written, res) && res is Err && (res->Err_0 is Io
        || res->Err_0 is Zstd) {
        let error = choose|error: EncodeError| #[trigger]
            encoder_reports(content.payload(), 0, error) && res == Err::<(), _>(
                encoding_failure(error),
            );
        assert(encoder_reports(content.payload(), 0, error));
        assert(res == Err::<(), _>(encoding_failure(error)));
    }
}

/// What has been written for a clipboard that was sent is its message; a nonce has been used for
/// each chunk; and the clipboard arrives, whole, at any peer that follows, if its frame
/// decompresses to its payload.
pub proof fn what_has_been_written_arrives(
    session: Session,
    content: Content,
    after: Session,
    written: Seq<u8>,
)
    ensures
        session.sends_content(content, after, written, Ok(())) ==> {
            let len = content.packed().len();
            let chunks = (len + 64511) / 64512;
            &&& after.sending_nonce == session.sending_nonce + chunks
            &&& after == (Session { sending_nonce: after.sending_nonce, ..session })
            &&& written == session.message(content is Text, content.len() > 1024, content.packed())
            &&& len > 0 && (content.len() > 1024 && zstd_content(content.packed()) == Some(
                content.payload(),
            ) || content.len() <= 1024 && len <= 64512) ==> arrives(
                session,
                written,
                content,
                chunks as nat,
            )
        },
{
    if session.sends_content(content, after, written, Ok(())) {
        let packed = content.packed();
        if packed.len() > 0 && (content.len() > 1024 && zstd_content(packed) == Some(
            content.payload(),
        ) || content.len() <= 1024 && packed.len() <= 64512) {
            parsing_undoes_writing(content);
            arrival(
                session,
                content is Text,
                content.compressed(),
                packed,
                content.payload(),
                content,
            );
        }
    }
}

/// A clipboard that is skipped can be skipped; only errors after which the peer may have half a
/// message end the connection.
pub proof fn only_half_messages_end_a_connection(error: SendError, res: Result<Sending, SendError>)
    ensures
        error.spec_recoverable() <==> !(error is Io) && !(error is Noise),
        sending_result(res) is Ok <==> res == Ok::<Sending, SendError>(Sending::Sent),
        res matches Ok(Sending::Skipped(e)) ==> sending_result(res) == Err::<(), _>(e),
        res matches Err(e) ==> sending_result(res) == Err::<(), _>(e),
{
}

/// An error of the encoder's writing is one of compression; its other errors are of I/O.
pub proof fn errors_of_the_encoder_are_handed_on(error: std::io::Error)
    ensures
        encoding_failure(EncodeError::Start(error)) == SendError::Io(error),
        encoding_failure(EncodeError::Write(error)) == SendError::Zstd(error),
        encoding_failure(EncodeError::Finish(error)) == SendError::Io(error),
{
}

/// What a peer is set to, and what has been read from it, are the same whole clipboard.
pub proof fn what_was_read_is_set(
    res: Result<RemoteAction, RemoteError>,
    text: String,
    image: ImageData,
)
    ensures
        crate::watch::set(Ok(RemoteAction::SetText(text))) == Some(Content::Text(text@)),
        crate::watch::set(Ok(RemoteAction::SetImage(image))) == Some(
            ClipboardChange::Image(image)@,
        ),
        crate::watch::set(res) is Some <==> res is Ok && (res->Ok_0 is SetText || res->Ok_0
            is SetImage),
        read(res) matches Some(Ok(Incoming::Change(change))) ==> crate::watch::set(res) == Some(
            change@,
        ),
        read(res) matches Some(Ok(Incoming::Pending)) ==> res matches Ok(RemoteAction::Wait),
        read(res) matches Some(Ok(Incoming::Closed)) ==> res matches Ok(RemoteAction::Disconnect),
        read(res) matches Some(Err(e)) ==> res == Err::<RemoteAction, _>(RemoteError::Read(e)),
        crate::watch::set(res) is Some ==> read(res) is Some && read(res)->Some_0 is Ok
            && read(res)->Some_0->Ok_0 is Change,
{
}

/// What a peer is told is sent, whole, unless there is a reason not to; and it arrives.
pub proof fn peers_are_told_of_the_change(
    session: Session,
    change: Content,
    after: Session,
    written: Seq<u8>,
    res: Result<RemoteAction, RemoteError>,
)
    ensures
        tells(session, change, after, written, res) ==> {
            &&& res matches Ok(RemoteAction::Write(Sending::Sent)) ==> session.sends_content(
                change,
                after,
                written,
                Ok(()),
            ) && (change.len() > 1024 || change.payload().len() <= 64512 ==> arrives(
                session,
                written,
                change,
                chunk_count(change.packed().len()),
            ))
            &&& res matches Ok(RemoteAction::Write(Sending::Skipped(e))) ==> session.sends_content(
                change,
                after,
                written,
                Err(e),
            ) && !(e is Io) && !(e is Noise)
            &&& res matches Err(RemoteError::Send(e)) ==> session.sends_content(
                change,
                after,
                written,
                Err(e),
            ) && (e is Io || e is Noise)
            &&& res matches Ok(action) ==> action is Write
            &&& res matches Err(e) ==> e is Send
        },
        sent(res) is Some <==> (res matches Ok(action) && action is Write) || (res matches Err(e)
            && e is Send),
{
}

} // verus!
