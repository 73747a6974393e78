//! What is read from a peer.

use crate::bytes::{from_le64, le64};
use crate::clipboard::Content;
use crate::connection::{explains, handed_out, Incoming, LogicError, ReadError, ReadEvent};
use crate::link::{Link, Step};
use crate::outside::compression::zstd_content;
use crate::outside::noise::opened;
use crate::packing::decoder_reports;
use crate::wire::{parsed, Metadata};
use vstd::prelude::*;
use vstd::utf8::{decode_utf8, valid_utf8};

verus! {

/// What has been read out of bytes is written as those bytes again: nothing is left out, and
/// nothing is added. Bytes are refused only if they are no UTF-8, or hold no dimensions, or
/// dimensions that this machine cannot hold.
pub proof fn writing_undoes_parsing(is_text: bool, bytes: Seq<u8>)
    ensures
        parsed(is_text, bytes) matches Some(content) ==> content.payload() == bytes && (content
            is Text <==> is_text),
        is_text ==> (parsed(is_text, bytes) is Some <==> valid_utf8(bytes)),
        parsed(is_text, bytes) matches Some(Content::Text(text)) ==> text == decode_utf8(bytes),
        !is_text && bytes.len() < 16 ==> parsed(is_text, bytes) is None,
        !is_text && bytes.len() >= 16 ==> {
            let n = bytes.len() as int;
            parsed(is_text, bytes) is Some <==> from_le64(bytes.subrange(n - 16, n - 8))
                <= usize::MAX && from_le64(bytes.subrange(n - 8, n)) <= usize::MAX
        },
{
    if is_text {
        if valid_utf8(bytes) {
            vstd::utf8::decode_utf8_encode_utf8(bytes);
        }
    } else if bytes.len() >= 16 && parsed(is_text, bytes) is Some {
        vstd::bytes::lemma_auto_spec_u64_to_from_le_bytes();
        let n = bytes.len() as int;
        let width = bytes.subrange(n - 16, n - 8);
        let height = bytes.subrange(n - 8, n);
        assert(le64(from_le64(width)) == width);
        assert(le64(from_le64(height)) == height);
        assert(parsed(is_text, bytes)->Some_0.payload() =~= bytes);
    }
}

/// A message that is handed out is the clipboard that its bytes are, whole; if they are none, the
/// error says why.
pub proof fn what_is_handed_out_is_the_whole_message(
    is_text: bool,
    bytes: Seq<u8>,
    res: Result<Incoming, ReadError>,
)
    ensures
        handed_out(is_text, bytes, res) ==> match res {
            Ok(Incoming::Change(change)) => change@.payload() == bytes && (change@ is Text
                <==> is_text),
            Ok(_) => false,
            Err(e) => {
                &&& is_text ==> e is NonUt8 && !valid_utf8(bytes)
                &&& !is_text && bytes.len() < 16 ==> e == ReadError::Adhoc(
                    LogicError::MissingDimensions,
                )
                &&& !is_text && bytes.len() >= 16 ==> e == ReadError::Adhoc(
                    LogicError::DimensionTooLarge,
                )
            },
        },
        handed_out(is_text, bytes, res) && parsed(is_text, bytes) is Some ==> res is Ok,
        handed_out(is_text, bytes, res) && parsed(is_text, bytes) is None ==> res is Err
            && explains(is_text, bytes, res->Err_0),
{
    writing_undoes_parsing(is_text, bytes);
}

/// What a whole piece leads to. The headers are taken as they are. A chunk that the session does
/// not accept is refused, and changes nothing. What one opens to is the message, if it is not
/// compressed and has one chunk; it is refused, if it is not compressed and has more; and it is
/// added to what has been collected, if it is compressed, which ends the message if it is the last
/// of the chunks that were announced; if none were, that is the one with the largest index.
pub proof fn what_a_piece_leads_to(link: Link, piece: Seq<u8>)
    ensures
        ({
            let (after, step) = link.take_piece(piece);
            let decoded = opened(
                link.session.receiving_key,
                link.session.receiving_nonce,
                piece,
            )->Some_0;
            match (link.meta, link.header) {
                (None, _) => step is Pending && after == (Link {
                    meta: Some(piece),
                    header: None,
                    ..link
                }),
                (Some(_), None) => step is Pending && after == (Link {
                    header: Some(piece),
                    ..link
                }),
                (Some(meta), Some(header)) => {
                    let announced = meta[2] + 256 * meta[3];
                    let index = header[0] + 256 * header[1];
                    &&& !link.session.accepts(piece) ==> step is Refused && after == link
                    &&& link.session.accepts(piece) ==> after.session == link.session.received(1)
                    &&& link.session.accepts(piece) && meta[1] != 1 && announced == 1 ==> {
                        &&& step == (Step::Plain { bytes: decoded, meta, header })
                        &&& after == (Link {
                            session: link.session.received(1),
                            meta: None,
                            header: None,
                            ..link
                        })
                    }
                    &&& link.session.accepts(piece) && meta[1] != 1 && announced != 1
                        ==> step is Unexpected && after == (Link {
                        session: link.session.received(1),
                        ..link
                    })
                    &&& link.session.accepts(piece) && meta[1] == 1 ==> {
                        &&& after.finished == link.finished + decoded
                        &&& after.meta == link.meta
                        &&& after.partial == link.partial
                        &&& announced > 0 && index == announced - 1 ==> step is Packed
                            && after.header == link.header
                        &&& announced > 0 && index != announced - 1 ==> step is Pending
                            && after.header is None
                        &&& announced == 0 && index == 65535 ==> step is Packed && after.header
                            == link.header
                        &&& announced == 0 && index != 65535 ==> step is Pending && after.header
                            is None
                    }
                },
            }
        }),
{
}

/// Nothing comes of bytes until a piece is whole: four bytes for the header of a message, four for
/// that of a chunk, and as many as that says for a chunk.
pub proof fn pieces_are_gathered(link: Link, bytes: Seq<u8>)
    ensures
        link.meta is None ==> link.piece_len() == 4,
        link.meta is Some && link.header is None ==> link.piece_len() == 4,
        link.meta is Some && link.header is Some ==> link.piece_len() == link.header->Some_0[2]
            + 256 * link.header->Some_0[3],
        link.partial.len() <= link.piece_len() ==> link.wanted() == link.piece_len()
            - link.partial.len(),
        bytes.len() < link.wanted() ==> link.step(bytes) == (
            Link { partial: link.partial + bytes, ..link },
            Step::Pending,
        ),
        bytes.len() == link.wanted() ==> link.step(bytes) == (Link {
            partial: Seq::empty(),
            ..link
        }).take_piece(link.partial + bytes),
        link.idle() <==> link.meta is None && link.header is None && link.finished.len() == 0
            && link.partial.len() == 0,
        link.unpacked() == (Link { meta: None, header: None, finished: Seq::empty(), ..link }),
{
}

/// Reading fails with an error of decompression only if the decoder, run on exactly what has been
/// collected of the message, reported that error: the content of the chunks before, and what the
/// last chunk opens to. In all other cases a complete compressed message comes out.
pub proof fn reading_fails_only_if_the_decoder_does(
    link: Link,
    bytes: Vec<u8>,
    after: Link,
    res: Result<Incoming, ReadError>,
)
    ensures
        link.read(ReadEvent::Bytes(bytes), after, res) && res is Err && res->Err_0 is Zstd ==> {
            let collected = link.finished + opened(
                link.session.receiving_key,
                link.session.receiving_nonce,
                link.partial + bytes@,
            )->Some_0;
            &&& link.step(bytes@).1 is Packed
            &&& after.finished == collected
            &&& decoder_reports(collected, res->Err_0->Zstd_0)
        },
        link.read(ReadEvent::Bytes(bytes), after, res) && link.step(bytes@).1 is Packed
            && !(res is Err && res->Err_0 is Zstd) ==> {
            let whole = link.step(bytes@).0;
            &&& zstd_content(whole.finished) is Some
            &&& after == whole.unpacked()
            &&& handed_out(whole.meta->Some_0[0] == 0, zstd_content(whole.finished)->Some_0, res)
        },
{
}

/// The same for one who waits for the bytes of a message; the bytes come with the headers of the
/// message and of its last chunk.
pub proof fn messages_come_out_unless_the_decoder_fails(
    link: Link,
    bytes: Vec<u8>,
    after: Link,
    res: Result<Option<(Vec<u8>, Metadata)>, ReadError>,
)
    ensures
        link.read_inner(ReadEvent::Bytes(bytes), after, res) ==> {
            let (next, step) = link.step(bytes@);
            &&& step is Packed ==> match res {
                Ok(Some((read, metadata))) => zstd_content(next.finished) == Some(read@)
                    && Some(metadata.meta_bytes@) == next.meta && after == next.unpacked(),
                Err(ReadError::Zstd(e)) => decoder_reports(next.finished, e) && after == next,
                _ => false,
            }
            &&& step matches Step::Plain { bytes: plain, meta, .. } ==> (res matches Ok(
                Some((read, metadata)),
            ) && read@ == plain && metadata.meta_bytes@ == meta && after == next)
            &&& step is Pending <==> (res matches Ok(None))
            &&& step is Refused ==> (res matches Err(ReadError::Adhoc(LogicError::Decode(_))))
            &&& step is Unexpected ==> (res matches Err(
                ReadError::Adhoc(LogicError::UncompressedChunks),
            ))
            &&& step is Pending || step is Refused || step is Unexpected ==> after == next
        },
{
}

/// The headers that come with a message are those of the message and of its chunk.
pub proof fn headers_come_with_the_message(
    metadata: Metadata,
    meta: Option<Seq<u8>>,
    header: Option<Seq<u8>>,
)
    ensures
        metadata.holds(meta, header) ==> meta == Some(metadata.meta_bytes@),
        metadata.holds(meta, header) && header is Some ==> metadata.current_chunk_header is Some
            && header == Some(metadata.current_chunk_header->Some_0@),
        metadata.holds(meta, header) && header is None ==> metadata.current_chunk_header is None,
{
}

/// A connection that ends between two messages is closed; one that ends within a message, or
/// fails, is an error, and nothing of what has been read is lost.
pub proof fn the_end_of_a_connection(
    link: Link,
    error: std::io::Error,
    after: Link,
    res: Result<Incoming, ReadError>,
    inner: Result<Option<(Vec<u8>, Metadata)>, ReadError>,
)
    ensures
        link.read(ReadEvent::Eof(error), after, res) ==> after == link && (if link.meta is None {
            res matches Ok(Incoming::Closed)
        } else {
            res matches Err(ReadError::Io(e)) && e == error
        }),
        link.read(ReadEvent::Failed(error), after, res) ==> after == link && (res matches Err(
            ReadError::Io(e),
        ) && e == error),
        link.read_inner(ReadEvent::Eof(error), after, inner) ==> after == link && (if link.meta
            is None {
            inner matches Err(ReadError::Eof)
        } else {
            inner matches Err(ReadError::Io(e)) && e == error
        }),
        link.read_inner(ReadEvent::Failed(error), after, inner) ==> after == link && (
        inner matches Err(ReadError::Io(e)) && e == error),
{
}

} // verus!
