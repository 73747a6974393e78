//! Connections: sending clipboards to a peer, and reading them from it.

use crate::bytes::{put_bytes, put_u16_le};
use crate::clipboard::{ClipboardChange, Content, ImageData};
use crate::delivery::{arrival, arrives};
use crate::link::{Link, Step};
use crate::outside::compression::{zstd_content, EncodeError};
use crate::packing::{decoder_reports, encoder_reports, zstd_decode, zstd_encode};
use crate::secure::{Noise, Session};
use crate::wire::{
    chunk, chunk_count, message_header, parsed, parsing_undoes_writing, spec_is_text, Metadata,
    CHUNK_HEADER_LEN, CHUNK_SIZE, MAX_CHUNKS, METADATA_LEN, MIN_COMPRESSION_LEN,
};
use vstd::prelude::*;

verus! {

/// Why a clipboard was not sent.
#[derive(Debug)]
pub enum SendError {
    Io(std::io::Error),
    Noise(snow::Error),
    Zstd(std::io::Error),
    ClipboardEmpty,
    ClipboardTooBig { bytes: usize },
}

impl SendError {
    pub open spec fn spec_recoverable(self) -> bool {
        match self {
            SendError::Io(_) => false,
            SendError::Noise(_) => false,
            _ => true,
        }
    }

    /// Whether nothing of the message can have been written, so that the connection can go on.
    pub fn recoverable(&self) -> (recoverable: bool)
        ensures
            recoverable == self.spec_recoverable(),
            recoverable == !(self is Io || self is Noise),
    {
        match self {
            SendError::ClipboardEmpty => true,
            SendError::ClipboardTooBig { .. } => true,
            SendError::Zstd(_) => true,
            SendError::Io(_) => false,
            SendError::Noise(_) => false,
        }
    }
}

/// What a peer cannot have meant.
#[derive(Debug)]
pub enum LogicError {
    /// A chunk that is not authentic.
    Decode(snow::Error),
    /// A message of several chunks that is not compressed.
    UncompressedChunks,
    /// An image that is too short to have dimensions.
    MissingDimensions,
    /// An image with a dimension that this machine cannot hold.
    DimensionTooLarge,
}

/// Why no clipboard was received.
#[derive(Debug)]
pub enum ReadError {
    Io(std::io::Error),
    Eof,
    Noise(snow::Error),
    Zstd(std::io::Error),
    NonUt8(std::string::FromUtf8Error),
    Adhoc(LogicError),
}

/// The header that four bytes are.
fn header_of(bytes: &[u8]) -> (header: [u8; 4])
    requires
        bytes@.len() == 4,
    ensures
        header@ == bytes@,
{
    let header: [u8; 4] = [bytes[0], bytes[1], bytes[2], bytes[3]];
    assert(header@ =~= bytes@);
    header
}

/// Why the bytes of a message say nothing, where they do not.
pub open spec fn explains(is_text: bool, bytes: Seq<u8>, error: ReadError) -> bool {
    if is_text {
        error is NonUt8
    } else if bytes.len() < 16 {
        error == ReadError::Adhoc(LogicError::MissingDimensions)
    } else {
        error == ReadError::Adhoc(LogicError::DimensionTooLarge)
    }
}

/// The clipboard that the bytes of a message are: a text in UTF-8, or the pixels of an image
/// followed by its width and its height.
pub fn parse(bytes: Vec<u8>, is_text: bool) -> (res: Result<ClipboardChange, ReadError>)
    ensures
        match parsed(is_text, bytes@) {
            Some(content) => res matches Ok(change) && change@ == content,
            None => res matches Err(error) && explains(is_text, bytes@, error),
        },
{
    if is_text {
        return match String::from_utf8(bytes) {
            Ok(text) => Ok(ClipboardChange::Text(text)),
            Err(e) => Err(ReadError::NonUt8(e)),
        };
    }
    let ghost received = bytes@;
    let mut bytes: Vec<u8> = bytes;
    let len: usize = bytes.len();
    if len < 16 {
        return Err(ReadError::Adhoc(LogicError::MissingDimensions));
    }
    let width_bytes = vstd::slice::slice_subrange(bytes.as_slice(), len - 16, len - 8);
    let height_bytes = vstd::slice::slice_subrange(bytes.as_slice(), len - 8, len);
    let width: usize = match usize::try_from(vstd::bytes::u64_from_le_bytes(width_bytes)) {
        Ok(width) => width,
        Err(_) => return Err(ReadError::Adhoc(LogicError::DimensionTooLarge)),
    };
    let height: usize = match usize::try_from(vstd::bytes::u64_from_le_bytes(height_bytes)) {
        Ok(height) => height,
        Err(_) => return Err(ReadError::Adhoc(LogicError::DimensionTooLarge)),
    };
    bytes.truncate(len - 16);
    assert(bytes@ =~= received.take(len - 16));
    Ok(ClipboardChange::Image(ImageData { width, height, bytes }))
}

/// What a connection waited for and got.
#[derive(Debug)]
pub enum ReadEvent {
    /// Some or all of the bytes that were wanted.
    Bytes(Vec<u8>),
    /// The connection ended before the rest of them.
    Eof(std::io::Error),
    /// Reading them failed otherwise.
    Failed(std::io::Error),
}

/// What comes of the next bytes of a message.
pub enum Received {
    /// There is more to come.
    Pending,
    /// A message that was not compressed.
    Plain(Vec<u8>, Metadata),
    /// A message that is to be decompressed.
    Packed,
}

/// What comes of reading on, once a clipboard is complete or the peer is gone.
#[derive(Debug)]
pub enum Incoming {
    /// There is more to come.
    Pending,
    /// The peer hung up between two messages.
    Closed,
    /// A clipboard.
    Change(ClipboardChange),
}

/// What became of a clipboard that was to be sent.
#[derive(Debug)]
pub enum Sending {
    /// It was sent.
    Sent,
    /// It was not, and nothing was written.
    Skipped(SendError),
}

/// Whether sending went well, by what became of it.
pub open spec fn sending_result(res: Result<Sending, SendError>) -> Result<(), SendError> {
    match res {
        Ok(Sending::Sent) => Ok(()),
        Ok(Sending::Skipped(e)) => Err(e),
        Err(e) => Err(e),
    }
}

/// The error of sending that an error of the encoder is.
pub open spec fn encoding_failure(error: EncodeError) -> SendError {
    match error {
        EncodeError::Start(e) => SendError::Io(e),
        EncodeError::Write(e) => SendError::Zstd(e),
        EncodeError::Finish(e) => SendError::Io(e),
    }
}

/// What parsing the bytes of a message leads to.
pub open spec fn handed_out(
    is_text: bool,
    bytes: Seq<u8>,
    res: Result<Incoming, ReadError>,
) -> bool {
    match parsed(is_text, bytes) {
        Some(content) => res matches Ok(Incoming::Change(change)) && change@ == content,
        None => res matches Err(error) && explains(is_text, bytes, error),
    }
}

impl Link {
    /// What reading the next bytes of a message leads to. Where a message is to be decompressed,
    /// an error is one that the decoder reported on what has been collected of it.
    pub open spec fn read_inner(
        self,
        event: ReadEvent,
        after: Link,
        res: Result<Option<(Vec<u8>, Metadata)>, ReadError>,
    ) -> bool {
        match event {
            ReadEvent::Eof(e) => after == self && res == Err::<Option<(Vec<u8>, Metadata)>, _>(
                if self.meta is None {
                    ReadError::Eof
                } else {
                    ReadError::Io(e)
                },
            ),
            ReadEvent::Failed(e) => after == self && res == Err::<Option<(Vec<u8>, Metadata)>, _>(
                ReadError::Io(e),
            ),
            ReadEvent::Bytes(bytes) => {
                let (link, step) = self.step(bytes@);
                match step {
                    Step::Pending => after == link && res matches Ok(None),
                    Step::Plain { bytes, meta, header } => res matches Ok(Some((read, metadata)))
                        && read@ == bytes && metadata.holds(Some(meta), Some(header)) && after
                        == link,
                    Step::Packed => {
                        ||| res matches Err(ReadError::Zstd(e)) && decoder_reports(link.finished, e)
                            && after == link
                        ||| res matches Ok(Some((read, metadata))) && Some(read@)
                            == zstd_content(link.finished) && metadata.holds(link.meta, link.header)
                            && after == link.unpacked()
                    },
                    Step::Refused => after == link && res matches Err(
                        ReadError::Adhoc(LogicError::Decode(_)),
                    ),
                    Step::Unexpected => after == link && res == Err::<
                        Option<(Vec<u8>, Metadata)>,
                        _,
                    >(ReadError::Adhoc(LogicError::UncompressedChunks)),
                }
            },
        }
    }

    /// What reading the next bytes leads to, for one who waits for a clipboard.
    pub open spec fn read(
        self,
        event: ReadEvent,
        after: Link,
        res: Result<Incoming, ReadError>,
    ) -> bool {
        match event {
            ReadEvent::Eof(e) => after == self && res == if self.meta is None {
                Ok(Incoming::Closed)
            } else {
                Err(ReadError::Io(e))
            },
            ReadEvent::Failed(e) => after == self && res == Err::<Incoming, _>(ReadError::Io(e)),
            ReadEvent::Bytes(bytes) => {
                let (link, step) = self.step(bytes@);
                match step {
                    Step::Pending => after == link && res == Ok::<_, ReadError>(Incoming::Pending),
                    Step::Plain { bytes, meta, .. } => after == link && handed_out(
                        spec_is_text(meta),
                        bytes,
                        res,
                    ),
                    Step::Packed => {
                        ||| res matches Err(ReadError::Zstd(e)) && decoder_reports(link.finished, e)
                            && after == link
                        ||| zstd_content(link.finished) matches Some(bytes) && handed_out(
                            spec_is_text(link.meta->Some_0),
                            bytes,
                            res,
                        ) && after == link.unpacked()
                    },
                    Step::Refused => after == link && res matches Err(
                        ReadError::Adhoc(LogicError::Decode(_)),
                    ),
                    Step::Unexpected => after == link && res == Err::<Incoming, _>(
                        ReadError::Adhoc(LogicError::UncompressedChunks),
                    ),
                }
            },
        }
    }
}

impl Session {
    /// What sending bytes leads to: what is written, and how the session goes on. What is written
    /// can be decrypted. A message that is too big is refused before anything is written; one that
    /// the session cannot encrypt to its end, when that shows.
    pub open spec fn sends(
        self,
        is_text: bool,
        compress: bool,
        bytes: Seq<u8>,
        after: Session,
        written: Seq<u8>,
        res: Result<(), SendError>,
    ) -> bool {
        if chunk_count(bytes.len()) > MAX_CHUNKS {
            &&& res == Err::<(), _>(SendError::ClipboardTooBig { bytes: bytes.len() as usize })
            &&& after == self
            &&& written == Seq::<u8>::empty()
        } else if chunk_count(bytes.len()) <= self.nonces_left() {
            &&& res == Ok::<_, SendError>(())
            &&& after == self.sent(chunk_count(bytes.len()))
            &&& written == self.message(is_text, compress, bytes)
            &&& self.legible(bytes, chunk_count(bytes.len()))
        } else {
            &&& res matches Err(SendError::Noise(_))
            &&& after == self.sent(self.nonces_left())
            &&& written == message_header(is_text, compress, chunk_count(bytes.len()) as u16)
                + self.frames(bytes, self.nonces_left())
            &&& self.legible(bytes, self.nonces_left())
        }
    }

    /// What sending a clipboard leads to. An empty one is refused. If the encoder reports an error
    /// on the payload, that is the error, and nothing is written.
    pub open spec fn sends_content(
        self,
        content: Content,
        after: Session,
        written: Seq<u8>,
        res: Result<(), SendError>,
    ) -> bool {
        if content.len() == 0 {
            &&& res == Err::<(), _>(SendError::ClipboardEmpty)
            &&& after == self
            &&& written == Seq::<u8>::empty()
        } else {
            ||| self.sends(
                content is Text,
                content.compressed(),
                content.packed(),
                after,
                written,
                res,
            )
            ||| {
                &&& content.compressed()
                &&& exists|error: EncodeError| #[trigger]
                    encoder_reports(content.payload(), 0, error) && res == Err::<(), _>(
                        encoding_failure(error),
                    )
                &&& after == self
                &&& written == Seq::<u8>::empty()
            }
        }
    }
}

/// A connection to a peer: an established session, and what has been read of the next message.
pub struct Connection {
    peer_addr: String,
    noise: Noise,
    finished: Vec<u8>,
    current_meta: Option<Metadata>,
    partial: Vec<u8>,
}

impl View for Connection {
    type V = Link;

    closed spec fn view(&self) -> Link {
        Link {
            session: self.noise@,
            meta: match self.current_meta {
                Some(meta) => Some(meta.meta_bytes@),
                None => None,
            },
            header: match self.current_meta {
                Some(meta) => match meta.current_chunk_header {
                    Some(header) => Some(header@),
                    None => None,
                },
                None => None,
            },
            finished: self.finished@,
            partial: self.partial@,
        }
    }
}

impl Connection {
    pub closed spec fn wf(&self) -> bool {
        &&& self.noise.wf()
        &&& self.partial@.len() <= self@.piece_len()
    }

    pub closed spec fn spec_peer_addr(&self) -> Seq<char> {
        self.peer_addr@
    }

    /// A connection over an established session.
    pub fn new(peer_addr: String, noise: Noise) -> (connection: Self)
        requires
            noise.wf(),
        ensures
            connection.wf(),
            connection@.idle(),
            connection@.session == noise@,
            connection.spec_peer_addr() == peer_addr@,
    {
        Connection {
            peer_addr,
            noise,
            finished: Vec::new(),
            current_meta: None,
            partial: Vec::new(),
        }
    }

    pub fn peer_addr(&self) -> (addr: &str)
        ensures
            addr@ == self.spec_peer_addr(),
    {
        self.peer_addr.as_str()
    }

    /// The length of the piece that is being read.
    fn piece_len(&self) -> (n: usize)
        ensures
            n == self@.piece_len(),
    {
        match self.current_meta {
            None => METADATA_LEN,
            Some(meta) => match meta.current_chunk_header {
                None => CHUNK_HEADER_LEN,
                Some(header) => Metadata::chunk_len(header),
            },
        }
    }

    /// The number of bytes that are missing from the piece that is being read.
    pub fn wanted(&self) -> (n: usize)
        requires
            self.wf(),
        ensures
            n == self@.wanted(),
    {
        self.piece_len() - self.partial.len()
    }

    /// Takes the next bytes, some or all of those that are wanted.
    pub fn receive(&mut self, bytes: &[u8]) -> (res: Result<Received, ReadError>)
        requires
            old(self).wf(),
            bytes@.len() <= old(self)@.wanted(),
        ensures
            final(self).wf(),
            final(self).spec_peer_addr() == old(self).spec_peer_addr(),
            final(self)@ == old(self)@.step(bytes@).0,
            match old(self)@.step(bytes@).1 {
                Step::Pending => res == Ok::<_, ReadError>(Received::Pending),
                Step::Plain { bytes, meta, header } => res matches Ok(
                    Received::Plain(plain, metadata),
                ) && plain@ == bytes && metadata.holds(Some(meta), Some(header)),
                Step::Packed => res == Ok::<_, ReadError>(Received::Packed),
                Step::Refused => res matches Err(ReadError::Adhoc(LogicError::Decode(_))),
                Step::Unexpected => res == Err::<Received, _>(
                    ReadError::Adhoc(LogicError::UncompressedChunks),
                ),
            },
    {
        self.partial.extend_from_slice(bytes);
        assert(self.partial@ =~= old(self).partial@ + bytes@);
        if self.partial.len() < self.piece_len() {
            return Ok(Received::Pending);
        }
        let mut piece: Vec<u8> = Vec::new();
        std::mem::swap(&mut piece, &mut self.partial);
        let piece = piece.as_slice();
        let mut meta: Metadata = match self.current_meta {
            Some(meta) => meta,
            None => {
                self.current_meta = Some(
                    Metadata { meta_bytes: header_of(piece), current_chunk_header: None },
                );
                return Ok(Received::Pending);
            },
        };
        let chunk_header = match meta.current_chunk_header {
            Some(header) => header,
            None => {
                meta.current_chunk_header = Some(header_of(piece));
                self.current_meta = Some(meta);
                return Ok(Received::Pending);
            },
        };
        let decoded = match self.noise.decode_message(piece) {
            Ok(decoded) => decoded,
            Err(e) => return Err(ReadError::Adhoc(LogicError::Decode(e))),
        };
        if !meta.compress() {
            if meta.n_chunks() != 1 {
                return Err(ReadError::Adhoc(LogicError::UncompressedChunks));
            }
            self.current_meta = None;
            return Ok(Received::Plain(vstd::slice::slice_to_vec(decoded), meta));
        }
        self.finished.extend_from_slice(decoded);
        assert(self.finished@ =~= old(self).finished@ + decoded@);
        if Metadata::chunk_idx(chunk_header) == meta.n_chunks().wrapping_sub(1) {
            return Ok(Received::Packed);
        }
        meta.current_chunk_header = None;
        self.current_meta = Some(meta);
        Ok(Received::Pending)
    }

    /// Hands out the current message, once it is complete and decompression has had its say.
    pub fn unpack(&mut self, decompressed: Result<Vec<u8>, std::io::Error>) -> (res: Result<
        (Vec<u8>, Metadata),
        ReadError,
    >)
        requires
            old(self).wf(),
            old(self)@.meta is Some,
            old(self)@.partial.len() == 0,
        ensures
            final(self).wf(),
            final(self).spec_peer_addr() == old(self).spec_peer_addr(),
            match decompressed {
                Ok(bytes) => res matches Ok((read, metadata)) && read == bytes && metadata.holds(
                    old(self)@.meta,
                    old(self)@.header,
                ) && final(self)@ == old(self)@.unpacked(),
                Err(e) => final(self)@ == old(self)@ && res == Err::<(Vec<u8>, Metadata), _>(
                    ReadError::Zstd(e),
                ),
            },
    {
        match decompressed {
            Ok(bytes) => {
                self.finished.clear();
                assert(self.finished@ =~= Seq::<u8>::empty());
                let meta = self.current_meta.take().unwrap();
                Ok((bytes, meta))
            },
            Err(e) => Err(ReadError::Zstd(e)),
        }
    }

    /// Takes the next bytes; once a message is complete, its bytes come out with its header.
    pub fn read_inner(&mut self, event: ReadEvent) -> (res: Result<
        Option<(Vec<u8>, Metadata)>,
        ReadError,
    >)
        requires
            old(self).wf(),
            event matches ReadEvent::Bytes(bytes) ==> bytes@.len() <= old(self)@.wanted(),
        ensures
            final(self).wf(),
            final(self).spec_peer_addr() == old(self).spec_peer_addr(),
            old(self)@.read_inner(event, final(self)@, res),
    {
        let bytes: Vec<u8> = match event {
            ReadEvent::Bytes(bytes) => bytes,
            ReadEvent::Eof(e) => return match self.current_meta {
                None => Err(ReadError::Eof),
                Some(_) => Err(ReadError::Io(e)),
            },
            ReadEvent::Failed(e) => return Err(ReadError::Io(e)),
        };
        match self.receive(bytes.as_slice()) {
            Ok(Received::Pending) => Ok(None),
            Ok(Received::Plain(bytes, meta)) => Ok(Some((bytes, meta))),
            Ok(Received::Packed) => {
                let decompressed = zstd_decode(self.finished.as_slice());
                match self.unpack(decompressed) {
                    Ok(message) => Ok(Some(message)),
                    Err(e) => Err(e),
                }
            },
            Err(e) => Err(e),
        }
    }

    /// Takes the next bytes; once a clipboard is complete, it comes out.
    pub fn read(&mut self, event: ReadEvent) -> (res: Result<Incoming, ReadError>)
        requires
            old(self).wf(),
            event matches ReadEvent::Bytes(bytes) ==> bytes@.len() <= old(self)@.wanted(),
        ensures
            final(self).wf(),
            final(self).spec_peer_addr() == old(self).spec_peer_addr(),
            old(self)@.read(event, final(self)@, res),
    {
        match self.read_inner(event) {
            Ok(None) => Ok(Incoming::Pending),
            Ok(Some((bytes, meta))) => match parse(bytes, meta.is_text()) {
                Ok(change) => Ok(Incoming::Change(change)),
                Err(e) => Err(e),
            },
            Err(ReadError::Eof) => Ok(Incoming::Closed),
            Err(e) => Err(e),
        }
    }

    /// Sends the bytes of a clipboard, as they are or compressed.
    pub fn send_packed(
        &mut self,
        is_text: bool,
        compress: bool,
        packed: &[u8],
        out: &mut Vec<u8>,
    ) -> (res: Result<(), SendError>)
        requires
            old(self).wf(),
        ensures
            final(self).wf(),
            final(self).spec_peer_addr() == old(self).spec_peer_addr(),
            final(self)@ == (Link { session: final(self)@.session, ..old(self)@ }),
            old(out)@.is_prefix_of(final(out)@),
            old(self)@.session.sends(
                is_text,
                compress,
                packed@,
                final(self)@.session,
                final(out)@.skip(old(out)@.len() as int),
                res,
            ),
    {
        let ghost session = self@.session;
        let len: usize = packed.len();
        let n_chunks: usize = if len % CHUNK_SIZE == 0 {
            len / CHUNK_SIZE
        } else {
            1 + len / CHUNK_SIZE
        };
        assert(n_chunks == chunk_count(len as nat));
        if n_chunks > MAX_CHUNKS {
            assert(out@.skip(old(out)@.len() as int) =~= Seq::<u8>::empty());
            return Err(SendError::ClipboardTooBig { bytes: len });
        }
        let n_chunks: u16 = n_chunks as u16;
        let ghost header = message_header(is_text, compress, n_chunks);
        out.push(
            if is_text {
                0u8
            } else {
                1u8
            },
        );
        out.push(
            if compress {
                1u8
            } else {
                0u8
            },
        );
        put_u16_le(out, n_chunks);
        assert(out@ =~= old(out)@ + header + session.frames(packed@, 0));
        let mut idx: u16 = 0;
        while idx < n_chunks
            invariant
                self.wf(),
                self.spec_peer_addr() == old(self).spec_peer_addr(),
                self@ == (Link { session: self@.session, ..old(self)@ }),
                session == old(self)@.session,
                len == packed@.len(),
                n_chunks == chunk_count(len as nat),
                idx <= n_chunks <= MAX_CHUNKS,
                session.sending_nonce + idx <= u64::MAX,
                self@.session == session.sent(idx as nat),
                out@ == old(out)@ + header + session.frames(packed@, idx as nat),
                header == message_header(is_text, compress, n_chunks),
                session.legible(packed@, idx as nat),
            decreases n_chunks - idx,
        {
            let start: usize = idx as usize * CHUNK_SIZE;
            let end: usize = if len - start >= CHUNK_SIZE {
                start + CHUNK_SIZE
            } else {
                len
            };
            let chunk_bytes = vstd::slice::slice_subrange(packed, start, end);
            assert(chunk_bytes@ == chunk(packed@, idx as int));
            let encoded = match self.noise.encode_message(chunk_bytes) {
                Ok(encoded) => encoded,
                Err(e) => {
                    assert(idx == session.nonces_left());
                    assert(out@.skip(old(out)@.len() as int) =~= header + session.frames(
                        packed@,
                        idx as nat,
                    ));
                    return Err(SendError::Noise(e));
                },
            };
            put_u16_le(out, idx);
            put_u16_le(out, encoded.len() as u16);
            put_bytes(out, encoded);
            assert(encoded@ == session.sealed_chunk(packed@, idx as int));
            idx = idx + 1;
        }
        assert(out@.skip(old(out)@.len() as int) =~= session.message(is_text, compress, packed@));
        Ok(())
    }

    /// Sends the bytes of a clipboard, once compression has had its say.
    pub fn send_encoded(
        &mut self,
        is_text: bool,
        encoded: Result<Vec<u8>, EncodeError>,
        out: &mut Vec<u8>,
    ) -> (res: Result<(), SendError>)
        requires
            old(self).wf(),
        ensures
            final(self).wf(),
            final(self).spec_peer_addr() == old(self).spec_peer_addr(),
            final(self)@ == (Link { session: final(self)@.session, ..old(self)@ }),
            old(out)@.is_prefix_of(final(out)@),
            encoded is Err ==> final(self)@ == old(self)@ && final(out)@ == old(out)@,
            match encoded {
                Ok(packed) => old(self)@.session.sends(
                    is_text,
                    true,
                    packed@,
                    final(self)@.session,
                    final(out)@.skip(old(out)@.len() as int),
                    res,
                ),
                Err(EncodeError::Start(e)) => res == Err::<(), _>(SendError::Io(e)),
                Err(EncodeError::Write(e)) => res == Err::<(), _>(SendError::Zstd(e)),
                Err(EncodeError::Finish(e)) => res == Err::<(), _>(SendError::Io(e)),
            },
    {
        match encoded {
            Ok(packed) => self.send_packed(is_text, true, packed.as_slice(), out),
            Err(EncodeError::Start(e)) => Err(SendError::Io(e)),
            Err(EncodeError::Write(e)) => Err(SendError::Zstd(e)),
            Err(EncodeError::Finish(e)) => Err(SendError::Io(e)),
        }
    }

    /// Sends a clipboard.
    pub fn send_inner(&mut self, update: &ClipboardChange, out: &mut Vec<u8>) -> (res: Result<
        (),
        SendError,
    >)
        requires
            old(self).wf(),
        ensures
            final(self).wf(),
            final(self).spec_peer_addr() == old(self).spec_peer_addr(),
            final(self)@ == (Link { session: final(self)@.session, ..old(self)@ }),
            old(out)@.is_prefix_of(final(out)@),
            old(self)@.session.sends_content(
                update@,
                final(self)@.session,
                final(out)@.skip(old(out)@.len() as int),
                res,
            ),
            res is Ok ==> old(self)@.session.legible(update@.packed(), update@.chunks()),
            res is Ok && update@.gets_across() ==> arrives(
                old(self)@.session,
                final(out)@.skip(old(out)@.len() as int),
                update@,
                update@.chunks(),
            ),
    {
        assert(out@.skip(out@.len() as int) =~= Seq::<u8>::empty());
        if update.is_empty() {
            return Err(SendError::ClipboardEmpty);
        }
        let is_text: bool = match update {
            ClipboardChange::Text(_) => true,
            ClipboardChange::Image(_) => false,
        };
        let mut payload: Vec<u8> = Vec::new();
        update.write_all(&mut payload);
        assert(payload@ =~= update@.payload());
        let res = if update.len() > MIN_COMPRESSION_LEN {
            let encoded = zstd_encode(payload.as_slice(), 0);
            self.send_encoded(is_text, encoded, out)
        } else {
            self.send_packed(is_text, false, payload.as_slice(), out)
        };
        proof {
            if res is Ok && update@.gets_across() {
                parsing_undoes_writing(update@);
                arrival(
                    old(self)@.session,
                    is_text,
                    update@.compressed(),
                    update@.packed(),
                    payload@,
                    update@,
                );
            }
        }
        res
    }

    /// Sends a clipboard. One that cannot be sent is skipped, as long as nothing of it has been
    /// written.
    pub fn send(&mut self, update: &ClipboardChange, out: &mut Vec<u8>) -> (res: Result<
        Sending,
        SendError,
    >)
        requires
            old(self).wf(),
        ensures
            final(self).wf(),
            final(self).spec_peer_addr() == old(self).spec_peer_addr(),
            final(self)@ == (Link { session: final(self)@.session, ..old(self)@ }),
            old(out)@.is_prefix_of(final(out)@),
            old(self)@.session.sends_content(
                update@,
                final(self)@.session,
                final(out)@.skip(old(out)@.len() as int),
                sending_result(res),
            ),
            res matches Ok(Sending::Skipped(e)) ==> e.spec_recoverable() && final(self)@ == old(
                self,
            )@ && final(out)@ == old(out)@,
            res matches Err(e) ==> !e.spec_recoverable(),
            res matches Ok(Sending::Sent) ==> old(self)@.session.legible(
                update@.packed(),
                update@.chunks(),
            ),
            res matches Ok(Sending::Sent) ==> (update@.gets_across() ==> arrives(
                old(self)@.session,
                final(out)@.skip(old(out)@.len() as int),
                update@,
                update@.chunks(),
            )),
    {
        match self.send_inner(update, out) {
            Ok(()) => Ok(Sending::Sent),
            Err(e) => {
                if e.recoverable() {
                    assert(out@ =~= old(out)@ + out@.skip(old(out)@.len() as int));
                    Ok(Sending::Skipped(e))
                } else {
                    Err(e)
                }
            },
        }
    }
}

} // verus!
