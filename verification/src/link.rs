//! What a connection knows of its peer, and what it makes of the bytes that come from it.

use crate::clipboard::Content;
use crate::outside::compression::zstd_content;
use crate::outside::noise::opened;
use crate::secure::Session;
use crate::wire::{
    parsed, spec_chunk_idx, spec_chunk_len, spec_compress, spec_is_text, spec_n_chunks,
    CHUNK_HEADER_LEN, METADATA_LEN,
};
use vstd::prelude::*;

verus! {

/// What a connection knows of its peer and of the message that it is reading. A message is read in
/// pieces: its header, and then the header and the content of each chunk.
#[verifier::ext_equal]
pub struct Link {
    pub session: Session,
    /// The header of the current message.
    pub meta: Option<Seq<u8>>,
    /// The header of the current chunk.
    pub header: Option<Seq<u8>>,
    /// The content of the chunks that are complete.
    pub finished: Seq<u8>,
    /// What has come of the current piece.
    pub partial: Seq<u8>,
}

/// What comes of the next bytes of a message.
#[verifier::ext_equal]
pub enum Step {
    /// There is more to come.
    Pending,
    /// The message is complete, and was not compressed.
    Plain { bytes: Seq<u8>, meta: Seq<u8>, header: Seq<u8> },
    /// The message is complete, and what has been read of it is to be decompressed.
    Packed,
    /// The chunk is not authentic.
    Refused,
    /// The message has several chunks, but is not compressed.
    Unexpected,
}

impl Link {
    /// Between two messages.
    pub open spec fn idle(self) -> bool {
        &&& self.meta is None
        &&& self.header is None
        &&& self.finished.len() == 0
        &&& self.partial.len() == 0
    }

    /// The length of the current piece.
    pub open spec fn piece_len(self) -> nat {
        match (self.meta, self.header) {
            (Some(_), Some(header)) => spec_chunk_len(header) as nat,
            (Some(_), None) => CHUNK_HEADER_LEN as nat,
            (None, _) => METADATA_LEN as nat,
        }
    }

    /// The number of bytes that are missing from the current piece.
    pub open spec fn wanted(self) -> nat {
        if self.partial.len() < self.piece_len() {
            (self.piece_len() - self.partial.len()) as nat
        } else {
            0
        }
    }

    /// The link once the current message has been handed out.
    pub open spec fn done(self) -> Link {
        Link { meta: None, header: None, ..self }
    }

    /// The link once the current message has been decompressed and handed out.
    pub open spec fn unpacked(self) -> Link {
        Link { finished: Seq::empty(), ..self.done() }
    }

    /// The link after a whole piece, and what comes of it. A compressed message is complete with
    /// the chunk whose index is one less than the number of chunks that its header announces; a
    /// header that announces none wraps around to the largest index.
    pub open spec fn take_piece(self, piece: Seq<u8>) -> (Link, Step) {
        match (self.meta, self.header) {
            (None, _) => (Link { meta: Some(piece), header: None, ..self }, Step::Pending),
            (Some(_), None) => (Link { header: Some(piece), ..self }, Step::Pending),
            (Some(meta), Some(header)) => if !self.session.accepts(piece) {
                (self, Step::Refused)
            } else {
                let decoded = opened(
                    self.session.receiving_key,
                    self.session.receiving_nonce,
                    piece,
                )->Some_0;
                let link = Link { session: self.session.received(1), ..self };
                if !spec_compress(meta) {
                    if spec_n_chunks(meta) != 1 {
                        (link, Step::Unexpected)
                    } else {
                        (link.done(), Step::Plain { bytes: decoded, meta, header })
                    }
                } else {
                    let link = Link { finished: self.finished + decoded, ..link };
                    if spec_chunk_idx(header) == spec_n_chunks(meta).wrapping_sub(1) {
                        (link, Step::Packed)
                    } else {
                        (Link { header: None, ..link }, Step::Pending)
                    }
                }
            },
        }
    }

    /// The link after the next bytes, and what comes of them: nothing, until the piece is whole.
    pub open spec fn step(self, bytes: Seq<u8>) -> (Link, Step) {
        let piece = self.partial + bytes;
        if piece.len() < self.piece_len() {
            (Link { partial: piece, ..self }, Step::Pending)
        } else {
            (Link { partial: Seq::empty(), ..self }).take_piece(piece)
        }
    }

    /// Reading on through a stream of bytes until something comes of it: the link after that, what
    /// comes, and the rest of the stream. `None` where nothing comes of the whole stream.
    pub open spec fn run(self, stream: Seq<u8>) -> Option<(Link, Step, Seq<u8>)>
        decreases stream.len() + self.partial.len(),
    {
        let wanted = self.wanted() as int;
        if stream.len() < wanted {
            None
        } else {
            let (link, step) = self.step(stream.take(wanted));
            let rest = stream.skip(wanted);
            if step is Pending {
                link.run(rest)
            } else {
                Some((link, step, rest))
            }
        }
    }

    /// Reading on through a stream of bytes until a clipboard comes out: the clipboard, the link
    /// after it and the rest of the stream. `None` where none comes out.
    pub open spec fn read_message(self, stream: Seq<u8>) -> Option<(Content, Link, Seq<u8>)> {
        match self.run(stream) {
            Some((link, Step::Plain { bytes, meta, .. }, rest)) => match parsed(
                spec_is_text(meta),
                bytes,
            ) {
                Some(content) => Some((content, link, rest)),
                None => None,
            },
            Some((link, Step::Packed, rest)) => match zstd_content(link.finished) {
                Some(bytes) => match parsed(spec_is_text(link.meta->Some_0), bytes) {
                    Some(content) => Some((content, link.unpacked(), rest)),
                    None => None,
                },
                None => None,
            },
            _ => None,
        }
    }
}

} // verus!
