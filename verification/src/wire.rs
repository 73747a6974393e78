//! The form of clipboards on the wire.
//!
//! A message is a header of four bytes (the kind, whether it is compressed, and the number of
//! chunks), followed by the chunks. Each chunk is a header of four bytes (its index and its
//! length), followed by its encrypted content.

use crate::bytes::{from_le64, join16, join16_of_split, le16, le64, le64_round_trip, u16_of};
use crate::clipboard::Content;
use crate::outside::compression::zstd_frame;
use crate::outside::noise::{opened, sealed, TAG_LEN};
use crate::secure::Session;
use vstd::prelude::*;
use vstd::utf8::{decode_utf8, encode_utf8, valid_utf8};

verus! {

/// The length of the longest content that is sent uncompressed.
pub const MIN_COMPRESSION_LEN: usize = 1024;

/// The length of a chunk before encryption.
pub const CHUNK_SIZE: usize = 64512;

/// The largest number of chunks in a message.
pub const MAX_CHUNKS: usize = 1000;

/// The length of the header of a message.
pub const METADATA_LEN: usize = 4;

/// The length of the header of a chunk.
pub const CHUNK_HEADER_LEN: usize = 4;

/// The header of a message, and that of its current chunk.
#[derive(Clone, Copy)]
pub struct Metadata {
    pub meta_bytes: [u8; METADATA_LEN],
    pub current_chunk_header: Option<[u8; CHUNK_HEADER_LEN]>,
}

/// Whether the message with a header is compressed.
pub open spec fn spec_compress(meta: Seq<u8>) -> bool {
    meta[1] == 1
}

/// The number of chunks of the message with a header.
pub open spec fn spec_n_chunks(meta: Seq<u8>) -> u16 {
    join16(meta[2], meta[3])
}

/// The length of the chunk with a header.
pub open spec fn spec_chunk_len(header: Seq<u8>) -> u16 {
    join16(header[2], header[3])
}

/// The index of the chunk with a header.
pub open spec fn spec_chunk_idx(header: Seq<u8>) -> u16 {
    join16(header[0], header[1])
}

/// Whether the message with a header is a text; otherwise it is an image.
pub open spec fn spec_is_text(meta: Seq<u8>) -> bool {
    meta[0] == 0
}

impl Default for Metadata {
    fn default() -> (meta: Self)
        ensures
            meta.meta_bytes@ == seq![0u8, 0u8, 0u8, 0u8],
            meta.current_chunk_header is None,
    {
        let meta = Metadata { meta_bytes: [0, 0, 0, 0], current_chunk_header: None };
        assert(meta.meta_bytes@ =~= seq![0u8, 0u8, 0u8, 0u8]);
        meta
    }
}

impl Metadata {
    /// Whether these are the headers of a message and of its current chunk.
    pub open spec fn holds(&self, meta: Option<Seq<u8>>, header: Option<Seq<u8>>) -> bool {
        &&& meta == Some(self.meta_bytes@)
        &&& header == match self.current_chunk_header {
            Some(header) => Some(header@),
            None => None,
        }
    }

    pub fn compress(&self) -> (compress: bool)
        ensures
            compress == spec_compress(self.meta_bytes@),
            compress == (self.meta_bytes@[1] == 1),
    {
        self.meta_bytes[1] == 1
    }

    pub fn n_chunks(&self) -> (n: u16)
        ensures
            n == spec_n_chunks(self.meta_bytes@),
            n == self.meta_bytes@[2] + 256 * self.meta_bytes@[3],
    {
        u16_of(self.meta_bytes[2], self.meta_bytes[3])
    }

    pub fn chunk_len(chunk_header: [u8; CHUNK_HEADER_LEN]) -> (len: usize)
        ensures
            len == spec_chunk_len(chunk_header@),
            len == chunk_header@[2] + 256 * chunk_header@[3],
    {
        u16_of(chunk_header[2], chunk_header[3]) as usize
    }

    pub fn chunk_idx(chunk_header: [u8; CHUNK_HEADER_LEN]) -> (idx: u16)
        ensures
            idx == spec_chunk_idx(chunk_header@),
            idx == chunk_header@[0] + 256 * chunk_header@[1],
    {
        u16_of(chunk_header[0], chunk_header[1])
    }

    pub fn is_text(&self) -> (is_text: bool)
        ensures
            is_text == spec_is_text(self.meta_bytes@),
            is_text == (self.meta_bytes@[0] == 0),
    {
        self.meta_bytes[0] == 0
    }
}

/// The number of chunks that `len` bytes are cut into.
pub open spec fn chunk_count(len: nat) -> nat {
    (len + CHUNK_SIZE - 1) as nat / CHUNK_SIZE as nat
}

/// The `i`th of the chunks that bytes are cut into. The last one may be shorter.
pub open spec fn chunk(bytes: Seq<u8>, i: int) -> Seq<u8> {
    bytes.subrange(
        i * CHUNK_SIZE,
        if (i + 1) * CHUNK_SIZE <= bytes.len() {
            (i + 1) * CHUNK_SIZE
        } else {
            bytes.len() as int
        },
    )
}

/// The header of a message.
pub open spec fn message_header(is_text: bool, compress: bool, n_chunks: u16) -> Seq<u8> {
    seq![
        if is_text {
            0u8
        } else {
            1u8
        },
        if compress {
            1u8
        } else {
            0u8
        },
    ] + le16(n_chunks)
}

/// The header of a message says what was sent.
pub proof fn header_says_what_was_sent(is_text: bool, compress: bool, n_chunks: u16)
    ensures
        message_header(is_text, compress, n_chunks).len() == METADATA_LEN,
        spec_is_text(message_header(is_text, compress, n_chunks)) == is_text,
        spec_compress(message_header(is_text, compress, n_chunks)) == compress,
        spec_n_chunks(message_header(is_text, compress, n_chunks)) == n_chunks,
{
    join16_of_split(n_chunks);
}

/// A message is too big from a fixed number of bytes on.
pub proof fn size_limit(len: nat)
    ensures
        chunk_count(len) > MAX_CHUNKS <==> len > MAX_CHUNKS * CHUNK_SIZE,
{
}

impl Session {
    /// The `i`th chunk of a message, encrypted.
    pub open spec fn sealed_chunk(self, bytes: Seq<u8>, i: int) -> Seq<u8> {
        sealed(self.sending_key, (self.sending_nonce + i) as u64, chunk(bytes, i))
    }

    /// The `i`th chunk of a message, encrypted, behind its header.
    pub open spec fn frame(self, bytes: Seq<u8>, i: int) -> Seq<u8> {
        le16(i as u16) + le16(self.sealed_chunk(bytes, i).len() as u16) + self.sealed_chunk(
            bytes,
            i,
        )
    }

    /// The first `n` chunks of a message, encrypted, each behind its header.
    pub open spec fn frames(self, bytes: Seq<u8>, n: nat) -> Seq<u8>
        decreases n,
    {
        if n == 0 {
            Seq::empty()
        } else {
            self.frames(bytes, (n - 1) as nat) + self.frame(bytes, n - 1)
        }
    }

    /// The number of messages that can still be encrypted.
    pub open spec fn nonces_left(self) -> nat {
        (u64::MAX - self.sending_nonce) as nat
    }

    /// A whole message.
    pub open spec fn message(self, is_text: bool, compress: bool, bytes: Seq<u8>) -> Seq<u8> {
        message_header(is_text, compress, chunk_count(bytes.len()) as u16) + self.frames(
            bytes,
            chunk_count(bytes.len()),
        )
    }

    /// Whether each of the first `n` chunks of a message can be decrypted.
    pub open spec fn legible(self, bytes: Seq<u8>, n: nat) -> bool {
        forall|i: int|
            0 <= i < n ==> {
                &&& (#[trigger] self.sealed_chunk(bytes, i)).len() == chunk(bytes, i).len()
                    + TAG_LEN
                &&& opened(
                    self.sending_key,
                    (self.sending_nonce + i) as u64,
                    self.sealed_chunk(bytes, i),
                ) == Some(chunk(bytes, i))
            }
    }
}

/// Whether a message of `len` bytes gets across. There has to be something in it, and if it is not
/// compressed, it has to fit into a chunk.
pub open spec fn gets_across(compress: bool, len: nat) -> bool {
    len > 0 && (compress || len <= CHUNK_SIZE)
}

impl Content {
    /// Whether the content is compressed before it is sent.
    pub open spec fn compressed(self) -> bool {
        self.len() > MIN_COMPRESSION_LEN
    }

    /// The bytes that are sent for the content.
    pub open spec fn packed(self) -> Seq<u8> {
        if self.compressed() {
            zstd_frame(self.payload(), 0)
        } else {
            self.payload()
        }
    }

    /// The number of chunks of the message that is sent for the content.
    pub open spec fn chunks(self) -> nat {
        chunk_count(self.packed().len())
    }

    /// Whether the message that is sent for the content gets across. Only an image whose pixels
    /// are out of proportion to its dimensions fails to.
    pub open spec fn gets_across(self) -> bool {
        self.compressed() || self.payload().len() <= CHUNK_SIZE
    }
}

/// Every text that a machine can hold gets across.
pub proof fn texts_get_across(text: Seq<char>)
    requires
        encode_utf8(text).len() <= usize::MAX,
    ensures
        Content::Text(text).gets_across(),
{
}

/// Every image with four bytes to a pixel gets across.
pub proof fn images_in_proportion_get_across(width: usize, height: usize, bytes: Seq<u8>)
    requires
        bytes.len() == 4 * (width * height),
        bytes.len() <= usize::MAX,
    ensures
        (Content::Image { width, height, bytes }).gets_across(),
{
    le64_round_trip(width as u64);
    le64_round_trip(height as u64);
}

/// What the bytes of a message say.
pub open spec fn parsed(is_text: bool, bytes: Seq<u8>) -> Option<Content> {
    if is_text {
        if valid_utf8(bytes) {
            Some(Content::Text(decode_utf8(bytes)))
        } else {
            None
        }
    } else if bytes.len() < 16 {
        None
    } else {
        let len = bytes.len() as int;
        let width = from_le64(bytes.subrange(len - 16, len - 8));
        let height = from_le64(bytes.subrange(len - 8, len));
        if width <= usize::MAX && height <= usize::MAX {
            Some(
                Content::Image {
                    width: width as usize,
                    height: height as usize,
                    bytes: bytes.take(len - 16),
                },
            )
        } else {
            None
        }
    }
}

/// A clipboard's bytes, read as its kind, are the clipboard again.
pub proof fn parsing_undoes_writing(content: Content)
    ensures
        parsed(content is Text, content.payload()) == Some(content),
{
    match content {
        Content::Text(text) => {
            vstd::utf8::encode_utf8_valid_utf8(text);
            vstd::utf8::encode_utf8_decode_utf8(text);
        },
        Content::Image { width, height, bytes } => {
            let payload = content.payload();
            let len = payload.len() as int;
            le64_round_trip(width as u64);
            le64_round_trip(height as u64);
            assert(payload.subrange(len - 16, len - 8) =~= le64(width as u64));
            assert(payload.subrange(len - 8, len) =~= le64(height as u64));
            assert(payload.take(len - 16) =~= bytes);
        },
    }
}

} // verus!
