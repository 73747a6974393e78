//! Zstandard, by the crate `zstd`.

use vstd::prelude::*;

verus! {

/// An I/O error of the standard library, carried through unread.
#[verifier::external_type_specification]
#[verifier::external_body]
pub struct ExIoError(std::io::Error);

/// Where compression broke off, with the error that the stage reported.
#[derive(Debug)]
pub enum EncodeError {
    Start(std::io::Error),
    Write(std::io::Error),
    Finish(std::io::Error),
}

/// The frame that a Zstandard encoder of the given level makes of `data` written to it at once.
pub uninterp spec fn zstd_frame(data: Seq<u8>, level: i32) -> Seq<u8>;

/// What a sequence of Zstandard frames decodes to; `None` where it is malformed or cut short.
pub uninterp spec fn zstd_content(frames: Seq<u8>) -> Option<Seq<u8>>;

/// `zstd::Encoder`: `new`, one `write_all` of the whole of `data`, and `finish`, writing to
/// memory. A frame that comes out depends on the data and the level alone, is not empty, as it
/// begins with a magic number, and decodes to the data. Any of the three stages may fail for want
/// of memory, so success is not promised.
#[verifier::external_body]
pub(crate) fn zstd_encode(data: &[u8], level: i32) -> (res: Result<Vec<u8>, EncodeError>)
    requires
        level == 0,
    ensures
        res matches Ok(frame) ==> frame@ == zstd_frame(data@, level),
        res matches Ok(frame) ==> frame@.len() > 0,
        res matches Ok(frame) ==> zstd_content(frame@) == Some(data@),
{
    let mut encoder = zstd::Encoder::new(Vec::new(), level).map_err(EncodeError::Start)?;
    std::io::Write::write_all(&mut encoder, data).map_err(EncodeError::Write)?;
    encoder.finish().map_err(EncodeError::Finish)
}

/// `zstd::stream::copy_decode` from memory to memory. What comes out is the content of the
/// frames. Decoding may fail for want of memory, so success is not promised.
#[verifier::external_body]
pub(crate) fn zstd_decode(frames: &[u8]) -> (res: Result<Vec<u8>, std::io::Error>)
    ensures
        res matches Ok(data) ==> zstd_content(frames@) == Some(data@),
{
    let mut data = Vec::new();
    zstd::stream::copy_decode(frames, &mut data)?;
    Ok(data)
}

} // verus!
