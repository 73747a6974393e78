//! Compression whose failures are those of the encoder and the decoder.

use crate::outside::compression::{zstd_content, zstd_frame, EncodeError};
use vstd::prelude::*;

verus! {

/// Whether the decoder, run on the given bytes, reported an error.
pub closed spec fn decoder_reports(frames: Seq<u8>, error: std::io::Error) -> bool {
    exists|input: &[u8]|
        input@ == frames && #[trigger] call_ensures(
            crate::outside::compression::zstd_decode,
            (input,),
            Err(error),
        )
}

/// Whether the encoder, run on the given bytes, reported an error.
pub closed spec fn encoder_reports(data: Seq<u8>, level: i32, error: EncodeError) -> bool {
    exists|input: &[u8]|
        input@ == data && #[trigger] call_ensures(
            crate::outside::compression::zstd_encode,
            (input, level),
            Err(error),
        )
}

/// An error that the decoder is said to have reported came from a run of it on those bytes.
pub(crate) proof fn a_reported_decoding_error_came_from_the_decoder(
    frames: Seq<u8>,
    error: std::io::Error,
)
    ensures
        decoder_reports(frames, error) ==> exists|input: &[u8]|
            input@ == frames && #[trigger] call_ensures(
                crate::outside::compression::zstd_decode,
                (input,),
                Err(error),
            ),
{
}

/// An error that the encoder is said to have reported came from a run of it on those bytes.
pub(crate) proof fn a_reported_encoding_error_came_from_the_encoder(
    data: Seq<u8>,
    level: i32,
    error: EncodeError,
)
    ensures
        encoder_reports(data, level, error) ==> exists|input: &[u8]|
            input@ == data && #[trigger] call_ensures(
                crate::outside::compression::zstd_encode,
                (input, level),
                Err(error),
            ),
{
}

/// Decompresses. Where that fails, the error is one that the decoder reported on these bytes.
pub(crate) fn zstd_decode(frames: &[u8]) -> (res: Result<Vec<u8>, std::io::Error>)
    ensures
        res matches Ok(data) ==> zstd_content(frames@) == Some(data@),
        res matches Err(error) ==> decoder_reports(frames@, error),
{
    crate::outside::compression::zstd_decode(frames)
}

/// Compresses. Where that fails, the error is one that the encoder reported on these bytes.
pub(crate) fn zstd_encode(data: &[u8], level: i32) -> (res: Result<Vec<u8>, EncodeError>)
    requires
        level == 0,
    ensures
        res matches Ok(frame) ==> frame@ == zstd_frame(data@, level),
        res matches Ok(frame) ==> frame@.len() > 0,
        res matches Ok(frame) ==> zstd_content(frame@) == Some(data@),
        res matches Err(error) ==> encoder_reports(data@, level, error),
{
    crate::outside::compression::zstd_encode(data, level)
}

} // verus!
