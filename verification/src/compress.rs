//! Lossless compression of manifest payloads.
//!
//! A manifest's bytes are compressed in one pass, at a fixed moderate
//! level, into an in-memory buffer before any byte is handed to the
//! uploader. The codec is lossless and, on in-memory buffers, cannot
//! fail to encode: compression always yields a complete frame, and
//! decompressing that frame recovers the original payload exactly.

use vstd::prelude::*;

verus! {

/// What the codec's decoder returns on a buffer: the payload the
/// buffer encodes.
pub uninterp spec fn decompressed_of(b: Seq<u8>) -> Seq<u8>;

/// Whether `b` is a complete frame of the codec: a buffer the decoder
/// accepts.
pub uninterp spec fn is_zstd_frame(b: Seq<u8>) -> bool;

/// An error of the decompression codec: the buffer handed to it is not
/// a complete frame.
#[derive(Clone, Copy, Debug, PartialEq, Eq, Structural)]
pub enum CodecError {
    Decompression,
}

/// Relies on `zstd::stream::encode_all`: single-pass lossless encoding
/// of the whole input into a fresh in-memory buffer, at a fixed valid
/// level. Reading from a slice and writing to a vector give it no
/// failure path, the result is a complete frame, and decoding that
/// frame gives back exactly the input bytes.
#[verifier::external_body]
fn zstd_compress(data: &Vec<u8>) -> (r: Vec<u8>)
    ensures
        decompressed_of(r@) == data@,
        is_zstd_frame(r@),
{
    zstd::stream::encode_all(data.as_slice(), 3).unwrap()
}

/// Relies on `zstd::stream::decode_all`: decoding a complete frame
/// succeeds and yields the payload it encodes; a buffer that is no
/// frame is rejected.
#[verifier::external_body]
fn zstd_decompress(data: &Vec<u8>) -> (r: Result<Vec<u8>, CodecError>)
    ensures
        r is Ok ==> r->Ok_0@ == decompressed_of(data@),
        is_zstd_frame(data@) ==> r is Ok,
{
    match zstd::stream::decode_all(data.as_slice()) {
        Ok(v) => Ok(v),
        Err(_) => Err(CodecError::Decompression),
    }
}

/// Compresses a manifest payload into the buffer that is uploaded: a
/// complete frame that decompresses back to exactly `data`, byte for
/// byte.
pub fn compress_payload(data: &Vec<u8>) -> (r: Vec<u8>)
    ensures
        decompressed_of(r@) == data@,
        is_zstd_frame(r@),
{
    zstd_compress(data)
}

/// Decompresses a buffer back into the payload it encodes. On every
/// buffer `compress_payload` produces — on every complete frame — it
/// succeeds; only a buffer that is no frame is rejected.
pub fn decompress_payload(data: &Vec<u8>) -> (r: Result<Vec<u8>, CodecError>)
    ensures
        r is Ok ==> r->Ok_0@ == decompressed_of(data@),
        is_zstd_frame(data@) ==> r is Ok,
{
    zstd_decompress(data)
}

} // verus!
