//! Decoding, the inverse of compression.

use std::io::Read;

use vstd::prelude::*;

use crate::compress::Algorithm;

verus! {

/// The bytes that a gzip stream holds, if it is one.
pub uninterp spec fn gzip_decoded(data: Seq<u8>) -> Option<Seq<u8>>;

/// The bytes that a brotli stream holds, if it is one.
pub uninterp spec fn brotli_decoded(data: Seq<u8>) -> Option<Seq<u8>>;

/// The bytes that a sequence of zstd frames holds, if it is one.
pub uninterp spec fn zstd_decoded(data: Seq<u8>) -> Option<Seq<u8>>;

/// The bytes that `data` holds when it was compressed with `algorithm`.
pub open spec fn decoded(algorithm: Algorithm, data: Seq<u8>) -> Option<Seq<u8>> {
    match algorithm {
        Algorithm::Gzip => gzip_decoded(data),
        Algorithm::Brotli => brotli_decoded(data),
        Algorithm::Zstd => zstd_decoded(data),
    }
}

/// Reads a whole stream out of `flate2::read::GzDecoder`. Growing the output
/// can fail, so success is not promised.
#[verifier::external_body]
fn gunzip(data: &[u8]) -> (r: Result<Vec<u8>, std::io::Error>)
    ensures
        r matches Ok(bytes) ==> gzip_decoded(data@) == Some(bytes@),
{
    let mut output = Vec::new();
    flate2::read::GzDecoder::new(data).read_to_end(&mut output)?;
    Ok(output)
}

/// `simd_brotli::BrotliDecompress` from a slice into a vector. Neither end
/// fails, and the decoder's own memory is allocated without an error path, so
/// it fails on no data but what is not a brotli stream.
#[verifier::external_body]
fn unbrotli(data: &[u8]) -> (r: Result<Vec<u8>, std::io::Error>)
    ensures
        match r {
            Ok(bytes) => brotli_decoded(data@) == Some(bytes@),
            Err(_) => brotli_decoded(data@) is None,
        },
{
    let mut input = data;
    let mut output = Vec::new();
    simd_brotli::BrotliDecompress(&mut input, &mut output)?;
    Ok(output)
}

/// `zstd::stream::decode_all`. Setting up the decoder and growing the output
/// can fail, so success is not promised.
#[verifier::external_body]
fn unzstd(data: &[u8]) -> (r: Result<Vec<u8>, std::io::Error>)
    ensures
        r matches Ok(bytes) ==> zstd_decoded(data@) == Some(bytes@),
{
    zstd::stream::decode_all(data)
}

/// Gives back the bytes that `data` holds when it was compressed with
/// `algorithm`.
///
/// Brotli data that holds bytes is always decoded; the gzip and zstd decoders
/// can run out of memory and report that as a failure.
pub fn decompress(algorithm: Algorithm, data: &[u8]) -> (r: Result<Vec<u8>, std::io::Error>)
    ensures
        match r {
            Ok(bytes) => decoded(algorithm, data@) == Some(bytes@),
            Err(_) => algorithm == Algorithm::Brotli ==> decoded(algorithm, data@) is None,
        },
{
    match algorithm {
        Algorithm::Gzip => gunzip(data),
        Algorithm::Brotli => unbrotli(data),
        Algorithm::Zstd => unzstd(data),
    }
}

} // verus!
