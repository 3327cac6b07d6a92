//! Gzip-specific compression.

use std::io::Read;

use vstd::prelude::*;

use crate::decode;
use crate::error::Error;

verus! {

/// Bytes reserved for the gzip stream of `len` input bytes.
pub open spec fn gzip_bound(len: nat) -> nat {
    len + len / 4096 + len / 16384 + len / 33554432 + 25
}

/// Bytes of room that every read of the encoder is given.
pub const READ_SIZE: usize = 32768;

/// The gzip encoder, from which the stream is read.
#[verifier::external_type_specification]
#[verifier::external_body]
#[verifier::reject_recursive_types(R)]
pub struct ExGzEncoder<R>(flate2::bufread::GzEncoder<R>);

/// The level and the input of an encoder and the number of reads so far, if
/// its header holds no metadata and every read was given `READ_SIZE` bytes of
/// room.
pub uninterp spec fn reads_of(encoder: flate2::bufread::GzEncoder<&[u8]>) -> Option<
    (int, Seq<u8>, nat),
>;

/// The bytes that the `nth` read gives, counted from zero.
pub uninterp spec fn gzip_chunk(level: int, input: Seq<u8>, nth: nat) -> Seq<u8>;

/// How many reads give bytes before the stream ends.
pub uninterp spec fn gzip_chunk_count(level: int, input: Seq<u8>) -> nat;

/// The bytes that the first `reads` reads give.
pub open spec fn gzip_chunks(level: int, input: Seq<u8>, reads: nat) -> Seq<u8>
    decreases reads,
{
    if reads == 0 {
        Seq::empty()
    } else {
        gzip_chunks(level, input, (reads - 1) as nat) + gzip_chunk(
            level,
            input,
            (reads - 1) as nat,
        )
    }
}

/// `flate2::GzBuilder::buf_read`: an encoder that has not been read from.
#[verifier::external_body]
fn open_encoder(level: u32, input: &[u8]) -> (r: flate2::bufread::GzEncoder<&[u8]>)
    requires
        level <= 9,
    ensures
        reads_of(r) == Some((level as int, input@, 0nat)),
{
    flate2::GzBuilder::new().buf_read(input, flate2::Compression::new(level))
}

/// `Read::read` of `flate2::bufread::GzEncoder`. The encoder works into the
/// room it is given and nothing else, so with reads of one size the bytes of
/// each follow from the level, the input and the number of reads before it.
/// A read without bytes ends the stream, from which the decoder gives the
/// input back. No read fails: the input is a slice, and the encoder is never
/// handed more of it after it was told to finish.
#[verifier::external_body]
fn read_chunk(
    encoder: &mut flate2::bufread::GzEncoder<&[u8]>,
    room: &mut [u8],
) -> (r: Result<usize, std::io::Error>)
    requires
        reads_of(*old(encoder)) is Some,
        old(room)@.len() == READ_SIZE,
    ensures
        final(room)@.len() == READ_SIZE,
        r is Ok,
        r matches Ok(n) ==> {
            let (level, input, nth) = reads_of(*old(encoder))->0;
            &&& n <= READ_SIZE
            &&& final(room)@.take(n as int) == gzip_chunk(level, input, nth)
            &&& reads_of(*final(encoder)) == Some((level, input, nth + 1))
            &&& n == 0 <==> nth >= gzip_chunk_count(level, input)
            &&& n == 0 ==> decode::gzip_decoded(gzip_chunks(level, input, nth)) == Some(input)
        },
{
    encoder.read(room)
}

/// Calculates the room reserved for the gzip stream of a given input length.
///
/// The formula accounts for the input, the DEFLATE overhead of stored blocks
/// and the gzip header and trailer. It assumes a minimal header with no
/// optional metadata. The room grows where a stream needs more.
pub fn compress_bound_formula(source_len: usize) -> (r: usize)
    requires
        gzip_bound(source_len as nat) <= usize::MAX,
    ensures
        r == gzip_bound(source_len as nat),
{
    assert(source_len >> 12 == source_len / 4096) by (bit_vector);
    assert(source_len >> 14 == source_len / 16384) by (bit_vector);
    assert(source_len >> 25 == source_len / 33554432) by (bit_vector);
    source_len + (source_len >> 12) + (source_len >> 14) + (source_len >> 25) + 25
}

/// The reserved room is never smaller than the input with header and trailer,
/// and a larger input is given no less.
pub proof fn lemma_bound_grows(len: nat, larger: nat)
    requires
        len <= larger,
    ensures
        len + 18 <= gzip_bound(len) <= gzip_bound(larger),
{
}

/// The stream that gzip compression gives for `input` at `level`.
pub open spec fn encoded_at(level: u32, input: Seq<u8>) -> Seq<u8> {
    gzip_chunks(level as int, input, gzip_chunk_count(level as int, input))
}

/// Appends the first `n` bytes of `room` to `output`.
fn append(output: &mut Vec<u8>, room: &[u8], n: usize)
    requires
        n <= room@.len(),
    ensures
        final(output)@ == old(output)@ + room@.take(n as int),
{
    let ghost before = output@;
    output.extend_from_slice(vstd::slice::slice_subrange(room, 0, n));
    assert(output@ =~= before + room@.take(n as int));
}

/// Reads the whole stream out of the encoder.
fn deflate(level: u32, input: &[u8]) -> (r: Result<Vec<u8>, std::io::Error>)
    requires
        level <= 9,
        gzip_bound(input@.len()) <= isize::MAX,
    ensures
        r matches Ok(data) && data@ == encoded_at(level, input@) && decode::gzip_decoded(data@)
            == Some(input@),
{
    let mut output: Vec<u8> = Vec::with_capacity(compress_bound_formula(input.len()));
    let mut room: Vec<u8> = vec![0; READ_SIZE];
    let mut encoder = open_encoder(level, input);
    let ghost mut reads: nat = 0;
    loop
        invariant
            room@.len() == READ_SIZE,
            reads_of(encoder) == Some((level as int, input@, reads)),
            output@ == gzip_chunks(level as int, input@, reads),
            reads <= gzip_chunk_count(level as int, input@),
        decreases gzip_chunk_count(level as int, input@) - reads,
    {
        match read_chunk(&mut encoder, room.as_mut_slice()) {
            Ok(n) => {
                if n == 0 {
                    return Ok(output);
                }
                append(&mut output, room.as_slice(), n);
                proof {
                    reads = reads + 1;
                }
            },
            Err(error) => {
                return Err(error);
            },
        }
    }
}

/// Hands on what the encoder gave, its failure as a gzip failure.
pub fn finish(encoded: Result<Vec<u8>, std::io::Error>) -> (r: Result<Vec<u8>, Error>)
    ensures
        match encoded {
            Ok(output) => r == Ok::<Vec<u8>, Error>(output),
            Err(error) => r == Err::<Vec<u8>, Error>(Error::Gzip(error)),
        },
{
    match encoded {
        Ok(output) => Ok(output),
        Err(error) => Err(Error::Gzip(error)),
    }
}

/// Compresses `input` into one gzip stream. This never fails.
pub fn compress(level: u32, input: &[u8]) -> (r: Result<Vec<u8>, Error>)
    requires
        level <= 9,
        gzip_bound(input@.len()) <= isize::MAX,
    ensures
        r matches Ok(data) && data@ == encoded_at(level, input@) && decode::gzip_decoded(data@)
            == Some(input@),
{
    finish(deflate(level, input))
}

} // verus!
