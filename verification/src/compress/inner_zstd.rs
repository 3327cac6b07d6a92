//! Zstd-specific compression.

pub mod context;

use vstd::prelude::*;

use crate::compress::inner_zstd::context::ZstdContext;
use crate::decode;
use crate::error::Error;

verus! {

/// Bytes that the encoder reserves for the frame of `len` input bytes.
pub open spec fn zstd_bound(len: nat) -> nat {
    len + len / 256 + if len < 131072 {
        ((131072 - len) / 2048) as nat
    } else {
        0
    }
}

/// The frame that a zstd encoder set to `level` gives for `input`.
pub uninterp spec fn zstd_encoded(level: int, input: Seq<u8>) -> Seq<u8>;

/// `zstd::bulk::Compressor::set_compression_level`: sets the level and drops
/// the dictionary. A failed call may have changed the level.
#[verifier::external_body]
fn set_compression_level(
    compressor: &mut zstd::bulk::Compressor<'static>,
    level: i32,
) -> (r: Result<(), std::io::Error>)
    requires
        context::configured(*old(compressor)) is Some,
    ensures
        context::configured(*final(compressor)) is Some,
        r is Ok ==> context::configured(*final(compressor)) == Some(level as int),
{
    compressor.set_compression_level(level)
}

/// `zstd::bulk::Compressor::compress`: one frame at the level that is set,
/// written into a buffer of the worst-case size. The decoder gives the input
/// back from it. The encoder's tables may not fit in memory, so success is not
/// promised.
#[verifier::external_body]
fn encode(compressor: &mut zstd::bulk::Compressor<'static>, input: &[u8]) -> (r: Result<
    Vec<u8>,
    std::io::Error,
>)
    requires
        context::configured(*old(compressor)) is Some,
        zstd_bound(input@.len()) <= isize::MAX,
    ensures
        context::configured(*final(compressor)) == context::configured(*old(compressor)),
        r matches Ok(data) ==> data@ == zstd_encoded(
            context::configured(*old(compressor))->0,
            input@,
        ) && decode::zstd_decoded(data@) == Some(input@),
{
    compressor.compress(input)
}

/// Records a level that the encoder was set to. Where setting it failed, the
/// failure is handed on as a zstd failure and the recorded level stays, so the
/// next input tries to set the level again.
pub fn record_level(
    context: &mut ZstdContext,
    level: i32,
    set: Result<(), std::io::Error>,
) -> (r: Result<(), Error>)
    ensures
        final(context).compressor == old(context).compressor,
        match set {
            Ok(()) => r is Ok && final(context).level == level,
            Err(error) => r == Err::<(), Error>(Error::Zstd(error)) && *final(context) == *old(
                context,
            ),
        },
{
    match set {
        Ok(()) => {
            context.level = level;
            Ok(())
        },
        Err(error) => Err(Error::Zstd(error)),
    }
}

/// Hands on what the encoder gave, its failure as a zstd failure.
pub fn finish(encoded: Result<Vec<u8>, std::io::Error>) -> (r: Result<Vec<u8>, Error>)
    ensures
        match encoded {
            Ok(output) => r == Ok::<Vec<u8>, Error>(output),
            Err(error) => r == Err::<Vec<u8>, Error>(Error::Zstd(error)),
        },
{
    match encoded {
        Ok(output) => Ok(output),
        Err(error) => Err(Error::Zstd(error)),
    }
}

/// The level that an input is encoded at when `level` is asked for: the one
/// asked for, or the encoder's own where that is recorded already.
pub open spec fn level_used(context: ZstdContext, level: i32) -> int {
    if context.level == level {
        context::configured(context.compressor)->0
    } else {
        level as int
    }
}

/// Only asking a fresh context for the level that marks it leaves the choice to
/// the encoder; every other level is the one used.
pub proof fn lemma_asked_level_is_used(context: ZstdContext, level: i32)
    requires
        context.wf(),
        level != i32::MIN || context.level != i32::MIN,
    ensures
        level_used(context, level) == level,
{
}

/// Compresses `input` into one zstd frame. The level of the encoder is set
/// only when it changes.
pub fn compress(context: &mut ZstdContext, level: u32, input: &[u8]) -> (r: Result<Vec<u8>, Error>)
    requires
        old(context).wf(),
        zstd_bound(input@.len()) <= isize::MAX,
    ensures
        match r {
            Ok(data) => {
                &&& data@ == zstd_encoded(level_used(*old(context), level as i32), input@)
                &&& decode::zstd_decoded(data@) == Some(input@)
                &&& final(context).level == level as i32
                &&& final(context).wf()
            },
            Err(error) => {
                &&& error is Zstd
                &&& final(context).level == old(context).level || final(context).level
                    == level as i32
                &&& final(context).level == level as i32 ==> final(context).wf()
            },
        },
{
    let level: i32 = level as i32;
    if context.level != level {
        let set: Result<(), std::io::Error> = set_compression_level(&mut context.compressor, level);
        match record_level(context, level, set) {
            Ok(()) => {},
            Err(error) => {
                return Err(error);
            },
        }
    }
    finish(encode(&mut context.compressor, input))
}

} // verus!
