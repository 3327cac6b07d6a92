//! What the library promises, stated over the inputs and results of its
//! operations, the bytes of the encoders and the answers of the decoders.

use std::sync::Arc;

use mbrotli::compressor::parallel::{ParallelConfigError, ParallelEncodeError};

use vstd::arithmetic::power2::*;
use vstd::prelude::*;
use vstd::std_specs::convert::FromSpec;

use crate::binding;
use crate::binding::{BatchOptions, CompressAlgorithm, CompressFile, CompressResult, WorkerOutcome};
use crate::compress;
use crate::compress::inner_brotli;
use crate::compress::inner_brotli::{buf, memory, EncoderSettings};
use crate::compress::inner_gzip;
use crate::compress::inner_zstd;
use crate::compress::{Algorithm, Compressors, InputBuffer};
use crate::decode;
use crate::error;
use crate::error::{Error, Status};
use crate::scheduler;
use crate::scheduler::plan;
use crate::scheduler::plan::BatchGroup;
use crate::scheduler::task;
use crate::scheduler::task::Attempted;
use crate::scheduler::{BatchAlgorithm, BatchOutcome};
use crate::text;

verus! {

/// `gzip`, `brotli` and `zstd` name their algorithms, and nothing else names
/// one.
pub proof fn lemma_names(name: Seq<char>)
    ensures
        compress::algorithm_name(Algorithm::Gzip) == "gzip"@,
        compress::algorithm_name(Algorithm::Brotli) == "brotli"@,
        compress::algorithm_name(Algorithm::Zstd) == "zstd"@,
        compress::algorithm_named(name) == Some(Algorithm::Gzip) <==> name == "gzip"@,
        compress::algorithm_named(name) == Some(Algorithm::Brotli) <==> name == "brotli"@,
        compress::algorithm_named(name) == Some(Algorithm::Zstd) <==> name == "zstd"@,
        compress::algorithm_named(name) is None <==> name != "gzip"@ && name != "brotli"@ && name
            != "zstd"@,
{
    compress::lemma_names_round_trip(Algorithm::Gzip, name);
    compress::lemma_names_round_trip(Algorithm::Brotli, name);
    compress::lemma_names_round_trip(Algorithm::Zstd, name);
}

/// Gzip has the levels 0 to 9, brotli 0 to 11 and zstd 1 to 22. The defaults
/// are 6, 11 and 19.
pub proof fn lemma_levels(level: u32)
    ensures
        compress::valid_level(Algorithm::Gzip, level) <==> level <= 9,
        compress::valid_level(Algorithm::Brotli, level) <==> level <= 11,
        compress::valid_level(Algorithm::Zstd, level) <==> 1 <= level <= 22,
        compress::level_bounds(Algorithm::Gzip) == (0u32, 9u32),
        compress::level_bounds(Algorithm::Brotli) == (0u32, 11u32),
        compress::level_bounds(Algorithm::Zstd) == (1u32, 22u32),
        compress::default_level_of(Algorithm::Gzip) == 6,
        compress::default_level_of(Algorithm::Brotli) == 11,
        compress::default_level_of(Algorithm::Zstd) == 19,
        compress::invalid_level(Algorithm::Gzip, level) == (Error::InvalidLevel {
            algorithm: Algorithm::Gzip,
            level,
            min: 0,
            max: 9,
        }),
        compress::invalid_level(Algorithm::Brotli, level) == (Error::InvalidLevel {
            algorithm: Algorithm::Brotli,
            level,
            min: 0,
            max: 11,
        }),
        compress::invalid_level(Algorithm::Zstd, level) == (Error::InvalidLevel {
            algorithm: Algorithm::Zstd,
            level,
            min: 1,
            max: 22,
        }),
{
}

/// A level outside the range of its algorithm is refused, whatever the options
/// and the input, and the refusal names the algorithm, the level and the
/// range.
pub proof fn lemma_invalid_level_refused(
    algorithm: Algorithm,
    level: u32,
    window_bits: Option<u32>,
    section_size: Option<u32>,
    input: Seq<u8>,
    r: Result<Vec<u8>, Error>,
)
    requires
        compress::answers(algorithm, level, window_bits, section_size, input, r),
    ensures
        algorithm == Algorithm::Gzip && level > 9 ==> r == Err::<Vec<u8>, Error>(
            Error::InvalidLevel { algorithm, level, min: 0, max: 9 },
        ),
        algorithm == Algorithm::Brotli && level > 11 ==> r == Err::<Vec<u8>, Error>(
            Error::InvalidLevel { algorithm, level, min: 0, max: 11 },
        ),
        algorithm == Algorithm::Zstd && (level < 1 || level > 22) ==> r == Err::<Vec<u8>, Error>(
            Error::InvalidLevel { algorithm, level, min: 1, max: 22 },
        ),
        r matches Err(Error::InvalidLevel { algorithm: named, level: refused, min, max }) ==> {
            &&& named == algorithm
            &&& refused == level
            &&& !(min <= level <= max)
        },
{
}

/// Brotli refuses a window outside 10 to 24 bits, and then an empty section;
/// the other algorithms refuse neither.
pub proof fn lemma_invalid_options_refused(
    algorithm: Algorithm,
    level: u32,
    window_bits: Option<u32>,
    section_size: Option<u32>,
    input: Seq<u8>,
    r: Result<Vec<u8>, Error>,
)
    requires
        compress::answers(algorithm, level, window_bits, section_size, input, r),
    ensures
        algorithm == Algorithm::Brotli && level <= 11 ==> {
            &&& window_bits matches Some(bits) ==> bits < 10 || bits > 24 ==> r == Err::<
                Vec<u8>,
                Error,
            >(Error::InvalidWindowBits(bits))
            &&& (window_bits is None || 10 <= window_bits->0 <= 24) && section_size == Some(0u32)
                ==> r == Err::<Vec<u8>, Error>(Error::InvalidSectionSize(0))
        },
        r matches Err(Error::InvalidWindowBits(bits)) ==> {
            &&& algorithm == Algorithm::Brotli
            &&& window_bits == Some(bits)
            &&& (bits < 10 || bits > 24)
        },
        r matches Err(Error::InvalidSectionSize(size)) ==> {
            &&& algorithm == Algorithm::Brotli
            &&& section_size == Some(size)
            &&& size == 0
        },
{
}

/// A request with a level of its algorithm and, for brotli, options in their
/// ranges is compressed: into bytes that the decoder of the algorithm turns
/// back into the input. Gzip never fails; a failure of zstd or brotli is one
/// of its encoder.
pub proof fn lemma_good_request_compressed(
    algorithm: Algorithm,
    level: u32,
    window_bits: Option<u32>,
    section_size: Option<u32>,
    input: Seq<u8>,
    r: Result<Vec<u8>, Error>,
)
    requires
        compress::answers(algorithm, level, window_bits, section_size, input, r),
        algorithm == Algorithm::Gzip ==> level <= 9,
        algorithm == Algorithm::Zstd ==> 1 <= level <= 22,
        algorithm == Algorithm::Brotli ==> {
            &&& level <= 11
            &&& window_bits is None || 10 <= window_bits->0 <= 24
            &&& section_size is None || section_size->0 > 0
        },
    ensures
        algorithm == Algorithm::Gzip ==> r is Ok && decode::gzip_decoded(r->Ok_0@) == Some(input),
        algorithm == Algorithm::Zstd ==> match r {
            Ok(data) => decode::zstd_decoded(data@) == Some(input),
            Err(failure) => failure is Zstd,
        },
        algorithm == Algorithm::Brotli ==> match r {
            Ok(data) => decode::brotli_decoded(data@) == Some(input),
            Err(failure) => failure is BrotliParallel || failure is BrotliParallelConfig,
        },
{
}

/// A compressed request had a level of its algorithm and, for brotli, options
/// in their ranges.
pub proof fn lemma_compressed_request_was_good(
    algorithm: Algorithm,
    level: u32,
    window_bits: Option<u32>,
    section_size: Option<u32>,
    input: Seq<u8>,
    r: Result<Vec<u8>, Error>,
)
    requires
        compress::answers(algorithm, level, window_bits, section_size, input, r),
        r is Ok,
    ensures
        algorithm == Algorithm::Gzip ==> level <= 9,
        algorithm == Algorithm::Zstd ==> 1 <= level <= 22,
        algorithm == Algorithm::Brotli ==> {
            &&& level <= 11
            &&& window_bits is None || 10 <= window_bits->0 <= 24
            &&& section_size is None || section_size->0 > 0
        },
{
}

/// A decoder is asked for what its algorithm wrote.
pub proof fn lemma_decoders(data: Seq<u8>)
    ensures
        decode::decoded(Algorithm::Gzip, data) == decode::gzip_decoded(data),
        decode::decoded(Algorithm::Brotli, data) == decode::brotli_decoded(data),
        decode::decoded(Algorithm::Zstd, data) == decode::zstd_decoded(data),
{
}

/// Zstd data is the frame of an encoder set to the very level that was asked
/// for.
pub proof fn lemma_zstd_uses_the_level(
    level: u32,
    window_bits: Option<u32>,
    section_size: Option<u32>,
    input: Seq<u8>,
    r: Result<Vec<u8>, Error>,
)
    requires
        compress::answers(Algorithm::Zstd, level, window_bits, section_size, input, r),
        r is Ok,
    ensures
        r->Ok_0@ == inner_zstd::zstd_encoded(level as int, input),
{
}

/// Gzip data is what an encoder at the very level that was asked for gives,
/// read after read until it gives nothing more.
pub proof fn lemma_gzip_uses_the_level(
    level: u32,
    window_bits: Option<u32>,
    section_size: Option<u32>,
    input: Seq<u8>,
    r: Result<Vec<u8>, Error>,
)
    requires
        compress::answers(Algorithm::Gzip, level, window_bits, section_size, input, r),
        r is Ok,
    ensures
        r->Ok_0@ == inner_gzip::gzip_chunks(
            level as int,
            input,
            inner_gzip::gzip_chunk_count(level as int, input),
        ),
        inner_gzip::encoded_at(level, input) == r->Ok_0@,
{
}

/// Nothing was read before the first read, and every read adds its bytes at
/// the end.
pub proof fn lemma_gzip_reads_add_up(level: int, input: Seq<u8>, reads: nat)
    ensures
        inner_gzip::gzip_chunks(level, input, 0).len() == 0,
        inner_gzip::gzip_chunks(level, input, reads + 1) == inner_gzip::gzip_chunks(
            level,
            input,
            reads,
        ) + inner_gzip::gzip_chunk(level, input, reads),
{
}

/// The room that gzip reserves holds the input and its framing and exceeds the
/// input by less than a thousandth and 32 bytes. It is 25 bytes for nothing,
/// and each byte adds one and one more at each multiple of 4 KiB, of 16 KiB and
/// of 32 MiB.
pub proof fn lemma_gzip_room(len: nat)
    ensures
        len + 25 <= inner_gzip::gzip_bound(len),
        1000 * (inner_gzip::gzip_bound(len) - len) <= len + 32000,
        inner_gzip::gzip_bound(0) == 25,
        inner_gzip::gzip_bound(len + 1) - inner_gzip::gzip_bound(len) == 1 + (if (len + 1) % 4096
            == 0 {
            1int
        } else {
            0
        }) + (if (len + 1) % 16384 == 0 {
            1int
        } else {
            0
        }) + (if (len + 1) % 33554432 == 0 {
            1int
        } else {
            0
        }),
{
}

/// The room that zstd reserves exceeds the input by its 256th part and no more
/// than 64 bytes. It is 64 bytes for nothing, and each byte adds one, one more
/// at each multiple of 256 bytes, and one less up to 128 KiB after each multiple
/// of 2 KiB.
pub proof fn lemma_zstd_room(len: nat)
    ensures
        len + len / 256 <= inner_zstd::zstd_bound(len) <= len + len / 256 + 64,
        inner_zstd::zstd_bound(0) == 64,
        inner_zstd::zstd_bound(len + 1) - inner_zstd::zstd_bound(len) == 1 + (if (len + 1) % 256
            == 0 {
            1int
        } else {
            0
        }) - (if len < 131072 && len % 2048 == 0 {
            1int
        } else {
            0
        }),
{
}

/// Every input whose double fits the address space can be given its output
/// buffer, so on a machine of 64 bits every input that a request may carry. No
/// input is too large for brotli, and none that gzip is given exceeds the
/// address space.
pub proof fn lemma_buffers_exist(algorithm: Algorithm, len: nat)
    ensures
        2 * len + 64 <= isize::MAX ==> compress::buffer_fits(algorithm, len),
        isize::MAX >= 9223372036854775807 && len <= u32::MAX ==> compress::buffer_fits(
            algorithm,
            len,
        ),
        compress::buffer_fits(Algorithm::Brotli, len),
        compress::buffer_fits(Algorithm::Gzip, len) ==> len + 25 <= isize::MAX,
        compress::buffer_fits(Algorithm::Zstd, len) ==> len + len / 256 <= isize::MAX,
{
}

/// Whether `window` is the narrowest window from 10 bits on that holds `len`
/// bytes, or `asked` where that is narrower.
pub open spec fn is_window(asked: int, len: nat, window: int) -> bool {
    &&& 10 <= window <= asked
    &&& window == asked || len <= pow2(window as nat)
    &&& window == 10 || pow2((window - 1) as nat) < len
}

/// Whether `section` is the number from 64 KiB to 16 MiB nearest to `size`.
pub open spec fn is_section(size: int, section: int) -> bool {
    &&& 65536 <= section <= 16777216
    &&& section < size ==> section == 16777216
    &&& section > size ==> section == 65536
}

/// The window that was asked for: 22 bits unless it was given.
pub open spec fn asked_window(window_bits: Option<u32>) -> int {
    match window_bits {
        Some(bits) => bits as int,
        None => 22,
    }
}

/// The section size that was asked for: two windows unless it was given.
pub open spec fn asked_section(section_size: Option<u32>, window: int) -> int {
    match section_size {
        Some(size) => size as int,
        None => 2 * pow2(window as nat) as int,
    }
}

/// There is one window for an input and a window that was asked for.
proof fn lemma_window_unique(asked: int, len: nat, window: int)
    requires
        10 <= asked <= 24,
        is_window(asked, len, window),
    ensures
        window == inner_brotli::effective_window(asked as nat, len),
{
    let chosen = inner_brotli::effective_window(asked as nat, len);
    inner_brotli::lemma_window_fits_input(asked as nat, len);
    if window < chosen {
        if window + 1 < chosen {
            lemma_pow2_strictly_increases(window as nat, (chosen - 1) as nat);
        }
    } else if window > chosen {
        if chosen + 1 < window {
            lemma_pow2_strictly_increases(chosen, (window - 1) as nat);
        }
    }
}

/// Every input has its window.
pub proof fn lemma_window_exists(asked: int, len: nat) -> (window: int)
    requires
        10 <= asked <= 24,
    ensures
        is_window(asked, len, window),
{
    inner_brotli::lemma_window_fits_input(asked as nat, len);
    inner_brotli::effective_window(asked as nat, len) as int
}

/// Brotli settings have the quality that was asked for, the window of the
/// input and the section size nearest to the one that was asked for.
pub proof fn lemma_brotli_settings(
    level: u32,
    window_bits: Option<u32>,
    section_size: Option<u32>,
    len: nat,
    settings: EncoderSettings,
    window: int,
    section: int,
)
    requires
        inner_brotli::settings_accepted(level, window_bits, section_size),
        settings == inner_brotli::chosen_settings(level, window_bits, section_size, len),
        is_window(asked_window(window_bits), len, window),
        is_section(asked_section(section_size, window), section),
    ensures
        settings.quality == level % 256,
        level <= 11 ==> settings.quality == level,
        settings.window == window,
        settings.section == section,
{
    assert((level as u8) as u32 == level % 256) by (bit_vector);
    lemma_window_unique(asked_window(window_bits), len, window);
    lemma2_to64();
    lemma_pow2_unfold((window + 1) as nat);
    if window < 24 {
        lemma_pow2_strictly_increases(window as nat, 24);
    }
}

/// Settings are chosen exactly for a window from 10 to 24 bits, a section that
/// is not empty and a quality up to eleven, which is the low byte of the level;
/// a window and a section that are not given are no obstacle. Otherwise
/// the failure says which of them is wrong, in this order.
pub proof fn lemma_brotli_settings_judged(
    level: u32,
    window_bits: Option<u32>,
    section_size: Option<u32>,
    failure: Error,
)
    ensures
        inner_brotli::settings_accepted(level, window_bits, section_size) <==> level % 256 <= 11
            && (window_bits is None || 10 <= window_bits->0 <= 24) && (section_size is None
            || section_size->0 > 0),
        inner_brotli::settings_rejected(level, window_bits, section_size, failure) ==> match failure {
            Error::InvalidWindowBits(bits) => window_bits == Some(bits) && !(10 <= bits <= 24),
            Error::InvalidSectionSize(size) => section_size == Some(size) && size == 0 && (
            window_bits is None || 10 <= window_bits->0 <= 24),
            Error::BrotliConfig(_) => level % 256 > 11 && (window_bits is None || 10
                <= window_bits->0 <= 24) && (section_size is None || section_size->0 > 0),
            _ => false,
        },
        inner_brotli::settings_accepted(level, window_bits, section_size)
            ==> !inner_brotli::settings_rejected(level, window_bits, section_size, failure),
{
    assert((level as u8) as u32 == level % 256) by (bit_vector);
}

/// Windows have 10 to 24 bits, and the encoder takes a quality up to eleven and
/// sections from 64 KiB to 16 MiB.
pub proof fn lemma_encoder_ranges(bits: int, settings: EncoderSettings)
    ensures
        inner_brotli::valid_window_bits(bits) <==> 10 <= bits <= 24,
        settings.wf() <==> settings.quality <= 11 && 10 <= settings.window <= 24 && 65536
            <= settings.section <= 16777216,
        inner_brotli::BROTLI_DEFAULT_WINDOW_BITS == 22,
{
}

/// Different levels never share a quality.
pub proof fn lemma_levels_differ_in_quality(
    level: u32,
    other_level: u32,
    window_bits: Option<u32>,
    section_size: Option<u32>,
    len: nat,
    other_len: nat,
)
    requires
        level < other_level <= 11,
    ensures
        inner_brotli::chosen_settings(level, window_bits, section_size, len).quality
            < inner_brotli::chosen_settings(
            other_level,
            window_bits,
            section_size,
            other_len,
        ).quality,
{
}

/// Brotli data is the stream of the encoder at the very quality that was asked
/// for, with the window of the input and the section size nearest to the one
/// that was asked for. An input below 8 MiB that fits one section is encoded
/// serially.
pub proof fn lemma_brotli_uses_the_options(
    level: u32,
    window_bits: Option<u32>,
    section_size: Option<u32>,
    input: Seq<u8>,
    r: Result<Vec<u8>, Error>,
    window: int,
    section: int,
)
    requires
        compress::answers(Algorithm::Brotli, level, window_bits, section_size, input, r),
        r is Ok,
        is_window(asked_window(window_bits), input.len(), window),
        is_section(asked_section(section_size, window), section),
    ensures
        r->Ok_0@ == if input.len() <= section && input.len() < 8388608 {
            inner_brotli::brotli_serial(level as int, window, input)
        } else {
            inner_brotli::brotli_encoded(level as int, window, section, input)
        },
{
    lemma_brotli_settings(
        level,
        window_bits,
        section_size,
        input.len(),
        inner_brotli::chosen_settings(level, window_bits, section_size, input.len()),
        window,
        section,
    );
}

/// Encoding with given settings gives the stream of an encoder with these
/// settings, from which the decoder gives the input back.
pub proof fn lemma_sections_use_the_settings(
    settings: EncoderSettings,
    input: Seq<u8>,
    r: Result<Vec<u8>, Error>,
)
    requires
        inner_brotli::sections_answer(settings, input, r),
    ensures
        match r {
            Ok(data) => {
                &&& decode::brotli_decoded(data@) == Some(input)
                &&& data@ == if input.len() <= settings.section && input.len() < 8388608 {
                    inner_brotli::brotli_serial(
                        settings.quality as int,
                        settings.window as int,
                        input,
                    )
                } else {
                    inner_brotli::brotli_encoded(
                        settings.quality as int,
                        settings.window as int,
                        settings.section as int,
                        input,
                    )
                }
            },
            Err(failure) => failure is BrotliParallel || failure is BrotliParallelConfig,
        },
{
}

/// After a success the encoder that was used is kept, at what was asked for,
/// and the other one is left alone.
pub proof fn lemma_encoders_kept(
    algorithm: Algorithm,
    level: u32,
    window_bits: Option<u32>,
    section_size: Option<u32>,
    len: nat,
    before: Compressors,
    after: Compressors,
    window: int,
    section: int,
)
    requires
        compress::encoders_left(
            algorithm,
            level,
            window_bits,
            section_size,
            len,
            None,
            before,
            after,
        ),
        algorithm == Algorithm::Zstd ==> 1 <= level <= 22,
        algorithm == Algorithm::Brotli ==> {
            &&& level <= 11
            &&& window_bits is None || 10 <= window_bits->0 <= 24
            &&& section_size is None || section_size->0 > 0
            &&& is_window(asked_window(window_bits), len, window)
            &&& is_section(asked_section(section_size, window), section)
        },
    ensures
        algorithm == Algorithm::Gzip ==> after == before,
        algorithm == Algorithm::Zstd ==> {
            &&& after.brotli == before.brotli
            &&& after.zstd is Some
            &&& (after.zstd->0).level == level
        },
        algorithm == Algorithm::Brotli ==> {
            &&& after.zstd == before.zstd
            &&& after.brotli.compressor is Some
            &&& inner_brotli::configured(after.brotli.compressor->0) is Some
            &&& (inner_brotli::configured(after.brotli.compressor->0)->0).quality == level
            &&& (inner_brotli::configured(after.brotli.compressor->0)->0).window == window
            &&& (inner_brotli::configured(after.brotli.compressor->0)->0).section == section
        },
{
    if algorithm == Algorithm::Brotli {
        lemma_brotli_settings(
            level,
            window_bits,
            section_size,
            len,
            inner_brotli::chosen_settings(level, window_bits, section_size, len),
            window,
            section,
        );
    }
}

/// After a failure an encoder that failed is not kept and the other one is left
/// alone; a refused request changes nothing.
pub proof fn lemma_failed_encoder_dropped(
    algorithm: Algorithm,
    level: u32,
    window_bits: Option<u32>,
    section_size: Option<u32>,
    input: Seq<u8>,
    r: Result<Vec<u8>, Error>,
    before: Compressors,
    after: Compressors,
)
    requires
        compress::answers(algorithm, level, window_bits, section_size, input, r),
        compress::encoders_left(
            algorithm,
            level,
            window_bits,
            section_size,
            input.len(),
            error::failure_of(r),
            before,
            after,
        ),
    ensures
        r matches Err(failure) ==> match failure {
            Error::Zstd(_) => after.zstd is None && after.brotli == before.brotli,
            Error::BrotliParallel(_) => after.brotli.compressor is None && after.zstd
                == before.zstd,
            Error::BrotliParallelConfig(_) => after.brotli == before.brotli && after.zstd
                == before.zstd,
            _ => after == before,
        },
{
}

/// A task leaves the encoders as its compression does.
pub proof fn lemma_task_leaves_encoders(
    config: BatchAlgorithm,
    len: nat,
    failure: Option<Error>,
    before: Compressors,
    after: Compressors,
    window: int,
    section: int,
)
    requires
        task::config_leaves(config, len, failure, before, after),
        config.algorithm == Algorithm::Zstd ==> 1 <= config.level <= 22,
        config.algorithm == Algorithm::Brotli ==> {
            &&& config.level <= 11
            &&& config.window_bits is None || 10 <= config.window_bits->0 <= 24
            &&& config.section_size is None || config.section_size->0 > 0
            &&& is_window(asked_window(config.window_bits), len, window)
            &&& is_section(asked_section(config.section_size, window), section)
        },
    ensures
        config.algorithm == Algorithm::Gzip ==> after == before,
        config.algorithm == Algorithm::Zstd ==> {
            &&& after.brotli == before.brotli
            &&& failure is Some ==> after.zstd is None
            &&& failure is None ==> after.zstd is Some && (after.zstd->0).level == config.level
        },
        config.algorithm == Algorithm::Brotli ==> {
            &&& after.zstd == before.zstd
            &&& failure is None ==> {
                &&& after.brotli.compressor is Some
                &&& inner_brotli::configured(after.brotli.compressor->0) is Some
                &&& (inner_brotli::configured(after.brotli.compressor->0)->0).quality
                    == config.level
                &&& (inner_brotli::configured(after.brotli.compressor->0)->0).window == window
                &&& (inner_brotli::configured(after.brotli.compressor->0)->0).section == section
            }
        },
{
    if failure is None {
        lemma_encoders_kept(
            config.algorithm,
            config.level,
            config.window_bits,
            config.section_size,
            len,
            before,
            after,
            window,
            section,
        );
    }
}

/// Kept encoders are set to what is recorded of them.
pub proof fn lemma_kept_encoders_known(compressors: Compressors)
    requires
        compressors.wf(),
    ensures
        compressors.zstd is Some && (compressors.zstd->0).level != i32::MIN
            ==> inner_zstd::context::configured((compressors.zstd->0).compressor) == Some(
            (compressors.zstd->0).level as int,
        ),
        compressors.brotli.compressor is Some ==> inner_brotli::configured(
            compressors.brotli.compressor->0,
        ) is Some,
{
}

/// An encoder that worked on sections is kept at its settings, one that failed
/// is not, and a task count that no encoder takes changes nothing.
pub proof fn lemma_section_encoder_kept(
    settings: EncoderSettings,
    r: Result<Vec<u8>, Error>,
    before: inner_brotli::BrotliContext,
    after: inner_brotli::BrotliContext,
)
    requires
        inner_brotli::context_after(settings, error::failure_of(r), before, after),
    ensures
        r is Ok ==> after.compressor is Some && inner_brotli::configured(after.compressor->0)
            == Some(settings),
        r is Err && r->Err_0 is BrotliParallelConfig ==> after == before,
        r is Err && r->Err_0 is BrotliParallel ==> after.compressor is None,
{
}

/// A result fails with its error and with nothing else.
pub proof fn lemma_failure_of(r: Result<Vec<u8>, Error>)
    ensures
        r is Ok <==> error::failure_of(r) is None,
        r matches Err(failure) ==> error::failure_of(r) == Some(failure),
{
}

/// Encoders without history hold none.
pub proof fn lemma_fresh(compressors: Compressors)
    ensures
        compressors.is_fresh() <==> compressors.zstd is None && compressors.brotli.compressor
            is None,
{
}

/// What a task reports of a result: its bytes where they are wanted, a skip
/// where they are not smaller than the input and skipping was asked for, and
/// its error otherwise.
pub proof fn lemma_report(
    result: Result<Vec<u8>, Error>,
    len: nat,
    skip_if_larger_or_equal: bool,
    outcome: BatchOutcome,
)
    requires
        task::reports(result, len, skip_if_larger_or_equal, outcome),
    ensures
        result is Ok && (!skip_if_larger_or_equal || result->Ok_0@.len() < len) ==> {
            &&& outcome.data@ == result->Ok_0@
            &&& !outcome.skipped
            &&& outcome.error is None
        },
        result is Ok && skip_if_larger_or_equal && result->Ok_0@.len() >= len ==> {
            &&& outcome.data@.len() == 0
            &&& outcome.skipped
            &&& outcome.error is None
        },
        result matches Err(failure) ==> {
            &&& outcome.data@.len() == 0
            &&& !outcome.skipped
            &&& outcome.error == Some(failure)
        },
{
}

/// A task whose attempts all panic reports the panic of its algorithm, whatever
/// was asked for.
pub proof fn lemma_panic_reported<F: Fn(Compressors, &BatchAlgorithm, &InputBuffer) -> Attempted>(
    attempt: F,
    config: BatchAlgorithm,
    input: InputBuffer,
    skip_if_larger_or_equal: bool,
    outcome: BatchOutcome,
)
    requires
        task::can_end_in(attempt, config, input, skip_if_larger_or_equal, outcome),
        forall|compressors: Compressors, given: Attempted| #[trigger]
            call_ensures(attempt, (compressors, &config, &input), given) ==> given is None,
    ensures
        outcome.error == Some(Error::CompressionPanicked(config.algorithm)),
        outcome.data@.len() == 0,
        !outcome.skipped,
{
}

/// After a panic the encoders are fresh; otherwise they are those that the
/// attempt handed back.
pub proof fn lemma_encoders_after_attempt<
    F: Fn(Compressors, &BatchAlgorithm, &InputBuffer) -> Attempted,
>(
    attempt: F,
    config: BatchAlgorithm,
    input: InputBuffer,
    skip_if_larger_or_equal: bool,
    before: Compressors,
    outcome: BatchOutcome,
    after: Compressors,
)
    requires
        task::can_end_with(
            attempt,
            config,
            input,
            skip_if_larger_or_equal,
            before,
            outcome,
            after,
        ),
    ensures
        exists|given: Attempted|
            {
                &&& #[trigger] call_ensures(attempt, (before, &config, &input), given)
                &&& given is Some ==> after == (given->0).0
                &&& given is None ==> after.zstd is None && after.brotli.compressor is None
                &&& given is None ==> outcome.error == Some(
                    Error::CompressionPanicked(config.algorithm),
                )
                &&& given is Some && (given->0).1 is Err ==> outcome.error == Some((given->0).1->Err_0)
                &&& given is Some && (given->0).1 is Ok ==> {
                    &&& outcome.error is None
                    &&& outcome.skipped <==> skip_if_larger_or_equal && (given->0).1->Ok_0@.len()
                        >= input@.len()
                    &&& !outcome.skipped ==> outcome.data@ == (given->0).1->Ok_0@
                }
            },
{
}

/// What a task reports is what some attempt on its configuration and its input
/// gave.
pub proof fn lemma_outcome_of_attempt<
    F: Fn(Compressors, &BatchAlgorithm, &InputBuffer) -> Attempted,
>(
    attempt: F,
    config: BatchAlgorithm,
    input: InputBuffer,
    skip_if_larger_or_equal: bool,
    outcome: BatchOutcome,
)
    requires
        task::can_end_in(attempt, config, input, skip_if_larger_or_equal, outcome),
    ensures
        outcome.error is Some || outcome.skipped ==> outcome.data@.len() == 0,
        exists|compressors: Compressors, given: Attempted|
            {
                &&& compressors.wf()
                &&& #[trigger] call_ensures(attempt, (compressors, &config, &input), given)
                &&& given is None ==> outcome.error == Some(
                    Error::CompressionPanicked(config.algorithm),
                )
                &&& given is Some && (given->0).1 is Err ==> outcome.error == Some(
                    (given->0).1->Err_0,
                )
                &&& given is Some && (given->0).1 is Ok ==> {
                    &&& outcome.error is None
                    &&& outcome.skipped <==> skip_if_larger_or_equal && (given->0).1->Ok_0@.len()
                        >= input@.len()
                    &&& !outcome.skipped ==> outcome.data@ == (given->0).1->Ok_0@
                }
            },
{
}

/// Whether every attempt that does not panic answers the request of `config`
/// for `input`.
pub open spec fn attempts_answer<
    F: Fn(Compressors, &BatchAlgorithm, &InputBuffer) -> Attempted,
>(attempt: F, config: BatchAlgorithm, input: InputBuffer) -> bool {
    forall|compressors: Compressors, given: Attempted|
        compressors.wf() && #[trigger] call_ensures(
            attempt,
            (compressors, &config, &input),
            given,
        ) && given is Some ==> compress::answers(
            config.algorithm,
            config.level,
            config.window_bits,
            config.section_size,
            input@,
            (given->0).1,
        )
}

/// The attempt without a guard answers every request, and can be run on every
/// input.
pub proof fn lemma_direct_answers(config: BatchAlgorithm, input: InputBuffer)
    ensures
        attempts_answer(task::direct, config, input),
        task::is_attempt(task::direct),
{
}

/// A task whose attempts answer hands out bytes that the decoder of its
/// algorithm turns back into its input, and, where they were to be skipped
/// otherwise, that are smaller than it.
pub proof fn lemma_task_data_decodes<
    F: Fn(Compressors, &BatchAlgorithm, &InputBuffer) -> Attempted,
>(
    attempt: F,
    config: BatchAlgorithm,
    input: InputBuffer,
    skip_if_larger_or_equal: bool,
    outcome: BatchOutcome,
)
    requires
        task::can_end_in(attempt, config, input, skip_if_larger_or_equal, outcome),
        attempts_answer(attempt, config, input),
        outcome.error is None,
        !outcome.skipped,
    ensures
        config.algorithm == Algorithm::Gzip ==> decode::gzip_decoded(outcome.data@) == Some(
            input@,
        ),
        config.algorithm == Algorithm::Brotli ==> decode::brotli_decoded(outcome.data@) == Some(
            input@,
        ),
        config.algorithm == Algorithm::Zstd ==> decode::zstd_decoded(outcome.data@) == Some(
            input@,
        ),
        config.algorithm == Algorithm::Zstd ==> outcome.data@ == inner_zstd::zstd_encoded(
            config.level as int,
            input@,
        ),
        config.algorithm == Algorithm::Gzip ==> outcome.data@ == inner_gzip::gzip_chunks(
            config.level as int,
            input@,
            inner_gzip::gzip_chunk_count(config.level as int, input@),
        ),
        skip_if_larger_or_equal ==> outcome.data@.len() < input@.len(),
{
}

/// A task panics only at a level of gzip or zstd, on an input that leaves no
/// room for its output; on an input that fills the address space it does.
pub proof fn lemma_panics(config: BatchAlgorithm, len: nat)
    ensures
        2 * len + 64 <= isize::MAX ==> !task::panics(config, len),
        task::panics(config, len) ==> {
            ||| config.algorithm == Algorithm::Gzip && config.level <= 9
            ||| config.algorithm == Algorithm::Zstd && 1 <= config.level <= 22
        },
        len > isize::MAX && config.algorithm == Algorithm::Gzip && config.level <= 9
            ==> task::panics(config, len),
        len > isize::MAX && config.algorithm == Algorithm::Zstd && 1 <= config.level <= 22
            ==> task::panics(config, len),
{
}

/// A task under a configuration in its ranges reports no panic for an input
/// that a request may carry: a gzip task ends without an error, and the error
/// of a zstd or brotli task is that of its encoder.
pub proof fn lemma_task_does_not_panic(
    config: BatchAlgorithm,
    input: Seq<u8>,
    skip_if_larger_or_equal: bool,
    outcome: BatchOutcome,
)
    requires
        task::task_ends_in(config, input, skip_if_larger_or_equal, outcome),
        2 * input.len() + 64 <= isize::MAX,
    ensures
        !(outcome.error matches Some(Error::CompressionPanicked(_))),
        config.algorithm == Algorithm::Gzip && config.level <= 9 ==> outcome.error is None,
        config.algorithm == Algorithm::Zstd && 1 <= config.level <= 22 ==> (outcome.error is None
            || outcome.error->0 is Zstd),
        config.algorithm == Algorithm::Brotli && config.level <= 11 && (config.window_bits is None
            || 10 <= config.window_bits->0 <= 24) && (config.section_size is None
            || config.section_size->0 > 0) ==> (outcome.error is None
            || outcome.error->0 is BrotliParallel || outcome.error->0 is BrotliParallelConfig),
{
}

/// A task under a refused configuration reports the refusal, without data.
pub proof fn lemma_task_reports_refusal(
    config: BatchAlgorithm,
    input: Seq<u8>,
    skip_if_larger_or_equal: bool,
    outcome: BatchOutcome,
)
    requires
        task::task_ends_in(config, input, skip_if_larger_or_equal, outcome),
    ensures
        outcome.error is Some ==> outcome.data@.len() == 0 && !outcome.skipped,
        config.algorithm == Algorithm::Gzip && config.level > 9 ==> outcome.error == Some(
            Error::InvalidLevel { algorithm: Algorithm::Gzip, level: config.level, min: 0, max: 9 },
        ),
        config.algorithm == Algorithm::Brotli && config.level > 11 ==> outcome.error == Some(
            Error::InvalidLevel {
                algorithm: Algorithm::Brotli,
                level: config.level,
                min: 0,
                max: 11,
            },
        ),
        config.algorithm == Algorithm::Zstd && (config.level < 1 || config.level > 22)
            ==> outcome.error == Some(
            Error::InvalidLevel { algorithm: Algorithm::Zstd, level: config.level, min: 1, max: 22 },
        ),
        config.algorithm == Algorithm::Brotli && config.level <= 11 && config.window_bits is Some
            && !(10 <= config.window_bits->0 <= 24) ==> outcome.error == Some(
            Error::InvalidWindowBits(config.window_bits->0),
        ),
        config.algorithm == Algorithm::Brotli && config.level <= 11 && (config.window_bits is None
            || 10 <= config.window_bits->0 <= 24) && config.section_size == Some(0u32)
            ==> outcome.error == Some(Error::InvalidSectionSize(0)),
{
}

/// A task that ends without an error hands out, or skips, the bytes of its
/// encoder at the level of its configuration; it skips them only where it was
/// asked to and they are not smaller than the input.
pub proof fn lemma_task_uses_its_configuration(
    config: BatchAlgorithm,
    input: Seq<u8>,
    skip_if_larger_or_equal: bool,
    outcome: BatchOutcome,
    bytes: Seq<u8>,
    window: int,
    section: int,
)
    requires
        task::task_ends_in(config, input, skip_if_larger_or_equal, outcome),
        outcome.error is None,
        config.algorithm == Algorithm::Gzip ==> bytes == inner_gzip::gzip_chunks(
            config.level as int,
            input,
            inner_gzip::gzip_chunk_count(config.level as int, input),
        ),
        config.algorithm == Algorithm::Zstd ==> bytes == inner_zstd::zstd_encoded(
            config.level as int,
            input,
        ),
        config.algorithm == Algorithm::Brotli ==> {
            &&& is_window(asked_window(config.window_bits), input.len(), window)
            &&& is_section(asked_section(config.section_size, window), section)
            &&& bytes == if input.len() <= section && input.len() < 8388608 {
                inner_brotli::brotli_serial(config.level as int, window, input)
            } else {
                inner_brotli::brotli_encoded(config.level as int, window, section, input)
            }
        },
    ensures
        outcome.skipped <==> skip_if_larger_or_equal && bytes.len() >= input.len(),
        !outcome.skipped ==> outcome.data@ == bytes,
        outcome.skipped ==> outcome.data@.len() == 0,
        config.algorithm == Algorithm::Gzip ==> decode::gzip_decoded(bytes) == Some(input),
        config.algorithm == Algorithm::Brotli ==> decode::brotli_decoded(bytes) == Some(input),
        config.algorithm == Algorithm::Zstd ==> decode::zstd_decoded(bytes) == Some(input),
{
    if config.algorithm == Algorithm::Brotli {
        lemma_brotli_settings(
            config.level,
            config.window_bits,
            config.section_size,
            input.len(),
            inner_brotli::chosen_settings(
                config.level,
                config.window_bits,
                config.section_size,
                input.len(),
            ),
            window,
            section,
        );
    }
}

/// Slots run through the configurations of a file before they go on to the
/// next file, without a gap.
pub proof fn lemma_slots_in_order(file: int, config: int, count: int)
    ensures
        plan::slot(0, 0, count) == 0,
        plan::slot(file, config + 1, count) == plan::slot(file, config, count) + 1,
        plan::slot(file + 1, 0, count) == plan::slot(file, count - 1, count) + 1,
        plan::slot(file, config, count) == file * count + config,
{
    assert((file + 1) * count == file * count + count) by (nonlinear_arith);
    assert(0 * count == 0) by (nonlinear_arith);
}

/// A batch has one outcome for every file and configuration, in file order and
/// then configuration order, and each is that of its file and configuration.
pub proof fn lemma_batch_outcomes(
    inputs: Seq<Arc<InputBuffer>>,
    algorithms: Seq<BatchAlgorithm>,
    skip_if_larger_or_equal: bool,
    outcomes: Seq<BatchOutcome>,
    i: int,
    a: int,
)
    requires
        scheduler::batch_ends_in(inputs, algorithms, skip_if_larger_or_equal, outcomes),
        0 <= i < inputs.len(),
        0 <= a < algorithms.len(),
    ensures
        outcomes.len() == inputs.len() * algorithms.len(),
        task::task_ends_in(
            algorithms[a],
            inputs[i]@,
            skip_if_larger_or_equal,
            outcomes[i * algorithms.len() + a],
        ),
        2 * inputs[i]@.len() + 64 <= isize::MAX && algorithms[a].algorithm == Algorithm::Gzip
            && algorithms[a].level <= 9 ==> outcomes[i * algorithms.len() + a].error is None,
        outcomes[i * algorithms.len() + a].error is None && !outcomes[i * algorithms.len()
            + a].skipped ==> {
            &&& algorithms[a].algorithm == Algorithm::Gzip ==> decode::gzip_decoded(
                outcomes[i * algorithms.len() + a].data@,
            ) == Some(inputs[i]@)
            &&& algorithms[a].algorithm == Algorithm::Brotli ==> decode::brotli_decoded(
                outcomes[i * algorithms.len() + a].data@,
            ) == Some(inputs[i]@)
            &&& algorithms[a].algorithm == Algorithm::Zstd ==> decode::zstd_decoded(
                outcomes[i * algorithms.len() + a].data@,
            ) == Some(inputs[i]@)
        },
{
}

/// Brotli is scheduled before zstd and zstd before gzip, and configurations of
/// the same algorithm in their order.
pub proof fn lemma_brotli_then_zstd_then_gzip(
    groups: Seq<BatchGroup>,
    inputs: Seq<Arc<InputBuffer>>,
    algorithms: Seq<BatchAlgorithm>,
    files: Seq<int>,
    configs: Seq<int>,
    g: int,
    h: int,
)
    requires
        plan::groups_follow(groups, inputs, algorithms, files, configs),
        0 <= g < h < groups.len(),
    ensures
        groups.len() == algorithms.len(),
        groups[h].config.algorithm == Algorithm::Brotli ==> groups[g].config.algorithm
            == Algorithm::Brotli,
        groups[g].config.algorithm == Algorithm::Gzip ==> groups[h].config.algorithm
            == Algorithm::Gzip,
        groups[g].config.algorithm == groups[h].config.algorithm ==> configs[g] < configs[h],
        configs[g] != configs[h],
        plan::rank(Algorithm::Brotli) == 0,
        plan::rank(Algorithm::Zstd) == 1,
        plan::rank(Algorithm::Gzip) == 2,
{
    assert(plan::group_follows(groups[g], inputs, algorithms, files, configs[g]));
    assert(plan::group_follows(groups[h], inputs, algorithms, files, configs[h]));
    assert(plan::config_before(algorithms, configs[g], configs[h]));
}

/// Every group holds every file once, larger ones first and equally large ones
/// in their order, each with the index where its result goes.
pub proof fn lemma_largest_first(
    groups: Seq<BatchGroup>,
    inputs: Seq<Arc<InputBuffer>>,
    algorithms: Seq<BatchAlgorithm>,
    files: Seq<int>,
    configs: Seq<int>,
    g: int,
    e: int,
    f: int,
)
    requires
        plan::groups_follow(groups, inputs, algorithms, files, configs),
        0 <= g < groups.len(),
        0 <= e <= f < inputs.len(),
    ensures
        groups[g].files@.len() == inputs.len(),
        0 <= configs[g] < algorithms.len(),
        *groups[g].config == algorithms[configs[g]],
        0 <= files[f] < inputs.len(),
        groups[g].files@[f].input == inputs[files[f]],
        groups[g].files@[f].result_index == files[f] * algorithms.len() + configs[g],
        inputs[files[e]]@.len() >= inputs[files[f]]@.len(),
        e < f && inputs[files[e]]@.len() == inputs[files[f]]@.len() ==> files[e] < files[f],
{
    assert(plan::group_follows(groups[g], inputs, algorithms, files, configs[g]));
    assert(groups[g].files@[f].input == inputs[files[f]]);
    if e < f {
        assert(plan::file_before(inputs, files[e], files[f]));
    }
}

/// A configuration is read as it is written: the algorithm of its name, the
/// level it gives or the default of its algorithm, and its options.
pub proof fn lemma_configuration_read(config: CompressAlgorithm, settings: BatchAlgorithm)
    requires
        binding::config_parses_to(config, settings),
    ensures
        config.algorithm@ == "gzip"@ <==> settings.algorithm == Algorithm::Gzip,
        config.algorithm@ == "brotli"@ <==> settings.algorithm == Algorithm::Brotli,
        config.algorithm@ == "zstd"@ <==> settings.algorithm == Algorithm::Zstd,
        config.level matches Some(level) ==> settings.level == level,
        config.level is None && settings.algorithm == Algorithm::Gzip ==> settings.level == 6,
        config.level is None && settings.algorithm == Algorithm::Brotli ==> settings.level == 11,
        config.level is None && settings.algorithm == Algorithm::Zstd ==> settings.level == 19,
        settings.window_bits == config.window_bits,
        settings.section_size == config.section_size,
        settings.algorithm == Algorithm::Gzip ==> settings.level <= 9,
        settings.algorithm == Algorithm::Zstd ==> 1 <= settings.level <= 22,
        settings.algorithm == Algorithm::Brotli ==> {
            &&& settings.level <= 11
            &&& config.window_bits is None || 10 <= config.window_bits->0 <= 24
            &&& config.section_size is None || config.section_size->0 > 0
        },
{
    lemma_names(config.algorithm@);
}

/// A configuration that gives a level outside the range of its algorithm is not
/// read; the failure names the algorithm, that level and the range.
pub proof fn lemma_given_level_judged(
    config: CompressAlgorithm,
    settings: BatchAlgorithm,
    failure: Error,
    level: u32,
)
    requires
        config.level == Some(level),
    ensures
        config.algorithm@ == "gzip"@ && level > 9 ==> {
            &&& !binding::config_parses_to(config, settings)
            &&& binding::config_rejected_with(config, failure) <==> failure
                == (Error::InvalidLevel { algorithm: Algorithm::Gzip, level, min: 0, max: 9 })
        },
        config.algorithm@ == "brotli"@ && level > 11 ==> {
            &&& !binding::config_parses_to(config, settings)
            &&& binding::config_rejected_with(config, failure) <==> failure
                == (Error::InvalidLevel { algorithm: Algorithm::Brotli, level, min: 0, max: 11 })
        },
        config.algorithm@ == "zstd"@ && (level < 1 || level > 22) ==> {
            &&& !binding::config_parses_to(config, settings)
            &&& binding::config_rejected_with(config, failure) <==> failure
                == (Error::InvalidLevel { algorithm: Algorithm::Zstd, level, min: 1, max: 22 })
        },
{
    lemma_names(config.algorithm@);
}

/// A failure to read a configuration says what is wrong with it: its name, its
/// level, or, of brotli alone, its window or its section size, in this order.
pub proof fn lemma_configuration_refused(config: CompressAlgorithm, failure: Error)
    requires
        binding::config_rejected_with(config, failure),
    ensures
        match failure {
            Error::UnknownAlgorithm(name) => {
                &&& name@ == config.algorithm@
                &&& config.algorithm@ != "gzip"@
                &&& config.algorithm@ != "brotli"@
                &&& config.algorithm@ != "zstd"@
            },
            Error::InvalidLevel { algorithm, level, min, max } => {
                &&& config.level == Some(level)
                &&& !(min <= level <= max)
                &&& algorithm == Algorithm::Gzip ==> config.algorithm@ == "gzip"@ && min == 0 && max
                    == 9
                &&& algorithm == Algorithm::Brotli ==> config.algorithm@ == "brotli"@ && min == 0
                    && max == 11
                &&& algorithm == Algorithm::Zstd ==> config.algorithm@ == "zstd"@ && min == 1 && max
                    == 22
            },
            Error::InvalidWindowBits(bits) => {
                &&& config.algorithm@ == "brotli"@
                &&& config.level is None || config.level->0 <= 11
                &&& config.window_bits == Some(bits)
                &&& !(10 <= bits <= 24)
            },
            Error::InvalidSectionSize(size) => {
                &&& config.algorithm@ == "brotli"@
                &&& config.level is None || config.level->0 <= 11
                &&& config.window_bits is None || 10 <= config.window_bits->0 <= 24
                &&& config.section_size == Some(size)
                &&& size == 0
            },
            _ => false,
        },
{
    lemma_names(config.algorithm@);
}

/// Whether a configuration has a canonical name, a level in range or none and,
/// for brotli, options in range or none.
pub open spec fn is_good_configuration(config: CompressAlgorithm) -> bool {
    ||| config.algorithm@ == "gzip"@ && (config.level is None || config.level->0 <= 9)
    ||| config.algorithm@ == "zstd"@ && (config.level is None || 1 <= config.level->0 <= 22)
    ||| {
        &&& config.algorithm@ == "brotli"@
        &&& config.level is None || config.level->0 <= 11
        &&& config.window_bits is None || 10 <= config.window_bits->0 <= 24
        &&& config.section_size is None || config.section_size->0 > 0
    }
}

/// A configuration with a canonical name, a level in range or none and, for
/// brotli, options in range or none is accepted, and no other is.
pub proof fn lemma_good_configuration_accepted(config: CompressAlgorithm, failure: Error)
    ensures
        binding::config_accepted(config) <==> is_good_configuration(config),
        is_good_configuration(config) ==> !binding::config_rejected_with(config, failure),
{
    lemma_names(config.algorithm@);
    let algorithm = compress::algorithm_named(config.algorithm@)->0;
    let settings = BatchAlgorithm {
        algorithm,
        level: binding::asked_level(config, algorithm),
        window_bits: config.window_bits,
        section_size: config.section_size,
    };
    if is_good_configuration(config) {
        assert(binding::config_parses_to(config, settings));
    }
}

/// A request is refused for its number of results, then for the size of a file,
/// then for its first wrong configuration, and for nothing else.
pub proof fn lemma_request_refused(
    files: Seq<CompressFile>,
    algorithms: Seq<CompressAlgorithm>,
    failure: Error,
)
    requires
        binding::request_rejected_with(files, algorithms, failure),
    ensures
        files.len() * algorithms.len() > 4294967295 <==> failure is BatchTooLarge,
        failure is BufferTooLarge <==> files.len() * algorithms.len() <= 4294967295 && exists|
            i: int,
        |
            0 <= i < files.len() && (#[trigger] files[i]).data@.len() > 4294967295,
        !(failure is BatchTooLarge) && !(failure is BufferTooLarge) ==> exists|a: int|
            {
                &&& 0 <= a < algorithms.len()
                &&& binding::config_rejected_with(#[trigger] algorithms[a], failure)
                &&& forall|k: int|
                    0 <= k < a ==> is_good_configuration(#[trigger] algorithms[k])
            },
{
    if files.len() * algorithms.len() <= 4294967295 && binding::buffers_fit(files) {
        let a = choose|a: int|
            {
                &&& 0 <= a < algorithms.len()
                &&& binding::config_rejected_with(#[trigger] algorithms[a], failure)
                &&& forall|k: int|
                    0 <= k < a ==> binding::config_accepted(#[trigger] algorithms[k])
            };
        lemma_configuration_refused(algorithms[a], failure);
        assert forall|k: int| 0 <= k < a implies is_good_configuration(
            #[trigger] algorithms[k],
        ) by {
            assert(binding::config_accepted(algorithms[k]));
            lemma_good_configuration_accepted(algorithms[k], failure);
        }
    }
}

/// A batch that can be run has at most 4294967295 results and no file of more
/// bytes.
pub proof fn lemma_batch_fits(files: Seq<CompressFile>, count: nat)
    ensures
        binding::batch_fits(files, count) <==> files.len() * count <= 4294967295 && forall|i: int|
            0 <= i < files.len() ==> (#[trigger] files[i]).data@.len() <= 4294967295,
{
}

/// Batch options mean what they say: a positive number of threads is asked for,
/// none otherwise, and results are skipped only on request.
pub proof fn lemma_options_read(options: Option<BatchOptions>, threads: u32)
    ensures
        binding::asked_concurrency(options) == Some(threads) <==> threads > 0 && options is Some
            && options->0.concurrency == Some(threads),
        binding::asked_concurrency(options) is None <==> options is None
            || options->0.concurrency is None || options->0.concurrency == Some(0u32),
        binding::asked_to_skip(options) <==> options is Some
            && options->0.skip_if_larger_or_equal == Some(true),
{
}

/// An outcome is labelled with the name and the size of its file and with the
/// algorithm of its configuration, and is that of the two.
pub proof fn lemma_outcome_labelled<
    F: Fn(Compressors, &BatchAlgorithm, &InputBuffer) -> Attempted,
>(
    attempt: F,
    file: CompressFile,
    config: BatchAlgorithm,
    skip_if_larger_or_equal: bool,
    outcome: WorkerOutcome,
)
    requires
        binding::worker_outcome_for(attempt, file, config, skip_if_larger_or_equal, outcome),
    ensures
        outcome.file_name@ == file.file_name@,
        outcome.algorithm == config.algorithm,
        outcome.original_size == file.data@.len(),
        task::can_end_in(
            attempt,
            config,
            file.data,
            skip_if_larger_or_equal,
            outcome.outcome,
        ),
{
}

/// The host receives what the worker found: the name of the file, the name of
/// the algorithm, all bytes and their number, both sizes, the skip and the
/// failure.
pub proof fn lemma_host_receives_outcome(outcome: WorkerOutcome, result: CompressResult)
    requires
        binding::shows(outcome, result),
    ensures
        result.file_name@ == outcome.file_name@,
        outcome.algorithm == Algorithm::Gzip ==> result.algorithm@ == "gzip"@,
        outcome.algorithm == Algorithm::Brotli ==> result.algorithm@ == "brotli"@,
        outcome.algorithm == Algorithm::Zstd ==> result.algorithm@ == "zstd"@,
        result.data@ == outcome.outcome.data@,
        result.data@.len() <= 4294967295 ==> result.compressed_size == result.data@.len(),
        result.original_size == outcome.original_size,
        result.skipped == outcome.outcome.skipped,
        result.error is Some <==> outcome.outcome.error is Some,
        outcome.outcome.error is Some ==> error::describes(
            outcome.outcome.error->0,
            result.error->0@,
        ),
{
}

/// Data that the host receives is complete: the decoder of its algorithm gives
/// the file back from it, its length is the compressed size where that fits 32
/// bits, and it is smaller than the file where it was to be skipped otherwise.
pub proof fn lemma_host_data_decodes<
    F: Fn(Compressors, &BatchAlgorithm, &InputBuffer) -> Attempted,
>(
    attempt: F,
    file: CompressFile,
    config: BatchAlgorithm,
    skip_if_larger_or_equal: bool,
    outcome: WorkerOutcome,
    result: CompressResult,
)
    requires
        binding::worker_outcome_for(attempt, file, config, skip_if_larger_or_equal, outcome),
        attempts_answer(attempt, config, file.data),
        binding::shows(outcome, result),
        result.error is None,
        !result.skipped,
    ensures
        config.algorithm == Algorithm::Gzip ==> {
            &&& result.algorithm@ == "gzip"@
            &&& decode::gzip_decoded(result.data@) == Some(file.data@)
        },
        config.algorithm == Algorithm::Brotli ==> {
            &&& result.algorithm@ == "brotli"@
            &&& decode::brotli_decoded(result.data@) == Some(file.data@)
        },
        config.algorithm == Algorithm::Zstd ==> {
            &&& result.algorithm@ == "zstd"@
            &&& decode::zstd_decoded(result.data@) == Some(file.data@)
        },
        result.file_name@ == file.file_name@,
        result.original_size == file.data@.len(),
        result.data@.len() <= 4294967295 ==> result.compressed_size == result.data@.len(),
        skip_if_larger_or_equal ==> result.data@.len() < file.data@.len(),
{
    lemma_task_data_decodes(
        attempt,
        config,
        file.data,
        skip_if_larger_or_equal,
        outcome.outcome,
    );
}

/// A gzip result that the host receives at a level of gzip carries no failure.
pub proof fn lemma_host_gzip_succeeds(
    file: CompressFile,
    config: BatchAlgorithm,
    skip_if_larger_or_equal: bool,
    outcome: WorkerOutcome,
    result: CompressResult,
)
    requires
        binding::worker_outcome_for(task::direct, file, config, skip_if_larger_or_equal, outcome),
        binding::shows(outcome, result),
        config.algorithm == Algorithm::Gzip,
        config.level <= 9,
        2 * file.data@.len() + 64 <= isize::MAX,
    ensures
        result.error is None,
        !skip_if_larger_or_equal ==> !result.skipped,
{
    task::lemma_direct_task(config, &file.data, skip_if_larger_or_equal, outcome.outcome);
    lemma_task_does_not_panic(config, file.data@, skip_if_larger_or_equal, outcome.outcome);
}

/// The number that decimal digits stand for.
pub open spec fn decimal_value(digits: Seq<char>) -> int
    decreases digits.len(),
{
    if digits.len() == 0 {
        0
    } else {
        10 * decimal_value(digits.drop_last()) + (digits.last() as int - '0' as int)
    }
}

/// A number is written in digits that stand for it, without a leading zero
/// unless it is the only digit.
pub proof fn lemma_decimal_reads_back(n: nat)
    ensures
        decimal_value(text::decimal_text(n)) == n,
        text::decimal_text(n).len() > 0,
        forall|i: int|
            0 <= i < text::decimal_text(n).len() ==> '0' <= #[trigger] text::decimal_text(n)[i]
                <= '9',
        text::decimal_text(n).len() > 1 ==> text::decimal_text(n)[0] != '0',
        n > 0 ==> text::decimal_text(n)[0] != '0',
    decreases n,
{
    reveal_with_fuel(decimal_value, 2);
    let digits = text::decimal_text(n);
    if n < 10 {
        assert(digits.drop_last() =~= Seq::<char>::empty());
    } else {
        lemma_decimal_reads_back(n / 10);
        assert(digits.drop_last() =~= text::decimal_text(n / 10));
        assert forall|i: int| 0 <= i < digits.len() implies '0' <= #[trigger] digits[i] <= '9' by {
            if i < digits.len() - 1 {
                assert(digits[i] == text::decimal_text(n / 10)[i]);
            }
        }
        assert(digits[0] == text::decimal_text(n / 10)[0]);
    }
}

/// Refusals are put in words that quote what was refused and say what was
/// expected.
pub proof fn lemma_refusal_messages(
    failure: Error,
    message: Seq<char>,
)
    requires
        error::describes(failure, message),
    ensures
        match failure {
            Error::UnknownAlgorithm(name) => message == "unknown algorithm `"@ + name@
                + "`, expected one of: gzip, brotli, zstd"@,
            Error::InvalidLevel { algorithm, level, min, max } => message == "invalid "@ + (
            match algorithm {
                Algorithm::Gzip => "gzip"@,
                Algorithm::Brotli => "brotli"@,
                Algorithm::Zstd => "zstd"@,
            }) + " level "@ + text::decimal_text(level as nat) + ": expected "@
                + text::decimal_text(min as nat) + "..="@ + text::decimal_text(max as nat),
            Error::InvalidWindowBits(bits) => message == "invalid brotli windowBits "@
                + text::decimal_text(bits as nat) + ": expected 10..=24"@,
            Error::InvalidSectionSize(size) => message == "invalid brotli sectionSize "@
                + text::decimal_text(size as nat) + ": expected a positive number of bytes"@,
            Error::BatchLengthMismatch { tasks, buffers } => message
                == "tasks and buffers must have the same length (got "@ + text::decimal_text(
                tasks as nat,
            ) + " tasks, "@ + text::decimal_text(buffers as nat) + " buffers)"@,
            Error::BatchTooLarge => message
                == "batches of more than 4294967295 results are not supported"@,
            Error::BufferTooLarge => message == "buffers larger than 4 GiB are not supported"@,
            Error::CompressionPanicked(algorithm) => message == (match algorithm {
                Algorithm::Gzip => "gzip"@,
                Algorithm::Brotli => "brotli"@,
                Algorithm::Zstd => "zstd"@,
            }) + " compression panicked unexpectedly"@,
            _ => true,
        },
{
}

/// The message of a failed encoder ends in the words of that failure, which for
/// gzip and zstd follow the name of the algorithm.
pub proof fn lemma_failure_messages(failure: Error, source: Seq<char>)
    ensures
        failure is Gzip ==> error::message(failure, source) == "gzip compression failed: "@
            + source,
        failure is Zstd ==> error::message(failure, source) == "zstd compression failed: "@
            + source,
        failure is BrotliConfig || failure is Brotli || failure is BrotliParallelConfig
            || failure is BrotliParallel ==> error::message(failure, source) == source,
        failure matches Error::BrotliConfig(cause) ==> (error::describes(failure, source) <==> source
            == error::config_error_text(cause)),
        failure matches Error::Brotli(cause) ==> (error::describes(failure, source) <==> source
            == error::encode_error_text(cause)),
        failure matches Error::BrotliParallelConfig(cause) ==> (error::describes(failure, source)
            <==> source == error::parallel_config_error_text(cause)),
        failure is Gzip && error::describes(failure, source) ==> exists|words: Seq<char>|
            source == #[trigger] ("gzip compression failed: "@ + words),
        failure is Zstd && error::describes(failure, source) ==> exists|words: Seq<char>|
            source == #[trigger] ("zstd compression failed: "@ + words),
{
    assert(error::describes(failure, source) <==> exists|words: Seq<char>|
        error::source_fits(failure, words) && source == #[trigger] error::message(failure, words));
    assert(error::message(failure, source) == error::message(failure, source));
}

/// Refusals are invalid arguments; failures of encoders and panics are generic.
pub proof fn lemma_failures_classified(failure: Error)
    ensures
        error::status_of(failure) == Status::InvalidArg <==> failure is UnknownAlgorithm
            || failure is InvalidLevel || failure is InvalidWindowBits
            || failure is InvalidSectionSize || failure is BatchLengthMismatch
            || failure is BatchTooLarge || failure is BufferTooLarge,
        error::status_of(failure) == Status::GenericFailure <==> failure is Gzip || failure is Zstd
            || failure is BrotliConfig || failure is Brotli || failure is BrotliParallelConfig
            || failure is BrotliParallel || failure is CompressionPanicked,
{
}

/// A failure that comes from a brotli encoder says which part of it failed.
pub proof fn lemma_brotli_failures_told_apart(
    config: mbrotli::ConfigError,
    serial: mbrotli::EncodeError,
    parallel_config: ParallelConfigError,
    parallel: ParallelEncodeError,
)
    ensures
        <Error as FromSpec<mbrotli::ConfigError>>::from_spec(config) == Error::BrotliConfig(
            config,
        ),
        <Error as FromSpec<mbrotli::EncodeError>>::from_spec(serial) == Error::Brotli(serial),
        <Error as FromSpec<ParallelConfigError>>::from_spec(parallel_config)
            == Error::BrotliParallelConfig(parallel_config),
        <Error as FromSpec<ParallelEncodeError>>::from_spec(parallel) == Error::BrotliParallel(
            parallel,
        ),
{
}

/// A cell has as many items as were asked for, all of them clones of one
/// default value.
pub proof fn lemma_cell_filled<T: Clone + Default>(items: Seq<T>, len: nat)
    requires
        memory::is_default_filled(items, len),
    ensures
        items.len() == len,
        exists|fill: T|
            #[trigger] call_ensures(T::default, (), fill) && forall|i: int|
                0 <= i < items.len() ==> cloned(fill, #[trigger] items[i]),
{
}

/// Scratch space has two halves of 64 KiB.
pub proof fn lemma_scratch_size(scratch: buf::BrotliBuf)
    ensures
        scratch.wf() <==> scratch.inner@.len() == 131072,
        buf::BROTLI_BUFFER_SIZE == 65536,
{
}

/// The zstd encoder is asked for the level of the request, in the signed range.
pub proof fn lemma_zstd_level_signed(
    context: inner_zstd::context::ZstdContext,
    level: u32,
)
    requires
        context.wf(),
        level <= i32::MAX,
    ensures
        inner_zstd::level_used(context, level as i32) == level,
{
}

} // verus!
