//! The algorithm-agnostic surface: the [`Algorithm`] enum, level validation,
//! and the entry points that dispatch into the per-algorithm submodules.

pub mod inner_brotli;
pub mod inner_gzip;
pub mod inner_zstd;

use vstd::prelude::*;

use crate::compress::inner_brotli::BrotliContext;
use crate::compress::inner_zstd::context::ZstdContext;
use crate::decode;
use crate::error;
use crate::error::Error;

pub use crate::compress::inner_brotli::{
    validate_section_size, validate_window_bits, BROTLI_DEFAULT_WINDOW_BITS,
};

verus! {

/// Owned compression input.
pub type InputBuffer = Vec<u8>;

/// Supported compression algorithms.
#[derive(Debug, Clone, Copy, PartialEq, Eq, Structural)]
pub enum Algorithm {
    Gzip,
    Brotli,
    Zstd,
}

/// The canonical name of an algorithm.
pub open spec fn algorithm_name(algorithm: Algorithm) -> Seq<char> {
    match algorithm {
        Algorithm::Gzip => "gzip"@,
        Algorithm::Brotli => "brotli"@,
        Algorithm::Zstd => "zstd"@,
    }
}

/// The algorithm that has this canonical name.
pub open spec fn algorithm_named(name: Seq<char>) -> Option<Algorithm> {
    if name == "gzip"@ {
        Some(Algorithm::Gzip)
    } else if name == "brotli"@ {
        Some(Algorithm::Brotli)
    } else if name == "zstd"@ {
        Some(Algorithm::Zstd)
    } else {
        None
    }
}

/// The lowest and the highest level of an algorithm.
pub open spec fn level_bounds(algorithm: Algorithm) -> (u32, u32) {
    match algorithm {
        Algorithm::Gzip => (0, 9),
        Algorithm::Brotli => (0, 11),
        Algorithm::Zstd => (1, 22),
    }
}

/// The level used when none is asked for.
pub open spec fn default_level_of(algorithm: Algorithm) -> u32 {
    match algorithm {
        Algorithm::Gzip => 6,
        Algorithm::Brotli => 11,
        Algorithm::Zstd => 19,
    }
}

/// Whether an algorithm has this level.
pub open spec fn valid_level(algorithm: Algorithm, level: u32) -> bool {
    level_bounds(algorithm).0 <= level <= level_bounds(algorithm).1
}

/// The failure that reports a level an algorithm does not have.
pub open spec fn invalid_level(algorithm: Algorithm, level: u32) -> Error {
    Error::InvalidLevel {
        algorithm,
        level,
        min: level_bounds(algorithm).0,
        max: level_bounds(algorithm).1,
    }
}

impl Algorithm {
    /// The level used when none is asked for.
    pub fn default_level(self) -> (r: u32)
        ensures
            r == default_level_of(self),
            valid_level(self, r),
    {
        match self {
            Algorithm::Gzip => 6,
            Algorithm::Brotli => 11,
            Algorithm::Zstd => 19,
        }
    }

    /// The lowest and the highest level.
    pub fn level_range(self) -> (r: (u32, u32))
        ensures
            r == level_bounds(self),
    {
        match self {
            Algorithm::Gzip => (0, 9),
            Algorithm::Brotli => (0, 11),
            Algorithm::Zstd => (1, 22),
        }
    }

    /// Rejects a level outside the range of the algorithm.
    pub fn validate_level(self, level: u32) -> (r: Result<(), Error>)
        ensures
            match r {
                Ok(()) => valid_level(self, level),
                Err(error) => !valid_level(self, level) && error == invalid_level(self, level),
            },
    {
        let (min, max): (u32, u32) = self.level_range();
        if level < min || level > max {
            return Err(Error::InvalidLevel { algorithm: self, level, min, max });
        }
        Ok(())
    }

    /// The canonical name.
    pub fn to_string(self) -> (r: String)
        ensures
            r@ == algorithm_name(self),
    {
        match self {
            Algorithm::Gzip => "gzip".to_owned(),
            Algorithm::Brotli => "brotli".to_owned(),
            Algorithm::Zstd => "zstd".to_owned(),
        }
    }
}

impl std::str::FromStr for Algorithm {
    type Err = Error;

    /// Parse a canonical algorithm name. Alias normalization (`gz`, `br`,
    /// `zstandard`, ...) is the caller's business; only canonical names are
    /// accepted.
    fn from_str(name: &str) -> (r: Result<Self, Error>)
        ensures
            match r {
                Ok(algorithm) => algorithm_named(name@) == Some(algorithm),
                Err(Error::UnknownAlgorithm(rejected)) => {
                    &&& algorithm_named(name@) is None
                    &&& rejected@ == name@
                },
                Err(_) => false,
            },
    {
        let owned: String = name.to_owned();
        if owned == "gzip".to_owned() {
            Ok(Algorithm::Gzip)
        } else if owned == "brotli".to_owned() {
            Ok(Algorithm::Brotli)
        } else if owned == "zstd".to_owned() {
            Ok(Algorithm::Zstd)
        } else {
            Err(Error::UnknownAlgorithm(owned))
        }
    }
}

/// Parsing and naming are inverse to each other, and nothing but a canonical
/// name parses.
pub proof fn lemma_names_round_trip(algorithm: Algorithm, name: Seq<char>)
    ensures
        algorithm_named(algorithm_name(algorithm)) == Some(algorithm),
        algorithm_named(name) == Some(algorithm) <==> name == algorithm_name(algorithm),
{
    reveal_strlit("gzip");
    reveal_strlit("brotli");
    reveal_strlit("zstd");
    assert("gzip"@.len() == 4 && "brotli"@.len() == 6 && "zstd"@.len() == 4);
    assert("gzip"@[0] == 'g' && "zstd"@[0] == 'z');
}

/// `Vec::shrink_to_fit` gives memory back and leaves the items alone.
#[verifier::external_body]
fn shrink_to_fit(data: &mut Vec<u8>)
    ensures
        final(data)@ == old(data)@,
{
    data.shrink_to_fit();
}

/// The first reason to reject a compression request before any byte is
/// encoded.
pub open spec fn rejection(
    algorithm: Algorithm,
    level: u32,
    window_bits: Option<u32>,
    section_size: Option<u32>,
) -> Option<Error> {
    if !valid_level(algorithm, level) {
        Some(invalid_level(algorithm, level))
    } else if algorithm != Algorithm::Brotli {
        None
    } else if window_bits matches Some(bits) && !inner_brotli::valid_window_bits(bits as int) {
        Some(Error::InvalidWindowBits(window_bits->0))
    } else if section_size == Some(0u32) {
        Some(Error::InvalidSectionSize(0))
    } else {
        None
    }
}

/// The bytes that an accepted request gives for `input`.
pub open spec fn compressed(
    algorithm: Algorithm,
    level: u32,
    window_bits: Option<u32>,
    section_size: Option<u32>,
    input: Seq<u8>,
) -> Seq<u8> {
    match algorithm {
        Algorithm::Gzip => inner_gzip::encoded_at(level, input),
        Algorithm::Brotli => inner_brotli::encoded_with(
            inner_brotli::chosen_settings(level, window_bits, section_size, input.len()),
            input,
        ),
        Algorithm::Zstd => inner_zstd::zstd_encoded(level as int, input),
    }
}

/// Whether `error` is a failure of the algorithm's encoder itself. The gzip
/// encoder has none.
pub open spec fn encoder_failure(algorithm: Algorithm, error: Error) -> bool {
    match algorithm {
        Algorithm::Gzip => false,
        Algorithm::Brotli => error is BrotliParallelConfig || error is BrotliParallel,
        Algorithm::Zstd => error is Zstd,
    }
}

/// Whether `r` answers the request to compress `input`: a rejected request is
/// answered with the reason; an accepted one with the compressed bytes, from
/// which the decoder gives the input back, unless the encoder failed.
pub open spec fn answers(
    algorithm: Algorithm,
    level: u32,
    window_bits: Option<u32>,
    section_size: Option<u32>,
    input: Seq<u8>,
    r: Result<Vec<u8>, Error>,
) -> bool {
    match rejection(algorithm, level, window_bits, section_size) {
        Some(reason) => r == Err::<Vec<u8>, Error>(reason),
        None => match r {
            Ok(data) => {
                &&& data@ == compressed(algorithm, level, window_bits, section_size, input)
                &&& decode::decoded(algorithm, data@) == Some(input)
            },
            Err(error) => encoder_failure(algorithm, error),
        },
    }
}

/// Whether the worst-case output buffer that an encoder reserves for `len`
/// input bytes can exist.
pub open spec fn buffer_fits(algorithm: Algorithm, len: nat) -> bool {
    match algorithm {
        Algorithm::Gzip => inner_gzip::gzip_bound(len) <= isize::MAX,
        Algorithm::Brotli => true,
        Algorithm::Zstd => inner_zstd::zstd_bound(len) <= isize::MAX,
    }
}

/// Computes `buffer_fits`.
pub fn check_buffer(algorithm: Algorithm, len: usize) -> (r: bool)
    ensures
        r == buffer_fits(algorithm, len as nat),
{
    let n: u128 = len as u128;
    let limit: u128 = isize::MAX as u128;
    match algorithm {
        Algorithm::Gzip => n + n / 4096 + n / 16384 + n / 33554432 + 25 <= limit,
        Algorithm::Brotli => true,
        Algorithm::Zstd => {
            let small: u128 = if n < 131072 {
                (131072 - n) / 2048
            } else {
                0
            };
            n + n / 256 + small <= limit
        },
    }
}

/// Whether `after` are the encoders that a request leaves of `before`: a
/// rejected one changes nothing; an accepted one keeps the encoder it used for
/// the next input unless that failed, and leaves the other one alone.
pub open spec fn encoders_left(
    algorithm: Algorithm,
    level: u32,
    window_bits: Option<u32>,
    section_size: Option<u32>,
    len: nat,
    failure: Option<Error>,
    before: Compressors,
    after: Compressors,
) -> bool {
    if rejection(algorithm, level, window_bits, section_size) is Some {
        after == before
    } else {
        match algorithm {
            Algorithm::Gzip => after == before,
            Algorithm::Brotli => {
                &&& after.zstd == before.zstd
                &&& inner_brotli::context_after(
                    inner_brotli::chosen_settings(level, window_bits, section_size, len),
                    failure,
                    before.brotli,
                    after.brotli,
                )
            },
            Algorithm::Zstd => {
                &&& after.brotli == before.brotli
                &&& match failure {
                    None => after.zstd matches Some(context) && context.level == level,
                    Some(_) => after.zstd is None,
                }
            },
        }
    }
}

/// Encoders carried across the items that one worker handles.
pub struct Compressors {
    pub zstd: Option<ZstdContext>,
    pub brotli: BrotliContext,
}

impl Default for Compressors {
    fn default() -> (r: Self)
        ensures
            r.wf(),
            r.is_fresh(),
    {
        Compressors { zstd: None, brotli: BrotliContext::default() }
    }
}

impl Clone for Compressors {
    /// A worker that splits off starts with encoders of its own.
    fn clone(&self) -> (r: Self)
        ensures
            r.wf(),
            r.is_fresh(),
    {
        Compressors::default()
    }
}

impl Compressors {
    /// Every kept encoder is in a known state.
    pub open spec fn wf(&self) -> bool {
        &&& self.zstd matches Some(context) ==> context.wf()
        &&& self.brotli.wf()
    }

    /// No encoder is kept.
    pub open spec fn is_fresh(&self) -> bool {
        self.zstd is None && self.brotli.compressor is None
    }

    /// Compresses `input` with the zstd encoder at hand, if any. An encoder
    /// that failed is not kept.
    fn compress_zstd(&mut self, level: u32, input: &[u8]) -> (r: Result<Vec<u8>, Error>)
        requires
            old(self).wf(),
            level <= i32::MAX,
            inner_zstd::zstd_bound(input@.len()) <= isize::MAX,
        ensures
            final(self).wf(),
            final(self).brotli == old(self).brotli,
            match r {
                Ok(data) => {
                    &&& data@ == inner_zstd::zstd_encoded(level as int, input@)
                    &&& decode::zstd_decoded(data@) == Some(input@)
                    &&& final(self).zstd matches Some(context)
                    &&& context.level == level
                },
                Err(error) => error is Zstd && final(self).zstd is None,
            },
    {
        let mut context: ZstdContext = match self.zstd.take() {
            Some(context) => context,
            None => ZstdContext::default(),
        };
        let result: Result<Vec<u8>, Error> = inner_zstd::compress(&mut context, level, input);
        if result.is_ok() {
            self.zstd = Some(context);
        }
        result
    }

    /// Compresses `input` with the given algorithm and level.
    ///
    /// `window_bits` and `section_size` are only used by brotli and ignored by
    /// other algorithms.
    pub fn compress(
        &mut self,
        algorithm: Algorithm,
        level: u32,
        window_bits: Option<u32>,
        section_size: Option<u32>,
        input: &[u8],
    ) -> (r: Result<Vec<u8>, Error>)
        requires
            old(self).wf(),
            valid_level(algorithm, level) ==> buffer_fits(algorithm, input@.len()),
        ensures
            final(self).wf(),
            answers(algorithm, level, window_bits, section_size, input@, r),
            encoders_left(
                algorithm,
                level,
                window_bits,
                section_size,
                input@.len(),
                error::failure_of(r),
                *old(self),
                *final(self),
            ),
            algorithm == Algorithm::Zstd && r is Ok ==> {
                &&& r->Ok_0@ == inner_zstd::zstd_encoded(level as int, input@)
                &&& final(self).zstd matches Some(context)
                &&& context.level == level
            },
    {
        match algorithm.validate_level(level) {
            Ok(()) => {},
            Err(error) => {
                return Err(error);
            },
        }
        let result: Result<Vec<u8>, Error> = match algorithm {
            Algorithm::Gzip => inner_gzip::compress(level, input),
            Algorithm::Brotli => inner_brotli::compress(
                &mut self.brotli,
                level,
                window_bits,
                section_size,
                input,
            ),
            Algorithm::Zstd => self.compress_zstd(level, input),
        };
        match result {
            Ok(mut output) => {
                // Output buffers are sized for the worst case, so compressible
                // input leaves most of the capacity unused; hand back
                // right-sized buffers.
                shrink_to_fit(&mut output);
                Ok(output)
            },
            Err(error) => Err(error),
        }
    }
}

/// Compresses `input` with the given algorithm and level, on encoders made for
/// this call.
///
/// `window_bits` and `section_size` are only used by brotli and ignored by
/// other algorithms.
pub fn compress(
    algorithm: Algorithm,
    level: u32,
    window_bits: Option<u32>,
    section_size: Option<u32>,
    input: &[u8],
) -> (r: Result<Vec<u8>, Error>)
    requires
        valid_level(algorithm, level) ==> buffer_fits(algorithm, input@.len()),
    ensures
        answers(algorithm, level, window_bits, section_size, input@, r),
{
    let mut compressors: Compressors = Compressors::default();
    compressors.compress(algorithm, level, window_bits, section_size, input)
}

/// Decoding gives back what was compressed: whatever bytes the decoder returns
/// for the compressed data of `input` are `input`.
pub proof fn lemma_round_trip(
    algorithm: Algorithm,
    level: u32,
    window_bits: Option<u32>,
    section_size: Option<u32>,
    input: Seq<u8>,
    r: Result<Vec<u8>, Error>,
    bytes: Seq<u8>,
)
    requires
        answers(algorithm, level, window_bits, section_size, input, r),
        r is Ok,
        decode::decoded(algorithm, r->Ok_0@) == Some(bytes),
    ensures
        bytes == input,
{
}

/// Whether `r` is a failure of the algorithm's encoder itself.
pub open spec fn failed(algorithm: Algorithm, r: Result<Vec<u8>, Error>) -> bool {
    r matches Err(error) && encoder_failure(algorithm, error)
}

/// Gzip compression succeeds at every level that gzip has, whatever the input.
pub proof fn lemma_gzip_succeeds(
    level: u32,
    window_bits: Option<u32>,
    section_size: Option<u32>,
    input: Seq<u8>,
    r: Result<Vec<u8>, Error>,
)
    requires
        answers(Algorithm::Gzip, level, window_bits, section_size, input, r),
    ensures
        r is Ok <==> valid_level(Algorithm::Gzip, level),
{
}

/// Whether two results are the same: the same bytes or the same error.
pub open spec fn same_result(
    first: Result<Vec<u8>, Error>,
    second: Result<Vec<u8>, Error>,
) -> bool {
    match (first, second) {
        (Ok(data), Ok(other)) => data@ == other@,
        (Err(error), Err(other)) => error == other,
        _ => false,
    }
}

/// The same request gives the same result: neither the encoders at hand, nor
/// the thread pool, nor anything else has a part in it, unless an encoder
/// fails.
pub proof fn lemma_deterministic(
    algorithm: Algorithm,
    level: u32,
    window_bits: Option<u32>,
    section_size: Option<u32>,
    input: Seq<u8>,
    first: Result<Vec<u8>, Error>,
    second: Result<Vec<u8>, Error>,
)
    requires
        answers(algorithm, level, window_bits, section_size, input, first),
        answers(algorithm, level, window_bits, section_size, input, second),
        !failed(algorithm, first),
        !failed(algorithm, second),
    ensures
        same_result(first, second),
{
}

/// The brotli-only options have no part in what the other algorithms answer:
/// they are never rejected, and two requests that differ in them alone give
/// the same result, unless an encoder fails.
pub proof fn lemma_options_ignored(
    algorithm: Algorithm,
    level: u32,
    window_bits: Option<u32>,
    section_size: Option<u32>,
    other_window_bits: Option<u32>,
    other_section_size: Option<u32>,
    input: Seq<u8>,
    first: Result<Vec<u8>, Error>,
    second: Result<Vec<u8>, Error>,
)
    requires
        algorithm != Algorithm::Brotli,
        answers(algorithm, level, window_bits, section_size, input, first),
        answers(algorithm, level, other_window_bits, other_section_size, input, second),
        !failed(algorithm, first),
        !failed(algorithm, second),
    ensures
        same_result(first, second),
        first is Ok <==> valid_level(algorithm, level),
{
}

/// A section size outside the encoder's range gives the result of the nearer
/// end of the range, unless an encoder fails.
pub proof fn lemma_section_size_clamped(
    level: u32,
    window_bits: Option<u32>,
    size: u32,
    clamped: u32,
    input: Seq<u8>,
    first: Result<Vec<u8>, Error>,
    second: Result<Vec<u8>, Error>,
)
    requires
        size != 0,
        clamped == inner_brotli::clamped_section(size as nat),
        answers(Algorithm::Brotli, level, window_bits, Some(size), input, first),
        answers(Algorithm::Brotli, level, window_bits, Some(clamped), input, second),
        !failed(Algorithm::Brotli, first),
        !failed(Algorithm::Brotli, second),
    ensures
        same_result(first, second),
{
    inner_brotli::lemma_clamped_section_size(level, window_bits, size, clamped, input.len());
}

/// A window that is wider than the input needs gives the result of the one it
/// needs, unless an encoder fails.
pub proof fn lemma_window_shrunk_to_input(
    level: u32,
    window_bits: u32,
    shrunk: u32,
    section_size: Option<u32>,
    input: Seq<u8>,
    first: Result<Vec<u8>, Error>,
    second: Result<Vec<u8>, Error>,
)
    requires
        inner_brotli::valid_window_bits(window_bits as int),
        shrunk == inner_brotli::effective_window(window_bits as nat, input.len()),
        answers(Algorithm::Brotli, level, Some(window_bits), section_size, input, first),
        answers(Algorithm::Brotli, level, Some(shrunk), section_size, input, second),
        !failed(Algorithm::Brotli, first),
        !failed(Algorithm::Brotli, second),
    ensures
        same_result(first, second),
{
    inner_brotli::lemma_window_fits_input(window_bits as nat, input.len());
    inner_brotli::lemma_shrunk_window(level, window_bits, shrunk, section_size, input.len());
}

/// Leaving the window unset gives the result of the default window, unless an
/// encoder fails.
pub proof fn lemma_window_defaults(
    level: u32,
    section_size: Option<u32>,
    input: Seq<u8>,
    first: Result<Vec<u8>, Error>,
    second: Result<Vec<u8>, Error>,
)
    requires
        answers(Algorithm::Brotli, level, None, section_size, input, first),
        answers(
            Algorithm::Brotli,
            level,
            Some(BROTLI_DEFAULT_WINDOW_BITS),
            section_size,
            input,
            second,
        ),
        !failed(Algorithm::Brotli, first),
        !failed(Algorithm::Brotli, second),
    ensures
        same_result(first, second),
{
    inner_brotli::lemma_default_window(level, section_size, input.len());
}

/// Leaving the section size unset gives the result of two windows of the
/// requested size, unless an encoder fails.
pub proof fn lemma_section_size_defaults(
    level: u32,
    window_bits: u32,
    two_windows: u32,
    input: Seq<u8>,
    first: Result<Vec<u8>, Error>,
    second: Result<Vec<u8>, Error>,
)
    requires
        inner_brotli::valid_window_bits(window_bits as int),
        two_windows == vstd::arithmetic::power2::pow2((window_bits + 1) as nat),
        answers(Algorithm::Brotli, level, Some(window_bits), None, input, first),
        answers(Algorithm::Brotli, level, Some(window_bits), Some(two_windows), input, second),
        !failed(Algorithm::Brotli, first),
        !failed(Algorithm::Brotli, second),
    ensures
        same_result(first, second),
{
    vstd::arithmetic::power2::lemma_pow2_pos((window_bits + 1) as nat);
    inner_brotli::lemma_default_section_same_stream(level, window_bits, two_windows, input);
}

/// The default level without options is never rejected.
pub proof fn lemma_defaults_accepted(algorithm: Algorithm)
    ensures
        rejection(algorithm, default_level_of(algorithm), None, None) is None,
{
}

} // verus!
