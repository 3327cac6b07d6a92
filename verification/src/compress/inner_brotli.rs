//! Brotli-specific compression: parameter validation, the choice of window and
//! section size, and the rayon-backed parallel encoder.

pub mod buf;
pub mod memory;
pub mod shared_input;

use rayon::iter::{IndexedParallelIterator, IntoParallelIterator, ParallelIterator};

use mbrotli::compressor::parallel::{
    BatchConfig, ParallelCompressor, ParallelConfig, ParallelConfigError, ParallelEncodeError,
    ScopedParallelTask, SegmentSize, TaskCount,
};

use vstd::arithmetic::power2::*;
use vstd::prelude::*;

use crate::decode;
use crate::error;
use crate::error::Error;

verus! {

/// Default brotli window size (log2).
pub const BROTLI_DEFAULT_WINDOW_BITS: u32 = 22;

/// Smallest section, in bytes, that the encoder works on.
pub const MIN_SECTION_SIZE: usize = 65536;

/// Largest section, in bytes, that the encoder works on.
pub const MAX_SECTION_SIZE: usize = 16777216;

/// Inputs of one section below this many bytes are encoded serially.
pub const SERIAL_LIMIT: usize = 8388608;

/// Whether `bits` is a window size that decoders of the standard format accept.
pub open spec fn valid_window_bits(bits: int) -> bool {
    10 <= bits <= 24
}

/// The least `k` with `2^k >= n`.
pub open spec fn log2_ceil(n: nat) -> nat
    decreases n,
{
    if n <= 1 {
        0
    } else {
        1 + log2_ceil(((n + 1) / 2) as nat)
    }
}

/// The window used for an input of `len` bytes when `requested` is asked for:
/// no wider than the input needs, no narrower than the smallest window.
pub open spec fn effective_window(requested: nat, len: nat) -> nat {
    let needed = if log2_ceil(len) < 10 {
        10
    } else {
        log2_ceil(len)
    };
    if requested < needed {
        requested
    } else {
        needed
    }
}

/// `size`, moved to the nearest section size that the encoder works on.
pub open spec fn clamped_section(size: nat) -> nat {
    if size < MIN_SECTION_SIZE {
        MIN_SECTION_SIZE as nat
    } else if size > MAX_SECTION_SIZE {
        MAX_SECTION_SIZE as nat
    } else {
        size
    }
}

/// The section size used with `window`: the requested one, or two windows.
pub open spec fn effective_section(requested: Option<u32>, window: nat) -> nat {
    clamped_section(
        match requested {
            Some(size) => size as nat,
            None => pow2(window + 1),
        },
    )
}

/// What the encoder is set to for one input.
#[derive(Debug, Clone, Copy, PartialEq, Eq, Structural)]
pub struct EncoderSettings {
    pub quality: u8,
    pub window: u8,
    pub section: usize,
}

impl EncoderSettings {
    /// Whether the encoder accepts these settings.
    pub open spec fn wf(self) -> bool {
        &&& self.quality <= 11
        &&& valid_window_bits(self.window as int)
        &&& MIN_SECTION_SIZE <= self.section <= MAX_SECTION_SIZE
    }
}

/// `2^k >= n` bounds the logarithm of `n` by `k`.
pub proof fn lemma_log2_ceil_at_most(n: nat, k: nat)
    requires
        n <= pow2(k),
    ensures
        log2_ceil(n) <= k,
    decreases k,
{
    if n > 1 {
        lemma_pow2_step(k);
        lemma_log2_ceil_at_most(((n + 1) / 2) as nat, (k - 1) as nat);
    }
}

/// Powers of two double, starting from one.
proof fn lemma_pow2_step(k: nat)
    ensures
        k == 0 ==> pow2(k) == 1,
        k > 0 ==> pow2(k) == 2 * pow2((k - 1) as nat),
{
    if k == 0 {
        lemma2_to64();
    } else {
        lemma_pow2_unfold(k);
    }
}

/// `2^log2_ceil(n)` covers `n`, and no smaller power of two does.
pub proof fn lemma_log2_ceil_is_least(n: nat)
    ensures
        n <= pow2(log2_ceil(n)),
        forall|k: nat| #![trigger pow2(k)] n <= pow2(k) ==> log2_ceil(n) <= k,
    decreases n,
{
    if n <= 1 {
        lemma2_to64();
    } else {
        let half = ((n + 1) / 2) as nat;
        lemma_log2_ceil_is_least(half);
        lemma_pow2_step(log2_ceil(n));
    }
    assert forall|k: nat| #![trigger pow2(k)] n <= pow2(k) implies log2_ceil(n) <= k by {
        lemma_log2_ceil_at_most(n, k);
    }
}

/// Computes `log2_ceil`.
fn bits_to_cover(n: usize) -> (r: u32)
    ensures
        r == log2_ceil(n as nat),
        r <= 64,
{
    proof {
        lemma2_to64_rest();
        lemma_log2_ceil_at_most(n as nat, 64);
    }
    let mut rest: usize = n;
    let mut bits: u32 = 0;
    while rest > 1
        invariant
            bits + log2_ceil(rest as nat) == log2_ceil(n as nat),
            log2_ceil(n as nat) <= 64,
        decreases rest,
    {
        rest = rest - rest / 2;
        bits = bits + 1;
    }
    bits
}

/// Validate the public window option before shrinking it to the input.
pub fn validate_window_bits(window_bits: u32) -> (r: Result<(), Error>)
    ensures
        match r {
            Ok(()) => valid_window_bits(window_bits as int),
            Err(error) => !valid_window_bits(window_bits as int) && error
                == Error::InvalidWindowBits(window_bits),
        },
{
    if window_bits < 10 || window_bits > 24 {
        return Err(Error::InvalidWindowBits(window_bits));
    }
    Ok(())
}

/// Positive section sizes are clamped to the encoder's supported range.
pub fn validate_section_size(section_size: u32) -> (r: Result<(), Error>)
    ensures
        match r {
            Ok(()) => section_size != 0,
            Err(error) => section_size == 0 && error == Error::InvalidSectionSize(section_size),
        },
{
    if section_size == 0 {
        return Err(Error::InvalidSectionSize(section_size));
    }
    Ok(())
}

/// The parallel brotli encoder.
#[verifier::external_type_specification]
#[verifier::external_body]
pub struct ExParallelCompressor(ParallelCompressor);

/// What a parallel encoder was last configured with, if every setting beyond
/// these is the default.
pub uninterp spec fn configured(compressor: ParallelCompressor) -> Option<EncoderSettings>;

/// The stream that the parallel encoder gives for `input` at `quality`, with a
/// window of `2^window` bytes and sections of `section` bytes.
pub uninterp spec fn brotli_encoded(
    quality: int,
    window: int,
    section: int,
    input: Seq<u8>,
) -> Seq<u8>;

/// The stream that the serial encoder gives for `input` at `quality`, with a
/// window of `2^window` bytes.
pub uninterp spec fn brotli_serial(quality: int, window: int, input: Seq<u8>) -> Seq<u8>;

/// Whether an input of `len` bytes is encoded in one piece by the serial
/// encoder.
pub open spec fn is_serial(settings: EncoderSettings, len: nat) -> bool {
    len <= settings.section && len < SERIAL_LIMIT
}

/// `mbrotli::Quality::try_from`: accepts the qualities up to eleven.
#[verifier::external_body]
fn check_quality(quality: u8) -> (r: Result<(), mbrotli::ConfigError>)
    ensures
        r is Ok <==> quality <= 11,
{
    mbrotli::Quality::try_from(quality)?;
    Ok(())
}

/// `TaskCount::try_from`: accepts positive counts that fit 32 bits.
#[verifier::external_body]
fn check_task_count(tasks: usize) -> (r: Result<(), ParallelConfigError>)
    ensures
        r is Ok <==> 1 <= tasks <= u32::MAX,
{
    TaskCount::try_from(tasks)?;
    Ok(())
}

/// `rayon::current_num_threads`. It depends on the pool that the caller runs
/// on, so nothing is said of the count.
#[verifier::external_body]
fn pool_width() -> usize {
    rayon::current_num_threads()
}

/// `ParallelCompressor::new` with a quality, a standard window and a section
/// size. It refuses only windows of the large-window extension, which the
/// settings cannot ask for.
#[verifier::external_body]
fn new_compressor(settings: EncoderSettings) -> (r: Result<ParallelCompressor, ParallelConfigError>)
    requires
        settings.wf(),
    ensures
        r is Ok,
        configured(r->Ok_0) == Some(settings),
{
    let quality = mbrotli::Quality::try_from(settings.quality)?;
    let window = mbrotli::Window::standard(settings.window)?;
    let section = SegmentSize::try_from(settings.section)?;
    let config = mbrotli::EncoderConfig::default().with_quality(quality).with_window(window);
    ParallelCompressor::new(config, ParallelConfig::from(section))
}

/// `ParallelCompressor::reconfigure`: replaces quality and window and keeps the
/// section size. It refuses what `ParallelCompressor::new` refuses.
#[verifier::external_body]
fn reconfigure(compressor: &mut ParallelCompressor, quality: u8, window: u8) -> (r: Result<
    (),
    ParallelConfigError,
>)
    requires
        configured(*old(compressor)) is Some,
        quality <= 11,
        valid_window_bits(window as int),
    ensures
        r is Ok,
        configured(*final(compressor)) == Some(
            (EncoderSettings {
                quality,
                window,
                section: configured(*old(compressor))->0.section,
            }),
        ),
{
    let quality = mbrotli::Quality::try_from(quality)?;
    let window = mbrotli::Window::standard(window)?;
    compressor.reconfigure(
        mbrotli::EncoderConfig::default().with_quality(quality).with_window(window),
    )
}

/// `ParallelCompressor::reconfigure_parallel`: replaces the section size and
/// keeps quality and window.
#[verifier::external_body]
fn reconfigure_parallel(compressor: &mut ParallelCompressor, section: usize) -> (r: Result<
    (),
    ParallelConfigError,
>)
    requires
        configured(*old(compressor)) is Some,
        MIN_SECTION_SIZE <= section <= MAX_SECTION_SIZE,
    ensures
        r is Ok,
        configured(*final(compressor)) == Some(
            (EncoderSettings { section, ..configured(*old(compressor))->0 }),
        ),
{
    let section = SegmentSize::try_from(section)?;
    compressor.reconfigure_parallel(ParallelConfig::from(section));
    Ok(())
}

/// One batch of `ParallelCompressor`: `prepare_slice`, every task run on the
/// rayon pool, `finish_into`. The bytes do not depend on the number of tasks,
/// and those of an input that goes to the serial encoder do not depend on the
/// section size. The decoder gives the input back from them. Planning and
/// staging can run out of memory or address space, so success is not promised.
#[verifier::external_body]
fn encode(compressor: &mut ParallelCompressor, tasks: usize, input: &[u8]) -> (r: Result<
    Vec<u8>,
    ParallelEncodeError,
>)
    requires
        configured(*old(compressor)) is Some,
        1 <= tasks <= u32::MAX,
    ensures
        configured(*final(compressor)) == configured(*old(compressor)),
        r matches Ok(data) ==> {
            let settings = configured(*old(compressor))->0;
            &&& is_serial(settings, input@.len()) ==> data@ == brotli_serial(
                settings.quality as int,
                settings.window as int,
                input@,
            )
            &&& !is_serial(settings, input@.len()) ==> data@ == brotli_encoded(
                settings.quality as int,
                settings.window as int,
                settings.section as int,
                input@,
            )
            &&& decode::brotli_decoded(data@) == Some(input@)
        },
{
    let tasks = TaskCount::try_from(tasks).expect("a task count that fits 32 bits");
    let mut batch = compressor.prepare_slice(input, BatchConfig::auto(tasks))?;
    batch.take_tasks()?.into_par_iter().with_max_len(1).for_each(ScopedParallelTask::run);
    let mut output = Vec::new();
    batch.finish_into(&mut output)?;
    Ok(output)
}

/// The encoder that is carried from one input to the next.
pub struct BrotliContext {
    pub compressor: Option<ParallelCompressor>,
}

impl BrotliContext {
    /// A kept encoder has no settings beyond those the library gives it.
    pub open spec fn wf(&self) -> bool {
        self.compressor matches Some(kept) ==> configured(kept) is Some
    }
}

impl Default for BrotliContext {
    fn default() -> (r: Self)
        ensures
            r.wf(),
            r.compressor is None,
    {
        BrotliContext { compressor: None }
    }
}

/// The settings that accepted options give for an input of `len` bytes.
pub open spec fn chosen_settings(
    level: u32,
    window_bits: Option<u32>,
    section_size: Option<u32>,
    len: nat,
) -> EncoderSettings {
    let requested = match window_bits {
        Some(bits) => bits as nat,
        None => BROTLI_DEFAULT_WINDOW_BITS as nat,
    };
    let window = effective_window(requested, len);
    EncoderSettings {
        quality: level as u8,
        window: window as u8,
        section: effective_section(section_size, window) as usize,
    }
}

/// Whether brotli accepts the two brotli-only options.
pub open spec fn options_accepted(window_bits: Option<u32>, section_size: Option<u32>) -> bool {
    &&& window_bits matches Some(bits) ==> valid_window_bits(bits as int)
    &&& section_size matches Some(size) ==> size != 0
}

/// Whether brotli accepts a quality and the two brotli-only options.
pub open spec fn settings_accepted(
    level: u32,
    window_bits: Option<u32>,
    section_size: Option<u32>,
) -> bool {
    options_accepted(window_bits, section_size) && level as u8 <= 11
}

/// Whether `error` reports the first rejected one of window, section size and
/// quality.
pub open spec fn settings_rejected(
    level: u32,
    window_bits: Option<u32>,
    section_size: Option<u32>,
    error: Error,
) -> bool {
    match error {
        Error::InvalidWindowBits(bits) => {
            &&& window_bits == Some(bits)
            &&& !valid_window_bits(bits as int)
        },
        Error::InvalidSectionSize(size) => {
            &&& options_accepted(window_bits, None)
            &&& section_size == Some(size)
            &&& size == 0
        },
        Error::BrotliConfig(_) => {
            &&& options_accepted(window_bits, section_size)
            &&& level as u8 > 11
        },
        _ => false,
    }
}

/// Chooses the encoder settings for an input of `len` bytes, applying the
/// defaults of the options that were left unset.
///
/// The section size defaults to two full windows: sections much smaller than
/// the window lose too many cross-section matches.
pub fn choose_settings(
    level: u32,
    window_bits: Option<u32>,
    section_size: Option<u32>,
    len: usize,
) -> (r: Result<EncoderSettings, Error>)
    ensures
        match r {
            Ok(settings) => {
                &&& settings_accepted(level, window_bits, section_size)
                &&& settings == chosen_settings(level, window_bits, section_size, len as nat)
                &&& settings.wf()
                &&& level <= 11 ==> settings.quality == level
            },
            Err(error) => settings_rejected(level, window_bits, section_size, error),
        },
{
    let requested: u32 = match window_bits {
        Some(bits) => bits,
        None => BROTLI_DEFAULT_WINDOW_BITS,
    };
    match validate_window_bits(requested) {
        Ok(()) => {},
        Err(error) => {
            return Err(error);
        },
    }
    if let Some(size) = section_size {
        match validate_section_size(size) {
            Ok(()) => {},
            Err(error) => {
                return Err(error);
            },
        }
    }
    let covering: u32 = bits_to_cover(len);
    let needed: u32 = if covering < 10 {
        10
    } else {
        covering
    };
    let window: u32 = if requested < needed {
        requested
    } else {
        needed
    };
    let asked: usize = match section_size {
        Some(size) => size as usize,
        None => {
            proof {
                lemma_section_shift(window);
            }
            1usize << (window + 1)
        },
    };
    let section: usize = if asked < MIN_SECTION_SIZE {
        MIN_SECTION_SIZE
    } else if asked > MAX_SECTION_SIZE {
        MAX_SECTION_SIZE
    } else {
        asked
    };
    let quality: u8 = level as u8;
    match check_quality(quality) {
        Ok(()) => {},
        Err(error) => {
            return Err(Error::BrotliConfig(error));
        },
    }
    Ok(EncoderSettings { quality, window: window as u8, section })
}

/// Shifting one by a window size plus one gives two windows.
proof fn lemma_section_shift(window: u32)
    requires
        10 <= window <= 24,
    ensures
        1usize << (window + 1) as u32 == pow2((window + 1) as nat),
        pow2((window + 1) as nat) <= 33554432,
{
    lemma2_to64();
    let shift = (window + 1) as usize;
    lemma_pow2_strictly_increases(shift as nat, 26);
    vstd::bits::lemma_usize_shl_is_mul(1, shift);
}

/// The stream that brotli gives for `input` with `settings`.
pub open spec fn encoded_with(settings: EncoderSettings, input: Seq<u8>) -> Seq<u8> {
    if is_serial(settings, input.len()) {
        brotli_serial(settings.quality as int, settings.window as int, input)
    } else {
        brotli_encoded(
            settings.quality as int,
            settings.window as int,
            settings.section as int,
            input,
        )
    }
}

/// Whether `r` answers the request to encode `input` with `settings`.
pub open spec fn sections_answer(
    settings: EncoderSettings,
    input: Seq<u8>,
    r: Result<Vec<u8>, Error>,
) -> bool {
    match r {
        Ok(data) => {
            &&& data@ == encoded_with(settings, input)
            &&& decode::brotli_decoded(data@) == Some(input)
        },
        Err(error) => error is BrotliParallelConfig || error is BrotliParallel,
    }
}

/// Whether `after` is what encoding with `settings` leaves of `before`: the
/// encoder is kept, one that failed is not, and a task count that no encoder
/// takes changes nothing.
pub open spec fn context_after(
    settings: EncoderSettings,
    failure: Option<Error>,
    before: BrotliContext,
    after: BrotliContext,
) -> bool {
    match failure {
        None => after.compressor matches Some(kept) && configured(kept) == Some(settings),
        Some(Error::BrotliParallelConfig(_)) => after == before,
        Some(_) => after.compressor is None,
    }
}

/// Hands on what the encoder gave, its failure as a brotli failure. The encoder
/// is kept for the next input unless it failed.
pub fn finish(
    context: &mut BrotliContext,
    compressor: ParallelCompressor,
    encoded: Result<Vec<u8>, ParallelEncodeError>,
) -> (r: Result<Vec<u8>, Error>)
    ensures
        match encoded {
            Ok(output) => {
                &&& r == Ok::<Vec<u8>, Error>(output)
                &&& final(context).compressor == Some(compressor)
            },
            Err(error) => {
                &&& r == Err::<Vec<u8>, Error>(Error::BrotliParallel(error))
                &&& *final(context) == *old(context)
            },
        },
{
    match encoded {
        Ok(output) => {
            context.compressor = Some(compressor);
            Ok(output)
        },
        Err(error) => Err(Error::BrotliParallel(error)),
    }
}

/// Compresses by cutting `input` into sections and spreading them over `width`
/// tasks, at least one.
///
/// The encoder caps the number of tasks at the number of sections that the
/// input holds, so asking for more tasks than there is work costs nothing, and
/// the task count is a pure scheduling choice. The encoder of an earlier input
/// is reused; one that failed is not kept.
pub fn compress_sections(
    context: &mut BrotliContext,
    settings: EncoderSettings,
    width: usize,
    input: &[u8],
) -> (r: Result<Vec<u8>, Error>)
    requires
        old(context).wf(),
        settings.wf(),
    ensures
        final(context).wf(),
        r matches Err(Error::BrotliParallelConfig(_)) <==> width > u32::MAX,
        sections_answer(settings, input@, r),
        context_after(settings, error::failure_of(r), *old(context), *final(context)),
{
    let tasks: usize = if width < 1 {
        1
    } else {
        width
    };
    match check_task_count(tasks) {
        Ok(()) => {},
        Err(error) => {
            return Err(Error::BrotliParallelConfig(error));
        },
    }
    let mut compressor = match context.compressor.take() {
        Some(mut cached) => {
            match reconfigure(&mut cached, settings.quality, settings.window) {
                Ok(()) => {},
                Err(error) => {
                    return Err(Error::BrotliParallelConfig(error));
                },
            }
            match reconfigure_parallel(&mut cached, settings.section) {
                Ok(()) => {},
                Err(error) => {
                    return Err(Error::BrotliParallelConfig(error));
                },
            }
            cached
        },
        None => match new_compressor(settings) {
            Ok(fresh) => fresh,
            Err(error) => {
                return Err(Error::BrotliParallelConfig(error));
            },
        },
    };
    let encoded: Result<Vec<u8>, ParallelEncodeError> = encode(&mut compressor, tasks, input);
    finish(context, compressor, encoded)
}

/// Compresses `input` on the ambient rayon pool, with as many tasks as the
/// pool has threads.
pub fn compress_parallel(
    context: &mut BrotliContext,
    settings: EncoderSettings,
    input: &[u8],
) -> (r: Result<Vec<u8>, Error>)
    requires
        old(context).wf(),
        settings.wf(),
    ensures
        final(context).wf(),
        sections_answer(settings, input@, r),
        context_after(settings, error::failure_of(r), *old(context), *final(context)),
{
    compress_sections(context, settings, pool_width(), input)
}

/// Compresses `input` with brotli, applying the brotli-only defaults for
/// `window_bits` and `section_size` when the caller left them unset.
///
/// The output does not depend on the machine's core count. How many sections
/// an input is cut into is fixed by `section_size`, and how many threads chew
/// through them leaves the bytes alone.
pub fn compress(
    context: &mut BrotliContext,
    level: u32,
    window_bits: Option<u32>,
    section_size: Option<u32>,
    input: &[u8],
) -> (r: Result<Vec<u8>, Error>)
    requires
        old(context).wf(),
    ensures
        final(context).wf(),
        settings_accepted(level, window_bits, section_size) ==> context_after(
            chosen_settings(level, window_bits, section_size, input@.len()),
            error::failure_of(r),
            *old(context),
            *final(context),
        ),
        match r {
            Ok(data) => {
                &&& settings_accepted(level, window_bits, section_size)
                &&& data@ == encoded_with(
                    chosen_settings(level, window_bits, section_size, input@.len()),
                    input@,
                )
                &&& decode::brotli_decoded(data@) == Some(input@)
            },
            Err(error) => {
                ||| settings_rejected(level, window_bits, section_size, error) && *final(context)
                    == *old(context)
                ||| settings_accepted(level, window_bits, section_size) && (
                error is BrotliParallelConfig || error is BrotliParallel)
            },
        },
{
    let settings: EncoderSettings = match choose_settings(
        level,
        window_bits,
        section_size,
        input.len(),
    ) {
        Ok(settings) => settings,
        Err(error) => {
            return Err(error);
        },
    };
    compress_parallel(context, settings, input)
}

/// The window is one that was asked for or a narrower one, is never below the
/// smallest, covers the input unless what was asked for does not, and is no
/// wider than the input needs unless it is the smallest.
pub proof fn lemma_window_fits_input(requested: nat, len: nat)
    requires
        valid_window_bits(requested as int),
    ensures
        valid_window_bits(effective_window(requested, len) as int),
        effective_window(requested, len) <= requested,
        len <= pow2(effective_window(requested, len)) || effective_window(requested, len)
            == requested,
        effective_window(requested, len) == 10 || pow2(
            (effective_window(requested, len) - 1) as nat,
        ) < len,
{
    let window = effective_window(requested, len);
    lemma_log2_ceil_is_least(len);
    if log2_ceil(len) < 10 {
        lemma_pow2_strictly_increases(log2_ceil(len), 10);
    }
    if window != 10 {
        let below = (window - 1) as nat;
        assert(len <= pow2(below) ==> log2_ceil(len) <= below);
    }
}

/// Section sizes inside the encoder's range are used as they are; others are
/// moved to its nearer end.
pub proof fn lemma_section_clamped(size: u32, window: nat)
    ensures
        MIN_SECTION_SIZE <= effective_section(Some(size), window) <= MAX_SECTION_SIZE,
        MIN_SECTION_SIZE <= size <= MAX_SECTION_SIZE ==> effective_section(Some(size), window)
            == size,
        size < MIN_SECTION_SIZE ==> effective_section(Some(size), window) == MIN_SECTION_SIZE,
        size > MAX_SECTION_SIZE ==> effective_section(Some(size), window) == MAX_SECTION_SIZE,
{
}

/// A reused encoder gives the bytes of a fresh one: whatever was encoded
/// before, two streams for the same settings and input are the same.
pub proof fn lemma_reuse_leaves_no_trace(
    settings: EncoderSettings,
    input: Seq<u8>,
    fresh: Result<Vec<u8>, Error>,
    reused: Result<Vec<u8>, Error>,
)
    requires
        sections_answer(settings, input, fresh),
        sections_answer(settings, input, reused),
        fresh is Ok,
        reused is Ok,
    ensures
        fresh->Ok_0@ == reused->Ok_0@,
{
}

/// Asking for a section size outside the encoder's range is asking for the
/// nearer end of the range.
pub proof fn lemma_clamped_section_size(
    level: u32,
    window_bits: Option<u32>,
    size: u32,
    clamped: u32,
    len: nat,
)
    requires
        clamped == clamped_section(size as nat),
    ensures
        chosen_settings(level, window_bits, Some(size), len) == chosen_settings(
            level,
            window_bits,
            Some(clamped),
            len,
        ),
{
}

/// Asking for a window that the input does not need is asking for the one it
/// needs.
pub proof fn lemma_shrunk_window(
    level: u32,
    window_bits: u32,
    shrunk: u32,
    section_size: Option<u32>,
    len: nat,
)
    requires
        shrunk == effective_window(window_bits as nat, len),
    ensures
        chosen_settings(level, Some(window_bits), section_size, len) == chosen_settings(
            level,
            Some(shrunk),
            section_size,
            len,
        ),
{
}

/// Leaving the window unset is asking for the default one.
pub proof fn lemma_default_window(level: u32, section_size: Option<u32>, len: nat)
    ensures
        chosen_settings(level, None, section_size, len) == chosen_settings(
            level,
            Some(BROTLI_DEFAULT_WINDOW_BITS),
            section_size,
            len,
        ),
{
}

/// Leaving the section size unset gives the stream of two windows of the
/// requested size. Where the window is not shrunk the settings are the same;
/// where it is, both sizes hold the input in one section, and the serial
/// encoder gives the stream.
pub proof fn lemma_default_section_same_stream(
    level: u32,
    window_bits: u32,
    two_windows: u32,
    input: Seq<u8>,
)
    requires
        valid_window_bits(window_bits as int),
        two_windows == pow2((window_bits + 1) as nat),
    ensures
        encoded_with(chosen_settings(level, Some(window_bits), None, input.len()), input)
            == encoded_with(
            chosen_settings(level, Some(window_bits), Some(two_windows), input.len()),
            input,
        ),
        effective_window(window_bits as nat, input.len()) == window_bits ==> chosen_settings(
            level,
            Some(window_bits),
            None,
            input.len(),
        ) == chosen_settings(level, Some(window_bits), Some(two_windows), input.len()),
{
    let requested = window_bits as nat;
    let len = input.len();
    let window = effective_window(requested, len);
    if window != requested {
        lemma_window_fits_input(requested, len);
        lemma_pow2_step(window + 1);
        lemma_pow2_strictly_increases(window + 1, requested + 1);
        lemma_pow2_strictly_increases(window, 24);
        lemma2_to64();
        if window == 23 {
            assert(requested == 24);
        } else {
            lemma_pow2_strictly_increases(window, 23);
        }
    }
}

/// How many sections of `section` bytes hold `len` bytes.
pub open spec fn section_count(len: nat, section: nat) -> nat {
    (len + section - 1) as nat / section
}

/// Leaving the section size unset cuts an input as two windows of the
/// requested size do, although the window itself is shrunk to the input.
pub proof fn lemma_default_section_is_two_windows(requested: nat, len: nat)
    requires
        valid_window_bits(requested as int),
    ensures
        section_count(len, effective_section(None, effective_window(requested, len)))
            == section_count(len, clamped_section(pow2(requested + 1))),
{
    let window = effective_window(requested, len);
    if window != requested {
        lemma_window_fits_input(requested, len);
        lemma_pow2_step(window + 1);
        lemma_pow2_strictly_increases(window + 1, requested + 1);
        lemma_pow2_strictly_increases(window + 1, 25);
        lemma2_to64();
        let shrunk = effective_section(None, window);
        let full = clamped_section(pow2(requested + 1));
        assert(len <= shrunk && len <= full);
        lemma_one_section(len, shrunk);
        lemma_one_section(len, full);
    }
}

/// An input that fits one section is not cut.
proof fn lemma_one_section(len: nat, section: nat)
    requires
        len <= section,
        0 < section,
    ensures
        section_count(len, section) == if len == 0 {
            0nat
        } else {
            1nat
        },
{
    if len == 0 {
        vstd::arithmetic::div_mod::lemma_basic_div(section - 1, section as int);
    } else {
        vstd::arithmetic::div_mod::lemma_fundamental_div_mod_converse(
            len + section - 1,
            section as int,
            1,
            len - 1,
        );
    }
}

} // verus!
