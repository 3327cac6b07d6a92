//! Typed failures shared by compression, scheduling and the host binding.

use mbrotli::compressor::parallel::{ParallelConfigError, ParallelEncodeError};

use vstd::prelude::*;
use vstd::string::*;

use crate::compress;
use crate::compress::Algorithm;
use crate::text;
use crate::text::decimal;

verus! {

/// An I/O failure reported by an encoder or a decoder.
#[verifier::external_type_specification]
#[verifier::external_body]
pub struct ExIoError(std::io::Error);

/// A rejected brotli encoder setting.
#[verifier::external_type_specification]
#[verifier::external_body]
pub struct ExConfigError(mbrotli::ConfigError);

/// A failed serial brotli encoding.
#[verifier::external_type_specification]
#[verifier::external_body]
pub struct ExEncodeError(mbrotli::EncodeError);

/// A rejected setting of the parallel brotli encoder.
#[verifier::external_type_specification]
#[verifier::external_body]
pub struct ExParallelConfigError(ParallelConfigError);

/// A failed parallel brotli encoding.
#[verifier::external_type_specification]
#[verifier::external_body]
pub struct ExParallelEncodeError(ParallelEncodeError);

/// Why a request was rejected, or how a compression failed.
#[derive(Debug)]
pub enum Error {
    UnknownAlgorithm(String),
    InvalidLevel { algorithm: Algorithm, level: u32, min: u32, max: u32 },
    InvalidWindowBits(u32),
    InvalidSectionSize(u32),
    BatchLengthMismatch { tasks: usize, buffers: usize },
    BatchTooLarge,
    BufferTooLarge,
    Gzip(std::io::Error),
    Zstd(std::io::Error),
    BrotliConfig(mbrotli::ConfigError),
    Brotli(mbrotli::EncodeError),
    BrotliParallelConfig(ParallelConfigError),
    BrotliParallel(ParallelEncodeError),
    CompressionPanicked(Algorithm),
}

impl vstd::std_specs::convert::FromSpecImpl<mbrotli::ConfigError> for Error {
    open spec fn obeys_from_spec() -> bool {
        true
    }

    open spec fn from_spec(source: mbrotli::ConfigError) -> Self {
        Error::BrotliConfig(source)
    }
}

impl From<mbrotli::ConfigError> for Error {
    fn from(source: mbrotli::ConfigError) -> (r: Self) {
        Error::BrotliConfig(source)
    }
}

impl vstd::std_specs::convert::FromSpecImpl<mbrotli::EncodeError> for Error {
    open spec fn obeys_from_spec() -> bool {
        true
    }

    open spec fn from_spec(source: mbrotli::EncodeError) -> Self {
        Error::Brotli(source)
    }
}

impl From<mbrotli::EncodeError> for Error {
    fn from(source: mbrotli::EncodeError) -> (r: Self) {
        Error::Brotli(source)
    }
}

impl vstd::std_specs::convert::FromSpecImpl<ParallelConfigError> for Error {
    open spec fn obeys_from_spec() -> bool {
        true
    }

    open spec fn from_spec(source: ParallelConfigError) -> Self {
        Error::BrotliParallelConfig(source)
    }
}

impl From<ParallelConfigError> for Error {
    fn from(source: ParallelConfigError) -> (r: Self) {
        Error::BrotliParallelConfig(source)
    }
}

impl vstd::std_specs::convert::FromSpecImpl<ParallelEncodeError> for Error {
    open spec fn obeys_from_spec() -> bool {
        true
    }

    open spec fn from_spec(source: ParallelEncodeError) -> Self {
        Error::BrotliParallel(source)
    }
}

impl From<ParallelEncodeError> for Error {
    fn from(source: ParallelEncodeError) -> (r: Self) {
        Error::BrotliParallel(source)
    }
}

/// The message of `error`. `source` is the text of the encoder failure that it
/// carries, if it carries one.
pub open spec fn message(error: Error, source: Seq<char>) -> Seq<char> {
    match error {
        Error::UnknownAlgorithm(name) => "unknown algorithm `"@ + name@
            + "`, expected one of: gzip, brotli, zstd"@,
        Error::InvalidLevel { algorithm, level, min, max } => "invalid "@
            + compress::algorithm_name(algorithm) + " level "@ + text::decimal_text(level as nat)
            + ": expected "@ + text::decimal_text(min as nat) + "..="@ + text::decimal_text(
            max as nat,
        ),
        Error::InvalidWindowBits(bits) => "invalid brotli windowBits "@ + text::decimal_text(
            bits as nat,
        ) + ": expected 10..=24"@,
        Error::InvalidSectionSize(size) => "invalid brotli sectionSize "@ + text::decimal_text(
            size as nat,
        ) + ": expected a positive number of bytes"@,
        Error::BatchLengthMismatch { tasks, buffers } =>
        "tasks and buffers must have the same length (got "@ + text::decimal_text(tasks as nat)
            + " tasks, "@ + text::decimal_text(buffers as nat) + " buffers)"@,
        Error::BatchTooLarge => "batches of more than 4294967295 results are not supported"@,
        Error::BufferTooLarge => "buffers larger than 4 GiB are not supported"@,
        Error::Gzip(_) => "gzip compression failed: "@ + source,
        Error::Zstd(_) => "zstd compression failed: "@ + source,
        Error::BrotliConfig(_) => source,
        Error::Brotli(_) => source,
        Error::BrotliParallelConfig(_) => source,
        Error::BrotliParallel(_) => source,
        Error::CompressionPanicked(algorithm) => compress::algorithm_name(algorithm)
            + " compression panicked unexpectedly"@,
    }
}

/// The text of a rejected encoder setting.
pub uninterp spec fn config_error_text(error: mbrotli::ConfigError) -> Seq<char>;

/// The text of a failed serial encoding.
pub uninterp spec fn encode_error_text(error: mbrotli::EncodeError) -> Seq<char>;

/// The text of a rejected setting of the parallel encoder.
pub uninterp spec fn parallel_config_error_text(error: ParallelConfigError) -> Seq<char>;

/// Whether `source` can be the text of the encoder failure that `error`
/// carries; it is empty where `error` carries none. Failures that may hold a
/// system error are worded by the platform.
pub open spec fn source_fits(error: Error, source: Seq<char>) -> bool {
    match error {
        Error::Gzip(_) => true,
        Error::Zstd(_) => true,
        Error::BrotliConfig(failure) => source == config_error_text(failure),
        Error::Brotli(failure) => source == encode_error_text(failure),
        Error::BrotliParallelConfig(failure) => source == parallel_config_error_text(failure),
        Error::BrotliParallel(_) => true,
        _ => source == Seq::<char>::empty(),
    }
}

/// Whether `text` is the message of `error`.
pub open spec fn describes(error: Error, text: Seq<char>) -> bool {
    exists|source: Seq<char>|
        source_fits(error, source) && text == #[trigger] message(error, source)
}

/// The `Display` text of an encoder failure, by `ToString::to_string`. System
/// errors are worded by the platform, so nothing is said of it.
#[verifier::external_body]
fn display_text<E: std::fmt::Display>(error: &E) -> String {
    error.to_string()
}

/// The `Display` text of `mbrotli::ConfigError`, which its fields fix.
#[verifier::external_body]
fn config_error_message(error: &mbrotli::ConfigError) -> (r: String)
    ensures
        r@ == config_error_text(*error),
{
    error.to_string()
}

/// The `Display` text of `mbrotli::EncodeError`, which its fields fix.
#[verifier::external_body]
fn encode_error_message(error: &mbrotli::EncodeError) -> (r: String)
    ensures
        r@ == encode_error_text(*error),
{
    error.to_string()
}

/// The `Display` text of `ParallelConfigError`, which its fields fix.
#[verifier::external_body]
fn parallel_config_error_message(error: &ParallelConfigError) -> (r: String)
    ensures
        r@ == parallel_config_error_text(*error),
{
    error.to_string()
}

/// The failure in `r`, if there is one.
pub open spec fn failure_of(r: Result<Vec<u8>, Error>) -> Option<Error> {
    match r {
        Ok(_) => None,
        Err(error) => Some(error),
    }
}

impl Error {
    /// The text of the encoder failure that this error carries, or nothing.
    fn source_text(&self) -> (r: String)
        ensures
            source_fits(*self, r@),
    {
        match self {
            Error::Gzip(source) => display_text(source),
            Error::Zstd(source) => display_text(source),
            Error::BrotliConfig(source) => config_error_message(source),
            Error::Brotli(source) => encode_error_message(source),
            Error::BrotliParallelConfig(source) => parallel_config_error_message(source),
            Error::BrotliParallel(source) => display_text(source),
            _ => String::new(),
        }
    }

    /// Writes the message, with `source` as the text of the encoder failure
    /// that this error carries.
    pub fn message_with(&self, source: &str) -> (r: String)
        ensures
            r@ == message(*self, source@),
    {
        let mut text: String = String::new();
        match self {
            Error::UnknownAlgorithm(name) => {
                text.append("unknown algorithm `");
                text.append(name.as_str());
                text.append("`, expected one of: gzip, brotli, zstd");
            },
            Error::InvalidLevel { algorithm, level, min, max } => {
                text.append("invalid ");
                text.append(algorithm.to_string().as_str());
                text.append(" level ");
                text.append(decimal(*level as u64).as_str());
                text.append(": expected ");
                text.append(decimal(*min as u64).as_str());
                text.append("..=");
                text.append(decimal(*max as u64).as_str());
            },
            Error::InvalidWindowBits(bits) => {
                text.append("invalid brotli windowBits ");
                text.append(decimal(*bits as u64).as_str());
                text.append(": expected 10..=24");
            },
            Error::InvalidSectionSize(size) => {
                text.append("invalid brotli sectionSize ");
                text.append(decimal(*size as u64).as_str());
                text.append(": expected a positive number of bytes");
            },
            Error::BatchLengthMismatch { tasks, buffers } => {
                text.append("tasks and buffers must have the same length (got ");
                text.append(decimal(*tasks as u64).as_str());
                text.append(" tasks, ");
                text.append(decimal(*buffers as u64).as_str());
                text.append(" buffers)");
            },
            Error::BatchTooLarge => {
                text.append("batches of more than 4294967295 results are not supported");
            },
            Error::BufferTooLarge => {
                text.append("buffers larger than 4 GiB are not supported");
            },
            Error::Gzip(_) => {
                text.append("gzip compression failed: ");
                text.append(source);
            },
            Error::Zstd(_) => {
                text.append("zstd compression failed: ");
                text.append(source);
            },
            Error::BrotliConfig(_) => {
                text.append(source);
            },
            Error::Brotli(_) => {
                text.append(source);
            },
            Error::BrotliParallelConfig(_) => {
                text.append(source);
            },
            Error::BrotliParallel(_) => {
                text.append(source);
            },
            Error::CompressionPanicked(algorithm) => {
                text.append(algorithm.to_string().as_str());
                text.append(" compression panicked unexpectedly");
            },
        }
        assert(text@ =~= message(*self, source@));
        text
    }

    /// The message.
    pub fn to_string(&self) -> (r: String)
        ensures
            describes(*self, r@),
    {
        self.message_with(self.source_text().as_str())
    }
}

/// How a failure is classified for the host.
#[derive(Debug, Clone, Copy, PartialEq, Eq, Structural)]
pub enum Status {
    InvalidArg,
    GenericFailure,
}

/// The status of `error`: a request that was rejected before any work is an
/// invalid argument; a compression that failed is a generic failure.
pub open spec fn status_of(error: Error) -> Status {
    match error {
        Error::UnknownAlgorithm(_) => Status::InvalidArg,
        Error::InvalidLevel { .. } => Status::InvalidArg,
        Error::InvalidWindowBits(_) => Status::InvalidArg,
        Error::InvalidSectionSize(_) => Status::InvalidArg,
        Error::BatchLengthMismatch { .. } => Status::InvalidArg,
        Error::BatchTooLarge => Status::InvalidArg,
        Error::BufferTooLarge => Status::InvalidArg,
        _ => Status::GenericFailure,
    }
}

/// A failure as the host sees it.
#[derive(Debug)]
pub struct NapiError {
    pub status: Status,
    pub reason: String,
}

impl NapiError {
    /// Classifies a failure and writes its message.
    pub fn from(error: Error) -> (r: Self)
        ensures
            r.status == status_of(error),
            describes(error, r.reason@),
    {
        let status: Status = match &error {
            Error::UnknownAlgorithm(_) => Status::InvalidArg,
            Error::InvalidLevel { .. } => Status::InvalidArg,
            Error::InvalidWindowBits(_) => Status::InvalidArg,
            Error::InvalidSectionSize(_) => Status::InvalidArg,
            Error::BatchLengthMismatch { .. } => Status::InvalidArg,
            Error::BatchTooLarge => Status::InvalidArg,
            Error::BufferTooLarge => Status::InvalidArg,
            Error::Gzip(_) => Status::GenericFailure,
            Error::Zstd(_) => Status::GenericFailure,
            Error::BrotliConfig(_) => Status::GenericFailure,
            Error::Brotli(_) => Status::GenericFailure,
            Error::BrotliParallelConfig(_) => Status::GenericFailure,
            Error::BrotliParallel(_) => Status::GenericFailure,
            Error::CompressionPanicked(_) => Status::GenericFailure,
        };
        NapiError { status, reason: error.to_string() }
    }
}

/// The message of an error is fixed, unless it carries a failure that may hold
/// a system error.
pub proof fn lemma_message_fixed(error: Error, text: Seq<char>, other: Seq<char>)
    requires
        describes(error, text),
        describes(error, other),
        !(error is Gzip),
        !(error is Zstd),
        !(error is BrotliParallel),
    ensures
        text == other,
{
}

/// A rejected request is an invalid argument; a failed encoder and a panic are
/// generic failures.
pub proof fn lemma_statuses(
    algorithm: Algorithm,
    level: u32,
    window_bits: Option<u32>,
    section_size: Option<u32>,
    failure: Error,
)
    ensures
        compress::rejection(algorithm, level, window_bits, section_size) matches Some(reason)
            ==> status_of(reason) == Status::InvalidArg,
        compress::encoder_failure(algorithm, failure) ==> status_of(failure)
            == Status::GenericFailure,
        status_of(Error::CompressionPanicked(algorithm)) == Status::GenericFailure,
{
}

} // verus!
