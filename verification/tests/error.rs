use rolldown_compression::compress::{validate_section_size, validate_window_bits, Algorithm};
use rolldown_compression::error::{Error, NapiError, Status};

#[test]
fn validation_failures_convert_to_invalid_arg() {
    let errors = [
        "lzma".parse::<Algorithm>().unwrap_err(),
        Algorithm::Gzip.validate_level(10).unwrap_err(),
        validate_window_bits(9).unwrap_err(),
        validate_section_size(0).unwrap_err(),
        Error::BatchLengthMismatch { tasks: 1, buffers: 0 },
        Error::BufferTooLarge,
        Error::BatchTooLarge,
    ];
    for error in errors {
        let message = error.to_string();
        let napi_error = NapiError::from(error);
        assert_eq!((napi_error.status, napi_error.reason), (Status::InvalidArg, message));
    }
}

#[test]
fn codec_failures_retain_their_typed_sources() {
    for error in [
        Error::Gzip(std::io::Error::other("encoder failed")),
        Error::Zstd(std::io::Error::other("encoder failed")),
    ] {
        match error {
            Error::Gzip(source) | Error::Zstd(source) => {
                assert_eq!(source.kind(), std::io::ErrorKind::Other);
            }
            other => panic!("{}", other.to_string()),
        }
    }
    let source = mbrotli::Quality::try_from(12).unwrap_err();
    let error = Error::from(source);
    assert!(matches!(
        error,
        Error::BrotliConfig(mbrotli::ConfigError::Quality { requested: 12 })
    ));
}

#[test]
fn runtime_failures_convert_to_generic_failure() {
    let errors = [
        Error::Gzip(std::io::Error::other("encoder failed")),
        Error::Zstd(std::io::Error::other("encoder failed")),
        Error::from(mbrotli::Quality::try_from(12).unwrap_err()),
        Error::from(mbrotli::compressor::parallel::TaskCount::try_from(0).unwrap_err()),
        Error::from(mbrotli::compressor::parallel::ParallelEncodeError::Cancelled),
        Error::CompressionPanicked(Algorithm::Brotli),
    ];
    for error in errors {
        let message = error.to_string();
        let napi_error = NapiError::from(error);
        assert_eq!((napi_error.status, napi_error.reason), (Status::GenericFailure, message));
    }
}

#[test]
fn messages_say_what_is_wrong() {
    let expected = [
        (
            "lzma".parse::<Algorithm>().unwrap_err(),
            "unknown algorithm `lzma`, expected one of: gzip, brotli, zstd",
        ),
        (
            Algorithm::Zstd.validate_level(4294967295).unwrap_err(),
            "invalid zstd level 4294967295: expected 1..=22",
        ),
        (
            Algorithm::Gzip.validate_level(10).unwrap_err(),
            "invalid gzip level 10: expected 0..=9",
        ),
        (
            Error::InvalidWindowBits(9),
            "invalid brotli windowBits 9: expected 10..=24",
        ),
        (
            Error::InvalidSectionSize(0),
            "invalid brotli sectionSize 0: expected a positive number of bytes",
        ),
        (
            Error::BatchLengthMismatch { tasks: 12, buffers: 3 },
            "tasks and buffers must have the same length (got 12 tasks, 3 buffers)",
        ),
        (Error::BufferTooLarge, "buffers larger than 4 GiB are not supported"),
        (
            Error::BatchTooLarge,
            "batches of more than 4294967295 results are not supported",
        ),
        (
            Error::Gzip(std::io::Error::other("encoder failed")),
            "gzip compression failed: encoder failed",
        ),
        (
            Error::Zstd(std::io::Error::other("encoder failed")),
            "zstd compression failed: encoder failed",
        ),
        (
            Error::CompressionPanicked(Algorithm::Brotli),
            "brotli compression panicked unexpectedly",
        ),
    ];
    for (error, message) in expected {
        assert_eq!(error.to_string(), message);
    }
}

#[test]
fn brotli_failures_speak_for_themselves() {
    let source = mbrotli::Quality::try_from(12).unwrap_err();
    let text = format!("{source}");
    assert_eq!(Error::from(source).to_string(), text);
    assert_eq!(
        Error::from(mbrotli::compressor::parallel::ParallelEncodeError::Cancelled).to_string(),
        format!("{}", mbrotli::compressor::parallel::ParallelEncodeError::Cancelled)
    );
}

#[test]
fn the_text_of_a_source_is_taken_as_given() {
    let gzip = Error::Gzip(std::io::Error::other("encoder failed"));
    assert_eq!(gzip.message_with("out of space"), "gzip compression failed: out of space");
    let brotli = Error::from(mbrotli::Quality::try_from(12).unwrap_err());
    assert_eq!(brotli.message_with("bad quality"), "bad quality");
    assert_eq!(
        Error::BufferTooLarge.message_with("ignored"),
        "buffers larger than 4 GiB are not supported"
    );
}

#[test]
fn texts_of_rejected_settings_are_fixed() {
    assert_eq!(
        Error::from(mbrotli::Quality::try_from(12).unwrap_err()).to_string(),
        "quality 12 is outside the 0..=11 the format defines"
    );
    assert_eq!(
        Error::from(mbrotli::compressor::parallel::TaskCount::try_from(0).unwrap_err())
            .to_string(),
        "invalid parallel task count: 0"
    );
    assert_eq!(
        Error::from(mbrotli::EncodeError::OutputTooSmall { provided: 3 }).to_string(),
        "a destination of 3 bytes cannot hold the compressed stream"
    );
}
