use rolldown_compression::binding::{
    compress_buffers, parse_algorithm, show, BatchOptions, CompressAlgorithm,
    CompressFile, WorkerOutcome,
};
use rolldown_compression::compress::Algorithm;
use rolldown_compression::decode::decompress;
use rolldown_compression::error::Error;
use rolldown_compression::scheduler::task::direct;
use rolldown_compression::scheduler::{BatchAlgorithm, BatchOutcome};
use rolldown_compression::text::decimal;

fn file(name: &str, data: &[u8]) -> CompressFile {
    CompressFile { file_name: name.to_string(), data: data.to_vec() }
}

fn named(algorithm: &str) -> CompressAlgorithm {
    CompressAlgorithm {
        algorithm: algorithm.to_string(),
        level: None,
        window_bits: None,
        section_size: None,
    }
}

#[test]
fn results_follow_file_order_then_algorithm_order() {
    let small = b"const a = 1;\n".repeat(50);
    let large = b"const b = 2;\n".repeat(500);
    let mut batch = compress_buffers(
        vec![file("small.js", &small), file("large.js", &large)],
        vec![named("gzip"), named("brotli"), named("zstd")],
        None,
    )
    .unwrap();
    let output = batch.worker.compute(&direct);
    let results = batch.worker.resolve(output);
    assert!(batch.worker.files.is_empty());
    let labels: Vec<_> = results
        .iter()
        .map(|result| (result.file_name.as_str(), result.algorithm.as_str()))
        .collect();
    assert_eq!(
        labels,
        vec![
            ("small.js", "gzip"),
            ("small.js", "brotli"),
            ("small.js", "zstd"),
            ("large.js", "gzip"),
            ("large.js", "brotli"),
            ("large.js", "zstd"),
        ]
    );
    for (k, result) in results.iter().enumerate() {
        let original = if k < 3 { &small } else { &large };
        assert!(result.error.is_none());
        assert!(!result.skipped);
        assert_eq!(result.original_size as usize, original.len());
        assert_eq!(result.compressed_size as usize, result.data.len());
        let algorithm = result.algorithm.parse::<Algorithm>().unwrap();
        assert_eq!(&decompress(algorithm, &result.data).unwrap(), original);
    }
}

#[test]
fn empty_requests_give_empty_batches() {
    let mut none = compress_buffers(Vec::new(), vec![named("gzip")], None).unwrap();
    assert!(none.worker.compute(&direct).is_empty());
    let mut none = compress_buffers(vec![file("a", b"a")], Vec::new(), None).unwrap();
    let output = none.worker.compute(&direct);
    assert!(none.worker.resolve(output).is_empty());
}

#[test]
fn options_have_defaults() {
    let options = |concurrency, skip_if_larger_or_equal| {
        let options = BatchOptions { concurrency, skip_if_larger_or_equal };
        let batch = compress_buffers(Vec::new(), Vec::new(), Some(options)).unwrap();
        (batch.concurrency, batch.worker.skip_if_larger_or_equal)
    };
    assert_eq!(options(None, None), (None, false));
    assert_eq!(options(Some(0), Some(false)), (None, false));
    assert_eq!(options(Some(3), Some(true)), (Some(3), true));
    let batch = compress_buffers(Vec::new(), Vec::new(), None).unwrap();
    assert_eq!((batch.concurrency, batch.worker.skip_if_larger_or_equal), (None, false));
}

#[test]
fn configurations_are_parsed_with_defaults() {
    let config = CompressAlgorithm { window_bits: Some(20), ..named("brotli") };
    assert_eq!(
        parse_algorithm(&config).unwrap(),
        BatchAlgorithm {
            algorithm: Algorithm::Brotli,
            level: 11,
            window_bits: Some(20),
            section_size: None,
        }
    );
    let config = CompressAlgorithm { level: Some(0), ..named("gzip") };
    assert_eq!(parse_algorithm(&config).unwrap().level, 0);
    assert_eq!(parse_algorithm(&named("zstd")).unwrap().level, 19);
}

#[test]
fn misconfiguration_fails_before_any_work() {
    let reject = |config| compress_buffers(vec![file("a", b"a")], vec![named("gzip"), config], None);
    assert!(matches!(
        reject(named("br")),
        Err(Error::UnknownAlgorithm(name)) if name == "br"
    ));
    assert!(matches!(
        reject(CompressAlgorithm { level: Some(12), ..named("brotli") }),
        Err(Error::InvalidLevel { algorithm: Algorithm::Brotli, level: 12, min: 0, max: 11 })
    ));
    assert!(matches!(
        reject(CompressAlgorithm { window_bits: Some(9), ..named("brotli") }),
        Err(Error::InvalidWindowBits(9))
    ));
    assert!(matches!(
        reject(CompressAlgorithm { section_size: Some(0), ..named("brotli") }),
        Err(Error::InvalidSectionSize(0))
    ));
    // The brotli-only options are not looked at for the others.
    assert!(reject(CompressAlgorithm { window_bits: Some(9), section_size: Some(0), ..named("zstd") })
        .is_ok());
}

#[test]
fn the_first_wrong_configuration_is_reported() {
    let result = compress_buffers(
        Vec::new(),
        vec![
            named("gzip"),
            CompressAlgorithm { level: Some(10), ..named("gzip") },
            named("lzma"),
        ],
        None,
    );
    assert!(matches!(result, Err(Error::InvalidLevel { level: 10, .. })));
}

#[test]
fn batches_beyond_32_bits_are_rejected() {
    let files: Vec<CompressFile> = (0..65536).map(|_| file("", b"")).collect();
    let algorithms = (0..65536).map(|_| named("unknown")).collect();
    assert!(matches!(compress_buffers(files, algorithms, None), Err(Error::BatchTooLarge)));
}

#[test]
fn skipped_results_carry_no_data() {
    let options = BatchOptions { concurrency: None, skip_if_larger_or_equal: Some(true) };
    let mut batch =
        compress_buffers(vec![file("tiny", b"abc")], vec![named("zstd")], Some(options)).unwrap();
    let output = batch.worker.compute(&direct);
    let results = batch.worker.resolve(output);
    assert_eq!(results.len(), 1);
    assert!(results[0].skipped);
    assert!(results[0].data.is_empty());
    assert_eq!(results[0].compressed_size, 0);
    assert_eq!(results[0].original_size, 3);
    assert!(results[0].error.is_none());
}

#[test]
fn failures_are_shown_as_text() {
    let shown = show(WorkerOutcome {
        file_name: "a.js".to_string(),
        algorithm: Algorithm::Zstd,
        original_size: 7,
        outcome: BatchOutcome {
            data: Vec::new(),
            skipped: false,
            error: Some(Error::CompressionPanicked(Algorithm::Zstd)),
        },
    });
    assert_eq!(shown.error.as_deref(), Some("zstd compression panicked unexpectedly"));
    assert_eq!((shown.file_name.as_str(), shown.algorithm.as_str()), ("a.js", "zstd"));
    assert_eq!((shown.original_size, shown.compressed_size), (7, 0));
}

#[test]
fn numbers_are_written_in_decimal() {
    assert_eq!(decimal(0), "0");
    assert_eq!(decimal(907), "907");
    assert_eq!(decimal(u64::MAX), "18446744073709551615");
}
