use std::io::Read;

use rolldown_compression::compress::{
    check_buffer, compress, validate_section_size, validate_window_bits, Algorithm, Compressors,
};
use rolldown_compression::compress::inner_gzip;
use rolldown_compression::compress::inner_gzip::compress_bound_formula;
use rolldown_compression::compress::inner_zstd;
use rolldown_compression::compress::inner_zstd::context::ZstdContext;
use rolldown_compression::decode;
use rolldown_compression::error::Error;

const ALGORITHMS: [Algorithm; 3] = [Algorithm::Gzip, Algorithm::Brotli, Algorithm::Zstd];

fn decompress(algorithm: Algorithm, input: &[u8]) -> Vec<u8> {
    decode::decompress(algorithm, input).expect("decode")
}

fn pseudo_random(len: usize) -> Vec<u8> {
    // xorshift-based deterministic noise: effectively incompressible.
    let mut state = 0x2545_f491_4f6c_dd1d_u64;
    (0..len)
        .map(|_| {
            state ^= state << 13;
            state ^= state >> 7;
            state ^= state << 17;
            (state & 0xff) as u8
        })
        .collect()
}

#[test]
fn round_trips_all_algorithms() {
    let input = b"the quick brown fox jumps over the lazy dog".repeat(100);
    for algorithm in ALGORITHMS {
        let compressed =
            compress(algorithm, algorithm.default_level(), None, None, &input).expect("compress");
        assert!(
            compressed.len() < input.len(),
            "{} should shrink repetitive input",
            algorithm.to_string()
        );
        assert_eq!(
            decompress(algorithm, &compressed),
            input,
            "{} round-trip mismatch",
            algorithm.to_string()
        );
    }
}

#[test]
fn round_trips_empty_buffer() {
    for algorithm in ALGORITHMS {
        let compressed =
            compress(algorithm, algorithm.default_level(), None, None, &[]).expect("compress");
        assert_eq!(decompress(algorithm, &compressed), Vec::<u8>::new());
    }
}

#[test]
fn round_trips_single_byte() {
    for algorithm in ALGORITHMS {
        let compressed =
            compress(algorithm, algorithm.default_level(), None, None, &[0x42]).expect("compress");
        assert_eq!(decompress(algorithm, &compressed), vec![0x42]);
    }
}

#[test]
fn round_trips_incompressible_data() {
    let input = pseudo_random(256 * 1024);
    for algorithm in ALGORITHMS {
        let compressed =
            compress(algorithm, algorithm.default_level(), None, None, &input).expect("compress");
        assert_eq!(decompress(algorithm, &compressed), input);
    }
}

#[test]
fn round_trips_highly_compressible_data() {
    let input = vec![0u8; 1024 * 1024];
    for algorithm in ALGORITHMS {
        let compressed =
            compress(algorithm, algorithm.default_level(), None, None, &input).expect("compress");
        assert!(compressed.len() < input.len() / 100);
        assert_eq!(decompress(algorithm, &compressed), input);
    }
}

#[test]
fn honors_level_bounds() {
    let input = b"hello world".repeat(1000);
    for algorithm in ALGORITHMS {
        let (min, max) = algorithm.level_range();
        for level in [min, max] {
            let compressed = compress(algorithm, level, None, None, &input).expect("compress");
            assert_eq!(decompress(algorithm, &compressed), input);
        }
    }
}

#[test]
fn higher_levels_compress_no_worse() {
    let input = b"abcdefghij klmnopqrst 0123456789 ".repeat(5000);
    for algorithm in ALGORITHMS {
        let (min, max) = algorithm.level_range();
        let low = compress(algorithm, min.max(1), None, None, &input).unwrap();
        let high = compress(algorithm, max, None, None, &input).unwrap();
        assert!(
            high.len() <= low.len(),
            "{}: level {max} produced {} bytes vs {} at min level",
            algorithm.to_string(),
            high.len(),
            low.len()
        );
    }
}

#[test]
fn rejects_invalid_levels() {
    assert!(compress(Algorithm::Gzip, 10, None, None, b"x").is_err());
    assert!(compress(Algorithm::Brotli, 12, None, None, b"x").is_err());
    assert!(compress(Algorithm::Zstd, 0, None, None, b"x").is_err());
    assert!(compress(Algorithm::Zstd, 23, None, None, b"x").is_err());
}

#[test]
fn parses_canonical_names_only() {
    assert_eq!("gzip".parse::<Algorithm>().unwrap(), Algorithm::Gzip);
    assert_eq!("brotli".parse::<Algorithm>().unwrap(), Algorithm::Brotli);
    assert_eq!("zstd".parse::<Algorithm>().unwrap(), Algorithm::Zstd);
    assert!("gz".parse::<Algorithm>().is_err());
    assert!("lzma".parse::<Algorithm>().is_err());
}

#[test]
fn names_parse_back_to_their_algorithm() {
    for algorithm in ALGORITHMS {
        assert_eq!(algorithm.to_string().parse::<Algorithm>().unwrap(), algorithm);
    }
    assert!(matches!(
        "Gzip".parse::<Algorithm>(),
        Err(Error::UnknownAlgorithm(name)) if name == "Gzip"
    ));
}

#[test]
fn levels_have_their_documented_ranges_and_defaults() {
    let expected = [(0, 9, 6), (0, 11, 11), (1, 22, 19)];
    for (algorithm, (min, max, default)) in ALGORITHMS.into_iter().zip(expected) {
        assert_eq!(algorithm.level_range(), (min, max));
        assert_eq!(algorithm.default_level(), default);
        assert!(algorithm.validate_level(min).is_ok());
        assert!(algorithm.validate_level(max).is_ok());
        assert!(algorithm.validate_level(default).is_ok());
    }
}

#[test]
fn invalid_levels_name_the_range() {
    assert!(matches!(
        compress(Algorithm::Zstd, 23, None, None, b"x"),
        Err(Error::InvalidLevel { algorithm: Algorithm::Zstd, level: 23, min: 1, max: 22 })
    ));
    assert!(matches!(
        compress(Algorithm::Gzip, 10, None, None, b"x"),
        Err(Error::InvalidLevel { algorithm: Algorithm::Gzip, level: 10, min: 0, max: 9 })
    ));
}

#[test]
fn window_and_section_options_are_validated() {
    assert!(matches!(validate_window_bits(9), Err(Error::InvalidWindowBits(9))));
    assert!(validate_window_bits(10).is_ok());
    assert!(validate_window_bits(24).is_ok());
    assert!(matches!(validate_window_bits(25), Err(Error::InvalidWindowBits(25))));
    assert!(matches!(validate_section_size(0), Err(Error::InvalidSectionSize(0))));
    assert!(validate_section_size(1).is_ok());
    assert!(validate_section_size(u32::MAX).is_ok());
}

#[test]
fn the_level_is_checked_before_the_options() {
    assert!(matches!(
        compress(Algorithm::Brotli, 12, Some(9), Some(0), b"x"),
        Err(Error::InvalidLevel { .. })
    ));
    assert!(matches!(
        compress(Algorithm::Brotli, 11, Some(9), Some(0), b"x"),
        Err(Error::InvalidWindowBits(9))
    ));
    assert!(matches!(
        compress(Algorithm::Brotli, 11, Some(10), Some(0), b"x"),
        Err(Error::InvalidSectionSize(0))
    ));
}

#[test]
fn brotli_options_are_ignored_by_the_other_algorithms() {
    let input = b"export const value = 42;\n".repeat(300);
    for algorithm in [Algorithm::Gzip, Algorithm::Zstd] {
        let level = algorithm.default_level();
        assert_eq!(
            compress(algorithm, level, Some(99), Some(0), &input).unwrap(),
            compress(algorithm, level, None, None, &input).unwrap()
        );
    }
}

#[test]
fn reused_encoders_give_the_same_bytes_as_fresh_ones() {
    let small = b"function chunk(a, b) { return a + b; }\n".repeat(40);
    let large = pseudo_random(70_000);
    let mut compressors = Compressors::default();
    for _ in 0..2 {
        for level in [1, 9, 3, 3, 19] {
            for algorithm in ALGORITHMS {
                for input in [&small, &large] {
                    let level = level.min(algorithm.level_range().1);
                    assert_eq!(
                        compressors.compress(algorithm, level, None, None, input).unwrap(),
                        compress(algorithm, level, None, None, input).unwrap()
                    );
                }
            }
        }
    }
}

#[test]
fn a_rejected_request_leaves_the_encoders_usable() {
    let mut compressors = Compressors::default();
    assert!(compressors.compress(Algorithm::Zstd, 0, None, None, b"abc").is_err());
    assert!(compressors.compress(Algorithm::Brotli, 5, Some(30), None, b"abc").is_err());
    for algorithm in ALGORITHMS {
        let data = compressors.compress(algorithm, 5, None, None, b"abcabcabc").unwrap();
        assert_eq!(decompress(algorithm, &data), b"abcabcabc");
    }
}

#[test]
fn zstd_levels_are_tracked_by_the_context() {
    let input = b"abcdefghij klmnopqrst 0123456789 ".repeat(2000);
    let mut context = ZstdContext::default();
    assert_eq!(context.level, i32::MIN);
    for level in [1u32, 1, 19, 3] {
        let data = inner_zstd::compress(&mut context, level, &input).unwrap();
        assert_eq!(context.level, level as i32);
        assert_eq!(
            data,
            zstd::bulk::Compressor::new(level as i32).unwrap().compress(&input).unwrap()
        );
    }
}

#[test]
fn gzip_room_covers_input_overhead_and_framing() {
    assert_eq!(compress_bound_formula(0), 25);
    assert_eq!(compress_bound_formula(4096), 4096 + 1 + 25);
    assert_eq!(compress_bound_formula(16384), 16384 + 4 + 1 + 25);
    assert_eq!(compress_bound_formula(1 << 25), (1 << 25) + 8192 + 2048 + 1 + 25);
    let input = pseudo_random(300_000);
    let stored = compress(Algorithm::Gzip, 0, None, None, &input).unwrap();
    assert!(stored.len() > input.len());
    assert!(stored.len() <= compress_bound_formula(input.len()));
}

#[test]
fn buffers_are_bounded_by_the_address_space() {
    let limit = isize::MAX as usize;
    assert!(check_buffer(Algorithm::Gzip, 0));
    assert!(check_buffer(Algorithm::Zstd, 1 << 20));
    assert!(check_buffer(Algorithm::Brotli, limit));
    assert!(!check_buffer(Algorithm::Gzip, limit));
    assert!(!check_buffer(Algorithm::Zstd, limit));
    assert!(!check_buffer(Algorithm::Gzip, usize::MAX));
}

#[test]
fn decoders_reject_what_is_no_stream() {
    for algorithm in ALGORITHMS {
        assert!(decode::decompress(algorithm, b"\x01\x02not a stream").is_err());
    }
}

#[test]
fn output_buffers_are_right_sized() {
    let input = vec![0u8; 1 << 20];
    for algorithm in ALGORITHMS {
        let data = compress(algorithm, 5, None, None, &input).unwrap();
        assert!(data.capacity() < input.len() / 10);
    }
}

#[test]
fn encoder_failures_keep_their_algorithm() {
    assert!(matches!(
        inner_gzip::finish(Err(std::io::Error::other("encoder failed"))),
        Err(Error::Gzip(source)) if source.kind() == std::io::ErrorKind::Other
    ));
    assert!(matches!(
        inner_zstd::finish(Err(std::io::Error::other("encoder failed"))),
        Err(Error::Zstd(source)) if source.kind() == std::io::ErrorKind::Other
    ));
    assert_eq!(inner_gzip::finish(Ok(vec![1, 2])).unwrap(), vec![1, 2]);
    assert_eq!(inner_zstd::finish(Ok(vec![3])).unwrap(), vec![3]);
}

#[test]
fn gzip_streams_are_collected_read_by_read() {
    // One read holds the whole body of a small stream.
    let small = b"export const value = 42;\n".repeat(50);
    for level in 0..=9 {
        let mut expected = Vec::new();
        flate2::bufread::GzEncoder::new(&small[..], flate2::Compression::new(level))
            .read_to_end(&mut expected)
            .unwrap();
        assert_eq!(compress(Algorithm::Gzip, level, None, None, &small).unwrap(), expected);
    }
    // A large one takes many reads.
    let large = pseudo_random(500_000);
    for level in 0..=9 {
        let data = compress(Algorithm::Gzip, level, None, None, &large).unwrap();
        assert!(data.len() > 10 * inner_gzip::READ_SIZE);
        assert_eq!(decompress(Algorithm::Gzip, &data), large);
    }
}

#[test]
fn gzip_streams_may_outgrow_the_reserved_room() {
    let input = pseudo_random(300_000);
    let data = compress(Algorithm::Gzip, 1, None, None, &input).unwrap();
    assert!(data.len() > compress_bound_formula(input.len()));
    assert_eq!(decompress(Algorithm::Gzip, &data), input);
}

#[test]
fn gzip_room_grows_with_the_input() {
    for len in [0usize, 1, 4095, 4096, 1 << 20] {
        assert!(compress_bound_formula(len) >= len + 18);
        assert!(compress_bound_formula(len) <= compress_bound_formula(len + 1));
    }
}

#[test]
fn a_level_that_could_not_be_set_is_not_recorded() {
    let mut context = ZstdContext::default();
    assert!(inner_zstd::record_level(&mut context, 5, Ok(())).is_ok());
    assert_eq!(context.level, 5);
    assert!(matches!(
        inner_zstd::record_level(&mut context, 7, Err(std::io::Error::other("not set"))),
        Err(Error::Zstd(source)) if source.kind() == std::io::ErrorKind::Other
    ));
    assert_eq!(context.level, 5);
}

#[test]
fn encoders_are_kept_for_the_next_input() {
    let mut compressors = Compressors::default();
    compressors.compress(Algorithm::Gzip, 6, None, None, b"abc").unwrap();
    assert!(compressors.zstd.is_none() && compressors.brotli.compressor.is_none());
    compressors.compress(Algorithm::Zstd, 7, None, None, b"abc").unwrap();
    assert_eq!(compressors.zstd.as_ref().map(|context| context.level), Some(7));
    assert!(compressors.brotli.compressor.is_none());
    compressors.compress(Algorithm::Brotli, 5, None, None, b"abc").unwrap();
    assert_eq!(compressors.zstd.as_ref().map(|context| context.level), Some(7));
    assert!(compressors.brotli.compressor.is_some());
    assert!(compressors.compress(Algorithm::Zstd, 99, None, None, b"abc").is_err());
    assert_eq!(compressors.zstd.as_ref().map(|context| context.level), Some(7));
}

#[test]
fn brotli_options_that_mean_the_same_give_the_same_bytes() {
    let brotli = |window_bits, section_size, input: &[u8]| {
        compress(Algorithm::Brotli, 5, window_bits, section_size, input).unwrap()
    };
    for len in [0usize, 700, 128 * 1024, 1_100_000] {
        let input = pseudo_random(len);
        // Defaults.
        assert_eq!(brotli(None, None, &input), brotli(Some(22), None, &input));
        for window_bits in [10u32, 16, 18, 24] {
            assert_eq!(
                brotli(Some(window_bits), None, &input),
                brotli(Some(window_bits), Some(1 << (window_bits + 1)), &input)
            );
        }
        // Clamping.
        assert_eq!(brotli(None, Some(1), &input), brotli(None, Some(65536), &input));
        assert_eq!(brotli(None, Some(u32::MAX), &input), brotli(None, Some(16 << 20), &input));
    }
    // Shrinking.
    let input = pseudo_random(128 * 1024);
    assert_eq!(brotli(Some(24), None, &input), brotli(Some(17), None, &input));
    assert_eq!(brotli(None, Some(70_000), &input), brotli(Some(17), Some(70_000), &input));
}

#[test]
fn zstd_takes_any_level_as_a_signed_one() {
    let input = b"abcdefghij klmnopqrst 0123456789 ".repeat(500);
    let mut context = ZstdContext::default();
    let data = inner_zstd::compress(&mut context, u32::MAX, &input).unwrap();
    assert_eq!(context.level, -1);
    assert_eq!(data, zstd::bulk::Compressor::new(-1).unwrap().compress(&input).unwrap());
    assert_eq!(decompress(Algorithm::Zstd, &data), input);
    // A fresh context takes the level that marks it for its own.
    let mut context = ZstdContext::default();
    let data = inner_zstd::compress(&mut context, 1 << 31, &input).unwrap();
    assert_eq!(context.level, i32::MIN);
    assert_eq!(data, zstd::bulk::Compressor::default().compress(&input).unwrap());
}

#[test]
fn gzip_succeeds_at_every_level_it_has() {
    for input in [Vec::new(), vec![7u8; 100_000], pseudo_random(100_000)] {
        for level in 0..=9 {
            let data = compress(Algorithm::Gzip, level, None, None, &input).unwrap();
            assert_eq!(decompress(Algorithm::Gzip, &data), input);
        }
    }
}
