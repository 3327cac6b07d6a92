use mbrotli::compressor::parallel::{
    BatchConfig, ParallelCompressor, ParallelConfig, ParallelEncodeError, SegmentSize, TaskCount,
};
use mbrotli::{EncoderConfig, Quality, Window};
use rayon::iter::{IntoParallelIterator, ParallelIterator};
use rolldown_compression::compress::inner_brotli::buf::{BrotliBuf, BROTLI_BUFFER_SIZE};
use rolldown_compression::compress::inner_brotli::memory::{DefaultAlloc, WrapBox};
use rolldown_compression::compress::inner_brotli::shared_input::SharedInput;
use rolldown_compression::compress::inner_brotli::{
    choose_settings, compress, compress_parallel, compress_sections, finish, BrotliContext,
    EncoderSettings, BROTLI_DEFAULT_WINDOW_BITS,
};
use rolldown_compression::compress::{compress as compress_any, Algorithm, Compressors};
use rolldown_compression::decode;
use rolldown_compression::error::Error;

const DEFAULT_SECTION_SIZE: usize = 1 << (BROTLI_DEFAULT_WINDOW_BITS + 1);

fn decompress(algorithm: Algorithm, input: &[u8]) -> Vec<u8> {
    decode::decompress(algorithm, input).expect("decode")
}

fn pseudo_random(len: usize) -> Vec<u8> {
    // xorshift-based deterministic noise: effectively incompressible.
    let mut state = 0x2545_f491_4f6c_dd1d_u64;
    (0..len)
        .map(|_| {
            state ^= state << 13;
            state ^= state >> 7;
            state ^= state << 17;
            (state & 0xff) as u8
        })
        .collect()
}

fn config(level: u8, window_bits: u32) -> EncoderConfig {
    EncoderConfig::default()
        .with_quality(Quality::try_from(level).expect("quality"))
        .with_window(Window::standard(window_bits as u8).expect("window"))
}

fn settings(level: u8, window_bits: u32, section_size: usize) -> EncoderSettings {
    EncoderSettings { quality: level, window: window_bits as u8, section: section_size }
}

fn fresh_compression(
    config: EncoderConfig,
    section_size: usize,
    tasks: usize,
    input: &[u8],
) -> Vec<u8> {
    let mut compressor = ParallelCompressor::new(
        config,
        ParallelConfig::from(SegmentSize::try_from(section_size).expect("section size")),
    )
    .expect("compressor");
    let mut prepared = compressor
        .prepare_slice(
            input,
            BatchConfig::auto(TaskCount::try_from(tasks).expect("tasks")),
        )
        .expect("prepare");
    prepared.run_inline().expect("run");
    let mut output = Vec::new();
    prepared.finish_into(&mut output).expect("finish");
    output
}

#[test]
fn round_trips_large_brotli_inputs_via_multithreaded_path() {
    // More than one default section exercises the rayon path.
    let compressible = b"export const value = 42; // padding padding\n".repeat(400_000);
    assert!(compressible.len() >= DEFAULT_SECTION_SIZE);
    for level in [5, 9] {
        let compressed =
            compress_any(Algorithm::Brotli, level, None, None, &compressible).expect("compress");
        assert!(compressed.len() < compressible.len());
        assert_eq!(decompress(Algorithm::Brotli, &compressed), compressible);
    }

    let incompressible = pseudo_random(DEFAULT_SECTION_SIZE + 12_345);
    let compressed =
        compress_any(Algorithm::Brotli, 9, None, None, &incompressible).expect("compress");
    assert_eq!(decompress(Algorithm::Brotli, &compressed), incompressible);
}

#[test]
fn section_size_changes_the_split_and_the_output() {
    // Smaller sections cut the input into more of them, which costs ratio.
    let input = b"export const value = 42; // padding padding\n".repeat(400_000);
    assert!(input.len() >= DEFAULT_SECTION_SIZE);

    let mut outputs = Vec::new();
    for section_size in [256 * 1024u32, 1 << 20, 4 << 20] {
        let compressed = compress_any(Algorithm::Brotli, 9, None, Some(section_size), &input)
            .expect("compress");
        assert_eq!(decompress(Algorithm::Brotli, &compressed), input);
        outputs.push((section_size, compressed.len(), compressed));
    }

    for pair in outputs.windows(2) {
        let (small, small_len, small_bytes) = &pair[0];
        let (large, large_len, large_bytes) = &pair[1];
        assert_ne!(
            small_bytes, large_bytes,
            "sectionSize {small} and {large} produced identical bytes"
        );
        assert!(
            small_len >= large_len,
            "sectionSize {small} ({small_len} bytes) should not beat {large} ({large_len} bytes)"
        );
    }
}

#[test]
fn splits_as_soon_as_input_exceeds_one_section() {
    const SECTION: usize = 64 * 1024;
    for len in [SECTION - 1, SECTION, SECTION + 1, 2 * SECTION - 1, 2 * SECTION] {
        let input = pseudo_random(len);
        let output = compress(
            &mut BrotliContext::default(),
            5,
            Some(16),
            Some(SECTION as u32),
            &input,
        )
        .expect("compress");
        let expected = fresh_compression(config(5, 16), SECTION, 2, &input);
        assert_eq!(output, expected, "len {len}");
        assert_eq!(decompress(Algorithm::Brotli, &output), input);
    }
}

#[test]
fn output_does_not_depend_on_the_task_count() {
    // The section size fixes the segmentation; the task count only decides how
    // many threads chew through it.
    let input = b"export const value = 42; // padding padding\n".repeat(400_000);
    for section_size in [256 * 1024usize, 1 << 20, DEFAULT_SECTION_SIZE] {
        let chosen = settings(5, BROTLI_DEFAULT_WINDOW_BITS, section_size);
        let baseline = compress_parallel(&mut BrotliContext::default(), chosen, input.as_ref())
            .expect("compress");

        for tasks in [1usize, 2, 4, 8, 16] {
            let compressed = fresh_compression(
                config(5, BROTLI_DEFAULT_WINDOW_BITS),
                section_size,
                tasks,
                &input,
            );
            assert_eq!(
                compressed, baseline,
                "output changed at {tasks} tasks, section size {section_size}"
            );
        }
        assert_eq!(decompress(Algorithm::Brotli, &baseline), input);
    }
}

#[test]
fn automatic_staging_round_trips_boundary_sizes() {
    for len in [
        0usize,
        1,
        64 * 1024,
        DEFAULT_SECTION_SIZE,
        DEFAULT_SECTION_SIZE + 12_345,
    ] {
        let input = pseudo_random(len);
        for section_size in [64 * 1024usize, DEFAULT_SECTION_SIZE] {
            let output = compress_parallel(
                &mut BrotliContext::default(),
                settings(5, BROTLI_DEFAULT_WINDOW_BITS, section_size),
                input.as_ref(),
            )
            .unwrap_or_else(|e| panic!("len {len}, section {section_size}: {}", e.to_string()));
            assert_eq!(decompress(Algorithm::Brotli, &output), input);
        }
    }
}

#[test]
fn concurrent_parallel_compressions_do_not_deadlock() {
    // Puts every rayon worker inside a split compression at once. If joining a
    // task parked its worker instead of working the queue, no thread would be
    // left to run the spawned tasks and this would hang rather than fail.
    let input = b"export const value = 42; // padding padding\n".repeat(30_000);
    let section_size = 256 * 1024u32;
    assert!(input.len() > section_size as usize);
    let jobs = 8 * rayon::current_num_threads();
    let compressed: Vec<_> = (0..jobs)
        .into_par_iter()
        .map(|_| {
            compress_any(Algorithm::Brotli, 5, None, Some(section_size), &input)
                .expect("compress")
        })
        .collect();
    for output in compressed {
        assert_eq!(decompress(Algorithm::Brotli, &output), input);
    }
}

#[test]
fn brotli_output_is_deterministic() {
    let input = b"function chunk(a, b) { return a + b; }\n".repeat(460_000);
    assert!(input.len() >= DEFAULT_SECTION_SIZE);
    let first = compress_any(Algorithm::Brotli, 5, None, None, &input).expect("compress");
    let second = compress_any(Algorithm::Brotli, 5, None, None, &input).expect("compress");
    assert_eq!(first, second);
}

#[test]
fn round_trips_inputs_across_the_window_shrink_boundary() {
    // Cover the window floor and the derived section-size floor independently.
    for len in [
        0usize, 1, 2, 511, 512, 513, 1024, 1025, 4096, 16_384, 16_385, 32_768, 65_536,
    ] {
        let input: Vec<u8> = b"export const value = 42;\n"
            .iter()
            .copied()
            .cycle()
            .take(len)
            .collect();
        for level in [5, 11] {
            let compressed =
                compress_any(Algorithm::Brotli, level, None, None, &input).expect("compress");
            assert_eq!(
                decompress(Algorithm::Brotli, &compressed),
                input,
                "len {len} at quality {level}"
            );
        }
    }
}

#[test]
fn rejects_invalid_window_bits() {
    assert!(compress_any(Algorithm::Brotli, 11, Some(9), None, b"x").is_err());
    assert!(compress_any(Algorithm::Brotli, 11, Some(25), None, b"x").is_err());
    assert!(compress_any(Algorithm::Brotli, 11, Some(10), None, b"x").is_ok());
    assert!(compress_any(Algorithm::Brotli, 11, Some(24), None, b"x").is_ok());
}

#[test]
fn rejects_invalid_section_size() {
    assert!(compress_any(Algorithm::Brotli, 11, None, Some(0), b"x").is_err());
}

#[test]
fn section_size_is_clamped_into_the_encoders_range() {
    let input = pseudo_random(128 * 1024);
    for (requested, effective) in [
        (1, 64 * 1024),
        (64 * 1024 - 1, 64 * 1024),
        (64 * 1024, 64 * 1024),
        (16 << 20, 16 << 20),
        (u32::MAX, 16 << 20),
    ] {
        let output = compress(&mut BrotliContext::default(), 5, None, Some(requested), &input)
            .expect("compress");
        let expected = fresh_compression(config(5, 17), effective, 2, &input);
        assert_eq!(output, expected, "section size {requested}");
        assert_eq!(decompress(Algorithm::Brotli, &output), input);
    }
}

#[test]
fn honors_custom_section_size() {
    // 256 KiB sections push a ~1 MB input through the multithreaded path that
    // the default section size would compress single-threaded.
    let input = b"export const value = 42; // padding padding\n".repeat(24_000);
    let section_size = 256 * 1024u32;
    assert!(input.len() > section_size as usize);
    assert!(input.len() < DEFAULT_SECTION_SIZE);
    let single = compress_any(Algorithm::Brotli, 5, None, None, &input).expect("compress");
    let split =
        compress_any(Algorithm::Brotli, 5, None, Some(section_size), &input).expect("compress");
    assert_ne!(
        split, single,
        "a smaller section size should move this input onto the split path"
    );
    assert!(split.len() < input.len());
    assert_eq!(decompress(Algorithm::Brotli, &split), input);
}

#[test]
fn derives_default_section_size_from_window_bits() {
    // With no explicit section size the default is two windows, so windowBits
    // 18 gives 512 KiB sections and this ~1 MB input splits where the default
    // window would have run it as one stream.
    let input = b"export const value = 42; // padding padding\n".repeat(24_000);
    let window_bits = 18u32;
    assert!(input.len() < DEFAULT_SECTION_SIZE);
    let compressed =
        compress_any(Algorithm::Brotli, 5, Some(window_bits), None, &input).expect("compress");
    let expected = compress(
        &mut BrotliContext::default(),
        5,
        Some(window_bits),
        Some(1 << (window_bits + 1)),
        &input,
    )
    .expect("explicit section size");
    assert_eq!(compressed, expected);
    assert_eq!(decompress(Algorithm::Brotli, &compressed), input);
}

#[test]
fn reused_compressor_matches_a_fresh_one_across_shape_changes() {
    // Alternate quality, window and segmentation on the same encoder.
    let shapes = [
        (11u8, 22u32, 40_000usize),
        (5, 10, 700),
        (11, 10, 700),
        (0, 24, 90_000),
        (5, 22, 40_000),
        (11, 22, 40_000),
        (9, 16, 5_000),
        (0, 10, 1),
        (11, 24, 90_000),
        (5, 10, 0),
    ];
    let mut context = BrotliContext::default();
    for _ in 0..2 {
        for (level, window_bits, len) in shapes {
            let input: Vec<u8> = b"export const value = 42; // padding padding\n"
                .iter()
                .copied()
                .cycle()
                .take(len)
                .collect();
            let section_size = if level == 11 { 64 * 1024 } else { 256 * 1024 };
            let fresh = fresh_compression(config(level, window_bits), section_size, 2, &input);
            let reused = compress_parallel(
                &mut context,
                settings(level, window_bits, section_size),
                &input,
            )
            .expect("compress");
            assert!(context.compressor.is_some());
            assert_eq!(
                reused, fresh,
                "reused encoder drifted at quality {level}, window {window_bits}, len {len}"
            );
            assert_eq!(decompress(Algorithm::Brotli, &reused), input);
        }
    }
}

#[test]
fn every_worker_gets_its_own_compressor() {
    // A worker that steals a serial file while another compression is in
    // flight must not reach the encoder of that compression.
    let jobs = 32 * rayon::current_num_threads();
    let outputs: Vec<_> = (0..jobs)
        .into_par_iter()
        .map_with(Compressors::default(), |compressors, i| {
            // Vary the shape per job so workers keep reconfiguring.
            let level = (i % 12) as u32;
            let window_bits = 10 + (i % 15) as u32;
            let input = b"function chunk(a, b) { return a + b; }\n".repeat(100 + i % 500);
            let compressed = compressors
                .compress(Algorithm::Brotli, level, Some(window_bits), None, &input)
                .expect("compress");
            assert_eq!(decompress(Algorithm::Brotli, &compressed), input);
            (level, window_bits, input, compressed)
        })
        .collect();

    // Same shape and input must give the same bytes whichever worker ran it.
    for (level, window_bits, input, compressed) in outputs {
        let expected = compress_any(Algorithm::Brotli, level, Some(window_bits), None, &input)
            .expect("compress");
        assert_eq!(
            compressed, expected,
            "worker-dependent output at quality {level}, window {window_bits}"
        );
    }
}

#[test]
fn unified_encoder_matches_serial_encoding_for_small_single_sections() {
    // An input that fits one section takes the encoder's serial shortcut, so
    // the two paths have to produce the same stream.
    let input = b"export const value = 42; // padding padding\n".repeat(20_000);
    assert!(input.len() < DEFAULT_SECTION_SIZE);
    assert_eq!(
        mbrotli::Compressor::new(config(5, 22))
            .expect("compressor")
            .compress(&input)
            .expect("serial"),
        compress_parallel(
            &mut BrotliContext::default(),
            settings(5, 22, DEFAULT_SECTION_SIZE),
            input.as_ref()
        )
        .expect("parallel"),
    );
}

#[test]
fn settings_follow_the_input_and_the_options() {
    let chosen = |window_bits, section_size, len| {
        let settings = choose_settings(5, window_bits, section_size, len).unwrap();
        (settings.window, settings.section)
    };
    assert_eq!(chosen(None, None, 0), (10, 64 << 10));
    assert_eq!(chosen(None, None, 1024), (10, 64 << 10));
    assert_eq!(chosen(None, None, 1025), (11, 64 << 10));
    assert_eq!(chosen(None, None, 65536), (16, 128 << 10));
    assert_eq!(chosen(None, None, 65537), (17, 256 << 10));
    assert_eq!(chosen(None, None, 1 << 30), (22, 8 << 20));
    assert_eq!(chosen(Some(24), None, 1 << 30), (24, 16 << 20));
    assert_eq!(chosen(Some(18), None, 1 << 30), (18, 512 << 10));
    assert_eq!(chosen(Some(10), Some(1), 1 << 30), (10, 64 << 10));
    assert_eq!(chosen(Some(10), Some(100_000), 5), (10, 100_000));
    assert_eq!(chosen(None, Some(u32::MAX), usize::MAX), (22, 16 << 20));
}

#[test]
fn settings_report_the_first_rejected_value() {
    assert!(matches!(
        choose_settings(12, Some(25), Some(0), 1),
        Err(Error::InvalidWindowBits(25))
    ));
    assert!(matches!(
        choose_settings(12, None, Some(0), 1),
        Err(Error::InvalidSectionSize(0))
    ));
    assert!(matches!(
        choose_settings(12, None, None, 1),
        Err(Error::BrotliConfig(mbrotli::ConfigError::Quality { requested: 12 }))
    ));
    // Only the low byte of the level is the quality.
    assert_eq!(choose_settings(256 + 7, None, None, 1).unwrap().quality, 7);
}

#[test]
fn task_counts_outside_the_encoders_range() {
    let input = b"function chunk(a, b) { return a + b; }\n".repeat(10_000);
    let chosen = settings(5, 16, 64 << 10);
    let mut context = BrotliContext::default();
    let expected = fresh_compression(config(5, 16), 64 << 10, 1, &input);
    for width in [0usize, 1, 3, 1000] {
        assert_eq!(compress_sections(&mut context, chosen, width, &input).unwrap(), expected);
    }
    assert!(matches!(
        compress_sections(&mut context, chosen, u32::MAX as usize + 1, &input),
        Err(Error::BrotliParallelConfig(_))
    ));
    assert!(context.compressor.is_some());
}

#[test]
fn scratch_space_splits_into_two_halves() {
    let mut buf = BrotliBuf::default();
    assert_eq!(buf.inner, vec![0u8; 2 * BROTLI_BUFFER_SIZE]);
    let (input, output) = buf.split();
    assert_eq!(input.len(), BROTLI_BUFFER_SIZE);
    assert_eq!(output.len(), BROTLI_BUFFER_SIZE);
    input[0] = 1;
    output[0] = 2;
    assert_eq!(buf.inner[0], 1);
    assert_eq!(buf.inner[BROTLI_BUFFER_SIZE], 2);
}

#[test]
fn memory_cells_hold_default_values() {
    let mut allocator = DefaultAlloc::default();
    let mut cell: WrapBox<u16> = allocator.alloc_cell(3);
    assert_eq!(cell.slice(), [0u16, 0, 0]);
    cell.slice_mut()[1] = 7;
    assert_eq!(cell.slice(), [0u16, 7, 0]);
    allocator.free_cell(cell);
    assert!(WrapBox::<u8>::default().slice().is_empty());
}

#[test]
fn shared_input_hands_out_its_bytes() {
    assert_eq!(SharedInput(vec![1, 2, 3]).slice(), [1u8, 2, 3]);
}

#[test]
fn an_encoder_that_failed_is_not_kept() {
    let encoder = || ParallelCompressor::new(config(5, 16), ParallelConfig::default()).unwrap();
    let mut context = BrotliContext::default();
    assert!(matches!(
        finish(&mut context, encoder(), Err(ParallelEncodeError::Cancelled)),
        Err(Error::BrotliParallel(ParallelEncodeError::Cancelled))
    ));
    assert!(context.compressor.is_none());
    assert_eq!(finish(&mut context, encoder(), Ok(vec![1])).unwrap(), vec![1]);
    assert!(context.compressor.is_some());
}
