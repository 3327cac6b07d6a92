use std::sync::Arc;

use rolldown_compression::compress::{compress, Algorithm, Compressors, InputBuffer};
use rolldown_compression::decode;
use rolldown_compression::error::Error;
use rolldown_compression::scheduler::plan::{algorithm_rank, prepare_groups};
use rolldown_compression::scheduler::scatter::scatter_in_place;
use rolldown_compression::scheduler::task::{direct, report, run_one, run_one_with, Attempted};
use rolldown_compression::scheduler::{run_batch, run_batch_with, BatchAlgorithm, BatchOutcome};

fn decompress(algorithm: Algorithm, input: &[u8]) -> Vec<u8> {
    decode::decompress(algorithm, input).expect("decode")
}

fn text_fixture(seed: usize) -> Vec<u8> {
    format!("export const value{seed} = {seed};\n")
        .repeat(200 + seed * 7)
        .into_bytes()
}

fn config(algorithm: Algorithm, level: u32) -> BatchAlgorithm {
    BatchAlgorithm { algorithm, level, window_bits: None, section_size: None }
}

fn algorithms() -> [BatchAlgorithm; 4] {
    [
        config(Algorithm::Gzip, 1),
        config(Algorithm::Brotli, 4),
        config(Algorithm::Zstd, 3),
        config(Algorithm::Gzip, 9),
    ]
}

fn run_batch_on_pool(
    inputs: Vec<Arc<InputBuffer>>,
    algorithms: &[BatchAlgorithm],
    threads: usize,
    skip_if_larger_or_equal: bool,
) -> Vec<BatchOutcome> {
    rayon::ThreadPoolBuilder::new()
        .num_threads(threads)
        .build()
        .expect("build pool")
        .install(|| run_batch(inputs, algorithms, skip_if_larger_or_equal))
}

#[test]
fn batch_preserves_file_then_configuration_order() {
    let inputs: Vec<_> = [7, 0, 3, 3, 1]
        .into_iter()
        .map(|seed| Arc::new(text_fixture(seed)))
        .chain([Arc::new(Vec::new())])
        .collect();
    let algorithms = algorithms();
    let outcomes = run_batch_on_pool(inputs.clone(), &algorithms, 4, false);
    assert_eq!(outcomes.len(), inputs.len() * algorithms.len());
    for (file_outcomes, input) in outcomes.chunks(algorithms.len()).zip(&inputs) {
        for (outcome, config) in file_outcomes.iter().zip(&algorithms) {
            assert!(outcome.error.is_none());
            assert!(!outcome.skipped);
            assert_eq!(decompress(config.algorithm, &outcome.data), **input);
            // The two gzip levels have identical algorithm metadata.
            let fresh = compress(
                config.algorithm,
                config.level,
                config.window_bits,
                config.section_size,
                input,
            )
            .expect("compress");
            assert_eq!(outcome.data, fresh);
        }
    }
}

#[test]
fn batch_is_deterministic_across_thread_counts() {
    let inputs: Vec<_> = (0..24).map(|i| Arc::new(text_fixture(i))).collect();
    let algorithms = algorithms();
    let single = run_batch_on_pool(inputs.clone(), &algorithms, 1, false);
    for threads in [2, 4, 8] {
        let multi = run_batch_on_pool(inputs.clone(), &algorithms, threads, false);
        assert_eq!(single.len(), multi.len());
        for (a, b) in single.iter().zip(multi.iter()) {
            assert_eq!(a.data, b.data, "output differs with {threads} threads");
        }
    }
}

#[test]
fn skip_if_larger_or_equal_marks_incompressible_items() {
    let input = Arc::new(vec![1u8, 2, 3, 4]);
    let algorithms = algorithms();
    let outcomes = run_batch_on_pool(vec![Arc::clone(&input)], &algorithms, 0, true);
    for outcome in outcomes {
        assert!(outcome.skipped);
        assert!(outcome.data.is_empty());
        assert!(outcome.error.is_none());
    }
    let outcomes = run_batch_on_pool(vec![Arc::clone(&input)], &algorithms, 0, false);
    for outcome in outcomes {
        assert!(!outcome.skipped);
        assert!(outcome.data.len() > input.len());
    }
}

/// The `rank`-th permutation of `0..n` in Lehmer-code order.
fn permutation(n: usize, mut rank: usize) -> Vec<u32> {
    let mut pool: Vec<u32> = (0..n as u32).collect();
    (1..=n)
        .rev()
        .map(|remaining| {
            let pick = rank % remaining;
            rank /= remaining;
            pool.remove(pick)
        })
        .collect()
}

#[test]
fn scatter_restores_every_permutation() {
    for n in 1..=6usize {
        let factorial: usize = (1..=n).product();
        for rank in 0..factorial {
            let mut order = permutation(n, rank);
            let mut data: Vec<_> = order.iter().map(|i| i * 10).collect();
            scatter_in_place(&mut data, &mut order);
            assert_eq!(data, (0..n as u32).map(|i| i * 10).collect::<Vec<_>>());
            assert_eq!(order, (0..n as u32).collect::<Vec<_>>());
        }
    }
}

#[test]
fn schedules_brotli_then_zstd_then_gzip_largest_first() {
    let algorithms = algorithms();
    let inputs = [20, 50, 10]
        .into_iter()
        .map(|len| Arc::new(vec![0u8; len]))
        .collect();
    let groups = prepare_groups(inputs, &algorithms);
    let scheduled: Vec<_> = groups
        .iter()
        .map(|group| {
            (
                group.config.algorithm,
                group.config.level,
                group.files.iter().map(|file| file.input.len()).collect::<Vec<_>>(),
                group.files.iter().map(|file| file.result_index).collect::<Vec<_>>(),
            )
        })
        .collect();
    assert_eq!(
        scheduled,
        vec![
            (Algorithm::Brotli, 4, vec![50, 20, 10], vec![5, 1, 9]),
            (Algorithm::Zstd, 3, vec![50, 20, 10], vec![6, 2, 10]),
            (Algorithm::Gzip, 1, vec![50, 20, 10], vec![4, 0, 8]),
            (Algorithm::Gzip, 9, vec![50, 20, 10], vec![7, 3, 11]),
        ]
    );
}

#[test]
fn shared_input_survives_a_failed_task_and_is_released_after_the_last_task() {
    let expected = text_fixture(1);
    let input = Arc::new(expected.clone());
    let weak = Arc::downgrade(&input);
    let failed = run_one(
        &mut Compressors::default(),
        &config(Algorithm::Brotli, 99),
        Arc::clone(&input),
        false,
    );
    assert!(failed.error.is_some());
    assert!(weak.upgrade().is_some());

    let algorithms = algorithms();
    let outcomes = run_batch_on_pool(vec![input], &algorithms, 3, false);
    assert!(weak.upgrade().is_none());
    for (outcome, config) in outcomes.iter().zip(&algorithms) {
        assert!(outcome.error.is_none());
        assert_eq!(decompress(config.algorithm, &outcome.data), expected);
    }
}

#[test]
fn single_failure_does_not_abort_batch() {
    let inputs = vec![Arc::new(text_fixture(0)), Arc::new(text_fixture(1))];
    let algorithms = [config(Algorithm::Gzip, 6), config(Algorithm::Zstd, 99)];
    let outcomes = run_batch_on_pool(inputs, &algorithms, 0, false);
    assert_eq!(outcomes.len(), 4);
    for file_outcomes in outcomes.chunks(2) {
        assert!(file_outcomes[0].error.is_none());
        assert!(!file_outcomes[0].data.is_empty());
        assert!(matches!(
            file_outcomes[1].error,
            Some(Error::InvalidLevel { algorithm: Algorithm::Zstd, level: 99, .. })
        ));
        assert!(file_outcomes[1].data.is_empty());
        assert!(!file_outcomes[1].skipped);
    }
}

#[test]
fn empty_files_or_algorithms_produce_no_results() {
    assert!(run_batch(Vec::new(), &algorithms(), false).is_empty());
    assert!(run_batch(vec![Arc::new(text_fixture(0))], &[], false).is_empty());
    assert!(run_batch(Vec::new(), &[], false).is_empty());
}

#[test]
fn ranks_put_the_slowest_algorithm_first() {
    assert_eq!(algorithm_rank(Algorithm::Brotli), 0);
    assert_eq!(algorithm_rank(Algorithm::Zstd), 1);
    assert_eq!(algorithm_rank(Algorithm::Gzip), 2);
}

#[test]
fn equally_large_files_keep_their_order() {
    let algorithms = [config(Algorithm::Gzip, 6)];
    let inputs = [3, 5, 3, 5].into_iter().map(|len| Arc::new(vec![0u8; len])).collect();
    let groups = prepare_groups(inputs, &algorithms);
    let indices: Vec<_> = groups[0].files.iter().map(|file| file.result_index).collect();
    assert_eq!(indices, vec![1, 3, 0, 2]);
}

#[test]
fn outcomes_report_data_skips_and_failures() {
    let kept = report(Ok(vec![1, 2, 3]), 4, true);
    assert_eq!((kept.data, kept.skipped, kept.error.is_none()), (vec![1, 2, 3], false, true));
    let equal = report(Ok(vec![1, 2, 3]), 3, true);
    assert_eq!((equal.data, equal.skipped, equal.error.is_none()), (vec![], true, true));
    let wanted = report(Ok(vec![1, 2, 3]), 3, false);
    assert_eq!((wanted.data, wanted.skipped), (vec![1, 2, 3], false));
    let failed = report(Err(Error::BufferTooLarge), 3, true);
    assert!(failed.data.is_empty() && !failed.skipped);
    assert!(matches!(failed.error, Some(Error::BufferTooLarge)));
    let default = BatchOutcome::default();
    assert!(default.data.is_empty() && !default.skipped && default.error.is_none());
}

/// Counts every attempt on a file that starts with a `!` as panicked.
fn flaky(compressors: Compressors, config: &BatchAlgorithm, input: &InputBuffer) -> Attempted {
    if input.first() == Some(&b'!') {
        None
    } else {
        direct(compressors, config, input)
    }
}

#[test]
fn a_panic_is_reported_and_replaces_the_encoders() {
    let mut compressors = Compressors::default();
    let zstd = config(Algorithm::Zstd, 3);
    let good = Arc::new(text_fixture(2));
    let first = run_one_with(&flaky, &mut compressors, &zstd, Arc::clone(&good), false);
    assert!(first.error.is_none());
    assert!(compressors.zstd.is_some());
    let panicked = run_one_with(&flaky, &mut compressors, &zstd, Arc::new(b"!x".to_vec()), false);
    assert!(matches!(panicked.error, Some(Error::CompressionPanicked(Algorithm::Zstd))));
    assert!(panicked.data.is_empty() && !panicked.skipped);
    assert!(compressors.zstd.is_none());
    let again = run_one_with(&flaky, &mut compressors, &zstd, good, false);
    assert_eq!(again.data, first.data);
}

#[test]
fn a_panic_does_not_abort_the_batch() {
    let inputs = vec![
        Arc::new(text_fixture(4)),
        Arc::new(b"!boom".to_vec()),
        Arc::new(text_fixture(5)),
    ];
    let algorithms = algorithms();
    let outcomes = run_batch_with(&flaky, inputs.clone(), &algorithms, false);
    let expected = run_batch(inputs, &algorithms, false);
    assert_eq!(outcomes.len(), 12);
    for (k, (outcome, expected)) in outcomes.iter().zip(&expected).enumerate() {
        if k / 4 == 1 {
            let algorithm = algorithms[k % 4].algorithm;
            assert!(matches!(
                outcome.error,
                Some(Error::CompressionPanicked(reported)) if reported == algorithm
            ));
            assert!(outcome.data.is_empty());
        } else {
            assert!(outcome.error.is_none());
            assert_eq!(outcome.data, expected.data);
        }
    }
}

#[test]
fn skipping_changes_nothing_but_larger_results() {
    let inputs = vec![
        Arc::new(text_fixture(3)),
        Arc::new(vec![1u8, 2, 3]),
        Arc::new(Vec::new()),
    ];
    let mut algorithms = algorithms().to_vec();
    algorithms.push(config(Algorithm::Zstd, 0));
    let kept = run_batch(inputs.clone(), &algorithms, false);
    let skipping = run_batch(inputs.clone(), &algorithms, true);
    assert_eq!(kept.len(), skipping.len());
    for (k, (kept, skipping)) in kept.iter().zip(&skipping).enumerate() {
        if kept.error.is_none() && kept.data.len() >= inputs[k / algorithms.len()].len() {
            assert!(skipping.skipped && skipping.data.is_empty() && skipping.error.is_none());
        } else {
            assert_eq!(kept.data, skipping.data);
            assert!(!skipping.skipped);
            assert_eq!(
                kept.error.as_ref().map(Error::to_string),
                skipping.error.as_ref().map(Error::to_string)
            );
        }
    }
}
