//! What the host calls: request validation, the batch worker, and results in
//! the shape that the host receives.

use std::str::FromStr;
use std::sync::Arc;

use vstd::prelude::*;

use crate::compress;
use crate::compress::{
    validate_section_size, validate_window_bits, Algorithm, Compressors, InputBuffer,
};
use crate::error;
use crate::error::Error;
use crate::scheduler::task::Attempted;
use crate::scheduler::{plan, run_batch_with, task, BatchAlgorithm, BatchOutcome};

verus! {

/// One source file, passed once regardless of the number of algorithms.
#[derive(Debug)]
pub struct CompressFile {
    pub file_name: String,
    pub data: InputBuffer,
}

/// Algorithm settings applied to every file in a batch.
#[derive(Debug)]
pub struct CompressAlgorithm {
    /// Canonical algorithm name: "gzip" | "brotli" | "zstd".
    pub algorithm: String,
    /// Compression level; algorithm default when omitted
    /// (gzip 6, brotli 11, zstd 19).
    pub level: Option<u32>,
    /// Brotli only: log2 window size (10-24, default 22).
    pub window_bits: Option<u32>,
    /// Brotli only: target section size in bytes when a large input is split
    /// across the worker pool; inputs larger than one section are split.
    /// Defaults to two windows (`2^(windowBits + 1)` bytes), i.e. 8 MiB at the
    /// default window.
    ///
    /// Smaller sections finish large files faster and cost compression ratio.
    /// The encoder segments between 64 KiB and 16 MiB, and values outside that
    /// range are clamped to it.
    pub section_size: Option<u32>,
}

/// Batch-wide options for [`compress_buffers`].
#[derive(Debug)]
pub struct BatchOptions {
    /// Worker threads; 0 or omitted = number of logical CPUs.
    pub concurrency: Option<u32>,
    /// Mark results whose compressed size >= original as skipped and return no
    /// data for them. Default: false.
    pub skip_if_larger_or_equal: Option<bool>,
}

/// Outcome of a single task within a batch.
#[derive(Debug)]
pub struct CompressResult {
    pub file_name: String,
    pub algorithm: String,
    /// Compressed bytes. Empty when `skipped` is true or `error` is set.
    pub data: Vec<u8>,
    pub original_size: u32,
    pub compressed_size: u32,
    /// True when compression would not shrink the input and skipping was
    /// requested.
    pub skipped: bool,
    /// Per-task failure. A failed task never aborts the rest of the batch.
    pub error: Option<String>,
}

/// The level that a configuration asks for, or the default of its algorithm.
pub open spec fn asked_level(config: CompressAlgorithm, algorithm: Algorithm) -> u32 {
    match config.level {
        Some(level) => level,
        None => compress::default_level_of(algorithm),
    }
}

/// Whether `settings` are what `config` asks for.
pub open spec fn config_parses_to(config: CompressAlgorithm, settings: BatchAlgorithm) -> bool {
    &&& compress::algorithm_named(config.algorithm@) == Some(settings.algorithm)
    &&& settings.level == asked_level(config, settings.algorithm)
    &&& settings.window_bits == config.window_bits
    &&& settings.section_size == config.section_size
    &&& compress::rejection(
        settings.algorithm,
        settings.level,
        settings.window_bits,
        settings.section_size,
    ) is None
}

/// Whether `error` is the first thing wrong with `config`.
pub open spec fn config_rejected_with(config: CompressAlgorithm, error: Error) -> bool {
    match compress::algorithm_named(config.algorithm@) {
        None => error matches Error::UnknownAlgorithm(name) && name@ == config.algorithm@,
        Some(algorithm) => compress::rejection(
            algorithm,
            asked_level(config, algorithm),
            config.window_bits,
            config.section_size,
        ) == Some(error),
    }
}

/// Whether nothing is wrong with `config`.
pub open spec fn config_accepted(config: CompressAlgorithm) -> bool {
    exists|settings: BatchAlgorithm| config_parses_to(config, settings)
}

/// Reads one configuration, applying the default level. The brotli-only
/// options are checked for brotli alone.
pub fn parse_algorithm(config: &CompressAlgorithm) -> (r: Result<BatchAlgorithm, Error>)
    ensures
        match r {
            Ok(settings) => {
                &&& config_parses_to(*config, settings)
                &&& config.level matches Some(level) ==> settings.level == level
            },
            Err(error) => config_rejected_with(*config, error),
        },
{
    let algorithm: Algorithm = match Algorithm::from_str(config.algorithm.as_str()) {
        Ok(algorithm) => algorithm,
        Err(error) => {
            return Err(error);
        },
    };
    let level: u32 = match config.level {
        Some(level) => level,
        None => algorithm.default_level(),
    };
    match algorithm.validate_level(level) {
        Ok(()) => {},
        Err(error) => {
            return Err(error);
        },
    }
    if algorithm == Algorithm::Brotli {
        if let Some(window_bits) = config.window_bits {
            match validate_window_bits(window_bits) {
                Ok(()) => {},
                Err(error) => {
                    return Err(error);
                },
            }
        }
        if let Some(section_size) = config.section_size {
            match validate_section_size(section_size) {
                Ok(()) => {},
                Err(error) => {
                    return Err(error);
                },
            }
        }
    }
    Ok(
        BatchAlgorithm {
            algorithm,
            level,
            window_bits: config.window_bits,
            section_size: config.section_size,
        },
    )
}

/// A validated batch, ready to run.
#[derive(Debug)]
pub struct CompressWorker {
    pub files: Vec<CompressFile>,
    pub algorithms: Vec<BatchAlgorithm>,
    pub skip_if_larger_or_equal: bool,
}

/// Whether sizes and result indices of a batch fit 32 bits.
pub open spec fn batch_fits(files: Seq<CompressFile>, count: nat) -> bool {
    &&& files.len() * count <= u32::MAX
    &&& buffers_fit(files)
}

/// Whether no file is larger than 32 bits can say.
pub open spec fn buffers_fit(files: Seq<CompressFile>) -> bool {
    forall|i: int| 0 <= i < files.len() ==> (#[trigger] files[i]).data@.len() <= u32::MAX
}

impl CompressWorker {
    /// Sizes and result indices of the batch fit 32 bits.
    pub open spec fn wf(&self) -> bool {
        batch_fits(self.files@, self.algorithms@.len())
    }
}

/// The number of worker threads that was asked for, if any.
pub open spec fn asked_concurrency(options: Option<BatchOptions>) -> Option<u32> {
    match options {
        Some(options) => match options.concurrency {
            Some(concurrency) => if concurrency > 0 {
                Some(concurrency)
            } else {
                None
            },
            None => None,
        },
        None => None,
    }
}

/// Whether results that are not smaller than their input are to be skipped.
pub open spec fn asked_to_skip(options: Option<BatchOptions>) -> bool {
    match options {
        Some(options) => options.skip_if_larger_or_equal == Some(true),
        None => false,
    }
}

/// A validated batch, and the number of worker threads that was asked for.
#[derive(Debug)]
pub struct PreparedBatch {
    pub worker: CompressWorker,
    pub concurrency: Option<u32>,
}

/// Validates a batch of buffers to compress.
///
/// Each file carries one buffer; algorithm settings are shared by all files.
/// Empty files or algorithms give an empty batch. Sizes, algorithm names,
/// levels and options are validated here, in this order, so misconfiguration
/// fails before any work; failures during compression are reported per task.
pub fn compress_buffers(
    files: Vec<CompressFile>,
    algorithms: Vec<CompressAlgorithm>,
    options: Option<BatchOptions>,
) -> (r: Result<PreparedBatch, Error>)
    ensures
        match r {
            Ok(batch) => {
                &&& batch.worker.wf()
                &&& batch.worker.files@ == files@
                &&& batch.worker.algorithms@.len() == algorithms@.len()
                &&& forall|a: int|
                    #![trigger algorithms@[a]]
                    #![trigger batch.worker.algorithms@[a]]
                    0 <= a < algorithms@.len() ==> config_parses_to(
                        algorithms@[a],
                        batch.worker.algorithms@[a],
                    )
                &&& batch.worker.skip_if_larger_or_equal == asked_to_skip(options)
                &&& batch.concurrency == asked_concurrency(options)
            },
            Err(error) => request_rejected_with(files@, algorithms@, error),
        },
{
    match files.len().checked_mul(algorithms.len()) {
        Some(count) => {
            if count > u32::MAX as usize {
                return Err(Error::BatchTooLarge);
            }
        },
        None => {
            return Err(Error::BatchTooLarge);
        },
    }
    let mut i: usize = 0;
    while i < files.len()
        invariant
            i <= files@.len(),
            files@.len() * algorithms@.len() <= u32::MAX,
            forall|k: int| 0 <= k < i ==> (#[trigger] files@[k]).data@.len() <= u32::MAX,
        decreases files@.len() - i,
    {
        if files[i].data.len() > u32::MAX as usize {
            assert(!buffers_fit(files@)) by {
                assert(files@[i as int].data@.len() > u32::MAX);
            }
            return Err(Error::BufferTooLarge);
        }
        i = i + 1;
    }
    let mut parsed: Vec<BatchAlgorithm> = Vec::with_capacity(algorithms.len());
    let mut a: usize = 0;
    while a < algorithms.len()
        invariant
            a <= algorithms@.len(),
            parsed@.len() == a,
            batch_fits(files@, algorithms@.len()),
            forall|k: int|
                0 <= k < a ==> config_parses_to(algorithms@[k], #[trigger] parsed@[k]),
        decreases algorithms@.len() - a,
    {
        match parse_algorithm(&algorithms[a]) {
            Ok(settings) => {
                parsed.push(settings);
            },
            Err(error) => {
                assert forall|k: int| 0 <= k < a implies config_accepted(
                    #[trigger] algorithms@[k],
                ) by {
                    assert(config_parses_to(algorithms@[k], parsed@[k]));
                }
                assert(config_rejected_with(algorithms@[a as int], error));
                return Err(error);
            },
        }
        a = a + 1;
    }
    let mut concurrency: Option<u32> = None;
    let mut skip_if_larger_or_equal: bool = false;
    if let Some(options) = options {
        if let Some(asked) = options.concurrency {
            if asked > 0 {
                concurrency = Some(asked);
            }
        }
        if let Some(asked) = options.skip_if_larger_or_equal {
            skip_if_larger_or_equal = asked;
        }
    }
    Ok(
        PreparedBatch {
            worker: CompressWorker { files, algorithms: parsed, skip_if_larger_or_equal },
            concurrency,
        },
    )
}

/// Whether `error` is the first thing wrong with a request.
pub open spec fn request_rejected_with(
    files: Seq<CompressFile>,
    algorithms: Seq<CompressAlgorithm>,
    error: Error,
) -> bool {
    if files.len() * algorithms.len() > u32::MAX {
        error == Error::BatchTooLarge
    } else if !buffers_fit(files) {
        error == Error::BufferTooLarge
    } else {
        exists|a: int|
            {
                &&& 0 <= a < algorithms.len()
                &&& config_rejected_with(#[trigger] algorithms[a], error)
                &&& forall|k: int| 0 <= k < a ==> config_accepted(#[trigger] algorithms[k])
            }
    }
}

/// One outcome of a batch, with what identifies it for the host.
#[derive(Debug)]
pub struct WorkerOutcome {
    pub file_name: String,
    pub algorithm: Algorithm,
    pub original_size: u32,
    pub outcome: BatchOutcome,
}

/// Whether `result` is the labelled outcome of compressing `file` as `config`
/// says.
pub open spec fn worker_outcome_for<F: Fn(Compressors, &BatchAlgorithm, &InputBuffer) -> Attempted>(
    attempt: F,
    file: CompressFile,
    config: BatchAlgorithm,
    skip_if_larger_or_equal: bool,
    result: WorkerOutcome,
) -> bool {
    &&& result.file_name@ == file.file_name@
    &&& result.algorithm == config.algorithm
    &&& result.original_size == file.data@.len()
    &&& task::can_end_in(
        attempt,
        config,
        file.data,
        skip_if_larger_or_equal,
        result.outcome,
    )
}

impl CompressWorker {
    /// Runs the batch, each compression through `attempt`, and labels the
    /// outcomes. They follow file order, then algorithm order within each
    /// file. The files are handed over to the batch, which releases each one
    /// with its last task.
    pub fn compute<F: Fn(Compressors, &BatchAlgorithm, &InputBuffer) -> Attempted + Sync>(
        &mut self,
        attempt: &F,
    ) -> (r: Vec<WorkerOutcome>)
        requires
            old(self).wf(),
            task::is_attempt(*attempt),
        ensures
            final(self).files@ == Seq::<CompressFile>::empty(),
            final(self).algorithms == old(self).algorithms,
            final(self).skip_if_larger_or_equal == old(self).skip_if_larger_or_equal,
            r@.len() == old(self).files@.len() * old(self).algorithms@.len(),
            forall|i: int, a: int|
                #![trigger old(self).files@[i], old(self).algorithms@[a]]
                0 <= i < old(self).files@.len() && 0 <= a < old(self).algorithms@.len()
                    ==> worker_outcome_for(
                    *attempt,
                    old(self).files@[i],
                    old(self).algorithms@[a],
                    old(self).skip_if_larger_or_equal,
                    r@[plan::slot(i, a, old(self).algorithms@.len() as int)],
                ),
    {
        let mut files: Vec<CompressFile> = Vec::new();
        std::mem::swap(&mut files, &mut self.files);
        let ghost sources = files@;
        let ghost skip = self.skip_if_larger_or_equal;
        let ghost configs = self.algorithms@;
        let mut names: Vec<String> = Vec::new();
        let mut sizes: Vec<u32> = Vec::new();
        let mut inputs: Vec<Arc<InputBuffer>> = Vec::new();
        for file in it: files.into_iter()
            invariant
                it.seq() == sources,
                buffers_fit(sources),
                names@.len() == it.index(),
                sizes@.len() == it.index(),
                inputs@.len() == it.index(),
                forall|k: int|
                    0 <= k < it.index() ==> (#[trigger] names@[k])@ == sources[k].file_name@,
                forall|k: int|
                    0 <= k < it.index() ==> #[trigger] sizes@[k] == sources[k].data@.len(),
                forall|k: int|
                    0 <= k < it.index() ==> *(#[trigger] inputs@[k]) == sources[k].data,
        {
            assert(file == sources[it.index()]);
            sizes.push(file.data.len() as u32);
            names.push(file.file_name);
            inputs.push(Arc::new(file.data));
        }
        let ghost handles = inputs@;
        let outcomes: Vec<BatchOutcome> = run_batch_with(
            attempt,
            inputs,
            self.algorithms.as_slice(),
            self.skip_if_larger_or_equal,
        );
        let ghost ended = outcomes@;
        let count: usize = self.algorithms.len();
        let mut labelled: Vec<WorkerOutcome> = Vec::new();
        let mut k: usize = 0;
        for outcome in it: outcomes.into_iter()
            invariant
                it.seq() == ended,
                k == it.index(),
                labelled@.len() == k,
                ended.len() == sources.len() * configs.len(),
                ended.len() <= u32::MAX,
                count == configs.len(),
                self.algorithms@ == configs,
                names@.len() == sources.len(),
                sizes@.len() == sources.len(),
                handles.len() == sources.len(),
                forall|j: int|
                    0 <= j < sources.len() ==> (#[trigger] names@[j])@ == sources[j].file_name@,
                forall|j: int|
                    0 <= j < sources.len() ==> #[trigger] sizes@[j] == sources[j].data@.len(),
                forall|j: int|
                    0 <= j < sources.len() ==> *(#[trigger] handles[j]) == sources[j].data,
                forall|i: int, a: int|
                    #![trigger handles[i], configs[a]]
                    0 <= i < handles.len() && 0 <= a < configs.len() ==> task::can_end_in(
                        *attempt,
                        configs[a],
                        *handles[i],
                        skip,
                        ended[plan::slot(i, a, configs.len() as int)],
                    ),
                forall|j: int|
                    0 <= j < k ==> worker_outcome_for(
                        *attempt,
                        sources[j / configs.len() as int],
                        configs[j % configs.len() as int],
                        skip,
                        #[trigger] labelled@[j],
                    ),
        {
            proof {
                plan::lemma_slot_parts(k as int, sources.len() as int, count as int);
            }
            let file_index: usize = k / count;
            let algorithm_index: usize = k % count;
            assert(*handles[file_index as int] == sources[file_index as int].data);
            assert(task::can_end_in(
                *attempt,
                configs[algorithm_index as int],
                *handles[file_index as int],
                skip,
                outcome,
            ));
            labelled.push(
                WorkerOutcome {
                    file_name: names[file_index].clone(),
                    algorithm: self.algorithms[algorithm_index].algorithm,
                    original_size: sizes[file_index],
                    outcome,
                },
            );
            k = k + 1;
        }
        proof {
            assert forall|i: int, a: int|
                #![trigger sources[i], configs[a]]
                0 <= i < sources.len() && 0 <= a < configs.len() implies worker_outcome_for(
                *attempt,
                sources[i],
                configs[a],
                skip,
                labelled@[plan::slot(i, a, configs.len() as int)],
            ) by {
                let j = plan::slot(i, a, configs.len() as int);
                plan::lemma_slot_in_range(i, a, sources.len() as int, configs.len() as int);
                plan::lemma_slot_parts(j, sources.len() as int, configs.len() as int);
                plan::lemma_slot_injective(
                    i,
                    a,
                    j / configs.len() as int,
                    j % configs.len() as int,
                    configs.len() as int,
                );
            }
        }
        labelled
    }
}

/// Whether `result` shows `outcome` to the host.
pub open spec fn shows(outcome: WorkerOutcome, result: CompressResult) -> bool {
    &&& result.file_name@ == outcome.file_name@
    &&& result.algorithm@ == compress::algorithm_name(outcome.algorithm)
    &&& result.data@ == outcome.outcome.data@
    &&& result.original_size == outcome.original_size
    &&& result.compressed_size == outcome.outcome.data@.len() as u32
    &&& result.skipped == outcome.outcome.skipped
    &&& match outcome.outcome.error {
        Some(failure) => result.error matches Some(text) && error::describes(failure, text@),
        None => result.error is None,
    }
}

/// Turns one outcome into what the host receives.
pub fn show(outcome: WorkerOutcome) -> (r: CompressResult)
    ensures
        shows(outcome, r),
        r.data@ == outcome.outcome.data@,
{
    let compressed_size: u32 = outcome.outcome.data.len() as u32;
    let error: Option<String> = match outcome.outcome.error {
        Some(failure) => Some(failure.to_string()),
        None => None,
    };
    CompressResult {
        file_name: outcome.file_name,
        algorithm: outcome.algorithm.to_string(),
        data: outcome.outcome.data,
        original_size: outcome.original_size,
        compressed_size,
        skipped: outcome.outcome.skipped,
        error,
    }
}

impl CompressWorker {
    /// Turns the outcomes of a batch into what the host receives, in order.
    pub fn resolve(&self, output: Vec<WorkerOutcome>) -> (r: Vec<CompressResult>)
        ensures
            r@.len() == output@.len(),
            forall|k: int| 0 <= k < r@.len() ==> shows(output@[k], #[trigger] r@[k]),
    {
        let ghost outcomes = output@;
        let mut results: Vec<CompressResult> = Vec::new();
        for outcome in it: output.into_iter()
            invariant
                it.seq() == outcomes,
                results@.len() == it.index(),
                forall|k: int|
                    0 <= k < results@.len() ==> shows(outcomes[k], #[trigger] results@[k]),
        {
            results.push(show(outcome));
        }
        results
    }
}

/// A configuration is accepted or rejected, never both.
pub proof fn lemma_config_judged_once(config: CompressAlgorithm, error: Error)
    requires
        config_rejected_with(config, error),
    ensures
        !config_accepted(config),
{
}

/// A batch of acceptable size under acceptable configurations is not rejected.
pub proof fn lemma_good_request_not_rejected(
    files: Seq<CompressFile>,
    algorithms: Seq<CompressAlgorithm>,
    error: Error,
)
    requires
        batch_fits(files, algorithms.len()),
        forall|a: int| 0 <= a < algorithms.len() ==> config_accepted(#[trigger] algorithms[a]),
    ensures
        !request_rejected_with(files, algorithms, error),
{
}

/// A rejected batch is rejected as an invalid argument.
pub proof fn lemma_rejected_request_is_invalid_arg(
    files: Seq<CompressFile>,
    algorithms: Seq<CompressAlgorithm>,
    failure: Error,
)
    requires
        request_rejected_with(files, algorithms, failure),
    ensures
        error::status_of(failure) == error::Status::InvalidArg,
{
}

/// The host receives no data for a result that was skipped or failed.
pub proof fn lemma_no_data_without_success<F: Fn(Compressors, &BatchAlgorithm, &InputBuffer) -> Attempted>(
    attempt: F,
    file: CompressFile,
    config: BatchAlgorithm,
    skip_if_larger_or_equal: bool,
    outcome: WorkerOutcome,
    result: CompressResult,
)
    requires
        worker_outcome_for(attempt, file, config, skip_if_larger_or_equal, outcome),
        shows(outcome, result),
        result.skipped || result.error is Some,
    ensures
        result.data@ == Seq::<u8>::empty(),
        result.compressed_size == 0,
        !(result.skipped && result.error is Some),
{
}

} // verus!
