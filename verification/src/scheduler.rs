//! Parallel batch scheduling on top of rayon.

pub mod plan;
pub mod scatter;
pub mod task;

use std::sync::Arc;

use rayon::iter::{IntoParallelIterator, ParallelIterator};

use vstd::prelude::*;

use crate::compress;
use crate::compress::{Algorithm, Compressors, InputBuffer};
use crate::error::Error;
use crate::scheduler::plan::{prepare_groups, BatchFile, BatchGroup};
use crate::scheduler::scatter::scatter_in_place;
use crate::scheduler::task::{direct, run_one_with, Attempted};

verus! {

/// Algorithm settings shared by every file in a batch.
#[derive(Debug, Clone, Copy, PartialEq, Eq, Structural)]
pub struct BatchAlgorithm {
    pub algorithm: Algorithm,
    pub level: u32,
    pub window_bits: Option<u32>,
    pub section_size: Option<u32>,
}

/// The outcome of compressing one file with one algorithm configuration.
///
/// Exactly one of the following holds:
/// - `error` is `Some`: the task failed, `data` is empty and `skipped` is false;
/// - `skipped` is true: compressed output was >= input size and skipping was
///   requested, `data` is empty;
/// - otherwise `data` holds the compressed bytes.
#[derive(Debug)]
pub struct BatchOutcome {
    pub data: Vec<u8>,
    pub skipped: bool,
    pub error: Option<Error>,
}

impl Default for BatchOutcome {
    fn default() -> (r: Self)
        ensures
            r.data@ == Seq::<u8>::empty(),
            !r.skipped,
            r.error is None,
    {
        BatchOutcome { data: Vec::new(), skipped: false, error: None }
    }
}

/// Runs the task of one file and pairs its outcome with the index it goes to.
fn run_file<F: Fn(Compressors, &BatchAlgorithm, &InputBuffer) -> Attempted + Sync>(
    attempt: &F,
    compressors: &mut Compressors,
    config: &BatchAlgorithm,
    file: BatchFile,
    skip_if_larger_or_equal: bool,
) -> (r: (u32, BatchOutcome))
    requires
        task::is_attempt(*attempt),
        old(compressors).wf(),
    ensures
        final(compressors).wf(),
        r.0 == file.result_index,
        task::can_end_in(*attempt, *config, *file.input, skip_if_larger_or_equal, r.1),
{
    (
        file.result_index,
        run_one_with(attempt, compressors, config, file.input, skip_if_larger_or_equal),
    )
}

/// Rayon's `flat_map` over the groups and `map_with` over the files of each,
/// collected by `unzip`, which keeps the order of the items. Every task runs
/// once, through `run_file`, on encoders that are a clone of
/// `Compressors::default()` or that an earlier task has left; which of the two
/// depends on how rayon splits the work.
#[verifier::external_body]
fn run_groups<'a, F: Fn(Compressors, &BatchAlgorithm, &InputBuffer) -> Attempted + Sync>(
    attempt: &F,
    groups: Vec<BatchGroup<'a>>,
    skip_if_larger_or_equal: bool,
) -> (r: (Vec<u32>, Vec<BatchOutcome>))
    requires
        task::is_attempt(*attempt),
    ensures
        r.0@.len() == plan::planned(groups@).len(),
        r.1@.len() == plan::planned(groups@).len(),
        forall|p: int|
            0 <= p < r.0@.len() ==> #[trigger] r.0@[p] == plan::planned(groups@)[p].1.result_index,
        forall|p: int|
            0 <= p < r.1@.len() ==> task::can_end_in(
                *attempt,
                plan::planned(groups@)[p].0,
                *plan::planned(groups@)[p].1.input,
                skip_if_larger_or_equal,
                #[trigger] r.1@[p],
            ),
{
    groups.into_par_iter().flat_map(
        |group|
            group.files.into_par_iter().map_with(
                Compressors::default(),
                move |compressors, file|
                    run_file(attempt, compressors, group.config, file, skip_if_larger_or_equal),
            ),
    ).unzip()
}

/// Compress every file with every algorithm on the caller's ambient rayon
/// pool, each through `attempt`.
///
/// Schedule brotli, then zstd, then gzip, with files largest first inside each
/// configuration. Return outcomes in file order, then configuration order.
///
/// `skip_if_larger_or_equal` discards compressed output that would be at least
/// as large as its input. A failure or panic is reported per task and never
/// aborts the batch.
pub fn run_batch_with<F: Fn(Compressors, &BatchAlgorithm, &InputBuffer) -> Attempted + Sync>(
    attempt: &F,
    inputs: Vec<Arc<InputBuffer>>,
    algorithms: &[BatchAlgorithm],
    skip_if_larger_or_equal: bool,
) -> (r: Vec<BatchOutcome>)
    requires
        task::is_attempt(*attempt),
        inputs@.len() * algorithms@.len() <= u32::MAX,
    ensures
        r@.len() == inputs@.len() * algorithms@.len(),
        inputs@.len() == 0 || algorithms@.len() == 0 ==> r@.len() == 0,
        forall|i: int, a: int|
            #![trigger inputs@[i], algorithms@[a]]
            0 <= i < inputs@.len() && 0 <= a < algorithms@.len() ==> task::can_end_in(
                *attempt,
                algorithms@[a],
                *inputs@[i],
                skip_if_larger_or_equal,
                r@[plan::slot(i, a, algorithms@.len() as int)],
            ),
{
    let ghost sources = inputs@;
    let groups: Vec<BatchGroup<'_>> = prepare_groups(inputs, algorithms);
    let ghost schedule = groups@;
    let ghost (files, configs) = choose|files: Seq<int>, configs: Seq<int>|
        plan::groups_follow(schedule, sources, algorithms@, files, configs);
    let (mut order, mut outcomes): (Vec<u32>, Vec<BatchOutcome>) = run_groups(
        attempt,
        groups,
        skip_if_larger_or_equal,
    );
    let ghost first_order = order@;
    let ghost raw = outcomes@;
    proof {
        plan::lemma_results_cover_batch(schedule, sources, algorithms@, files, configs, order@);
    }
    scatter_in_place(outcomes.as_mut_slice(), order.as_mut_slice());
    proof {
        let count = algorithms@.len() as int;
        assert forall|i: int, a: int|
            #![trigger sources[i], algorithms@[a]]
            0 <= i < sources.len() && 0 <= a < algorithms@.len() implies task::can_end_in(
            *attempt,
            algorithms@[a],
            *sources[i],
            skip_if_larger_or_equal,
            outcomes@[plan::slot(i, a, count)],
        ) by {
            let k = plan::slot(i, a, count);
            plan::lemma_slot_in_range(i, a, sources.len() as int, count);
            assert(scatter::sent_to(raw, first_order, outcomes@[k], k));
            let p = choose|p: int|
                0 <= p < first_order.len() && #[trigger] first_order[p] == k && outcomes@[k]
                    == raw[p];
            let (f, g) = plan::lemma_task_at(schedule, sources, algorithms@, files, configs, p);
            plan::lemma_slot_injective(files[f], configs[g], i, a, count);
            assert(raw[p] == outcomes@[k]);
        }
    }
    outcomes
}

/// Whether `outcomes` are what a batch owes: one outcome for every file and
/// configuration, in file order, then configuration order.
pub open spec fn batch_ends_in(
    inputs: Seq<Arc<InputBuffer>>,
    algorithms: Seq<BatchAlgorithm>,
    skip_if_larger_or_equal: bool,
    outcomes: Seq<BatchOutcome>,
) -> bool {
    &&& outcomes.len() == inputs.len() * algorithms.len()
    &&& forall|i: int, a: int|
        #![trigger inputs[i], algorithms[a]]
        0 <= i < inputs.len() && 0 <= a < algorithms.len() ==> task::task_ends_in(
            algorithms[a],
            inputs[i]@,
            skip_if_larger_or_equal,
            outcomes[plan::slot(i, a, algorithms.len() as int)],
        )
}

/// Whether some task of a batch reports the failure of an encoder.
pub open spec fn batch_failed(
    algorithms: Seq<BatchAlgorithm>,
    outcomes: Seq<BatchOutcome>,
) -> bool {
    exists|k: int|
        0 <= k < outcomes.len() && #[trigger] task::encoder_failed(
            algorithms[k % (algorithms.len() as int)],
            outcomes[k],
        )
}

/// The outcome at index `k` is that of its file and configuration.
proof fn lemma_outcome_at(
    inputs: Seq<Arc<InputBuffer>>,
    algorithms: Seq<BatchAlgorithm>,
    skip_if_larger_or_equal: bool,
    outcomes: Seq<BatchOutcome>,
    k: int,
)
    requires
        batch_ends_in(inputs, algorithms, skip_if_larger_or_equal, outcomes),
        0 <= k < outcomes.len(),
    ensures
        task::task_ends_in(
            algorithms[k % (algorithms.len() as int)],
            inputs[k / (algorithms.len() as int)]@,
            skip_if_larger_or_equal,
            outcomes[k],
        ),
        !batch_failed(algorithms, outcomes) ==> !task::encoder_failed(
            algorithms[k % (algorithms.len() as int)],
            outcomes[k],
        ),
{
    let count = algorithms.len() as int;
    plan::lemma_slot_parts(k, inputs.len() as int, count);
    let file = inputs[k / count];
    let config = algorithms[k % count];
    assert(task::task_ends_in(config, file@, skip_if_larger_or_equal, outcomes[k]));
}

/// Two runs of a batch give the same outcomes in the same order, on pools of
/// any width, unless an encoder fails.
pub proof fn lemma_batch_deterministic(
    inputs: Seq<Arc<InputBuffer>>,
    algorithms: Seq<BatchAlgorithm>,
    skip_if_larger_or_equal: bool,
    first: Seq<BatchOutcome>,
    second: Seq<BatchOutcome>,
)
    requires
        batch_ends_in(inputs, algorithms, skip_if_larger_or_equal, first),
        batch_ends_in(inputs, algorithms, skip_if_larger_or_equal, second),
        !batch_failed(algorithms, first),
        !batch_failed(algorithms, second),
    ensures
        first.len() == second.len(),
        forall|k: int|
            0 <= k < first.len() ==> task::same_outcome(#[trigger] first[k], second[k]),
{
    assert forall|k: int| 0 <= k < first.len() implies task::same_outcome(
        #[trigger] first[k],
        second[k],
    ) by {
        lemma_outcome_at(inputs, algorithms, skip_if_larger_or_equal, first, k);
        lemma_outcome_at(inputs, algorithms, skip_if_larger_or_equal, second, k);
        task::lemma_task_deterministic(
            algorithms[k % (algorithms.len() as int)],
            inputs[k / (algorithms.len() as int)]@,
            skip_if_larger_or_equal,
            first[k],
            second[k],
        );
    }
}

/// A batch that is to skip gives the outcomes of one that is not, but for data
/// that is not smaller than its input: that is skipped. This holds unless an
/// encoder fails.
pub proof fn lemma_batch_skips_only_larger(
    inputs: Seq<Arc<InputBuffer>>,
    algorithms: Seq<BatchAlgorithm>,
    kept: Seq<BatchOutcome>,
    skipping: Seq<BatchOutcome>,
)
    requires
        batch_ends_in(inputs, algorithms, false, kept),
        batch_ends_in(inputs, algorithms, true, skipping),
        !batch_failed(algorithms, kept),
        !batch_failed(algorithms, skipping),
    ensures
        kept.len() == skipping.len(),
        forall|k: int|
            #![trigger skipping[k]]
            0 <= k < kept.len() ==> if kept[k].error is None && kept[k].data@.len()
                >= inputs[k / (algorithms.len() as int)]@.len() {
                skipping[k].skipped && skipping[k].data@ == Seq::<u8>::empty()
                    && skipping[k].error is None
            } else {
                task::same_outcome(kept[k], skipping[k])
            },
{
    assert forall|k: int| #![trigger skipping[k]] 0 <= k < kept.len() implies if kept[k].error
        is None && kept[k].data@.len() >= inputs[k / (algorithms.len() as int)]@.len() {
        skipping[k].skipped && skipping[k].data@ == Seq::<u8>::empty() && skipping[k].error is None
    } else {
        task::same_outcome(kept[k], skipping[k])
    } by {
        lemma_outcome_at(inputs, algorithms, false, kept, k);
        lemma_outcome_at(inputs, algorithms, true, skipping, k);
        task::lemma_skip_changes_only_larger(
            algorithms[k % (algorithms.len() as int)],
            inputs[k / (algorithms.len() as int)]@,
            kept[k],
            skipping[k],
        );
    }
}

/// The outcome of a file and a configuration is what compressing the file
/// alone gives, its bytes or its error, unless an encoder fails or panics.
pub proof fn lemma_batch_matches_compress(
    inputs: Seq<Arc<InputBuffer>>,
    algorithms: Seq<BatchAlgorithm>,
    outcomes: Seq<BatchOutcome>,
    i: int,
    a: int,
    alone: Result<Vec<u8>, Error>,
)
    requires
        batch_ends_in(inputs, algorithms, false, outcomes),
        0 <= i < inputs.len(),
        0 <= a < algorithms.len(),
        task::config_answers(algorithms[a], inputs[i]@, alone),
        !task::encoder_failed(
            algorithms[a],
            outcomes[plan::slot(i, a, algorithms.len() as int)],
        ),
        !compress::failed(algorithms[a].algorithm, alone),
        !task::panics(algorithms[a], inputs[i]@.len()),
    ensures
        task::reports(
            alone,
            inputs[i]@.len(),
            false,
            outcomes[plan::slot(i, a, algorithms.len() as int)],
        ),
{
    task::lemma_task_matches_compress(
        algorithms[a],
        inputs[i]@,
        outcomes[plan::slot(i, a, algorithms.len() as int)],
        alone,
    );
}

/// Compress every file with every algorithm on the caller's ambient rayon
/// pool.
///
/// Schedule brotli, then zstd, then gzip, with files largest first inside each
/// configuration. Return outcomes in file order, then configuration order.
///
/// `skip_if_larger_or_equal` discards compressed output that would be at least
/// as large as its input. A failure is reported per task and never aborts the
/// batch.
pub fn run_batch(
    inputs: Vec<Arc<InputBuffer>>,
    algorithms: &[BatchAlgorithm],
    skip_if_larger_or_equal: bool,
) -> (r: Vec<BatchOutcome>)
    requires
        inputs@.len() * algorithms@.len() <= u32::MAX,
    ensures
        batch_ends_in(inputs@, algorithms@, skip_if_larger_or_equal, r@),
        inputs@.len() == 0 || algorithms@.len() == 0 ==> r@.len() == 0,
{
    let ghost sources = inputs@;
    let outcomes: Vec<BatchOutcome> = run_batch_with(
        &direct,
        inputs,
        algorithms,
        skip_if_larger_or_equal,
    );
    proof {
        assert forall|i: int, a: int|
            #![trigger sources[i], algorithms@[a]]
            0 <= i < sources.len() && 0 <= a < algorithms@.len() implies task::task_ends_in(
            algorithms@[a],
            sources[i]@,
            skip_if_larger_or_equal,
            outcomes@[plan::slot(i, a, algorithms@.len() as int)],
        ) by {
            task::lemma_direct_task(
                algorithms@[a],
                &*sources[i],
                skip_if_larger_or_equal,
                outcomes@[plan::slot(i, a, algorithms@.len() as int)],
            );
        }
    }
    outcomes
}

} // verus!
