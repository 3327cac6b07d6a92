//! Running one task of a batch.

use std::sync::Arc;

use vstd::prelude::*;

use crate::compress;
use crate::compress::{Algorithm, Compressors, InputBuffer};
use crate::decode;
use crate::error;
use crate::error::Error;
use crate::scheduler::{BatchAlgorithm, BatchOutcome};

verus! {

/// Whether `outcome` reports `result` for an input of `len` bytes.
pub open spec fn reports(
    result: Result<Vec<u8>, Error>,
    len: nat,
    skip_if_larger_or_equal: bool,
    outcome: BatchOutcome,
) -> bool {
    match result {
        Ok(data) => {
            &&& outcome.skipped == (skip_if_larger_or_equal && data@.len() >= len)
            &&& outcome.data@ == if outcome.skipped {
                Seq::<u8>::empty()
            } else {
                data@
            }
            &&& outcome.error is None
        },
        Err(error) => {
            &&& outcome.data@ == Seq::<u8>::empty()
            &&& !outcome.skipped
            &&& outcome.error == Some(error)
        },
    }
}

/// Turns the result of a compression into the outcome of its task.
pub fn report(
    result: Result<Vec<u8>, Error>,
    input_len: usize,
    skip_if_larger_or_equal: bool,
) -> (r: BatchOutcome)
    ensures
        reports(result, input_len as nat, skip_if_larger_or_equal, r),
{
    match result {
        Ok(data) => if skip_if_larger_or_equal && data.len() >= input_len {
            BatchOutcome { data: Vec::new(), skipped: true, error: None }
        } else {
            BatchOutcome { data, skipped: false, error: None }
        },
        Err(error) => BatchOutcome { data: Vec::new(), skipped: false, error: Some(error) },
    }
}

/// What an attempt to compress one input gives: the encoders it was lent and
/// the result, or `None` when the compression panicked and took the encoders
/// with it.
pub type Attempted = Option<(Compressors, Result<Vec<u8>, Error>)>;

/// Whether `attempt` can be run on every input, and hands encoders back in a
/// known state.
pub open spec fn is_attempt<F: Fn(Compressors, &BatchAlgorithm, &InputBuffer) -> Attempted>(
    attempt: F,
) -> bool {
    &&& forall|compressors: Compressors, config: &BatchAlgorithm, input: &InputBuffer|
        compressors.wf() ==> #[trigger] call_requires(attempt, (compressors, config, input))
    &&& forall|
        compressors: Compressors,
        config: &BatchAlgorithm,
        input: &InputBuffer,
        given: Attempted,
    |
        #[trigger] call_ensures(attempt, (compressors, config, input), given)
            && compressors.wf() ==> (given matches Some(back) ==> back.0.wf())
}

/// Whether the encoder would panic on an input of `len` bytes.
pub open spec fn panics(config: BatchAlgorithm, len: nat) -> bool {
    compress::valid_level(config.algorithm, config.level) && !compress::buffer_fits(
        config.algorithm,
        len,
    )
}

/// Whether `result` answers the request to compress `input` as `config` says.
pub open spec fn config_answers(
    config: BatchAlgorithm,
    input: Seq<u8>,
    result: Result<Vec<u8>, Error>,
) -> bool {
    compress::answers(
        config.algorithm,
        config.level,
        config.window_bits,
        config.section_size,
        input,
        result,
    )
}

/// Whether `after` are the encoders that the request leaves of `before`.
pub open spec fn config_leaves(
    config: BatchAlgorithm,
    len: nat,
    failure: Option<Error>,
    before: Compressors,
    after: Compressors,
) -> bool {
    compress::encoders_left(
        config.algorithm,
        config.level,
        config.window_bits,
        config.section_size,
        len,
        failure,
        before,
        after,
    )
}

/// Compresses one input without a guard. An input whose worst-case output
/// buffer cannot exist counts as panicked, and is not handed to the encoder.
pub fn direct(
    compressors: Compressors,
    config: &BatchAlgorithm,
    input: &InputBuffer,
) -> (r: Attempted)
    requires
        compressors.wf(),
    ensures
        match r {
            Some(back) => {
                &&& !panics(*config, input@.len())
                &&& config_answers(*config, input@, back.1)
                &&& back.0.wf()
                &&& config_leaves(
                    *config,
                    input@.len(),
                    error::failure_of(back.1),
                    compressors,
                    back.0,
                )
            },
            None => panics(*config, input@.len()),
        },
{
    let mut compressors: Compressors = compressors;
    let valid: bool = config.algorithm.validate_level(config.level).is_ok();
    if valid && !compress::check_buffer(config.algorithm, input.len()) {
        return None;
    }
    let result: Result<Vec<u8>, Error> = compressors.compress(
        config.algorithm,
        config.level,
        config.window_bits,
        config.section_size,
        input.as_slice(),
    );
    Some((compressors, result))
}

/// The result that an attempt is reported as; a panicked one is reported as
/// such.
pub open spec fn result_of(given: Attempted, algorithm: Algorithm) -> Result<Vec<u8>, Error> {
    match given {
        Some(back) => back.1,
        None => Err(Error::CompressionPanicked(algorithm)),
    }
}

/// Whether `outcome` can come out of a task that compresses `input` as
/// `config` says through `attempt`.
pub open spec fn can_end_in<F: Fn(Compressors, &BatchAlgorithm, &InputBuffer) -> Attempted>(
    attempt: F,
    config: BatchAlgorithm,
    input: InputBuffer,
    skip_if_larger_or_equal: bool,
    outcome: BatchOutcome,
) -> bool {
    exists|compressors: Compressors, given: Attempted|
        {
            &&& compressors.wf()
            &&& #[trigger] call_ensures(attempt, (compressors, &config, &input), given)
            &&& reports(
                result_of(given, config.algorithm),
                input@.len(),
                skip_if_larger_or_equal,
                outcome,
            )
        }
}

/// Whether a task that finds the encoders `before` can end in `outcome` and
/// leave the encoders `after`: those that the attempt handed back, or fresh
/// ones after a panic.
pub open spec fn can_end_with<F: Fn(Compressors, &BatchAlgorithm, &InputBuffer) -> Attempted>(
    attempt: F,
    config: BatchAlgorithm,
    input: InputBuffer,
    skip_if_larger_or_equal: bool,
    before: Compressors,
    outcome: BatchOutcome,
    after: Compressors,
) -> bool {
    exists|given: Attempted|
        {
            &&& #[trigger] call_ensures(attempt, (before, &config, &input), given)
            &&& reports(
                result_of(given, config.algorithm),
                input@.len(),
                skip_if_larger_or_equal,
                outcome,
            )
            &&& match given {
                Some(back) => after == back.0,
                None => after.is_fresh(),
            }
        }
}

/// Runs one task through `attempt`. A panic is reported in the outcome, and
/// the encoders are replaced by fresh ones: a panicking encoder may contain an
/// unfinished stream.
pub fn run_one_with<F: Fn(Compressors, &BatchAlgorithm, &InputBuffer) -> Attempted>(
    attempt: &F,
    compressors: &mut Compressors,
    config: &BatchAlgorithm,
    input: Arc<InputBuffer>,
    skip_if_larger_or_equal: bool,
) -> (r: BatchOutcome)
    requires
        is_attempt(*attempt),
        old(compressors).wf(),
    ensures
        final(compressors).wf(),
        can_end_in(*attempt, *config, *input, skip_if_larger_or_equal, r),
        can_end_with(
            *attempt,
            *config,
            *input,
            skip_if_larger_or_equal,
            *old(compressors),
            r,
            *final(compressors),
        ),
{
    let input_len: usize = input.len();
    let mut lent: Compressors = Compressors::default();
    std::mem::swap(&mut lent, compressors);
    let ghost before = lent;
    let given: Attempted = attempt(lent, config, &*input);
    let ghost seen = given;
    let result: Result<Vec<u8>, Error> = match given {
        Some((back, result)) => {
            *compressors = back;
            result
        },
        None => Err(Error::CompressionPanicked(config.algorithm)),
    };
    let outcome: BatchOutcome = report(result, input_len, skip_if_larger_or_equal);
    assert(call_ensures(*attempt, (before, config, &*input), seen));
    outcome
}

/// Runs one task without a guard.
pub fn run_one(
    compressors: &mut Compressors,
    config: &BatchAlgorithm,
    input: Arc<InputBuffer>,
    skip_if_larger_or_equal: bool,
) -> (r: BatchOutcome)
    requires
        old(compressors).wf(),
    ensures
        final(compressors).wf(),
        task_ends_in(*config, input@, skip_if_larger_or_equal, r),
        panics(*config, input@.len()) ==> final(compressors).is_fresh(),
        !panics(*config, input@.len()) ==> config_leaves(
            *config,
            input@.len(),
            r.error,
            *old(compressors),
            *final(compressors),
        ),
{
    let ghost source = input;
    let outcome: BatchOutcome = run_one_with(
        &direct,
        compressors,
        config,
        input,
        skip_if_larger_or_equal,
    );
    proof {
        lemma_direct_task(*config, &*source, skip_if_larger_or_equal, outcome);
    }
    outcome
}

/// Whether `outcome` is what a task owes that compresses `input` as `config`
/// says: the reason of a rejected request, a panic where the encoder's buffer
/// cannot exist, and otherwise the compressed bytes, or that they are not
/// smaller than the input, or the failure of the encoder.
pub open spec fn task_ends_in(
    config: BatchAlgorithm,
    input: Seq<u8>,
    skip_if_larger_or_equal: bool,
    outcome: BatchOutcome,
) -> bool {
    let rejection = compress::rejection(
        config.algorithm,
        config.level,
        config.window_bits,
        config.section_size,
    );
    let bytes = compress::compressed(
        config.algorithm,
        config.level,
        config.window_bits,
        config.section_size,
        input,
    );
    match outcome.error {
        Some(error) => {
            &&& outcome.data@ == Seq::<u8>::empty()
            &&& !outcome.skipped
            &&& if panics(config, input.len()) {
                error == Error::CompressionPanicked(config.algorithm)
            } else {
                match rejection {
                    Some(reason) => error == reason,
                    None => compress::encoder_failure(config.algorithm, error),
                }
            }
        },
        None => {
            &&& !panics(config, input.len())
            &&& rejection is None
            &&& decode::decoded(config.algorithm, bytes) == Some(input)
            &&& outcome.skipped == (skip_if_larger_or_equal && bytes.len() >= input.len())
            &&& outcome.data@ == if outcome.skipped {
                Seq::<u8>::empty()
            } else {
                bytes
            }
        },
    }
}

/// What a task without a guard can end in is what it owes.
pub proof fn lemma_direct_task(
    config: BatchAlgorithm,
    input: &InputBuffer,
    skip_if_larger_or_equal: bool,
    outcome: BatchOutcome,
)
    requires
        can_end_in(direct, config, *input, skip_if_larger_or_equal, outcome),
    ensures
        task_ends_in(config, input@, skip_if_larger_or_equal, outcome),
{
}

/// An outcome is a failure, a skip or data, and only one of them: a failure
/// has no data and is not skipped, and a skip has no data.
pub proof fn lemma_outcome_is_one_of_three(
    result: Result<Vec<u8>, Error>,
    len: nat,
    skip_if_larger_or_equal: bool,
    outcome: BatchOutcome,
)
    requires
        reports(result, len, skip_if_larger_or_equal, outcome),
    ensures
        outcome.error is Some ==> !outcome.skipped && outcome.data@ == Seq::<u8>::empty(),
        outcome.skipped ==> outcome.error is None && outcome.data@ == Seq::<u8>::empty()
            && skip_if_larger_or_equal,
        outcome.error is None && !outcome.skipped ==> {
            &&& result matches Ok(data)
            &&& outcome.data@ == data@
        },
{
}

/// When skipping is requested, data that is handed out is smaller than its
/// input; when it is not, nothing is skipped.
pub proof fn lemma_skip_keeps_only_smaller(
    config: BatchAlgorithm,
    input: Seq<u8>,
    skip_if_larger_or_equal: bool,
    outcome: BatchOutcome,
)
    requires
        task_ends_in(config, input, skip_if_larger_or_equal, outcome),
    ensures
        skip_if_larger_or_equal && outcome.error is None && !outcome.skipped
            ==> outcome.data@.len() < input.len(),
        !skip_if_larger_or_equal ==> !outcome.skipped,
{
}

/// Whether an outcome reports the failure of an encoder.
pub open spec fn encoder_failed(config: BatchAlgorithm, outcome: BatchOutcome) -> bool {
    outcome.error matches Some(error) && compress::encoder_failure(config.algorithm, error)
}

/// Whether two outcomes are the same.
pub open spec fn same_outcome(first: BatchOutcome, second: BatchOutcome) -> bool {
    &&& first.data@ == second.data@
    &&& first.skipped == second.skipped
    &&& first.error == second.error
}

/// Two runs of a task have the same outcome, however the batches around them
/// were spread over threads, unless an encoder fails.
pub proof fn lemma_task_deterministic(
    config: BatchAlgorithm,
    input: Seq<u8>,
    skip_if_larger_or_equal: bool,
    first: BatchOutcome,
    second: BatchOutcome,
)
    requires
        task_ends_in(config, input, skip_if_larger_or_equal, first),
        task_ends_in(config, input, skip_if_larger_or_equal, second),
        !encoder_failed(config, first),
        !encoder_failed(config, second),
    ensures
        same_outcome(first, second),
{
}

/// A task without skipping hands out what compressing its input alone gives,
/// its bytes or its error, unless an encoder fails or panics.
pub proof fn lemma_task_matches_compress(
    config: BatchAlgorithm,
    input: Seq<u8>,
    outcome: BatchOutcome,
    alone: Result<Vec<u8>, Error>,
)
    requires
        task_ends_in(config, input, false, outcome),
        config_answers(config, input, alone),
        !encoder_failed(config, outcome),
        !compress::failed(config.algorithm, alone),
        !panics(config, input.len()),
    ensures
        reports(alone, input.len(), false, outcome),
{
}

/// A task that is to skip has the outcome of one that is not, but for data that
/// is not smaller than its input: that is skipped. This holds unless an encoder
/// fails.
pub proof fn lemma_skip_changes_only_larger(
    config: BatchAlgorithm,
    input: Seq<u8>,
    kept: BatchOutcome,
    skipping: BatchOutcome,
)
    requires
        task_ends_in(config, input, false, kept),
        task_ends_in(config, input, true, skipping),
        !encoder_failed(config, kept),
        !encoder_failed(config, skipping),
    ensures
        if kept.error is None && kept.data@.len() >= input.len() {
            skipping.skipped && skipping.data@ == Seq::<u8>::empty() && skipping.error is None
        } else {
            same_outcome(kept, skipping)
        },
{
}

/// Decoding the data of a task gives its input back.
pub proof fn lemma_task_round_trip(
    config: BatchAlgorithm,
    input: Seq<u8>,
    skip_if_larger_or_equal: bool,
    outcome: BatchOutcome,
    bytes: Seq<u8>,
)
    requires
        task_ends_in(config, input, skip_if_larger_or_equal, outcome),
        outcome.error is None,
        !outcome.skipped,
        decode::decoded(config.algorithm, outcome.data@) == Some(bytes),
    ensures
        bytes == input,
{
}

} // verus!
