//! The order in which a batch runs its tasks.

use std::sync::Arc;

use vstd::prelude::*;

use crate::compress::{Algorithm, InputBuffer};
use crate::scheduler::scatter;
use crate::scheduler::BatchAlgorithm;

verus! {

/// One file of a group, and the index of its result in the batch.
pub struct BatchFile {
    pub result_index: u32,
    pub input: Arc<InputBuffer>,
}

/// The files of a batch under one configuration.
pub struct BatchGroup<'a> {
    pub config: &'a BatchAlgorithm,
    pub files: Vec<BatchFile>,
}

/// Scheduling rank of an algorithm.
pub open spec fn rank(algorithm: Algorithm) -> u8 {
    match algorithm {
        Algorithm::Brotli => 0,
        Algorithm::Zstd => 1,
        Algorithm::Gzip => 2,
    }
}

/// Scheduling rank of an algorithm: brotli runs first, zstd next, gzip last.
///
/// Rayon hands items to workers roughly in iteration order, so putting the
/// slowest algorithm at the front lets its long tail overlap with the cheap
/// work instead of trailing behind it.
pub fn algorithm_rank(algorithm: Algorithm) -> (r: u8)
    ensures
        r == rank(algorithm),
{
    match algorithm {
        Algorithm::Brotli => 0,
        Algorithm::Zstd => 1,
        Algorithm::Gzip => 2,
    }
}

/// Whether file `a` is scheduled before file `b`: the larger one first, and of
/// two equally large ones the earlier one.
pub open spec fn file_before(inputs: Seq<Arc<InputBuffer>>, a: int, b: int) -> bool {
    ||| inputs[a]@.len() > inputs[b]@.len()
    ||| inputs[a]@.len() == inputs[b]@.len() && a < b
}

/// Whether configuration `a` is scheduled before configuration `b`: the lower
/// rank first, and of two equal ranks the earlier one.
pub open spec fn config_before(algorithms: Seq<BatchAlgorithm>, a: int, b: int) -> bool {
    ||| rank(algorithms[a].algorithm) < rank(algorithms[b].algorithm)
    ||| rank(algorithms[a].algorithm) == rank(algorithms[b].algorithm) && a < b
}

/// Whether `order` lists every file once, in scheduling order.
pub open spec fn is_file_order(inputs: Seq<Arc<InputBuffer>>, order: Seq<int>) -> bool {
    &&& order.len() == inputs.len()
    &&& forall|i: int| 0 <= i < order.len() ==> 0 <= #[trigger] order[i] < inputs.len()
    &&& forall|i: int, j: int|
        0 <= i < j < order.len() ==> file_before(inputs, #[trigger] order[i], #[trigger] order[j])
}

/// Whether `order` lists every configuration once, in scheduling order.
pub open spec fn is_config_order(algorithms: Seq<BatchAlgorithm>, order: Seq<int>) -> bool {
    &&& order.len() == algorithms.len()
    &&& forall|i: int| 0 <= i < order.len() ==> 0 <= #[trigger] order[i] < algorithms.len()
    &&& forall|i: int, j: int|
        0 <= i < j < order.len() ==> config_before(
            algorithms,
            #[trigger] order[i],
            #[trigger] order[j],
        )
}

/// The index of the result for a file and one of `count` configurations:
/// results follow file order, then configuration order within each file.
pub open spec fn slot(file: int, config: int, count: int) -> int {
    file * count + config
}

/// Whether `groups` schedules `inputs` under `algorithms`, with files and
/// configurations in the given orders.
pub open spec fn groups_follow(
    groups: Seq<BatchGroup>,
    inputs: Seq<Arc<InputBuffer>>,
    algorithms: Seq<BatchAlgorithm>,
    files: Seq<int>,
    configs: Seq<int>,
) -> bool {
    &&& is_file_order(inputs, files)
    &&& is_config_order(algorithms, configs)
    &&& groups.len() == algorithms.len()
    &&& forall|g: int|
        0 <= g < groups.len() ==> group_follows(
            #[trigger] groups[g],
            inputs,
            algorithms,
            files,
            configs[g],
        )
}

/// Whether `group` holds every file, in the given order, under the
/// configuration with index `config`.
pub open spec fn group_follows(
    group: BatchGroup,
    inputs: Seq<Arc<InputBuffer>>,
    algorithms: Seq<BatchAlgorithm>,
    files: Seq<int>,
    config: int,
) -> bool {
    &&& *group.config == algorithms[config]
    &&& group.files@.len() == inputs.len()
    &&& forall|f: int|
        0 <= f < inputs.len() ==> {
            &&& (#[trigger] group.files@[f]).input == inputs[files[f]]
            &&& group.files@[f].result_index == slot(files[f], config, algorithms.len() as int)
        }
}

/// Lexicographic order of pairs.
pub open spec fn pair_at_most(a: (usize, usize), b: (usize, usize)) -> bool {
    a.0 < b.0 || a.0 == b.0 && a.1 <= b.1
}

/// `<[T]>::sort_unstable` on pairs: the same pairs in ascending order.
#[verifier::external_body]
fn sort_pairs(pairs: &mut Vec<(usize, usize)>)
    ensures
        final(pairs)@.to_multiset() == old(pairs)@.to_multiset(),
        forall|i: int, j: int|
            0 <= i < j < final(pairs)@.len() ==> pair_at_most(
                #[trigger] final(pairs)@[i],
                #[trigger] final(pairs)@[j],
            ),
{
    pairs.sort_unstable();
}

/// `Arc::clone`: another handle to the same buffer.
#[verifier::external_body]
fn share(input: &Arc<InputBuffer>) -> (r: Arc<InputBuffer>)
    ensures
        r == *input,
{
    Arc::clone(input)
}

/// Sorting pairs whose second parts are the indices of a list keeps the pairs
/// and makes them strictly ascending.
proof fn lemma_sorted_pairs(before: Seq<(usize, usize)>, after: Seq<(usize, usize)>)
    requires
        forall|i: int| 0 <= i < before.len() ==> (#[trigger] before[i]).1 == i,
        after.to_multiset() == before.to_multiset(),
        forall|i: int, j: int|
            0 <= i < j < after.len() ==> pair_at_most(#[trigger] after[i], #[trigger] after[j]),
    ensures
        after.len() == before.len(),
        forall|i: int|
            0 <= i < after.len() ==> (#[trigger] after[i]).1 < before.len() && after[i]
                == before[after[i].1 as int],
        forall|i: int, j: int|
            0 <= i < j < after.len() ==> (#[trigger] after[i]).0 < (#[trigger] after[j]).0
                || after[i].0 == after[j].0 && after[i].1 < after[j].1,
{
    broadcast use vstd::seq_lib::group_to_multiset_ensures;

    assert(before.no_duplicates());
    before.lemma_multiset_has_no_duplicates();
    assert(before.to_multiset().len() == before.len());
    assert(after.to_multiset().len() == after.len());
    after.lemma_multiset_has_no_duplicates_conv();
    assert forall|i: int| 0 <= i < after.len() implies (#[trigger] after[i]).1 < before.len()
        && after[i] == before[after[i].1 as int] by {
        assert(after.to_multiset().contains(after[i]));
        assert(before.contains(after[i]));
    }
}

/// The indices of `inputs` in scheduling order.
fn order_files(inputs: &Vec<Arc<InputBuffer>>) -> (r: Vec<usize>)
    ensures
        is_file_order(inputs@, r@.map_values(|i: usize| i as int)),
{
    let mut keys: Vec<(usize, usize)> = Vec::new();
    let mut i: usize = 0;
    while i < inputs.len()
        invariant
            i <= inputs@.len(),
            keys@.len() == i,
            forall|k: int|
                0 <= k < i ==> (#[trigger] keys@[k]).1 == k && keys@[k].0 == usize::MAX
                    - inputs@[k]@.len(),
        decreases inputs@.len() - i,
    {
        keys.push((usize::MAX - inputs[i].len(), i));
        i = i + 1;
    }
    let ghost before = keys@;
    sort_pairs(&mut keys);
    proof {
        lemma_sorted_pairs(before, keys@);
    }
    second_parts(&keys)
}

/// The second parts of `pairs`.
fn second_parts(pairs: &Vec<(usize, usize)>) -> (r: Vec<usize>)
    ensures
        r@.len() == pairs@.len(),
        forall|k: int| 0 <= k < r@.len() ==> #[trigger] r@[k] == pairs@[k].1,
{
    let mut parts: Vec<usize> = Vec::new();
    let mut i: usize = 0;
    while i < pairs.len()
        invariant
            i <= pairs@.len(),
            parts@.len() == i,
            forall|k: int| 0 <= k < i ==> #[trigger] parts@[k] == pairs@[k].1,
        decreases pairs@.len() - i,
    {
        parts.push(pairs[i].1);
        i = i + 1;
    }
    parts
}

/// The indices of `algorithms` in scheduling order.
fn order_configs(algorithms: &[BatchAlgorithm]) -> (r: Vec<usize>)
    ensures
        is_config_order(algorithms@, r@.map_values(|i: usize| i as int)),
{
    let mut keys: Vec<(usize, usize)> = Vec::new();
    let mut i: usize = 0;
    while i < algorithms.len()
        invariant
            i <= algorithms@.len(),
            keys@.len() == i,
            forall|k: int|
                0 <= k < i ==> (#[trigger] keys@[k]).1 == k && keys@[k].0 == rank(
                    algorithms@[k].algorithm,
                ),
        decreases algorithms@.len() - i,
    {
        keys.push((algorithm_rank(algorithms[i].algorithm) as usize, i));
        i = i + 1;
    }
    let ghost before = keys@;
    sort_pairs(&mut keys);
    proof {
        lemma_sorted_pairs(before, keys@);
    }
    second_parts(&keys)
}

/// Sort algorithms and files once, then build the groups directly.
/// Each task owns a source handle, so the last task for a file releases it.
pub fn prepare_groups<'a>(
    inputs: Vec<Arc<InputBuffer>>,
    algorithms: &'a [BatchAlgorithm],
) -> (r: Vec<BatchGroup<'a>>)
    requires
        inputs@.len() * algorithms@.len() <= u32::MAX,
    ensures
        exists|files: Seq<int>, configs: Seq<int>|
            groups_follow(r@, inputs@, algorithms@, files, configs),
{
    let file_order: Vec<usize> = order_files(&inputs);
    let config_order: Vec<usize> = order_configs(algorithms);
    let ghost files = file_order@.map_values(|i: usize| i as int);
    let ghost configs = config_order@.map_values(|i: usize| i as int);
    assert forall|f: int| 0 <= f < inputs@.len() implies #[trigger] file_order@[f]
        < inputs@.len() by {
        assert(0 <= files[f] < inputs@.len());
    }
    let mut groups: Vec<BatchGroup<'a>> = Vec::new();
    let mut g: usize = 0;
    while g < config_order.len()
        invariant
            g <= config_order@.len(),
            groups@.len() == g,
            inputs@.len() * algorithms@.len() <= u32::MAX,
            file_order@.len() == inputs@.len(),
            forall|f: int| 0 <= f < inputs@.len() ==> #[trigger] file_order@[f] < inputs@.len(),
            is_config_order(algorithms@, configs),
            files == file_order@.map_values(|i: usize| i as int),
            configs == config_order@.map_values(|i: usize| i as int),
            forall|k: int|
                0 <= k < g ==> group_follows(
                    #[trigger] groups@[k],
                    inputs@,
                    algorithms@,
                    files,
                    configs[k],
                ),
        decreases config_order@.len() - g,
    {
        let algorithm_index: usize = config_order[g];
        assert(configs[g as int] == algorithm_index);
        groups.push(prepare_group(&inputs, algorithms, &file_order, algorithm_index));
        g = g + 1;
    }
    assert(groups_follow(groups@, inputs@, algorithms@, files, configs));
    groups
}

/// The group of every file, in the given order, under one configuration.
fn prepare_group<'a>(
    inputs: &Vec<Arc<InputBuffer>>,
    algorithms: &'a [BatchAlgorithm],
    file_order: &Vec<usize>,
    algorithm_index: usize,
) -> (r: BatchGroup<'a>)
    requires
        inputs@.len() * algorithms@.len() <= u32::MAX,
        algorithm_index < algorithms@.len(),
        file_order@.len() == inputs@.len(),
        forall|f: int| 0 <= f < inputs@.len() ==> #[trigger] file_order@[f] < inputs@.len(),
    ensures
        group_follows(
            r,
            inputs@,
            algorithms@,
            file_order@.map_values(|i: usize| i as int),
            algorithm_index as int,
        ),
{
    let mut files: Vec<BatchFile> = Vec::new();
    let mut f: usize = 0;
    while f < file_order.len()
        invariant
            f <= file_order@.len(),
            files@.len() == f,
            inputs@.len() * algorithms@.len() <= u32::MAX,
            algorithm_index < algorithms@.len(),
            file_order@.len() == inputs@.len(),
            forall|k: int| 0 <= k < inputs@.len() ==> #[trigger] file_order@[k] < inputs@.len(),
            forall|k: int|
                0 <= k < f ==> {
                    &&& (#[trigger] files@[k]).input == inputs@[file_order@[k] as int]
                    &&& files@[k].result_index == slot(
                        file_order@[k] as int,
                        algorithm_index as int,
                        algorithms@.len() as int,
                    )
                },
        decreases file_order@.len() - f,
    {
        let file_index: usize = file_order[f];
        proof {
            lemma_slot_in_range(
                file_index as int,
                algorithm_index as int,
                inputs@.len() as int,
                algorithms@.len() as int,
            );
        }
        let result_index: usize = file_index * algorithms.len() + algorithm_index;
        files.push(
            BatchFile { result_index: result_index as u32, input: share(&inputs[file_index]) },
        );
        f = f + 1;
    }
    BatchGroup { config: &algorithms[algorithm_index], files }
}

/// The slot of a file and a configuration lies in the batch.
pub proof fn lemma_slot_in_range(file: int, config: int, files: int, count: int)
    requires
        0 <= file < files,
        0 <= config < count,
    ensures
        0 <= file * count <= slot(file, config, count) < files * count,
{
    assert(0 <= file * count && file * count + count <= files * count) by (nonlinear_arith)
        requires
            0 <= file < files,
            0 < count,
    ;
}

/// A slot and the file and configuration that it belongs to.
pub proof fn lemma_slot_parts(k: int, files: int, count: int)
    requires
        0 <= k < files * count,
        0 <= files,
        0 <= count,
    ensures
        count > 0,
        0 <= k / count < files,
        0 <= k % count < count,
        k == slot(k / count, k % count, count),
{
    assert(count > 0) by (nonlinear_arith)
        requires
            0 <= k < files * count,
            0 <= count,
    ;
    vstd::arithmetic::div_mod::lemma_fundamental_div_mod(k, count);
    assert(k == (k / count) * count + k % count) by (nonlinear_arith)
        requires
            k == count * (k / count) + k % count,
    ;
    assert(0 <= k / count < files) by (nonlinear_arith)
        requires
            0 <= k < files * count,
            count > 0,
    ;
}

/// Different files or configurations have different slots.
pub proof fn lemma_slot_injective(
    file: int,
    config: int,
    other_file: int,
    other_config: int,
    count: int,
)
    requires
        0 <= config < count,
        0 <= other_config < count,
        slot(file, config, count) == slot(other_file, other_config, count),
    ensures
        file == other_file,
        config == other_config,
{
    if file < other_file {
        assert(file * count + count <= other_file * count) by (nonlinear_arith)
            requires
                file < other_file,
                0 < count,
        ;
    } else if other_file < file {
        assert(other_file * count + count <= file * count) by (nonlinear_arith)
            requires
                other_file < file,
                0 < count,
        ;
    }
}

/// The tasks of `groups`, group by group.
pub open spec fn planned(groups: Seq<BatchGroup>) -> Seq<(BatchAlgorithm, BatchFile)>
    decreases groups.len(),
{
    if groups.len() == 0 {
        Seq::empty()
    } else {
        planned(groups.drop_last()) + groups.last().files@.map_values(
            |file: BatchFile| (*groups.last().config, file),
        )
    }
}

/// Where the tasks of a group stand among all tasks.
proof fn lemma_planned(groups: Seq<BatchGroup>, size: nat)
    requires
        forall|g: int| 0 <= g < groups.len() ==> (#[trigger] groups[g]).files@.len() == size,
    ensures
        planned(groups).len() == groups.len() * size,
        forall|g: int, f: int|
            #![trigger groups[g].files@[f]]
            0 <= g < groups.len() && 0 <= f < size ==> {
                &&& 0 <= slot(g, f, size as int) < planned(groups).len()
                &&& planned(groups)[slot(g, f, size as int)] == (
                    *groups[g].config,
                    groups[g].files@[f],
                )
            },
    decreases groups.len(),
{
    if groups.len() > 0 {
        let front = groups.drop_last();
        assert forall|g: int| 0 <= g < front.len() implies (#[trigger] front[g]).files@.len()
            == size by {
            assert(groups[g].files@.len() == size);
        }
        lemma_planned(front, size);
        assert(groups.len() * size == front.len() * size + size) by (nonlinear_arith)
            requires
                groups.len() == front.len() + 1,
        ;
        assert(groups.last().files@.len() == size) by {
            assert(groups[groups.len() - 1].files@.len() == size);
        }
        assert forall|g: int, f: int|
            #![trigger groups[g].files@[f]]
            0 <= g < groups.len() && 0 <= f < size implies {
            &&& 0 <= slot(g, f, size as int) < planned(groups).len()
            &&& planned(groups)[slot(g, f, size as int)] == (
                *groups[g].config,
                groups[g].files@[f],
            )
        } by {
            lemma_slot_in_range(g, f, groups.len() as int, size as int);
            if g < front.len() {
                assert(front[g].files@[f] == groups[g].files@[f]);
            }
        }
    } else {
        assert(0 * size == 0) by (nonlinear_arith);
    }
}

/// The task at position `p` of a schedule compresses one file with one
/// configuration, and its result goes to their slot.
pub proof fn lemma_task_at(
    groups: Seq<BatchGroup>,
    inputs: Seq<Arc<InputBuffer>>,
    algorithms: Seq<BatchAlgorithm>,
    files: Seq<int>,
    configs: Seq<int>,
    p: int,
) -> (task: (int, int))
    requires
        groups_follow(groups, inputs, algorithms, files, configs),
        0 <= p < planned(groups).len(),
    ensures
        0 <= task.0 < files.len(),
        0 <= task.1 < configs.len(),
        p == slot(task.1, task.0, inputs.len() as int),
        0 <= files[task.0] < inputs.len(),
        0 <= configs[task.1] < algorithms.len(),
        planned(groups)[p].0 == algorithms[configs[task.1]],
        planned(groups)[p].1.input == inputs[files[task.0]],
        planned(groups)[p].1.result_index == slot(
            files[task.0],
            configs[task.1],
            algorithms.len() as int,
        ),
{
    let size = inputs.len();
    assert forall|g: int| 0 <= g < groups.len() implies (#[trigger] groups[g]).files@.len()
        == size by {
        assert(group_follows(groups[g], inputs, algorithms, files, configs[g]));
    }
    lemma_planned(groups, size);
    assert(size > 0) by (nonlinear_arith)
        requires
            0 <= p < groups.len() * size,
    ;
    let g = p / (size as int);
    let f = p % (size as int);
    vstd::arithmetic::div_mod::lemma_fundamental_div_mod(p, size as int);
    assert(p == g * size + f) by (nonlinear_arith)
        requires
            p == size * g + f,
    ;
    assert(0 <= g < groups.len()) by (nonlinear_arith)
        requires
            0 <= p < groups.len() * size,
            p == g * size + f,
            0 <= f < size,
    ;
    assert(group_follows(groups[g], inputs, algorithms, files, configs[g]));
    assert(planned(groups)[slot(g, f, size as int)] == (*groups[g].config, groups[g].files@[f]));
    (f, g)
}

/// The results of a schedule go to the slots of the batch, one to each.
pub proof fn lemma_results_cover_batch(
    groups: Seq<BatchGroup>,
    inputs: Seq<Arc<InputBuffer>>,
    algorithms: Seq<BatchAlgorithm>,
    files: Seq<int>,
    configs: Seq<int>,
    order: Seq<u32>,
)
    requires
        groups_follow(groups, inputs, algorithms, files, configs),
        order.len() == planned(groups).len(),
        forall|p: int|
            0 <= p < order.len() ==> #[trigger] order[p] == planned(groups)[p].1.result_index,
    ensures
        order.len() == inputs.len() * algorithms.len(),
        scatter::is_permutation(order),
{
    let size = inputs.len();
    assert forall|g: int| 0 <= g < groups.len() implies (#[trigger] groups[g]).files@.len()
        == size by {
        assert(group_follows(groups[g], inputs, algorithms, files, configs[g]));
    }
    lemma_planned(groups, size);
    assert(groups.len() * size == size * algorithms.len()) by (nonlinear_arith)
        requires
            groups.len() == algorithms.len(),
    ;
    assert forall|p: int| 0 <= p < order.len() implies #[trigger] order[p] < order.len() by {
        let (f, g) = lemma_task_at(groups, inputs, algorithms, files, configs, p);
        lemma_slot_in_range(files[f], configs[g], size as int, algorithms.len() as int);
    }
    assert forall|p: int, q: int| 0 <= p < q < order.len() implies #[trigger] order[p]
        != #[trigger] order[q] by {
        let (f, g) = lemma_task_at(groups, inputs, algorithms, files, configs, p);
        let (f2, g2) = lemma_task_at(groups, inputs, algorithms, files, configs, q);
        if order[p] == order[q] {
            lemma_slot_injective(
                files[f],
                configs[g],
                files[f2],
                configs[g2],
                algorithms.len() as int,
            );
            assert(f == f2) by {
                assert(files[f] == files[f2]);
            }
            assert(g == g2) by {
                assert(configs[g] == configs[g2]);
            }
        }
    }
}

/// An ordering that is strict on `0..n` admits one way to list these numbers.
proof fn lemma_listing_unique(
    before: spec_fn(int, int) -> bool,
    n: nat,
    first: Seq<int>,
    second: Seq<int>,
)
    requires
        first.len() == n,
        second.len() == n,
        forall|i: int| 0 <= i < n ==> 0 <= #[trigger] first[i] < n,
        forall|i: int| 0 <= i < n ==> 0 <= #[trigger] second[i] < n,
        forall|i: int, j: int|
            0 <= i < j < n ==> before(#[trigger] first[i], #[trigger] first[j]),
        forall|i: int, j: int|
            0 <= i < j < n ==> before(#[trigger] second[i], #[trigger] second[j]),
        forall|a: int, b: int| #[trigger] before(a, b) ==> !before(b, a),
    ensures
        first == second,
{
    assert forall|i: int, j: int| 0 <= i < n && 0 <= j < n && i != j implies first[i]
        != first[j] by {
        if i < j {
            assert(before(first[i], first[j]));
        } else {
            assert(before(first[j], first[i]));
        }
    }
    assert forall|i: int, j: int| 0 <= i < n && 0 <= j < n && i != j implies second[i]
        != second[j] by {
        if i < j {
            assert(before(second[i], second[j]));
        } else {
            assert(before(second[j], second[i]));
        }
    }
    lemma_listing_complete(first);
    lemma_listing_complete(second);
    assert forall|i: int| 0 <= i < n implies first[i] == second[i] by {
        lemma_listings_agree(before, n, first, second, i);
    }
}

/// Distinct numbers below their count are all of them.
proof fn lemma_listing_complete(order: Seq<int>)
    requires
        forall|i: int| 0 <= i < order.len() ==> 0 <= #[trigger] order[i] < order.len(),
        order.no_duplicates(),
    ensures
        forall|x: int| 0 <= x < order.len() ==> order.contains(x),
{
    let all = vstd::set_lib::set_int_range(0, order.len() as int);
    let listed = order.to_set();
    vstd::set_lib::lemma_int_range(0, order.len() as int);
    order.unique_seq_to_set();
    assert(listed.subset_of(all));
    vstd::set_lib::lemma_subset_equality(listed, all);
    assert forall|x: int| 0 <= x < order.len() implies order.contains(x) by {
        assert(all.contains(x));
        assert(listed.contains(x));
    }
}

/// Two complete strictly ordered listings agree at every index.
proof fn lemma_listings_agree(
    before: spec_fn(int, int) -> bool,
    n: nat,
    first: Seq<int>,
    second: Seq<int>,
    i: int,
)
    requires
        0 <= i < n,
        first.len() == n,
        second.len() == n,
        forall|k: int| 0 <= k < n ==> 0 <= #[trigger] first[k] < n,
        forall|k: int| 0 <= k < n ==> 0 <= #[trigger] second[k] < n,
        forall|x: int| 0 <= x < n ==> first.contains(x),
        forall|x: int| 0 <= x < n ==> second.contains(x),
        forall|k: int, j: int|
            0 <= k < j < n ==> before(#[trigger] first[k], #[trigger] first[j]),
        forall|k: int, j: int|
            0 <= k < j < n ==> before(#[trigger] second[k], #[trigger] second[j]),
        forall|a: int, b: int| #[trigger] before(a, b) ==> !before(b, a),
    ensures
        first[i] == second[i],
    decreases i,
{
    assert forall|k: int| 0 <= k < i implies first[k] == second[k] by {
        lemma_listings_agree(before, n, first, second, k);
    }
    assert(first.contains(second[i]));
    assert(second.contains(first[i]));
    let p = choose|p: int| 0 <= p < n && first[p] == second[i];
    let q = choose|q: int| 0 <= q < n && second[q] == first[i];
    if first[i] != second[i] {
        if p < i {
            assert(before(second[p], second[i]));
        }
        if q < i {
            assert(before(first[q], first[i]));
        }
        assert(before(first[i], first[p]));
        assert(before(second[i], second[q]));
        assert(false);
    }
}

/// The schedule of a batch is fixed by its files and configurations: there is
/// one order of the files and one of the configurations.
pub proof fn lemma_schedule_unique(
    groups: Seq<BatchGroup>,
    other: Seq<BatchGroup>,
    inputs: Seq<Arc<InputBuffer>>,
    algorithms: Seq<BatchAlgorithm>,
    files: Seq<int>,
    configs: Seq<int>,
    other_files: Seq<int>,
    other_configs: Seq<int>,
)
    requires
        groups_follow(groups, inputs, algorithms, files, configs),
        groups_follow(other, inputs, algorithms, other_files, other_configs),
    ensures
        files == other_files,
        configs == other_configs,
{
    lemma_listing_unique(
        |a: int, b: int| file_before(inputs, a, b),
        inputs.len(),
        files,
        other_files,
    );
    lemma_listing_unique(
        |a: int, b: int| config_before(algorithms, a, b),
        algorithms.len(),
        configs,
        other_configs,
    );
}

/// Brotli groups come before zstd groups and those before gzip groups, and
/// groups of the same algorithm keep the order of their configurations.
pub proof fn lemma_groups_ordered(
    groups: Seq<BatchGroup>,
    inputs: Seq<Arc<InputBuffer>>,
    algorithms: Seq<BatchAlgorithm>,
    files: Seq<int>,
    configs: Seq<int>,
    g: int,
    h: int,
)
    requires
        groups_follow(groups, inputs, algorithms, files, configs),
        0 <= g < h < groups.len(),
    ensures
        rank(groups[g].config.algorithm) <= rank(groups[h].config.algorithm),
        groups[g].config.algorithm == groups[h].config.algorithm ==> configs[g] < configs[h],
{
    assert(group_follows(groups[g], inputs, algorithms, files, configs[g]));
    assert(group_follows(groups[h], inputs, algorithms, files, configs[h]));
    assert(config_before(algorithms, configs[g], configs[h]));
}

/// In every group larger files come first.
pub proof fn lemma_files_ordered(
    groups: Seq<BatchGroup>,
    inputs: Seq<Arc<InputBuffer>>,
    algorithms: Seq<BatchAlgorithm>,
    files: Seq<int>,
    configs: Seq<int>,
    g: int,
    e: int,
    f: int,
)
    requires
        groups_follow(groups, inputs, algorithms, files, configs),
        0 <= g < groups.len(),
        0 <= e < f < inputs.len(),
    ensures
        groups[g].files@[e].input@.len() >= groups[g].files@[f].input@.len(),
{
    assert(group_follows(groups[g], inputs, algorithms, files, configs[g]));
    assert(file_before(inputs, files[e], files[f]));
}

} // verus!
