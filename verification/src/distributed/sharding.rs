//! What holds of every split dispatch.

use crate::dispatch_plan::VulkanPreparedDispatchPlanView;
use crate::dispatch_plan::VulkanPreparedDispatchView;
use crate::distributed::plan;
use crate::distributed::plan::ExpertShardingView;
use crate::distributed::plan::PlannedView;
use crate::distributed::plan::PlanningView;
use crate::distributed::plan::ProjectionView;
use crate::distributed::plan::ShardsView;
use crate::distributed::plan::VulkanDistributedDispatchPlanView;
use crate::distributed::plan::VulkanDistributedDispatchShardView;
use crate::sequence;
use crate::tensors::TensorMetadataView;
use vstd::prelude::*;

verus! {

/// Whether the shards of a dispatch split it: there are at least two, the first stands on the owner,
/// and each device has one shard at most. Their rows start at row zero, each range begins where the
/// one before ends, none is empty, every start is aligned, and the last ends with the last row. The
/// fragments of each parameter follow one another in the same way, from the parameter's first byte.
pub open spec fn well_sharded(dispatch: VulkanDistributedDispatchPlanView) -> bool {
    let shards = dispatch.shards;
    &&& shards.len() >= 2
    &&& shards[0].device_id == dispatch.owner_device_id
    &&& forall|i: int, j: int|
        0 <= i < j < shards.len() ==> (#[trigger] shards[i]).device_id != (
        #[trigger] shards[j]).device_id
    &&& shards[0].row_start == 0
    &&& forall|i: int|
        0 <= i < shards.len() ==> (#[trigger] shards[i]).row_count > 0 && shards[i].row_start as nat
            % dispatch.row_alignment as nat == 0 && shards[i].parameters.len()
            == shards[0].parameters.len()
    &&& forall|i: int|
        0 <= i < shards.len() - 1 ==> follows(#[trigger] shards[i], shards[i + 1])
    &&& shards.last().row_start + shards.last().row_count == dispatch.output_rows
    &&& forall|k: int|
        0 <= k < shards[0].parameters.len() ==> (
        #[trigger] shards[0].parameters[k]).byte_offset == 0
}

/// Whether a shard begins where another ends, in its rows and in each of its parameters.
pub open spec fn follows(
    one: VulkanDistributedDispatchShardView,
    next: VulkanDistributedDispatchShardView,
) -> bool {
    &&& one.row_start + one.row_count == next.row_start
    &&& forall|k: int|
        0 <= k < one.parameters.len() ==> {
            let here = #[trigger] one.parameters[k];
            let there = next.parameters[k];
            &&& there.binding == here.binding
            &&& there.tensor == here.tensor
            &&& here.byte_offset + here.byte_count == there.byte_offset
        }
}

/// The bytes of a tensor: as many as the index records, or as its shape asks for.
pub open spec fn tensor_bytes(metadata: TensorMetadataView) -> nat {
    match metadata.byte_count {
        Some(bytes) => bytes as nat,
        None => crate::arithmetic::checked_product(2, metadata.shape)->Some_0,
    }
}

/// The parameter bytes that a shard reads.
pub open spec fn shard_bytes() -> spec_fn(VulkanDistributedDispatchShardView) -> nat {
    |shard: VulkanDistributedDispatchShardView|
        sequence::sum(plan::fragment_byte_counts(shard.parameters))
}

/// Whether the shards of a dispatch fill it: they stand on devices of the pool, their outputs start
/// at aligned offsets, the fragments of each parameter reach the end of its tensor, and the bytes
/// that the shards read add up to those of the dispatch.
pub open spec fn well_filled(dispatch: VulkanDistributedDispatchPlanView, p: PlanningView) -> bool {
    let shards = dispatch.shards;
    &&& forall|i: int|
        0 <= i < shards.len() ==> p.pool.contains((#[trigger] shards[i]).device_id)
            && shards[i].output_byte_offset as nat % p.alignment == 0
    &&& forall|k: int|
        0 <= k < shards.last().parameters.len() ==> {
            let fragment = #[trigger] shards.last().parameters[k];
            &&& p.tensors.contains_key(fragment.tensor)
            &&& fragment.byte_offset + fragment.byte_count == tensor_bytes(
                p.tensors[fragment.tensor],
            )
        }
    &&& dispatch.distributed_parameter_byte_count == sequence::total(shards, shard_bytes())
}

/// Whether a shard holds these rows, and of each parameter the bytes of these rows.
pub open spec fn carries(
    shard: VulkanDistributedDispatchShardView,
    assigned: (Seq<char>, (usize, usize)),
    parameters: Seq<(usize, Seq<char>, nat)>,
) -> bool {
    &&& shard.device_id == assigned.0
    &&& shard.row_start == assigned.1.0
    &&& shard.row_count == assigned.1.1
    &&& shard.parameters.len() == parameters.len()
    &&& forall|k: int|
        0 <= k < parameters.len() ==> {
            let fragment = #[trigger] shard.parameters[k];
            &&& fragment.binding == parameters[k].0
            &&& fragment.tensor == parameters[k].1
            &&& fragment.byte_offset == assigned.1.0 * parameters[k].2
            &&& fragment.byte_count == assigned.1.1 * parameters[k].2
        }
}

/// Whether each shard carries what it was assigned.
pub open spec fn all_carry(
    shards: Seq<VulkanDistributedDispatchShardView>,
    assigned: Seq<(Seq<char>, (usize, usize))>,
    parameters: Seq<(usize, Seq<char>, nat)>,
) -> bool {
    &&& shards.len() == assigned.len()
    &&& forall|i: int|
        0 <= i < shards.len() ==> carries(#[trigger] shards[i], assigned[i], parameters)
}

proof fn lemma_projection_shards(p: ProjectionView, assigned: Seq<(Seq<char>, (usize, usize))>)
    requires
        sequence::try_fold(assigned, plan::no_shards(), plan::projection_step(p)) is Ok,
    ensures
        all_carry(
            sequence::try_fold(assigned, plan::no_shards(), plan::projection_step(p))->Ok_0.shards,
            assigned,
            seq![
                (p.first.0, p.first.1, p.first_row_bytes as nat),
                (p.second.0, p.second.1, p.second_row_bytes as nat),
            ],
        ),
    decreases assigned.len(),
{
    if assigned.len() > 0 {
        let front = assigned.drop_last();
        lemma_projection_shards(p, front);
        reveal(plan::projection_shard);
        let before = sequence::try_fold(front, plan::no_shards(), plan::projection_step(p))->Ok_0;
        let after = sequence::try_fold(assigned, plan::no_shards(), plan::projection_step(p))->Ok_0;
        assert(plan::projection_shard(p, before, assigned.last()) == Ok::<ShardsView, Seq<char>>(
            after,
        ));
        let parameters = seq![
            (p.first.0, p.first.1, p.first_row_bytes as nat),
            (p.second.0, p.second.1, p.second_row_bytes as nat),
        ];
        assert forall|i: int| 0 <= i < after.shards.len() implies carries(
            #[trigger] after.shards[i],
            assigned[i],
            parameters,
        ) by {
            if i < front.len() {
                assert(carries(before.shards[i], front[i], parameters));
                assert(after.shards[i] == before.shards[i]);
            }
        }
    }
}

/// The outputs of a projection's shards start with their rows, and the bytes that the shards read
/// are counted.
proof fn lemma_projection_bytes(p: ProjectionView, assigned: Seq<(Seq<char>, (usize, usize))>)
    requires
        sequence::try_fold(assigned, plan::no_shards(), plan::projection_step(p)) is Ok,
    ensures
        ({
            let done = sequence::try_fold(
                assigned,
                plan::no_shards(),
                plan::projection_step(p),
            )->Ok_0;
            &&& done.shards.len() == assigned.len()
            &&& forall|i: int|
                0 <= i < done.shards.len() ==> (#[trigger] done.shards[i]).output_byte_offset
                    == assigned[i].1.0 * 2
            &&& done.byte_count == sequence::total(done.shards, shard_bytes()) <= usize::MAX
        }),
    decreases assigned.len(),
{
    if assigned.len() > 0 {
        let front = assigned.drop_last();
        lemma_projection_bytes(p, front);
        reveal(plan::projection_shard);
        let before = sequence::try_fold(front, plan::no_shards(), plan::projection_step(p))->Ok_0;
        let after = sequence::try_fold(assigned, plan::no_shards(), plan::projection_step(p))->Ok_0;
        assert(plan::projection_shard(p, before, assigned.last()) == Ok::<ShardsView, Seq<char>>(
            after,
        ));
        assert(after.shards.drop_last() =~= before.shards);
        let counts = plan::fragment_byte_counts(after.shards.last().parameters);
        assert(counts.drop_last().drop_last() =~= Seq::empty());
        assert(sequence::sum(counts.drop_last().drop_last()) == 0);
        assert(sequence::sum(counts.drop_last()) == counts[0] as nat);
        assert(sequence::sum(counts) == counts[0] as nat + counts[1] as nat);
    }
}

/// The parameters of an expert dispatch, with their bytes per expert.
pub open spec fn expert_bytes(parameters: Seq<(usize, Seq<char>, usize)>) -> Seq<
    (usize, Seq<char>, nat),
> {
    Seq::new(
        parameters.len(),
        |k: int| (parameters[k].0, parameters[k].1, parameters[k].2 as nat),
    )
}

proof fn lemma_expert_shards(e: ExpertShardingView, assigned: Seq<(Seq<char>, (usize, usize))>)
    requires
        sequence::try_fold(assigned, plan::no_shards(), plan::expert_shard_step(e)) is Ok,
    ensures
        all_carry(
            sequence::try_fold(
                assigned,
                plan::no_shards(),
                plan::expert_shard_step(e),
            )->Ok_0.shards,
            assigned,
            expert_bytes(e.parameters),
        ),
    decreases assigned.len(),
{
    if assigned.len() > 0 {
        let front = assigned.drop_last();
        lemma_expert_shards(e, front);
        reveal(plan::expert_shard);
        let before = sequence::try_fold(front, plan::no_shards(), plan::expert_shard_step(e))->Ok_0;
        let after = sequence::try_fold(
            assigned,
            plan::no_shards(),
            plan::expert_shard_step(e),
        )->Ok_0;
        let last = assigned.last();
        assert(plan::expert_shard(e, before, last) == Ok::<ShardsView, Seq<char>>(after));
        let parameters = expert_bytes(e.parameters);
        sequence::lemma_try_map_ok(e.parameters, plan::expert_fragment(e.dispatch, last.1));
        assert(carries(after.shards.last(), last, parameters)) by {
            let fragments = after.shards.last().parameters;
            assert forall|k: int| 0 <= k < parameters.len() implies ({
                let fragment = #[trigger] fragments[k];
                &&& fragment.binding == parameters[k].0
                &&& fragment.tensor == parameters[k].1
                &&& fragment.byte_offset == last.1.0 * parameters[k].2
                &&& fragment.byte_count == last.1.1 * parameters[k].2
            }) by {
                assert(plan::expert_fragment(e.dispatch, last.1)(e.parameters[k]) is Ok);
            }
        }
        assert forall|i: int| 0 <= i < after.shards.len() implies carries(
            #[trigger] after.shards[i],
            assigned[i],
            parameters,
        ) by {
            if i < front.len() {
                assert(carries(before.shards[i], front[i], parameters));
                assert(after.shards[i] == before.shards[i]);
            }
        }
    }
}

/// The outputs of expert shards start with the output, and the bytes that the shards read are
/// counted.
proof fn lemma_expert_bytes(e: ExpertShardingView, assigned: Seq<(Seq<char>, (usize, usize))>)
    requires
        sequence::try_fold(assigned, plan::no_shards(), plan::expert_shard_step(e)) is Ok,
    ensures
        ({
            let done = sequence::try_fold(
                assigned,
                plan::no_shards(),
                plan::expert_shard_step(e),
            )->Ok_0;
            &&& forall|i: int|
                0 <= i < done.shards.len() ==> (#[trigger] done.shards[i]).output_byte_offset == 0
            &&& done.byte_count == sequence::total(done.shards, shard_bytes()) <= usize::MAX
        }),
    decreases assigned.len(),
{
    if assigned.len() > 0 {
        let front = assigned.drop_last();
        lemma_expert_bytes(e, front);
        reveal(plan::expert_shard);
        let before = sequence::try_fold(front, plan::no_shards(), plan::expert_shard_step(e))->Ok_0;
        let after = sequence::try_fold(
            assigned,
            plan::no_shards(),
            plan::expert_shard_step(e),
        )->Ok_0;
        assert(plan::expert_shard(e, before, assigned.last()) == Ok::<ShardsView, Seq<char>>(after));
        assert(after.shards.drop_last() =~= before.shards);
    }
}

/// Every expert tensor that was taken in is made of the same number of experts.
proof fn lemma_expert_tensors(
    dispatch: VulkanPreparedDispatchView,
    tensors: Map<Seq<char>, TensorMetadataView>,
    offset_alignment: nat,
    listed: Seq<(usize, Seq<char>)>,
)
    requires
        sequence::try_fold(
            listed,
            plan::no_experts(),
            plan::expert_step(dispatch, tensors, offset_alignment),
        ) is Ok,
    ensures
        ({
            let experts = sequence::try_fold(
                listed,
                plan::no_experts(),
                plan::expert_step(dispatch, tensors, offset_alignment),
            )->Ok_0;
            &&& listed.len() > 0 ==> experts.expert_count is Some
            &&& experts.parameters.len() == listed.len()
            &&& forall|k: int|
                0 <= k < experts.parameters.len() ==> {
                    let parameter = #[trigger] experts.parameters[k];
                    &&& tensors.contains_key(parameter.1)
                    &&& experts.expert_count->Some_0 * parameter.2 == tensor_bytes(
                        tensors[parameter.1],
                    )
                }
        }),
    decreases listed.len(),
{
    if listed.len() > 0 {
        let front = listed.drop_last();
        let step = plan::expert_step(dispatch, tensors, offset_alignment);
        lemma_expert_tensors(dispatch, tensors, offset_alignment, front);
        reveal(plan::expert_parameter);
        let before = sequence::try_fold(front, plan::no_experts(), step)->Ok_0;
        let after = sequence::try_fold(listed, plan::no_experts(), step)->Ok_0;
        assert(plan::expert_parameter(dispatch, tensors, offset_alignment, before, listed.last())
            is Ok);
        let metadata = tensors[listed.last().1];
        let experts = metadata.shape[0];
        let bytes = metadata.byte_count->Some_0;
        vstd::arithmetic::div_mod::lemma_fundamental_div_mod(bytes as int, experts as int);
        assert(after.parameters.drop_last() =~= before.parameters);
        assert forall|k: int| 0 <= k < after.parameters.len() implies ({
            let parameter = #[trigger] after.parameters[k];
            &&& tensors.contains_key(parameter.1)
            &&& after.expert_count->Some_0 * parameter.2 == tensor_bytes(tensors[parameter.1])
        }) by {
            if k < before.parameters.len() {
                assert(after.parameters[k] == before.parameters[k]);
                assert(before.expert_count is Some);
                assert(before.expert_count == after.expert_count);
            }
        }
    }
}

proof fn lemma_others(pool: Seq<Seq<char>>, owner: Seq<char>)
    requires
        pool.no_duplicates(),
    ensures
        pool.filter(plan::other_than(owner)).no_duplicates(),
        forall|id: Seq<char>|
            pool.filter(plan::other_than(owner)).contains(id) ==> pool.contains(id) && id
                != owner,
        pool.filter(plan::other_than(owner)).len() == (if pool.contains(owner) {
            pool.len() - 1
        } else {
            pool.len() as int
        }),
    decreases pool.len(),
{
    reveal(Seq::filter);
    let p = plan::other_than(owner);
    if pool.len() > 0 {
        let front = pool.drop_last();
        let last = pool.last();
        lemma_others(front, owner);
        let kept = front.filter(p);
        assert(!front.contains(last)) by {
            if front.contains(last) {
                let k = choose|k: int| 0 <= k < front.len() && front[k] == last;
                assert(pool[k] == pool[pool.len() - 1]);
            }
        }
        assert forall|id: Seq<char>| front.contains(id) implies pool.contains(id) by {
            let k = choose|k: int| 0 <= k < front.len() && front[k] == id;
            assert(pool[k] == id);
        }
        assert forall|id: Seq<char>| pool.contains(id) implies front.contains(id) || id == last by {
            let k = choose|k: int| 0 <= k < pool.len() && pool[k] == id;
            if k < front.len() {
                assert(front[k] == id);
            }
        }
        assert(pool.contains(last)) by {
            assert(pool[pool.len() - 1] == last);
        }
        assert(pool.filter(p) == (if p(last) {
            kept.push(last)
        } else {
            kept
        }));
        if p(last) {
            let all = kept.push(last);
            assert forall|i: int, j: int| 0 <= i < all.len() && 0 <= j < all.len() && i
                != j implies all[i] != all[j] by {
                if i < kept.len() {
                    assert(kept.contains(kept[i]));
                }
                if j < kept.len() {
                    assert(kept.contains(kept[j]));
                }
            }
            assert forall|id: Seq<char>| all.contains(id) implies pool.contains(id) && id != owner by {
                let k = choose|k: int| 0 <= k < all.len() && all[k] == id;
                if k < kept.len() {
                    assert(kept.contains(id));
                }
            }
        }
    }
}

proof fn lemma_shard_devices(owner: Seq<char>, pool: Seq<Seq<char>>)
    requires
        pool.no_duplicates(),
        pool.contains(owner),
    ensures
        plan::shard_devices(owner, pool).no_duplicates(),
        plan::shard_devices(owner, pool).len() == pool.len(),
        plan::shard_devices(owner, pool)[0] == owner,
        forall|i: int|
            0 <= i < plan::shard_devices(owner, pool).len() ==> pool.contains(
                #[trigger] plan::shard_devices(owner, pool)[i],
            ),
{
    lemma_others(pool, owner);
    let others = pool.filter(plan::other_than(owner));
    let devices = plan::shard_devices(owner, pool);
    assert forall|i: int| 0 <= i < devices.len() implies pool.contains(#[trigger] devices[i]) by {
        if i > 0 {
            assert(others.contains(others[i - 1]));
        }
    }
    assert forall|i: int, j: int| 0 <= i < devices.len() && 0 <= j < devices.len() && i
        != j implies devices[i] != devices[j] by {
        if i > 0 {
            assert(others.contains(others[i - 1]));
        }
        if j > 0 {
            assert(others.contains(others[j - 1]));
        }
    }
}

proof fn lemma_well_sharded(
    dispatch: VulkanDistributedDispatchPlanView,
    pool: Seq<Seq<char>>,
    parameters: Seq<(usize, Seq<char>, nat)>,
    workgroup_rows: nat,
    ranges: Seq<(usize, usize)>,
)
    requires
        pool.no_duplicates(),
        pool.contains(dispatch.owner_device_id),
        plan::distributed_rows(
            dispatch.output_rows as nat,
            pool.len(),
            workgroup_rows,
            dispatch.row_alignment as nat,
        ) == Ok::<Seq<(usize, usize)>, Seq<char>>(ranges),
        ranges.len() >= 2,
        all_carry(
            dispatch.shards,
            plan::shard_assignments(
                plan::shard_devices(dispatch.owner_device_id, pool),
                ranges,
            ),
            parameters,
        ),
    ensures
        well_sharded(dispatch),
{
    let owner = dispatch.owner_device_id;
    let devices = plan::shard_devices(owner, pool);
    let assigned = plan::shard_assignments(devices, ranges);
    let shards = dispatch.shards;
    lemma_shard_devices(owner, pool);
    plan::row_shards_partition_the_rows(
        dispatch.output_rows as nat,
        pool.len(),
        workgroup_rows,
        dispatch.row_alignment as nat,
    );
    assert forall|i: int| 0 <= i < shards.len() implies carries(
        #[trigger] shards[i],
        (devices[i], ranges[i]),
        parameters,
    ) by {
        assert(carries(shards[i], assigned[i], parameters));
    }
    assert(carries(shards[0], (devices[0], ranges[0]), parameters));
    assert forall|i: int| 0 <= i < shards.len() implies (#[trigger] shards[i]).row_count > 0
        && shards[i].row_start as nat % dispatch.row_alignment as nat == 0
        && shards[i].parameters.len() == shards[0].parameters.len() by {
        assert(carries(shards[i], (devices[i], ranges[i]), parameters));
        assert(ranges[i].1 > 0);
    }
    assert forall|i: int, j: int| 0 <= i < j < shards.len() implies (#[trigger] shards[i]).device_id
        != (#[trigger] shards[j]).device_id by {
        assert(devices[i] != devices[j]);
    }
    assert forall|i: int| 0 <= i < shards.len() - 1 implies follows(
        #[trigger] shards[i],
        shards[i + 1],
    ) by {
        let one = shards[i];
        let next = shards[i + 1];
        assert(carries(next, (devices[i + 1], ranges[i + 1]), parameters));
        assert(ranges[i].0 + ranges[i].1 == ranges[i + 1].0);
        assert forall|k: int| 0 <= k < one.parameters.len() implies ({
            let here = #[trigger] one.parameters[k];
            let there = next.parameters[k];
            &&& there.binding == here.binding
            &&& there.tensor == here.tensor
            &&& here.byte_offset + here.byte_count == there.byte_offset
        }) by {
            let bytes = parameters[k].2;
            assert(next.parameters[k].byte_offset == ranges[i + 1].0 * bytes);
            vstd::arithmetic::mul::lemma_mul_is_distributive_add_other_way(
                bytes as int,
                ranges[i].0 as int,
                ranges[i].1 as int,
            );
        }
    }
    assert(carries(shards.last(), (devices[shards.len() - 1], ranges[shards.len() - 1]), parameters));
    assert forall|k: int| 0 <= k < shards[0].parameters.len() implies (
    #[trigger] shards[0].parameters[k]).byte_offset == 0 by {
        vstd::arithmetic::mul::lemma_mul_basics(parameters[k].2 as int);
    }
}

/// Shards that carry what they were assigned fill a dispatch.
proof fn lemma_well_filled(
    dispatch: VulkanDistributedDispatchPlanView,
    p: PlanningView,
    parameters: Seq<(usize, Seq<char>, nat)>,
    workgroup_rows: nat,
    ranges: Seq<(usize, usize)>,
)
    requires
        p.pool.no_duplicates(),
        p.pool.contains(dispatch.owner_device_id),
        plan::distributed_rows(
            dispatch.output_rows as nat,
            p.pool.len(),
            workgroup_rows,
            dispatch.row_alignment as nat,
        ) == Ok::<Seq<(usize, usize)>, Seq<char>>(ranges),
        ranges.len() >= 2,
        all_carry(
            dispatch.shards,
            plan::shard_assignments(
                plan::shard_devices(dispatch.owner_device_id, p.pool),
                ranges,
            ),
            parameters,
        ),
        forall|i: int|
            0 <= i < dispatch.shards.len() ==> (
            #[trigger] dispatch.shards[i]).output_byte_offset as nat % p.alignment == 0,
        forall|k: int|
            0 <= k < parameters.len() ==> {
                let parameter = #[trigger] parameters[k];
                &&& p.tensors.contains_key(parameter.1)
                &&& dispatch.output_rows * parameter.2 == tensor_bytes(p.tensors[parameter.1])
            },
        dispatch.distributed_parameter_byte_count == sequence::total(
            dispatch.shards,
            shard_bytes(),
        ),
    ensures
        well_filled(dispatch, p),
{
    let owner = dispatch.owner_device_id;
    let devices = plan::shard_devices(owner, p.pool);
    let assigned = plan::shard_assignments(devices, ranges);
    let shards = dispatch.shards;
    lemma_shard_devices(owner, p.pool);
    plan::row_shards_partition_the_rows(
        dispatch.output_rows as nat,
        p.pool.len(),
        workgroup_rows,
        dispatch.row_alignment as nat,
    );
    assert forall|i: int| 0 <= i < shards.len() implies p.pool.contains(
        (#[trigger] shards[i]).device_id,
    ) by {
        assert(carries(shards[i], assigned[i], parameters));
        assert(p.pool.contains(devices[i]));
    }
    let last = shards.len() - 1;
    assert(carries(shards[last], assigned[last], parameters));
    assert(assigned[last] == (devices[last], ranges.last()));
    assert forall|k: int| 0 <= k < shards.last().parameters.len() implies ({
        let fragment = #[trigger] shards.last().parameters[k];
        &&& p.tensors.contains_key(fragment.tensor)
        &&& fragment.byte_offset + fragment.byte_count == tensor_bytes(p.tensors[fragment.tensor])
    }) by {
        let parameter = parameters[k];
        vstd::arithmetic::mul::lemma_mul_is_distributive_add_other_way(
            parameter.2 as int,
            ranges.last().0 as int,
            ranges.last().1 as int,
        );
    }
}

/// Twice an aligned row is an aligned offset.
proof fn lemma_rows_give_aligned_offsets(
    workgroup_rows: nat,
    offset_alignment: nat,
    paired: bool,
    row: nat,
)
    requires
        offset_alignment > 0,
        offset_alignment % 2 == 0,
        plan::projection_alignment(workgroup_rows, offset_alignment, paired) is Some,
        plan::projection_alignment(workgroup_rows, offset_alignment, paired)->Some_0 > 0,
        row % plan::projection_alignment(workgroup_rows, offset_alignment, paired)->Some_0 == 0,
    ensures
        (row * 2) % offset_alignment == 0,
{
    let half = offset_alignment / 2;
    let base = crate::arithmetic::lcm(workgroup_rows, half)->Some_0;
    crate::arithmetic::common_multiples_are_multiples(workgroup_rows, half);
    let a = choose|k: nat| base == #[trigger] (half * k);
    let alignment = plan::projection_alignment(workgroup_rows, offset_alignment, paired)->Some_0;
    let b: nat = if paired {
        crate::arithmetic::common_multiples_are_multiples(base, 2);
        choose|k: nat| alignment == #[trigger] (base * k)
    } else {
        1
    };
    assert(alignment == base * b) by {
        assert(base * 1 == base) by (nonlinear_arith);
    }
    let c = row / alignment;
    vstd::arithmetic::div_mod::lemma_fundamental_div_mod(row as int, alignment as int);
    assert(row * 2 == (a * b * c) * offset_alignment) by (nonlinear_arith)
        requires
            row == alignment * c,
            alignment == base * b,
            base == half * a,
            offset_alignment == half * 2,
    ;
    vstd::arithmetic::div_mod::lemma_mod_multiples_basic(
        (a * b * c) as int,
        offset_alignment as int,
    );
}

proof fn lemma_projection_is_well_sharded(
    owner: Seq<char>,
    dispatch: VulkanPreparedDispatchView,
    planning: PlanningView,
    workgroup_count: u32,
)
    requires
        planning.pool.no_duplicates(),
        planning.pool.contains(owner),
        planning.alignment > 0,
        planning.alignment % 2 == 0,
    ensures
        plan::projection_plan(
            owner,
            dispatch,
            planning.tensors,
            planning.pool,
            workgroup_count,
            planning.alignment,
        ) matches Ok(Some(planned)) ==> well_sharded(planned) && well_filled(planned, planning),
{
    reveal(plan::projection_plan);
    let tensors = planning.tensors;
    let pool = planning.pool;
    let offset_alignment = planning.alignment;
    let parameters = plan::parameter_descriptors(dispatch.descriptors);
    match plan::projection_plan(owner, dispatch, tensors, pool, workgroup_count, offset_alignment) {
        Ok(Some(planned)) => {
            let first = plan::projection_tensor(tensors, dispatch, parameters[0].1)->Ok_0;
            let second = plan::projection_tensor(tensors, dispatch, parameters[1].1)->Ok_0;
            let output_rows = first.shape[0];
            let workgroup_rows = output_rows as nat / workgroup_count as nat;
            let paired = first.layout == Some("vulkan_bf16_row_pair_u32"@) || second.layout == Some(
                "vulkan_bf16_row_pair_u32"@,
            );
            let alignment = plan::projection_alignment(
                workgroup_rows,
                offset_alignment,
                paired,
            )->Some_0;
            let ranges = plan::distributed_rows(
                output_rows as nat,
                pool.len(),
                workgroup_rows,
                alignment,
            )->Ok_0;
            let p = ProjectionView {
                dispatch,
                workgroup_rows,
                first: parameters[0],
                first_row_bytes: plan::row_bytes(
                    dispatch,
                    parameters[0].1,
                    first,
                    output_rows as nat,
                )->Ok_0,
                second: parameters[1],
                second_row_bytes: plan::row_bytes(
                    dispatch,
                    parameters[1].1,
                    second,
                    output_rows as nat,
                )->Ok_0,
            };
            let assigned = plan::shard_assignments(plan::shard_devices(owner, pool), ranges);
            lemma_projection_shards(p, assigned);
            lemma_projection_bytes(p, assigned);
            let carried = seq![
                (p.first.0, p.first.1, p.first_row_bytes as nat),
                (p.second.0, p.second.1, p.second_row_bytes as nat),
            ];
            lemma_well_sharded(planned, pool, carried, workgroup_rows, ranges);
            assert forall|i: int| 0 <= i < planned.shards.len() implies (
            #[trigger] planned.shards[i]).output_byte_offset as nat % offset_alignment == 0 by {
                assert(carries(planned.shards[i], assigned[i], carried));
                lemma_rows_give_aligned_offsets(
                    workgroup_rows,
                    offset_alignment,
                    paired,
                    planned.shards[i].row_start as nat,
                );
            }
            let first_bytes = tensor_bytes(first);
            let second_bytes = tensor_bytes(second);
            vstd::arithmetic::div_mod::lemma_fundamental_div_mod(
                first_bytes as int,
                output_rows as int,
            );
            vstd::arithmetic::div_mod::lemma_fundamental_div_mod(
                second_bytes as int,
                output_rows as int,
            );
            lemma_product_fits(first.shape);
            lemma_product_fits(second.shape);
            assert(first_bytes / output_rows as nat <= first_bytes) by {
                vstd::arithmetic::div_mod::lemma_div_is_ordered_by_denominator(
                    first_bytes as int,
                    1,
                    output_rows as int,
                );
            }
            assert(second_bytes / output_rows as nat <= second_bytes) by {
                vstd::arithmetic::div_mod::lemma_div_is_ordered_by_denominator(
                    second_bytes as int,
                    1,
                    output_rows as int,
                );
            }
            assert(carried[0].2 == first_bytes / output_rows as nat);
            assert(carried[1].2 == second_bytes / output_rows as nat);
            lemma_well_filled(planned, planning, carried, workgroup_rows, ranges);
        },
        _ => {},
    }
}

proof fn lemma_product_fits(shape: Seq<usize>)
    requires
        crate::arithmetic::checked_product(2, shape) is Some,
    ensures
        crate::arithmetic::checked_product(2, shape)->Some_0 <= usize::MAX,
{
}

proof fn lemma_expert_alignment_fits(
    dispatch: VulkanPreparedDispatchView,
    tensors: Map<Seq<char>, TensorMetadataView>,
    offset_alignment: nat,
    listed: Seq<(usize, Seq<char>)>,
)
    requires
        sequence::try_fold(
            listed,
            plan::no_experts(),
            plan::expert_step(dispatch, tensors, offset_alignment),
        ) is Ok,
    ensures
        sequence::try_fold(
            listed,
            plan::no_experts(),
            plan::expert_step(dispatch, tensors, offset_alignment),
        )->Ok_0.alignment <= usize::MAX,
{
    reveal(plan::expert_parameter);
    if listed.len() > 0 {
        let step = plan::expert_step(dispatch, tensors, offset_alignment);
        let before = sequence::try_fold(listed.drop_last(), plan::no_experts(), step)->Ok_0;
        assert(plan::expert_parameter(dispatch, tensors, offset_alignment, before, listed.last())
            is Ok);
    }
}

proof fn lemma_experts_are_well_sharded(
    owner: Seq<char>,
    dispatch: VulkanPreparedDispatchView,
    planning: PlanningView,
    workgroup_count: u32,
)
    requires
        planning.pool.no_duplicates(),
        planning.pool.contains(owner),
        planning.alignment > 0,
    ensures
        plan::expert_plan(
            owner,
            dispatch,
            planning.tensors,
            planning.pool,
            workgroup_count,
            planning.alignment,
        ) matches Ok(Some(planned)) ==> well_sharded(planned) && well_filled(planned, planning),
{
    reveal(plan::expert_plan);
    let tensors = planning.tensors;
    let pool = planning.pool;
    let offset_alignment = planning.alignment;
    let listed = plan::parameter_descriptors(dispatch.descriptors);
    match plan::expert_plan(owner, dispatch, tensors, pool, workgroup_count, offset_alignment) {
        Ok(Some(planned)) => {
            let experts = sequence::try_fold(
                listed,
                plan::no_experts(),
                plan::expert_step(dispatch, tensors, offset_alignment),
            )->Ok_0;
            lemma_expert_alignment_fits(dispatch, tensors, offset_alignment, listed);
            let ranges = plan::distributed_rows(
                experts.expert_count->0 as nat,
                pool.len(),
                1,
                experts.alignment,
            )->Ok_0;
            let output = plan::resident_activation(dispatch, 2, 1, "output"@)->Ok_0;
            let e = ExpertShardingView {
                dispatch,
                parameters: experts.parameters,
                workgroup_count,
                output_byte_capacity: output.signal_byte_capacity,
            };
            let assigned = plan::shard_assignments(plan::shard_devices(owner, pool), ranges);
            lemma_expert_shards(e, assigned);
            lemma_expert_bytes(e, assigned);
            lemma_expert_tensors(dispatch, tensors, offset_alignment, listed);
            let carried = expert_bytes(experts.parameters);
            lemma_well_sharded(planned, pool, carried, 1, ranges);
            assert forall|k: int| 0 <= k < carried.len() implies ({
                let parameter = #[trigger] carried[k];
                &&& tensors.contains_key(parameter.1)
                &&& planned.output_rows * parameter.2 == tensor_bytes(tensors[parameter.1])
            }) by {
                assert(tensors.contains_key(experts.parameters[k].1));
            }
            vstd::arithmetic::div_mod::lemma_small_mod(0, offset_alignment);
            lemma_well_filled(planned, planning, carried, 1, ranges);
        },
        _ => {},
    }
}

/// Whether every dispatch is split well.
pub open spec fn all_well_sharded(
    dispatches: Seq<VulkanDistributedDispatchPlanView>,
    p: PlanningView,
) -> bool {
    forall|i: int|
        0 <= i < dispatches.len() ==> well_sharded(#[trigger] dispatches[i]) && well_filled(
            dispatches[i],
            p,
        )
}

proof fn lemma_dispatches_of_owner(
    p: PlanningView,
    owner: Seq<char>,
    done: PlannedView,
    dispatches: Seq<VulkanPreparedDispatchView>,
)
    requires
        p.pool.no_duplicates(),
        p.pool.contains(owner),
        p.alignment > 0,
        p.alignment % 2 == 0,
        all_well_sharded(done.dispatches, p),
        sequence::try_fold(dispatches, done, plan::dispatch_step(p, owner)) is Ok,
    ensures
        all_well_sharded(
            sequence::try_fold(dispatches, done, plan::dispatch_step(p, owner))->Ok_0.dispatches,
            p,
        ),
    decreases dispatches.len(),
{
    if dispatches.len() > 0 {
        let front = dispatches.drop_last();
        let dispatch = dispatches.last();
        lemma_dispatches_of_owner(p, owner, done, front);
        let before = sequence::try_fold(front, done, plan::dispatch_step(p, owner))->Ok_0;
        let after = sequence::try_fold(dispatches, done, plan::dispatch_step(p, owner))->Ok_0;
        assert(plan::plan_next(p, owner, before, dispatch) == Ok::<PlannedView, Seq<char>>(after));
        reveal(plan::plan_next);
        let found = crate::reusable_kernels::artifact_of_family(
            p.artifacts,
            dispatch.reusable_family_id,
        );
        let count = found->Some_0.workgroup_count_x;
        lemma_projection_is_well_sharded(owner, dispatch, p, count);
        lemma_experts_are_well_sharded(owner, dispatch, p, count);
        assert forall|i: int| 0 <= i < after.dispatches.len() implies well_sharded(
            #[trigger] after.dispatches[i],
        ) && well_filled(after.dispatches[i], p) by {
            if i < before.dispatches.len() {
                assert(after.dispatches[i] == before.dispatches[i]);
            }
        }
    }
}

proof fn lemma_owners(
    p: PlanningView,
    prepared: Seq<(Seq<char>, VulkanPreparedDispatchPlanView)>,
)
    requires
        p.pool.no_duplicates(),
        p.alignment > 0,
        p.alignment % 2 == 0,
        sequence::try_fold(prepared, plan::nothing_planned(), plan::owner_step(p)) is Ok,
    ensures
        all_well_sharded(
            sequence::try_fold(
                prepared,
                plan::nothing_planned(),
                plan::owner_step(p),
            )->Ok_0.dispatches,
            p,
        ),
    decreases prepared.len(),
{
    if prepared.len() > 0 {
        let front = prepared.drop_last();
        let last = prepared.last();
        lemma_owners(p, front);
        let before = sequence::try_fold(front, plan::nothing_planned(), plan::owner_step(p))->Ok_0;
        let after = sequence::try_fold(
            prepared,
            plan::nothing_planned(),
            plan::owner_step(p),
        )->Ok_0;
        assert(plan::plan_owner(p, before, last) == Ok::<PlannedView, Seq<char>>(after));
        reveal(plan::plan_owner);
        if p.pool.len() >= 2 {
            lemma_dispatches_of_owner(p, last.0, before, last.1.dispatches);
        }
    }
}

/// Every dispatch of an execution plan is split well: its first shard stands on its owner, its rows
/// and the bytes of its parameters are each covered once, and every shard starts at an aligned row.
/// Its shards stand on devices of the pool, write at aligned offsets, and together read the whole of
/// each parameter.
pub proof fn planned_dispatches_are_well_sharded(
    prepared: Seq<(Seq<char>, VulkanPreparedDispatchPlanView)>,
    p: PlanningView,
    i: int,
)
    requires
        plan::execution_plan(prepared, p) is Ok,
        0 <= i < plan::execution_plan(prepared, p)->Ok_0.dispatches.len(),
    ensures
        well_sharded(plan::execution_plan(prepared, p)->Ok_0.dispatches[i]),
        well_filled(plan::execution_plan(prepared, p)->Ok_0.dispatches[i], p),
{
    plan::lemma_no_repeat_is_unique(p.pool);
    lemma_owners(p, prepared);
}

} // verus!
