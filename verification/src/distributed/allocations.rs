//! What holds of the activation slots and the parameter ranges of every plan.

use crate::distributed::activation;
use crate::distributed::activation::AllocationKey;
use crate::distributed::activation::AllocationMap;
use crate::distributed::activation::VulkanDistributedActivationAccess;
use crate::distributed::activation::VulkanDistributedActivationBufferAllocationView;
use crate::distributed::parameters;
use crate::distributed::parameters::RangeKey;
use crate::distributed::parameters::RangeMap;
use crate::distributed::parameters::VulkanDistributedParameterAllocationView;
use crate::distributed::plan::VulkanDistributedActivationSlotView;
use crate::distributed::plan::VulkanDistributedDispatchPlanView;
use crate::distributed::plan::VulkanDistributedDispatchShardView;
use crate::distributed::plan::VulkanDistributedExecutionPlanView;
use crate::distributed::plan::VulkanDistributedParameterFragmentView;
use crate::ordered;
use crate::sequence;
use crate::tensors::TensorMetadataView;
use vstd::prelude::*;

verus! {

// ---------------------------------------------------------------------------
// Activation slots
// ---------------------------------------------------------------------------

/// What an allocation is found by.
pub open spec fn allocation_key(
    allocation: VulkanDistributedActivationBufferAllocationView,
) -> AllocationKey {
    ((allocation.owner_device_id, allocation.component_id), allocation.slot)
}

/// Whether the allocations stand under their keys.
pub open spec fn keyed(allocations: AllocationMap) -> bool {
    &&& allocations.dom().finite()
    &&& forall|key: AllocationKey| #[trigger]
        allocations.contains_key(key) ==> allocation_key(allocations[key]) == key
}

/// Whether an allocation serves these devices as this slot.
pub open spec fn serves(
    allocations: AllocationMap,
    owner: Seq<char>,
    slot: VulkanDistributedActivationSlotView,
    devices: Set<Seq<char>>,
) -> bool {
    let key = activation::activation_key(owner, slot);
    &&& allocations.contains_key(key)
    &&& allocations[key].byte_capacity == slot.byte_capacity
    &&& devices.subset_of(allocations[key].device_ids.to_set())
}

/// Whether nothing that was served before is served no more.
pub open spec fn grows(before: AllocationMap, after: AllocationMap) -> bool {
    forall|key: AllocationKey| #[trigger]
        before.contains_key(key) ==> after.contains_key(key) && after[key].byte_capacity
            == before[key].byte_capacity && before[key].device_ids.to_set().subset_of(
            after[key].device_ids.to_set(),
        )
}

proof fn lemma_used(
    allocations: AllocationMap,
    owner: Seq<char>,
    slot: VulkanDistributedActivationSlotView,
    devices: Set<Seq<char>>,
    access: VulkanDistributedActivationAccess,
)
    requires
        keyed(allocations),
        devices.finite(),
        activation::activation_used(allocations, owner, slot, devices, access) is Ok,
    ensures
        ({
            let after = activation::activation_used(
                allocations,
                owner,
                slot,
                devices,
                access,
            )->Ok_0;
            &&& keyed(after)
            &&& serves(after, owner, slot, devices)
            &&& grows(allocations, after)
        }),
{
    broadcast use vstd::seq_lib::seq_to_set_is_finite;

    reveal(activation::activation_used);
    let key = activation::activation_key(owner, slot);
    let known = if allocations.contains_key(key) {
        allocations[key]
    } else {
        activation::unused_allocation(owner, slot)
    };
    ordered::sorting_keeps_the_elements::<String>(known.device_ids.to_set().union(devices));
}

proof fn lemma_inputs_used(
    allocations: AllocationMap,
    owner: Seq<char>,
    slots: Seq<VulkanDistributedActivationSlotView>,
    devices: Set<Seq<char>>,
)
    requires
        keyed(allocations),
        devices.finite(),
        sequence::try_fold(slots, allocations, activation::input_step(owner, devices)) is Ok,
    ensures
        ({
            let after = sequence::try_fold(
                slots,
                allocations,
                activation::input_step(owner, devices),
            )->Ok_0;
            &&& keyed(after)
            &&& forall|i: int|
                0 <= i < slots.len() ==> serves(after, owner, #[trigger] slots[i], devices)
            &&& grows(allocations, after)
        }),
    decreases slots.len(),
{
    if slots.len() > 0 {
        let front = slots.drop_last();
        lemma_inputs_used(allocations, owner, front, devices);
        let step = activation::input_step(owner, devices);
        let before = sequence::try_fold(front, allocations, step)->Ok_0;
        let after = sequence::try_fold(slots, allocations, step)->Ok_0;
        lemma_used(
            before,
            owner,
            slots.last(),
            devices,
            VulkanDistributedActivationAccess::Input,
        );
        assert forall|i: int| 0 <= i < slots.len() implies serves(
            after,
            owner,
            #[trigger] slots[i],
            devices,
        ) by {
            if i < front.len() {
                assert(serves(before, owner, front[i], devices));
            }
        }
    }
}

/// Whether the slots of a dispatch are served.
pub open spec fn dispatch_served(
    allocations: AllocationMap,
    dispatch: VulkanDistributedDispatchPlanView,
) -> bool {
    let owner = dispatch.owner_device_id;
    let devices = activation::participants(dispatch);
    &&& serves(allocations, owner, dispatch.input_activation, devices)
    &&& forall|i: int|
        0 <= i < dispatch.auxiliary_input_activations.len() ==> serves(
            allocations,
            owner,
            #[trigger] dispatch.auxiliary_input_activations[i],
            devices,
        )
    &&& serves(allocations, owner, dispatch.output_activation, devices)
}

proof fn lemma_dispatch_used(
    pool: Seq<Seq<char>>,
    allocations: AllocationMap,
    dispatch: VulkanDistributedDispatchPlanView,
)
    requires
        keyed(allocations),
        activation::dispatch_activations(pool, allocations, dispatch) is Ok,
    ensures
        ({
            let after = activation::dispatch_activations(pool, allocations, dispatch)->Ok_0;
            &&& keyed(after)
            &&& dispatch_served(after, dispatch)
            &&& grows(allocations, after)
        }),
{
    broadcast use vstd::seq_lib::seq_to_set_is_finite;

    reveal(activation::dispatch_activations);
    let owner = dispatch.owner_device_id;
    let devices = activation::participants(dispatch);
    let read = VulkanDistributedActivationAccess::Input;
    let with_input = activation::activation_used(
        allocations,
        owner,
        dispatch.input_activation,
        devices,
        read,
    )->Ok_0;
    lemma_used(allocations, owner, dispatch.input_activation, devices, read);
    let slots = dispatch.auxiliary_input_activations;
    lemma_inputs_used(with_input, owner, slots, devices);
    let with_inputs = sequence::try_fold(
        slots,
        with_input,
        activation::input_step(owner, devices),
    )->Ok_0;
    lemma_used(
        with_inputs,
        owner,
        dispatch.output_activation,
        devices,
        VulkanDistributedActivationAccess::Output,
    );
}

proof fn lemma_dispatches_used(
    pool: Seq<Seq<char>>,
    dispatches: Seq<VulkanDistributedDispatchPlanView>,
)
    requires
        sequence::try_fold(
            dispatches,
            Map::<AllocationKey, VulkanDistributedActivationBufferAllocationView>::empty(),
            activation::activations_step(pool),
        ) is Ok,
    ensures
        ({
            let after = sequence::try_fold(
                dispatches,
                Map::<AllocationKey, VulkanDistributedActivationBufferAllocationView>::empty(),
                activation::activations_step(pool),
            )->Ok_0;
            &&& keyed(after)
            &&& forall|i: int|
                0 <= i < dispatches.len() ==> dispatch_served(after, #[trigger] dispatches[i])
        }),
    decreases dispatches.len(),
{
    let init = Map::<AllocationKey, VulkanDistributedActivationBufferAllocationView>::empty();
    let step = activation::activations_step(pool);
    if dispatches.len() > 0 {
        let front = dispatches.drop_last();
        lemma_dispatches_used(pool, front);
        let before = sequence::try_fold(front, init, step)->Ok_0;
        let after = sequence::try_fold(dispatches, init, step)->Ok_0;
        lemma_dispatch_used(pool, before, dispatches.last());
        assert forall|i: int| 0 <= i < dispatches.len() implies dispatch_served(
            after,
            #[trigger] dispatches[i],
        ) by {
            if i < front.len() {
                assert(dispatch_served(before, front[i]));
                let d = dispatches[i];
                assert forall|k: int| 0 <= k < d.auxiliary_input_activations.len() implies serves(
                    after,
                    d.owner_device_id,
                    #[trigger] d.auxiliary_input_activations[k],
                    activation::participants(d),
                ) by {
                    assert(serves(
                        before,
                        d.owner_device_id,
                        d.auxiliary_input_activations[k],
                        activation::participants(d),
                    ));
                }
            }
        }
    }
}

/// Whether one of these allocations is the slot of a dispatch, shared by all of its devices.
pub open spec fn slot_allocated(
    allocations: Seq<VulkanDistributedActivationBufferAllocationView>,
    dispatch: VulkanDistributedDispatchPlanView,
    slot: VulkanDistributedActivationSlotView,
) -> bool {
    exists|i: int|
        0 <= i < allocations.len() && allocation_key(#[trigger] allocations[i])
            == activation::activation_key(dispatch.owner_device_id, slot)
            && allocations[i].byte_capacity == slot.byte_capacity && activation::participants(
            dispatch,
        ).subset_of(allocations[i].device_ids.to_set())
}

proof fn lemma_value_of_key<K: ordered::SortKey, T>(m: Map<K::V, T>, key: K::V) -> (i: int)
    requires
        m.dom().finite(),
        m.contains_key(key),
    ensures
        0 <= i < ordered::sorted_values::<K, T>(m).len(),
        ordered::sorted_values::<K, T>(m)[i] == m[key],
{
    ordered::sorting_keeps_the_entries::<K, T>(m);
    let entries = ordered::sorted_entries::<K, T>(m);
    ordered::lemma_increasing_entries::<K, T>(entries);
    assert(ordered::map_of(entries).contains_key(key));
    choose|j: int| 0 <= j < entries.len() && (#[trigger] entries[j]).0 == key && entries[j].1
        == ordered::map_of(entries)[key]
}

proof fn lemma_key_of_value<K: ordered::SortKey, T>(m: Map<K::V, T>, i: int) -> (key: K::V)
    requires
        m.dom().finite(),
        0 <= i < ordered::sorted_values::<K, T>(m).len(),
    ensures
        m.contains_key(key),
        ordered::sorted_values::<K, T>(m)[i] == m[key],
        key == ordered::sorted_entries::<K, T>(m)[i].0,
{
    ordered::sorting_keeps_the_entries::<K, T>(m);
    let entries = ordered::sorted_entries::<K, T>(m);
    ordered::lemma_increasing_entries::<K, T>(entries);
    assert(ordered::map_of(entries).contains_key(entries[i].0));
    entries[i].0
}

/// A plan has one allocation for each slot of an owner's component.
pub proof fn every_slot_has_one_allocation(
    execution: VulkanDistributedExecutionPlanView,
    i: int,
    j: int,
)
    requires
        activation::activation_buffer_plan(execution) is Ok,
        0 <= i < j < activation::activation_buffer_plan(execution)->Ok_0.allocations.len(),
    ensures
        ({
            let allocations = activation::activation_buffer_plan(execution)->Ok_0.allocations;
            allocation_key(allocations[i]) != allocation_key(allocations[j])
        }),
{
    lemma_dispatches_used(execution.device_ids, execution.dispatches);
    let found = sequence::try_fold(
        execution.dispatches,
        Map::<AllocationKey, VulkanDistributedActivationBufferAllocationView>::empty(),
        activation::activations_step(execution.device_ids),
    )->Ok_0;
    ordered::sorting_keeps_the_entries::<((String, String), usize), _>(found);
    let entries = ordered::sorted_entries::<((String, String), usize), _>(found);
    ordered::lemma_increasing_entries::<((String, String), usize), _>(entries);
    let a = lemma_key_of_value::<((String, String), usize), _>(found, i);
    let b = lemma_key_of_value::<((String, String), usize), _>(found, j);
    assert(entries[i].0 != entries[j].0);
}

/// Every slot that a distributed dispatch uses has an allocation of its size, which all devices of the
/// dispatch share.
pub proof fn every_used_slot_is_allocated(execution: VulkanDistributedExecutionPlanView, d: int)
    requires
        activation::activation_buffer_plan(execution) is Ok,
        0 <= d < execution.dispatches.len(),
    ensures
        ({
            let allocations = activation::activation_buffer_plan(execution)->Ok_0.allocations;
            let dispatch = execution.dispatches[d];
            &&& slot_allocated(allocations, dispatch, dispatch.input_activation)
            &&& slot_allocated(allocations, dispatch, dispatch.output_activation)
            &&& forall|k: int|
                0 <= k < dispatch.auxiliary_input_activations.len() ==> slot_allocated(
                    allocations,
                    dispatch,
                    #[trigger] dispatch.auxiliary_input_activations[k],
                )
        }),
{
    lemma_dispatches_used(execution.device_ids, execution.dispatches);
    let found = sequence::try_fold(
        execution.dispatches,
        Map::<AllocationKey, VulkanDistributedActivationBufferAllocationView>::empty(),
        activation::activations_step(execution.device_ids),
    )->Ok_0;
    let allocations = activation::activation_buffer_plan(execution)->Ok_0.allocations;
    let dispatch = execution.dispatches[d];
    let owner = dispatch.owner_device_id;
    assert(dispatch_served(found, dispatch));
    assert forall|slot: VulkanDistributedActivationSlotView| #[trigger]
        serves(found, owner, slot, activation::participants(dispatch)) implies slot_allocated(
        allocations,
        dispatch,
        slot,
    ) by {
        let i = lemma_value_of_key::<((String, String), usize), _>(
            found,
            activation::activation_key(owner, slot),
        );
        assert(allocation_key(allocations[i]) == activation::activation_key(owner, slot));
    }
}

// ---------------------------------------------------------------------------
// Parameter ranges
// ---------------------------------------------------------------------------

/// What a range is found by.
pub open spec fn allocated_range(allocation: VulkanDistributedParameterAllocationView) -> RangeKey {
    (
        ((allocation.device_id, allocation.tensor), allocation.byte_offset),
        allocation.byte_count,
    )
}

/// Whether the ranges stand under their keys.
pub open spec fn ranges_keyed(ranges: RangeMap) -> bool {
    &&& ranges.dom().finite()
    &&& forall|key: RangeKey| #[trigger]
        ranges.contains_key(key) ==> allocated_range(ranges[key]) == key
}

proof fn lemma_fragments_used(
    tensors: Map<Seq<char>, TensorMetadataView>,
    device_id: Seq<char>,
    ranges: RangeMap,
    fragments: Seq<VulkanDistributedParameterFragmentView>,
)
    requires
        ranges_keyed(ranges),
        sequence::try_fold(
            fragments,
            ranges,
            parameters::fragment_step(tensors, device_id),
        ) is Ok,
    ensures
        ({
            let after = sequence::try_fold(
                fragments,
                ranges,
                parameters::fragment_step(tensors, device_id),
            )->Ok_0;
            &&& ranges_keyed(after)
            &&& ranges.dom().subset_of(after.dom())
            &&& forall|i: int|
                0 <= i < fragments.len() ==> after.contains_key(
                    parameters::range_key(device_id, #[trigger] fragments[i]),
                )
        }),
    decreases fragments.len(),
{
    if fragments.len() > 0 {
        let front = fragments.drop_last();
        let last = fragments.last();
        lemma_fragments_used(tensors, device_id, ranges, front);
        let step = parameters::fragment_step(tensors, device_id);
        let before = sequence::try_fold(front, ranges, step)->Ok_0;
        let after = sequence::try_fold(fragments, ranges, step)->Ok_0;
        reveal(parameters::fragment_used);
        assert(parameters::fragment_used(tensors, device_id, before, last) == Ok::<
            RangeMap,
            Seq<char>,
        >(after));
        assert forall|i: int| 0 <= i < fragments.len() implies after.contains_key(
            parameters::range_key(device_id, #[trigger] fragments[i]),
        ) by {
            if i < front.len() {
                assert(before.contains_key(parameters::range_key(device_id, front[i])));
            }
        }
    }
}

/// Whether every fragment of a shard has a range.
pub open spec fn shard_has_ranges(
    ranges: RangeMap,
    shard: VulkanDistributedDispatchShardView,
) -> bool {
    forall|k: int|
        0 <= k < shard.parameters.len() ==> ranges.contains_key(
            parameters::range_key(shard.device_id, #[trigger] shard.parameters[k]),
        )
}

proof fn lemma_shards_used(
    pool: Seq<Seq<char>>,
    tensors: Map<Seq<char>, TensorMetadataView>,
    dispatch: VulkanDistributedDispatchPlanView,
    ranges: RangeMap,
    shards: Seq<VulkanDistributedDispatchShardView>,
)
    requires
        ranges_keyed(ranges),
        sequence::try_fold(
            shards,
            ranges,
            parameters::shard_step(pool, tensors, dispatch),
        ) is Ok,
    ensures
        ({
            let after = sequence::try_fold(
                shards,
                ranges,
                parameters::shard_step(pool, tensors, dispatch),
            )->Ok_0;
            &&& ranges_keyed(after)
            &&& ranges.dom().subset_of(after.dom())
            &&& forall|i: int|
                0 <= i < shards.len() ==> shard_has_ranges(after, #[trigger] shards[i])
        }),
    decreases shards.len(),
{
    if shards.len() > 0 {
        let front = shards.drop_last();
        let last = shards.last();
        lemma_shards_used(pool, tensors, dispatch, ranges, front);
        let step = parameters::shard_step(pool, tensors, dispatch);
        let before = sequence::try_fold(front, ranges, step)->Ok_0;
        let after = sequence::try_fold(shards, ranges, step)->Ok_0;
        reveal(parameters::shard_parameters);
        assert(parameters::shard_parameters(pool, tensors, dispatch, before, last) == Ok::<
            RangeMap,
            Seq<char>,
        >(after));
        lemma_fragments_used(tensors, last.device_id, before, last.parameters);
        assert forall|i: int| 0 <= i < shards.len() implies shard_has_ranges(
            after,
            #[trigger] shards[i],
        ) by {
            if i < front.len() {
                assert(shard_has_ranges(before, front[i]));
                let shard = shards[i];
                assert forall|k: int| 0 <= k < shard.parameters.len() implies after.contains_key(
                    parameters::range_key(shard.device_id, #[trigger] shard.parameters[k]),
                ) by {
                    assert(before.dom().contains(
                        parameters::range_key(shard.device_id, shard.parameters[k]),
                    ));
                }
            }
        }
    }
}

/// Whether every fragment of a dispatch has a range.
pub open spec fn dispatch_has_ranges(
    ranges: RangeMap,
    dispatch: VulkanDistributedDispatchPlanView,
) -> bool {
    forall|i: int|
        0 <= i < dispatch.shards.len() ==> shard_has_ranges(ranges, #[trigger] dispatch.shards[i])
}

proof fn lemma_parameters_used(
    pool: Seq<Seq<char>>,
    tensors: Map<Seq<char>, TensorMetadataView>,
    dispatches: Seq<VulkanDistributedDispatchPlanView>,
)
    requires
        sequence::try_fold(
            dispatches,
            Map::<RangeKey, VulkanDistributedParameterAllocationView>::empty(),
            parameters::parameters_step(pool, tensors),
        ) is Ok,
    ensures
        ({
            let after = sequence::try_fold(
                dispatches,
                Map::<RangeKey, VulkanDistributedParameterAllocationView>::empty(),
                parameters::parameters_step(pool, tensors),
            )->Ok_0;
            &&& ranges_keyed(after)
            &&& forall|i: int|
                0 <= i < dispatches.len() ==> dispatch_has_ranges(after, #[trigger] dispatches[i])
        }),
    decreases dispatches.len(),
{
    let init = Map::<RangeKey, VulkanDistributedParameterAllocationView>::empty();
    let step = parameters::parameters_step(pool, tensors);
    if dispatches.len() > 0 {
        let front = dispatches.drop_last();
        let last = dispatches.last();
        lemma_parameters_used(pool, tensors, front);
        let before = sequence::try_fold(front, init, step)->Ok_0;
        let after = sequence::try_fold(dispatches, init, step)->Ok_0;
        lemma_shards_used(pool, tensors, last, before, last.shards);
        assert forall|i: int| 0 <= i < dispatches.len() implies dispatch_has_ranges(
            after,
            #[trigger] dispatches[i],
        ) by {
            if i < front.len() {
                assert(dispatch_has_ranges(before, front[i]));
                let shards = dispatches[i].shards;
                assert forall|n: int| 0 <= n < shards.len() implies shard_has_ranges(
                    after,
                    #[trigger] shards[n],
                ) by {
                    assert(shard_has_ranges(before, shards[n]));
                    let shard = shards[n];
                    assert forall|k: int| 0 <= k < shard.parameters.len() implies after.contains_key(
                        parameters::range_key(shard.device_id, #[trigger] shard.parameters[k]),
                    ) by {
                        assert(before.dom().contains(
                            parameters::range_key(shard.device_id, shard.parameters[k]),
                        ));
                    }
                }
            }
        }
    }
}

/// A plan has one allocation for each byte range of a tensor on a device, however many dispatches read
/// it.
pub proof fn every_range_has_one_allocation(
    execution: VulkanDistributedExecutionPlanView,
    tensors: Map<Seq<char>, TensorMetadataView>,
    i: int,
    j: int,
)
    requires
        parameters::parameter_allocation_plan(execution, tensors) is Ok,
        0 <= i < j < parameters::parameter_allocation_plan(
            execution,
            tensors,
        )->Ok_0.allocations.len(),
    ensures
        ({
            let allocations = parameters::parameter_allocation_plan(
                execution,
                tensors,
            )->Ok_0.allocations;
            allocated_range(allocations[i]) != allocated_range(allocations[j])
        }),
{
    lemma_parameters_used(execution.device_ids, tensors, execution.dispatches);
    let found = sequence::try_fold(
        execution.dispatches,
        Map::<RangeKey, VulkanDistributedParameterAllocationView>::empty(),
        parameters::parameters_step(execution.device_ids, tensors),
    )->Ok_0;
    ordered::sorting_keeps_the_entries::<(((String, String), usize), usize), _>(found);
    let entries = ordered::sorted_entries::<(((String, String), usize), usize), _>(found);
    ordered::lemma_increasing_entries::<(((String, String), usize), usize), _>(entries);
    let a = lemma_key_of_value::<(((String, String), usize), usize), _>(found, i);
    let b = lemma_key_of_value::<(((String, String), usize), usize), _>(found, j);
    assert(entries[i].0 != entries[j].0);
}

/// Every fragment that a shard reads has an allocation on the shard's device.
pub proof fn every_fragment_is_allocated(
    execution: VulkanDistributedExecutionPlanView,
    tensors: Map<Seq<char>, TensorMetadataView>,
    d: int,
    s: int,
    k: int,
)
    requires
        parameters::parameter_allocation_plan(execution, tensors) is Ok,
        0 <= d < execution.dispatches.len(),
        0 <= s < execution.dispatches[d].shards.len(),
        0 <= k < execution.dispatches[d].shards[s].parameters.len(),
    ensures
        ({
            let allocations = parameters::parameter_allocation_plan(
                execution,
                tensors,
            )->Ok_0.allocations;
            let shard = execution.dispatches[d].shards[s];
            exists|i: int|
                0 <= i < allocations.len() && allocated_range(#[trigger] allocations[i])
                    == parameters::range_key(shard.device_id, shard.parameters[k])
        }),
{
    lemma_parameters_used(execution.device_ids, tensors, execution.dispatches);
    let found = sequence::try_fold(
        execution.dispatches,
        Map::<RangeKey, VulkanDistributedParameterAllocationView>::empty(),
        parameters::parameters_step(execution.device_ids, tensors),
    )->Ok_0;
    let allocations = parameters::parameter_allocation_plan(execution, tensors)->Ok_0.allocations;
    let shard = execution.dispatches[d].shards[s];
    assert(dispatch_has_ranges(found, execution.dispatches[d]));
    assert(shard_has_ranges(found, shard));
    let key = parameters::range_key(shard.device_id, shard.parameters[k]);
    assert(found.contains_key(key));
    let i = lemma_value_of_key::<(((String, String), usize), usize), _>(found, key);
    assert(allocated_range(allocations[i]) == key);
}

/// Every tensor of a plan is read once.
pub proof fn every_tensor_is_read_once(
    allocations: Seq<VulkanDistributedParameterAllocationView>,
    i: int,
    j: int,
)
    requires
        0 <= i < j < parameters::tensor_loads(allocations).len(),
    ensures
        parameters::tensor_loads(allocations)[i].tensor != parameters::tensor_loads(
            allocations,
        )[j].tensor,
{
    broadcast use vstd::seq_lib::seq_to_set_is_finite;

    let tensors = parameters::range_tensors(allocations);
    ordered::sorting_keeps_the_elements::<String>(tensors);
    let names = ordered::sorted_elements::<String>(tensors);
    ordered::lemma_increasing_differ::<String>(names, i, j);
}

} // verus!
