//! Parameter fragments: which device holds which bytes of which tensor.

use crate::device::VulkanDeviceDirectory;
use crate::device::VulkanDeviceDirectoryView;
use crate::device::VulkanDeviceObject;
use crate::device::VulkanError;
use crate::device::VulkanResidentBuffer;
use crate::device::VulkanResidentBufferName;
use crate::device::VulkanResidentBufferView;
use crate::device;
use crate::distributed::plan::VulkanDistributedDispatchPlan;
use crate::distributed::plan::VulkanDistributedDispatchPlanView;
use crate::distributed::plan::VulkanDistributedDispatchShard;
use crate::distributed::plan::VulkanDistributedDispatchShardView;
use crate::distributed::plan::VulkanDistributedExecutionPlan;
use crate::distributed::plan::VulkanDistributedExecutionPlanView;
use crate::distributed::plan::VulkanDistributedParameterFragment;
use crate::distributed::plan::VulkanDistributedParameterFragmentView;
use crate::distributed::plan::VulkanDistributedPlanError;
use crate::ordered::OrderedMap;
use crate::ordered::OrderedSet;
use crate::ordered;
use crate::sequence;
use crate::tensors::TensorIndex;
use crate::tensors::TensorMetadataView;
use crate::tensors;
use crate::text::Message;
use crate::text;
use vstd::prelude::*;

verus! {

/// A byte range of a tensor on a device, and how many shards read it.
#[derive(Debug, PartialEq, Eq)]
pub struct VulkanDistributedParameterAllocation {
    pub device_id: String,
    pub tensor: String,
    pub byte_offset: usize,
    pub byte_count: usize,
    pub use_count: usize,
}

#[verifier::ext_equal]
pub struct VulkanDistributedParameterAllocationView {
    pub device_id: Seq<char>,
    pub tensor: Seq<char>,
    pub byte_offset: usize,
    pub byte_count: usize,
    pub use_count: usize,
}

impl DeepView for VulkanDistributedParameterAllocation {
    type V = VulkanDistributedParameterAllocationView;

    open spec fn deep_view(&self) -> VulkanDistributedParameterAllocationView {
        VulkanDistributedParameterAllocationView {
            device_id: self.device_id.deep_view(),
            tensor: self.tensor.deep_view(),
            byte_offset: self.byte_offset,
            byte_count: self.byte_count,
            use_count: self.use_count,
        }
    }
}

impl View for VulkanDistributedParameterAllocation {
    type V = VulkanDistributedParameterAllocationView;

    open spec fn view(&self) -> VulkanDistributedParameterAllocationView {
        self.deep_view()
    }
}

impl Clone for VulkanDistributedParameterAllocation {
    fn clone(&self) -> (r: Self)
        ensures
            r@ == self@,
    {
        VulkanDistributedParameterAllocation {
            device_id: self.device_id.clone(),
            tensor: self.tensor.clone(),
            byte_offset: self.byte_offset,
            byte_count: self.byte_count,
            use_count: self.use_count,
        }
    }
}

/// The parameter ranges of an execution plan.
#[derive(Debug, PartialEq, Eq)]
pub struct VulkanDistributedParameterAllocationPlan {
    pub allocations: Vec<VulkanDistributedParameterAllocation>,
    pub allocation_count: usize,
    pub tensor_count: usize,
    pub total_byte_capacity: usize,
}

#[verifier::ext_equal]
pub struct VulkanDistributedParameterAllocationPlanView {
    pub allocations: Seq<VulkanDistributedParameterAllocationView>,
    pub allocation_count: usize,
    pub tensor_count: usize,
    pub total_byte_capacity: usize,
}

impl DeepView for VulkanDistributedParameterAllocationPlan {
    type V = VulkanDistributedParameterAllocationPlanView;

    open spec fn deep_view(&self) -> VulkanDistributedParameterAllocationPlanView {
        VulkanDistributedParameterAllocationPlanView {
            allocations: self.allocations.deep_view(),
            allocation_count: self.allocation_count,
            tensor_count: self.tensor_count,
            total_byte_capacity: self.total_byte_capacity,
        }
    }
}

impl View for VulkanDistributedParameterAllocationPlan {
    type V = VulkanDistributedParameterAllocationPlanView;

    open spec fn view(&self) -> VulkanDistributedParameterAllocationPlanView {
        self.deep_view()
    }
}

impl Clone for VulkanDistributedParameterAllocationPlan {
    fn clone(&self) -> (r: Self)
        ensures
            r@ == self@,
    {
        VulkanDistributedParameterAllocationPlan {
            allocations: self.allocations.clone(),
            allocation_count: self.allocation_count,
            tensor_count: self.tensor_count,
            total_byte_capacity: self.total_byte_capacity,
        }
    }
}

/// Device, tensor, offset and size: what a range is found by.
pub type RangeKey = (((Seq<char>, Seq<char>), usize), usize);

/// Ranges by their keys.
pub type RangeMap = Map<RangeKey, VulkanDistributedParameterAllocationView>;

/// The key of a fragment on a device.
pub open spec fn range_key(
    device_id: Seq<char>,
    fragment: VulkanDistributedParameterFragmentView,
) -> RangeKey {
    (((device_id, fragment.tensor), fragment.byte_offset), fragment.byte_count)
}

/// Records one use of a fragment on a device.
#[verifier::opaque]
pub open spec fn fragment_used(
    tensors: Map<Seq<char>, TensorMetadataView>,
    device_id: Seq<char>,
    ranges: RangeMap,
    fragment: VulkanDistributedParameterFragmentView,
) -> Result<RangeMap, Seq<char>> {
    let name = "distributed parameter tensor "@ + text::quoted(fragment.tensor);
    let key = range_key(device_id, fragment);
    if !tensors.contains_key(fragment.tensor) {
        Err(
            "distributed parameter fragment has no tensor metadata for "@ + text::quoted(
                fragment.tensor,
            ),
        )
    } else {
        match tensors[fragment.tensor].byte_count {
            None => Err(name + " has no byte count"@),
            Some(tensor_bytes) => {
                let end = fragment.byte_offset + fragment.byte_count;
                if fragment.byte_count == 0 {
                    Err(name + " has an empty fragment"@)
                } else if end > usize::MAX {
                    Err(name + " fragment range overflowed"@)
                } else if end > tensor_bytes {
                    Err(
                        name + " has "@ + text::decimal(tensor_bytes as nat)
                            + " bytes but a fragment ends at "@ + text::decimal(end as nat),
                    )
                } else if ranges.contains_key(key) {
                    if ranges[key].use_count + 1 > usize::MAX {
                        Err(name + " use count overflowed"@)
                    } else {
                        Ok(
                            ranges.insert(
                                key,
                                VulkanDistributedParameterAllocationView {
                                    use_count: (ranges[key].use_count + 1) as usize,
                                    ..ranges[key]
                                },
                            ),
                        )
                    }
                } else {
                    Ok(
                        ranges.insert(
                            key,
                            VulkanDistributedParameterAllocationView {
                                device_id,
                                tensor: fragment.tensor,
                                byte_offset: fragment.byte_offset,
                                byte_count: fragment.byte_count,
                                use_count: 1,
                            },
                        ),
                    )
                }
            },
        }
    }
}

/// One step over the fragments of a shard.
pub open spec fn fragment_step(
    tensors: Map<Seq<char>, TensorMetadataView>,
    device_id: Seq<char>,
) -> spec_fn(RangeMap, VulkanDistributedParameterFragmentView) -> Result<RangeMap, Seq<char>> {
    |ranges: RangeMap, fragment: VulkanDistributedParameterFragmentView|
        fragment_used(tensors, device_id, ranges, fragment)
}

/// Records the fragments of one shard.
#[verifier::opaque]
pub open spec fn shard_parameters(
    pool: Seq<Seq<char>>,
    tensors: Map<Seq<char>, TensorMetadataView>,
    dispatch: VulkanDistributedDispatchPlanView,
    ranges: RangeMap,
    shard: VulkanDistributedDispatchShardView,
) -> Result<RangeMap, Seq<char>> {
    if !pool.contains(shard.device_id) {
        Err(
            "distributed parameter shard for "@ + dispatch.component_id + "."@ + dispatch.node_id
                + " uses device "@ + text::quoted(shard.device_id) + " outside the execution pool"@,
        )
    } else {
        sequence::try_fold(shard.parameters, ranges, fragment_step(tensors, shard.device_id))
    }
}

/// One step over the shards of a dispatch.
pub open spec fn shard_step(
    pool: Seq<Seq<char>>,
    tensors: Map<Seq<char>, TensorMetadataView>,
    dispatch: VulkanDistributedDispatchPlanView,
) -> spec_fn(RangeMap, VulkanDistributedDispatchShardView) -> Result<RangeMap, Seq<char>> {
    |ranges: RangeMap, shard: VulkanDistributedDispatchShardView|
        shard_parameters(pool, tensors, dispatch, ranges, shard)
}

/// One step over the dispatches.
pub open spec fn parameters_step(
    pool: Seq<Seq<char>>,
    tensors: Map<Seq<char>, TensorMetadataView>,
) -> spec_fn(RangeMap, VulkanDistributedDispatchPlanView) -> Result<RangeMap, Seq<char>> {
    |ranges: RangeMap, dispatch: VulkanDistributedDispatchPlanView|
        sequence::try_fold(dispatch.shards, ranges, shard_step(pool, tensors, dispatch))
}

/// The tensors of these ranges.
pub open spec fn range_tensors(
    allocations: Seq<VulkanDistributedParameterAllocationView>,
) -> Set<Seq<char>> {
    allocations.map_values(|a: VulkanDistributedParameterAllocationView| a.tensor).to_set()
}

/// The ranges of one tensor, whatever device holds them.
pub open spec fn tensor_ranges(
    allocations: Seq<VulkanDistributedParameterAllocationView>,
    tensor: Seq<char>,
) -> Set<(usize, usize)>
    decreases allocations.len(),
{
    if allocations.len() == 0 {
        Set::empty()
    } else {
        let front = tensor_ranges(allocations.drop_last(), tensor);
        if allocations.last().tensor == tensor {
            front.insert((allocations.last().byte_offset, allocations.last().byte_count))
        } else {
            front
        }
    }
}

/// Extends a gapless cover by one range.
pub open spec fn cover_step(tensor: Seq<char>) -> spec_fn(usize, (usize, usize)) -> Result<
    usize,
    Seq<char>,
> {
    |next: usize, range: (usize, usize)|
        if range.0 != next {
            Err(
                "distributed parameter tensor "@ + text::quoted(tensor)
                    + " has a gap or overlap at byte "@ + text::decimal(next as nat),
            )
        } else if next + range.1 > usize::MAX {
            Err(
                "distributed parameter tensor "@ + text::quoted(tensor) + " partition overflowed"@,
            )
        } else {
            Ok((next + range.1) as usize)
        }
}

/// Whether the ranges of a tensor, in order, cover it without gap and overlap.
#[verifier::opaque]
pub open spec fn tensor_covered(
    tensors: Map<Seq<char>, TensorMetadataView>,
    allocations: Seq<VulkanDistributedParameterAllocationView>,
    tensor: Seq<char>,
) -> Result<(), Seq<char>> {
    match tensors::recorded_byte_count(tensors, tensor) {
        None => Err(
            "distributed parameter tensor "@ + text::quoted(tensor) + " has no byte count"@,
        ),
        Some(bytes) => match sequence::try_fold(
            ordered::sorted_elements::<(usize, usize)>(tensor_ranges(allocations, tensor)),
            0usize,
            cover_step(tensor),
        ) {
            Err(e) => Err(e),
            Ok(covered) => if covered != bytes {
                Err(
                    "distributed parameter tensor "@ + text::quoted(tensor) + " partition covers "@
                        + text::decimal(covered as nat) + " of "@ + text::decimal(bytes as nat)
                        + " bytes"@,
                )
            } else {
                Ok(())
            },
        },
    }
}

/// The coverage of one tensor.
pub open spec fn coverage_of(
    tensors: Map<Seq<char>, TensorMetadataView>,
    allocations: Seq<VulkanDistributedParameterAllocationView>,
) -> spec_fn(Seq<char>) -> Result<(), Seq<char>> {
    |tensor: Seq<char>| tensor_covered(tensors, allocations, tensor)
}

/// Whether every tensor is covered; the tensors are looked at in order.
pub open spec fn coverage_check(
    tensors: Map<Seq<char>, TensorMetadataView>,
    allocations: Seq<VulkanDistributedParameterAllocationView>,
) -> Result<Seq<()>, Seq<char>> {
    sequence::try_map(
        ordered::sorted_elements::<String>(range_tensors(allocations)),
        coverage_of(tensors, allocations),
    )
}

/// Bytes of a range.
pub open spec fn range_bytes() -> spec_fn(VulkanDistributedParameterAllocationView) -> nat {
    |a: VulkanDistributedParameterAllocationView| a.byte_count as nat
}

/// The plan of these ranges, with its totals.
pub open spec fn parameter_totals(
    allocations: Seq<VulkanDistributedParameterAllocationView>,
) -> Result<VulkanDistributedParameterAllocationPlanView, Seq<char>> {
    if sequence::total(allocations, range_bytes()) > usize::MAX {
        Err("distributed parameter allocation byte count overflowed"@)
    } else {
        Ok(
            VulkanDistributedParameterAllocationPlanView {
                allocations,
                allocation_count: allocations.len() as usize,
                tensor_count: ordered::sorted_elements::<String>(
                    range_tensors(allocations),
                ).len() as usize,
                total_byte_capacity: sequence::total(allocations, range_bytes()) as usize,
            },
        )
    }
}

/// The parameter ranges of an execution plan, in the order of device, tensor, offset and size.
pub open spec fn parameter_allocation_plan(
    execution_plan: VulkanDistributedExecutionPlanView,
    tensors: Map<Seq<char>, TensorMetadataView>,
) -> Result<VulkanDistributedParameterAllocationPlanView, Seq<char>> {
    match sequence::try_fold(
        execution_plan.dispatches,
        Map::empty(),
        parameters_step(execution_plan.device_ids, tensors),
    ) {
        Err(e) => Err(e),
        Ok(ranges) => {
            let allocations = ordered::sorted_values::<(((String, String), usize), usize), _>(
                ranges,
            );
            match coverage_check(tensors, allocations) {
                Err(e) => Err(e),
                Ok(_) => parameter_totals(allocations),
            }
        },
    }
}

struct Ranges {
    by_key: OrderedMap<(((String, String), usize), usize), VulkanDistributedParameterAllocation>,
}

impl Ranges {
    fn name(fragment: &VulkanDistributedParameterFragment) -> (r: Message)
        ensures
            r@ == "distributed parameter tensor "@ + text::quoted(fragment@.tensor),
    {
        Message::new("distributed parameter tensor ").quoted(fragment.tensor.as_str())
    }

    fn record(
        self,
        tensor_index: &TensorIndex,
        device_id: &String,
        fragment: &VulkanDistributedParameterFragment,
    ) -> (r: Result<Ranges, VulkanDistributedPlanError>)
        requires
            self.by_key.sorted(),
        ensures
            (match r {
                Ok(next) => Ok::<RangeMap, Seq<char>>(next.by_key@),
                Err(e) => Err(e@),
            }) == fragment_used(tensor_index@.tensors, device_id@, self.by_key@, fragment@),
            r is Ok ==> r->Ok_0.by_key.sorted(),
    {
        reveal(fragment_used);
        let tensor_bytes: usize = match tensor_index.tensors.get(&fragment.tensor) {
            None => return Err(
                VulkanDistributedPlanError(
                    Message::new("distributed parameter fragment has no tensor metadata for ").quoted(
                        fragment.tensor.as_str(),
                    ).done(),
                ),
            ),
            Some(metadata) => match metadata.byte_count {
                Some(count) => count,
                None => return Err(
                    VulkanDistributedPlanError(
                        Self::name(fragment).text(" has no byte count").done(),
                    ),
                ),
            },
        };
        if fragment.byte_count == 0 {
            return Err(
                VulkanDistributedPlanError(
                    Self::name(fragment).text(" has an empty fragment").done(),
                ),
            );
        }
        let end: usize = match fragment.byte_offset.checked_add(fragment.byte_count) {
            Some(end) => end,
            None => return Err(
                VulkanDistributedPlanError(
                    Self::name(fragment).text(" fragment range overflowed").done(),
                ),
            ),
        };
        if end > tensor_bytes {
            return Err(
                VulkanDistributedPlanError(
                    Self::name(fragment).text(" has ").number(tensor_bytes).text(
                        " bytes but a fragment ends at ",
                    ).number(end).done(),
                ),
            );
        }
        let key: (((String, String), usize), usize) = (
            ((device_id.clone(), fragment.tensor.clone()), fragment.byte_offset),
            fragment.byte_count,
        );
        assert(key.deep_view() == range_key(device_id@, fragment@));
        let updated: VulkanDistributedParameterAllocation = match self.by_key.get(&key) {
            Some(known) => {
                let mut allocation: VulkanDistributedParameterAllocation = known.clone();
                match allocation.use_count.checked_add(1) {
                    Some(count) => {
                        allocation.use_count = count;
                    },
                    None => return Err(
                        VulkanDistributedPlanError(
                            Self::name(fragment).text(" use count overflowed").done(),
                        ),
                    ),
                }
                allocation
            },
            None => VulkanDistributedParameterAllocation {
                device_id: device_id.clone(),
                tensor: fragment.tensor.clone(),
                byte_offset: fragment.byte_offset,
                byte_count: fragment.byte_count,
                use_count: 1,
            },
        };
        let mut by_key: OrderedMap<
            (((String, String), usize), usize),
            VulkanDistributedParameterAllocation,
        > = self.by_key;
        by_key.insert(key, updated);
        Ok(Ranges { by_key })
    }

    #[verifier::loop_isolation(false)]
    fn record_shard(
        self,
        pool: &Vec<String>,
        tensor_index: &TensorIndex,
        dispatch: &VulkanDistributedDispatchPlan,
        shard: &VulkanDistributedDispatchShard,
    ) -> (r: Result<Ranges, VulkanDistributedPlanError>)
        requires
            self.by_key.sorted(),
        ensures
            (match r {
                Ok(next) => Ok::<RangeMap, Seq<char>>(next.by_key@),
                Err(e) => Err(e@),
            }) == shard_parameters(
                pool.deep_view(),
                tensor_index@.tensors,
                dispatch@,
                self.by_key@,
                shard@,
            ),
            r is Ok ==> r->Ok_0.by_key.sorted(),
    {
        reveal(shard_parameters);
        if !sequence::contains_text(pool, shard.device_id.as_str()) {
            return Err(
                VulkanDistributedPlanError(
                    Message::new("distributed parameter shard for ").text(
                        dispatch.component_id.as_str(),
                    ).text(".").text(dispatch.node_id.as_str()).text(" uses device ").quoted(
                        shard.device_id.as_str(),
                    ).text(" outside the execution pool").done(),
                ),
            );
        }
        let ghost all = shard.parameters.deep_view();
        let ghost init = self.by_key@;
        let ghost step = fragment_step(tensor_index@.tensors, shard.device_id@);
        let mut recorded: Ranges = self;
        let mut i: usize = 0;
        assert(all.take(0) =~= Seq::empty());
        while i < shard.parameters.len()
            invariant
                i <= shard.parameters.len(),
                recorded.by_key.sorted(),
                sequence::try_fold(all.take(i as int), init, step) == Ok::<RangeMap, Seq<char>>(
                    recorded.by_key@,
                ),
            decreases shard.parameters.len() - i,
        {
            proof {
                sequence::lemma_try_fold_step(all, init, step, i as int);
            }
            match recorded.record(tensor_index, &shard.device_id, &shard.parameters[i]) {
                Ok(next) => {
                    recorded = next;
                },
                Err(e) => {
                    proof {
                        sequence::lemma_try_fold_error(all, init, step, i + 1);
                    }
                    return Err(e);
                },
            }
            i += 1;
        }
        assert(all.take(all.len() as int) =~= all);
        Ok(recorded)
    }

    #[verifier::loop_isolation(false)]
    fn record_dispatch(
        self,
        pool: &Vec<String>,
        tensor_index: &TensorIndex,
        dispatch: &VulkanDistributedDispatchPlan,
    ) -> (r: Result<Ranges, VulkanDistributedPlanError>)
        requires
            self.by_key.sorted(),
        ensures
            (match r {
                Ok(next) => Ok::<RangeMap, Seq<char>>(next.by_key@),
                Err(e) => Err(e@),
            }) == parameters_step(pool.deep_view(), tensor_index@.tensors)(
                self.by_key@,
                dispatch@,
            ),
            r is Ok ==> r->Ok_0.by_key.sorted(),
    {
        let ghost all = dispatch.shards.deep_view();
        let ghost init = self.by_key@;
        let ghost step = shard_step(pool.deep_view(), tensor_index@.tensors, dispatch@);
        let mut recorded: Ranges = self;
        let mut i: usize = 0;
        assert(all.take(0) =~= Seq::empty());
        while i < dispatch.shards.len()
            invariant
                i <= dispatch.shards.len(),
                recorded.by_key.sorted(),
                sequence::try_fold(all.take(i as int), init, step) == Ok::<RangeMap, Seq<char>>(
                    recorded.by_key@,
                ),
            decreases dispatch.shards.len() - i,
        {
            proof {
                sequence::lemma_try_fold_step(all, init, step, i as int);
            }
            match recorded.record_shard(pool, tensor_index, dispatch, &dispatch.shards[i]) {
                Ok(next) => {
                    recorded = next;
                },
                Err(e) => {
                    proof {
                        sequence::lemma_try_fold_error(all, init, step, i + 1);
                    }
                    return Err(e);
                },
            }
            i += 1;
        }
        assert(all.take(all.len() as int) =~= all);
        Ok(recorded)
    }
}

#[verifier::loop_isolation(false)]
fn list_range_tensors(allocations: &Vec<VulkanDistributedParameterAllocation>) -> (r: OrderedSet<
    String,
>)
    ensures
        r.sorted(),
        r.elements.deep_view() == ordered::sorted_elements::<String>(
            range_tensors(allocations.deep_view()),
        ),
{
    let ghost f = |a: VulkanDistributedParameterAllocationView| a.tensor;
    let mut names: Vec<String> = Vec::new();
    let mut i: usize = 0;
    while i < allocations.len()
        invariant
            i <= allocations.len(),
            names@.len() == i,
            forall|j: int|
                0 <= j < i ==> (#[trigger] names.deep_view()[j]) == allocations.deep_view()[j].tensor,
        decreases allocations.len() - i,
    {
        let ghost before = names.deep_view();
        names.push(allocations[i].tensor.clone());
        assert(names.deep_view() =~= before.push(allocations.deep_view()[i as int].tensor));
        i += 1;
    }
    assert(names.deep_view() =~= allocations.deep_view().map_values(
        |a: VulkanDistributedParameterAllocationView| a.tensor,
    ));
    ordered::distinct_texts(&names)
}

#[verifier::loop_isolation(false)]
fn list_tensor_ranges(
    allocations: &Vec<VulkanDistributedParameterAllocation>,
    tensor: &String,
) -> (r: OrderedSet<(usize, usize)>)
    ensures
        r.sorted(),
        r@ == tensor_ranges(allocations.deep_view(), tensor@),
        r.elements.deep_view() == ordered::sorted_elements::<(usize, usize)>(
            tensor_ranges(allocations.deep_view(), tensor@),
        ),
{
    let ghost all = allocations.deep_view();
    let mut ranges: OrderedSet<(usize, usize)> = OrderedSet::new();
    let mut i: usize = 0;
    while i < allocations.len()
        invariant
            i <= allocations.len(),
            ranges.sorted(),
            ranges@ == tensor_ranges(all.take(i as int), tensor@),
        decreases allocations.len() - i,
    {
        assert(all.take(i + 1).drop_last() =~= all.take(i as int));
        if allocations[i].tensor == *tensor {
            ranges.insert((allocations[i].byte_offset, allocations[i].byte_count));
        }
        i += 1;
    }
    assert(all.take(all.len() as int) =~= all);
    proof {
        ordered::lemma_sorted_elements::<(usize, usize)>(ranges.elements.deep_view());
    }
    ranges
}

#[verifier::loop_isolation(false)]
fn validate_tensor_coverage(
    tensor_index: &TensorIndex,
    allocations: &Vec<VulkanDistributedParameterAllocation>,
    tensor: &String,
) -> (r: Result<(), VulkanDistributedPlanError>)
    ensures
        sequence::outcome(r) == tensor_covered(
            tensor_index@.tensors,
            allocations.deep_view(),
            tensor@,
        ),
{
    reveal(tensor_covered);
    let bytes: usize = match tensor_index.byte_count(tensor) {
        Some(bytes) => bytes,
        None => return Err(
            VulkanDistributedPlanError(
                Message::new("distributed parameter tensor ").quoted(tensor.as_str()).text(
                    " has no byte count",
                ).done(),
            ),
        ),
    };
    let ranges: OrderedSet<(usize, usize)> = list_tensor_ranges(allocations, tensor);
    let ghost all = ranges.elements.deep_view();
    let ghost step = cover_step(tensor@);
    let mut next: usize = 0;
    let mut i: usize = 0;
    assert(all.take(0) =~= Seq::empty());
    while i < ranges.elements.len()
        invariant
            i <= ranges.elements.len(),
            sequence::try_fold(all.take(i as int), 0usize, step) == Ok::<usize, Seq<char>>(next),
        decreases ranges.elements.len() - i,
    {
        proof {
            sequence::lemma_try_fold_step(all, 0usize, step, i as int);
        }
        let (offset, count): (usize, usize) = ranges.elements[i];
        assert(all[i as int] == (offset, count));
        if offset != next {
            proof {
                sequence::lemma_try_fold_error(all, 0usize, step, i + 1);
            }
            return Err(
                VulkanDistributedPlanError(
                    Message::new("distributed parameter tensor ").quoted(tensor.as_str()).text(
                        " has a gap or overlap at byte ",
                    ).number(next).done(),
                ),
            );
        }
        match next.checked_add(count) {
            Some(end) => {
                next = end;
            },
            None => {
                proof {
                    sequence::lemma_try_fold_error(all, 0usize, step, i + 1);
                }
                return Err(
                    VulkanDistributedPlanError(
                        Message::new("distributed parameter tensor ").quoted(tensor.as_str()).text(
                            " partition overflowed",
                        ).done(),
                    ),
                );
            },
        }
        i += 1;
    }
    assert(all.take(all.len() as int) =~= all);
    if next != bytes {
        return Err(
            VulkanDistributedPlanError(
                Message::new("distributed parameter tensor ").quoted(tensor.as_str()).text(
                    " partition covers ",
                ).number(next).text(" of ").number(bytes).text(" bytes").done(),
            ),
        );
    }
    Ok(())
}

#[verifier::loop_isolation(false)]
fn validate_tensor_partition_coverage(
    allocations: &Vec<VulkanDistributedParameterAllocation>,
    tensor_index: &TensorIndex,
) -> (r: Result<(), VulkanDistributedPlanError>)
    ensures
        match r {
            Ok(_) => coverage_check(tensor_index@.tensors, allocations.deep_view()) is Ok,
            Err(e) => coverage_check(tensor_index@.tensors, allocations.deep_view()) == Err::<
                Seq<()>,
                Seq<char>,
            >(e@),
        },
{
    let names: OrderedSet<String> = list_range_tensors(allocations);
    let ghost all = names.elements.deep_view();
    let ghost f = coverage_of(tensor_index@.tensors, allocations.deep_view());
    let mut i: usize = 0;
    assert(all.take(0) =~= Seq::empty());
    while i < names.elements.len()
        invariant
            i <= names.elements.len(),
            sequence::try_map(all.take(i as int), f) is Ok,
        decreases names.elements.len() - i,
    {
        proof {
            sequence::lemma_try_map_step(all, f, i as int);
        }
        match validate_tensor_coverage(tensor_index, allocations, &names.elements[i]) {
            Ok(_) => {},
            Err(e) => {
                proof {
                    sequence::lemma_try_map_error(all, f, i + 1);
                }
                return Err(e);
            },
        }
        i += 1;
    }
    assert(all.take(all.len() as int) =~= all);
    Ok(())
}

#[verifier::loop_isolation(false)]
fn sum_range_bytes(allocations: &Vec<VulkanDistributedParameterAllocation>) -> (r: Option<usize>)
    ensures
        r is Some == (sequence::total(allocations.deep_view(), range_bytes()) <= usize::MAX),
        r is Some ==> r->0 == sequence::total(allocations.deep_view(), range_bytes()),
{
    let ghost all = allocations.deep_view();
    let mut bytes: usize = 0;
    let mut i: usize = 0;
    while i < allocations.len()
        invariant
            i <= allocations.len(),
            bytes == sequence::total(all.take(i as int), range_bytes()),
        decreases allocations.len() - i,
    {
        proof {
            sequence::lemma_total_step(all, range_bytes(), i as int);
            sequence::lemma_total_prefix(all, range_bytes(), i + 1);
            assert(all[i as int] == allocations@[i as int]@);
        }
        match bytes.checked_add(allocations[i].byte_count) {
            Some(total) => {
                bytes = total;
            },
            None => return None,
        }
        i += 1;
    }
    assert(all.take(all.len() as int) =~= all);
    Some(bytes)
}

impl VulkanDistributedParameterAllocationPlan {
    /// Collects the parameter ranges that the shards of a plan read, and checks that the ranges
    /// of every tensor cover it without gap and overlap.
    #[verifier::loop_isolation(false)]
    pub fn from_execution_plan(
        execution_plan: &VulkanDistributedExecutionPlan,
        tensor_index: &TensorIndex,
    ) -> (r: Result<Self, VulkanDistributedPlanError>)
        ensures
            sequence::outcome(r) == parameter_allocation_plan(
                execution_plan@,
                tensor_index@.tensors,
            ),
    {
        let ghost all = execution_plan.dispatches.deep_view();
        let ghost step = parameters_step(execution_plan@.device_ids, tensor_index@.tensors);
        let mut recorded = Ranges { by_key: OrderedMap::new() };
        let mut i: usize = 0;
        assert(all.take(0) =~= Seq::empty());
        while i < execution_plan.dispatches.len()
            invariant
                i <= execution_plan.dispatches.len(),
                recorded.by_key.sorted(),
                sequence::try_fold(all.take(i as int), Map::empty(), step) == Ok::<
                    RangeMap,
                    Seq<char>,
                >(recorded.by_key@),
            decreases execution_plan.dispatches.len() - i,
        {
            proof {
                sequence::lemma_try_fold_step(all, Map::empty(), step, i as int);
            }
            match recorded.record_dispatch(
                &execution_plan.device_ids,
                tensor_index,
                &execution_plan.dispatches[i],
            ) {
                Ok(next) => {
                    recorded = next;
                },
                Err(e) => {
                    proof {
                        sequence::lemma_try_fold_error(all, Map::empty(), step, i + 1);
                    }
                    return Err(e);
                },
            }
            i += 1;
        }
        assert(all.take(all.len() as int) =~= all);
        let allocations: Vec<VulkanDistributedParameterAllocation> =
            recorded.by_key.into_values();
        match validate_tensor_partition_coverage(&allocations, tensor_index) {
            Ok(_) => {},
            Err(e) => return Err(e),
        }
        let total_byte_capacity: usize = match sum_range_bytes(&allocations) {
            Some(bytes) => bytes,
            None => return Err(
                VulkanDistributedPlanError(
                    "distributed parameter allocation byte count overflowed".to_owned(),
                ),
            ),
        };
        let names: OrderedSet<String> = list_range_tensors(&allocations);
        assert(names.elements.deep_view().len() == names.elements@.len());
        assert(allocations.deep_view().len() == allocations@.len());
        Ok(
            VulkanDistributedParameterAllocationPlan {
                allocation_count: allocations.len(),
                allocations,
                tensor_count: names.elements.len(),
                total_byte_capacity,
            },
        )
    }
}

// ---------------------------------------------------------------------------
// Loading
// ---------------------------------------------------------------------------

/// What loading the parameters amounted to.
#[derive(Debug, PartialEq, Eq)]
pub struct VulkanDistributedParameterLoadReport {
    pub tensor_count: usize,
    pub source_file_count: usize,
    pub allocation_count: usize,
    pub write_count: usize,
    pub total_bytes_read: usize,
    pub total_bytes_written: usize,
}

#[verifier::ext_equal]
pub struct VulkanDistributedParameterLoadReportView {
    pub tensor_count: usize,
    pub source_file_count: usize,
    pub allocation_count: usize,
    pub write_count: usize,
    pub total_bytes_read: usize,
    pub total_bytes_written: usize,
}

impl DeepView for VulkanDistributedParameterLoadReport {
    type V = VulkanDistributedParameterLoadReportView;

    open spec fn deep_view(&self) -> VulkanDistributedParameterLoadReportView {
        VulkanDistributedParameterLoadReportView {
            tensor_count: self.tensor_count,
            source_file_count: self.source_file_count,
            allocation_count: self.allocation_count,
            write_count: self.write_count,
            total_bytes_read: self.total_bytes_read,
            total_bytes_written: self.total_bytes_written,
        }
    }
}

impl View for VulkanDistributedParameterLoadReport {
    type V = VulkanDistributedParameterLoadReportView;

    open spec fn view(&self) -> VulkanDistributedParameterLoadReportView {
        self.deep_view()
    }
}

impl Clone for VulkanDistributedParameterLoadReport {
    fn clone(&self) -> (r: Self)
        ensures
            r@ == self@,
    {
        VulkanDistributedParameterLoadReport {
            tensor_count: self.tensor_count,
            source_file_count: self.source_file_count,
            allocation_count: self.allocation_count,
            write_count: self.write_count,
            total_bytes_read: self.total_bytes_read,
            total_bytes_written: self.total_bytes_written,
        }
    }
}

/// Why loading the parameters failed.
#[derive(Debug, PartialEq, Eq)]
pub struct VulkanDistributedParameterLoadError(pub String);

impl DeepView for VulkanDistributedParameterLoadError {
    type V = Seq<char>;

    open spec fn deep_view(&self) -> Seq<char> {
        self.0.deep_view()
    }
}

impl View for VulkanDistributedParameterLoadError {
    type V = Seq<char>;

    open spec fn view(&self) -> Seq<char> {
        self.deep_view()
    }
}

impl Clone for VulkanDistributedParameterLoadError {
    fn clone(&self) -> (r: Self)
        ensures
            r@ == self@,
    {
        VulkanDistributedParameterLoadError(self.0.clone())
    }
}

impl VulkanDistributedParameterLoadError {
    /// The message.
    pub fn to_string(&self) -> (r: String)
        ensures
            r@ == self@,
    {
        self.0.clone()
    }
}

/// A byte range of a tensor, and the allocations that hold it.
#[derive(Debug, PartialEq, Eq)]
pub struct VulkanDistributedRangeLoad {
    pub byte_offset: usize,
    pub byte_count: usize,
    pub allocation_indices: Vec<usize>,
}

#[verifier::ext_equal]
pub struct VulkanDistributedRangeLoadView {
    pub byte_offset: usize,
    pub byte_count: usize,
    pub allocation_indices: Seq<usize>,
}

impl DeepView for VulkanDistributedRangeLoad {
    type V = VulkanDistributedRangeLoadView;

    open spec fn deep_view(&self) -> VulkanDistributedRangeLoadView {
        VulkanDistributedRangeLoadView {
            byte_offset: self.byte_offset,
            byte_count: self.byte_count,
            allocation_indices: self.allocation_indices.deep_view(),
        }
    }
}

impl View for VulkanDistributedRangeLoad {
    type V = VulkanDistributedRangeLoadView;

    open spec fn view(&self) -> VulkanDistributedRangeLoadView {
        self.deep_view()
    }
}

impl Clone for VulkanDistributedRangeLoad {
    fn clone(&self) -> (r: Self)
        ensures
            r@ == self@,
    {
        VulkanDistributedRangeLoad {
            byte_offset: self.byte_offset,
            byte_count: self.byte_count,
            allocation_indices: self.allocation_indices.clone(),
        }
    }
}

/// A tensor with the ranges to read of it.
#[derive(Debug, PartialEq, Eq)]
pub struct VulkanDistributedTensorLoad {
    pub tensor: String,
    pub ranges: Vec<VulkanDistributedRangeLoad>,
}

#[verifier::ext_equal]
pub struct VulkanDistributedTensorLoadView {
    pub tensor: Seq<char>,
    pub ranges: Seq<VulkanDistributedRangeLoadView>,
}

impl DeepView for VulkanDistributedTensorLoad {
    type V = VulkanDistributedTensorLoadView;

    open spec fn deep_view(&self) -> VulkanDistributedTensorLoadView {
        VulkanDistributedTensorLoadView {
            tensor: self.tensor.deep_view(),
            ranges: self.ranges.deep_view(),
        }
    }
}

impl View for VulkanDistributedTensorLoad {
    type V = VulkanDistributedTensorLoadView;

    open spec fn view(&self) -> VulkanDistributedTensorLoadView {
        self.deep_view()
    }
}

impl Clone for VulkanDistributedTensorLoad {
    fn clone(&self) -> (r: Self)
        ensures
            r@ == self@,
    {
        VulkanDistributedTensorLoad {
            tensor: self.tensor.clone(),
            ranges: self.ranges.clone(),
        }
    }
}

/// What was read of a tensor: its file, its size, and the bytes of each range.
#[derive(Debug, PartialEq, Eq)]
pub struct VulkanDistributedTensorPayload {
    pub source_file: String,
    pub byte_count: usize,
    pub payloads: Vec<Vec<u8>>,
}

#[verifier::ext_equal]
pub struct VulkanDistributedTensorPayloadView {
    pub source_file: Seq<char>,
    pub byte_count: usize,
    pub payloads: Seq<Seq<u8>>,
}

impl DeepView for VulkanDistributedTensorPayload {
    type V = VulkanDistributedTensorPayloadView;

    open spec fn deep_view(&self) -> VulkanDistributedTensorPayloadView {
        VulkanDistributedTensorPayloadView {
            source_file: self.source_file.deep_view(),
            byte_count: self.byte_count,
            payloads: self.payloads.deep_view(),
        }
    }
}

impl View for VulkanDistributedTensorPayload {
    type V = VulkanDistributedTensorPayloadView;

    open spec fn view(&self) -> VulkanDistributedTensorPayloadView {
        self.deep_view()
    }
}

impl Clone for VulkanDistributedTensorPayload {
    fn clone(&self) -> (r: Self)
        ensures
            r@ == self@,
    {
        VulkanDistributedTensorPayload {
            source_file: self.source_file.clone(),
            byte_count: self.byte_count,
            payloads: self.payloads.clone(),
        }
    }
}

/// Bytes to write into the buffer of an allocation.
#[derive(Debug, PartialEq, Eq)]
pub struct VulkanDistributedParameterWrite {
    pub allocation_index: usize,
    pub bytes: Vec<u8>,
}

#[verifier::ext_equal]
pub struct VulkanDistributedParameterWriteView {
    pub allocation_index: usize,
    pub bytes: Seq<u8>,
}

impl DeepView for VulkanDistributedParameterWrite {
    type V = VulkanDistributedParameterWriteView;

    open spec fn deep_view(&self) -> VulkanDistributedParameterWriteView {
        VulkanDistributedParameterWriteView {
            allocation_index: self.allocation_index,
            bytes: self.bytes.deep_view(),
        }
    }
}

impl View for VulkanDistributedParameterWrite {
    type V = VulkanDistributedParameterWriteView;

    open spec fn view(&self) -> VulkanDistributedParameterWriteView {
        self.deep_view()
    }
}

impl Clone for VulkanDistributedParameterWrite {
    fn clone(&self) -> (r: Self)
        ensures
            r@ == self@,
    {
        VulkanDistributedParameterWrite {
            allocation_index: self.allocation_index,
            bytes: self.bytes.clone(),
        }
    }
}

/// The positions of the allocations that hold a range of a tensor.
pub open spec fn range_holders(
    allocations: Seq<VulkanDistributedParameterAllocationView>,
    tensor: Seq<char>,
    range: (usize, usize),
) -> Seq<usize>
    decreases allocations.len(),
{
    if allocations.len() == 0 {
        Seq::empty()
    } else {
        let front = range_holders(allocations.drop_last(), tensor, range);
        let last = allocations.last();
        if last.tensor == tensor && last.byte_offset == range.0 && last.byte_count == range.1 {
            front.push((allocations.len() - 1) as usize)
        } else {
            front
        }
    }
}

/// What to read of one tensor: every range once, in order.
pub open spec fn tensor_load(
    allocations: Seq<VulkanDistributedParameterAllocationView>,
    tensor: Seq<char>,
) -> VulkanDistributedTensorLoadView {
    let ranges = ordered::sorted_elements::<(usize, usize)>(tensor_ranges(allocations, tensor));
    VulkanDistributedTensorLoadView {
        tensor,
        ranges: Seq::new(
            ranges.len(),
            |i: int|
                VulkanDistributedRangeLoadView {
                    byte_offset: ranges[i].0,
                    byte_count: ranges[i].1,
                    allocation_indices: range_holders(allocations, tensor, ranges[i]),
                },
        ),
    }
}

/// What to read: every tensor once, in order.
pub open spec fn tensor_loads(
    allocations: Seq<VulkanDistributedParameterAllocationView>,
) -> Seq<VulkanDistributedTensorLoadView> {
    let names = ordered::sorted_elements::<String>(range_tensors(allocations));
    Seq::new(names.len(), |i: int| tensor_load(allocations, names[i]))
}

/// What has been loaded so far.
#[verifier::ext_equal]
pub struct LoadedView {
    pub writes: Seq<VulkanDistributedParameterWriteView>,
    pub read: nat,
    pub written: nat,
    pub files: Set<Seq<char>>,
}

/// Nothing loaded yet.
pub open spec fn nothing_loaded() -> LoadedView {
    LoadedView { writes: Seq::empty(), read: 0, written: 0, files: Set::empty() }
}

/// Writes a payload into one allocation.
pub open spec fn write_step(bytes: Seq<u8>) -> spec_fn(LoadedView, usize) -> Result<
    LoadedView,
    Seq<char>,
> {
    |done: LoadedView, allocation_index: usize|
        if done.written + bytes.len() > usize::MAX {
            Err("distributed parameter written byte count overflowed"@)
        } else if done.writes.len() + 1 > usize::MAX {
            Err("distributed parameter write count overflowed"@)
        } else {
            Ok(
                LoadedView {
                    writes: done.writes.push(
                        VulkanDistributedParameterWriteView { allocation_index, bytes },
                    ),
                    written: (done.written + bytes.len()) as nat,
                    ..done
                },
            )
        }
}

/// Writes the payload of a range into every allocation that holds it.
pub open spec fn range_write_step() -> spec_fn(
    LoadedView,
    (VulkanDistributedRangeLoadView, Seq<u8>),
) -> Result<LoadedView, Seq<char>> {
    |done: LoadedView, item: (VulkanDistributedRangeLoadView, Seq<u8>)|
        sequence::try_fold(item.0.allocation_indices, done, write_step(item.1))
}

/// Ranges and payloads, matched up.
pub open spec fn range_payloads(
    ranges: Seq<VulkanDistributedRangeLoadView>,
    payloads: Seq<Seq<u8>>,
) -> Seq<(VulkanDistributedRangeLoadView, Seq<u8>)> {
    Seq::new(
        if ranges.len() < payloads.len() {
            ranges.len()
        } else {
            payloads.len()
        },
        |i: int| (ranges[i], payloads[i]),
    )
}

/// What reading a tensor gave.
pub type PayloadOutcome = Result<VulkanDistributedTensorPayloadView, Seq<char>>;

/// Loads one tensor from what was read of it.
#[verifier::opaque]
pub open spec fn tensor_loaded(
    done: LoadedView,
    item: (VulkanDistributedTensorLoadView, PayloadOutcome),
) -> Result<LoadedView, Seq<char>> {
    match item.1 {
        Err(e) => Err(e),
        Ok(payload) => if done.read + payload.byte_count > usize::MAX {
            Err("distributed parameter read byte count overflowed"@)
        } else {
            sequence::try_fold(
                range_payloads(item.0.ranges, payload.payloads),
                LoadedView {
                    read: (done.read + payload.byte_count) as nat,
                    files: done.files.insert(payload.source_file),
                    ..done
                },
                range_write_step(),
            )
        },
    }
}

/// One step over the tensors.
pub open spec fn load_step() -> spec_fn(
    LoadedView,
    (VulkanDistributedTensorLoadView, PayloadOutcome),
) -> Result<LoadedView, Seq<char>> {
    |done: LoadedView, item: (VulkanDistributedTensorLoadView, PayloadOutcome)|
        tensor_loaded(done, item)
}

/// Tensors and what was read of them, matched up.
pub open spec fn load_items(
    loads: Seq<VulkanDistributedTensorLoadView>,
    payloads: Seq<PayloadOutcome>,
) -> Seq<(VulkanDistributedTensorLoadView, PayloadOutcome)> {
    Seq::new(
        if loads.len() < payloads.len() {
            loads.len()
        } else {
            payloads.len()
        },
        |i: int| (loads[i], payloads[i]),
    )
}

/// The value of what was read.
pub open spec fn payload_outcomes(
    payloads: Seq<Result<VulkanDistributedTensorPayload, VulkanDistributedParameterLoadError>>,
) -> Seq<PayloadOutcome> {
    Seq::new(payloads.len(), |i: int| sequence::outcome(payloads[i]))
}

/// Whether every tensor of a plan was read, up to the first that cannot be loaded.
pub open spec fn payloads_suffice(
    plan: VulkanDistributedParameterAllocationPlanView,
    payloads: Seq<PayloadOutcome>,
) -> bool {
    payloads.len() < tensor_loads(plan.allocations).len() ==> parameter_load(plan, payloads) is Err
}

/// The writes that fill the buffers of a plan, and the report about them.
pub open spec fn parameter_load(
    plan: VulkanDistributedParameterAllocationPlanView,
    payloads: Seq<PayloadOutcome>,
) -> Result<
    (Seq<VulkanDistributedParameterWriteView>, VulkanDistributedParameterLoadReportView),
    Seq<char>,
> {
    match sequence::try_fold(
        load_items(tensor_loads(plan.allocations), payloads),
        nothing_loaded(),
        load_step(),
    ) {
        Err(e) => Err(e),
        Ok(done) => Ok(
            (
                done.writes,
                VulkanDistributedParameterLoadReportView {
                    tensor_count: plan.tensor_count,
                    source_file_count: ordered::sorted_elements::<String>(
                        done.files,
                    ).len() as usize,
                    allocation_count: plan.allocation_count,
                    write_count: done.writes.len() as usize,
                    total_bytes_read: done.read as usize,
                    total_bytes_written: done.written as usize,
                },
            ),
        ),
    }
}

struct Loaded {
    writes: Vec<VulkanDistributedParameterWrite>,
    read: usize,
    written: usize,
    files: OrderedSet<String>,
}

impl Loaded {
    spec fn value(&self) -> LoadedView {
        LoadedView {
            writes: self.writes.deep_view(),
            read: self.read as nat,
            written: self.written as nat,
            files: self.files@,
        }
    }

    #[verifier::loop_isolation(false)]
    fn write_range(self, holders: &Vec<usize>, bytes: &Vec<u8>) -> (r: Result<
        Loaded,
        VulkanDistributedParameterLoadError,
    >)
        requires
            self.files.sorted(),
        ensures
            (match r {
                Ok(next) => Ok::<LoadedView, Seq<char>>(next.value()),
                Err(e) => Err(e@),
            }) == sequence::try_fold(holders.deep_view(), self.value(), write_step(bytes.deep_view())),
            r is Ok ==> r->Ok_0.files.sorted(),
    {
        let ghost all = holders.deep_view();
        let ghost init = self.value();
        let ghost step = write_step(bytes.deep_view());
        let mut done: Loaded = self;
        let mut i: usize = 0;
        assert(all.take(0) =~= Seq::empty());
        while i < holders.len()
            invariant
                i <= holders.len(),
                done.files.sorted(),
                sequence::try_fold(all.take(i as int), init, step) == Ok::<LoadedView, Seq<char>>(
                    done.value(),
                ),
            decreases holders.len() - i,
        {
            proof {
                sequence::lemma_try_fold_step(all, init, step, i as int);
                assert(bytes.deep_view().len() == bytes@.len());
                assert(done.writes.deep_view().len() == done.writes@.len());
            }
            let written: usize = match done.written.checked_add(bytes.len()) {
                Some(written) => written,
                None => {
                    proof {
                        sequence::lemma_try_fold_error(all, init, step, i + 1);
                    }
                    return Err(
                        VulkanDistributedParameterLoadError(
                            "distributed parameter written byte count overflowed".to_owned(),
                        ),
                    );
                },
            };
            if done.writes.len() == usize::MAX {
                proof {
                    sequence::lemma_try_fold_error(all, init, step, i + 1);
                }
                return Err(
                    VulkanDistributedParameterLoadError(
                        "distributed parameter write count overflowed".to_owned(),
                    ),
                );
            }
            let ghost before = done.writes.deep_view();
            let write = VulkanDistributedParameterWrite {
                allocation_index: holders[i],
                bytes: bytes.clone(),
            };
            assert(write@.bytes =~= bytes.deep_view());
            let ghost added = write@;
            let mut writes: Vec<VulkanDistributedParameterWrite> = done.writes;
            writes.push(write);
            assert(writes.deep_view() =~= before.push(added));
            done = Loaded { writes, read: done.read, written, files: done.files };
            i += 1;
        }
        assert(all.take(all.len() as int) =~= all);
        Ok(done)
    }

    #[verifier::loop_isolation(false)]
    fn load_tensor(
        self,
        load: &VulkanDistributedTensorLoad,
        payload: &Result<VulkanDistributedTensorPayload, VulkanDistributedParameterLoadError>,
    ) -> (r: Result<Loaded, VulkanDistributedParameterLoadError>)
        requires
            self.files.sorted(),
        ensures
            (match r {
                Ok(next) => Ok::<LoadedView, Seq<char>>(next.value()),
                Err(e) => Err(e@),
            }) == tensor_loaded(self.value(), (load@, sequence::outcome(*payload))),
            r is Ok ==> r->Ok_0.files.sorted(),
    {
        reveal(tensor_loaded);
        let payload: &VulkanDistributedTensorPayload = match payload {
            Ok(payload) => payload,
            Err(e) => return Err(e.clone()),
        };
        let read: usize = match self.read.checked_add(payload.byte_count) {
            Some(read) => read,
            None => return Err(
                VulkanDistributedParameterLoadError(
                    "distributed parameter read byte count overflowed".to_owned(),
                ),
            ),
        };
        let mut files: OrderedSet<String> = self.files;
        files.insert(payload.source_file.clone());
        let mut done = Loaded { writes: self.writes, read, written: self.written, files };
        let ghost init = done.value();
        let ghost all = range_payloads(load@.ranges, payload@.payloads);
        let ghost step = range_write_step();
        let mut i: usize = 0;
        assert(load@.ranges.len() == load.ranges@.len());
        assert(payload@.payloads.len() == payload.payloads@.len());
        assert(all.take(0) =~= Seq::empty());
        while i < load.ranges.len() && i < payload.payloads.len()
            invariant
                i <= load.ranges.len(),
                i <= payload.payloads.len(),
                done.files.sorted(),
                sequence::try_fold(all.take(i as int), init, step) == Ok::<LoadedView, Seq<char>>(
                    done.value(),
                ),
            decreases load.ranges.len() - i,
        {
            proof {
                sequence::lemma_try_fold_step(all, init, step, i as int);
                assert(all[i as int].0.allocation_indices
                    == load.ranges@[i as int].allocation_indices.deep_view());
            }
            match done.write_range(&load.ranges[i].allocation_indices, &payload.payloads[i]) {
                Ok(next) => {
                    done = next;
                },
                Err(e) => {
                    proof {
                        sequence::lemma_try_fold_error(all, init, step, i + 1);
                    }
                    return Err(e);
                },
            }
            i += 1;
        }
        assert(all.take(all.len() as int) =~= all);
        Ok(done)
    }
}

#[verifier::loop_isolation(false)]
fn list_range_holders(
    allocations: &Vec<VulkanDistributedParameterAllocation>,
    tensor: &String,
    range: (usize, usize),
) -> (r: Vec<usize>)
    ensures
        r.deep_view() == range_holders(allocations.deep_view(), tensor@, range),
{
    let ghost all = allocations.deep_view();
    let mut holders: Vec<usize> = Vec::new();
    let mut i: usize = 0;
    while i < allocations.len()
        invariant
            i <= allocations.len(),
            holders@ == range_holders(all.take(i as int), tensor@, range),
        decreases allocations.len() - i,
    {
        assert(all.take(i + 1).drop_last() =~= all.take(i as int));
        assert(all[i as int] == allocations@[i as int]@);
        if allocations[i].tensor == *tensor && allocations[i].byte_offset == range.0
            && allocations[i].byte_count == range.1 {
            holders.push(i);
        }
        i += 1;
    }
    assert(all.take(all.len() as int) =~= all);
    assert(holders.deep_view() =~= holders@);
    holders
}

impl VulkanDistributedParameterAllocationPlan {
    /// What has to be read: each tensor once, each range of it once.
    #[verifier::loop_isolation(false)]
    pub fn tensor_loads(&self) -> (r: Vec<VulkanDistributedTensorLoad>)
        ensures
            r.deep_view() == tensor_loads(self@.allocations),
    {
        let names: OrderedSet<String> = list_range_tensors(&self.allocations);
        let ghost allocations = self.allocations.deep_view();
        let ghost all = names.elements.deep_view();
        let mut loads: Vec<VulkanDistributedTensorLoad> = Vec::new();
        let mut i: usize = 0;
        while i < names.elements.len()
            invariant
                i <= names.elements.len(),
                loads@.len() == i,
                forall|j: int|
                    0 <= j < i ==> (#[trigger] loads.deep_view()[j]) == tensor_load(
                        allocations,
                        all[j],
                    ),
            decreases names.elements.len() - i,
        {
            let tensor: &String = &names.elements[i];
            let listed: OrderedSet<(usize, usize)> = list_tensor_ranges(&self.allocations, tensor);
            let ghost listed_ranges = listed.elements.deep_view();
            let mut ranges: Vec<VulkanDistributedRangeLoad> = Vec::new();
            let mut j: usize = 0;
            while j < listed.elements.len()
                invariant
                    j <= listed.elements.len(),
                    ranges@.len() == j,
                    forall|k: int|
                        0 <= k < j ==> (#[trigger] ranges.deep_view()[k]) == tensor_load(
                            allocations,
                            tensor@,
                        ).ranges[k],
                decreases listed.elements.len() - j,
            {
                let range: (usize, usize) = listed.elements[j];
                assert(listed_ranges[j as int] == range);
                let ghost before = ranges.deep_view();
                let load = VulkanDistributedRangeLoad {
                    byte_offset: range.0,
                    byte_count: range.1,
                    allocation_indices: list_range_holders(&self.allocations, tensor, range),
                };
                let ghost added = load@;
                ranges.push(load);
                assert(ranges.deep_view() =~= before.push(added));
                assert(added == tensor_load(allocations, tensor@).ranges[j as int]);
                j += 1;
            }
            assert(ranges.deep_view() =~= tensor_load(allocations, tensor@).ranges);
            let ghost before = loads.deep_view();
            let load = VulkanDistributedTensorLoad { tensor: tensor.clone(), ranges };
            let ghost added = load@;
            loads.push(load);
            assert(loads.deep_view() =~= before.push(added));
            i += 1;
        }
        assert(loads.deep_view() =~= tensor_loads(allocations));
        loads
    }

    /// Turns what was read of the tensors, one payload for each entry of `tensor_loads` and in its
    /// order, into the writes that fill the buffers. A tensor that could not be read stops the
    /// load.
    #[verifier::loop_isolation(false)]
    pub fn load_from_tensor_index(
        &self,
        payloads: &Vec<Result<VulkanDistributedTensorPayload, VulkanDistributedParameterLoadError>>,
    ) -> (r: Result<
        (Vec<VulkanDistributedParameterWrite>, VulkanDistributedParameterLoadReport),
        VulkanDistributedParameterLoadError,
    >)
        requires
            payloads_suffice(self@, payload_outcomes(payloads@)),
        ensures
            sequence::outcome(r) == parameter_load(self@, payload_outcomes(payloads@)),
    {
        let loads: Vec<VulkanDistributedTensorLoad> = self.tensor_loads();
        let ghost outcomes = payload_outcomes(payloads@);
        let ghost all = load_items(loads.deep_view(), outcomes);
        let ghost step = load_step();
        let mut done = Loaded {
            writes: Vec::new(),
            read: 0,
            written: 0,
            files: OrderedSet::new(),
        };
        let mut i: usize = 0;
        assert(done.writes.deep_view() =~= Seq::empty());
        assert(all.take(0) =~= Seq::empty());
        assert(loads.deep_view().len() == loads@.len());
        while i < loads.len() && i < payloads.len()
            invariant
                i <= loads.len(),
                i <= payloads.len(),
                done.files.sorted(),
                sequence::try_fold(all.take(i as int), nothing_loaded(), step) == Ok::<
                    LoadedView,
                    Seq<char>,
                >(done.value()),
            decreases loads.len() - i,
        {
            proof {
                sequence::lemma_try_fold_step(all, nothing_loaded(), step, i as int);
                assert(all[i as int] == (loads@[i as int]@, sequence::outcome(payloads@[i as int])));
            }
            match done.load_tensor(&loads[i], &payloads[i]) {
                Ok(next) => {
                    done = next;
                },
                Err(e) => {
                    proof {
                        sequence::lemma_try_fold_error(all, nothing_loaded(), step, i + 1);
                    }
                    return Err(e);
                },
            }
            i += 1;
        }
        assert(all.take(all.len() as int) =~= all);
        proof {
            ordered::lemma_sorted_elements::<String>(done.files.elements.deep_view());
            assert(done.files.elements.deep_view().len() == done.files.elements@.len());
            assert(done.writes.deep_view().len() == done.writes@.len());
        }
        let report = VulkanDistributedParameterLoadReport {
            tensor_count: self.tensor_count,
            source_file_count: done.files.elements.len(),
            allocation_count: self.allocation_count,
            write_count: done.writes.len(),
            total_bytes_read: done.read,
            total_bytes_written: done.written,
        };
        Ok((done.writes, report))
    }
}

// ---------------------------------------------------------------------------
// Buffers
// ---------------------------------------------------------------------------

/// A parameter range with the buffer that holds it.
#[derive(Debug, PartialEq, Eq)]
pub struct VulkanDistributedParameterBufferAllocation {
    pub allocation: VulkanDistributedParameterAllocation,
    pub buffer: VulkanResidentBuffer,
}

#[verifier::ext_equal]
pub struct VulkanDistributedParameterBufferAllocationView {
    pub allocation: VulkanDistributedParameterAllocationView,
    pub buffer: VulkanResidentBufferView,
}

impl DeepView for VulkanDistributedParameterBufferAllocation {
    type V = VulkanDistributedParameterBufferAllocationView;

    open spec fn deep_view(&self) -> VulkanDistributedParameterBufferAllocationView {
        VulkanDistributedParameterBufferAllocationView {
            allocation: self.allocation.deep_view(),
            buffer: self.buffer.deep_view(),
        }
    }
}

impl View for VulkanDistributedParameterBufferAllocation {
    type V = VulkanDistributedParameterBufferAllocationView;

    open spec fn view(&self) -> VulkanDistributedParameterBufferAllocationView {
        self.deep_view()
    }
}

impl Clone for VulkanDistributedParameterBufferAllocation {
    fn clone(&self) -> (r: Self)
        ensures
            r@ == self@,
    {
        VulkanDistributedParameterBufferAllocation {
            allocation: self.allocation.clone(),
            buffer: self.buffer.clone(),
        }
    }
}

/// The parameter buffers of a plan.
#[derive(Debug, PartialEq, Eq)]
pub struct VulkanDistributedParameterBuffers {
    pub plan: VulkanDistributedParameterAllocationPlan,
    pub buffers: Vec<VulkanDistributedParameterBufferAllocation>,
    pub total_byte_capacity: usize,
}

#[verifier::ext_equal]
pub struct VulkanDistributedParameterBuffersView {
    pub plan: VulkanDistributedParameterAllocationPlanView,
    pub buffers: Seq<VulkanDistributedParameterBufferAllocationView>,
    pub total_byte_capacity: usize,
}

impl DeepView for VulkanDistributedParameterBuffers {
    type V = VulkanDistributedParameterBuffersView;

    open spec fn deep_view(&self) -> VulkanDistributedParameterBuffersView {
        VulkanDistributedParameterBuffersView {
            plan: self.plan.deep_view(),
            buffers: self.buffers.deep_view(),
            total_byte_capacity: self.total_byte_capacity,
        }
    }
}

impl View for VulkanDistributedParameterBuffers {
    type V = VulkanDistributedParameterBuffersView;

    open spec fn view(&self) -> VulkanDistributedParameterBuffersView {
        self.deep_view()
    }
}

impl Clone for VulkanDistributedParameterBuffers {
    fn clone(&self) -> (r: Self)
        ensures
            r@ == self@,
    {
        VulkanDistributedParameterBuffers {
            plan: self.plan.clone(),
            buffers: self.buffers.clone(),
            total_byte_capacity: self.total_byte_capacity,
        }
    }
}

/// Why parameter buffers were refused.
#[derive(Debug, PartialEq, Eq)]
pub struct VulkanDistributedParameterBufferError(pub String);

impl DeepView for VulkanDistributedParameterBufferError {
    type V = Seq<char>;

    open spec fn deep_view(&self) -> Seq<char> {
        self.0.deep_view()
    }
}

impl View for VulkanDistributedParameterBufferError {
    type V = Seq<char>;

    open spec fn view(&self) -> Seq<char> {
        self.deep_view()
    }
}

impl Clone for VulkanDistributedParameterBufferError {
    fn clone(&self) -> (r: Self)
        ensures
            r@ == self@,
    {
        VulkanDistributedParameterBufferError(self.0.clone())
    }
}

impl VulkanDistributedParameterBufferError {
    /// The message.
    pub fn to_string(&self) -> (r: String)
        ensures
            r@ == self@,
    {
        self.0.clone()
    }
}

/// Whether two allocations are the same range of the same tensor on the same device.
pub open spec fn same_range(
    a: VulkanDistributedParameterAllocationView,
    b: VulkanDistributedParameterAllocationView,
) -> bool {
    &&& a.device_id == b.device_id
    &&& a.tensor == b.tensor
    &&& a.byte_offset == b.byte_offset
    &&& a.byte_count == b.byte_count
}

/// The buffers described so far.
#[verifier::ext_equal]
pub struct DescribedView {
    pub buffers: Seq<VulkanDistributedParameterBufferAllocationView>,
    pub bytes: nat,
}

/// Whether the range of an allocation already has a buffer.
pub open spec fn range_taken(
    buffers: Seq<VulkanDistributedParameterBufferAllocationView>,
    allocation: VulkanDistributedParameterAllocationView,
) -> bool {
    exists|i: int|
        0 <= i < buffers.len() && same_range((#[trigger] buffers[i]).allocation, allocation)
}

/// The buffer of the range at a position, as it is asked of a device.
pub open spec fn parameter_object(position: nat) -> VulkanDeviceObject {
    VulkanDeviceObject::DistributedParameter(position as usize)
}

/// What is said where a device cannot allocate the buffer of a range.
pub open spec fn parameter_refusal(
    allocation: VulkanDistributedParameterAllocationView,
    error: Seq<char>,
) -> Seq<char> {
    "failed to allocate "@ + text::decimal(allocation.byte_count as nat)
        + " distributed bytes for tensor "@ + text::quoted(allocation.tensor) + " on "@
        + text::quoted(allocation.device_id) + ": "@ + error
}

/// Describes the buffer of one range.
#[verifier::opaque]
pub open spec fn range_described(
    directory: VulkanDeviceDirectoryView,
    done: DescribedView,
    allocation: VulkanDistributedParameterAllocationView,
) -> Result<DescribedView, Seq<char>> {
    if !directory.knows(allocation.device_id) {
        Err(
            "failed to resolve distributed parameter device "@ + text::quoted(allocation.device_id)
                + ": "@ + directory.refusal(allocation.device_id),
        )
    } else if directory.refused(parameter_object(done.buffers.len())) is Some {
        Err(
            parameter_refusal(
                allocation,
                directory.refused(parameter_object(done.buffers.len()))->Some_0,
            ),
        )
    } else if done.bytes + allocation.byte_count > usize::MAX {
        Err("distributed parameter buffer byte capacity overflowed"@)
    } else if range_taken(done.buffers, allocation) {
        Err(
            "distributed parameter buffer repeats tensor "@ + text::quoted(allocation.tensor)
                + " range "@ + text::decimal(allocation.byte_offset as nat) + ".."@ + text::decimal(
                (allocation.byte_offset + allocation.byte_count) as nat,
            ) + " on "@ + text::quoted(allocation.device_id),
        )
    } else {
        Ok(
            DescribedView {
                buffers: done.buffers.push(
                    VulkanDistributedParameterBufferAllocationView {
                        allocation,
                        buffer: device::device_buffer(
                            VulkanResidentBufferName::DistributedParameter(
                                done.buffers.len() as usize,
                            ),
                            allocation.device_id,
                            allocation.byte_count,
                        ),
                    },
                ),
                bytes: (done.bytes + allocation.byte_count) as nat,
            },
        )
    }
}

/// What is said where a device cannot allocate the buffer of a range.
fn parameter_allocation_failure(
    allocation: &VulkanDistributedParameterAllocation,
    error: &VulkanError,
) -> (r: VulkanDistributedParameterBufferError)
    ensures
        r@ == parameter_refusal(allocation@, error@),
{
    VulkanDistributedParameterBufferError(
        Message::new("failed to allocate ").number(allocation.byte_count).text(
            " distributed bytes for tensor ",
        ).quoted(allocation.tensor.as_str()).text(" on ").quoted(
            allocation.device_id.as_str(),
        ).text(": ").text(error.0.as_str()).done(),
    )
}

/// One step over the ranges.
pub open spec fn describe_step(directory: VulkanDeviceDirectoryView) -> spec_fn(
    DescribedView,
    VulkanDistributedParameterAllocationView,
) -> Result<DescribedView, Seq<char>> {
    |done: DescribedView, allocation: VulkanDistributedParameterAllocationView|
        range_described(directory, done, allocation)
}

/// The buffers of a plan.
pub open spec fn parameters_described(
    plan: VulkanDistributedParameterAllocationPlanView,
    directory: VulkanDeviceDirectoryView,
) -> Result<DescribedView, Seq<char>> {
    sequence::try_fold(
        plan.allocations,
        DescribedView { buffers: Seq::empty(), bytes: 0 },
        describe_step(directory),
    )
}

/// The buffers of a plan, and the writes that fill them. The buffer of an allocation stands at the
/// allocation's position.
pub open spec fn allocated_parameters(
    plan: VulkanDistributedParameterAllocationPlanView,
    payloads: Seq<PayloadOutcome>,
    directory: VulkanDeviceDirectoryView,
) -> Result<
    (VulkanDistributedParameterBuffersView, Seq<VulkanDistributedParameterWriteView>),
    Seq<char>,
> {
    match parameters_described(plan, directory) {
        Err(e) => Err(e),
        Ok(done) => match parameter_load(plan, payloads) {
            Err(e) => Err(e),
            Ok((writes, report)) => Ok(
                (
                    VulkanDistributedParameterBuffersView {
                        plan,
                        buffers: done.buffers,
                        total_byte_capacity: done.bytes as usize,
                    },
                    writes,
                ),
            ),
        },
    }
}

fn is_same_range(
    a: &VulkanDistributedParameterAllocation,
    b: &VulkanDistributedParameterAllocation,
) -> (r: bool)
    ensures
        r == same_range(a@, b@),
{
    a.device_id == b.device_id && a.tensor == b.tensor && a.byte_offset == b.byte_offset
        && a.byte_count == b.byte_count
}

#[verifier::loop_isolation(false)]
fn is_range_taken(
    buffers: &Vec<VulkanDistributedParameterBufferAllocation>,
    allocation: &VulkanDistributedParameterAllocation,
) -> (r: bool)
    ensures
        r == range_taken(buffers.deep_view(), allocation@),
{
    let ghost all = buffers.deep_view();
    let mut i: usize = 0;
    while i < buffers.len()
        invariant
            i <= buffers.len(),
            forall|j: int| 0 <= j < i ==> !same_range((#[trigger] all[j]).allocation, allocation@),
        decreases buffers.len() - i,
    {
        assert(all[i as int] == buffers@[i as int]@);
        if is_same_range(&buffers[i].allocation, allocation) {
            return true;
        }
        i += 1;
    }
    false
}

impl VulkanDistributedParameterBuffers {
    /// Describes a buffer for each range of a plan, and the writes that fill the buffers from what
    /// was read of the tensors. A device may refuse to make a buffer.
    #[verifier::loop_isolation(false)]
    pub fn allocate_and_load(
        plan: &VulkanDistributedParameterAllocationPlan,
        payloads: &Vec<Result<VulkanDistributedTensorPayload, VulkanDistributedParameterLoadError>>,
        directory: &VulkanDeviceDirectory,
    ) -> (r: Result<
        (Self, Vec<VulkanDistributedParameterWrite>),
        VulkanDistributedParameterBufferError,
    >)
        requires
            parameters_described(plan@, directory@) is Ok ==> payloads_suffice(
                plan@,
                payload_outcomes(payloads@),
            ),
        ensures
            sequence::outcome(r) == allocated_parameters(
                plan@,
                payload_outcomes(payloads@),
                directory@,
            ),
    {
        let ghost all = plan.allocations.deep_view();
        let ghost init = DescribedView { buffers: Seq::empty(), bytes: 0 };
        let ghost step = describe_step(directory@);
        let mut buffers: Vec<VulkanDistributedParameterBufferAllocation> = Vec::new();
        let mut bytes: usize = 0;
        let mut i: usize = 0;
        assert(buffers.deep_view() =~= Seq::empty());
        assert(all.take(0) =~= Seq::empty());
        while i < plan.allocations.len()
            invariant
                i <= plan.allocations.len(),
                buffers@.len() == i,
                sequence::try_fold(all.take(i as int), init, step) == Ok::<
                    DescribedView,
                    Seq<char>,
                >(DescribedView { buffers: buffers.deep_view(), bytes: bytes as nat }),
            decreases plan.allocations.len() - i,
        {
            proof {
                sequence::lemma_try_fold_step(all, init, step, i as int);
                reveal(range_described);
                if sequence::try_fold(all.take(i + 1), init, step) is Err {
                    sequence::lemma_try_fold_error(all, init, step, i + 1);
                }
            }
            let allocation: &VulkanDistributedParameterAllocation = &plan.allocations[i];
            assert(all[i as int] == allocation@);
            if let Err(error) = directory.resolve(allocation.device_id.as_str()) {
                return Err(
                    VulkanDistributedParameterBufferError(
                        Message::new("failed to resolve distributed parameter device ").quoted(
                            allocation.device_id.as_str(),
                        ).text(": ").text(error.as_str()).done(),
                    ),
                );
            }
            assert(buffers.deep_view().len() == i);
            if let Some(error) = directory.refused(VulkanDeviceObject::DistributedParameter(i)) {
                return Err(parameter_allocation_failure(allocation, error));
            }
            let total: usize = match bytes.checked_add(allocation.byte_count) {
                Some(total) => total,
                None => return Err(
                    VulkanDistributedParameterBufferError(
                        "distributed parameter buffer byte capacity overflowed".to_owned(),
                    ),
                ),
            };
            if is_range_taken(&buffers, allocation) {
                return Err(
                    VulkanDistributedParameterBufferError(
                        Message::new("distributed parameter buffer repeats tensor ").quoted(
                            allocation.tensor.as_str(),
                        ).text(" range ").number(allocation.byte_offset).text("..").sum(
                            allocation.byte_offset,
                            allocation.byte_count,
                        ).text(" on ").quoted(allocation.device_id.as_str()).done(),
                    ),
                );
            }
            let ghost before = buffers.deep_view();
            let described = VulkanDistributedParameterBufferAllocation {
                allocation: allocation.clone(),
                buffer: VulkanResidentBuffer::in_device_memory(
                    VulkanResidentBufferName::DistributedParameter(i),
                    allocation.device_id.as_str(),
                    allocation.byte_count,
                ),
            };
            let ghost added = described@;
            assert(buffers.deep_view().len() == i);
            buffers.push(described);
            assert(buffers.deep_view() =~= before.push(added));
            bytes = total;
            i += 1;
        }
        assert(all.take(all.len() as int) =~= all);
        match plan.load_from_tensor_index(payloads) {
            Ok((writes, report)) => Ok(
                (
                    VulkanDistributedParameterBuffers {
                        plan: plan.clone(),
                        buffers,
                        total_byte_capacity: bytes,
                    },
                    writes,
                ),
            ),
            Err(e) => Err(VulkanDistributedParameterBufferError(e.0)),
        }
    }

    /// The buffer of a range.
    #[verifier::loop_isolation(false)]
    pub fn parameter_buffer(
        &self,
        device_id: &str,
        tensor: &str,
        byte_offset: usize,
        byte_count: usize,
    ) -> (r: Option<&VulkanDistributedParameterBufferAllocation>)
        ensures
            r.deep_view() == sequence::find_first(
                self@.buffers,
                range_matcher(device_id@, tensor@, byte_offset, byte_count),
            ),
    {
        let ghost all = self.buffers.deep_view();
        let ghost p = range_matcher(device_id@, tensor@, byte_offset, byte_count);
        let mut i: usize = 0;
        while i < self.buffers.len()
            invariant
                i <= self.buffers.len(),
                forall|j: int| 0 <= j < i ==> !p(#[trigger] all[j]),
            decreases self.buffers.len() - i,
        {
            let buffer: &VulkanDistributedParameterBufferAllocation = &self.buffers[i];
            assert(all[i as int] == buffer@);
            if text::same(buffer.allocation.device_id.as_str(), device_id) && text::same(
                buffer.allocation.tensor.as_str(),
                tensor,
            ) && buffer.allocation.byte_offset == byte_offset && buffer.allocation.byte_count
                == byte_count {
                proof {
                    sequence::lemma_find_first_at(all, p, i as int);
                }
                return Some(buffer);
            }
            i += 1;
        }
        proof {
            sequence::lemma_find_first_none(all, p);
        }
        None
    }
}

/// Whether a buffer holds this range.
pub open spec fn range_matcher(
    device_id: Seq<char>,
    tensor: Seq<char>,
    byte_offset: usize,
    byte_count: usize,
) -> spec_fn(VulkanDistributedParameterBufferAllocationView) -> bool {
    |b: VulkanDistributedParameterBufferAllocationView|
        b.allocation.device_id == device_id && b.allocation.tensor == tensor
            && b.allocation.byte_offset == byte_offset && b.allocation.byte_count == byte_count
}

proof fn lemma_ranges_described(
    allocations: Seq<VulkanDistributedParameterAllocationView>,
    directory: VulkanDeviceDirectoryView,
    i: int,
)
    requires
        sequence::try_fold(
            allocations,
            (DescribedView { buffers: Seq::empty(), bytes: 0 }),
            describe_step(directory),
        ) is Ok,
        allocations.len() <= usize::MAX,
    ensures
        ({
            let done = sequence::try_fold(
                allocations,
                (DescribedView { buffers: Seq::empty(), bytes: 0 }),
                describe_step(directory),
            )->Ok_0;
            &&& done.buffers.len() == allocations.len()
            &&& done.bytes == sequence::total(allocations, range_bytes()) <= usize::MAX
            &&& 0 <= i < allocations.len() ==> {
                &&& done.buffers[i].allocation == allocations[i]
                &&& done.buffers[i].buffer.device_id == allocations[i].device_id
                &&& done.buffers[i].buffer.byte_capacity == allocations[i].byte_count
                &&& done.buffers[i].buffer.name == VulkanResidentBufferName::DistributedParameter(
                    i as usize,
                )
            }
        }),
    decreases allocations.len(),
{
    if allocations.len() > 0 {
        let none = DescribedView { buffers: Seq::empty(), bytes: 0 };
        let front = allocations.drop_last();
        lemma_ranges_described(front, directory, i);
        reveal(range_described);
        let before = sequence::try_fold(front, none, describe_step(directory))->Ok_0;
        let after = sequence::try_fold(allocations, none, describe_step(directory))->Ok_0;
        assert(range_described(directory, before, allocations.last()) == Ok::<
            DescribedView,
            Seq<char>,
        >(after));
    }
}

/// Every planned range of a parameter has a buffer of its own, on the range's device and of exactly
/// its size.
pub proof fn ranges_have_buffers_of_their_own(
    plan: VulkanDistributedParameterAllocationPlanView,
    payloads: Seq<PayloadOutcome>,
    directory: VulkanDeviceDirectoryView,
    i: int,
    j: int,
)
    requires
        allocated_parameters(plan, payloads, directory) is Ok,
        plan.allocations.len() <= usize::MAX,
        0 <= i < plan.allocations.len(),
        0 <= j < plan.allocations.len(),
    ensures
        ({
            let made = allocated_parameters(plan, payloads, directory)->Ok_0.0;
            &&& made.plan == plan
            &&& made.buffers.len() == plan.allocations.len()
            &&& made.buffers[i].allocation == plan.allocations[i]
            &&& made.buffers[i].buffer.device_id == plan.allocations[i].device_id
            &&& made.buffers[i].buffer.byte_capacity == plan.allocations[i].byte_count
            &&& i != j ==> made.buffers[i].buffer.name != made.buffers[j].buffer.name
            &&& made.total_byte_capacity == sequence::total(plan.allocations, range_bytes())
        }),
{
    lemma_ranges_described(plan.allocations, directory, i);
    lemma_ranges_described(plan.allocations, directory, j);
}

/// Whether a write puts the bytes of a range that was read into a buffer of exactly that range.
pub open spec fn writes_its_range(
    write: VulkanDistributedParameterWriteView,
    allocations: Seq<VulkanDistributedParameterAllocationView>,
    items: Seq<(VulkanDistributedTensorLoadView, PayloadOutcome)>,
) -> bool {
    exists|l: int, r: int| #[trigger] writes_range_of(write, allocations, items, l, r)
}

/// Whether a write puts the bytes of the `r`th range of the `l`th tensor into a buffer of that range.
pub open spec fn writes_range_of(
    write: VulkanDistributedParameterWriteView,
    allocations: Seq<VulkanDistributedParameterAllocationView>,
    items: Seq<(VulkanDistributedTensorLoadView, PayloadOutcome)>,
    l: int,
    r: int,
) -> bool {
    let held = allocations[write.allocation_index as int];
    let load = items[l].0;
    &&& 0 <= l < items.len()
    &&& 0 <= r < load.ranges.len()
    &&& items[l].1 is Ok
    &&& r < items[l].1->Ok_0.payloads.len()
    &&& write.allocation_index < allocations.len()
    &&& held.tensor == load.tensor
    &&& held.byte_offset == load.ranges[r].byte_offset
    &&& held.byte_count == load.ranges[r].byte_count
    &&& write.bytes == items[l].1->Ok_0.payloads[r]
}

proof fn lemma_range_holders(
    allocations: Seq<VulkanDistributedParameterAllocationView>,
    tensor: Seq<char>,
    range: (usize, usize),
    k: int,
)
    requires
        allocations.len() <= usize::MAX,
    ensures
        0 <= k < range_holders(allocations, tensor, range).len() ==> {
            let i = range_holders(allocations, tensor, range)[k] as int;
            &&& i < allocations.len()
            &&& allocations[i].tensor == tensor
            &&& allocations[i].byte_offset == range.0
            &&& allocations[i].byte_count == range.1
        },
        0 <= k < allocations.len() && allocations[k].tensor == tensor && allocations[k].byte_offset
            == range.0 && allocations[k].byte_count == range.1 ==> range_holders(
            allocations,
            tensor,
            range,
        ).contains(k as usize),
    decreases allocations.len(),
{
    if allocations.len() > 0 {
        let front = allocations.drop_last();
        lemma_range_holders(front, tensor, range, k);
        let before = range_holders(front, tensor, range);
        let after = range_holders(allocations, tensor, range);
        if 0 <= k < front.len() && before.contains(k as usize) {
            let at = choose|at: int| 0 <= at < before.len() && before[at] == k as usize;
            assert(after[at] == k as usize);
        }
        if k == front.len() && after.len() > before.len() {
            assert(after[after.len() - 1] == k as usize);
        }
    }
}

/// A tensor that is read is read in ranges, and each range is written to every buffer that holds
/// exactly that range of the tensor, and to no other.
pub proof fn ranges_go_to_their_holders(
    allocations: Seq<VulkanDistributedParameterAllocationView>,
    l: int,
    r: int,
    i: int,
)
    requires
        allocations.len() <= usize::MAX,
        0 <= l < tensor_loads(allocations).len(),
        0 <= r < tensor_loads(allocations)[l].ranges.len(),
        0 <= i < allocations.len(),
    ensures
        ({
            let load = tensor_loads(allocations)[l];
            let range = load.ranges[r];
            range.allocation_indices.contains(i as usize) <==> {
                &&& allocations[i].tensor == load.tensor
                &&& allocations[i].byte_offset == range.byte_offset
                &&& allocations[i].byte_count == range.byte_count
            }
        }),
{
    let load = tensor_loads(allocations)[l];
    let range = (load.ranges[r].byte_offset, load.ranges[r].byte_count);
    let holders = range_holders(allocations, load.tensor, range);
    assert(load.ranges[r].allocation_indices == holders);
    lemma_range_holders(allocations, load.tensor, range, i);
    if holders.contains(i as usize) {
        let k = choose|k: int| 0 <= k < holders.len() && holders[k] == i as usize;
        lemma_range_holders(allocations, load.tensor, range, k);
    }
}

proof fn lemma_written(done: LoadedView, indices: Seq<usize>, bytes: Seq<u8>, k: int)
    requires
        sequence::try_fold(indices, done, write_step(bytes)) is Ok,
    ensures
        ({
            let after = sequence::try_fold(indices, done, write_step(bytes))->Ok_0;
            let old_count = done.writes.len();
            &&& after.writes.len() == old_count + indices.len()
            &&& 0 <= k < old_count ==> after.writes[k] == done.writes[k]
            &&& old_count <= k < after.writes.len() ==> after.writes[k].allocation_index
                == indices[k - old_count] && after.writes[k].bytes == bytes
        }),
    decreases indices.len(),
{
    if indices.len() > 0 {
        lemma_written(done, indices.drop_last(), bytes, k);
    }
}

proof fn lemma_range_written(
    allocations: Seq<VulkanDistributedParameterAllocationView>,
    items: Seq<(VulkanDistributedTensorLoadView, PayloadOutcome)>,
    l: int,
    n: int,
    done: LoadedView,
    k: int,
)
    requires
        allocations.len() <= usize::MAX,
        0 <= l < items.len(),
        l < tensor_loads(allocations).len(),
        items[l].0 == tensor_loads(allocations)[l],
        items[l].1 is Ok,
        0 <= n <= range_payloads(items[l].0.ranges, items[l].1->Ok_0.payloads).len(),
        sequence::try_fold(
            range_payloads(items[l].0.ranges, items[l].1->Ok_0.payloads).take(n),
            done,
            range_write_step(),
        ) is Ok,
        done.writes.len() <= k,
    ensures
        ({
            let after = sequence::try_fold(
                range_payloads(items[l].0.ranges, items[l].1->Ok_0.payloads).take(n),
                done,
                range_write_step(),
            )->Ok_0;
            &&& after.writes.len() >= done.writes.len()
            &&& forall|j: int|
                0 <= j < done.writes.len() ==> (#[trigger] after.writes[j]) == done.writes[j]
            &&& k < after.writes.len() ==> writes_its_range(after.writes[k], allocations, items)
        }),
    decreases n,
{
    let all = range_payloads(items[l].0.ranges, items[l].1->Ok_0.payloads);
    if n > 0 {
        let r = n - 1;
        sequence::lemma_try_fold_step(all, done, range_write_step(), r);
        lemma_range_written(allocations, items, l, r, done, k);
        let before = sequence::try_fold(all.take(r), done, range_write_step())->Ok_0;
        let after = sequence::try_fold(all.take(n), done, range_write_step())->Ok_0;
        let indices = all[r].0.allocation_indices;
        assert(range_write_step()(before, all[r]) == Ok::<LoadedView, Seq<char>>(after));
        assert forall|j: int| 0 <= j < done.writes.len() implies (#[trigger] after.writes[j])
            == done.writes[j] by {
            lemma_written(before, indices, all[r].1, j);
        }
        lemma_written(before, indices, all[r].1, k);
        if before.writes.len() <= k < after.writes.len() {
            let at = k - before.writes.len();
            let load = tensor_loads(allocations)[l];
            let range = (load.ranges[r].byte_offset, load.ranges[r].byte_count);
            assert(load.ranges[r].allocation_indices == range_holders(
                allocations,
                load.tensor,
                range,
            ));
            lemma_range_holders(allocations, load.tensor, range, at);
            assert(writes_range_of(after.writes[k], allocations, items, l, r));
        }
    } else {
        assert(all.take(0) =~= Seq::empty());
    }
}

proof fn lemma_loaded(
    allocations: Seq<VulkanDistributedParameterAllocationView>,
    items: Seq<(VulkanDistributedTensorLoadView, PayloadOutcome)>,
    n: int,
    k: int,
)
    requires
        allocations.len() <= usize::MAX,
        0 <= n <= items.len() <= tensor_loads(allocations).len(),
        forall|l: int|
            0 <= l < items.len() ==> (#[trigger] items[l]).0 == tensor_loads(allocations)[l],
        sequence::try_fold(items.take(n), nothing_loaded(), load_step()) is Ok,
        0 <= k < sequence::try_fold(
            items.take(n),
            nothing_loaded(),
            load_step(),
        )->Ok_0.writes.len(),
    ensures
        writes_its_range(
            sequence::try_fold(items.take(n), nothing_loaded(), load_step())->Ok_0.writes[k],
            allocations,
            items,
        ),
    decreases n,
{
    if n > 0 {
        let l = n - 1;
        sequence::lemma_try_fold_step(items, nothing_loaded(), load_step(), l);
        let before = sequence::try_fold(items.take(l), nothing_loaded(), load_step())->Ok_0;
        let after = sequence::try_fold(items.take(n), nothing_loaded(), load_step())->Ok_0;
        assert(tensor_loaded(before, items[l]) == Ok::<LoadedView, Seq<char>>(after));
        reveal(tensor_loaded);
        let payload = items[l].1->Ok_0;
        let start = LoadedView {
            read: (before.read + payload.byte_count) as nat,
            files: before.files.insert(payload.source_file),
            ..before
        };
        let all = range_payloads(items[l].0.ranges, payload.payloads);
        assert(all.take(all.len() as int) =~= all);
        lemma_range_written(
            allocations,
            items,
            l,
            all.len() as int,
            start,
            if k < before.writes.len() {
                before.writes.len() as int
            } else {
                k
            },
        );
        if k < before.writes.len() {
            lemma_loaded(allocations, items, l, k);
            assert(after.writes[k] == before.writes[k]);
        }
    } else {
        assert(items.take(0) =~= Seq::empty());
    }
}

/// Loading writes into a buffer the bytes that were read for exactly the range of the tensor that the
/// buffer holds.
pub proof fn loaded_bytes_go_where_they_belong(
    plan: VulkanDistributedParameterAllocationPlanView,
    payloads: Seq<PayloadOutcome>,
    k: int,
)
    requires
        parameter_load(plan, payloads) is Ok,
        plan.allocations.len() <= usize::MAX,
        0 <= k < parameter_load(plan, payloads)->Ok_0.0.len(),
    ensures
        writes_its_range(
            parameter_load(plan, payloads)->Ok_0.0[k],
            plan.allocations,
            load_items(tensor_loads(plan.allocations), payloads),
        ),
{
    let items = load_items(tensor_loads(plan.allocations), payloads);
    assert(items.take(items.len() as int) =~= items);
    lemma_loaded(plan.allocations, items, items.len() as int, k);
}

/// The buffer of a range is found by its device, its tensor and the range: the first that has all of
/// them, and none where none has.
pub proof fn range_buffers_are_found_by_their_range(
    all: Seq<VulkanDistributedParameterBufferAllocationView>,
    device_id: Seq<char>,
    tensor: Seq<char>,
    byte_offset: usize,
    byte_count: usize,
    j: int,
)
    ensures
        match sequence::find_first(all, range_matcher(device_id, tensor, byte_offset, byte_count)) {
            Some(found) => exists|i: int|
                {
                    &&& 0 <= i < all.len()
                    &&& found == #[trigger] all[i]
                    &&& all[i].allocation.device_id == device_id
                    &&& all[i].allocation.tensor == tensor
                    &&& all[i].allocation.byte_offset == byte_offset
                    &&& all[i].allocation.byte_count == byte_count
                    &&& 0 <= j < i ==> !(all[j].allocation.device_id == device_id && all[j].allocation.tensor == tensor && all[j].allocation.byte_offset == byte_offset && all[j].allocation.byte_count == byte_count)
                },
            None => 0 <= j < all.len() ==> !(all[j].allocation.device_id == device_id && all[j].allocation.tensor == tensor && all[j].allocation.byte_offset == byte_offset && all[j].allocation.byte_count == byte_count),
        },
{
    let p = range_matcher(device_id, tensor, byte_offset, byte_count);
    if 0 <= j < all.len() {
        assert(p(all[j]) <==> all[j].allocation.device_id == device_id && all[j].allocation.tensor == tensor && all[j].allocation.byte_offset == byte_offset && all[j].allocation.byte_count == byte_count);
    }
    if sequence::find_first(all, p) is Some {
        let i = sequence::lemma_find_first_some(all, p);
        assert(p(all[i]));
        assert(sequence::find_first(all, p)->Some_0 == all[i]);
    } else {
        sequence::lemma_find_none_all(all, p);
    }
}

} // verus!
