//! Tensors that no device has to hold whole, because every use of them is distributed.

use crate::descriptor_resources::VulkanResolvedDescriptorBinding;
use crate::descriptor_resources::VulkanResolvedDescriptorBindingView;
use crate::dispatch_plan::VulkanPreparedDispatch;
use crate::dispatch_plan::VulkanPreparedDispatchPlan;
use crate::dispatch_plan::VulkanPreparedDispatchPlanView;
use crate::dispatch_plan::VulkanPreparedDispatchView;
use crate::distributed::plan;
use crate::distributed::plan::VulkanDistributedDispatchPlan;
use crate::distributed::plan::VulkanDistributedDispatchPlanView;
use crate::distributed::plan::VulkanDistributedDispatchShard;
use crate::distributed::plan::VulkanDistributedDispatchShardView;
use crate::distributed::plan::VulkanDistributedExecutionPlan;
use crate::distributed::plan::VulkanDistributedExecutionPlanView;
use crate::distributed::plan::VulkanDistributedPlanError;
use crate::ordered;
use crate::ordered::OrderedMap;
use crate::ordered::OrderedSet;
use crate::sequence;
use crate::tensors;
use crate::tensors::TensorIndex;
use crate::tensors::TensorMetadataView;
use crate::text;
use crate::text::Message;
use vstd::prelude::*;

verus! {

/// The tensors that a device does not hold whole.
#[derive(Debug, PartialEq, Eq)]
pub struct VulkanDistributedDeviceParameterExclusions {
    pub device_id: String,
    pub tensors: Vec<String>,
    pub total_byte_capacity: usize,
}

#[verifier::ext_equal]
pub struct VulkanDistributedDeviceParameterExclusionsView {
    pub device_id: Seq<char>,
    pub tensors: Seq<Seq<char>>,
    pub total_byte_capacity: usize,
}

impl DeepView for VulkanDistributedDeviceParameterExclusions {
    type V = VulkanDistributedDeviceParameterExclusionsView;

    open spec fn deep_view(&self) -> VulkanDistributedDeviceParameterExclusionsView {
        VulkanDistributedDeviceParameterExclusionsView {
            device_id: self.device_id.deep_view(),
            tensors: self.tensors.deep_view(),
            total_byte_capacity: self.total_byte_capacity,
        }
    }
}

impl View for VulkanDistributedDeviceParameterExclusions {
    type V = VulkanDistributedDeviceParameterExclusionsView;

    open spec fn view(&self) -> VulkanDistributedDeviceParameterExclusionsView {
        self.deep_view()
    }
}

impl Clone for VulkanDistributedDeviceParameterExclusions {
    fn clone(&self) -> (r: Self)
        ensures
            r@ == self@,
    {
        VulkanDistributedDeviceParameterExclusions {
            device_id: self.device_id.clone(),
            tensors: self.tensors.clone(),
            total_byte_capacity: self.total_byte_capacity,
        }
    }
}

/// The excluded tensors of every device.
#[derive(Debug, PartialEq, Eq)]
pub struct VulkanDistributedParameterExclusionPlan {
    pub devices: Vec<VulkanDistributedDeviceParameterExclusions>,
    pub device_count: usize,
    pub unique_tensor_count: usize,
    pub excluded_full_allocation_count: usize,
    pub excluded_full_byte_capacity: usize,
}

#[verifier::ext_equal]
pub struct VulkanDistributedParameterExclusionPlanView {
    pub devices: Seq<VulkanDistributedDeviceParameterExclusionsView>,
    pub device_count: usize,
    pub unique_tensor_count: usize,
    pub excluded_full_allocation_count: usize,
    pub excluded_full_byte_capacity: usize,
}

impl DeepView for VulkanDistributedParameterExclusionPlan {
    type V = VulkanDistributedParameterExclusionPlanView;

    open spec fn deep_view(&self) -> VulkanDistributedParameterExclusionPlanView {
        VulkanDistributedParameterExclusionPlanView {
            devices: self.devices.deep_view(),
            device_count: self.device_count,
            unique_tensor_count: self.unique_tensor_count,
            excluded_full_allocation_count: self.excluded_full_allocation_count,
            excluded_full_byte_capacity: self.excluded_full_byte_capacity,
        }
    }
}

impl View for VulkanDistributedParameterExclusionPlan {
    type V = VulkanDistributedParameterExclusionPlanView;

    open spec fn view(&self) -> VulkanDistributedParameterExclusionPlanView {
        self.deep_view()
    }
}

impl Clone for VulkanDistributedParameterExclusionPlan {
    fn clone(&self) -> (r: Self)
        ensures
            r@ == self@,
    {
        VulkanDistributedParameterExclusionPlan {
            devices: self.devices.clone(),
            device_count: self.device_count,
            unique_tensor_count: self.unique_tensor_count,
            excluded_full_allocation_count: self.excluded_full_allocation_count,
            excluded_full_byte_capacity: self.excluded_full_byte_capacity,
        }
    }
}

/// Owner, index, component and node: what a dispatch is found by.
pub type DispatchKey = ((String, usize), (String, String));

/// The value of a dispatch key.
pub type DispatchKeyView = ((Seq<char>, usize), (Seq<char>, Seq<char>));

/// A device and a tensor.
pub type Target = (String, String);

/// The value of a target.
pub type TargetView = (Seq<char>, Seq<char>);

/// The key of a distributed dispatch.
pub open spec fn distributed_key(dispatch: VulkanDistributedDispatchPlanView) -> DispatchKeyView {
    (
        (dispatch.owner_device_id, dispatch.dispatch_index),
        (dispatch.component_id, dispatch.node_id),
    )
}

/// The key of a prepared dispatch on a device.
pub open spec fn prepared_key(
    device_id: Seq<char>,
    dispatch: VulkanPreparedDispatchView,
) -> DispatchKeyView {
    ((device_id, dispatch.dispatch_index), (dispatch.component_id, dispatch.node_id))
}

/// The tensors of all fragments of these shards.
pub open spec fn shard_tensors(shards: Seq<VulkanDistributedDispatchShardView>) -> Seq<Seq<char>>
    decreases shards.len(),
{
    if shards.len() == 0 {
        Seq::empty()
    } else {
        shard_tensors(shards.drop_last()) + Seq::new(
            shards.last().parameters.len(),
            |i: int| shards.last().parameters[i].tensor,
        )
    }
}

/// The tensors that a prepared dispatch reads as parameters.
pub open spec fn descriptor_tensors(
    descriptors: Seq<VulkanResolvedDescriptorBindingView>,
) -> Seq<Seq<char>> {
    let found = plan::parameter_descriptors(descriptors);
    Seq::new(found.len(), |i: int| found[i].1)
}

/// The tensors as targets on one device.
pub open spec fn owned_targets(owner: Seq<char>, tensors: Set<Seq<char>>) -> Set<TargetView> {
    Set::new(|target: TargetView| target.0 == owner && tensors.contains(target.1))
}

/// The distributed dispatches with their tensors, and the tensors per device.
#[verifier::ext_equal]
pub struct TargetsView {
    pub by_dispatch: Map<DispatchKeyView, Set<Seq<char>>>,
    pub targets: Set<TargetView>,
}

/// No dispatch looked at yet.
pub open spec fn no_targets() -> TargetsView {
    TargetsView { by_dispatch: Map::empty(), targets: Set::empty() }
}

/// Adds the tensors of one distributed dispatch.
#[verifier::opaque]
pub open spec fn targets_with(
    done: TargetsView,
    dispatch: VulkanDistributedDispatchPlanView,
) -> Result<TargetsView, Seq<char>> {
    let key = distributed_key(dispatch);
    let tensors = shard_tensors(dispatch.shards).to_set();
    if shard_tensors(dispatch.shards).len() == 0 {
        Err(
            "distributed dispatch "@ + dispatch.component_id + "."@ + dispatch.node_id
                + " has no parameter tensors"@,
        )
    } else if done.by_dispatch.contains_key(key) {
        Err(
            "distributed execution plan repeats dispatch "@ + dispatch.component_id + "."@
                + dispatch.node_id + " at index "@ + text::decimal(dispatch.dispatch_index as nat)
                + " on "@ + text::quoted(dispatch.owner_device_id),
        )
    } else {
        Ok(
            TargetsView {
                by_dispatch: done.by_dispatch.insert(key, tensors),
                targets: done.targets.union(owned_targets(dispatch.owner_device_id, tensors)),
            },
        )
    }
}

/// One step over the distributed dispatches.
pub open spec fn targets_step() -> spec_fn(
    TargetsView,
    VulkanDistributedDispatchPlanView,
) -> Result<TargetsView, Seq<char>> {
    |done: TargetsView, dispatch: VulkanDistributedDispatchPlanView| targets_with(done, dispatch)
}

/// Whether a tensor is a target on a device.
pub open spec fn targeted_on(targets: Set<TargetView>, device_id: Seq<char>) -> spec_fn(
    Seq<char>,
) -> bool {
    |tensor: Seq<char>| targets.contains((device_id, tensor))
}

/// Matches one prepared dispatch with the distributed ones. A distributed dispatch reads the same
/// tensors as when it was planned; another one reads none of the targets of its device.
#[verifier::opaque]
pub open spec fn dispatch_matched(
    found: TargetsView,
    device_id: Seq<char>,
    matched: Set<DispatchKeyView>,
    dispatch: VulkanPreparedDispatchView,
) -> Result<Set<DispatchKeyView>, Seq<char>> {
    let key = prepared_key(device_id, dispatch);
    let tensors = descriptor_tensors(dispatch.descriptors).to_set();
    if found.by_dispatch.contains_key(key) {
        if tensors != found.by_dispatch[key] {
            Err(
                "distributed dispatch "@ + dispatch.component_id + "."@ + dispatch.node_id
                    + " parameter tensors changed between preparation and physical lowering"@,
            )
        } else {
            Ok(matched.insert(key))
        }
    } else {
        match sequence::find_first(
            ordered::sorted_elements::<String>(tensors),
            targeted_on(found.targets, device_id),
        ) {
            Some(tensor) => Err(
                "cannot exclude distributed tensor "@ + text::quoted(tensor) + " on "@
                    + text::quoted(device_id) + "; canonical dispatch "@ + dispatch.component_id
                    + "."@ + dispatch.node_id + " still uses it"@,
            ),
            None => Ok(matched),
        }
    }
}

/// One step over the prepared dispatches of a device.
pub open spec fn match_step(found: TargetsView, device_id: Seq<char>) -> spec_fn(
    Set<DispatchKeyView>,
    VulkanPreparedDispatchView,
) -> Result<Set<DispatchKeyView>, Seq<char>> {
    |matched: Set<DispatchKeyView>, dispatch: VulkanPreparedDispatchView|
        dispatch_matched(found, device_id, matched, dispatch)
}

/// The devices looked at, and the distributed dispatches found on them.
#[verifier::ext_equal]
pub struct MatchedView {
    pub devices: Set<Seq<char>>,
    pub matched: Set<DispatchKeyView>,
}

/// No device looked at yet.
pub open spec fn nothing_matched() -> MatchedView {
    MatchedView { devices: Set::empty(), matched: Set::empty() }
}

/// Matches the prepared plan of one device.
#[verifier::opaque]
pub open spec fn device_matched(
    found: TargetsView,
    done: MatchedView,
    prepared: (Seq<char>, VulkanPreparedDispatchPlanView),
) -> Result<MatchedView, Seq<char>> {
    if done.devices.contains(prepared.0) {
        Err(
            "distributed parameter exclusion repeats prepared plan for device "@ + text::quoted(
                prepared.0,
            ),
        )
    } else {
        match sequence::try_fold(
            prepared.1.dispatches,
            done.matched,
            match_step(found, prepared.0),
        ) {
            Err(e) => Err(e),
            Ok(matched) => Ok(MatchedView { devices: done.devices.insert(prepared.0), matched }),
        }
    }
}

/// One step over the devices.
pub open spec fn device_step(found: TargetsView) -> spec_fn(
    MatchedView,
    (Seq<char>, VulkanPreparedDispatchPlanView),
) -> Result<MatchedView, Seq<char>> {
    |done: MatchedView, prepared: (Seq<char>, VulkanPreparedDispatchPlanView)|
        device_matched(found, done, prepared)
}

/// Whether no prepared plan holds this dispatch.
pub open spec fn unmatched(matched: Set<DispatchKeyView>) -> spec_fn(
    (DispatchKeyView, Set<Seq<char>>),
) -> bool {
    |entry: (DispatchKeyView, Set<Seq<char>>)| !matched.contains(entry.0)
}

/// Adds the bytes of one target.
pub open spec fn excluded_bytes_step(index: Map<Seq<char>, TensorMetadataView>) -> spec_fn(
    usize,
    TargetView,
) -> Result<usize, Seq<char>> {
    |total: usize, target: TargetView|
        match tensors::recorded_byte_count(index, target.1) {
            None => Err(
                "distributed exclusion tensor "@ + text::quoted(target.1) + " has no byte count"@,
            ),
            Some(bytes) => if total + bytes > usize::MAX {
                Err("distributed exclusion byte capacity overflowed"@)
            } else {
                Ok((total + bytes) as usize)
            },
        }
}

/// Adds the bytes of one excluded tensor.
pub open spec fn device_bytes_step(index: Map<Seq<char>, TensorMetadataView>) -> spec_fn(
    usize,
    Seq<char>,
) -> Result<usize, Seq<char>> {
    |total: usize, tensor: Seq<char>|
        if total + tensors::recorded_byte_count(index, tensor)->Some_0 > usize::MAX {
            Err("distributed device exclusion byte capacity overflowed"@)
        } else {
            Ok((total + tensors::recorded_byte_count(index, tensor)->Some_0) as usize)
        }
}

/// The targets of one device.
pub open spec fn device_targets(targets: Seq<TargetView>, device_id: Seq<char>) -> Set<Seq<char>> {
    Set::new(|tensor: Seq<char>| targets.contains((device_id, tensor)))
}

/// The exclusions of one device.
pub open spec fn device_exclusions(
    targets: Seq<TargetView>,
    index: Map<Seq<char>, TensorMetadataView>,
    device_id: Seq<char>,
) -> Result<VulkanDistributedDeviceParameterExclusionsView, Seq<char>> {
    let tensors = ordered::sorted_elements::<String>(device_targets(targets, device_id));
    match sequence::try_fold(tensors, 0usize, device_bytes_step(index)) {
        Err(e) => Err(e),
        Ok(total) => Ok(
            VulkanDistributedDeviceParameterExclusionsView {
                device_id,
                tensors,
                total_byte_capacity: total,
            },
        ),
    }
}

/// The exclusions of a device.
pub open spec fn exclusions_on(
    targets: Seq<TargetView>,
    index: Map<Seq<char>, TensorMetadataView>,
) -> spec_fn(Seq<char>) -> Result<VulkanDistributedDeviceParameterExclusionsView, Seq<char>> {
    |device_id: Seq<char>| device_exclusions(targets, index, device_id)
}

/// The devices of these targets, in order.
pub open spec fn target_devices(targets: Seq<TargetView>) -> Seq<Seq<char>> {
    ordered::sorted_elements::<String>(Seq::new(targets.len(), |i: int| targets[i].0).to_set())
}

/// The tensors of these targets, in order.
pub open spec fn target_tensors(targets: Seq<TargetView>) -> Seq<Seq<char>> {
    ordered::sorted_elements::<String>(Seq::new(targets.len(), |i: int| targets[i].1).to_set())
}

/// The plan that excludes these targets.
#[verifier::opaque]
pub open spec fn exclusions_of_targets(
    targets: Seq<TargetView>,
    index: Map<Seq<char>, TensorMetadataView>,
) -> Result<VulkanDistributedParameterExclusionPlanView, Seq<char>> {
    match sequence::try_fold(targets, 0usize, excluded_bytes_step(index)) {
        Err(e) => Err(e),
        Ok(bytes) => match sequence::try_map(
            target_devices(targets),
            exclusions_on(targets, index),
        ) {
            Err(e) => Err(e),
            Ok(devices) => Ok(
                VulkanDistributedParameterExclusionPlanView {
                    devices,
                    device_count: devices.len() as usize,
                    unique_tensor_count: target_tensors(targets).len() as usize,
                    excluded_full_allocation_count: targets.len() as usize,
                    excluded_full_byte_capacity: bytes,
                },
            ),
        },
    }
}

/// The exclusion plan of an execution plan and the prepared plans that it was made from.
pub open spec fn exclusion_plan(
    execution: VulkanDistributedExecutionPlanView,
    prepared: Seq<(Seq<char>, VulkanPreparedDispatchPlanView)>,
    index: Map<Seq<char>, TensorMetadataView>,
) -> Result<VulkanDistributedParameterExclusionPlanView, Seq<char>> {
    match sequence::try_fold(execution.dispatches, no_targets(), targets_step()) {
        Err(e) => Err(e),
        Ok(found) => match sequence::try_fold(prepared, nothing_matched(), device_step(found)) {
            Err(e) => Err(e),
            Ok(done) => match sequence::find_first(
                ordered::sorted_entries::<DispatchKey, Set<Seq<char>>>(found.by_dispatch),
                unmatched(done.matched),
            ) {
                Some(missing) => Err(
                    "distributed dispatch "@ + missing.0.1.0 + "."@ + missing.0.1.1
                        + " at index "@ + text::decimal(missing.0.0.1 as nat) + " on "@
                        + text::quoted(missing.0.0.0) + " is absent from prepared plans"@,
                ),
                None => exclusions_of_targets(
                    ordered::sorted_elements::<Target>(found.targets),
                    index,
                ),
            },
        },
    }
}

#[verifier::loop_isolation(false)]
fn list_shard_tensors(shards: &Vec<VulkanDistributedDispatchShard>) -> (r: Vec<String>)
    ensures
        r.deep_view() == shard_tensors(shards.deep_view()),
{
    let ghost all = shards.deep_view();
    let mut names: Vec<String> = Vec::new();
    let mut i: usize = 0;
    assert(names.deep_view() =~= shard_tensors(all.take(0)));
    while i < shards.len()
        invariant
            i <= shards.len(),
            names.deep_view() == shard_tensors(all.take(i as int)),
        decreases shards.len() - i,
    {
        let ghost front = names.deep_view();
        let ghost added = Seq::new(
            all[i as int].parameters.len(),
            |k: int| all[i as int].parameters[k].tensor,
        );
        assert(all[i as int] == shards@[i as int]@);
        assert(all.take(i + 1).drop_last() =~= all.take(i as int));
        let parameters = &shards[i].parameters;
        assert(parameters.deep_view() == all[i as int].parameters);
        assert(parameters.deep_view().len() == parameters@.len());
        let mut j: usize = 0;
        assert(front + added.take(0) =~= front);
        while j < parameters.len()
            invariant
                j <= parameters.len(),
                names.deep_view() == front + added.take(j as int),
            decreases parameters.len() - j,
        {
            let ghost before = names.deep_view();
            assert(parameters.deep_view()[j as int] == parameters@[j as int]@);
            names.push(parameters[j].tensor.clone());
            assert(names.deep_view() =~= before.push(added[j as int]));
            assert(front + added.take(j + 1) =~= (front + added.take(j as int)).push(
                added[j as int],
            ));
            j += 1;
        }
        assert(added.take(added.len() as int) =~= added);
        assert(all.take(i + 1).last() == all[i as int]);
        assert(shard_tensors(all.take(i + 1)) =~= front + added);
        i += 1;
    }
    assert(all.take(all.len() as int) =~= all);
    names
}

#[verifier::loop_isolation(false)]
fn list_descriptor_tensors(descriptors: &Vec<VulkanResolvedDescriptorBinding>) -> (r: Vec<String>)
    ensures
        r.deep_view() == descriptor_tensors(descriptors.deep_view()),
{
    let found: Vec<(usize, String)> = plan::list_parameter_descriptors(descriptors);
    let ghost all = found.deep_view();
    let mut names: Vec<String> = Vec::new();
    let mut i: usize = 0;
    while i < found.len()
        invariant
            i <= found.len(),
            names@.len() == i,
            forall|j: int| 0 <= j < i ==> (#[trigger] names.deep_view()[j]) == all[j].1,
        decreases found.len() - i,
    {
        let ghost before = names.deep_view();
        names.push(found[i].1.clone());
        assert(names.deep_view() =~= before.push(all[i as int].1));
        i += 1;
    }
    assert(names.deep_view() =~= descriptor_tensors(descriptors.deep_view()));
    names
}

fn key_of(device_id: &str, dispatch_index: usize, component_id: &String, node_id: &String) -> (r:
    DispatchKey)
    ensures
        r.deep_view() == ((device_id@, dispatch_index), (component_id@, node_id@)),
{
    ((device_id.to_owned(), dispatch_index), (component_id.clone(), node_id.clone()))
}

struct Targets {
    by_dispatch: OrderedMap<DispatchKey, OrderedSet<String>>,
    targets: OrderedSet<Target>,
}

impl Targets {
    spec fn value(&self) -> TargetsView {
        TargetsView { by_dispatch: self.by_dispatch@, targets: self.targets@ }
    }

    spec fn valid(&self) -> bool {
        self.by_dispatch.sorted() && self.targets.sorted()
    }

    #[verifier::loop_isolation(false)]
    fn with(self, dispatch: &VulkanDistributedDispatchPlan) -> (r: Result<
        Targets,
        VulkanDistributedPlanError,
    >)
        requires
            self.valid(),
        ensures
            (match r {
                Ok(next) => Ok::<TargetsView, Seq<char>>(next.value()),
                Err(e) => Err(e@),
            }) == targets_with(self.value(), dispatch@),
            r is Ok ==> r->Ok_0.valid(),
    {
        reveal(targets_with);
        let names: Vec<String> = list_shard_tensors(&dispatch.shards);
        assert(names.deep_view().len() == names@.len());
        if names.len() == 0 {
            return Err(
                VulkanDistributedPlanError(
                    Message::new("distributed dispatch ").text(dispatch.component_id.as_str()).text(
                        ".",
                    ).text(dispatch.node_id.as_str()).text(" has no parameter tensors").done(),
                ),
            );
        }
        let key: DispatchKey = key_of(
            dispatch.owner_device_id.as_str(),
            dispatch.dispatch_index,
            &dispatch.component_id,
            &dispatch.node_id,
        );
        if self.by_dispatch.contains_key(&key) {
            return Err(
                VulkanDistributedPlanError(
                    Message::new("distributed execution plan repeats dispatch ").text(
                        dispatch.component_id.as_str(),
                    ).text(".").text(dispatch.node_id.as_str()).text(" at index ").number(
                        dispatch.dispatch_index,
                    ).text(" on ").quoted(dispatch.owner_device_id.as_str()).done(),
                ),
            );
        }
        let tensors: OrderedSet<String> = ordered::distinct_texts(&names);
        let ghost all = tensors.elements.deep_view();
        let ghost owner = dispatch.owner_device_id@;
        let ghost init = self.targets@;
        let mut targets: OrderedSet<Target> = self.targets;
        let mut i: usize = 0;
        assert(targets@ =~= init.union(owned_targets(owner, all.take(0).to_set())));
        while i < tensors.elements.len()
            invariant
                i <= tensors.elements.len(),
                targets.sorted(),
                targets@ == init.union(owned_targets(owner, all.take(i as int).to_set())),
            decreases tensors.elements.len() - i,
        {
            proof {
                ordered::lemma_to_set_step(all, i as int);
                assert(all[i as int] == tensors.elements@[i as int]@);
            }
            targets.insert((dispatch.owner_device_id.clone(), tensors.elements[i].clone()));
            assert(targets@ =~= init.union(owned_targets(owner, all.take(i + 1).to_set())));
            i += 1;
        }
        assert(all.take(all.len() as int) =~= all);
        let mut by_dispatch: OrderedMap<DispatchKey, OrderedSet<String>> = self.by_dispatch;
        by_dispatch.insert(key, tensors);
        Ok(Targets { by_dispatch, targets })
    }

    #[verifier::loop_isolation(false)]
    fn of(execution_plan: &VulkanDistributedExecutionPlan) -> (r: Result<
        Targets,
        VulkanDistributedPlanError,
    >)
        ensures
            (match r {
                Ok(found) => Ok::<TargetsView, Seq<char>>(found.value()),
                Err(e) => Err(e@),
            }) == sequence::try_fold(execution_plan@.dispatches, no_targets(), targets_step()),
            r is Ok ==> r->Ok_0.valid(),
    {
        let ghost all = execution_plan@.dispatches;
        let ghost step = targets_step();
        let mut found = Targets { by_dispatch: OrderedMap::new(), targets: OrderedSet::new() };
        let mut i: usize = 0;
        assert(all.take(0) =~= Seq::empty());
        while i < execution_plan.dispatches.len()
            invariant
                i <= execution_plan.dispatches.len(),
                found.valid(),
                sequence::try_fold(all.take(i as int), no_targets(), step) == Ok::<
                    TargetsView,
                    Seq<char>,
                >(found.value()),
            decreases execution_plan.dispatches.len() - i,
        {
            proof {
                sequence::lemma_try_fold_step(all, no_targets(), step, i as int);
                assert(all[i as int] == execution_plan.dispatches@[i as int]@);
            }
            match found.with(&execution_plan.dispatches[i]) {
                Ok(next) => {
                    found = next;
                },
                Err(e) => {
                    proof {
                        sequence::lemma_try_fold_error(all, no_targets(), step, i + 1);
                    }
                    return Err(e);
                },
            }
            i += 1;
        }
        assert(all.take(all.len() as int) =~= all);
        Ok(found)
    }

    #[verifier::loop_isolation(false)]
    fn match_dispatch(
        &self,
        device_id: &str,
        matched: OrderedSet<DispatchKey>,
        dispatch: &VulkanPreparedDispatch,
    ) -> (r: Result<OrderedSet<DispatchKey>, VulkanDistributedPlanError>)
        requires
            matched.sorted(),
        ensures
            (match r {
                Ok(next) => Ok::<Set<DispatchKeyView>, Seq<char>>(next@),
                Err(e) => Err(e@),
            }) == dispatch_matched(self.value(), device_id@, matched@, dispatch@),
            r is Ok ==> r->Ok_0.sorted(),
    {
        reveal(dispatch_matched);
        let key: DispatchKey = key_of(
            device_id,
            dispatch.dispatch_index,
            &dispatch.component_id,
            &dispatch.node_id,
        );
        let names: Vec<String> = list_descriptor_tensors(&dispatch.descriptors);
        let tensors: OrderedSet<String> = ordered::distinct_texts(&names);
        if let Some(distributed) = self.by_dispatch.get(&key) {
            if !tensors.is_same(distributed) {
                return Err(
                    VulkanDistributedPlanError(
                        Message::new("distributed dispatch ").text(
                            dispatch.component_id.as_str(),
                        ).text(".").text(dispatch.node_id.as_str()).text(
                            " parameter tensors changed between preparation and physical lowering",
                        ).done(),
                    ),
                );
            }
            let mut next: OrderedSet<DispatchKey> = matched;
            next.insert(key);
            return Ok(next);
        }
        let ghost all = tensors.elements.deep_view();
        let ghost p = targeted_on(self.targets@, device_id@);
        let mut i: usize = 0;
        while i < tensors.elements.len()
            invariant
                i <= tensors.elements.len(),
                forall|j: int| 0 <= j < i ==> !p(#[trigger] all[j]),
            decreases tensors.elements.len() - i,
        {
            let tensor: &String = &tensors.elements[i];
            assert(all[i as int] == tensor@);
            if self.targets.contains(&(device_id.to_owned(), tensor.clone())) {
                proof {
                    sequence::lemma_find_first_at(all, p, i as int);
                }
                return Err(
                    VulkanDistributedPlanError(
                        Message::new("cannot exclude distributed tensor ").quoted(
                            tensor.as_str(),
                        ).text(" on ").quoted(device_id).text("; canonical dispatch ").text(
                            dispatch.component_id.as_str(),
                        ).text(".").text(dispatch.node_id.as_str()).text(" still uses it").done(),
                    ),
                );
            }
            i += 1;
        }
        proof {
            sequence::lemma_find_first_none(all, p);
        }
        Ok(matched)
    }

    #[verifier::loop_isolation(false)]
    fn match_device(
        &self,
        matched: OrderedSet<DispatchKey>,
        device_id: &str,
        prepared: &VulkanPreparedDispatchPlan,
    ) -> (r: Result<OrderedSet<DispatchKey>, VulkanDistributedPlanError>)
        requires
            matched.sorted(),
        ensures
            (match r {
                Ok(next) => Ok::<Set<DispatchKeyView>, Seq<char>>(next@),
                Err(e) => Err(e@),
            }) == sequence::try_fold(
                prepared@.dispatches,
                matched@,
                match_step(self.value(), device_id@),
            ),
            r is Ok ==> r->Ok_0.sorted(),
    {
        let ghost all = prepared@.dispatches;
        let ghost init = matched@;
        let ghost step = match_step(self.value(), device_id@);
        let mut done: OrderedSet<DispatchKey> = matched;
        let mut i: usize = 0;
        assert(all.take(0) =~= Seq::empty());
        while i < prepared.dispatches.len()
            invariant
                i <= prepared.dispatches.len(),
                done.sorted(),
                sequence::try_fold(all.take(i as int), init, step) == Ok::<
                    Set<DispatchKeyView>,
                    Seq<char>,
                >(done@),
            decreases prepared.dispatches.len() - i,
        {
            proof {
                sequence::lemma_try_fold_step(all, init, step, i as int);
                assert(all[i as int] == prepared.dispatches@[i as int]@);
            }
            match self.match_dispatch(device_id, done, &prepared.dispatches[i]) {
                Ok(next) => {
                    done = next;
                },
                Err(e) => {
                    proof {
                        sequence::lemma_try_fold_error(all, init, step, i + 1);
                    }
                    return Err(e);
                },
            }
            i += 1;
        }
        assert(all.take(all.len() as int) =~= all);
        Ok(done)
    }

    #[verifier::loop_isolation(false)]
    fn match_plans(&self, prepared_plans: &[(&str, &VulkanPreparedDispatchPlan)]) -> (r: Result<
        OrderedSet<DispatchKey>,
        VulkanDistributedPlanError,
    >)
        ensures
            (match (r, sequence::try_fold(
                prepared_plans.deep_view(),
                nothing_matched(),
                device_step(self.value()),
            )) {
                (Ok(matched), Ok(done)) => matched@ == done.matched,
                (Err(e), Err(message)) => e@ == message,
                _ => false,
            }),
    {
        let ghost all = prepared_plans.deep_view();
        let ghost step = device_step(self.value());
        let mut devices: OrderedSet<String> = OrderedSet::new();
        let mut matched: OrderedSet<DispatchKey> = OrderedSet::new();
        let mut i: usize = 0;
        assert(all.take(0) =~= Seq::empty());
        while i < prepared_plans.len()
            invariant
                i <= prepared_plans.len(),
                matched.sorted(),
                sequence::try_fold(all.take(i as int), nothing_matched(), step) == Ok::<
                    MatchedView,
                    Seq<char>,
                >(MatchedView { devices: devices@, matched: matched@ }),
            decreases prepared_plans.len() - i,
        {
            proof {
                reveal(device_matched);
                sequence::lemma_try_fold_step(all, nothing_matched(), step, i as int);
                if sequence::try_fold(all.take(i + 1), nothing_matched(), step) is Err {
                    sequence::lemma_try_fold_error(all, nothing_matched(), step, i + 1);
                }
            }
            let (device_id, prepared): (&str, &VulkanPreparedDispatchPlan) = prepared_plans[i];
            assert(all[i as int] == (device_id@, prepared@));
            if !devices.insert(device_id.to_owned()) {
                return Err(
                    VulkanDistributedPlanError(
                        Message::new(
                            "distributed parameter exclusion repeats prepared plan for device ",
                        ).quoted(device_id).done(),
                    ),
                );
            }
            match self.match_device(matched, device_id, prepared) {
                Ok(next) => {
                    matched = next;
                },
                Err(e) => return Err(e),
            }
            i += 1;
        }
        assert(all.take(all.len() as int) =~= all);
        Ok(matched)
    }

    #[verifier::loop_isolation(false)]
    fn missing(&self, matched: &OrderedSet<DispatchKey>) -> (r: Option<&DispatchKey>)
        requires
            self.valid(),
        ensures
            (match (r, sequence::find_first(
                ordered::sorted_entries::<DispatchKey, Set<Seq<char>>>(self.value().by_dispatch),
                unmatched(matched@),
            )) {
                (Some(key), Some(entry)) => key.deep_view() == entry.0,
                (None, None) => true,
                _ => false,
            }),
    {
        let ghost all = self.by_dispatch.entries.deep_view();
        let ghost p = unmatched(matched@);
        proof {
            ordered::lemma_sorted_entries::<DispatchKey, Set<Seq<char>>>(all);
        }
        let mut i: usize = 0;
        while i < self.by_dispatch.entries.len()
            invariant
                i <= self.by_dispatch.entries.len(),
                forall|j: int| 0 <= j < i ==> !p(#[trigger] all[j]),
            decreases self.by_dispatch.entries.len() - i,
        {
            let key: &DispatchKey = &self.by_dispatch.entries[i].0;
            assert(all[i as int].0 == key.deep_view());
            if !matched.contains(key) {
                proof {
                    sequence::lemma_find_first_at(all, p, i as int);
                }
                return Some(key);
            }
            i += 1;
        }
        proof {
            sequence::lemma_find_first_none(all, p);
        }
        None
    }
}

proof fn lemma_targets_recorded(
    targets: Seq<TargetView>,
    index: Map<Seq<char>, TensorMetadataView>,
    init: usize,
)
    requires
        sequence::try_fold(targets, init, excluded_bytes_step(index)) is Ok,
    ensures
        forall|i: int|
            0 <= i < targets.len() ==> tensors::recorded_byte_count(
                index,
                (#[trigger] targets[i]).1,
            ) is Some,
    decreases targets.len(),
{
    if targets.len() > 0 {
        let front = targets.drop_last();
        lemma_targets_recorded(front, index, init);
        assert forall|i: int| 0 <= i < targets.len() implies tensors::recorded_byte_count(
            index,
            (#[trigger] targets[i]).1,
        ) is Some by {
            if i < front.len() {
                assert(front[i] == targets[i]);
            }
        }
    }
}

#[verifier::loop_isolation(false)]
fn exclude_on_device(
    targets: &Vec<Target>,
    tensor_index: &TensorIndex,
    device_id: &String,
) -> (r: Result<VulkanDistributedDeviceParameterExclusions, VulkanDistributedPlanError>)
    requires
        forall|i: int|
            0 <= i < targets@.len() ==> tensors::recorded_byte_count(
                tensor_index@.tensors,
                (#[trigger] targets.deep_view()[i]).1,
            ) is Some,
    ensures
        sequence::outcome(r) == device_exclusions(
            targets.deep_view(),
            tensor_index@.tensors,
            device_id@,
        ),
{
    let ghost list = targets.deep_view();
    let mut names: OrderedSet<String> = OrderedSet::new();
    let mut i: usize = 0;
    assert(names@ =~= device_targets(list.take(0), device_id@));
    while i < targets.len()
        invariant
            i <= targets.len(),
            names.sorted(),
            names@ == device_targets(list.take(i as int), device_id@),
        decreases targets.len() - i,
    {
        let ghost before = names@;
        let ghost taken = list.take(i + 1);
        assert(list[i as int] == (targets@[i as int].0@, targets@[i as int].1@));
        if targets[i].0 == *device_id {
            names.insert(targets[i].1.clone());
        }
        proof {
            assert forall|x: Seq<char>|
                names@.contains(x) == device_targets(taken, device_id@).contains(x) by {
                let pair = (device_id@, x);
                if list.take(i as int).contains(pair) {
                    let k = choose|k: int|
                        0 <= k < list.take(i as int).len() && list.take(i as int)[k] == pair;
                    assert(taken[k] == pair);
                }
                if taken.contains(pair) {
                    let k = choose|k: int| 0 <= k < taken.len() && taken[k] == pair;
                    if k < i {
                        assert(list.take(i as int)[k] == pair);
                    }
                }
                assert(taken[i as int] == list[i as int]);
            }
            assert(names@ =~= device_targets(taken, device_id@));
        }
        i += 1;
    }
    assert(list.take(list.len() as int) =~= list);
    proof {
        ordered::lemma_sorted_elements::<String>(names.elements.deep_view());
    }
    let ghost all = names.elements.deep_view();
    let ghost step = device_bytes_step(tensor_index@.tensors);
    let mut total: usize = 0;
    let mut k: usize = 0;
    assert(all.take(0) =~= Seq::empty());
    while k < names.elements.len()
        invariant
            k <= names.elements.len(),
            sequence::try_fold(all.take(k as int), 0usize, step) == Ok::<usize, Seq<char>>(total),
        decreases names.elements.len() - k,
    {
        let tensor: &String = &names.elements[k];
        proof {
            sequence::lemma_try_fold_step(all, 0usize, step, k as int);
            if sequence::try_fold(all.take(k + 1), 0usize, step) is Err {
                sequence::lemma_try_fold_error(all, 0usize, step, k + 1);
            }
            assert(all[k as int] == tensor@);
            assert(all.to_set().contains(tensor@));
            assert(list.contains((device_id@, tensor@)));
            let j = choose|j: int| 0 <= j < list.len() && list[j] == (device_id@, tensor@);
            assert(list[j].1 == tensor@);
        }
        let bytes: usize = match tensor_index.byte_count(tensor) {
            Some(bytes) => bytes,
            None => 0,
        };
        total = match total.checked_add(bytes) {
            Some(total) => total,
            None => return Err(
                VulkanDistributedPlanError(
                    "distributed device exclusion byte capacity overflowed".to_owned(),
                ),
            ),
        };
        k += 1;
    }
    assert(all.take(all.len() as int) =~= all);
    Ok(
        VulkanDistributedDeviceParameterExclusions {
            device_id: device_id.clone(),
            tensors: names.elements,
            total_byte_capacity: total,
        },
    )
}

#[verifier::loop_isolation(false)]
fn list_target_parts(targets: &Vec<Target>) -> (r: (Vec<String>, Vec<String>))
    ensures
        r.0.deep_view() == Seq::new(targets@.len(), |i: int| targets.deep_view()[i].0),
        r.1.deep_view() == Seq::new(targets@.len(), |i: int| targets.deep_view()[i].1),
{
    let ghost all = targets.deep_view();
    let mut devices: Vec<String> = Vec::new();
    let mut names: Vec<String> = Vec::new();
    let mut i: usize = 0;
    while i < targets.len()
        invariant
            i <= targets.len(),
            devices@.len() == i,
            names@.len() == i,
            forall|j: int| 0 <= j < i ==> (#[trigger] devices.deep_view()[j]) == all[j].0,
            forall|j: int| 0 <= j < i ==> (#[trigger] names.deep_view()[j]) == all[j].1,
        decreases targets.len() - i,
    {
        let ghost devices_before = devices.deep_view();
        let ghost names_before = names.deep_view();
        devices.push(targets[i].0.clone());
        names.push(targets[i].1.clone());
        assert(devices.deep_view() =~= devices_before.push(all[i as int].0));
        assert(names.deep_view() =~= names_before.push(all[i as int].1));
        i += 1;
    }
    assert(devices.deep_view() =~= Seq::new(all.len(), |j: int| all[j].0));
    assert(names.deep_view() =~= Seq::new(all.len(), |j: int| all[j].1));
    (devices, names)
}

#[verifier::loop_isolation(false)]
fn exclude_targets(targets: &Vec<Target>, tensor_index: &TensorIndex) -> (r: Result<
    VulkanDistributedParameterExclusionPlan,
    VulkanDistributedPlanError,
>)
    ensures
        sequence::outcome(r) == exclusions_of_targets(targets.deep_view(), tensor_index@.tensors),
{
    reveal(exclusions_of_targets);
    let ghost all = targets.deep_view();
    let ghost index = tensor_index@.tensors;
    let ghost step = excluded_bytes_step(index);
    let mut bytes: usize = 0;
    let mut i: usize = 0;
    assert(all.take(0) =~= Seq::empty());
    while i < targets.len()
        invariant
            i <= targets.len(),
            sequence::try_fold(all.take(i as int), 0usize, step) == Ok::<usize, Seq<char>>(bytes),
        decreases targets.len() - i,
    {
        proof {
            sequence::lemma_try_fold_step(all, 0usize, step, i as int);
            if sequence::try_fold(all.take(i + 1), 0usize, step) is Err {
                sequence::lemma_try_fold_error(all, 0usize, step, i + 1);
            }
        }
        let tensor: &String = &targets[i].1;
        assert(all[i as int].1 == tensor@);
        let count: usize = match tensor_index.byte_count(tensor) {
            Some(count) => count,
            None => return Err(
                VulkanDistributedPlanError(
                    Message::new("distributed exclusion tensor ").quoted(tensor.as_str()).text(
                        " has no byte count",
                    ).done(),
                ),
            ),
        };
        bytes = match bytes.checked_add(count) {
            Some(bytes) => bytes,
            None => return Err(
                VulkanDistributedPlanError(
                    "distributed exclusion byte capacity overflowed".to_owned(),
                ),
            ),
        };
        i += 1;
    }
    assert(all.take(all.len() as int) =~= all);
    proof {
        lemma_targets_recorded(all, index, 0usize);
    }
    let (device_parts, tensor_parts): (Vec<String>, Vec<String>) = list_target_parts(targets);
    let device_ids: OrderedSet<String> = ordered::distinct_texts(&device_parts);
    let tensor_names: OrderedSet<String> = ordered::distinct_texts(&tensor_parts);
    let ghost ids = device_ids.elements.deep_view();
    let ghost on = exclusions_on(all, index);
    let mut devices: Vec<VulkanDistributedDeviceParameterExclusions> = Vec::new();
    let mut k: usize = 0;
    assert(ids == target_devices(all));
    assert(devices.deep_view() =~= Seq::empty());
    assert(ids.take(0) =~= Seq::empty());
    while k < device_ids.elements.len()
        invariant
            k <= device_ids.elements.len(),
            sequence::try_map(ids.take(k as int), on) == Ok::<
                Seq<VulkanDistributedDeviceParameterExclusionsView>,
                Seq<char>,
            >(devices.deep_view()),
        decreases device_ids.elements.len() - k,
    {
        proof {
            sequence::lemma_try_map_step(ids, on, k as int);
            assert(ids[k as int] == device_ids.elements@[k as int]@);
        }
        match exclude_on_device(targets, tensor_index, &device_ids.elements[k]) {
            Ok(device) => {
                let ghost before = devices.deep_view();
                let ghost added = device@;
                devices.push(device);
                assert(devices.deep_view() =~= before.push(added));
            },
            Err(e) => {
                proof {
                    sequence::lemma_try_map_error(ids, on, k + 1);
                }
                return Err(e);
            },
        }
        k += 1;
    }
    assert(ids.take(ids.len() as int) =~= ids);
    assert(devices.deep_view().len() == devices@.len());
    assert(tensor_names.elements.deep_view().len() == tensor_names.elements@.len());
    Ok(
        VulkanDistributedParameterExclusionPlan {
            device_count: devices.len(),
            devices,
            unique_tensor_count: tensor_names.elements.len(),
            excluded_full_allocation_count: targets.len(),
            excluded_full_byte_capacity: bytes,
        },
    )
}

impl VulkanDistributedParameterExclusionPlan {
    /// The tensors that need not be held whole on the devices that own their dispatches.
    pub fn from_execution_and_prepared_plans(
        execution_plan: &VulkanDistributedExecutionPlan,
        prepared_plans: &[(&str, &VulkanPreparedDispatchPlan)],
        tensor_index: &TensorIndex,
    ) -> (r: Result<Self, VulkanDistributedPlanError>)
        ensures
            sequence::outcome(r) == exclusion_plan(
                execution_plan@,
                prepared_plans.deep_view(),
                tensor_index@.tensors,
            ),
    {
        let found: Targets = match Targets::of(execution_plan) {
            Ok(found) => found,
            Err(e) => return Err(e),
        };
        let matched: OrderedSet<DispatchKey> = match found.match_plans(prepared_plans) {
            Ok(matched) => matched,
            Err(e) => return Err(e),
        };
        if let Some(missing) = found.missing(&matched) {
            return Err(
                VulkanDistributedPlanError(
                    Message::new("distributed dispatch ").text(missing.1.0.as_str()).text(".").text(
                        missing.1.1.as_str(),
                    ).text(" at index ").number(missing.0.1).text(" on ").quoted(
                        missing.0.0.as_str(),
                    ).text(" is absent from prepared plans").done(),
                ),
            );
        }
        proof {
            ordered::lemma_sorted_elements::<Target>(found.targets.elements.deep_view());
        }
        exclude_targets(&found.targets.elements, tensor_index)
    }

    /// The tensors that a device does not hold whole.
    #[verifier::loop_isolation(false)]
    pub fn tensors_for_device(&self, device_id: &str) -> (r: OrderedSet<String>)
        ensures
            r.sorted(),
            r@ == excluded_on(self@, device_id@),
    {
        let ghost all = self.devices.deep_view();
        let ghost p = of_device(device_id@);
        let mut i: usize = 0;
        while i < self.devices.len()
            invariant
                i <= self.devices.len(),
                forall|j: int| 0 <= j < i ==> !p(#[trigger] all[j]),
            decreases self.devices.len() - i,
        {
            assert(all[i as int] == self.devices@[i as int]@);
            if text::same(self.devices[i].device_id.as_str(), device_id) {
                proof {
                    sequence::lemma_find_first_at(all, p, i as int);
                }
                return ordered::distinct_texts(&self.devices[i].tensors);
            }
            i += 1;
        }
        proof {
            sequence::lemma_find_first_none(all, p);
        }
        OrderedSet::new()
    }
}

/// Whether exclusions are those of a device.
pub open spec fn of_device(device_id: Seq<char>) -> spec_fn(
    VulkanDistributedDeviceParameterExclusionsView,
) -> bool {
    |device: VulkanDistributedDeviceParameterExclusionsView| device.device_id == device_id
}

/// The tensors that a plan excludes on a device.
pub open spec fn excluded_on(
    plan: VulkanDistributedParameterExclusionPlanView,
    device_id: Seq<char>,
) -> Set<Seq<char>> {
    match sequence::find_first(plan.devices, of_device(device_id)) {
        Some(device) => device.tensors.to_set(),
        None => Set::empty(),
    }
}

// ---------------------------------------------------------------------------
// Laws
// ---------------------------------------------------------------------------

proof fn lemma_targets_found(dispatches: Seq<VulkanDistributedDispatchPlanView>)
    requires
        sequence::try_fold(dispatches, no_targets(), targets_step()) is Ok,
    ensures
        ({
            let found = sequence::try_fold(dispatches, no_targets(), targets_step())->Ok_0;
            &&& found.targets.finite()
            &&& forall|key: DispatchKeyView| #[trigger]
                found.by_dispatch.contains_key(key) ==> exists|k: int|
                    0 <= k < dispatches.len() && distributed_key(#[trigger] dispatches[k]) == key
            &&& forall|k: int, tensor: Seq<char>|
                0 <= k < dispatches.len() && #[trigger] shard_tensors(
                    dispatches[k].shards,
                ).contains(tensor) ==> found.targets.contains(
                    (dispatches[k].owner_device_id, tensor),
                )
            &&& forall|target: TargetView| #[trigger]
                found.targets.contains(target) ==> exists|k: int|
                    0 <= k < dispatches.len() && (#[trigger] dispatches[k]).owner_device_id
                        == target.0 && shard_tensors(dispatches[k].shards).contains(target.1)
        }),
    decreases dispatches.len(),
{
    broadcast use vstd::seq_lib::seq_to_set_is_finite;

    reveal(targets_with);
    if dispatches.len() > 0 {
        let front = dispatches.drop_last();
        let last = dispatches.last();
        lemma_targets_found(front);
        let before = sequence::try_fold(front, no_targets(), targets_step())->Ok_0;
        let found = sequence::try_fold(dispatches, no_targets(), targets_step())->Ok_0;
        let tensors = shard_tensors(last.shards).to_set();
        let owned = owned_targets(last.owner_device_id, tensors);
        tensors.lemma_map_finite(|tensor: Seq<char>| (last.owner_device_id, tensor));
        assert(owned =~= tensors.map(|tensor: Seq<char>| (last.owner_device_id, tensor))) by {
            assert forall|x: TargetView| owned.contains(x) implies tensors.map(
                |tensor: Seq<char>| (last.owner_device_id, tensor),
            ).contains(x) by {
                assert(tensors.contains(x.1));
            }
        }
        assert forall|key: DispatchKeyView| #[trigger]
            found.by_dispatch.contains_key(key) implies exists|k: int|
            0 <= k < dispatches.len() && distributed_key(#[trigger] dispatches[k]) == key by {
            if key == distributed_key(last) {
                assert(distributed_key(dispatches[dispatches.len() - 1]) == key);
            } else {
                assert(before.by_dispatch.contains_key(key));
                let k = choose|k: int|
                    0 <= k < front.len() && distributed_key(#[trigger] front[k]) == key;
                assert(distributed_key(dispatches[k]) == key);
            }
        }
        assert forall|k: int, tensor: Seq<char>|
            0 <= k < dispatches.len() && #[trigger] shard_tensors(dispatches[k].shards).contains(
                tensor,
            ) implies found.targets.contains((dispatches[k].owner_device_id, tensor)) by {
            if k < front.len() {
                assert(front[k] == dispatches[k]);
                assert(shard_tensors(front[k].shards).contains(tensor));
            } else {
                assert(tensors.contains(tensor));
            }
        }
        assert forall|target: TargetView| #[trigger]
            found.targets.contains(target) implies exists|k: int|
            0 <= k < dispatches.len() && (#[trigger] dispatches[k]).owner_device_id == target.0
                && shard_tensors(dispatches[k].shards).contains(target.1) by {
            if before.targets.contains(target) {
                let k = choose|k: int|
                    0 <= k < front.len() && (#[trigger] front[k]).owner_device_id == target.0
                        && shard_tensors(front[k].shards).contains(target.1);
                assert(dispatches[k] == front[k]);
            } else {
                assert(tensors.contains(target.1));
                assert(dispatches[dispatches.len() - 1] == last);
            }
        }
    }
}

proof fn lemma_device_targets_finite(targets: Seq<TargetView>, device_id: Seq<char>)
    ensures
        device_targets(targets, device_id).finite(),
{
    broadcast use vstd::seq_lib::seq_to_set_is_finite;

    let names = Seq::new(targets.len(), |i: int| targets[i].1);
    assert(device_targets(targets, device_id).subset_of(names.to_set())) by {
        assert forall|x: Seq<char>| device_targets(
            targets,
            device_id,
        ).contains(x) implies names.to_set().contains(x) by {
            let i = choose|i: int| 0 <= i < targets.len() && targets[i] == (device_id, x);
            assert(names[i] == x);
        }
    }
    vstd::set_lib::lemma_set_subset_finite(names.to_set(), device_targets(targets, device_id));
}

proof fn lemma_excluded_are_targets(
    targets: Seq<TargetView>,
    index: Map<Seq<char>, TensorMetadataView>,
    device_id: Seq<char>,
)
    requires
        exclusions_of_targets(targets, index) is Ok,
    ensures
        excluded_on(exclusions_of_targets(targets, index)->Ok_0, device_id) == device_targets(
            targets,
            device_id,
        ),
{
    broadcast use vstd::seq_lib::seq_to_set_is_finite;

    reveal(exclusions_of_targets);
    let plan = exclusions_of_targets(targets, index)->Ok_0;
    let parts = Seq::new(targets.len(), |i: int| targets[i].0);
    let ids = target_devices(targets);
    let on = exclusions_on(targets, index);
    let p = of_device(device_id);
    ordered::sorting_keeps_the_elements::<String>(parts.to_set());
    sequence::lemma_try_map_ok(ids, on);
    lemma_device_targets_finite(targets, device_id);
    ordered::sorting_keeps_the_elements::<String>(device_targets(targets, device_id));
    if sequence::find_first(plan.devices, p) is Some {
        let i = sequence::lemma_find_first_some(plan.devices, p);
        assert(on(ids[i]) == Ok::<VulkanDistributedDeviceParameterExclusionsView, Seq<char>>(
            plan.devices[i],
        ));
        assert(plan.devices[i].device_id == ids[i]);
    } else {
        sequence::lemma_find_none_all(plan.devices, p);
        assert forall|x: Seq<char>| !device_targets(targets, device_id).contains(x) by {
            if targets.contains((device_id, x)) {
                let k = choose|k: int| 0 <= k < targets.len() && targets[k] == (device_id, x);
                assert(parts[k] == device_id);
                assert(ids.to_set().contains(device_id));
                let i = choose|i: int| 0 <= i < ids.len() && ids[i] == device_id;
                assert(on(ids[i]) == Ok::<VulkanDistributedDeviceParameterExclusionsView, Seq<char>>(
                    plan.devices[i],
                ));
                assert(!p(plan.devices[i]));
            }
        }
        assert(device_targets(targets, device_id) =~= Set::empty());
    }
}

/// Every tensor that a distributed dispatch reads is excluded on the device that owns the
/// dispatch.
pub proof fn distributed_tensors_are_excluded_on_their_owner(
    execution: VulkanDistributedExecutionPlanView,
    prepared: Seq<(Seq<char>, VulkanPreparedDispatchPlanView)>,
    index: Map<Seq<char>, TensorMetadataView>,
    k: int,
    tensor: Seq<char>,
)
    requires
        exclusion_plan(execution, prepared, index) is Ok,
        0 <= k < execution.dispatches.len(),
        shard_tensors(execution.dispatches[k].shards).contains(tensor),
    ensures
        excluded_on(
            exclusion_plan(execution, prepared, index)->Ok_0,
            execution.dispatches[k].owner_device_id,
        ).contains(tensor),
{
    lemma_targets_found(execution.dispatches);
    let found = sequence::try_fold(execution.dispatches, no_targets(), targets_step())->Ok_0;
    ordered::sorting_keeps_the_elements::<Target>(found.targets);
    let targets = ordered::sorted_elements::<Target>(found.targets);
    let owner = execution.dispatches[k].owner_device_id;
    lemma_excluded_are_targets(targets, index, owner);
    assert(targets.to_set().contains((owner, tensor)));
}

/// A tensor that is excluded on a device is read there by distributed dispatches alone.
pub proof fn excluded_tensors_are_read_by_distributed_dispatches(
    execution: VulkanDistributedExecutionPlanView,
    prepared: Seq<(Seq<char>, VulkanPreparedDispatchPlanView)>,
    index: Map<Seq<char>, TensorMetadataView>,
    p: int,
    d: int,
    tensor: Seq<char>,
)
    requires
        exclusion_plan(execution, prepared, index) is Ok,
        0 <= p < prepared.len(),
        0 <= d < prepared[p].1.dispatches.len(),
        descriptor_tensors(prepared[p].1.dispatches[d].descriptors).contains(tensor),
        excluded_on(exclusion_plan(execution, prepared, index)->Ok_0, prepared[p].0).contains(
            tensor,
        ),
    ensures
        exists|k: int|
            0 <= k < execution.dispatches.len() && distributed_key(
                #[trigger] execution.dispatches[k],
            ) == prepared_key(prepared[p].0, prepared[p].1.dispatches[d]),
{
    broadcast use vstd::seq_lib::seq_to_set_is_finite;

    reveal(device_matched);
    reveal(dispatch_matched);
    lemma_targets_found(execution.dispatches);
    let found = sequence::try_fold(execution.dispatches, no_targets(), targets_step())->Ok_0;
    let device = prepared[p].0;
    let dispatches = prepared[p].1.dispatches;
    ordered::sorting_keeps_the_elements::<Target>(found.targets);
    let targets = ordered::sorted_elements::<Target>(found.targets);
    lemma_excluded_are_targets(targets, index, device);
    assert(targets.to_set().contains((device, tensor)));
    sequence::lemma_try_fold_prefix(prepared, nothing_matched(), device_step(found), p);
    sequence::lemma_try_fold_prefix(prepared, nothing_matched(), device_step(found), p + 1);
    sequence::lemma_try_fold_step(prepared, nothing_matched(), device_step(found), p);
    let done = sequence::try_fold(prepared.take(p), nothing_matched(), device_step(found))->Ok_0;
    let step = match_step(found, device);
    assert(sequence::try_fold(dispatches, done.matched, step) is Ok);
    sequence::lemma_try_fold_prefix(dispatches, done.matched, step, d);
    sequence::lemma_try_fold_prefix(dispatches, done.matched, step, d + 1);
    sequence::lemma_try_fold_step(dispatches, done.matched, step, d);
    let matched = sequence::try_fold(dispatches.take(d), done.matched, step)->Ok_0;
    assert(dispatch_matched(found, device, matched, dispatches[d]) is Ok);
    let key = prepared_key(device, dispatches[d]);
    if !found.by_dispatch.contains_key(key) {
        let read = descriptor_tensors(dispatches[d].descriptors).to_set();
        ordered::sorting_keeps_the_elements::<String>(read);
        let list = ordered::sorted_elements::<String>(read);
        sequence::lemma_find_none_all(list, targeted_on(found.targets, device));
        assert(list.to_set().contains(tensor));
        let i = choose|i: int| 0 <= i < list.len() && list[i] == tensor;
        assert(!targeted_on(found.targets, device)(list[i]));
    }
}

/// A dispatch reads a tensor exactly where one of its shards has a fragment of it.
pub proof fn shards_read_the_tensors_of_their_fragments(
    shards: Seq<VulkanDistributedDispatchShardView>,
    tensor: Seq<char>,
)
    ensures
        shard_tensors(shards).contains(tensor) <==> exists|s: int, f: int|
            0 <= s < shards.len() && 0 <= f < shards[s].parameters.len() && (
            #[trigger] shards[s].parameters[f]).tensor == tensor,
    decreases shards.len(),
{
    if shards.len() > 0 {
        let front = shards.drop_last();
        let n = front.len() as int;
        let last = shards[n];
        let before = shard_tensors(front);
        let own = Seq::new(last.parameters.len(), |i: int| last.parameters[i].tensor);
        let all = shard_tensors(shards);
        shards_read_the_tensors_of_their_fragments(front, tensor);
        assert(all == before + own);
        if all.contains(tensor) {
            let at = choose|at: int| 0 <= at < all.len() && all[at] == tensor;
            if at < before.len() {
                assert(before[at] == tensor);
                let (s, f) = choose|s: int, f: int|
                    0 <= s < front.len() && 0 <= f < front[s].parameters.len() && (
                    #[trigger] front[s].parameters[f]).tensor == tensor;
                assert(shards[s].parameters[f].tensor == tensor);
            } else {
                assert(shards[n].parameters[at - before.len()].tensor == tensor);
            }
        }
        if exists|s: int, f: int|
            0 <= s < shards.len() && 0 <= f < shards[s].parameters.len() && (
            #[trigger] shards[s].parameters[f]).tensor == tensor {
            let (s, f) = choose|s: int, f: int|
                0 <= s < shards.len() && 0 <= f < shards[s].parameters.len() && (
                #[trigger] shards[s].parameters[f]).tensor == tensor;
            if s < n {
                assert(front[s].parameters[f].tensor == tensor);
                let at = choose|at: int| 0 <= at < before.len() && before[at] == tensor;
                assert(all[at] == tensor);
            } else {
                assert(all[before.len() + f] == tensor);
            }
        }
    }
}

/// Nothing is excluded on a device but what a distributed dispatch of that device reads.
pub proof fn only_distributed_tensors_are_excluded(
    execution: VulkanDistributedExecutionPlanView,
    prepared: Seq<(Seq<char>, VulkanPreparedDispatchPlanView)>,
    index: Map<Seq<char>, TensorMetadataView>,
    device_id: Seq<char>,
    tensor: Seq<char>,
)
    requires
        exclusion_plan(execution, prepared, index) is Ok,
        excluded_on(exclusion_plan(execution, prepared, index)->Ok_0, device_id).contains(tensor),
    ensures
        exists|k: int|
            0 <= k < execution.dispatches.len() && (
            #[trigger] execution.dispatches[k]).owner_device_id == device_id && shard_tensors(
                execution.dispatches[k].shards,
            ).contains(tensor),
{
    lemma_targets_found(execution.dispatches);
    let found = sequence::try_fold(execution.dispatches, no_targets(), targets_step())->Ok_0;
    ordered::sorting_keeps_the_elements::<Target>(found.targets);
    let targets = ordered::sorted_elements::<Target>(found.targets);
    lemma_excluded_are_targets(targets, index, device_id);
    assert(targets.contains((device_id, tensor)));
    assert(targets.to_set().contains((device_id, tensor)));
    assert(found.targets.contains((device_id, tensor)));
}

/// The bytes that the index records for a tensor.
pub open spec fn bytes_recorded(index: Map<Seq<char>, TensorMetadataView>) -> spec_fn(
    Seq<char>,
) -> nat {
    |tensor: Seq<char>| tensors::recorded_byte_count(index, tensor)->Some_0 as nat
}

/// The bytes that the index records for the tensor of a target.
pub open spec fn target_bytes(index: Map<Seq<char>, TensorMetadataView>) -> spec_fn(
    TargetView,
) -> nat {
    |target: TargetView| tensors::recorded_byte_count(index, target.1)->Some_0 as nat
}

proof fn lemma_device_bytes(tensors: Seq<Seq<char>>, index: Map<Seq<char>, TensorMetadataView>)
    requires
        sequence::try_fold(tensors, 0usize, device_bytes_step(index)) is Ok,
    ensures
        sequence::try_fold(tensors, 0usize, device_bytes_step(index))->Ok_0 == sequence::total(
            tensors,
            bytes_recorded(index),
        ),
    decreases tensors.len(),
{
    if tensors.len() > 0 {
        lemma_device_bytes(tensors.drop_last(), index);
    }
}

proof fn lemma_target_bytes(targets: Seq<TargetView>, index: Map<Seq<char>, TensorMetadataView>)
    requires
        sequence::try_fold(targets, 0usize, excluded_bytes_step(index)) is Ok,
    ensures
        sequence::try_fold(targets, 0usize, excluded_bytes_step(index))->Ok_0 == sequence::total(
            targets,
            target_bytes(index),
        ),
    decreases targets.len(),
{
    if targets.len() > 0 {
        lemma_target_bytes(targets.drop_last(), index);
    }
}

/// A device leaves out each of its excluded tensors once, and as many bytes as the index records for
/// all of them. The devices come in order, each once, and are counted.
pub proof fn devices_leave_out_what_is_recorded(
    execution: VulkanDistributedExecutionPlanView,
    prepared: Seq<(Seq<char>, VulkanPreparedDispatchPlanView)>,
    index: Map<Seq<char>, TensorMetadataView>,
    i: int,
)
    requires
        exclusion_plan(execution, prepared, index) is Ok,
        0 <= i < exclusion_plan(execution, prepared, index)->Ok_0.devices.len(),
    ensures
        ({
            let plan = exclusion_plan(execution, prepared, index)->Ok_0;
            let device = plan.devices[i];
            &&& plan.device_count == plan.devices.len() as usize
            &&& ordered::increasing::<String>(
                Seq::new(plan.devices.len(), |d: int| plan.devices[d].device_id),
            )
            &&& ordered::increasing::<String>(device.tensors)
            &&& device.tensors.to_set() == excluded_on(plan, device.device_id)
            &&& device.total_byte_capacity == sequence::total(
                device.tensors,
                bytes_recorded(index),
            )
        }),
{
    broadcast use vstd::seq_lib::seq_to_set_is_finite;

    reveal(exclusions_of_targets);
    let found = sequence::try_fold(execution.dispatches, no_targets(), targets_step())->Ok_0;
    let targets = ordered::sorted_elements::<Target>(found.targets);
    let plan = exclusion_plan(execution, prepared, index)->Ok_0;
    let parts = Seq::new(targets.len(), |k: int| targets[k].0);
    let ids = target_devices(targets);
    let on = exclusions_on(targets, index);
    ordered::sorting_keeps_the_elements::<String>(parts.to_set());
    sequence::lemma_try_map_ok(ids, on);
    assert(on(ids[i]) == Ok::<VulkanDistributedDeviceParameterExclusionsView, Seq<char>>(
        plan.devices[i],
    ));
    let device = plan.devices[i];
    lemma_device_targets_finite(targets, device.device_id);
    ordered::sorting_keeps_the_elements::<String>(device_targets(targets, device.device_id));
    lemma_excluded_are_targets(targets, index, device.device_id);
    lemma_device_bytes(device.tensors, index);
    assert forall|d: int| 0 <= d < ids.len() implies (#[trigger] plan.devices[d]).device_id
        == ids[d] by {
        assert(on(ids[d]) == Ok::<VulkanDistributedDeviceParameterExclusionsView, Seq<char>>(
            plan.devices[d],
        ));
    }
    assert(Seq::new(plan.devices.len(), |d: int| plan.devices[d].device_id) =~= ids);
}

/// The plan counts every exclusion once and adds up their bytes: it has as many as there are pairs of
/// a device and a tensor that a distributed dispatch of the device reads.
pub proof fn exclusions_are_counted_once(
    execution: VulkanDistributedExecutionPlanView,
    prepared: Seq<(Seq<char>, VulkanPreparedDispatchPlanView)>,
    index: Map<Seq<char>, TensorMetadataView>,
)
    requires
        exclusion_plan(execution, prepared, index) is Ok,
    ensures
        exists|targets: Seq<TargetView>|
            {
                let plan = exclusion_plan(execution, prepared, index)->Ok_0;
                &&& #[trigger] ordered::increasing::<Target>(targets)
                &&& forall|target: TargetView|
                    targets.contains(target) <==> #[trigger] excluded_on(plan, target.0).contains(
                        target.1,
                    )
                &&& plan.excluded_full_allocation_count == targets.len() as usize
                &&& plan.excluded_full_byte_capacity == sequence::total(
                    targets,
                    target_bytes(index),
                )
            },
{
    reveal(exclusions_of_targets);
    lemma_targets_found(execution.dispatches);
    let found = sequence::try_fold(execution.dispatches, no_targets(), targets_step())->Ok_0;
    let targets = ordered::sorted_elements::<Target>(found.targets);
    let plan = exclusion_plan(execution, prepared, index)->Ok_0;
    ordered::sorting_keeps_the_elements::<Target>(found.targets);
    lemma_target_bytes(targets, index);
    assert forall|target: TargetView|
        targets.contains(target) <==> #[trigger] excluded_on(plan, target.0).contains(target.1) by {
        lemma_excluded_are_targets(targets, index, target.0);
        assert(target == (target.0, target.1));
    }
    assert(ordered::increasing::<Target>(targets));
}

} // verus!
