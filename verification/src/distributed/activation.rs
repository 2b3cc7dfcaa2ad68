//! Activation buffers that the devices of a distributed dispatch share.

use crate::device::VulkanDeviceDirectory;
use crate::device::VulkanDeviceDirectoryView;
use crate::device::VulkanDeviceObject;
use crate::device::VulkanError;
use crate::device::VulkanHostAllocationId;
use crate::device::VulkanResidentBuffer;
use crate::device::VulkanResidentBufferName;
use crate::device::VulkanResidentBufferView;
use crate::device::VulkanSharedHostAllocation;
use crate::device::VulkanSharedHostAllocationView;
use crate::device;
use crate::distributed::plan::VulkanDistributedActivationSlot;
use crate::distributed::plan::VulkanDistributedActivationSlotView;
use crate::distributed::plan::VulkanDistributedDispatchPlan;
use crate::distributed::plan::VulkanDistributedDispatchPlanView;
use crate::distributed::plan::VulkanDistributedDispatchShard;
use crate::distributed::plan::VulkanDistributedDispatchShardView;
use crate::distributed::plan::VulkanDistributedExecutionPlan;
use crate::distributed::plan::VulkanDistributedExecutionPlanView;
use crate::distributed::plan::VulkanDistributedPlanError;
use crate::distributed::plan;
use crate::ordered::OrderedMap;
use crate::ordered::OrderedSet;
use crate::ordered;
use crate::sequence;
use crate::text::Message;
use crate::text;
use vstd::prelude::*;

verus! {

/// One activation slot of one owner, shared by the devices that run shards.
#[derive(Debug, PartialEq, Eq)]
pub struct VulkanDistributedActivationBufferAllocation {
    pub owner_device_id: String,
    pub component_id: String,
    pub slot: usize,
    pub byte_capacity: usize,
    pub signal_ids: Vec<String>,
    pub device_ids: Vec<String>,
    pub input_use_count: usize,
    pub output_use_count: usize,
}

#[verifier::ext_equal]
pub struct VulkanDistributedActivationBufferAllocationView {
    pub owner_device_id: Seq<char>,
    pub component_id: Seq<char>,
    pub slot: usize,
    pub byte_capacity: usize,
    pub signal_ids: Seq<Seq<char>>,
    pub device_ids: Seq<Seq<char>>,
    pub input_use_count: usize,
    pub output_use_count: usize,
}

impl DeepView for VulkanDistributedActivationBufferAllocation {
    type V = VulkanDistributedActivationBufferAllocationView;

    open spec fn deep_view(&self) -> VulkanDistributedActivationBufferAllocationView {
        VulkanDistributedActivationBufferAllocationView {
            owner_device_id: self.owner_device_id.deep_view(),
            component_id: self.component_id.deep_view(),
            slot: self.slot,
            byte_capacity: self.byte_capacity,
            signal_ids: self.signal_ids.deep_view(),
            device_ids: self.device_ids.deep_view(),
            input_use_count: self.input_use_count,
            output_use_count: self.output_use_count,
        }
    }
}

impl View for VulkanDistributedActivationBufferAllocation {
    type V = VulkanDistributedActivationBufferAllocationView;

    open spec fn view(&self) -> VulkanDistributedActivationBufferAllocationView {
        self.deep_view()
    }
}

impl Clone for VulkanDistributedActivationBufferAllocation {
    fn clone(&self) -> (r: Self)
        ensures
            r@ == self@,
    {
        VulkanDistributedActivationBufferAllocation {
            owner_device_id: self.owner_device_id.clone(),
            component_id: self.component_id.clone(),
            slot: self.slot,
            byte_capacity: self.byte_capacity,
            signal_ids: self.signal_ids.clone(),
            device_ids: self.device_ids.clone(),
            input_use_count: self.input_use_count,
            output_use_count: self.output_use_count,
        }
    }
}

/// The shared activation slots of an execution plan.
#[derive(Debug, PartialEq, Eq)]
pub struct VulkanDistributedActivationBufferPlan {
    pub allocations: Vec<VulkanDistributedActivationBufferAllocation>,
    pub allocation_count: usize,
    pub import_count: usize,
    pub reference_count: usize,
    pub total_shared_byte_capacity: usize,
}

#[verifier::ext_equal]
pub struct VulkanDistributedActivationBufferPlanView {
    pub allocations: Seq<VulkanDistributedActivationBufferAllocationView>,
    pub allocation_count: usize,
    pub import_count: usize,
    pub reference_count: usize,
    pub total_shared_byte_capacity: usize,
}

impl DeepView for VulkanDistributedActivationBufferPlan {
    type V = VulkanDistributedActivationBufferPlanView;

    open spec fn deep_view(&self) -> VulkanDistributedActivationBufferPlanView {
        VulkanDistributedActivationBufferPlanView {
            allocations: self.allocations.deep_view(),
            allocation_count: self.allocation_count,
            import_count: self.import_count,
            reference_count: self.reference_count,
            total_shared_byte_capacity: self.total_shared_byte_capacity,
        }
    }
}

impl View for VulkanDistributedActivationBufferPlan {
    type V = VulkanDistributedActivationBufferPlanView;

    open spec fn view(&self) -> VulkanDistributedActivationBufferPlanView {
        self.deep_view()
    }
}

impl Clone for VulkanDistributedActivationBufferPlan {
    fn clone(&self) -> (r: Self)
        ensures
            r@ == self@,
    {
        VulkanDistributedActivationBufferPlan {
            allocations: self.allocations.clone(),
            allocation_count: self.allocation_count,
            import_count: self.import_count,
            reference_count: self.reference_count,
            total_shared_byte_capacity: self.total_shared_byte_capacity,
        }
    }
}

/// Why shared activation buffers were refused.
#[derive(Debug, PartialEq, Eq)]
pub struct VulkanDistributedActivationBufferError(pub String);

impl DeepView for VulkanDistributedActivationBufferError {
    type V = Seq<char>;

    open spec fn deep_view(&self) -> Seq<char> {
        self.0.deep_view()
    }
}

impl View for VulkanDistributedActivationBufferError {
    type V = Seq<char>;

    open spec fn view(&self) -> Seq<char> {
        self.deep_view()
    }
}

impl Clone for VulkanDistributedActivationBufferError {
    fn clone(&self) -> (r: Self)
        ensures
            r@ == self@,
    {
        VulkanDistributedActivationBufferError(self.0.clone())
    }
}

impl VulkanDistributedActivationBufferError {
    /// The message.
    pub fn to_string(&self) -> (r: String)
        ensures
            r@ == self@,
    {
        self.0.clone()
    }
}

/// Whether an activation is read or written.
#[derive(Clone, Copy, Debug, PartialEq, Eq, Structural)]
pub enum VulkanDistributedActivationAccess {
    Input,
    Output,
}

/// Owner, component and slot: what an allocation is found by.
pub type AllocationKey = ((Seq<char>, Seq<char>), usize);

/// Allocations by their keys.
pub type AllocationMap = Map<AllocationKey, VulkanDistributedActivationBufferAllocationView>;

/// The key of an activation.
pub open spec fn activation_key(
    owner: Seq<char>,
    activation: VulkanDistributedActivationSlotView,
) -> AllocationKey {
    ((owner, activation.component_id), activation.slot)
}

/// An allocation that nothing uses yet.
pub open spec fn unused_allocation(
    owner: Seq<char>,
    activation: VulkanDistributedActivationSlotView,
) -> VulkanDistributedActivationBufferAllocationView {
    VulkanDistributedActivationBufferAllocationView {
        owner_device_id: owner,
        component_id: activation.component_id,
        slot: activation.slot,
        byte_capacity: activation.byte_capacity,
        signal_ids: Seq::empty(),
        device_ids: Seq::empty(),
        input_use_count: 0,
        output_use_count: 0,
    }
}

/// The name of a slot in messages.
pub open spec fn slot_name(activation: VulkanDistributedActivationSlotView) -> Seq<char> {
    "distributed activation "@ + activation.component_id + ".slot_"@ + text::decimal(
        activation.slot as nat,
    )
}

/// Records one use of an activation by these devices.
#[verifier::opaque]
pub open spec fn activation_used(
    allocations: AllocationMap,
    owner: Seq<char>,
    activation: VulkanDistributedActivationSlotView,
    participants: Set<Seq<char>>,
    access: VulkanDistributedActivationAccess,
) -> Result<AllocationMap, Seq<char>> {
    let key = activation_key(owner, activation);
    let known = if allocations.contains_key(key) {
        allocations[key]
    } else {
        unused_allocation(owner, activation)
    };
    let input_uses = known.input_use_count + (if access is Input {
        1int
    } else {
        0
    });
    let output_uses = known.output_use_count + (if access is Output {
        1int
    } else {
        0
    });
    if activation.byte_capacity == 0 {
        Err(slot_name(activation) + " has zero capacity"@)
    } else if activation.signal_byte_capacity == 0 || activation.signal_byte_capacity
        > activation.byte_capacity {
        Err(
            slot_name(activation) + " has signal "@ + text::quoted(activation.signal_id)
                + " capacity "@ + text::decimal(activation.signal_byte_capacity as nat)
                + " outside its "@ + text::decimal(activation.byte_capacity as nat)
                + "-byte slot"@,
        )
    } else if known.byte_capacity != activation.byte_capacity {
        Err(
            slot_name(activation) + " has conflicting capacities "@ + text::decimal(
                known.byte_capacity as nat,
            ) + " and "@ + text::decimal(activation.byte_capacity as nat),
        )
    } else if input_uses > usize::MAX {
        Err("distributed activation input use count overflowed"@)
    } else if output_uses > usize::MAX {
        Err("distributed activation output use count overflowed"@)
    } else {
        Ok(
            allocations.insert(
                key,
                VulkanDistributedActivationBufferAllocationView {
                    signal_ids: ordered::sorted_elements::<String>(
                        known.signal_ids.to_set().insert(activation.signal_id),
                    ),
                    device_ids: ordered::sorted_elements::<String>(
                        known.device_ids.to_set().union(participants),
                    ),
                    input_use_count: input_uses as usize,
                    output_use_count: output_uses as usize,
                    ..known
                },
            ),
        )
    }
}

/// One step over the activations that a dispatch reads.
pub open spec fn input_step(owner: Seq<char>, participants: Set<Seq<char>>) -> spec_fn(
    AllocationMap,
    VulkanDistributedActivationSlotView,
) -> Result<AllocationMap, Seq<char>> {
    |allocations: AllocationMap, activation: VulkanDistributedActivationSlotView|
        activation_used(
            allocations,
            owner,
            activation,
            participants,
            VulkanDistributedActivationAccess::Input,
        )
}

/// The devices that run shards of a dispatch.
pub open spec fn participants(dispatch: VulkanDistributedDispatchPlanView) -> Set<Seq<char>> {
    dispatch.shards.map_values(|shard: VulkanDistributedDispatchShardView| shard.device_id).to_set()
}

/// Whether the devices of a dispatch are in order: there are some, its owner is one of them, and
/// all are in the pool.
pub open spec fn participants_check(
    pool: Seq<Seq<char>>,
    dispatch: VulkanDistributedDispatchPlanView,
) -> Result<(), Seq<char>> {
    let name = "distributed dispatch "@ + dispatch.component_id + "."@ + dispatch.node_id;
    if dispatch.shards.len() == 0 {
        Err(name + " has no device shards"@)
    } else if !participants(dispatch).contains(dispatch.owner_device_id) {
        Err(name + " does not include its owner "@ + text::quoted(dispatch.owner_device_id))
    } else {
        match sequence::find_first(
            ordered::sorted_elements::<String>(participants(dispatch)),
            |id: Seq<char>| !pool.contains(id),
        ) {
            Some(id) => Err(
                name + " uses device "@ + text::quoted(id) + " outside the execution pool"@,
            ),
            None => Ok(()),
        }
    }
}

/// Records the activations of one dispatch.
#[verifier::opaque]
pub open spec fn dispatch_activations(
    pool: Seq<Seq<char>>,
    allocations: AllocationMap,
    dispatch: VulkanDistributedDispatchPlanView,
) -> Result<AllocationMap, Seq<char>> {
    let owner = dispatch.owner_device_id;
    let devices = participants(dispatch);
    match participants_check(pool, dispatch) {
        Err(e) => Err(e),
        Ok(_) => match activation_used(
            allocations,
            owner,
            dispatch.input_activation,
            devices,
            VulkanDistributedActivationAccess::Input,
        ) {
            Err(e) => Err(e),
            Ok(with_input) => match sequence::try_fold(
                dispatch.auxiliary_input_activations,
                with_input,
                input_step(owner, devices),
            ) {
                Err(e) => Err(e),
                Ok(with_inputs) => activation_used(
                    with_inputs,
                    owner,
                    dispatch.output_activation,
                    devices,
                    VulkanDistributedActivationAccess::Output,
                ),
            },
        },
    }
}

/// One step over the dispatches.
pub open spec fn activations_step(pool: Seq<Seq<char>>) -> spec_fn(
    AllocationMap,
    VulkanDistributedDispatchPlanView,
) -> Result<AllocationMap, Seq<char>> {
    |allocations: AllocationMap, dispatch: VulkanDistributedDispatchPlanView|
        dispatch_activations(pool, allocations, dispatch)
}

/// Devices that import an allocation.
pub open spec fn imports() -> spec_fn(VulkanDistributedActivationBufferAllocationView) -> nat {
    |a: VulkanDistributedActivationBufferAllocationView| a.device_ids.len()
}

/// Uses of an allocation.
pub open spec fn references() -> spec_fn(VulkanDistributedActivationBufferAllocationView) -> nat {
    |a: VulkanDistributedActivationBufferAllocationView|
        (a.input_use_count + a.output_use_count) as nat
}

/// Bytes of an allocation.
pub open spec fn shared_bytes() -> spec_fn(VulkanDistributedActivationBufferAllocationView) -> nat {
    |a: VulkanDistributedActivationBufferAllocationView| a.byte_capacity as nat
}

/// The plan of these allocations, with its totals.
pub open spec fn activation_totals(
    allocations: Seq<VulkanDistributedActivationBufferAllocationView>,
) -> Result<VulkanDistributedActivationBufferPlanView, Seq<char>> {
    if sequence::total(allocations, imports()) > usize::MAX {
        Err("distributed activation import count overflowed"@)
    } else if sequence::total(allocations, references()) > usize::MAX {
        Err("distributed activation reference count overflowed"@)
    } else if sequence::total(allocations, shared_bytes()) > usize::MAX {
        Err("distributed activation byte capacity overflowed"@)
    } else {
        Ok(
            VulkanDistributedActivationBufferPlanView {
                allocations,
                allocation_count: allocations.len() as usize,
                import_count: sequence::total(allocations, imports()) as usize,
                reference_count: sequence::total(allocations, references()) as usize,
                total_shared_byte_capacity: sequence::total(allocations, shared_bytes()) as usize,
            },
        )
    }
}

/// The shared activation slots of an execution plan, in the order of owner, component and slot.
pub open spec fn activation_buffer_plan(
    execution_plan: VulkanDistributedExecutionPlanView,
) -> Result<VulkanDistributedActivationBufferPlanView, Seq<char>> {
    match sequence::try_fold(
        execution_plan.dispatches,
        Map::empty(),
        activations_step(execution_plan.device_ids),
    ) {
        Err(e) => Err(e),
        Ok(allocations) => activation_totals(
            ordered::sorted_values::<((String, String), usize), _>(allocations),
        ),
    }
}

struct Allocations {
    by_key: OrderedMap<((String, String), usize), VulkanDistributedActivationBufferAllocation>,
}

impl Allocations {
    /// The lists inside the allocations are increasing.
    spec fn well_formed(&self) -> bool {
        &&& self.by_key.sorted()
        &&& forall|k: AllocationKey| #[trigger]
            self.by_key@.contains_key(k) ==> ordered::increasing::<String>(
                self.by_key@[k].signal_ids,
            ) && ordered::increasing::<String>(self.by_key@[k].device_ids)
    }

    fn name(activation: &VulkanDistributedActivationSlot) -> (r: Message)
        ensures
            r@ == slot_name(activation@),
    {
        Message::new("distributed activation ").text(activation.component_id.as_str()).text(
            ".slot_",
        ).number(activation.slot)
    }

    #[verifier::loop_isolation(false)]
    fn add_devices(list: Vec<String>, participants: &OrderedSet<String>) -> (r: Vec<String>)
        requires
            ordered::increasing::<String>(list.deep_view()),
        ensures
            ordered::increasing::<String>(r.deep_view()),
            r.deep_view() == ordered::sorted_elements::<String>(
                list.deep_view().to_set().union(participants@),
            ),
    {
        let ghost all = participants.elements.deep_view();
        let ghost init = list.deep_view().to_set();
        let mut devices: Vec<String> = list;
        let mut i: usize = 0;
        assert(init.union(all.take(0).to_set()) =~= init);
        while i < participants.elements.len()
            invariant
                i <= participants.elements.len(),
                ordered::increasing::<String>(devices.deep_view()),
                devices.deep_view().to_set() == init.union(all.take(i as int).to_set()),
            decreases participants.elements.len() - i,
        {
            devices = ordered::insert_text(devices, &participants.elements[i]);
            proof {
                ordered::lemma_to_set_step(all, i as int);
                assert(init.union(all.take(i as int).to_set()).insert(all[i as int]) =~= init.union(
                    all.take(i + 1).to_set(),
                ));
            }
            i += 1;
        }
        proof {
            assert(all.take(all.len() as int) =~= all);
            ordered::lemma_sorted_elements::<String>(devices.deep_view());
        }
        devices
    }

    fn accumulate_activation_allocation(
        self,
        owner_device_id: &String,
        activation: &VulkanDistributedActivationSlot,
        participants: &OrderedSet<String>,
        access: VulkanDistributedActivationAccess,
    ) -> (r: Result<Allocations, VulkanDistributedPlanError>)
        requires
            self.well_formed(),
        ensures
            (match r {
                Ok(next) => Ok::<AllocationMap, Seq<char>>(next.by_key@),
                Err(e) => Err(e@),
            }) == activation_used(
                self.by_key@,
                owner_device_id@,
                activation@,
                participants@,
                access,
            ),
            r is Ok ==> r->Ok_0.well_formed(),
    {
        reveal(activation_used);
        if activation.byte_capacity == 0 {
            return Err(
                VulkanDistributedPlanError(
                    Self::name(activation).text(" has zero capacity").done(),
                ),
            );
        }
        if activation.signal_byte_capacity == 0 || activation.signal_byte_capacity
            > activation.byte_capacity {
            return Err(
                VulkanDistributedPlanError(
                    Self::name(activation).text(" has signal ").quoted(
                        activation.signal_id.as_str(),
                    ).text(" capacity ").number(activation.signal_byte_capacity).text(
                        " outside its ",
                    ).number(activation.byte_capacity).text("-byte slot").done(),
                ),
            );
        }
        let key: ((String, String), usize) = (
            (owner_device_id.clone(), activation.component_id.clone()),
            activation.slot,
        );
        let ghost k = activation_key(owner_device_id@, activation@);
        assert(key.deep_view() == k);
        let known: VulkanDistributedActivationBufferAllocation = match self.by_key.get(&key) {
            Some(allocation) => allocation.clone(),
            None => {
                let fresh = VulkanDistributedActivationBufferAllocation {
                    owner_device_id: owner_device_id.clone(),
                    component_id: activation.component_id.clone(),
                    slot: activation.slot,
                    byte_capacity: activation.byte_capacity,
                    signal_ids: Vec::new(),
                    device_ids: Vec::new(),
                    input_use_count: 0,
                    output_use_count: 0,
                };
                assert(fresh@.signal_ids =~= Seq::empty());
                assert(fresh@.device_ids =~= Seq::empty());
                fresh
            },
        };
        assert(ordered::increasing::<String>(known@.signal_ids));
        assert(ordered::increasing::<String>(known@.device_ids));
        if known.byte_capacity != activation.byte_capacity {
            return Err(
                VulkanDistributedPlanError(
                    Self::name(activation).text(" has conflicting capacities ").number(
                        known.byte_capacity,
                    ).text(" and ").number(activation.byte_capacity).done(),
                ),
            );
        }
        let mut input_use_count: usize = known.input_use_count;
        let mut output_use_count: usize = known.output_use_count;
        match access {
            VulkanDistributedActivationAccess::Input => {
                match input_use_count.checked_add(1) {
                    Some(count) => {
                        input_use_count = count;
                    },
                    None => return Err(
                        VulkanDistributedPlanError(
                            "distributed activation input use count overflowed".to_owned(),
                        ),
                    ),
                }
            },
            VulkanDistributedActivationAccess::Output => {
                match output_use_count.checked_add(1) {
                    Some(count) => {
                        output_use_count = count;
                    },
                    None => return Err(
                        VulkanDistributedPlanError(
                            "distributed activation output use count overflowed".to_owned(),
                        ),
                    ),
                }
            },
        }
        let updated = VulkanDistributedActivationBufferAllocation {
            owner_device_id: known.owner_device_id,
            component_id: known.component_id,
            slot: known.slot,
            byte_capacity: known.byte_capacity,
            signal_ids: ordered::insert_text(known.signal_ids, &activation.signal_id),
            device_ids: Self::add_devices(known.device_ids, participants),
            input_use_count,
            output_use_count,
        };
        let mut by_key: OrderedMap<
            ((String, String), usize),
            VulkanDistributedActivationBufferAllocation,
        > = self.by_key;
        by_key.insert(key, updated);
        Ok(Allocations { by_key })
    }

    #[verifier::loop_isolation(false)]
    fn record_inputs(
        self,
        owner_device_id: &String,
        activations: &Vec<VulkanDistributedActivationSlot>,
        participants: &OrderedSet<String>,
    ) -> (r: Result<Allocations, VulkanDistributedPlanError>)
        requires
            self.well_formed(),
        ensures
            (match r {
                Ok(next) => Ok::<AllocationMap, Seq<char>>(next.by_key@),
                Err(e) => Err(e@),
            }) == sequence::try_fold(
                activations.deep_view(),
                self.by_key@,
                input_step(owner_device_id@, participants@),
            ),
            r is Ok ==> r->Ok_0.well_formed(),
    {
        let ghost all = activations.deep_view();
        let ghost init = self.by_key@;
        let ghost step = input_step(owner_device_id@, participants@);
        let mut recorded: Allocations = self;
        let mut i: usize = 0;
        assert(all.take(0) =~= Seq::empty());
        while i < activations.len()
            invariant
                i <= activations.len(),
                recorded.well_formed(),
                sequence::try_fold(all.take(i as int), init, step) == Ok::<
                    AllocationMap,
                    Seq<char>,
                >(recorded.by_key@),
            decreases activations.len() - i,
        {
            proof {
                sequence::lemma_try_fold_step(all, init, step, i as int);
            }
            match recorded.accumulate_activation_allocation(
                owner_device_id,
                &activations[i],
                participants,
                VulkanDistributedActivationAccess::Input,
            ) {
                Ok(next) => {
                    recorded = next;
                },
                Err(e) => {
                    proof {
                        sequence::lemma_try_fold_error(all, init, step, i + 1);
                    }
                    return Err(e);
                },
            }
            i += 1;
        }
        assert(all.take(all.len() as int) =~= all);
        Ok(recorded)
    }

    fn record_dispatch(
        self,
        pool: &Vec<String>,
        dispatch: &VulkanDistributedDispatchPlan,
    ) -> (r: Result<Allocations, VulkanDistributedPlanError>)
        requires
            self.well_formed(),
        ensures
            (match r {
                Ok(next) => Ok::<AllocationMap, Seq<char>>(next.by_key@),
                Err(e) => Err(e@),
            }) == dispatch_activations(pool.deep_view(), self.by_key@, dispatch@),
            r is Ok ==> r->Ok_0.well_formed(),
    {
        reveal(dispatch_activations);
        let devices: OrderedSet<String> = match check_participants(pool, dispatch) {
            Ok(devices) => devices,
            Err(e) => return Err(e),
        };
        let with_input: Allocations = match self.accumulate_activation_allocation(
            &dispatch.owner_device_id,
            &dispatch.input_activation,
            &devices,
            VulkanDistributedActivationAccess::Input,
        ) {
            Ok(next) => next,
            Err(e) => return Err(e),
        };
        let with_inputs: Allocations = match with_input.record_inputs(
            &dispatch.owner_device_id,
            &dispatch.auxiliary_input_activations,
            &devices,
        ) {
            Ok(next) => next,
            Err(e) => return Err(e),
        };
        with_inputs.accumulate_activation_allocation(
            &dispatch.owner_device_id,
            &dispatch.output_activation,
            &devices,
            VulkanDistributedActivationAccess::Output,
        )
    }
}

fn shard_device_list(shards: &Vec<VulkanDistributedDispatchShard>) -> (r: Vec<String>)
    ensures
        r.deep_view() == shards.deep_view().map_values(
            |shard: VulkanDistributedDispatchShardView| shard.device_id,
        ),
{
    let mut ids: Vec<String> = Vec::new();
    let mut i: usize = 0;
    while i < shards.len()
        invariant
            i <= shards.len(),
            ids@.len() == i,
            forall|j: int|
                0 <= j < i ==> (#[trigger] ids.deep_view()[j]) == shards.deep_view()[j].device_id,
        decreases shards.len() - i,
    {
        let ghost before = ids.deep_view();
        ids.push(shards[i].device_id.clone());
        assert(ids.deep_view() =~= before.push(shards.deep_view()[i as int].device_id));
        i += 1;
    }
    assert(ids.deep_view() =~= shards.deep_view().map_values(
        |shard: VulkanDistributedDispatchShardView| shard.device_id,
    ));
    ids
}

#[verifier::loop_isolation(false)]
fn check_participants(pool: &Vec<String>, dispatch: &VulkanDistributedDispatchPlan) -> (r: Result<
    OrderedSet<String>,
    VulkanDistributedPlanError,
>)
    ensures
        match r {
            Ok(devices) => devices@ == participants(dispatch@) && participants_check(
                pool.deep_view(),
                dispatch@,
            ) is Ok,
            Err(e) => participants_check(pool.deep_view(), dispatch@) == Err::<(), Seq<char>>(e@),
        },
{
    let ids: Vec<String> = shard_device_list(&dispatch.shards);
    let devices: OrderedSet<String> = ordered::distinct_texts(&ids);
    assert(dispatch@.shards.len() == dispatch.shards@.len());
    if dispatch.shards.len() == 0 {
        return Err(
            VulkanDistributedPlanError(
                Message::new("distributed dispatch ").text(dispatch.component_id.as_str()).text(
                    ".",
                ).text(dispatch.node_id.as_str()).text(" has no device shards").done(),
            ),
        );
    }
    if !devices.contains(&dispatch.owner_device_id) {
        return Err(
            VulkanDistributedPlanError(
                Message::new("distributed dispatch ").text(dispatch.component_id.as_str()).text(
                    ".",
                ).text(dispatch.node_id.as_str()).text(" does not include its owner ").quoted(
                    dispatch.owner_device_id.as_str(),
                ).done(),
            ),
        );
    }
    let ghost all = devices.elements.deep_view();
    let ghost p = |id: Seq<char>| !pool.deep_view().contains(id);
    let mut i: usize = 0;
    while i < devices.elements.len()
        invariant
            i <= devices.elements.len(),
            forall|j: int| 0 <= j < i ==> !p(#[trigger] all[j]),
        decreases devices.elements.len() - i,
    {
        if !sequence::contains_text(pool, devices.elements[i].as_str()) {
            assert(p(all[i as int]));
            proof {
                sequence::lemma_find_first_at(all, p, i as int);
            }
            return Err(
                VulkanDistributedPlanError(
                    Message::new("distributed dispatch ").text(dispatch.component_id.as_str()).text(
                        ".",
                    ).text(dispatch.node_id.as_str()).text(" uses device ").quoted(
                        devices.elements[i].as_str(),
                    ).text(" outside the execution pool").done(),
                ),
            );
        }
        assert(!p(all[i as int]));
        i += 1;
    }
    proof {
        sequence::lemma_find_first_none(all, p);
    }
    Ok(devices)
}

fn sum_totals(allocations: &Vec<VulkanDistributedActivationBufferAllocation>) -> (r: Result<
    (usize, usize, usize),
    VulkanDistributedPlanError,
>)
    ensures
        match r {
            Ok((import_count, reference_count, bytes)) => {
                &&& import_count == sequence::total(allocations.deep_view(), imports())
                &&& reference_count == sequence::total(allocations.deep_view(), references())
                &&& bytes == sequence::total(allocations.deep_view(), shared_bytes())
            },
            Err(e) => activation_totals(allocations.deep_view()) == Err::<
                VulkanDistributedActivationBufferPlanView,
                Seq<char>,
            >(e@),
        },
{
    let ghost all = allocations.deep_view();
    let mut import_count: usize = 0;
    let mut i: usize = 0;
    while i < allocations.len()
        invariant
            i <= allocations.len(),
            all == allocations.deep_view(),
            import_count == sequence::total(all.take(i as int), imports()),
        decreases allocations.len() - i,
    {
        proof {
            sequence::lemma_total_step(all, imports(), i as int);
            sequence::lemma_total_prefix(all, imports(), i + 1);
            assert(all[i as int].device_ids.len() == allocations@[i as int].device_ids@.len());
        }
        match import_count.checked_add(allocations[i].device_ids.len()) {
            Some(total) => {
                import_count = total;
            },
            None => return Err(
                VulkanDistributedPlanError(
                    "distributed activation import count overflowed".to_owned(),
                ),
            ),
        }
        i += 1;
    }
    assert(all.take(all.len() as int) =~= all);
    let mut reference_count: usize = 0;
    let mut j: usize = 0;
    while j < allocations.len()
        invariant
            j <= allocations.len(),
            all == allocations.deep_view(),
            import_count == sequence::total(all, imports()),
            reference_count == sequence::total(all.take(j as int), references()),
        decreases allocations.len() - j,
    {
        proof {
            sequence::lemma_total_step(all, references(), j as int);
            sequence::lemma_total_prefix(all, references(), j + 1);
            assert(all[j as int] == allocations@[j as int]@);
        }
        let partial: Option<usize> = reference_count.checked_add(allocations[j].input_use_count);
        let next: Option<usize> = match partial {
            Some(count) => count.checked_add(allocations[j].output_use_count),
            None => None,
        };
        match next {
            Some(total) => {
                reference_count = total;
            },
            None => return Err(
                VulkanDistributedPlanError(
                    "distributed activation reference count overflowed".to_owned(),
                ),
            ),
        }
        j += 1;
    }
    assert(all.take(all.len() as int) =~= all);
    let mut bytes: usize = 0;
    let mut k: usize = 0;
    while k < allocations.len()
        invariant
            k <= allocations.len(),
            all == allocations.deep_view(),
            import_count == sequence::total(all, imports()),
            reference_count == sequence::total(all, references()),
            bytes == sequence::total(all.take(k as int), shared_bytes()),
        decreases allocations.len() - k,
    {
        proof {
            sequence::lemma_total_step(all, shared_bytes(), k as int);
            sequence::lemma_total_prefix(all, shared_bytes(), k + 1);
            assert(all[k as int] == allocations@[k as int]@);
        }
        match bytes.checked_add(allocations[k].byte_capacity) {
            Some(total) => {
                bytes = total;
            },
            None => return Err(
                VulkanDistributedPlanError(
                    "distributed activation byte capacity overflowed".to_owned(),
                ),
            ),
        }
        k += 1;
    }
    assert(all.take(all.len() as int) =~= all);
    Ok((import_count, reference_count, bytes))
}

impl VulkanDistributedActivationBufferPlan {
    /// Collects the activation slots that the dispatches of a plan share.
    #[verifier::loop_isolation(false)]
    pub fn from_execution_plan(execution_plan: &VulkanDistributedExecutionPlan) -> (r: Result<
        Self,
        VulkanDistributedPlanError,
    >)
        ensures
            sequence::outcome(r) == activation_buffer_plan(execution_plan@),
    {
        let ghost all = execution_plan.dispatches.deep_view();
        let ghost step = activations_step(execution_plan@.device_ids);
        let mut recorded = Allocations { by_key: OrderedMap::new() };
        let mut i: usize = 0;
        assert(all.take(0) =~= Seq::empty());
        while i < execution_plan.dispatches.len()
            invariant
                i <= execution_plan.dispatches.len(),
                recorded.well_formed(),
                sequence::try_fold(all.take(i as int), Map::empty(), step) == Ok::<
                    AllocationMap,
                    Seq<char>,
                >(recorded.by_key@),
            decreases execution_plan.dispatches.len() - i,
        {
            proof {
                sequence::lemma_try_fold_step(all, Map::empty(), step, i as int);
            }
            match recorded.record_dispatch(
                &execution_plan.device_ids,
                &execution_plan.dispatches[i],
            ) {
                Ok(next) => {
                    recorded = next;
                },
                Err(e) => {
                    proof {
                        sequence::lemma_try_fold_error(all, Map::empty(), step, i + 1);
                    }
                    return Err(e);
                },
            }
            i += 1;
        }
        assert(all.take(all.len() as int) =~= all);
        let allocations: Vec<VulkanDistributedActivationBufferAllocation> =
            recorded.by_key.into_values();
        let (import_count, reference_count, total_shared_byte_capacity): (usize, usize, usize) =
            match sum_totals(&allocations) {
            Ok(totals) => totals,
            Err(e) => return Err(e),
        };
        assert(allocations.deep_view().len() == allocations@.len());
        Ok(
            VulkanDistributedActivationBufferPlan {
                allocation_count: allocations.len(),
                allocations,
                import_count,
                reference_count,
                total_shared_byte_capacity,
            },
        )
    }

    /// The allocation of an owner's activation slot.
    pub fn allocation(
        &self,
        owner_device_id: &str,
        component_id: &str,
        slot: usize,
    ) -> (r: Option<&VulkanDistributedActivationBufferAllocation>)
        ensures
            r.deep_view() == sequence::find_first(
                self@.allocations,
                slot_matcher(owner_device_id@, component_id@, slot),
            ),
    {
        let ghost all = self.allocations.deep_view();
        let ghost p = slot_matcher(owner_device_id@, component_id@, slot);
        let mut i: usize = 0;
        while i < self.allocations.len()
            invariant
                i <= self.allocations.len(),
                all == self.allocations.deep_view(),
                p == slot_matcher(owner_device_id@, component_id@, slot),
                forall|j: int| 0 <= j < i ==> !p(#[trigger] all[j]),
            decreases self.allocations.len() - i,
        {
            let allocation: &VulkanDistributedActivationBufferAllocation = &self.allocations[i];
            assert(all[i as int] == allocation@);
            if text::same(allocation.owner_device_id.as_str(), owner_device_id) && text::same(
                allocation.component_id.as_str(),
                component_id,
            ) && allocation.slot == slot {
                proof {
                    sequence::lemma_find_first_at(all, p, i as int);
                }
                return Some(allocation);
            }
            i += 1;
        }
        proof {
            sequence::lemma_find_first_none(all, p);
        }
        None
    }
}

/// Whether an allocation is the one of this owner, component and slot.
pub open spec fn slot_matcher(owner: Seq<char>, component: Seq<char>, slot: usize) -> spec_fn(
    VulkanDistributedActivationBufferAllocationView,
) -> bool {
    |a: VulkanDistributedActivationBufferAllocationView|
        a.owner_device_id == owner && a.component_id == component && a.slot == slot
}

// ---------------------------------------------------------------------------
// Buffers
// ---------------------------------------------------------------------------

/// A shared allocation with the buffers that the devices import from it.
#[derive(Debug, PartialEq, Eq)]
pub struct VulkanDistributedActivationBuffer {
    pub planned: VulkanDistributedActivationBufferAllocation,
    pub shared_allocation: VulkanSharedHostAllocation,
    pub device_buffers: OrderedMap<String, VulkanResidentBuffer>,
}

#[verifier::ext_equal]
pub struct VulkanDistributedActivationBufferView {
    pub planned: VulkanDistributedActivationBufferAllocationView,
    pub shared_allocation: VulkanSharedHostAllocationView,
    pub device_buffers: Map<Seq<char>, VulkanResidentBufferView>,
}

impl DeepView for VulkanDistributedActivationBuffer {
    type V = VulkanDistributedActivationBufferView;

    open spec fn deep_view(&self) -> VulkanDistributedActivationBufferView {
        VulkanDistributedActivationBufferView {
            planned: self.planned.deep_view(),
            shared_allocation: self.shared_allocation.deep_view(),
            device_buffers: self.device_buffers.deep_view(),
        }
    }
}

impl View for VulkanDistributedActivationBuffer {
    type V = VulkanDistributedActivationBufferView;

    open spec fn view(&self) -> VulkanDistributedActivationBufferView {
        self.deep_view()
    }
}

/// The shared activation buffers of a plan, wide enough for a number of lanes.
#[derive(Debug, PartialEq, Eq)]
pub struct VulkanDistributedActivationBuffers {
    pub plan: VulkanDistributedActivationBufferPlan,
    pub lane_capacity: usize,
    pub allocations: Vec<VulkanDistributedActivationBuffer>,
    pub allocation_count: usize,
    pub import_count: usize,
    pub total_shared_byte_capacity: usize,
}

#[verifier::ext_equal]
pub struct VulkanDistributedActivationBuffersView {
    pub plan: VulkanDistributedActivationBufferPlanView,
    pub lane_capacity: usize,
    pub allocations: Seq<VulkanDistributedActivationBufferView>,
    pub allocation_count: usize,
    pub import_count: usize,
    pub total_shared_byte_capacity: usize,
}

impl DeepView for VulkanDistributedActivationBuffers {
    type V = VulkanDistributedActivationBuffersView;

    open spec fn deep_view(&self) -> VulkanDistributedActivationBuffersView {
        VulkanDistributedActivationBuffersView {
            plan: self.plan.deep_view(),
            lane_capacity: self.lane_capacity,
            allocations: self.allocations.deep_view(),
            allocation_count: self.allocation_count,
            import_count: self.import_count,
            total_shared_byte_capacity: self.total_shared_byte_capacity,
        }
    }
}

impl View for VulkanDistributedActivationBuffers {
    type V = VulkanDistributedActivationBuffersView;

    open spec fn view(&self) -> VulkanDistributedActivationBuffersView {
        self.deep_view()
    }
}

/// A buffer that stands in for the one of an activation slot.
#[derive(Debug, PartialEq, Eq)]
pub struct VulkanActivationSlotBufferOverride {
    pub component_id: String,
    pub slot: usize,
    pub buffer: VulkanResidentBuffer,
}

#[verifier::ext_equal]
pub struct VulkanActivationSlotBufferOverrideView {
    pub component_id: Seq<char>,
    pub slot: usize,
    pub buffer: VulkanResidentBufferView,
}

impl DeepView for VulkanActivationSlotBufferOverride {
    type V = VulkanActivationSlotBufferOverrideView;

    open spec fn deep_view(&self) -> VulkanActivationSlotBufferOverrideView {
        VulkanActivationSlotBufferOverrideView {
            component_id: self.component_id.deep_view(),
            slot: self.slot,
            buffer: self.buffer.deep_view(),
        }
    }
}

impl View for VulkanActivationSlotBufferOverride {
    type V = VulkanActivationSlotBufferOverrideView;

    open spec fn view(&self) -> VulkanActivationSlotBufferOverrideView {
        self.deep_view()
    }
}

impl Clone for VulkanActivationSlotBufferOverride {
    fn clone(&self) -> (r: Self)
        ensures
            r@ == self@,
    {
        VulkanActivationSlotBufferOverride {
            component_id: self.component_id.clone(),
            slot: self.slot,
            buffer: self.buffer.clone(),
        }
    }
}

/// The name of a planned allocation in messages.
pub open spec fn allocation_name(
    planned: VulkanDistributedActivationBufferAllocationView,
) -> Seq<char> {
    planned.component_id + ".slot_"@ + text::decimal(planned.slot as nat)
}

/// The buffers imported so far, with their totals.
#[verifier::ext_equal]
pub struct ImportedView {
    pub buffers: Seq<VulkanDistributedActivationBufferView>,
    pub import_count: nat,
    pub byte_capacity: nat,
}

/// Nothing imported yet.
pub open spec fn nothing_imported() -> ImportedView {
    ImportedView { buffers: Seq::empty(), import_count: 0, byte_capacity: 0 }
}

/// The buffers that these devices import from one allocation.
pub open spec fn imported_buffers(
    device_ids: Seq<Seq<char>>,
    bytes: usize,
    allocation: usize,
) -> Map<Seq<char>, VulkanResidentBufferView> {
    Map::new(
        |id: Seq<char>| device_ids.contains(id),
        |id: Seq<char>| device::imported_buffer(
            VulkanResidentBufferName::SharedActivation(allocation),
            id,
            bytes,
            VulkanHostAllocationId::Activation(allocation),
        ),
    )
}

/// Every text but this one.
pub open spec fn other_than(owner: Seq<char>) -> spec_fn(Seq<char>) -> bool {
    |id: Seq<char>| id != owner
}

/// Whether a device is neither the owner nor mounted.
pub open spec fn unknown_peer(directory: VulkanDeviceDirectoryView, owner: Seq<char>) -> spec_fn(
    Seq<char>,
) -> bool {
    |id: Seq<char>| id != owner && !directory.knows(id)
}

/// What is said where a device cannot allocate the memory of a shared slot.
pub open spec fn shared_refusal(
    planned: VulkanDistributedActivationBufferAllocationView,
    bytes: nat,
    error: Seq<char>,
) -> Seq<char> {
    "failed to allocate "@ + text::decimal(bytes) + " shared activation bytes for "@
        + allocation_name(planned) + ": "@ + error
}

/// What is said where a device cannot import the memory of a shared slot.
pub open spec fn import_refusal(
    planned: VulkanDistributedActivationBufferAllocationView,
    device_id: Seq<char>,
    error: Seq<char>,
) -> Seq<char> {
    "failed to import "@ + allocation_name(planned) + " on "@ + text::quoted(device_id) + ": "@
        + error
}

/// The import of a shared slot by the device at a position, as it is asked of the device.
pub open spec fn import_object(allocation: nat, participant: int) -> VulkanDeviceObject {
    VulkanDeviceObject::ActivationImport {
        allocation: allocation as usize,
        participant: participant as usize,
    }
}

/// Whether the device at a position cannot import a shared slot: it refuses to, or has already done
/// so.
pub open spec fn import_fails(
    directory: VulkanDeviceDirectoryView,
    device_ids: Seq<Seq<char>>,
    allocation: nat,
) -> spec_fn(int) -> bool {
    |k: int|
        directory.refused(import_object(allocation, k)) is Some || device_ids.take(k).contains(
            device_ids[k],
        )
}

/// Why a shared slot cannot be made: its memory is refused, or one of the imports fails.
pub open spec fn slot_refused(
    directory: VulkanDeviceDirectoryView,
    planned: VulkanDistributedActivationBufferAllocationView,
    bytes: nat,
    allocation: nat,
) -> Option<Seq<char>> {
    match directory.refused(VulkanDeviceObject::SharedActivation(allocation as usize)) {
        Some(error) => Some(shared_refusal(planned, bytes, error)),
        None => match sequence::first_position(
            sequence::positions(planned.device_ids.len()),
            import_fails(directory, planned.device_ids, allocation),
        ) {
            None => None,
            Some(k) => match directory.refused(import_object(allocation, k)) {
                Some(error) => Some(import_refusal(planned, planned.device_ids[k], error)),
                None => Some(
                    "distributed activation "@ + allocation_name(planned) + " repeats device "@
                        + text::quoted(planned.device_ids[k]),
                ),
            },
        },
    }
}

/// Describes the shared allocation of one planned slot and its imports.
#[verifier::opaque]
pub open spec fn slot_imported(
    directory: VulkanDeviceDirectoryView,
    lanes: nat,
    done: ImportedView,
    planned: VulkanDistributedActivationBufferAllocationView,
) -> Result<ImportedView, Seq<char>> {
    let owner = planned.owner_device_id;
    let bytes = planned.byte_capacity * lanes;
    if bytes > usize::MAX {
        Err("distributed activation "@ + allocation_name(planned) + " lane capacity overflowed"@)
    } else if !directory.knows(owner) {
        Err(
            "failed to resolve distributed activation owner "@ + text::quoted(owner) + ": "@
                + directory.refusal(owner),
        )
    } else {
        match sequence::find_first(
            planned.device_ids,
            unknown_peer(directory, owner),
        ) {
            Some(id) => Err(
                "failed to resolve distributed activation participant "@ + text::quoted(id) + ": "@
                    + directory.refusal(id),
            ),
            None => match slot_refused(directory, planned, bytes as nat, done.buffers.len()) {
                Some(error) => Err(error),
                None => if done.import_count + planned.device_ids.len() > usize::MAX {
                    Err("distributed activation import count overflowed"@)
                } else if done.byte_capacity + bytes > usize::MAX {
                    Err("distributed activation byte capacity overflowed"@)
                } else {
                    Ok(
                        ImportedView {
                            buffers: done.buffers.push(
                                VulkanDistributedActivationBufferView {
                                    planned,
                                    shared_allocation: VulkanSharedHostAllocationView {
                                        allocation_id: VulkanHostAllocationId::Activation(
                                            done.buffers.len() as usize,
                                        ),
                                        owner_device_id: owner,
                                        peer_device_ids: planned.device_ids.filter(
                                            other_than(owner),
                                        ),
                                        byte_capacity: bytes as usize,
                                    },
                                    device_buffers: imported_buffers(
                                        planned.device_ids,
                                        bytes as usize,
                                        done.buffers.len() as usize,
                                    ),
                                },
                            ),
                            import_count: done.import_count + planned.device_ids.len(),
                            byte_capacity: (done.byte_capacity + bytes) as nat,
                        },
                    )
                },
            },
        }
    }
}

/// One step over the planned slots.
pub open spec fn import_step(directory: VulkanDeviceDirectoryView, lanes: nat) -> spec_fn(
    ImportedView,
    VulkanDistributedActivationBufferAllocationView,
) -> Result<ImportedView, Seq<char>> {
    |done: ImportedView, planned: VulkanDistributedActivationBufferAllocationView|
        slot_imported(directory, lanes, done, planned)
}

/// The shared activation buffers of a plan for a number of lanes.
pub open spec fn allocated_buffers(
    plan: VulkanDistributedActivationBufferPlanView,
    lanes: usize,
    directory: VulkanDeviceDirectoryView,
) -> Result<VulkanDistributedActivationBuffersView, Seq<char>> {
    if lanes == 0 {
        Err("distributed activation lane capacity must not be zero"@)
    } else {
        match sequence::try_fold(
            plan.allocations,
            nothing_imported(),
            import_step(directory, lanes as nat),
        ) {
            Err(e) => Err(e),
            Ok(done) => Ok(
                VulkanDistributedActivationBuffersView {
                    plan,
                    lane_capacity: lanes,
                    allocations: done.buffers,
                    allocation_count: done.buffers.len() as usize,
                    import_count: done.import_count as usize,
                    total_shared_byte_capacity: done.byte_capacity as usize,
                },
            ),
        }
    }
}

/// What is said where a device cannot allocate the memory of a shared slot.
fn shared_allocation_failure(
    planned: &VulkanDistributedActivationBufferAllocation,
    byte_capacity: usize,
    error: &VulkanError,
) -> (r: VulkanDistributedActivationBufferError)
    ensures
        r@ == shared_refusal(planned@, byte_capacity as nat, error@),
{
    VulkanDistributedActivationBufferError(
        Message::new("failed to allocate ").number(byte_capacity).text(
            " shared activation bytes for ",
        ).text(planned_name(planned).as_str()).text(": ").text(error.0.as_str()).done(),
    )
}

/// What is said where a device cannot import the memory of a shared slot.
fn import_failure(
    planned: &VulkanDistributedActivationBufferAllocation,
    device_id: &str,
    error: &VulkanError,
) -> (r: VulkanDistributedActivationBufferError)
    ensures
        r@ == import_refusal(planned@, device_id@, error@),
{
    VulkanDistributedActivationBufferError(
        Message::new("failed to import ").text(planned_name(planned).as_str()).text(
            " on ",
        ).quoted(device_id).text(": ").text(error.0.as_str()).done(),
    )
}

/// Why a shared slot cannot be made.
#[verifier::loop_isolation(false)]
fn find_refusal(
    directory: &VulkanDeviceDirectory,
    planned: &VulkanDistributedActivationBufferAllocation,
    bytes: usize,
    allocation: usize,
) -> (r: Option<VulkanDistributedActivationBufferError>)
    ensures
        r.deep_view() == slot_refused(directory@, planned@, bytes as nat, allocation as nat),
{
    if let Some(error) = directory.refused(VulkanDeviceObject::SharedActivation(allocation)) {
        return Some(shared_allocation_failure(planned, bytes, error));
    }
    let device_ids: &Vec<String> = &planned.device_ids;
    let ghost all = device_ids.deep_view();
    let ghost places = sequence::positions(all.len());
    let ghost p = import_fails(directory@, all, allocation as nat);
    let mut seen: Vec<String> = Vec::new();
    let mut i: usize = 0;
    assert(seen.deep_view() =~= all.take(0));
    while i < device_ids.len()
        invariant
            i <= device_ids.len(),
            seen.deep_view() == all.take(i as int),
            forall|j: int| 0 <= j < i ==> !p(#[trigger] places[j]),
        decreases device_ids.len() - i,
    {
        proof {
            assert(places[i as int] == i);
            assert(all[i as int] == device_ids@[i as int]@);
            if p(places[i as int]) {
                sequence::lemma_find_first_at(places, p, i as int);
            }
        }
        if let Some(error) = directory.refused(
            VulkanDeviceObject::ActivationImport { allocation, participant: i },
        ) {
            return Some(import_failure(planned, device_ids[i].as_str(), error));
        }
        if sequence::contains_text(&seen, device_ids[i].as_str()) {
            return Some(
                VulkanDistributedActivationBufferError(
                    Message::new("distributed activation ").text(
                        planned_name(planned).as_str(),
                    ).text(" repeats device ").quoted(device_ids[i].as_str()).done(),
                ),
            );
        }
        seen.push(device_ids[i].clone());
        assert(seen.deep_view() =~= all.take(i + 1));
        i += 1;
    }
    proof {
        sequence::lemma_find_first_none(places, p);
    }
    None
}

struct Imported {
    buffers: Vec<VulkanDistributedActivationBuffer>,
    import_count: usize,
    byte_capacity: usize,
}

impl Imported {
    spec fn value(&self) -> ImportedView {
        ImportedView {
            buffers: self.buffers.deep_view(),
            import_count: self.import_count as nat,
            byte_capacity: self.byte_capacity as nat,
        }
    }

    #[verifier::loop_isolation(false)]
    fn find_unknown_peer<'a>(
        directory: &VulkanDeviceDirectory,
        owner: &String,
        device_ids: &'a Vec<String>,
    ) -> (r: Option<&'a String>)
        ensures
            r.deep_view() == sequence::find_first(
                device_ids.deep_view(),
                unknown_peer(directory@, owner@),
            ),
    {
        let ghost all = device_ids.deep_view();
        let ghost p = unknown_peer(directory@, owner@);
        let mut i: usize = 0;
        while i < device_ids.len()
            invariant
                i <= device_ids.len(),
                forall|j: int| 0 <= j < i ==> !p(#[trigger] all[j]),
            decreases device_ids.len() - i,
        {
            assert(all[i as int] == device_ids@[i as int]@);
            if device_ids[i] != *owner && directory.resolve(device_ids[i].as_str()).is_err() {
                proof {
                    sequence::lemma_find_first_at(all, p, i as int);
                }
                return Some(&device_ids[i]);
            }
            i += 1;
        }
        proof {
            sequence::lemma_find_first_none(all, p);
        }
        None
    }

    #[verifier::loop_isolation(false)]
    fn import_all(device_ids: &Vec<String>, bytes: usize, allocation: usize) -> (r: OrderedMap<
        String,
        VulkanResidentBuffer,
    >)
        ensures
            r.sorted(),
            r@ == imported_buffers(device_ids.deep_view(), bytes, allocation),
    {
        let ghost all = device_ids.deep_view();
        let mut buffers: OrderedMap<String, VulkanResidentBuffer> = OrderedMap::new();
        let mut i: usize = 0;
        assert(buffers@ =~= imported_buffers(all.take(0), bytes, allocation));
        while i < device_ids.len()
            invariant
                i <= device_ids.len(),
                buffers.sorted(),
                buffers@ == imported_buffers(all.take(i as int), bytes, allocation),
            decreases device_ids.len() - i,
        {
            let ghost before = buffers@;
            let buffer: VulkanResidentBuffer = VulkanResidentBuffer::imported(
                VulkanResidentBufferName::SharedActivation(allocation),
                device_ids[i].as_str(),
                bytes,
                VulkanHostAllocationId::Activation(allocation),
            );
            buffers.insert(device_ids[i].clone(), buffer);
            proof {
                ordered::lemma_to_set_step(all, i as int);
                let next = imported_buffers(all.take(i + 1), bytes, allocation);
                assert forall|id: Seq<char>| buffers@.contains_key(id) == next.contains_key(id) by {
                    assert(all.take(i + 1).to_set().contains(id) == all.take(
                        i as int,
                    ).to_set().insert(all[i as int]).contains(id));
                }
                assert(buffers@ =~= next);
            }
            i += 1;
        }
        assert(all.take(all.len() as int) =~= all);
        buffers
    }

    #[verifier::loop_isolation(false)]
    fn peers(owner: &String, device_ids: &Vec<String>) -> (r: Vec<String>)
        ensures
            r.deep_view() == device_ids.deep_view().filter(other_than(owner@)),
    {
        let ghost all = device_ids.deep_view();
        let ghost p = other_than(owner@);
        let mut peers: Vec<String> = Vec::new();
        let mut i: usize = 0;
        proof {
            reveal(Seq::filter);
            assert(peers.deep_view() =~= all.take(0).filter(p));
        }
        while i < device_ids.len()
            invariant
                i <= device_ids.len(),
                peers.deep_view() == all.take(i as int).filter(p),
            decreases device_ids.len() - i,
        {
            proof {
                sequence::lemma_filter_step(all, p, i as int);
            }
            let ghost before = peers.deep_view();
            if device_ids[i] != *owner {
                peers.push(device_ids[i].clone());
                assert(peers.deep_view() =~= before.push(all[i as int]));
            }
            i += 1;
        }
        assert(all.take(all.len() as int) =~= all);
        peers
    }

    fn import_slot(
        self,
        directory: &VulkanDeviceDirectory,
        lane_capacity: usize,
        planned: &VulkanDistributedActivationBufferAllocation,
    ) -> (r: Result<Imported, VulkanDistributedActivationBufferError>)
        ensures
            (match r {
                Ok(next) => Ok::<ImportedView, Seq<char>>(next.value()),
                Err(e) => Err(e@),
            }) == slot_imported(directory@, lane_capacity as nat, self.value(), planned@),
    {
        reveal(slot_imported);
        let bytes: usize = match planned.byte_capacity.checked_mul(lane_capacity) {
            Some(bytes) => bytes,
            None => return Err(
                VulkanDistributedActivationBufferError(
                    Message::new("distributed activation ").text(
                        planned_name(planned).as_str(),
                    ).text(" lane capacity overflowed").done(),
                ),
            ),
        };
        if let Err(error) = directory.resolve(planned.owner_device_id.as_str()) {
            return Err(
                VulkanDistributedActivationBufferError(
                    Message::new("failed to resolve distributed activation owner ").quoted(
                        planned.owner_device_id.as_str(),
                    ).text(": ").text(error.as_str()).done(),
                ),
            );
        }
        if let Some(id) = Self::find_unknown_peer(
            directory,
            &planned.owner_device_id,
            &planned.device_ids,
        ) {
            proof {
                let i = sequence::lemma_find_first_some(
                    planned@.device_ids,
                    unknown_peer(directory@, planned.owner_device_id@),
                );
            }
            if let Err(error) = directory.resolve(id.as_str()) {
                return Err(
                    VulkanDistributedActivationBufferError(
                        Message::new("failed to resolve distributed activation participant ").quoted(
                            id.as_str(),
                        ).text(": ").text(error.as_str()).done(),
                    ),
                );
            }
        }
        assert(self.buffers.deep_view().len() == self.buffers@.len());
        if let Some(error) = find_refusal(directory, planned, bytes, self.buffers.len()) {
            return Err(error);
        }
        assert(planned@.device_ids.len() == planned.device_ids@.len());
        let import_count: usize = match self.import_count.checked_add(planned.device_ids.len()) {
            Some(count) => count,
            None => return Err(
                VulkanDistributedActivationBufferError(
                    "distributed activation import count overflowed".to_owned(),
                ),
            ),
        };
        let byte_capacity: usize = match self.byte_capacity.checked_add(bytes) {
            Some(capacity) => capacity,
            None => return Err(
                VulkanDistributedActivationBufferError(
                    "distributed activation byte capacity overflowed".to_owned(),
                ),
            ),
        };
        let ghost before = self.buffers.deep_view();
        assert(before.len() == self.buffers@.len());
        let mut buffers: Vec<VulkanDistributedActivationBuffer> = self.buffers;
        let allocation_id: usize = buffers.len();
        let buffer = VulkanDistributedActivationBuffer {
            planned: planned.clone(),
            shared_allocation: VulkanSharedHostAllocation {
                allocation_id: VulkanHostAllocationId::Activation(allocation_id),
                owner_device_id: planned.owner_device_id.clone(),
                peer_device_ids: Self::peers(&planned.owner_device_id, &planned.device_ids),
                byte_capacity: bytes,
            },
            device_buffers: Self::import_all(&planned.device_ids, bytes, allocation_id),
        };
        let ghost added = buffer@;
        buffers.push(buffer);
        assert(buffers.deep_view() =~= before.push(added));
        Ok(Imported { buffers, import_count, byte_capacity })
    }
}

fn planned_name(planned: &VulkanDistributedActivationBufferAllocation) -> (r: String)
    ensures
        r@ == allocation_name(planned@),
{
    Message::new(planned.component_id.as_str()).text(".slot_").number(planned.slot).done()
}

impl VulkanDistributedActivationBuffers {
    /// The shared buffers of a plan for one lane.
    pub fn allocate(
        plan: &VulkanDistributedActivationBufferPlan,
        directory: &VulkanDeviceDirectory,
    ) -> (r: Result<Self, VulkanDistributedActivationBufferError>)
        ensures
            sequence::outcome(r) == allocated_buffers(plan@, 1, directory@),
    {
        Self::allocate_for_lanes(plan, 1, directory)
    }

    /// The shared buffers of a plan, wide enough for a number of lanes, unless a device refuses to
    /// make one.
    #[verifier::loop_isolation(false)]
    pub fn allocate_for_lanes(
        plan: &VulkanDistributedActivationBufferPlan,
        lane_capacity: usize,
        directory: &VulkanDeviceDirectory,
    ) -> (r: Result<Self, VulkanDistributedActivationBufferError>)
        ensures
            sequence::outcome(r) == allocated_buffers(plan@, lane_capacity, directory@),
    {
        if lane_capacity == 0 {
            return Err(
                VulkanDistributedActivationBufferError(
                    "distributed activation lane capacity must not be zero".to_owned(),
                ),
            );
        }
        let ghost all = plan.allocations.deep_view();
        let ghost step = import_step(directory@, lane_capacity as nat);
        let mut done = Imported { buffers: Vec::new(), import_count: 0, byte_capacity: 0 };
        let mut i: usize = 0;
        assert(done.buffers.deep_view() =~= Seq::empty());
        assert(all.take(0) =~= Seq::empty());
        while i < plan.allocations.len()
            invariant
                i <= plan.allocations.len(),
                sequence::try_fold(all.take(i as int), nothing_imported(), step) == Ok::<
                    ImportedView,
                    Seq<char>,
                >(done.value()),
            decreases plan.allocations.len() - i,
        {
            proof {
                sequence::lemma_try_fold_step(all, nothing_imported(), step, i as int);
            }
            match done.import_slot(directory, lane_capacity, &plan.allocations[i]) {
                Ok(next) => {
                    done = next;
                },
                Err(e) => {
                    proof {
                        sequence::lemma_try_fold_error(all, nothing_imported(), step, i + 1);
                    }
                    return Err(e);
                },
            }
            i += 1;
        }
        assert(all.take(all.len() as int) =~= all);
        assert(done.buffers.deep_view().len() == done.buffers@.len());
        Ok(
            VulkanDistributedActivationBuffers {
                plan: plan.clone(),
                lane_capacity,
                allocation_count: done.buffers.len(),
                allocations: done.buffers,
                import_count: done.import_count,
                total_shared_byte_capacity: done.byte_capacity,
            },
        )
    }

    /// The buffer of an owner's activation slot on a device.
    pub fn activation_buffer(
        &self,
        owner_device_id: &str,
        component_id: &str,
        slot: usize,
        device_id: &str,
    ) -> (r: Option<&VulkanResidentBuffer>)
        ensures
            r.deep_view() == shared_activation_buffer(
                self@,
                owner_device_id@,
                component_id@,
                slot,
                device_id@,
            ),
    {
        let ghost all = self.allocations.deep_view();
        let ghost p = buffer_matcher(owner_device_id@, component_id@, slot);
        let mut i: usize = 0;
        while i < self.allocations.len()
            invariant
                i <= self.allocations.len(),
                all == self.allocations.deep_view(),
                p == buffer_matcher(owner_device_id@, component_id@, slot),
                forall|j: int| 0 <= j < i ==> !p(#[trigger] all[j]),
            decreases self.allocations.len() - i,
        {
            let allocation: &VulkanDistributedActivationBuffer = &self.allocations[i];
            assert(all[i as int] == allocation@);
            if text::same(allocation.planned.owner_device_id.as_str(), owner_device_id)
                && text::same(allocation.planned.component_id.as_str(), component_id)
                && allocation.planned.slot == slot {
                proof {
                    sequence::lemma_find_first_at(all, p, i as int);
                }
                let key: String = device_id.to_owned();
                return allocation.device_buffers.get(&key);
            }
            i += 1;
        }
        proof {
            sequence::lemma_find_first_none(all, p);
        }
        None
    }

    /// The buffers that stand in for the activation slots of an owner's components.
    #[verifier::loop_isolation(false)]
    pub fn activation_overrides_for_owner_device(&self, owner_device_id: &str) -> (r: Vec<
        VulkanActivationSlotBufferOverride,
    >)
        ensures
            r.deep_view() == owner_overrides(self@.allocations, owner_device_id@),
    {
        let ghost all = self.allocations.deep_view();
        let owner: String = owner_device_id.to_owned();
        let mut overrides: Vec<VulkanActivationSlotBufferOverride> = Vec::new();
        let mut i: usize = 0;
        assert(overrides.deep_view() =~= owner_overrides(all.take(0), owner_device_id@));
        while i < self.allocations.len()
            invariant
                i <= self.allocations.len(),
                overrides.deep_view() == owner_overrides(all.take(i as int), owner_device_id@),
            decreases self.allocations.len() - i,
        {
            let allocation: &VulkanDistributedActivationBuffer = &self.allocations[i];
            assert(all[i as int] == allocation@);
            assert(all.take(i + 1).drop_last() =~= all.take(i as int));
            let ghost before = overrides.deep_view();
            if allocation.planned.owner_device_id == owner {
                if let Some(buffer) = allocation.device_buffers.get(&owner) {
                    let stand_in = VulkanActivationSlotBufferOverride {
                        component_id: allocation.planned.component_id.clone(),
                        slot: allocation.planned.slot,
                        buffer: buffer.clone(),
                    };
                    let ghost added = stand_in@;
                    overrides.push(stand_in);
                    assert(overrides.deep_view() =~= before.push(added));
                }
            }
            i += 1;
        }
        assert(all.take(all.len() as int) =~= all);
        overrides
    }
}

/// Whether a shared buffer is the one of this owner, component and slot.
pub open spec fn buffer_matcher(owner: Seq<char>, component: Seq<char>, slot: usize) -> spec_fn(
    VulkanDistributedActivationBufferView,
) -> bool {
    |b: VulkanDistributedActivationBufferView|
        b.planned.owner_device_id == owner && b.planned.component_id == component && b.planned.slot
            == slot
}

/// The buffer of an owner's activation slot on a device.
pub open spec fn shared_activation_buffer(
    buffers: VulkanDistributedActivationBuffersView,
    owner: Seq<char>,
    component: Seq<char>,
    slot: usize,
    device_id: Seq<char>,
) -> Option<VulkanResidentBufferView> {
    match sequence::find_first(buffers.allocations, buffer_matcher(owner, component, slot)) {
        Some(buffer) => if buffer.device_buffers.contains_key(device_id) {
            Some(buffer.device_buffers[device_id])
        } else {
            None
        },
        None => None,
    }
}

/// The owner's own buffers of the slots that it shares.
pub open spec fn owner_overrides(
    allocations: Seq<VulkanDistributedActivationBufferView>,
    owner: Seq<char>,
) -> Seq<VulkanActivationSlotBufferOverrideView>
    decreases allocations.len(),
{
    if allocations.len() == 0 {
        Seq::empty()
    } else {
        let front = owner_overrides(allocations.drop_last(), owner);
        let last = allocations.last();
        if last.planned.owner_device_id == owner && last.device_buffers.contains_key(owner) {
            front.push(
                VulkanActivationSlotBufferOverrideView {
                    component_id: last.planned.component_id,
                    slot: last.planned.slot,
                    buffer: last.device_buffers[owner],
                },
            )
        } else {
            front
        }
    }
}

/// Whether the buffers of a planned slot are one memory: each of its devices has a buffer of its
/// own, no other device has one, and all of them are backed by one host allocation, which is large
/// enough for every lane and belongs to the slot's owner.
pub open spec fn is_one_memory(
    shared: VulkanDistributedActivationBufferView,
    planned: VulkanDistributedActivationBufferAllocationView,
    lanes: nat,
) -> bool {
    let memory = shared.shared_allocation;
    &&& shared.planned == planned
    &&& memory.byte_capacity == planned.byte_capacity * lanes
    &&& memory.owner_device_id == planned.owner_device_id
    &&& !memory.peer_device_ids.contains(planned.owner_device_id)
    &&& forall|k: int|
        0 <= k < memory.peer_device_ids.len() ==> planned.device_ids.contains(
            #[trigger] memory.peer_device_ids[k],
        )
    &&& forall|id: Seq<char>|
        #[trigger] shared.device_buffers.contains_key(id) <==> planned.device_ids.contains(id)
    &&& forall|id: Seq<char>|
        planned.device_ids.contains(id) ==> {
            let buffer = #[trigger] shared.device_buffers[id];
            &&& buffer.device_id == id
            &&& buffer.byte_capacity == memory.byte_capacity
            &&& buffer.host_visible
            &&& buffer.host_allocation == Some(memory.allocation_id)
        }
}

proof fn lemma_slots_imported(
    allocations: Seq<VulkanDistributedActivationBufferAllocationView>,
    lanes: nat,
    directory: VulkanDeviceDirectoryView,
    a: int,
)
    requires
        sequence::try_fold(allocations, nothing_imported(), import_step(directory, lanes)) is Ok,
        allocations.len() <= usize::MAX,
    ensures
        ({
            let done = sequence::try_fold(
                allocations,
                nothing_imported(),
                import_step(directory, lanes),
            )->Ok_0;
            &&& done.buffers.len() == allocations.len()
            &&& done.import_count == sequence::total(allocations, imports())
            &&& done.byte_capacity == sequence::total(allocations, shared_bytes()) * lanes
            &&& 0 <= a < allocations.len() ==> {
                &&& is_one_memory(done.buffers[a], allocations[a], lanes)
                &&& done.buffers[a].shared_allocation.allocation_id
                    == VulkanHostAllocationId::Activation(a as usize)
                &&& forall|id: Seq<char>|
                    allocations[a].device_ids.contains(id) ==> (
                    #[trigger] done.buffers[a].device_buffers[id]).name
                        == VulkanResidentBufferName::SharedActivation(a as usize)
            }
        }),
    decreases allocations.len(),
{
    if allocations.len() > 0 {
        let front = allocations.drop_last();
        let planned = allocations.last();
        lemma_slots_imported(front, lanes, directory, a);
        reveal(slot_imported);
        let before = sequence::try_fold(
            front,
            nothing_imported(),
            import_step(directory, lanes),
        )->Ok_0;
        let after = sequence::try_fold(
            allocations,
            nothing_imported(),
            import_step(directory, lanes),
        )->Ok_0;
        assert(slot_imported(directory, lanes, before, planned) == Ok::<ImportedView, Seq<char>>(
            after,
        ));
        assert((sequence::total(front, shared_bytes()) + planned.byte_capacity) * lanes
            == sequence::total(front, shared_bytes()) * lanes + planned.byte_capacity * lanes)
            by (nonlinear_arith);
        let peers = planned.device_ids.filter(other_than(planned.owner_device_id));
        assert forall|k: int| 0 <= k < peers.len() implies planned.device_ids.contains(
            #[trigger] peers[k],
        ) && peers[k] != planned.owner_device_id by {
            sequence::lemma_kept_is_given(
                planned.device_ids,
                other_than(planned.owner_device_id),
                k,
            );
            planned.device_ids.lemma_filter_pred(other_than(planned.owner_device_id), k);
        }
    } else {
        assert(0nat * lanes == 0) by (nonlinear_arith);
    }
}

/// The buffers of a shared slot are one memory, whatever device they stand on, and the buffers of
/// two slots are two. There are buffers for every planned slot, and for no other.
pub proof fn shared_slots_are_one_memory_each(
    plan: VulkanDistributedActivationBufferPlanView,
    lanes: usize,
    directory: VulkanDeviceDirectoryView,
    a: int,
    b: int,
)
    requires
        allocated_buffers(plan, lanes, directory) is Ok,
        plan.allocations.len() <= usize::MAX,
        0 <= a < plan.allocations.len(),
        0 <= b < plan.allocations.len(),
    ensures
        ({
            let made = allocated_buffers(plan, lanes, directory)->Ok_0;
            &&& lanes > 0
            &&& made.lane_capacity == lanes
            &&& made.plan == plan
            &&& made.allocations.len() == plan.allocations.len()
            &&& made.allocation_count == plan.allocations.len()
            &&& is_one_memory(made.allocations[a], plan.allocations[a], lanes as nat)
            &&& a != b ==> forall|one: Seq<char>, other: Seq<char>|
                plan.allocations[a].device_ids.contains(one)
                    && plan.allocations[b].device_ids.contains(other) ==> {
                    let here = #[trigger] made.allocations[a].device_buffers[one];
                    let there = #[trigger] made.allocations[b].device_buffers[other];
                    &&& here.name != there.name
                    &&& here.host_allocation != there.host_allocation
                }
        }),
{
    lemma_slots_imported(plan.allocations, lanes as nat, directory, a);
    lemma_slots_imported(plan.allocations, lanes as nat, directory, b);
}

/// What a shard is handed for a slot is the buffer of that slot of that owner on its own device.
pub proof fn shards_use_the_slots_of_their_owner(
    plan: VulkanDistributedActivationBufferPlanView,
    lanes: usize,
    directory: VulkanDeviceDirectoryView,
    owner: Seq<char>,
    component: Seq<char>,
    slot: usize,
    device_id: Seq<char>,
)
    requires
        allocated_buffers(plan, lanes, directory) is Ok,
        plan.allocations.len() <= usize::MAX,
    ensures
        ({
            let made = allocated_buffers(plan, lanes, directory)->Ok_0;
            shared_activation_buffer(made, owner, component, slot, device_id) matches Some(buffer)
                ==> {
                &&& buffer.device_id == device_id
                &&& exists|a: int|
                    0 <= a < plan.allocations.len() && {
                        let planned = #[trigger] plan.allocations[a];
                        &&& planned.owner_device_id == owner
                        &&& planned.component_id == component
                        &&& planned.slot == slot
                        &&& planned.device_ids.contains(device_id)
                        &&& buffer.byte_capacity == planned.byte_capacity * lanes
                        &&& buffer == made.allocations[a].device_buffers[device_id]
                    }
            }
        }),
{
    let made = allocated_buffers(plan, lanes, directory)->Ok_0;
    if shared_activation_buffer(made, owner, component, slot, device_id) is Some {
        lemma_slots_imported(plan.allocations, lanes as nat, directory, 0);
        let a = sequence::lemma_find_first_some(
            made.allocations,
            buffer_matcher(owner, component, slot),
        );
        lemma_slots_imported(plan.allocations, lanes as nat, directory, a);
        assert(made.allocations[a].device_buffers.contains_key(device_id));
        assert(plan.allocations[a].owner_device_id == owner);
    }
}

/// A planned slot is found by its owner, its component and its number: the first that has all three,
/// and none where none has.
pub proof fn planned_slots_are_found_by_owner(
    all: Seq<VulkanDistributedActivationBufferAllocationView>,
    owner: Seq<char>,
    component: Seq<char>,
    slot: usize,
    j: int,
)
    ensures
        match sequence::find_first(all, slot_matcher(owner, component, slot)) {
            Some(found) => exists|i: int|
                {
                    &&& 0 <= i < all.len()
                    &&& found == #[trigger] all[i]
                    &&& all[i].owner_device_id == owner
                    &&& all[i].component_id == component
                    &&& all[i].slot == slot
                    &&& 0 <= j < i ==> !(all[j].owner_device_id == owner && all[j].component_id == component && all[j].slot == slot)
                },
            None => 0 <= j < all.len() ==> !(all[j].owner_device_id == owner && all[j].component_id == component && all[j].slot == slot),
        },
{
    let p = slot_matcher(owner, component, slot);
    if 0 <= j < all.len() {
        assert(p(all[j]) <==> all[j].owner_device_id == owner && all[j].component_id == component && all[j].slot == slot);
    }
    if sequence::find_first(all, p) is Some {
        let i = sequence::lemma_find_first_some(all, p);
        assert(p(all[i]));
        assert(sequence::find_first(all, p)->Some_0 == all[i]);
    } else {
        sequence::lemma_find_none_all(all, p);
    }
}

/// The buffers of a slot are found by its owner, its component and its number: the first that have
/// all three, and none where none have.
pub proof fn slot_buffers_are_found_by_owner(
    all: Seq<VulkanDistributedActivationBufferView>,
    owner: Seq<char>,
    component: Seq<char>,
    slot: usize,
    j: int,
)
    ensures
        match sequence::find_first(all, buffer_matcher(owner, component, slot)) {
            Some(found) => exists|i: int|
                {
                    &&& 0 <= i < all.len()
                    &&& found == #[trigger] all[i]
                    &&& all[i].planned.owner_device_id == owner
                    &&& all[i].planned.component_id == component
                    &&& all[i].planned.slot == slot
                    &&& 0 <= j < i ==> !(all[j].planned.owner_device_id == owner && all[j].planned.component_id == component && all[j].planned.slot == slot)
                },
            None => 0 <= j < all.len() ==> !(all[j].planned.owner_device_id == owner && all[j].planned.component_id == component && all[j].planned.slot == slot),
        },
{
    let p = buffer_matcher(owner, component, slot);
    if 0 <= j < all.len() {
        assert(p(all[j]) <==> all[j].planned.owner_device_id == owner && all[j].planned.component_id == component && all[j].planned.slot == slot);
    }
    if sequence::find_first(all, p) is Some {
        let i = sequence::lemma_find_first_some(all, p);
        assert(p(all[i]));
        assert(sequence::find_first(all, p)->Some_0 == all[i]);
    } else {
        sequence::lemma_find_none_all(all, p);
    }
}

} // verus!
