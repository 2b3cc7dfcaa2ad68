//! The launches of a device for a batch of lanes.

use crate::component_batch::kernels::VulkanResidentComponentBatchKernelArtifact;
use crate::component_batch::kernels::VulkanResidentComponentBatchKernelArtifactView;
use crate::component_batch::signals::VulkanComponentBatchSignalBufferPlan;
use crate::component_batch::signals::VulkanComponentBatchSignalBufferPlanView;
use crate::component_batch::signals::VulkanComponentBatchSignalKey;
use crate::component_batch::signals::VulkanComponentBatchSignalKeyView;
use crate::component_batch::signals;
use crate::component_batch::units::VulkanComponentBatchExecutionUnit;
use crate::component_batch::units::VulkanComponentBatchExecutionUnitView;
use crate::device::VulkanDeviceDirectory;
use crate::device::VulkanDeviceDirectoryView;
use crate::device::VulkanError;
use crate::device::VulkanHostAllocationId;
use crate::device::VulkanResidentBuffer;
use crate::device::VulkanResidentBufferName;
use crate::device::VulkanResidentBufferView;
use crate::device::VulkanResidentKernelDispatch;
use crate::device::VulkanResidentKernelDispatchView;
use crate::device;
use crate::distributed::plan::VulkanDistributedActivationSlot;
use crate::distributed::plan::VulkanDistributedActivationSlotView;
use crate::distributed::plan::VulkanDistributedDispatchPlan;
use crate::distributed::plan::VulkanDistributedDispatchPlanView;
use crate::distributed::plan::VulkanDistributedDispatchShardView;
use crate::input_transducer;
use crate::kernel_interface::VulkanKernelScalarBinding;
use crate::kernel_interface::VulkanKernelScalarBindingView;
use crate::mounted_dispatch::VulkanMountedPlacedBoundDispatch;
use crate::mounted_dispatch::VulkanMountedPlacedBoundDispatchView;
use crate::ordered::OrderedMap;
use crate::ordered::OrderedSet;
use crate::ordered;
use crate::reusable_kernels::VulkanLoadedReusableKernelArtifactManifest;
use crate::reusable_kernels::VulkanLoadedReusableKernelArtifactManifestView;
use crate::runtime_error::VulkanResidentInProcessPlacedRuntimeError;
use crate::runtime_error::VulkanResidentInProcessPlacedRuntimeErrorView;
use crate::sequence;
use crate::text::Message;
use crate::text;
use vstd::prelude::*;

verus! {

/// A buffer that holds a frame of a signal for every lane, with its imports where devices share it.
#[derive(Debug, PartialEq, Eq)]
pub struct VulkanComponentBatchSignalBuffer {
    pub frame_byte_capacity: usize,
    pub buffer: VulkanResidentBuffer,
    pub shared_device_buffers: OrderedMap<String, VulkanResidentBuffer>,
}

#[verifier::ext_equal]
pub struct VulkanComponentBatchSignalBufferView {
    pub frame_byte_capacity: usize,
    pub buffer: VulkanResidentBufferView,
    pub shared_device_buffers: Map<Seq<char>, VulkanResidentBufferView>,
}

impl DeepView for VulkanComponentBatchSignalBuffer {
    type V = VulkanComponentBatchSignalBufferView;

    open spec fn deep_view(&self) -> VulkanComponentBatchSignalBufferView {
        VulkanComponentBatchSignalBufferView {
            frame_byte_capacity: self.frame_byte_capacity,
            buffer: self.buffer.deep_view(),
            shared_device_buffers: self.shared_device_buffers.deep_view(),
        }
    }
}

impl View for VulkanComponentBatchSignalBuffer {
    type V = VulkanComponentBatchSignalBufferView;

    open spec fn view(&self) -> VulkanComponentBatchSignalBufferView {
        self.deep_view()
    }
}

/// A launch of a batch: for one lane, or for all of them at once.
#[derive(Debug, PartialEq, Eq)]
pub struct VulkanComponentBatchDispatchStep {
    pub dispatch: VulkanResidentKernelDispatch,
    pub batch_control_byte_count: u32,
    pub push_constants: Vec<VulkanKernelScalarBinding>,
    pub lane_index: Option<usize>,
    pub commits_state: bool,
    pub snapshot_state_buffer_indices: OrderedSet<usize>,
}

#[verifier::ext_equal]
pub struct VulkanComponentBatchDispatchStepView {
    pub dispatch: VulkanResidentKernelDispatchView,
    pub batch_control_byte_count: u32,
    pub push_constants: Seq<VulkanKernelScalarBindingView>,
    pub lane_index: Option<usize>,
    pub commits_state: bool,
    pub snapshot_state_buffer_indices: Set<usize>,
}

impl DeepView for VulkanComponentBatchDispatchStep {
    type V = VulkanComponentBatchDispatchStepView;

    open spec fn deep_view(&self) -> VulkanComponentBatchDispatchStepView {
        VulkanComponentBatchDispatchStepView {
            dispatch: self.dispatch.deep_view(),
            batch_control_byte_count: self.batch_control_byte_count,
            push_constants: self.push_constants.deep_view(),
            lane_index: self.lane_index,
            commits_state: self.commits_state,
            snapshot_state_buffer_indices: self.snapshot_state_buffer_indices.deep_view(),
        }
    }
}

impl View for VulkanComponentBatchDispatchStep {
    type V = VulkanComponentBatchDispatchStepView;

    open spec fn view(&self) -> VulkanComponentBatchDispatchStepView {
        self.deep_view()
    }
}

/// The launches of a device for a batch of lanes.
#[derive(Debug, PartialEq, Eq)]
pub struct VulkanResidentComponentBatchSliceRunner {
    pub lane_capacity: usize,
    pub signal_buffers: Vec<VulkanComponentBatchSignalBuffer>,
    pub signal_buffer_indices: OrderedMap<VulkanComponentBatchSignalKey, usize>,
    pub stream_control_buffers: Vec<VulkanResidentBuffer>,
    pub steps: Vec<VulkanComponentBatchDispatchStep>,
    pub execution_units: Vec<VulkanComponentBatchExecutionUnit>,
    pub sequence_count: usize,
}

#[verifier::ext_equal]
pub struct VulkanResidentComponentBatchSliceRunnerView {
    pub lane_capacity: usize,
    pub signal_buffers: Seq<VulkanComponentBatchSignalBufferView>,
    pub signal_buffer_indices: Map<VulkanComponentBatchSignalKeyView, usize>,
    pub stream_control_buffers: Seq<VulkanResidentBufferView>,
    pub steps: Seq<VulkanComponentBatchDispatchStepView>,
    pub execution_units: Seq<VulkanComponentBatchExecutionUnitView>,
    pub sequence_count: usize,
}

impl DeepView for VulkanResidentComponentBatchSliceRunner {
    type V = VulkanResidentComponentBatchSliceRunnerView;

    open spec fn deep_view(&self) -> VulkanResidentComponentBatchSliceRunnerView {
        VulkanResidentComponentBatchSliceRunnerView {
            lane_capacity: self.lane_capacity,
            signal_buffers: self.signal_buffers.deep_view(),
            signal_buffer_indices: self.signal_buffer_indices.deep_view(),
            stream_control_buffers: self.stream_control_buffers.deep_view(),
            steps: self.steps.deep_view(),
            execution_units: self.execution_units.deep_view(),
            sequence_count: self.sequence_count,
        }
    }
}

impl View for VulkanResidentComponentBatchSliceRunner {
    type V = VulkanResidentComponentBatchSliceRunnerView;

    open spec fn view(&self) -> VulkanResidentComponentBatchSliceRunnerView {
        self.deep_view()
    }
}

/// A device's share of a model: its launches and the kernels that they can be made with.
#[derive(Debug, PartialEq, Eq)]
pub struct VulkanComponentBatchSlice {
    pub device_id: String,
    pub dispatches: Vec<VulkanMountedPlacedBoundDispatch>,
    pub batch_kernels: Vec<VulkanResidentComponentBatchKernelArtifact>,
    pub loaded_manifest: VulkanLoadedReusableKernelArtifactManifest,
}

#[verifier::ext_equal]
pub struct VulkanComponentBatchSliceView {
    pub device_id: Seq<char>,
    pub dispatches: Seq<VulkanMountedPlacedBoundDispatchView>,
    pub batch_kernels: Seq<VulkanResidentComponentBatchKernelArtifactView>,
    pub loaded_manifest: VulkanLoadedReusableKernelArtifactManifestView,
}

impl DeepView for VulkanComponentBatchSlice {
    type V = VulkanComponentBatchSliceView;

    open spec fn deep_view(&self) -> VulkanComponentBatchSliceView {
        VulkanComponentBatchSliceView {
            device_id: self.device_id.deep_view(),
            dispatches: self.dispatches.deep_view(),
            batch_kernels: self.batch_kernels.deep_view(),
            loaded_manifest: self.loaded_manifest.deep_view(),
        }
    }
}

impl View for VulkanComponentBatchSlice {
    type V = VulkanComponentBatchSliceView;

    open spec fn view(&self) -> VulkanComponentBatchSliceView {
        self.deep_view()
    }
}

// ---------------------------------------------------------------------------
// Which devices share a signal buffer
// ---------------------------------------------------------------------------

/// The signal of a distributed activation.
pub open spec fn activation_key(activation: VulkanDistributedActivationSlotView) -> VulkanComponentBatchSignalKeyView {
    VulkanComponentBatchSignalKeyView::Activation {
        component_id: activation.component_id,
        signal_id: activation.signal_id,
    }
}

fn key_of_activation(activation: &VulkanDistributedActivationSlot) -> (r:
    VulkanComponentBatchSignalKey)
    ensures
        r@ == activation_key(activation@),
{
    VulkanComponentBatchSignalKey::Activation {
        component_id: activation.component_id.clone(),
        signal_id: activation.signal_id.clone(),
    }
}

/// The activations that a distributed launch reads and writes.
pub open spec fn activations_of(dispatch: VulkanDistributedDispatchPlanView) -> Seq<
    VulkanDistributedActivationSlotView,
> {
    (seq![dispatch.input_activation] + dispatch.auxiliary_input_activations).push(
        dispatch.output_activation,
    )
}

/// Whether an activation has no signal buffer.
pub open spec fn is_unplaced(indices: Map<VulkanComponentBatchSignalKeyView, usize>) -> spec_fn(
    VulkanDistributedActivationSlotView,
) -> bool {
    |activation: VulkanDistributedActivationSlotView|
        !indices.contains_key(activation_key(activation))
}

/// Whether an activation lives in a buffer.
pub open spec fn lives_in(
    indices: Map<VulkanComponentBatchSignalKeyView, usize>,
    buffer_index: usize,
) -> spec_fn(VulkanDistributedActivationSlotView) -> bool {
    |activation: VulkanDistributedActivationSlotView|
        indices.contains_key(activation_key(activation)) && indices[activation_key(activation)]
            == buffer_index
}

/// The first activation of a device's distributed launches that has no signal buffer.
pub open spec fn first_unplaced(
    dispatches: Seq<VulkanDistributedDispatchPlanView>,
    device_id: Seq<char>,
    indices: Map<VulkanComponentBatchSignalKeyView, usize>,
) -> Option<VulkanDistributedActivationSlotView>
    decreases dispatches.len(),
{
    if dispatches.len() == 0 {
        None
    } else {
        match first_unplaced(dispatches.drop_last(), device_id, indices) {
            Some(activation) => Some(activation),
            None => if dispatches.last().owner_device_id == device_id {
                sequence::find_first(activations_of(dispatches.last()), is_unplaced(indices))
            } else {
                None
            },
        }
    }
}

/// The device of a shard.
pub open spec fn shard_device() -> spec_fn(VulkanDistributedDispatchShardView) -> Seq<char> {
    |shard: VulkanDistributedDispatchShardView| shard.device_id
}

/// The devices that share a buffer, if a distributed launch of the device reads or writes it.
pub open spec fn sharing_devices(
    dispatches: Seq<VulkanDistributedDispatchPlanView>,
    device_id: Seq<char>,
    indices: Map<VulkanComponentBatchSignalKeyView, usize>,
    buffer_index: usize,
) -> Option<Set<Seq<char>>>
    decreases dispatches.len(),
{
    if dispatches.len() == 0 {
        None
    } else {
        let front = sharing_devices(dispatches.drop_last(), device_id, indices, buffer_index);
        let last = dispatches.last();
        if last.owner_device_id == device_id && sequence::any(
            activations_of(last),
            lives_in(indices, buffer_index),
        ) {
            let shards = last.shards.map_values(shard_device()).to_set();
            Some(
                match front {
                    Some(devices) => devices.union(shards),
                    None => shards,
                },
            )
        } else {
            front
        }
    }
}

fn is_placed_at(
    activation: &VulkanDistributedActivationSlot,
    indices: &OrderedMap<VulkanComponentBatchSignalKey, usize>,
    buffer_index: usize,
) -> (r: bool)
    ensures
        r == lives_in(indices@, buffer_index)(activation@),
{
    match indices.get(&key_of_activation(activation)) {
        Some(index) => *index == buffer_index,
        None => false,
    }
}

#[verifier::loop_isolation(false)]
fn touches_buffer(
    dispatch: &VulkanDistributedDispatchPlan,
    indices: &OrderedMap<VulkanComponentBatchSignalKey, usize>,
    buffer_index: usize,
) -> (r: bool)
    ensures
        r == sequence::any(activations_of(dispatch@), lives_in(indices@, buffer_index)),
{
    let ghost all = activations_of(dispatch@);
    let ghost p = lives_in(indices@, buffer_index);
    let ghost middle = dispatch@.auxiliary_input_activations;
    assert(all[0] == dispatch@.input_activation);
    assert(all[all.len() - 1] == dispatch@.output_activation);
    if is_placed_at(&dispatch.input_activation, indices, buffer_index) || is_placed_at(
        &dispatch.output_activation,
        indices,
        buffer_index,
    ) {
        return true;
    }
    let mut i: usize = 0;
    while i < dispatch.auxiliary_input_activations.len()
        invariant
            i <= dispatch.auxiliary_input_activations.len(),
            forall|j: int| 0 <= j < i ==> !p(#[trigger] middle[j]),
        decreases dispatch.auxiliary_input_activations.len() - i,
    {
        assert(middle[i as int] == dispatch.auxiliary_input_activations@[i as int]@);
        assert(all[i + 1] == middle[i as int]);
        if is_placed_at(&dispatch.auxiliary_input_activations[i], indices, buffer_index) {
            return true;
        }
        i += 1;
    }
    assert forall|k: int| 0 <= k < all.len() implies !p(#[trigger] all[k]) by {
        if 0 < k < all.len() - 1 {
            assert(all[k] == middle[k - 1]);
        }
    }
    false
}

/// The devices that share a buffer, in order.
#[verifier::loop_isolation(false)]
fn devices_that_share(
    dispatches: &Vec<VulkanDistributedDispatchPlan>,
    device_id: &str,
    indices: &OrderedMap<VulkanComponentBatchSignalKey, usize>,
    buffer_index: usize,
) -> (r: Option<OrderedSet<String>>)
    ensures
        r.deep_view() == sharing_devices(
            dispatches.deep_view(),
            device_id@,
            indices@,
            buffer_index,
        ),
        r matches Some(devices) ==> devices.sorted(),
{
    let ghost all = dispatches.deep_view();
    let mut shared: bool = false;
    let mut devices: OrderedSet<String> = OrderedSet::new();
    let mut i: usize = 0;
    assert(all.take(0) =~= Seq::empty());
    while i < dispatches.len()
        invariant
            i <= dispatches.len(),
            devices.sorted(),
            sharing_devices(all.take(i as int), device_id@, indices@, buffer_index) == (if shared {
                Some(devices@)
            } else {
                None
            }),
            !shared ==> devices@ == Set::<Seq<char>>::empty(),
        decreases dispatches.len() - i,
    {
        let dispatch = &dispatches[i];
        assert(all[i as int] == dispatch@);
        assert(all.take(i + 1).drop_last() =~= all.take(i as int));
        if text::same(dispatch.owner_device_id.as_str(), device_id) && touches_buffer(
            dispatch,
            indices,
            buffer_index,
        ) {
            let ghost before = devices@;
            let ghost ids = dispatch@.shards.map_values(shard_device());
            let mut k: usize = 0;
            assert(ids.take(0).to_set() =~= Set::empty());
            assert(devices@ =~= before.union(ids.take(0).to_set()));
            while k < dispatch.shards.len()
                invariant
                    k <= dispatch.shards.len(),
                    devices.sorted(),
                    devices@ == before.union(ids.take(k as int).to_set()),
                decreases dispatch.shards.len() - k,
            {
                assert(ids[k as int] == dispatch.shards@[k as int].device_id@);
                devices.insert(dispatch.shards[k].device_id.clone());
                proof {
                    ordered::lemma_to_set_step(ids, k as int);
                    assert(devices@ =~= before.union(ids.take(k + 1).to_set()));
                }
                k += 1;
            }
            assert(ids.take(ids.len() as int) =~= ids);
            assert(Set::<Seq<char>>::empty().union(ids.to_set()) =~= ids.to_set());
            shared = true;
        }
        i += 1;
    }
    assert(all.take(all.len() as int) =~= all);
    if shared {
        Some(devices)
    } else {
        None
    }
}

/// What is said of an activation without a signal buffer.
pub open spec fn unplaced_text(activation: VulkanDistributedActivationSlotView) -> Seq<char> {
    "distributed component batch has no signal buffer for "@ + signals::key_text(
        activation_key(activation),
    )
}

fn check_activation(
    activation: &VulkanDistributedActivationSlot,
    indices: &OrderedMap<VulkanComponentBatchSignalKey, usize>,
) -> (r: Result<(), VulkanResidentInProcessPlacedRuntimeError>)
    ensures
        sequence::outcome(r) == (if is_unplaced(indices@)(activation@) {
            Err::<(), VulkanResidentInProcessPlacedRuntimeErrorView>(
                input_transducer::refused(unplaced_text(activation@)),
            )
        } else {
            Ok(())
        }),
{
    let key: VulkanComponentBatchSignalKey = key_of_activation(activation);
    if indices.contains_key(&key) {
        return Ok(());
    }
    Err(
        VulkanResidentInProcessPlacedRuntimeError::BackendLoop(
            VulkanError(
                Message::new("distributed component batch has no signal buffer for ").text(
                    key.describe().as_str(),
                ).done(),
            ),
        ),
    )
}

/// Refuses distributed launches with an activation that has no signal buffer.
#[verifier::loop_isolation(false)]
pub(crate) fn check_activations(
    dispatches: &Vec<VulkanDistributedDispatchPlan>,
    device_id: &str,
    indices: &OrderedMap<VulkanComponentBatchSignalKey, usize>,
) -> (r: Result<(), VulkanResidentInProcessPlacedRuntimeError>)
    ensures
        sequence::outcome(r) == (match first_unplaced(
            dispatches.deep_view(),
            device_id@,
            indices@,
        ) {
            Some(activation) => Err::<(), VulkanResidentInProcessPlacedRuntimeErrorView>(
                input_transducer::refused(unplaced_text(activation)),
            ),
            None => Ok(()),
        }),
{
    let ghost all = dispatches.deep_view();
    let mut i: usize = 0;
    assert(all.take(0) =~= Seq::empty());
    while i < dispatches.len()
        invariant
            i <= dispatches.len(),
            first_unplaced(all.take(i as int), device_id@, indices@) is None,
        decreases dispatches.len() - i,
    {
        let dispatch = &dispatches[i];
        proof {
            assert(all[i as int] == dispatch@);
            assert(all.take(i + 1).drop_last() =~= all.take(i as int));
            if first_unplaced(all.take(i + 1), device_id@, indices@) is Some {
                lemma_first_unplaced_stays(all, device_id@, indices@, i + 1);
            }
        }
        if text::same(dispatch.owner_device_id.as_str(), device_id) {
            let ghost slots = activations_of(dispatch@);
            let ghost p = is_unplaced(indices@);
            let ghost middle = dispatch@.auxiliary_input_activations;
            proof {
                if p(slots[0]) {
                    sequence::lemma_find_first_at(slots, p, 0);
                }
            }
            match check_activation(&dispatch.input_activation, indices) {
                Err(error) => {
                    return Err(error);
                },
                Ok(()) => {},
            }
            let mut k: usize = 0;
            while k < dispatch.auxiliary_input_activations.len()
                invariant
                    k <= dispatch.auxiliary_input_activations.len(),
                    forall|j: int| 0 <= j <= k ==> !p(#[trigger] slots[j]),
                decreases dispatch.auxiliary_input_activations.len() - k,
            {
                proof {
                    assert(middle[k as int] == dispatch.auxiliary_input_activations@[k as int]@);
                    assert(slots[k + 1] == middle[k as int]);
                    if p(slots[k + 1]) {
                        sequence::lemma_find_first_at(slots, p, k + 1);
                    }
                }
                match check_activation(&dispatch.auxiliary_input_activations[k], indices) {
                    Err(error) => {
                        return Err(error);
                    },
                    Ok(()) => {},
                }
                k += 1;
            }
            proof {
                assert(slots[k + 1] == dispatch@.output_activation);
                if p(slots[k + 1]) {
                    sequence::lemma_find_first_at(slots, p, k + 1);
                }
            }
            match check_activation(&dispatch.output_activation, indices) {
                Err(error) => {
                    return Err(error);
                },
                Ok(()) => {},
            }
            proof {
                sequence::lemma_find_first_none(slots, p);
            }
        }
        i += 1;
    }
    assert(all.take(all.len() as int) =~= all);
    Ok(())
}

proof fn lemma_first_unplaced_stays(
    all: Seq<VulkanDistributedDispatchPlanView>,
    device_id: Seq<char>,
    indices: Map<VulkanComponentBatchSignalKeyView, usize>,
    i: int,
)
    requires
        0 <= i <= all.len(),
        first_unplaced(all.take(i), device_id, indices) is Some,
    ensures
        first_unplaced(all, device_id, indices) == first_unplaced(
            all.take(i),
            device_id,
            indices,
        ),
    decreases all.len() - i,
{
    if i < all.len() {
        assert(all.take(i + 1).drop_last() =~= all.take(i));
        lemma_first_unplaced_stays(all, device_id, indices, i + 1);
    } else {
        assert(all.take(i) =~= all);
    }
}

// ---------------------------------------------------------------------------
// The signal buffers
// ---------------------------------------------------------------------------

/// Whether a device that shares a buffer is not bound.
pub open spec fn is_unbound_peer(directory: VulkanDeviceDirectoryView, owner: Seq<char>) -> spec_fn(
    Seq<char>,
) -> bool {
    |device_id: Seq<char>| device_id != owner && !directory.knows(device_id)
}

/// The error where a buffer cannot be shared.
pub open spec fn sharing_error(
    buffer_index: usize,
    owner: Seq<char>,
    devices: Set<Seq<char>>,
    host_visible: bool,
    directory: VulkanDeviceDirectoryView,
) -> Option<VulkanResidentInProcessPlacedRuntimeErrorView> {
    let unbound = sequence::find_first(
        ordered::sorted_elements::<String>(devices),
        is_unbound_peer(directory, owner),
    );
    if !devices.contains(owner) {
        Some(
            input_transducer::refused(
                "distributed component batch buffer "@ + text::decimal(buffer_index as nat)
                    + " omits owner "@ + text::quoted(owner),
            ),
        )
    } else if unbound is Some {
        Some(
            VulkanResidentInProcessPlacedRuntimeErrorView::MissingBoundDevice {
                device_id: unbound->Some_0,
            },
        )
    } else if !directory.knows(owner) {
        Some(
            VulkanResidentInProcessPlacedRuntimeErrorView::MissingBoundDevice { device_id: owner },
        )
    } else if host_visible {
        Some(
            input_transducer::refused(
                "host-visible component batch edge buffer is unexpectedly shared"@,
            ),
        )
    } else {
        None
    }
}

/// The imports of a shared buffer.
pub open spec fn imports(devices: Set<Seq<char>>, bytes: usize, buffer_index: usize) -> Map<
    Seq<char>,
    VulkanResidentBufferView,
> {
    Map::new(
        |device_id: Seq<char>| devices.contains(device_id),
        |device_id: Seq<char>| device::imported_buffer(
            VulkanResidentBufferName::BatchSignal(buffer_index),
            device_id,
            bytes,
            VulkanHostAllocationId::BatchSignal(buffer_index),
        ),
    )
}

/// The buffer of a plan: shared by the devices that a distributed launch reads or writes it on,
/// mapped where it crosses devices, and in device memory otherwise.
pub open spec fn signal_buffer(
    buffer_index: usize,
    plan: VulkanComponentBatchSignalBufferPlanView,
    lane_capacity: usize,
    owner: Seq<char>,
    sharing: Option<Set<Seq<char>>>,
    directory: VulkanDeviceDirectoryView,
) -> Result<VulkanComponentBatchSignalBufferView, VulkanResidentInProcessPlacedRuntimeErrorView> {
    let bytes = plan.frame_byte_capacity * lane_capacity;
    if bytes > usize::MAX {
        Err(input_transducer::refused("component batch signal capacity overflowed"@))
    } else {
        match sharing {
            Some(devices) => match sharing_error(
                buffer_index,
                owner,
                devices,
                plan.host_visible,
                directory,
            ) {
                Some(error) => Err(error),
                None => Ok(
                    VulkanComponentBatchSignalBufferView {
                        frame_byte_capacity: plan.frame_byte_capacity,
                        buffer: device::imported_buffer(
                            VulkanResidentBufferName::BatchSignal(buffer_index),
                            owner,
                            bytes as usize,
                            VulkanHostAllocationId::BatchSignal(buffer_index),
                        ),
                        shared_device_buffers: imports(devices, bytes as usize, buffer_index),
                    },
                ),
            },
            None => Ok(
                VulkanComponentBatchSignalBufferView {
                    frame_byte_capacity: plan.frame_byte_capacity,
                    buffer: if plan.host_visible {
                        device::mapped_buffer(VulkanResidentBufferName::BatchSignal(buffer_index), owner, bytes as usize)
                    } else {
                        device::device_buffer(VulkanResidentBufferName::BatchSignal(buffer_index), owner, bytes as usize)
                    },
                    shared_device_buffers: Map::empty(),
                },
            ),
        }
    }
}

/// The first `n` signal buffers.
pub open spec fn signal_buffers(
    plans: Seq<VulkanComponentBatchSignalBufferPlanView>,
    lane_capacity: usize,
    owner: Seq<char>,
    dispatches: Seq<VulkanDistributedDispatchPlanView>,
    indices: Map<VulkanComponentBatchSignalKeyView, usize>,
    directory: VulkanDeviceDirectoryView,
    n: nat,
) -> Result<
    Seq<VulkanComponentBatchSignalBufferView>,
    VulkanResidentInProcessPlacedRuntimeErrorView,
>
    decreases n,
{
    if n == 0 {
        Ok(Seq::empty())
    } else {
        match signal_buffers(
            plans,
            lane_capacity,
            owner,
            dispatches,
            indices,
            directory,
            (n - 1) as nat,
        ) {
            Err(error) => Err(error),
            Ok(done) => match signal_buffer(
                (n - 1) as usize,
                plans[n - 1],
                lane_capacity,
                owner,
                sharing_devices(dispatches, owner, indices, (n - 1) as usize),
                directory,
            ) {
                Err(error) => Err(error),
                Ok(buffer) => Ok(done.push(buffer)),
            },
        }
    }
}

proof fn lemma_signal_buffers_error(
    plans: Seq<VulkanComponentBatchSignalBufferPlanView>,
    lane_capacity: usize,
    owner: Seq<char>,
    dispatches: Seq<VulkanDistributedDispatchPlanView>,
    indices: Map<VulkanComponentBatchSignalKeyView, usize>,
    directory: VulkanDeviceDirectoryView,
    i: nat,
    n: nat,
)
    requires
        i <= n,
        signal_buffers(plans, lane_capacity, owner, dispatches, indices, directory, i) is Err,
    ensures
        signal_buffers(plans, lane_capacity, owner, dispatches, indices, directory, n)
            == signal_buffers(plans, lane_capacity, owner, dispatches, indices, directory, i),
    decreases n - i,
{
    if i < n {
        lemma_signal_buffers_error(
            plans,
            lane_capacity,
            owner,
            dispatches,
            indices,
            directory,
            i + 1,
            n,
        );
    }
}

/// Refuses a buffer that cannot be shared.
#[verifier::loop_isolation(false)]
fn check_sharing(
    buffer_index: usize,
    owner: &str,
    devices: &OrderedSet<String>,
    host_visible: bool,
    directory: &VulkanDeviceDirectory,
) -> (r: Result<(), VulkanResidentInProcessPlacedRuntimeError>)
    requires
        devices.sorted(),
    ensures
        sequence::outcome(r) == (match sharing_error(
            buffer_index,
            owner@,
            devices@,
            host_visible,
            directory@,
        ) {
            Some(error) => Err::<(), VulkanResidentInProcessPlacedRuntimeErrorView>(error),
            None => Ok(()),
        }),
{
    let ghost ids = devices.elements.deep_view();
    let ghost p = is_unbound_peer(directory@, owner@);
    proof {
        ordered::lemma_sorted_elements::<String>(ids);
    }
    let owner_text: String = owner.to_owned();
    if !devices.contains(&owner_text) {
        return Err(
            VulkanResidentInProcessPlacedRuntimeError::BackendLoop(
                VulkanError(
                    Message::new("distributed component batch buffer ").number(buffer_index).text(
                        " omits owner ",
                    ).quoted(owner).done(),
                ),
            ),
        );
    }
    let mut i: usize = 0;
    while i < devices.elements.len()
        invariant
            i <= devices.elements.len(),
            forall|j: int| 0 <= j < i ==> !p(#[trigger] ids[j]),
        decreases devices.elements.len() - i,
    {
        let device_id = &devices.elements[i];
        assert(ids[i as int] == device_id@);
        if !text::same(device_id.as_str(), owner) {
            match directory.resolve(device_id.as_str()) {
                Ok(_) => {},
                Err(_) => {
                    proof {
                        sequence::lemma_find_first_at(ids, p, i as int);
                    }
                    return Err(
                        VulkanResidentInProcessPlacedRuntimeError::MissingBoundDevice {
                            device_id: device_id.clone(),
                        },
                    );
                },
            }
        }
        i += 1;
    }
    proof {
        sequence::lemma_find_first_none(ids, p);
    }
    match directory.resolve(owner) {
        Ok(_) => {},
        Err(_) => {
            return Err(
                VulkanResidentInProcessPlacedRuntimeError::MissingBoundDevice {
                    device_id: owner_text,
                },
            );
        },
    }
    if host_visible {
        return Err(
            input_transducer::refusal(
                "host-visible component batch edge buffer is unexpectedly shared",
            ),
        );
    }
    Ok(())
}

/// The imports of a shared buffer.
#[verifier::loop_isolation(false)]
fn import_buffers(devices: &OrderedSet<String>, bytes: usize, buffer_index: usize) -> (r:
    OrderedMap<String, VulkanResidentBuffer>)
    ensures
        r@ == imports(devices@, bytes, buffer_index),
{
    let ghost ids = devices.elements.deep_view();
    let mut buffers: OrderedMap<String, VulkanResidentBuffer> = OrderedMap::new();
    let mut i: usize = 0;
    assert(ids.take(0).to_set() =~= Set::empty());
    assert(buffers@ =~= imports(ids.take(0).to_set(), bytes, buffer_index));
    while i < devices.elements.len()
        invariant
            i <= devices.elements.len(),
            buffers@ == imports(ids.take(i as int).to_set(), bytes, buffer_index),
        decreases devices.elements.len() - i,
    {
        let device_id = &devices.elements[i];
        assert(ids[i as int] == device_id@);
        buffers.insert(
            device_id.clone(),
            VulkanResidentBuffer::imported(
                VulkanResidentBufferName::BatchSignal(buffer_index),
                device_id.as_str(),
                bytes,
                VulkanHostAllocationId::BatchSignal(buffer_index),
            ),
        );
        proof {
            ordered::lemma_to_set_step(ids, i as int);
            assert(buffers@ =~= imports(ids.take(i + 1).to_set(), bytes, buffer_index));
        }
        i += 1;
    }
    assert(ids.take(ids.len() as int) =~= ids);
    buffers
}

/// The buffer of a plan.
fn make_signal_buffer(
    buffer_index: usize,
    plan: &VulkanComponentBatchSignalBufferPlan,
    lane_capacity: usize,
    owner: &str,
    sharing: Option<OrderedSet<String>>,
    directory: &VulkanDeviceDirectory,
) -> (r: Result<VulkanComponentBatchSignalBuffer, VulkanResidentInProcessPlacedRuntimeError>)
    requires
        sharing matches Some(devices) ==> devices.sorted(),
    ensures
        sequence::outcome(r) == signal_buffer(
            buffer_index,
            plan@,
            lane_capacity,
            owner@,
            sharing.deep_view(),
            directory@,
        ),
{
    let bytes: usize = match plan.frame_byte_capacity.checked_mul(lane_capacity) {
        None => {
            return Err(
                input_transducer::refusal("component batch signal capacity overflowed"),
            );
        },
        Some(bytes) => bytes,
    };
    match sharing {
        Some(devices) => {
            match check_sharing(buffer_index, owner, &devices, plan.host_visible, directory) {
                Err(error) => {
                    return Err(error);
                },
                Ok(()) => {},
            }
            Ok(
                VulkanComponentBatchSignalBuffer {
                    frame_byte_capacity: plan.frame_byte_capacity,
                    buffer: VulkanResidentBuffer::imported(
                        VulkanResidentBufferName::BatchSignal(buffer_index),
                        owner,
                        bytes,
                        VulkanHostAllocationId::BatchSignal(buffer_index),
                    ),
                    shared_device_buffers: import_buffers(&devices, bytes, buffer_index),
                },
            )
        },
        None => {
            let buffer: VulkanResidentBuffer = if plan.host_visible {
                VulkanResidentBuffer::persistently_mapped(VulkanResidentBufferName::BatchSignal(buffer_index), owner, bytes)
            } else {
                VulkanResidentBuffer::in_device_memory(VulkanResidentBufferName::BatchSignal(buffer_index), owner, bytes)
            };
            Ok(
                VulkanComponentBatchSignalBuffer {
                    frame_byte_capacity: plan.frame_byte_capacity,
                    buffer,
                    shared_device_buffers: OrderedMap::new(),
                },
            )
        },
    }
}

/// The signal buffers of a device.
#[verifier::loop_isolation(false)]
pub(crate) fn make_signal_buffers(
    plans: &Vec<VulkanComponentBatchSignalBufferPlan>,
    lane_capacity: usize,
    owner: &str,
    dispatches: &Vec<VulkanDistributedDispatchPlan>,
    indices: &OrderedMap<VulkanComponentBatchSignalKey, usize>,
    directory: &VulkanDeviceDirectory,
) -> (r: Result<Vec<VulkanComponentBatchSignalBuffer>, VulkanResidentInProcessPlacedRuntimeError>)
    ensures
        sequence::outcome(r) == signal_buffers(
            plans.deep_view(),
            lane_capacity,
            owner@,
            dispatches.deep_view(),
            indices@,
            directory@,
            plans@.len(),
        ),
{
    let ghost all = plans.deep_view();
    let mut buffers: Vec<VulkanComponentBatchSignalBuffer> = Vec::new();
    let mut i: usize = 0;
    assert(buffers.deep_view() =~= Seq::empty());
    while i < plans.len()
        invariant
            i <= plans.len(),
            signal_buffers(
                all,
                lane_capacity,
                owner@,
                dispatches.deep_view(),
                indices@,
                directory@,
                i as nat,
            ) is Ok,
            signal_buffers(
                all,
                lane_capacity,
                owner@,
                dispatches.deep_view(),
                indices@,
                directory@,
                i as nat,
            )->Ok_0 == buffers.deep_view(),
        decreases plans.len() - i,
    {
        proof {
            assert(all[i as int] == plans@[i as int]@);
            if signal_buffers(
                all,
                lane_capacity,
                owner@,
                dispatches.deep_view(),
                indices@,
                directory@,
                (i + 1) as nat,
            ) is Err {
                lemma_signal_buffers_error(
                    all,
                    lane_capacity,
                    owner@,
                    dispatches.deep_view(),
                    indices@,
                    directory@,
                    (i + 1) as nat,
                    plans@.len(),
                );
            }
        }
        let sharing: Option<OrderedSet<String>> = devices_that_share(
            dispatches,
            owner,
            indices,
            i,
        );
        match make_signal_buffer(i, &plans[i], lane_capacity, owner, sharing, directory) {
            Err(error) => {
                return Err(error);
            },
            Ok(buffer) => {
                let ghost before = buffers.deep_view();
                let ghost added = buffer@;
                buffers.push(buffer);
                assert(buffers.deep_view() =~= before.push(added));
            },
        }
        i += 1;
    }
    Ok(buffers)
}

/// Whether some distributed dispatch of the owner has an activation in a buffer and a shard on a
/// device.
pub open spec fn shares_buffer_with(
    dispatches: Seq<VulkanDistributedDispatchPlanView>,
    owner: Seq<char>,
    indices: Map<VulkanComponentBatchSignalKeyView, usize>,
    buffer_index: usize,
    device_id: Seq<char>,
) -> bool {
    exists|d: int, s: int|
        0 <= d < dispatches.len() && 0 <= s < dispatches[d].shards.len() && {
            &&& dispatches[d].owner_device_id == owner
            &&& sequence::any(activations_of(dispatches[d]), lives_in(indices, buffer_index))
            &&& (#[trigger] dispatches[d].shards[s]).device_id == device_id
        }
}

proof fn lemma_shard_devices(
    shards: Seq<VulkanDistributedDispatchShardView>,
    device_id: Seq<char>,
)
    ensures
        shards.map_values(shard_device()).to_set().contains(device_id) <==> exists|s: int|
            0 <= s < shards.len() && (#[trigger] shards[s]).device_id == device_id,
{
    let ids = shards.map_values(shard_device());
    if ids.to_set().contains(device_id) {
        let s = choose|s: int| 0 <= s < ids.len() && ids[s] == device_id;
        assert(shards[s].device_id == device_id);
    }
    if exists|s: int| 0 <= s < shards.len() && (#[trigger] shards[s]).device_id == device_id {
        let s = choose|s: int| 0 <= s < shards.len() && (#[trigger] shards[s]).device_id
            == device_id;
        assert(ids[s] == device_id);
    }
}

/// A buffer is shared with the devices of the shards that work on it: those of the owner's distributed
/// dispatches that have an activation in it.
pub proof fn buffers_are_shared_with_their_shards(
    dispatches: Seq<VulkanDistributedDispatchPlanView>,
    owner: Seq<char>,
    indices: Map<VulkanComponentBatchSignalKeyView, usize>,
    buffer_index: usize,
    device_id: Seq<char>,
)
    ensures
        (sharing_devices(dispatches, owner, indices, buffer_index) is Some && sharing_devices(
            dispatches,
            owner,
            indices,
            buffer_index,
        )->Some_0.contains(device_id)) <==> shares_buffer_with(
            dispatches,
            owner,
            indices,
            buffer_index,
            device_id,
        ),
    decreases dispatches.len(),
{
    if dispatches.len() > 0 {
        let front = dispatches.drop_last();
        let last = dispatches.last();
        buffers_are_shared_with_their_shards(front, owner, indices, buffer_index, device_id);
        lemma_shard_devices(last.shards, device_id);
        if shares_buffer_with(front, owner, indices, buffer_index, device_id) {
            let (d, s) = choose|d: int, s: int|
                0 <= d < front.len() && 0 <= s < front[d].shards.len() && {
                    &&& front[d].owner_device_id == owner
                    &&& sequence::any(activations_of(front[d]), lives_in(indices, buffer_index))
                    &&& (#[trigger] front[d].shards[s]).device_id == device_id
                };
            assert(dispatches[d].shards[s].device_id == device_id);
        }
        if shares_buffer_with(dispatches, owner, indices, buffer_index, device_id) {
            let (d, s) = choose|d: int, s: int|
                0 <= d < dispatches.len() && 0 <= s < dispatches[d].shards.len() && {
                    &&& dispatches[d].owner_device_id == owner
                    &&& sequence::any(
                        activations_of(dispatches[d]),
                        lives_in(indices, buffer_index),
                    )
                    &&& (#[trigger] dispatches[d].shards[s]).device_id == device_id
                };
            if d < front.len() {
                assert(front[d].shards[s].device_id == device_id);
            } else {
                assert(last.shards[s].device_id == device_id);
            }
        }
        if last.owner_device_id == owner && sequence::any(
            activations_of(last),
            lives_in(indices, buffer_index),
        ) && last.shards.map_values(shard_device()).to_set().contains(device_id) {
            let s = choose|s: int| 0 <= s < last.shards.len() && (
            #[trigger] last.shards[s]).device_id == device_id;
            assert(dispatches[dispatches.len() - 1].shards[s].device_id == device_id);
        }
    }
}

/// The activations of a distributed dispatch are its input, its auxiliary inputs and its output.
pub proof fn activations_are_inputs_and_output(dispatch: VulkanDistributedDispatchPlanView, i: int)
    ensures
        ({
            let all = activations_of(dispatch);
            let auxiliary = dispatch.auxiliary_input_activations;
            &&& all.len() == auxiliary.len() + 2
            &&& all[0] == dispatch.input_activation
            &&& 0 <= i < auxiliary.len() ==> all[1 + i] == auxiliary[i]
            &&& all[all.len() - 1] == dispatch.output_activation
        }),
{
}

proof fn lemma_signal_buffers(
    plans: Seq<VulkanComponentBatchSignalBufferPlanView>,
    lanes: usize,
    owner: Seq<char>,
    dispatches: Seq<VulkanDistributedDispatchPlanView>,
    indices: Map<VulkanComponentBatchSignalKeyView, usize>,
    directory: VulkanDeviceDirectoryView,
    n: nat,
    i: int,
)
    requires
        signal_buffers(plans, lanes, owner, dispatches, indices, directory, n) is Ok,
    ensures
        ({
            let buffers = signal_buffers(
                plans,
                lanes,
                owner,
                dispatches,
                indices,
                directory,
                n,
            )->Ok_0;
            &&& buffers.len() == n
            &&& 0 <= i < n ==> signal_buffer(
                i as usize,
                plans[i],
                lanes,
                owner,
                sharing_devices(dispatches, owner, indices, i as usize),
                directory,
            ) == Ok::<
                VulkanComponentBatchSignalBufferView,
                VulkanResidentInProcessPlacedRuntimeErrorView,
            >(buffers[i])
        }),
    decreases n,
{
    if n > 0 {
        lemma_signal_buffers(
            plans,
            lanes,
            owner,
            dispatches,
            indices,
            directory,
            (n - 1) as nat,
            i,
        );
    }
}

/// Every planned buffer of a batch holds a frame for every lane, on the owner, apart from the other
/// buffers. Where shards work on it, each of their devices has it too, backed by the same host
/// memory; no other device has it. Where none does, the host sees it as it was planned.
pub proof fn batch_buffers_hold_every_lane(
    plans: Seq<VulkanComponentBatchSignalBufferPlanView>,
    lanes: usize,
    owner: Seq<char>,
    dispatches: Seq<VulkanDistributedDispatchPlanView>,
    indices: Map<VulkanComponentBatchSignalKeyView, usize>,
    directory: VulkanDeviceDirectoryView,
    i: int,
    j: int,
    device_id: Seq<char>,
)
    requires
        plans.len() <= usize::MAX,
        signal_buffers(plans, lanes, owner, dispatches, indices, directory, plans.len()) is Ok,
        0 <= i < plans.len(),
        0 <= j < plans.len(),
    ensures
        ({
            let buffers = signal_buffers(
                plans,
                lanes,
                owner,
                dispatches,
                indices,
                directory,
                plans.len(),
            )->Ok_0;
            let made = buffers[i];
            let shared = made.shared_device_buffers;
            &&& buffers.len() == plans.len()
            &&& made.frame_byte_capacity == plans[i].frame_byte_capacity
            &&& made.buffer.byte_capacity == plans[i].frame_byte_capacity * lanes
            &&& made.buffer.device_id == owner
            &&& i != j ==> made.buffer.name != buffers[j].buffer.name
            &&& shared.contains_key(device_id) <==> shares_buffer_with(
                dispatches,
                owner,
                indices,
                i as usize,
                device_id,
            )
            &&& shared.contains_key(device_id) ==> {
                &&& shared[device_id].device_id == device_id
                &&& shared[device_id].byte_capacity == made.buffer.byte_capacity
                &&& device::shares_host_allocation(made.buffer, shared[device_id])
                &&& i != j && buffers[j].shared_device_buffers.contains_key(device_id)
                    ==> !device::shares_host_allocation(made.buffer, buffers[j].buffer)
            }
            &&& sharing_devices(dispatches, owner, indices, i as usize) is None ==> {
                &&& made.buffer.host_allocation is None
                &&& made.buffer.host_visible == plans[i].host_visible
                &&& made.buffer.persistently_mapped == plans[i].host_visible
            }
        }),
{
    lemma_signal_buffers(
        plans,
        lanes,
        owner,
        dispatches,
        indices,
        directory,
        plans.len(),
        i,
    );
    lemma_signal_buffers(
        plans,
        lanes,
        owner,
        dispatches,
        indices,
        directory,
        plans.len(),
        j,
    );
    buffers_are_shared_with_their_shards(dispatches, owner, indices, i as usize, device_id);
    buffers_are_shared_with_their_shards(dispatches, owner, indices, j as usize, device_id);
    assert(0 <= plans[i].frame_byte_capacity * lanes) by (nonlinear_arith);
    assert(0 <= plans[j].frame_byte_capacity * lanes) by (nonlinear_arith);
}

} // verus!
