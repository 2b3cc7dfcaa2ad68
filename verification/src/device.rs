//! Plain-value descriptions of compute devices and of what lives on them.
//!
//! The planning and mounting logic works on these values. Realising them, by creating the buffer
//! or the dispatch that a value describes, is left to the host program.

use crate::arithmetic;
use crate::sequence;
use crate::text;
use crate::text::Message;
use vstd::prelude::*;

verus! {

/// What a device call failed with.
#[derive(Debug, PartialEq, Eq)]
pub struct VulkanError(pub String);

impl DeepView for VulkanError {
    type V = Seq<char>;

    open spec fn deep_view(&self) -> Seq<char> {
        self.0.deep_view()
    }
}

impl View for VulkanError {
    type V = Seq<char>;

    open spec fn view(&self) -> Seq<char> {
        self.deep_view()
    }
}

impl Clone for VulkanError {
    fn clone(&self) -> (r: Self)
        ensures
            r@ == self@,
    {
        VulkanError(self.0.clone())
    }
}

impl VulkanError {
    /// The message.
    pub fn to_string(&self) -> (r: String)
        ensures
            r@ == self@,
    {
        self.0.clone()
    }
}

/// A mounted logical device.
#[derive(Debug, PartialEq, Eq)]
pub struct VulkanComputeDevice {
    pub device_id: String,
    pub device_name: String,
    pub supports_opaque_fd_timeline_semaphores: bool,
}

#[verifier::ext_equal]
pub struct VulkanComputeDeviceView {
    pub device_id: Seq<char>,
    pub device_name: Seq<char>,
    pub supports_opaque_fd_timeline_semaphores: bool,
}

impl DeepView for VulkanComputeDevice {
    type V = VulkanComputeDeviceView;

    open spec fn deep_view(&self) -> VulkanComputeDeviceView {
        VulkanComputeDeviceView {
            device_id: self.device_id.deep_view(),
            device_name: self.device_name.deep_view(),
            supports_opaque_fd_timeline_semaphores: self.supports_opaque_fd_timeline_semaphores,
        }
    }
}

impl View for VulkanComputeDevice {
    type V = VulkanComputeDeviceView;

    open spec fn view(&self) -> VulkanComputeDeviceView {
        self.deep_view()
    }
}

impl Clone for VulkanComputeDevice {
    fn clone(&self) -> (r: Self)
        ensures
            r@ == self@,
    {
        VulkanComputeDevice {
            device_id: self.device_id.clone(),
            device_name: self.device_name.clone(),
            supports_opaque_fd_timeline_semaphores: self.supports_opaque_fd_timeline_semaphores,
        }
    }
}

/// The devices that are mounted, what they are looked up as, and what they refuse to make.
#[derive(Debug, PartialEq, Eq)]
pub struct VulkanDeviceDirectory {
    pub devices: Vec<VulkanComputeDevice>,
    /// What a device that is not mounted is called.
    pub noun: String,
    /// What the devices refuse to make.
    pub refusals: Vec<VulkanDeviceRefusal>,
}

#[verifier::ext_equal]
pub struct VulkanDeviceDirectoryView {
    pub devices: Seq<VulkanComputeDeviceView>,
    pub noun: Seq<char>,
    pub refusals: Seq<VulkanDeviceRefusalView>,
}

impl DeepView for VulkanDeviceDirectory {
    type V = VulkanDeviceDirectoryView;

    open spec fn deep_view(&self) -> VulkanDeviceDirectoryView {
        VulkanDeviceDirectoryView {
            devices: self.devices.deep_view(),
            noun: self.noun.deep_view(),
            refusals: self.refusals.deep_view(),
        }
    }
}

impl View for VulkanDeviceDirectory {
    type V = VulkanDeviceDirectoryView;

    open spec fn view(&self) -> VulkanDeviceDirectoryView {
        self.deep_view()
    }
}

impl Clone for VulkanDeviceDirectory {
    fn clone(&self) -> (r: Self)
        ensures
            r@ == self@,
    {
        VulkanDeviceDirectory {
            devices: self.devices.clone(),
            noun: self.noun.clone(),
            refusals: self.refusals.clone(),
        }
    }
}

/// What devices are asked to make for the launches that they share.
#[derive(Clone, Copy, Debug, PartialEq, Eq, Structural)]
pub enum VulkanDeviceObject {
    /// The memory of a shared activation slot.
    SharedActivation(usize),
    /// The import of that memory on one of the devices that share it.
    ActivationImport { allocation: usize, participant: usize },
    /// The buffer of a range of a parameter.
    DistributedParameter(usize),
    /// The kernel of a launch on one shard of its group.
    DistributedDispatch { group_index: usize, shard_index: usize, dispatch_index: usize },
    /// The sequence of a shard of a group.
    DistributedSequence { group_index: usize, shard_index: usize },
    /// The commands of that sequence.
    SequenceRecording { group_index: usize, shard_index: usize },
    /// The semaphores between the owner of a group and a helper.
    HelperSemaphores { group_index: usize, helper_index: usize },
}

impl DeepView for VulkanDeviceObject {
    type V = VulkanDeviceObject;

    open spec fn deep_view(&self) -> VulkanDeviceObject {
        *self
    }
}

/// Something that a device refuses to make, and why.
#[derive(Debug, PartialEq, Eq)]
pub struct VulkanDeviceRefusal {
    pub object: VulkanDeviceObject,
    pub error: VulkanError,
}

#[verifier::ext_equal]
pub struct VulkanDeviceRefusalView {
    pub object: VulkanDeviceObject,
    pub error: Seq<char>,
}

impl DeepView for VulkanDeviceRefusal {
    type V = VulkanDeviceRefusalView;

    open spec fn deep_view(&self) -> VulkanDeviceRefusalView {
        VulkanDeviceRefusalView {
            object: self.object,
            error: self.error.deep_view(),
        }
    }
}

impl View for VulkanDeviceRefusal {
    type V = VulkanDeviceRefusalView;

    open spec fn view(&self) -> VulkanDeviceRefusalView {
        self.deep_view()
    }
}

impl Clone for VulkanDeviceRefusal {
    fn clone(&self) -> (r: Self)
        ensures
            r@ == self@,
    {
        VulkanDeviceRefusal {
            object: self.object,
            error: self.error.clone(),
        }
    }
}

/// Whether a refusal is about an object.
pub open spec fn refuses(object: VulkanDeviceObject) -> spec_fn(VulkanDeviceRefusalView) -> bool {
    |refusal: VulkanDeviceRefusalView| refusal.object == object
}

impl VulkanDeviceDirectoryView {
    /// Why a device refuses to make an object, where one does.
    pub open spec fn refused(self, object: VulkanDeviceObject) -> Option<Seq<char>> {
        match sequence::find_first(self.refusals, refuses(object)) {
            Some(refusal) => Some(refusal.error),
            None => None,
        }
    }

    /// What is said of an identifier that no mounted device has.
    pub open spec fn refusal(self, device_id: Seq<char>) -> Seq<char> {
        self.noun + " "@ + text::quoted(device_id) + " is not mounted"@
    }

    /// The device with this identifier.
    pub open spec fn find(self, device_id: Seq<char>) -> Option<VulkanComputeDeviceView> {
        sequence::find_first(
            self.devices,
            |device: VulkanComputeDeviceView| device.device_id == device_id,
        )
    }

    /// Whether a device with this identifier is mounted.
    pub open spec fn knows(self, device_id: Seq<char>) -> bool {
        self.find(device_id) is Some
    }
}

/// The devices on which the shards of distributed launches are waited for.
pub open spec fn shard_directory(devices: Seq<VulkanComputeDeviceView>) -> VulkanDeviceDirectoryView {
    VulkanDeviceDirectoryView {
        devices,
        noun: "distributed shard device"@,
        refusals: Seq::empty(),
    }
}

impl VulkanDeviceDirectory {
    /// The devices on which the shards of distributed launches are waited for.
    pub fn of_shards(devices: &Vec<VulkanComputeDevice>) -> (r: Self)
        ensures
            r@ == shard_directory(devices.deep_view()),
    {
        let copied: Vec<VulkanComputeDevice> = devices.clone();
        assert(copied.deep_view() =~= devices.deep_view());
        let refusals: Vec<VulkanDeviceRefusal> = Vec::new();
        assert(refusals.deep_view() =~= Seq::empty());
        VulkanDeviceDirectory {
            devices: copied,
            noun: "distributed shard device".to_owned(),
            refusals,
        }
    }

    /// Why a device refuses to make an object, where one does.
    #[verifier::loop_isolation(false)]
    pub fn refused(&self, object: VulkanDeviceObject) -> (r: Option<&VulkanError>)
        ensures
            r.deep_view() == self@.refused(object),
    {
        let ghost all = self.refusals.deep_view();
        let ghost p = refuses(object);
        let mut i: usize = 0;
        while i < self.refusals.len()
            invariant
                i <= self.refusals.len(),
                forall|j: int| 0 <= j < i ==> !p(#[trigger] all[j]),
            decreases self.refusals.len() - i,
        {
            assert(all[i as int] == self.refusals@[i as int]@);
            if self.refusals[i].object == object {
                proof {
                    sequence::lemma_find_first_at(all, p, i as int);
                }
                return Some(&self.refusals[i].error);
            }
            i += 1;
        }
        proof {
            sequence::lemma_find_first_none(all, p);
        }
        None
    }

    /// The device with this identifier, or what is said where there is none.
    pub fn resolve(&self, device_id: &str) -> (r: Result<&VulkanComputeDevice, String>)
        ensures
            sequence::outcome(r) == (match self@.find(device_id@) {
                Some(device) => Ok::<VulkanComputeDeviceView, Seq<char>>(device),
                None => Err(self@.refusal(device_id@)),
            }),
    {
        let ghost all = self.devices.deep_view();
        let ghost p = |device: VulkanComputeDeviceView| device.device_id == device_id@;
        let mut i: usize = 0;
        while i < self.devices.len()
            invariant
                i <= self.devices.len(),
                all == self.devices.deep_view(),
                p == (|device: VulkanComputeDeviceView| device.device_id == device_id@),
                forall|j: int| 0 <= j < i ==> !p(#[trigger] all[j]),
            decreases self.devices.len() - i,
        {
            if text::same(self.devices[i].device_id.as_str(), device_id) {
                assert(p(all[i as int]));
                proof {
                    sequence::lemma_find_first_at(all, p, i as int);
                }
                return Ok(&self.devices[i]);
            }
            assert(!p(all[i as int]));
            i += 1;
        }
        proof {
            sequence::lemma_find_first_none(all, p);
        }
        Err(
            Message::new(self.noun.as_str()).text(" ").quoted(device_id).text(
                " is not mounted",
            ).done(),
        )
    }
}

/// What a buffer holds. Numbered buffers of one kind are told apart by their number.
#[derive(Clone, Copy, Debug, PartialEq, Eq, Structural)]
pub enum VulkanResidentBufferName {
    PermanentParameter(usize),
    StreamState(usize),
    ActivationSlot(usize),
    ModelInput(usize),
    ModelOutput(usize),
    StreamControl,
    /// Where one lane of a batch stands.
    LaneControl(usize),
    /// A signal that stays on its device.
    LocalSignal(usize),
    /// A signal from another device.
    IncomingSignal(usize),
    /// A signal to another device.
    OutgoingSignal(usize),
    /// The frames of the signals of a batch that share a buffer.
    BatchSignal(usize),
    /// An activation slot that several devices share.
    SharedActivation(usize),
    /// A range of a parameter that several devices share out.
    DistributedParameter(usize),
    TokenIds,
    NormalizedFrame,
    Logits,
    BatchedNormalizedFrames,
    BatchedLogits,
}

impl DeepView for VulkanResidentBufferName {
    type V = VulkanResidentBufferName;

    open spec fn deep_view(&self) -> VulkanResidentBufferName {
        *self
    }
}

/// Host memory that buffers of several devices are backed by, by who allocated it.
#[derive(Clone, Copy, Debug, PartialEq, Eq, Structural)]
pub enum VulkanHostAllocationId {
    /// For a buffer of a batch.
    BatchSignal(usize),
    /// For an activation slot of a distributed plan.
    Activation(usize),
    /// By the host program.
    Host(usize),
}

impl DeepView for VulkanHostAllocationId {
    type V = VulkanHostAllocationId;

    open spec fn deep_view(&self) -> VulkanHostAllocationId {
        *self
    }
}

/// A buffer that is resident on a device. Its name tells it apart from the other buffers of the
/// stream, the batch or the plan that it belongs to.
#[derive(Debug, PartialEq, Eq)]
pub struct VulkanResidentBuffer {
    pub name: VulkanResidentBufferName,
    pub device_id: String,
    pub byte_capacity: usize,
    pub host_visible: bool,
    pub persistently_mapped: bool,
    /// The shared host allocation that backs the buffer, if one does.
    pub host_allocation: Option<VulkanHostAllocationId>,
}

#[verifier::ext_equal]
pub struct VulkanResidentBufferView {
    pub name: VulkanResidentBufferName,
    pub device_id: Seq<char>,
    pub byte_capacity: usize,
    pub host_visible: bool,
    pub persistently_mapped: bool,
    pub host_allocation: Option<VulkanHostAllocationId>,
}

impl DeepView for VulkanResidentBuffer {
    type V = VulkanResidentBufferView;

    open spec fn deep_view(&self) -> VulkanResidentBufferView {
        VulkanResidentBufferView {
            name: self.name,
            device_id: self.device_id.deep_view(),
            byte_capacity: self.byte_capacity,
            host_visible: self.host_visible,
            persistently_mapped: self.persistently_mapped,
            host_allocation: self.host_allocation,
        }
    }
}

impl View for VulkanResidentBuffer {
    type V = VulkanResidentBufferView;

    open spec fn view(&self) -> VulkanResidentBufferView {
        self.deep_view()
    }
}

impl Clone for VulkanResidentBuffer {
    fn clone(&self) -> (r: Self)
        ensures
            r@ == self@,
    {
        VulkanResidentBuffer {
            name: self.name,
            device_id: self.device_id.clone(),
            byte_capacity: self.byte_capacity,
            host_visible: self.host_visible,
            persistently_mapped: self.persistently_mapped,
            host_allocation: self.host_allocation.clone(),
        }
    }
}

/// A buffer in device memory.
pub open spec fn device_buffer(
    name: VulkanResidentBufferName,
    device_id: Seq<char>,
    bytes: usize,
) -> VulkanResidentBufferView {
    VulkanResidentBufferView {
        name,
        device_id,
        byte_capacity: bytes,
        host_visible: false,
        persistently_mapped: false,
        host_allocation: None,
    }
}

/// A persistently mapped buffer in host-visible memory.
pub open spec fn mapped_buffer(
    name: VulkanResidentBufferName,
    device_id: Seq<char>,
    bytes: usize,
) -> VulkanResidentBufferView {
    VulkanResidentBufferView {
        name,
        device_id,
        byte_capacity: bytes,
        host_visible: true,
        persistently_mapped: true,
        host_allocation: None,
    }
}

/// A buffer imported from a shared host allocation.
pub open spec fn imported_buffer(
    name: VulkanResidentBufferName,
    device_id: Seq<char>,
    bytes: usize,
    allocation: VulkanHostAllocationId,
) -> VulkanResidentBufferView {
    VulkanResidentBufferView {
        name,
        device_id,
        byte_capacity: bytes,
        host_visible: true,
        persistently_mapped: false,
        host_allocation: Some(allocation),
    }
}

impl VulkanResidentBuffer {
    /// A buffer in device memory.
    pub fn in_device_memory(
        name: VulkanResidentBufferName,
        device_id: &str,
        byte_capacity: usize,
    ) -> (r: Self)
        ensures
            r@ == device_buffer(name, device_id@, byte_capacity),
    {
        VulkanResidentBuffer {
            name,
            device_id: device_id.to_owned(),
            byte_capacity,
            host_visible: false,
            persistently_mapped: false,
            host_allocation: None,
        }
    }

    /// A persistently mapped buffer in host-visible memory.
    pub fn persistently_mapped(
        name: VulkanResidentBufferName,
        device_id: &str,
        byte_capacity: usize,
    ) -> (r: Self)
        ensures
            r@ == mapped_buffer(name, device_id@, byte_capacity),
    {
        VulkanResidentBuffer {
            name,
            device_id: device_id.to_owned(),
            byte_capacity,
            host_visible: true,
            persistently_mapped: true,
            host_allocation: None,
        }
    }

    /// A buffer imported from a shared host allocation.
    pub fn imported(
        name: VulkanResidentBufferName,
        device_id: &str,
        byte_capacity: usize,
        allocation: VulkanHostAllocationId,
    ) -> (r: Self)
        ensures
            r@ == imported_buffer(name, device_id@, byte_capacity, allocation),
    {
        VulkanResidentBuffer {
            name,
            device_id: device_id.to_owned(),
            byte_capacity,
            host_visible: true,
            persistently_mapped: false,
            host_allocation: Some(allocation),
        }
    }

    /// Whether both buffers are backed by one shared host allocation.
    pub fn shares_host_allocation_with(&self, other: &Self) -> (r: bool)
        ensures
            r == shares_host_allocation(self@, other@),
    {
        match (self.host_allocation, other.host_allocation) {
            (Some(a), Some(b)) => a == b,
            _ => false,
        }
    }
}

/// Whether both buffers are backed by one shared host allocation.
pub open spec fn shares_host_allocation(
    a: VulkanResidentBufferView,
    b: VulkanResidentBufferView,
) -> bool {
    a.host_allocation is Some && a.host_allocation == b.host_allocation
}

/// Host memory that several devices import.
#[derive(Debug, PartialEq, Eq)]
pub struct VulkanSharedHostAllocation {
    pub allocation_id: VulkanHostAllocationId,
    pub owner_device_id: String,
    pub peer_device_ids: Vec<String>,
    pub byte_capacity: usize,
}

#[verifier::ext_equal]
pub struct VulkanSharedHostAllocationView {
    pub allocation_id: VulkanHostAllocationId,
    pub owner_device_id: Seq<char>,
    pub peer_device_ids: Seq<Seq<char>>,
    pub byte_capacity: usize,
}

impl DeepView for VulkanSharedHostAllocation {
    type V = VulkanSharedHostAllocationView;

    open spec fn deep_view(&self) -> VulkanSharedHostAllocationView {
        VulkanSharedHostAllocationView {
            allocation_id: self.allocation_id,
            owner_device_id: self.owner_device_id.deep_view(),
            peer_device_ids: self.peer_device_ids.deep_view(),
            byte_capacity: self.byte_capacity,
        }
    }
}

impl View for VulkanSharedHostAllocation {
    type V = VulkanSharedHostAllocationView;

    open spec fn view(&self) -> VulkanSharedHostAllocationView {
        self.deep_view()
    }
}

impl Clone for VulkanSharedHostAllocation {
    fn clone(&self) -> (r: Self)
        ensures
            r@ == self@,
    {
        VulkanSharedHostAllocation {
            allocation_id: self.allocation_id,
            owner_device_id: self.owner_device_id.clone(),
            peer_device_ids: self.peer_device_ids.clone(),
            byte_capacity: self.byte_capacity,
        }
    }
}

/// How a kernel accesses a buffer.
#[derive(Clone, Copy, Debug, PartialEq, Eq, Structural)]
pub enum VulkanResidentKernelBufferAccess {
    Read,
    Write,
    ReadWrite,
}

impl DeepView for VulkanResidentKernelBufferAccess {
    type V = VulkanResidentKernelBufferAccess;

    open spec fn deep_view(&self) -> VulkanResidentKernelBufferAccess {
        *self
    }
}

/// A buffer range bound to a descriptor of a kernel.
#[derive(Debug, PartialEq, Eq)]
pub struct VulkanResidentKernelBufferBinding {
    pub binding: u32,
    pub buffer: VulkanResidentBuffer,
    pub byte_offset: usize,
    pub byte_len: usize,
    pub access: VulkanResidentKernelBufferAccess,
}

#[verifier::ext_equal]
pub struct VulkanResidentKernelBufferBindingView {
    pub binding: u32,
    pub buffer: VulkanResidentBufferView,
    pub byte_offset: usize,
    pub byte_len: usize,
    pub access: VulkanResidentKernelBufferAccess,
}

impl DeepView for VulkanResidentKernelBufferBinding {
    type V = VulkanResidentKernelBufferBindingView;

    open spec fn deep_view(&self) -> VulkanResidentKernelBufferBindingView {
        VulkanResidentKernelBufferBindingView {
            binding: self.binding,
            buffer: self.buffer.deep_view(),
            byte_offset: self.byte_offset,
            byte_len: self.byte_len,
            access: self.access,
        }
    }
}

impl View for VulkanResidentKernelBufferBinding {
    type V = VulkanResidentKernelBufferBindingView;

    open spec fn view(&self) -> VulkanResidentKernelBufferBindingView {
        self.deep_view()
    }
}

impl Clone for VulkanResidentKernelBufferBinding {
    fn clone(&self) -> (r: Self)
        ensures
            r@ == self@,
    {
        VulkanResidentKernelBufferBinding {
            binding: self.binding,
            buffer: self.buffer.clone(),
            byte_offset: self.byte_offset,
            byte_len: self.byte_len,
            access: self.access,
        }
    }
}

/// The first `bytes` bytes of a buffer, bound with an access.
pub open spec fn bound_buffer(
    binding: u32,
    buffer: VulkanResidentBufferView,
    bytes: usize,
    access: VulkanResidentKernelBufferAccess,
) -> VulkanResidentKernelBufferBindingView {
    VulkanResidentKernelBufferBindingView {
        binding,
        buffer,
        byte_offset: 0,
        byte_len: bytes,
        access,
    }
}

/// Whether a descriptor hands a kernel the bytes of a buffer from `start` to `end`, under a number
/// and with an access.
pub open spec fn hands(
    bound: VulkanResidentKernelBufferBindingView,
    number: int,
    buffer: VulkanResidentBufferView,
    start: int,
    end: int,
    access: VulkanResidentKernelBufferAccess,
) -> bool {
    &&& bound.binding == number
    &&& bound.buffer == buffer
    &&& bound.byte_offset == start
    &&& bound.byte_offset + bound.byte_len == end
    &&& bound.access == access
}

/// Whether a kernel writes through one of its descriptors only.
pub open spec fn writes_only(
    bindings: Seq<VulkanResidentKernelBufferBindingView>,
    written: int,
) -> bool {
    forall|k: int|
        0 <= k < bindings.len() ==> ((#[trigger] bindings[k]).access
            == VulkanResidentKernelBufferAccess::Read <==> k != written)
}

impl VulkanResidentKernelBufferBinding {
    /// The first `byte_len` bytes of a buffer, bound with an access.
    pub fn bind(
        binding: u32,
        buffer: &VulkanResidentBuffer,
        byte_len: usize,
        access: VulkanResidentKernelBufferAccess,
    ) -> (r: Self)
        ensures
            r@ == bound_buffer(binding, buffer@, byte_len, access),
    {
        VulkanResidentKernelBufferBinding {
            binding,
            buffer: buffer.clone(),
            byte_offset: 0,
            byte_len,
            access,
        }
    }
}

/// Three bindings in a row.
pub fn three_bindings(
    first: VulkanResidentKernelBufferBinding,
    second: VulkanResidentKernelBufferBinding,
    third: VulkanResidentKernelBufferBinding,
) -> (r: Vec<VulkanResidentKernelBufferBinding>)
    ensures
        r.deep_view() == seq![first@, second@, third@],
{
    let ghost expected = seq![first@, second@, third@];
    let r: Vec<VulkanResidentKernelBufferBinding> = vec![first, second, third];
    assert(r.deep_view() =~= expected);
    r
}

/// A copy from one persistently mapped buffer to another.
#[derive(Debug, PartialEq, Eq)]
pub struct VulkanResidentMappedBufferCopy {
    pub source: VulkanResidentBuffer,
    pub destination: VulkanResidentBuffer,
    pub byte_capacity: usize,
}

#[verifier::ext_equal]
pub struct VulkanResidentMappedBufferCopyView {
    pub source: VulkanResidentBufferView,
    pub destination: VulkanResidentBufferView,
    pub byte_capacity: usize,
}

impl DeepView for VulkanResidentMappedBufferCopy {
    type V = VulkanResidentMappedBufferCopyView;

    open spec fn deep_view(&self) -> VulkanResidentMappedBufferCopyView {
        VulkanResidentMappedBufferCopyView {
            source: self.source.deep_view(),
            destination: self.destination.deep_view(),
            byte_capacity: self.byte_capacity,
        }
    }
}

impl View for VulkanResidentMappedBufferCopy {
    type V = VulkanResidentMappedBufferCopyView;

    open spec fn view(&self) -> VulkanResidentMappedBufferCopyView {
        self.deep_view()
    }
}

impl Clone for VulkanResidentMappedBufferCopy {
    fn clone(&self) -> (r: Self)
        ensures
            r@ == self@,
    {
        VulkanResidentMappedBufferCopy {
            source: self.source.clone(),
            destination: self.destination.clone(),
            byte_capacity: self.byte_capacity,
        }
    }
}

/// A kernel with its bound buffers and its launch shape.
#[derive(Debug, PartialEq, Eq)]
pub struct VulkanResidentKernelDispatch {
    pub device_id: String,
    pub spirv_words: Vec<u32>,
    pub bindings: Vec<VulkanResidentKernelBufferBinding>,
    pub workgroup_count_x: u32,
    pub workgroup_count_y: u32,
    pub base_workgroup_z: u32,
    pub local_size_x: u32,
    pub push_constant_byte_count: u32,
    pub label: Option<String>,
}

#[verifier::ext_equal]
pub struct VulkanResidentKernelDispatchView {
    pub device_id: Seq<char>,
    pub spirv_words: Seq<u32>,
    pub bindings: Seq<VulkanResidentKernelBufferBindingView>,
    pub workgroup_count_x: u32,
    pub workgroup_count_y: u32,
    pub base_workgroup_z: u32,
    pub local_size_x: u32,
    pub push_constant_byte_count: u32,
    pub label: Option<Seq<char>>,
}

impl DeepView for VulkanResidentKernelDispatch {
    type V = VulkanResidentKernelDispatchView;

    open spec fn deep_view(&self) -> VulkanResidentKernelDispatchView {
        VulkanResidentKernelDispatchView {
            device_id: self.device_id.deep_view(),
            spirv_words: self.spirv_words.deep_view(),
            bindings: self.bindings.deep_view(),
            workgroup_count_x: self.workgroup_count_x,
            workgroup_count_y: self.workgroup_count_y,
            base_workgroup_z: self.base_workgroup_z,
            local_size_x: self.local_size_x,
            push_constant_byte_count: self.push_constant_byte_count,
            label: self.label.deep_view(),
        }
    }
}

impl View for VulkanResidentKernelDispatch {
    type V = VulkanResidentKernelDispatchView;

    open spec fn view(&self) -> VulkanResidentKernelDispatchView {
        self.deep_view()
    }
}

impl Clone for VulkanResidentKernelDispatch {
    fn clone(&self) -> (r: Self)
        ensures
            r@ == self@,
    {
        VulkanResidentKernelDispatch {
            device_id: self.device_id.clone(),
            spirv_words: self.spirv_words.clone(),
            bindings: self.bindings.clone(),
            workgroup_count_x: self.workgroup_count_x,
            workgroup_count_y: self.workgroup_count_y,
            base_workgroup_z: self.base_workgroup_z,
            local_size_x: self.local_size_x,
            push_constant_byte_count: self.push_constant_byte_count,
            label: self.label.clone(),
        }
    }
}

/// A kernel without a label, with `y` rows of workgroups.
pub open spec fn kernel(
    device_id: Seq<char>,
    words: Seq<u32>,
    bindings: Seq<VulkanResidentKernelBufferBindingView>,
    workgroup_count_x: u32,
    workgroup_count_y: u32,
    local_size_x: u32,
    push_constant_byte_count: u32,
) -> VulkanResidentKernelDispatchView {
    VulkanResidentKernelDispatchView {
        device_id,
        spirv_words: words,
        bindings,
        workgroup_count_x,
        workgroup_count_y,
        base_workgroup_z: 0,
        local_size_x,
        push_constant_byte_count,
        label: None,
    }
}

impl VulkanResidentKernelDispatch {
    /// A kernel without a label, with `y` rows of workgroups.
    pub fn unlabelled(
        device_id: &str,
        words: &Vec<u32>,
        bindings: Vec<VulkanResidentKernelBufferBinding>,
        workgroup_count_x: u32,
        workgroup_count_y: u32,
        local_size_x: u32,
        push_constant_byte_count: u32,
    ) -> (r: Self)
        ensures
            r@ == kernel(
                device_id@,
                words@,
                bindings.deep_view(),
                workgroup_count_x,
                workgroup_count_y,
                local_size_x,
                push_constant_byte_count,
            ),
    {
        let spirv_words: Vec<u32> = copy_words(words);
        assert(spirv_words.deep_view() =~= words@);
        VulkanResidentKernelDispatch {
            device_id: device_id.to_owned(),
            spirv_words,
            bindings,
            workgroup_count_x,
            workgroup_count_y,
            base_workgroup_z: 0,
            local_size_x,
            push_constant_byte_count,
            label: None,
        }
    }

    /// The number of bound descriptors.
    pub fn descriptor_count(&self) -> (r: usize)
        ensures
            r == self@.bindings.len(),
    {
        assert(self@.bindings.len() == self.bindings@.len());
        self.bindings.len()
    }
}

/// What is said where the bytes of an allocation do not fit.
pub open spec fn capacity_overflow(what: Seq<char>) -> Seq<char> {
    what + " byte capacity overflowed"@
}

/// A byte total with more bytes added.
pub fn checked_add_bytes(total: usize, bytes: usize, what: &str) -> (r: Result<usize, VulkanError>)
    ensures
        sequence::outcome(r) == (if total + bytes > usize::MAX {
            Err::<usize, Seq<char>>(capacity_overflow(what@))
        } else {
            Ok((total + bytes) as usize)
        }),
{
    match total.checked_add(bytes) {
        Some(sum) => Ok(sum),
        None => Err(VulkanError(Message::new(what).text(" byte capacity overflowed").done())),
    }
}

/// An exact copy of a list of words.
pub fn copy_words(words: &Vec<u32>) -> (r: Vec<u32>)
    ensures
        r@ == words@,
{
    let copy: Vec<u32> = words.clone();
    assert(copy@ =~= words@);
    copy
}

/// A dispatch in a recorded sequence, with the push constants that it is launched with.
#[derive(Debug, PartialEq, Eq)]
pub struct VulkanResidentKernelSequenceStep {
    pub dispatch: VulkanResidentKernelDispatch,
    pub push_constants: Vec<u8>,
}

#[verifier::ext_equal]
pub struct VulkanResidentKernelSequenceStepView {
    pub dispatch: VulkanResidentKernelDispatchView,
    pub push_constants: Seq<u8>,
}

impl DeepView for VulkanResidentKernelSequenceStep {
    type V = VulkanResidentKernelSequenceStepView;

    open spec fn deep_view(&self) -> VulkanResidentKernelSequenceStepView {
        VulkanResidentKernelSequenceStepView {
            dispatch: self.dispatch.deep_view(),
            push_constants: self.push_constants.deep_view(),
        }
    }
}

impl View for VulkanResidentKernelSequenceStep {
    type V = VulkanResidentKernelSequenceStepView;

    open spec fn view(&self) -> VulkanResidentKernelSequenceStepView {
        self.deep_view()
    }
}

impl Clone for VulkanResidentKernelSequenceStep {
    fn clone(&self) -> (r: Self)
        ensures
            r@ == self@,
    {
        VulkanResidentKernelSequenceStep {
            dispatch: self.dispatch.clone(),
            push_constants: self.push_constants.clone(),
        }
    }
}

/// A launch without push constants.
pub open spec fn plain_step(dispatch: VulkanResidentKernelDispatchView) -> VulkanResidentKernelSequenceStepView {
    VulkanResidentKernelSequenceStepView { dispatch, push_constants: Seq::empty() }
}

/// A launch with a word as its push constants.
pub open spec fn word_step(
    dispatch: VulkanResidentKernelDispatchView,
    word: u32,
) -> VulkanResidentKernelSequenceStepView {
    VulkanResidentKernelSequenceStepView { dispatch, push_constants: arithmetic::low_first(word) }
}

impl VulkanResidentKernelSequenceStep {
    /// A launch without push constants.
    pub fn plain(dispatch: &VulkanResidentKernelDispatch) -> (r: Self)
        ensures
            r@ == plain_step(dispatch@),
    {
        let push_constants: Vec<u8> = Vec::new();
        assert(push_constants.deep_view() =~= Seq::empty());
        VulkanResidentKernelSequenceStep { dispatch: dispatch.clone(), push_constants }
    }

    /// A launch with a word as its push constants.
    pub fn with_word(dispatch: &VulkanResidentKernelDispatch, word: u32) -> (r: Self)
        ensures
            r@ == word_step(dispatch@, word),
    {
        let push_constants: Vec<u8> = arithmetic::little_endian(word);
        assert(push_constants.deep_view() =~= push_constants@);
        VulkanResidentKernelSequenceStep { dispatch: dispatch.clone(), push_constants }
    }
}

/// The launches of a list of kernels, without push constants.
pub open spec fn plain_steps(dispatches: Seq<VulkanResidentKernelDispatchView>) -> Seq<
    VulkanResidentKernelSequenceStepView,
> {
    dispatches.map_values(|dispatch: VulkanResidentKernelDispatchView| plain_step(dispatch))
}

#[verifier::loop_isolation(false)]
pub(crate) fn push_plain_steps(
    steps: &mut Vec<VulkanResidentKernelSequenceStep>,
    dispatches: &Vec<VulkanResidentKernelDispatch>,
    Ghost(done): Ghost<Seq<VulkanResidentKernelDispatchView>>,
)
    requires
        old(steps).deep_view() == plain_steps(done),
    ensures
        final(steps).deep_view() == plain_steps(done + dispatches.deep_view()),
{
    let ghost all = dispatches.deep_view();
    let mut i: usize = 0;
    assert(done + all.take(0) =~= done);
    while i < dispatches.len()
        invariant
            i <= dispatches.len(),
            steps.deep_view() == plain_steps(done + all.take(i as int)),
        decreases dispatches.len() - i,
    {
        assert(all[i as int] == dispatches@[i as int]@);
        push_plain_step(steps, &dispatches[i], Ghost(done + all.take(i as int)));
        assert((done + all.take(i as int)).push(all[i as int]) =~= done + all.take(i + 1));
        i += 1;
    }
    assert(all.take(all.len() as int) =~= all);
}

pub(crate) fn push_plain_step(
    steps: &mut Vec<VulkanResidentKernelSequenceStep>,
    dispatch: &VulkanResidentKernelDispatch,
    Ghost(done): Ghost<Seq<VulkanResidentKernelDispatchView>>,
)
    requires
        old(steps).deep_view() == plain_steps(done),
    ensures
        final(steps).deep_view() == plain_steps(done.push(dispatch@)),
{
    let ghost before = steps.deep_view();
    let step: VulkanResidentKernelSequenceStep = VulkanResidentKernelSequenceStep::plain(dispatch);
    let ghost added = step@;
    steps.push(step);
    assert(steps.deep_view() =~= before.push(added));
    assert(steps.deep_view() =~= plain_steps(done.push(dispatch@)));
}

/// Dispatches that are recorded together and submitted as one.
#[derive(Debug, PartialEq, Eq)]
pub struct VulkanResidentKernelSequence {
    pub device_id: String,
    pub steps: Vec<VulkanResidentKernelSequenceStep>,
}

#[verifier::ext_equal]
pub struct VulkanResidentKernelSequenceView {
    pub device_id: Seq<char>,
    pub steps: Seq<VulkanResidentKernelSequenceStepView>,
}

impl DeepView for VulkanResidentKernelSequence {
    type V = VulkanResidentKernelSequenceView;

    open spec fn deep_view(&self) -> VulkanResidentKernelSequenceView {
        VulkanResidentKernelSequenceView {
            device_id: self.device_id.deep_view(),
            steps: self.steps.deep_view(),
        }
    }
}

impl View for VulkanResidentKernelSequence {
    type V = VulkanResidentKernelSequenceView;

    open spec fn view(&self) -> VulkanResidentKernelSequenceView {
        self.deep_view()
    }
}

impl Clone for VulkanResidentKernelSequence {
    fn clone(&self) -> (r: Self)
        ensures
            r@ == self@,
    {
        VulkanResidentKernelSequence {
            device_id: self.device_id.clone(),
            steps: self.steps.clone(),
        }
    }
}

/// The sequence that launches these dispatches without push constants.
pub open spec fn recorded_sequence(
    device_id: Seq<char>,
    dispatches: Seq<VulkanResidentKernelDispatchView>,
) -> VulkanResidentKernelSequenceView {
    VulkanResidentKernelSequenceView {
        device_id,
        steps: Seq::new(
            dispatches.len(),
            |i: int|
                VulkanResidentKernelSequenceStepView {
                    dispatch: dispatches[i],
                    push_constants: Seq::empty(),
                },
        ),
    }
}

impl VulkanResidentKernelSequence {
    /// The sequence that launches these dispatches without push constants.
    pub fn recorded(device_id: &str, dispatches: &Vec<VulkanResidentKernelDispatch>) -> (r: Self)
        ensures
            r@ == recorded_sequence(device_id@, dispatches.deep_view()),
    {
        let ghost expected = recorded_sequence(device_id@, dispatches.deep_view()).steps;
        let mut steps: Vec<VulkanResidentKernelSequenceStep> = Vec::new();
        let mut i: usize = 0;
        while i < dispatches.len()
            invariant
                i <= dispatches.len(),
                expected == recorded_sequence(device_id@, dispatches.deep_view()).steps,
                steps@.len() == i,
                forall|j: int| 0 <= j < i ==> (#[trigger] steps.deep_view()[j]) == expected[j],
            decreases dispatches.len() - i,
        {
            let ghost before = steps.deep_view();
            let step = VulkanResidentKernelSequenceStep {
                dispatch: dispatches[i].clone(),
                push_constants: Vec::new(),
            };
            assert(step@.push_constants =~= Seq::empty());
            assert(step@ == expected[i as int]);
            let ghost added = step@;
            steps.push(step);
            assert(steps.deep_view() =~= before.push(added));
            i += 1;
        }
        assert(steps.deep_view() =~= expected);
        VulkanResidentKernelSequence { device_id: device_id.to_owned(), steps }
    }
}

/// What a timeline semaphore between an owner and a helper announces.
#[derive(Clone, Copy, Debug, PartialEq, Eq, Structural)]
pub enum VulkanTimelineSignal {
    /// The owner's input is ready for the helper.
    OwnerReady,
    /// The helper has finished its shard.
    HelperDone,
}

impl DeepView for VulkanTimelineSignal {
    type V = VulkanTimelineSignal;

    open spec fn deep_view(&self) -> VulkanTimelineSignal {
        *self
    }
}

/// One end of a timeline semaphore that two devices share. The ends with the same group, helper
/// and signal are one semaphore: the exported end is its source, and the other end imports it.
#[derive(Debug, PartialEq, Eq)]
pub struct VulkanTimelineSemaphore {
    pub device_id: String,
    pub group_index: usize,
    pub helper_index: usize,
    pub signal: VulkanTimelineSignal,
    pub exported: bool,
}

#[verifier::ext_equal]
pub struct VulkanTimelineSemaphoreView {
    pub device_id: Seq<char>,
    pub group_index: usize,
    pub helper_index: usize,
    pub signal: VulkanTimelineSignal,
    pub exported: bool,
}

impl DeepView for VulkanTimelineSemaphore {
    type V = VulkanTimelineSemaphoreView;

    open spec fn deep_view(&self) -> VulkanTimelineSemaphoreView {
        VulkanTimelineSemaphoreView {
            device_id: self.device_id.deep_view(),
            group_index: self.group_index,
            helper_index: self.helper_index,
            signal: self.signal,
            exported: self.exported,
        }
    }
}

impl View for VulkanTimelineSemaphore {
    type V = VulkanTimelineSemaphoreView;

    open spec fn view(&self) -> VulkanTimelineSemaphoreView {
        self.deep_view()
    }
}

impl Clone for VulkanTimelineSemaphore {
    fn clone(&self) -> (r: Self)
        ensures
            r@ == self@,
    {
        VulkanTimelineSemaphore {
            device_id: self.device_id.clone(),
            group_index: self.group_index,
            helper_index: self.helper_index,
            signal: self.signal,
            exported: self.exported,
        }
    }
}

/// A semaphore with the value that is signalled or waited for.
#[derive(Debug, PartialEq, Eq)]
pub struct VulkanTimelineSemaphorePoint {
    pub semaphore: VulkanTimelineSemaphore,
    pub value: u64,
}

#[verifier::ext_equal]
pub struct VulkanTimelineSemaphorePointView {
    pub semaphore: VulkanTimelineSemaphoreView,
    pub value: u64,
}

impl DeepView for VulkanTimelineSemaphorePoint {
    type V = VulkanTimelineSemaphorePointView;

    open spec fn deep_view(&self) -> VulkanTimelineSemaphorePointView {
        VulkanTimelineSemaphorePointView {
            semaphore: self.semaphore.deep_view(),
            value: self.value,
        }
    }
}

impl View for VulkanTimelineSemaphorePoint {
    type V = VulkanTimelineSemaphorePointView;

    open spec fn view(&self) -> VulkanTimelineSemaphorePointView {
        self.deep_view()
    }
}

impl Clone for VulkanTimelineSemaphorePoint {
    fn clone(&self) -> (r: Self)
        ensures
            r@ == self@,
    {
        VulkanTimelineSemaphorePoint {
            semaphore: self.semaphore.clone(),
            value: self.value,
        }
    }
}

/// Whether two ends belong to one semaphore, the first as its source.
pub open spec fn imports_from(
    source: VulkanTimelineSemaphoreView,
    wait: VulkanTimelineSemaphoreView,
) -> bool {
    &&& source.exported
    &&& !wait.exported
    &&& source.group_index == wait.group_index
    &&& source.helper_index == wait.helper_index
    &&& source.signal == wait.signal
}

/// A device is found by its identifier: one of the directory's that has it, and none where none has.
pub proof fn devices_are_found_by_their_identifier(
    directory: VulkanDeviceDirectoryView,
    device_id: Seq<char>,
    j: int,
)
    ensures
        match directory.find(device_id) {
            Some(device) => directory.devices.contains(device) && device.device_id == device_id,
            None => 0 <= j < directory.devices.len() ==> directory.devices[j].device_id != device_id,
        },
{
    let p = |device: VulkanComputeDeviceView| device.device_id == device_id;
    if directory.find(device_id) is Some {
        sequence::lemma_find_first_some(directory.devices, p);
    } else {
        sequence::lemma_find_none_all(directory.devices, p);
        if 0 <= j < directory.devices.len() {
            assert(!p(directory.devices[j]));
        }
    }
}

} // verus!
