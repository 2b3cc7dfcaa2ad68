//! The contract of a reusable kernel: its descriptor signature and its family.

use crate::circuit_binding::VulkanSignalResource;
use crate::circuit_binding::VulkanSignalResourceView;
use crate::descriptor_resources::VulkanKernelDescriptorResource;
use crate::descriptor_resources::VulkanKernelDescriptorResourceView;
use crate::digest;
use crate::kernel_interface;
use crate::kernel_interface::VulkanKernelDescriptorBinding;
use crate::kernel_interface::VulkanKernelDescriptorBindingView;
use crate::kernel_interface::VulkanKernelDescriptorUsage;
use crate::kernel_interface::VulkanKernelDispatchCommand;
use crate::kernel_interface::VulkanKernelDispatchCommandView;
use crate::kernel_interface::VulkanKernelScalarBinding;
use crate::kernel_interface::VulkanKernelScalarBindingView;
use crate::text;
use crate::text::Message;
use vstd::prelude::*;

verus! {

/// The class of resource that a descriptor slot takes.
#[derive(Clone, Copy, Debug, PartialEq, Eq, Structural)]
pub enum VulkanKernelDescriptorResourceClass {
    SignalBuffer,
    ParameterBuffer,
    StateBuffer,
}

impl DeepView for VulkanKernelDescriptorResourceClass {
    type V = VulkanKernelDescriptorResourceClass;

    open spec fn deep_view(&self) -> VulkanKernelDescriptorResourceClass {
        *self
    }
}

/// The contract of one descriptor slot.
#[derive(Debug, PartialEq, Eq)]
pub struct VulkanKernelDescriptorSlotSignature {
    pub binding: usize,
    pub usage: VulkanKernelDescriptorUsage,
    pub resource_class: VulkanKernelDescriptorResourceClass,
    pub byte_capacity: Option<usize>,
    pub shape: Option<Vec<usize>>,
}

#[verifier::ext_equal]
pub struct VulkanKernelDescriptorSlotSignatureView {
    pub binding: usize,
    pub usage: VulkanKernelDescriptorUsage,
    pub resource_class: VulkanKernelDescriptorResourceClass,
    pub byte_capacity: Option<usize>,
    pub shape: Option<Seq<usize>>,
}

impl DeepView for VulkanKernelDescriptorSlotSignature {
    type V = VulkanKernelDescriptorSlotSignatureView;

    open spec fn deep_view(&self) -> VulkanKernelDescriptorSlotSignatureView {
        VulkanKernelDescriptorSlotSignatureView {
            binding: self.binding,
            usage: self.usage,
            resource_class: self.resource_class,
            byte_capacity: self.byte_capacity,
            shape: self.shape.deep_view(),
        }
    }
}

impl View for VulkanKernelDescriptorSlotSignature {
    type V = VulkanKernelDescriptorSlotSignatureView;

    open spec fn view(&self) -> VulkanKernelDescriptorSlotSignatureView {
        self.deep_view()
    }
}

impl Clone for VulkanKernelDescriptorSlotSignature {
    fn clone(&self) -> (r: Self)
        ensures
            r@ == self@,
    {
        VulkanKernelDescriptorSlotSignature {
            binding: self.binding,
            usage: self.usage,
            resource_class: self.resource_class,
            byte_capacity: self.byte_capacity.clone(),
            shape: self.shape.clone(),
        }
    }
}

/// A launch, by its place.
#[derive(Debug, PartialEq, Eq)]
pub struct VulkanKernelDispatchRef {
    pub dispatch_index: usize,
    pub kernel_id: String,
    pub component_id: String,
    pub circuit_index: usize,
    pub node_index: usize,
    pub node_id: String,
}

#[verifier::ext_equal]
pub struct VulkanKernelDispatchRefView {
    pub dispatch_index: usize,
    pub kernel_id: Seq<char>,
    pub component_id: Seq<char>,
    pub circuit_index: usize,
    pub node_index: usize,
    pub node_id: Seq<char>,
}

impl DeepView for VulkanKernelDispatchRef {
    type V = VulkanKernelDispatchRefView;

    open spec fn deep_view(&self) -> VulkanKernelDispatchRefView {
        VulkanKernelDispatchRefView {
            dispatch_index: self.dispatch_index,
            kernel_id: self.kernel_id.deep_view(),
            component_id: self.component_id.deep_view(),
            circuit_index: self.circuit_index,
            node_index: self.node_index,
            node_id: self.node_id.deep_view(),
        }
    }
}

impl View for VulkanKernelDispatchRef {
    type V = VulkanKernelDispatchRefView;

    open spec fn view(&self) -> VulkanKernelDispatchRefView {
        self.deep_view()
    }
}

impl Clone for VulkanKernelDispatchRef {
    fn clone(&self) -> (r: Self)
        ensures
            r@ == self@,
    {
        VulkanKernelDispatchRef {
            dispatch_index: self.dispatch_index,
            kernel_id: self.kernel_id.clone(),
            component_id: self.component_id.clone(),
            circuit_index: self.circuit_index,
            node_index: self.node_index,
            node_id: self.node_id.clone(),
        }
    }
}

/// The place of a launch.
pub open spec fn dispatch_ref(command: VulkanKernelDispatchCommandView) -> VulkanKernelDispatchRefView {
    VulkanKernelDispatchRefView {
        dispatch_index: command.dispatch_index,
        kernel_id: command.kernel_id,
        component_id: command.component_id,
        circuit_index: command.circuit_index,
        node_index: command.node_index,
        node_id: command.node_id,
    }
}

impl VulkanKernelDispatchRef {
    /// The place of a launch.
    pub fn from_command(command: &VulkanKernelDispatchCommand) -> (r: Self)
        ensures
            r@ == dispatch_ref(command@),
    {
        VulkanKernelDispatchRef {
            dispatch_index: command.dispatch_index,
            kernel_id: command.kernel_id.clone(),
            component_id: command.component_id.clone(),
            circuit_index: command.circuit_index,
            node_index: command.node_index,
            node_id: command.node_id.clone(),
        }
    }
}

/// The class of a resource.
pub open spec fn resource_class(
    resource: VulkanKernelDescriptorResourceView,
) -> VulkanKernelDescriptorResourceClass {
    match resource {
        VulkanKernelDescriptorResourceView::Signal(_) => {
            VulkanKernelDescriptorResourceClass::SignalBuffer
        },
        VulkanKernelDescriptorResourceView::Parameter(_) => {
            VulkanKernelDescriptorResourceClass::ParameterBuffer
        },
        VulkanKernelDescriptorResourceView::State { .. } => {
            VulkanKernelDescriptorResourceClass::StateBuffer
        },
    }
}

/// The bytes of a state, as far as they are known and fit.
pub open spec fn state_bytes(
    static_bytes: Option<usize>,
    bytes_per_activation: Option<usize>,
) -> Option<usize> {
    match (static_bytes, bytes_per_activation) {
        (Some(a), Some(b)) => if a + b > usize::MAX {
            None
        } else {
            Some((a + b) as usize)
        },
        (Some(a), None) => Some(a),
        (None, Some(b)) => Some(b),
        (None, None) => None,
    }
}

/// The bytes of a resource, as far as they are known.
pub open spec fn resource_bytes(resource: VulkanKernelDescriptorResourceView) -> Option<usize> {
    match resource {
        VulkanKernelDescriptorResourceView::Signal(signal) => match signal.resource {
            VulkanSignalResourceView::BoundaryInput => None,
            VulkanSignalResourceView::BoundaryOutput => None,
            VulkanSignalResourceView::StateBuffer { static_bytes, bytes_per_activation, .. } => {
                state_bytes(static_bytes, bytes_per_activation)
            },
            VulkanSignalResourceView::StateView { static_bytes, bytes_per_activation, .. } => {
                state_bytes(static_bytes, bytes_per_activation)
            },
            VulkanSignalResourceView::ActivationSlot { bytes, .. } => bytes,
        },
        VulkanKernelDescriptorResourceView::Parameter(parameter) => parameter.byte_count,
        VulkanKernelDescriptorResourceView::State { binding, .. } => state_bytes(
            binding.static_bytes,
            binding.bytes_per_activation,
        ),
    }
}

/// The shape of a resource; only parameters have one.
pub open spec fn resource_shape(resource: VulkanKernelDescriptorResourceView) -> Option<Seq<usize>> {
    match resource {
        VulkanKernelDescriptorResourceView::Parameter(parameter) => parameter.shape,
        _ => None,
    }
}

/// The contract of a descriptor.
pub open spec fn slot_signature(
    binding: VulkanKernelDescriptorBindingView,
) -> VulkanKernelDescriptorSlotSignatureView {
    VulkanKernelDescriptorSlotSignatureView {
        binding: binding.binding,
        usage: binding.usage,
        resource_class: resource_class(binding.resource),
        byte_capacity: resource_bytes(binding.resource),
        shape: resource_shape(binding.resource),
    }
}

impl VulkanKernelDescriptorResourceClass {
    /// The class of a resource.
    pub fn from_resource(resource: &VulkanKernelDescriptorResource) -> (r: Self)
        ensures
            r == resource_class(resource@),
    {
        match resource {
            VulkanKernelDescriptorResource::Signal(_) => {
                VulkanKernelDescriptorResourceClass::SignalBuffer
            },
            VulkanKernelDescriptorResource::Parameter(_) => {
                VulkanKernelDescriptorResourceClass::ParameterBuffer
            },
            VulkanKernelDescriptorResource::State { .. } => {
                VulkanKernelDescriptorResourceClass::StateBuffer
            },
        }
    }
}

fn add_state_bytes(static_bytes: Option<usize>, bytes_per_activation: Option<usize>) -> (r: Option<
    usize,
>)
    ensures
        r == state_bytes(static_bytes, bytes_per_activation),
{
    match (static_bytes, bytes_per_activation) {
        (Some(a), Some(b)) => a.checked_add(b),
        (Some(a), None) => Some(a),
        (None, Some(b)) => Some(b),
        (None, None) => None,
    }
}

/// The bytes of a resource, as far as they are known.
pub fn descriptor_resource_byte_capacity(resource: &VulkanKernelDescriptorResource) -> (r: Option<
    usize,
>)
    ensures
        r == resource_bytes(resource@),
{
    match resource {
        VulkanKernelDescriptorResource::Signal(signal) => match &signal.resource {
            VulkanSignalResource::BoundaryInput => None,
            VulkanSignalResource::BoundaryOutput => None,
            VulkanSignalResource::StateBuffer { static_bytes, bytes_per_activation, .. } => {
                add_state_bytes(*static_bytes, *bytes_per_activation)
            },
            VulkanSignalResource::StateView { static_bytes, bytes_per_activation, .. } => {
                add_state_bytes(*static_bytes, *bytes_per_activation)
            },
            VulkanSignalResource::ActivationSlot { bytes, .. } => *bytes,
        },
        VulkanKernelDescriptorResource::Parameter(parameter) => parameter.byte_count,
        VulkanKernelDescriptorResource::State { binding, .. } => add_state_bytes(
            binding.static_bytes,
            binding.bytes_per_activation,
        ),
    }
}

/// The shape of a resource; only parameters have one.
pub fn descriptor_resource_shape(resource: &VulkanKernelDescriptorResource) -> (r: Option<Vec<usize>>)
    ensures
        r.deep_view() == resource_shape(resource@),
{
    match resource {
        VulkanKernelDescriptorResource::Parameter(parameter) => match &parameter.shape {
            Some(shape) => {
                let copy: Vec<usize> = shape.clone();
                assert(copy.deep_view() =~= shape.deep_view());
                Some(copy)
            },
            None => None,
        },
        _ => None,
    }
}

impl VulkanKernelDescriptorSlotSignature {
    /// The contract of a descriptor.
    pub fn from_binding(binding: &VulkanKernelDescriptorBinding) -> (r: Self)
        ensures
            r@ == slot_signature(binding@),
    {
        VulkanKernelDescriptorSlotSignature {
            binding: binding.binding,
            usage: binding.usage,
            resource_class: VulkanKernelDescriptorResourceClass::from_resource(&binding.resource),
            byte_capacity: descriptor_resource_byte_capacity(&binding.resource),
            shape: descriptor_resource_shape(&binding.resource),
        }
    }
}

fn same_slot(
    a: &VulkanKernelDescriptorSlotSignature,
    b: &VulkanKernelDescriptorSlotSignature,
) -> (r: bool)
    ensures
        r == (a@ == b@),
{
    let same_shape: bool = match (&a.shape, &b.shape) {
        (Some(left), Some(right)) => {
            assert(left.deep_view() =~= left@ && right.deep_view() =~= right@);
            crate::sequence::same_numbers(left, right)
        },
        (None, None) => true,
        _ => false,
    };
    a.binding == b.binding && a.usage == b.usage && a.resource_class == b.resource_class
        && a.byte_capacity == b.byte_capacity && same_shape
}

/// Equality of descriptor signatures.
#[verifier::loop_isolation(false)]
pub(crate) fn same_signatures(
    a: &Vec<VulkanKernelDescriptorSlotSignature>,
    b: &Vec<VulkanKernelDescriptorSlotSignature>,
) -> (r: bool)
    ensures
        r == (a.deep_view() == b.deep_view()),
{
    assert(a.deep_view().len() == a@.len() && b.deep_view().len() == b@.len());
    if a.len() != b.len() {
        return false;
    }
    let mut i: usize = 0;
    while i < a.len()
        invariant
            i <= a.len(),
            forall|j: int| 0 <= j < i ==> a.deep_view()[j] == b.deep_view()[j],
        decreases a.len() - i,
    {
        assert(a.deep_view()[i as int] == a@[i as int]@);
        assert(b.deep_view()[i as int] == b@[i as int]@);
        if !same_slot(&a[i], &b[i]) {
            return false;
        }
        i += 1;
    }
    assert(a.deep_view() =~= b.deep_view());
    true
}

/// What two launches have in common that can share a kernel.
#[derive(Debug, PartialEq, Eq)]
pub struct VulkanReusableKernelKey {
    pub op: String,
    pub specialization: String,
    pub descriptor_signature: Vec<VulkanKernelDescriptorSlotSignature>,
    pub push_constants: Vec<VulkanKernelScalarBinding>,
    pub uses_stream_tick: bool,
}

#[verifier::ext_equal]
pub struct VulkanReusableKernelKeyView {
    pub op: Seq<char>,
    pub specialization: Seq<char>,
    pub descriptor_signature: Seq<VulkanKernelDescriptorSlotSignatureView>,
    pub push_constants: Seq<VulkanKernelScalarBindingView>,
    pub uses_stream_tick: bool,
}

impl DeepView for VulkanReusableKernelKey {
    type V = VulkanReusableKernelKeyView;

    open spec fn deep_view(&self) -> VulkanReusableKernelKeyView {
        VulkanReusableKernelKeyView {
            op: self.op.deep_view(),
            specialization: self.specialization.deep_view(),
            descriptor_signature: self.descriptor_signature.deep_view(),
            push_constants: self.push_constants.deep_view(),
            uses_stream_tick: self.uses_stream_tick,
        }
    }
}

impl View for VulkanReusableKernelKey {
    type V = VulkanReusableKernelKeyView;

    open spec fn view(&self) -> VulkanReusableKernelKeyView {
        self.deep_view()
    }
}

impl Clone for VulkanReusableKernelKey {
    fn clone(&self) -> (r: Self)
        ensures
            r@ == self@,
    {
        VulkanReusableKernelKey {
            op: self.op.clone(),
            specialization: self.specialization.clone(),
            descriptor_signature: self.descriptor_signature.clone(),
            push_constants: self.push_constants.clone(),
            uses_stream_tick: self.uses_stream_tick,
        }
    }
}

/// The key of a launch.
pub open spec fn reusable_key(command: VulkanKernelDispatchCommandView) -> VulkanReusableKernelKeyView {
    VulkanReusableKernelKeyView {
        op: command.op,
        specialization: command.specialization,
        descriptor_signature: Seq::new(
            command.descriptor_bindings.len(),
            |i: int| slot_signature(command.descriptor_bindings[i]),
        ),
        push_constants: command.push_constants,
        uses_stream_tick: command.uses_stream_tick,
    }
}

/// The name of a usage in a contract.
pub open spec fn usage_name(usage: VulkanKernelDescriptorUsage) -> Seq<char> {
    match usage {
        VulkanKernelDescriptorUsage::InputSignal => "input_signal"@,
        VulkanKernelDescriptorUsage::OutputSignal => "output_signal"@,
        VulkanKernelDescriptorUsage::Parameter => "parameter"@,
        VulkanKernelDescriptorUsage::StateRead => "state_read"@,
        VulkanKernelDescriptorUsage::StateWrite => "state_write"@,
        VulkanKernelDescriptorUsage::StateView => "state_view"@,
    }
}

/// The name of a resource class in a contract.
pub open spec fn class_name(class: VulkanKernelDescriptorResourceClass) -> Seq<char> {
    match class {
        VulkanKernelDescriptorResourceClass::SignalBuffer => "signal_buffer"@,
        VulkanKernelDescriptorResourceClass::ParameterBuffer => "parameter_buffer"@,
        VulkanKernelDescriptorResourceClass::StateBuffer => "state_buffer"@,
    }
}

/// Numbers, separated by commas.
pub open spec fn number_elements(numbers: Seq<usize>) -> Seq<char>
    decreases numbers.len(),
{
    if numbers.len() == 0 {
        ""@
    } else if numbers.len() == 1 {
        text::decimal(numbers[0] as nat)
    } else {
        number_elements(numbers.drop_last()) + ","@ + text::decimal(numbers.last() as nat)
    }
}

/// The byte capacity of a slot in a contract, where it is known.
pub open spec fn capacity_member(byte_capacity: Option<usize>) -> Seq<char> {
    match byte_capacity {
        Some(bytes) => ",\"byte_capacity\":"@ + text::decimal(bytes as nat),
        None => ""@,
    }
}

/// The shape of a slot in a contract, where there is one.
pub open spec fn shape_member(shape: Option<Seq<usize>>) -> Seq<char> {
    match shape {
        Some(shape) => ",\"shape\":["@ + number_elements(shape) + "]"@,
        None => ""@,
    }
}

/// A slot in a contract.
pub open spec fn slot_object(slot: VulkanKernelDescriptorSlotSignatureView) -> Seq<char> {
    "{\"binding\":"@ + text::decimal(slot.binding as nat) + ",\"usage\":\""@ + usage_name(
        slot.usage,
    ) + "\",\"resource_class\":\""@ + class_name(slot.resource_class) + "\""@ + capacity_member(
        slot.byte_capacity,
    ) + shape_member(slot.shape) + "}"@
}

/// Slots in a contract, separated by commas.
pub open spec fn slot_elements(slots: Seq<VulkanKernelDescriptorSlotSignatureView>) -> Seq<char>
    decreases slots.len(),
{
    if slots.len() == 0 {
        ""@
    } else if slots.len() == 1 {
        slot_object(slots[0])
    } else {
        slot_elements(slots.drop_last()) + ","@ + slot_object(slots.last())
    }
}

/// A scalar in a contract.
pub open spec fn scalar_object(scalar: VulkanKernelScalarBindingView) -> Seq<char> {
    "{\"name\":"@ + digest::json_text(scalar.name) + ",\"scalar_type\":"@ + digest::json_text(
        scalar.scalar_type,
    ) + ",\"source\":\"push_constant\"}"@
}

/// Scalars in a contract, separated by commas.
pub open spec fn scalar_elements(scalars: Seq<VulkanKernelScalarBindingView>) -> Seq<char>
    decreases scalars.len(),
{
    if scalars.len() == 0 {
        ""@
    } else if scalars.len() == 1 {
        scalar_object(scalars[0])
    } else {
        scalar_elements(scalars.drop_last()) + ","@ + scalar_object(scalars.last())
    }
}

/// The contract of a key: a JSON object with the key's members in order.
pub open spec fn contract_text(key: VulkanReusableKernelKeyView) -> Seq<char> {
    "{\"op\":"@ + digest::json_text(key.op) + ",\"specialization\":"@ + digest::json_text(
        key.specialization,
    ) + ",\"descriptor_signature\":["@ + slot_elements(key.descriptor_signature)
        + "],\"push_constants\":["@ + scalar_elements(key.push_constants)
        + "],\"uses_stream_tick\":"@ + (if key.uses_stream_tick {
        "true"@
    } else {
        "false"@
    }) + "}"@
}

/// The family of a key: its operation, and the first twelve bytes of its contract's digest.
pub open spec fn family_of_key(key: VulkanReusableKernelKeyView) -> Seq<char> {
    key.op + "."@ + digest::hex(
        digest::sha256(vstd::utf8::encode_utf8(contract_text(key))).take(12),
    )
}

fn name_of_usage(usage: VulkanKernelDescriptorUsage) -> (r: &'static str)
    ensures
        r@ == usage_name(usage),
{
    match usage {
        VulkanKernelDescriptorUsage::InputSignal => "input_signal",
        VulkanKernelDescriptorUsage::OutputSignal => "output_signal",
        VulkanKernelDescriptorUsage::Parameter => "parameter",
        VulkanKernelDescriptorUsage::StateRead => "state_read",
        VulkanKernelDescriptorUsage::StateWrite => "state_write",
        VulkanKernelDescriptorUsage::StateView => "state_view",
    }
}

fn name_of_class(class: VulkanKernelDescriptorResourceClass) -> (r: &'static str)
    ensures
        r@ == class_name(class),
{
    match class {
        VulkanKernelDescriptorResourceClass::SignalBuffer => "signal_buffer",
        VulkanKernelDescriptorResourceClass::ParameterBuffer => "parameter_buffer",
        VulkanKernelDescriptorResourceClass::StateBuffer => "state_buffer",
    }
}

fn write_numbers(numbers: &Vec<usize>) -> (r: String)
    ensures
        r@ == number_elements(numbers@),
{
    let mut message: Message = Message::new("");
    let mut i: usize = 0;
    assert(numbers@.take(0) =~= Seq::empty());
    while i < numbers.len()
        invariant
            i <= numbers.len(),
            message@ == number_elements(numbers@.take(i as int)),
        decreases numbers.len() - i,
    {
        let ghost so_far = numbers@.take(i + 1);
        assert(so_far.drop_last() =~= numbers@.take(i as int));
        assert(so_far.last() == numbers@[i as int]);
        if i == 0 {
            message = Message::new(text::decimal_text(numbers[i] as u128).as_str());
        } else {
            message = message.text(",").number(numbers[i]);
        }
        i += 1;
    }
    assert(numbers@.take(numbers@.len() as int) =~= numbers@);
    message.done()
}

fn write_slot(slot: &VulkanKernelDescriptorSlotSignature) -> (r: String)
    ensures
        r@ == slot_object(slot@),
{
    let capacity: String = match slot.byte_capacity {
        Some(bytes) => Message::new(",\"byte_capacity\":").number(bytes).done(),
        None => "".to_owned(),
    };
    let shape: String = match &slot.shape {
        Some(shape) => {
            assert(shape.deep_view() =~= shape@);
            Message::new(",\"shape\":[").text(write_numbers(shape).as_str()).text("]").done()
        },
        None => "".to_owned(),
    };
    Message::new("{\"binding\":").number(slot.binding).text(",\"usage\":\"").text(
        name_of_usage(slot.usage),
    ).text("\",\"resource_class\":\"").text(name_of_class(slot.resource_class)).text("\"").text(
        capacity.as_str(),
    ).text(shape.as_str()).text("}").done()
}

fn write_slots(slots: &Vec<VulkanKernelDescriptorSlotSignature>) -> (r: String)
    ensures
        r@ == slot_elements(slots.deep_view()),
{
    let ghost all = slots.deep_view();
    let mut message: Message = Message::new("");
    let mut i: usize = 0;
    assert(all.take(0) =~= Seq::empty());
    while i < slots.len()
        invariant
            i <= slots.len(),
            all == slots.deep_view(),
            message@ == slot_elements(all.take(i as int)),
        decreases slots.len() - i,
    {
        let ghost so_far = all.take(i + 1);
        assert(so_far.drop_last() =~= all.take(i as int));
        assert(so_far.last() == slots@[i as int]@);
        let slot: String = write_slot(&slots[i]);
        if i == 0 {
            message = Message::new(slot.as_str());
        } else {
            message = message.text(",").text(slot.as_str());
        }
        i += 1;
    }
    assert(all.take(all.len() as int) =~= all);
    message.done()
}

fn write_scalar(scalar: &VulkanKernelScalarBinding) -> (r: String)
    ensures
        r@ == scalar_object(scalar@),
{
    Message::new("{\"name\":").text(digest::json_string(scalar.name.as_str()).as_str()).text(
        ",\"scalar_type\":",
    ).text(digest::json_string(scalar.scalar_type.as_str()).as_str()).text(
        ",\"source\":\"push_constant\"}",
    ).done()
}

fn write_scalars(scalars: &Vec<VulkanKernelScalarBinding>) -> (r: String)
    ensures
        r@ == scalar_elements(scalars.deep_view()),
{
    let ghost all = scalars.deep_view();
    let mut message: Message = Message::new("");
    let mut i: usize = 0;
    assert(all.take(0) =~= Seq::empty());
    while i < scalars.len()
        invariant
            i <= scalars.len(),
            all == scalars.deep_view(),
            message@ == scalar_elements(all.take(i as int)),
        decreases scalars.len() - i,
    {
        let ghost so_far = all.take(i + 1);
        assert(so_far.drop_last() =~= all.take(i as int));
        assert(so_far.last() == scalars@[i as int]@);
        let scalar: String = write_scalar(&scalars[i]);
        if i == 0 {
            message = Message::new(scalar.as_str());
        } else {
            message = message.text(",").text(scalar.as_str());
        }
        i += 1;
    }
    assert(all.take(all.len() as int) =~= all);
    message.done()
}

impl VulkanReusableKernelKey {
    /// The key of a launch.
    #[verifier::loop_isolation(false)]
    pub fn from_command(command: &VulkanKernelDispatchCommand) -> (r: Self)
        ensures
            r@ == reusable_key(command@),
    {
        let ghost goal = reusable_key(command@).descriptor_signature;
        let mut descriptor_signature: Vec<VulkanKernelDescriptorSlotSignature> = Vec::new();
        let mut i: usize = 0;
        while i < command.descriptor_bindings.len()
            invariant
                i <= command.descriptor_bindings.len(),
                descriptor_signature@.len() == i,
                forall|j: int|
                    0 <= j < i ==> (#[trigger] descriptor_signature.deep_view()[j]) == goal[j],
            decreases command.descriptor_bindings.len() - i,
        {
            let ghost before = descriptor_signature.deep_view();
            assert(command@.descriptor_bindings[i as int]
                == command.descriptor_bindings@[i as int]@);
            descriptor_signature.push(
                VulkanKernelDescriptorSlotSignature::from_binding(&command.descriptor_bindings[i]),
            );
            assert(descriptor_signature.deep_view() =~= before.push(goal[i as int]));
            i += 1;
        }
        assert(descriptor_signature.deep_view() =~= goal);
        VulkanReusableKernelKey {
            op: command.op.clone(),
            specialization: command.specialization.clone(),
            descriptor_signature,
            push_constants: kernel_interface::copy_scalars(&command.push_constants),
            uses_stream_tick: command.uses_stream_tick,
        }
    }

    /// The contract of the key, as JSON.
    pub fn contract(&self) -> (r: String)
        ensures
            r@ == contract_text(self@),
    {
        let uses_stream_tick: &str = if self.uses_stream_tick {
            "true"
        } else {
            "false"
        };
        Message::new("{\"op\":").text(digest::json_string(self.op.as_str()).as_str()).text(
            ",\"specialization\":",
        ).text(digest::json_string(self.specialization.as_str()).as_str()).text(
            ",\"descriptor_signature\":[",
        ).text(write_slots(&self.descriptor_signature).as_str()).text(
            "],\"push_constants\":[",
        ).text(write_scalars(&self.push_constants).as_str()).text("],\"uses_stream_tick\":").text(
            uses_stream_tick,
        ).text("}").done()
    }

    /// The family of the key.
    pub fn family_id(&self) -> (r: String)
        ensures
            r@ == family_of_key(self@),
    {
        let contract: String = self.contract();
        let digest: Vec<u8> = digest::digest(contract.as_str().as_bytes());
        let contract_id: String = digest::hex_text(&digest, 12);
        Message::new(self.op.as_str()).text(".").text(contract_id.as_str()).done()
    }
}

/// Launches with the same key belong to the same family, and a family's name starts with its
/// operation.
pub proof fn families_follow_keys(a: VulkanReusableKernelKeyView, b: VulkanReusableKernelKeyView)
    ensures
        a == b ==> family_of_key(a) == family_of_key(b),
        (a.op + "."@).is_prefix_of(family_of_key(a)),
{
    let tail = digest::hex(digest::sha256(vstd::utf8::encode_utf8(contract_text(a))).take(12));
    assert(family_of_key(a).subrange(0, (a.op + "."@).len() as int) =~= a.op + "."@);
}

/// A key describes its launch: what it does, in which specialization, with which push constants and
/// whether it uses the stream tick, and of every descriptor the number, the usage, the class, the
/// capacity and the shape. A reference names the launch that it refers to.
pub proof fn keys_describe_their_launch(command: VulkanKernelDispatchCommandView, i: int)
    ensures
        ({
            let key = reusable_key(command);
            let reference = dispatch_ref(command);
            &&& key.op == command.op
            &&& key.specialization == command.specialization
            &&& key.push_constants == command.push_constants
            &&& key.uses_stream_tick == command.uses_stream_tick
            &&& key.descriptor_signature.len() == command.descriptor_bindings.len()
            &&& 0 <= i < command.descriptor_bindings.len() ==> {
                let slot = key.descriptor_signature[i];
                let resource = command.descriptor_bindings[i].resource;
                &&& slot.binding == command.descriptor_bindings[i].binding
                &&& slot.usage == command.descriptor_bindings[i].usage
                &&& slot.resource_class is SignalBuffer <==> resource is Signal
                &&& slot.resource_class is ParameterBuffer <==> resource is Parameter
                &&& slot.resource_class is StateBuffer <==> resource is State
                &&& resource matches VulkanKernelDescriptorResourceView::Parameter(parameter)
                    ==> slot.byte_capacity == parameter.byte_count && slot.shape
                    == parameter.shape
                &&& !(resource is Parameter) ==> slot.shape is None
                &&& resource matches VulkanKernelDescriptorResourceView::Signal(signal) ==> {
                    &&& signal.resource is BoundaryInput || signal.resource is BoundaryOutput
                        ==> slot.byte_capacity is None
                    &&& signal.resource matches VulkanSignalResourceView::ActivationSlot {
                        bytes,
                        ..
                    } ==> slot.byte_capacity == bytes
                }
                &&& resource matches VulkanKernelDescriptorResourceView::State { binding, .. } ==> {
                    &&& binding.static_bytes matches Some(fixed) ==> binding.bytes_per_activation
                        matches Some(growing) ==> fixed + growing <= usize::MAX
                        ==> slot.byte_capacity == Some((fixed + growing) as usize)
                    &&& binding.bytes_per_activation is None ==> slot.byte_capacity
                        == binding.static_bytes
                    &&& binding.static_bytes is None ==> slot.byte_capacity
                        == binding.bytes_per_activation
                }
            }
            &&& reference.dispatch_index == command.dispatch_index
            &&& reference.kernel_id == command.kernel_id
            &&& reference.component_id == command.component_id
            &&& reference.circuit_index == command.circuit_index
            &&& reference.node_index == command.node_index
            &&& reference.node_id == command.node_id
        }),
{
}

proof fn lemma_holds_middle(front: Seq<char>, part: Seq<char>, back: Seq<char>)
    ensures
        text::holds_text(front + part + back, part),
{
    let all = front + part + back;
    assert(all.subrange(front.len() as int, front.len() as int + part.len()) =~= part);
}

/// The text that a family is named by holds every part of the family's key under its own name: what
/// the launches do, their specialization, their descriptors, their push constants and whether they
/// use the stream tick.
pub proof fn contracts_name_every_part(key: VulkanReusableKernelKeyView)
    ensures
        text::holds_text(contract_text(key), "\"op\":"@ + digest::json_text(key.op)),
        text::holds_text(
            contract_text(key),
            "\"specialization\":"@ + digest::json_text(key.specialization),
        ),
        text::holds_text(
            contract_text(key),
            "\"descriptor_signature\":["@ + slot_elements(key.descriptor_signature) + "]"@,
        ),
        text::holds_text(
            contract_text(key),
            "\"push_constants\":["@ + scalar_elements(key.push_constants) + "]"@,
        ),
        key.uses_stream_tick ==> text::holds_text(
            contract_text(key),
            "\"uses_stream_tick\":true"@,
        ),
        !key.uses_stream_tick ==> text::holds_text(
            contract_text(key),
            "\"uses_stream_tick\":false"@,
        ),
{
    let op = digest::json_text(key.op);
    let specialization = digest::json_text(key.specialization);
    let slots = slot_elements(key.descriptor_signature);
    let scalars = scalar_elements(key.push_constants);
    let tick = if key.uses_stream_tick {
        "true"@
    } else {
        "false"@
    };
    reveal_strlit("{\"op\":");
    reveal_strlit("\"op\":");
    reveal_strlit(",\"specialization\":");
    reveal_strlit("\"specialization\":");
    reveal_strlit(",\"descriptor_signature\":[");
    reveal_strlit("\"descriptor_signature\":[");
    reveal_strlit("],\"push_constants\":[");
    reveal_strlit("\"push_constants\":[");
    reveal_strlit("],\"uses_stream_tick\":");
    reveal_strlit("\"uses_stream_tick\":true");
    reveal_strlit("\"uses_stream_tick\":false");
    reveal_strlit("true");
    reveal_strlit("false");
    reveal_strlit("]");
    reveal_strlit("}");
    let all = contract_text(key);
    let a = "{\"op\":"@ + op;
    let b = a + ",\"specialization\":"@ + specialization;
    let c = b + ",\"descriptor_signature\":["@ + slots;
    let d = c + "],\"push_constants\":["@ + scalars;
    let e = d + "],\"uses_stream_tick\":"@ + tick;
    let part = "\"op\":"@ + op;
    assert(all.subrange(1, 1int + part.len()) =~= part);
    let part = "\"specialization\":"@ + specialization;
    assert(all.subrange(a.len() as int + 1, a.len() as int + 1 + part.len()) =~= part);
    let part = "\"descriptor_signature\":["@ + slots + "]"@;
    assert(all.subrange(b.len() as int + 1, b.len() as int + 1 + part.len()) =~= part);
    let part = "\"push_constants\":["@ + scalars + "]"@;
    assert(all.subrange(c.len() as int + 2, c.len() as int + 2 + part.len()) =~= part);
    if key.uses_stream_tick {
        let part = "\"uses_stream_tick\":true"@;
        assert(all.subrange(d.len() as int + 2, d.len() as int + 2 + part.len()) =~= part);
    } else {
        let part = "\"uses_stream_tick\":false"@;
        assert(all.subrange(d.len() as int + 2, d.len() as int + 2 + part.len()) =~= part);
    }
}

/// The text of a list of descriptors holds that of each of them.
pub proof fn contracts_list_every_descriptor(
    slots: Seq<VulkanKernelDescriptorSlotSignatureView>,
    i: int,
)
    requires
        0 <= i < slots.len(),
    ensures
        text::holds_text(slot_elements(slots), slot_object(slots[i])),
    decreases slots.len(),
{
    let object = slot_object(slots[i]);
    if slots.len() == 1 {
        lemma_holds_middle(Seq::empty(), object, Seq::empty());
        assert(Seq::<char>::empty() + object + Seq::<char>::empty() =~= object);
    } else {
        let front = slot_elements(slots.drop_last());
        let all = slot_elements(slots);
        if i == slots.len() - 1 {
            lemma_holds_middle(front + ","@, object, Seq::empty());
            assert(front + ","@ + object + Seq::<char>::empty() =~= all);
        } else {
            contracts_list_every_descriptor(slots.drop_last(), i);
            let k = choose|k: int|
                0 <= k <= front.len() - object.len() && #[trigger] front.subrange(
                    k,
                    k + object.len(),
                ) == object;
            assert(all.subrange(k, k + object.len()) =~= front.subrange(k, k + object.len()));
        }
    }
}

/// The text of a list of push constants holds that of each of them.
pub proof fn contracts_list_every_push_constant(
    scalars: Seq<VulkanKernelScalarBindingView>,
    i: int,
)
    requires
        0 <= i < scalars.len(),
    ensures
        text::holds_text(scalar_elements(scalars), scalar_object(scalars[i])),
    decreases scalars.len(),
{
    let object = scalar_object(scalars[i]);
    if scalars.len() == 1 {
        lemma_holds_middle(Seq::empty(), object, Seq::empty());
        assert(Seq::<char>::empty() + object + Seq::<char>::empty() =~= object);
    } else {
        let front = scalar_elements(scalars.drop_last());
        let all = scalar_elements(scalars);
        if i == scalars.len() - 1 {
            lemma_holds_middle(front + ","@, object, Seq::empty());
            assert(front + ","@ + object + Seq::<char>::empty() =~= all);
        } else {
            contracts_list_every_push_constant(scalars.drop_last(), i);
            let k = choose|k: int|
                0 <= k <= front.len() - object.len() && #[trigger] front.subrange(
                    k,
                    k + object.len(),
                ) == object;
            assert(all.subrange(k, k + object.len()) =~= front.subrange(k, k + object.len()));
        }
    }
}

/// Different usages have different names, and so have different classes.
pub proof fn names_tell_usages_and_classes_apart(
    a: VulkanKernelDescriptorUsage,
    b: VulkanKernelDescriptorUsage,
    c: VulkanKernelDescriptorResourceClass,
    d: VulkanKernelDescriptorResourceClass,
)
    ensures
        a == b <==> usage_name(a) == usage_name(b),
        c == d <==> class_name(c) == class_name(d),
{
    reveal_strlit("input_signal");
    reveal_strlit("output_signal");
    reveal_strlit("parameter");
    reveal_strlit("state_read");
    reveal_strlit("state_write");
    reveal_strlit("state_view");
    reveal_strlit("signal_buffer");
    reveal_strlit("parameter_buffer");
    reveal_strlit("state_buffer");
    assert("input_signal"@.len() == 12);
    assert("output_signal"@.len() == 13);
    assert("parameter"@.len() == 9);
    assert("state_read"@.len() == 10);
    assert("state_write"@.len() == 11);
    assert("state_view"@.len() == 10);
    assert("state_read"@[6] != "state_view"@[6]);
    assert("signal_buffer"@.len() == 13);
    assert("parameter_buffer"@.len() == 16);
    assert("state_buffer"@.len() == 12);
}

} // verus!
