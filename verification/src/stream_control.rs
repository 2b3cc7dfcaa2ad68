//! Where a stream stands, as the kernels of a tick see it.

use crate::circuit_mount::VULKAN_STREAM_CONTROL_BYTE_CAPACITY;
use crate::circuit_mount::VULKAN_STREAM_CONTROL_METADATA_OFFSET;
use crate::device::VulkanResidentBuffer;
use crate::device::VulkanResidentBufferView;
use vstd::prelude::*;

verus! {

/// Where a stream stands, as the kernels of a tick see it.
#[derive(Clone, Copy, Debug, PartialEq, Eq, Structural)]
pub struct VulkanMountedPlacedStreamControl {
    pub stream_tick: u64,
    pub control_flags: u32,
    pub dynamic_state_capacity_activations: u32,
}

impl DeepView for VulkanMountedPlacedStreamControl {
    type V = VulkanMountedPlacedStreamControl;

    open spec fn deep_view(&self) -> VulkanMountedPlacedStreamControl {
        *self
    }
}

/// Where the kernels of a tick are told where their stream stands: in this buffer, from this byte on.
#[derive(Debug, PartialEq, Eq)]
pub struct VulkanStreamControlWrite {
    pub buffer: VulkanResidentBuffer,
    pub byte_offset: usize,
    pub control: VulkanMountedPlacedStreamControl,
}

#[verifier::ext_equal]
pub struct VulkanStreamControlWriteView {
    pub buffer: VulkanResidentBufferView,
    pub byte_offset: usize,
    pub control: VulkanMountedPlacedStreamControl,
}

impl DeepView for VulkanStreamControlWrite {
    type V = VulkanStreamControlWriteView;

    open spec fn deep_view(&self) -> VulkanStreamControlWriteView {
        VulkanStreamControlWriteView {
            buffer: self.buffer.deep_view(),
            byte_offset: self.byte_offset,
            control: self.control,
        }
    }
}

impl View for VulkanStreamControlWrite {
    type V = VulkanStreamControlWriteView;

    open spec fn view(&self) -> VulkanStreamControlWriteView {
        self.deep_view()
    }
}

impl Clone for VulkanStreamControlWrite {
    fn clone(&self) -> (r: Self)
        ensures
            r@ == self@,
    {
        VulkanStreamControlWrite {
            buffer: self.buffer.clone(),
            byte_offset: self.byte_offset,
            control: self.control,
        }
    }
}

/// What is written into a control buffer: where the stream stands, behind the stream's token.
pub open spec fn control_write(
    buffer: VulkanResidentBufferView,
    control: VulkanMountedPlacedStreamControl,
) -> VulkanStreamControlWriteView {
    VulkanStreamControlWriteView {
        buffer,
        byte_offset: VULKAN_STREAM_CONTROL_METADATA_OFFSET,
        control,
    }
}

impl VulkanStreamControlWrite {
    /// What is written into a control buffer.
    pub fn into_buffer(
        buffer: &VulkanResidentBuffer,
        control: VulkanMountedPlacedStreamControl,
    ) -> (r: Self)
        ensures
            r@ == control_write(buffer@, control),
    {
        VulkanStreamControlWrite {
            buffer: buffer.clone(),
            byte_offset: VULKAN_STREAM_CONTROL_METADATA_OFFSET,
            control,
        }
    }
}

/// Where a stream stands is written into the given buffer behind the word of the stream's token, and
/// up to the buffer's end: eight bytes for the tick, and four each for the flags and the capacity.
pub proof fn control_lies_behind_the_token(
    buffer: VulkanResidentBufferView,
    control: VulkanMountedPlacedStreamControl,
)
    ensures
        control_write(buffer, control).buffer == buffer,
        control_write(buffer, control).control == control,
        control_write(buffer, control).byte_offset == 4,
        control_write(buffer, control).byte_offset + 8 + 4 + 4
            == VULKAN_STREAM_CONTROL_BYTE_CAPACITY,
{
}

} // verus!
