//! The runners of a mounted circuit.

use crate::circuit_mount::VulkanMountedPlacedStreamCircuit;
use crate::device::VulkanComputeDevice;
use crate::mounted_dispatch::VulkanMountedPlacedBoundDispatchPlan;
use crate::pedal_runner;
use crate::pedal_runner::VulkanMountedPlacedResidentPedalRunner;
use crate::pedal_runner::VulkanMountedPlacedResidentPedalboardRunner;
use crate::resident_dispatch::VulkanMountedPlacedResidentKernelDispatchError;
use crate::reusable_kernels::VulkanLoadedReusableKernelArtifactManifest;
use crate::sequence;
use vstd::prelude::*;

verus! {

impl VulkanMountedPlacedStreamCircuit {
    /// The launches of one pedal.
    pub fn create_resident_pedal_runner(
        &self,
        device: &VulkanComputeDevice,
        mounted_bound_plan: &VulkanMountedPlacedBoundDispatchPlan,
        pedal_id: &str,
        loaded_manifest: &VulkanLoadedReusableKernelArtifactManifest,
    ) -> (r: Result<
        VulkanMountedPlacedResidentPedalRunner,
        VulkanMountedPlacedResidentKernelDispatchError,
    >)
        ensures
            sequence::outcome(r) == pedal_runner::pedal_runner(
                self@,
                device@.device_id,
                mounted_bound_plan@,
                pedal_id@,
                loaded_manifest@,
            ),
    {
        VulkanMountedPlacedResidentPedalRunner::from_mounted_bound_plan(
            device,
            self,
            mounted_bound_plan,
            pedal_id,
            loaded_manifest,
        )
    }

    /// The launches of the pedals of a device, in the order in which they run.
    pub fn create_resident_pedalboard_runner(
        &self,
        device: &VulkanComputeDevice,
        mounted_bound_plan: &VulkanMountedPlacedBoundDispatchPlan,
        pedal_ids: &Vec<String>,
        loaded_manifest: &VulkanLoadedReusableKernelArtifactManifest,
    ) -> (r: Result<
        VulkanMountedPlacedResidentPedalboardRunner,
        VulkanMountedPlacedResidentKernelDispatchError,
    >)
        ensures
            sequence::outcome(r) == pedal_runner::pedalboard_runner(
                self@,
                device@.device_id,
                mounted_bound_plan@,
                pedal_ids.deep_view(),
                loaded_manifest@,
            ),
    {
        VulkanMountedPlacedResidentPedalboardRunner::from_mounted_bound_plan(
            device,
            self,
            mounted_bound_plan,
            pedal_ids,
            loaded_manifest,
        )
    }
}

} // verus!
