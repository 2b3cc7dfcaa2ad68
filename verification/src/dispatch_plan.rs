//! Dispatches prepared from linked kernels and resolved descriptors.

use crate::descriptor_resources::VulkanDescriptorResourcePlan;
use crate::descriptor_resources::VulkanDescriptorResourcePlanError;
use crate::descriptor_resources::VulkanDescriptorResourcePlanView;
use crate::descriptor_resources::VulkanDispatchDescriptorResourcePlan;
use crate::descriptor_resources::VulkanDispatchDescriptorResourcePlanView;
use crate::descriptor_resources::VulkanResolvedDescriptorBinding;
use crate::descriptor_resources::VulkanResolvedDescriptorBindingView;
use crate::kernel_interface;
use crate::kernel_interface::VulkanKernelDispatchCommand;
use crate::kernel_interface::VulkanKernelDispatchCommandView;
use crate::kernel_interface::VulkanKernelDispatchPlan;
use crate::kernel_interface::VulkanKernelDispatchPlanView;
use crate::kernel_interface::VulkanKernelScalarBinding;
use crate::kernel_interface::VulkanKernelScalarBindingView;
use crate::resident_plan::VULKAN_STREAM_CIRCUIT_BACKEND_ID;
use crate::reusable_kernels;
use crate::reusable_kernels::VulkanLinkedReusableKernelPlan;
use crate::reusable_kernels::VulkanLinkedReusableKernelPlanView;
use crate::reusable_kernels::VulkanReusableKernelArtifactManifest;
use crate::reusable_kernels::VulkanReusableKernelArtifactManifestView;
use crate::reusable_kernels::VulkanReusableKernelPlan;
use crate::reusable_kernels::VulkanReusableKernelPlanView;
use crate::sequence;
use crate::text;
use crate::text::Message;
use vstd::prelude::*;

verus! {

/// A dispatch with its artifact and its resolved descriptors.
#[derive(Debug, PartialEq, Eq)]
pub struct VulkanPreparedDispatch {
    pub dispatch_index: usize,
    pub kernel_id: String,
    pub component_id: String,
    pub circuit_id: String,
    pub node_index: usize,
    pub node_id: String,
    pub op: String,
    pub reusable_family_id: String,
    pub artifact_path: String,
    pub entry_point: String,
    pub local_size_x: u32,
    pub descriptors: Vec<VulkanResolvedDescriptorBinding>,
    pub push_constants: Vec<VulkanKernelScalarBinding>,
    pub uses_stream_tick: bool,
}

#[verifier::ext_equal]
pub struct VulkanPreparedDispatchView {
    pub dispatch_index: usize,
    pub kernel_id: Seq<char>,
    pub component_id: Seq<char>,
    pub circuit_id: Seq<char>,
    pub node_index: usize,
    pub node_id: Seq<char>,
    pub op: Seq<char>,
    pub reusable_family_id: Seq<char>,
    pub artifact_path: Seq<char>,
    pub entry_point: Seq<char>,
    pub local_size_x: u32,
    pub descriptors: Seq<VulkanResolvedDescriptorBindingView>,
    pub push_constants: Seq<VulkanKernelScalarBindingView>,
    pub uses_stream_tick: bool,
}

impl DeepView for VulkanPreparedDispatch {
    type V = VulkanPreparedDispatchView;

    open spec fn deep_view(&self) -> VulkanPreparedDispatchView {
        VulkanPreparedDispatchView {
            dispatch_index: self.dispatch_index,
            kernel_id: self.kernel_id.deep_view(),
            component_id: self.component_id.deep_view(),
            circuit_id: self.circuit_id.deep_view(),
            node_index: self.node_index,
            node_id: self.node_id.deep_view(),
            op: self.op.deep_view(),
            reusable_family_id: self.reusable_family_id.deep_view(),
            artifact_path: self.artifact_path.deep_view(),
            entry_point: self.entry_point.deep_view(),
            local_size_x: self.local_size_x,
            descriptors: self.descriptors.deep_view(),
            push_constants: self.push_constants.deep_view(),
            uses_stream_tick: self.uses_stream_tick,
        }
    }
}

impl View for VulkanPreparedDispatch {
    type V = VulkanPreparedDispatchView;

    open spec fn view(&self) -> VulkanPreparedDispatchView {
        self.deep_view()
    }
}

impl Clone for VulkanPreparedDispatch {
    fn clone(&self) -> (r: Self)
        ensures
            r@ == self@,
    {
        VulkanPreparedDispatch {
            dispatch_index: self.dispatch_index,
            kernel_id: self.kernel_id.clone(),
            component_id: self.component_id.clone(),
            circuit_id: self.circuit_id.clone(),
            node_index: self.node_index,
            node_id: self.node_id.clone(),
            op: self.op.clone(),
            reusable_family_id: self.reusable_family_id.clone(),
            artifact_path: self.artifact_path.clone(),
            entry_point: self.entry_point.clone(),
            local_size_x: self.local_size_x,
            descriptors: self.descriptors.clone(),
            push_constants: self.push_constants.clone(),
            uses_stream_tick: self.uses_stream_tick,
        }
    }
}

/// The dispatches of one placed circuit.
#[derive(Debug, PartialEq, Eq)]
pub struct VulkanPreparedDispatchPlan {
    pub backend_id: String,
    pub reusable_family_count: usize,
    pub dispatches: Vec<VulkanPreparedDispatch>,
    pub total_descriptor_count: usize,
}

#[verifier::ext_equal]
pub struct VulkanPreparedDispatchPlanView {
    pub backend_id: Seq<char>,
    pub reusable_family_count: usize,
    pub dispatches: Seq<VulkanPreparedDispatchView>,
    pub total_descriptor_count: usize,
}

impl DeepView for VulkanPreparedDispatchPlan {
    type V = VulkanPreparedDispatchPlanView;

    open spec fn deep_view(&self) -> VulkanPreparedDispatchPlanView {
        VulkanPreparedDispatchPlanView {
            backend_id: self.backend_id.deep_view(),
            reusable_family_count: self.reusable_family_count,
            dispatches: self.dispatches.deep_view(),
            total_descriptor_count: self.total_descriptor_count,
        }
    }
}

impl View for VulkanPreparedDispatchPlan {
    type V = VulkanPreparedDispatchPlanView;

    open spec fn view(&self) -> VulkanPreparedDispatchPlanView {
        self.deep_view()
    }
}

impl Clone for VulkanPreparedDispatchPlan {
    fn clone(&self) -> (r: Self)
        ensures
            r@ == self@,
    {
        VulkanPreparedDispatchPlan {
            backend_id: self.backend_id.clone(),
            reusable_family_count: self.reusable_family_count,
            dispatches: self.dispatches.clone(),
            total_descriptor_count: self.total_descriptor_count,
        }
    }
}

/// Why launches cannot be prepared.
#[derive(Debug, PartialEq, Eq)]
pub enum VulkanPreparedDispatchPlanError {
    DescriptorResource(VulkanDescriptorResourcePlanError),
    Link(Box<VulkanLinkedReusableKernelPlan>),
    MissingDescriptorResources { dispatch_index: usize },
    MissingReusableFamily { dispatch_index: usize },
    MissingLinkedArtifact { family_id: String },
}

#[verifier::ext_equal]
pub enum VulkanPreparedDispatchPlanErrorView {
    DescriptorResource(Seq<char>),
    Link(VulkanLinkedReusableKernelPlanView),
    MissingDescriptorResources { dispatch_index: usize },
    MissingReusableFamily { dispatch_index: usize },
    MissingLinkedArtifact { family_id: Seq<char> },
}

impl DeepView for VulkanPreparedDispatchPlanError {
    type V = VulkanPreparedDispatchPlanErrorView;

    open spec fn deep_view(&self) -> VulkanPreparedDispatchPlanErrorView {
        match self {
            VulkanPreparedDispatchPlanError::DescriptorResource(value) => VulkanPreparedDispatchPlanErrorView::DescriptorResource(value.deep_view()),
            VulkanPreparedDispatchPlanError::Link(value) => VulkanPreparedDispatchPlanErrorView::Link(value.deep_view()),
            VulkanPreparedDispatchPlanError::MissingDescriptorResources { dispatch_index } => VulkanPreparedDispatchPlanErrorView::MissingDescriptorResources { dispatch_index: *dispatch_index },
            VulkanPreparedDispatchPlanError::MissingReusableFamily { dispatch_index } => VulkanPreparedDispatchPlanErrorView::MissingReusableFamily { dispatch_index: *dispatch_index },
            VulkanPreparedDispatchPlanError::MissingLinkedArtifact { family_id } => VulkanPreparedDispatchPlanErrorView::MissingLinkedArtifact { family_id: family_id.deep_view() },
        }
    }
}

impl View for VulkanPreparedDispatchPlanError {
    type V = VulkanPreparedDispatchPlanErrorView;

    open spec fn view(&self) -> VulkanPreparedDispatchPlanErrorView {
        self.deep_view()
    }
}

impl Clone for VulkanPreparedDispatchPlanError {
    fn clone(&self) -> (r: Self)
        ensures
            r@ == self@,
    {
        match self {
            VulkanPreparedDispatchPlanError::DescriptorResource(value) => VulkanPreparedDispatchPlanError::DescriptorResource(value.clone()),
            VulkanPreparedDispatchPlanError::Link(value) => VulkanPreparedDispatchPlanError::Link(value.clone()),
            VulkanPreparedDispatchPlanError::MissingDescriptorResources { dispatch_index } => VulkanPreparedDispatchPlanError::MissingDescriptorResources { dispatch_index: *dispatch_index },
            VulkanPreparedDispatchPlanError::MissingReusableFamily { dispatch_index } => VulkanPreparedDispatchPlanError::MissingReusableFamily { dispatch_index: *dispatch_index },
            VulkanPreparedDispatchPlanError::MissingLinkedArtifact { family_id } => VulkanPreparedDispatchPlanError::MissingLinkedArtifact { family_id: family_id.clone() },
        }
    }
}

/// What is said of a preparation that failed.
pub open spec fn preparation_message(error: VulkanPreparedDispatchPlanErrorView) -> Seq<char> {
    match error {
        VulkanPreparedDispatchPlanErrorView::DescriptorResource(message) => message,
        VulkanPreparedDispatchPlanErrorView::Link(plan) => {
            "reusable Vulkan kernels are not fully linked: "@ + text::decimal(
                plan.missing_family_count as nat,
            ) + " missing families, "@ + text::decimal(plan.incompatible_family_count as nat)
                + " incompatible families"@
        },
        VulkanPreparedDispatchPlanErrorView::MissingDescriptorResources { dispatch_index } => {
            "dispatch "@ + text::decimal(dispatch_index as nat)
                + " has no resolved descriptor resources"@
        },
        VulkanPreparedDispatchPlanErrorView::MissingReusableFamily { dispatch_index } => {
            "dispatch "@ + text::decimal(dispatch_index as nat) + " has no reusable kernel family"@
        },
        VulkanPreparedDispatchPlanErrorView::MissingLinkedArtifact { family_id } => {
            "reusable family "@ + text::quoted(family_id) + " has no linked artifact"@
        },
    }
}

impl VulkanPreparedDispatchPlanError {
    /// What is wrong.
    pub fn to_string(&self) -> (r: String)
        ensures
            r@ == preparation_message(self@),
    {
        match self {
            VulkanPreparedDispatchPlanError::DescriptorResource(error) => error.to_string(),
            VulkanPreparedDispatchPlanError::Link(plan) => Message::new(
                "reusable Vulkan kernels are not fully linked: ",
            ).number(plan.missing_family_count).text(" missing families, ").number(
                plan.incompatible_family_count,
            ).text(" incompatible families").done(),
            VulkanPreparedDispatchPlanError::MissingDescriptorResources { dispatch_index } => {
                Message::new("dispatch ").number(*dispatch_index).text(
                    " has no resolved descriptor resources",
                ).done()
            },
            VulkanPreparedDispatchPlanError::MissingReusableFamily { dispatch_index } => {
                Message::new("dispatch ").number(*dispatch_index).text(
                    " has no reusable kernel family",
                ).done()
            },
            VulkanPreparedDispatchPlanError::MissingLinkedArtifact { family_id } => {
                Message::new("reusable family ").quoted(family_id.as_str()).text(
                    " has no linked artifact",
                ).done()
            },
        }
    }
}

/// Whether resolved descriptors are those of a launch.
pub open spec fn resolved_for(dispatch_index: usize) -> spec_fn(
    VulkanDispatchDescriptorResourcePlanView,
) -> bool {
    |dispatch: VulkanDispatchDescriptorResourcePlanView| dispatch.dispatch_index == dispatch_index
}

/// How a launch is prepared: its resolved descriptors, its family and the family's artifact are
/// looked up in this order, and of several the last counts.
pub open spec fn prepare_step(
    reusable_plan: VulkanReusableKernelPlanView,
    descriptor_plan: VulkanDescriptorResourcePlanView,
    manifest: VulkanReusableKernelArtifactManifestView,
) -> spec_fn(VulkanKernelDispatchCommandView) -> Result<
    VulkanPreparedDispatchView,
    VulkanPreparedDispatchPlanErrorView,
> {
    |command: VulkanKernelDispatchCommandView|
        match sequence::find_last(
            descriptor_plan.dispatches,
            resolved_for(command.dispatch_index),
        ) {
            None => Err(
                VulkanPreparedDispatchPlanErrorView::MissingDescriptorResources {
                    dispatch_index: command.dispatch_index,
                },
            ),
            Some(resolved) => match sequence::find_last(
                reusable_plan.families,
                reusable_kernels::serves_dispatch(command.dispatch_index),
            ) {
                None => Err(
                    VulkanPreparedDispatchPlanErrorView::MissingReusableFamily {
                        dispatch_index: command.dispatch_index,
                    },
                ),
                Some(family) => match sequence::find_last(
                    manifest.artifacts,
                    reusable_kernels::compiled_for(family.family_id),
                ) {
                    None => Err(
                        VulkanPreparedDispatchPlanErrorView::MissingLinkedArtifact {
                            family_id: family.family_id,
                        },
                    ),
                    Some(artifact) => Ok(
                        VulkanPreparedDispatchView {
                            dispatch_index: command.dispatch_index,
                            kernel_id: command.kernel_id,
                            component_id: command.component_id,
                            circuit_id: command.circuit_id,
                            node_index: command.node_index,
                            node_id: command.node_id,
                            op: command.op,
                            reusable_family_id: family.family_id,
                            artifact_path: artifact.path,
                            entry_point: artifact.entry_point,
                            local_size_x: artifact.local_size_x,
                            descriptors: resolved.descriptors,
                            push_constants: command.push_constants,
                            uses_stream_tick: command.uses_stream_tick,
                        },
                    ),
                },
            },
        }
}

/// The number of descriptors of a prepared launch.
pub open spec fn prepared_descriptor_count() -> spec_fn(VulkanPreparedDispatchView) -> nat {
    |dispatch: VulkanPreparedDispatchView| dispatch.descriptors.len()
}

/// The launches of a stream, prepared.
pub open spec fn prepared_dispatches(
    dispatch_plan: VulkanKernelDispatchPlanView,
    reusable_plan: VulkanReusableKernelPlanView,
    descriptor_plan: VulkanDescriptorResourcePlanView,
    manifest: VulkanReusableKernelArtifactManifestView,
) -> Result<Seq<VulkanPreparedDispatchView>, VulkanPreparedDispatchPlanErrorView> {
    let link_plan = reusable_kernels::linked_plan(reusable_plan, manifest);
    if !reusable_kernels::fully_linked(link_plan) {
        Err(VulkanPreparedDispatchPlanErrorView::Link(link_plan))
    } else {
        sequence::try_map(
            dispatch_plan.commands,
            prepare_step(reusable_plan, descriptor_plan, manifest),
        )
    }
}

/// The launches of a stream, prepared, with the number of families and descriptors.
#[verifier::opaque]
pub open spec fn prepared_plan(
    dispatch_plan: VulkanKernelDispatchPlanView,
    reusable_plan: VulkanReusableKernelPlanView,
    descriptor_plan: VulkanDescriptorResourcePlanView,
    manifest: VulkanReusableKernelArtifactManifestView,
) -> Result<VulkanPreparedDispatchPlanView, VulkanPreparedDispatchPlanErrorView> {
    match prepared_dispatches(dispatch_plan, reusable_plan, descriptor_plan, manifest) {
        Err(error) => Err(error),
        Ok(dispatches) => Ok(
            VulkanPreparedDispatchPlanView {
                backend_id: VULKAN_STREAM_CIRCUIT_BACKEND_ID@,
                reusable_family_count: reusable_plan.families.len() as usize,
                dispatches,
                total_descriptor_count: sequence::total(
                    dispatches,
                    prepared_descriptor_count(),
                ) as usize,
            },
        ),
    }
}

#[verifier::loop_isolation(false)]
fn find_resolved<'a>(
    dispatches: &'a Vec<VulkanDispatchDescriptorResourcePlan>,
    dispatch_index: usize,
) -> (r: Option<&'a VulkanDispatchDescriptorResourcePlan>)
    ensures
        r.deep_view() == sequence::find_last(dispatches.deep_view(), resolved_for(dispatch_index)),
{
    let ghost all = dispatches.deep_view();
    let ghost p = resolved_for(dispatch_index);
    let mut i: usize = dispatches.len();
    while i > 0
        invariant
            i <= dispatches.len(),
            forall|j: int| i <= j < all.len() ==> !p(#[trigger] all[j]),
        decreases i,
    {
        i -= 1;
        let item = &dispatches[i];
        assert(all[i as int] == item.deep_view());
        if item.dispatch_index == dispatch_index {
            proof {
                sequence::lemma_find_last_at(all, p, i as int);
            }
            return Some(item);
        }
    }
    proof {
        sequence::lemma_find_last_none(all, p);
    }
    None
}

fn copy_descriptors(descriptors: &Vec<VulkanResolvedDescriptorBinding>) -> (r: Vec<
    VulkanResolvedDescriptorBinding,
>)
    ensures
        r.deep_view() == descriptors.deep_view(),
{
    let copy: Vec<VulkanResolvedDescriptorBinding> = descriptors.clone();
    assert(copy.deep_view() =~= descriptors.deep_view());
    copy
}

fn prepare_dispatch(
    command: &VulkanKernelDispatchCommand,
    reusable_plan: &VulkanReusableKernelPlan,
    descriptor_plan: &VulkanDescriptorResourcePlan,
    manifest: &VulkanReusableKernelArtifactManifest,
) -> (r: Result<VulkanPreparedDispatch, VulkanPreparedDispatchPlanError>)
    ensures
        sequence::outcome(r) == prepare_step(reusable_plan@, descriptor_plan@, manifest@)(command@),
{
    let resolved = match find_resolved(&descriptor_plan.dispatches, command.dispatch_index) {
        None => {
            return Err(
                VulkanPreparedDispatchPlanError::MissingDescriptorResources {
                    dispatch_index: command.dispatch_index,
                },
            );
        },
        Some(resolved) => resolved,
    };
    let family = match reusable_kernels::family_of_dispatch(
        &reusable_plan.families,
        command.dispatch_index,
    ) {
        None => {
            return Err(
                VulkanPreparedDispatchPlanError::MissingReusableFamily {
                    dispatch_index: command.dispatch_index,
                },
            );
        },
        Some(family) => family,
    };
    match reusable_kernels::last_artifact(&manifest.artifacts, family.family_id.as_str()) {
        None => Err(
            VulkanPreparedDispatchPlanError::MissingLinkedArtifact {
                family_id: family.family_id.clone(),
            },
        ),
        Some(artifact) => Ok(
            VulkanPreparedDispatch {
                dispatch_index: command.dispatch_index,
                kernel_id: command.kernel_id.clone(),
                component_id: command.component_id.clone(),
                circuit_id: command.circuit_id.clone(),
                node_index: command.node_index,
                node_id: command.node_id.clone(),
                op: command.op.clone(),
                reusable_family_id: family.family_id.clone(),
                artifact_path: artifact.path.clone(),
                entry_point: artifact.entry_point.clone(),
                local_size_x: artifact.local_size_x,
                descriptors: copy_descriptors(&resolved.descriptors),
                push_constants: kernel_interface::copy_scalars(&command.push_constants),
                uses_stream_tick: command.uses_stream_tick,
            },
        ),
    }
}

/// Whether a launch is that of a node.
pub open spec fn prepared_dispatch_named(component_id: Seq<char>, node_id: Seq<char>) -> spec_fn(
    VulkanPreparedDispatchView,
) -> bool {
    |dispatch: VulkanPreparedDispatchView|
        dispatch.component_id == component_id && dispatch.node_id == node_id
}

impl VulkanPreparedDispatchPlan {
    /// Prepares the launches of a stream with the artifacts of a manifest.
    #[verifier::loop_isolation(false)]
    pub fn from_plans(
        dispatch_plan: &VulkanKernelDispatchPlan,
        reusable_plan: &VulkanReusableKernelPlan,
        descriptor_plan: &VulkanDescriptorResourcePlan,
        manifest: &VulkanReusableKernelArtifactManifest,
    ) -> (r: Result<Self, VulkanPreparedDispatchPlanError>)
        requires
            prepared_dispatches(
                dispatch_plan@,
                reusable_plan@,
                descriptor_plan@,
                manifest@,
            ) matches Ok(dispatches) ==> sequence::total(dispatches, prepared_descriptor_count())
                <= usize::MAX,
        ensures
            sequence::outcome(r) == prepared_plan(
                dispatch_plan@,
                reusable_plan@,
                descriptor_plan@,
                manifest@,
            ),
    {
        reveal(prepared_plan);
        let link_plan: VulkanLinkedReusableKernelPlan = reusable_plan.link_artifacts(manifest);
        if !link_plan.is_fully_linked() {
            return Err(VulkanPreparedDispatchPlanError::Link(Box::new(link_plan)));
        }
        let ghost all_dispatches = dispatch_plan.commands.deep_view();
        let ghost step_dispatches = prepare_step(reusable_plan@, descriptor_plan@, manifest@);
        let mut dispatches: Vec<VulkanPreparedDispatch> = Vec::new();
        let mut i: usize = 0;
        assert(all_dispatches.take(0) =~= Seq::empty());
        assert(dispatches.deep_view() =~= Seq::empty());
        while i < dispatch_plan.commands.len()
            invariant
                i <= dispatch_plan.commands.len(),
                sequence::try_map(all_dispatches.take(i as int), step_dispatches) is Ok,
                sequence::try_map(all_dispatches.take(i as int), step_dispatches)->Ok_0 == dispatches.deep_view(),
            decreases dispatch_plan.commands.len() - i,
        {
            let item = &dispatch_plan.commands[i];
            assert(all_dispatches[i as int] == item.deep_view());
            proof {
                sequence::lemma_try_map_step(all_dispatches, step_dispatches, i as int);
                if sequence::try_map(all_dispatches.take(i + 1), step_dispatches) is Err {
                    sequence::lemma_try_map_error(all_dispatches, step_dispatches, i + 1);
                }
            }
            match prepare_dispatch(item, reusable_plan, descriptor_plan, manifest) {
                Ok(added) => {
                    let ghost before = dispatches.deep_view();
                    let ghost value = added.deep_view();
                    dispatches.push(added);
                    assert(dispatches.deep_view() =~= before.push(value));
                },
                Err(error) => {
                    return Err(error);
                },
            }
            i += 1;
        }
        assert(all_dispatches.take(all_dispatches.len() as int) =~= all_dispatches);
        let ghost all_total_descriptor_count = dispatches.deep_view();
        let ghost size_total_descriptor_count = prepared_descriptor_count();
        let mut total_descriptor_count: usize = 0;
        let mut j: usize = 0;
        assert(all_total_descriptor_count.take(0) =~= Seq::empty());
        while j < dispatches.len()
            invariant
                j <= dispatches.len(),
                total_descriptor_count == sequence::total(all_total_descriptor_count.take(j as int), size_total_descriptor_count),
            decreases dispatches.len() - j,
        {
            let item = &dispatches[j];
            proof {
                sequence::lemma_total_step(all_total_descriptor_count, size_total_descriptor_count, j as int);
                sequence::lemma_total_prefix(all_total_descriptor_count, size_total_descriptor_count, j + 1);
                assert(all_total_descriptor_count[j as int] == item.deep_view());
                assert(item@.descriptors.len() == item.descriptors@.len());
            }
            total_descriptor_count = total_descriptor_count + item.descriptors.len();
            j += 1;
        }
        assert(all_total_descriptor_count.take(all_total_descriptor_count.len() as int) =~= all_total_descriptor_count);
        Ok(
            VulkanPreparedDispatchPlan {
                backend_id: VULKAN_STREAM_CIRCUIT_BACKEND_ID.to_owned(),
                reusable_family_count: reusable_plan.total_family_count(),
                dispatches,
                total_descriptor_count,
            },
        )
    }

    /// The first launch of a node.
    #[verifier::loop_isolation(false)]
    pub fn dispatch(&self, component_id: &str, node_id: &str) -> (r: Option<&VulkanPreparedDispatch>)
        ensures
            r.deep_view() == sequence::find_first(
                self@.dispatches,
                prepared_dispatch_named(component_id@, node_id@),
            ),
    {
        let ghost all = self.dispatches.deep_view();
        let ghost p = prepared_dispatch_named(component_id@, node_id@);
        let mut i: usize = 0;
        while i < self.dispatches.len()
            invariant
                i <= self.dispatches.len(),
                forall|j: int| 0 <= j < i ==> !p(#[trigger] all[j]),
            decreases self.dispatches.len() - i,
        {
            let item = &self.dispatches[i];
            assert(all[i as int] == item.deep_view());
            if text::same(item.component_id.as_str(), component_id) && text::same(item.node_id.as_str(), node_id) {
                proof {
                    sequence::lemma_find_first_at(all, p, i as int);
                }
                return Some(item);
            }
            i += 1;
        }
        proof {
            sequence::lemma_find_first_none(all, p);
        }
        None
    }
}

/// Preparing keeps the launches in order, each with its family's artifact.
pub proof fn preparing_keeps_the_launches(
    dispatch_plan: VulkanKernelDispatchPlanView,
    reusable_plan: VulkanReusableKernelPlanView,
    descriptor_plan: VulkanDescriptorResourcePlanView,
    manifest: VulkanReusableKernelArtifactManifestView,
    i: int,
)
    requires
        prepared_plan(dispatch_plan, reusable_plan, descriptor_plan, manifest) is Ok,
        0 <= i < dispatch_plan.commands.len(),
    ensures
        ({
            let plan = prepared_plan(
                dispatch_plan,
                reusable_plan,
                descriptor_plan,
                manifest,
            )->Ok_0;
            &&& reusable_kernels::fully_linked(
                reusable_kernels::linked_plan(reusable_plan, manifest),
            )
            &&& plan.dispatches.len() == dispatch_plan.commands.len()
            &&& plan.dispatches[i].dispatch_index == dispatch_plan.commands[i].dispatch_index
            &&& plan.dispatches[i].node_id == dispatch_plan.commands[i].node_id
            &&& exists|k: int|
                0 <= k < reusable_plan.families.len() && (#[trigger] reusable_plan.families[k]).family_id
                    == plan.dispatches[i].reusable_family_id
        }),
{
    reveal(prepared_plan);
    let step = prepare_step(reusable_plan, descriptor_plan, manifest);
    let command = dispatch_plan.commands[i];
    sequence::lemma_try_map_ok(dispatch_plan.commands, step);
    assert(step(dispatch_plan.commands[i]) is Ok);
    let k = sequence::lemma_find_last_some(
        reusable_plan.families,
        reusable_kernels::serves_dispatch(command.dispatch_index),
    );
    assert(reusable_plan.families[k].family_id == step(command)->Ok_0.reusable_family_id);
}

/// A prepared launch is the launch itself, with what belongs to it: the last resolved descriptors
/// under its number, the last family that serves it and the last artifact that was compiled for that
/// family.
pub proof fn prepared_launches_have_what_is_theirs(
    dispatch_plan: VulkanKernelDispatchPlanView,
    reusable_plan: VulkanReusableKernelPlanView,
    descriptor_plan: VulkanDescriptorResourcePlanView,
    manifest: VulkanReusableKernelArtifactManifestView,
    i: int,
)
    requires
        prepared_plan(dispatch_plan, reusable_plan, descriptor_plan, manifest) is Ok,
        0 <= i < dispatch_plan.commands.len(),
    ensures
        ({
            let launch = prepared_plan(
                dispatch_plan,
                reusable_plan,
                descriptor_plan,
                manifest,
            )->Ok_0.dispatches[i];
            let command = dispatch_plan.commands[i];
            &&& launch.kernel_id == command.kernel_id
            &&& launch.component_id == command.component_id
            &&& launch.circuit_id == command.circuit_id
            &&& launch.node_index == command.node_index
            &&& launch.op == command.op
            &&& launch.push_constants == command.push_constants
            &&& launch.uses_stream_tick == command.uses_stream_tick
            &&& exists|d: int|
                0 <= d < descriptor_plan.dispatches.len() && {
                    let resolved = #[trigger] descriptor_plan.dispatches[d];
                    &&& resolved.dispatch_index == command.dispatch_index
                    &&& resolved.descriptors == launch.descriptors
                    &&& forall|e: int|
                        d < e < descriptor_plan.dispatches.len() ==> (
                        #[trigger] descriptor_plan.dispatches[e]).dispatch_index
                            != command.dispatch_index
                }
            &&& exists|f: int|
                0 <= f < reusable_plan.families.len() && {
                    let family = #[trigger] reusable_plan.families[f];
                    &&& exists|r: int|
                        0 <= r < family.command_refs.len() && (
                        #[trigger] family.command_refs[r]).dispatch_index == command.dispatch_index
                    &&& family.family_id == launch.reusable_family_id
                }
            &&& exists|a: int|
                0 <= a < manifest.artifacts.len() && {
                    let artifact = #[trigger] manifest.artifacts[a];
                    &&& artifact.family_id == launch.reusable_family_id
                    &&& artifact.path == launch.artifact_path
                    &&& artifact.entry_point == launch.entry_point
                    &&& artifact.local_size_x == launch.local_size_x
                    &&& forall|b: int|
                        a < b < manifest.artifacts.len() ==> (
                        #[trigger] manifest.artifacts[b]).family_id != launch.reusable_family_id
                }
        }),
{
    reveal(prepared_plan);
    let step = prepare_step(reusable_plan, descriptor_plan, manifest);
    let command = dispatch_plan.commands[i];
    sequence::lemma_try_map_ok(dispatch_plan.commands, step);
    assert(step(dispatch_plan.commands[i]) is Ok);
    let launch = step(command)->Ok_0;
    let d = sequence::lemma_find_last_some(
        descriptor_plan.dispatches,
        resolved_for(command.dispatch_index),
    );
    assert(descriptor_plan.dispatches[d].descriptors == launch.descriptors);
    let f = sequence::lemma_find_last_some(
        reusable_plan.families,
        reusable_kernels::serves_dispatch(command.dispatch_index),
    );
    assert(reusable_plan.families[f].family_id == launch.reusable_family_id);
    assert(reusable_kernels::serves_dispatch(command.dispatch_index)(reusable_plan.families[f]));
    assert(sequence::any(
        reusable_plan.families[f].command_refs,
        reusable_kernels::ref_numbered(command.dispatch_index),
    ));
    let a = sequence::lemma_find_last_some(
        manifest.artifacts,
        reusable_kernels::compiled_for(launch.reusable_family_id),
    );
    assert(manifest.artifacts[a].path == launch.artifact_path);
}

/// A prepared dispatch is found by its component and its node: the first that has both, and none where
/// none has.
pub proof fn prepared_dispatches_are_found_by_name(
    all: Seq<VulkanPreparedDispatchView>,
    component_id: Seq<char>,
    node_id: Seq<char>,
    j: int,
)
    ensures
        match sequence::find_first(all, prepared_dispatch_named(component_id, node_id)) {
            Some(found) => exists|i: int|
                {
                    &&& 0 <= i < all.len()
                    &&& found == #[trigger] all[i]
                    &&& all[i].component_id == component_id
                    &&& all[i].node_id == node_id
                    &&& 0 <= j < i ==> !(all[j].component_id == component_id && all[j].node_id == node_id)
                },
            None => 0 <= j < all.len() ==> !(all[j].component_id == component_id && all[j].node_id == node_id),
        },
{
    let p = prepared_dispatch_named(component_id, node_id);
    if 0 <= j < all.len() {
        assert(p(all[j]) <==> all[j].component_id == component_id && all[j].node_id == node_id);
    }
    if sequence::find_first(all, p) is Some {
        let i = sequence::lemma_find_first_some(all, p);
        assert(p(all[i]));
        assert(sequence::find_first(all, p)->Some_0 == all[i]);
    } else {
        sequence::lemma_find_none_all(all, p);
    }
}

} // verus!
