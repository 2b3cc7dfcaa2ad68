//! The distributed execution plan: which dispatches are split, and how.

use crate::descriptor_resources::VulkanDescriptorResourceAddress;
use crate::descriptor_resources::VulkanDescriptorResourceAddressView;
use crate::descriptor_resources::VulkanResolvedDescriptorBinding;
use crate::descriptor_resources::VulkanResolvedDescriptorBindingView;
use crate::dispatch_plan::VulkanPreparedDispatch;
use crate::dispatch_plan::VulkanPreparedDispatchPlan;
use crate::dispatch_plan::VulkanPreparedDispatchPlanView;
use crate::dispatch_plan::VulkanPreparedDispatchView;
use crate::kernel_interface::VulkanKernelScalarBinding;
use crate::kernel_interface::VulkanKernelScalarBindingView;
use crate::reusable_kernels;
use crate::reusable_kernels::VulkanReusableKernelArtifactManifest;
use crate::reusable_kernels::VulkanReusableKernelArtifactView;
use crate::sequence;
use crate::tensors::TensorIndex;
use crate::tensors::TensorMetadata;
use crate::tensors::TensorMetadataView;
use crate::text;
use crate::text::Message;
use vstd::prelude::*;

verus! {

/// The projection that is split by output rows.
pub const DISTRIBUTABLE_PARALLEL_PROJECTION_OP: &'static str = "parallel_linear_silu_multiply";

/// The sparse expert operations, which are split by experts.
pub const SPARSE_GATE_UP_OP: &'static str = "sparse_moe_gate_up";

pub const SPARSE_DOWN_OP: &'static str = "sparse_moe_down";

/// Bytes of one BF16 element.
pub const BF16_BYTE_COUNT: usize = 2;

/// Why a distributed plan was refused.
#[derive(Debug, PartialEq, Eq)]
pub struct VulkanDistributedPlanError(pub String);

impl DeepView for VulkanDistributedPlanError {
    type V = Seq<char>;

    open spec fn deep_view(&self) -> Seq<char> {
        self.0.deep_view()
    }
}

impl View for VulkanDistributedPlanError {
    type V = Seq<char>;

    open spec fn view(&self) -> Seq<char> {
        self.deep_view()
    }
}

impl Clone for VulkanDistributedPlanError {
    fn clone(&self) -> (r: Self)
        ensures
            r@ == self@,
    {
        VulkanDistributedPlanError(self.0.clone())
    }
}

impl VulkanDistributedPlanError {
    /// The message.
    pub fn to_string(&self) -> (r: String)
        ensures
            r@ == self@,
    {
        self.0.clone()
    }
}

/// Along which dimension a dispatch is split.
#[derive(Clone, Copy, Debug, PartialEq, Eq, Structural)]
pub enum VulkanDistributedDispatchDistribution {
    OutputRows,
    ExpertRange,
}

impl DeepView for VulkanDistributedDispatchDistribution {
    type V = VulkanDistributedDispatchDistribution;

    open spec fn deep_view(&self) -> VulkanDistributedDispatchDistribution {
        *self
    }
}

/// An activation that a distributed dispatch reads or writes.
#[derive(Debug, PartialEq, Eq)]
pub struct VulkanDistributedActivationSlot {
    pub binding: usize,
    pub component_id: String,
    pub signal_id: String,
    pub slot: usize,
    pub byte_capacity: usize,
    pub signal_byte_capacity: usize,
}

#[verifier::ext_equal]
pub struct VulkanDistributedActivationSlotView {
    pub binding: usize,
    pub component_id: Seq<char>,
    pub signal_id: Seq<char>,
    pub slot: usize,
    pub byte_capacity: usize,
    pub signal_byte_capacity: usize,
}

impl DeepView for VulkanDistributedActivationSlot {
    type V = VulkanDistributedActivationSlotView;

    open spec fn deep_view(&self) -> VulkanDistributedActivationSlotView {
        VulkanDistributedActivationSlotView {
            binding: self.binding,
            component_id: self.component_id.deep_view(),
            signal_id: self.signal_id.deep_view(),
            slot: self.slot,
            byte_capacity: self.byte_capacity,
            signal_byte_capacity: self.signal_byte_capacity,
        }
    }
}

impl View for VulkanDistributedActivationSlot {
    type V = VulkanDistributedActivationSlotView;

    open spec fn view(&self) -> VulkanDistributedActivationSlotView {
        self.deep_view()
    }
}

impl Clone for VulkanDistributedActivationSlot {
    fn clone(&self) -> (r: Self)
        ensures
            r@ == self@,
    {
        VulkanDistributedActivationSlot {
            binding: self.binding,
            component_id: self.component_id.clone(),
            signal_id: self.signal_id.clone(),
            slot: self.slot,
            byte_capacity: self.byte_capacity,
            signal_byte_capacity: self.signal_byte_capacity,
        }
    }
}

/// The byte range of a parameter tensor that one shard reads.
#[derive(Debug, PartialEq, Eq)]
pub struct VulkanDistributedParameterFragment {
    pub binding: usize,
    pub tensor: String,
    pub byte_offset: usize,
    pub byte_count: usize,
}

#[verifier::ext_equal]
pub struct VulkanDistributedParameterFragmentView {
    pub binding: usize,
    pub tensor: Seq<char>,
    pub byte_offset: usize,
    pub byte_count: usize,
}

impl DeepView for VulkanDistributedParameterFragment {
    type V = VulkanDistributedParameterFragmentView;

    open spec fn deep_view(&self) -> VulkanDistributedParameterFragmentView {
        VulkanDistributedParameterFragmentView {
            binding: self.binding,
            tensor: self.tensor.deep_view(),
            byte_offset: self.byte_offset,
            byte_count: self.byte_count,
        }
    }
}

impl View for VulkanDistributedParameterFragment {
    type V = VulkanDistributedParameterFragmentView;

    open spec fn view(&self) -> VulkanDistributedParameterFragmentView {
        self.deep_view()
    }
}

impl Clone for VulkanDistributedParameterFragment {
    fn clone(&self) -> (r: Self)
        ensures
            r@ == self@,
    {
        VulkanDistributedParameterFragment {
            binding: self.binding,
            tensor: self.tensor.clone(),
            byte_offset: self.byte_offset,
            byte_count: self.byte_count,
        }
    }
}

/// The part of a dispatch that runs on one device.
#[derive(Debug, PartialEq, Eq)]
pub struct VulkanDistributedDispatchShard {
    pub device_id: String,
    pub row_start: usize,
    pub row_count: usize,
    pub workgroup_count_x: u32,
    pub base_workgroup_z: u32,
    pub output_byte_offset: usize,
    pub output_byte_count: usize,
    pub parameters: Vec<VulkanDistributedParameterFragment>,
}

#[verifier::ext_equal]
pub struct VulkanDistributedDispatchShardView {
    pub device_id: Seq<char>,
    pub row_start: usize,
    pub row_count: usize,
    pub workgroup_count_x: u32,
    pub base_workgroup_z: u32,
    pub output_byte_offset: usize,
    pub output_byte_count: usize,
    pub parameters: Seq<VulkanDistributedParameterFragmentView>,
}

impl DeepView for VulkanDistributedDispatchShard {
    type V = VulkanDistributedDispatchShardView;

    open spec fn deep_view(&self) -> VulkanDistributedDispatchShardView {
        VulkanDistributedDispatchShardView {
            device_id: self.device_id.deep_view(),
            row_start: self.row_start,
            row_count: self.row_count,
            workgroup_count_x: self.workgroup_count_x,
            base_workgroup_z: self.base_workgroup_z,
            output_byte_offset: self.output_byte_offset,
            output_byte_count: self.output_byte_count,
            parameters: self.parameters.deep_view(),
        }
    }
}

impl View for VulkanDistributedDispatchShard {
    type V = VulkanDistributedDispatchShardView;

    open spec fn view(&self) -> VulkanDistributedDispatchShardView {
        self.deep_view()
    }
}

impl Clone for VulkanDistributedDispatchShard {
    fn clone(&self) -> (r: Self)
        ensures
            r@ == self@,
    {
        VulkanDistributedDispatchShard {
            device_id: self.device_id.clone(),
            row_start: self.row_start,
            row_count: self.row_count,
            workgroup_count_x: self.workgroup_count_x,
            base_workgroup_z: self.base_workgroup_z,
            output_byte_offset: self.output_byte_offset,
            output_byte_count: self.output_byte_count,
            parameters: self.parameters.clone(),
        }
    }
}

/// One dispatch with the shards that it is split into.
#[derive(Debug, PartialEq, Eq)]
pub struct VulkanDistributedDispatchPlan {
    pub owner_device_id: String,
    pub dispatch_index: usize,
    pub component_id: String,
    pub node_id: String,
    pub reusable_family_id: String,
    pub input_byte_capacity: usize,
    pub output_byte_capacity: usize,
    pub output_rows: usize,
    pub input_width: usize,
    pub row_alignment: usize,
    pub input_activation: VulkanDistributedActivationSlot,
    pub auxiliary_input_activations: Vec<VulkanDistributedActivationSlot>,
    pub output_activation: VulkanDistributedActivationSlot,
    pub distribution: VulkanDistributedDispatchDistribution,
    pub distributed_parameter_byte_count: usize,
    pub shards: Vec<VulkanDistributedDispatchShard>,
}

#[verifier::ext_equal]
pub struct VulkanDistributedDispatchPlanView {
    pub owner_device_id: Seq<char>,
    pub dispatch_index: usize,
    pub component_id: Seq<char>,
    pub node_id: Seq<char>,
    pub reusable_family_id: Seq<char>,
    pub input_byte_capacity: usize,
    pub output_byte_capacity: usize,
    pub output_rows: usize,
    pub input_width: usize,
    pub row_alignment: usize,
    pub input_activation: VulkanDistributedActivationSlotView,
    pub auxiliary_input_activations: Seq<VulkanDistributedActivationSlotView>,
    pub output_activation: VulkanDistributedActivationSlotView,
    pub distribution: VulkanDistributedDispatchDistribution,
    pub distributed_parameter_byte_count: usize,
    pub shards: Seq<VulkanDistributedDispatchShardView>,
}

impl DeepView for VulkanDistributedDispatchPlan {
    type V = VulkanDistributedDispatchPlanView;

    open spec fn deep_view(&self) -> VulkanDistributedDispatchPlanView {
        VulkanDistributedDispatchPlanView {
            owner_device_id: self.owner_device_id.deep_view(),
            dispatch_index: self.dispatch_index,
            component_id: self.component_id.deep_view(),
            node_id: self.node_id.deep_view(),
            reusable_family_id: self.reusable_family_id.deep_view(),
            input_byte_capacity: self.input_byte_capacity,
            output_byte_capacity: self.output_byte_capacity,
            output_rows: self.output_rows,
            input_width: self.input_width,
            row_alignment: self.row_alignment,
            input_activation: self.input_activation.deep_view(),
            auxiliary_input_activations: self.auxiliary_input_activations.deep_view(),
            output_activation: self.output_activation.deep_view(),
            distribution: self.distribution,
            distributed_parameter_byte_count: self.distributed_parameter_byte_count,
            shards: self.shards.deep_view(),
        }
    }
}

impl View for VulkanDistributedDispatchPlan {
    type V = VulkanDistributedDispatchPlanView;

    open spec fn view(&self) -> VulkanDistributedDispatchPlanView {
        self.deep_view()
    }
}

impl Clone for VulkanDistributedDispatchPlan {
    fn clone(&self) -> (r: Self)
        ensures
            r@ == self@,
    {
        VulkanDistributedDispatchPlan {
            owner_device_id: self.owner_device_id.clone(),
            dispatch_index: self.dispatch_index,
            component_id: self.component_id.clone(),
            node_id: self.node_id.clone(),
            reusable_family_id: self.reusable_family_id.clone(),
            input_byte_capacity: self.input_byte_capacity,
            output_byte_capacity: self.output_byte_capacity,
            output_rows: self.output_rows,
            input_width: self.input_width,
            row_alignment: self.row_alignment,
            input_activation: self.input_activation.clone(),
            auxiliary_input_activations: self.auxiliary_input_activations.clone(),
            output_activation: self.output_activation.clone(),
            distribution: self.distribution,
            distributed_parameter_byte_count: self.distributed_parameter_byte_count,
            shards: self.shards.clone(),
        }
    }
}

/// Adjacent dispatches that run as one recorded sequence.
#[derive(Debug, PartialEq, Eq)]
pub struct VulkanDistributedDispatchGroup {
    pub owner_device_id: String,
    pub dispatches: Vec<VulkanDistributedDispatchPlan>,
}

#[verifier::ext_equal]
pub struct VulkanDistributedDispatchGroupView {
    pub owner_device_id: Seq<char>,
    pub dispatches: Seq<VulkanDistributedDispatchPlanView>,
}

impl DeepView for VulkanDistributedDispatchGroup {
    type V = VulkanDistributedDispatchGroupView;

    open spec fn deep_view(&self) -> VulkanDistributedDispatchGroupView {
        VulkanDistributedDispatchGroupView {
            owner_device_id: self.owner_device_id.deep_view(),
            dispatches: self.dispatches.deep_view(),
        }
    }
}

impl View for VulkanDistributedDispatchGroup {
    type V = VulkanDistributedDispatchGroupView;

    open spec fn view(&self) -> VulkanDistributedDispatchGroupView {
        self.deep_view()
    }
}

impl Clone for VulkanDistributedDispatchGroup {
    fn clone(&self) -> (r: Self)
        ensures
            r@ == self@,
    {
        VulkanDistributedDispatchGroup {
            owner_device_id: self.owner_device_id.clone(),
            dispatches: self.dispatches.clone(),
        }
    }
}

/// The distributed dispatches of a model, over a pool of devices.
#[derive(Debug, PartialEq, Eq)]
pub struct VulkanDistributedExecutionPlan {
    pub device_ids: Vec<String>,
    pub storage_buffer_offset_alignment: usize,
    pub dispatches: Vec<VulkanDistributedDispatchPlan>,
    pub dispatch_groups: Vec<VulkanDistributedDispatchGroup>,
    pub shared_input_byte_capacity: usize,
    pub shared_output_byte_capacity: usize,
    pub distributed_parameter_byte_count: usize,
}

#[verifier::ext_equal]
pub struct VulkanDistributedExecutionPlanView {
    pub device_ids: Seq<Seq<char>>,
    pub storage_buffer_offset_alignment: usize,
    pub dispatches: Seq<VulkanDistributedDispatchPlanView>,
    pub dispatch_groups: Seq<VulkanDistributedDispatchGroupView>,
    pub shared_input_byte_capacity: usize,
    pub shared_output_byte_capacity: usize,
    pub distributed_parameter_byte_count: usize,
}

impl DeepView for VulkanDistributedExecutionPlan {
    type V = VulkanDistributedExecutionPlanView;

    open spec fn deep_view(&self) -> VulkanDistributedExecutionPlanView {
        VulkanDistributedExecutionPlanView {
            device_ids: self.device_ids.deep_view(),
            storage_buffer_offset_alignment: self.storage_buffer_offset_alignment,
            dispatches: self.dispatches.deep_view(),
            dispatch_groups: self.dispatch_groups.deep_view(),
            shared_input_byte_capacity: self.shared_input_byte_capacity,
            shared_output_byte_capacity: self.shared_output_byte_capacity,
            distributed_parameter_byte_count: self.distributed_parameter_byte_count,
        }
    }
}

impl View for VulkanDistributedExecutionPlan {
    type V = VulkanDistributedExecutionPlanView;

    open spec fn view(&self) -> VulkanDistributedExecutionPlanView {
        self.deep_view()
    }
}

impl Clone for VulkanDistributedExecutionPlan {
    fn clone(&self) -> (r: Self)
        ensures
            r@ == self@,
    {
        VulkanDistributedExecutionPlan {
            device_ids: self.device_ids.clone(),
            storage_buffer_offset_alignment: self.storage_buffer_offset_alignment,
            dispatches: self.dispatches.clone(),
            dispatch_groups: self.dispatch_groups.clone(),
            shared_input_byte_capacity: self.shared_input_byte_capacity,
            shared_output_byte_capacity: self.shared_output_byte_capacity,
            distributed_parameter_byte_count: self.distributed_parameter_byte_count,
        }
    }
}

/// How a distributed dispatch is submitted.
#[derive(Clone, Copy, Debug, PartialEq, Eq, Structural)]
pub struct VulkanDistributedDispatchSubmission {
    pub dependency_value: u64,
    pub consume_owner_ready_signal: bool,
    pub prepare_owner_continuation: bool,
    pub signal_completion: bool,
    pub use_feedback_indirect: bool,
}

impl DeepView for VulkanDistributedDispatchSubmission {
    type V = VulkanDistributedDispatchSubmission;

    open spec fn deep_view(&self) -> VulkanDistributedDispatchSubmission {
        *self
    }
}

// ---------------------------------------------------------------------------
// Device pool
// ---------------------------------------------------------------------------

/// The first identifier that stands earlier in the list too.
pub open spec fn first_repeat(ids: Seq<Seq<char>>) -> Option<Seq<char>>
    decreases ids.len(),
{
    if ids.len() == 0 {
        None
    } else {
        match first_repeat(ids.drop_last()) {
            Some(id) => Some(id),
            None => if ids.drop_last().contains(ids.last()) {
                Some(ids.last())
            } else {
                None
            },
        }
    }
}

/// Whether a device pool is accepted, or why not.
pub open spec fn device_pool_check(ids: Seq<Seq<char>>) -> Result<(), Seq<char>> {
    if ids.len() == 0 {
        Err("distributed execution device pool must not be empty"@)
    } else {
        match first_repeat(ids) {
            Some(id) => Err("distributed execution device pool repeats "@ + text::quoted(id)),
            None => Ok(()),
        }
    }
}

/// A repeat in a prefix is the repeat of the whole.
pub proof fn lemma_first_repeat_found(ids: Seq<Seq<char>>, i: int)
    requires
        0 <= i <= ids.len(),
        first_repeat(ids.take(i)) is Some,
    ensures
        first_repeat(ids) == first_repeat(ids.take(i)),
    decreases ids.len() - i,
{
    if i < ids.len() {
        assert(ids.take(i + 1).drop_last() =~= ids.take(i));
        lemma_first_repeat_found(ids, i + 1);
    } else {
        assert(ids.take(i) =~= ids);
    }
}

/// A pool without repeats holds every identifier once.
pub proof fn lemma_no_repeat_is_unique(ids: Seq<Seq<char>>)
    requires
        first_repeat(ids) is None,
    ensures
        ids.no_duplicates(),
    decreases ids.len(),
{
    if ids.len() > 0 {
        lemma_no_repeat_is_unique(ids.drop_last());
        assert forall|i: int, j: int| 0 <= i < ids.len() && 0 <= j < ids.len() && i != j implies ids[i]
            != ids[j] by {
            let front = ids.drop_last();
            if i < front.len() && j < front.len() {
                assert(front[i] != front[j]);
            } else if i < front.len() {
                assert(front.contains(front[i]));
            } else {
                assert(front.contains(front[j]));
            }
        }
    }
}

fn validate_device_pool(device_ids: &Vec<String>) -> (r: Result<(), VulkanDistributedPlanError>)
    ensures
        sequence::outcome(r) == device_pool_check(device_ids.deep_view()),
{
    let ghost ids = device_ids.deep_view();
    if device_ids.len() == 0 {
        return Err(
            VulkanDistributedPlanError(
                "distributed execution device pool must not be empty".to_owned(),
            ),
        );
    }
    let mut seen: Vec<String> = Vec::new();
    let mut i: usize = 0;
    assert(seen.deep_view() =~= ids.take(0));
    while i < device_ids.len()
        invariant
            ids == device_ids.deep_view(),
            i <= device_ids.len(),
            seen.deep_view() == ids.take(i as int),
            first_repeat(ids.take(i as int)) is None,
        decreases device_ids.len() - i,
    {
        assert(ids.take(i + 1).drop_last() =~= ids.take(i as int));
        assert(ids.take(i + 1).last() == ids[i as int]);
        if sequence::contains_text(&seen, device_ids[i].as_str()) {
            proof {
                lemma_first_repeat_found(ids, i + 1);
            }
            return Err(
                VulkanDistributedPlanError(
                    Message::new("distributed execution device pool repeats ").quoted(
                        device_ids[i].as_str(),
                    ).done(),
                ),
            );
        }
        seen.push(device_ids[i].clone());
        assert(seen.deep_view() =~= ids.take(i + 1));
        i += 1;
    }
    assert(ids.take(ids.len() as int) =~= ids);
    Ok(())
}

// ---------------------------------------------------------------------------
// Row distribution
// ---------------------------------------------------------------------------

/// How many shards the rows are split into.
pub open spec fn shard_count(rows: nat, requested: nat, alignment: nat) -> nat {
    let boundaries = crate::arithmetic::ceiling(rows, alignment);
    if requested < boundaries {
        requested
    } else {
        boundaries
    }
}

/// Aligned groups before shard `i`: the first `rest` shards take one group more.
pub open spec fn groups_before(groups: nat, shards: nat, i: nat) -> nat {
    (groups / shards) * i + (if i < groups % shards {
        i
    } else {
        groups % shards
    })
}

/// The first row of shard `i`; for `i == shards` the row behind the last.
pub open spec fn shard_start(rows: nat, shards: nat, alignment: nat, i: nat) -> nat {
    if i >= shards {
        rows
    } else {
        groups_before(rows / alignment, shards, i) * alignment
    }
}

/// The row ranges `(start, count)`: contiguous, aligned at their start, and as even as the
/// alignment lets them be. The rows past the last full group go to the last shard.
pub open spec fn distributed_rows(
    rows: nat,
    requested: nat,
    workgroup_rows: nat,
    alignment: nat,
) -> Result<Seq<(usize, usize)>, Seq<char>> {
    if rows == 0 || requested == 0 || workgroup_rows == 0 || alignment == 0 {
        Err("row distribution dimensions must not be zero"@)
    } else if rows % workgroup_rows != 0 || alignment % workgroup_rows != 0 {
        Err(
            "row count "@ + text::decimal(rows) + " and shard boundary "@ + text::decimal(alignment)
                + " are incompatible with workgroup width "@ + text::decimal(workgroup_rows),
        )
    } else {
        let shards = shard_count(rows, requested, alignment);
        Ok(
            Seq::new(
                shards,
                |i: int|
                    (
                        shard_start(rows, shards, alignment, i as nat) as usize,
                        (shard_start(rows, shards, alignment, (i + 1) as nat) - shard_start(
                            rows,
                            shards,
                            alignment,
                            i as nat,
                        )) as usize,
                    ),
            ),
        )
    }
}

/// The group counts add up, and every shard gets rows.
proof fn lemma_shard_bounds(rows: nat, requested: nat, alignment: nat, i: nat)
    requires
        rows > 0,
        requested > 0,
        alignment > 0,
        i < shard_count(rows, requested, alignment),
    ensures
        shard_start(rows, shard_count(rows, requested, alignment), alignment, i) < shard_start(
            rows,
            shard_count(rows, requested, alignment),
            alignment,
            i + 1,
        ) <= rows,
        shard_start(rows, shard_count(rows, requested, alignment), alignment, 0) == 0,
{
    let shards = shard_count(rows, requested, alignment);
    let groups = rows / alignment;
    let per = groups / shards;
    let rest = groups % shards;
    vstd::arithmetic::div_mod::lemma_fundamental_div_mod(rows as int, alignment as int);
    vstd::arithmetic::div_mod::lemma_fundamental_div_mod(groups as int, shards as int);
    assert(groups == shards * per + rest);
    assert(rows == alignment * groups + rows % alignment);
    assert(per * 0 == 0) by (nonlinear_arith);
    assert(0 * alignment == 0) by (nonlinear_arith);
    let here = groups_before(groups, shards, i);
    let next = groups_before(groups, shards, i + 1);
    assert(per * (i + 1) == per * i + per) by (nonlinear_arith);
    assert(next == here + per + (if i < rest {
        1int
    } else {
        0
    }));
    assert(per * (i + 1) <= per * shards) by (nonlinear_arith)
        requires
            i + 1 <= shards,
            per >= 0,
    ;
    assert(per * shards == shards * per) by (nonlinear_arith);
    assert(next <= groups);
    if i + 1 < shards {
        // A shard before the last has at least one group.
        assert(per >= 1 || i < rest) by {
            if per == 0 {
                assert(shards * 0 == 0) by (nonlinear_arith);
                assert(groups == rest);
                assert(rest >= shards - 1);
            }
        }
        assert(here * alignment < next * alignment <= groups * alignment) by (nonlinear_arith)
            requires
                here < next <= groups,
                alignment > 0,
        ;
        assert(groups * alignment == alignment * groups) by (nonlinear_arith);
    } else {
        assert(here * alignment <= next * alignment <= groups * alignment) by (nonlinear_arith)
            requires
                here <= next <= groups,
                alignment > 0,
        ;
        assert(groups * alignment == alignment * groups) by (nonlinear_arith);
        if rows % alignment == 0 {
            assert(per >= 1) by {
                if per == 0 {
                    assert(shards * 0 == 0) by (nonlinear_arith);
                    assert(groups == rest);
                    assert(rest < shards);
                }
            }
            assert(here * alignment < next * alignment) by (nonlinear_arith)
                requires
                    here < next,
                    alignment > 0,
            ;
        }
    }
}

/// A shard has as many aligned groups as any other or one more; the last also has the rows past the
/// last full group, which are less than a group.
proof fn lemma_shard_size(rows: nat, requested: nat, alignment: nat, i: nat)
    requires
        rows > 0,
        requested > 0,
        alignment > 0,
        i < shard_count(rows, requested, alignment),
    ensures
        ({
            let shards = shard_count(rows, requested, alignment);
            let per = (rows / alignment) / shards;
            let size = shard_start(rows, shards, alignment, i + 1) - shard_start(
                rows,
                shards,
                alignment,
                i,
            );
            per * alignment <= size <= per * alignment + alignment
        }),
{
    let shards = shard_count(rows, requested, alignment);
    let groups = rows / alignment;
    let per = groups / shards;
    let rest = groups % shards;
    vstd::arithmetic::div_mod::lemma_fundamental_div_mod(rows as int, alignment as int);
    vstd::arithmetic::div_mod::lemma_fundamental_div_mod(groups as int, shards as int);
    let here = groups_before(groups, shards, i);
    assert(per * (i + 1) == per * i + per) by (nonlinear_arith);
    if i + 1 < shards {
        let next = groups_before(groups, shards, i + 1);
        let more: int = if i < rest {
            1
        } else {
            0
        };
        assert(next == here + per + more);
        assert((here + per + more) * alignment == here * alignment + per * alignment + more
            * alignment) by (nonlinear_arith);
        assert(0 <= more * alignment <= alignment) by (nonlinear_arith)
            requires
                0 <= more <= 1,
                alignment > 0,
        ;
    } else {
        assert(shards == i + 1);
        assert(shards * per == per * i + per) by (nonlinear_arith)
            requires
                shards == i + 1,
        ;
        assert(here == per * i + rest);
        assert(groups == here + per);
        assert(alignment * (here + per) == here * alignment + per * alignment) by (nonlinear_arith);
    }
}

/// Every shard starts at a multiple of the workgroup's rows, and so do the rows end.
proof fn lemma_starts_fit_workgroups(
    rows: nat,
    shards: nat,
    workgroup_rows: nat,
    alignment: nat,
    i: nat,
)
    requires
        workgroup_rows > 0,
        rows % workgroup_rows == 0,
        alignment % workgroup_rows == 0,
    ensures
        shard_start(rows, shards, alignment, i) % workgroup_rows == 0,
{
    if i < shards {
        let g = groups_before(rows / alignment, shards, i);
        let q = alignment / workgroup_rows;
        vstd::arithmetic::div_mod::lemma_fundamental_div_mod(
            alignment as int,
            workgroup_rows as int,
        );
        assert(g * alignment == (g * q) * workgroup_rows) by (nonlinear_arith)
            requires
                alignment == workgroup_rows * q,
        ;
        vstd::arithmetic::div_mod::lemma_mod_multiples_basic((g * q) as int, workgroup_rows as int);
    }
}

/// The row ranges partition the rows: they start at row zero, each begins where the one before
/// ends, none is empty, the last ends with the last row, and every start is aligned. There are as
/// many as requested, or as many as there are groups where those are fewer. Each is made of whole
/// workgroups, and none has more rows than another and an aligned group.
pub proof fn row_shards_partition_the_rows(
    rows: nat,
    requested: nat,
    workgroup_rows: nat,
    alignment: nat,
)
    requires
        rows <= usize::MAX,
        distributed_rows(rows, requested, workgroup_rows, alignment) is Ok,
    ensures
        ({
            let s = distributed_rows(rows, requested, workgroup_rows, alignment)->Ok_0;
            &&& 0 < s.len() == shard_count(rows, requested, alignment) <= requested
            &&& s[0].0 == 0
            &&& forall|i: int|
                0 <= i < s.len() ==> (#[trigger] s[i]).1 as nat % workgroup_rows == 0
            &&& forall|i: int, j: int|
                0 <= i < s.len() && 0 <= j < s.len() ==> (#[trigger] s[i]).1 <= (#[trigger] s[j]).1
                    + alignment
            &&& forall|i: int| 0 <= i < s.len() ==> (#[trigger] s[i]).1 > 0 && s[i].0 as nat % alignment == 0
            &&& forall|i: int|
                0 <= i < s.len() - 1 ==> (#[trigger] s[i]).0 + s[i].1 == s[i + 1].0
            &&& s.last().0 + s.last().1 == rows
        }),
{
    let s = distributed_rows(rows, requested, workgroup_rows, alignment)->Ok_0;
    let shards = shard_count(rows, requested, alignment);
    vstd::arithmetic::div_mod::lemma_fundamental_div_mod(rows as int, alignment as int);
    assert(shards > 0) by {
        if rows / alignment == 0 {
            assert(alignment * 0 == 0) by (nonlinear_arith);
        }
    }
    lemma_shard_bounds(rows, requested, alignment, 0);
    assert forall|i: int| 0 <= i < s.len() implies (#[trigger] s[i]).1 > 0 && s[i].0 as nat
        % alignment == 0 && s[i].0 + s[i].1 == shard_start(
        rows,
        shards,
        alignment,
        (i + 1) as nat,
    ) by {
        lemma_shard_bounds(rows, requested, alignment, i as nat);
        vstd::arithmetic::div_mod::lemma_mod_multiples_basic(
            groups_before(rows / alignment, shards, i as nat) as int,
            alignment as int,
        );
    }
    assert forall|i: int| 0 <= i < s.len() - 1 implies (#[trigger] s[i]).0 + s[i].1 == s[i + 1].0 by {
        lemma_shard_bounds(rows, requested, alignment, i as nat);
        lemma_shard_bounds(rows, requested, alignment, (i + 1) as nat);
    }
    assert forall|i: int| 0 <= i < s.len() implies (#[trigger] s[i]).1 as nat % workgroup_rows
        == 0 by {
        lemma_shard_bounds(rows, requested, alignment, i as nat);
        lemma_starts_fit_workgroups(rows, shards, workgroup_rows, alignment, i as nat);
        lemma_starts_fit_workgroups(rows, shards, workgroup_rows, alignment, (i + 1) as nat);
        vstd::arithmetic::div_mod::lemma_sub_mod_noop(
            shard_start(rows, shards, alignment, (i + 1) as nat) as int,
            shard_start(rows, shards, alignment, i as nat) as int,
            workgroup_rows as int,
        );
        vstd::arithmetic::div_mod::lemma_mod_self_0(workgroup_rows as int);
        vstd::arithmetic::div_mod::lemma_small_mod(0, workgroup_rows);
    }
    assert forall|i: int, j: int| 0 <= i < s.len() && 0 <= j < s.len() implies (
    #[trigger] s[i]).1 <= (#[trigger] s[j]).1 + alignment by {
        lemma_shard_bounds(rows, requested, alignment, i as nat);
        lemma_shard_bounds(rows, requested, alignment, j as nat);
        lemma_shard_size(rows, requested, alignment, i as nat);
        lemma_shard_size(rows, requested, alignment, j as nat);
    }
}

fn distribute_rows(
    row_count: usize,
    requested_shards: usize,
    workgroup_row_count: usize,
    shard_boundary_row_alignment: usize,
) -> (r: Result<Vec<(usize, usize)>, String>)
    ensures
        sequence::outcome(r) == distributed_rows(
            row_count as nat,
            requested_shards as nat,
            workgroup_row_count as nat,
            shard_boundary_row_alignment as nat,
        ),
{
    if row_count == 0 || requested_shards == 0 || workgroup_row_count == 0
        || shard_boundary_row_alignment == 0 {
        return Err("row distribution dimensions must not be zero".to_owned());
    }
    if row_count % workgroup_row_count != 0 || shard_boundary_row_alignment % workgroup_row_count
        != 0 {
        return Err(
            Message::new("row count ").number(row_count).text(" and shard boundary ").number(
                shard_boundary_row_alignment,
            ).text(" are incompatible with workgroup width ").number(workgroup_row_count).done(),
        );
    }
    let groups: usize = row_count / shard_boundary_row_alignment;
    let boundaries: usize = crate::arithmetic::ceiling_division(
        row_count,
        shard_boundary_row_alignment,
    );
    let shards: usize = if requested_shards < boundaries {
        requested_shards
    } else {
        boundaries
    };
    let ghost rows = row_count as nat;
    let ghost alignment = shard_boundary_row_alignment as nat;
    proof {
        vstd::arithmetic::div_mod::lemma_fundamental_div_mod(rows as int, alignment as int);
        if groups == 0 {
            assert(alignment * 0 == 0) by (nonlinear_arith);
        }
    }
    assert(shards > 0);
    let per: usize = groups / shards;
    let rest: usize = groups % shards;
    let mut start: usize = 0;
    let mut ranges: Vec<(usize, usize)> = Vec::new();
    let mut i: usize = 0;
    proof {
        lemma_shard_bounds(rows, requested_shards as nat, alignment, 0);
    }
    while i < shards
        invariant
            rows == row_count,
            alignment == shard_boundary_row_alignment,
            row_count > 0,
            requested_shards > 0,
            alignment > 0,
            shards == shard_count(rows, requested_shards as nat, alignment),
            groups == rows / alignment,
            per == groups / shards,
            rest == groups % shards,
            i <= shards,
            start == shard_start(rows, shards as nat, alignment, i as nat),
            ranges@ == Seq::new(
                i as nat,
                |k: int|
                    (
                        shard_start(rows, shards as nat, alignment, k as nat) as usize,
                        (shard_start(rows, shards as nat, alignment, (k + 1) as nat) - shard_start(
                            rows,
                            shards as nat,
                            alignment,
                            k as nat,
                        )) as usize,
                    ),
            ),
        decreases shards - i,
    {
        proof {
            lemma_shard_bounds(rows, requested_shards as nat, alignment, i as nat);
        }
        let end: usize = if i + 1 == shards {
            row_count
        } else {
            let extra: usize = if i + 1 < rest {
                i + 1
            } else {
                rest
            };
            proof {
                let before = groups_before(groups as nat, shards as nat, (i + 1) as nat);
                assert(before * alignment <= rows);
                assert(before <= before * alignment) by (nonlinear_arith)
                    requires
                        alignment >= 1,
                ;
            }
            let groups_here: usize = per * (i + 1) + extra;
            groups_here * shard_boundary_row_alignment
        };
        ranges.push((start, end - start));
        start = end;
        i += 1;
    }
    assert(ranges.deep_view() =~= ranges@);
    Ok(ranges)
}

// ---------------------------------------------------------------------------
// What a dispatch offers for distribution
// ---------------------------------------------------------------------------

/// A message about a dispatch.
pub open spec fn dispatch_message(
    dispatch: VulkanPreparedDispatchView,
    message: Seq<char>,
) -> Seq<char> {
    "distributed dispatch "@ + dispatch.component_id + "."@ + dispatch.node_id + " "@ + message
}

fn dispatch_error(dispatch: &VulkanPreparedDispatch, message: String) -> (r:
    VulkanDistributedPlanError)
    ensures
        r@ == dispatch_message(dispatch@, message@),
{
    VulkanDistributedPlanError(
        Message::new("distributed dispatch ").text(dispatch.component_id.as_str()).text(".").text(
            dispatch.node_id.as_str(),
        ).text(" ").text(message.as_str()).done(),
    )
}

/// The parameters among the descriptors, as pairs of binding and tensor.
pub open spec fn parameter_descriptors(
    descriptors: Seq<VulkanResolvedDescriptorBindingView>,
) -> Seq<(usize, Seq<char>)>
    decreases descriptors.len(),
{
    if descriptors.len() == 0 {
        Seq::empty()
    } else {
        let front = parameter_descriptors(descriptors.drop_last());
        match descriptors.last().resource {
            VulkanDescriptorResourceAddressView::PermanentParameter { tensor, .. } => front.push(
                (descriptors.last().binding, tensor),
            ),
            _ => front,
        }
    }
}

pub(crate) fn list_parameter_descriptors(descriptors: &Vec<VulkanResolvedDescriptorBinding>) -> (r:
    Vec<(usize, String)>)
    ensures
        r.deep_view() == parameter_descriptors(descriptors.deep_view()),
{
    let ghost all = descriptors.deep_view();
    let mut found: Vec<(usize, String)> = Vec::new();
    let mut i: usize = 0;
    assert(found.deep_view() =~= parameter_descriptors(all.take(0)));
    while i < descriptors.len()
        invariant
            all == descriptors.deep_view(),
            i <= descriptors.len(),
            found.deep_view() == parameter_descriptors(all.take(i as int)),
        decreases descriptors.len() - i,
    {
        assert(all.take(i + 1).drop_last() =~= all.take(i as int));
        let ghost before = found.deep_view();
        match &descriptors[i].resource {
            VulkanDescriptorResourceAddress::PermanentParameter { tensor, .. } => {
                found.push((descriptors[i].binding, tensor.clone()));
                assert(found.deep_view() =~= before.push((all[i as int].binding, tensor@)));
            },
            _ => {},
        }
        i += 1;
    }
    assert(all.take(all.len() as int) =~= all);
    found
}

/// The tensor layouts that can be split between rows.
pub open spec fn shardable_layout(layout: Option<Seq<char>>) -> bool {
    layout == Some("row_major"@) || layout == Some("vulkan_bf16_row_pair_u32"@)
}

fn is_layout(layout: &Option<String>, name: &str) -> (r: bool)
    ensures
        r == (layout.deep_view() == Some(name@)),
{
    match layout {
        Some(l) => text::same(l.as_str(), name),
        None => false,
    }
}

fn has_shardable_layout(metadata: &TensorMetadata) -> (r: bool)
    ensures
        r == shardable_layout(metadata@.layout),
{
    is_layout(&metadata.layout, "row_major") || is_layout(
        &metadata.layout,
        "vulkan_bf16_row_pair_u32",
    )
}

/// A matrix of BF16 elements.
pub open spec fn is_bf16_matrix(metadata: TensorMetadataView) -> bool {
    metadata.dtype == "BF16"@ && metadata.shape.len() == 2
}

/// Whether the index knows the tensor as a BF16 matrix.
pub open spec fn knows_bf16_matrix(
    tensors: Map<Seq<char>, TensorMetadataView>,
    tensor: Seq<char>,
) -> bool {
    tensors.contains_key(tensor) && is_bf16_matrix(tensors[tensor])
}

fn has_bf16_matrix(tensor_index: &TensorIndex, tensor: &String) -> (r: bool)
    ensures
        r == knows_bf16_matrix(tensor_index@.tensors, tensor@),
{
    match tensor_index.tensors.get(tensor) {
        Some(metadata) => {
            assert(metadata@.shape.len() == metadata.shape@.len());
            text::same(metadata.dtype.as_str(), "BF16") && metadata.shape.len() == 2
        },
        None => false,
    }
}

/// The metadata of a projection matrix, or why it cannot be split.
pub open spec fn projection_tensor(
    tensors: Map<Seq<char>, TensorMetadataView>,
    dispatch: VulkanPreparedDispatchView,
    tensor: Seq<char>,
) -> Result<TensorMetadataView, Seq<char>> {
    if !tensors.contains_key(tensor) {
        Err(dispatch_message(dispatch, "has no tensor metadata for "@ + text::quoted(tensor)))
    } else {
        let metadata = tensors[tensor];
        if !is_bf16_matrix(metadata) {
            Err(
                dispatch_message(
                    dispatch,
                    "tensor "@ + text::quoted(tensor) + " must be a rank-2 BF16 matrix, found "@
                        + metadata.dtype + " "@ + text::number_list(metadata.shape),
                ),
            )
        } else if !shardable_layout(metadata.layout) {
            Err(
                dispatch_message(
                    dispatch,
                    "tensor "@ + text::quoted(tensor) + " has non-shardable layout "@
                        + text::quoted_option(metadata.layout),
                ),
            )
        } else {
            Ok(metadata)
        }
    }
}

fn projection_metadata<'a>(
    tensor_index: &'a TensorIndex,
    dispatch: &VulkanPreparedDispatch,
    tensor: &String,
) -> (r: Result<&'a TensorMetadata, VulkanDistributedPlanError>)
    ensures
        sequence::outcome(r) == projection_tensor(tensor_index@.tensors, dispatch@, tensor@),
{
    match tensor_index.tensors.get(tensor) {
        None => Err(
            dispatch_error(
                dispatch,
                Message::new("has no tensor metadata for ").quoted(tensor.as_str()).done(),
            ),
        ),
        Some(metadata) => {
            assert(metadata@.shape =~= metadata.shape@);
            if !text::same(metadata.dtype.as_str(), "BF16") || metadata.shape.len() != 2 {
                return Err(
                    dispatch_error(
                        dispatch,
                        Message::new("tensor ").quoted(tensor.as_str()).text(
                            " must be a rank-2 BF16 matrix, found ",
                        ).text(metadata.dtype.as_str()).text(" ").number_list(
                            &metadata.shape,
                        ).done(),
                    ),
                );
            }
            if !has_shardable_layout(metadata) {
                return Err(
                    dispatch_error(
                        dispatch,
                        Message::new("tensor ").quoted(tensor.as_str()).text(
                            " has non-shardable layout ",
                        ).quoted_option(&metadata.layout).done(),
                    ),
                );
            }
            Ok(metadata)
        },
    }
}

/// The bytes of one row of a BF16 tensor.
pub open spec fn row_bytes(
    dispatch: VulkanPreparedDispatchView,
    tensor: Seq<char>,
    metadata: TensorMetadataView,
    output_rows: nat,
) -> Result<usize, Seq<char>> {
    match crate::arithmetic::checked_product(2, metadata.shape) {
        None => Err(
            dispatch_message(
                dispatch,
                "tensor "@ + text::quoted(tensor) + " byte count overflowed"@,
            ),
        ),
        Some(expected) => {
            let byte_count = match metadata.byte_count {
                Some(count) => count as nat,
                None => expected,
            };
            if byte_count != expected || byte_count % output_rows != 0 {
                Err(
                    dispatch_message(
                        dispatch,
                        "tensor "@ + text::quoted(tensor) + " byte count "@ + text::decimal(
                            byte_count,
                        ) + " does not match BF16 shape "@ + text::number_list(metadata.shape),
                    ),
                )
            } else {
                Ok((byte_count / output_rows) as usize)
            }
        },
    }
}

fn tensor_row_bytes(
    dispatch: &VulkanPreparedDispatch,
    tensor: &String,
    metadata: &TensorMetadata,
    output_rows: usize,
) -> (r: Result<usize, VulkanDistributedPlanError>)
    requires
        output_rows > 0,
    ensures
        sequence::outcome(r) == row_bytes(dispatch@, tensor@, metadata@, output_rows as nat),
{
    assert(metadata@.shape =~= metadata.shape@);
    match crate::arithmetic::product_from(BF16_BYTE_COUNT, &metadata.shape) {
        None => Err(
            dispatch_error(
                dispatch,
                Message::new("tensor ").quoted(tensor.as_str()).text(
                    " byte count overflowed",
                ).done(),
            ),
        ),
        Some(expected) => {
            let byte_count: usize = match metadata.byte_count {
                Some(count) => count,
                None => expected,
            };
            if byte_count != expected || byte_count % output_rows != 0 {
                return Err(
                    dispatch_error(
                        dispatch,
                        Message::new("tensor ").quoted(tensor.as_str()).text(" byte count ").number(
                            byte_count,
                        ).text(" does not match BF16 shape ").number_list(&metadata.shape).done(),
                    ),
                );
            }
            Ok(byte_count / output_rows)
        },
    }
}

/// The activation at a binding, if it is resident and holds enough bytes.
pub open spec fn resident_activation(
    dispatch: VulkanPreparedDispatchView,
    binding: usize,
    required: nat,
    role: Seq<char>,
) -> Result<VulkanDistributedActivationSlotView, Seq<char>> {
    let absent = Err(
        dispatch_message(
            dispatch,
            "has no resident "@ + role + " activation at binding "@ + text::decimal(binding as nat),
        ),
    );
    match sequence::find_first(
        dispatch.descriptors,
        |d: VulkanResolvedDescriptorBindingView| d.binding == binding,
    ) {
        None => absent,
        Some(descriptor) => match descriptor.resource {
            VulkanDescriptorResourceAddressView::ActivationSlot {
                component_id,
                signal_id,
                slot,
                byte_capacity,
                signal_byte_capacity,
            } => if signal_byte_capacity < required {
                Err(
                    dispatch_message(
                        dispatch,
                        role + " signal has "@ + text::decimal(signal_byte_capacity as nat)
                            + " bytes but requires "@ + text::decimal(required),
                    ),
                )
            } else {
                Ok(
                    VulkanDistributedActivationSlotView {
                        binding,
                        component_id,
                        signal_id,
                        slot,
                        byte_capacity,
                        signal_byte_capacity,
                    },
                )
            },
            _ => absent,
        },
    }
}

fn find_descriptor(descriptors: &Vec<VulkanResolvedDescriptorBinding>, binding: usize) -> (r:
    Option<&VulkanResolvedDescriptorBinding>)
    ensures
        r.deep_view() == sequence::find_first(
            descriptors.deep_view(),
            |d: VulkanResolvedDescriptorBindingView| d.binding == binding,
        ),
{
    let ghost all = descriptors.deep_view();
    let ghost p = |d: VulkanResolvedDescriptorBindingView| d.binding == binding;
    let mut i: usize = 0;
    while i < descriptors.len()
        invariant
            i <= descriptors.len(),
            all == descriptors.deep_view(),
            p == (|d: VulkanResolvedDescriptorBindingView| d.binding == binding),
            forall|j: int| 0 <= j < i ==> !p(#[trigger] all[j]),
        decreases descriptors.len() - i,
    {
        if descriptors[i].binding == binding {
            assert(p(all[i as int]));
            proof {
                sequence::lemma_find_first_at(all, p, i as int);
            }
            return Some(&descriptors[i]);
        }
        assert(!p(all[i as int]));
        i += 1;
    }
    proof {
        sequence::lemma_find_first_none(all, p);
    }
    None
}

fn activation_slot(
    dispatch: &VulkanPreparedDispatch,
    binding: usize,
    required: usize,
    role: &str,
) -> (r: Result<VulkanDistributedActivationSlot, VulkanDistributedPlanError>)
    ensures
        sequence::outcome(r) == resident_activation(dispatch@, binding, required as nat, role@),
{
    if let Some(descriptor) = find_descriptor(&dispatch.descriptors, binding) {
        if let VulkanDescriptorResourceAddress::ActivationSlot {
            component_id,
            signal_id,
            slot,
            byte_capacity,
            signal_byte_capacity,
        } = &descriptor.resource {
            if *signal_byte_capacity < required {
                return Err(
                    dispatch_error(
                        dispatch,
                        Message::new(role).text(" signal has ").number(*signal_byte_capacity).text(
                            " bytes but requires ",
                        ).number(required).done(),
                    ),
                );
            }
            return Ok(
                VulkanDistributedActivationSlot {
                    binding,
                    component_id: component_id.clone(),
                    signal_id: signal_id.clone(),
                    slot: *slot,
                    byte_capacity: *byte_capacity,
                    signal_byte_capacity: *signal_byte_capacity,
                },
            );
        }
    }
    Err(
        dispatch_error(
            dispatch,
            Message::new("has no resident ").text(role).text(" activation at binding ").number(
                binding,
            ).done(),
        ),
    )
}

/// The bytes of a tensor that belong to a row range.
pub open spec fn row_fragment(
    dispatch: VulkanPreparedDispatchView,
    binding: usize,
    tensor: Seq<char>,
    bytes_per_row: nat,
    range: (usize, usize),
) -> Result<VulkanDistributedParameterFragmentView, Seq<char>> {
    if range.0 * bytes_per_row > usize::MAX {
        Err(dispatch_message(dispatch, "parameter shard offset overflowed"@))
    } else if range.1 * bytes_per_row > usize::MAX {
        Err(dispatch_message(dispatch, "parameter shard byte count overflowed"@))
    } else {
        Ok(
            VulkanDistributedParameterFragmentView {
                binding,
                tensor,
                byte_offset: (range.0 * bytes_per_row) as usize,
                byte_count: (range.1 * bytes_per_row) as usize,
            },
        )
    }
}

fn parameter_fragment(
    binding: usize,
    tensor: &String,
    bytes_per_row: usize,
    row_start: usize,
    row_count: usize,
    dispatch: &VulkanPreparedDispatch,
) -> (r: Result<VulkanDistributedParameterFragment, VulkanDistributedPlanError>)
    ensures
        sequence::outcome(r) == row_fragment(
            dispatch@,
            binding,
            tensor@,
            bytes_per_row as nat,
            (row_start, row_count),
        ),
{
    match row_start.checked_mul(bytes_per_row) {
        None => Err(dispatch_error(dispatch, "parameter shard offset overflowed".to_owned())),
        Some(byte_offset) => match row_count.checked_mul(bytes_per_row) {
            None => Err(
                dispatch_error(dispatch, "parameter shard byte count overflowed".to_owned()),
            ),
            Some(byte_count) => Ok(
                VulkanDistributedParameterFragment {
                    binding,
                    tensor: tensor.clone(),
                    byte_offset,
                    byte_count,
                },
            ),
        },
    }
}

/// Whether a device is another than this.
pub open spec fn other_than(owner: Seq<char>) -> spec_fn(Seq<char>) -> bool {
    |id: Seq<char>| id != owner
}

/// The devices in the order in which they get shards: the owner first, then the others as the
/// pool lists them.
pub open spec fn shard_devices(owner: Seq<char>, pool: Seq<Seq<char>>) -> Seq<Seq<char>> {
    seq![owner] + pool.filter(other_than(owner))
}

fn list_shard_devices(owner: &str, pool: &Vec<String>) -> (r: Vec<String>)
    ensures
        r.deep_view() == shard_devices(owner@, pool.deep_view()),
{
    let ghost ids = pool.deep_view();
    let ghost p = other_than(owner@);
    let mut devices: Vec<String> = Vec::new();
    devices.push(owner.to_owned());
    let mut i: usize = 0;
    proof {
        reveal(Seq::filter);
        assert(devices.deep_view() =~= seq![owner@] + ids.take(0).filter(p));
    }
    while i < pool.len()
        invariant
            i <= pool.len(),
            ids == pool.deep_view(),
            p == other_than(owner@),
            devices.deep_view() == seq![owner@] + ids.take(i as int).filter(p),
        decreases pool.len() - i,
    {
        proof {
            sequence::lemma_filter_step(ids, p, i as int);
        }
        let ghost before = devices.deep_view();
        if !text::same(pool[i].as_str(), owner) {
            devices.push(pool[i].clone());
            assert(devices.deep_view() =~= before.push(ids[i as int]));
            assert(devices.deep_view() =~= seq![owner@] + ids.take(i + 1).filter(p));
        }
        i += 1;
    }
    assert(ids.take(ids.len() as int) =~= ids);
    devices
}

/// Devices and row ranges, matched up.
pub open spec fn shard_assignments(
    devices: Seq<Seq<char>>,
    ranges: Seq<(usize, usize)>,
) -> Seq<(Seq<char>, (usize, usize))> {
    Seq::new(
        if devices.len() < ranges.len() {
            devices.len()
        } else {
            ranges.len()
        },
        |i: int| (devices[i], ranges[i]),
    )
}

fn assign_shards(devices: Vec<String>, ranges: Vec<(usize, usize)>) -> (r: Vec<
    (String, (usize, usize)),
>)
    ensures
        r.deep_view() == shard_assignments(devices.deep_view(), ranges.deep_view()),
{
    let mut assigned: Vec<(String, (usize, usize))> = Vec::new();
    let mut i: usize = 0;
    let ghost all = shard_assignments(devices.deep_view(), ranges.deep_view());
    while i < devices.len() && i < ranges.len()
        invariant
            all == shard_assignments(devices.deep_view(), ranges.deep_view()),
            i <= devices.len(),
            i <= ranges.len(),
            assigned@.len() == i,
            forall|j: int| 0 <= j < i ==> assigned.deep_view()[j] == all[j],
        decreases devices.len() - i,
    {
        assigned.push((devices[i].clone(), ranges[i]));
        assert(assigned.deep_view()[i as int] == all[i as int]);
        i += 1;
    }
    assert(assigned.deep_view() =~= all);
    assigned
}

// ---------------------------------------------------------------------------
// Parallel projections
// ---------------------------------------------------------------------------

/// What every shard of a projection shares.
pub struct ProjectionView {
    pub dispatch: VulkanPreparedDispatchView,
    pub workgroup_rows: nat,
    pub first: (usize, Seq<char>),
    pub first_row_bytes: usize,
    pub second: (usize, Seq<char>),
    pub second_row_bytes: usize,
}

/// Shards planned so far, and the parameter bytes that they read.
#[verifier::ext_equal]
pub struct ShardsView {
    pub shards: Seq<VulkanDistributedDispatchShardView>,
    pub byte_count: nat,
}

/// The state before the first shard.
pub open spec fn no_shards() -> ShardsView {
    ShardsView { shards: Seq::empty(), byte_count: 0 }
}

/// Plans one shard of a projection.
#[verifier::opaque]
pub open spec fn projection_shard(
    p: ProjectionView,
    done: ShardsView,
    assigned: (Seq<char>, (usize, usize)),
) -> Result<ShardsView, Seq<char>> {
    let (device_id, range) = assigned;
    if range.1 as nat / p.workgroup_rows > u32::MAX {
        Err(dispatch_message(p.dispatch, "shard workgroup count exceeds u32"@))
    } else {
        match row_fragment(p.dispatch, p.first.0, p.first.1, p.first_row_bytes as nat, range) {
            Err(e) => Err(e),
            Ok(first) => match row_fragment(
                p.dispatch,
                p.second.0,
                p.second.1,
                p.second_row_bytes as nat,
                range,
            ) {
                Err(e) => Err(e),
                Ok(second) => {
                    let byte_count = done.byte_count + first.byte_count + second.byte_count;
                    if byte_count > usize::MAX {
                        Err(dispatch_message(p.dispatch, "shard parameter byte count overflowed"@))
                    } else if range.0 * 2 > usize::MAX {
                        Err(dispatch_message(p.dispatch, "shard output offset overflowed"@))
                    } else if range.1 * 2 > usize::MAX {
                        Err(dispatch_message(p.dispatch, "shard output size overflowed"@))
                    } else {
                        Ok(
                            ShardsView {
                                shards: done.shards.push(
                                    VulkanDistributedDispatchShardView {
                                        device_id,
                                        row_start: range.0,
                                        row_count: range.1,
                                        workgroup_count_x: (range.1 as nat / p.workgroup_rows) as u32,
                                        base_workgroup_z: 0,
                                        output_byte_offset: (range.0 * 2) as usize,
                                        output_byte_count: (range.1 * 2) as usize,
                                        parameters: seq![first, second],
                                    },
                                ),
                                byte_count: byte_count as nat,
                            },
                        )
                    }
                },
            },
        }
    }
}

/// One step of planning the shards of a projection.
pub open spec fn projection_step(p: ProjectionView) -> spec_fn(
    ShardsView,
    (Seq<char>, (usize, usize)),
) -> Result<ShardsView, Seq<char>> {
    |done: ShardsView, assigned: (Seq<char>, (usize, usize))| projection_shard(p, done, assigned)
}

struct ProjectionShards<'a> {
    dispatch: &'a VulkanPreparedDispatch,
    workgroup_rows: usize,
    first: (usize, String),
    first_row_bytes: usize,
    second: (usize, String),
    second_row_bytes: usize,
}

impl<'a> ProjectionShards<'a> {
    spec fn shared(&self) -> ProjectionView {
        ProjectionView {
            dispatch: self.dispatch@,
            workgroup_rows: self.workgroup_rows as nat,
            first: self.first.deep_view(),
            first_row_bytes: self.first_row_bytes,
            second: self.second.deep_view(),
            second_row_bytes: self.second_row_bytes,
        }
    }

    fn plan_shard(
        &self,
        assigned: &(String, (usize, usize)),
        byte_count: usize,
        Ghost(done): Ghost<Seq<VulkanDistributedDispatchShardView>>,
    ) -> (r: Result<(VulkanDistributedDispatchShard, usize), VulkanDistributedPlanError>)
        requires
            self.workgroup_rows > 0,
        ensures
            (match r {
                Ok((shard, total)) => Ok::<ShardsView, Seq<char>>(
                    ShardsView { shards: done.push(shard@), byte_count: total as nat },
                ),
                Err(e) => Err(e@),
            }) == projection_shard(
                self.shared(),
                ShardsView { shards: done, byte_count: byte_count as nat },
                assigned.deep_view(),
            ),
    {
        reveal(projection_shard);
        let row_start: usize = (assigned.1).0;
        let row_count: usize = (assigned.1).1;
        let workgroups: usize = row_count / self.workgroup_rows;
        if workgroups > u32::MAX as usize {
            return Err(
                dispatch_error(self.dispatch, "shard workgroup count exceeds u32".to_owned()),
            );
        }
        let first: VulkanDistributedParameterFragment = match parameter_fragment(
            self.first.0,
            &self.first.1,
            self.first_row_bytes,
            row_start,
            row_count,
            self.dispatch,
        ) {
            Ok(fragment) => fragment,
            Err(e) => return Err(e),
        };
        let second: VulkanDistributedParameterFragment = match parameter_fragment(
            self.second.0,
            &self.second.1,
            self.second_row_bytes,
            row_start,
            row_count,
            self.dispatch,
        ) {
            Ok(fragment) => fragment,
            Err(e) => return Err(e),
        };
        let total: usize = match byte_count.checked_add(first.byte_count) {
            Some(partial) => match partial.checked_add(second.byte_count) {
                Some(total) => total,
                None => return Err(
                    dispatch_error(
                        self.dispatch,
                        "shard parameter byte count overflowed".to_owned(),
                    ),
                ),
            },
            None => return Err(
                dispatch_error(self.dispatch, "shard parameter byte count overflowed".to_owned()),
            ),
        };
        let output_byte_offset: usize = match row_start.checked_mul(BF16_BYTE_COUNT) {
            Some(offset) => offset,
            None => return Err(
                dispatch_error(self.dispatch, "shard output offset overflowed".to_owned()),
            ),
        };
        let output_byte_count: usize = match row_count.checked_mul(BF16_BYTE_COUNT) {
            Some(count) => count,
            None => return Err(
                dispatch_error(self.dispatch, "shard output size overflowed".to_owned()),
            ),
        };
        let ghost expected = seq![first@, second@];
        let mut parameters: Vec<VulkanDistributedParameterFragment> = Vec::new();
        parameters.push(first);
        parameters.push(second);
        assert(parameters.deep_view() =~= expected);
        Ok(
            (
                VulkanDistributedDispatchShard {
                    device_id: assigned.0.clone(),
                    row_start,
                    row_count,
                    workgroup_count_x: workgroups as u32,
                    base_workgroup_z: 0,
                    output_byte_offset,
                    output_byte_count,
                    parameters,
                },
                total,
            ),
        )
    }

    fn plan_shards(&self, assigned: &Vec<(String, (usize, usize))>) -> (r: Result<
        (Vec<VulkanDistributedDispatchShard>, usize),
        VulkanDistributedPlanError,
    >)
        requires
            self.workgroup_rows > 0,
        ensures
            (match r {
                Ok((shards, total)) => Ok::<ShardsView, Seq<char>>(
                    ShardsView { shards: shards.deep_view(), byte_count: total as nat },
                ),
                Err(e) => Err(e@),
            }) == sequence::try_fold(
                assigned.deep_view(),
                no_shards(),
                projection_step(self.shared()),
            ),
    {
        let ghost all = assigned.deep_view();
        let ghost step = projection_step(self.shared());
        let mut shards: Vec<VulkanDistributedDispatchShard> = Vec::new();
        let mut total: usize = 0;
        let mut i: usize = 0;
        assert(shards.deep_view() =~= Seq::empty());
        assert(all.take(0) =~= Seq::empty());
        while i < assigned.len()
            invariant
                i <= assigned.len(),
                all == assigned.deep_view(),
                step == projection_step(self.shared()),
                self.workgroup_rows > 0,
                sequence::try_fold(all.take(i as int), no_shards(), step) == Ok::<
                    ShardsView,
                    Seq<char>,
                >(ShardsView { shards: shards.deep_view(), byte_count: total as nat }),
            decreases assigned.len() - i,
        {
            proof {
                sequence::lemma_try_fold_step(all, no_shards(), step, i as int);
            }
            let ghost before = shards.deep_view();
            match self.plan_shard(&assigned[i], total, Ghost(before)) {
                Ok((shard, next)) => {
                    let ghost planned = shard@;
                    shards.push(shard);
                    total = next;
                    assert(shards.deep_view() =~= before.push(planned));
                },
                Err(e) => {
                    proof {
                        sequence::lemma_try_fold_error(all, no_shards(), step, i + 1);
                    }
                    return Err(e);
                },
            }
            i += 1;
        }
        assert(all.take(all.len() as int) =~= all);
        Ok((shards, total))
    }
}

/// How a parallel projection is split by its output rows. `None` where it stays on its owner: it
/// takes push constants, it does not read exactly two BF16 matrices, or the rows do not give two
/// shards.
#[verifier::opaque]
pub open spec fn projection_plan(
    owner: Seq<char>,
    dispatch: VulkanPreparedDispatchView,
    tensors: Map<Seq<char>, TensorMetadataView>,
    pool: Seq<Seq<char>>,
    workgroup_count: u32,
    offset_alignment: nat,
) -> Result<Option<VulkanDistributedDispatchPlanView>, Seq<char>> {
    let parameters = parameter_descriptors(dispatch.descriptors);
    if dispatch.push_constants.len() != 0 || parameters.len() != 2 || !knows_bf16_matrix(
        tensors,
        parameters[0].1,
    ) || !knows_bf16_matrix(tensors, parameters[1].1) {
        Ok(None)
    } else {
        match projection_tensor(tensors, dispatch, parameters[0].1) {
            Err(e) => Err(e),
            Ok(first) => match projection_tensor(tensors, dispatch, parameters[1].1) {
                Err(e) => Err(e),
                Ok(second) => projection_plan_of(
                    owner,
                    dispatch,
                    pool,
                    workgroup_count as nat,
                    offset_alignment,
                    parameters,
                    first,
                    second,
                ),
            },
        }
    }
}

/// The row alignment of a split projection, where it fits.
pub open spec fn projection_alignment(
    workgroup_rows: nat,
    offset_alignment: nat,
    paired: bool,
) -> Option<nat> {
    match crate::arithmetic::lcm(workgroup_rows, offset_alignment / 2) {
        None => None,
        Some(alignment) => if paired {
            crate::arithmetic::lcm(alignment, 2)
        } else {
            Some(alignment)
        },
    }
}

/// How a projection with these two matrices is split.
pub open spec fn projection_plan_of(
    owner: Seq<char>,
    dispatch: VulkanPreparedDispatchView,
    pool: Seq<Seq<char>>,
    workgroup_count: nat,
    offset_alignment: nat,
    parameters: Seq<(usize, Seq<char>)>,
    first: TensorMetadataView,
    second: TensorMetadataView,
) -> Result<Option<VulkanDistributedDispatchPlanView>, Seq<char>> {
    let output_rows = first.shape[0];
    let input_width = first.shape[1];
    let workgroup_rows = output_rows as nat / workgroup_count;
    let paired = first.layout == Some("vulkan_bf16_row_pair_u32"@) || second.layout == Some(
        "vulkan_bf16_row_pair_u32"@,
    );
    if first.shape != second.shape {
        Err(
            dispatch_message(
                dispatch,
                "projection shapes "@ + text::number_list(first.shape) + " and "@
                    + text::number_list(second.shape) + " do not match"@,
            ),
        )
    } else if workgroup_count == 0 || output_rows as nat % workgroup_count != 0 {
        Err(
            dispatch_message(
                dispatch,
                "output row count "@ + text::decimal(output_rows as nat)
                    + " is incompatible with artifact workgroup count "@ + text::decimal(
                    workgroup_count,
                ),
            ),
        )
    } else {
        match projection_alignment(workgroup_rows, offset_alignment, paired) {
            None => Err(dispatch_message(dispatch, "row alignment overflowed"@)),
            Some(alignment) => if input_width * 2 > usize::MAX {
                Err(dispatch_message(dispatch, "input byte capacity overflowed"@))
            } else if output_rows * 2 > usize::MAX {
                Err(dispatch_message(dispatch, "output byte capacity overflowed"@))
            } else {
                match resident_activation(dispatch, 0, (input_width * 2) as nat, "input"@) {
                    Err(e) => Err(e),
                    Ok(input) => match resident_activation(
                        dispatch,
                        1,
                        (output_rows * 2) as nat,
                        "output"@,
                    ) {
                        Err(e) => Err(e),
                        Ok(output) => match distributed_rows(
                            output_rows as nat,
                            pool.len(),
                            workgroup_rows,
                            alignment,
                        ) {
                            Err(e) => Err(dispatch_message(dispatch, e)),
                            Ok(ranges) => if ranges.len() < 2 {
                                Ok(None)
                            } else {
                                projection_shards_of(
                                    owner,
                                    dispatch,
                                    pool,
                                    parameters,
                                    first,
                                    second,
                                    workgroup_rows,
                                    alignment,
                                    input,
                                    output,
                                    ranges,
                                )
                            },
                        },
                    },
                }
            },
        }
    }
}

/// The plan of a projection whose row ranges are known.
pub open spec fn projection_shards_of(
    owner: Seq<char>,
    dispatch: VulkanPreparedDispatchView,
    pool: Seq<Seq<char>>,
    parameters: Seq<(usize, Seq<char>)>,
    first: TensorMetadataView,
    second: TensorMetadataView,
    workgroup_rows: nat,
    alignment: nat,
    input: VulkanDistributedActivationSlotView,
    output: VulkanDistributedActivationSlotView,
    ranges: Seq<(usize, usize)>,
) -> Result<Option<VulkanDistributedDispatchPlanView>, Seq<char>> {
    let output_rows = first.shape[0];
    match row_bytes(dispatch, parameters[0].1, first, output_rows as nat) {
        Err(e) => Err(e),
        Ok(first_row_bytes) => match row_bytes(
            dispatch,
            parameters[1].1,
            second,
            output_rows as nat,
        ) {
            Err(e) => Err(e),
            Ok(second_row_bytes) => match sequence::try_fold(
                shard_assignments(shard_devices(owner, pool), ranges),
                no_shards(),
                projection_step(
                    ProjectionView {
                        dispatch,
                        workgroup_rows,
                        first: parameters[0],
                        first_row_bytes,
                        second: parameters[1],
                        second_row_bytes,
                    },
                ),
            ) {
                Err(e) => Err(e),
                Ok(done) => Ok(
                    Some(
                        VulkanDistributedDispatchPlanView {
                            owner_device_id: owner,
                            dispatch_index: dispatch.dispatch_index,
                            component_id: dispatch.component_id,
                            node_id: dispatch.node_id,
                            reusable_family_id: dispatch.reusable_family_id,
                            input_byte_capacity: (first.shape[1] * 2) as usize,
                            output_byte_capacity: (output_rows * 2) as usize,
                            output_rows,
                            input_width: first.shape[1],
                            row_alignment: alignment as usize,
                            input_activation: input,
                            auxiliary_input_activations: Seq::empty(),
                            output_activation: output,
                            distribution: VulkanDistributedDispatchDistribution::OutputRows,
                            distributed_parameter_byte_count: done.byte_count as usize,
                            shards: done.shards,
                        },
                    ),
                ),
            },
        },
    }
}

fn plan_parallel_projection_dispatch(
    owner_device_id: &str,
    dispatch: &VulkanPreparedDispatch,
    tensor_index: &TensorIndex,
    device_ids: &Vec<String>,
    artifact_workgroup_count_x: u32,
    storage_buffer_offset_alignment: usize,
) -> (r: Result<Option<VulkanDistributedDispatchPlan>, VulkanDistributedPlanError>)
    requires
        storage_buffer_offset_alignment >= 2,
    ensures
        sequence::outcome(r) == projection_plan(
            owner_device_id@,
            dispatch@,
            tensor_index@.tensors,
            device_ids.deep_view(),
            artifact_workgroup_count_x,
            storage_buffer_offset_alignment as nat,
        ),
{
    reveal(projection_plan);
    assert(dispatch@.push_constants.len() == dispatch.push_constants@.len());
    if dispatch.push_constants.len() != 0 {
        return Ok(None);
    }
    let parameters: Vec<(usize, String)> = list_parameter_descriptors(&dispatch.descriptors);
    let ghost listed = parameters.deep_view();
    assert(listed.len() == parameters@.len());
    if parameters.len() != 2 {
        return Ok(None);
    }
    assert(listed[0] == parameters@[0].deep_view());
    assert(listed[1] == parameters@[1].deep_view());
    if !has_bf16_matrix(tensor_index, &parameters[0].1) || !has_bf16_matrix(
        tensor_index,
        &parameters[1].1,
    ) {
        return Ok(None);
    }
    let first: &TensorMetadata = match projection_metadata(
        tensor_index,
        dispatch,
        &parameters[0].1,
    ) {
        Ok(metadata) => metadata,
        Err(e) => return Err(e),
    };
    let second: &TensorMetadata = match projection_metadata(
        tensor_index,
        dispatch,
        &parameters[1].1,
    ) {
        Ok(metadata) => metadata,
        Err(e) => return Err(e),
    };
    assert(first@.shape =~= first.shape@);
    assert(second@.shape =~= second.shape@);
    if !sequence::same_numbers(&first.shape, &second.shape) {
        return Err(
            dispatch_error(
                dispatch,
                Message::new("projection shapes ").number_list(&first.shape).text(
                    " and ",
                ).number_list(&second.shape).text(" do not match").done(),
            ),
        );
    }
    let output_rows: usize = first.shape[0];
    let input_width: usize = first.shape[1];
    let workgroup_count: usize = artifact_workgroup_count_x as usize;
    if workgroup_count == 0 || output_rows % workgroup_count != 0 {
        return Err(
            dispatch_error(
                dispatch,
                Message::new("output row count ").number(output_rows).text(
                    " is incompatible with artifact workgroup count ",
                ).number(workgroup_count).done(),
            ),
        );
    }
    let workgroup_rows: usize = output_rows / workgroup_count;
    let paired: bool = is_layout(&first.layout, "vulkan_bf16_row_pair_u32") || is_layout(
        &second.layout,
        "vulkan_bf16_row_pair_u32",
    );
    let mut row_alignment: usize = match crate::arithmetic::least_common_multiple(
        workgroup_rows,
        storage_buffer_offset_alignment / BF16_BYTE_COUNT,
    ) {
        Some(alignment) => alignment,
        None => return Err(dispatch_error(dispatch, "row alignment overflowed".to_owned())),
    };
    if paired {
        row_alignment = match crate::arithmetic::least_common_multiple(row_alignment, 2) {
            Some(alignment) => alignment,
            None => return Err(dispatch_error(dispatch, "row alignment overflowed".to_owned())),
        };
    }
    let input_byte_capacity: usize = match input_width.checked_mul(BF16_BYTE_COUNT) {
        Some(capacity) => capacity,
        None => return Err(dispatch_error(dispatch, "input byte capacity overflowed".to_owned())),
    };
    let output_byte_capacity: usize = match output_rows.checked_mul(BF16_BYTE_COUNT) {
        Some(capacity) => capacity,
        None => return Err(dispatch_error(dispatch, "output byte capacity overflowed".to_owned())),
    };
    let input_activation: VulkanDistributedActivationSlot = match activation_slot(
        dispatch,
        0,
        input_byte_capacity,
        "input",
    ) {
        Ok(slot) => slot,
        Err(e) => return Err(e),
    };
    let output_activation: VulkanDistributedActivationSlot = match activation_slot(
        dispatch,
        1,
        output_byte_capacity,
        "output",
    ) {
        Ok(slot) => slot,
        Err(e) => return Err(e),
    };
    assert(device_ids.deep_view().len() == device_ids@.len());
    let ranges: Vec<(usize, usize)> = match distribute_rows(
        output_rows,
        device_ids.len(),
        workgroup_rows,
        row_alignment,
    ) {
        Ok(ranges) => ranges,
        Err(message) => return Err(dispatch_error(dispatch, message)),
    };
    assert(ranges.deep_view().len() == ranges@.len());
    if ranges.len() < 2 {
        return Ok(None);
    }
    let first_row_bytes: usize = match tensor_row_bytes(
        dispatch,
        &parameters[0].1,
        first,
        output_rows,
    ) {
        Ok(bytes) => bytes,
        Err(e) => return Err(e),
    };
    let second_row_bytes: usize = match tensor_row_bytes(
        dispatch,
        &parameters[1].1,
        second,
        output_rows,
    ) {
        Ok(bytes) => bytes,
        Err(e) => return Err(e),
    };
    let shared = ProjectionShards {
        dispatch,
        workgroup_rows,
        first: (parameters[0].0, parameters[0].1.clone()),
        first_row_bytes,
        second: (parameters[1].0, parameters[1].1.clone()),
        second_row_bytes,
    };
    let assigned: Vec<(String, (usize, usize))> = assign_shards(
        list_shard_devices(owner_device_id, device_ids),
        ranges,
    );
    let (shards, distributed_parameter_byte_count): (
        Vec<VulkanDistributedDispatchShard>,
        usize,
    ) = match shared.plan_shards(&assigned) {
        Ok(planned) => planned,
        Err(e) => return Err(e),
    };
    let auxiliary_input_activations: Vec<VulkanDistributedActivationSlot> = Vec::new();
    assert(auxiliary_input_activations.deep_view() =~= Seq::empty());
    Ok(
        Some(
            VulkanDistributedDispatchPlan {
                owner_device_id: owner_device_id.to_owned(),
                dispatch_index: dispatch.dispatch_index,
                component_id: dispatch.component_id.clone(),
                node_id: dispatch.node_id.clone(),
                reusable_family_id: dispatch.reusable_family_id.clone(),
                input_byte_capacity,
                output_byte_capacity,
                output_rows,
                input_width,
                row_alignment,
                input_activation,
                auxiliary_input_activations,
                output_activation,
                distribution: VulkanDistributedDispatchDistribution::OutputRows,
                distributed_parameter_byte_count,
                shards,
            },
        ),
    )
}

// ---------------------------------------------------------------------------
// Sparse experts
// ---------------------------------------------------------------------------

/// Whether a dispatch carries exactly the scalar that says where its expert range starts.
pub open spec fn has_expert_start_contract(
    push_constants: Seq<VulkanKernelScalarBindingView>,
) -> bool {
    &&& push_constants.len() == 1
    &&& push_constants[0].name == "expert_start"@
    &&& push_constants[0].scalar_type == "u32"@
}

fn carries_expert_start(push_constants: &Vec<VulkanKernelScalarBinding>) -> (r: bool)
    ensures
        r == has_expert_start_contract(push_constants.deep_view()),
{
    assert(push_constants.deep_view().len() == push_constants@.len());
    if push_constants.len() != 1 {
        return false;
    }
    assert(push_constants.deep_view()[0] == push_constants@[0]@);
    text::same(push_constants[0].name.as_str(), "expert_start") && text::same(
        push_constants[0].scalar_type.as_str(),
        "u32",
    )
}

/// The expert tensors seen so far: their common leading dimension, the expert alignment, and
/// binding, tensor and bytes per expert of each.
#[verifier::ext_equal]
pub struct ExpertsView {
    pub expert_count: Option<usize>,
    pub alignment: nat,
    pub parameters: Seq<(usize, Seq<char>, usize)>,
}

/// The state before the first expert tensor.
pub open spec fn no_experts() -> ExpertsView {
    ExpertsView { expert_count: None, alignment: 1, parameters: Seq::empty() }
}

/// Takes one expert tensor in. `Err(None)` says that the dispatch is not split.
#[verifier::opaque]
pub open spec fn expert_parameter(
    dispatch: VulkanPreparedDispatchView,
    tensors: Map<Seq<char>, TensorMetadataView>,
    offset_alignment: nat,
    seen: ExpertsView,
    parameter: (usize, Seq<char>),
) -> Result<ExpertsView, Option<Seq<char>>> {
    let (binding, tensor) = parameter;
    if !tensors.contains_key(tensor) {
        Err(Some(dispatch_message(dispatch, "has no tensor metadata for "@ + text::quoted(tensor))))
    } else {
        let metadata = tensors[tensor];
        let experts = metadata.shape[0];
        if metadata.shape.len() < 2 || !shardable_layout(metadata.layout) {
            Err(None)
        } else if experts == 0 || (seen.expert_count is Some && seen.expert_count->0 != experts) {
            Err(
                Some(
                    dispatch_message(
                        dispatch,
                        "expert tensor "@ + text::quoted(tensor)
                            + " has incompatible leading dimension "@ + text::decimal(
                            experts as nat,
                        ),
                    ),
                ),
            )
        } else {
            match metadata.byte_count {
                None => Err(
                    Some(
                        dispatch_message(
                            dispatch,
                            "expert tensor "@ + text::quoted(tensor) + " has no byte count"@,
                        ),
                    ),
                ),
                Some(byte_count) => if byte_count == 0 || byte_count % experts != 0 {
                    Err(
                        Some(
                            dispatch_message(
                                dispatch,
                                "expert tensor "@ + text::quoted(tensor) + " byte count "@
                                    + text::decimal(byte_count as nat) + " is not divisible by "@
                                    + text::decimal(experts as nat) + " experts"@,
                            ),
                        ),
                    )
                } else {
                    let bytes = byte_count / experts;
                    match crate::arithmetic::lcm(
                        seen.alignment,
                        offset_alignment / crate::arithmetic::gcd(offset_alignment, bytes as nat),
                    ) {
                        None => Err(Some(dispatch_message(dispatch, "expert alignment overflowed"@))),
                        Some(alignment) => Ok(
                            ExpertsView {
                                expert_count: Some(experts),
                                alignment,
                                parameters: seen.parameters.push((binding, tensor, bytes)),
                            },
                        ),
                    }
                },
            }
        }
    }
}

/// One step of taking expert tensors in.
pub open spec fn expert_step(
    dispatch: VulkanPreparedDispatchView,
    tensors: Map<Seq<char>, TensorMetadataView>,
    offset_alignment: nat,
) -> spec_fn(ExpertsView, (usize, Seq<char>)) -> Result<ExpertsView, Option<Seq<char>>> {
    |seen: ExpertsView, parameter: (usize, Seq<char>)|
        expert_parameter(dispatch, tensors, offset_alignment, seen, parameter)
}

struct ExpertParameters {
    expert_count: Option<usize>,
    alignment: usize,
    parameters: Vec<(usize, String, usize)>,
}

impl ExpertParameters {
    spec fn value(&self) -> ExpertsView {
        ExpertsView {
            expert_count: self.expert_count,
            alignment: self.alignment as nat,
            parameters: self.parameters.deep_view(),
        }
    }

    fn take_in(
        self,
        dispatch: &VulkanPreparedDispatch,
        tensor_index: &TensorIndex,
        storage_buffer_offset_alignment: usize,
        parameter: &(usize, String),
    ) -> (r: Result<ExpertParameters, Option<VulkanDistributedPlanError>>)
        requires
            storage_buffer_offset_alignment > 0,
            self.alignment > 0,
        ensures
            (match r {
                Ok(next) => Ok::<ExpertsView, Option<Seq<char>>>(next.value()),
                Err(e) => Err(e.deep_view()),
            }) == expert_parameter(
                dispatch@,
                tensor_index@.tensors,
                storage_buffer_offset_alignment as nat,
                self.value(),
                parameter.deep_view(),
            ),
            r is Ok ==> r->Ok_0.alignment > 0 && r->Ok_0.expert_count is Some,
    {
        reveal(expert_parameter);
        let tensor: &String = &parameter.1;
        let metadata: &TensorMetadata = match tensor_index.tensors.get(tensor) {
            Some(metadata) => metadata,
            None => return Err(
                Some(
                    dispatch_error(
                        dispatch,
                        Message::new("has no tensor metadata for ").quoted(tensor.as_str()).done(),
                    ),
                ),
            ),
        };
        assert(metadata@.shape =~= metadata.shape@);
        if metadata.shape.len() < 2 || !has_shardable_layout(metadata) {
            return Err(None);
        }
        let experts: usize = metadata.shape[0];
        let compatible: bool = match self.expert_count {
            Some(expected) => expected == experts,
            None => true,
        };
        if experts == 0 || !compatible {
            return Err(
                Some(
                    dispatch_error(
                        dispatch,
                        Message::new("expert tensor ").quoted(tensor.as_str()).text(
                            " has incompatible leading dimension ",
                        ).number(experts).done(),
                    ),
                ),
            );
        }
        let byte_count: usize = match metadata.byte_count {
            Some(count) => count,
            None => return Err(
                Some(
                    dispatch_error(
                        dispatch,
                        Message::new("expert tensor ").quoted(tensor.as_str()).text(
                            " has no byte count",
                        ).done(),
                    ),
                ),
            ),
        };
        if byte_count == 0 || byte_count % experts != 0 {
            return Err(
                Some(
                    dispatch_error(
                        dispatch,
                        Message::new("expert tensor ").quoted(tensor.as_str()).text(
                            " byte count ",
                        ).number(byte_count).text(" is not divisible by ").number(experts).text(
                            " experts",
                        ).done(),
                    ),
                ),
            );
        }
        let bytes: usize = byte_count / experts;
        let common: usize = crate::arithmetic::greatest_common_divisor(
            storage_buffer_offset_alignment,
            bytes,
        );
        let tensor_alignment: usize = storage_buffer_offset_alignment / common;
        let alignment: usize = match crate::arithmetic::least_common_multiple(
            self.alignment,
            tensor_alignment,
        ) {
            Some(alignment) => alignment,
            None => return Err(
                Some(dispatch_error(dispatch, "expert alignment overflowed".to_owned())),
            ),
        };
        proof {
            lemma_expert_alignment_positive(
                self.alignment as nat,
                storage_buffer_offset_alignment as nat,
                bytes as nat,
            );
        }
        let ghost before = self.parameters.deep_view();
        let mut parameters: Vec<(usize, String, usize)> = self.parameters;
        parameters.push((parameter.0, tensor.clone(), bytes));
        assert(parameters.deep_view() =~= before.push((parameter.0, tensor@, bytes)));
        Ok(ExpertParameters { expert_count: Some(experts), alignment, parameters })
    }

    fn take_in_all(
        dispatch: &VulkanPreparedDispatch,
        tensor_index: &TensorIndex,
        storage_buffer_offset_alignment: usize,
        listed: &Vec<(usize, String)>,
    ) -> (r: Result<ExpertParameters, Option<VulkanDistributedPlanError>>)
        requires
            storage_buffer_offset_alignment > 0,
        ensures
            (match r {
                Ok(next) => Ok::<ExpertsView, Option<Seq<char>>>(next.value()),
                Err(e) => Err(e.deep_view()),
            }) == sequence::try_fold(
                listed.deep_view(),
                no_experts(),
                expert_step(
                    dispatch@,
                    tensor_index@.tensors,
                    storage_buffer_offset_alignment as nat,
                ),
            ),
            r is Ok && listed@.len() > 0 ==> r->Ok_0.expert_count is Some,
    {
        let ghost all = listed.deep_view();
        let ghost step = expert_step(
            dispatch@,
            tensor_index@.tensors,
            storage_buffer_offset_alignment as nat,
        );
        let mut seen = ExpertParameters {
            expert_count: None,
            alignment: 1,
            parameters: Vec::new(),
        };
        let mut i: usize = 0;
        assert(seen.parameters.deep_view() =~= Seq::empty());
        assert(all.take(0) =~= Seq::empty());
        while i < listed.len()
            invariant
                i <= listed.len(),
                all == listed.deep_view(),
                step == expert_step(
                    dispatch@,
                    tensor_index@.tensors,
                    storage_buffer_offset_alignment as nat,
                ),
                storage_buffer_offset_alignment > 0,
                seen.alignment > 0,
                i > 0 ==> seen.expert_count is Some,
                sequence::try_fold(all.take(i as int), no_experts(), step) == Ok::<
                    ExpertsView,
                    Option<Seq<char>>,
                >(seen.value()),
            decreases listed.len() - i,
        {
            proof {
                sequence::lemma_try_fold_step(all, no_experts(), step, i as int);
            }
            match seen.take_in(dispatch, tensor_index, storage_buffer_offset_alignment, &listed[i]) {
                Ok(next) => {
                    seen = next;
                },
                Err(e) => {
                    proof {
                        sequence::lemma_try_fold_error(all, no_experts(), step, i + 1);
                    }
                    return Err(e);
                },
            }
            i += 1;
        }
        assert(all.take(all.len() as int) =~= all);
        Ok(seen)
    }
}

proof fn lemma_expert_alignment_positive(alignment: nat, offset_alignment: nat, bytes: nat)
    requires
        alignment > 0,
        offset_alignment > 0,
    ensures
        offset_alignment / crate::arithmetic::gcd(offset_alignment, bytes) > 0,
        crate::arithmetic::lcm(
            alignment,
            offset_alignment / crate::arithmetic::gcd(offset_alignment, bytes),
        ) is Some ==> crate::arithmetic::lcm(
            alignment,
            offset_alignment / crate::arithmetic::gcd(offset_alignment, bytes),
        )->0 > 0,
{
    lemma_quotient_positive(offset_alignment, bytes);
    let other = offset_alignment / crate::arithmetic::gcd(offset_alignment, bytes);
    lemma_divisor_quotient(alignment, other);
    let quotient = other / crate::arithmetic::gcd(alignment, other);
    assert(alignment * quotient > 0) by (nonlinear_arith)
        requires
            alignment > 0,
            quotient > 0,
    ;
}

proof fn lemma_quotient_positive(a: nat, b: nat)
    requires
        a > 0,
    ensures
        a / crate::arithmetic::gcd(a, b) > 0,
{
    crate::arithmetic::lemma_gcd_divides(a, b);
    let g = crate::arithmetic::gcd(a, b);
    let k = choose|k: nat| a == #[trigger] (g * k);
    lemma_exact_quotient(a, g, k);
}

proof fn lemma_divisor_quotient(a: nat, b: nat)
    requires
        b > 0,
    ensures
        b / crate::arithmetic::gcd(a, b) > 0,
{
    crate::arithmetic::lemma_gcd_divides(a, b);
    let g = crate::arithmetic::gcd(a, b);
    let k = choose|k: nat| b == #[trigger] (g * k);
    lemma_exact_quotient(b, g, k);
}

proof fn lemma_exact_quotient(n: nat, g: nat, k: nat)
    requires
        n > 0,
        g > 0,
        n == g * k,
    ensures
        n / g == k,
        k > 0,
{
    vstd::arithmetic::div_mod::lemma_div_multiples_vanish(k as int, g as int);
    if k == 0 {
        assert(g * 0 == 0) by (nonlinear_arith);
    }
}

/// The fragments of one expert shard.
pub open spec fn expert_fragment(
    dispatch: VulkanPreparedDispatchView,
    range: (usize, usize),
) -> spec_fn((usize, Seq<char>, usize)) -> Result<
    VulkanDistributedParameterFragmentView,
    Seq<char>,
> {
    |p: (usize, Seq<char>, usize)| row_fragment(dispatch, p.0, p.1, p.2 as nat, range)
}

/// The bytes of these fragments.
pub open spec fn fragment_byte_counts(
    fragments: Seq<VulkanDistributedParameterFragmentView>,
) -> Seq<usize> {
    Seq::new(fragments.len(), |i: int| fragments[i].byte_count)
}

/// What every expert shard shares.
pub struct ExpertShardingView {
    pub dispatch: VulkanPreparedDispatchView,
    pub parameters: Seq<(usize, Seq<char>, usize)>,
    pub workgroup_count: u32,
    pub output_byte_capacity: usize,
}

/// Plans one expert shard.
#[verifier::opaque]
pub open spec fn expert_shard(
    e: ExpertShardingView,
    done: ShardsView,
    assigned: (Seq<char>, (usize, usize)),
) -> Result<ShardsView, Seq<char>> {
    let (device_id, range) = assigned;
    match sequence::try_map(e.parameters, expert_fragment(e.dispatch, range)) {
        Err(error) => Err(error),
        Ok(fragments) => {
            let byte_count = done.byte_count + sequence::sum(fragment_byte_counts(fragments));
            if byte_count > usize::MAX {
                Err(dispatch_message(e.dispatch, "expert shard parameter byte count overflowed"@))
            } else if range.0 > u32::MAX {
                Err(dispatch_message(e.dispatch, "expert start exceeds u32"@))
            } else {
                Ok(
                    ShardsView {
                        shards: done.shards.push(
                            VulkanDistributedDispatchShardView {
                                device_id,
                                row_start: range.0,
                                row_count: range.1,
                                workgroup_count_x: e.workgroup_count,
                                base_workgroup_z: range.0 as u32,
                                output_byte_offset: 0,
                                output_byte_count: e.output_byte_capacity,
                                parameters: fragments,
                            },
                        ),
                        byte_count: byte_count as nat,
                    },
                )
            }
        },
    }
}

/// One step of planning the expert shards.
pub open spec fn expert_shard_step(e: ExpertShardingView) -> spec_fn(
    ShardsView,
    (Seq<char>, (usize, usize)),
) -> Result<ShardsView, Seq<char>> {
    |done: ShardsView, assigned: (Seq<char>, (usize, usize))| expert_shard(e, done, assigned)
}

struct ExpertShards<'a> {
    dispatch: &'a VulkanPreparedDispatch,
    parameters: Vec<(usize, String, usize)>,
    workgroup_count: u32,
    output_byte_capacity: usize,
}

impl<'a> ExpertShards<'a> {
    spec fn shared(&self) -> ExpertShardingView {
        ExpertShardingView {
            dispatch: self.dispatch@,
            parameters: self.parameters.deep_view(),
            workgroup_count: self.workgroup_count,
            output_byte_capacity: self.output_byte_capacity,
        }
    }

    fn plan_fragments(&self, row_start: usize, row_count: usize) -> (r: Result<
        Vec<VulkanDistributedParameterFragment>,
        VulkanDistributedPlanError,
    >)
        ensures
            sequence::outcome(r) == sequence::try_map(
                self.shared().parameters,
                expert_fragment(self.dispatch@, (row_start, row_count)),
            ),
    {
        let ghost all = self.parameters.deep_view();
        let ghost f = expert_fragment(self.dispatch@, (row_start, row_count));
        let mut fragments: Vec<VulkanDistributedParameterFragment> = Vec::new();
        let mut i: usize = 0;
        assert(fragments.deep_view() =~= Seq::empty());
        assert(all.take(0) =~= Seq::empty());
        while i < self.parameters.len()
            invariant
                i <= self.parameters.len(),
                all == self.parameters.deep_view(),
                f == expert_fragment(self.dispatch@, (row_start, row_count)),
                sequence::try_map(all.take(i as int), f) == Ok::<
                    Seq<VulkanDistributedParameterFragmentView>,
                    Seq<char>,
                >(fragments.deep_view()),
            decreases self.parameters.len() - i,
        {
            proof {
                sequence::lemma_try_map_step(all, f, i as int);
            }
            let ghost before = fragments.deep_view();
            let parameter: &(usize, String, usize) = &self.parameters[i];
            match parameter_fragment(
                parameter.0,
                &parameter.1,
                parameter.2,
                row_start,
                row_count,
                self.dispatch,
            ) {
                Ok(fragment) => {
                    let ghost planned = fragment@;
                    fragments.push(fragment);
                    assert(fragments.deep_view() =~= before.push(planned));
                },
                Err(e) => {
                    proof {
                        sequence::lemma_try_map_error(all, f, i + 1);
                    }
                    return Err(e);
                },
            }
            i += 1;
        }
        assert(all.take(all.len() as int) =~= all);
        Ok(fragments)
    }

    fn add_bytes(fragments: &Vec<VulkanDistributedParameterFragment>, byte_count: usize) -> (r:
        Option<usize>)
        ensures
            r is Some == (byte_count + sequence::sum(fragment_byte_counts(fragments.deep_view()))
                <= usize::MAX),
            r is Some ==> r->0 == byte_count + sequence::sum(
                fragment_byte_counts(fragments.deep_view()),
            ),
    {
        let ghost counts = fragment_byte_counts(fragments.deep_view());
        let mut total: usize = byte_count;
        let mut i: usize = 0;
        assert(counts.take(0) =~= Seq::empty());
        while i < fragments.len()
            invariant
                i <= fragments.len(),
                counts == fragment_byte_counts(fragments.deep_view()),
                total == byte_count + sequence::sum(counts.take(i as int)),
            decreases fragments.len() - i,
        {
            assert(counts[i as int] == fragments@[i as int].byte_count);
            proof {
                sequence::lemma_sum_step(counts, i as int);
                sequence::lemma_sum_prefix(counts, i + 1);
            }
            match total.checked_add(fragments[i].byte_count) {
                Some(next) => {
                    total = next;
                },
                None => return None,
            }
            i += 1;
        }
        assert(counts.take(counts.len() as int) =~= counts);
        Some(total)
    }

    fn plan_shard(
        &self,
        assigned: &(String, (usize, usize)),
        byte_count: usize,
        Ghost(done): Ghost<Seq<VulkanDistributedDispatchShardView>>,
    ) -> (r: Result<(VulkanDistributedDispatchShard, usize), VulkanDistributedPlanError>)
        ensures
            (match r {
                Ok((shard, total)) => Ok::<ShardsView, Seq<char>>(
                    ShardsView { shards: done.push(shard@), byte_count: total as nat },
                ),
                Err(e) => Err(e@),
            }) == expert_shard(
                self.shared(),
                ShardsView { shards: done, byte_count: byte_count as nat },
                assigned.deep_view(),
            ),
    {
        reveal(expert_shard);
        let row_start: usize = (assigned.1).0;
        let row_count: usize = (assigned.1).1;
        let parameters: Vec<VulkanDistributedParameterFragment> = match self.plan_fragments(
            row_start,
            row_count,
        ) {
            Ok(fragments) => fragments,
            Err(e) => return Err(e),
        };
        let total: usize = match Self::add_bytes(&parameters, byte_count) {
            Some(total) => total,
            None => return Err(
                dispatch_error(
                    self.dispatch,
                    "expert shard parameter byte count overflowed".to_owned(),
                ),
            ),
        };
        if row_start > u32::MAX as usize {
            return Err(dispatch_error(self.dispatch, "expert start exceeds u32".to_owned()));
        }
        Ok(
            (
                VulkanDistributedDispatchShard {
                    device_id: assigned.0.clone(),
                    row_start,
                    row_count,
                    workgroup_count_x: self.workgroup_count,
                    base_workgroup_z: row_start as u32,
                    output_byte_offset: 0,
                    output_byte_count: self.output_byte_capacity,
                    parameters,
                },
                total,
            ),
        )
    }

    fn plan_shards(&self, assigned: &Vec<(String, (usize, usize))>) -> (r: Result<
        (Vec<VulkanDistributedDispatchShard>, usize),
        VulkanDistributedPlanError,
    >)
        ensures
            (match r {
                Ok((shards, total)) => Ok::<ShardsView, Seq<char>>(
                    ShardsView { shards: shards.deep_view(), byte_count: total as nat },
                ),
                Err(e) => Err(e@),
            }) == sequence::try_fold(
                assigned.deep_view(),
                no_shards(),
                expert_shard_step(self.shared()),
            ),
    {
        let ghost all = assigned.deep_view();
        let ghost step = expert_shard_step(self.shared());
        let mut shards: Vec<VulkanDistributedDispatchShard> = Vec::new();
        let mut total: usize = 0;
        let mut i: usize = 0;
        assert(shards.deep_view() =~= Seq::empty());
        assert(all.take(0) =~= Seq::empty());
        while i < assigned.len()
            invariant
                i <= assigned.len(),
                all == assigned.deep_view(),
                step == expert_shard_step(self.shared()),
                sequence::try_fold(all.take(i as int), no_shards(), step) == Ok::<
                    ShardsView,
                    Seq<char>,
                >(ShardsView { shards: shards.deep_view(), byte_count: total as nat }),
            decreases assigned.len() - i,
        {
            proof {
                sequence::lemma_try_fold_step(all, no_shards(), step, i as int);
            }
            let ghost before = shards.deep_view();
            match self.plan_shard(&assigned[i], total, Ghost(before)) {
                Ok((shard, next)) => {
                    let ghost planned = shard@;
                    shards.push(shard);
                    total = next;
                    assert(shards.deep_view() =~= before.push(planned));
                },
                Err(e) => {
                    proof {
                        sequence::lemma_try_fold_error(all, no_shards(), step, i + 1);
                    }
                    return Err(e);
                },
            }
            i += 1;
        }
        assert(all.take(all.len() as int) =~= all);
        Ok((shards, total))
    }
}

/// How a sparse expert dispatch is split by its experts. `None` where it stays on its owner: it
/// does not carry the expert start, its artifact has no workgroups, it reads no parameters, a
/// tensor cannot be split, or the experts do not give two shards.
#[verifier::opaque]
pub open spec fn expert_plan(
    owner: Seq<char>,
    dispatch: VulkanPreparedDispatchView,
    tensors: Map<Seq<char>, TensorMetadataView>,
    pool: Seq<Seq<char>>,
    workgroup_count: u32,
    offset_alignment: nat,
) -> Result<Option<VulkanDistributedDispatchPlanView>, Seq<char>> {
    let listed = parameter_descriptors(dispatch.descriptors);
    if !has_expert_start_contract(dispatch.push_constants) || workgroup_count == 0 || listed.len()
        == 0 {
        Ok(None)
    } else {
        match sequence::try_fold(
            listed,
            no_experts(),
            expert_step(dispatch, tensors, offset_alignment),
        ) {
            Err(None) => Ok(None),
            Err(Some(e)) => Err(e),
            Ok(experts) => match distributed_rows(
                experts.expert_count->0 as nat,
                pool.len(),
                1,
                experts.alignment,
            ) {
                Err(e) => Err(dispatch_message(dispatch, e)),
                Ok(ranges) => if ranges.len() < 2 {
                    Ok(None)
                } else {
                    expert_plan_of(owner, dispatch, pool, workgroup_count, experts, ranges)
                },
            },
        }
    }
}

/// The plan of an expert dispatch whose expert ranges are known.
pub open spec fn expert_plan_of(
    owner: Seq<char>,
    dispatch: VulkanPreparedDispatchView,
    pool: Seq<Seq<char>>,
    workgroup_count: u32,
    experts: ExpertsView,
    ranges: Seq<(usize, usize)>,
) -> Result<Option<VulkanDistributedDispatchPlanView>, Seq<char>> {
    match resident_activation(dispatch, 0, 1, "primary input"@) {
        Err(e) => Err(e),
        Ok(input) => match resident_activation(dispatch, 1, 1, "expert routes"@) {
            Err(e) => Err(e),
            Ok(routes) => match resident_activation(dispatch, 2, 1, "output"@) {
                Err(e) => Err(e),
                Ok(output) => match sequence::try_fold(
                    shard_assignments(shard_devices(owner, pool), ranges),
                    no_shards(),
                    expert_shard_step(
                        ExpertShardingView {
                            dispatch,
                            parameters: experts.parameters,
                            workgroup_count,
                            output_byte_capacity: output.signal_byte_capacity,
                        },
                    ),
                ) {
                    Err(e) => Err(e),
                    Ok(done) => Ok(
                        Some(
                            VulkanDistributedDispatchPlanView {
                                owner_device_id: owner,
                                dispatch_index: dispatch.dispatch_index,
                                component_id: dispatch.component_id,
                                node_id: dispatch.node_id,
                                reusable_family_id: dispatch.reusable_family_id,
                                input_byte_capacity: input.signal_byte_capacity,
                                output_byte_capacity: output.signal_byte_capacity,
                                output_rows: experts.expert_count->0,
                                input_width: (input.signal_byte_capacity / 2) as usize,
                                row_alignment: experts.alignment as usize,
                                input_activation: input,
                                auxiliary_input_activations: seq![routes],
                                output_activation: output,
                                distribution: VulkanDistributedDispatchDistribution::ExpertRange,
                                distributed_parameter_byte_count: done.byte_count as usize,
                                shards: done.shards,
                            },
                        ),
                    ),
                },
            },
        },
    }
}

fn plan_sparse_expert_dispatch(
    owner_device_id: &str,
    dispatch: &VulkanPreparedDispatch,
    tensor_index: &TensorIndex,
    device_ids: &Vec<String>,
    artifact_workgroup_count_x: u32,
    storage_buffer_offset_alignment: usize,
) -> (r: Result<Option<VulkanDistributedDispatchPlan>, VulkanDistributedPlanError>)
    requires
        storage_buffer_offset_alignment > 0,
    ensures
        sequence::outcome(r) == expert_plan(
            owner_device_id@,
            dispatch@,
            tensor_index@.tensors,
            device_ids.deep_view(),
            artifact_workgroup_count_x,
            storage_buffer_offset_alignment as nat,
        ),
{
    reveal(expert_plan);
    if !carries_expert_start(&dispatch.push_constants) || artifact_workgroup_count_x == 0 {
        return Ok(None);
    }
    let listed: Vec<(usize, String)> = list_parameter_descriptors(&dispatch.descriptors);
    assert(listed.deep_view().len() == listed@.len());
    if listed.len() == 0 {
        return Ok(None);
    }
    let experts: ExpertParameters = match ExpertParameters::take_in_all(
        dispatch,
        tensor_index,
        storage_buffer_offset_alignment,
        &listed,
    ) {
        Ok(experts) => experts,
        Err(None) => return Ok(None),
        Err(Some(e)) => return Err(e),
    };
    let expert_count: usize = match experts.expert_count {
        Some(count) => count,
        None => return Ok(None),
    };
    assert(device_ids.deep_view().len() == device_ids@.len());
    let ranges: Vec<(usize, usize)> = match distribute_rows(
        expert_count,
        device_ids.len(),
        1,
        experts.alignment,
    ) {
        Ok(ranges) => ranges,
        Err(message) => return Err(dispatch_error(dispatch, message)),
    };
    assert(ranges.deep_view().len() == ranges@.len());
    if ranges.len() < 2 {
        return Ok(None);
    }
    let input_activation: VulkanDistributedActivationSlot = match activation_slot(
        dispatch,
        0,
        1,
        "primary input",
    ) {
        Ok(slot) => slot,
        Err(e) => return Err(e),
    };
    let routes_activation: VulkanDistributedActivationSlot = match activation_slot(
        dispatch,
        1,
        1,
        "expert routes",
    ) {
        Ok(slot) => slot,
        Err(e) => return Err(e),
    };
    let output_activation: VulkanDistributedActivationSlot = match activation_slot(
        dispatch,
        2,
        1,
        "output",
    ) {
        Ok(slot) => slot,
        Err(e) => return Err(e),
    };
    let input_byte_capacity: usize = input_activation.signal_byte_capacity;
    let output_byte_capacity: usize = output_activation.signal_byte_capacity;
    let row_alignment: usize = experts.alignment;
    let shared = ExpertShards {
        dispatch,
        parameters: experts.parameters,
        workgroup_count: artifact_workgroup_count_x,
        output_byte_capacity,
    };
    let assigned: Vec<(String, (usize, usize))> = assign_shards(
        list_shard_devices(owner_device_id, device_ids),
        ranges,
    );
    let (shards, distributed_parameter_byte_count): (
        Vec<VulkanDistributedDispatchShard>,
        usize,
    ) = match shared.plan_shards(&assigned) {
        Ok(planned) => planned,
        Err(e) => return Err(e),
    };
    let ghost routes = routes_activation@;
    let mut auxiliary_input_activations: Vec<VulkanDistributedActivationSlot> = Vec::new();
    auxiliary_input_activations.push(routes_activation);
    assert(auxiliary_input_activations.deep_view() =~= seq![routes]);
    Ok(
        Some(
            VulkanDistributedDispatchPlan {
                owner_device_id: owner_device_id.to_owned(),
                dispatch_index: dispatch.dispatch_index,
                component_id: dispatch.component_id.clone(),
                node_id: dispatch.node_id.clone(),
                reusable_family_id: dispatch.reusable_family_id.clone(),
                input_byte_capacity,
                output_byte_capacity,
                output_rows: expert_count,
                input_width: input_byte_capacity / BF16_BYTE_COUNT,
                row_alignment,
                input_activation,
                auxiliary_input_activations,
                output_activation,
                distribution: VulkanDistributedDispatchDistribution::ExpertRange,
                distributed_parameter_byte_count,
                shards,
            },
        ),
    )
}

// ---------------------------------------------------------------------------
// Groups
// ---------------------------------------------------------------------------

/// The same activation, whatever the binding.
pub open spec fn same_activation(
    left: VulkanDistributedActivationSlotView,
    right: VulkanDistributedActivationSlotView,
) -> bool {
    left == VulkanDistributedActivationSlotView { binding: left.binding, ..right }
}

/// The same device and the same range.
pub open spec fn same_shard_range(
    left: VulkanDistributedDispatchShardView,
    right: VulkanDistributedDispatchShardView,
) -> bool {
    &&& left.device_id == right.device_id
    &&& left.row_start == right.row_start
    &&& left.row_count == right.row_count
    &&& left.base_workgroup_z == right.base_workgroup_z
}

/// Whether the consumer can follow the producer in one recorded sequence: both are split by
/// experts in the same way, stand next to each other in one component, and the consumer reads
/// what the producer wrote.
pub open spec fn can_share_sequence(
    producer: VulkanDistributedDispatchPlanView,
    consumer: VulkanDistributedDispatchPlanView,
) -> bool {
    &&& producer.owner_device_id == consumer.owner_device_id
    &&& producer.component_id == consumer.component_id
    &&& producer.dispatch_index + 1 == consumer.dispatch_index
    &&& producer.distribution == VulkanDistributedDispatchDistribution::ExpertRange
    &&& consumer.distribution == VulkanDistributedDispatchDistribution::ExpertRange
    &&& same_activation(producer.output_activation, consumer.input_activation)
    &&& producer.shards.len() == consumer.shards.len()
    &&& forall|i: int|
        0 <= i < producer.shards.len() ==> same_shard_range(
            #[trigger] producer.shards[i],
            consumer.shards[i],
        )
}

/// The dispatches in order, each joined to the group before it where it can be.
pub open spec fn dispatch_groups(
    dispatches: Seq<VulkanDistributedDispatchPlanView>,
) -> Seq<VulkanDistributedDispatchGroupView>
    decreases dispatches.len(),
{
    if dispatches.len() == 0 {
        Seq::empty()
    } else {
        let groups = dispatch_groups(dispatches.drop_last());
        let next = dispatches.last();
        if groups.len() > 0 && can_share_sequence(groups.last().dispatches.last(), next) {
            groups.drop_last().push(
                VulkanDistributedDispatchGroupView {
                    owner_device_id: groups.last().owner_device_id,
                    dispatches: groups.last().dispatches.push(next),
                },
            )
        } else {
            groups.push(
                VulkanDistributedDispatchGroupView {
                    owner_device_id: next.owner_device_id,
                    dispatches: seq![next],
                },
            )
        }
    }
}

/// The dispatches of these groups, one after the other.
pub open spec fn grouped_dispatches(
    groups: Seq<VulkanDistributedDispatchGroupView>,
) -> Seq<VulkanDistributedDispatchPlanView>
    decreases groups.len(),
{
    if groups.len() == 0 {
        Seq::empty()
    } else {
        grouped_dispatches(groups.drop_last()) + groups.last().dispatches
    }
}

/// Grouping keeps every dispatch, in order, and no group is empty.
pub proof fn groups_hold_the_dispatches_in_order(dispatches: Seq<VulkanDistributedDispatchPlanView>)
    ensures
        grouped_dispatches(dispatch_groups(dispatches)) == dispatches,
        forall|g: int|
            0 <= g < dispatch_groups(dispatches).len() ==> (#[trigger] dispatch_groups(
                dispatches,
            )[g]).dispatches.len() > 0,
    decreases dispatches.len(),
{
    if dispatches.len() > 0 {
        groups_hold_the_dispatches_in_order(dispatches.drop_last());
        let before = dispatch_groups(dispatches.drop_last());
        let after = dispatch_groups(dispatches);
        let next = dispatches.last();
        if before.len() > 0 && can_share_sequence(before.last().dispatches.last(), next) {
            assert(after.drop_last() =~= before.drop_last());
            assert(grouped_dispatches(after) =~= grouped_dispatches(before).push(next));
        } else {
            assert(after.drop_last() =~= before);
            assert(grouped_dispatches(after) =~= grouped_dispatches(before).push(next));
        }
        assert(grouped_dispatches(after) =~= dispatches);
    } else {
        assert(grouped_dispatches(dispatch_groups(dispatches)) =~= dispatches);
    }
}

/// Neighbours in a group can share a sequence, and the group is named after their common owner.
pub proof fn group_members_share_a_sequence(
    dispatches: Seq<VulkanDistributedDispatchPlanView>,
    g: int,
    i: int,
)
    requires
        0 <= g < dispatch_groups(dispatches).len(),
        0 <= i < dispatch_groups(dispatches)[g].dispatches.len(),
    ensures
        dispatch_groups(dispatches)[g].dispatches[i].owner_device_id == dispatch_groups(
            dispatches,
        )[g].owner_device_id,
        i + 1 < dispatch_groups(dispatches)[g].dispatches.len() ==> can_share_sequence(
            dispatch_groups(dispatches)[g].dispatches[i],
            dispatch_groups(dispatches)[g].dispatches[i + 1],
        ),
    decreases dispatches.len(),
{
    let before = dispatch_groups(dispatches.drop_last());
    let group = dispatch_groups(dispatches)[g];
    if g < before.len() && i < before[g].dispatches.len() {
        group_members_share_a_sequence(dispatches.drop_last(), g, i);
    } else if i > 0 {
        group_members_share_a_sequence(dispatches.drop_last(), g, i - 1);
    }
}

fn same_distributed_activation(
    left: &VulkanDistributedActivationSlot,
    right: &VulkanDistributedActivationSlot,
) -> (r: bool)
    ensures
        r == same_activation(left@, right@),
{
    left.component_id == right.component_id && left.signal_id == right.signal_id && left.slot
        == right.slot && left.byte_capacity == right.byte_capacity && left.signal_byte_capacity
        == right.signal_byte_capacity
}

fn distributed_dispatches_can_share_sequence(
    producer: &VulkanDistributedDispatchPlan,
    consumer: &VulkanDistributedDispatchPlan,
) -> (r: bool)
    ensures
        r == can_share_sequence(producer@, consumer@),
{
    assert(producer@.shards.len() == producer.shards@.len());
    assert(consumer@.shards.len() == consumer.shards@.len());
    if producer.owner_device_id != consumer.owner_device_id || producer.component_id
        != consumer.component_id || producer.distribution
        != VulkanDistributedDispatchDistribution::ExpertRange || consumer.distribution
        != VulkanDistributedDispatchDistribution::ExpertRange || !same_distributed_activation(
        &producer.output_activation,
        &consumer.input_activation,
    ) || producer.shards.len() != consumer.shards.len() {
        return false;
    }
    match producer.dispatch_index.checked_add(1) {
        Some(next) => {
            if next != consumer.dispatch_index {
                return false;
            }
        },
        None => return false,
    }
    let mut i: usize = 0;
    while i < producer.shards.len()
        invariant
            i <= producer.shards.len(),
            producer@.shards.len() == producer.shards@.len(),
            consumer@.shards.len() == consumer.shards@.len(),
            producer.shards.len() == consumer.shards.len(),
            forall|j: int|
                0 <= j < i ==> same_shard_range(
                    #[trigger] producer@.shards[j],
                    consumer@.shards[j],
                ),
        decreases producer.shards.len() - i,
    {
        let left: &VulkanDistributedDispatchShard = &producer.shards[i];
        let right: &VulkanDistributedDispatchShard = &consumer.shards[i];
        assert(producer@.shards[i as int] == left@);
        assert(consumer@.shards[i as int] == right@);
        if left.device_id != right.device_id || left.row_start != right.row_start || left.row_count
            != right.row_count || left.base_workgroup_z != right.base_workgroup_z {
            assert(!same_shard_range(producer@.shards[i as int], consumer@.shards[i as int]));
            return false;
        }
        i += 1;
    }
    true
}

/// Joins adjacent dispatches that can share a sequence into groups.
pub fn distributed_dispatch_groups(dispatches: &[VulkanDistributedDispatchPlan]) -> (r: Vec<
    VulkanDistributedDispatchGroup,
>)
    ensures
        r.deep_view() == dispatch_groups(dispatches.deep_view()),
{
    let ghost all = dispatches.deep_view();
    let mut groups: Vec<VulkanDistributedDispatchGroup> = Vec::new();
    let mut i: usize = 0;
    assert(groups.deep_view() =~= dispatch_groups(all.take(0)));
    while i < dispatches.len()
        invariant
            i <= dispatches.len(),
            all == dispatches.deep_view(),
            groups.deep_view() == dispatch_groups(all.take(i as int)),
        decreases dispatches.len() - i,
    {
        let dispatch: &VulkanDistributedDispatchPlan = &dispatches[i];
        let ghost before = groups.deep_view();
        proof {
            assert(all.take(i + 1).drop_last() =~= all.take(i as int));
            assert(all.take(i + 1).last() == dispatch@);
            groups_hold_the_dispatches_in_order(all.take(i as int));
        }
        let joined: bool = match groups.pop() {
            Some(last) => {
                let mut group: VulkanDistributedDispatchGroup = last;
                let ghost tail = before.last();
                assert(tail == group@);
                assert(tail.dispatches.len() == group.dispatches@.len());
                assert(groups.deep_view() =~= before.drop_last());
                let shares: bool = distributed_dispatches_can_share_sequence(
                    &group.dispatches[group.dispatches.len() - 1],
                    dispatch,
                );
                if shares {
                    let ghost members = group.dispatches.deep_view();
                    group.dispatches.push(dispatch.clone());
                    assert(group.dispatches.deep_view() =~= members.push(dispatch@));
                }
                let ghost grown = group@;
                groups.push(group);
                assert(groups.deep_view() =~= before.drop_last().push(grown));
                if !shares {
                    assert(groups.deep_view() =~= before);
                }
                shares
            },
            None => {
                assert(before.len() == 0);
                assert(groups.deep_view() =~= before);
                false
            },
        };
        if !joined {
            let mut members: Vec<VulkanDistributedDispatchPlan> = Vec::new();
            members.push(dispatch.clone());
            assert(members.deep_view() =~= seq![dispatch@]);
            groups.push(
                VulkanDistributedDispatchGroup {
                    owner_device_id: dispatch.owner_device_id.clone(),
                    dispatches: members,
                },
            );
            assert(groups.deep_view() =~= before.push(
                VulkanDistributedDispatchGroupView {
                    owner_device_id: dispatch@.owner_device_id,
                    dispatches: seq![dispatch@],
                },
            ));
        }
        i += 1;
    }
    assert(all.take(all.len() as int) =~= all);
    groups
}

impl VulkanDistributedDispatchGroup {
    /// The first dispatch of the group.
    pub fn leader(&self) -> (r: &VulkanDistributedDispatchPlan)
        requires
            self@.dispatches.len() > 0,
        ensures
            r@ == self@.dispatches.first(),
    {
        assert(self@.dispatches.len() == self.dispatches@.len());
        &self.dispatches[0]
    }

    /// The last dispatch of the group.
    pub fn tail(&self) -> (r: &VulkanDistributedDispatchPlan)
        requires
            self@.dispatches.len() > 0,
        ensures
            r@ == self@.dispatches.last(),
    {
        assert(self@.dispatches.len() == self.dispatches@.len());
        &self.dispatches[self.dispatches.len() - 1]
    }

    /// Whether a dispatch of the group has this index.
    pub fn contains_dispatch(&self, dispatch_index: usize) -> (r: bool)
        ensures
            r == holds_dispatch(self@, dispatch_index),
    {
        let mut i: usize = 0;
        while i < self.dispatches.len()
            invariant
                i <= self.dispatches.len(),
                forall|j: int|
                    0 <= j < i ==> (#[trigger] self@.dispatches[j]).dispatch_index != dispatch_index,
            decreases self.dispatches.len() - i,
        {
            assert(self@.dispatches[i as int] == self.dispatches@[i as int]@);
            if self.dispatches[i].dispatch_index == dispatch_index {
                return true;
            }
            i += 1;
        }
        false
    }

    /// The indices of the dispatches of the group.
    pub fn dispatch_indices(&self) -> (r: Vec<usize>)
        ensures
            r@ == Seq::new(self@.dispatches.len(), |i: int| self@.dispatches[i].dispatch_index),
    {
        let mut indices: Vec<usize> = Vec::new();
        let mut i: usize = 0;
        while i < self.dispatches.len()
            invariant
                i <= self.dispatches.len(),
                indices@.len() == i,
                forall|j: int|
                    0 <= j < i ==> indices@[j] == (#[trigger] self@.dispatches[j]).dispatch_index,
            decreases self.dispatches.len() - i,
        {
            assert(self@.dispatches[i as int] == self.dispatches@[i as int]@);
            indices.push(self.dispatches[i].dispatch_index);
            i += 1;
        }
        indices
    }
}

/// Whether a dispatch of the group has this index.
pub open spec fn holds_dispatch(
    group: VulkanDistributedDispatchGroupView,
    dispatch_index: usize,
) -> bool {
    exists|i: int|
        0 <= i < group.dispatches.len() && (#[trigger] group.dispatches[i]).dispatch_index
            == dispatch_index
}

// ---------------------------------------------------------------------------
// Execution plan
// ---------------------------------------------------------------------------

/// Whether an offset alignment is a power of two and a multiple of the element size.
pub open spec fn valid_offset_alignment(alignment: nat) -> bool {
    alignment != 0 && crate::arithmetic::power_of_two(alignment) && alignment % 2 == 0
}

/// The pool and the alignment that a plan is made for, checked.
pub open spec fn pool_and_alignment_check(
    ids: Seq<Seq<char>>,
    alignment: nat,
) -> Result<(), Seq<char>> {
    match device_pool_check(ids) {
        Err(e) => Err(e),
        Ok(_) => if valid_offset_alignment(alignment) {
            Ok(())
        } else {
            Err(
                "distributed storage-buffer offset alignment "@ + text::decimal(alignment)
                    + " is invalid"@,
            )
        },
    }
}

/// Whether dispatches of this operation can be split at all.
pub open spec fn is_sparse_expert_op(op: Seq<char>) -> bool {
    op == SPARSE_GATE_UP_OP@ || op == SPARSE_DOWN_OP@
}

/// What is fixed while the dispatches are planned.
pub struct PlanningView {
    pub tensors: Map<Seq<char>, TensorMetadataView>,
    pub artifacts: Seq<VulkanReusableKernelArtifactView>,
    pub pool: Seq<Seq<char>>,
    pub alignment: nat,
}

/// The dispatches planned so far, with their totals.
#[verifier::ext_equal]
pub struct PlannedView {
    pub dispatches: Seq<VulkanDistributedDispatchPlanView>,
    pub input: usize,
    pub output: usize,
    pub bytes: usize,
}

/// Nothing planned yet.
pub open spec fn nothing_planned() -> PlannedView {
    PlannedView { dispatches: Seq::empty(), input: 0, output: 0, bytes: 0 }
}

/// The larger of two sizes.
pub open spec fn larger(a: usize, b: usize) -> usize {
    if a >= b {
        a
    } else {
        b
    }
}

/// How one dispatch is split, if it is.
pub open spec fn planned_dispatch(
    p: PlanningView,
    owner: Seq<char>,
    dispatch: VulkanPreparedDispatchView,
    workgroup_count: u32,
) -> Result<Option<VulkanDistributedDispatchPlanView>, Seq<char>> {
    if is_sparse_expert_op(dispatch.op) {
        expert_plan(owner, dispatch, p.tensors, p.pool, workgroup_count, p.alignment)
    } else {
        projection_plan(owner, dispatch, p.tensors, p.pool, workgroup_count, p.alignment)
    }
}

/// Plans one prepared dispatch.
#[verifier::opaque]
pub open spec fn plan_next(
    p: PlanningView,
    owner: Seq<char>,
    done: PlannedView,
    dispatch: VulkanPreparedDispatchView,
) -> Result<PlannedView, Seq<char>> {
    if dispatch.op != DISTRIBUTABLE_PARALLEL_PROJECTION_OP@ && !is_sparse_expert_op(dispatch.op) {
        Ok(done)
    } else {
        match reusable_kernels::artifact_of_family(p.artifacts, dispatch.reusable_family_id) {
            None => Err(
                "distributed dispatch "@ + dispatch.component_id + "."@ + dispatch.node_id
                    + " has no artifact for family "@ + text::quoted(dispatch.reusable_family_id),
            ),
            Some(artifact) => match planned_dispatch(
                p,
                owner,
                dispatch,
                artifact.workgroup_count_x,
            ) {
                Err(e) => Err(e),
                Ok(None) => Ok(done),
                Ok(Some(plan)) => if done.bytes + plan.distributed_parameter_byte_count
                    > usize::MAX {
                    Err("distributed parameter byte count overflowed"@)
                } else {
                    Ok(
                        PlannedView {
                            dispatches: done.dispatches.push(plan),
                            input: larger(done.input, plan.input_byte_capacity),
                            output: larger(done.output, plan.output_byte_capacity),
                            bytes: (done.bytes + plan.distributed_parameter_byte_count) as usize,
                        },
                    )
                },
            },
        }
    }
}

/// One step over the dispatches of one owner.
pub open spec fn dispatch_step(p: PlanningView, owner: Seq<char>) -> spec_fn(
    PlannedView,
    VulkanPreparedDispatchView,
) -> Result<PlannedView, Seq<char>> {
    |done: PlannedView, dispatch: VulkanPreparedDispatchView| plan_next(p, owner, done, dispatch)
}

/// Plans the dispatches of one owner.
#[verifier::opaque]
pub open spec fn plan_owner(
    p: PlanningView,
    done: PlannedView,
    prepared: (Seq<char>, VulkanPreparedDispatchPlanView),
) -> Result<PlannedView, Seq<char>> {
    if p.pool.len() < 2 {
        Ok(done)
    } else if !p.pool.contains(prepared.0) {
        Err(
            "dispatch owner "@ + text::quoted(prepared.0)
                + " is absent from the distributed execution device pool"@,
        )
    } else {
        sequence::try_fold(prepared.1.dispatches, done, dispatch_step(p, prepared.0))
    }
}

/// One step over the owners.
pub open spec fn owner_step(p: PlanningView) -> spec_fn(
    PlannedView,
    (Seq<char>, VulkanPreparedDispatchPlanView),
) -> Result<PlannedView, Seq<char>> {
    |done: PlannedView, prepared: (Seq<char>, VulkanPreparedDispatchPlanView)|
        plan_owner(p, done, prepared)
}

/// The execution plan of these prepared plans.
pub open spec fn execution_plan(
    prepared: Seq<(Seq<char>, VulkanPreparedDispatchPlanView)>,
    p: PlanningView,
) -> Result<VulkanDistributedExecutionPlanView, Seq<char>> {
    match pool_and_alignment_check(p.pool, p.alignment) {
        Err(e) => Err(e),
        Ok(_) => match sequence::try_fold(prepared, nothing_planned(), owner_step(p)) {
            Err(e) => Err(e),
            Ok(done) => Ok(
                VulkanDistributedExecutionPlanView {
                    device_ids: p.pool,
                    storage_buffer_offset_alignment: p.alignment as usize,
                    dispatches: done.dispatches,
                    dispatch_groups: dispatch_groups(done.dispatches),
                    shared_input_byte_capacity: done.input,
                    shared_output_byte_capacity: done.output,
                    distributed_parameter_byte_count: done.bytes,
                },
            ),
        },
    }
}

/// The plan of a pool whose components stay whole.
pub open spec fn placed_components_plan(
    pool: Seq<Seq<char>>,
    alignment: nat,
) -> Result<VulkanDistributedExecutionPlanView, Seq<char>> {
    match pool_and_alignment_check(pool, alignment) {
        Err(e) => Err(e),
        Ok(_) => Ok(
            VulkanDistributedExecutionPlanView {
                device_ids: pool,
                storage_buffer_offset_alignment: alignment as usize,
                dispatches: Seq::empty(),
                dispatch_groups: Seq::empty(),
                shared_input_byte_capacity: 0,
                shared_output_byte_capacity: 0,
                distributed_parameter_byte_count: 0,
            },
        ),
    }
}

fn validate_pool_and_alignment(pool: &Vec<String>, alignment: usize) -> (r: Result<
    (),
    VulkanDistributedPlanError,
>)
    ensures
        sequence::outcome(r) == pool_and_alignment_check(pool.deep_view(), alignment as nat),
        r is Ok ==> alignment >= 2,
{
    match validate_device_pool(pool) {
        Ok(_) => {},
        Err(e) => return Err(e),
    }
    if alignment == 0 || !crate::arithmetic::is_power_of_two(alignment) || alignment % 2 != 0 {
        return Err(
            VulkanDistributedPlanError(
                Message::new("distributed storage-buffer offset alignment ").number(alignment).text(
                    " is invalid",
                ).done(),
            ),
        );
    }
    Ok(())
}

struct Planning<'a> {
    tensor_index: &'a TensorIndex,
    manifest: &'a VulkanReusableKernelArtifactManifest,
    pool: Vec<String>,
    alignment: usize,
}

struct Planned {
    dispatches: Vec<VulkanDistributedDispatchPlan>,
    input: usize,
    output: usize,
    bytes: usize,
}

impl Planned {
    spec fn value(&self) -> PlannedView {
        PlannedView {
            dispatches: self.dispatches.deep_view(),
            input: self.input,
            output: self.output,
            bytes: self.bytes,
        }
    }
}

impl<'a> Planning<'a> {
    spec fn value(&self) -> PlanningView {
        PlanningView {
            tensors: self.tensor_index@.tensors,
            artifacts: self.manifest@.artifacts,
            pool: self.pool.deep_view(),
            alignment: self.alignment as nat,
        }
    }

    fn plan_dispatch(
        &self,
        owner_device_id: &str,
        dispatch: &VulkanPreparedDispatch,
        workgroup_count: u32,
    ) -> (r: Result<Option<VulkanDistributedDispatchPlan>, VulkanDistributedPlanError>)
        requires
            self.alignment >= 2,
        ensures
            sequence::outcome(r) == planned_dispatch(
                self.value(),
                owner_device_id@,
                dispatch@,
                workgroup_count,
            ),
    {
        if text::same(dispatch.op.as_str(), SPARSE_GATE_UP_OP) || text::same(
            dispatch.op.as_str(),
            SPARSE_DOWN_OP,
        ) {
            return plan_sparse_expert_dispatch(
                owner_device_id,
                dispatch,
                self.tensor_index,
                &self.pool,
                workgroup_count,
                self.alignment,
            );
        }
        plan_parallel_projection_dispatch(
            owner_device_id,
            dispatch,
            self.tensor_index,
            &self.pool,
            workgroup_count,
            self.alignment,
        )
    }

    fn plan_next(
        &self,
        owner_device_id: &str,
        done: Planned,
        dispatch: &VulkanPreparedDispatch,
    ) -> (r: Result<Planned, VulkanDistributedPlanError>)
        requires
            self.alignment >= 2,
        ensures
            (match r {
                Ok(next) => Ok::<PlannedView, Seq<char>>(next.value()),
                Err(e) => Err(e@),
            }) == plan_next(self.value(), owner_device_id@, done.value(), dispatch@),
    {
        reveal(plan_next);
        if !text::same(dispatch.op.as_str(), DISTRIBUTABLE_PARALLEL_PROJECTION_OP) && !text::same(
            dispatch.op.as_str(),
            SPARSE_GATE_UP_OP,
        ) && !text::same(dispatch.op.as_str(), SPARSE_DOWN_OP) {
            return Ok(done);
        }
        let workgroup_count: u32 = match reusable_kernels::find_artifact(
            &self.manifest.artifacts,
            &dispatch.reusable_family_id,
        ) {
            Some(artifact) => artifact.workgroup_count_x,
            None => return Err(
                VulkanDistributedPlanError(
                    Message::new("distributed dispatch ").text(dispatch.component_id.as_str()).text(
                        ".",
                    ).text(dispatch.node_id.as_str()).text(" has no artifact for family ").quoted(
                        dispatch.reusable_family_id.as_str(),
                    ).done(),
                ),
            ),
        };
        let plan: VulkanDistributedDispatchPlan = match self.plan_dispatch(
            owner_device_id,
            dispatch,
            workgroup_count,
        ) {
            Ok(Some(plan)) => plan,
            Ok(None) => return Ok(done),
            Err(e) => return Err(e),
        };
        let bytes: usize = match done.bytes.checked_add(plan.distributed_parameter_byte_count) {
            Some(bytes) => bytes,
            None => return Err(
                VulkanDistributedPlanError(
                    "distributed parameter byte count overflowed".to_owned(),
                ),
            ),
        };
        let input: usize = if done.input >= plan.input_byte_capacity {
            done.input
        } else {
            plan.input_byte_capacity
        };
        let output: usize = if done.output >= plan.output_byte_capacity {
            done.output
        } else {
            plan.output_byte_capacity
        };
        let ghost before = done.dispatches.deep_view();
        let ghost added = plan@;
        let mut dispatches: Vec<VulkanDistributedDispatchPlan> = done.dispatches;
        dispatches.push(plan);
        assert(dispatches.deep_view() =~= before.push(added));
        Ok(Planned { dispatches, input, output, bytes })
    }

    #[verifier::loop_isolation(false)]
    fn plan_owner(
        &self,
        done: Planned,
        owner_device_id: &str,
        prepared_plan: &VulkanPreparedDispatchPlan,
    ) -> (r: Result<Planned, VulkanDistributedPlanError>)
        requires
            self.alignment >= 2,
        ensures
            (match r {
                Ok(next) => Ok::<PlannedView, Seq<char>>(next.value()),
                Err(e) => Err(e@),
            }) == plan_owner(self.value(), done.value(), (owner_device_id@, prepared_plan@)),
    {
        reveal(plan_owner);
        assert(self.pool.deep_view().len() == self.pool@.len());
        if self.pool.len() < 2 {
            return Ok(done);
        }
        if !sequence::contains_text(&self.pool, owner_device_id) {
            return Err(
                VulkanDistributedPlanError(
                    Message::new("dispatch owner ").quoted(owner_device_id).text(
                        " is absent from the distributed execution device pool",
                    ).done(),
                ),
            );
        }
        let ghost all = prepared_plan@.dispatches;
        let ghost init = done.value();
        let ghost step = dispatch_step(self.value(), owner_device_id@);
        let mut planned: Planned = done;
        let mut i: usize = 0;
        assert(all.take(0) =~= Seq::empty());
        while i < prepared_plan.dispatches.len()
            invariant
                i <= prepared_plan.dispatches.len(),
                self.alignment >= 2,
                all == prepared_plan.dispatches.deep_view(),
                step == dispatch_step(self.value(), owner_device_id@),
                sequence::try_fold(all.take(i as int), init, step) == Ok::<PlannedView, Seq<char>>(
                    planned.value(),
                ),
            decreases prepared_plan.dispatches.len() - i,
        {
            proof {
                sequence::lemma_try_fold_step(all, init, step, i as int);
            }
            match self.plan_next(owner_device_id, planned, &prepared_plan.dispatches[i]) {
                Ok(next) => {
                    planned = next;
                },
                Err(e) => {
                    proof {
                        sequence::lemma_try_fold_error(all, init, step, i + 1);
                    }
                    return Err(e);
                },
            }
            i += 1;
        }
        assert(all.take(all.len() as int) =~= all);
        Ok(planned)
    }
}

impl VulkanDistributedExecutionPlan {
    /// A plan in which every component runs whole on the device that it is placed on.
    pub fn for_placed_components(
        device_ids: &[String],
        storage_buffer_offset_alignment: usize,
    ) -> (r: Result<Self, VulkanDistributedPlanError>)
        ensures
            sequence::outcome(r) == placed_components_plan(
                device_ids.deep_view(),
                storage_buffer_offset_alignment as nat,
            ),
    {
        let pool: Vec<String> = sequence::copy_texts(device_ids);
        match validate_pool_and_alignment(&pool, storage_buffer_offset_alignment) {
            Ok(_) => {},
            Err(e) => return Err(e),
        }
        let r = VulkanDistributedExecutionPlan {
            device_ids: pool,
            storage_buffer_offset_alignment,
            dispatches: Vec::new(),
            dispatch_groups: Vec::new(),
            shared_input_byte_capacity: 0,
            shared_output_byte_capacity: 0,
            distributed_parameter_byte_count: 0,
        };
        assert(r@.dispatches =~= Seq::empty());
        assert(r@.dispatch_groups =~= Seq::empty());
        Ok(r)
    }

    /// Splits the dispatches that can be split over the pool.
    #[verifier::loop_isolation(false)]
    pub fn from_prepared_plans(
        prepared_plans: &[(&str, &VulkanPreparedDispatchPlan)],
        tensor_index: &TensorIndex,
        artifact_manifest: &VulkanReusableKernelArtifactManifest,
        device_ids: &[String],
        storage_buffer_offset_alignment: usize,
    ) -> (r: Result<Self, VulkanDistributedPlanError>)
        ensures
            sequence::outcome(r) == execution_plan(
                prepared_plans.deep_view(),
                PlanningView {
                    tensors: tensor_index@.tensors,
                    artifacts: artifact_manifest@.artifacts,
                    pool: device_ids.deep_view(),
                    alignment: storage_buffer_offset_alignment as nat,
                },
            ),
    {
        let pool: Vec<String> = sequence::copy_texts(device_ids);
        match validate_pool_and_alignment(&pool, storage_buffer_offset_alignment) {
            Ok(_) => {},
            Err(e) => return Err(e),
        }
        let planning = Planning {
            tensor_index,
            manifest: artifact_manifest,
            pool,
            alignment: storage_buffer_offset_alignment,
        };
        let ghost all = prepared_plans.deep_view();
        let ghost step = owner_step(planning.value());
        let mut planned = Planned { dispatches: Vec::new(), input: 0, output: 0, bytes: 0 };
        let mut i: usize = 0;
        assert(planned.dispatches.deep_view() =~= Seq::empty());
        assert(all.take(0) =~= Seq::empty());
        while i < prepared_plans.len()
            invariant
                i <= prepared_plans.len(),
                planning.alignment >= 2,
                all == prepared_plans.deep_view(),
                step == owner_step(planning.value()),
                sequence::try_fold(all.take(i as int), nothing_planned(), step) == Ok::<
                    PlannedView,
                    Seq<char>,
                >(planned.value()),
            decreases prepared_plans.len() - i,
        {
            proof {
                sequence::lemma_try_fold_step(all, nothing_planned(), step, i as int);
            }
            let (owner, prepared): (&str, &VulkanPreparedDispatchPlan) = prepared_plans[i];
            match planning.plan_owner(planned, owner, prepared) {
                Ok(next) => {
                    planned = next;
                },
                Err(e) => {
                    proof {
                        sequence::lemma_try_fold_error(all, nothing_planned(), step, i + 1);
                    }
                    return Err(e);
                },
            }
            i += 1;
        }
        assert(all.take(all.len() as int) =~= all);
        let dispatch_groups: Vec<VulkanDistributedDispatchGroup> = distributed_dispatch_groups(
            planned.dispatches.as_slice(),
        );
        Ok(
            VulkanDistributedExecutionPlan {
                device_ids: planning.pool,
                storage_buffer_offset_alignment,
                dispatches: planned.dispatches,
                dispatch_groups,
                shared_input_byte_capacity: planned.input,
                shared_output_byte_capacity: planned.output,
                distributed_parameter_byte_count: planned.bytes,
            },
        )
    }
}

/// Neighbours in a group run one after the other on the same owner and in the same component. Both
/// are split by experts, the second reads the very slot that the first writes, and their shards stand
/// on the same devices, start at the same experts and hold as many.
pub proof fn grouped_dispatches_hand_over_their_output(
    dispatches: Seq<VulkanDistributedDispatchPlanView>,
    g: int,
    i: int,
    s: int,
)
    requires
        0 <= g < dispatch_groups(dispatches).len(),
        0 <= i < dispatch_groups(dispatches)[g].dispatches.len() - 1,
    ensures
        ({
            let one = dispatch_groups(dispatches)[g].dispatches[i];
            let next = dispatch_groups(dispatches)[g].dispatches[i + 1];
            let written = one.output_activation;
            let read = next.input_activation;
            &&& one.owner_device_id == next.owner_device_id
            &&& one.component_id == next.component_id
            &&& one.dispatch_index + 1 == next.dispatch_index
            &&& one.distribution is ExpertRange
            &&& next.distribution is ExpertRange
            &&& written.component_id == read.component_id
            &&& written.signal_id == read.signal_id
            &&& written.slot == read.slot
            &&& written.byte_capacity == read.byte_capacity
            &&& written.signal_byte_capacity == read.signal_byte_capacity
            &&& one.shards.len() == next.shards.len()
            &&& 0 <= s < one.shards.len() ==> {
                &&& one.shards[s].device_id == next.shards[s].device_id
                &&& one.shards[s].row_start == next.shards[s].row_start
                &&& one.shards[s].row_count == next.shards[s].row_count
                &&& one.shards[s].base_workgroup_z == next.shards[s].base_workgroup_z
            }
        }),
{
    group_members_share_a_sequence(dispatches, g, i);
    let one = dispatch_groups(dispatches)[g].dispatches[i];
    let next = dispatch_groups(dispatches)[g].dispatches[i + 1];
    if 0 <= s < one.shards.len() {
        assert(same_shard_range(one.shards[s], next.shards[s]));
    }
}

/// Groups are as long as they can be: where one ends, the dispatch after it does not go on from its
/// last. It differs in its owner or its component, does not come next, is not split by experts as the
/// last is, reads another slot than the last writes, or is split otherwise.
pub proof fn groups_end_where_they_must(dispatches: Seq<VulkanDistributedDispatchPlanView>, g: int)
    requires
        0 <= g < dispatch_groups(dispatches).len() - 1,
    ensures
        ({
            let last = dispatch_groups(dispatches)[g].dispatches.last();
            let next = dispatch_groups(dispatches)[g + 1].dispatches[0];
            ||| last.owner_device_id != next.owner_device_id
            ||| last.component_id != next.component_id
            ||| last.dispatch_index + 1 != next.dispatch_index
            ||| !(last.distribution is ExpertRange)
            ||| !(next.distribution is ExpertRange)
            ||| last.output_activation.component_id != next.input_activation.component_id
            ||| last.output_activation.signal_id != next.input_activation.signal_id
            ||| last.output_activation.slot != next.input_activation.slot
            ||| last.output_activation.byte_capacity != next.input_activation.byte_capacity
            ||| last.output_activation.signal_byte_capacity
                != next.input_activation.signal_byte_capacity
            ||| last.shards.len() != next.shards.len()
            ||| exists|s: int|
                0 <= s < last.shards.len() && {
                    let here = #[trigger] last.shards[s];
                    let there = next.shards[s];
                    ||| here.device_id != there.device_id
                    ||| here.row_start != there.row_start
                    ||| here.row_count != there.row_count
                    ||| here.base_workgroup_z != there.base_workgroup_z
                }
        }),
    decreases dispatches.len(),
{
    let before = dispatch_groups(dispatches.drop_last());
    let after = dispatch_groups(dispatches);
    groups_hold_the_dispatches_in_order(dispatches.drop_last());
    if g + 1 < before.len() {
        groups_end_where_they_must(dispatches.drop_last(), g);
        assert(after[g] == before[g]);
        assert(after[g + 1].dispatches[0] == before[g + 1].dispatches[0]);
    } else {
        let last = after[g].dispatches.last();
        let next = after[g + 1].dispatches[0];
        assert(last == before.last().dispatches.last());
        assert(next == dispatches.last());
        assert(!can_share_sequence(last, next));
    }
}

/// What the shared input and output hold, and the parameter bytes, of a plan that is being made: room
/// for each of its dispatches and no more than the largest needs, and the bytes of all of them.
pub open spec fn holds_each(done: PlannedView) -> bool {
    &&& forall|i: int|
        0 <= i < done.dispatches.len() ==> {
            &&& (#[trigger] done.dispatches[i]).input_byte_capacity <= done.input
            &&& done.dispatches[i].output_byte_capacity <= done.output
        }
    &&& done.input == 0 || exists|i: int|
        0 <= i < done.dispatches.len() && (#[trigger] done.dispatches[i]).input_byte_capacity
            == done.input
    &&& done.output == 0 || exists|i: int|
        0 <= i < done.dispatches.len() && (#[trigger] done.dispatches[i]).output_byte_capacity
            == done.output
    &&& done.bytes == sequence::total(done.dispatches, planned_bytes())
}

/// The parameter bytes of a dispatch.
pub open spec fn planned_bytes() -> spec_fn(VulkanDistributedDispatchPlanView) -> nat {
    |dispatch: VulkanDistributedDispatchPlanView| dispatch.distributed_parameter_byte_count as nat
}

proof fn lemma_next_holds_each(
    p: PlanningView,
    owner: Seq<char>,
    done: PlannedView,
    dispatch: VulkanPreparedDispatchView,
)
    requires
        holds_each(done),
        plan_next(p, owner, done, dispatch) is Ok,
    ensures
        holds_each(plan_next(p, owner, done, dispatch)->Ok_0),
{
    reveal(plan_next);
    let after = plan_next(p, owner, done, dispatch)->Ok_0;
    if after != done {
        let n = done.dispatches.len() as int;
        assert(after.dispatches.drop_last() =~= done.dispatches);
        assert forall|i: int| 0 <= i < n implies (#[trigger] after.dispatches[i])
            == done.dispatches[i] by {}
        assert(after.dispatches[n] == after.dispatches.last());
        if after.input != 0 && after.input != after.dispatches[n].input_byte_capacity {
            let i = choose|i: int|
                0 <= i < n && (#[trigger] done.dispatches[i]).input_byte_capacity == done.input;
            assert(after.dispatches[i].input_byte_capacity == after.input);
        }
        if after.output != 0 && after.output != after.dispatches[n].output_byte_capacity {
            let i = choose|i: int|
                0 <= i < n && (#[trigger] done.dispatches[i]).output_byte_capacity == done.output;
            assert(after.dispatches[i].output_byte_capacity == after.output);
        }
    }
}

proof fn lemma_launches_hold_each(
    p: PlanningView,
    owner: Seq<char>,
    done: PlannedView,
    launches: Seq<VulkanPreparedDispatchView>,
)
    requires
        holds_each(done),
        sequence::try_fold(launches, done, dispatch_step(p, owner)) is Ok,
    ensures
        holds_each(sequence::try_fold(launches, done, dispatch_step(p, owner))->Ok_0),
    decreases launches.len(),
{
    if launches.len() > 0 {
        let front = launches.drop_last();
        lemma_launches_hold_each(p, owner, done, front);
        let before = sequence::try_fold(front, done, dispatch_step(p, owner))->Ok_0;
        lemma_next_holds_each(p, owner, before, launches.last());
    }
}

proof fn lemma_owners_hold_each(
    p: PlanningView,
    prepared: Seq<(Seq<char>, VulkanPreparedDispatchPlanView)>,
)
    requires
        sequence::try_fold(prepared, nothing_planned(), owner_step(p)) is Ok,
    ensures
        holds_each(sequence::try_fold(prepared, nothing_planned(), owner_step(p))->Ok_0),
    decreases prepared.len(),
{
    if prepared.len() > 0 {
        let front = prepared.drop_last();
        lemma_owners_hold_each(p, front);
        let before = sequence::try_fold(front, nothing_planned(), owner_step(p))->Ok_0;
        let after = sequence::try_fold(prepared, nothing_planned(), owner_step(p))->Ok_0;
        assert(plan_owner(p, before, prepared.last()) == Ok::<PlannedView, Seq<char>>(after));
        reveal(plan_owner);
        if p.pool.len() >= 2 {
            lemma_launches_hold_each(p, prepared.last().0, before, prepared.last().1.dispatches);
        }
    }
}

/// An execution plan is made for a pool that is not empty and repeats no device, and for an offset
/// alignment that is even. A pool of one device splits nothing. What the devices share holds the input
/// and the output of every dispatch and is no larger than one of them needs, and the parameter bytes
/// are those of all dispatches.
pub proof fn plans_share_enough_for_every_dispatch(
    prepared: Seq<(Seq<char>, VulkanPreparedDispatchPlanView)>,
    p: PlanningView,
)
    requires
        execution_plan(prepared, p) is Ok,
    ensures
        ({
            let plan = execution_plan(prepared, p)->Ok_0;
            let dispatches = plan.dispatches;
            &&& p.pool.len() > 0
            &&& p.pool.no_duplicates()
            &&& p.alignment > 0
            &&& p.alignment % 2 == 0
            &&& plan.device_ids == p.pool
            &&& plan.storage_buffer_offset_alignment == p.alignment as usize
            &&& p.pool.len() == 1 ==> dispatches.len() == 0
            &&& forall|i: int|
                0 <= i < dispatches.len() ==> {
                    &&& (#[trigger] dispatches[i]).input_byte_capacity
                        <= plan.shared_input_byte_capacity
                    &&& dispatches[i].output_byte_capacity <= plan.shared_output_byte_capacity
                }
            &&& plan.shared_input_byte_capacity == 0 || exists|i: int|
                0 <= i < dispatches.len() && (#[trigger] dispatches[i]).input_byte_capacity
                    == plan.shared_input_byte_capacity
            &&& plan.shared_output_byte_capacity == 0 || exists|i: int|
                0 <= i < dispatches.len() && (#[trigger] dispatches[i]).output_byte_capacity
                    == plan.shared_output_byte_capacity
            &&& plan.distributed_parameter_byte_count == sequence::total(
                dispatches,
                planned_bytes(),
            )
            &&& grouped_dispatches(plan.dispatch_groups) == dispatches
        }),
{
    lemma_no_repeat_is_unique(p.pool);
    lemma_owners_hold_each(p, prepared);
    let done = sequence::try_fold(prepared, nothing_planned(), owner_step(p))->Ok_0;
    groups_hold_the_dispatches_in_order(done.dispatches);
    if p.pool.len() == 1 {
        lemma_nothing_split(p, prepared);
    }
}

proof fn lemma_nothing_split(
    p: PlanningView,
    prepared: Seq<(Seq<char>, VulkanPreparedDispatchPlanView)>,
)
    requires
        p.pool.len() < 2,
    ensures
        sequence::try_fold(prepared, nothing_planned(), owner_step(p)) == Ok::<
            PlannedView,
            Seq<char>,
        >(nothing_planned()),
    decreases prepared.len(),
{
    if prepared.len() > 0 {
        lemma_nothing_split(p, prepared.drop_last());
        reveal(plan_owner);
    }
}

} // verus!
