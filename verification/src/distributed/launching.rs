//! What the launches of split dispatches read and write, and how they wait for one another.

use crate::descriptor_resources::VulkanDescriptorResourceAddressView;
use crate::device::VulkanDeviceDirectoryView;
use crate::device::VulkanResidentKernelBufferAccess;
use crate::device;
use crate::dispatch_plan::VulkanPreparedDispatchPlanView;
use crate::dispatch_plan::VulkanPreparedDispatchView;
use crate::distributed::activation::VulkanDistributedActivationBuffersView;
use crate::distributed::activation;
use crate::distributed::parameters::VulkanDistributedParameterBuffersView;
use crate::distributed::parameters;
use crate::distributed::plan::ExpertShardingView;
use crate::distributed::plan::PlannedView;
use crate::distributed::plan::PlanningView;
use crate::distributed::plan::ProjectionView;
use crate::distributed::plan::ShardsView;
use crate::distributed::plan::VulkanDistributedActivationSlotView;
use crate::distributed::plan::VulkanDistributedDispatchGroupView;
use crate::distributed::plan::VulkanDistributedDispatchPlanView;
use crate::distributed::plan::VulkanDistributedDispatchShardView;
use crate::distributed::plan::VulkanDistributedDispatchSubmission;
use crate::distributed::plan::VulkanDistributedExecutionPlanView;
use crate::distributed::plan;
use crate::distributed::runners::CreationView;
use crate::distributed::runners::ShardRunnersView;
use crate::distributed::runners::VulkanDistributedDispatchHelperSynchronizationView;
use crate::distributed::runners::VulkanDistributedDispatchRunnerView;
use crate::distributed::runners::VulkanDistributedDispatchRunnersView;
use crate::distributed::runners::VulkanDistributedDispatchShardRunnerView;
use crate::distributed::runners;
use crate::distributed::sharding;
use crate::reusable_kernels::VulkanLoadedReusableKernelArtifactView;
use crate::reusable_kernels;
use crate::sequence;
use crate::tensors::TensorMetadataView;
use vstd::prelude::*;

verus! {

/// Whether an activation is what a launch binds under a number: the slot of the descriptor that has
/// this number, which is the first one that has it.
pub open spec fn stands_at(
    activation: VulkanDistributedActivationSlotView,
    launch: VulkanPreparedDispatchView,
    number: usize,
) -> bool {
    &&& activation.binding == number
    &&& exists|i: int|
        0 <= i < launch.descriptors.len() && {
            let descriptor = #[trigger] launch.descriptors[i];
            &&& descriptor.binding == number
            &&& descriptor.resource == (VulkanDescriptorResourceAddressView::ActivationSlot {
                component_id: activation.component_id,
                signal_id: activation.signal_id,
                slot: activation.slot,
                byte_capacity: activation.byte_capacity,
                signal_byte_capacity: activation.signal_byte_capacity,
            })
            &&& forall|j: int| 0 <= j < i ==> (#[trigger] launch.descriptors[j]).binding != number
        }
}

/// Whether a dispatch splits a projection by its output rows. It reads the slot at the launch's first
/// binding and writes that at its second, which hold two bytes for each column and each row. A shard
/// writes the bytes of its own rows, takes its share of the launch's workgroups, and starts at the
/// launch's origin.
pub open spec fn splits_rows(
    dispatch: VulkanDistributedDispatchPlanView,
    launch: VulkanPreparedDispatchView,
    workgroup_count: u32,
    p: PlanningView,
) -> bool {
    let listed = plan::parameter_descriptors(launch.descriptors);
    &&& stands_at(dispatch.input_activation, launch, 0)
    &&& dispatch.auxiliary_input_activations.len() == 0
    &&& stands_at(dispatch.output_activation, launch, 1)
    &&& dispatch.input_byte_capacity == 2 * dispatch.input_width
    &&& dispatch.input_byte_capacity <= dispatch.input_activation.signal_byte_capacity
    &&& dispatch.output_byte_capacity == 2 * dispatch.output_rows
    &&& dispatch.output_byte_capacity <= dispatch.output_activation.signal_byte_capacity
    &&& listed.len() == 2
    &&& forall|k: int|
        0 <= k < 2 ==> {
            let tensor = p.tensors[(#[trigger] listed[k]).1];
            &&& p.tensors.contains_key(listed[k].1)
            &&& tensor.shape.len() == 2
            &&& tensor.shape[0] == dispatch.output_rows
            &&& tensor.shape[1] == dispatch.input_width
        }
    &&& forall|s: int|
        0 <= s < dispatch.shards.len() ==> {
            let shard = #[trigger] dispatch.shards[s];
            &&& shard.output_byte_offset == 2 * shard.row_start
            &&& shard.output_byte_count == 2 * shard.row_count
            &&& shard.base_workgroup_z == 0
            &&& shard.workgroup_count_x * dispatch.output_rows == shard.row_count * workgroup_count
            &&& shard.parameters.len() == 2
            &&& shard.parameters[0].binding == listed[0].0
            &&& shard.parameters[0].tensor == listed[0].1
            &&& shard.parameters[1].binding == listed[1].0
            &&& shard.parameters[1].tensor == listed[1].1
        }
}

/// Whether a dispatch splits experts by their range. It reads the slots at the launch's first two
/// bindings and writes that at its third. A shard takes all of the launch's workgroups, starts at the
/// first of its experts, and writes the whole output.
pub open spec fn splits_experts(
    dispatch: VulkanDistributedDispatchPlanView,
    launch: VulkanPreparedDispatchView,
    workgroup_count: u32,
    p: PlanningView,
) -> bool {
    let listed = plan::parameter_descriptors(launch.descriptors);
    &&& stands_at(dispatch.input_activation, launch, 0)
    &&& dispatch.auxiliary_input_activations.len() == 1
    &&& stands_at(dispatch.auxiliary_input_activations[0], launch, 1)
    &&& stands_at(dispatch.output_activation, launch, 2)
    &&& dispatch.input_byte_capacity == dispatch.input_activation.signal_byte_capacity
    &&& dispatch.output_byte_capacity == dispatch.output_activation.signal_byte_capacity
    &&& forall|s: int|
        0 <= s < dispatch.shards.len() ==> {
            let shard = #[trigger] dispatch.shards[s];
            &&& shard.output_byte_offset == 0
            &&& shard.output_byte_count == dispatch.output_byte_capacity
            &&& shard.base_workgroup_z == shard.row_start
            &&& shard.workgroup_count_x == workgroup_count
            &&& shard.parameters.len() == listed.len()
            &&& forall|k: int|
                0 <= k < listed.len() ==> {
                    &&& (#[trigger] shard.parameters[k]).binding == listed[k].0
                    &&& shard.parameters[k].tensor == listed[k].1
                }
        }
}

/// Whether a dispatch was planned for a launch of an owner: it carries the launch's names, and it
/// splits experts where the launch runs sparse experts, else rows.
pub open spec fn planned_for(
    dispatch: VulkanDistributedDispatchPlanView,
    owner: Seq<char>,
    launch: VulkanPreparedDispatchView,
    workgroup_count: u32,
    p: PlanningView,
) -> bool {
    &&& dispatch.owner_device_id == owner
    &&& dispatch.dispatch_index == launch.dispatch_index
    &&& dispatch.component_id == launch.component_id
    &&& dispatch.node_id == launch.node_id
    &&& dispatch.reusable_family_id == launch.reusable_family_id
    &&& dispatch.distribution is ExpertRange <==> (launch.op == "sparse_moe_gate_up"@ || launch.op
        == "sparse_moe_down"@)
    &&& dispatch.distribution is OutputRows ==> splits_rows(dispatch, launch, workgroup_count, p)
    &&& dispatch.distribution is ExpertRange ==> splits_experts(
        dispatch,
        launch,
        workgroup_count,
        p,
    )
}

proof fn lemma_activation_stands(
    launch: VulkanPreparedDispatchView,
    number: usize,
    required: nat,
    role: Seq<char>,
)
    ensures
        plan::resident_activation(launch, number, required, role) matches Ok(activation)
            ==> stands_at(activation, launch, number) && activation.signal_byte_capacity
            >= required,
{
    if plan::resident_activation(launch, number, required, role) is Ok {
        let i = sequence::lemma_find_first_some(
            launch.descriptors,
            |d: crate::descriptor_resources::VulkanResolvedDescriptorBindingView|
                d.binding == number,
        );
        assert(launch.descriptors[i].binding == number);
    }
}

proof fn lemma_projection_shapes(p: ProjectionView, assigned: Seq<(Seq<char>, (usize, usize))>)
    requires
        p.workgroup_rows > 0,
        sequence::try_fold(assigned, plan::no_shards(), plan::projection_step(p)) is Ok,
    ensures
        ({
            let shards = sequence::try_fold(
                assigned,
                plan::no_shards(),
                plan::projection_step(p),
            )->Ok_0.shards;
            &&& shards.len() == assigned.len()
            &&& forall|s: int|
                0 <= s < shards.len() ==> {
                    let shard = #[trigger] shards[s];
                    &&& shard.row_start == assigned[s].1.0
                    &&& shard.row_count == assigned[s].1.1
                    &&& shard.output_byte_offset == 2 * shard.row_start
                    &&& shard.output_byte_count == 2 * shard.row_count
                    &&& shard.base_workgroup_z == 0
                    &&& shard.workgroup_count_x == shard.row_count as nat / p.workgroup_rows
                    &&& shard.parameters.len() == 2
                    &&& shard.parameters[0].binding == p.first.0
                    &&& shard.parameters[0].tensor == p.first.1
                    &&& shard.parameters[1].binding == p.second.0
                    &&& shard.parameters[1].tensor == p.second.1
                }
        }),
    decreases assigned.len(),
{
    if assigned.len() > 0 {
        let front = assigned.drop_last();
        lemma_projection_shapes(p, front);
        reveal(plan::projection_shard);
        let before = sequence::try_fold(front, plan::no_shards(), plan::projection_step(p))->Ok_0;
        let after = sequence::try_fold(assigned, plan::no_shards(), plan::projection_step(p))->Ok_0;
        assert(plan::projection_shard(p, before, assigned.last()) == Ok::<ShardsView, Seq<char>>(
            after,
        ));
        assert forall|s: int| 0 <= s < before.shards.len() implies (#[trigger] after.shards[s])
            == before.shards[s] && assigned[s] == front[s] by {}
    }
}

proof fn lemma_expert_shapes(e: ExpertShardingView, assigned: Seq<(Seq<char>, (usize, usize))>)
    requires
        sequence::try_fold(assigned, plan::no_shards(), plan::expert_shard_step(e)) is Ok,
    ensures
        ({
            let shards = sequence::try_fold(
                assigned,
                plan::no_shards(),
                plan::expert_shard_step(e),
            )->Ok_0.shards;
            &&& shards.len() == assigned.len()
            &&& forall|s: int|
                0 <= s < shards.len() ==> {
                    let shard = #[trigger] shards[s];
                    &&& shard.output_byte_offset == 0
                    &&& shard.output_byte_count == e.output_byte_capacity
                    &&& shard.base_workgroup_z == shard.row_start
                    &&& shard.workgroup_count_x == e.workgroup_count
                    &&& shard.parameters.len() == e.parameters.len()
                    &&& forall|k: int|
                        0 <= k < e.parameters.len() ==> {
                            &&& (#[trigger] shard.parameters[k]).binding == e.parameters[k].0
                            &&& shard.parameters[k].tensor == e.parameters[k].1
                        }
                }
        }),
    decreases assigned.len(),
{
    if assigned.len() > 0 {
        let front = assigned.drop_last();
        lemma_expert_shapes(e, front);
        reveal(plan::expert_shard);
        let before = sequence::try_fold(front, plan::no_shards(), plan::expert_shard_step(e))->Ok_0;
        let after = sequence::try_fold(
            assigned,
            plan::no_shards(),
            plan::expert_shard_step(e),
        )->Ok_0;
        let last = assigned.last();
        assert(plan::expert_shard(e, before, last) == Ok::<ShardsView, Seq<char>>(after));
        sequence::lemma_try_map_ok(e.parameters, plan::expert_fragment(e.dispatch, last.1));
        assert forall|s: int| 0 <= s < before.shards.len() implies (#[trigger] after.shards[s])
            == before.shards[s] && assigned[s] == front[s] by {}
    }
}

proof fn lemma_experts_listed(
    launch: VulkanPreparedDispatchView,
    p: PlanningView,
    listed: Seq<(usize, Seq<char>)>,
)
    requires
        sequence::try_fold(
            listed,
            plan::no_experts(),
            plan::expert_step(launch, p.tensors, p.alignment),
        ) is Ok,
    ensures
        ({
            let parameters = sequence::try_fold(
                listed,
                plan::no_experts(),
                plan::expert_step(launch, p.tensors, p.alignment),
            )->Ok_0.parameters;
            &&& parameters.len() == listed.len()
            &&& forall|k: int|
                0 <= k < listed.len() ==> {
                    &&& (#[trigger] parameters[k]).0 == listed[k].0
                    &&& parameters[k].1 == listed[k].1
                }
        }),
    decreases listed.len(),
{
    if listed.len() > 0 {
        lemma_experts_listed(launch, p, listed.drop_last());
        reveal(plan::expert_parameter);
        let step = plan::expert_step(launch, p.tensors, p.alignment);
        let before = sequence::try_fold(listed.drop_last(), plan::no_experts(), step)->Ok_0;
        assert(plan::expert_parameter(launch, p.tensors, p.alignment, before, listed.last()) is Ok);
    }
}

proof fn lemma_share_of_workgroups(rows: nat, count: nat, shard_rows: nat)
    requires
        rows > 0,
        count > 0,
        rows % count == 0,
        shard_rows % (rows / count) == 0,
    ensures
        (shard_rows / (rows / count)) * rows == shard_rows * count,
{
    let width = rows / count;
    assert(rows == width * count) by {
        vstd::arithmetic::div_mod::lemma_fundamental_div_mod(rows as int, count as int);
        vstd::arithmetic::mul::lemma_mul_is_commutative(count as int, width as int);
    }
    assert(width > 0) by (nonlinear_arith)
        requires
            rows == width * count,
            rows > 0,
    ;
    let share = shard_rows / width;
    assert(shard_rows == width * share) by {
        vstd::arithmetic::div_mod::lemma_fundamental_div_mod(shard_rows as int, width as int);
    }
    assert(share * (width * count) == (width * share) * count) by (nonlinear_arith);
}

proof fn lemma_row_shards_planned(
    owner: Seq<char>,
    launch: VulkanPreparedDispatchView,
    pool: Seq<Seq<char>>,
    workgroup_count: u32,
    listed: Seq<(usize, Seq<char>)>,
    first: TensorMetadataView,
    second: TensorMetadataView,
    alignment: nat,
    input: VulkanDistributedActivationSlotView,
    output: VulkanDistributedActivationSlotView,
    ranges: Seq<(usize, usize)>,
)
    requires
        workgroup_count > 0,
        first.shape[0] as nat % workgroup_count as nat == 0,
        plan::distributed_rows(
            first.shape[0] as nat,
            pool.len(),
            first.shape[0] as nat / workgroup_count as nat,
            alignment,
        ) == Ok::<Seq<(usize, usize)>, Seq<char>>(ranges),
    ensures
        plan::projection_shards_of(
            owner,
            launch,
            pool,
            listed,
            first,
            second,
            first.shape[0] as nat / workgroup_count as nat,
            alignment,
            input,
            output,
            ranges,
        ) matches Ok(Some(planned)) ==> {
            &&& planned.output_rows == first.shape[0]
            &&& forall|s: int|
                0 <= s < planned.shards.len() ==> {
                    let shard = #[trigger] planned.shards[s];
                    &&& shard.output_byte_offset == 2 * shard.row_start
                    &&& shard.output_byte_count == 2 * shard.row_count
                    &&& shard.base_workgroup_z == 0
                    &&& shard.workgroup_count_x * planned.output_rows == shard.row_count
                        * workgroup_count
                    &&& shard.parameters.len() == 2
                    &&& shard.parameters[0].binding == listed[0].0
                    &&& shard.parameters[0].tensor == listed[0].1
                    &&& shard.parameters[1].binding == listed[1].0
                    &&& shard.parameters[1].tensor == listed[1].1
                }
        },
{
    let rows = first.shape[0];
    let workgroup_rows = rows as nat / workgroup_count as nat;
    match plan::projection_shards_of(
        owner,
        launch,
        pool,
        listed,
        first,
        second,
        workgroup_rows,
        alignment,
        input,
        output,
        ranges,
    ) {
        Ok(Some(planned)) => {
            plan::row_shards_partition_the_rows(
                rows as nat,
                pool.len(),
                workgroup_rows,
                alignment,
            );
            let q = ProjectionView {
                dispatch: launch,
                workgroup_rows,
                first: listed[0],
                first_row_bytes: plan::row_bytes(launch, listed[0].1, first, rows as nat)->Ok_0,
                second: listed[1],
                second_row_bytes: plan::row_bytes(launch, listed[1].1, second, rows as nat)->Ok_0,
            };
            let assigned = plan::shard_assignments(plan::shard_devices(owner, pool), ranges);
            lemma_projection_shapes(q, assigned);
            assert forall|s: int| 0 <= s < planned.shards.len() implies (
            #[trigger] planned.shards[s]).workgroup_count_x * planned.output_rows
                == planned.shards[s].row_count * workgroup_count by {
                let range = ranges[s];
                assert(range.1 as nat % workgroup_rows == 0);
                lemma_share_of_workgroups(rows as nat, workgroup_count as nat, range.1 as nat);
            }
        },
        _ => {},
    }
}

#[verifier::spinoff_prover]
#[verifier::rlimit(40)]
proof fn lemma_projection_planned(
    owner: Seq<char>,
    launch: VulkanPreparedDispatchView,
    p: PlanningView,
    workgroup_count: u32,
)
    requires
        launch.op != "sparse_moe_gate_up"@,
        launch.op != "sparse_moe_down"@,
    ensures
        plan::projection_plan(
            owner,
            launch,
            p.tensors,
            p.pool,
            workgroup_count,
            p.alignment,
        ) matches Ok(Some(planned)) ==> planned_for(planned, owner, launch, workgroup_count, p),
{
    reveal(plan::projection_plan);
    let listed = plan::parameter_descriptors(launch.descriptors);
    match plan::projection_plan(owner, launch, p.tensors, p.pool, workgroup_count, p.alignment) {
        Ok(Some(planned)) => {
            let first = plan::projection_tensor(p.tensors, launch, listed[0].1)->Ok_0;
            let second = plan::projection_tensor(p.tensors, launch, listed[1].1)->Ok_0;
            let rows = first.shape[0];
            let width = first.shape[1];
            let workgroup_rows = rows as nat / workgroup_count as nat;
            let paired = first.layout == Some("vulkan_bf16_row_pair_u32"@) || second.layout == Some(
                "vulkan_bf16_row_pair_u32"@,
            );
            let alignment = plan::projection_alignment(
                workgroup_rows,
                p.alignment,
                paired,
            )->Some_0;
            let ranges = plan::distributed_rows(
                rows as nat,
                p.pool.len(),
                workgroup_rows,
                alignment,
            )->Ok_0;
            let input = plan::resident_activation(launch, 0, (width * 2) as nat, "input"@)->Ok_0;
            let output = plan::resident_activation(launch, 1, (rows * 2) as nat, "output"@)->Ok_0;
            lemma_activation_stands(launch, 0, (width * 2) as nat, "input"@);
            lemma_activation_stands(launch, 1, (rows * 2) as nat, "output"@);
            lemma_row_shards_planned(
                owner,
                launch,
                p.pool,
                workgroup_count,
                listed,
                first,
                second,
                alignment,
                input,
                output,
                ranges,
            );
            assert(planned.input_activation == input);
            assert(planned.output_activation == output);
            assert(planned.input_width == width);
            assert(planned.output_rows == rows);
            assert(first.shape == second.shape);
            assert(splits_rows(planned, launch, workgroup_count, p));
        },
        _ => {},
    }
}

proof fn lemma_experts_planned(
    owner: Seq<char>,
    launch: VulkanPreparedDispatchView,
    p: PlanningView,
    workgroup_count: u32,
)
    requires
        launch.op == "sparse_moe_gate_up"@ || launch.op == "sparse_moe_down"@,
    ensures
        plan::expert_plan(
            owner,
            launch,
            p.tensors,
            p.pool,
            workgroup_count,
            p.alignment,
        ) matches Ok(Some(planned)) ==> planned_for(planned, owner, launch, workgroup_count, p),
{
    reveal(plan::expert_plan);
    let listed = plan::parameter_descriptors(launch.descriptors);
    match plan::expert_plan(owner, launch, p.tensors, p.pool, workgroup_count, p.alignment) {
        Ok(Some(planned)) => {
            let experts = sequence::try_fold(
                listed,
                plan::no_experts(),
                plan::expert_step(launch, p.tensors, p.alignment),
            )->Ok_0;
            lemma_experts_listed(launch, p, listed);
            let ranges = plan::distributed_rows(
                experts.expert_count->0 as nat,
                p.pool.len(),
                1,
                experts.alignment,
            )->Ok_0;
            lemma_activation_stands(launch, 0, 1, "primary input"@);
            lemma_activation_stands(launch, 1, 1, "expert routes"@);
            lemma_activation_stands(launch, 2, 1, "output"@);
            let output = plan::resident_activation(launch, 2, 1, "output"@)->Ok_0;
            let e = ExpertShardingView {
                dispatch: launch,
                parameters: experts.parameters,
                workgroup_count,
                output_byte_capacity: output.signal_byte_capacity,
            };
            lemma_expert_shapes(
                e,
                plan::shard_assignments(plan::shard_devices(owner, p.pool), ranges),
            );
        },
        _ => {},
    }
}

/// Whether a dispatch was planned for one of the first `n` launches of an owner, by the workgroups of
/// the artifact that was compiled for the launch.
pub open spec fn planned_of_owner(
    dispatch: VulkanDistributedDispatchPlanView,
    owner: Seq<char>,
    launches: Seq<VulkanPreparedDispatchView>,
    p: PlanningView,
) -> bool {
    exists|d: int|
        0 <= d < launches.len() && {
            let launch = #[trigger] launches[d];
            let artifact = reusable_kernels::artifact_of_family(
                p.artifacts,
                launch.reusable_family_id,
            );
            &&& artifact is Some
            &&& launch.op == "parallel_linear_silu_multiply"@ || launch.op == "sparse_moe_gate_up"@
                || launch.op == "sparse_moe_down"@
            &&& planned_for(dispatch, owner, launch, artifact->Some_0.workgroup_count_x, p)
        }
}

/// Whether a dispatch was planned for a launch of some owner.
pub open spec fn planned_of_some(
    dispatch: VulkanDistributedDispatchPlanView,
    prepared: Seq<(Seq<char>, VulkanPreparedDispatchPlanView)>,
    p: PlanningView,
) -> bool {
    exists|o: int|
        0 <= o < prepared.len() && planned_of_owner(
            dispatch,
            (#[trigger] prepared[o]).0,
            prepared[o].1.dispatches,
            p,
        )
}

proof fn lemma_planned_of_owner(
    p: PlanningView,
    owner: Seq<char>,
    done: PlannedView,
    launches: Seq<VulkanPreparedDispatchView>,
    i: int,
)
    requires
        sequence::try_fold(launches, done, plan::dispatch_step(p, owner)) is Ok,
    ensures
        ({
            let after = sequence::try_fold(launches, done, plan::dispatch_step(p, owner))->Ok_0;
            &&& done.dispatches.len() <= after.dispatches.len()
            &&& 0 <= i < done.dispatches.len() ==> after.dispatches[i] == done.dispatches[i]
            &&& done.dispatches.len() <= i < after.dispatches.len() ==> planned_of_owner(
                after.dispatches[i],
                owner,
                launches,
                p,
            )
        }),
    decreases launches.len(),
{
    if launches.len() > 0 {
        let front = launches.drop_last();
        let launch = launches.last();
        lemma_planned_of_owner(p, owner, done, front, i);
        let before = sequence::try_fold(front, done, plan::dispatch_step(p, owner))->Ok_0;
        let after = sequence::try_fold(launches, done, plan::dispatch_step(p, owner))->Ok_0;
        assert(plan::plan_next(p, owner, before, launch) == Ok::<PlannedView, Seq<char>>(after));
        reveal(plan::plan_next);
        let artifact = reusable_kernels::artifact_of_family(p.artifacts, launch.reusable_family_id);
        let count = artifact->Some_0.workgroup_count_x;
        if launch.op == "sparse_moe_gate_up"@ || launch.op == "sparse_moe_down"@ {
            lemma_experts_planned(owner, launch, p, count);
        } else {
            lemma_projection_planned(owner, launch, p, count);
        }
        if done.dispatches.len() <= i < after.dispatches.len() {
            if i < before.dispatches.len() {
                let d = choose|d: int|
                    0 <= d < front.len() && {
                        let there = #[trigger] front[d];
                        let found = reusable_kernels::artifact_of_family(
                            p.artifacts,
                            there.reusable_family_id,
                        );
                        &&& found is Some
                        &&& there.op == "parallel_linear_silu_multiply"@ || there.op
                            == "sparse_moe_gate_up"@ || there.op == "sparse_moe_down"@
                        &&& planned_for(
                            before.dispatches[i],
                            owner,
                            there,
                            found->Some_0.workgroup_count_x,
                            p,
                        )
                    };
                assert(launches[d] == front[d]);
            } else {
                assert(launches[launches.len() - 1] == launch);
            }
        }
    }
}

proof fn lemma_planned_of_some(
    p: PlanningView,
    prepared: Seq<(Seq<char>, VulkanPreparedDispatchPlanView)>,
    i: int,
)
    requires
        sequence::try_fold(prepared, plan::nothing_planned(), plan::owner_step(p)) is Ok,
        0 <= i < sequence::try_fold(
            prepared,
            plan::nothing_planned(),
            plan::owner_step(p),
        )->Ok_0.dispatches.len(),
    ensures
        planned_of_some(
            sequence::try_fold(
                prepared,
                plan::nothing_planned(),
                plan::owner_step(p),
            )->Ok_0.dispatches[i],
            prepared,
            p,
        ),
    decreases prepared.len(),
{
    if prepared.len() > 0 {
        let front = prepared.drop_last();
        let last = prepared.last();
        let before = sequence::try_fold(front, plan::nothing_planned(), plan::owner_step(p))->Ok_0;
        let after = sequence::try_fold(
            prepared,
            plan::nothing_planned(),
            plan::owner_step(p),
        )->Ok_0;
        assert(plan::plan_owner(p, before, last) == Ok::<PlannedView, Seq<char>>(after));
        reveal(plan::plan_owner);
        if p.pool.len() >= 2 {
            lemma_planned_of_owner(p, last.0, before, last.1.dispatches, i);
        }
        if i < before.dispatches.len() {
            lemma_planned_of_some(p, front, i);
            let o = choose|o: int|
                0 <= o < front.len() && planned_of_owner(
                    before.dispatches[i],
                    (#[trigger] front[o]).0,
                    front[o].1.dispatches,
                    p,
                );
            assert(prepared[o] == front[o]);
        } else {
            assert(prepared[prepared.len() - 1] == last);
        }
    }
}

/// Every dispatch of an execution plan was planned for a launch that an owner has prepared: it reads
/// and writes the launch's own slots, and its shards have the shape that the launch's rows or experts
/// ask for.
pub proof fn split_dispatches_do_the_work_of_a_launch(
    prepared: Seq<(Seq<char>, VulkanPreparedDispatchPlanView)>,
    p: PlanningView,
    i: int,
)
    requires
        plan::execution_plan(prepared, p) is Ok,
        0 <= i < plan::execution_plan(prepared, p)->Ok_0.dispatches.len(),
    ensures
        planned_of_some(plan::execution_plan(prepared, p)->Ok_0.dispatches[i], prepared, p),
{
    lemma_planned_of_some(p, prepared, i);
}

/// A launch of a shard writes through one descriptor only: that of the output activation, on the
/// slot that the owner shares with the shard's device, from the shard's own offset on. It reads the
/// input activation, the auxiliary ones and the fragments of the parameters through the others, each
/// from its buffer's start on.
pub proof fn shard_launches_write_only_their_output(
    device_id: Seq<char>,
    dispatch: VulkanDistributedDispatchPlanView,
    shard: VulkanDistributedDispatchShardView,
    parameters: VulkanDistributedParameterBuffersView,
    activations: VulkanDistributedActivationBuffersView,
    artifact: VulkanLoadedReusableKernelArtifactView,
    k: int,
)
    requires
        runners::resident_dispatch(
            device_id,
            dispatch,
            shard,
            parameters,
            activations,
            artifact,
        ) is Ok,
    ensures
        ({
            let launch = runners::resident_dispatch(
                device_id,
                dispatch,
                shard,
                parameters,
                activations,
                artifact,
            )->Ok_0;
            let bindings = launch.bindings;
            let auxiliary = dispatch.auxiliary_input_activations;
            let written = 1 + auxiliary.len() as int;
            let read = VulkanResidentKernelBufferAccess::Read;
            let input = activation::shared_activation_buffer(
                activations,
                dispatch.owner_device_id,
                dispatch.input_activation.component_id,
                dispatch.input_activation.slot,
                shard.device_id,
            );
            let output = activation::shared_activation_buffer(
                activations,
                dispatch.owner_device_id,
                dispatch.output_activation.component_id,
                dispatch.output_activation.slot,
                shard.device_id,
            );
            &&& launch.device_id == device_id
            &&& launch.spirv_words == artifact.words
            &&& launch.local_size_x == artifact.artifact.local_size_x
            &&& launch.workgroup_count_x == shard.workgroup_count_x
            &&& launch.workgroup_count_y == 1
            &&& launch.base_workgroup_z == shard.base_workgroup_z
            &&& launch.push_constant_byte_count == 0
            &&& bindings.len() == 1 + auxiliary.len() + 1 + shard.parameters.len()
            &&& device::writes_only(bindings, written)
            &&& input is Some
            &&& device::hands(
                bindings[0],
                dispatch.input_activation.binding as int,
                input->Some_0,
                0,
                dispatch.input_byte_capacity as int,
                read,
            )
            &&& output is Some
            &&& device::hands(
                bindings[written],
                dispatch.output_activation.binding as int,
                output->Some_0,
                shard.output_byte_offset as int,
                shard.output_byte_offset + shard.output_byte_count,
                VulkanResidentKernelBufferAccess::Write,
            )
            &&& 0 <= k < auxiliary.len() ==> {
                let shared = activation::shared_activation_buffer(
                    activations,
                    dispatch.owner_device_id,
                    auxiliary[k].component_id,
                    auxiliary[k].slot,
                    shard.device_id,
                );
                &&& shared is Some
                &&& device::hands(
                    bindings[1 + k],
                    auxiliary[k].binding as int,
                    shared->Some_0,
                    0,
                    auxiliary[k].signal_byte_capacity as int,
                    read,
                )
            }
            &&& 0 <= k < shard.parameters.len() ==> exists|b: int|
                0 <= b < parameters.buffers.len() && {
                    let held = #[trigger] parameters.buffers[b];
                    &&& held.allocation.device_id == shard.device_id
                    &&& held.allocation.tensor == shard.parameters[k].tensor
                    &&& held.allocation.byte_offset == shard.parameters[k].byte_offset
                    &&& held.allocation.byte_count == shard.parameters[k].byte_count
                    &&& device::hands(
                        bindings[written + 1 + k],
                        shard.parameters[k].binding as int,
                        held.buffer,
                        0,
                        shard.parameters[k].byte_count as int,
                        read,
                    )
                }
        }),
{
    reveal(runners::shard_bindings);
    let auxiliary = dispatch.auxiliary_input_activations;
    let bind = runners::auxiliary_binding(activations, dispatch, shard.device_id);
    let fetch = runners::fragment_binding(parameters, dispatch, shard.device_id);
    sequence::lemma_try_map_ok(auxiliary, bind);
    sequence::lemma_try_map_ok(shard.parameters, fetch);
    let bindings = runners::resident_dispatch(
        device_id,
        dispatch,
        shard,
        parameters,
        activations,
        artifact,
    )->Ok_0.bindings;
    let written = 1 + auxiliary.len() as int;
    let first = sequence::try_map(auxiliary, bind)->Ok_0;
    let second = sequence::try_map(shard.parameters, fetch)->Ok_0;
    assert forall|j: int| 0 <= j < bindings.len() implies ((#[trigger] bindings[j]).access
        == VulkanResidentKernelBufferAccess::Read <==> j != written) by {
        if 0 < j < written {
            assert(bind(auxiliary[j - 1]) is Ok);
            assert(bindings[j] == first[j - 1]);
        } else if j > written {
            assert(fetch(shard.parameters[j - written - 1]) is Ok);
            assert(bindings[j] == second[j - written - 1]);
        }
    }
    if 0 <= k < auxiliary.len() {
        assert(bind(auxiliary[k]) is Ok);
        assert(bindings[1 + k] == first[k]);
    }
    if 0 <= k < shard.parameters.len() {
        let fragment = shard.parameters[k];
        assert(fetch(shard.parameters[k]) is Ok);
        assert(bindings[written + 1 + k] == second[k]);
        let b = sequence::lemma_find_first_some(
            parameters.buffers,
            parameters::range_matcher(
                shard.device_id,
                fragment.tensor,
                fragment.byte_offset,
                fragment.byte_count,
            ),
        );
        assert(parameters.buffers[b].allocation.tensor == fragment.tensor);
    }
}

proof fn lemma_rows_ascend(dispatch: VulkanDistributedDispatchPlanView, s: int, t: int)
    requires
        sharding::well_sharded(dispatch),
        0 <= s < t < dispatch.shards.len(),
    ensures
        dispatch.shards[s].row_start + dispatch.shards[s].row_count <= dispatch.shards[t].row_start,
    decreases t - s,
{
    assert(sharding::follows(dispatch.shards[t - 1], dispatch.shards[t - 1 + 1]));
    if s < t - 1 {
        lemma_rows_ascend(dispatch, s, t - 1);
    }
}

/// The launches of a dispatch that is split by output rows write each row once: a launch writes two
/// bytes for each of its rows, from its first row on. The ranges follow one another without a gap and
/// without an overlap, the first begins at the output's start, and the last ends with the last row.
/// They lie in the slots that the owner shares with the devices of the shards.
pub proof fn row_shards_write_the_output_once(
    prepared: Seq<(Seq<char>, VulkanPreparedDispatchPlanView)>,
    p: PlanningView,
    i: int,
    s: int,
    t: int,
    parameters: VulkanDistributedParameterBuffersView,
    activations: VulkanDistributedActivationBuffersView,
    artifact: VulkanLoadedReusableKernelArtifactView,
)
    requires
        plan::execution_plan(prepared, p) is Ok,
        0 <= i < plan::execution_plan(prepared, p)->Ok_0.dispatches.len(),
        plan::execution_plan(prepared, p)->Ok_0.dispatches[i].distribution is OutputRows,
        0 <= s < t < plan::execution_plan(prepared, p)->Ok_0.dispatches[i].shards.len(),
        runners::resident_dispatch(
            plan::execution_plan(prepared, p)->Ok_0.dispatches[i].shards[s].device_id,
            plan::execution_plan(prepared, p)->Ok_0.dispatches[i],
            plan::execution_plan(prepared, p)->Ok_0.dispatches[i].shards[s],
            parameters,
            activations,
            artifact,
        ) is Ok,
        runners::resident_dispatch(
            plan::execution_plan(prepared, p)->Ok_0.dispatches[i].shards[t].device_id,
            plan::execution_plan(prepared, p)->Ok_0.dispatches[i],
            plan::execution_plan(prepared, p)->Ok_0.dispatches[i].shards[t],
            parameters,
            activations,
            artifact,
        ) is Ok,
    ensures
        ({
            let dispatch = plan::execution_plan(prepared, p)->Ok_0.dispatches[i];
            let one = dispatch.shards[s];
            let other = dispatch.shards[t];
            let here = runners::resident_dispatch(
                one.device_id,
                dispatch,
                one,
                parameters,
                activations,
                artifact,
            )->Ok_0.bindings;
            let there = runners::resident_dispatch(
                other.device_id,
                dispatch,
                other,
                parameters,
                activations,
                artifact,
            )->Ok_0.bindings;
            &&& device::writes_only(here, 1)
            &&& device::writes_only(there, 1)
            &&& here[1].binding == 1
            &&& here[1].byte_offset == one.row_start * 2
            &&& here[1].byte_offset + here[1].byte_len == (one.row_start + one.row_count) * 2
            &&& here[1].byte_len > 0
            &&& here[1].byte_offset + here[1].byte_len <= there[1].byte_offset
            &&& there[1].byte_offset + there[1].byte_len <= dispatch.output_byte_capacity
            &&& s == 0 ==> here[1].byte_offset == 0
            &&& t == s + 1 ==> here[1].byte_offset + here[1].byte_len == there[1].byte_offset
            &&& t == dispatch.shards.len() - 1 ==> there[1].byte_offset + there[1].byte_len
                == dispatch.output_byte_capacity
            &&& dispatch.output_byte_capacity == dispatch.output_rows * 2
            &&& dispatch.output_byte_capacity <= dispatch.output_activation.signal_byte_capacity
        }),
{
    let dispatch = plan::execution_plan(prepared, p)->Ok_0.dispatches[i];
    let one = dispatch.shards[s];
    let other = dispatch.shards[t];
    sharding::planned_dispatches_are_well_sharded(prepared, p, i);
    split_dispatches_do_the_work_of_a_launch(prepared, p, i);
    shard_launches_write_only_their_output(
        one.device_id,
        dispatch,
        one,
        parameters,
        activations,
        artifact,
        0,
    );
    shard_launches_write_only_their_output(
        other.device_id,
        dispatch,
        other,
        parameters,
        activations,
        artifact,
        0,
    );
    lemma_rows_ascend(dispatch, s, t);
    if t == s + 1 {
        assert(sharding::follows(dispatch.shards[s], dispatch.shards[s + 1]));
    }
    if t < dispatch.shards.len() - 1 {
        lemma_rows_ascend(dispatch, t, dispatch.shards.len() - 1);
    }
}

/// Whether a shard runner launches its shard of every member of a group, in the group's order and on
/// the shard's device, and nothing else. Each launch is made with the artifact that was loaded for
/// its member.
pub open spec fn runs_its_shard(
    c: CreationView,
    group: VulkanDistributedDispatchGroupView,
    s: int,
    runner: VulkanDistributedDispatchShardRunnerView,
) -> bool {
    &&& runner.device_id == group.dispatches[0].shards[s].device_id
    &&& runner.sequence.device_id == runner.device_id
    &&& runner.planned.len() == group.dispatches.len()
    &&& runner.resident_dispatches.len() == group.dispatches.len()
    &&& runner.sequence.steps.len() == group.dispatches.len()
    &&& forall|m: int|
        0 <= m < group.dispatches.len() ==> {
            let member = #[trigger] group.dispatches[m];
            let artifact = reusable_kernels::loaded_artifact(c.manifest, member.reusable_family_id);
            &&& s < member.shards.len()
            &&& member.shards[s].device_id == runner.device_id
            &&& runner.planned[m] == member.shards[s]
            &&& artifact is Some
            &&& runners::resident_dispatch(
                runner.device_id,
                member,
                member.shards[s],
                c.parameters,
                c.activations,
                artifact->Some_0,
            ) is Ok
            &&& runners::resident_dispatch(
                runner.device_id,
                member,
                member.shards[s],
                c.parameters,
                c.activations,
                artifact->Some_0,
            )->Ok_0 == runner.resident_dispatches[m]
            &&& runner.sequence.steps[m].dispatch == runner.resident_dispatches[m]
            &&& runner.sequence.steps[m].push_constants.len() == 0
        }
}

/// Whether a helper stands on a device other than the owner's, and shares two semaphores with the
/// owner: one that the owner signals and the helper waits for, and one the other way round.
pub open spec fn helps(
    helper: VulkanDistributedDispatchHelperSynchronizationView,
    owner: Seq<char>,
    group_index: int,
    helper_index: int,
) -> bool {
    &&& helper.device_id != owner
    &&& helper.ready_source.device_id == owner
    &&& helper.ready_wait.device_id == helper.device_id
    &&& helper.done_source.device_id == helper.device_id
    &&& helper.done_wait.device_id == owner
    &&& device::imports_from(helper.ready_source, helper.ready_wait)
    &&& device::imports_from(helper.done_source, helper.done_wait)
    &&& helper.ready_source.signal != helper.done_source.signal
    &&& helper.ready_source.group_index == group_index
    &&& helper.ready_source.helper_index == helper_index
    &&& helper.done_source.group_index == group_index
    &&& helper.done_source.helper_index == helper_index
}

/// Whether a runner runs a group: each shard of the group's members, with a helper for every shard
/// that does not stand on the owner, and with a clock that has not moved yet.
pub open spec fn runs_its_group(
    c: CreationView,
    group: VulkanDistributedDispatchGroupView,
    g: int,
    runner: VulkanDistributedDispatchRunnerView,
) -> bool {
    let shards = group.dispatches[0].shards;
    let helpers = runner.helper_synchronization;
    &&& runner.planned == group
    &&& runner.dependency_clock.next_value == 1
    &&& runner.shards.len() == shards.len()
    &&& forall|s: int|
        0 <= s < shards.len() ==> runs_its_shard(c, group, s, #[trigger] runner.shards[s])
    &&& forall|h: int|
        0 <= h < helpers.len() ==> helps(#[trigger] helpers[h], group.owner_device_id, g, h)
    &&& forall|s: int|
        0 <= s < shards.len() && (#[trigger] shards[s]).device_id != group.owner_device_id
            ==> helped_on(helpers, shards[s].device_id)
    &&& helpers.len() == sequence::count(shards, stands_elsewhere(group.owner_device_id))
}

/// Whether some helper stands on a device.
pub open spec fn helped_on(
    helpers: Seq<VulkanDistributedDispatchHelperSynchronizationView>,
    device_id: Seq<char>,
) -> bool {
    exists|h: int| 0 <= h < helpers.len() && (#[trigger] helpers[h]).device_id == device_id
}

/// Whether a shard stands on another device than this one.
pub open spec fn stands_elsewhere(owner: Seq<char>) -> spec_fn(
    VulkanDistributedDispatchShardView,
) -> bool {
    |shard: VulkanDistributedDispatchShardView| shard.device_id != owner
}

proof fn lemma_shard_made(
    c: CreationView,
    group: VulkanDistributedDispatchGroupView,
    g: int,
    s: int,
)
    requires
        group.dispatches.len() > 0,
    ensures
        runners::made_shard(c, group, g, s) matches Ok(runner) ==> runs_its_shard(
            c,
            group,
            s,
            runner,
        ),
{
    match runners::made_shard(c, group, g, s) {
        Ok(runner) => {
            let step = runners::member_of(c, group, g, s);
            sequence::lemma_try_map_ok(group.dispatches, step);
            assert forall|m: int| 0 <= m < group.dispatches.len() implies {
                let member = #[trigger] group.dispatches[m];
                let artifact = reusable_kernels::loaded_artifact(
                    c.manifest,
                    member.reusable_family_id,
                );
                &&& s < member.shards.len()
                &&& member.shards[s].device_id == runner.device_id
                &&& runner.planned[m] == member.shards[s]
                &&& artifact is Some
                &&& runners::resident_dispatch(
                    runner.device_id,
                    member,
                    member.shards[s],
                    c.parameters,
                    c.activations,
                    artifact->Some_0,
                ) is Ok
                &&& runners::resident_dispatch(
                    runner.device_id,
                    member,
                    member.shards[s],
                    c.parameters,
                    c.activations,
                    artifact->Some_0,
                )->Ok_0 == runner.resident_dispatches[m]
                &&& runner.sequence.steps[m].dispatch == runner.resident_dispatches[m]
                &&& runner.sequence.steps[m].push_constants.len() == 0
            } by {
                assert(step(group.dispatches[m]) is Ok);
                reveal(runners::member_created);
            }
        },
        Err(_) => {},
    }
}

proof fn lemma_shards_made(
    c: CreationView,
    group: VulkanDistributedDispatchGroupView,
    g: int,
    start: nat,
    n: nat,
)
    requires
        group.dispatches.len() > 0,
        sequence::try_fold(
            sequence::positions(n),
            (ShardRunnersView { shards: Seq::empty(), count: start }),
            runners::shard_step(c, group, g),
        ) is Ok,
    ensures
        ({
            let done = sequence::try_fold(
                sequence::positions(n),
                (ShardRunnersView { shards: Seq::empty(), count: start }),
                runners::shard_step(c, group, g),
            )->Ok_0;
            &&& done.shards.len() == n
            &&& done.count == start + n * group.dispatches.len()
            &&& forall|s: int|
                0 <= s < n ==> runs_its_shard(c, group, s, #[trigger] done.shards[s])
        }),
    decreases n,
{
    let none = ShardRunnersView { shards: Seq::empty(), count: start };
    let step = runners::shard_step(c, group, g);
    if n > 0 {
        let s = n - 1;
        assert(sequence::positions(n).drop_last() =~= sequence::positions(s as nat));
        lemma_shards_made(c, group, g, start, s as nat);
        reveal(runners::shard_created);
        let before = sequence::try_fold(sequence::positions(s as nat), none, step)->Ok_0;
        assert(runners::shard_created(c, group, g, before, s) is Ok);
        lemma_shard_made(c, group, g, s);
        assert(n * group.dispatches.len() == s * group.dispatches.len() + group.dispatches.len())
            by (nonlinear_arith)
            requires
                s == n - 1,
        ;
    } else {
        assert(n * group.dispatches.len() == 0) by (nonlinear_arith)
            requires
                n == 0,
        ;
    }
}

proof fn lemma_helpers_made(
    directory: VulkanDeviceDirectoryView,
    group: VulkanDistributedDispatchGroupView,
    g: int,
    shards: Seq<VulkanDistributedDispatchShardView>,
)
    requires
        0 <= g <= usize::MAX,
        shards.len() <= usize::MAX,
        sequence::try_fold(
            shards,
            Seq::<VulkanDistributedDispatchHelperSynchronizationView>::empty(),
            runners::helper_step(directory, group, g),
        ) is Ok,
    ensures
        ({
            let helpers = sequence::try_fold(
                shards,
                Seq::<VulkanDistributedDispatchHelperSynchronizationView>::empty(),
                runners::helper_step(directory, group, g),
            )->Ok_0;
            &&& helpers.len() <= shards.len()
            &&& forall|h: int|
                0 <= h < helpers.len() ==> helps(#[trigger] helpers[h], group.owner_device_id, g, h)
            &&& forall|s: int|
                0 <= s < shards.len() && (#[trigger] shards[s]).device_id != group.owner_device_id
                    ==> helped_on(helpers, shards[s].device_id)
            &&& helpers.len() == sequence::count(shards, stands_elsewhere(group.owner_device_id))
        }),
    decreases shards.len(),
{
    let none = Seq::<VulkanDistributedDispatchHelperSynchronizationView>::empty();
    let step = runners::helper_step(directory, group, g);
    if shards.len() > 0 {
        let front = shards.drop_last();
        lemma_helpers_made(directory, group, g, front);
        reveal(runners::helper_created);
        let before = sequence::try_fold(front, none, step)->Ok_0;
        let after = sequence::try_fold(shards, none, step)->Ok_0;
        assert(runners::helper_created(directory, group, g, before, shards.last()) is Ok);
        assert forall|s: int|
            0 <= s < shards.len() && (#[trigger] shards[s]).device_id
                != group.owner_device_id implies helped_on(after, shards[s].device_id) by {
            if s < front.len() {
                assert(front[s] == shards[s]);
                let h = choose|h: int|
                    0 <= h < before.len() && (#[trigger] before[h]).device_id
                        == shards[s].device_id;
                assert(after[h] == before[h]);
            } else {
                assert(after[before.len() as int].device_id == shards[s].device_id);
            }
        }
    }
}

proof fn lemma_runners_made(
    c: CreationView,
    groups: Seq<VulkanDistributedDispatchGroupView>,
    g: int,
)
    requires
        sequence::try_fold(groups, runners::no_runners(), runners::runner_step(c)) is Ok,
        groups.len() <= usize::MAX,
        runners::groups_nonempty(groups),
        forall|i: int|
            0 <= i < groups.len() ==> (#[trigger] groups[i]).dispatches[0].shards.len()
                <= usize::MAX,
    ensures
        ({
            let done = sequence::try_fold(
                groups,
                runners::no_runners(),
                runners::runner_step(c),
            )->Ok_0;
            &&& done.runners.len() == groups.len()
            &&& 0 <= g < groups.len() ==> runs_its_group(c, groups[g], g, done.runners[g])
        }),
    decreases groups.len(),
{
    if groups.len() > 0 {
        let front = groups.drop_last();
        let group = groups.last();
        assert forall|i: int| 0 <= i < front.len() implies (#[trigger] front[i]).dispatches.len()
            > 0 && front[i].dispatches[0].shards.len() <= usize::MAX by {
            assert(front[i] == groups[i]);
        }
        lemma_runners_made(c, front, g);
        reveal(runners::runner_created);
        let before = sequence::try_fold(
            front,
            runners::no_runners(),
            runners::runner_step(c),
        )->Ok_0;
        assert(runners::runner_created(c, before, group) is Ok);
        assert(groups[groups.len() - 1] == group);
        let shards = group.dispatches[0].shards;
        lemma_shards_made(c, group, before.runners.len() as int, before.count, shards.len());
        lemma_helpers_made(c.directory, group, before.runners.len() as int, shards);
    }
}

/// Every group of an execution plan has a runner, in the plan's order, that runs its shards and
/// synchronizes its helpers.
pub proof fn every_group_has_its_runner(
    plan: VulkanDistributedExecutionPlanView,
    c: CreationView,
    g: int,
)
    requires
        runners::created_runners(plan, c) is Ok,
        plan.dispatch_groups.len() <= usize::MAX,
        plan.dispatches.len() <= usize::MAX,
        runners::groups_nonempty(plan.dispatch_groups),
        forall|i: int|
            0 <= i < plan.dispatch_groups.len() ==> (
            #[trigger] plan.dispatch_groups[i]).dispatches[0].shards.len() <= usize::MAX,
        0 <= g < plan.dispatch_groups.len(),
    ensures
        ({
            let made = runners::created_runners(plan, c)->Ok_0;
            &&& made.dispatches.len() == plan.dispatch_groups.len()
            &&& made.dispatch_count == plan.dispatches.len()
            &&& runs_its_group(c, plan.dispatch_groups[g], g, made.dispatches[g])
        }),
{
    lemma_runners_made(c, plan.dispatch_groups, g);
}

/// A shard is submitted with its own sequence. Where it stands on the owner, it neither waits nor
/// signals. Where a helper stands on its device, it waits for the point that the owner signals to
/// that helper, and signals the point that the owner waits for, both with the value of the
/// submission; each of the two only where it is asked for. A submission that is batched is enqueued;
/// any other has a fence exactly where it signals its completion.
pub proof fn shards_wait_for_their_owner(
    c: CreationView,
    group: VulkanDistributedDispatchGroupView,
    g: int,
    runner: VulkanDistributedDispatchRunnerView,
    submission: VulkanDistributedDispatchSubmission,
    batched: bool,
    s: int,
)
    requires
        runs_its_group(c, group, g, runner),
        0 <= s < runner.shards.len(),
    ensures
        ({
            let all = runners::runner_submissions(runner, submission, batched);
            let shard = runner.shards[s];
            let value = submission.dependency_value;
            let ready = runners::semaphore_points(
                runners::ready_sources(runner.helper_synchronization),
                value,
            );
            let done = runners::semaphore_points(
                runners::done_waits(runner.helper_synchronization),
                value,
            );
            let here = all[s];
            &&& all.len() == runner.shards.len()
            &&& here.sequence == shard.sequence
            &&& here.signal_completion == submission.signal_completion
            &&& here.mode is Enqueued <==> batched
            &&& here.mode is Fenced <==> !batched && submission.signal_completion
            &&& shard.device_id == group.owner_device_id ==> here.wait_points.len() == 0
                && here.signal_points.len() == 0
            &&& shard.device_id != group.owner_device_id ==> {
                &&& here.wait_points.len() == (if submission.consume_owner_ready_signal {
                    1nat
                } else {
                    0
                })
                &&& here.signal_points.len() == (if submission.prepare_owner_continuation {
                    1nat
                } else {
                    0
                })
                &&& exists|h: int|
                    0 <= h < runner.helper_synchronization.len() && {
                        let helper = #[trigger] runner.helper_synchronization[h];
                        &&& helper.device_id == shard.device_id
                        &&& here.wait_points.len() == 1 ==> {
                            &&& here.wait_points[0].value == ready[h].value
                            &&& here.wait_points[0].semaphore.device_id == shard.device_id
                            &&& device::imports_from(
                                ready[h].semaphore,
                                here.wait_points[0].semaphore,
                            )
                        }
                        &&& here.signal_points.len() == 1 ==> {
                            &&& here.signal_points[0].value == done[h].value
                            &&& here.signal_points[0].semaphore.device_id == shard.device_id
                            &&& device::imports_from(
                                here.signal_points[0].semaphore,
                                done[h].semaphore,
                            )
                        }
                    }
            }
        }),
{
    let helpers = runner.helper_synchronization;
    let shard = runner.shards[s];
    let p = runners::helper_on(shard.device_id);
    assert(runs_its_shard(c, group, s, runner.shards[s]));
    if sequence::find_first(helpers, p) is Some {
        let h = sequence::lemma_find_first_some(helpers, p);
        assert(helps(helpers[h], group.owner_device_id, g, h));
        assert(helpers[h].device_id == shard.device_id);
    } else {
        sequence::lemma_find_none_all(helpers, p);
        let shards = group.dispatches[0].shards;
        if shards[s].device_id != group.owner_device_id {
            let h = choose|h: int|
                0 <= h < helpers.len() && (#[trigger] helpers[h]).device_id == shards[s].device_id;
            assert(!p(helpers[h]));
        }
    }
}

/// The owner of a dispatch signals one point to each helper and waits for one point from each, all
/// with the given value, through its own ends of the semaphores that it shares with that helper.
pub proof fn owners_synchronize_every_helper(
    c: CreationView,
    runners: VulkanDistributedDispatchRunnersView,
    r: int,
    owner: Seq<char>,
    dispatch_index: usize,
    value: u64,
    h: int,
)
    requires
        0 <= r < runners.dispatches.len(),
        runs_its_group(c, runners.dispatches[r].planned, r, runners.dispatches[r]),
        runners::find_runner(runners, owner, dispatch_index) == Some(runners.dispatches[r]),
        0 <= h < runners.dispatches[r].helper_synchronization.len(),
    ensures
        ({
            let helpers = runners.dispatches[r].helper_synchronization;
            let ready = runners::ready_points(runners, owner, dispatch_index, value);
            let done = runners::completion_points(runners, owner, dispatch_index, value);
            &&& runners.dispatches[r].planned.owner_device_id == owner
            &&& runners.dispatches[r].planned.dispatches[0].dispatch_index == dispatch_index
            &&& ready is Ok
            &&& done is Ok
            &&& ready->Ok_0.len() == helpers.len()
            &&& done->Ok_0.len() == helpers.len()
            &&& ready->Ok_0[h].value == value
            &&& done->Ok_0[h].value == value
            &&& ready->Ok_0[h].semaphore.device_id == owner
            &&& done->Ok_0[h].semaphore.device_id == owner
            &&& device::imports_from(ready->Ok_0[h].semaphore, helpers[h].ready_wait)
            &&& device::imports_from(helpers[h].done_source, done->Ok_0[h].semaphore)
            &&& helpers[h].ready_wait.device_id == helpers[h].device_id
            &&& helpers[h].done_source.device_id == helpers[h].device_id
        }),
{
    let i = sequence::lemma_find_first_some(
        runners.dispatches,
        runners::led_by(owner, dispatch_index),
    );
    assert(helps(
        runners.dispatches[r].helper_synchronization[h],
        runners.dispatches[r].planned.owner_device_id,
        r,
        h,
    ));
}

/// A dispatch has run where every shard was submitted and came to its end. Its run names the owner,
/// the dispatch and the number of its shards.
#[verifier::spinoff_prover]
pub proof fn dispatches_run_where_every_shard_does(
    runners: VulkanDistributedDispatchRunnersView,
    owner: Seq<char>,
    dispatch_index: usize,
    directory: VulkanDeviceDirectoryView,
    submitted: Seq<runners::DeviceOutcome>,
    waited: Seq<runners::DeviceOutcome>,
)
    ensures
        runners::ran_dispatch(
            runners,
            owner,
            dispatch_index,
            directory,
            submitted,
            waited,
        ) matches Ok(run) ==> {
            let found = runners::find_runner(runners, owner, dispatch_index);
            let runner = found->Some_0;
            &&& found is Some
            &&& {
                &&& run.owner_device_id == owner
                &&& run.dispatch_index == dispatch_index
                &&& run.component_id == runner.planned.dispatches.first().component_id
                &&& run.node_id == runner.planned.dispatches.last().node_id
                &&& runner.shards.len() <= usize::MAX ==> run.shard_count == runner.shards.len()
                &&& forall|s: int|
                    0 <= s < runner.shards.len() ==> {
                        let shard = #[trigger] runner.shards[s];
                        &&& directory.knows(shard.device_id)
                        &&& s < submitted.len() ==> submitted[s] is Ok
                        &&& s < waited.len() ==> waited[s] is Ok
                    }
            }
        },
{
    let ran = runners::ran_dispatch(runners, owner, dispatch_index, directory, submitted, waited);
    if ran is Ok {
        let runner = runners::find_runner(runners, owner, dispatch_index)->Some_0;
        let n = runner.shards.len();
        let positions = sequence::positions(n);
        let p = runners::not_submitted(runner, directory, submitted);
        let relevant = if waited.len() < n {
            waited
        } else {
            waited.take(n as int)
        };
        sequence::lemma_first_position(positions, p);
        sequence::lemma_first_position(relevant, runners::is_failure());
        assert forall|s: int| 0 <= s < n implies {
            let shard = #[trigger] runner.shards[s];
            &&& directory.knows(shard.device_id)
            &&& s < submitted.len() ==> submitted[s] is Ok
            &&& s < waited.len() ==> waited[s] is Ok
        } by {
            assert(!p(positions[s]));
            if s < waited.len() {
                assert(!runners::is_failure()(relevant[s]));
                assert(relevant[s] == waited[s]);
            }
        }
    }
}

} // verus!
