//! The kernels of a batch: which one a node is launched with.

use crate::kernel_interface::VulkanKernelDescriptorUsage;
use crate::sequence;
use crate::text;
use vstd::prelude::*;

verus! {

/// The bytes of a control that holds the width of a batch.
pub const VULKAN_COMPONENT_BATCH_WIDTH_CONTROL_BYTE_CAPACITY: u32 = 4;

/// The bytes of a control that holds the width of a batch and where its stream stands.
pub const VULKAN_COMPONENT_BATCH_CONTROL_BYTE_CAPACITY: u32 = 16;

/// What the lanes of a batch are to each other.
#[derive(Clone, Copy, Debug, PartialEq, Eq, Structural)]
pub enum VulkanComponentBatchExecutionMode {
    IndependentCandidates,
    CausalSequence,
}

impl DeepView for VulkanComponentBatchExecutionMode {
    type V = VulkanComponentBatchExecutionMode;

    open spec fn deep_view(&self) -> VulkanComponentBatchExecutionMode {
        *self
    }
}

/// Why a stream is activated in a batch.
#[derive(Clone, Copy, Debug, PartialEq, Eq, Structural)]
pub enum RuntimeStreamActivationBatchKind {
    PrefillChunk,
    DecodeFeedback,
}

impl DeepView for RuntimeStreamActivationBatchKind {
    type V = RuntimeStreamActivationBatchKind;

    open spec fn deep_view(&self) -> RuntimeStreamActivationBatchKind {
        *self
    }
}

impl VulkanComponentBatchExecutionMode {
    /// What the lanes of such a batch are to each other: a chunk of a prompt is a sequence, and
    /// fed back tokens are candidates.
    pub fn from_runtime_activation_batch_kind(kind: &RuntimeStreamActivationBatchKind) -> (r: Self)
        ensures
            r == (match *kind {
                RuntimeStreamActivationBatchKind::PrefillChunk => {
                    VulkanComponentBatchExecutionMode::CausalSequence
                },
                RuntimeStreamActivationBatchKind::DecodeFeedback => {
                    VulkanComponentBatchExecutionMode::IndependentCandidates
                },
            }),
    {
        match kind {
            RuntimeStreamActivationBatchKind::PrefillChunk => {
                VulkanComponentBatchExecutionMode::CausalSequence
            },
            RuntimeStreamActivationBatchKind::DecodeFeedback => {
                VulkanComponentBatchExecutionMode::IndependentCandidates
            },
        }
    }
}

/// How a kernel treats the lanes of a batch.
#[derive(Clone, Copy, Debug, PartialEq, Eq, Structural)]
pub enum VulkanResidentComponentKernelBatchMode {
    SerialLanes,
    WeightShared,
    CausalScan,
}

impl DeepView for VulkanResidentComponentKernelBatchMode {
    type V = VulkanResidentComponentKernelBatchMode;

    open spec fn deep_view(&self) -> VulkanResidentComponentKernelBatchMode {
        *self
    }
}

/// For which modes something holds.
#[derive(Clone, Copy, Debug, PartialEq, Eq, Structural)]
pub struct VulkanComponentBatchModes {
    pub independent_candidates: bool,
    pub causal_sequence: bool,
}

impl DeepView for VulkanComponentBatchModes {
    type V = VulkanComponentBatchModes;

    open spec fn deep_view(&self) -> VulkanComponentBatchModes {
        *self
    }
}

/// Whether a mode is among those.
pub open spec fn has_mode(
    modes: VulkanComponentBatchModes,
    mode: VulkanComponentBatchExecutionMode,
) -> bool {
    match mode {
        VulkanComponentBatchExecutionMode::IndependentCandidates => modes.independent_candidates,
        VulkanComponentBatchExecutionMode::CausalSequence => modes.causal_sequence,
    }
}

impl VulkanComponentBatchModes {
    /// Whether a mode is among those.
    pub fn has(&self, mode: VulkanComponentBatchExecutionMode) -> (r: bool)
        ensures
            r == has_mode(*self, mode),
    {
        match mode {
            VulkanComponentBatchExecutionMode::IndependentCandidates => self.independent_candidates,
            VulkanComponentBatchExecutionMode::CausalSequence => self.causal_sequence,
        }
    }
}

/// One of the shaders that a batch kernel runs one after the other.
#[derive(Debug, PartialEq, Eq)]
pub struct VulkanResidentComponentBatchStageArtifact {
    pub shader_path: String,
    pub spirv_words: Vec<u32>,
    pub workgroup_count_x: u32,
    pub local_size_x: u32,
}

#[verifier::ext_equal]
pub struct VulkanResidentComponentBatchStageArtifactView {
    pub shader_path: Seq<char>,
    pub spirv_words: Seq<u32>,
    pub workgroup_count_x: u32,
    pub local_size_x: u32,
}

impl DeepView for VulkanResidentComponentBatchStageArtifact {
    type V = VulkanResidentComponentBatchStageArtifactView;

    open spec fn deep_view(&self) -> VulkanResidentComponentBatchStageArtifactView {
        VulkanResidentComponentBatchStageArtifactView {
            shader_path: self.shader_path.deep_view(),
            spirv_words: self.spirv_words.deep_view(),
            workgroup_count_x: self.workgroup_count_x,
            local_size_x: self.local_size_x,
        }
    }
}

impl View for VulkanResidentComponentBatchStageArtifact {
    type V = VulkanResidentComponentBatchStageArtifactView;

    open spec fn view(&self) -> VulkanResidentComponentBatchStageArtifactView {
        self.deep_view()
    }
}

impl Clone for VulkanResidentComponentBatchStageArtifact {
    fn clone(&self) -> (r: Self)
        ensures
            r@ == self@,
    {
        VulkanResidentComponentBatchStageArtifact {
            shader_path: self.shader_path.clone(),
            spirv_words: self.spirv_words.clone(),
            workgroup_count_x: self.workgroup_count_x,
            local_size_x: self.local_size_x,
        }
    }
}

/// A kernel that runs a node for many lanes: in which modes it may be used, and in which it gives
/// exactly what lane by lane execution gives.
#[derive(Debug, PartialEq, Eq)]
pub struct VulkanResidentComponentBatchKernelArtifact {
    pub component_id: String,
    pub node_id: String,
    pub batch_mode: VulkanResidentComponentKernelBatchMode,
    pub lane_tile_width: usize,
    pub execution_domain: VulkanComponentBatchModes,
    pub exact_modes: VulkanComponentBatchModes,
    pub stages: Vec<VulkanResidentComponentBatchStageArtifact>,
}

#[verifier::ext_equal]
pub struct VulkanResidentComponentBatchKernelArtifactView {
    pub component_id: Seq<char>,
    pub node_id: Seq<char>,
    pub batch_mode: VulkanResidentComponentKernelBatchMode,
    pub lane_tile_width: usize,
    pub execution_domain: VulkanComponentBatchModes,
    pub exact_modes: VulkanComponentBatchModes,
    pub stages: Seq<VulkanResidentComponentBatchStageArtifactView>,
}

impl DeepView for VulkanResidentComponentBatchKernelArtifact {
    type V = VulkanResidentComponentBatchKernelArtifactView;

    open spec fn deep_view(&self) -> VulkanResidentComponentBatchKernelArtifactView {
        VulkanResidentComponentBatchKernelArtifactView {
            component_id: self.component_id.deep_view(),
            node_id: self.node_id.deep_view(),
            batch_mode: self.batch_mode,
            lane_tile_width: self.lane_tile_width,
            execution_domain: self.execution_domain,
            exact_modes: self.exact_modes,
            stages: self.stages.deep_view(),
        }
    }
}

impl View for VulkanResidentComponentBatchKernelArtifact {
    type V = VulkanResidentComponentBatchKernelArtifactView;

    open spec fn view(&self) -> VulkanResidentComponentBatchKernelArtifactView {
        self.deep_view()
    }
}

impl Clone for VulkanResidentComponentBatchKernelArtifact {
    fn clone(&self) -> (r: Self)
        ensures
            r@ == self@,
    {
        VulkanResidentComponentBatchKernelArtifact {
            component_id: self.component_id.clone(),
            node_id: self.node_id.clone(),
            batch_mode: self.batch_mode,
            lane_tile_width: self.lane_tile_width,
            execution_domain: self.execution_domain,
            exact_modes: self.exact_modes,
            stages: self.stages.clone(),
        }
    }
}

/// Whether a kernel can run a node in a mode.
pub open spec fn serves(
    component_id: Seq<char>,
    node_id: Seq<char>,
    mode: VulkanComponentBatchExecutionMode,
) -> spec_fn(VulkanResidentComponentBatchKernelArtifactView) -> bool {
    |artifact: VulkanResidentComponentBatchKernelArtifactView|
        {
            &&& artifact.component_id == component_id
            &&& artifact.node_id == node_id
            &&& has_mode(artifact.execution_domain, mode)
            &&& artifact.batch_mode == VulkanResidentComponentKernelBatchMode::WeightShared || mode
                == VulkanComponentBatchExecutionMode::CausalSequence
            &&& has_mode(artifact.exact_modes, mode)
        }
}

/// What kernels are ranked by, the smaller the better. In a sequence the widest tile wins. Among
/// candidates the narrowest tile that holds all lanes wins, then the widest of the others.
pub open spec fn rank(
    mode: VulkanComponentBatchExecutionMode,
    lane_capacity: usize,
    tile_width: usize,
) -> (usize, usize) {
    if mode == VulkanComponentBatchExecutionMode::CausalSequence {
        (0, (usize::MAX - tile_width) as usize)
    } else if tile_width >= lane_capacity {
        (0, tile_width)
    } else {
        (1, (usize::MAX - tile_width) as usize)
    }
}

/// Whether one rank is better than another.
pub open spec fn better(a: (usize, usize), b: (usize, usize)) -> bool {
    a.0 < b.0 || (a.0 == b.0 && a.1 < b.1)
}

/// The position of the best kernel that can run a node, the first of those that tie. Kernels that
/// are not compatible are passed over.
pub open spec fn best_position(
    artifacts: Seq<VulkanResidentComponentBatchKernelArtifactView>,
    compatible: Seq<bool>,
    p: spec_fn(VulkanResidentComponentBatchKernelArtifactView) -> bool,
    mode: VulkanComponentBatchExecutionMode,
    lane_capacity: usize,
) -> Option<int>
    decreases artifacts.len(),
{
    if artifacts.len() == 0 {
        None
    } else {
        let n = artifacts.len() - 1;
        let front = best_position(artifacts.drop_last(), compatible, p, mode, lane_capacity);
        if !p(artifacts.last()) || !compatible[n] {
            front
        } else {
            match front {
                None => Some(n),
                Some(i) => if better(
                    rank(mode, lane_capacity, artifacts.last().lane_tile_width),
                    rank(mode, lane_capacity, artifacts[i].lane_tile_width),
                ) {
                    Some(n)
                } else {
                    Some(i)
                },
            }
        }
    }
}

/// The best kernel that can run a node.
pub open spec fn selected(
    artifacts: Seq<VulkanResidentComponentBatchKernelArtifactView>,
    compatible: Seq<bool>,
    component_id: Seq<char>,
    node_id: Seq<char>,
    mode: VulkanComponentBatchExecutionMode,
    lane_capacity: usize,
) -> Option<VulkanResidentComponentBatchKernelArtifactView> {
    match best_position(
        artifacts,
        compatible,
        serves(component_id, node_id, mode),
        mode,
        lane_capacity,
    ) {
        Some(i) => Some(artifacts[i]),
        None => None,
    }
}

/// The answer that everything is compatible.
pub open spec fn all_compatible(n: nat) -> Seq<bool> {
    Seq::new(n, |i: int| true)
}

/// A kernel is selected where one can run the node, and none that can is ranked better; of those
/// that tie the first is selected.
pub proof fn the_best_kernel_is_selected(
    artifacts: Seq<VulkanResidentComponentBatchKernelArtifactView>,
    compatible: Seq<bool>,
    p: spec_fn(VulkanResidentComponentBatchKernelArtifactView) -> bool,
    mode: VulkanComponentBatchExecutionMode,
    lane_capacity: usize,
)
    ensures
        match best_position(artifacts, compatible, p, mode, lane_capacity) {
            None => forall|j: int|
                0 <= j < artifacts.len() ==> !(p(#[trigger] artifacts[j]) && compatible[j]),
            Some(i) => {
                &&& 0 <= i < artifacts.len()
                &&& p(artifacts[i]) && compatible[i]
                &&& forall|j: int|
                    0 <= j < artifacts.len() && p(#[trigger] artifacts[j]) && compatible[j]
                        ==> !better(
                        rank(mode, lane_capacity, artifacts[j].lane_tile_width),
                        rank(mode, lane_capacity, artifacts[i].lane_tile_width),
                    ) && (j < i ==> better(
                        rank(mode, lane_capacity, artifacts[i].lane_tile_width),
                        rank(mode, lane_capacity, artifacts[j].lane_tile_width),
                    ))
            },
        },
    decreases artifacts.len(),
{
    if artifacts.len() > 0 {
        let front = artifacts.drop_last();
        the_best_kernel_is_selected(front, compatible, p, mode, lane_capacity);
        assert forall|j: int| 0 <= j < front.len() implies front[j] == artifacts[j] by {}
        match best_position(artifacts, compatible, p, mode, lane_capacity) {
            None => {
                assert forall|j: int| 0 <= j < artifacts.len() implies !(p(
                    #[trigger] artifacts[j],
                ) && compatible[j]) by {
                    if j < front.len() {
                        assert(front[j] == artifacts[j]);
                    }
                }
            },
            Some(i) => {
                assert forall|j: int|
                    0 <= j < artifacts.len() && p(#[trigger] artifacts[j])
                        && compatible[j] implies !better(
                    rank(mode, lane_capacity, artifacts[j].lane_tile_width),
                    rank(mode, lane_capacity, artifacts[i].lane_tile_width),
                ) && (j < i ==> better(
                    rank(mode, lane_capacity, artifacts[i].lane_tile_width),
                    rank(mode, lane_capacity, artifacts[j].lane_tile_width),
                )) by {
                    if j < front.len() {
                        assert(front[j] == artifacts[j]);
                    }
                }
            },
        }
    }
}

fn ranked(
    mode: VulkanComponentBatchExecutionMode,
    lane_capacity: usize,
    tile_width: usize,
) -> (r: (usize, usize))
    ensures
        r == rank(mode, lane_capacity, tile_width),
{
    match mode {
        VulkanComponentBatchExecutionMode::CausalSequence => (0, usize::MAX - tile_width),
        VulkanComponentBatchExecutionMode::IndependentCandidates => if tile_width
            >= lane_capacity {
            (0, tile_width)
        } else {
            (1, usize::MAX - tile_width)
        },
    }
}

impl VulkanResidentComponentBatchKernelArtifact {
    /// Whether the kernel can run a node in a mode.
    pub fn serves(
        &self,
        component_id: &str,
        node_id: &str,
        mode: VulkanComponentBatchExecutionMode,
    ) -> (r: bool)
        ensures
            r == serves(component_id@, node_id@, mode)(self@),
    {
        let allowed: bool = match self.batch_mode {
            VulkanResidentComponentKernelBatchMode::WeightShared => true,
            _ => match mode {
                VulkanComponentBatchExecutionMode::CausalSequence => true,
                VulkanComponentBatchExecutionMode::IndependentCandidates => false,
            },
        };
        text::same(self.component_id.as_str(), component_id) && text::same(
            self.node_id.as_str(),
            node_id,
        ) && self.execution_domain.has(mode) && allowed && self.exact_modes.has(mode)
    }
}

/// The best of the compatible kernels that can run a node.
#[verifier::loop_isolation(false)]
pub fn select_component_batch_kernel_artifact_where<'a>(
    artifacts: &'a Vec<VulkanResidentComponentBatchKernelArtifact>,
    component_id: &str,
    node_id: &str,
    execution_mode: VulkanComponentBatchExecutionMode,
    lane_capacity: usize,
    compatible: &Vec<bool>,
) -> (r: Option<&'a VulkanResidentComponentBatchKernelArtifact>)
    requires
        compatible@.len() == artifacts@.len(),
    ensures
        r.deep_view() == selected(
            artifacts.deep_view(),
            compatible@,
            component_id@,
            node_id@,
            execution_mode,
            lane_capacity,
        ),
{
    let ghost all = artifacts.deep_view();
    let ghost p = serves(component_id@, node_id@, execution_mode);
    let mut best: Option<usize> = None;
    let mut i: usize = 0;
    assert(all.take(0) =~= Seq::empty());
    while i < artifacts.len()
        invariant
            i <= artifacts.len(),
            match best {
                Some(k) => k < i && best_position(
                    all.take(i as int),
                    compatible@,
                    p,
                    execution_mode,
                    lane_capacity,
                ) == Some(k as int),
                None => best_position(
                    all.take(i as int),
                    compatible@,
                    p,
                    execution_mode,
                    lane_capacity,
                ) is None,
            },
        decreases artifacts.len() - i,
    {
        let artifact = &artifacts[i];
        assert(all[i as int] == artifact@);
        assert(all.take(i + 1).drop_last() =~= all.take(i as int));
        if artifact.serves(component_id, node_id, execution_mode) && compatible[i] {
            match best {
                None => {
                    best = Some(i);
                },
                Some(k) => {
                    assert(all[k as int] == artifacts@[k as int]@);
                    let offered: (usize, usize) = ranked(
                        execution_mode,
                        lane_capacity,
                        artifact.lane_tile_width,
                    );
                    let held: (usize, usize) = ranked(
                        execution_mode,
                        lane_capacity,
                        artifacts[k].lane_tile_width,
                    );
                    if offered.0 < held.0 || (offered.0 == held.0 && offered.1 < held.1) {
                        best = Some(i);
                    }
                },
            }
        }
        i += 1;
    }
    assert(all.take(all.len() as int) =~= all);
    match best {
        Some(k) => {
            assert(all[k as int] == artifacts@[k as int]@);
            Some(&artifacts[k])
        },
        None => None,
    }
}

/// The best kernel that can run a node.
#[verifier::loop_isolation(false)]
pub fn select_component_batch_kernel_artifact<'a>(
    artifacts: &'a Vec<VulkanResidentComponentBatchKernelArtifact>,
    component_id: &str,
    node_id: &str,
    execution_mode: VulkanComponentBatchExecutionMode,
    lane_capacity: usize,
) -> (r: Option<&'a VulkanResidentComponentBatchKernelArtifact>)
    ensures
        r.deep_view() == selected(
            artifacts.deep_view(),
            all_compatible(artifacts@.len()),
            component_id@,
            node_id@,
            execution_mode,
            lane_capacity,
        ),
{
    let mut compatible: Vec<bool> = Vec::new();
    let mut i: usize = 0;
    while i < artifacts.len()
        invariant
            i <= artifacts.len(),
            compatible@ == all_compatible(i as nat),
        decreases artifacts.len() - i,
    {
        compatible.push(true);
        i += 1;
        assert(compatible@ =~= all_compatible(i as nat));
    }
    select_component_batch_kernel_artifact_where(
        artifacts,
        component_id,
        node_id,
        execution_mode,
        lane_capacity,
        &compatible,
    )
}

/// The bytes of the control of a stage, by the name of its shader.
pub open spec fn stage_control_bytes(shader_path: Seq<char>) -> u32 {
    if text::holds_text(shader_path, "sparse_moe_"@) {
        (2 * VULKAN_COMPONENT_BATCH_WIDTH_CONTROL_BYTE_CAPACITY) as u32
    } else if text::holds_text(shader_path, "append_gqa_attention_temporal_read"@)
        || text::holds_text(shader_path, "append_kv_temporal_commit"@) || text::holds_text(
        shader_path,
        "parallel_head_norm_rope_2way_temporal"@,
    ) {
        VULKAN_COMPONENT_BATCH_CONTROL_BYTE_CAPACITY
    } else {
        VULKAN_COMPONENT_BATCH_WIDTH_CONTROL_BYTE_CAPACITY
    }
}

/// The bytes of the control of a stage.
pub fn batch_stage_control_byte_count(stage: &VulkanResidentComponentBatchStageArtifact) -> (r: u32)
    ensures
        r == stage_control_bytes(stage@.shader_path),
{
    let path: &str = stage.shader_path.as_str();
    if text::contains(path, "sparse_moe_") {
        2 * VULKAN_COMPONENT_BATCH_WIDTH_CONTROL_BYTE_CAPACITY
    } else if text::contains(path, "append_gqa_attention_temporal_read") || text::contains(
        path,
        "append_kv_temporal_commit",
    ) || text::contains(path, "parallel_head_norm_rope_2way_temporal") {
        VULKAN_COMPONENT_BATCH_CONTROL_BYTE_CAPACITY
    } else {
        VULKAN_COMPONENT_BATCH_WIDTH_CONTROL_BYTE_CAPACITY
    }
}

/// Whether a descriptor of this usage changes a state.
pub open spec fn changes_state() -> spec_fn(VulkanKernelDescriptorUsage) -> bool {
    |usage: VulkanKernelDescriptorUsage|
        usage == VulkanKernelDescriptorUsage::StateWrite || usage
            == VulkanKernelDescriptorUsage::StateView
}

/// Whether one of the descriptors changes a state.
#[verifier::loop_isolation(false)]
pub fn component_batch_descriptors_commit_state(usages: &Vec<VulkanKernelDescriptorUsage>) -> (r:
    bool)
    ensures
        r == sequence::any(usages@, changes_state()),
{
    let mut i: usize = 0;
    while i < usages.len()
        invariant
            i <= usages.len(),
            forall|j: int| 0 <= j < i ==> !changes_state()(#[trigger] usages@[j]),
        decreases usages.len() - i,
    {
        match usages[i] {
            VulkanKernelDescriptorUsage::StateWrite | VulkanKernelDescriptorUsage::StateView => {
                assert(changes_state()(usages@[i as int]));
                return true;
            },
            _ => {},
        }
        i += 1;
    }
    false
}

/// Whether a kernel runs a node in a mode: it was made for the node, its domain holds the mode, it is
/// exact in the mode, and outside of causal sequences it shares its weights.
pub open spec fn runs_node(
    artifact: VulkanResidentComponentBatchKernelArtifactView,
    component_id: Seq<char>,
    node_id: Seq<char>,
    mode: VulkanComponentBatchExecutionMode,
) -> bool {
    &&& artifact.component_id == component_id
    &&& artifact.node_id == node_id
    &&& mode is IndependentCandidates ==> {
        &&& artifact.execution_domain.independent_candidates
        &&& artifact.exact_modes.independent_candidates
        &&& artifact.batch_mode is WeightShared
    }
    &&& mode is CausalSequence ==> {
        &&& artifact.execution_domain.causal_sequence
        &&& artifact.exact_modes.causal_sequence
    }
}

/// A kernel is selected for a node where a compatible one runs it in the mode, and such a one is
/// selected. For a causal sequence no other has a wider tile. For independent candidates, the tile
/// holds every lane where any does, and then no other that does is narrower; where none does, no
/// other is wider.
pub proof fn selected_kernels_run_their_node(
    artifacts: Seq<VulkanResidentComponentBatchKernelArtifactView>,
    compatible: Seq<bool>,
    component_id: Seq<char>,
    node_id: Seq<char>,
    mode: VulkanComponentBatchExecutionMode,
    lanes: usize,
    j: int,
)
    requires
        0 <= j < artifacts.len(),
    ensures
        ({
            let other = artifacts[j];
            let fits = compatible[j] && runs_node(other, component_id, node_id, mode);
            match selected(artifacts, compatible, component_id, node_id, mode, lanes) {
                None => !fits,
                Some(chosen) => {
                    &&& runs_node(chosen, component_id, node_id, mode)
                    &&& exists|i: int|
                        0 <= i < artifacts.len() && compatible[i] && (#[trigger] artifacts[i])
                            == chosen
                    &&& fits && mode is CausalSequence ==> other.lane_tile_width
                        <= chosen.lane_tile_width
                    &&& fits && mode is IndependentCandidates && other.lane_tile_width >= lanes
                        ==> lanes <= chosen.lane_tile_width <= other.lane_tile_width
                    &&& fits && mode is IndependentCandidates && chosen.lane_tile_width < lanes
                        ==> other.lane_tile_width <= chosen.lane_tile_width
                },
            }
        }),
{
    let p = serves(component_id, node_id, mode);
    the_best_kernel_is_selected(artifacts, compatible, p, mode, lanes);
    assert(p(artifacts[j]) <==> runs_node(artifacts[j], component_id, node_id, mode));
    match best_position(artifacts, compatible, p, mode, lanes) {
        Some(i) => {
            assert(p(artifacts[i]) <==> runs_node(artifacts[i], component_id, node_id, mode));
        },
        None => {},
    }
}

/// A stage is controlled by the width of its batch, one word. Sparse experts take a second word, and
/// what reads or commits a temporal state takes four.
pub proof fn stages_take_their_control(shader_path: Seq<char>)
    ensures
        text::holds_text(shader_path, "sparse_moe_"@) ==> stage_control_bytes(shader_path) == 2 * 4,
        !text::holds_text(shader_path, "sparse_moe_"@) && (text::holds_text(
            shader_path,
            "append_gqa_attention_temporal_read"@,
        ) || text::holds_text(shader_path, "append_kv_temporal_commit"@) || text::holds_text(
            shader_path,
            "parallel_head_norm_rope_2way_temporal"@,
        )) ==> stage_control_bytes(shader_path) == 4 * 4,
        stage_control_bytes(shader_path) == 4 || stage_control_bytes(shader_path) == 8
            || stage_control_bytes(shader_path) == 16,
        !text::holds_text(shader_path, "sparse_moe_"@) && !text::holds_text(
            shader_path,
            "append_gqa_attention_temporal_read"@,
        ) && !text::holds_text(shader_path, "append_kv_temporal_commit"@) && !text::holds_text(
            shader_path,
            "parallel_head_norm_rope_2way_temporal"@,
        ) ==> stage_control_bytes(shader_path) == 4,
{
}

/// What writes a state or views one changes it; nothing else does.
pub proof fn writes_and_views_change_states(usage: VulkanKernelDescriptorUsage)
    ensures
        changes_state()(usage) <==> usage is StateWrite || usage is StateView,
        usage is StateRead ==> !changes_state()(usage),
        usage is Parameter ==> !changes_state()(usage),
{
}

} // verus!
