//! Compiled kernel artifacts and the families that share them.

use crate::kernel_interface::VulkanKernelScalarBinding;
#[allow(unused_imports)]
use crate::kernel_interface::VulkanKernelScalarBindingView;
use crate::kernel_interface;
use crate::kernel_interface::VulkanKernelDispatchCommand;
use crate::kernel_interface::VulkanKernelDispatchCommandView;
use crate::kernel_interface::VulkanKernelDispatchPlan;
use crate::kernel_signature;
use crate::kernel_signature::VulkanKernelDescriptorSlotSignature;
use crate::kernel_signature::VulkanKernelDispatchRef;
#[allow(unused_imports)]
use crate::kernel_signature::VulkanKernelDispatchRefView;
#[allow(unused_imports)]
use crate::kernel_signature::VulkanKernelDescriptorSlotSignatureView;
use crate::kernel_signature::VulkanReusableKernelKey;
use crate::kernel_signature::VulkanReusableKernelKeyView;
use crate::sequence;
use vstd::prelude::*;

verus! {

/// The schema of a manifest of reusable kernel artifacts.
pub const VULKAN_REUSABLE_KERNEL_ARTIFACT_MANIFEST_SCHEMA: &'static str =
    "nerve.vulkan_reusable_kernel_artifacts.v1";

/// A compiled kernel that serves one family of dispatches.
#[derive(Debug, PartialEq, Eq)]
pub struct VulkanReusableKernelArtifact {
    pub family_id: String,
    pub op: String,
    pub path: String,
    pub entry_point: String,
    pub local_size_x: u32,
    pub workgroup_count_x: u32,
    pub descriptor_signature: Vec<VulkanKernelDescriptorSlotSignature>,
    pub push_constants: Vec<VulkanKernelScalarBinding>,
    pub uses_stream_tick: bool,
}

#[verifier::ext_equal]
pub struct VulkanReusableKernelArtifactView {
    pub family_id: Seq<char>,
    pub op: Seq<char>,
    pub path: Seq<char>,
    pub entry_point: Seq<char>,
    pub local_size_x: u32,
    pub workgroup_count_x: u32,
    pub descriptor_signature: Seq<VulkanKernelDescriptorSlotSignatureView>,
    pub push_constants: Seq<VulkanKernelScalarBindingView>,
    pub uses_stream_tick: bool,
}

impl DeepView for VulkanReusableKernelArtifact {
    type V = VulkanReusableKernelArtifactView;

    open spec fn deep_view(&self) -> VulkanReusableKernelArtifactView {
        VulkanReusableKernelArtifactView {
            family_id: self.family_id.deep_view(),
            op: self.op.deep_view(),
            path: self.path.deep_view(),
            entry_point: self.entry_point.deep_view(),
            local_size_x: self.local_size_x,
            workgroup_count_x: self.workgroup_count_x,
            descriptor_signature: self.descriptor_signature.deep_view(),
            push_constants: self.push_constants.deep_view(),
            uses_stream_tick: self.uses_stream_tick,
        }
    }
}

impl View for VulkanReusableKernelArtifact {
    type V = VulkanReusableKernelArtifactView;

    open spec fn view(&self) -> VulkanReusableKernelArtifactView {
        self.deep_view()
    }
}

impl Clone for VulkanReusableKernelArtifact {
    fn clone(&self) -> (r: Self)
        ensures
            r@ == self@,
    {
        VulkanReusableKernelArtifact {
            family_id: self.family_id.clone(),
            op: self.op.clone(),
            path: self.path.clone(),
            entry_point: self.entry_point.clone(),
            local_size_x: self.local_size_x,
            workgroup_count_x: self.workgroup_count_x,
            descriptor_signature: self.descriptor_signature.clone(),
            push_constants: self.push_constants.clone(),
            uses_stream_tick: self.uses_stream_tick,
        }
    }
}

/// The artifacts that a package ships.
#[derive(Debug, PartialEq, Eq)]
pub struct VulkanReusableKernelArtifactManifest {
    pub schema: String,
    pub artifacts: Vec<VulkanReusableKernelArtifact>,
}

#[verifier::ext_equal]
pub struct VulkanReusableKernelArtifactManifestView {
    pub schema: Seq<char>,
    pub artifacts: Seq<VulkanReusableKernelArtifactView>,
}

impl DeepView for VulkanReusableKernelArtifactManifest {
    type V = VulkanReusableKernelArtifactManifestView;

    open spec fn deep_view(&self) -> VulkanReusableKernelArtifactManifestView {
        VulkanReusableKernelArtifactManifestView {
            schema: self.schema.deep_view(),
            artifacts: self.artifacts.deep_view(),
        }
    }
}

impl View for VulkanReusableKernelArtifactManifest {
    type V = VulkanReusableKernelArtifactManifestView;

    open spec fn view(&self) -> VulkanReusableKernelArtifactManifestView {
        self.deep_view()
    }
}

impl Clone for VulkanReusableKernelArtifactManifest {
    fn clone(&self) -> (r: Self)
        ensures
            r@ == self@,
    {
        VulkanReusableKernelArtifactManifest {
            schema: self.schema.clone(),
            artifacts: self.artifacts.clone(),
        }
    }
}

impl VulkanReusableKernelArtifactManifest {
    /// A manifest of these artifacts.
    pub fn new(artifacts: Vec<VulkanReusableKernelArtifact>) -> (r: Self)
        ensures
            r@.schema == VULKAN_REUSABLE_KERNEL_ARTIFACT_MANIFEST_SCHEMA@,
            r@.artifacts == artifacts.deep_view(),
    {
        VulkanReusableKernelArtifactManifest {
            schema: VULKAN_REUSABLE_KERNEL_ARTIFACT_MANIFEST_SCHEMA.to_owned(),
            artifacts,
        }
    }
}

/// The first artifact of a family.
pub open spec fn artifact_of_family(
    artifacts: Seq<VulkanReusableKernelArtifactView>,
    family_id: Seq<char>,
) -> Option<VulkanReusableKernelArtifactView> {
    crate::sequence::find_first(
        artifacts,
        |artifact: VulkanReusableKernelArtifactView| artifact.family_id == family_id,
    )
}

/// The first artifact of a family.
pub fn find_artifact<'a>(
    artifacts: &'a Vec<VulkanReusableKernelArtifact>,
    family_id: &String,
) -> (r: Option<&'a VulkanReusableKernelArtifact>)
    ensures
        r.deep_view() == artifact_of_family(artifacts.deep_view(), family_id@),
{
    let ghost all = artifacts.deep_view();
    let ghost p = |artifact: VulkanReusableKernelArtifactView| artifact.family_id == family_id@;
    let mut i: usize = 0;
    while i < artifacts.len()
        invariant
            i <= artifacts.len(),
            all == artifacts.deep_view(),
            p == (|artifact: VulkanReusableKernelArtifactView| artifact.family_id == family_id@),
            forall|j: int| 0 <= j < i ==> !p(#[trigger] all[j]),
        decreases artifacts.len() - i,
    {
        if artifacts[i].family_id == *family_id {
            assert(p(all[i as int]));
            proof {
                crate::sequence::lemma_find_first_at(all, p, i as int);
            }
            return Some(&artifacts[i]);
        }
        assert(!p(all[i as int]));
        i += 1;
    }
    proof {
        crate::sequence::lemma_find_first_none(all, p);
    }
    None
}

/// An artifact with its shader words.
#[derive(Debug, PartialEq, Eq)]
pub struct VulkanLoadedReusableKernelArtifact {
    pub artifact: VulkanReusableKernelArtifact,
    pub words: Vec<u32>,
}

#[verifier::ext_equal]
pub struct VulkanLoadedReusableKernelArtifactView {
    pub artifact: VulkanReusableKernelArtifactView,
    pub words: Seq<u32>,
}

impl DeepView for VulkanLoadedReusableKernelArtifact {
    type V = VulkanLoadedReusableKernelArtifactView;

    open spec fn deep_view(&self) -> VulkanLoadedReusableKernelArtifactView {
        VulkanLoadedReusableKernelArtifactView {
            artifact: self.artifact.deep_view(),
            words: self.words.deep_view(),
        }
    }
}

impl View for VulkanLoadedReusableKernelArtifact {
    type V = VulkanLoadedReusableKernelArtifactView;

    open spec fn view(&self) -> VulkanLoadedReusableKernelArtifactView {
        self.deep_view()
    }
}

impl Clone for VulkanLoadedReusableKernelArtifact {
    fn clone(&self) -> (r: Self)
        ensures
            r@ == self@,
    {
        VulkanLoadedReusableKernelArtifact {
            artifact: self.artifact.clone(),
            words: self.words.clone(),
        }
    }
}

/// The loaded artifacts of a package.
#[derive(Debug, PartialEq, Eq)]
pub struct VulkanLoadedReusableKernelArtifactManifest {
    pub schema: String,
    pub artifacts: Vec<VulkanLoadedReusableKernelArtifact>,
}

#[verifier::ext_equal]
pub struct VulkanLoadedReusableKernelArtifactManifestView {
    pub schema: Seq<char>,
    pub artifacts: Seq<VulkanLoadedReusableKernelArtifactView>,
}

impl DeepView for VulkanLoadedReusableKernelArtifactManifest {
    type V = VulkanLoadedReusableKernelArtifactManifestView;

    open spec fn deep_view(&self) -> VulkanLoadedReusableKernelArtifactManifestView {
        VulkanLoadedReusableKernelArtifactManifestView {
            schema: self.schema.deep_view(),
            artifacts: self.artifacts.deep_view(),
        }
    }
}

impl View for VulkanLoadedReusableKernelArtifactManifest {
    type V = VulkanLoadedReusableKernelArtifactManifestView;

    open spec fn view(&self) -> VulkanLoadedReusableKernelArtifactManifestView {
        self.deep_view()
    }
}

impl Clone for VulkanLoadedReusableKernelArtifactManifest {
    fn clone(&self) -> (r: Self)
        ensures
            r@ == self@,
    {
        VulkanLoadedReusableKernelArtifactManifest {
            schema: self.schema.clone(),
            artifacts: self.artifacts.clone(),
        }
    }
}

/// Whether a loaded artifact serves a family.
pub open spec fn serves_family(family_id: Seq<char>) -> spec_fn(
    VulkanLoadedReusableKernelArtifactView,
) -> bool {
    |loaded: VulkanLoadedReusableKernelArtifactView| loaded.artifact.family_id == family_id
}

/// The first loaded artifact of a family.
pub open spec fn loaded_artifact(
    manifest: VulkanLoadedReusableKernelArtifactManifestView,
    family_id: Seq<char>,
) -> Option<VulkanLoadedReusableKernelArtifactView> {
    crate::sequence::find_first(manifest.artifacts, serves_family(family_id))
}

impl VulkanLoadedReusableKernelArtifactManifest {
    /// The first loaded artifact of a family.
    #[verifier::loop_isolation(false)]
    pub fn artifact(&self, family_id: &str) -> (r: Option<&VulkanLoadedReusableKernelArtifact>)
        ensures
            r.deep_view() == loaded_artifact(self@, family_id@),
    {
        let ghost all = self.artifacts.deep_view();
        let ghost p = serves_family(family_id@);
        let mut i: usize = 0;
        while i < self.artifacts.len()
            invariant
                i <= self.artifacts.len(),
                forall|j: int| 0 <= j < i ==> !p(#[trigger] all[j]),
            decreases self.artifacts.len() - i,
        {
            assert(all[i as int] == self.artifacts@[i as int]@);
            if crate::text::same(self.artifacts[i].artifact.family_id.as_str(), family_id) {
                proof {
                    crate::sequence::lemma_find_first_at(all, p, i as int);
                }
                return Some(&self.artifacts[i]);
            }
            i += 1;
        }
        proof {
            crate::sequence::lemma_find_first_none(all, p);
        }
        None
    }
}

/// Launches that one kernel can serve, with the contract of that kernel.
#[derive(Debug, PartialEq, Eq)]
pub struct VulkanReusableKernelFamily {
    pub family_id: String,
    pub key: VulkanReusableKernelKey,
    pub command_refs: Vec<VulkanKernelDispatchRef>,
}

#[verifier::ext_equal]
pub struct VulkanReusableKernelFamilyView {
    pub family_id: Seq<char>,
    pub key: VulkanReusableKernelKeyView,
    pub command_refs: Seq<VulkanKernelDispatchRefView>,
}

impl DeepView for VulkanReusableKernelFamily {
    type V = VulkanReusableKernelFamilyView;

    open spec fn deep_view(&self) -> VulkanReusableKernelFamilyView {
        VulkanReusableKernelFamilyView {
            family_id: self.family_id.deep_view(),
            key: self.key.deep_view(),
            command_refs: self.command_refs.deep_view(),
        }
    }
}

impl View for VulkanReusableKernelFamily {
    type V = VulkanReusableKernelFamilyView;

    open spec fn view(&self) -> VulkanReusableKernelFamilyView {
        self.deep_view()
    }
}

impl Clone for VulkanReusableKernelFamily {
    fn clone(&self) -> (r: Self)
        ensures
            r@ == self@,
    {
        VulkanReusableKernelFamily {
            family_id: self.family_id.clone(),
            key: self.key.clone(),
            command_refs: self.command_refs.clone(),
        }
    }
}

/// The families of a stream's launches.
#[derive(Debug, PartialEq, Eq)]
pub struct VulkanReusableKernelPlan {
    pub families: Vec<VulkanReusableKernelFamily>,
}

#[verifier::ext_equal]
pub struct VulkanReusableKernelPlanView {
    pub families: Seq<VulkanReusableKernelFamilyView>,
}

impl DeepView for VulkanReusableKernelPlan {
    type V = VulkanReusableKernelPlanView;

    open spec fn deep_view(&self) -> VulkanReusableKernelPlanView {
        VulkanReusableKernelPlanView {
            families: self.families.deep_view(),
        }
    }
}

impl View for VulkanReusableKernelPlan {
    type V = VulkanReusableKernelPlanView;

    open spec fn view(&self) -> VulkanReusableKernelPlanView {
        self.deep_view()
    }
}

impl Clone for VulkanReusableKernelPlan {
    fn clone(&self) -> (r: Self)
        ensures
            r@ == self@,
    {
        VulkanReusableKernelPlan {
            families: self.families.clone(),
        }
    }
}

/// Whether a family has this name.
pub open spec fn family_named(family_id: Seq<char>) -> spec_fn(VulkanReusableKernelFamilyView) -> bool {
    |family: VulkanReusableKernelFamilyView| family.family_id == family_id
}

/// The families with one launch more: it joins its family, or founds it.
pub open spec fn with_launch(
    families: Seq<VulkanReusableKernelFamilyView>,
    command: VulkanKernelDispatchCommandView,
) -> Seq<VulkanReusableKernelFamilyView> {
    let key = kernel_signature::reusable_key(command);
    let family_id = kernel_signature::family_of_key(key);
    let command_ref = kernel_signature::dispatch_ref(command);
    match sequence::first_position(families, family_named(family_id)) {
        Some(i) => families.update(
            i,
            VulkanReusableKernelFamilyView {
                command_refs: families[i].command_refs.push(command_ref),
                ..families[i]
            },
        ),
        None => families.push(
            VulkanReusableKernelFamilyView { family_id, key, command_refs: seq![command_ref] },
        ),
    }
}

/// The families of launches, in the order in which they were founded.
pub open spec fn families_of(commands: Seq<VulkanKernelDispatchCommandView>) -> Seq<
    VulkanReusableKernelFamilyView,
>
    decreases commands.len(),
{
    if commands.len() == 0 {
        Seq::empty()
    } else {
        with_launch(families_of(commands.drop_last()), commands.last())
    }
}

#[verifier::loop_isolation(false)]
fn family_position(families: &Vec<VulkanReusableKernelFamily>, family_id: &str) -> (r: Option<usize>)
    ensures
        match r {
            Some(i) => i < families@.len() && sequence::first_position(
                families.deep_view(),
                family_named(family_id@),
            ) == Some(i as int),
            None => sequence::first_position(families.deep_view(), family_named(family_id@)) is None,
        },
{
    let ghost all = families.deep_view();
    let ghost p = family_named(family_id@);
    let mut i: usize = 0;
    while i < families.len()
        invariant
            i <= families.len(),
            forall|j: int| 0 <= j < i ==> !p(#[trigger] all[j]),
        decreases families.len() - i,
    {
        let item = &families[i];
        assert(all[i as int] == item.deep_view());
        if crate::text::same(item.family_id.as_str(), family_id) {
            proof {
                sequence::lemma_find_first_at(all, p, i as int);
            }
            return Some(i);
        }
        i += 1;
    }
    proof {
        sequence::lemma_find_first_none(all, p);
    }
    None
}

fn add_launch(families: &mut Vec<VulkanReusableKernelFamily>, command: &VulkanKernelDispatchCommand)
    ensures
        final(families).deep_view() == with_launch(old(families).deep_view(), command@),
{
    let ghost before = families.deep_view();
    let key: VulkanReusableKernelKey = VulkanReusableKernelKey::from_command(command);
    let family_id: String = key.family_id();
    let command_ref: VulkanKernelDispatchRef = VulkanKernelDispatchRef::from_command(command);
    let ghost added = command_ref@;
    match family_position(families, family_id.as_str()) {
        Some(i) => {
            let mut family: VulkanReusableKernelFamily = families[i].clone();
            let ghost refs = family.command_refs.deep_view();
            assert(before[i as int] == families@[i as int]@);
            family.command_refs.push(command_ref);
            assert(family.command_refs.deep_view() =~= refs.push(added));
            let ghost joined = family@;
            families.set(i, family);
            assert(families.deep_view() =~= before.update(i as int, joined));
        },
        None => {
            let mut command_refs: Vec<VulkanKernelDispatchRef> = Vec::new();
            command_refs.push(command_ref);
            assert(command_refs.deep_view() =~= seq![added]);
            let family = VulkanReusableKernelFamily { family_id, key, command_refs };
            let ghost founded = family@;
            families.push(family);
            assert(families.deep_view() =~= before.push(founded));
        },
    }
}

/// What a manifest offers for a family. Which artifact a family is linked to is a rule of this
/// library: the last that the manifest lists under the family's name.
pub open spec fn offers(
    manifest: VulkanReusableKernelArtifactManifestView,
    family: VulkanReusableKernelFamilyView,
) -> Option<VulkanReusableKernelArtifactView> {
    sequence::find_last(manifest.artifacts, compiled_for(family.family_id))
}

/// Whether an artifact keeps the contract of a family. What it must have in common with the family
/// is a rule of this library.
pub open spec fn keeps_contract(
    artifact: VulkanReusableKernelArtifactView,
    key: VulkanReusableKernelKeyView,
) -> bool {
    &&& artifact.op == key.op
    &&& artifact.descriptor_signature == key.descriptor_signature
    &&& artifact.push_constants == key.push_constants
    &&& artifact.uses_stream_tick == key.uses_stream_tick
}

/// Whether a manifest has no artifact for a family.
pub open spec fn lacks_artifact(manifest: VulkanReusableKernelArtifactManifestView) -> spec_fn(
    VulkanReusableKernelFamilyView,
) -> bool {
    |family: VulkanReusableKernelFamilyView| offers(manifest, family) is None
}

/// Whether the artifact that a manifest has for a family does not keep the family's contract.
pub open spec fn breaks_contract(manifest: VulkanReusableKernelArtifactManifestView) -> spec_fn(
    VulkanReusableKernelFamilyView,
) -> bool {
    |family: VulkanReusableKernelFamilyView|
        offers(manifest, family) is Some && !keeps_contract(
            offers(manifest, family)->Some_0,
            family.key,
        )
}

/// Whether a manifest has an artifact for a family that keeps its contract.
pub open spec fn has_kernel(manifest: VulkanReusableKernelArtifactManifestView) -> spec_fn(
    VulkanReusableKernelFamilyView,
) -> bool {
    |family: VulkanReusableKernelFamilyView|
        offers(manifest, family) is Some && keeps_contract(
            offers(manifest, family)->Some_0,
            family.key,
        )
}

/// How the families of a plan were linked to artifacts.
#[derive(Debug, PartialEq, Eq)]
pub struct VulkanLinkedReusableKernelPlan {
    pub linked_family_count: usize,
    pub missing_family_count: usize,
    pub incompatible_family_count: usize,
}

#[verifier::ext_equal]
pub struct VulkanLinkedReusableKernelPlanView {
    pub linked_family_count: usize,
    pub missing_family_count: usize,
    pub incompatible_family_count: usize,
}

impl DeepView for VulkanLinkedReusableKernelPlan {
    type V = VulkanLinkedReusableKernelPlanView;

    open spec fn deep_view(&self) -> VulkanLinkedReusableKernelPlanView {
        VulkanLinkedReusableKernelPlanView {
            linked_family_count: self.linked_family_count,
            missing_family_count: self.missing_family_count,
            incompatible_family_count: self.incompatible_family_count,
        }
    }
}

impl View for VulkanLinkedReusableKernelPlan {
    type V = VulkanLinkedReusableKernelPlanView;

    open spec fn view(&self) -> VulkanLinkedReusableKernelPlanView {
        self.deep_view()
    }
}

impl Clone for VulkanLinkedReusableKernelPlan {
    fn clone(&self) -> (r: Self)
        ensures
            r@ == self@,
    {
        VulkanLinkedReusableKernelPlan {
            linked_family_count: self.linked_family_count,
            missing_family_count: self.missing_family_count,
            incompatible_family_count: self.incompatible_family_count,
        }
    }
}

/// How the families of a plan are linked to a manifest, by the library's rules of what a manifest
/// offers for a family and of when an artifact keeps its contract.
pub open spec fn linked_plan(
    plan: VulkanReusableKernelPlanView,
    manifest: VulkanReusableKernelArtifactManifestView,
) -> VulkanLinkedReusableKernelPlanView {
    VulkanLinkedReusableKernelPlanView {
        linked_family_count: sequence::count(plan.families, has_kernel(manifest)) as usize,
        missing_family_count: sequence::count(plan.families, lacks_artifact(manifest)) as usize,
        incompatible_family_count: sequence::count(
            plan.families,
            breaks_contract(manifest),
        ) as usize,
    }
}

/// Whether every family has a compatible artifact.
pub open spec fn fully_linked(plan: VulkanLinkedReusableKernelPlanView) -> bool {
    plan.missing_family_count == 0 && plan.incompatible_family_count == 0
}

impl VulkanLinkedReusableKernelPlan {
    /// Whether every family has a compatible artifact.
    pub fn is_fully_linked(&self) -> (r: bool)
        ensures
            r == fully_linked(self@),
    {
        self.missing_family_count == 0 && self.incompatible_family_count == 0
    }
}

/// Which families of a plan have a kernel.
#[derive(Debug, PartialEq, Eq)]
pub struct VulkanReusableKernelCoverageReport {
    pub total_family_count: usize,
    pub covered_family_count: usize,
    pub missing_family_ids: Vec<String>,
}

#[verifier::ext_equal]
pub struct VulkanReusableKernelCoverageReportView {
    pub total_family_count: usize,
    pub covered_family_count: usize,
    pub missing_family_ids: Seq<Seq<char>>,
}

impl DeepView for VulkanReusableKernelCoverageReport {
    type V = VulkanReusableKernelCoverageReportView;

    open spec fn deep_view(&self) -> VulkanReusableKernelCoverageReportView {
        VulkanReusableKernelCoverageReportView {
            total_family_count: self.total_family_count,
            covered_family_count: self.covered_family_count,
            missing_family_ids: self.missing_family_ids.deep_view(),
        }
    }
}

impl View for VulkanReusableKernelCoverageReport {
    type V = VulkanReusableKernelCoverageReportView;

    open spec fn view(&self) -> VulkanReusableKernelCoverageReportView {
        self.deep_view()
    }
}

impl Clone for VulkanReusableKernelCoverageReport {
    fn clone(&self) -> (r: Self)
        ensures
            r@ == self@,
    {
        VulkanReusableKernelCoverageReport {
            total_family_count: self.total_family_count,
            covered_family_count: self.covered_family_count,
            missing_family_ids: self.missing_family_ids.clone(),
        }
    }
}

/// The families that are not among the available ones.
pub open spec fn uncovered(
    families: Seq<VulkanReusableKernelFamilyView>,
    available: Seq<Seq<char>>,
) -> Seq<Seq<char>>
    decreases families.len(),
{
    if families.len() == 0 {
        Seq::empty()
    } else {
        let front = uncovered(families.drop_last(), available);
        if available.contains(families.last().family_id) {
            front
        } else {
            front.push(families.last().family_id)
        }
    }
}

/// Which families of a plan have a kernel.
pub open spec fn coverage(
    plan: VulkanReusableKernelPlanView,
    available: Seq<Seq<char>>,
) -> VulkanReusableKernelCoverageReportView {
    VulkanReusableKernelCoverageReportView {
        total_family_count: plan.families.len() as usize,
        covered_family_count: (plan.families.len() - uncovered(plan.families, available).len()) as usize,
        missing_family_ids: uncovered(plan.families, available),
    }
}

#[verifier::loop_isolation(false)]
fn same_contract(artifact: &VulkanReusableKernelArtifact, key: &VulkanReusableKernelKey) -> (r: bool)
    ensures
        r == keeps_contract(artifact@, key@),
{
    artifact.op == key.op && kernel_signature::same_signatures(
        &artifact.descriptor_signature,
        &key.descriptor_signature,
    ) && kernel_interface::same_scalars(&artifact.push_constants, &key.push_constants)
        && artifact.uses_stream_tick == key.uses_stream_tick
}

impl VulkanReusableKernelPlan {
    /// Groups the launches of a stream by the kernels that can serve them.
    #[verifier::loop_isolation(false)]
    pub fn from_dispatch_plan(dispatch_plan: &VulkanKernelDispatchPlan) -> (r: Self)
        ensures
            r@.families == families_of(dispatch_plan@.commands),
    {
        let ghost all = dispatch_plan.commands.deep_view();
        let mut families: Vec<VulkanReusableKernelFamily> = Vec::new();
        let mut i: usize = 0;
        assert(families.deep_view() =~= families_of(all.take(0)));
        while i < dispatch_plan.commands.len()
            invariant
                i <= dispatch_plan.commands.len(),
                families.deep_view() == families_of(all.take(i as int)),
            decreases dispatch_plan.commands.len() - i,
        {
            assert(all.take(i + 1).drop_last() =~= all.take(i as int));
            assert(all[i as int] == dispatch_plan.commands@[i as int]@);
            add_launch(&mut families, &dispatch_plan.commands[i]);
            i += 1;
        }
        assert(all.take(all.len() as int) =~= all);
        VulkanReusableKernelPlan { families }
    }

    /// The number of families.
    pub fn total_family_count(&self) -> (r: usize)
        ensures
            r == self@.families.len(),
    {
        assert(self@.families.len() == self.families@.len());
        self.families.len()
    }

    /// Links the families to the artifacts of a manifest. The rules of which artifact serves which
    /// family are the library's own: see `keeps_contract`.
    #[verifier::loop_isolation(false)]
    pub fn link_artifacts(&self, manifest: &VulkanReusableKernelArtifactManifest) -> (r:
        VulkanLinkedReusableKernelPlan)
        ensures
            r@ == linked_plan(self@, manifest@),
    {
        let ghost all = self.families.deep_view();
        let mut linked_family_count: usize = 0;
        let mut missing_family_count: usize = 0;
        let mut incompatible_family_count: usize = 0;
        let mut i: usize = 0;
        assert(all.take(0) =~= Seq::empty());
        while i < self.families.len()
            invariant
                i <= self.families.len(),
                linked_family_count == sequence::count(all.take(i as int), has_kernel(manifest@)),
                missing_family_count == sequence::count(
                    all.take(i as int),
                    lacks_artifact(manifest@),
                ),
                incompatible_family_count == sequence::count(
                    all.take(i as int),
                    breaks_contract(manifest@),
                ),
                linked_family_count + missing_family_count + incompatible_family_count == i,
            decreases self.families.len() - i,
        {
            let family = &self.families[i];
            proof {
                assert(all[i as int] == family@);
                sequence::lemma_count_step(all, has_kernel(manifest@), i as int);
                sequence::lemma_count_step(all, lacks_artifact(manifest@), i as int);
                sequence::lemma_count_step(all, breaks_contract(manifest@), i as int);
            }
            match last_artifact(&manifest.artifacts, family.family_id.as_str()) {
                None => {
                    missing_family_count += 1;
                },
                Some(artifact) => {
                    if same_contract(artifact, &family.key) {
                        linked_family_count += 1;
                    } else {
                        incompatible_family_count += 1;
                    }
                },
            }
            i += 1;
        }
        assert(all.take(all.len() as int) =~= all);
        VulkanLinkedReusableKernelPlan {
            linked_family_count,
            missing_family_count,
            incompatible_family_count,
        }
    }

    /// Tells which families have a kernel among the available ones.
    #[verifier::loop_isolation(false)]
    pub fn coverage_report(&self, available_family_ids: &Vec<String>) -> (r:
        VulkanReusableKernelCoverageReport)
        ensures
            r@ == coverage(self@, available_family_ids.deep_view()),
    {
        let ghost all = self.families.deep_view();
        let ghost available = available_family_ids.deep_view();
        let mut missing_family_ids: Vec<String> = Vec::new();
        let mut i: usize = 0;
        assert(missing_family_ids.deep_view() =~= uncovered(all.take(0), available));
        while i < self.families.len()
            invariant
                i <= self.families.len(),
                missing_family_ids@.len() <= i,
                missing_family_ids.deep_view() == uncovered(all.take(i as int), available),
            decreases self.families.len() - i,
        {
            assert(all.take(i + 1).drop_last() =~= all.take(i as int));
            let family = &self.families[i];
            assert(all[i as int] == family@);
            if !sequence::contains_text(available_family_ids, family.family_id.as_str()) {
                let ghost before = missing_family_ids.deep_view();
                missing_family_ids.push(family.family_id.clone());
                assert(missing_family_ids.deep_view() =~= before.push(family@.family_id));
            }
            i += 1;
        }
        assert(all.take(all.len() as int) =~= all);
        assert(missing_family_ids.deep_view().len() == missing_family_ids@.len());
        VulkanReusableKernelCoverageReport {
            total_family_count: self.families.len(),
            covered_family_count: self.families.len() - missing_family_ids.len(),
            missing_family_ids,
        }
    }
}

proof fn lemma_link_sorts(
    families: Seq<VulkanReusableKernelFamilyView>,
    manifest: VulkanReusableKernelArtifactManifestView,
)
    ensures
        sequence::count(families, has_kernel(manifest)) + sequence::count(
            families,
            lacks_artifact(manifest),
        ) + sequence::count(families, breaks_contract(manifest)) == families.len(),
    decreases families.len(),
{
    if families.len() > 0 {
        lemma_link_sorts(families.drop_last(), manifest);
    }
}

/// Every family is linked, missing or incompatible.
pub proof fn link_counts_add_up(
    plan: VulkanReusableKernelPlanView,
    manifest: VulkanReusableKernelArtifactManifestView,
)
    requires
        plan.families.len() <= usize::MAX,
    ensures
        ({
            let linked = linked_plan(plan, manifest);
            linked.linked_family_count + linked.missing_family_count
                + linked.incompatible_family_count == plan.families.len()
        }),
{
    lemma_link_sorts(plan.families, manifest);
}

/// Every launch joins the family that its contract names, and families have distinct names.
pub proof fn launches_join_their_families(commands: Seq<VulkanKernelDispatchCommandView>, i: int)
    requires
        0 <= i < commands.len(),
    ensures
        ({
            let families = families_of(commands);
            let family_id = kernel_signature::family_of_key(
                kernel_signature::reusable_key(commands[i]),
            );
            &&& exists|f: int, r: int|
                0 <= f < families.len() && 0 <= r < families[f].command_refs.len()
                    && families[f].family_id == family_id
                    && (#[trigger] families[f].command_refs[r])
                    == kernel_signature::dispatch_ref(commands[i])
            &&& forall|f: int, g: int|
                0 <= f < g < families.len() ==> (#[trigger] families[f]).family_id != (
                #[trigger] families[g]).family_id
        }),
    decreases commands.len(),
{
    let front = commands.drop_last();
    let before = families_of(front);
    let families = families_of(commands);
    let command = commands.last();
    let key = kernel_signature::reusable_key(command);
    let family_id = kernel_signature::family_of_key(key);
    let command_ref = kernel_signature::dispatch_ref(command);
    let p = family_named(family_id);
    if front.len() > 0 {
        launches_join_their_families(
            front,
            if i < front.len() {
                i
            } else {
                0
            },
        );
    }
    let position = sequence::first_position(before, p);
    if position is Some {
        if sequence::find_first(before, p) is None {
            sequence::lemma_find_none_all(before, p);
        }
        let at = sequence::lemma_find_first_some(before, p);
        assert(position == Some(at));
        let last = before[at].command_refs.len() as int;
        assert(families[at].command_refs[last] == command_ref);
        if i < front.len() {
            let wanted = kernel_signature::family_of_key(
                kernel_signature::reusable_key(commands[i]),
            );
            assert(front[i] == commands[i]);
            let (f, r) = choose|f: int, r: int|
                0 <= f < before.len() && 0 <= r < before[f].command_refs.len()
                    && before[f].family_id == wanted && (#[trigger] before[f].command_refs[r])
                    == kernel_signature::dispatch_ref(commands[i]);
            assert(families[f].command_refs[r] == before[f].command_refs[r]);
        }
    } else {
        if sequence::find_first(before, p) is Some {
            let at = sequence::lemma_find_first_some(before, p);
        }
        sequence::lemma_find_none_all(before, p);
        let last = before.len() as int;
        assert(families[last].command_refs[0] == command_ref);
        assert forall|f: int, g: int| 0 <= f < g < families.len() implies (
        #[trigger] families[f]).family_id != (#[trigger] families[g]).family_id by {
            assert(families[f] == before[f]);
            assert(!p(before[f]));
        }
        if i < front.len() {
            let wanted = kernel_signature::family_of_key(
                kernel_signature::reusable_key(commands[i]),
            );
            assert(front[i] == commands[i]);
            let (f, r) = choose|f: int, r: int|
                0 <= f < before.len() && 0 <= r < before[f].command_refs.len()
                    && before[f].family_id == wanted && (#[trigger] before[f].command_refs[r])
                    == kernel_signature::dispatch_ref(commands[i]);
            assert(families[f].command_refs[r] == before[f].command_refs[r]);
        }
    }
}

/// Whether a launch has this number.
pub open spec fn ref_numbered(dispatch_index: usize) -> spec_fn(VulkanKernelDispatchRefView) -> bool {
    |command_ref: VulkanKernelDispatchRefView| command_ref.dispatch_index == dispatch_index
}

/// Whether a family serves a launch.
pub open spec fn serves_dispatch(dispatch_index: usize) -> spec_fn(
    VulkanReusableKernelFamilyView,
) -> bool {
    |family: VulkanReusableKernelFamilyView|
        sequence::any(family.command_refs, ref_numbered(dispatch_index))
}

/// Whether an artifact was compiled for a family.
pub open spec fn compiled_for(family_id: Seq<char>) -> spec_fn(VulkanReusableKernelArtifactView) -> bool {
    |artifact: VulkanReusableKernelArtifactView| artifact.family_id == family_id
}

impl VulkanReusableKernelFamily {
    /// Whether the family serves a launch.
    #[verifier::loop_isolation(false)]
    pub fn serves(&self, dispatch_index: usize) -> (r: bool)
        ensures
            r == serves_dispatch(dispatch_index)(self@),
    {
        let ghost all = self.command_refs.deep_view();
        let ghost p = ref_numbered(dispatch_index);
        let mut i: usize = 0;
        while i < self.command_refs.len()
            invariant
                i <= self.command_refs.len(),
                forall|j: int| 0 <= j < i ==> !p(#[trigger] all[j]),
            decreases self.command_refs.len() - i,
        {
            let item = &self.command_refs[i];
            assert(all[i as int] == item.deep_view());
            if item.dispatch_index == dispatch_index {
                assert(p(all[i as int]));
                return true;
            }
            i += 1;
        }
        false
    }
}

/// The last family that serves a launch.
#[verifier::loop_isolation(false)]
pub fn family_of_dispatch<'a>(
    families: &'a Vec<VulkanReusableKernelFamily>,
    dispatch_index: usize,
) -> (r: Option<&'a VulkanReusableKernelFamily>)
    ensures
        r.deep_view() == sequence::find_last(
            families.deep_view(),
            serves_dispatch(dispatch_index),
        ),
{
    let ghost all = families.deep_view();
    let ghost p = serves_dispatch(dispatch_index);
    let mut i: usize = families.len();
    while i > 0
        invariant
            i <= families.len(),
            forall|j: int| i <= j < all.len() ==> !p(#[trigger] all[j]),
        decreases i,
    {
        i -= 1;
        let item = &families[i];
        assert(all[i as int] == item.deep_view());
        if item.serves(dispatch_index) {
            proof {
                sequence::lemma_find_last_at(all, p, i as int);
            }
            return Some(item);
        }
    }
    proof {
        sequence::lemma_find_last_none(all, p);
    }
    None
}

/// The last artifact that was compiled for a family.
#[verifier::loop_isolation(false)]
pub fn last_artifact<'a>(
    artifacts: &'a Vec<VulkanReusableKernelArtifact>,
    family_id: &str,
) -> (r: Option<&'a VulkanReusableKernelArtifact>)
    ensures
        r.deep_view() == sequence::find_last(artifacts.deep_view(), compiled_for(family_id@)),
{
    let ghost all = artifacts.deep_view();
    let ghost p = compiled_for(family_id@);
    let mut i: usize = artifacts.len();
    while i > 0
        invariant
            i <= artifacts.len(),
            forall|j: int| i <= j < all.len() ==> !p(#[trigger] all[j]),
        decreases i,
    {
        i -= 1;
        let item = &artifacts[i];
        assert(all[i as int] == item.deep_view());
        if crate::text::same(item.family_id.as_str(), family_id) {
            proof {
                sequence::lemma_find_last_at(all, p, i as int);
            }
            return Some(item);
        }
    }
    proof {
        sequence::lemma_find_last_none(all, p);
    }
    None
}

/// A plan is fully linked exactly where every family has an artifact, and the last one that was
/// compiled for it does the family's operation over the same descriptors and push constants, and uses
/// the stream tick as the family does.
pub proof fn linked_families_keep_their_contract(
    plan: VulkanReusableKernelPlanView,
    manifest: VulkanReusableKernelArtifactManifestView,
    f: int,
)
    requires
        plan.families.len() <= usize::MAX,
        fully_linked(linked_plan(plan, manifest)),
        0 <= f < plan.families.len(),
    ensures
        exists|a: int|
            0 <= a < manifest.artifacts.len() && {
                let artifact = #[trigger] manifest.artifacts[a];
                let family = plan.families[f];
                &&& artifact.family_id == family.family_id
                &&& artifact.op == family.key.op
                &&& artifact.descriptor_signature == family.key.descriptor_signature
                &&& artifact.push_constants == family.key.push_constants
                &&& artifact.uses_stream_tick == family.key.uses_stream_tick
                &&& forall|b: int|
                    a < b < manifest.artifacts.len() ==> (#[trigger] manifest.artifacts[b]).family_id
                        != family.family_id
            },
{
    let family = plan.families[f];
    if lacks_artifact(manifest)(family) {
        lemma_counted(plan.families, lacks_artifact(manifest), f);
    }
    if breaks_contract(manifest)(family) {
        lemma_counted(plan.families, breaks_contract(manifest), f);
    }
    lemma_count_bound(plan.families, lacks_artifact(manifest));
    lemma_count_bound(plan.families, breaks_contract(manifest));
    let p = compiled_for(family.family_id);
    assert(!lacks_artifact(manifest)(family));
    assert(!breaks_contract(manifest)(family));
    let a = sequence::lemma_find_last_some(manifest.artifacts, p);
    assert(manifest.artifacts[a].family_id == family.family_id);
}

proof fn lemma_counted(
    families: Seq<VulkanReusableKernelFamilyView>,
    p: spec_fn(VulkanReusableKernelFamilyView) -> bool,
    f: int,
)
    requires
        0 <= f < families.len(),
        p(families[f]),
    ensures
        sequence::count(families, p) > 0,
    decreases families.len(),
{
    if f < families.len() - 1 {
        lemma_counted(families.drop_last(), p, f);
    }
}

proof fn lemma_count_bound(
    families: Seq<VulkanReusableKernelFamilyView>,
    p: spec_fn(VulkanReusableKernelFamilyView) -> bool,
)
    ensures
        sequence::count(families, p) <= families.len(),
    decreases families.len(),
{
    if families.len() > 0 {
        lemma_count_bound(families.drop_last(), p);
    }
}

proof fn lemma_uncovered(
    families: Seq<VulkanReusableKernelFamilyView>,
    available: Seq<Seq<char>>,
    k: int,
    f: int,
)
    ensures
        uncovered(families, available).len() <= families.len(),
        0 <= k < uncovered(families, available).len() ==> !available.contains(
            uncovered(families, available)[k],
        ),
        0 <= f < families.len() && !available.contains(families[f].family_id) ==> uncovered(
            families,
            available,
        ).contains(families[f].family_id),
    decreases families.len(),
{
    if families.len() > 0 {
        let front = uncovered(families.drop_last(), available);
        let after = uncovered(families, available);
        lemma_uncovered(families.drop_last(), available, k, f);
        if 0 <= f < families.len() - 1 && front.contains(families[f].family_id) {
            let i = choose|i: int| 0 <= i < front.len() && front[i] == families[f].family_id;
            assert(after[i] == families[f].family_id);
        } else if f == families.len() - 1 && after.len() > front.len() {
            assert(after[front.len() as int] == families[f].family_id);
        }
    }
}

/// The coverage of a plan counts every family once: as covered where its artifact is available, else
/// as missing, by its name.
pub proof fn coverage_counts_every_family(
    plan: VulkanReusableKernelPlanView,
    available: Seq<Seq<char>>,
    k: int,
    f: int,
)
    requires
        plan.families.len() <= usize::MAX,
    ensures
        ({
            let report = coverage(plan, available);
            &&& report.total_family_count == plan.families.len()
            &&& report.covered_family_count + report.missing_family_ids.len()
                == report.total_family_count
            &&& 0 <= k < report.missing_family_ids.len() ==> !available.contains(
                report.missing_family_ids[k],
            )
            &&& 0 <= f < plan.families.len() && !available.contains(plan.families[f].family_id)
                ==> report.missing_family_ids.contains(plan.families[f].family_id)
        }),
{
    lemma_uncovered(plan.families, available, k, f);
}

/// What was compiled or loaded for a family is found as the first of its kind.
pub proof fn artifacts_are_found_by_their_family(
    artifacts: Seq<VulkanReusableKernelArtifactView>,
    manifest: VulkanLoadedReusableKernelArtifactManifestView,
    family_id: Seq<char>,
    i: int,
)
    ensures
        artifact_of_family(artifacts, family_id) matches Some(artifact) ==> artifact.family_id
            == family_id && artifacts.contains(artifact),
        0 <= i < artifacts.len() && artifacts[i].family_id == family_id ==> artifact_of_family(
            artifacts,
            family_id,
        ) is Some,
        loaded_artifact(manifest, family_id) matches Some(loaded) ==> loaded.artifact.family_id
            == family_id && manifest.artifacts.contains(loaded),
        0 <= i < manifest.artifacts.len() && manifest.artifacts[i].artifact.family_id == family_id
            ==> loaded_artifact(manifest, family_id) is Some,
{
    let p = |artifact: VulkanReusableKernelArtifactView| artifact.family_id == family_id;
    if sequence::find_first(artifacts, p) is Some {
        let k = sequence::lemma_find_first_some(artifacts, p);
    } else {
        sequence::lemma_find_none_all(artifacts, p);
        if 0 <= i < artifacts.len() {
            assert(!p(artifacts[i]));
        }
    }
    let q = serves_family(family_id);
    if sequence::find_first(manifest.artifacts, q) is Some {
        let k = sequence::lemma_find_first_some(manifest.artifacts, q);
    } else {
        sequence::lemma_find_none_all(manifest.artifacts, q);
        if 0 <= i < manifest.artifacts.len() {
            assert(!q(manifest.artifacts[i]));
        }
    }
}

} // verus!
