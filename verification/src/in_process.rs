//! Running the devices of a model in one process: edges between them, and what is waited for.

use crate::device::VulkanComputeDevice;
use crate::device::VulkanComputeDeviceView;
use crate::device::VulkanDeviceDirectory;
use crate::device::VulkanError;
use crate::device::VulkanResidentBuffer;
use crate::device::VulkanResidentBufferView;
use crate::device;
use crate::dispatch_segment::VulkanMountedPlacedResidentDispatchSegmentRunner;
use crate::dispatch_segment::VulkanMountedPlacedResidentDispatchSegmentRunnerView;
use crate::distributed::runners::VulkanDistributedDispatchRunnerError;
use crate::distributed::runners::VulkanDistributedDispatchRunners;
use crate::distributed::runners::VulkanDistributedDispatchRunnersView;
use crate::distributed::runners;
use crate::edges::buffers as edge_buffers;
use crate::edges::buffers::VulkanPlacedEdgeBufferAllocation;
use crate::edges::buffers::VulkanPlacedEdgeBufferAllocationView;
use crate::edges::buffers::VulkanPlacedEdgeIoBuffers;
use crate::edges::buffers::VulkanPlacedEdgeIoBuffersView;
use crate::edges::transport::VulkanInProcessPlacedEdgeTransport;
use crate::edges::transport::VulkanInProcessPlacedEdgeTransportView;
use crate::edges::transport::VulkanPlacedEdgeTransportError;
use crate::edges::transport::VulkanPlacedEdgeTransportErrorView;
use crate::edges::transport;
use crate::ordered::OrderedMap;
use crate::ordered;
use crate::resident_dispatch::VulkanMountedPlacedResidentKernelDispatchError;
use crate::resident_dispatch::VulkanMountedPlacedResidentKernelDispatchErrorView;
use crate::resident_dispatch;
use crate::sequence;
use crate::stream_control::VulkanMountedPlacedStreamControl;
use crate::stream_control::VulkanStreamControlWrite;
use crate::stream_control::VulkanStreamControlWriteView;
use crate::stream_control;
use crate::text::Message;
use crate::text;
use vstd::prelude::*;

verus! {

/// Why a tick of one device cannot go on.
#[derive(Debug, PartialEq, Eq)]
pub enum VulkanMountedPlacedResidentStreamTickError {
    Transport(VulkanPlacedEdgeTransportError),
    Dispatch(VulkanMountedPlacedResidentKernelDispatchError),
    DynamicStateCapacityOverflow { capacity: usize },
}

#[verifier::ext_equal]
pub enum VulkanMountedPlacedResidentStreamTickErrorView {
    Transport(VulkanPlacedEdgeTransportErrorView),
    Dispatch(VulkanMountedPlacedResidentKernelDispatchErrorView),
    DynamicStateCapacityOverflow { capacity: usize },
}

impl DeepView for VulkanMountedPlacedResidentStreamTickError {
    type V = VulkanMountedPlacedResidentStreamTickErrorView;

    open spec fn deep_view(&self) -> VulkanMountedPlacedResidentStreamTickErrorView {
        match self {
            VulkanMountedPlacedResidentStreamTickError::Transport(value) => VulkanMountedPlacedResidentStreamTickErrorView::Transport(value.deep_view()),
            VulkanMountedPlacedResidentStreamTickError::Dispatch(value) => VulkanMountedPlacedResidentStreamTickErrorView::Dispatch(value.deep_view()),
            VulkanMountedPlacedResidentStreamTickError::DynamicStateCapacityOverflow { capacity } => VulkanMountedPlacedResidentStreamTickErrorView::DynamicStateCapacityOverflow { capacity: *capacity },
        }
    }
}

impl View for VulkanMountedPlacedResidentStreamTickError {
    type V = VulkanMountedPlacedResidentStreamTickErrorView;

    open spec fn view(&self) -> VulkanMountedPlacedResidentStreamTickErrorView {
        self.deep_view()
    }
}

impl Clone for VulkanMountedPlacedResidentStreamTickError {
    fn clone(&self) -> (r: Self)
        ensures
            r@ == self@,
    {
        match self {
            VulkanMountedPlacedResidentStreamTickError::Transport(value) => VulkanMountedPlacedResidentStreamTickError::Transport(value.clone()),
            VulkanMountedPlacedResidentStreamTickError::Dispatch(value) => VulkanMountedPlacedResidentStreamTickError::Dispatch(value.clone()),
            VulkanMountedPlacedResidentStreamTickError::DynamicStateCapacityOverflow { capacity } => VulkanMountedPlacedResidentStreamTickError::DynamicStateCapacityOverflow { capacity: *capacity },
        }
    }
}

/// What is said of it.
pub open spec fn stream_tick_message(error: VulkanMountedPlacedResidentStreamTickErrorView) -> Seq<
    char,
> {
    match error {
        VulkanMountedPlacedResidentStreamTickErrorView::Transport(error) => {
            transport::transport_message(error)
        },
        VulkanMountedPlacedResidentStreamTickErrorView::Dispatch(error) => {
            resident_dispatch::launch_message(error)
        },
        VulkanMountedPlacedResidentStreamTickErrorView::DynamicStateCapacityOverflow {
            capacity,
        } => "dynamic state capacity "@ + text::decimal(capacity as nat) + " exceeds u32"@,
    }
}

impl VulkanMountedPlacedResidentStreamTickError {
    /// What is wrong.
    pub fn to_string(&self) -> (r: String)
        ensures
            r@ == stream_tick_message(self@),
    {
        match self {
            VulkanMountedPlacedResidentStreamTickError::Transport(error) => error.to_string(),
            VulkanMountedPlacedResidentStreamTickError::Dispatch(error) => error.to_string(),
            VulkanMountedPlacedResidentStreamTickError::DynamicStateCapacityOverflow {
                capacity,
            } => Message::new("dynamic state capacity ").number(*capacity).text(
                " exceeds u32",
            ).done(),
        }
    }
}

/// Why a tick of devices in one process cannot go on.
#[derive(Debug, PartialEq, Eq)]
pub enum VulkanMountedPlacedResidentInProcessStreamTickError {
    StreamTick(VulkanMountedPlacedResidentStreamTickError),
    Distributed(VulkanDistributedDispatchRunnerError),
    Schedule(VulkanError),
}

#[verifier::ext_equal]
pub enum VulkanMountedPlacedResidentInProcessStreamTickErrorView {
    StreamTick(VulkanMountedPlacedResidentStreamTickErrorView),
    Distributed(Seq<char>),
    Schedule(Seq<char>),
}

impl DeepView for VulkanMountedPlacedResidentInProcessStreamTickError {
    type V = VulkanMountedPlacedResidentInProcessStreamTickErrorView;

    open spec fn deep_view(&self) -> VulkanMountedPlacedResidentInProcessStreamTickErrorView {
        match self {
            VulkanMountedPlacedResidentInProcessStreamTickError::StreamTick(value) => VulkanMountedPlacedResidentInProcessStreamTickErrorView::StreamTick(value.deep_view()),
            VulkanMountedPlacedResidentInProcessStreamTickError::Distributed(value) => VulkanMountedPlacedResidentInProcessStreamTickErrorView::Distributed(value.deep_view()),
            VulkanMountedPlacedResidentInProcessStreamTickError::Schedule(value) => VulkanMountedPlacedResidentInProcessStreamTickErrorView::Schedule(value.deep_view()),
        }
    }
}

impl View for VulkanMountedPlacedResidentInProcessStreamTickError {
    type V = VulkanMountedPlacedResidentInProcessStreamTickErrorView;

    open spec fn view(&self) -> VulkanMountedPlacedResidentInProcessStreamTickErrorView {
        self.deep_view()
    }
}

impl Clone for VulkanMountedPlacedResidentInProcessStreamTickError {
    fn clone(&self) -> (r: Self)
        ensures
            r@ == self@,
    {
        match self {
            VulkanMountedPlacedResidentInProcessStreamTickError::StreamTick(value) => VulkanMountedPlacedResidentInProcessStreamTickError::StreamTick(value.clone()),
            VulkanMountedPlacedResidentInProcessStreamTickError::Distributed(value) => VulkanMountedPlacedResidentInProcessStreamTickError::Distributed(value.clone()),
            VulkanMountedPlacedResidentInProcessStreamTickError::Schedule(value) => VulkanMountedPlacedResidentInProcessStreamTickError::Schedule(value.clone()),
        }
    }
}

/// What is said of it.
pub open spec fn in_process_message(error: VulkanMountedPlacedResidentInProcessStreamTickErrorView) -> Seq<
    char,
> {
    match error {
        VulkanMountedPlacedResidentInProcessStreamTickErrorView::StreamTick(error) => {
            stream_tick_message(error)
        },
        VulkanMountedPlacedResidentInProcessStreamTickErrorView::Distributed(error) => error,
        VulkanMountedPlacedResidentInProcessStreamTickErrorView::Schedule(error) => error,
    }
}

impl VulkanMountedPlacedResidentInProcessStreamTickError {
    /// What is wrong.
    pub fn to_string(&self) -> (r: String)
        ensures
            r@ == in_process_message(self@),
    {
        match self {
            VulkanMountedPlacedResidentInProcessStreamTickError::StreamTick(error) => {
                error.to_string()
            },
            VulkanMountedPlacedResidentInProcessStreamTickError::Distributed(error) => {
                error.to_string()
            },
            VulkanMountedPlacedResidentInProcessStreamTickError::Schedule(error) => {
                error.to_string()
            },
        }
    }
}

impl vstd::std_specs::convert::FromSpecImpl<
    VulkanMountedPlacedResidentStreamTickError,
> for VulkanMountedPlacedResidentInProcessStreamTickError {
    open spec fn obeys_from_spec() -> bool {
        true
    }

    open spec fn from_spec(error: VulkanMountedPlacedResidentStreamTickError) -> Self {
        VulkanMountedPlacedResidentInProcessStreamTickError::StreamTick(error)
    }
}

impl From<
    VulkanMountedPlacedResidentStreamTickError,
> for VulkanMountedPlacedResidentInProcessStreamTickError {
    fn from(error: VulkanMountedPlacedResidentStreamTickError) -> (r: Self) {
        VulkanMountedPlacedResidentInProcessStreamTickError::StreamTick(error)
    }
}

// ---------------------------------------------------------------------------
// Edges between the devices
// ---------------------------------------------------------------------------

/// A device's share of a tick, with the buffers of its edges.
#[derive(Debug, PartialEq, Eq)]
pub struct VulkanInProcessEdgeSlice {
    pub device_id: String,
    pub edge_io: VulkanPlacedEdgeIoBuffers,
}

#[verifier::ext_equal]
pub struct VulkanInProcessEdgeSliceView {
    pub device_id: Seq<char>,
    pub edge_io: VulkanPlacedEdgeIoBuffersView,
}

impl DeepView for VulkanInProcessEdgeSlice {
    type V = VulkanInProcessEdgeSliceView;

    open spec fn deep_view(&self) -> VulkanInProcessEdgeSliceView {
        VulkanInProcessEdgeSliceView {
            device_id: self.device_id.deep_view(),
            edge_io: self.edge_io.deep_view(),
        }
    }
}

impl View for VulkanInProcessEdgeSlice {
    type V = VulkanInProcessEdgeSliceView;

    open spec fn view(&self) -> VulkanInProcessEdgeSliceView {
        self.deep_view()
    }
}

impl Clone for VulkanInProcessEdgeSlice {
    fn clone(&self) -> (r: Self)
        ensures
            r@ == self@,
    {
        VulkanInProcessEdgeSlice {
            device_id: self.device_id.clone(),
            edge_io: self.edge_io.clone(),
        }
    }
}

/// Whether a share is that of a device.
pub open spec fn on_device(device_id: Seq<char>) -> spec_fn(VulkanInProcessEdgeSliceView) -> bool {
    |slice: VulkanInProcessEdgeSliceView| slice.device_id == device_id
}

/// The other end of an outgoing edge, if it lies in this process.
pub open spec fn other_end(
    slices: Seq<VulkanInProcessEdgeSliceView>,
    outgoing: VulkanPlacedEdgeBufferAllocationView,
) -> Option<VulkanPlacedEdgeBufferAllocationView> {
    match sequence::find_first(slices, on_device(outgoing.endpoint.remote_device_id)) {
        None => None,
        Some(slice) => edge_buffers::endpoint_allocation_of(
            slice.edge_io.incoming_buffers,
            outgoing.endpoint.edge_index,
        ),
    }
}

/// What came of an attempt, and the transport after it.
pub type Registration = (
    Result<(), VulkanMountedPlacedResidentInProcessStreamTickErrorView>,
    VulkanInProcessPlacedEdgeTransportView,
);

/// The first `n` outgoing edges of a device, registered as direct where their other end lies in this
/// process.
pub open spec fn edges_registered(
    given: VulkanInProcessPlacedEdgeTransportView,
    slices: Seq<VulkanInProcessEdgeSliceView>,
    outgoing: Seq<VulkanPlacedEdgeBufferAllocationView>,
    same_buffer: Seq<bool>,
    created: Seq<Result<(), Seq<char>>>,
    n: nat,
) -> Registration
    decreases n,
{
    if n == 0 {
        (Ok(()), given)
    } else {
        let (before, state) = edges_registered(
            given,
            slices,
            outgoing,
            same_buffer,
            created,
            (n - 1) as nat,
        );
        if before is Err {
            (before, state)
        } else {
            match other_end(slices, outgoing[n - 1]) {
                None => (before, state),
                Some(incoming) => {
                    let (outcome, after) = transport::registered(
                        state,
                        outgoing[n - 1],
                        incoming,
                        same_buffer[n - 1],
                        created[n - 1],
                    );
                    match outcome {
                        Err(error) => (
                            Err(
                                VulkanMountedPlacedResidentInProcessStreamTickErrorView::StreamTick(
                                    VulkanMountedPlacedResidentStreamTickErrorView::Transport(
                                        error,
                                    ),
                                ),
                            ),
                            after,
                        ),
                        Ok(_) => (Ok(()), after),
                    }
                },
            }
        }
    }
}

/// The outgoing edges of the first `n` devices, registered as direct where their other end lies in
/// this process.
pub open spec fn slices_registered(
    given: VulkanInProcessPlacedEdgeTransportView,
    slices: Seq<VulkanInProcessEdgeSliceView>,
    same_buffer: Seq<Seq<bool>>,
    created: Seq<Seq<Result<(), Seq<char>>>>,
    n: nat,
) -> Registration
    decreases n,
{
    if n == 0 {
        (Ok(()), given)
    } else {
        let (before, state) = slices_registered(
            given,
            slices,
            same_buffer,
            created,
            (n - 1) as nat,
        );
        if before is Err {
            (before, state)
        } else {
            edges_registered(
                state,
                slices,
                slices[n - 1].edge_io.outgoing_buffers,
                same_buffer[n - 1],
                created[n - 1],
                slices[n - 1].edge_io.outgoing_buffers.len(),
            )
        }
    }
}

proof fn lemma_edges_registered_stop(
    given: VulkanInProcessPlacedEdgeTransportView,
    slices: Seq<VulkanInProcessEdgeSliceView>,
    outgoing: Seq<VulkanPlacedEdgeBufferAllocationView>,
    same_buffer: Seq<bool>,
    created: Seq<Result<(), Seq<char>>>,
    i: nat,
    n: nat,
)
    requires
        i <= n,
        edges_registered(given, slices, outgoing, same_buffer, created, i).0 is Err,
    ensures
        edges_registered(given, slices, outgoing, same_buffer, created, n) == edges_registered(
            given,
            slices,
            outgoing,
            same_buffer,
            created,
            i,
        ),
    decreases n - i,
{
    if i < n {
        lemma_edges_registered_stop(given, slices, outgoing, same_buffer, created, i + 1, n);
    }
}

proof fn lemma_slices_registered_stop(
    given: VulkanInProcessPlacedEdgeTransportView,
    slices: Seq<VulkanInProcessEdgeSliceView>,
    same_buffer: Seq<Seq<bool>>,
    created: Seq<Seq<Result<(), Seq<char>>>>,
    i: nat,
    n: nat,
)
    requires
        i <= n,
        slices_registered(given, slices, same_buffer, created, i).0 is Err,
    ensures
        slices_registered(given, slices, same_buffer, created, n) == slices_registered(
            given,
            slices,
            same_buffer,
            created,
            i,
        ),
    decreases n - i,
{
    if i < n {
        lemma_slices_registered_stop(given, slices, same_buffer, created, i + 1, n);
    }
}

/// The values of a table of outcomes.
pub open spec fn outcome_table(table: Seq<Vec<Result<(), VulkanError>>>) -> Seq<
    Seq<Result<(), Seq<char>>>,
> {
    Seq::new(table.len(), |i: int| sequence::outcomes(table[i]@))
}

#[verifier::loop_isolation(false)]
fn find_slice<'a>(slices: &'a Vec<VulkanInProcessEdgeSlice>, device_id: &str) -> (r: Option<
    &'a VulkanInProcessEdgeSlice,
>)
    ensures
        r.deep_view() == sequence::find_first(slices.deep_view(), on_device(device_id@)),
{
    let ghost all = slices.deep_view();
    let ghost p = on_device(device_id@);
    let mut i: usize = 0;
    while i < slices.len()
        invariant
            i <= slices.len(),
            forall|j: int| 0 <= j < i ==> !p(#[trigger] all[j]),
        decreases slices.len() - i,
    {
        let item = &slices[i];
        assert(all[i as int] == item.deep_view());
        if text::same(item.device_id.as_str(), device_id) {
            proof {
                sequence::lemma_find_first_at(all, p, i as int);
            }
            return Some(item);
        }
        i += 1;
    }
    proof {
        sequence::lemma_find_first_none(all, p);
    }
    None
}

#[verifier::loop_isolation(false)]
fn register_edges(
    slices: &Vec<VulkanInProcessEdgeSlice>,
    outgoing_buffers: &Vec<VulkanPlacedEdgeBufferAllocation>,
    same_buffer: &Vec<bool>,
    created: &Vec<Result<(), VulkanError>>,
    edge_transport: &mut VulkanInProcessPlacedEdgeTransport,
) -> (r: Result<(), VulkanMountedPlacedResidentInProcessStreamTickError>)
    requires
        old(edge_transport).valid(),
        same_buffer@.len() >= outgoing_buffers@.len(),
        created@.len() >= outgoing_buffers@.len(),
    ensures
        final(edge_transport).valid(),
        (sequence::outcome(r), final(edge_transport)@) == edges_registered(
            old(edge_transport)@,
            slices.deep_view(),
            outgoing_buffers.deep_view(),
            same_buffer@,
            sequence::outcomes(created@),
            outgoing_buffers@.len(),
        ),
{
    let ghost given = edge_transport@;
    let ghost all = slices.deep_view();
    let ghost outgoing = outgoing_buffers.deep_view();
    let ghost answers = sequence::outcomes(created@);
    let mut i: usize = 0;
    while i < outgoing_buffers.len()
        invariant
            i <= outgoing_buffers.len(),
            edge_transport.valid(),
            edges_registered(given, all, outgoing, same_buffer@, answers, i as nat).0 == Ok::<(), VulkanMountedPlacedResidentInProcessStreamTickErrorView>(()),
            edges_registered(given, all, outgoing, same_buffer@, answers, i as nat).1
                == edge_transport@,
        decreases outgoing_buffers.len() - i,
    {
        let edge = &outgoing_buffers[i];
        proof {
            assert(outgoing[i as int] == edge@);
            assert(answers[i as int] == sequence::outcome(created@[i as int]));
            if edges_registered(
                given,
                all,
                outgoing,
                same_buffer@,
                answers,
                (i + 1) as nat,
            ).0 is Err {
                lemma_edges_registered_stop(
                    given,
                    all,
                    outgoing,
                    same_buffer@,
                    answers,
                    (i + 1) as nat,
                    outgoing_buffers@.len(),
                );
            }
        }
        match find_slice(slices, edge.endpoint.remote_device_id.as_str()) {
            None => {},
            Some(slice) => {
                match slice.edge_io.incoming_buffer(edge.endpoint.edge_index) {
                    None => {},
                    Some(incoming) => {
                        match edge_transport.register_direct_edge_copy(
                            edge,
                            incoming,
                            same_buffer[i],
                            &created[i],
                        ) {
                            Err(error) => {
                                return Err(
                                    VulkanMountedPlacedResidentInProcessStreamTickError::from(
                                        VulkanMountedPlacedResidentStreamTickError::Transport(
                                            error,
                                        ),
                                    ),
                                );
                            },
                            Ok(()) => {},
                        }
                    },
                }
            },
        }
        i += 1;
    }
    Ok(())
}

/// Registers the edges between devices of this process as direct. For every outgoing edge of every
/// device, `same_buffer` tells whether both ends were given one buffer, and `created` is the device's
/// answer to creating the copy.
#[verifier::loop_isolation(false)]
pub fn register_in_process_direct_edge_copies(
    slices: &Vec<VulkanInProcessEdgeSlice>,
    same_buffer: &Vec<Vec<bool>>,
    created: &Vec<Vec<Result<(), VulkanError>>>,
    edge_transport: &mut VulkanInProcessPlacedEdgeTransport,
) -> (r: Result<(), VulkanMountedPlacedResidentInProcessStreamTickError>)
    requires
        old(edge_transport).valid(),
        same_buffer@.len() >= slices@.len(),
        created@.len() >= slices@.len(),
        forall|i: int|
            0 <= i < slices@.len() ==> (#[trigger] slices.deep_view()[i]).edge_io.outgoing_buffers.len()
                <= same_buffer@[i]@.len() && slices.deep_view()[i].edge_io.outgoing_buffers.len()
                <= created@[i]@.len(),
    ensures
        final(edge_transport).valid(),
        (sequence::outcome(r), final(edge_transport)@) == slices_registered(
            old(edge_transport)@,
            slices.deep_view(),
            same_buffer.deep_view(),
            outcome_table(created@),
            slices@.len(),
        ),
{
    let ghost given = edge_transport@;
    let ghost all = slices.deep_view();
    let ghost same = same_buffer.deep_view();
    let ghost answers = outcome_table(created@);
    let mut i: usize = 0;
    while i < slices.len()
        invariant
            i <= slices.len(),
            edge_transport.valid(),
            slices_registered(given, all, same, answers, i as nat).0 == Ok::<(), VulkanMountedPlacedResidentInProcessStreamTickErrorView>(()),
            slices_registered(given, all, same, answers, i as nat).1 == edge_transport@,
        decreases slices.len() - i,
    {
        let slice = &slices[i];
        proof {
            assert(all[i as int] == slice@);
            assert(answers[i as int] == sequence::outcomes(created@[i as int]@));
            assert(same[i as int] =~= same_buffer@[i as int]@);
            assert(slice@.edge_io.outgoing_buffers.len()
                == slice.edge_io.outgoing_buffers@.len());
            if slices_registered(given, all, same, answers, (i + 1) as nat).0 is Err {
                lemma_slices_registered_stop(
                    given,
                    all,
                    same,
                    answers,
                    (i + 1) as nat,
                    slices@.len(),
                );
            }
        }
        match register_edges(
            slices,
            &slice.edge_io.outgoing_buffers,
            &same_buffer[i],
            &created[i],
            edge_transport,
        ) {
            Err(error) => {
                return Err(error);
            },
            Ok(()) => {},
        }
        i += 1;
    }
    Ok(())
}

// ---------------------------------------------------------------------------
// What is waited for
// ---------------------------------------------------------------------------

/// What a device waits for before a tick goes on.
#[derive(Clone, Copy, Debug, PartialEq, Eq, Structural)]
pub enum VulkanCompactSliceWait {
    Nothing,
    DistributedDispatch { dispatch_index: usize },
    LastSegment,
}

impl DeepView for VulkanCompactSliceWait {
    type V = VulkanCompactSliceWait;

    open spec fn deep_view(&self) -> VulkanCompactSliceWait {
        *self
    }
}

/// The launches of a tick on one device: its segments, and the distributed launches by their stage.
#[derive(Debug, PartialEq, Eq)]
pub struct VulkanMountedPlacedResidentStreamTickExecutionPlan {
    pub dispatch_segments: Vec<VulkanMountedPlacedResidentDispatchSegmentRunner>,
    pub distributed_dispatch_stages: OrderedMap<usize, usize>,
}

#[verifier::ext_equal]
pub struct VulkanMountedPlacedResidentStreamTickExecutionPlanView {
    pub dispatch_segments: Seq<VulkanMountedPlacedResidentDispatchSegmentRunnerView>,
    pub distributed_dispatch_stages: Map<usize, usize>,
}

impl DeepView for VulkanMountedPlacedResidentStreamTickExecutionPlan {
    type V = VulkanMountedPlacedResidentStreamTickExecutionPlanView;

    open spec fn deep_view(&self) -> VulkanMountedPlacedResidentStreamTickExecutionPlanView {
        VulkanMountedPlacedResidentStreamTickExecutionPlanView {
            dispatch_segments: self.dispatch_segments.deep_view(),
            distributed_dispatch_stages: self.distributed_dispatch_stages.deep_view(),
        }
    }
}

impl View for VulkanMountedPlacedResidentStreamTickExecutionPlan {
    type V = VulkanMountedPlacedResidentStreamTickExecutionPlanView;

    open spec fn view(&self) -> VulkanMountedPlacedResidentStreamTickExecutionPlanView {
        self.deep_view()
    }
}

/// What is waited for after work was submitted: nothing where no completion is signalled, the
/// distributed launch that completes the work, or the last segment that was submitted.
pub open spec fn submitted_wait(
    signal_completion: bool,
    completion_dispatch: Option<usize>,
    segment_submitted: bool,
) -> VulkanCompactSliceWait {
    if !signal_completion {
        VulkanCompactSliceWait::Nothing
    } else if completion_dispatch is Some {
        VulkanCompactSliceWait::DistributedDispatch {
            dispatch_index: completion_dispatch->Some_0,
        }
    } else if segment_submitted {
        VulkanCompactSliceWait::LastSegment
    } else {
        VulkanCompactSliceWait::Nothing
    }
}

/// What is waited for at the end of a tick: the distributed launch where it comes last, or else the
/// last segment. A distributed launch is waited for by the launch that leads its group.
pub open spec fn terminal_wait(
    device_id: Seq<char>,
    plan: VulkanMountedPlacedResidentStreamTickExecutionPlanView,
    groups: VulkanDistributedDispatchRunnersView,
) -> VulkanCompactSliceWait {
    let stages = ordered::sorted_entries::<usize, usize>(plan.distributed_dispatch_stages);
    if stages.len() > 0 && (plan.dispatch_segments.len() == 0 || stages.last().0
        >= plan.dispatch_segments.last().end_stage_index) {
        VulkanCompactSliceWait::DistributedDispatch {
            dispatch_index: match runners::find_group(groups, device_id, stages.last().1) {
                Some(group) => group.dispatches.first().dispatch_index,
                None => stages.last().1,
            },
        }
    } else if plan.dispatch_segments.len() > 0 {
        VulkanCompactSliceWait::LastSegment
    } else {
        VulkanCompactSliceWait::Nothing
    }
}

/// What came of a wait, as the tick reports it.
pub open spec fn waited(
    wait: VulkanCompactSliceWait,
    distributed: Result<(), Seq<char>>,
    segment: Result<(), VulkanMountedPlacedResidentKernelDispatchErrorView>,
) -> Result<(), VulkanMountedPlacedResidentInProcessStreamTickErrorView> {
    match wait {
        VulkanCompactSliceWait::Nothing => Ok(()),
        VulkanCompactSliceWait::DistributedDispatch { .. } => match distributed {
            Ok(_) => Ok(()),
            Err(error) => Err(
                VulkanMountedPlacedResidentInProcessStreamTickErrorView::Distributed(error),
            ),
        },
        VulkanCompactSliceWait::LastSegment => match segment {
            Ok(_) => Ok(()),
            Err(error) => Err(
                VulkanMountedPlacedResidentInProcessStreamTickErrorView::StreamTick(
                    VulkanMountedPlacedResidentStreamTickErrorView::Dispatch(error),
                ),
            ),
        },
    }
}

/// What came of waiting for a distributed launch, from what the devices answered for its shards.
pub open spec fn distributed_wait(
    wait: VulkanCompactSliceWait,
    device_id: Seq<char>,
    devices: Seq<VulkanComputeDeviceView>,
    groups: VulkanDistributedDispatchRunnersView,
    shards: Seq<Result<(), Seq<char>>>,
) -> Result<(), Seq<char>> {
    match wait {
        VulkanCompactSliceWait::DistributedDispatch { dispatch_index } => runners::waited_dispatch(
            groups,
            device_id,
            dispatch_index,
            device::shard_directory(devices),
            shards,
        ),
        _ => Ok(()),
    }
}

/// Whether there is an answer for every shard that is waited for.
pub open spec fn shards_answered(
    wait: VulkanCompactSliceWait,
    device_id: Seq<char>,
    devices: Seq<VulkanComputeDeviceView>,
    groups: VulkanDistributedDispatchRunnersView,
    shards: nat,
) -> bool {
    wait matches VulkanCompactSliceWait::DistributedDispatch { dispatch_index }
        ==> match runners::resolved_runner(
        groups,
        device_id,
        dispatch_index,
        device::shard_directory(devices),
    ) {
        Ok(runner) => shards == runner.shards.len(),
        Err(_) => true,
    }
}

/// What came of a wait.
fn report_wait(
    wait: VulkanCompactSliceWait,
    device_id: &str,
    devices: &Vec<VulkanComputeDevice>,
    distributed_runners: &VulkanDistributedDispatchRunners,
    shards: &Vec<Result<(), VulkanError>>,
    segment: &Result<(), VulkanMountedPlacedResidentKernelDispatchError>,
) -> (r: Result<(), VulkanMountedPlacedResidentInProcessStreamTickError>)
    requires
        distributed_runners@.valid(),
        shards_answered(
            wait,
            device_id@,
            devices.deep_view(),
            distributed_runners@,
            shards@.len(),
        ),
    ensures
        sequence::outcome(r) == waited(
            wait,
            distributed_wait(
                wait,
                device_id@,
                devices.deep_view(),
                distributed_runners@,
                runners::device_outcomes(shards@),
            ),
            sequence::outcome(*segment),
        ),
{
    match wait {
        VulkanCompactSliceWait::Nothing => Ok(()),
        VulkanCompactSliceWait::DistributedDispatch { dispatch_index } => {
            let directory: VulkanDeviceDirectory = VulkanDeviceDirectory::of_shards(devices);
            match distributed_runners.wait_dispatch(device_id, dispatch_index, &directory, shards) {
                Ok(_) => Ok(()),
                Err(error) => Err(
                    VulkanMountedPlacedResidentInProcessStreamTickError::Distributed(error),
                ),
            }
        },
        VulkanCompactSliceWait::LastSegment => match segment {
            Ok(_) => Ok(()),
            Err(error) => Err(
                VulkanMountedPlacedResidentInProcessStreamTickError::from(
                    VulkanMountedPlacedResidentStreamTickError::Dispatch(error.clone()),
                ),
            ),
        },
    }
}

/// What is waited for after work was submitted.
pub fn compact_slice_submitted_wait(
    signal_completion: bool,
    completion_dispatch: Option<usize>,
    segment_submitted: bool,
) -> (r: VulkanCompactSliceWait)
    ensures
        r == submitted_wait(signal_completion, completion_dispatch, segment_submitted),
{
    if !signal_completion {
        return VulkanCompactSliceWait::Nothing;
    }
    match completion_dispatch {
        Some(dispatch_index) => VulkanCompactSliceWait::DistributedDispatch { dispatch_index },
        None => if segment_submitted {
            VulkanCompactSliceWait::LastSegment
        } else {
            VulkanCompactSliceWait::Nothing
        },
    }
}

/// The wait after work was submitted, from what came of waiting for the shards of the distributed
/// launch and for the segment.
pub fn wait_for_compact_slice_submitted_work(
    device_id: &str,
    devices: &Vec<VulkanComputeDevice>,
    distributed_runners: &VulkanDistributedDispatchRunners,
    signal_completion: bool,
    completion_dispatch: Option<usize>,
    segment_submitted: bool,
    shards: &Vec<Result<(), VulkanError>>,
    segment: &Result<(), VulkanMountedPlacedResidentKernelDispatchError>,
) -> (r: Result<(), VulkanMountedPlacedResidentInProcessStreamTickError>)
    requires
        distributed_runners@.valid(),
        shards_answered(
            submitted_wait(signal_completion, completion_dispatch, segment_submitted),
            device_id@,
            devices.deep_view(),
            distributed_runners@,
            shards@.len(),
        ),
    ensures
        ({
            let wait = submitted_wait(signal_completion, completion_dispatch, segment_submitted);
            sequence::outcome(r) == waited(
                wait,
                distributed_wait(
                    wait,
                    device_id@,
                    devices.deep_view(),
                    distributed_runners@,
                    runners::device_outcomes(shards@),
                ),
                sequence::outcome(*segment),
            )
        }),
{
    report_wait(
        compact_slice_submitted_wait(signal_completion, completion_dispatch, segment_submitted),
        device_id,
        devices,
        distributed_runners,
        shards,
        segment,
    )
}

/// What is waited for at the end of a tick.
pub fn compact_execution_plan_terminal_wait(
    device_id: &str,
    execution_plan: &VulkanMountedPlacedResidentStreamTickExecutionPlan,
    distributed_runners: &VulkanDistributedDispatchRunners,
) -> (r: VulkanCompactSliceWait)
    requires
        execution_plan.distributed_dispatch_stages.sorted(),
        distributed_runners@.valid(),
    ensures
        r == terminal_wait(device_id@, execution_plan@, distributed_runners@),
{
    let ghost entries = execution_plan.distributed_dispatch_stages.entries.deep_view();
    proof {
        ordered::lemma_sorted_entries::<usize, usize>(entries);
    }
    let stages: usize = execution_plan.distributed_dispatch_stages.entries.len();
    let segments: usize = execution_plan.dispatch_segments.len();
    assert(entries.len() == stages);
    assert(execution_plan@.dispatch_segments.len() == segments);
    if stages > 0 {
        let entry = &execution_plan.distributed_dispatch_stages.entries[stages - 1];
        let stage_index: usize = entry.0;
        let dispatch_index: usize = entry.1;
        assert(entries.last() == (stage_index, dispatch_index));
        if segments == 0 || stage_index >= execution_plan.dispatch_segments[segments
            - 1].end_stage_index {
            let leader: usize = match distributed_runners.leader_dispatch_index(
                device_id,
                dispatch_index,
            ) {
                Some(leader) => leader,
                None => dispatch_index,
            };
            return VulkanCompactSliceWait::DistributedDispatch { dispatch_index: leader };
        }
    }
    if segments > 0 {
        VulkanCompactSliceWait::LastSegment
    } else {
        VulkanCompactSliceWait::Nothing
    }
}

/// The wait at the end of a tick, from what came of waiting for the shards of the distributed launch
/// and for the segment.
pub fn wait_for_compact_execution_plan_terminal_work(
    device_id: &str,
    devices: &Vec<VulkanComputeDevice>,
    execution_plan: &VulkanMountedPlacedResidentStreamTickExecutionPlan,
    distributed_runners: &VulkanDistributedDispatchRunners,
    shards: &Vec<Result<(), VulkanError>>,
    segment: &Result<(), VulkanMountedPlacedResidentKernelDispatchError>,
) -> (r: Result<(), VulkanMountedPlacedResidentInProcessStreamTickError>)
    requires
        execution_plan.distributed_dispatch_stages.sorted(),
        distributed_runners@.valid(),
        shards_answered(
            terminal_wait(device_id@, execution_plan@, distributed_runners@),
            device_id@,
            devices.deep_view(),
            distributed_runners@,
            shards@.len(),
        ),
    ensures
        ({
            let wait = terminal_wait(device_id@, execution_plan@, distributed_runners@);
            sequence::outcome(r) == waited(
                wait,
                distributed_wait(
                    wait,
                    device_id@,
                    devices.deep_view(),
                    distributed_runners@,
                    runners::device_outcomes(shards@),
                ),
                sequence::outcome(*segment),
            )
        }),
{
    report_wait(
        compact_execution_plan_terminal_wait(device_id, execution_plan, distributed_runners),
        device_id,
        devices,
        distributed_runners,
        shards,
        segment,
    )
}

// ---------------------------------------------------------------------------
// Where the stream stands, for all devices at once
// ---------------------------------------------------------------------------

/// Where a device's share of a tick stands, and the buffer that tells its kernels.
#[derive(Debug, PartialEq, Eq)]
pub struct VulkanCompactSliceControl {
    pub capture_execution_trace: bool,
    pub stream_tick: u64,
    pub dynamic_state_capacity_activations: usize,
    pub buffer_id: usize,
    pub stream_control_buffer: VulkanResidentBuffer,
}

#[verifier::ext_equal]
pub struct VulkanCompactSliceControlView {
    pub capture_execution_trace: bool,
    pub stream_tick: u64,
    pub dynamic_state_capacity_activations: usize,
    pub buffer_id: usize,
    pub stream_control_buffer: VulkanResidentBufferView,
}

impl DeepView for VulkanCompactSliceControl {
    type V = VulkanCompactSliceControlView;

    open spec fn deep_view(&self) -> VulkanCompactSliceControlView {
        VulkanCompactSliceControlView {
            capture_execution_trace: self.capture_execution_trace,
            stream_tick: self.stream_tick,
            dynamic_state_capacity_activations: self.dynamic_state_capacity_activations,
            buffer_id: self.buffer_id,
            stream_control_buffer: self.stream_control_buffer.deep_view(),
        }
    }
}

impl View for VulkanCompactSliceControl {
    type V = VulkanCompactSliceControlView;

    open spec fn view(&self) -> VulkanCompactSliceControlView {
        self.deep_view()
    }
}

impl Clone for VulkanCompactSliceControl {
    fn clone(&self) -> (r: Self)
        ensures
            r@ == self@,
    {
        VulkanCompactSliceControl {
            capture_execution_trace: self.capture_execution_trace,
            stream_tick: self.stream_tick,
            dynamic_state_capacity_activations: self.dynamic_state_capacity_activations,
            buffer_id: self.buffer_id,
            stream_control_buffer: self.stream_control_buffer.clone(),
        }
    }
}

/// Whether a share runs without a trace.
pub open spec fn is_compact() -> spec_fn(VulkanCompactSliceControlView) -> bool {
    |slice: VulkanCompactSliceControlView| !slice.capture_execution_trace
}

/// Whether two shares are told by one buffer where they stand.
pub open spec fn one_buffer(
    a: VulkanCompactSliceControlView,
    b: VulkanCompactSliceControlView,
) -> bool {
    a.buffer_id == b.buffer_id || device::shares_host_allocation(
        a.stream_control_buffer,
        b.stream_control_buffer,
    )
}

/// Whether a share without a trace does not stand where the first one does.
pub open spec fn stands_elsewhere(first: VulkanCompactSliceControlView) -> spec_fn(
    VulkanCompactSliceControlView,
) -> bool {
    |slice: VulkanCompactSliceControlView|
        is_compact()(slice) && (!one_buffer(first, slice) || slice.stream_tick != first.stream_tick
            || slice.dynamic_state_capacity_activations != first.dynamic_state_capacity_activations)
}

/// What the shares without a trace are told, if there are any.
pub open spec fn shared_control(slices: Seq<VulkanCompactSliceControlView>) -> Result<
    Option<VulkanMountedPlacedStreamControl>,
    VulkanMountedPlacedResidentInProcessStreamTickErrorView,
> {
    match sequence::find_first(slices, is_compact()) {
        None => Ok(None),
        Some(first) => if first.dynamic_state_capacity_activations > u32::MAX {
            Err(
                VulkanMountedPlacedResidentInProcessStreamTickErrorView::StreamTick(
                    VulkanMountedPlacedResidentStreamTickErrorView::DynamicStateCapacityOverflow {
                        capacity: first.dynamic_state_capacity_activations,
                    },
                ),
            )
        } else if sequence::any(slices, stands_elsewhere(first)) {
            Err(
                VulkanMountedPlacedResidentInProcessStreamTickErrorView::Schedule(
                    "compact placed slices do not share one stream-control timeline"@,
                ),
            )
        } else {
            Ok(
                Some(
                    VulkanMountedPlacedStreamControl {
                        stream_tick: first.stream_tick,
                        control_flags: 0,
                        dynamic_state_capacity_activations:
                            first.dynamic_state_capacity_activations as u32,
                    },
                ),
            )
        },
    }
}

#[verifier::loop_isolation(false)]
fn first_compact(slices: &Vec<VulkanCompactSliceControl>) -> (r: Option<
    &VulkanCompactSliceControl,
>)
    ensures
        r.deep_view() == sequence::find_first(slices.deep_view(), is_compact()),
{
    let ghost all = slices.deep_view();
    let ghost p = is_compact();
    let mut i: usize = 0;
    while i < slices.len()
        invariant
            i <= slices.len(),
            forall|j: int| 0 <= j < i ==> !p(#[trigger] all[j]),
        decreases slices.len() - i,
    {
        let item = &slices[i];
        assert(all[i as int] == item.deep_view());
        if !item.capture_execution_trace {
            proof {
                sequence::lemma_find_first_at(all, p, i as int);
            }
            return Some(item);
        }
        i += 1;
    }
    proof {
        sequence::lemma_find_first_none(all, p);
    }
    None
}

#[verifier::loop_isolation(false)]
fn any_stands_elsewhere(
    slices: &Vec<VulkanCompactSliceControl>,
    first: &VulkanCompactSliceControl,
) -> (r: bool)
    ensures
        r == sequence::any(slices.deep_view(), stands_elsewhere(first@)),
{
    let ghost all = slices.deep_view();
    let ghost p = stands_elsewhere(first@);
    let mut i: usize = 0;
    while i < slices.len()
        invariant
            i <= slices.len(),
            forall|j: int| 0 <= j < i ==> !p(#[trigger] all[j]),
        decreases slices.len() - i,
    {
        let item = &slices[i];
        assert(all[i as int] == item.deep_view());
        if !item.capture_execution_trace && (!(first.buffer_id == item.buffer_id || first.stream_control_buffer.shares_host_allocation_with(&item.stream_control_buffer)) || item.stream_tick != first.stream_tick || item.dynamic_state_capacity_activations != first.dynamic_state_capacity_activations) {
            assert(p(all[i as int]));
            return true;
        }
        i += 1;
    }
    false
}

/// What the shares without a trace are told, if there are any.
pub fn compact_shared_stream_control(slices: &Vec<VulkanCompactSliceControl>) -> (r: Result<
    Option<VulkanMountedPlacedStreamControl>,
    VulkanMountedPlacedResidentInProcessStreamTickError,
>)
    ensures
        sequence::outcome(r) == shared_control(slices.deep_view()),
{
    let first: &VulkanCompactSliceControl = match first_compact(slices) {
        None => {
            return Ok(None);
        },
        Some(first) => first,
    };
    if first.dynamic_state_capacity_activations > u32::MAX as usize {
        return Err(
            VulkanMountedPlacedResidentInProcessStreamTickError::from(
                VulkanMountedPlacedResidentStreamTickError::DynamicStateCapacityOverflow {
                    capacity: first.dynamic_state_capacity_activations,
                },
            ),
        );
    }
    if any_stands_elsewhere(slices, first) {
        return Err(
            VulkanMountedPlacedResidentInProcessStreamTickError::Schedule(
                VulkanError(
                    "compact placed slices do not share one stream-control timeline".to_owned(),
                ),
            ),
        );
    }
    Ok(
        Some(
            VulkanMountedPlacedStreamControl {
                stream_tick: first.stream_tick,
                control_flags: 0,
                dynamic_state_capacity_activations: first.dynamic_state_capacity_activations as u32,
            },
        ),
    )
}

/// What the shares without a trace are told, and where it is written: into the control buffer of the
/// first of them.
pub open spec fn shared_control_write(slices: Seq<VulkanCompactSliceControlView>) -> Result<
    Option<VulkanStreamControlWriteView>,
    VulkanMountedPlacedResidentInProcessStreamTickErrorView,
> {
    match shared_control(slices) {
        Err(error) => Err(error),
        Ok(None) => Ok(None),
        Ok(Some(control)) => Ok(
            Some(
                stream_control::control_write(
                    sequence::find_first(slices, is_compact())->Some_0.stream_control_buffer,
                    control,
                ),
            ),
        ),
    }
}

/// What the shares without a trace are told, and where it is written.
pub fn compact_shared_stream_control_write(slices: &Vec<VulkanCompactSliceControl>) -> (r: Result<
    Option<VulkanStreamControlWrite>,
    VulkanMountedPlacedResidentInProcessStreamTickError,
>)
    ensures
        sequence::outcome(r) == shared_control_write(slices.deep_view()),
{
    match (compact_shared_stream_control(slices), first_compact(slices)) {
        (Err(error), _) => Err(error),
        (Ok(Some(control)), Some(first)) => Ok(
            Some(VulkanStreamControlWrite::into_buffer(&first.stream_control_buffer, control)),
        ),
        (Ok(_), _) => Ok(None),
    }
}

/// Tells the shares without a trace where they stand, from what came of writing it.
pub fn prepare_compact_shared_stream_control(
    slices: &Vec<VulkanCompactSliceControl>,
    written: &Result<(), VulkanError>,
) -> (r: Result<(), VulkanMountedPlacedResidentInProcessStreamTickError>)
    ensures
        sequence::outcome(r) == (match shared_control(slices.deep_view()) {
            Err(error) => Err(error),
            Ok(None) => Ok(()),
            Ok(Some(_)) => match sequence::outcome(*written) {
                Ok(_) => Ok(()),
                Err(error) => Err(
                    VulkanMountedPlacedResidentInProcessStreamTickErrorView::StreamTick(
                        VulkanMountedPlacedResidentStreamTickErrorView::Dispatch(
                            VulkanMountedPlacedResidentKernelDispatchErrorView::Vulkan(error),
                        ),
                    ),
                ),
            },
        }),
{
    match compact_shared_stream_control(slices) {
        Err(error) => Err(error),
        Ok(None) => Ok(()),
        Ok(Some(_)) => match written {
            Ok(_) => Ok(()),
            Err(error) => Err(
                VulkanMountedPlacedResidentInProcessStreamTickError::from(
                    VulkanMountedPlacedResidentStreamTickError::Dispatch(
                        VulkanMountedPlacedResidentKernelDispatchError::Vulkan(error.clone()),
                    ),
                ),
            ),
        },
    }
}

/// All shares without a trace are told the same: where they are told anything, each of them stands at
/// the tick that is written, with the capacity that is written.
pub proof fn compact_slices_share_one_timeline(
    slices: Seq<VulkanCompactSliceControlView>,
    i: int,
)
    requires
        shared_control(slices) is Ok,
        0 <= i < slices.len(),
        !slices[i].capture_execution_trace,
    ensures
        shared_control(slices)->Ok_0 is Some,
        shared_control(slices)->Ok_0->Some_0.stream_tick == slices[i].stream_tick,
        shared_control(slices)->Ok_0->Some_0.dynamic_state_capacity_activations
            == slices[i].dynamic_state_capacity_activations,
{
    if sequence::find_first(slices, is_compact()) is None {
        sequence::lemma_find_none_all(slices, is_compact());
        assert(is_compact()(slices[i]));
    }
    let first = sequence::find_first(slices, is_compact())->Some_0;
    assert(!stands_elsewhere(first)(slices[i]));
}

/// How the work of a device is submitted.
#[derive(Clone, Copy, Debug, PartialEq, Eq, Structural)]
pub struct VulkanPlacedSubmissionPolicy {
    pub write_stream_control: bool,
    pub signal_completion: bool,
    pub wait_for_completion: bool,
    pub feedback_lane: Option<usize>,
}

impl DeepView for VulkanPlacedSubmissionPolicy {
    type V = VulkanPlacedSubmissionPolicy;

    open spec fn deep_view(&self) -> VulkanPlacedSubmissionPolicy {
        *self
    }
}

impl VulkanPlacedSubmissionPolicy {
    /// Everything is written, signalled and waited for.
    pub fn synchronous() -> (r: Self)
        ensures
            r == (VulkanPlacedSubmissionPolicy {
                write_stream_control: true,
                signal_completion: true,
                wait_for_completion: true,
                feedback_lane: None,
            }),
    {
        VulkanPlacedSubmissionPolicy {
            write_stream_control: true,
            signal_completion: true,
            wait_for_completion: true,
            feedback_lane: None,
        }
    }
}

/// A slice that signals its completion waits for what it submitted last: for the distributed dispatch
/// that completes it, where there is one, else for its last segment, if it submitted any. A slice that
/// does not signal waits for nothing.
pub proof fn slices_wait_for_what_completes_them(
    signal_completion: bool,
    completion_dispatch: Option<usize>,
    segment_submitted: bool,
)
    ensures
        ({
            let wait = submitted_wait(signal_completion, completion_dispatch, segment_submitted);
            &&& !signal_completion ==> wait is Nothing
            &&& signal_completion ==> {
                &&& completion_dispatch matches Some(d) ==> wait
                    == (VulkanCompactSliceWait::DistributedDispatch { dispatch_index: d })
                &&& completion_dispatch is None ==> (wait is LastSegment <==> segment_submitted)
                &&& completion_dispatch is None ==> (wait is Nothing <==> !segment_submitted)
            }
        }),
{
}

/// At its end a plan waits for what ends last. That is its last segment, where every distributed
/// stage lies before the segment's end; else it is the last distributed stage, by the dispatch that
/// leads its group. A plan without stages and segments waits for nothing.
pub proof fn plans_wait_for_what_ends_last(
    device_id: Seq<char>,
    plan: VulkanMountedPlacedResidentStreamTickExecutionPlanView,
    groups: VulkanDistributedDispatchRunnersView,
)
    requires
        plan.distributed_dispatch_stages.dom().finite(),
    ensures
        ({
            let stages = plan.distributed_dispatch_stages;
            let segments = plan.dispatch_segments;
            match terminal_wait(device_id, plan, groups) {
                VulkanCompactSliceWait::Nothing => {
                    &&& segments.len() == 0
                    &&& forall|stage: usize| !stages.contains_key(stage)
                },
                VulkanCompactSliceWait::LastSegment => {
                    &&& segments.len() > 0
                    &&& forall|stage: usize| #[trigger]
                        stages.contains_key(stage) ==> stage < segments[segments.len()
                            - 1].end_stage_index
                },
                VulkanCompactSliceWait::DistributedDispatch { dispatch_index } => exists|
                    last: usize,
                |
                    {
                        &&& #[trigger] stages.contains_key(last)
                        &&& forall|stage: usize| #[trigger]
                            stages.contains_key(stage) ==> stage <= last
                        &&& segments.len() > 0 ==> last >= segments[segments.len()
                            - 1].end_stage_index
                        &&& match runners::find_group(groups, device_id, stages[last]) {
                            Some(group) => dispatch_index == group.dispatches[0].dispatch_index,
                            None => dispatch_index == stages[last],
                        }
                    },
            }
        }),
{
    let stages = plan.distributed_dispatch_stages;
    let entries = ordered::sorted_entries::<usize, usize>(stages);
    ordered::sorting_keeps_the_entries::<usize, usize>(stages);
    ordered::lemma_increasing_entries::<usize, usize>(entries);
    let keys = ordered::keys_of(entries);
    assert forall|stage: usize| #[trigger] stages.contains_key(stage) implies entries.len() > 0
        && stage <= entries.last().0 by {
        let j = choose|j: int|
            0 <= j < entries.len() && (#[trigger] entries[j]).0 == stage && entries[j].1
                == ordered::map_of(entries)[stage];
        if j < entries.len() - 1 {
            assert(<usize as ordered::SortKey>::before(keys[j], keys[entries.len() - 1]));
        }
    }
    if entries.len() > 0 {
        let last = entries[entries.len() - 1].0;
        assert(stages.contains_key(last));
        assert(stages[last] == entries.last().1);
    }
}

/// What a slice waits for decides which failure it reports: that of the distributed dispatch or that
/// of its segment, and none where it waits for nothing.
pub proof fn waits_report_what_they_wait_for(
    wait: VulkanCompactSliceWait,
    distributed: Result<(), Seq<char>>,
    segment: Result<(), VulkanMountedPlacedResidentKernelDispatchErrorView>,
)
    ensures
        wait is Nothing ==> waited(wait, distributed, segment) is Ok,
        wait is DistributedDispatch ==> (waited(wait, distributed, segment) is Ok
            <==> distributed is Ok),
        wait is LastSegment ==> (waited(wait, distributed, segment) is Ok <==> segment is Ok),
{
}

/// The slices that are not traced are told where their stream stands through the buffer of the first
/// of them, without flags. Nothing is written where every slice is traced.
pub proof fn shared_control_is_written_once(slices: Seq<VulkanCompactSliceControlView>)
    requires
        shared_control_write(slices) is Ok,
    ensures
        match shared_control_write(slices)->Ok_0 {
            None => forall|i: int|
                0 <= i < slices.len() ==> (#[trigger] slices[i]).capture_execution_trace,
            Some(write) => exists|i: int|
                0 <= i < slices.len() && {
                    let first = #[trigger] slices[i];
                    &&& !first.capture_execution_trace
                    &&& forall|j: int|
                        0 <= j < i ==> (#[trigger] slices[j]).capture_execution_trace
                    &&& write.buffer == first.stream_control_buffer
                    &&& write.control.stream_tick == first.stream_tick
                    &&& write.control.control_flags == 0
                    &&& write.control.dynamic_state_capacity_activations
                        == first.dynamic_state_capacity_activations
                },
        },
{
    if sequence::find_first(slices, is_compact()) is Some {
        let i = sequence::lemma_find_first_some(slices, is_compact());
        assert(!slices[i].capture_execution_trace);
        assert forall|j: int| 0 <= j < i implies (
        #[trigger] slices[j]).capture_execution_trace by {
            assert(!is_compact()(slices[j]));
        }
    } else {
        sequence::lemma_find_none_all(slices, is_compact());
        assert forall|i: int| 0 <= i < slices.len() implies (
        #[trigger] slices[i]).capture_execution_trace by {
            assert(!is_compact()(slices[i]));
        }
    }
}

/// The other end of an outgoing edge lies on the device that the edge leads to, and is the incoming
/// end of the same edge.
pub proof fn other_ends_belong_to_the_same_edge(
    slices: Seq<VulkanInProcessEdgeSliceView>,
    outgoing: VulkanPlacedEdgeBufferAllocationView,
)
    ensures
        other_end(slices, outgoing) matches Some(incoming) ==> exists|s: int|
            0 <= s < slices.len() && {
                let slice = #[trigger] slices[s];
                &&& slice.device_id == outgoing.endpoint.remote_device_id
                &&& slice.edge_io.incoming_buffers.contains(incoming)
                &&& incoming.endpoint.edge_index == outgoing.endpoint.edge_index
            },
{
    if other_end(slices, outgoing) is Some {
        let s = sequence::lemma_find_first_some(
            slices,
            on_device(outgoing.endpoint.remote_device_id),
        );
        let e = sequence::lemma_find_first_some(
            slices[s].edge_io.incoming_buffers,
            edge_buffers::of_edge(outgoing.endpoint.edge_index),
        );
        assert(slices[s].device_id == outgoing.endpoint.remote_device_id);
    }
}

} // verus!
