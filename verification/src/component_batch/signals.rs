//! The signal buffers of a batch: which signals live when, and which of them share a buffer.

use crate::device::VulkanError;
use crate::ordered;
use crate::ordered::OrderedMap;
use crate::ordered::SortKey;
use crate::runtime_error::VulkanResidentInProcessPlacedRuntimeError;
use crate::runtime_error::VulkanResidentInProcessPlacedRuntimeErrorView;
use crate::sequence;
use crate::text;
use crate::text::Message;
use vstd::prelude::*;

verus! {

/// A signal of a batch.
#[derive(Debug, PartialEq, Eq)]
pub enum VulkanComponentBatchSignalKey {
    Activation { component_id: String, signal_id: String },
    ModelInput(String),
    ModelOutput(String),
    LocalEdge(usize),
    IncomingEdge(usize),
    OutgoingEdge(usize),
}

#[verifier::ext_equal]
pub enum VulkanComponentBatchSignalKeyView {
    Activation { component_id: Seq<char>, signal_id: Seq<char> },
    ModelInput(Seq<char>),
    ModelOutput(Seq<char>),
    LocalEdge(usize),
    IncomingEdge(usize),
    OutgoingEdge(usize),
}

impl DeepView for VulkanComponentBatchSignalKey {
    type V = VulkanComponentBatchSignalKeyView;

    open spec fn deep_view(&self) -> VulkanComponentBatchSignalKeyView {
        match self {
            VulkanComponentBatchSignalKey::Activation { component_id, signal_id } => VulkanComponentBatchSignalKeyView::Activation { component_id: component_id.deep_view(), signal_id: signal_id.deep_view() },
            VulkanComponentBatchSignalKey::ModelInput(value) => VulkanComponentBatchSignalKeyView::ModelInput(value.deep_view()),
            VulkanComponentBatchSignalKey::ModelOutput(value) => VulkanComponentBatchSignalKeyView::ModelOutput(value.deep_view()),
            VulkanComponentBatchSignalKey::LocalEdge(value) => VulkanComponentBatchSignalKeyView::LocalEdge(*value),
            VulkanComponentBatchSignalKey::IncomingEdge(value) => VulkanComponentBatchSignalKeyView::IncomingEdge(*value),
            VulkanComponentBatchSignalKey::OutgoingEdge(value) => VulkanComponentBatchSignalKeyView::OutgoingEdge(*value),
        }
    }
}

impl View for VulkanComponentBatchSignalKey {
    type V = VulkanComponentBatchSignalKeyView;

    open spec fn view(&self) -> VulkanComponentBatchSignalKeyView {
        self.deep_view()
    }
}

impl Clone for VulkanComponentBatchSignalKey {
    fn clone(&self) -> (r: Self)
        ensures
            r@ == self@,
    {
        match self {
            VulkanComponentBatchSignalKey::Activation { component_id, signal_id } => VulkanComponentBatchSignalKey::Activation { component_id: component_id.clone(), signal_id: signal_id.clone() },
            VulkanComponentBatchSignalKey::ModelInput(value) => VulkanComponentBatchSignalKey::ModelInput(value.clone()),
            VulkanComponentBatchSignalKey::ModelOutput(value) => VulkanComponentBatchSignalKey::ModelOutput(value.clone()),
            VulkanComponentBatchSignalKey::LocalEdge(value) => VulkanComponentBatchSignalKey::LocalEdge(*value),
            VulkanComponentBatchSignalKey::IncomingEdge(value) => VulkanComponentBatchSignalKey::IncomingEdge(*value),
            VulkanComponentBatchSignalKey::OutgoingEdge(value) => VulkanComponentBatchSignalKey::OutgoingEdge(*value),
        }
    }
}

/// What signals are ordered by: their kind, then what tells them apart.
pub open spec fn key_parts(key: VulkanComponentBatchSignalKeyView) -> (
    (usize, Seq<char>),
    (Seq<char>, usize),
) {
    match key {
        VulkanComponentBatchSignalKeyView::Activation { component_id, signal_id } => (
            (0, component_id),
            (signal_id, 0),
        ),
        VulkanComponentBatchSignalKeyView::ModelInput(id) => ((1, id), (Seq::empty(), 0)),
        VulkanComponentBatchSignalKeyView::ModelOutput(id) => ((2, id), (Seq::empty(), 0)),
        VulkanComponentBatchSignalKeyView::LocalEdge(index) => (
            (3, Seq::empty()),
            (Seq::empty(), index),
        ),
        VulkanComponentBatchSignalKeyView::IncomingEdge(index) => (
            (4, Seq::empty()),
            (Seq::empty(), index),
        ),
        VulkanComponentBatchSignalKeyView::OutgoingEdge(index) => (
            (5, Seq::empty()),
            (Seq::empty(), index),
        ),
    }
}

impl VulkanComponentBatchSignalKey {
    fn parts(&self) -> (r: ((usize, String), (String, usize)))
        ensures
            r.deep_view() == key_parts(self@),
    {
        proof {
            reveal_strlit("");
            assert(""@ =~= Seq::empty());
        }
        match self {
            VulkanComponentBatchSignalKey::Activation { component_id, signal_id } => (
                (0, component_id.clone()),
                (signal_id.clone(), 0),
            ),
            VulkanComponentBatchSignalKey::ModelInput(id) => ((1, id.clone()), (String::new(), 0)),
            VulkanComponentBatchSignalKey::ModelOutput(id) => ((2, id.clone()), (String::new(), 0)),
            VulkanComponentBatchSignalKey::LocalEdge(index) => (
                (3, String::new()),
                (String::new(), *index),
            ),
            VulkanComponentBatchSignalKey::IncomingEdge(index) => (
                (4, String::new()),
                (String::new(), *index),
            ),
            VulkanComponentBatchSignalKey::OutgoingEdge(index) => (
                (5, String::new()),
                (String::new(), *index),
            ),
        }
    }
}

impl SortKey for VulkanComponentBatchSignalKey {
    open spec fn before(
        a: VulkanComponentBatchSignalKeyView,
        b: VulkanComponentBatchSignalKeyView,
    ) -> bool {
        <((usize, String), (String, usize)) as SortKey>::before(key_parts(a), key_parts(b))
    }

    proof fn irreflexive(a: VulkanComponentBatchSignalKeyView) {
        <((usize, String), (String, usize)) as SortKey>::irreflexive(key_parts(a));
    }

    proof fn transitive(
        a: VulkanComponentBatchSignalKeyView,
        b: VulkanComponentBatchSignalKeyView,
        c: VulkanComponentBatchSignalKeyView,
    ) {
        <((usize, String), (String, usize)) as SortKey>::transitive(
            key_parts(a),
            key_parts(b),
            key_parts(c),
        );
    }

    proof fn total(a: VulkanComponentBatchSignalKeyView, b: VulkanComponentBatchSignalKeyView) {
        <((usize, String), (String, usize)) as SortKey>::total(key_parts(a), key_parts(b));
    }

    fn is_before(&self, other: &Self) -> (r: bool) {
        self.parts().is_before(&other.parts())
    }

    fn is_same(&self, other: &Self) -> (r: bool) {
        self.parts().is_same(&other.parts())
    }
}

/// A signal in words.
pub open spec fn key_text(key: VulkanComponentBatchSignalKeyView) -> Seq<char> {
    match key {
        VulkanComponentBatchSignalKeyView::Activation { component_id, signal_id } => {
            "Activation { component_id: "@ + text::quoted(component_id) + ", signal_id: "@
                + text::quoted(signal_id) + " }"@
        },
        VulkanComponentBatchSignalKeyView::ModelInput(id) => "ModelInput("@ + text::quoted(id)
            + ")"@,
        VulkanComponentBatchSignalKeyView::ModelOutput(id) => "ModelOutput("@ + text::quoted(id)
            + ")"@,
        VulkanComponentBatchSignalKeyView::LocalEdge(index) => "LocalEdge("@ + text::decimal(
            index as nat,
        ) + ")"@,
        VulkanComponentBatchSignalKeyView::IncomingEdge(index) => "IncomingEdge("@ + text::decimal(
            index as nat,
        ) + ")"@,
        VulkanComponentBatchSignalKeyView::OutgoingEdge(index) => "OutgoingEdge("@ + text::decimal(
            index as nat,
        ) + ")"@,
    }
}

impl VulkanComponentBatchSignalKey {
    /// The signal in words.
    pub fn describe(&self) -> (r: String)
        ensures
            r@ == key_text(self@),
    {
        match self {
            VulkanComponentBatchSignalKey::Activation { component_id, signal_id } => {
                Message::new("Activation { component_id: ").quoted(component_id.as_str()).text(
                    ", signal_id: ",
                ).quoted(signal_id.as_str()).text(" }").done()
            },
            VulkanComponentBatchSignalKey::ModelInput(id) => {
                Message::new("ModelInput(").quoted(id.as_str()).text(")").done()
            },
            VulkanComponentBatchSignalKey::ModelOutput(id) => {
                Message::new("ModelOutput(").quoted(id.as_str()).text(")").done()
            },
            VulkanComponentBatchSignalKey::LocalEdge(index) => {
                Message::new("LocalEdge(").number(*index).text(")").done()
            },
            VulkanComponentBatchSignalKey::IncomingEdge(index) => {
                Message::new("IncomingEdge(").number(*index).text(")").done()
            },
            VulkanComponentBatchSignalKey::OutgoingEdge(index) => {
                Message::new("OutgoingEdge(").number(*index).text(")").done()
            },
        }
    }
}

/// A signal that a descriptor reads or writes, with the bytes of one of its frames.
#[derive(Debug, PartialEq, Eq)]
pub struct VulkanComponentBatchSignalTarget {
    pub key: VulkanComponentBatchSignalKey,
    pub frame_byte_capacity: usize,
}

#[verifier::ext_equal]
pub struct VulkanComponentBatchSignalTargetView {
    pub key: VulkanComponentBatchSignalKeyView,
    pub frame_byte_capacity: usize,
}

impl DeepView for VulkanComponentBatchSignalTarget {
    type V = VulkanComponentBatchSignalTargetView;

    open spec fn deep_view(&self) -> VulkanComponentBatchSignalTargetView {
        VulkanComponentBatchSignalTargetView {
            key: self.key.deep_view(),
            frame_byte_capacity: self.frame_byte_capacity,
        }
    }
}

impl View for VulkanComponentBatchSignalTarget {
    type V = VulkanComponentBatchSignalTargetView;

    open spec fn view(&self) -> VulkanComponentBatchSignalTargetView {
        self.deep_view()
    }
}

impl Clone for VulkanComponentBatchSignalTarget {
    fn clone(&self) -> (r: Self)
        ensures
            r@ == self@,
    {
        VulkanComponentBatchSignalTarget {
            key: self.key.clone(),
            frame_byte_capacity: self.frame_byte_capacity,
        }
    }
}

/// From which launch to which a signal lives.
#[derive(Debug, PartialEq, Eq)]
pub struct VulkanComponentBatchSignalLifetime {
    pub key: VulkanComponentBatchSignalKey,
    pub frame_byte_capacity: usize,
    pub host_visible: bool,
    pub first_dispatch: usize,
    pub last_dispatch: usize,
}

#[verifier::ext_equal]
pub struct VulkanComponentBatchSignalLifetimeView {
    pub key: VulkanComponentBatchSignalKeyView,
    pub frame_byte_capacity: usize,
    pub host_visible: bool,
    pub first_dispatch: usize,
    pub last_dispatch: usize,
}

impl DeepView for VulkanComponentBatchSignalLifetime {
    type V = VulkanComponentBatchSignalLifetimeView;

    open spec fn deep_view(&self) -> VulkanComponentBatchSignalLifetimeView {
        VulkanComponentBatchSignalLifetimeView {
            key: self.key.deep_view(),
            frame_byte_capacity: self.frame_byte_capacity,
            host_visible: self.host_visible,
            first_dispatch: self.first_dispatch,
            last_dispatch: self.last_dispatch,
        }
    }
}

impl View for VulkanComponentBatchSignalLifetime {
    type V = VulkanComponentBatchSignalLifetimeView;

    open spec fn view(&self) -> VulkanComponentBatchSignalLifetimeView {
        self.deep_view()
    }
}

impl Clone for VulkanComponentBatchSignalLifetime {
    fn clone(&self) -> (r: Self)
        ensures
            r@ == self@,
    {
        VulkanComponentBatchSignalLifetime {
            key: self.key.clone(),
            frame_byte_capacity: self.frame_byte_capacity,
            host_visible: self.host_visible,
            first_dispatch: self.first_dispatch,
            last_dispatch: self.last_dispatch,
        }
    }
}

/// A buffer that signals take turns in, with the last launch that uses it so far.
#[derive(Debug, PartialEq, Eq)]
pub struct VulkanComponentBatchSignalBufferPlan {
    pub frame_byte_capacity: usize,
    pub host_visible: bool,
    pub last_dispatch: usize,
}

#[verifier::ext_equal]
pub struct VulkanComponentBatchSignalBufferPlanView {
    pub frame_byte_capacity: usize,
    pub host_visible: bool,
    pub last_dispatch: usize,
}

impl DeepView for VulkanComponentBatchSignalBufferPlan {
    type V = VulkanComponentBatchSignalBufferPlanView;

    open spec fn deep_view(&self) -> VulkanComponentBatchSignalBufferPlanView {
        VulkanComponentBatchSignalBufferPlanView {
            frame_byte_capacity: self.frame_byte_capacity,
            host_visible: self.host_visible,
            last_dispatch: self.last_dispatch,
        }
    }
}

impl View for VulkanComponentBatchSignalBufferPlan {
    type V = VulkanComponentBatchSignalBufferPlanView;

    open spec fn view(&self) -> VulkanComponentBatchSignalBufferPlanView {
        self.deep_view()
    }
}

impl Clone for VulkanComponentBatchSignalBufferPlan {
    fn clone(&self) -> (r: Self)
        ensures
            r@ == self@,
    {
        VulkanComponentBatchSignalBufferPlan {
            frame_byte_capacity: self.frame_byte_capacity,
            host_visible: self.host_visible,
            last_dispatch: self.last_dispatch,
        }
    }
}

/// The buffers of a batch, and which signal lives in which.
#[derive(Debug, PartialEq, Eq)]
pub struct VulkanComponentBatchSignalPlan {
    pub signal_buffer_indices: OrderedMap<VulkanComponentBatchSignalKey, usize>,
    pub buffers: Vec<VulkanComponentBatchSignalBufferPlan>,
}

#[verifier::ext_equal]
pub struct VulkanComponentBatchSignalPlanView {
    pub signal_buffer_indices: Map<VulkanComponentBatchSignalKeyView, usize>,
    pub buffers: Seq<VulkanComponentBatchSignalBufferPlanView>,
}

impl DeepView for VulkanComponentBatchSignalPlan {
    type V = VulkanComponentBatchSignalPlanView;

    open spec fn deep_view(&self) -> VulkanComponentBatchSignalPlanView {
        VulkanComponentBatchSignalPlanView {
            signal_buffer_indices: self.signal_buffer_indices.deep_view(),
            buffers: self.buffers.deep_view(),
        }
    }
}

impl View for VulkanComponentBatchSignalPlan {
    type V = VulkanComponentBatchSignalPlanView;

    open spec fn view(&self) -> VulkanComponentBatchSignalPlanView {
        self.deep_view()
    }
}

// ---------------------------------------------------------------------------
// Signals take turns in buffers
// ---------------------------------------------------------------------------

/// Whether one lifetime comes before another: by its first launch, then by its last, then by its
/// signal.
pub open spec fn lifetime_before(
    a: VulkanComponentBatchSignalLifetimeView,
    b: VulkanComponentBatchSignalLifetimeView,
) -> bool {
    a.first_dispatch < b.first_dispatch || (a.first_dispatch == b.first_dispatch && (a.last_dispatch
        < b.last_dispatch || (a.last_dispatch == b.last_dispatch
        && VulkanComponentBatchSignalKey::before(a.key, b.key))))
}

/// Where a lifetime goes in a list: behind everything that does not come after it.
pub open spec fn lifetime_place(
    s: Seq<VulkanComponentBatchSignalLifetimeView>,
    x: VulkanComponentBatchSignalLifetimeView,
) -> int
    decreases s.len(),
{
    if s.len() == 0 || !lifetime_before(x, s.last()) {
        s.len() as int
    } else {
        lifetime_place(s.drop_last(), x)
    }
}

/// The lifetimes in order; those that tie stay as they were.
pub open spec fn sorted_lifetimes(s: Seq<VulkanComponentBatchSignalLifetimeView>) -> Seq<
    VulkanComponentBatchSignalLifetimeView,
>
    decreases s.len(),
{
    if s.len() == 0 {
        s
    } else {
        let front = sorted_lifetimes(s.drop_last());
        front.insert(lifetime_place(front, s.last()), s.last())
    }
}

/// Whether a signal can take over a buffer: it has the right size and visibility, and whoever used
/// it is done.
pub open spec fn can_take_over(lifetime: VulkanComponentBatchSignalLifetimeView) -> spec_fn(
    VulkanComponentBatchSignalBufferPlanView,
) -> bool {
    |buffer: VulkanComponentBatchSignalBufferPlanView|
        buffer.frame_byte_capacity == lifetime.frame_byte_capacity && buffer.host_visible
            == lifetime.host_visible && buffer.last_dispatch < lifetime.first_dispatch
}

/// The buffer of a signal.
pub open spec fn buffer_for(lifetime: VulkanComponentBatchSignalLifetimeView) -> VulkanComponentBatchSignalBufferPlanView {
    VulkanComponentBatchSignalBufferPlanView {
        frame_byte_capacity: lifetime.frame_byte_capacity,
        host_visible: lifetime.host_visible,
        last_dispatch: lifetime.last_dispatch,
    }
}

/// The buffers that signals take turns in, and the buffer of each signal: the first that it can take
/// over, or a new one.
pub open spec fn allocated(s: Seq<VulkanComponentBatchSignalLifetimeView>) -> (
    Seq<VulkanComponentBatchSignalBufferPlanView>,
    Seq<int>,
)
    decreases s.len(),
{
    if s.len() == 0 {
        (Seq::empty(), Seq::empty())
    } else {
        let (buffers, places) = allocated(s.drop_last());
        match sequence::first_position(buffers, can_take_over(s.last())) {
            Some(i) => (buffers.update(i, buffer_for(s.last())), places.push(i)),
            None => (buffers.push(buffer_for(s.last())), places.push(buffers.len() as int)),
        }
    }
}

/// Which signal lives in which buffer.
pub open spec fn placed(s: Seq<VulkanComponentBatchSignalLifetimeView>, places: Seq<int>) -> Map<
    VulkanComponentBatchSignalKeyView,
    usize,
>
    decreases s.len(),
{
    if s.len() == 0 {
        Map::empty()
    } else {
        placed(s.drop_last(), places.drop_last()).insert(s.last().key, places.last() as usize)
    }
}

/// The buffers of these lifetimes.
pub open spec fn signal_plan(lifetimes: Seq<VulkanComponentBatchSignalLifetimeView>) -> VulkanComponentBatchSignalPlanView {
    let s = sorted_lifetimes(lifetimes);
    VulkanComponentBatchSignalPlanView {
        signal_buffer_indices: placed(s, allocated(s).1),
        buffers: allocated(s).0,
    }
}

proof fn lemma_allocated_shape(s: Seq<VulkanComponentBatchSignalLifetimeView>)
    ensures
        allocated(s).1.len() == s.len(),
        allocated(s).0.len() <= s.len(),
        forall|i: int|
            0 <= i < s.len() ==> 0 <= #[trigger] allocated(s).1[i] < allocated(s).0.len(),
    decreases s.len(),
{
    if s.len() > 0 {
        lemma_allocated_shape(s.drop_last());
        let (buffers, places) = allocated(s.drop_last());
        let p = can_take_over(s.last());
        sequence::lemma_first_position(buffers, p);
        assert forall|i: int| 0 <= i < s.len() implies 0 <= #[trigger] allocated(s).1[i]
            < allocated(s).0.len() by {
            if i < s.len() - 1 {
                assert(allocated(s).1[i] == places[i]);
            }
        }
    }
}

proof fn lemma_taken_buffers(s: Seq<VulkanComponentBatchSignalLifetimeView>)
    requires
        forall|i: int|
            0 <= i < s.len() ==> (#[trigger] s[i]).first_dispatch <= s[i].last_dispatch,
    ensures
        forall|i: int|
            0 <= i < s.len() ==> {
                let buffer = allocated(s).0[#[trigger] allocated(s).1[i]];
                &&& s[i].last_dispatch <= buffer.last_dispatch
                &&& s[i].frame_byte_capacity == buffer.frame_byte_capacity
                &&& s[i].host_visible == buffer.host_visible
            },
    decreases s.len(),
{
    lemma_allocated_shape(s);
    if s.len() > 0 {
        let front = s.drop_last();
        lemma_allocated_shape(front);
        assert forall|i: int| 0 <= i < front.len() implies (#[trigger] front[i]).first_dispatch
            <= front[i].last_dispatch by {
            assert(front[i] == s[i]);
        }
        lemma_taken_buffers(front);
        let (buffers, places) = allocated(front);
        let p = can_take_over(s.last());
        sequence::lemma_first_position(buffers, p);
        assert(s.last() == s[s.len() - 1]);
        assert forall|i: int| 0 <= i < s.len() implies {
            let buffer = allocated(s).0[#[trigger] allocated(s).1[i]];
            &&& s[i].last_dispatch <= buffer.last_dispatch
            &&& s[i].frame_byte_capacity == buffer.frame_byte_capacity
            &&& s[i].host_visible == buffer.host_visible
        } by {
            if i < s.len() - 1 {
                assert(allocated(s).1[i] == places[i]);
                assert(front[i] == s[i]);
            }
        }
    }
}

/// Two signals that share a buffer have frames of one size and one visibility, and the one that
/// comes later starts only after the other has ended.
pub proof fn shared_buffers_never_overlap(
    s: Seq<VulkanComponentBatchSignalLifetimeView>,
    i: int,
    j: int,
)
    requires
        forall|k: int|
            0 <= k < s.len() ==> (#[trigger] s[k]).first_dispatch <= s[k].last_dispatch,
        0 <= i < j < s.len(),
        allocated(s).1[i] == allocated(s).1[j],
    ensures
        s[i].last_dispatch < s[j].first_dispatch,
        s[i].frame_byte_capacity == s[j].frame_byte_capacity,
        s[i].host_visible == s[j].host_visible,
    decreases s.len(),
{
    let front = s.drop_last();
    assert forall|k: int| 0 <= k < front.len() implies (#[trigger] front[k]).first_dispatch
        <= front[k].last_dispatch by {
        assert(front[k] == s[k]);
    }
    lemma_allocated_shape(s);
    lemma_allocated_shape(front);
    assert(front[i] == s[i]);
    let (buffers, places) = allocated(front);
    assert(allocated(s).1[i] == places[i]);
    if j < s.len() - 1 {
        assert(front[j] == s[j]);
        assert(allocated(s).1[j] == places[j]);
        shared_buffers_never_overlap(front, i, j);
    } else {
        lemma_taken_buffers(front);
        let p = can_take_over(s.last());
        sequence::lemma_first_position(buffers, p);
        assert(s.last() == s[j]);
    }
}

proof fn lemma_place_bound(
    s: Seq<VulkanComponentBatchSignalLifetimeView>,
    x: VulkanComponentBatchSignalLifetimeView,
)
    ensures
        0 <= lifetime_place(s, x) <= s.len(),
    decreases s.len(),
{
    if s.len() > 0 {
        lemma_place_bound(s.drop_last(), x);
    }
}

/// Sorting keeps the lifetimes.
pub proof fn sorting_keeps_the_lifetimes(s: Seq<VulkanComponentBatchSignalLifetimeView>)
    ensures
        sorted_lifetimes(s).to_multiset() == s.to_multiset(),
        sorted_lifetimes(s).len() == s.len(),
    decreases s.len(),
{
    broadcast use vstd::seq_lib::group_to_multiset_ensures;

    if s.len() > 0 {
        let front = sorted_lifetimes(s.drop_last());
        sorting_keeps_the_lifetimes(s.drop_last());
        lemma_place_bound(front, s.last());
        vstd::seq_lib::to_multiset_insert(front, lifetime_place(front, s.last()), s.last());
        assert(s =~= s.drop_last().push(s.last()));
    }
}

/// Whether lifetimes stand in order.
pub open spec fn in_order(s: Seq<VulkanComponentBatchSignalLifetimeView>) -> bool {
    forall|i: int, j: int|
        0 <= i < j < s.len() ==> !lifetime_before(#[trigger] s[j], #[trigger] s[i])
}

/// Whether each lifetime is that of another signal, and ends no earlier than it starts.
pub open spec fn are_lifetimes(s: Seq<VulkanComponentBatchSignalLifetimeView>) -> bool {
    &&& forall|i: int| 0 <= i < s.len() ==> (#[trigger] s[i]).first_dispatch <= s[i].last_dispatch
    &&& forall|i: int, j: int|
        0 <= i < j < s.len() ==> (#[trigger] s[i]).key != (#[trigger] s[j]).key
}

/// Whether two lifetimes cannot share a buffer: their frames differ in size or visibility, or they
/// live at the same time.
pub open spec fn clash(
    a: VulkanComponentBatchSignalLifetimeView,
    b: VulkanComponentBatchSignalLifetimeView,
) -> bool {
    ||| a.frame_byte_capacity != b.frame_byte_capacity
    ||| a.host_visible != b.host_visible
    ||| a.first_dispatch <= b.last_dispatch && b.first_dispatch <= a.last_dispatch
}

/// Whether `place` is a way of giving every signal one of `count` buffers, such that no two signals
/// that cannot share a buffer have the same one.
pub open spec fn shares_buffers(
    s: Seq<VulkanComponentBatchSignalLifetimeView>,
    place: spec_fn(VulkanComponentBatchSignalLifetimeView) -> int,
    count: nat,
) -> bool {
    &&& forall|i: int| 0 <= i < s.len() ==> 0 <= #[trigger] place(s[i]) < count
    &&& forall|i: int, j: int|
        0 <= i < j < s.len() && clash(#[trigger] s[i], #[trigger] s[j]) ==> place(s[i]) != place(
            s[j],
        )
}

proof fn lemma_before_is_an_order(
    a: VulkanComponentBatchSignalLifetimeView,
    b: VulkanComponentBatchSignalLifetimeView,
    c: VulkanComponentBatchSignalLifetimeView,
)
    ensures
        lifetime_before(a, b) ==> !lifetime_before(b, a),
        !lifetime_before(b, a) && !lifetime_before(c, b) ==> !lifetime_before(c, a),
        a.key != b.key ==> lifetime_before(a, b) || lifetime_before(b, a),
{
    VulkanComponentBatchSignalKey::irreflexive(a.key);
    VulkanComponentBatchSignalKey::total(a.key, b.key);
    VulkanComponentBatchSignalKey::total(b.key, c.key);
    if VulkanComponentBatchSignalKey::before(a.key, b.key)
        && VulkanComponentBatchSignalKey::before(b.key, a.key) {
        VulkanComponentBatchSignalKey::transitive(a.key, b.key, a.key);
    }
    if VulkanComponentBatchSignalKey::before(c.key, a.key)
        && VulkanComponentBatchSignalKey::before(a.key, b.key) {
        VulkanComponentBatchSignalKey::transitive(c.key, a.key, b.key);
    }
    if VulkanComponentBatchSignalKey::before(b.key, c.key)
        && VulkanComponentBatchSignalKey::before(c.key, a.key) {
        VulkanComponentBatchSignalKey::transitive(b.key, c.key, a.key);
    }
}

proof fn lemma_place_splits(
    s: Seq<VulkanComponentBatchSignalLifetimeView>,
    x: VulkanComponentBatchSignalLifetimeView,
)
    requires
        in_order(s),
    ensures
        forall|i: int| 0 <= i < lifetime_place(s, x) ==> !lifetime_before(x, #[trigger] s[i]),
        forall|i: int|
            lifetime_place(s, x) <= i < s.len() ==> lifetime_before(x, #[trigger] s[i]),
    decreases s.len(),
{
    if s.len() > 0 {
        let front = s.drop_last();
        if lifetime_before(x, s.last()) {
            lemma_place_splits(front, x);
            lemma_place_bound(front, x);
            assert forall|i: int| 0 <= i < lifetime_place(s, x) implies !lifetime_before(
                x,
                #[trigger] s[i],
            ) by {
                assert(front[i] == s[i]);
            }
            assert forall|i: int| lifetime_place(s, x) <= i < s.len() implies lifetime_before(
                x,
                #[trigger] s[i],
            ) by {
                if i < front.len() {
                    assert(front[i] == s[i]);
                }
            }
        } else {
            assert forall|i: int| 0 <= i < s.len() implies !lifetime_before(x, #[trigger] s[i]) by {
                lemma_before_is_an_order(s[i], s.last(), x);
            }
        }
    }
}

proof fn lemma_sorted_in_order(s: Seq<VulkanComponentBatchSignalLifetimeView>)
    ensures
        in_order(sorted_lifetimes(s)),
    decreases s.len(),
{
    if s.len() > 0 {
        let front = sorted_lifetimes(s.drop_last());
        let x = s.last();
        let at = lifetime_place(front, x);
        lemma_sorted_in_order(s.drop_last());
        lemma_place_bound(front, x);
        lemma_place_splits(front, x);
        let t = front.insert(at, x);
        assert forall|i: int, j: int| 0 <= i < j < t.len() implies !lifetime_before(
            #[trigger] t[j],
            #[trigger] t[i],
        ) by {
            if i == at {
                assert(t[j] == front[j - 1]);
                lemma_before_is_an_order(x, t[j], x);
            } else if j == at {
                assert(t[i] == front[i]);
            } else {
                let i0 = if i < at { i } else { i - 1 };
                let j0 = if j < at { j } else { j - 1 };
                assert(t[i] == front[i0] && t[j] == front[j0]);
            }
        }
    }
}

proof fn lemma_sorted_are_lifetimes(s: Seq<VulkanComponentBatchSignalLifetimeView>)
    requires
        are_lifetimes(s),
    ensures
        are_lifetimes(sorted_lifetimes(s)),
        forall|x: VulkanComponentBatchSignalLifetimeView|
            sorted_lifetimes(s).contains(x) <==> #[trigger] s.contains(x),
{
    broadcast use vstd::seq_lib::group_to_multiset_ensures;

    let t = sorted_lifetimes(s);
    sorting_keeps_the_lifetimes(s);
    assert forall|x: VulkanComponentBatchSignalLifetimeView| t.contains(x) == #[trigger] s.contains(
        x,
    ) by {
        assert(t.to_multiset().count(x) == s.to_multiset().count(x));
    }
    assert(s.no_duplicates()) by {
        assert forall|i: int, j: int| 0 <= i < s.len() && 0 <= j < s.len() && i != j implies s[i]
            != s[j] by {
            if i < j {
                assert(s[i].key != s[j].key);
            } else {
                assert(s[j].key != s[i].key);
            }
        }
    }
    s.lemma_multiset_has_no_duplicates();
    t.lemma_multiset_has_no_duplicates_conv();
    assert forall|i: int| 0 <= i < t.len() implies (#[trigger] t[i]).first_dispatch
        <= t[i].last_dispatch by {
        assert(s.contains(t[i]));
    }
    assert forall|i: int, j: int| 0 <= i < j < t.len() implies (#[trigger] t[i]).key != (
    #[trigger] t[j]).key by {
        assert(s.contains(t[i]) && s.contains(t[j]));
        let a = s.index_of(t[i]);
        let b = s.index_of(t[j]);
        assert(a != b);
        if a < b {
            assert(s[a].key != s[b].key);
        } else {
            assert(s[b].key != s[a].key);
        }
    }
}

proof fn lemma_one_order(
    a: Seq<VulkanComponentBatchSignalLifetimeView>,
    b: Seq<VulkanComponentBatchSignalLifetimeView>,
)
    requires
        in_order(a),
        in_order(b),
        are_lifetimes(a),
        a.to_multiset() == b.to_multiset(),
    ensures
        a == b,
    decreases a.len(),
{
    broadcast use vstd::seq_lib::group_to_multiset_ensures;

    assert(a.len() == a.to_multiset().len() && b.len() == b.to_multiset().len());
    if a.len() > 0 {
        let n = a.len() - 1;
        let x = a[n];
        let y = b[n];
        assert(b.contains(y));
        assert(b.to_multiset().count(y) > 0);
        assert(a.contains(y));
        assert(a.contains(x));
        assert(a.to_multiset().count(x) > 0);
        assert(b.contains(x));
        let i = a.index_of(y);
        let j = b.index_of(x);
        if x != y {
            assert(a[i].key != a[n].key);
            assert(!lifetime_before(a[n], a[i]));
            assert(!lifetime_before(b[n], b[j]));
            lemma_before_is_an_order(x, y, x);
            assert(false);
        }
        vstd::seq_lib::to_multiset_remove(a, n);
        vstd::seq_lib::to_multiset_remove(b, n);
        assert(a.remove(n) =~= a.drop_last());
        assert(b.remove(n) =~= b.drop_last());
        assert forall|i: int, j: int| 0 <= i < j < n implies !lifetime_before(
            #[trigger] b.drop_last()[j],
            #[trigger] b.drop_last()[i],
        ) by {
            assert(!lifetime_before(b[j], b[i]));
        }
        assert forall|i: int, j: int| 0 <= i < j < n implies !lifetime_before(
            #[trigger] a.drop_last()[j],
            #[trigger] a.drop_last()[i],
        ) by {
            assert(!lifetime_before(a[j], a[i]));
        }
        lemma_one_order(a.drop_last(), b.drop_last());
        assert(a =~= a.drop_last().push(x));
        assert(b =~= b.drop_last().push(y));
    } else {
        assert(a =~= b);
    }
}

/// The order in which the lifetimes are given does not matter: the same lifetimes have the same
/// buffers.
pub proof fn the_given_order_does_not_matter(
    a: Seq<VulkanComponentBatchSignalLifetimeView>,
    b: Seq<VulkanComponentBatchSignalLifetimeView>,
)
    requires
        are_lifetimes(a),
        a.to_multiset() == b.to_multiset(),
    ensures
        signal_plan(a) == signal_plan(b),
{
    sorting_keeps_the_lifetimes(a);
    sorting_keeps_the_lifetimes(b);
    lemma_sorted_in_order(a);
    lemma_sorted_in_order(b);
    lemma_sorted_are_lifetimes(a);
    lemma_one_order(sorted_lifetimes(a), sorted_lifetimes(b));
}

spec fn holds(s: Seq<VulkanComponentBatchSignalLifetimeView>, i: int, b: int) -> bool {
    &&& 0 <= i < s.len()
    &&& allocated(s).1[i] == b
    &&& allocated(s).0[b] == buffer_for(s[i])
}

proof fn lemma_every_buffer_is_held(s: Seq<VulkanComponentBatchSignalLifetimeView>, b: int)
    requires
        0 <= b < allocated(s).0.len(),
    ensures
        exists|i: int| holds(s, i, b),
    decreases s.len(),
{
    lemma_allocated_shape(s);
    let front = s.drop_last();
    let n = s.len() - 1;
    lemma_allocated_shape(front);
    sequence::lemma_first_position(allocated(front).0, can_take_over(s.last()));
    if allocated(s).1[n] == b {
        assert(holds(s, n, b));
    } else {
        lemma_every_buffer_is_held(front, b);
        let i = choose|i: int| holds(front, i, b);
        assert(front[i] == s[i]);
        assert(holds(s, i, b));
    }
}

/// Lifetimes, one for each buffer, no two of which could have shared one.
proof fn lemma_buffers_clash(s: Seq<VulkanComponentBatchSignalLifetimeView>) -> (w: Seq<int>)
    requires
        in_order(s),
        are_lifetimes(s),
    ensures
        w.len() == allocated(s).0.len(),
        forall|b: int| 0 <= b < w.len() ==> 0 <= #[trigger] w[b] < s.len(),
        forall|b: int|
            0 <= b < w.len() ==> {
                &&& s[#[trigger] w[b]].frame_byte_capacity == allocated(s).0[b].frame_byte_capacity
                &&& s[w[b]].host_visible == allocated(s).0[b].host_visible
            },
        forall|a: int, b: int|
            0 <= a < b < w.len() ==> #[trigger] w[a] != #[trigger] w[b] && clash(s[w[a]], s[w[b]]),
    decreases s.len(),
{
    if s.len() == 0 {
        Seq::empty()
    } else {
        let front = s.drop_last();
        let n = s.len() - 1;
        let x = s[n];
        assert forall|i: int, j: int| 0 <= i < j < front.len() implies !lifetime_before(
            #[trigger] front[j],
            #[trigger] front[i],
        ) by {
            assert(!lifetime_before(s[j], s[i]));
        }
        assert(are_lifetimes(front));
        let v = lemma_buffers_clash(front);
        let (buffers, places) = allocated(front);
        lemma_allocated_shape(front);
        sequence::lemma_first_position(buffers, can_take_over(x));
        match sequence::first_position(buffers, can_take_over(x)) {
            Some(at) => {
                assert(can_take_over(x)(buffers[at]));
                assert forall|b: int| 0 <= b < v.len() implies {
                    &&& s[#[trigger] v[b]].frame_byte_capacity
                        == allocated(s).0[b].frame_byte_capacity
                    &&& s[v[b]].host_visible == allocated(s).0[b].host_visible
                } by {
                    assert(front[v[b]] == s[v[b]]);
                }
                assert forall|a: int, b: int| 0 <= a < b < v.len() implies #[trigger] v[a]
                    != #[trigger] v[b] && clash(s[v[a]], s[v[b]]) by {
                    assert(front[v[a]] == s[v[a]] && front[v[b]] == s[v[b]]);
                }
                v
            },
            None => {
                let held = |b: int|
                    buffers[b].frame_byte_capacity == x.frame_byte_capacity
                        && buffers[b].host_visible == x.host_visible;
                let w = Seq::new(
                    buffers.len(),
                    |b: int|
                        if held(b) {
                            choose|i: int| holds(front, i, b)
                        } else {
                            v[b]
                        },
                ).push(n);
                assert forall|b: int| 0 <= b < buffers.len() implies {
                    &&& 0 <= #[trigger] w[b] < n
                    &&& s[w[b]].frame_byte_capacity == buffers[b].frame_byte_capacity
                    &&& s[w[b]].host_visible == buffers[b].host_visible
                    &&& held(b) ==> places[w[b]] == b && s[w[b]].first_dispatch <= x.first_dispatch
                        <= s[w[b]].last_dispatch
                    &&& !held(b) ==> w[b] == v[b]
                } by {
                    if held(b) {
                        lemma_every_buffer_is_held(front, b);
                        assert(holds(front, w[b], b));
                        assert(front[w[b]] == s[w[b]]);
                        assert(!can_take_over(x)(buffers[b]));
                        assert(!lifetime_before(s[n], s[w[b]]));
                    } else {
                        assert(front[v[b]] == s[v[b]]);
                    }
                }
                assert forall|a: int, b: int| 0 <= a < b < w.len() implies #[trigger] w[a]
                    != #[trigger] w[b] && clash(s[w[a]], s[w[b]]) by {
                    if b < buffers.len() && !held(a) && !held(b) {
                        assert(v[a] != v[b]);
                        assert(front[v[a]] == s[v[a]] && front[v[b]] == s[v[b]]);
                    }
                }
                w
            },
        }
    }
}

/// No fewer buffers would do: however the signals share buffers, if no two that cannot share one do,
/// there are at least as many buffers.
pub proof fn no_fewer_buffers_would_do(
    lifetimes: Seq<VulkanComponentBatchSignalLifetimeView>,
    place: spec_fn(VulkanComponentBatchSignalLifetimeView) -> int,
    count: nat,
)
    requires
        are_lifetimes(lifetimes),
        shares_buffers(lifetimes, place, count),
    ensures
        signal_plan(lifetimes).buffers.len() <= count,
{
    let s = sorted_lifetimes(lifetimes);
    lemma_sorted_in_order(lifetimes);
    lemma_sorted_are_lifetimes(lifetimes);
    let w = lemma_buffers_clash(s);
    let p = Seq::new(w.len(), |b: int| place(s[w[b]]));
    assert forall|b: int| 0 <= b < p.len() implies 0 <= #[trigger] p[b] < count by {
        assert(0 <= w[b] < s.len());
        assert(s.contains(s[w[b]]));
        assert(lifetimes.contains(s[w[b]]));
        let i = lifetimes.index_of(s[w[b]]);
        assert(place(lifetimes[i]) == p[b]);
    }
    assert forall|a: int, b: int| 0 <= a < p.len() && 0 <= b < p.len() && a != b implies p[a]
        != p[b] by {
        let (c, d) = if a < b { (a, b) } else { (b, a) };
        assert(w[c] != w[d] && clash(s[w[c]], s[w[d]]));
        assert(s.contains(s[w[c]]) && s.contains(s[w[d]]));
        assert(lifetimes.contains(s[w[c]]) && lifetimes.contains(s[w[d]]));
        let i = lifetimes.index_of(s[w[c]]);
        let j = lifetimes.index_of(s[w[d]]);
        assert(s[w[c]].key != s[w[d]].key) by {
            if w[c] < w[d] {
                assert(s[w[c]].key != s[w[d]].key);
            } else {
                assert(s[w[d]].key != s[w[c]].key);
            }
        }
        assert(i != j);
        if i < j {
            assert(clash(lifetimes[i], lifetimes[j]));
        } else {
            assert(clash(lifetimes[j], lifetimes[i]));
        }
    }
    p.unique_seq_to_set();
    vstd::set_lib::lemma_int_range(0, count as int);
    assert(p.to_set().subset_of(vstd::set_lib::set_int_range(0, count as int)));
    vstd::set_lib::lemma_len_subset(p.to_set(), vstd::set_lib::set_int_range(0, count as int));
}

fn is_lifetime_before(
    a: &VulkanComponentBatchSignalLifetime,
    b: &VulkanComponentBatchSignalLifetime,
) -> (r: bool)
    ensures
        r == lifetime_before(a@, b@),
{
    a.first_dispatch < b.first_dispatch || (a.first_dispatch == b.first_dispatch && (a.last_dispatch
        < b.last_dispatch || (a.last_dispatch == b.last_dispatch && a.key.is_before(&b.key))))
}

/// The lifetimes in order.
#[verifier::loop_isolation(false)]
fn sort_lifetimes(lifetimes: Vec<VulkanComponentBatchSignalLifetime>) -> (r: Vec<
    VulkanComponentBatchSignalLifetime,
>)
    ensures
        r.deep_view() == sorted_lifetimes(lifetimes.deep_view()),
{
    let ghost all = lifetimes.deep_view();
    let mut sorted: Vec<VulkanComponentBatchSignalLifetime> = Vec::new();
    assert(sorted.deep_view() =~= all.take(0));
    for lifetime in it: lifetimes
        invariant
            it.seq() == lifetimes@,
            sorted.deep_view() == sorted_lifetimes(all.take(it.index() as int)),
    {
        let ghost n = it.index() as int;
        let ghost front = sorted.deep_view();
        let ghost added = lifetime@;
        assert(all[n] == added);
        assert(all.take(n + 1).drop_last() =~= all.take(n));
        let mut place: usize = sorted.len();
        assert(front.take(place as int) =~= front);
        while place > 0 && is_lifetime_before(&lifetime, &sorted[place - 1])
            invariant
                place <= sorted.len(),
                sorted.deep_view() == front,
                lifetime_place(front, added) == lifetime_place(front.take(place as int), added),
            decreases place,
        {
            assert(front[place - 1] == sorted@[place - 1]@);
            assert(front.take(place as int).drop_last() =~= front.take(place - 1));
            place = place - 1;
        }
        assert(place > 0 ==> front[place - 1] == sorted@[place - 1]@);
        assert(lifetime_place(front, added) == place);
        sorted.insert(place, lifetime);
        assert(sorted.deep_view() =~= front.insert(place as int, added));
    }
    assert(all.take(all.len() as int) =~= all);
    sorted
}

/// The buffers of these lifetimes: signals that do not live at the same time take turns.
#[verifier::loop_isolation(false)]
pub fn allocate_component_batch_signal_lifetimes(
    lifetimes: Vec<VulkanComponentBatchSignalLifetime>,
) -> (r: VulkanComponentBatchSignalPlan)
    ensures
        r@ == signal_plan(lifetimes.deep_view()),
{
    let sorted: Vec<VulkanComponentBatchSignalLifetime> = sort_lifetimes(lifetimes);
    let ghost all = sorted.deep_view();
    let mut signal_buffer_indices: OrderedMap<VulkanComponentBatchSignalKey, usize> =
        OrderedMap::new();
    let mut buffers: Vec<VulkanComponentBatchSignalBufferPlan> = Vec::new();
    let mut i: usize = 0;
    assert(all.take(0) =~= Seq::empty());
    assert(buffers.deep_view() =~= Seq::empty());
    while i < sorted.len()
        invariant
            i <= sorted.len(),
            buffers.deep_view() == allocated(all.take(i as int)).0,
            signal_buffer_indices@ == placed(
                all.take(i as int),
                allocated(all.take(i as int)).1,
            ),
        decreases sorted.len() - i,
    {
        let lifetime = &sorted[i];
        let ghost before = buffers.deep_view();
        let ghost p = can_take_over(lifetime@);
        proof {
            assert(all[i as int] == lifetime@);
            assert(all.take(i + 1).drop_last() =~= all.take(i as int));
            lemma_allocated_shape(all.take(i as int));
            let places = allocated(all.take(i as int)).1;
            assert(allocated(all.take(i + 1)).1.drop_last() =~= places);
        }
        let index: Option<usize> = take_over_position(&buffers, lifetime);
        assert(before.len() == buffers@.len());
        let plan = VulkanComponentBatchSignalBufferPlan {
            frame_byte_capacity: lifetime.frame_byte_capacity,
            host_visible: lifetime.host_visible,
            last_dispatch: lifetime.last_dispatch,
        };
        match index {
            Some(index) => {
                buffers.set(index, plan);
                assert(buffers.deep_view() =~= before.update(index as int, buffer_for(lifetime@)));
                signal_buffer_indices.insert(lifetime.key.clone(), index);
            },
            None => {
                let index: usize = buffers.len();
                buffers.push(plan);
                assert(buffers.deep_view() =~= before.push(buffer_for(lifetime@)));
                signal_buffer_indices.insert(lifetime.key.clone(), index);
            },
        }
        i += 1;
    }
    assert(all.take(all.len() as int) =~= all);
    VulkanComponentBatchSignalPlan { signal_buffer_indices, buffers }
}

#[verifier::loop_isolation(false)]
fn take_over_position(
    buffers: &Vec<VulkanComponentBatchSignalBufferPlan>,
    lifetime: &VulkanComponentBatchSignalLifetime,
) -> (r: Option<usize>)
    ensures
        match r {
            Some(i) => i < buffers@.len() && sequence::first_position(
                buffers.deep_view(),
                can_take_over(lifetime@),
            ) == Some(i as int),
            None => sequence::first_position(buffers.deep_view(), can_take_over(lifetime@)) is None,
        },
{
    let ghost all = buffers.deep_view();
    let ghost p = can_take_over(lifetime@);
    let mut i: usize = 0;
    while i < buffers.len()
        invariant
            i <= buffers.len(),
            forall|j: int| 0 <= j < i ==> !p(#[trigger] all[j]),
        decreases buffers.len() - i,
    {
        let buffer = &buffers[i];
        assert(all[i as int] == buffer@);
        if buffer.frame_byte_capacity == lifetime.frame_byte_capacity && buffer.host_visible
            == lifetime.host_visible && buffer.last_dispatch < lifetime.first_dispatch {
            proof {
                sequence::lemma_find_first_at(all, p, i as int);
            }
            return Some(i);
        }
        i += 1;
    }
    proof {
        sequence::lemma_find_first_none(all, p);
    }
    None
}

// ---------------------------------------------------------------------------
// Which signals live when
// ---------------------------------------------------------------------------

/// What a descriptor turned out to read or write.
pub type SignalUse = Result<
    Option<VulkanComponentBatchSignalTargetView>,
    VulkanResidentInProcessPlacedRuntimeErrorView,
>;

/// When a signal lives, and in what kind of buffer.
#[derive(Debug, PartialEq, Eq)]
pub struct VulkanComponentBatchSignalSpan {
    pub frame_byte_capacity: usize,
    pub host_visible: bool,
    pub first_dispatch: usize,
    pub last_dispatch: usize,
}

#[verifier::ext_equal]
pub struct VulkanComponentBatchSignalSpanView {
    pub frame_byte_capacity: usize,
    pub host_visible: bool,
    pub first_dispatch: usize,
    pub last_dispatch: usize,
}

impl DeepView for VulkanComponentBatchSignalSpan {
    type V = VulkanComponentBatchSignalSpanView;

    open spec fn deep_view(&self) -> VulkanComponentBatchSignalSpanView {
        VulkanComponentBatchSignalSpanView {
            frame_byte_capacity: self.frame_byte_capacity,
            host_visible: self.host_visible,
            first_dispatch: self.first_dispatch,
            last_dispatch: self.last_dispatch,
        }
    }
}

impl View for VulkanComponentBatchSignalSpan {
    type V = VulkanComponentBatchSignalSpanView;

    open spec fn view(&self) -> VulkanComponentBatchSignalSpanView {
        self.deep_view()
    }
}

impl Clone for VulkanComponentBatchSignalSpan {
    fn clone(&self) -> (r: Self)
        ensures
            r@ == self@,
    {
        VulkanComponentBatchSignalSpan {
            frame_byte_capacity: self.frame_byte_capacity,
            host_visible: self.host_visible,
            first_dispatch: self.first_dispatch,
            last_dispatch: self.last_dispatch,
        }
    }
}

/// Whether a signal crosses devices.
pub open spec fn crosses_devices(key: VulkanComponentBatchSignalKeyView) -> bool {
    key is IncomingEdge || key is OutgoingEdge
}

/// When a signal lives, as far as its use by launch `index` of `count` shows: a signal that comes
/// from outside is there before the first launch, and one that goes outside is there after the last.
pub open spec fn span_of(
    target: VulkanComponentBatchSignalTargetView,
    index: int,
    count: nat,
) -> VulkanComponentBatchSignalSpanView {
    VulkanComponentBatchSignalSpanView {
        frame_byte_capacity: target.frame_byte_capacity,
        host_visible: crosses_devices(target.key),
        first_dispatch: if target.key is ModelInput || target.key is IncomingEdge {
            0
        } else {
            index as usize
        },
        last_dispatch: if target.key is ModelOutput || target.key is OutgoingEdge {
            count as usize
        } else {
            index as usize
        },
    }
}

/// Two spans of one signal, joined.
pub open spec fn joined(a: VulkanComponentBatchSignalSpanView, b: VulkanComponentBatchSignalSpanView) -> VulkanComponentBatchSignalSpanView {
    VulkanComponentBatchSignalSpanView {
        first_dispatch: if a.first_dispatch <= b.first_dispatch {
            a.first_dispatch
        } else {
            b.first_dispatch
        },
        last_dispatch: if a.last_dispatch >= b.last_dispatch {
            a.last_dispatch
        } else {
            b.last_dispatch
        },
        ..a
    }
}

/// How the use of a signal by a launch is added to what is known of the signals.
pub open spec fn use_step(count: nat) -> spec_fn(
    Map<VulkanComponentBatchSignalKeyView, VulkanComponentBatchSignalSpanView>,
    (int, SignalUse),
) -> Result<
    Map<VulkanComponentBatchSignalKeyView, VulkanComponentBatchSignalSpanView>,
    VulkanResidentInProcessPlacedRuntimeErrorView,
> {
    |known: Map<VulkanComponentBatchSignalKeyView, VulkanComponentBatchSignalSpanView>, used: (int, SignalUse)|
        match used.1 {
            Err(error) => Err(error),
            Ok(None) => Ok(known),
            Ok(Some(target)) => {
                let span = span_of(target, used.0, count);
                if !known.contains_key(target.key) {
                    Ok(known.insert(target.key, span))
                } else if known[target.key].frame_byte_capacity != span.frame_byte_capacity
                    || known[target.key].host_visible != span.host_visible {
                    Err(
                        VulkanResidentInProcessPlacedRuntimeErrorView::BackendLoop(
                            "component batch signal "@ + key_text(target.key)
                                + " has incompatible physical requirements"@,
                        ),
                    )
                } else {
                    Ok(known.insert(target.key, joined(known[target.key], span)))
                }
            },
        }
}

/// The uses of launch `index`.
pub open spec fn row(index: int, uses: Seq<SignalUse>) -> Seq<(int, SignalUse)> {
    Seq::new(uses.len(), |i: int| (index, uses[i]))
}

/// The uses of all launches, launch by launch.
pub open spec fn all_uses(uses: Seq<Seq<SignalUse>>) -> Seq<(int, SignalUse)>
    decreases uses.len(),
{
    if uses.len() == 0 {
        Seq::empty()
    } else {
        all_uses(uses.drop_last()) + row(uses.len() - 1, uses.last())
    }
}

/// The lifetime of a signal.
pub open spec fn lifetime_of() -> spec_fn((VulkanComponentBatchSignalKeyView, VulkanComponentBatchSignalSpanView)) -> VulkanComponentBatchSignalLifetimeView {
    |entry: (VulkanComponentBatchSignalKeyView, VulkanComponentBatchSignalSpanView)|
        VulkanComponentBatchSignalLifetimeView {
            key: entry.0,
            frame_byte_capacity: entry.1.frame_byte_capacity,
            host_visible: entry.1.host_visible,
            first_dispatch: entry.1.first_dispatch,
            last_dispatch: entry.1.last_dispatch,
        }
}

/// The lifetimes of the signals of a list of launches, in the order of the signals.
pub open spec fn signal_lifetimes(uses: Seq<Seq<SignalUse>>) -> Result<
    Seq<VulkanComponentBatchSignalLifetimeView>,
    VulkanResidentInProcessPlacedRuntimeErrorView,
> {
    match sequence::try_fold(all_uses(uses), Map::empty(), use_step(uses.len())) {
        Err(error) => Err(error),
        Ok(known) => Ok(
            ordered::sorted_entries::<VulkanComponentBatchSignalKey, VulkanComponentBatchSignalSpanView>(known).map_values(
                lifetime_of(),
            ),
        ),
    }
}

/// The buffers of the signals of a list of launches.
pub open spec fn signal_buffer_plan(uses: Seq<Seq<SignalUse>>) -> Result<
    VulkanComponentBatchSignalPlanView,
    VulkanResidentInProcessPlacedRuntimeErrorView,
> {
    match signal_lifetimes(uses) {
        Err(error) => Err(error),
        Ok(lifetimes) => Ok(signal_plan(lifetimes)),
    }
}

/// The values of a table of outcomes.
pub open spec fn uses_of(
    targets: Seq<
        Vec<
            Result<
                Option<VulkanComponentBatchSignalTarget>,
                VulkanResidentInProcessPlacedRuntimeError,
            >,
        >,
    >,
) -> Seq<Seq<SignalUse>> {
    Seq::new(targets.len(), |i: int| sequence::outcomes(targets[i]@))
}

proof fn lemma_all_uses_prefix(uses: Seq<Seq<SignalUse>>, i: int)
    requires
        0 <= i <= uses.len(),
    ensures
        all_uses(uses.take(i)).len() <= all_uses(uses).len(),
        all_uses(uses.take(i)) == all_uses(uses).take(all_uses(uses.take(i)).len() as int),
    decreases uses.len() - i,
{
    if i < uses.len() {
        lemma_all_uses_prefix(uses, i + 1);
        assert(uses.take(i + 1).drop_last() =~= uses.take(i));
        assert(all_uses(uses.take(i)) =~= all_uses(uses).take(
            all_uses(uses.take(i)).len() as int,
        ));
    } else {
        assert(uses.take(i) =~= uses);
        assert(all_uses(uses).take(all_uses(uses).len() as int) =~= all_uses(uses));
    }
}

proof fn lemma_uses_so_far(uses: Seq<Seq<SignalUse>>, i: int, j: int)
    requires
        0 <= i < uses.len(),
        0 <= j <= uses[i].len(),
    ensures
        ({
            let n = all_uses(uses.take(i)).len() + j;
            &&& n <= all_uses(uses).len()
            &&& j < uses[i].len() ==> n < all_uses(uses).len() && all_uses(uses)[n as int] == (
                i,
                uses[i][j],
            )
            &&& j == uses[i].len() ==> n == all_uses(uses.take(i + 1)).len()
        }),
{
    lemma_all_uses_prefix(uses, i);
    lemma_all_uses_prefix(uses, i + 1);
    let front = all_uses(uses.take(i));
    let whole = all_uses(uses.take(i + 1));
    assert(uses.take(i + 1).drop_last() =~= uses.take(i));
    assert(whole =~= front + row(i, uses[i]));
    if j < uses[i].len() {
        assert(whole[front.len() + j] == row(i, uses[i])[j]);
        assert(all_uses(uses)[front.len() + j] == whole[front.len() + j]);
    }
}

/// Adds the use of a signal to what is known of the signals.
fn note_signal_use(
    known: &mut OrderedMap<VulkanComponentBatchSignalKey, VulkanComponentBatchSignalSpan>,
    used: &Result<
        Option<VulkanComponentBatchSignalTarget>,
        VulkanResidentInProcessPlacedRuntimeError,
    >,
    dispatch_index: usize,
    dispatch_count: usize,
) -> (r: Result<(), VulkanResidentInProcessPlacedRuntimeError>)
    requires
        old(known).sorted(),
    ensures
        final(known).sorted(),
        match (r, use_step(dispatch_count as nat)(
            old(known)@,
            (dispatch_index as int, sequence::outcome(*used)),
        )) {
            (Ok(_), Ok(state)) => state == final(known)@,
            (Err(error), Err(expected)) => error@ == expected,
            _ => false,
        },
{
    let target: &VulkanComponentBatchSignalTarget = match used {
        Err(error) => {
            return Err(error.clone());
        },
        Ok(None) => {
            return Ok(());
        },
        Ok(Some(target)) => target,
    };
    let mut host_visible: bool = false;
    let mut first_dispatch: usize = dispatch_index;
    let mut last_dispatch: usize = dispatch_index;
    match &target.key {
        VulkanComponentBatchSignalKey::ModelInput(_) => {
            first_dispatch = 0;
        },
        VulkanComponentBatchSignalKey::ModelOutput(_) => {
            last_dispatch = dispatch_count;
        },
        VulkanComponentBatchSignalKey::IncomingEdge(_) => {
            host_visible = true;
            first_dispatch = 0;
        },
        VulkanComponentBatchSignalKey::OutgoingEdge(_) => {
            host_visible = true;
            last_dispatch = dispatch_count;
        },
        _ => {},
    }
    match known.get(&target.key) {
        None => {},
        Some(span) => {
            if span.frame_byte_capacity != target.frame_byte_capacity || span.host_visible
                != host_visible {
                return Err(
                    VulkanResidentInProcessPlacedRuntimeError::BackendLoop(
                        VulkanError(
                            Message::new("component batch signal ").text(
                                target.key.describe().as_str(),
                            ).text(" has incompatible physical requirements").done(),
                        ),
                    ),
                );
            }
            if span.first_dispatch <= first_dispatch {
                first_dispatch = span.first_dispatch;
            }
            if span.last_dispatch >= last_dispatch {
                last_dispatch = span.last_dispatch;
            }
        },
    }
    known.insert(
        target.key.clone(),
        VulkanComponentBatchSignalSpan {
            frame_byte_capacity: target.frame_byte_capacity,
            host_visible,
            first_dispatch,
            last_dispatch,
        },
    );
    Ok(())
}

/// The buffers of the signals of a list of launches, from what each descriptor of each launch turned
/// out to read or write.
#[verifier::loop_isolation(false)]
pub fn component_batch_signal_buffer_plan(
    targets: &Vec<
        Vec<
            Result<
                Option<VulkanComponentBatchSignalTarget>,
                VulkanResidentInProcessPlacedRuntimeError,
            >,
        >,
    >,
) -> (r: Result<VulkanComponentBatchSignalPlan, VulkanResidentInProcessPlacedRuntimeError>)
    ensures
        sequence::outcome(r) == signal_buffer_plan(uses_of(targets@)),
{
    let ghost uses = uses_of(targets@);
    let ghost flat = all_uses(uses);
    let ghost step = use_step(uses.len());
    let ghost init = Map::<VulkanComponentBatchSignalKeyView, VulkanComponentBatchSignalSpanView>::empty();
    let mut known: OrderedMap<VulkanComponentBatchSignalKey, VulkanComponentBatchSignalSpan> =
        OrderedMap::new();
    let mut i: usize = 0;
    assert(uses.take(0) =~= Seq::empty());
    assert(flat.take(0) =~= Seq::empty());
    while i < targets.len()
        invariant
            i <= targets.len(),
            known.sorted(),
            all_uses(uses.take(i as int)).len() <= flat.len(),
            sequence::try_fold(
                flat.take(all_uses(uses.take(i as int)).len() as int),
                init,
                step,
            ) is Ok,
            sequence::try_fold(
                flat.take(all_uses(uses.take(i as int)).len() as int),
                init,
                step,
            )->Ok_0 == known@,
        decreases targets.len() - i,
    {
        let list = &targets[i];
        let ghost front = all_uses(uses.take(i as int)).len() as int;
        assert(uses[i as int] == sequence::outcomes(list@));
        let mut j: usize = 0;
        while j < list.len()
            invariant
                j <= list.len(),
                known.sorted(),
                front + j <= flat.len(),
                sequence::try_fold(flat.take(front + j), init, step) is Ok,
                sequence::try_fold(flat.take(front + j), init, step)->Ok_0 == known@,
            decreases list.len() - j,
        {
            proof {
                lemma_uses_so_far(uses, i as int, j as int);
                assert(uses[i as int][j as int] == sequence::outcome(list@[j as int]));
                sequence::lemma_try_fold_step(flat, init, step, front + j);
                if sequence::try_fold(flat.take(front + j + 1), init, step) is Err {
                    sequence::lemma_try_fold_error(flat, init, step, front + j + 1);
                }
            }
            match note_signal_use(&mut known, &list[j], i, targets.len()) {
                Err(error) => {
                    return Err(error);
                },
                Ok(()) => {},
            }
            proof {
                lemma_uses_so_far(uses, i as int, j + 1);
            }
            j += 1;
        }
        proof {
            lemma_uses_so_far(uses, i as int, j as int);
            lemma_all_uses_prefix(uses, i + 1);
        }
        i += 1;
    }
    assert(uses.take(uses.len() as int) =~= uses);
    assert(flat.take(flat.len() as int) =~= flat);
    let ghost entries = known.entries.deep_view();
    proof {
        ordered::lemma_sorted_entries::<
            VulkanComponentBatchSignalKey,
            VulkanComponentBatchSignalSpanView,
        >(entries);
    }
    let ghost expected = entries.map_values(lifetime_of());
    let mut lifetimes: Vec<VulkanComponentBatchSignalLifetime> = Vec::new();
    let mut k: usize = 0;
    assert(lifetimes.deep_view() =~= expected.take(0));
    while k < known.entries.len()
        invariant
            k <= known.entries.len(),
            lifetimes.deep_view() == expected.take(k as int),
        decreases known.entries.len() - k,
    {
        let entry = &known.entries[k];
        assert(entries[k as int] == (entry.0@, entry.1@));
        let lifetime = VulkanComponentBatchSignalLifetime {
            key: entry.0.clone(),
            frame_byte_capacity: entry.1.frame_byte_capacity,
            host_visible: entry.1.host_visible,
            first_dispatch: entry.1.first_dispatch,
            last_dispatch: entry.1.last_dispatch,
        };
        let ghost before = lifetimes.deep_view();
        let ghost added = lifetime@;
        lifetimes.push(lifetime);
        assert(lifetimes.deep_view() =~= before.push(added));
        k += 1;
        assert(lifetimes.deep_view() =~= expected.take(k as int));
    }
    assert(expected.take(expected.len() as int) =~= expected);
    Ok(allocate_component_batch_signal_lifetimes(lifetimes))
}

/// Whether a lifetime is that of a signal which a dispatch uses: it is alive at that dispatch, from
/// the start on where the signal comes from outside, and to the end where it goes outside. The host
/// sees it where it crosses devices.
pub open spec fn alive_at(
    lifetime: VulkanComponentBatchSignalLifetimeView,
    target: VulkanComponentBatchSignalTargetView,
    dispatch: int,
    count: nat,
) -> bool {
    &&& lifetime.key == target.key
    &&& lifetime.frame_byte_capacity == target.frame_byte_capacity
    &&& lifetime.host_visible <==> target.key is IncomingEdge || target.key is OutgoingEdge
    &&& lifetime.first_dispatch <= dispatch <= lifetime.last_dispatch
    &&& target.key is ModelInput || target.key is IncomingEdge ==> lifetime.first_dispatch == 0
    &&& target.key is ModelOutput || target.key is OutgoingEdge ==> lifetime.last_dispatch == count
}

proof fn lemma_uses_known(all: Seq<(int, SignalUse)>, count: nat, i: int)
    requires
        sequence::try_fold(all, Map::empty(), use_step(count)) is Ok,
        count <= usize::MAX,
        forall|k: int| 0 <= k < all.len() ==> 0 <= (#[trigger] all[k]).0 < count,
    ensures
        ({
            let known = sequence::try_fold(all, Map::empty(), use_step(count))->Ok_0;
            &&& known.dom().finite()
            &&& forall|key: VulkanComponentBatchSignalKeyView| #[trigger]
                known.contains_key(key) ==> known[key].last_dispatch <= count
                    && known[key].first_dispatch <= known[key].last_dispatch
            &&& 0 <= i < all.len() ==> all[i].1 is Ok && (all[i].1->Ok_0 matches Some(target)
                ==> known.contains_key(target.key) && alive_at(
                lifetime_of()((target.key, known[target.key])),
                target,
                all[i].0,
                count,
            ))
        }),
    decreases all.len(),
{
    if all.len() > 0 {
        let front = all.drop_last();
        assert forall|k: int| 0 <= k < front.len() implies 0 <= (#[trigger] front[k]).0 < count by {
            assert(front[k] == all[k]);
        }
        lemma_uses_known(front, count, i);
        let used = all.last();
        assert(all[all.len() - 1] == used);
        let before = sequence::try_fold(front, Map::empty(), use_step(count))->Ok_0;
        let after = sequence::try_fold(all, Map::empty(), use_step(count))->Ok_0;
        assert(use_step(count)(before, used) == Ok::<
            Map<VulkanComponentBatchSignalKeyView, VulkanComponentBatchSignalSpanView>,
            VulkanResidentInProcessPlacedRuntimeErrorView,
        >(after));
        if 0 <= i < front.len() {
            assert(front[i] == all[i]);
        }
    }
}

proof fn lemma_use_listed(uses: Seq<Seq<SignalUse>>, d: int, k: int) -> (at: int)
    requires
        0 <= d < uses.len(),
        0 <= k < uses[d].len(),
    ensures
        0 <= at < all_uses(uses).len(),
        all_uses(uses)[at] == (d, uses[d][k]),
    decreases uses.len(),
{
    let front = all_uses(uses.drop_last());
    if d < uses.len() - 1 {
        lemma_use_listed(uses.drop_last(), d, k)
    } else {
        assert(all_uses(uses)[front.len() + k] == (d, uses[d][k]));
        front.len() + k
    }
}

proof fn lemma_uses_numbered(uses: Seq<Seq<SignalUse>>, k: int)
    requires
        0 <= k < all_uses(uses).len(),
    ensures
        0 <= all_uses(uses)[k].0 < uses.len(),
    decreases uses.len(),
{
    if uses.len() > 0 {
        let front = all_uses(uses.drop_last());
        if k < front.len() {
            lemma_uses_numbered(uses.drop_last(), k);
        }
    }
}

/// Every use of a signal falls into the lifetime of that signal.
pub proof fn signals_live_while_they_are_used(uses: Seq<Seq<SignalUse>>, d: int, k: int)
    requires
        signal_lifetimes(uses) is Ok,
        uses.len() <= usize::MAX,
        0 <= d < uses.len(),
        0 <= k < uses[d].len(),
    ensures
        uses[d][k] is Ok,
        uses[d][k]->Ok_0 matches Some(target) ==> exists|i: int|
            0 <= i < signal_lifetimes(uses)->Ok_0.len() && alive_at(
                #[trigger] signal_lifetimes(uses)->Ok_0[i],
                target,
                d,
                uses.len(),
            ),
        are_lifetimes(signal_lifetimes(uses)->Ok_0),
{
    let all = all_uses(uses);
    let count = uses.len();
    assert forall|j: int| 0 <= j < all.len() implies 0 <= (#[trigger] all[j]).0 < count by {
        lemma_uses_numbered(uses, j);
    }
    let at = lemma_use_listed(uses, d, k);
    lemma_uses_known(all, count, at);
    let known = sequence::try_fold(all, Map::empty(), use_step(count))->Ok_0;
    let entries = ordered::sorted_entries::<
        VulkanComponentBatchSignalKey,
        VulkanComponentBatchSignalSpanView,
    >(known);
    ordered::sorting_keeps_the_entries::<
        VulkanComponentBatchSignalKey,
        VulkanComponentBatchSignalSpanView,
    >(known);
    ordered::lemma_increasing_entries::<
        VulkanComponentBatchSignalKey,
        VulkanComponentBatchSignalSpanView,
    >(entries);
    let lifetimes = signal_lifetimes(uses)->Ok_0;
    match uses[d][k] {
        Ok(Some(target)) => {
            let i = choose|i: int|
                0 <= i < entries.len() && (#[trigger] entries[i]).0 == target.key && entries[i].1
                    == ordered::map_of(entries)[target.key];
            assert(lifetimes[i] == lifetime_of()(entries[i]));
            assert(alive_at(lifetimes[i], target, d, count));
        },
        _ => {},
    }
    assert forall|i: int| 0 <= i < lifetimes.len() implies (
    #[trigger] lifetimes[i]).first_dispatch <= lifetimes[i].last_dispatch by {
        assert(known.contains_key(entries[i].0));
        assert(known[entries[i].0] == entries[i].1);
    }
    assert forall|i: int, j: int| 0 <= i < j < lifetimes.len() implies (
    #[trigger] lifetimes[i]).key != (#[trigger] lifetimes[j]).key by {
        assert(entries[i].0 != entries[j].0);
    }
}

proof fn lemma_placed_where_allocated(
    s: Seq<VulkanComponentBatchSignalLifetimeView>,
    places: Seq<int>,
    i: int,
)
    requires
        places.len() == s.len(),
        0 <= i < s.len(),
        forall|a: int, b: int|
            0 <= a < b < s.len() ==> (#[trigger] s[a]).key != (#[trigger] s[b]).key,
    ensures
        placed(s, places).contains_key(s[i].key),
        placed(s, places)[s[i].key] == places[i] as usize,
    decreases s.len(),
{
    let front = s.drop_last();
    if i < front.len() {
        assert forall|a: int, b: int| 0 <= a < b < front.len() implies (#[trigger] front[a]).key
            != (#[trigger] front[b]).key by {
            assert(s[a].key != s[b].key);
        }
        lemma_placed_where_allocated(front, places.drop_last(), i);
        assert(s[i].key != s[s.len() - 1].key);
    }
}

proof fn lemma_buffer_kept(s: Seq<VulkanComponentBatchSignalLifetimeView>, i: int)
    requires
        0 <= i < s.len(),
    ensures
        ({
            let (buffers, places) = allocated(s);
            &&& 0 <= places[i] < buffers.len()
            &&& buffers[places[i]].frame_byte_capacity == s[i].frame_byte_capacity
            &&& buffers[places[i]].host_visible == s[i].host_visible
        }),
    decreases s.len(),
{
    let front = s.drop_last();
    lemma_allocated_shape(s);
    lemma_allocated_shape(front);
    let (buffers, places) = allocated(front);
    sequence::lemma_first_position(buffers, can_take_over(s.last()));
    if i < front.len() {
        lemma_buffer_kept(front, i);
    }
}

/// Every signal has a buffer of its size, which the host sees where the signal asks for it. Signals
/// that are alive at the same time have different buffers.
pub proof fn live_signals_never_share_a_buffer(
    lifetimes: Seq<VulkanComponentBatchSignalLifetimeView>,
    i: int,
    j: int,
)
    requires
        are_lifetimes(lifetimes),
        lifetimes.len() <= usize::MAX,
        0 <= i < lifetimes.len(),
        0 <= j < lifetimes.len(),
    ensures
        ({
            let plan = signal_plan(lifetimes);
            let one = lifetimes[i];
            let other = lifetimes[j];
            let here = plan.signal_buffer_indices[one.key];
            let there = plan.signal_buffer_indices[other.key];
            &&& plan.signal_buffer_indices.contains_key(one.key)
            &&& here < plan.buffers.len()
            &&& plan.buffers[here as int].frame_byte_capacity == one.frame_byte_capacity
            &&& plan.buffers[here as int].host_visible == one.host_visible
            &&& i != j && one.first_dispatch <= other.last_dispatch && other.first_dispatch
                <= one.last_dispatch ==> here != there
        }),
{
    let s = sorted_lifetimes(lifetimes);
    let (buffers, places) = allocated(s);
    lemma_sorted_are_lifetimes(lifetimes);
    sorting_keeps_the_lifetimes(lifetimes);
    lemma_allocated_shape(s);
    s.to_multiset_ensures();
    lifetimes.to_multiset_ensures();
    assert(lifetimes.contains(lifetimes[i]));
    assert(lifetimes.contains(lifetimes[j]));
    assert(lifetimes.to_multiset().contains(lifetimes[i]));
    assert(lifetimes.to_multiset().contains(lifetimes[j]));
    assert(s.contains(lifetimes[i]));
    assert(s.contains(lifetimes[j]));
    let a = choose|a: int| 0 <= a < s.len() && s[a] == lifetimes[i];
    let b = choose|b: int| 0 <= b < s.len() && s[b] == lifetimes[j];
    lemma_placed_where_allocated(s, places, a);
    lemma_placed_where_allocated(s, places, b);
    lemma_buffer_kept(s, a);
    lemma_buffer_kept(s, b);
    if i != j && places[a] == places[b] {
        assert(lifetimes[i].key != lifetimes[j].key) by {
            if i < j {
                assert(lifetimes[i].key != lifetimes[j].key);
            } else {
                assert(lifetimes[j].key != lifetimes[i].key);
            }
        }
        if a < b {
            shared_buffers_never_overlap(s, a, b);
        } else {
            shared_buffers_never_overlap(s, b, a);
        }
    }
}

} // verus!
