//! The execution units of a batch: runs of local launches, and distributed launches between them.

use crate::device::VulkanError;
use crate::ordered::OrderedSet;
use crate::sequence;
use crate::text;
use crate::text::Message;
use vstd::prelude::*;

verus! {

/// What a batch executes as one: the steps of a component, or a distributed launch.
#[derive(Debug, PartialEq, Eq)]
pub enum VulkanComponentBatchExecutionUnit {
    LocalComponent { component_id: String, step_start: usize, step_end: usize },
    DistributedDispatch { dispatch_index: usize },
}

#[verifier::ext_equal]
pub enum VulkanComponentBatchExecutionUnitView {
    LocalComponent { component_id: Seq<char>, step_start: usize, step_end: usize },
    DistributedDispatch { dispatch_index: usize },
}

impl DeepView for VulkanComponentBatchExecutionUnit {
    type V = VulkanComponentBatchExecutionUnitView;

    open spec fn deep_view(&self) -> VulkanComponentBatchExecutionUnitView {
        match self {
            VulkanComponentBatchExecutionUnit::LocalComponent { component_id, step_start, step_end } => VulkanComponentBatchExecutionUnitView::LocalComponent { component_id: component_id.deep_view(), step_start: *step_start, step_end: *step_end },
            VulkanComponentBatchExecutionUnit::DistributedDispatch { dispatch_index } => VulkanComponentBatchExecutionUnitView::DistributedDispatch { dispatch_index: *dispatch_index },
        }
    }
}

impl View for VulkanComponentBatchExecutionUnit {
    type V = VulkanComponentBatchExecutionUnitView;

    open spec fn view(&self) -> VulkanComponentBatchExecutionUnitView {
        self.deep_view()
    }
}

impl Clone for VulkanComponentBatchExecutionUnit {
    fn clone(&self) -> (r: Self)
        ensures
            r@ == self@,
    {
        match self {
            VulkanComponentBatchExecutionUnit::LocalComponent { component_id, step_start, step_end } => VulkanComponentBatchExecutionUnit::LocalComponent { component_id: component_id.clone(), step_start: *step_start, step_end: *step_end },
            VulkanComponentBatchExecutionUnit::DistributedDispatch { dispatch_index } => VulkanComponentBatchExecutionUnit::DistributedDispatch { dispatch_index: *dispatch_index },
        }
    }
}

/// The steps of a launch; a distributed launch has none of its own.
#[derive(Debug, PartialEq, Eq)]
pub struct VulkanComponentBatchDispatchSpan {
    pub component_id: String,
    pub dispatch_index: usize,
    pub step_start: usize,
    pub step_end: usize,
    pub distributed: bool,
}

#[verifier::ext_equal]
pub struct VulkanComponentBatchDispatchSpanView {
    pub component_id: Seq<char>,
    pub dispatch_index: usize,
    pub step_start: usize,
    pub step_end: usize,
    pub distributed: bool,
}

impl DeepView for VulkanComponentBatchDispatchSpan {
    type V = VulkanComponentBatchDispatchSpanView;

    open spec fn deep_view(&self) -> VulkanComponentBatchDispatchSpanView {
        VulkanComponentBatchDispatchSpanView {
            component_id: self.component_id.deep_view(),
            dispatch_index: self.dispatch_index,
            step_start: self.step_start,
            step_end: self.step_end,
            distributed: self.distributed,
        }
    }
}

impl View for VulkanComponentBatchDispatchSpan {
    type V = VulkanComponentBatchDispatchSpanView;

    open spec fn view(&self) -> VulkanComponentBatchDispatchSpanView {
        self.deep_view()
    }
}

impl Clone for VulkanComponentBatchDispatchSpan {
    fn clone(&self) -> (r: Self)
        ensures
            r@ == self@,
    {
        VulkanComponentBatchDispatchSpan {
            component_id: self.component_id.clone(),
            dispatch_index: self.dispatch_index,
            step_start: self.step_start,
            step_end: self.step_end,
            distributed: self.distributed,
        }
    }
}

/// The units so far, the component whose steps are still being collected, with its first step, the
/// step that the next launch has to start at, and the launch before it.
#[verifier::ext_equal]
pub struct UnitsSoFar {
    pub units: Seq<VulkanComponentBatchExecutionUnitView>,
    pub component: Option<Seq<char>>,
    pub local_start: usize,
    pub expected: usize,
    pub previous: Option<usize>,
}

/// The units, with those of the component that is being collected.
pub open spec fn closed_units(state: UnitsSoFar, end: usize) -> Seq<
    VulkanComponentBatchExecutionUnitView,
> {
    match state.component {
        Some(component_id) => if state.local_start < end {
            state.units.push(
                VulkanComponentBatchExecutionUnitView::LocalComponent {
                    component_id,
                    step_start: state.local_start,
                    step_end: end,
                },
            )
        } else {
            state.units
        },
        None => state.units,
    }
}

/// The error where a launch does not follow on those before it.
pub open spec fn span_error(
    state: UnitsSoFar,
    span: VulkanComponentBatchDispatchSpanView,
) -> Option<Seq<char>> {
    let index = text::decimal(span.dispatch_index as nat);
    if span.step_start != state.expected {
        Some(
            "component batch dispatch "@ + index + " starts at step "@ + text::decimal(
                span.step_start as nat,
            ) + ", expected "@ + text::decimal(state.expected as nat),
        )
    } else if state.previous is Some && state.previous->Some_0 >= span.dispatch_index {
        Some("component batch dispatch indices are not strictly increasing at "@ + index)
    } else if span.distributed && span.step_end != span.step_start {
        Some(
            "distributed component batch dispatch "@ + index + " owns local steps "@
                + text::decimal(span.step_start as nat) + ".."@ + text::decimal(
                span.step_end as nat,
            ),
        )
    } else if !span.distributed && span.step_end <= span.step_start {
        Some("local component batch dispatch "@ + index + " has no executable steps"@)
    } else {
        None
    }
}

/// How a launch is added to the units.
pub open spec fn unit_step() -> spec_fn(UnitsSoFar, VulkanComponentBatchDispatchSpanView) -> Result<
    UnitsSoFar,
    Seq<char>,
> {
    |state: UnitsSoFar, span: VulkanComponentBatchDispatchSpanView|
        match span_error(state, span) {
            Some(error) => Err(error),
            None => if span.distributed {
                Ok(
                    UnitsSoFar {
                        units: closed_units(state, span.step_start).push(
                            VulkanComponentBatchExecutionUnitView::DistributedDispatch {
                                dispatch_index: span.dispatch_index,
                            },
                        ),
                        component: None,
                        local_start: state.local_start,
                        expected: span.step_end,
                        previous: Some(span.dispatch_index),
                    },
                )
            } else if state.component == Some(span.component_id) {
                Ok(
                    UnitsSoFar {
                        expected: span.step_end,
                        previous: Some(span.dispatch_index),
                        ..state
                    },
                )
            } else {
                Ok(
                    UnitsSoFar {
                        units: closed_units(state, span.step_start),
                        component: Some(span.component_id),
                        local_start: span.step_start,
                        expected: span.step_end,
                        previous: Some(span.dispatch_index),
                    },
                )
            },
        }
}

/// No units yet.
pub open spec fn no_units() -> UnitsSoFar {
    UnitsSoFar {
        units: Seq::empty(),
        component: None,
        local_start: 0,
        expected: 0,
        previous: None,
    }
}

/// The units of a list of launches.
pub open spec fn execution_units(spans: Seq<VulkanComponentBatchDispatchSpanView>) -> Result<
    Seq<VulkanComponentBatchExecutionUnitView>,
    Seq<char>,
> {
    match sequence::try_fold(spans, no_units(), unit_step()) {
        Err(error) => Err(error),
        Ok(state) => Ok(closed_units(state, state.expected)),
    }
}

/// Whether a unit is executed: a distributed one only where it leads its group.
pub open spec fn is_executed(leaders: Set<usize>) -> spec_fn(VulkanComponentBatchExecutionUnitView) -> bool {
    |unit: VulkanComponentBatchExecutionUnitView|
        match unit {
            VulkanComponentBatchExecutionUnitView::DistributedDispatch { dispatch_index } => {
                leaders.contains(dispatch_index)
            },
            VulkanComponentBatchExecutionUnitView::LocalComponent { .. } => true,
        }
}

/// The units of a list of launches, of which the distributed ones are led by these.
pub open spec fn grouped_units(
    spans: Seq<VulkanComponentBatchDispatchSpanView>,
    leaders: Set<usize>,
) -> Result<Seq<VulkanComponentBatchExecutionUnitView>, Seq<char>> {
    match execution_units(spans) {
        Err(error) => Err(error),
        Ok(units) => Ok(units.filter(is_executed(leaders))),
    }
}

/// Whether the local units are not empty, follow on each other and together reach from one step to
/// another.
pub open spec fn tiles_steps(
    units: Seq<VulkanComponentBatchExecutionUnitView>,
    from: usize,
    to: usize,
) -> bool
    decreases units.len(),
{
    if units.len() == 0 {
        from == to
    } else {
        match units.last() {
            VulkanComponentBatchExecutionUnitView::LocalComponent {
                component_id,
                step_start,
                step_end,
            } => step_end == to && step_start < step_end && tiles_steps(
                units.drop_last(),
                from,
                step_start,
            ),
            VulkanComponentBatchExecutionUnitView::DistributedDispatch { dispatch_index } => {
                tiles_steps(units.drop_last(), from, to)
            },
        }
    }
}

/// The distributed launches among the units.
pub open spec fn distributed_units(units: Seq<VulkanComponentBatchExecutionUnitView>) -> Seq<usize>
    decreases units.len(),
{
    if units.len() == 0 {
        Seq::empty()
    } else {
        match units.last() {
            VulkanComponentBatchExecutionUnitView::LocalComponent { .. } => distributed_units(
                units.drop_last(),
            ),
            VulkanComponentBatchExecutionUnitView::DistributedDispatch { dispatch_index } => {
                distributed_units(units.drop_last()).push(dispatch_index)
            },
        }
    }
}

/// The distributed launches among the spans.
pub open spec fn distributed_spans(spans: Seq<VulkanComponentBatchDispatchSpanView>) -> Seq<usize>
    decreases spans.len(),
{
    if spans.len() == 0 {
        Seq::empty()
    } else if spans.last().distributed {
        distributed_spans(spans.drop_last()).push(spans.last().dispatch_index)
    } else {
        distributed_spans(spans.drop_last())
    }
}

proof fn lemma_closed(state: UnitsSoFar, end: usize)
    requires
        state.component is Some ==> state.local_start < end && tiles_steps(
            state.units,
            0,
            state.local_start,
        ),
        state.component is None ==> tiles_steps(state.units, 0, end),
    ensures
        tiles_steps(closed_units(state, end), 0, end),
        distributed_units(closed_units(state, end)) == distributed_units(state.units),
{
    let units = closed_units(state, end);
    if state.component is Some {
        assert(units.drop_last() =~= state.units);
    }
}

proof fn lemma_units_so_far(spans: Seq<VulkanComponentBatchDispatchSpanView>)
    requires
        sequence::try_fold(spans, no_units(), unit_step()) is Ok,
    ensures
        ({
            let state = sequence::try_fold(spans, no_units(), unit_step())->Ok_0;
            &&& state.component is Some ==> state.local_start < state.expected && tiles_steps(
                state.units,
                0,
                state.local_start,
            )
            &&& state.component is None ==> tiles_steps(state.units, 0, state.expected)
            &&& distributed_units(state.units) == distributed_spans(spans)
            &&& state.expected == (if spans.len() == 0 {
                0
            } else {
                spans.last().step_end
            })
        }),
    decreases spans.len(),
{
    if spans.len() > 0 {
        let front = spans.drop_last();
        lemma_units_so_far(front);
        let before = sequence::try_fold(front, no_units(), unit_step())->Ok_0;
        let span = spans.last();
        lemma_closed(before, before.expected);
        let after = sequence::try_fold(spans, no_units(), unit_step())->Ok_0;
        if span.distributed {
            assert(after.units.drop_last() =~= closed_units(before, span.step_start));
        }
    }
}

/// The local units cover the steps of the launches: each step belongs to one unit, and the units
/// stand in the order of their steps. The distributed launches stand between them, in order.
pub proof fn units_cover_the_steps(spans: Seq<VulkanComponentBatchDispatchSpanView>)
    requires
        execution_units(spans) is Ok,
    ensures
        tiles_steps(
            execution_units(spans)->Ok_0,
            0,
            if spans.len() == 0 {
                0
            } else {
                spans.last().step_end
            },
        ),
        distributed_units(execution_units(spans)->Ok_0) == distributed_spans(spans),
{
    lemma_units_so_far(spans);
    let state = sequence::try_fold(spans, no_units(), unit_step())->Ok_0;
    lemma_closed(state, state.expected);
}

fn finish_component_batch_local_execution_unit(
    execution_units: &mut Vec<VulkanComponentBatchExecutionUnit>,
    component_id: &Option<String>,
    step_start: usize,
    step_end: usize,
    Ghost(state): Ghost<UnitsSoFar>,
)
    requires
        old(execution_units).deep_view() == state.units,
        component_id.deep_view() == state.component,
        step_start == state.local_start,
    ensures
        final(execution_units).deep_view() == closed_units(state, step_end),
{
    match component_id {
        None => {},
        Some(component_id) => {
            if step_start < step_end {
                let unit = VulkanComponentBatchExecutionUnit::LocalComponent {
                    component_id: component_id.clone(),
                    step_start,
                    step_end,
                };
                let ghost added = unit@;
                execution_units.push(unit);
                assert(execution_units.deep_view() =~= state.units.push(added));
            }
        },
    }
}

/// Refuses a launch that does not follow on those before it.
fn check_span(
    span: &VulkanComponentBatchDispatchSpan,
    expected_step_start: usize,
    previous_dispatch_index: Option<usize>,
    Ghost(state): Ghost<UnitsSoFar>,
) -> (r: Result<(), VulkanError>)
    requires
        expected_step_start == state.expected,
        previous_dispatch_index == state.previous,
    ensures
        sequence::outcome(r) == (match span_error(state, span@) {
            Some(error) => Err::<(), Seq<char>>(error),
            None => Ok(()),
        }),
{
    if span.step_start != expected_step_start {
        return Err(
            VulkanError(
                Message::new("component batch dispatch ").number(span.dispatch_index).text(
                    " starts at step ",
                ).number(span.step_start).text(", expected ").number(expected_step_start).done(),
            ),
        );
    }
    match previous_dispatch_index {
        None => {},
        Some(previous) => {
            if previous >= span.dispatch_index {
                return Err(
                    VulkanError(
                        Message::new(
                            "component batch dispatch indices are not strictly increasing at ",
                        ).number(span.dispatch_index).done(),
                    ),
                );
            }
        },
    }
    if span.distributed && span.step_end != span.step_start {
        return Err(
            VulkanError(
                Message::new("distributed component batch dispatch ").number(
                    span.dispatch_index,
                ).text(" owns local steps ").number(span.step_start).text("..").number(
                    span.step_end,
                ).done(),
            ),
        );
    }
    if !span.distributed && span.step_end <= span.step_start {
        return Err(
            VulkanError(
                Message::new("local component batch dispatch ").number(span.dispatch_index).text(
                    " has no executable steps",
                ).done(),
            ),
        );
    }
    Ok(())
}

/// The units of a list of launches.
#[verifier::loop_isolation(false)]
pub fn component_batch_execution_units(
    dispatch_spans: &Vec<VulkanComponentBatchDispatchSpan>,
) -> (r: Result<Vec<VulkanComponentBatchExecutionUnit>, VulkanError>)
    ensures
        sequence::outcome(r) == execution_units(dispatch_spans.deep_view()),
{
    let ghost all = dispatch_spans.deep_view();
    let ghost mut state = no_units();
    let mut execution_units: Vec<VulkanComponentBatchExecutionUnit> = Vec::new();
    let mut current_component_id: Option<String> = None;
    let mut local_step_start: usize = 0;
    let mut expected_step_start: usize = 0;
    let mut previous_dispatch_index: Option<usize> = None;
    let mut i: usize = 0;
    assert(all.take(0) =~= Seq::empty());
    assert(execution_units.deep_view() =~= Seq::empty());
    while i < dispatch_spans.len()
        invariant
            i <= dispatch_spans.len(),
            sequence::try_fold(all.take(i as int), no_units(), unit_step()) == Ok::<
                UnitsSoFar,
                Seq<char>,
            >(state),
            execution_units.deep_view() == state.units,
            current_component_id.deep_view() == state.component,
            local_step_start == state.local_start,
            expected_step_start == state.expected,
            previous_dispatch_index == state.previous,
        decreases dispatch_spans.len() - i,
    {
        let span = &dispatch_spans[i];
        proof {
            assert(all[i as int] == span@);
            sequence::lemma_try_fold_step(all, no_units(), unit_step(), i as int);
            if sequence::try_fold(all.take(i + 1), no_units(), unit_step()) is Err {
                sequence::lemma_try_fold_error(all, no_units(), unit_step(), i + 1);
            }
        }
        match check_span(span, expected_step_start, previous_dispatch_index, Ghost(state)) {
            Err(error) => {
                return Err(error);
            },
            Ok(()) => {},
        }
        previous_dispatch_index = Some(span.dispatch_index);
        expected_step_start = span.step_end;
        if span.distributed {
            finish_component_batch_local_execution_unit(
                &mut execution_units,
                &current_component_id,
                local_step_start,
                span.step_start,
                Ghost(state),
            );
            current_component_id = None;
            let ghost before = execution_units.deep_view();
            let unit = VulkanComponentBatchExecutionUnit::DistributedDispatch {
                dispatch_index: span.dispatch_index,
            };
            let ghost added = unit@;
            execution_units.push(unit);
            assert(execution_units.deep_view() =~= before.push(added));
        } else {
            let goes_on: bool = match &current_component_id {
                Some(component_id) => text::same(
                    component_id.as_str(),
                    span.component_id.as_str(),
                ),
                None => false,
            };
            if !goes_on {
                finish_component_batch_local_execution_unit(
                    &mut execution_units,
                    &current_component_id,
                    local_step_start,
                    span.step_start,
                    Ghost(state),
                );
                current_component_id = Some(span.component_id.clone());
                local_step_start = span.step_start;
            }
        }
        proof {
            state = unit_step()(state, span@)->Ok_0;
        }
        i += 1;
    }
    assert(all.take(all.len() as int) =~= all);
    finish_component_batch_local_execution_unit(
        &mut execution_units,
        &current_component_id,
        local_step_start,
        expected_step_start,
        Ghost(state),
    );
    Ok(execution_units)
}

/// The units of a list of launches, of which the distributed ones are led by these.
#[verifier::loop_isolation(false)]
pub fn component_batch_execution_units_for_distributed_groups(
    dispatch_spans: &Vec<VulkanComponentBatchDispatchSpan>,
    distributed_group_leaders: &OrderedSet<usize>,
) -> (r: Result<Vec<VulkanComponentBatchExecutionUnit>, VulkanError>)
    ensures
        sequence::outcome(r) == grouped_units(
            dispatch_spans.deep_view(),
            distributed_group_leaders@,
        ),
{
    let units: Vec<VulkanComponentBatchExecutionUnit> = match component_batch_execution_units(
        dispatch_spans,
    ) {
        Err(error) => {
            return Err(error);
        },
        Ok(units) => units,
    };
    let ghost all = units.deep_view();
    let ghost p = is_executed(distributed_group_leaders@);
    let mut kept: Vec<VulkanComponentBatchExecutionUnit> = Vec::new();
    let mut i: usize = 0;
    proof {
        reveal(Seq::filter);
        assert(all.take(0) =~= Seq::empty());
        assert(kept.deep_view() =~= all.take(0).filter(p));
    }
    while i < units.len()
        invariant
            i <= units.len(),
            kept.deep_view() == all.take(i as int).filter(p),
        decreases units.len() - i,
    {
        let unit = &units[i];
        proof {
            assert(all[i as int] == unit@);
            assert(all.take(i + 1).drop_last() =~= all.take(i as int));
        }
        let executed: bool = match unit {
            VulkanComponentBatchExecutionUnit::DistributedDispatch { dispatch_index } => {
                distributed_group_leaders.contains(dispatch_index)
            },
            VulkanComponentBatchExecutionUnit::LocalComponent { .. } => true,
        };
        if executed {
            let ghost before = kept.deep_view();
            kept.push(unit.clone());
            assert(kept.deep_view() =~= before.push(unit@));
        }
        i += 1;
    }
    assert(all.take(all.len() as int) =~= all);
    Ok(kept)
}

/// Whether the steps of a span lie in a unit of its own component.
pub open spec fn holds_span(
    units: Seq<VulkanComponentBatchExecutionUnitView>,
    span: VulkanComponentBatchDispatchSpanView,
) -> bool {
    exists|u: int| 0 <= u < units.len() && is_unit_of(#[trigger] units[u], span)
}

/// Whether a unit runs the steps of a span, under the span's component.
pub open spec fn is_unit_of(
    unit: VulkanComponentBatchExecutionUnitView,
    span: VulkanComponentBatchDispatchSpanView,
) -> bool {
    unit matches VulkanComponentBatchExecutionUnitView::LocalComponent {
        component_id,
        step_start,
        step_end,
    } && component_id == span.component_id && step_start <= span.step_start && span.step_end
        <= step_end
}

proof fn lemma_held_or_open(spans: Seq<VulkanComponentBatchDispatchSpanView>, j: int)
    requires
        sequence::try_fold(spans, no_units(), unit_step()) is Ok,
        0 <= j < spans.len(),
        !spans[j].distributed,
    ensures
        ({
            let state = sequence::try_fold(spans, no_units(), unit_step())->Ok_0;
            &&& spans[j].step_start < spans[j].step_end <= state.expected
            &&& {
                ||| holds_span(state.units, spans[j])
                ||| state.component == Some(spans[j].component_id) && state.local_start
                    <= spans[j].step_start
            }
        }),
    decreases spans.len(),
{
    let front = spans.drop_last();
    let before = sequence::try_fold(front, no_units(), unit_step())->Ok_0;
    let after = sequence::try_fold(spans, no_units(), unit_step())->Ok_0;
    let last = spans.last();
    lemma_units_so_far(front);
    if j < front.len() {
        lemma_held_or_open(front, j);
        let span = spans[j];
        assert(front[j] == span);
        let closed = closed_units(before, last.step_start);
        if holds_span(before.units, span) {
            let u = choose|u: int|
                0 <= u < before.units.len() && is_unit_of(#[trigger] before.units[u], span);
            assert(is_unit_of(closed[u], span));
            assert(is_unit_of(after.units[u], span));
        } else if after.component != before.component || last.distributed {
            assert(is_unit_of(closed[closed.len() - 1], span));
            assert(is_unit_of(after.units[closed.len() - 1], span));
        }
    }
}

/// Every dispatch that runs locally runs in a unit of its own component.
pub proof fn local_dispatches_run_in_their_component(
    spans: Seq<VulkanComponentBatchDispatchSpanView>,
    j: int,
)
    requires
        execution_units(spans) is Ok,
        0 <= j < spans.len(),
        !spans[j].distributed,
    ensures
        holds_span(execution_units(spans)->Ok_0, spans[j]),
{
    lemma_held_or_open(spans, j);
    let state = sequence::try_fold(spans, no_units(), unit_step())->Ok_0;
    let units = closed_units(state, state.expected);
    if holds_span(state.units, spans[j]) {
        let u = choose|u: int|
            0 <= u < state.units.len() && is_unit_of(#[trigger] state.units[u], spans[j]);
        assert(is_unit_of(units[u], spans[j]));
    } else {
        assert(is_unit_of(units[units.len() - 1], spans[j]));
    }
}

/// Of the distributed dispatches only the leaders of their groups are run as units; every local unit
/// is kept.
pub proof fn groups_run_by_their_leader(
    spans: Seq<VulkanComponentBatchDispatchSpanView>,
    leaders: Set<usize>,
    u: int,
)
    requires
        grouped_units(spans, leaders) is Ok,
        0 <= u < grouped_units(spans, leaders)->Ok_0.len(),
    ensures
        ({
            let unit = grouped_units(spans, leaders)->Ok_0[u];
            &&& execution_units(spans) is Ok
            &&& execution_units(spans)->Ok_0.contains(unit)
            &&& unit matches VulkanComponentBatchExecutionUnitView::DistributedDispatch {
                dispatch_index,
            } ==> leaders.contains(dispatch_index)
        }),
{
    let units = execution_units(spans)->Ok_0;
    sequence::lemma_kept_is_given(units, is_executed(leaders), u);
    units.lemma_filter_pred(is_executed(leaders), u);
}

} // verus!
