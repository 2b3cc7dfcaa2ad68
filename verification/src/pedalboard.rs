//! A board of pedals: compute kernels over words, run in series.

use crate::device::VulkanComputeDevice;
use crate::device::VulkanError;
use crate::sequence;
use crate::text;
use crate::text::Message;
use vstd::prelude::*;

verus! {

/// A pedal: a named kernel that maps words to words.
#[derive(Debug, PartialEq, Eq)]
pub struct VulkanU32ShaderPedal {
    pub pedal_id: String,
    pub op: String,
    pub spirv_words: Vec<u32>,
    pub local_size_x: u32,
}

#[verifier::ext_equal]
pub struct VulkanU32ShaderPedalView {
    pub pedal_id: Seq<char>,
    pub op: Seq<char>,
    pub spirv_words: Seq<u32>,
    pub local_size_x: u32,
}

impl DeepView for VulkanU32ShaderPedal {
    type V = VulkanU32ShaderPedalView;

    open spec fn deep_view(&self) -> VulkanU32ShaderPedalView {
        VulkanU32ShaderPedalView {
            pedal_id: self.pedal_id.deep_view(),
            op: self.op.deep_view(),
            spirv_words: self.spirv_words.deep_view(),
            local_size_x: self.local_size_x,
        }
    }
}

impl View for VulkanU32ShaderPedal {
    type V = VulkanU32ShaderPedalView;

    open spec fn view(&self) -> VulkanU32ShaderPedalView {
        self.deep_view()
    }
}

impl Clone for VulkanU32ShaderPedal {
    fn clone(&self) -> (r: Self)
        ensures
            r@ == self@,
    {
        VulkanU32ShaderPedal {
            pedal_id: self.pedal_id.clone(),
            op: self.op.clone(),
            spirv_words: self.spirv_words.clone(),
            local_size_x: self.local_size_x,
        }
    }
}

impl VulkanU32ShaderPedal {
    /// The pedal's name.
    pub fn pedal_id(&self) -> (r: &str)
        ensures
            r@ == self@.pedal_id,
    {
        self.pedal_id.as_str()
    }
}

/// One pedal's run.
#[derive(Debug, PartialEq, Eq)]
pub struct VulkanU32PedalRun {
    pub pedal_id: String,
    pub input: Vec<u32>,
    pub output: Vec<u32>,
}

#[verifier::ext_equal]
pub struct VulkanU32PedalRunView {
    pub pedal_id: Seq<char>,
    pub input: Seq<u32>,
    pub output: Seq<u32>,
}

impl DeepView for VulkanU32PedalRun {
    type V = VulkanU32PedalRunView;

    open spec fn deep_view(&self) -> VulkanU32PedalRunView {
        VulkanU32PedalRunView {
            pedal_id: self.pedal_id.deep_view(),
            input: self.input.deep_view(),
            output: self.output.deep_view(),
        }
    }
}

impl View for VulkanU32PedalRun {
    type V = VulkanU32PedalRunView;

    open spec fn view(&self) -> VulkanU32PedalRunView {
        self.deep_view()
    }
}

impl Clone for VulkanU32PedalRun {
    fn clone(&self) -> (r: Self)
        ensures
            r@ == self@,
    {
        VulkanU32PedalRun {
            pedal_id: self.pedal_id.clone(),
            input: self.input.clone(),
            output: self.output.clone(),
        }
    }
}

/// A board's run.
#[derive(Debug, PartialEq, Eq)]
pub struct VulkanU32PedalboardRun {
    pub device_name: String,
    pub input: Vec<u32>,
    pub output: Vec<u32>,
    pub steps: Vec<VulkanU32PedalRun>,
}

#[verifier::ext_equal]
pub struct VulkanU32PedalboardRunView {
    pub device_name: Seq<char>,
    pub input: Seq<u32>,
    pub output: Seq<u32>,
    pub steps: Seq<VulkanU32PedalRunView>,
}

impl DeepView for VulkanU32PedalboardRun {
    type V = VulkanU32PedalboardRunView;

    open spec fn deep_view(&self) -> VulkanU32PedalboardRunView {
        VulkanU32PedalboardRunView {
            device_name: self.device_name.deep_view(),
            input: self.input.deep_view(),
            output: self.output.deep_view(),
            steps: self.steps.deep_view(),
        }
    }
}

impl View for VulkanU32PedalboardRun {
    type V = VulkanU32PedalboardRunView;

    open spec fn view(&self) -> VulkanU32PedalboardRunView {
        self.deep_view()
    }
}

impl Clone for VulkanU32PedalboardRun {
    fn clone(&self) -> (r: Self)
        ensures
            r@ == self@,
    {
        VulkanU32PedalboardRun {
            device_name: self.device_name.clone(),
            input: self.input.clone(),
            output: self.output.clone(),
            steps: self.steps.clone(),
        }
    }
}

/// Pedals in series.
#[derive(Debug, PartialEq, Eq)]
pub struct VulkanU32Pedalboard {
    pub pedals: Vec<VulkanU32ShaderPedal>,
}

#[verifier::ext_equal]
pub struct VulkanU32PedalboardView {
    pub pedals: Seq<VulkanU32ShaderPedalView>,
}

impl DeepView for VulkanU32Pedalboard {
    type V = VulkanU32PedalboardView;

    open spec fn deep_view(&self) -> VulkanU32PedalboardView {
        VulkanU32PedalboardView {
            pedals: self.pedals.deep_view(),
        }
    }
}

impl View for VulkanU32Pedalboard {
    type V = VulkanU32PedalboardView;

    open spec fn view(&self) -> VulkanU32PedalboardView {
        self.deep_view()
    }
}

impl Clone for VulkanU32Pedalboard {
    fn clone(&self) -> (r: Self)
        ensures
            r@ == self@,
    {
        VulkanU32Pedalboard {
            pedals: self.pedals.clone(),
        }
    }
}

/// What is said of a position without a pedal.
pub open spec fn no_pedal(index: usize) -> Seq<char> {
    "no pedal at index "@ + text::decimal(index as nat)
}

/// A board with one pedal doubled, right behind itself.
pub open spec fn duplicated(
    board: VulkanU32PedalboardView,
    index: usize,
) -> (Result<(), Seq<char>>, VulkanU32PedalboardView) {
    if index >= board.pedals.len() {
        (Err(no_pedal(index)), board)
    } else {
        (
            Ok(()),
            VulkanU32PedalboardView {
                pedals: board.pedals.insert(index + 1, board.pedals[index as int]),
            },
        )
    }
}

/// A board with one pedal taken out.
pub open spec fn removed(board: VulkanU32PedalboardView, index: usize) -> (
    Result<VulkanU32ShaderPedalView, Seq<char>>,
    VulkanU32PedalboardView,
) {
    if index >= board.pedals.len() {
        (Err(no_pedal(index)), board)
    } else {
        (
            Ok(board.pedals[index as int]),
            VulkanU32PedalboardView { pedals: board.pedals.remove(index as int) },
        )
    }
}

/// What a device call gave.
pub type WordsOutcome = Result<Seq<u32>, Seq<char>>;

/// The values of what the pedals gave.
pub open spec fn words_outcomes(outcomes: Seq<Result<Vec<u32>, VulkanError>>) -> Seq<WordsOutcome> {
    Seq::new(outcomes.len(), |i: int| sequence::outcome(outcomes[i]))
}

/// What the pedal at a position is given: the board's input, or the output of the pedal before it.
pub open spec fn pedal_input(input: Seq<u32>, outputs: Seq<WordsOutcome>, i: int) -> Seq<u32> {
    if i == 0 {
        input
    } else {
        outputs[i - 1]->Ok_0
    }
}

/// The runs of the first `n` pedals, in series up to the first failure.
pub open spec fn series(
    pedals: Seq<VulkanU32ShaderPedalView>,
    input: Seq<u32>,
    outputs: Seq<WordsOutcome>,
    n: nat,
) -> Result<Seq<VulkanU32PedalRunView>, Seq<char>>
    decreases n,
{
    if n == 0 {
        Ok(Seq::empty())
    } else {
        let i = n - 1;
        match series(pedals, input, outputs, i as nat) {
            Err(e) => Err(e),
            Ok(steps) => match outputs[i] {
                Err(e) => Err(e),
                Ok(output) => Ok(
                    steps.push(
                        VulkanU32PedalRunView {
                            pedal_id: pedals[i].pedal_id,
                            input: pedal_input(input, outputs, i),
                            output,
                        },
                    ),
                ),
            },
        }
    }
}

/// The run of a board.
pub open spec fn processed(
    board: VulkanU32PedalboardView,
    device_name: Seq<char>,
    input: Seq<u32>,
    outputs: Seq<WordsOutcome>,
) -> Result<VulkanU32PedalboardRunView, Seq<char>> {
    match series(board.pedals, input, outputs, board.pedals.len()) {
        Err(e) => Err(e),
        Ok(steps) => Ok(
            VulkanU32PedalboardRunView {
                device_name,
                input,
                output: pedal_input(input, outputs, board.pedals.len() as int),
                steps,
            },
        ),
    }
}

/// The values of what the pedals' runs gave.
pub open spec fn run_outcomes(outcomes: Seq<Result<VulkanU32PedalRun, VulkanError>>) -> Seq<
    Result<VulkanU32PedalRunView, Seq<char>>,
> {
    Seq::new(outcomes.len(), |i: int| sequence::outcome(outcomes[i]))
}

/// The identity on results.
pub open spec fn itself() -> spec_fn(Result<VulkanU32PedalRunView, Seq<char>>) -> Result<
    VulkanU32PedalRunView,
    Seq<char>,
> {
    |outcome: Result<VulkanU32PedalRunView, Seq<char>>| outcome
}

/// The run of a board over one resident buffer.
pub open spec fn processed_resident(
    device_name: Seq<char>,
    before: WordsOutcome,
    steps: Seq<Result<VulkanU32PedalRunView, Seq<char>>>,
    after: WordsOutcome,
) -> Result<VulkanU32PedalboardRunView, Seq<char>> {
    match before {
        Err(e) => Err(e),
        Ok(input) => match sequence::try_map(steps, itself()) {
            Err(e) => Err(e),
            Ok(steps) => match after {
                Err(e) => Err(e),
                Ok(output) => Ok(
                    VulkanU32PedalboardRunView { device_name, input, output, steps },
                ),
            },
        },
    }
}

/// The values of what installing the pedals gave.
pub open spec fn install_outcomes(outcomes: Seq<Result<(), VulkanError>>) -> Seq<
    Result<(), Seq<char>>,
> {
    Seq::new(outcomes.len(), |i: int| sequence::outcome(outcomes[i]))
}

/// Whether an outcome is a failure.
pub open spec fn is_failure() -> spec_fn(Result<(), Seq<char>>) -> bool {
    |outcome: Result<(), Seq<char>>| outcome is Err
}

/// The first failure, if there is one.
pub open spec fn installed(outcomes: Seq<Result<(), Seq<char>>>) -> Result<(), Seq<char>> {
    match sequence::find_first(outcomes, is_failure()) {
        Some(failure) => failure,
        None => Ok(()),
    }
}

fn copy_words(words: &[u32]) -> (r: Vec<u32>)
    ensures
        r@ == words@,
{
    let mut copy: Vec<u32> = Vec::new();
    let mut i: usize = 0;
    while i < words.len()
        invariant
            i <= words.len(),
            copy@ =~= words@.take(i as int),
        decreases words.len() - i,
    {
        copy.push(words[i]);
        i += 1;
    }
    assert(words@.take(words@.len() as int) =~= words@);
    copy
}

impl VulkanU32Pedalboard {
    /// A board of these pedals.
    pub fn new(pedals: Vec<VulkanU32ShaderPedal>) -> (r: Self)
        ensures
            r@.pedals == pedals.deep_view(),
    {
        VulkanU32Pedalboard { pedals }
    }

    /// A board without pedals.
    pub fn bypass() -> (r: Self)
        ensures
            r@.pedals == Seq::<VulkanU32ShaderPedalView>::empty(),
    {
        let r = VulkanU32Pedalboard { pedals: Vec::new() };
        assert(r@.pedals =~= Seq::empty());
        r
    }

    /// The pedals.
    pub fn pedals(&self) -> (r: &[VulkanU32ShaderPedal])
        ensures
            r.deep_view() == self@.pedals,
    {
        let r = self.pedals.as_slice();
        assert(r.deep_view() =~= self@.pedals);
        r
    }

    /// The pedals' names.
    pub fn pedal_ids(&self) -> (r: Vec<&str>)
        ensures
            r.deep_view() == Seq::new(self@.pedals.len(), |i: int| self@.pedals[i].pedal_id),
    {
        let ghost goal = Seq::new(self@.pedals.len(), |i: int| self@.pedals[i].pedal_id);
        let mut ids: Vec<&str> = Vec::new();
        let mut i: usize = 0;
        while i < self.pedals.len()
            invariant
                i <= self.pedals.len(),
                ids@.len() == i,
                goal == Seq::new(self@.pedals.len(), |i: int| self@.pedals[i].pedal_id),
                forall|j: int| 0 <= j < i ==> (#[trigger] ids.deep_view()[j]) == goal[j],
            decreases self.pedals.len() - i,
        {
            let ghost before = ids.deep_view();
            assert(self@.pedals[i as int] == self.pedals@[i as int]@);
            let id: &str = self.pedals[i].pedal_id();
            ids.push(id);
            assert(ids.deep_view() =~= before.push(goal[i as int]));
            i += 1;
        }
        assert(ids.deep_view() =~= goal);
        ids
    }

    /// Doubles a pedal, right behind itself.
    pub fn duplicate_pedal(&mut self, index: usize) -> (r: Result<(), VulkanError>)
        ensures
            sequence::outcome(r) == duplicated(old(self)@, index).0,
            final(self)@ == duplicated(old(self)@, index).1,
    {
        let ghost before = self@.pedals;
        assert(before.len() == self.pedals@.len());
        if index >= self.pedals.len() {
            return Err(VulkanError(Message::new("no pedal at index ").number(index).done()));
        }
        let pedal: VulkanU32ShaderPedal = self.pedals[index].clone();
        assert(pedal@ == before[index as int]);
        let ghost added = pedal@;
        self.pedals.insert(index + 1, pedal);
        assert(self@.pedals =~= before.insert(index + 1, added));
        Ok(())
    }

    /// Takes a pedal out.
    pub fn remove_pedal(&mut self, index: usize) -> (r: Result<VulkanU32ShaderPedal, VulkanError>)
        ensures
            sequence::outcome(r) == removed(old(self)@, index).0,
            final(self)@ == removed(old(self)@, index).1,
    {
        let ghost before = self@.pedals;
        assert(before.len() == self.pedals@.len());
        if index >= self.pedals.len() {
            return Err(VulkanError(Message::new("no pedal at index ").number(index).done()));
        }
        let pedal: VulkanU32ShaderPedal = self.pedals.remove(index);
        assert(self@.pedals =~= before.remove(index as int));
        Ok(pedal)
    }

    /// The result of installing the pedals, from what the device answered for each of them, up to
    /// the first failure.
    #[verifier::loop_isolation(false)]
    pub fn install(&self, outcomes: &Vec<Result<(), VulkanError>>) -> (r: Result<(), VulkanError>)
        requires
            outcomes@.len() == self@.pedals.len() || installed(install_outcomes(outcomes@)) is Err,
        ensures
            sequence::outcome(r) == installed(install_outcomes(outcomes@)),
    {
        let ghost all = install_outcomes(outcomes@);
        let ghost p = is_failure();
        let mut i: usize = 0;
        while i < outcomes.len()
            invariant
                i <= outcomes.len(),
                forall|j: int| 0 <= j < i ==> !p(#[trigger] all[j]),
            decreases outcomes.len() - i,
        {
            assert(all[i as int] == sequence::outcome(outcomes@[i as int]));
            if let Err(error) = &outcomes[i] {
                proof {
                    sequence::lemma_find_first_at(all, p, i as int);
                }
                return Err(error.clone());
            }
            i += 1;
        }
        proof {
            sequence::lemma_find_first_none(all, p);
        }
        Ok(())
    }

    /// The words that the pedal at a position is given, from what the pedals before it gave.
    pub fn pedal_input(&self, input: &[u32], outputs: &Vec<Result<Vec<u32>, VulkanError>>, i: usize) -> (r:
        Vec<u32>)
        requires
            i <= outputs@.len(),
            i > 0 ==> outputs@[i - 1] is Ok,
        ensures
            r@ == pedal_input(input@, words_outcomes(outputs@), i as int),
    {
        if i == 0 {
            return copy_words(input);
        }
        assert(words_outcomes(outputs@)[i - 1] == sequence::outcome(outputs@[i - 1]));
        match &outputs[i - 1] {
            Ok(words) => {
                assert(words.deep_view() =~= words@);
                copy_words(words.as_slice())
            },
            Err(_) => Vec::new(),
        }
    }

    /// The run of the board, from what its pedals gave, each fed with what the one before it gave,
    /// up to the first failure.
    #[verifier::loop_isolation(false)]
    pub fn process(
        &self,
        device: &VulkanComputeDevice,
        input: &[u32],
        outputs: &Vec<Result<Vec<u32>, VulkanError>>,
    ) -> (r: Result<VulkanU32PedalboardRun, VulkanError>)
        requires
            forall|k: nat|
                k < self@.pedals.len() && (#[trigger] series(
                    self@.pedals,
                    input@,
                    words_outcomes(outputs@),
                    k,
                )) is Ok ==> k < outputs@.len(),
        ensures
            sequence::outcome(r) == processed(
                self@,
                device@.device_name,
                input@,
                words_outcomes(outputs@),
            ),
    {
        let ghost views = words_outcomes(outputs@);
        let mut current: Vec<u32> = copy_words(input);
        let mut steps: Vec<VulkanU32PedalRun> = Vec::new();
        let mut i: usize = 0;
        assert(steps.deep_view() =~= Seq::empty());
        assert(self@.pedals.len() == self.pedals@.len());
        while i < self.pedals.len()
            invariant
                i <= self.pedals.len(),
                current@ == pedal_input(input@, views, i as int),
                series(self@.pedals, input@, views, i as nat) == Ok::<
                    Seq<VulkanU32PedalRunView>,
                    Seq<char>,
                >(steps.deep_view()),
            decreases self.pedals.len() - i,
        {
            let ghost so_far = series(self@.pedals, input@, views, i as nat);
            assert(so_far is Ok);
            assert(views[i as int] == sequence::outcome(outputs@[i as int]));
            assert(self@.pedals[i as int] == self.pedals@[i as int]@);
            let output: &Vec<u32> = match &outputs[i] {
                Ok(output) => output,
                Err(error) => {
                    proof {
                        lemma_series_error(
                            self@.pedals,
                            input@,
                            views,
                            (i + 1) as nat,
                            self@.pedals.len(),
                        );
                    }
                    return Err(error.clone());
                },
            };
            let next: Vec<u32> = copy_words(output.as_slice());
            assert(output.deep_view() =~= output@);
            let ghost before = steps.deep_view();
            let step = VulkanU32PedalRun {
                pedal_id: self.pedals[i].pedal_id.clone(),
                input: current,
                output: copy_words(output.as_slice()),
            };
            assert(step.input.deep_view() =~= step.input@);
            assert(step.output.deep_view() =~= step.output@);
            let ghost added = step@;
            steps.push(step);
            assert(steps.deep_view() =~= before.push(added));
            current = next;
            i += 1;
        }
        let run = VulkanU32PedalboardRun {
            device_name: device.device_name.clone(),
            input: copy_words(input),
            output: current,
            steps,
        };
        assert(run.input.deep_view() =~= run.input@);
        assert(run.output.deep_view() =~= run.output@);
        Ok(run)
    }

    /// The run of the board over one resident buffer, from what reading the buffer before and
    /// after gave, and what its pedals gave, up to the first failure.
    #[verifier::loop_isolation(false)]
    pub fn process_resident(
        &self,
        device: &VulkanComputeDevice,
        before: &Result<Vec<u32>, VulkanError>,
        runs: &Vec<Result<VulkanU32PedalRun, VulkanError>>,
        after: &Result<Vec<u32>, VulkanError>,
    ) -> (r: Result<VulkanU32PedalboardRun, VulkanError>)
        requires
            runs@.len() == self@.pedals.len() || sequence::try_map(
                run_outcomes(runs@),
                itself(),
            ) is Err,
        ensures
            sequence::outcome(r) == processed_resident(
                device@.device_name,
                sequence::outcome(*before),
                run_outcomes(runs@),
                sequence::outcome(*after),
            ),
    {
        let input: Vec<u32> = match before {
            Ok(words) => copy_words(words.as_slice()),
            Err(error) => return Err(error.clone()),
        };
        assert(before->Ok_0.deep_view() =~= before->Ok_0@);
        let ghost all = run_outcomes(runs@);
        let ghost f = itself();
        let mut steps: Vec<VulkanU32PedalRun> = Vec::new();
        let mut i: usize = 0;
        assert(steps.deep_view() =~= Seq::empty());
        assert(all.take(0) =~= Seq::empty());
        while i < runs.len()
            invariant
                i <= runs.len(),
                sequence::try_map(all.take(i as int), f) == Ok::<
                    Seq<VulkanU32PedalRunView>,
                    Seq<char>,
                >(steps.deep_view()),
            decreases runs.len() - i,
        {
            proof {
                sequence::lemma_try_map_step(all, f, i as int);
                assert(all[i as int] == sequence::outcome(runs@[i as int]));
            }
            match &runs[i] {
                Ok(run) => {
                    let ghost earlier = steps.deep_view();
                    let ghost added = run@;
                    steps.push(run.clone());
                    assert(steps.deep_view() =~= earlier.push(added));
                },
                Err(error) => {
                    proof {
                        sequence::lemma_try_map_error(all, f, i + 1);
                    }
                    return Err(error.clone());
                },
            }
            i += 1;
        }
        assert(all.take(all.len() as int) =~= all);
        let output: Vec<u32> = match after {
            Ok(words) => copy_words(words.as_slice()),
            Err(error) => return Err(error.clone()),
        };
        assert(after->Ok_0.deep_view() =~= after->Ok_0@);
        let run = VulkanU32PedalboardRun {
            device_name: device.device_name.clone(),
            input,
            output,
            steps,
        };
        assert(run.input.deep_view() =~= run.input@);
        assert(run.output.deep_view() =~= run.output@);
        Ok(run)
    }
}

proof fn lemma_series_error(
    pedals: Seq<VulkanU32ShaderPedalView>,
    input: Seq<u32>,
    outputs: Seq<WordsOutcome>,
    k: nat,
    n: nat,
)
    requires
        k <= n,
        series(pedals, input, outputs, k) is Err,
    ensures
        series(pedals, input, outputs, n) == series(pedals, input, outputs, k),
    decreases n - k,
{
    if k < n {
        lemma_series_error(pedals, input, outputs, k, (n - 1) as nat);
    }
}

proof fn lemma_series_steps(
    pedals: Seq<VulkanU32ShaderPedalView>,
    input: Seq<u32>,
    outputs: Seq<WordsOutcome>,
    n: nat,
)
    requires
        series(pedals, input, outputs, n) is Ok,
    ensures
        ({
            let steps = series(pedals, input, outputs, n)->Ok_0;
            &&& steps.len() == n
            &&& forall|i: int|
                0 <= i < n ==> (#[trigger] steps[i]) == (VulkanU32PedalRunView {
                    pedal_id: pedals[i].pedal_id,
                    input: pedal_input(input, outputs, i),
                    output: outputs[i]->Ok_0,
                })
        }),
    decreases n,
{
    if n > 0 {
        lemma_series_steps(pedals, input, outputs, (n - 1) as nat);
    }
}

/// Pedals run in series: there is one step for each pedal, the first is fed with the board's input,
/// every other with the output of the one before it, and the board's output is the last one's.
pub proof fn pedals_run_in_series(
    board: VulkanU32PedalboardView,
    device_name: Seq<char>,
    input: Seq<u32>,
    outputs: Seq<WordsOutcome>,
)
    requires
        processed(board, device_name, input, outputs) is Ok,
    ensures
        ({
            let run = processed(board, device_name, input, outputs)->Ok_0;
            let n = board.pedals.len();
            &&& run.input == input
            &&& run.steps.len() == n
            &&& forall|i: int|
                0 <= i < n ==> (#[trigger] run.steps[i]).pedal_id == board.pedals[i].pedal_id
            &&& n > 0 ==> run.steps[0].input == input && run.output == run.steps[n - 1].output
            &&& forall|i: int|
                0 < i < n ==> (#[trigger] run.steps[i]).input == run.steps[i - 1].output
        }),
{
    lemma_series_steps(board.pedals, input, outputs, board.pedals.len());
}

/// A board without pedals hands its input on.
pub proof fn empty_board_is_a_bypass(
    device_name: Seq<char>,
    input: Seq<u32>,
    outputs: Seq<WordsOutcome>,
)
    ensures
        processed(VulkanU32PedalboardView { pedals: Seq::empty() }, device_name, input, outputs)
            == Ok::<VulkanU32PedalboardRunView, Seq<char>>(
            VulkanU32PedalboardRunView {
                device_name,
                input,
                output: input,
                steps: Seq::empty(),
            },
        ),
{
}

/// Taking a pedal's double out again gives the pedal back and leaves the board as it was.
pub proof fn removing_a_duplicate_restores_the_board(board: VulkanU32PedalboardView, index: usize)
    requires
        index + 1 <= usize::MAX,
        index < board.pedals.len(),
    ensures
        ({
            let doubled = duplicated(board, index).1;
            let (pedal, restored) = removed(doubled, (index + 1) as usize);
            &&& duplicated(board, index).0 is Ok
            &&& pedal == Ok::<VulkanU32ShaderPedalView, Seq<char>>(board.pedals[index as int])
            &&& restored == board
        }),
{
    let doubled = duplicated(board, index).1;
    let (pedal, restored) = removed(doubled, (index + 1) as usize);
    assert(restored.pedals =~= board.pedals);
}

} // verus!
