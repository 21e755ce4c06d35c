//! The processor's queue: commands and outcomes, taken one at a time in the
//! order in which they arrive.

use crate::backend::{
    process_spec, resume_spec, Backend, BackendView, CiCdCmd, CiCdCmdView, Event, EventView, Step,
    StepView,
};
use vstd::prelude::*;

verus! {

/// What the processor takes from its queue: a command, or the outcome of
/// outside work that an earlier step asked for.
#[derive(Debug, PartialEq, Eq)]
pub enum Input<C> {
    Command(CiCdCmd<C>),
    Outcome(Event),
}

/// What an [`Input`] holds.
pub enum InputView<C> {
    Command(CiCdCmdView<C>),
    Outcome(EventView),
}

impl<C> View for Input<C> {
    type V = InputView<C>;

    open spec fn view(&self) -> InputView<C> {
        match self {
            Input::Command(cmd) => InputView::Command(cmd@),
            Input::Outcome(event) => InputView::Outcome(event@),
        }
    }
}

/// The views of a queue's inputs, in order.
pub open spec fn inputs_view<C>(inputs: Seq<Input<C>>) -> Seq<InputView<C>> {
    inputs.map_values(|input: Input<C>| input@)
}

/// The views of the steps taken, in order.
pub open spec fn steps_view<C>(steps: Seq<Step<C>>) -> Seq<StepView<C>> {
    steps.map_values(|step: Step<C>| step@)
}

/// How the backend takes one input.
pub open spec fn step_spec<C>(s: BackendView<C>, input: InputView<C>) -> (
    BackendView<C>,
    StepView<C>,
) {
    match input {
        InputView::Command(cmd) => process_spec(s, cmd),
        InputView::Outcome(event) => resume_spec(s, event),
    }
}

/// How the backend takes a queue of inputs: each in its turn, on the backend
/// as the inputs before it left it. The result is the backend after the last
/// of them and the steps taken, one for each input, in order.
pub open spec fn run_spec<C>(s: BackendView<C>, inputs: Seq<InputView<C>>) -> (
    BackendView<C>,
    Seq<StepView<C>>,
)
    decreases inputs.len(),
{
    if inputs.len() == 0 {
        (s, Seq::empty())
    } else {
        let (next, step) = step_spec(s, inputs[0]);
        let (end, steps) = run_spec(next, inputs.skip(1));
        (end, seq![step] + steps)
    }
}

impl<C> Backend<C> {
    /// Takes one input from the queue.
    pub fn step(&mut self, input: Input<C>) -> (step: Step<C>)
        ensures
            (final(self)@, step@) == step_spec(old(self)@, input@),
    {
        match input {
            Input::Command(cmd) => self.process(cmd),
            Input::Outcome(event) => self.resume(event),
        }
    }
}

/// Drains a queue: takes each input in its turn and returns the steps taken.
pub fn run_backend<C>(backend: &mut Backend<C>, inputs: Vec<Input<C>>) -> (steps: Vec<Step<C>>)
    ensures
        (final(backend)@, steps_view(steps@)) == run_spec(old(backend)@, inputs_view(inputs@)),
{
    let ghost all = inputs_view(inputs@);
    let mut inputs = inputs;
    let mut steps: Vec<Step<C>> = Vec::new();
    assert(steps_view(steps@) + run_spec(backend@, all).1 =~= run_spec(backend@, all).1);
    while inputs.len() > 0
        invariant
            run_spec(old(backend)@, all).0 == run_spec(backend@, inputs_view(inputs@)).0,
            run_spec(old(backend)@, all).1 == steps_view(steps@) + run_spec(
                backend@,
                inputs_view(inputs@),
            ).1,
        decreases inputs.len(),
    {
        let ghost before = backend@;
        let ghost queue = inputs_view(inputs@);
        let ghost taken = steps_view(steps@);
        let input = inputs.remove(0);
        assert(input@ == queue[0]);
        assert(inputs_view(inputs@) =~= queue.skip(1));
        let step = backend.step(input);
        steps.push(step);
        assert(steps_view(steps@) =~= taken.push(step@));
        assert(taken + (seq![step@] + run_spec(backend@, queue.skip(1)).1) =~= taken.push(step@)
            + run_spec(backend@, queue.skip(1)).1);
    }
    assert(run_spec(backend@, inputs_view(inputs@)).1 =~= Seq::<StepView<C>>::empty());
    assert(steps_view(steps@) + Seq::<StepView<C>>::empty() =~= steps_view(steps@));
    steps
}

} // verus!
