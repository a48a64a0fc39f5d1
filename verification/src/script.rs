//! The course of a command: its effects in order, and how it goes on when one of them fails.

use crate::messages::{Effect, EffectView};
use vstd::prelude::*;

verus! {

/// What happens when an effect fails.
#[derive(Debug)]
pub enum OnFailure {
    /// The command goes on.
    Ignore,
    /// The command ends with the failure.
    Propagate,
    /// The command says this and ends.
    SayInstead { text: String },
}

/// What happens when an effect fails.
pub enum OnFailureView {
    Ignore,
    Propagate,
    SayInstead { text: Seq<char> },
}

impl View for OnFailure {
    type V = OnFailureView;

    open spec fn view(&self) -> OnFailureView {
        match self {
            OnFailure::Ignore => OnFailureView::Ignore,
            OnFailure::Propagate => OnFailureView::Propagate,
            OnFailure::SayInstead { text } => OnFailureView::SayInstead { text: text@ },
        }
    }
}

/// One step of a command.
#[derive(Debug)]
pub struct Step {
    pub effect: Effect,
    pub on_failure: OnFailure,
}

/// One step of a command.
pub struct StepView {
    pub effect: EffectView,
    pub on_failure: OnFailureView,
}

impl View for Step {
    type V = StepView;

    open spec fn view(&self) -> StepView {
        StepView { effect: self.effect@, on_failure: self.on_failure@ }
    }
}

/// The steps that a command has still to take.
#[derive(Debug)]
pub struct Script {
    pub steps: Vec<Step>,
}

impl View for Script {
    type V = Seq<StepView>;

    open spec fn view(&self) -> Seq<StepView> {
        self.steps@.map_values(|s: Step| s@)
    }
}

/// A step whose failure the command ignores.
pub open spec fn ignoring(effect: EffectView) -> StepView {
    StepView { effect, on_failure: OnFailureView::Ignore }
}

/// A step whose failure ends the command.
pub open spec fn propagating(effect: EffectView) -> StepView {
    StepView { effect, on_failure: OnFailureView::Propagate }
}

/// A step whose failure makes the command say something and end.
pub open spec fn saying_instead(effect: EffectView, text: Seq<char>) -> StepView {
    StepView { effect, on_failure: OnFailureView::SayInstead { text } }
}

/// The step that says something.
pub open spec fn say(text: Seq<char>) -> StepView {
    propagating(EffectView::Say { text })
}

/// What is left of a command after its first step.
pub open spec fn after(script: Seq<StepView>, succeeded: bool) -> Seq<StepView> {
    if succeeded {
        script.drop_first()
    } else {
        match script[0].on_failure {
            OnFailureView::Ignore => script.drop_first(),
            OnFailureView::Propagate => Seq::empty(),
            OnFailureView::SayInstead { text } => seq![say(text)],
        }
    }
}

/// Whether the outcome of its first step makes a command fail.
pub open spec fn fails_at(script: Seq<StepView>, succeeded: bool) -> bool {
    !succeeded && script[0].on_failure is Propagate
}

/// What a command comes to: the effects that were attempted, and whether it failed.
pub struct Course {
    pub attempted: Seq<EffectView>,
    pub failed: bool,
}

/// The course of a command, given which effects succeed.
pub open spec fn course(script: Seq<StepView>, succeeds: spec_fn(EffectView) -> bool) -> Course
    decreases script.len(),
{
    if script.len() == 0 {
        Course { attempted: Seq::empty(), failed: false }
    } else {
        let first = script[0];
        let rest = course(script.drop_first(), succeeds);
        if succeeds(first.effect) || first.on_failure is Ignore {
            Course { attempted: seq![first.effect] + rest.attempted, failed: rest.failed }
        } else {
            match first.on_failure {
                OnFailureView::SayInstead { text } => Course {
                    attempted: seq![first.effect, EffectView::Say { text }],
                    failed: !succeeds(EffectView::Say { text }),
                },
                _ => Course { attempted: seq![first.effect], failed: true },
            }
        }
    }
}

/// Taking a command step by step is its course: the first effect is attempted, then what is left
/// after its outcome, and the command fails where a step makes it fail.
pub proof fn course_is_stepwise(script: Seq<StepView>, succeeds: spec_fn(EffectView) -> bool)
    requires
        script.len() > 0,
    ensures
        ({
            let succeeded = succeeds(script[0].effect);
            let rest = course(after(script, succeeded), succeeds);
            &&& course(script, succeeds).attempted == seq![script[0].effect] + rest.attempted
            &&& course(script, succeeds).failed == (fails_at(script, succeeded) || rest.failed)
        }),
{
    let succeeded = succeeds(script[0].effect);
    if !succeeded {
        match script[0].on_failure {
            OnFailureView::SayInstead { text } => {
                let rest = seq![say(text)];
                assert(rest.drop_first() =~= Seq::empty());
                reveal_with_fuel(course, 2);
                assert(course(rest, succeeds).attempted =~= seq![EffectView::Say { text }]);
                assert(course(script, succeeds).attempted =~= seq![script[0].effect] + course(
                    rest,
                    succeeds,
                ).attempted);
            },
            OnFailureView::Propagate => {
                assert(course(script, succeeds).attempted =~= seq![script[0].effect] + course(
                    Seq::empty(),
                    succeeds,
                ).attempted);
            },
            OnFailureView::Ignore => {},
        }
    }
}

impl Step {
    /// A step whose failure the command ignores.
    pub fn ignoring(effect: Effect) -> (step: Step)
        ensures
            step@ == ignoring(effect@),
    {
        Step { effect, on_failure: OnFailure::Ignore }
    }

    /// A step whose failure ends the command.
    pub fn propagating(effect: Effect) -> (step: Step)
        ensures
            step@ == propagating(effect@),
    {
        Step { effect, on_failure: OnFailure::Propagate }
    }

    /// A step whose failure makes the command say something and end.
    pub fn saying_instead(effect: Effect, text: String) -> (step: Step)
        ensures
            step@ == saying_instead(effect@, text@),
    {
        Step { effect, on_failure: OnFailure::SayInstead { text } }
    }

    /// The step that says something.
    pub fn say(text: String) -> (step: Step)
        ensures
            step@ == say(text@),
    {
        Step::propagating(Effect::Say { text })
    }
}

impl Script {
    /// A command without steps.
    pub fn new() -> (script: Script)
        ensures
            script@ == Seq::<StepView>::empty(),
    {
        let script = Script { steps: Vec::new() };
        assert(script@ =~= Seq::empty());
        script
    }

    /// Appends a step.
    pub fn add(&mut self, step: Step)
        ensures
            final(self)@ == old(self)@.push(step@),
    {
        self.steps.push(step);
        assert(self@ =~= old(self)@.push(step@));
    }

    /// The effect that is to be attempted next.
    pub fn next_effect(&self) -> (effect: Option<&Effect>)
        ensures
            self@.len() == 0 ==> effect is None,
            self@.len() > 0 ==> effect is Some && effect.unwrap()@ == self@[0].effect,
    {
        if self.steps.len() == 0 {
            None
        } else {
            Some(&self.steps[0].effect)
        }
    }

    /// Goes on after the next effect was attempted, and tells whether the command failed by it.
    pub fn advance(&mut self, succeeded: bool) -> (failed: bool)
        requires
            old(self)@.len() > 0,
        ensures
            final(self)@ == after(old(self)@, succeeded),
            failed == fails_at(old(self)@, succeeded),
    {
        let step = self.steps.remove(0);
        assert(step@ == old(self)@[0]);
        assert(self@ =~= old(self)@.drop_first());
        if succeeded {
            false
        } else {
            match step.on_failure {
                OnFailure::Ignore => false,
                OnFailure::Propagate => {
                    self.steps.clear();
                    assert(self@ =~= Seq::empty());
                    true
                },
                OnFailure::SayInstead { text } => {
                    self.steps.clear();
                    self.steps.push(Step::say(text));
                    assert(self@ =~= after(old(self)@, succeeded));
                    false
                },
            }
        }
    }
}

} // verus!
