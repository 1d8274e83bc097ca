//! A build in progress: which step is due, and what follows from the report
//! on it.

use vstd::prelude::*;
use crate::action::{Action, ActionView, Event, EventView, Step, StepView};
use crate::config::{Config, ConfigView};
use crate::create::{
    plan_length, plan_prefix, plan_runtime, prefix_plan, runtime_plan, wine_dir_of,
};
use crate::error::{BuildError, BuildErrorView, Cause, CauseView};
use crate::laws::{lemma_prefix_plan_length, lemma_runtime_plan_shape};

verus! {

/// What the report `event` says of `action`: nothing where the action was
/// carried out, and the cause of the failure where it was not. A program
/// has to end with status zero, a question for a path has to be answered
/// with a path, and any other action has to be reported as completed.
pub open spec fn failure_of(action: ActionView, event: EventView) -> Option<CauseView> {
    match event {
        EventView::Failed(text) => Some(CauseView::Failed(text)),
        EventView::Exited(status) => if action is Execute {
            if status == Some(0i32) {
                None
            } else {
                Some(CauseView::Exit(status))
            }
        } else {
            Some(CauseView::Unexpected)
        },
        EventView::Resolved(_) => if action is Resolve {
            None
        } else {
            Some(CauseView::Unexpected)
        },
        EventView::Completed => if action is Execute || action is Resolve {
            Some(CauseView::Unexpected)
        } else {
            None
        },
    }
}

/// The error that a build ends with when `step` fails for `cause`.
pub open spec fn failure_at(step: StepView, cause: CauseView) -> BuildErrorView {
    BuildErrorView {
        kind: step.stage.failure_kind(),
        stage: Some(step.stage),
        context: step.context,
        cause,
    }
}

/// Judges the report `event` on `action`.
pub fn judge(action: &Action, event: &Event) -> (cause: Option<Cause>)
    ensures
        cause.deep_view() == failure_of(action@, event@),
{
    match event {
        Event::Failed(text) => Some(Cause::Failed(text.clone())),
        Event::Exited(status) => match action {
            Action::Execute { .. } => match status {
                Some(0) => None,
                _ => Some(Cause::Exit(*status)),
            },
            _ => Some(Cause::Unexpected),
        },
        Event::Resolved(_) => match action {
            Action::Resolve { .. } => None,
            _ => Some(Cause::Unexpected),
        },
        Event::Completed => match action {
            Action::Execute { .. } => Some(Cause::Unexpected),
            Action::Resolve { .. } => Some(Cause::Unexpected),
            _ => None,
        },
    }
}

/// The state of a build.
pub ghost struct PipelineView {
    pub config: ConfigView,
    /// Where Wine lies in the bundle.
    pub wine_dir: Seq<char>,
    /// The steps planned so far.
    pub steps: Seq<StepView>,
    /// Whether the second part of the build is planned.
    pub planned: bool,
    /// How many of the steps have been carried out.
    pub done: nat,
    /// Why the build has ended, if it ended in failure.
    pub failure: Option<BuildErrorView>,
}

impl PipelineView {
    /// The state in which the build of the bundle at `output_path` begins:
    /// the first part is planned and nothing is done.
    pub open spec fn start(config: ConfigView, output_path: Seq<char>) -> PipelineView {
        PipelineView {
            config,
            wine_dir: wine_dir_of(output_path),
            steps: runtime_plan(config, output_path),
            planned: false,
            done: 0,
            failure: None,
        }
    }

    /// The step that is due, unless the build has ended.
    pub open spec fn pending(self) -> Option<StepView> {
        if self.failure is None && self.done < self.steps.len() {
            Some(self.steps[self.done as int])
        } else {
            None
        }
    }

    /// Whether every step has been carried out.
    pub open spec fn finished(self) -> bool {
        self.failure is None && self.done >= self.steps.len()
    }

    /// The steps that are planned once the report `event` on a step that
    /// was carried out is taken: the first path that the report brings
    /// has the second part of the build planned with it.
    pub open spec fn steps_after(self, event: EventView) -> Seq<StepView> {
        match event {
            EventView::Resolved(path) if !self.planned => self.steps + prefix_plan(
                self.config,
                self.wine_dir,
                path,
            ),
            _ => self.steps,
        }
    }

    /// The state after the report `event` on the step that is due. Where
    /// the step failed, the build ends with that failure. Where it was
    /// carried out, the next step is due. A build that has ended stays as
    /// it is.
    pub open spec fn advance(self, event: EventView) -> PipelineView {
        match self.pending() {
            None => self,
            Some(step) => match failure_of(step.action, event) {
                Some(cause) => PipelineView { failure: Some(failure_at(step, cause)), ..self },
                None => PipelineView {
                    steps: self.steps_after(event),
                    planned: self.planned || event is Resolved,
                    done: self.done + 1,
                    ..self
                },
            },
        }
    }
}

/// The state that `state` has become when the reports `events` have been
/// taken one after the other.
pub open spec fn after_reports(state: PipelineView, events: Seq<EventView>) -> PipelineView
    decreases events.len(),
{
    if events.len() == 0 {
        state
    } else {
        after_reports(state, events.drop_last()).advance(events.last())
    }
}

/// What carries the steps of a build out: the machine on which the bundle
/// is built, or what stands for it.
pub trait Machine {
    /// Carries `action` out and reports what became of it.
    fn perform(&mut self, action: &Action) -> Event;
}

/// A build in progress. It names the step that is due; the caller carries
/// the step out and reports, and so on until the build has ended.
pub struct Pipeline {
    config: Config,
    wine_dir: String,
    /// The steps of the first part, and how many of them are done.
    runtime: Vec<Step>,
    runtime_done: usize,
    /// The steps of the second part, once they are planned, and how many
    /// of them are done.
    prefix: Option<Vec<Step>>,
    prefix_done: usize,
    failure: Option<BuildError>,
}

impl View for Pipeline {
    type V = PipelineView;

    closed spec fn view(&self) -> PipelineView {
        PipelineView {
            config: self.config@,
            wine_dir: self.wine_dir@,
            steps: self.runtime.deep_view() + self.planned_steps(),
            planned: self.prefix is Some,
            done: (self.runtime_done + self.prefix_done) as nat,
            failure: self.failure.deep_view(),
        }
    }
}

impl Pipeline {
    /// The steps of the second part as far as they are planned.
    spec fn planned_steps(self) -> Seq<StepView> {
        match self.prefix {
            Some(steps) => steps.deep_view(),
            None => Seq::empty(),
        }
    }

    #[verifier::type_invariant]
    spec fn sound(self) -> bool {
        &&& self.config@.well_formed()
        &&& self.runtime.len() == 10
        &&& self.runtime_done <= self.runtime.len()
        &&& self.prefix_done <= self.planned_steps().len()
        &&& self.prefix_done > 0 ==> self.runtime_done == self.runtime.len()
        &&& self.prefix is Some ==> self.planned_steps().len() + 10 == plan_length(self.config@)
    }

    /// How many steps at most are still to be carried out.
    spec fn remaining(self) -> nat {
        if self@.pending() is Some {
            (plan_length(self.config@) - self.runtime_done - self.prefix_done) as nat
        } else {
            0
        }
    }

    /// Begins the build of the bundle at `output_path`.
    pub fn new(config: Config, output_path: &str) -> (pipeline: Pipeline)
        requires
            config@.well_formed(),
        ensures
            pipeline@ == PipelineView::start(config@, output_path@),
    {
        let (runtime, wine_dir) = plan_runtime(&config, output_path);
        proof {
            lemma_runtime_plan_shape(config@, output_path@);
        }
        assert(runtime.deep_view() + Seq::empty() =~= runtime.deep_view());
        Pipeline {
            config,
            wine_dir,
            runtime,
            runtime_done: 0,
            prefix: None,
            prefix_done: 0,
            failure: None,
        }
    }

    /// The step that is due, unless the build has ended.
    pub fn pending(&self) -> (step: Option<&Step>)
        ensures
            step.deep_view() == self@.pending(),
    {
        proof {
            use_type_invariant(self);
        }
        if self.failure.is_some() {
            None
        } else if self.runtime_done < self.runtime.len() {
            Some(&self.runtime[self.runtime_done])
        } else {
            match &self.prefix {
                Some(steps) => if self.prefix_done < steps.len() {
                    Some(&steps[self.prefix_done])
                } else {
                    None
                },
                None => None,
            }
        }
    }

    /// Whether every step has been carried out.
    pub fn is_finished(&self) -> (finished: bool)
        ensures
            finished == self@.finished(),
    {
        proof {
            use_type_invariant(self);
        }
        let planned: usize = match &self.prefix {
            Some(steps) => steps.len(),
            None => 0,
        };
        self.failure.is_none() && self.runtime_done >= self.runtime.len() && self.prefix_done
            >= planned
    }

    /// Why the build has ended, if it ended in failure.
    pub fn failure(&self) -> (failure: &Option<BuildError>)
        ensures
            failure.deep_view() == self@.failure,
    {
        &self.failure
    }

    /// Takes the report `event` on the step that is due.
    pub fn advance(&mut self, event: Event)
        ensures
            final(self)@ == old(self)@.advance(event@),
    {
        proof {
            use_type_invariant(&*self);
        }
        let in_runtime = self.runtime_done < self.runtime.len();
        let step = match self.pending() {
            Some(step) => step,
            None => {
                return ;
            },
        };
        assert(!in_runtime ==> self.prefix is Some && self.prefix_done < self.prefix->0.len());
        match judge(&step.action, &event) {
            Some(cause) => {
                let error = BuildError {
                    kind: step.stage.error_kind(),
                    stage: Some(step.stage),
                    context: step.context.clone(),
                    cause,
                };
                self.failure = Some(error);
            },
            None => {
                match event {
                    Event::Resolved(path) => {
                        if self.prefix.is_none() {
                            let rest = plan_prefix(
                                &self.config,
                                self.wine_dir.as_str(),
                                path.as_str(),
                            );
                            proof {
                                lemma_prefix_plan_length(self.config@, self.wine_dir@, path@);
                            }
                            self.prefix = Some(rest);
                        }
                    },
                    _ => {},
                }
                if in_runtime {
                    self.runtime_done = self.runtime_done + 1;
                } else {
                    self.prefix_done = self.prefix_done + 1;
                }
            },
        }
    }

    /// Carries the build out on `machine`, step by step, until it has
    /// ended, and says how it ended. The machine is asked for no more
    /// steps than the build has.
    pub fn run<M: Machine>(&mut self, machine: &mut M) -> (outcome: Result<(), BuildError>)
        ensures
            final(self)@.pending() is None,
            exists|events: Seq<EventView>|
                events.len() <= plan_length(old(self)@.config) && final(self)@ == #[trigger] after_reports(
                    old(self)@,
                    events,
                ),
            match outcome {
                Ok(_) => final(self)@.finished(),
                Err(error) => final(self)@.failure == Some(error@),
            },
    {
        let ghost begun = *self;
        let ghost mut events: Seq<EventView> = Seq::empty();
        proof {
            use_type_invariant(&*self);
        }
        loop
            invariant
                self@ == after_reports(begun@, events),
                self@.config == begun@.config,
                events.len() + self.remaining() <= plan_length(begun@.config),
            ensures
                self@.pending() is None,
            decreases self.remaining(),
        {
            proof {
                use_type_invariant(&*self);
            }
            let event = match self.pending() {
                Some(step) => machine.perform(&step.action),
                None => {
                    break ;
                },
            };
            let ghost earlier = events;
            proof {
                events = earlier.push(event@);
                assert(events.drop_last() =~= earlier);
            }
            self.advance(event);
            proof {
                use_type_invariant(&*self);
            }
        }
        match &self.failure {
            Some(error) => Err(
                BuildError {
                    kind: error.kind,
                    stage: error.stage,
                    context: error.context.clone(),
                    cause: match &error.cause {
                        Cause::Rejected => Cause::Rejected,
                        Cause::Failed(text) => Cause::Failed(text.clone()),
                        Cause::Exit(status) => Cause::Exit(*status),
                        Cause::Unexpected => Cause::Unexpected,
                    },
                },
            ),
            None => Ok(()),
        }
    }
}

} // verus!
