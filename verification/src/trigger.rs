//! Running the actions of a pressed button one after another, stopping at the
//! first that fails.
use vstd::prelude::*;

use crate::deck::{actions_view, Action, ActionModel};

verus! {

/// The progress of running a button's actions.
#[derive(Debug)]
pub struct ActionRun {
    actions: Vec<Action>,
    next: usize,
    done: bool,
}

/// What to do next.
#[derive(Debug)]
pub enum RunStep {
    /// Perform this action and report how it went.
    Perform(Action),
    /// Stop: every action ran, or this one failed.
    Finished(Result<(), String>),
}

/// The content of a [`RunStep`].
pub enum RunStepModel {
    Perform(ActionModel),
    Finished(Result<(), Seq<char>>),
}

impl View for RunStep {
    type V = RunStepModel;

    open spec fn view(&self) -> RunStepModel {
        match self {
            RunStep::Perform(a) => RunStepModel::Perform(a@),
            RunStep::Finished(Ok(())) => RunStepModel::Finished(Ok(())),
            RunStep::Finished(Err(e)) => RunStepModel::Finished(Err(e@)),
        }
    }
}

impl ActionRun {
    /// The actions still to run, in order.
    pub closed spec fn planned(&self) -> Seq<ActionModel> {
        actions_view(self.actions@)
    }

    /// How many actions have been handed out.
    pub closed spec fn started(&self) -> nat {
        self.next as nat
    }

    /// Whether the run has finished.
    pub closed spec fn finished(&self) -> bool {
        self.done
    }

    /// The consistency of a run: it hands out no more actions than it has.
    pub closed spec fn wf(&self) -> bool {
        self.next <= self.actions@.len()
    }

    /// A run of `actions` that has not started.
    pub fn new(actions: Vec<Action>) -> (r: ActionRun)
        ensures
            r.wf(),
            r.planned() == actions_view(actions@),
            r.started() == 0,
            !r.finished(),
    {
        ActionRun { actions, next: 0, done: false }
    }

    /// The next step, given how the previously handed-out action went (`None`
    /// before the first): after a failure, finish with that failure; otherwise
    /// hand out the next action, or finish successfully when none is left.
    pub fn advance(&mut self, outcome: Option<Result<(), String>>) -> (step: RunStep)
        requires
            old(self).wf(),
            !old(self).finished(),
        ensures
            final(self).wf(),
            final(self).planned() == old(self).planned(),
            match outcome {
                Some(Err(e)) => step@ == RunStepModel::Finished(Err(e@)) && final(self).finished()
                    && final(self).started() == old(self).started(),
                _ => if old(self).started() < old(self).planned().len() {
                    &&& step@ == RunStepModel::Perform(old(self).planned()[old(self).started() as int])
                    &&& final(self).started() == old(self).started() + 1
                    &&& !final(self).finished()
                } else {
                    &&& step@ == RunStepModel::Finished(Ok(()))
                    &&& final(self).finished()
                    &&& final(self).started() == old(self).started()
                },
            },
    {
        match outcome {
            Some(Err(e)) => {
                self.done = true;
                RunStep::Finished(Err(e))
            },
            _ => {
                if self.next < self.actions.len() {
                    let a = self.actions[self.next].clone();
                    self.next = self.next + 1;
                    RunStep::Perform(a)
                } else {
                    self.done = true;
                    RunStep::Finished(Ok(()))
                }
            },
        }
    }
}

} // verus!
