//! The carrying out of a plan as a state machine: the caller performs the
//! pending step, reports how it ended, and is given the next one.

use vstd::prelude::*;

use crate::errors::{Error, ErrorView};
use crate::plan::{Notice, NoticeView, Outcome, Step, StepView};

verus! {

/// A plan that is being carried out.
#[derive(Debug, PartialEq, Eq)]
pub struct Execution<'a> {
    pub plan: &'a Vec<Step>,
    /// How many steps of the plan are behind.
    pub done: usize,
    /// The failure that ended the plan, if one did.
    pub failure: Option<Error>,
}

/// What an `Execution` holds.
pub struct ExecutionView {
    pub plan: Seq<StepView>,
    pub done: nat,
    pub failure: Option<ErrorView>,
}

impl<'a> View for Execution<'a> {
    type V = ExecutionView;

    open spec fn view(&self) -> ExecutionView {
        ExecutionView {
            plan: self.plan.deep_view(),
            done: self.done as nat,
            failure: self.failure.deep_view(),
        }
    }
}

/// How the carrying out of a plan has ended.
pub open spec fn result_view(result: Option<Result<(), Error>>) -> Option<Result<(), ErrorView>> {
    match result {
        Some(Ok(_)) => Some(Ok(())),
        Some(Err(error)) => Some(Err(error@)),
        None => None,
    }
}

impl ExecutionView {
    /// A plan of which nothing is done yet.
    pub open spec fn begin(plan: Seq<StepView>) -> ExecutionView {
        ExecutionView { plan, done: 0, failure: None }
    }

    /// The step to carry out now: the first that is not behind, unless the
    /// plan has ended, by failure or by its last step.
    pub open spec fn pending(self) -> Option<StepView> {
        if self.failure is None && self.done < self.plan.len() {
            Some(self.plan[self.done as int])
        } else {
            None
        }
    }

    /// The state after the pending step has ended as `outcome` says. A
    /// process whose launch gives a verdict ends the plan with it; every
    /// other step is behind afterwards. Without a pending step nothing
    /// changes.
    pub open spec fn record(self, outcome: Outcome) -> ExecutionView {
        match self.pending() {
            None => self,
            Some(StepView::Run(launch)) => match launch.verdict(outcome) {
                Some(error) => ExecutionView { failure: Some(error), ..self },
                None => ExecutionView { done: self.done + 1, ..self },
            },
            Some(_) => ExecutionView { done: self.done + 1, ..self },
        }
    }

    /// What the user is told when the pending step has ended as `outcome`
    /// says: what the step reports; nothing without a pending step.
    pub open spec fn report(self, outcome: Outcome) -> Option<NoticeView> {
        match self.pending() {
            Some(step) => step.report(outcome),
            None => None,
        }
    }

    /// The state after one step after the other has ended as `outcomes` say.
    pub open spec fn run(self, outcomes: Seq<Outcome>) -> ExecutionView
        decreases outcomes.len(),
    {
        if outcomes.len() == 0 {
            self
        } else {
            self.run(outcomes.drop_last()).record(outcomes.last())
        }
    }

    /// How the plan has ended: with its failure, or well after its last
    /// step; `None` while a step is pending.
    pub open spec fn result(self) -> Option<Result<(), ErrorView>> {
        match self.failure {
            Some(error) => Some(Err(error)),
            None => if self.done >= self.plan.len() {
                Some(Ok(()))
            } else {
                None
            },
        }
    }
}

impl<'a> Execution<'a> {
    /// Begins to carry out a plan.
    pub fn begin(plan: &'a Vec<Step>) -> (execution: Execution<'a>)
        ensures
            execution@ == ExecutionView::begin(plan.deep_view()),
    {
        Execution { plan, done: 0, failure: None }
    }

    /// The step to carry out now.
    pub fn pending(&self) -> (step: Option<&'a Step>)
        ensures
            step.deep_view() == self@.pending(),
    {
        if self.failure.is_none() && self.done < self.plan.len() {
            Some(&self.plan[self.done])
        } else {
            None
        }
    }

    /// Takes note of how the pending step ended, and says what the user is
    /// told of it where it failed without ending the plan. For a step that
    /// starts no process the outcome does not matter.
    pub fn record(&mut self, outcome: Outcome) -> (notice: Option<Notice>)
        ensures
            final(self)@ == old(self)@.record(outcome),
            notice.deep_view() == old(self)@.report(outcome),
    {
        if self.failure.is_some() || self.done >= self.plan.len() {
            return None;
        }
        let step = &self.plan[self.done];
        let notice = step.report(outcome);
        let verdict = match step {
            Step::Run(launch) => launch.settle(outcome),
            _ => None,
        };
        match verdict {
            Some(error) => {
                self.failure = Some(error);
            },
            None => {
                self.done = self.done + 1;
            },
        }
        notice
    }

    /// How the plan has ended, if it has.
    pub fn result(&self) -> (result: Option<Result<(), Error>>)
        ensures
            result_view(result) == self@.result(),
    {
        match &self.failure {
            Some(error) => Some(Err(error.clone())),
            None => if self.done >= self.plan.len() {
                Some(Ok(()))
            } else {
                None
            },
        }
    }
}

/// Whether a step, ending as `outcome` says, ends its plan.
pub open spec fn ends_plan(step: StepView, outcome: Outcome) -> bool {
    step matches StepView::Run(launch) && launch.verdict(outcome) is Some
}

/// A plan that has failed stays as it is: nothing is pending, and whatever
/// is reported changes nothing. So no step after the one that failed is
/// ever carried out.
pub proof fn lemma_failure_is_final(state: ExecutionView, outcomes: Seq<Outcome>)
    requires
        state.failure is Some,
    ensures
        state.pending() is None,
        state.run(outcomes) == state,
    decreases outcomes.len(),
{
    if outcomes.len() > 0 {
        lemma_failure_is_final(state, outcomes.drop_last());
    }
}

/// The steps are carried out in the order of the plan: as long as no step
/// ends it, after `k` outcomes exactly the first `k` steps are behind and
/// the next one is pending.
pub proof fn lemma_steps_in_order(plan: Seq<StepView>, outcomes: Seq<Outcome>)
    requires
        outcomes.len() <= plan.len(),
        forall|i: int| 0 <= i < outcomes.len() ==> !ends_plan(plan[i], #[trigger] outcomes[i]),
    ensures
        ExecutionView::begin(plan).run(outcomes) == (ExecutionView {
            plan,
            done: outcomes.len(),
            failure: None,
        }),
    decreases outcomes.len(),
{
    if outcomes.len() > 0 {
        let earlier = outcomes.drop_last();
        assert forall|i: int| 0 <= i < earlier.len() implies !ends_plan(
            plan[i],
            #[trigger] earlier[i],
        ) by {
            assert(earlier[i] == outcomes[i]);
        }
        lemma_steps_in_order(plan, earlier);
        assert(outcomes.last() == outcomes[outcomes.len() - 1]);
    }
}

/// The first step that ends the plan ends it there: the steps before it
/// are behind, its verdict is the failure, and it is the result.
pub proof fn lemma_first_failure_ends(plan: Seq<StepView>, outcomes: Seq<Outcome>, at: int)
    requires
        0 <= at < outcomes.len() <= plan.len(),
        ends_plan(plan[at], outcomes[at]),
        forall|i: int| 0 <= i < at ==> !ends_plan(plan[i], #[trigger] outcomes[i]),
    ensures
        ExecutionView::begin(plan).run(outcomes) == (ExecutionView {
            plan,
            done: at as nat,
            failure: plan[at]->Run_0.verdict(outcomes[at]),
        }),
    decreases outcomes.len(),
{
    let earlier = outcomes.drop_last();
    if at == outcomes.len() - 1 {
        assert forall|i: int| 0 <= i < earlier.len() implies !ends_plan(
            plan[i],
            #[trigger] earlier[i],
        ) by {
            assert(earlier[i] == outcomes[i]);
        }
        lemma_steps_in_order(plan, earlier);
        assert(outcomes.last() == outcomes[at]);
    } else {
        assert(earlier[at] == outcomes[at]);
        assert forall|i: int| 0 <= i < at implies !ends_plan(plan[i], #[trigger] earlier[i]) by {
            assert(earlier[i] == outcomes[i]);
        }
        lemma_first_failure_ends(plan, earlier, at);
    }
}

} // verus!
