//! Pipelines: the stages that a command is made of.
//!
//! A command decides its stages at once. What a stage asks of a service
//! depends on what is on disk when the stage is reached, so the caller looks
//! then, and asks the service for its plan.

use vstd::prelude::*;
use vstd::string::*;

use crate::errors::{Error, ErrorView};
use crate::plan::{Notice, NoticeView, Step, StepView};
use crate::project::{Project, ProjectView};
use crate::lifecycle::plan_view;
use crate::service::{Service, ServiceView};
use crate::table::{printed_clean, task_rows};
use crate::text::clone_strings;

verus! {

/// An operation on one service.
#[derive(Debug, PartialEq, Eq)]
pub enum Action {
    Clone,
    Build,
    Start,
    Stop,
    Update,
    ListTasks,
    ExecTasks(Vec<String>),
}

/// What an `Action` holds.
pub enum ActionView {
    Clone,
    Build,
    Start,
    Stop,
    Update,
    ListTasks,
    ExecTasks(Seq<Seq<char>>),
}

impl View for Action {
    type V = ActionView;

    open spec fn view(&self) -> ActionView {
        match self {
            Action::Clone => ActionView::Clone,
            Action::Build => ActionView::Build,
            Action::Start => ActionView::Start,
            Action::Stop => ActionView::Stop,
            Action::Update => ActionView::Update,
            Action::ListTasks => ActionView::ListTasks,
            Action::ExecTasks(names) => ActionView::ExecTasks(names.deep_view()),
        }
    }
}

impl DeepView for Action {
    type V = ActionView;

    open spec fn deep_view(&self) -> ActionView {
        self@
    }
}

impl Clone for Action {
    fn clone(&self) -> (copy: Action)
        ensures
            copy@ == self@,
    {
        match self {
            Action::Clone => Action::Clone,
            Action::Build => Action::Build,
            Action::Start => Action::Start,
            Action::Stop => Action::Stop,
            Action::Update => Action::Update,
            Action::ListTasks => Action::ListTasks,
            Action::ExecTasks(names) => Action::ExecTasks(clone_strings(names)),
        }
    }
}

/// What the caller saw on disk of one service.
#[derive(Clone, Copy, Debug, PartialEq, Eq, Structural)]
pub struct Observed {
    /// Whether the source of the service is there.
    pub source_exists: bool,
    /// Whether the compose file of the service is there.
    pub overlay_exists: bool,
}

impl ServiceView {
    /// The plan of an operation on this service, given what is on disk.
    pub open spec fn plan(self, home: Seq<char>, action: ActionView, seen: Observed) -> Result<
        Seq<StepView>,
        ErrorView,
    > {
        match action {
            ActionView::Clone => self.clone_plan(home, seen.source_exists),
            ActionView::Build => self.build_plan(home, seen.overlay_exists),
            ActionView::Start => self.start_plan(home, seen.overlay_exists),
            ActionView::Stop => self.stop_plan(home, seen.overlay_exists),
            ActionView::Update => self.update_plan(home, seen.source_exists),
            ActionView::ListTasks => Ok(
                seq![StepView::Show(printed_clean(task_rows(self.task_list())))],
            ),
            ActionView::ExecTasks(names) => Ok(self.exec_plan(home, names)),
        }
    }
}

impl Service {
    /// The plan of an operation on this service, given what is on disk.
    pub fn plan(&self, home: &str, action: &Action, seen: Observed) -> (plan: Result<
        Vec<Step>,
        Error,
    >)
        ensures
            plan_view(plan) == self@.plan(home@, action@, seen),
    {
        match action {
            Action::Clone => self.clone_repo(home, seen.source_exists),
            Action::Build => self.build(home, seen.overlay_exists),
            Action::Start => self.start(home, seen.overlay_exists),
            Action::Stop => self.stop(home, seen.overlay_exists),
            Action::Update => self.update(home, seen.source_exists),
            Action::ListTasks => {
                let mut steps: Vec<Step> = Vec::new();
                steps.push(Step::Show(self.list_tasks()));
                assert(steps.deep_view() =~= seq![
                    StepView::Show(printed_clean(task_rows(self@.task_list()))),
                ]);
                Ok(steps)
            },
            Action::ExecTasks(names) => Ok(self.exec_tasks(home, clone_strings(names))),
        }
    }
}

/// What the caller saw of the service at `place`; nothing, where the caller
/// did not look.
pub open spec fn observed_at(seen: Seq<Observed>, place: int) -> Observed {
    if 0 <= place < seen.len() {
        seen[place]
    } else {
        Observed { source_exists: false, overlay_exists: false }
    }
}

impl ProjectView {
    /// What one operation gives for every service of the project: for the
    /// service at each place its plan or its failure, from what was seen of
    /// that service.
    pub open spec fn fan_out(self, home: Seq<char>, action: ActionView, seen: Seq<Observed>) -> Seq<
        Result<Seq<StepView>, ErrorView>,
    > {
        Seq::new(
            self.services.len(),
            |i: int| self.services[i].plan(home, action, observed_at(seen, i)),
        )
    }
}

/// What a list of plans and failures holds.
pub open spec fn plans_view(plans: Seq<Result<Vec<Step>, Error>>) -> Seq<
    Result<Seq<StepView>, ErrorView>,
> {
    Seq::new(plans.len(), |i: int| plan_view(plans[i]))
}

impl Project {
    /// The plan of one operation for every service of the project, each
    /// from what the caller saw of that service. Each service gets its plan
    /// or its failure by itself: what one service gives never depends on
    /// another.
    pub fn fan_out(&self, home: &str, action: &Action, seen: &Vec<Observed>) -> (plans: Vec<
        Result<Vec<Step>, Error>,
    >)
        ensures
            plans_view(plans@) == self@.fan_out(home@, action@, seen@),
            plans.len() == self.services.len(),
            forall|i: int|
                0 <= i < plans.len() ==> plan_view(#[trigger] plans[i]) == self@.services[i].plan(
                    home@,
                    action@,
                    observed_at(seen@, i),
                ),
    {
        let mut plans: Vec<Result<Vec<Step>, Error>> = Vec::new();
        let mut i: usize = 0;
        while i < self.services.len()
            invariant
                i <= self.services.len(),
                plans.len() == i,
                forall|k: int|
                    0 <= k < i ==> plan_view(#[trigger] plans[k]) == self@.services[k].plan(
                        home@,
                        action@,
                        observed_at(seen@, k),
                    ),
            decreases self.services.len() - i,
        {
            let observed = if i < seen.len() {
                seen[i]
            } else {
                Observed { source_exists: false, overlay_exists: false }
            };
            plans.push(self.services[i].plan(home, action, observed));
            i += 1;
        }
        assert(plans_view(plans@) =~= self@.fan_out(home@, action@, seen@));
        plans
    }
}

/// What a stage asks for.
#[derive(Debug, PartialEq, Eq)]
pub enum Work {
    /// Steps that are known already.
    Steps(Vec<Step>),
    /// One operation on the service at `index`. The caller looks at the disk
    /// and asks the service for its plan.
    Service { index: usize, action: Action },
    /// One operation on every service, in no particular order and possibly
    /// at once. The caller looks at the disk and asks `fan_out`.
    Each(Action),
    /// Plans that do not depend on each other and may be carried out at once.
    Parallel(Vec<Vec<Step>>),
}

/// What a `Work` holds.
pub enum WorkView {
    Steps(Seq<StepView>),
    Service { index: int, action: ActionView },
    Each(ActionView),
    Parallel(Seq<Seq<StepView>>),
}

impl View for Work {
    type V = WorkView;

    open spec fn view(&self) -> WorkView {
        match self {
            Work::Steps(steps) => WorkView::Steps(steps.deep_view()),
            Work::Service { index, action } => WorkView::Service {
                index: *index as int,
                action: action@,
            },
            Work::Each(action) => WorkView::Each(action@),
            Work::Parallel(plans) => WorkView::Parallel(plans.deep_view()),
        }
    }
}

/// One stage of a pipeline. The stages of a pipeline are carried out one
/// after the other.
#[derive(Debug, PartialEq, Eq)]
pub struct Stage {
    pub work: Work,
    /// Whether a failure of the stage ends the pipeline. Where it does not,
    /// the next stage begins, and `report` says what the user is told of
    /// the failure.
    pub fatal: bool,
}

/// What a `Stage` holds.
pub struct StageView {
    pub work: WorkView,
    pub fatal: bool,
}

impl View for Stage {
    type V = StageView;

    open spec fn view(&self) -> StageView {
        StageView { work: self.work@, fatal: self.fatal }
    }
}

impl DeepView for Stage {
    type V = StageView;

    open spec fn deep_view(&self) -> StageView {
        self@
    }
}

impl StageView {
    /// A stage of known steps.
    pub open spec fn steps(steps: Seq<StepView>, fatal: bool) -> StageView {
        StageView { work: WorkView::Steps(steps), fatal }
    }

    /// A stage of one operation on one service.
    pub open spec fn service(index: int, action: ActionView, fatal: bool) -> StageView {
        StageView { work: WorkView::Service { index, action }, fatal }
    }

    /// A stage of one operation on every service. No failure in it ends the
    /// pipeline.
    pub open spec fn each(action: ActionView) -> StageView {
        StageView { work: WorkView::Each(action), fatal: false }
    }

    /// The failure that ends the pipeline after this stage, given the
    /// failure that the stage ended with, if any.
    pub open spec fn verdict(self, failure: Option<ErrorView>) -> Option<ErrorView> {
        if self.fatal {
            failure
        } else {
            None
        }
    }
}

/// What the user is told of one unit of work that failed among others that
/// go on without it: the failure, as a warning.
pub open spec fn unit_report(failure: Option<ErrorView>) -> Option<NoticeView> {
    match failure {
        Some(error) => Some(NoticeView::Failed(error)),
        None => None,
    }
}

/// Says what the user is told of one service's or one volume's failure in a
/// stage that works on many. The others are served whatever it says.
pub fn report_unit(failure: Option<Error>) -> (notice: Option<Notice>)
    ensures
        notice.deep_view() == unit_report(failure.deep_view()),
{
    match failure {
        Some(error) => Some(Notice::Failed(error)),
        None => None,
    }
}

impl StageView {
    /// What the user is told of a stage that failed without ending the
    /// pipeline. The failure of a stage that ends the pipeline is the
    /// pipeline's own, and is told as such.
    pub open spec fn report(self, failure: Option<ErrorView>) -> Option<NoticeView> {
        if self.fatal {
            None
        } else {
            unit_report(failure)
        }
    }
}

impl Stage {
    /// Says what the user is told of a stage that failed without ending the
    /// pipeline.
    pub fn report(&self, failure: Option<Error>) -> (notice: Option<Notice>)
        ensures
            notice.deep_view() == self@.report(failure.deep_view()),
    {
        if self.fatal {
            None
        } else {
            report_unit(failure)
        }
    }

    /// Decides, after the stage, whether the pipeline ends here.
    pub fn settle(&self, failure: Option<Error>) -> (verdict: Option<Error>)
        ensures
            verdict.deep_view() == self@.verdict(failure.deep_view()),
    {
        if self.fatal {
            failure
        } else {
            None
        }
    }
}

/// The steps that tell the user each of `notices`, in order.
pub open spec fn spoken(notices: Seq<NoticeView>) -> Seq<StepView> {
    notices.map_values(|notice: NoticeView| StepView::Say(notice))
}

/// Turns notices into steps.
pub fn say_all(notices: &Vec<Notice>) -> (steps: Vec<Step>)
    ensures
        steps.deep_view() == spoken(notices.deep_view()),
{
    let mut steps: Vec<Step> = Vec::new();
    let mut i: usize = 0;
    while i < notices.len()
        invariant
            i <= notices.len(),
            steps.len() == i,
            forall|k: int| 0 <= k < i ==> (#[trigger] steps[k])@ == StepView::Say(notices[k]@),
        decreases notices.len() - i,
    {
        steps.push(Step::Say(notices[i].clone()));
        i += 1;
    }
    assert(steps.deep_view() =~= spoken(notices.deep_view()));
    steps
}

} // verus!
