//! `start`: start one service, or the whole environment.

use vstd::prelude::*;
use vstd::string::*;

use crate::commands::{addressed, address, docker_compose, on_service, pipeline_view, single};
use crate::errors::{Error, ErrorView};
use crate::pipeline::{Action, ActionView, Stage, StageView, Work};
use crate::plan::{only, Step, StepView};
use crate::project::{Project, ProjectView};

verus! {

/// The steps that bring the whole environment up.
pub open spec fn up_steps() -> Seq<StepView> {
    seq![StepView::run("docker-compose"@, seq!["up"@, "-d"@], true)]
}

/// The pipeline of `start`. With a service: the service is started, and
/// its failure is the command's. Without: the whole environment is brought
/// up.
pub open spec fn pipeline(
    project: ProjectView,
    service: Option<Seq<char>>,
    contents: Option<Seq<char>>,
) -> Result<Seq<StageView>, ErrorView> {
    match service {
        Some(name) => on_service(
            project,
            name,
            contents,
            |place: int| seq![StageView::service(place, ActionView::Start, true)],
        ),
        None => Ok(seq![StageView::steps(up_steps(), true)]),
    }
}

/// Decides what `start` does. `contents` is what the named service's own
/// configuration file holds, `None` for a file that is not there.
pub fn exec(project: &mut Project, service: Option<&str>, contents: Option<&str>) -> (stages:
    Result<Vec<Stage>, Error>)
    ensures
        pipeline_view(stages) == pipeline(
            old(project)@,
            service.deep_view(),
            contents.deep_view(),
        ),
        final(project)@ == match service {
            Some(name) => addressed(old(project)@, name@, contents.deep_view()),
            None => old(project)@,
        },
{
    match service {
        Some(name) => {
            let (index, mut stages) = address(project, name, contents)?;
            let ghost first = stages.deep_view();
            let stage = Stage { work: Work::Service { index, action: Action::Start }, fatal: true };
            stages.push(stage);
            assert(stages.deep_view() =~= first + seq![stage@]);
            Ok(stages)
        },
        None => {
            let mut invocation = docker_compose();
            invocation.arg("up");
            invocation.arg("-d");
            assert(invocation@.args =~= seq!["up"@, "-d"@]);
            let steps = only(Step::run(invocation, true));
            Ok(single(steps, true))
        },
    }
}

} // verus!
