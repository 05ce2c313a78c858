//! `stop`: stop one service, or tear the whole environment down.

use vstd::prelude::*;
use vstd::string::*;

use crate::commands::{addressed, address, docker, docker_compose, on_service, pipeline_view};
use crate::errors::{Error, ErrorView};
use crate::pipeline::{Action, ActionView, Stage, StageView, Work};
use crate::plan::{only, Invocation, InvocationView, Step, StepView};
use crate::project::{Project, ProjectView};

verus! {

/// The steps that take the environment down, with its volumes and with the
/// containers that no service declares.
pub open spec fn down_steps() -> Seq<StepView> {
    seq![StepView::run("docker-compose"@, seq!["down"@, "-v"@, "--remove-orphans"@], true)]
}

/// The steps that remove the images that nothing refers to: their ids are
/// listed and handed, one by one, to the removal.
pub open spec fn sweep_steps() -> Seq<StepView> {
    seq![
        StepView::Pipe {
            from: InvocationView::plain(
                "docker"@,
                seq!["images"@, "-q"@, "-f"@, "dangling=true"@],
            ),
            into: InvocationView::plain(
                "xargs"@,
                seq!["-I"@, "ARGS"@, "docker"@, "rmi"@, "-f"@, "ARGS"@],
            ),
        },
    ]
}

/// The pipeline of `stop`. With a service: the service is stopped, and its
/// failure is the command's. Without: the environment is taken down, then
/// the unused images are removed; neither failure ends the command.
pub open spec fn pipeline(
    project: ProjectView,
    service: Option<Seq<char>>,
    contents: Option<Seq<char>>,
) -> Result<Seq<StageView>, ErrorView> {
    match service {
        Some(name) => on_service(
            project,
            name,
            contents,
            |place: int| seq![StageView::service(place, ActionView::Stop, true)],
        ),
        None => Ok(
            seq![StageView::steps(down_steps(), false), StageView::steps(sweep_steps(), false)],
        ),
    }
}

/// The steps that take the environment down.
pub fn destroy_environment() -> (steps: Vec<Step>)
    ensures
        steps.deep_view() == down_steps(),
{
    let mut invocation = docker_compose();
    invocation.arg("down");
    invocation.arg("-v");
    invocation.arg("--remove-orphans");
    assert(invocation@.args =~= seq!["down"@, "-v"@, "--remove-orphans"@]);
    only(Step::run(invocation, true))
}

/// The steps that remove the images that nothing refers to.
pub fn remove_images() -> (steps: Vec<Step>)
    ensures
        steps.deep_view() == sweep_steps(),
{
    let mut from = docker();
    from.arg("images");
    from.arg("-q");
    from.arg("-f");
    from.arg("dangling=true");
    assert(from@.args =~= seq!["images"@, "-q"@, "-f"@, "dangling=true"@]);
    let mut into = Invocation::new("xargs");
    into.arg("-I");
    into.arg("ARGS");
    into.arg("docker");
    into.arg("rmi");
    into.arg("-f");
    into.arg("ARGS");
    assert(into@.args =~= seq!["-I"@, "ARGS"@, "docker"@, "rmi"@, "-f"@, "ARGS"@]);
    only(Step::Pipe { from, into })
}

/// Decides what `stop` does. `contents` is what the named service's own
/// configuration file holds, `None` for a file that is not there.
pub fn exec(project: &mut Project, service: Option<&str>, contents: Option<&str>) -> (stages:
    Result<Vec<Stage>, Error>)
    ensures
        pipeline_view(stages) == pipeline(
            old(project)@,
            service.deep_view(),
            contents.deep_view(),
        ),
        final(project)@ == match service {
            Some(name) => addressed(old(project)@, name@, contents.deep_view()),
            None => old(project)@,
        },
{
    match service {
        Some(name) => {
            let (index, mut stages) = address(project, name, contents)?;
            let ghost first = stages.deep_view();
            let stage = Stage { work: Work::Service { index, action: Action::Stop }, fatal: true };
            stages.push(stage);
            assert(stages.deep_view() =~= first + seq![stage@]);
            Ok(stages)
        },
        None => {
            let mut stages: Vec<Stage> = Vec::new();
            let down = Stage { work: Work::Steps(destroy_environment()), fatal: false };
            let sweep = Stage { work: Work::Steps(remove_images()), fatal: false };
            stages.push(down);
            stages.push(sweep);
            assert(stages.deep_view() =~= seq![down@, sweep@]);
            Ok(stages)
        },
    }
}

} // verus!
