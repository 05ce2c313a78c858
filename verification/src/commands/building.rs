//! `build`: build one service, or set the whole environment up.

use vstd::prelude::*;
use vstd::string::*;

use crate::commands::{addressed, address, docker, docker_compose, on_service, pipeline_view};
use crate::errors::{Error, ErrorView};
use crate::pipeline::{
    observed_at, Action, ActionView, Observed, Stage, StageView, Work, WorkView,
};
use crate::plan::{InvocationView, LaunchView, Notice, NoticeView, Step, StepView};
use crate::project::{Project, ProjectView};
use crate::lifecycle::plan_view;

verus! {

/// The steps that create the network of a project, named like the project.
/// What the tool prints is thrown away.
pub open spec fn network_steps(project: Seq<char>) -> Seq<StepView> {
    seq![
        StepView::Say(NoticeView::CreatingNetwork { project }),
        StepView::Run(
            LaunchView {
                invocation: InvocationView {
                    program: "docker"@,
                    args: seq!["network"@, "create"@, project],
                    dir: None,
                    discard_output: true,
                    discard_errors: true,
                },
                guard: None,
                fatal: true,
            },
        ),
    ]
}

/// The steps that create one volume. What the tool prints, errors apart, is
/// thrown away.
pub open spec fn volume_steps(name: Seq<char>) -> Seq<StepView> {
    seq![
        StepView::Say(NoticeView::CreatingVolume { name }),
        StepView::Run(
            LaunchView {
                invocation: InvocationView {
                    program: "docker"@,
                    args: seq!["volume"@, "create"@, "--name"@, name],
                    dir: None,
                    discard_output: true,
                    discard_errors: false,
                },
                guard: None,
                fatal: true,
            },
        ),
    ]
}

/// One plan for each volume, in the order of the volumes.
pub open spec fn volume_plans(volumes: Seq<Seq<char>>) -> Seq<Seq<StepView>> {
    volumes.map_values(|name: Seq<char>| volume_steps(name))
}

/// The steps that pull the newest images.
pub open spec fn pull_steps() -> Seq<StepView> {
    seq![
        StepView::Say(NoticeView::PullingImages),
        StepView::run("docker-compose"@, seq!["pull"@], true),
    ]
}

/// The steps that build the images of the project's compose file.
pub open spec fn image_steps() -> Seq<StepView> {
    seq![
        StepView::Say(NoticeView::BuildingImages),
        StepView::run("docker-compose"@, seq!["build"@], true),
    ]
}

/// The pipeline that sets the whole environment up: the network, the
/// volumes, the newest images, the images of the project; then every
/// service is cloned, then every service is built. No failure ends it:
/// each stage is tried whatever became of those before.
pub open spec fn environment(project: ProjectView) -> Seq<StageView> {
    seq![
        StageView::steps(network_steps(project.name), false),
        StageView::steps(seq![StepView::Say(NoticeView::CreatingVolumes)], false),
        StageView { work: WorkView::Parallel(volume_plans(project.volumes)), fatal: false },
        StageView::steps(pull_steps(), false),
        StageView::steps(image_steps(), false),
        StageView::each(ActionView::Clone),
        StageView::each(ActionView::Build),
    ]
}

/// The pipeline of `build`. With a service: the service is cloned, which
/// may fail without ending the command, and then built, whose failure is
/// the command's. Without: the whole environment is set up.
pub open spec fn pipeline(
    project: ProjectView,
    service: Option<Seq<char>>,
    contents: Option<Seq<char>>,
) -> Result<Seq<StageView>, ErrorView> {
    match service {
        Some(name) => on_service(
            project,
            name,
            contents,
            |place: int|
                seq![
                    StageView::service(place, ActionView::Clone, false),
                    StageView::service(place, ActionView::Build, true),
                ],
        ),
        None => Ok(environment(project)),
    }
}

/// The steps that create the network of the project.
pub fn create_network(project: &Project) -> (steps: Vec<Step>)
    ensures
        steps.deep_view() == network_steps(project@.name),
{
    let mut invocation = docker();
    invocation.arg("network");
    invocation.arg("create");
    invocation.arg(project.name.as_str());
    invocation.discard_output = true;
    invocation.discard_errors = true;
    assert(invocation@.args =~= seq!["network"@, "create"@, project@.name]);
    let mut steps: Vec<Step> = Vec::new();
    steps.push(Step::Say(Notice::CreatingNetwork { project: project.name.clone() }));
    steps.push(Step::run(invocation, true));
    assert(steps.deep_view() =~= network_steps(project@.name));
    steps
}

/// The steps that create one volume.
pub fn create_volume(name: &str) -> (steps: Vec<Step>)
    ensures
        steps.deep_view() == volume_steps(name@),
{
    let mut invocation = docker();
    invocation.arg("volume");
    invocation.arg("create");
    invocation.arg("--name");
    invocation.arg(name);
    invocation.discard_output = true;
    assert(invocation@.args =~= seq!["volume"@, "create"@, "--name"@, name@]);
    let mut steps: Vec<Step> = Vec::new();
    steps.push(Step::Say(Notice::CreatingVolume { name: String::from_str(name) }));
    steps.push(Step::run(invocation, true));
    assert(steps.deep_view() =~= volume_steps(name@));
    steps
}

/// One plan for each volume of the project. The plans do not depend on
/// each other.
pub fn create_volumes(project: &Project) -> (plans: Vec<Vec<Step>>)
    ensures
        plans.deep_view() == volume_plans(project@.volumes),
{
    let mut plans: Vec<Vec<Step>> = Vec::new();
    let mut i: usize = 0;
    while i < project.volumes.len()
        invariant
            i <= project.volumes.len(),
            plans.len() == i,
            forall|k: int|
                0 <= k < i ==> (#[trigger] plans[k]).deep_view() == volume_steps(
                    project.volumes[k]@,
                ),
        decreases project.volumes.len() - i,
    {
        plans.push(create_volume(project.volumes[i].as_str()));
        i += 1;
    }
    assert(plans.deep_view() =~= volume_plans(project@.volumes));
    plans
}

/// The steps that pull the newest images.
pub fn pull_latest_images() -> (steps: Vec<Step>)
    ensures
        steps.deep_view() == pull_steps(),
{
    let mut invocation = docker_compose();
    invocation.arg("pull");
    assert(invocation@.args =~= seq!["pull"@]);
    let mut steps: Vec<Step> = Vec::new();
    steps.push(Step::Say(Notice::PullingImages));
    steps.push(Step::run(invocation, true));
    assert(steps.deep_view() =~= pull_steps());
    steps
}

/// The steps that build the images of the project's compose file.
pub fn build_images() -> (steps: Vec<Step>)
    ensures
        steps.deep_view() == image_steps(),
{
    let mut invocation = docker_compose();
    invocation.arg("build");
    assert(invocation@.args =~= seq!["build"@]);
    let mut steps: Vec<Step> = Vec::new();
    steps.push(Step::Say(Notice::BuildingImages));
    steps.push(Step::run(invocation, true));
    assert(steps.deep_view() =~= image_steps());
    steps
}

/// What cloning asks for, service by service: for each service its plan or
/// its failure, from what the caller saw of that service. A service that
/// fails keeps no other from its plan.
pub fn clone_services(project: &Project, home: &str, seen: &Vec<Observed>) -> (plans: Vec<
    Result<Vec<Step>, Error>,
>)
    ensures
        plans.len() == project.services.len(),
        forall|i: int|
            0 <= i < plans.len() ==> plan_view(#[trigger] plans[i])
                == project@.services[i].clone_plan(home@, observed_at(seen@, i).source_exists),
{
    project.fan_out(home, &Action::Clone, seen)
}

/// What building asks for, service by service: for each service its plan
/// or its failure, from what the caller saw of that service. A service
/// that fails keeps no other from its plan.
pub fn build_services(project: &Project, home: &str, seen: &Vec<Observed>) -> (plans: Vec<
    Result<Vec<Step>, Error>,
>)
    ensures
        plans.len() == project.services.len(),
        forall|i: int|
            0 <= i < plans.len() ==> plan_view(#[trigger] plans[i])
                == project@.services[i].build_plan(home@, observed_at(seen@, i).overlay_exists),
{
    project.fan_out(home, &Action::Build, seen)
}

/// Decides what `build` does. `contents` is what the named service's own
/// configuration file holds, `None` for a file that is not there.
pub fn exec(project: &mut Project, service: Option<&str>, contents: Option<&str>) -> (stages:
    Result<Vec<Stage>, Error>)
    ensures
        pipeline_view(stages) == pipeline(
            old(project)@,
            service.deep_view(),
            contents.deep_view(),
        ),
        final(project)@ == match service {
            Some(name) => addressed(old(project)@, name@, contents.deep_view()),
            None => old(project)@,
        },
{
    match service {
        Some(name) => {
            let (index, mut stages) = address(project, name, contents)?;
            let ghost first = stages.deep_view();
            let fetch = Stage {
                work: Work::Service { index, action: Action::Clone },
                fatal: false,
            };
            let build = Stage { work: Work::Service { index, action: Action::Build }, fatal: true };
            stages.push(fetch);
            stages.push(build);
            assert(stages.deep_view() =~= first + seq![fetch@, build@]);
            Ok(stages)
        },
        None => {
            let mut announce: Vec<Step> = Vec::new();
            announce.push(Step::Say(Notice::CreatingVolumes));
            assert(announce.deep_view() =~= seq![StepView::Say(NoticeView::CreatingVolumes)]);
            let network = Stage { work: Work::Steps(create_network(project)), fatal: false };
            let announce = Stage { work: Work::Steps(announce), fatal: false };
            let volumes = Stage { work: Work::Parallel(create_volumes(project)), fatal: false };
            let pull = Stage { work: Work::Steps(pull_latest_images()), fatal: false };
            let images = Stage { work: Work::Steps(build_images()), fatal: false };
            let fetch = Stage { work: Work::Each(Action::Clone), fatal: false };
            let build = Stage { work: Work::Each(Action::Build), fatal: false };
            let mut stages: Vec<Stage> = Vec::new();
            stages.push(network);
            stages.push(announce);
            stages.push(volumes);
            stages.push(pull);
            stages.push(images);
            stages.push(fetch);
            stages.push(build);
            assert(stages.deep_view() =~= environment(project@));
            Ok(stages)
        },
    }
}

} // verus!
