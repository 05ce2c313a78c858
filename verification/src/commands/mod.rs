//! The commands of the tool, each as the pipeline it decides on.

use vstd::prelude::*;
use vstd::string::*;

use crate::errors::{Argument, Error, ErrorView};
use crate::pipeline::{say_all, spoken, Stage, StageView, Work};
use crate::plan::{Invocation, InvocationView, Step};
use crate::project::{loaded_view, Project, ProjectView};
use crate::text::same;

pub mod building;
pub mod doctor;
pub mod logs;
pub mod new;
pub mod ps;
pub mod renew;
pub mod start;
pub mod stop;
pub mod tasks;
pub mod update;

verus! {

/// A command that the tool implements itself.
#[derive(Clone, Copy, Debug, PartialEq, Eq, Structural)]
pub enum Builtin {
    Build,
    Completions,
    Doctor,
    Logs,
    New,
    Ps,
    Start,
    Stop,
    Tasks,
    Update,
}

/// The command that a word of the command line names.
pub open spec fn builtin_of(cmd: Seq<char>) -> Option<Builtin> {
    if cmd == "build"@ {
        Some(Builtin::Build)
    } else if cmd == "completions"@ {
        Some(Builtin::Completions)
    } else if cmd == "doctor"@ {
        Some(Builtin::Doctor)
    } else if cmd == "logs"@ {
        Some(Builtin::Logs)
    } else if cmd == "new"@ {
        Some(Builtin::New)
    } else if cmd == "ps"@ {
        Some(Builtin::Ps)
    } else if cmd == "start"@ {
        Some(Builtin::Start)
    } else if cmd == "stop"@ {
        Some(Builtin::Stop)
    } else if cmd == "tasks"@ {
        Some(Builtin::Tasks)
    } else if cmd == "update"@ {
        Some(Builtin::Update)
    } else {
        None
    }
}

/// Finds the command that a word of the command line names.
pub fn builtin_exec(cmd: &str) -> (found: Option<Builtin>)
    ensures
        found == builtin_of(cmd@),
{
    if same(cmd, "build") {
        Some(Builtin::Build)
    } else if same(cmd, "completions") {
        Some(Builtin::Completions)
    } else if same(cmd, "doctor") {
        Some(Builtin::Doctor)
    } else if same(cmd, "logs") {
        Some(Builtin::Logs)
    } else if same(cmd, "new") {
        Some(Builtin::New)
    } else if same(cmd, "ps") {
        Some(Builtin::Ps)
    } else if same(cmd, "start") {
        Some(Builtin::Start)
    } else if same(cmd, "stop") {
        Some(Builtin::Stop)
    } else if same(cmd, "tasks") {
        Some(Builtin::Tasks)
    } else if same(cmd, "update") {
        Some(Builtin::Update)
    } else {
        None
    }
}

/// An invocation of the container tool.
pub fn docker() -> (invocation: Invocation)
    ensures
        invocation@ == InvocationView::plain("docker"@, Seq::empty()),
{
    Invocation::new("docker")
}

/// An invocation of the compose tool.
pub fn docker_compose() -> (invocation: Invocation)
    ensures
        invocation@ == InvocationView::plain("docker-compose"@, Seq::empty()),
{
    Invocation::new("docker-compose")
}

/// The project that a command works on: the one that the command line
/// names, loaded from the contents of its configuration file.
pub open spec fn project_of(
    name: Option<Seq<char>>,
    home: Seq<char>,
    contents: Option<Seq<char>>,
) -> Result<ProjectView, ErrorView> {
    match name {
        Some(name) => ProjectView::load(name, home, contents),
        None => Err(ErrorView::MissingArgument(Argument::Project)),
    }
}

/// Loads the project that the command line names.
pub fn project(name: Option<&str>, home: &str, contents: Option<&str>) -> (loaded: Result<
    Project,
    Error,
>)
    ensures
        loaded_view(loaded) == project_of(name.deep_view(), home@, contents.deep_view()),
        loaded matches Ok(project) ==> project@.well_formed(),
{
    match name {
        Some(name) => Project::new(name, home, contents),
        None => Err(Error::MissingArgument(Argument::Project)),
    }
}

/// The stage that tells the user what a service found when it read its own
/// configuration file. It never ends a pipeline.
pub open spec fn told(project: ProjectView, place: int, contents: Option<Seq<char>>) -> StageView {
    StageView::steps(spoken(project.services[place].rehydration_notices(contents)), false)
}

/// The project after a command has addressed one of its services by name:
/// that service has read its own configuration file. A name that no service
/// has changes nothing.
pub open spec fn addressed(project: ProjectView, name: Seq<char>, contents: Option<Seq<char>>) -> ProjectView {
    match project.position(name) {
        Some(place) => project.rehydrated_at(place, contents),
        None => project,
    }
}

/// The pipeline of a command on the service called `name`: what the service
/// found in its configuration file is told, then `then` is done, stage by
/// stage. Without such a service the command fails.
pub open spec fn on_service(
    project: ProjectView,
    name: Seq<char>,
    contents: Option<Seq<char>>,
    then: spec_fn(int) -> Seq<StageView>,
) -> Result<Seq<StageView>, ErrorView> {
    match project.position(name) {
        Some(place) => Ok(seq![told(project, place, contents)] + then(place)),
        None => Err(ErrorView::ServiceNotFound(name)),
    }
}

/// A pipeline, or the failure that keeps a command from having one.
pub open spec fn pipeline_view(pipeline: Result<Vec<Stage>, Error>) -> Result<
    Seq<StageView>,
    ErrorView,
> {
    match pipeline {
        Ok(stages) => Ok(stages.deep_view()),
        Err(error) => Err(error@),
    }
}

/// Finds the service called `name`, has it read its own configuration file,
/// and begins the pipeline of a command on it.
pub fn address(project: &mut Project, name: &str, contents: Option<&str>) -> (found: Result<
    (usize, Vec<Stage>),
    Error,
>)
    ensures
        final(project)@ == addressed(old(project)@, name@, contents.deep_view()),
        match old(project)@.position(name@) {
            Some(place) => {
                &&& found matches Ok((index, stages))
                &&& index == place
                &&& place < old(project).services.len()
                &&& stages.deep_view() == seq![
                    told(old(project)@, place, contents.deep_view()),
                ]
            },
            None => found matches Err(error) && error@ == ErrorView::ServiceNotFound(name@),
        },
{
    match project.locate(name) {
        Some(index) => {
            let notices = project.rehydrate_at(index, contents);
            let mut stages: Vec<Stage> = Vec::new();
            let stage = Stage { work: Work::Steps(say_all(&notices)), fatal: false };
            stages.push(stage);
            assert(stages.deep_view() =~= seq![stage@]);
            Ok((index, stages))
        },
        None => Err(Error::ServiceNotFound(String::from_str(name))),
    }
}

/// A pipeline of one stage of known steps.
pub fn single(steps: Vec<Step>, fatal: bool) -> (stages: Vec<Stage>)
    ensures
        stages.deep_view() == seq![StageView::steps(steps.deep_view(), fatal)],
{
    let mut stages: Vec<Stage> = Vec::new();
    let stage = Stage { work: Work::Steps(steps), fatal };
    stages.push(stage);
    assert(stages.deep_view() =~= seq![stage@]);
    stages
}

} // verus!
