//! `tasks`: list the tasks of a service, or execute some of them.

use vstd::prelude::*;
use vstd::string::*;

use crate::commands::{addressed, address, on_service, pipeline_view};
use crate::errors::{Argument, Error, ErrorView};
use crate::pipeline::{Action, ActionView, Stage, StageView, Work};
use crate::project::{Project, ProjectView};
use crate::text::same;

verus! {

/// What `tasks` does with a service once it is found: `list` lists its
/// tasks, `exec` executes the named ones, and any other word does nothing.
pub open spec fn requested(
    subcommand: Seq<char>,
    tasks: Option<Seq<Seq<char>>>,
    place: int,
) -> Seq<StageView> {
    if subcommand == "list"@ {
        seq![StageView::service(place, ActionView::ListTasks, true)]
    } else if subcommand == "exec"@ && tasks is Some {
        seq![StageView::service(place, ActionView::ExecTasks(tasks.unwrap()), true)]
    } else {
        Seq::empty()
    }
}

/// The pipeline of `tasks`. It fails without a subcommand, without a
/// service, for a service that the project does not have, and for `exec`
/// without tasks; in this order.
pub open spec fn pipeline(
    project: ProjectView,
    subcommand: Option<Seq<char>>,
    service: Option<Seq<char>>,
    tasks: Option<Seq<Seq<char>>>,
    contents: Option<Seq<char>>,
) -> Result<Seq<StageView>, ErrorView> {
    if subcommand is None {
        Err(ErrorView::MissingArgument(Argument::Subcommand))
    } else if service is None {
        Err(ErrorView::MissingArgument(Argument::Service))
    } else if project.position(service.unwrap()) is None {
        Err(ErrorView::ServiceNotFound(service.unwrap()))
    } else if subcommand.unwrap() == "exec"@ && tasks is None {
        Err(ErrorView::MissingArgument(Argument::Tasks))
    } else {
        on_service(
            project,
            service.unwrap(),
            contents,
            |place: int| requested(subcommand.unwrap(), tasks, place),
        )
    }
}

/// Decides what `tasks` does. `contents` is what the named service's own
/// configuration file holds, `None` for a file that is not there. The
/// service reads it as soon as it is found, whatever follows.
pub fn exec(
    project: &mut Project,
    subcommand: Option<&str>,
    service: Option<&str>,
    tasks: Option<Vec<String>>,
    contents: Option<&str>,
) -> (stages: Result<Vec<Stage>, Error>)
    ensures
        pipeline_view(stages) == pipeline(
            old(project)@,
            subcommand.deep_view(),
            service.deep_view(),
            tasks.deep_view(),
            contents.deep_view(),
        ),
        final(project)@ == match (subcommand, service) {
            (Some(_), Some(name)) => addressed(old(project)@, name@, contents.deep_view()),
            _ => old(project)@,
        },
{
    let subcommand = match subcommand {
        Some(subcommand) => subcommand,
        None => {
            return Err(Error::MissingArgument(Argument::Subcommand));
        },
    };
    let name = match service {
        Some(name) => name,
        None => {
            return Err(Error::MissingArgument(Argument::Service));
        },
    };
    let (index, mut stages) = address(project, name, contents)?;
    let ghost first = stages.deep_view();
    proof {
        reveal_strlit("list");
        reveal_strlit("exec");
        assert("list"@[0] != "exec"@[0]);
    }
    if same(subcommand, "list") {
        let stage = Stage {
            work: Work::Service { index, action: Action::ListTasks },
            fatal: true,
        };
        stages.push(stage);
        assert(stages.deep_view() =~= first + seq![stage@]);
    } else if same(subcommand, "exec") {
        match tasks {
            Some(names) => {
                let stage = Stage {
                    work: Work::Service { index, action: Action::ExecTasks(names) },
                    fatal: true,
                };
                stages.push(stage);
                assert(stages.deep_view() =~= first + seq![stage@]);
            },
            None => {
                return Err(Error::MissingArgument(Argument::Tasks));
            },
        }
    } else {
        assert(stages.deep_view() =~= first + Seq::empty());
    }
    Ok(stages)
}

} // verus!
