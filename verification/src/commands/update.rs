//! `update`: bring the source of one service up to date.

use vstd::prelude::*;
use vstd::string::*;

use crate::commands::{addressed, address, on_service, pipeline_view};
use crate::errors::{Argument, Error, ErrorView};
use crate::pipeline::{Action, ActionView, Stage, StageView, Work};
use crate::project::{Project, ProjectView};

verus! {

/// The pipeline of `update`: the named service is updated, and its failure
/// is the command's. Without a service the command fails.
pub open spec fn pipeline(
    project: ProjectView,
    service: Option<Seq<char>>,
    contents: Option<Seq<char>>,
) -> Result<Seq<StageView>, ErrorView> {
    match service {
        Some(name) => on_service(
            project,
            name,
            contents,
            |place: int| seq![StageView::service(place, ActionView::Update, true)],
        ),
        None => Err(ErrorView::MissingArgument(Argument::UpdatedService)),
    }
}

/// Decides what `update` does. `contents` is what the named service's own
/// configuration file holds, `None` for a file that is not there.
pub fn exec(project: &mut Project, service: Option<&str>, contents: Option<&str>) -> (stages:
    Result<Vec<Stage>, Error>)
    ensures
        pipeline_view(stages) == pipeline(
            old(project)@,
            service.deep_view(),
            contents.deep_view(),
        ),
        final(project)@ == match service {
            Some(name) => addressed(old(project)@, name@, contents.deep_view()),
            None => old(project)@,
        },
{
    let name = match service {
        Some(name) => name,
        None => {
            return Err(Error::MissingArgument(Argument::UpdatedService));
        },
    };
    let (index, mut stages) = address(project, name, contents)?;
    let ghost first = stages.deep_view();
    let stage = Stage { work: Work::Service { index, action: Action::Update }, fatal: true };
    stages.push(stage);
    assert(stages.deep_view() =~= first + seq![stage@]);
    Ok(stages)
}

} // verus!
