//! `logs`: show what the services of a project have logged.

use vstd::prelude::*;
use vstd::string::*;

use crate::commands::single;
use crate::pipeline::{Stage, StageView};
use crate::plan::{only, Invocation, InvocationView, LaunchView, Step, StepView};
use crate::project::{Project, ProjectView};

verus! {

/// What one name adds to the compose files of the invocation: for a
/// service of the project its own compose file, layered over those
/// before; nothing for any other name.
pub open spec fn override_of(project: ProjectView, home: Seq<char>, name: Seq<char>) -> Seq<
    Seq<char>,
> {
    match project.position(name) {
        Some(place) => seq!["-f"@, project.services[place].compose_file(home)],
        None => Seq::empty(),
    }
}

/// What the names add to the compose files, name by name.
pub open spec fn overrides(project: ProjectView, home: Seq<char>, names: Seq<Seq<char>>) -> Seq<
    Seq<char>,
>
    decreases names.len(),
{
    if names.len() == 0 {
        Seq::empty()
    } else {
        overrides(project, home, names.drop_last()) + override_of(project, home, names.last())
    }
}

/// The flag that keeps the output following the logs.
pub open spec fn follow_flag(follow: bool) -> Seq<Seq<char>> {
    if follow {
        seq!["-f"@]
    } else {
        Seq::empty()
    }
}

/// The flag that limits how many lines of each container are shown.
pub open spec fn tail_flag(tail: Option<Seq<char>>) -> Seq<Seq<char>> {
    match tail {
        Some(lines) => seq!["--tail"@, lines],
        None => Seq::empty(),
    }
}

/// The invocation of `logs`: the project's compose file, the compose file
/// of each named service that the project has, the subcommand with its
/// flags, and the names as given.
pub open spec fn invocation(
    project: ProjectView,
    home: Seq<char>,
    names: Seq<Seq<char>>,
    follow: bool,
    tail: Option<Seq<char>>,
) -> InvocationView {
    InvocationView::plain(
        "docker-compose"@,
        seq!["-f"@, project.docker_compose_file] + overrides(project, home, names) + seq![
            "logs"@,
        ] + follow_flag(follow) + tail_flag(tail) + names,
    )
}

/// Adds the compose file of the service called `name` to an invocation, if
/// the project has such a service.
pub fn maybe_append_docker_compose_override(
    cmd: &mut Invocation,
    name: &str,
    project: &Project,
    home: &str,
)
    ensures
        final(cmd)@ == old(cmd)@.with(override_of(project@, home@, name@)),
{
    let ghost before = cmd@;
    match project.locate(name) {
        Some(place) => {
            let file = project.services[place].devbox_compose_file(home);
            cmd.arg("-f");
            cmd.arg(file.as_str());
            assert(cmd@.args =~= before.with(override_of(project@, home@, name@)).args);
        },
        None => {
            assert(cmd@.args =~= before.with(Seq::empty()).args);
        },
    }
}

/// Decides what `logs` does: one invocation, whose failure to start is the
/// command's.
pub fn exec(
    project: &Project,
    home: &str,
    names: &Vec<String>,
    follow: bool,
    tail: Option<&str>,
) -> (stages: Vec<Stage>)
    ensures
        stages.deep_view() == seq![
            StageView::steps(
                seq![
                    StepView::Run(
                        LaunchView {
                            invocation: invocation(
                                project@,
                                home@,
                                names.deep_view(),
                                follow,
                                tail.deep_view(),
                            ),
                            guard: None,
                            fatal: true,
                        },
                    ),
                ],
                true,
            ),
        ],
{
    let mut cmd = Invocation::new("docker-compose");
    cmd.arg("-f");
    cmd.arg(project.docker_compose_file.as_str());
    let ghost head = seq!["-f"@, project@.docker_compose_file];
    assert(cmd@.args =~= head + overrides(project@, home@, names.deep_view().take(0)));
    let mut i: usize = 0;
    while i < names.len()
        invariant
            i <= names.len(),
            cmd@ == InvocationView::plain(
                "docker-compose"@,
                head + overrides(project@, home@, names.deep_view().take(i as int)),
            ),
        decreases names.len() - i,
    {
        maybe_append_docker_compose_override(&mut cmd, names[i].as_str(), project, home);
        proof {
            let upto = names.deep_view().take(i as int + 1);
            assert(upto.drop_last() =~= names.deep_view().take(i as int));
            assert(upto.last() == names[i as int]@);
            assert(cmd@.args =~= head + overrides(project@, home@, upto));
        }
        i += 1;
    }
    assert(names.deep_view().take(names.len() as int) =~= names.deep_view());
    let ghost files = cmd@.args;
    cmd.arg("logs");
    if follow {
        cmd.arg("-f");
    }
    assert(cmd@.args =~= files + seq!["logs"@] + follow_flag(follow));
    match tail {
        Some(lines) => {
            cmd.arg("--tail");
            cmd.arg(lines);
        },
        None => {},
    }
    assert(cmd@.args =~= files + seq!["logs"@] + follow_flag(follow) + tail_flag(
        tail.deep_view(),
    ));
    cmd.args(names);
    single(only(Step::run(cmd, true)), true)
}

} // verus!
