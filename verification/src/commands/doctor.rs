//! `doctor`: say whether the programs that the tool needs can be started.

use vstd::prelude::*;
use vstd::string::*;

use crate::plan::{Notice, NoticeView};

verus! {

/// What the user is told of one program.
pub open spec fn command_status(command: Seq<char>, found: bool) -> NoticeView {
    if found {
        NoticeView::CommandFound { command }
    } else {
        NoticeView::CommandMissing { command }
    }
}

/// Says whether a program was found.
pub fn print_command_status(command: &str, found: bool) -> (notice: Notice)
    ensures
        notice@ == command_status(command@, found),
{
    if found {
        Notice::CommandFound { command: String::from_str(command) }
    } else {
        Notice::CommandMissing { command: String::from_str(command) }
    }
}

/// Decides what `doctor` reports, given whether the container tool and the
/// compose tool could be started: one line for each, in this order.
pub fn exec(docker_found: bool, compose_found: bool) -> (report: Vec<Notice>)
    ensures
        report.deep_view() == seq![
            command_status("docker"@, docker_found),
            command_status("docker-compose"@, compose_found),
        ],
{
    let mut report: Vec<Notice> = Vec::new();
    report.push(print_command_status("docker", docker_found));
    report.push(print_command_status("docker-compose", compose_found));
    assert(report.deep_view() =~= seq![
        command_status("docker"@, docker_found),
        command_status("docker-compose"@, compose_found),
    ]);
    report
}

} // verus!
