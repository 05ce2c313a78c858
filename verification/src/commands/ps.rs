//! `ps`: show the containers that run.

use vstd::prelude::*;
use vstd::string::*;

use crate::commands::{docker, single};
use crate::pipeline::{Stage, StageView};
use crate::plan::{only, Step, StepView};

verus! {

/// The listing of the running containers, as a table of id, names, status
/// and ports.
pub open spec fn listing_steps() -> Seq<StepView> {
    seq![
        StepView::run(
            "docker"@,
            seq!["ps"@, "--format"@, "table {{.ID}}\t{{.Names}}\t{{.Status}}\t{{.Ports}}"@],
            true,
        ),
    ]
}

/// Decides what `ps` does: one listing, whose failure to start is the
/// command's.
pub fn exec() -> (stages: Vec<Stage>)
    ensures
        stages.deep_view() == seq![StageView::steps(listing_steps(), true)],
{
    let mut invocation = docker();
    invocation.arg("ps");
    invocation.arg("--format");
    invocation.arg("table {{.ID}}\t{{.Names}}\t{{.Status}}\t{{.Ports}}");
    assert(invocation@.args =~= seq![
        "ps"@,
        "--format"@,
        "table {{.ID}}\t{{.Names}}\t{{.Status}}\t{{.Ports}}"@,
    ]);
    single(only(Step::run(invocation, true)), true)
}

} // verus!
