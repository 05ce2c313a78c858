//! What holds of every service, project and pipeline, proved from the
//! definitions that the contracts of the library are stated with.

use vstd::prelude::*;
use vstd::string::*;

use crate::commands::building::environment;
use crate::errors::{ErrorView, Verb};
use crate::execution::{ends_plan, lemma_steps_in_order, ExecutionView};
use crate::document::{document_of, Entry};
use crate::paths::{join, project_dir};
use crate::rehydration::resolved_hooks;
use crate::pipeline::{observed_at, ActionView, Observed, StageView};
use crate::plan::{Level, NoticeView, Outcome, StepView};
use crate::project::ProjectView;
use crate::service::ServiceView;
use crate::task::{find_named, names, resolve, TaskView};
use crate::text::{first_index, lemma_first_index};

verus! {

/// A project's directory is `<home>/.config/devbox/<name>`, letter for
/// letter.
pub proof fn lemma_project_dir_text(home: Seq<char>, name: Seq<char>)
    ensures
        project_dir(home, name) == home + "/.config/devbox/"@ + name,
{
    reveal_strlit("/");
    reveal_strlit(".config");
    reveal_strlit("devbox");
    reveal_strlit("/.config/devbox/");
    assert(project_dir(home, name) =~= home + "/.config/devbox/"@ + name);
}

/// A service with a `path` has its source there, whatever its repository,
/// its project and the home directory are.
pub proof fn lemma_source_path_is_path(
    service: ServiceView,
    home: Seq<char>,
    repo: Option<Seq<char>>,
)
    requires
        service.path is Some,
    ensures
        service.source_path(home) == service.path.unwrap(),
        (ServiceView { repo, ..service }).source_path(home) == service.path.unwrap(),
{
}

/// A service without a `path` has its source at
/// `<home>/.config/devbox/<project>/src/<name>`: in `src/<name>` below its
/// project's directory. The place depends on nothing but these three names.
pub proof fn lemma_source_path_default(service: ServiceView, home: Seq<char>)
    requires
        service.path is None,
    ensures
        service.source_path(home) == join(
            join(project_dir(home, service.project_name), "src"@),
            service.name,
        ),
        service.source_path(home) == home + "/.config/devbox/"@ + service.project_name
            + "/src/"@ + service.name,
{
    lemma_project_dir_text(home, service.project_name);
    reveal_strlit("/");
    reveal_strlit("src");
    reveal_strlit("/src/");
    assert(service.source_path(home) =~= home + "/.config/devbox/"@ + service.project_name
        + "/src/"@ + service.name);
}

/// In every compose invocation for a service the project's compose file
/// comes first and the service's own after it, so that the service's file
/// can override the project's; and the project directory is the directory
/// that holds the service's file.
pub proof fn lemma_overlay_order(service: ServiceView, program: Seq<char>, home: Seq<char>)
    ensures
        ({
            let invocation = service.compose(program, home);
            &&& invocation.program == program
            &&& invocation.args.len() == 6
            &&& invocation.args[0] == "-f"@
            &&& invocation.args[1] == home + "/.config/devbox/"@ + service.project_name
                + "/docker-compose.yml"@
            &&& invocation.args[2] == "-f"@
            &&& invocation.args[3] == service.source_path(home) + "/.devbox/docker-compose.yml"@
            &&& invocation.args[4] == "--project-directory"@
            &&& invocation.args[5] == service.source_path(home) + "/.devbox"@
            &&& invocation.args[3] == join(invocation.args[5], "docker-compose.yml"@)
        }),
{
    lemma_project_dir_text(home, service.project_name);
    reveal_strlit("/");
    reveal_strlit(".devbox");
    reveal_strlit("docker-compose.yml");
    reveal_strlit("/.devbox");
    reveal_strlit("/docker-compose.yml");
    reveal_strlit("/.devbox/docker-compose.yml");
    let invocation = service.compose(program, home);
    assert(invocation.args[1] =~= home + "/.config/devbox/"@ + service.project_name
        + "/docker-compose.yml"@);
    assert(invocation.args[3] =~= service.source_path(home) + "/.devbox/docker-compose.yml"@);
    assert(invocation.args[5] =~= service.source_path(home) + "/.devbox"@);
}

/// The task found under a name has that name and is a task of the list;
/// nothing is found exactly when no task of the list has the name.
pub proof fn lemma_find_named(tasks: Seq<TaskView>, name: Seq<char>)
    ensures
        match find_named(tasks, name) {
            Some(task) => task.name == name && tasks.contains(task),
            None => forall|i: int| 0 <= i < tasks.len() ==> (#[trigger] tasks[i]).name != name,
        },
{
    lemma_first_index(names(tasks), name);
    match first_index(names(tasks), name) {
        Some(i) => {
            assert(names(tasks)[i] == tasks[i].name);
        },
        None => {
            assert forall|i: int| 0 <= i < tasks.len() implies (#[trigger] tasks[i]).name
                != name by {
                assert(names(tasks)[i] == tasks[i].name);
            }
        },
    }
}

/// Executing tasks by name gives one step for each name, in the order of
/// the names; a name that the service does not declare gives a report,
/// which ends nothing, so the names after it are still served.
pub proof fn lemma_exec_plan(service: ServiceView, home: Seq<char>, wanted: Seq<Seq<char>>, i: int)
    requires
        0 <= i < wanted.len(),
    ensures
        service.exec_plan(home, wanted).len() == wanted.len(),
        service.exec_plan(home, wanted)[i] == service.requested_step(home, wanted[i]),
        find_named(service.task_list(), wanted[i]) is None ==> service.exec_plan(home, wanted)[i]
            == StepView::Say(NoticeView::UnknownTask { task: wanted[i], service: service.name })
            && forall|outcome: Outcome|
            !ends_plan(service.exec_plan(home, wanted)[i], outcome),
{
}

/// A name has no place in a project exactly when no service of the project
/// is called so; and the place of a name that has one is that of the first
/// service called so.
pub proof fn lemma_position(project: ProjectView, name: Seq<char>)
    ensures
        project.position(name) is None <==> forall|i: int|
            0 <= i < project.services.len() ==> (#[trigger] project.services[i]).name != name,
        project.position(name) matches Some(place) ==> 0 <= place < project.services.len()
            && project.services[place].name == name,
{
    lemma_first_index(project.names(), name);
    if project.position(name) is None {
        assert forall|i: int| 0 <= i < project.services.len() implies (
        #[trigger] project.services[i]).name != name by {
            assert(project.names()[i] == project.services[i].name);
        }
    } else {
        let place = project.position(name).unwrap();
        assert(project.names()[place] == project.services[place].name);
    }
}

/// In a project whose services have distinct names, the service found
/// under a name is the only one called so.
pub proof fn lemma_position_unique(project: ProjectView, name: Seq<char>, i: int)
    requires
        project.well_formed(),
        0 <= i < project.services.len(),
        project.services[i].name == name,
    ensures
        project.position(name) == Some(i),
{
    lemma_first_index(project.names(), name);
    assert(project.names()[i] == name);
    let place = project.position(name).unwrap();
    if place != i {
        assert(project.names()[place] == project.names()[i]);
    }
}

/// A service that reads its configuration file keeps its name, so a
/// project whose services have distinct names keeps them distinct.
pub proof fn lemma_rehydration_keeps_names(
    project: ProjectView,
    place: int,
    contents: Option<Seq<char>>,
)
    requires
        0 <= place < project.services.len(),
    ensures
        project.rehydrated_at(place, contents).names() == project.names(),
        project.well_formed() ==> project.rehydrated_at(place, contents).well_formed(),
{
    assert(project.rehydrated_at(place, contents).names() =~= project.names());
}

/// Resolving names one list after the other is resolving the joined list.
pub proof fn lemma_resolve_concat(
    first: Seq<Seq<char>>,
    second: Seq<Seq<char>>,
    catalog: Seq<TaskView>,
)
    ensures
        resolve(first + second, catalog) == resolve(first, catalog) + resolve(second, catalog),
    decreases second.len(),
{
    if second.len() == 0 {
        assert(first + second =~= first);
        assert(resolve(first, catalog) + resolve(second, catalog) =~= resolve(first, catalog));
    } else {
        lemma_resolve_concat(first, second.drop_last(), catalog);
        assert((first + second).drop_last() =~= first + second.drop_last());
        assert((first + second).last() == second.last());
        match find_named(catalog, second.last()) {
            Some(task) => {
                assert(resolve(first + second, catalog) =~= resolve(first, catalog) + resolve(
                    second,
                    catalog,
                ));
            },
            None => {},
        }
    }
}

/// A hook that names a task which the catalog does not hold resolves as if
/// the name were not there: wherever the name stands among the others, it
/// adds nothing and takes nothing away.
pub proof fn lemma_resolve_omits_unknown(
    wanted: Seq<Seq<char>>,
    catalog: Seq<TaskView>,
    at: int,
)
    requires
        0 <= at < wanted.len(),
        forall|i: int| 0 <= i < catalog.len() ==> (#[trigger] catalog[i]).name != wanted[at],
    ensures
        resolve(wanted, catalog) == resolve(wanted.remove(at), catalog),
{
    let before = wanted.take(at);
    let one = seq![wanted[at]];
    let after = wanted.skip(at + 1);
    assert(wanted =~= before + one + after);
    assert(wanted.remove(at) =~= before + after);
    lemma_resolve_concat(before + one, after, catalog);
    lemma_resolve_concat(before, one, catalog);
    lemma_resolve_concat(before, after, catalog);
    assert(find_named(catalog, wanted[at]) is None) by {
        lemma_first_index(names(catalog), wanted[at]);
        if first_index(names(catalog), wanted[at]) is Some {
            let i = first_index(names(catalog), wanted[at]).unwrap();
            assert(names(catalog)[i] == catalog[i].name);
        }
    }
    assert(one.drop_last() =~= Seq::<Seq<char>>::empty());
    assert(one.last() == wanted[at]);
    assert(resolve(one.drop_last(), catalog) =~= Seq::<TaskView>::empty());
    assert(resolve(one, catalog) =~= Seq::<TaskView>::empty());
    assert(resolve(before, catalog) + resolve(one, catalog) =~= resolve(before, catalog));
}

/// Every task that a hook resolves to is a task of the catalog, under a
/// name that the hook gives.
pub proof fn lemma_resolve_within_catalog(
    wanted: Seq<Seq<char>>,
    catalog: Seq<TaskView>,
    k: int,
)
    requires
        0 <= k < resolve(wanted, catalog).len(),
    ensures
        catalog.contains(resolve(wanted, catalog)[k]),
        wanted.contains(resolve(wanted, catalog)[k].name),
    decreases wanted.len(),
{
    if wanted.len() > 0 {
        let earlier = resolve(wanted.drop_last(), catalog);
        if k < earlier.len() {
            lemma_resolve_within_catalog(wanted.drop_last(), catalog, k);
            let name = earlier[k].name;
            let i = choose|i: int| 0 <= i < wanted.drop_last().len() && wanted.drop_last()[i] == name;
            assert(wanted[i] == name);
        } else {
            lemma_first_index(names(catalog), wanted.last());
            let i = first_index(names(catalog), wanted.last()).unwrap();
            assert(names(catalog)[i] == catalog[i].name);
            assert(catalog[i] == resolve(wanted, catalog)[k]);
            assert(wanted[wanted.len() - 1] == wanted.last());
        }
    }
}

/// What a service holds after it has read its configuration file depends
/// on the file alone: whatever tasks and hooks it held before, it holds the
/// same afterwards. A file that declares no tasks and no hooks, a file that
/// cannot be read and a file that is not there leave none.
pub proof fn lemma_rehydration_is_fresh(
    service: ServiceView,
    contents: Option<Seq<char>>,
    tasks: Option<Seq<TaskView>>,
    hooks: Option<Map<Seq<char>, Seq<TaskView>>>,
)
    ensures
        (ServiceView { tasks, hooks, ..service }).rehydrated(contents) == service.rehydrated(
            contents,
        ),
        contents is None ==> service.rehydrated(contents).tasks is None && service.rehydrated(
            contents,
        ).hooks is None,
        contents matches Some(text) && document_of(text) is Err ==> service.rehydrated(
            contents,
        ).tasks is None && service.rehydrated(contents).hooks is None,
        contents matches Some(text) && document_of(text) matches Ok(doc) && doc.get("tasks"@)
            is None ==> service.rehydrated(contents).tasks is None,
        contents matches Some(text) && document_of(text) matches Ok(doc) && doc.get("hooks"@)
            is None ==> service.rehydrated(contents).hooks is None,
{
}

/// Every task of a resolved hook is a task of the catalog.
pub proof fn lemma_resolved_hooks_within_catalog(
    entries: Seq<Entry>,
    catalog: Seq<TaskView>,
    stage: Seq<char>,
    k: int,
)
    requires
        resolved_hooks(entries, catalog).contains_key(stage),
        0 <= k < resolved_hooks(entries, catalog)[stage].len(),
    ensures
        catalog.contains(resolved_hooks(entries, catalog)[stage][k]),
    decreases entries.len(),
{
    if entries.len() > 0 {
        if entries.last().key == stage {
            lemma_resolve_within_catalog(entries.last().value.as_strings().unwrap(), catalog, k);
        } else {
            lemma_resolved_hooks_within_catalog(entries.drop_last(), catalog, stage, k);
        }
    }
}

/// After a service has read its configuration file, whatever the file
/// holds and whatever the service held before, no stage holds a task that
/// the service does not declare.
pub proof fn lemma_hooks_within_tasks(
    service: ServiceView,
    contents: Option<Seq<char>>,
    stage: Seq<char>,
    k: int,
)
    requires
        0 <= k < service.rehydrated(contents).hook_tasks(stage).len(),
    ensures
        service.rehydrated(contents).task_list().contains(
            service.rehydrated(contents).hook_tasks(stage)[k],
        ),
{
    let after = service.rehydrated(contents);
    match contents {
        Some(text) => match document_of(text) {
            Ok(doc) => {
                let declared = doc.get("hooks"@).unwrap();
                lemma_resolved_hooks_within_catalog(
                    declared->Table_0,
                    service.with_tasks_from(doc).task_list(),
                    stage,
                    k,
                );
            },
            Err(_) => {},
        },
        None => {},
    }
}

/// Reading the configuration file never removes a service's identity: its
/// name, project, location and repository stay, whatever the file holds.
pub proof fn lemma_rehydration_keeps_identity(service: ServiceView, contents: Option<Seq<char>>)
    ensures
        service.rehydrated(contents).name == service.name,
        service.rehydrated(contents).project_name == service.project_name,
        service.rehydrated(contents).path == service.path,
        service.rehydrated(contents).repo == service.repo,
{
}

/// Cloning a service whose source is on disk is an update: the user is
/// told, and the source is pulled. Nothing in the plan clones.
pub proof fn lemma_clone_is_never_destructive(service: ServiceView, home: Seq<char>)
    ensures
        service.clone_plan(home, true) == Ok::<Seq<StepView>, ErrorView>(
            seq![
                StepView::Say(NoticeView::AlreadyCloned { service: service.name }),
                service.pull_step(home),
            ],
        ),
        forall|i: int, repo: Seq<char>|
            0 <= i < service.clone_plan(home, true)->Ok_0.len() ==> (
            #[trigger] service.clone_plan(home, true)->Ok_0[i]) != #[trigger] service.clone_step(
                home,
                repo,
            ),
{
    reveal_strlit("pull");
    reveal_strlit("clone");
    assert forall|i: int, repo: Seq<char>|
        0 <= i < service.clone_plan(home, true)->Ok_0.len() implies (
    #[trigger] service.clone_plan(home, true)->Ok_0[i]) != #[trigger] service.clone_step(
        home,
        repo,
    ) by {
        if i == 1 {
            let pull = service.pull_step(home)->Run_0.invocation.args;
            let clone = service.clone_step(home, repo)->Run_0.invocation.args;
            assert(pull[0] == "pull"@);
            assert(clone[0] == "clone"@);
            assert("pull"@.len() != "clone"@.len());
        }
    }
}

/// Updating a service that has neither its source on disk nor a repository
/// fails, and the failure names the service.
pub proof fn lemma_update_needs_repository(service: ServiceView, home: Seq<char>)
    requires
        service.repo is None,
    ensures
        service.update_plan(home, false) == Err::<Seq<StepView>, ErrorView>(
            ErrorView::NoRepository(service.name),
        ),
        service.clone_plan(home, false) == Err::<Seq<StepView>, ErrorView>(
            ErrorView::NoRepository(service.name),
        ),
{
}

/// No step of a hook ends a plan, whether its task could not be started,
/// found no compose file, or exited without success.
pub proof fn lemma_hooks_never_end_a_plan(
    service: ServiceView,
    home: Seq<char>,
    stage: Seq<char>,
    i: int,
    outcome: Outcome,
)
    requires
        0 <= i < service.hook_steps(home, stage).len(),
    ensures
        !ends_plan(service.hook_steps(home, stage)[i], outcome),
{
}

/// A task of a hook that fails is told to the user as a warning, whether it
/// found no compose file, could not be started, or ran and did not end
/// well; and nothing is told of one that ended well.
pub proof fn lemma_hook_failures_are_told(
    service: ServiceView,
    home: Seq<char>,
    stage: Seq<char>,
    i: int,
    outcome: Outcome,
)
    requires
        1 <= i < service.hook_steps(home, stage).len(),
    ensures
        service.hook_steps(home, stage)[i] is Run,
        outcome == (Outcome::Exited { success: true }) <==> service.hook_steps(
            home,
            stage,
        )[i].report(outcome) is None,
        service.hook_steps(home, stage)[i].report(outcome) matches Some(notice) ==> notice
            is Failed && notice.level() == Level::Warn,
{
}

/// The steps of a build with the compose file on disk: first the
/// `before-build` hooks, in their order; then the build; then the
/// `after-build` hooks, in their order. Only the build can end the plan, and
/// only by not starting: so whatever becomes of the hooks before it, the
/// build is reached, and whatever its exit status, the hooks after it are.
pub proof fn lemma_build_order(service: ServiceView, home: Seq<char>, i: int, outcome: Outcome)
    requires
        0 <= i < service.build_plan(home, true)->Ok_0.len(),
    ensures
        service.build_plan(home, true) is Ok,
        ({
            let plan = service.build_plan(home, true)->Ok_0;
            let before = service.hook_steps(home, "before-build"@);
            let after = service.hook_steps(home, "after-build"@);
            &&& plan.len() == before.len() + 1 + after.len()
            &&& i < before.len() ==> plan[i] == before[i]
            &&& plan[before.len() as int] == service.primary(home, seq!["build"@])
            &&& i > before.len() ==> plan[i] == after[i - before.len() - 1]
            &&& ends_plan(plan[i], outcome) ==> i == before.len() && outcome != (Outcome::Exited {
                success: true,
            }) && outcome != (Outcome::Exited { success: false })
        }),
{
    let before = service.hook_steps(home, "before-build"@);
    let after = service.hook_steps(home, "after-build"@);
    if i < before.len() {
        lemma_hooks_never_end_a_plan(service, home, "before-build"@, i, outcome);
    } else if i > before.len() {
        lemma_hooks_never_end_a_plan(
            service,
            home,
            "after-build"@,
            i - before.len() - 1,
            outcome,
        );
    }
}

/// A build with the compose file on disk is carried out to its end
/// whatever becomes of its hooks, if only the build itself can be started:
/// every step is reached, the build after all hooks before it and the hooks
/// after it after the build, and the result is success.
pub proof fn lemma_build_runs_through(
    service: ServiceView,
    home: Seq<char>,
    outcomes: Seq<Outcome>,
)
    requires
        outcomes.len() == service.build_plan(home, true)->Ok_0.len(),
        outcomes[service.hook_steps(home, "before-build"@).len() as int] != Outcome::NotStarted,
    ensures
        ({
            let plan = service.build_plan(home, true)->Ok_0;
            let end = ExecutionView::begin(plan).run(outcomes);
            &&& end.done == plan.len()
            &&& end.result() == Some(Ok::<(), ErrorView>(()))
            &&& forall|k: int|
                0 <= k < plan.len() ==> ExecutionView::begin(plan).run(outcomes.take(k)).pending()
                    == Some(#[trigger] plan[k])
        }),
{
    let plan = service.build_plan(home, true)->Ok_0;
    assert forall|i: int| 0 <= i < outcomes.len() implies !ends_plan(
        plan[i],
        #[trigger] outcomes[i],
    ) by {
        lemma_build_order(service, home, i, outcomes[i]);
    }
    lemma_steps_in_order(plan, outcomes);
    assert forall|k: int| 0 <= k < plan.len() implies ExecutionView::begin(plan).run(
        outcomes.take(k),
    ).pending() == Some(#[trigger] plan[k]) by {
        let upto = outcomes.take(k);
        assert forall|i: int| 0 <= i < upto.len() implies !ends_plan(
            plan[i],
            #[trigger] upto[i],
        ) by {
            assert(upto[i] == outcomes[i]);
        }
        lemma_steps_in_order(plan, upto);
    }
}

/// The steps of an update with the source on disk: the `before-update`
/// hooks, the pull, the `after-update` hooks; and only the pull can end the
/// plan.
pub proof fn lemma_update_order(service: ServiceView, home: Seq<char>, i: int, outcome: Outcome)
    requires
        0 <= i < service.update_plan(home, true)->Ok_0.len(),
    ensures
        service.update_plan(home, true) is Ok,
        ({
            let plan = service.update_plan(home, true)->Ok_0;
            let before = service.hook_steps(home, "before-update"@);
            let after = service.hook_steps(home, "after-update"@);
            &&& plan.len() == before.len() + 1 + after.len()
            &&& i < before.len() ==> plan[i] == before[i]
            &&& plan[before.len() as int] == service.pull_step(home)
            &&& i > before.len() ==> plan[i] == after[i - before.len() - 1]
            &&& ends_plan(plan[i], outcome) ==> i == before.len()
        }),
{
    let before = service.hook_steps(home, "before-update"@);
    if i < before.len() {
        lemma_hooks_never_end_a_plan(service, home, "before-update"@, i, outcome);
    } else if i > before.len() {
        lemma_hooks_never_end_a_plan(
            service,
            home,
            "after-update"@,
            i - before.len() - 1,
            outcome,
        );
    }
}

/// Without its compose file a service is neither started, stopped nor
/// built: each operation fails with the service's name and has no step.
pub proof fn lemma_missing_compose_file(service: ServiceView, home: Seq<char>)
    ensures
        service.start_plan(home, false) == Err::<Seq<StepView>, ErrorView>(
            ErrorView::MissingComposeFile { verb: Verb::Start, service: service.name },
        ),
        service.stop_plan(home, false) == Err::<Seq<StepView>, ErrorView>(
            ErrorView::MissingComposeFile { verb: Verb::Stop, service: service.name },
        ),
        service.build_plan(home, false) == Err::<Seq<StepView>, ErrorView>(
            ErrorView::MissingComposeFile { verb: Verb::Build, service: service.name },
        ),
{
}

/// An operation over all services gives something for every service, and
/// for each what it would give if the service were alone in its project.
/// So where one service fails, each of the others still gets its plan.
pub proof fn lemma_fan_out_serves_each(
    project: ProjectView,
    home: Seq<char>,
    action: ActionView,
    seen: Seq<Observed>,
    i: int,
)
    requires
        0 <= i < project.services.len(),
    ensures
        project.fan_out(home, action, seen).len() == project.services.len(),
        project.fan_out(home, action, seen)[i] == project.services[i].plan(
            home,
            action,
            observed_at(seen, i),
        ),
        project.fan_out(home, action, seen)[i] == (ProjectView {
            services: seq![project.services[i]],
            ..project
        }).fan_out(home, action, seq![observed_at(seen, i)])[0],
{
}

/// What an operation over all services gives for one of them does not
/// change when another service is replaced by any other, one that fails
/// included.
pub proof fn lemma_fan_out_is_independent(
    project: ProjectView,
    home: Seq<char>,
    action: ActionView,
    seen: Seq<Observed>,
    i: int,
    j: int,
    other: ServiceView,
)
    requires
        0 <= i < project.services.len(),
        0 <= j < project.services.len(),
        i != j,
    ensures
        (ProjectView { services: project.services.update(j, other), ..project }).fan_out(
            home,
            action,
            seen,
        )[i] == project.fan_out(home, action, seen)[i],
{
}

/// Setting the whole environment up never fails as a whole: no stage of
/// its pipeline ends it, whatever failure the stage met. The stages that
/// work on every service come last, cloning before building.
pub proof fn lemma_environment_goes_on(project: ProjectView, i: int, failure: Option<ErrorView>)
    requires
        0 <= i < environment(project).len(),
    ensures
        environment(project)[i].verdict(failure) is None,
        environment(project).len() == 7,
        environment(project)[5] == StageView::each(ActionView::Clone),
        environment(project)[6] == StageView::each(ActionView::Build),
{
}

} // verus!
