use devbox::commands::building::{build_services, clone_services};
use devbox::errors::{Error, Verb};
use devbox::pipeline::{report_unit, say_all, Action, Observed, Stage, Work};
use devbox::plan::{extend, only, Notice, Step};
use devbox::project::Project;

const HOME: &str = "/home/dev";

const CONFIG: &str = r#"
[services]
api = { git = "https://x/api" }
orphan = {}
worker = { path = "/src/worker" }
"#;

fn demo() -> Project {
    Project::new("demo", HOME, Some(CONFIG)).unwrap()
}

fn seen(source_exists: bool, overlay_exists: bool) -> Observed {
    Observed { source_exists, overlay_exists }
}

#[test]
fn one_failing_clone_keeps_no_other_from_its_plan() {
    let project = demo();
    let observed = vec![seen(false, false), seen(false, false), seen(true, true)];
    let plans = clone_services(&project, HOME, &observed);
    assert_eq!(plans.len(), 3);
    assert_eq!(plans[0], project.services[0].clone_repo(HOME, false));
    assert!(plans[0].is_ok());
    assert_eq!(plans[1], Err(Error::NoRepository("orphan".to_string())));
    assert_eq!(plans[2], project.services[2].clone_repo(HOME, true));
    assert!(plans[2].is_ok());
}

#[test]
fn one_failing_build_keeps_no_other_from_its_plan() {
    let project = demo();
    let observed = vec![seen(true, true), seen(true, false), seen(true, true)];
    let plans = build_services(&project, HOME, &observed);
    assert_eq!(plans.len(), 3);
    assert_eq!(plans[0], project.services[0].build(HOME, true));
    assert_eq!(
        plans[1],
        Err(Error::MissingComposeFile { verb: Verb::Build, service: "orphan".to_string() })
    );
    assert_eq!(plans[2], project.services[2].build(HOME, true));
    assert!(plans[0].is_ok() && plans[2].is_ok());
}

#[test]
fn fan_out_of_every_failing_service_still_covers_all() {
    let project = demo();
    let plans = project.fan_out(HOME, &Action::Start, &vec![seen(false, false); 3]);
    assert_eq!(plans.len(), 3);
    assert!(plans.iter().all(|plan| plan.is_err()));
}

#[test]
fn fan_out_takes_what_was_not_looked_at_as_absent() {
    let project = demo();
    let plans = project.fan_out(HOME, &Action::Build, &vec![seen(true, true)]);
    assert_eq!(plans.len(), 3);
    assert!(plans[0].is_ok());
    assert!(plans[1].is_err());
    assert!(plans[2].is_err());
    let more = project.fan_out(HOME, &Action::Build, &vec![seen(true, true); 5]);
    assert_eq!(more.len(), 3);
    assert!(more.iter().all(|plan| plan.is_ok()));
}

#[test]
fn fan_out_of_no_services_is_empty() {
    let project = Project::new("demo", HOME, Some("")).unwrap();
    assert_eq!(project.fan_out(HOME, &Action::Clone, &vec![]), vec![]);
}

#[test]
fn plan_follows_the_action() {
    let mut project = demo();
    project
        .find_service(
            "worker",
            Some("[[tasks]]\nname = \"seed\"\ndescription = \"Seed\"\nexec = [\"rake\"]\n"),
        )
        .unwrap();
    let service = &project.services[2];
    let both = seen(true, true);
    let none = seen(false, false);
    assert_eq!(service.plan(HOME, &Action::Clone, both), service.clone_repo(HOME, true));
    assert_eq!(service.plan(HOME, &Action::Clone, none), service.clone_repo(HOME, false));
    assert_eq!(service.plan(HOME, &Action::Update, both), service.update(HOME, true));
    assert_eq!(service.plan(HOME, &Action::Update, none), service.update(HOME, false));
    assert_eq!(service.plan(HOME, &Action::Build, both), service.build(HOME, true));
    assert_eq!(service.plan(HOME, &Action::Build, none), service.build(HOME, false));
    assert_eq!(service.plan(HOME, &Action::Start, both), service.start(HOME, true));
    assert_eq!(service.plan(HOME, &Action::Stop, none), service.stop(HOME, false));
    assert_eq!(
        service.plan(HOME, &Action::Build, seen(false, true)),
        service.build(HOME, true)
    );
    assert_eq!(
        service.plan(HOME, &Action::Clone, seen(true, false)),
        service.clone_repo(HOME, true)
    );
    assert_eq!(
        service.plan(HOME, &Action::ListTasks, none),
        Ok(vec![Step::Show(" TASK  DESCRIPTION \n seed  Seed \n".to_string())])
    );
    let names = vec!["seed".to_string(), "x".to_string()];
    assert_eq!(
        service.plan(HOME, &Action::ExecTasks(names.clone()), none),
        Ok(service.exec_tasks(HOME, names))
    );
}

#[test]
fn a_stage_ends_the_pipeline_only_if_fatal() {
    let failure = || Some(Error::NoRepository("api".to_string()));
    let fatal = Stage { work: Work::Service { index: 0, action: Action::Build }, fatal: true };
    let lenient = Stage { work: Work::Service { index: 0, action: Action::Clone }, fatal: false };
    let each = Stage { work: Work::Each(Action::Clone), fatal: false };
    assert_eq!(fatal.settle(failure()), failure());
    assert_eq!(fatal.settle(None), None);
    assert_eq!(lenient.settle(failure()), None);
    assert_eq!(each.settle(failure()), None);
}

#[test]
fn say_all_keeps_the_order_of_the_notices() {
    let notices = vec![
        Notice::NoTasks { service: "api".to_string() },
        Notice::UnknownHookTask { task: "a".to_string() },
        Notice::UnknownHookTask { task: "b".to_string() },
    ];
    assert_eq!(
        say_all(&notices),
        vec![
            Step::Say(Notice::NoTasks { service: "api".to_string() }),
            Step::Say(Notice::UnknownHookTask { task: "a".to_string() }),
            Step::Say(Notice::UnknownHookTask { task: "b".to_string() }),
        ]
    );
    assert_eq!(say_all(&vec![]), vec![]);
}

#[test]
fn plans_are_joined_in_order() {
    let mut plan = only(Step::Show("a".to_string()));
    extend(&mut plan, vec![Step::Show("b".to_string()), Step::Show("c".to_string())]);
    assert_eq!(
        plan,
        vec![
            Step::Show("a".to_string()),
            Step::Show("b".to_string()),
            Step::Show("c".to_string())
        ]
    );
}

#[test]
fn actions_clone_to_equal_actions() {
    let actions = vec![
        Action::Clone,
        Action::Build,
        Action::Start,
        Action::Stop,
        Action::Update,
        Action::ListTasks,
        Action::ExecTasks(vec!["a".to_string(), "b".to_string()]),
    ];
    for action in &actions {
        assert_eq!(&action.clone(), action);
    }
}

#[test]
fn a_failure_that_ends_nothing_is_told() {
    let failure = || Some(Error::NoRepository("api".to_string()));
    let told = Some(Notice::Failed(Error::NoRepository("api".to_string())));
    let fatal = Stage { work: Work::Service { index: 0, action: Action::Build }, fatal: true };
    let lenient = Stage { work: Work::Service { index: 0, action: Action::Clone }, fatal: false };
    let each = Stage { work: Work::Each(Action::Clone), fatal: false };
    assert_eq!(fatal.report(failure()), None);
    assert_eq!(lenient.report(failure()), told);
    assert_eq!(each.report(failure()), told);
    assert_eq!(lenient.report(None), None);
    assert_eq!(report_unit(failure()), told);
    assert_eq!(report_unit(None), None);
}
