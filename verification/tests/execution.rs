use devbox::errors::{Error, Verb};
use devbox::execution::Execution;
use devbox::plan::{Guard, Invocation, Launch, Notice, Outcome, Step};
use devbox::service::Service;
use devbox::task::Task;

fn launch(program: &str, guarded: bool, fatal: bool) -> Step {
    Step::Run(Launch {
        invocation: Invocation::new(program),
        guard: if guarded {
            Some(Guard { file: "/f".to_string(), verb: Verb::Execute, service: "api".to_string() })
        } else {
            None
        },
        fatal,
    })
}

fn hooked() -> Service {
    let task = |name: &str| Task {
        name: name.to_string(),
        description: String::new(),
        command: vec![name.to_string()],
    };
    Service {
        hooks: Some(vec![
            ("before-build".to_string(), vec![task("a"), task("b")]),
            ("after-build".to_string(), vec![task("c")]),
        ]),
        name: "api".to_string(),
        repo: None,
        path: Some("/src/api".to_string()),
        project_name: "demo".to_string(),
        tasks: Some(vec![task("a"), task("b"), task("c")]),
    }
}

#[test]
fn an_empty_plan_has_ended_well() {
    let plan = vec![];
    let mut execution = Execution::begin(&plan);
    assert_eq!(execution.pending(), None);
    assert_eq!(execution.result(), Some(Ok(())));
    execution.record(Outcome::NotStarted);
    assert_eq!(execution.result(), Some(Ok(())));
    assert_eq!(execution.done, 0);
}

#[test]
fn steps_are_pending_in_the_order_of_the_plan() {
    let plan = vec![
        Step::Say(Notice::PullingImages),
        launch("one", false, true),
        Step::Show("text".to_string()),
        launch("two", true, false),
    ];
    let mut execution = Execution::begin(&plan);
    for place in 0..plan.len() {
        assert_eq!(execution.pending(), Some(&plan[place]));
        assert_eq!(execution.result(), None);
        execution.record(Outcome::Exited { success: false });
        assert_eq!(execution.done, place + 1);
    }
    assert_eq!(execution.pending(), None);
    assert_eq!(execution.result(), Some(Ok(())));
}

#[test]
fn a_fatal_step_that_does_not_start_ends_the_plan_there() {
    let plan = vec![launch("one", false, false), launch("two", false, true), launch("three", false, true)];
    let mut execution = Execution::begin(&plan);
    execution.record(Outcome::NotStarted);
    assert_eq!(execution.pending(), Some(&plan[1]));
    execution.record(Outcome::NotStarted);
    assert_eq!(execution.pending(), None);
    assert_eq!(execution.done, 1);
    assert_eq!(execution.result(), Some(Err(Error::NotStarted("two".to_string()))));
    execution.record(Outcome::Exited { success: true });
    assert_eq!(execution.pending(), None);
    assert_eq!(execution.done, 1);
    assert_eq!(execution.result(), Some(Err(Error::NotStarted("two".to_string()))));
}

#[test]
fn a_fatal_step_without_its_file_ends_the_plan_with_the_services_name() {
    let plan = vec![launch("one", true, true), launch("two", false, true)];
    let mut execution = Execution::begin(&plan);
    execution.record(Outcome::Missing);
    assert_eq!(
        execution.result(),
        Some(Err(Error::MissingComposeFile { verb: Verb::Execute, service: "api".to_string() }))
    );
    assert_eq!(execution.pending(), None);
}

#[test]
fn what_is_reported_of_a_notice_does_not_matter() {
    let plan = vec![Step::Say(Notice::CreatingVolumes), Step::Show("x".to_string())];
    let mut execution = Execution::begin(&plan);
    execution.record(Outcome::NotStarted);
    execution.record(Outcome::Missing);
    assert_eq!(execution.result(), Some(Ok(())));
}

#[test]
fn a_build_runs_through_whatever_its_hooks_do() {
    let plan = hooked().build("/home/dev", true).unwrap();
    assert_eq!(plan.len(), 6);
    let outcomes = [
        Outcome::Exited { success: true },
        Outcome::Exited { success: false },
        Outcome::NotStarted,
        Outcome::Exited { success: false },
        Outcome::Exited { success: true },
        Outcome::Missing,
    ];
    let mut execution = Execution::begin(&plan);
    let mut performed = vec![];
    for outcome in outcomes {
        performed.push(execution.pending().unwrap());
        execution.record(outcome);
    }
    assert_eq!(performed.len(), 6);
    for (place, step) in performed.iter().enumerate() {
        assert_eq!(*step, &plan[place]);
    }
    assert_eq!(execution.result(), Some(Ok(())));
}

#[test]
fn a_build_that_cannot_start_runs_no_hook_after_it() {
    let plan = hooked().build("/home/dev", true).unwrap();
    let mut execution = Execution::begin(&plan);
    for _ in 0..3 {
        execution.record(Outcome::Exited { success: true });
    }
    assert_eq!(execution.pending(), Some(&plan[3]));
    execution.record(Outcome::NotStarted);
    assert_eq!(execution.pending(), None);
    assert_eq!(execution.result(), Some(Err(Error::NotStarted("docker-compose".to_string()))));
}

#[test]
fn a_hook_that_fails_is_told_and_ends_nothing() {
    let plan = hooked().build("/home/dev", true).unwrap();
    let mut execution = Execution::begin(&plan);
    assert_eq!(execution.record(Outcome::NotStarted), None);
    assert_eq!(
        execution.record(Outcome::Exited { success: false }),
        Some(Notice::Failed(Error::Unsuccessful("docker-compose".to_string())))
    );
    assert_eq!(
        execution.record(Outcome::NotStarted),
        Some(Notice::Failed(Error::NotStarted("docker-compose".to_string())))
    );
    assert_eq!(execution.record(Outcome::Exited { success: false }), None);
    assert_eq!(execution.record(Outcome::Missing), None);
    assert_eq!(
        execution.record(Outcome::Missing),
        Some(Notice::Failed(Error::MissingComposeFile {
            verb: Verb::Execute,
            service: "api".to_string()
        }))
    );
    assert_eq!(execution.result(), Some(Ok(())));
    assert_eq!(execution.record(Outcome::NotStarted), None);
}

#[test]
fn a_failure_that_ends_the_plan_is_not_told_twice() {
    let plan = vec![launch("one", true, true)];
    let mut execution = Execution::begin(&plan);
    assert_eq!(execution.record(Outcome::Missing), None);
    assert!(execution.result().unwrap().is_err());
}

#[test]
fn reports_are_for_lenient_launches_and_pipes() {
    let lenient = launch("one", true, false);
    let fatal = launch("one", true, true);
    let outcomes = [
        Outcome::Missing,
        Outcome::NotStarted,
        Outcome::Exited { success: false },
        Outcome::Exited { success: true },
    ];
    for outcome in outcomes {
        assert_eq!(fatal.report(outcome), None);
        assert_eq!(Step::Say(Notice::PullingImages).report(outcome), None);
        assert_eq!(Step::Show("x".to_string()).report(outcome), None);
    }
    assert!(lenient.report(Outcome::Missing).is_some());
    assert!(lenient.report(Outcome::NotStarted).is_some());
    assert!(lenient.report(Outcome::Exited { success: false }).is_some());
    assert_eq!(lenient.report(Outcome::Exited { success: true }), None);
    assert_eq!(launch("one", false, false).report(Outcome::Missing), None);
    if let Step::Run(inner) = &lenient {
        assert_eq!(inner.report(Outcome::NotStarted), lenient.report(Outcome::NotStarted));
    }
    let pipe = Step::Pipe { from: Invocation::new("docker"), into: Invocation::new("xargs") };
    assert_eq!(pipe.report(Outcome::Exited { success: true }), None);
    assert_eq!(
        pipe.report(Outcome::Exited { success: false }),
        Some(Notice::Failed(Error::Unsuccessful("docker".to_string())))
    );
    assert_eq!(
        pipe.report(Outcome::NotStarted),
        Some(Notice::Failed(Error::NotStarted("docker".to_string())))
    );
    assert_eq!(
        pipe.report(Outcome::Missing),
        Some(Notice::Failed(Error::NotStarted("docker".to_string())))
    );
}
