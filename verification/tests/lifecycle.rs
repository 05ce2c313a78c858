use devbox::errors::{Error, Verb};
use devbox::plan::{Guard, Invocation, Launch, Notice, Outcome, Step};
use devbox::service::Service;
use devbox::task::Task;

const HOME: &str = "/home/dev";

fn task(name: &str, command: &[&str]) -> Task {
    Task {
        name: name.to_string(),
        description: format!("{} it", name),
        command: command.iter().map(|word| word.to_string()).collect(),
    }
}

fn hooked() -> Service {
    Service {
        hooks: Some(vec![
            ("before-build".to_string(), vec![task("deps", &["make", "deps"]), task("gen", &["make", "gen"])]),
            ("after-build".to_string(), vec![task("seed", &["rake", "db:seed"])]),
            ("before-update".to_string(), vec![task("stash", &["git", "stash"])]),
            ("after-update".to_string(), vec![task("deps", &["make", "deps"])]),
        ]),
        name: "api".to_string(),
        repo: Some("https://x/api".to_string()),
        path: Some("/src/api".to_string()),
        project_name: "demo".to_string(),
        tasks: Some(vec![
            task("deps", &["make", "deps"]),
            task("gen", &["make", "gen"]),
            task("seed", &["rake", "db:seed"]),
            task("stash", &["git", "stash"]),
        ]),
    }
}

fn plain() -> Service {
    Service {
        hooks: None,
        name: "worker".to_string(),
        repo: None,
        path: None,
        project_name: "demo".to_string(),
        tasks: None,
    }
}

fn compose(service: &str, source: &str, words: &[&str]) -> Invocation {
    let mut args = vec![
        "-f".to_string(),
        "/home/dev/.config/devbox/demo/docker-compose.yml".to_string(),
        "-f".to_string(),
        format!("{}/.devbox/docker-compose.yml", source),
        "--project-directory".to_string(),
        format!("{}/.devbox", source),
    ];
    args.extend(words.iter().map(|word| word.to_string()));
    let _ = service;
    Invocation {
        program: "docker-compose".to_string(),
        args,
        dir: None,
        discard_output: false,
        discard_errors: false,
    }
}

fn primary(source: &str, words: &[&str]) -> Step {
    Step::Run(Launch { invocation: compose("", source, words), guard: None, fatal: true })
}

fn hook(source: &str, service: &str, command: &[&str]) -> Step {
    let mut words = vec!["run", "--rm", service];
    words.extend_from_slice(command);
    Step::Run(Launch {
        invocation: compose(service, source, &words),
        guard: Some(Guard {
            file: format!("{}/.devbox/docker-compose.yml", source),
            verb: Verb::Execute,
            service: service.to_string(),
        }),
        fatal: false,
    })
}

fn running(stage: &str) -> Step {
    Step::Say(Notice::RunningHooks { stage: stage.to_string() })
}

fn pull(source: &str) -> Step {
    Step::Run(Launch {
        invocation: Invocation {
            program: "git".to_string(),
            args: vec!["pull".to_string(), "origin".to_string(), "master".to_string()],
            dir: Some(source.to_string()),
            discard_output: false,
            discard_errors: false,
        },
        guard: None,
        fatal: true,
    })
}

#[test]
fn start_brings_the_service_up_detached() {
    assert_eq!(hooked().start(HOME, true), Ok(vec![primary("/src/api", &["up", "-d", "api"])]));
}

#[test]
fn stop_stops_the_service() {
    assert_eq!(hooked().stop(HOME, true), Ok(vec![primary("/src/api", &["stop", "api"])]));
}

#[test]
fn start_and_stop_need_the_compose_file() {
    let start = hooked().start(HOME, false).unwrap_err();
    assert_eq!(start, Error::MissingComposeFile { verb: Verb::Start, service: "api".to_string() });
    assert_eq!(start.message(), "Failed to start api - missing docker-compose file");
    let stop = plain().stop(HOME, false).unwrap_err();
    assert_eq!(stop, Error::MissingComposeFile { verb: Verb::Stop, service: "worker".to_string() });
    assert_eq!(stop.message(), "Failed to stop worker - missing docker-compose file");
}

#[test]
fn build_without_the_compose_file_fails_and_runs_nothing() {
    let outcome = hooked().build(HOME, false);
    let error = outcome.unwrap_err();
    assert_eq!(error, Error::MissingComposeFile { verb: Verb::Build, service: "api".to_string() });
    assert_eq!(error.message(), "Failed to build api - missing docker-compose file");
    assert!(error.message().contains("api"));
}

#[test]
fn build_wraps_the_build_in_its_hooks() {
    assert_eq!(
        hooked().build(HOME, true),
        Ok(vec![
            running("before-build"),
            hook("/src/api", "api", &["make", "deps"]),
            hook("/src/api", "api", &["make", "gen"]),
            primary("/src/api", &["build", "api"]),
            running("after-build"),
            hook("/src/api", "api", &["rake", "db:seed"]),
        ])
    );
}

#[test]
fn build_without_hooks_still_announces_the_stages() {
    let source = "/home/dev/.config/devbox/demo/src/worker";
    assert_eq!(
        plain().build(HOME, true),
        Ok(vec![
            running("before-build"),
            primary(source, &["build", "worker"]),
            running("after-build"),
        ])
    );
}

#[test]
fn a_failing_before_build_hook_stops_nothing() {
    let plan = hooked().build(HOME, true).unwrap();
    let outcomes = [
        Outcome::Exited { success: false },
        Outcome::Exited { success: true },
        Outcome::NotStarted,
        Outcome::Missing,
    ];
    let mut launches = 0;
    for (place, step) in plan.iter().enumerate() {
        if let Step::Run(launch) = step {
            launches += 1;
            for outcome in outcomes {
                let verdict = launch.settle(outcome);
                if place == 3 && outcome == Outcome::NotStarted {
                    assert_eq!(verdict, Some(Error::NotStarted("docker-compose".to_string())));
                } else {
                    assert_eq!(verdict, None, "step {} after {:?}", place, outcome);
                }
            }
        }
    }
    assert_eq!(launches, 4);
    assert_eq!(plan[3], primary("/src/api", &["build", "api"]));
    assert_eq!(plan[5], hook("/src/api", "api", &["rake", "db:seed"]));
}

#[test]
fn settle_ends_a_plan_for_fatal_launches_alone() {
    let guarded = |fatal: bool| Launch {
        invocation: Invocation::new("docker-compose"),
        guard: Some(Guard {
            file: "/src/api/.devbox/docker-compose.yml".to_string(),
            verb: Verb::Execute,
            service: "api".to_string(),
        }),
        fatal,
    };
    assert_eq!(
        guarded(true).settle(Outcome::Missing),
        Some(Error::MissingComposeFile { verb: Verb::Execute, service: "api".to_string() })
    );
    assert_eq!(
        guarded(true).settle(Outcome::NotStarted),
        Some(Error::NotStarted("docker-compose".to_string()))
    );
    assert_eq!(guarded(true).settle(Outcome::Exited { success: false }), None);
    assert_eq!(guarded(true).settle(Outcome::Exited { success: true }), None);
    assert_eq!(guarded(false).settle(Outcome::Missing), None);
    assert_eq!(guarded(false).settle(Outcome::NotStarted), None);
    assert_eq!(guarded(false).settle(Outcome::Exited { success: false }), None);
    let unguarded = Launch { invocation: Invocation::new("git"), guard: None, fatal: true };
    assert_eq!(unguarded.settle(Outcome::Missing), None);
    assert_eq!(unguarded.settle(Outcome::NotStarted), Some(Error::NotStarted("git".to_string())));
}

#[test]
fn run_lifecycle_hooks_runs_the_stage_in_order() {
    assert_eq!(
        hooked().run_lifecycle_hooks(HOME, "before-build"),
        vec![
            running("before-build"),
            hook("/src/api", "api", &["make", "deps"]),
            hook("/src/api", "api", &["make", "gen"]),
        ]
    );
    assert_eq!(hooked().run_lifecycle_hooks(HOME, "unheard-of"), vec![running("unheard-of")]);
    assert_eq!(plain().run_lifecycle_hooks(HOME, "before-build"), vec![running("before-build")]);
}

#[test]
fn run_task_and_exec_task_differ_in_container_and_weight() {
    let service = hooked();
    let seed = task("seed", &["rake", "db:seed"]);
    assert_eq!(service.run_task(HOME, &seed), hook("/src/api", "api", &["rake", "db:seed"]));
    assert_eq!(
        service.exec_task(HOME, &seed),
        Step::Run(Launch {
            invocation: compose("api", "/src/api", &["exec", "api", "rake", "db:seed"]),
            guard: Some(Guard {
                file: "/src/api/.devbox/docker-compose.yml".to_string(),
                verb: Verb::Execute,
                service: "api".to_string(),
            }),
            fatal: true,
        })
    );
}

#[test]
fn clone_of_a_source_on_disk_is_an_update() {
    let plan = hooked().clone_repo(HOME, true).unwrap();
    assert_eq!(
        plan,
        vec![Step::Say(Notice::AlreadyCloned { service: "api".to_string() }), pull("/src/api")]
    );
    for step in &plan {
        if let Step::Run(launch) = step {
            assert!(!launch.invocation.args.contains(&"clone".to_string()));
        }
    }
    assert_eq!(
        Notice::AlreadyCloned { service: "api".to_string() }.message(),
        "api already exists, fetching updates..."
    );
}

#[test]
fn clone_of_a_source_on_disk_needs_no_repository() {
    let source = "/home/dev/.config/devbox/demo/src/worker";
    assert_eq!(
        plain().clone_repo(HOME, true),
        Ok(vec![Step::Say(Notice::AlreadyCloned { service: "worker".to_string() }), pull(source)])
    );
}

#[test]
fn clone_without_a_source_clones_the_repository() {
    assert_eq!(
        hooked().clone_repo(HOME, false),
        Ok(vec![Step::Run(Launch {
            invocation: Invocation {
                program: "git".to_string(),
                args: vec![
                    "clone".to_string(),
                    "https://x/api".to_string(),
                    "/src/api".to_string()
                ],
                dir: None,
                discard_output: false,
                discard_errors: false,
            },
            guard: None,
            fatal: true,
        })])
    );
}

#[test]
fn clone_without_source_and_repository_fails() {
    let error = plain().clone_repo(HOME, false).unwrap_err();
    assert_eq!(error, Error::NoRepository("worker".to_string()));
    assert_eq!(error.message(), "No repository configured for worker");
}

#[test]
fn update_without_source_and_repository_fails() {
    let error = plain().update(HOME, false).unwrap_err();
    assert_eq!(error, Error::NoRepository("worker".to_string()));
}

#[test]
fn update_without_a_source_is_a_clone() {
    assert_eq!(hooked().update(HOME, false), hooked().clone_repo(HOME, false));
    assert!(hooked().update(HOME, false).is_ok());
}

#[test]
fn update_wraps_the_pull_in_its_hooks() {
    assert_eq!(
        hooked().update(HOME, true),
        Ok(vec![
            running("before-update"),
            hook("/src/api", "api", &["git", "stash"]),
            pull("/src/api"),
            running("after-update"),
            hook("/src/api", "api", &["make", "deps"]),
        ])
    );
}

#[test]
fn update_repo_pulls_inside_the_source() {
    assert_eq!(hooked().update_repo(HOME), pull("/src/api"));
    assert_eq!(plain().update_repo(HOME), pull("/home/dev/.config/devbox/demo/src/worker"));
}

#[test]
fn exec_tasks_runs_known_tasks_and_reports_unknown_ones() {
    let names = vec!["seed".to_string(), "nope".to_string(), "deps".to_string()];
    let service = hooked();
    let seed = task("seed", &["rake", "db:seed"]);
    let deps = task("deps", &["make", "deps"]);
    assert_eq!(
        service.exec_tasks(HOME, names),
        vec![
            service.exec_task(HOME, &seed),
            Step::Say(Notice::UnknownTask { task: "nope".to_string(), service: "api".to_string() }),
            service.exec_task(HOME, &deps),
        ]
    );
    assert_eq!(service.exec_tasks(HOME, vec![]), vec![]);
}

#[test]
fn exec_tasks_of_a_service_without_tasks_reports_each() {
    assert_eq!(
        plain().exec_tasks(HOME, vec!["a".to_string()]),
        vec![Step::Say(Notice::UnknownTask {
            task: "a".to_string(),
            service: "worker".to_string()
        })]
    );
}

#[test]
fn list_tasks_is_a_borderless_table() {
    let mut service = hooked();
    service.tasks = Some(vec![
        Task {
            name: "seed".to_string(),
            description: "Seed the database".to_string(),
            command: vec![],
        },
        Task { name: "migrate".to_string(), description: "Migrate".to_string(), command: vec![] },
    ]);
    assert_eq!(
        service.list_tasks(),
        " TASK     DESCRIPTION \n seed     Seed the database \n migrate  Migrate \n"
    );
}

#[test]
fn list_tasks_of_no_tasks_is_the_heading() {
    assert_eq!(plain().list_tasks(), " TASK  DESCRIPTION \n");
}

#[test]
fn list_tasks_shows_a_space_for_what_would_break_the_table() {
    let mut service = plain();
    service.tasks = Some(vec![
        Task {
            name: "a\nb".to_string(),
            description: "\u{1b}[\u{644}\u{627}\u{644}\u{627}".to_string(),
            command: vec![],
        },
        Task { name: "c\r\n".to_string(), description: "line\n".to_string(), command: vec![] },
    ]);
    assert_eq!(
        service.list_tasks(),
        " TASK  DESCRIPTION \n a b    [\u{644}\u{627}\u{644}\u{627} \n c     line  \n"
    );
}
