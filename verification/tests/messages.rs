use devbox::errors::{Argument, Error, Problem, ServiceNotFound, UnimplementedSubcommand, Verb};
use devbox::plan::{Level, Notice};

#[test]
fn service_not_found_names_the_service() {
    let missing = ServiceNotFound("api".to_string());
    assert_eq!(missing.message(), "Unable to find service api");
    let error = missing.into_error();
    assert_eq!(error, Error::ServiceNotFound("api".to_string()));
    assert_eq!(error.message(), "Unable to find service api");
}

#[test]
fn unimplemented_subcommand_names_the_subcommand() {
    let unknown = UnimplementedSubcommand("frob".to_string());
    assert_eq!(unknown.message(), "Unimplemented subcommand 'frob'; please file a bug");
    assert_eq!(
        Error::UnimplementedSubcommand("frob".to_string()).message(),
        "Unimplemented subcommand 'frob'; please file a bug"
    );
}

#[test]
fn missing_compose_file_names_operation_and_service() {
    let cases = [
        (Verb::Start, "Failed to start api - missing docker-compose file"),
        (Verb::Stop, "Failed to stop api - missing docker-compose file"),
        (Verb::Build, "Failed to build api - missing docker-compose file"),
        (Verb::Execute, "Failed to execute api - missing docker-compose file"),
    ];
    for (verb, expected) in cases {
        let error = Error::MissingComposeFile { verb, service: "api".to_string() };
        assert_eq!(error.message(), expected);
    }
}

#[test]
fn verbs_have_their_words() {
    assert_eq!(Verb::Start.as_str(), "start");
    assert_eq!(Verb::Stop.as_str(), "stop");
    assert_eq!(Verb::Build.as_str(), "build");
    assert_eq!(Verb::Execute.as_str(), "execute");
}

#[test]
fn plain_failures_have_fixed_messages() {
    assert_eq!(Error::HomeNotFound.message(), "unable to determine home directory");
    assert_eq!(Error::ConfigNotFound.message(), "Couldn't find devbox project config");
    assert_eq!(Error::InvalidConfig(Problem::Syntax).message(), "Unable to parse config file");
    assert_eq!(
        Error::InvalidConfig(Problem::Nesting).message(),
        "config file holds too many brackets, braces and dots"
    );
    assert_eq!(
        Error::InvalidConfig(Problem::Tasks).message(),
        "tasks must be an array of tasks"
    );
    assert_eq!(Problem::Hooks.as_str(), "hooks must be a table of arrays of strings");
    assert_eq!(
        Error::InvalidConfig(Problem::Services).message(),
        "services must be in table format"
    );
    assert_eq!(
        Error::InvalidConfig(Problem::Volumes).message(),
        "volumes must be an array of strings"
    );
    assert_eq!(
        Error::InvalidConfig(Problem::Hooks).message(),
        "hooks must be a table of arrays of strings"
    );
}

#[test]
fn no_repository_and_not_started_name_their_subject() {
    assert_eq!(
        Error::NoRepository("worker".to_string()).message(),
        "No repository configured for worker"
    );
    assert_eq!(Error::NotStarted("git".to_string()).message(), "Unable to start git");
    assert_eq!(Error::Unsuccessful("git".to_string()).message(), "git exited with a failure");
}

#[test]
fn missing_arguments_have_their_messages() {
    let cases = [
        (Argument::Subcommand, "No subcommand found"),
        (Argument::Project, "Project name required"),
        (Argument::ProjectName, "Missing project name"),
        (Argument::Repository, "Missing git repository URL!"),
        (Argument::Service, "No `SERVICE` supplied"),
        (Argument::UpdatedService, "Error parsing `SERVICE`"),
        (Argument::Tasks, "Error parsing `TASKS`"),
    ];
    for (argument, expected) in cases {
        assert_eq!(Error::MissingArgument(argument).message(), expected);
    }
}

#[test]
fn errors_clone_to_equal_errors() {
    let errors = vec![
        Error::HomeNotFound,
        Error::ConfigNotFound,
        Error::InvalidConfig(Problem::Hooks),
        Error::ServiceNotFound("a".to_string()),
        Error::MissingComposeFile { verb: Verb::Build, service: "a".to_string() },
        Error::NoRepository("a".to_string()),
        Error::MissingArgument(Argument::Tasks),
        Error::NotStarted("docker".to_string()),
        Error::Unsuccessful("docker".to_string()),
        Error::UnimplementedSubcommand("x".to_string()),
    ];
    for error in &errors {
        assert_eq!(&error.clone(), error);
    }
}

#[test]
fn notices_have_their_words_and_levels() {
    let s = |text: &str| text.to_string();
    let cases = vec![
        (
            Notice::ConfigNotFound { service: s("api") },
            "Config file not found, no tasks or hooks are defined for api",
            Level::Warn,
        ),
        (Notice::NoTasks { service: s("api") }, "No tasks found for service 'api'", Level::Plain),
        (
            Notice::UnknownHookTask { task: s("seed") },
            "Task `seed` was not found in the available tasks",
            Level::Warn,
        ),
        (Notice::RunningHooks { stage: s("before-build") }, "Running before-build hooks", Level::Info),
        (
            Notice::AlreadyCloned { service: s("api") },
            "api already exists, fetching updates...",
            Level::Aside,
        ),
        (
            Notice::UnknownTask { task: s("seed"), service: s("api") },
            "Task 'seed' could not be found for service api",
            Level::Aside,
        ),
        (Notice::CreatingNetwork { project: s("demo") }, "Creating 'demo' network", Level::Plain),
        (Notice::CreatingVolumes, "Creating volumes", Level::Plain),
        (Notice::CreatingVolume { name: s("pg") }, "Creating volume: pg", Level::Plain),
        (Notice::PullingImages, "Pulling latest images...", Level::Plain),
        (Notice::BuildingImages, "Building images...", Level::Plain),
        (Notice::CommandFound { command: s("docker") }, "docker was found in PATH", Level::Passed),
        (
            Notice::CommandMissing { command: s("docker") },
            "docker was not found in PATH",
            Level::Failed,
        ),
        (
            Notice::Malformed { service: s("api"), problem: Problem::Syntax },
            "Config file of api is malformed: Unable to parse config file",
            Level::Warn,
        ),
        (
            Notice::Malformed { service: s("api"), problem: Problem::Hooks },
            "Config file of api is malformed: hooks must be a table of arrays of strings",
            Level::Warn,
        ),
        (
            Notice::Failed(Error::NoRepository(s("api"))),
            "No repository configured for api",
            Level::Warn,
        ),
        (
            Notice::Failed(Error::Unsuccessful(s("docker-compose"))),
            "docker-compose exited with a failure",
            Level::Warn,
        ),
    ];
    for (notice, words, level) in cases {
        assert_eq!(notice.message(), words);
        assert_eq!(notice.level(), level);
        assert_eq!(notice.clone(), notice);
    }
}
