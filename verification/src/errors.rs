//! What can go wrong, and the words each failure is reported with.

use vstd::prelude::*;
use vstd::string::*;

verus! {

/// No service of the project has the requested name.
#[derive(Debug, PartialEq, Eq)]
pub struct ServiceNotFound(pub String);

impl View for ServiceNotFound {
    type V = Seq<char>;

    open spec fn view(&self) -> Seq<char> {
        self.0@
    }
}

impl ServiceNotFound {
    /// `Unable to find service <name>`.
    pub open spec fn message_of(name: Seq<char>) -> Seq<char> {
        "Unable to find service "@ + name
    }

    pub fn message(&self) -> (text: String)
        ensures
            text@ == Self::message_of(self@),
    {
        String::from_str("Unable to find service ").concat(self.0.as_str())
    }

    /// The same failure as a value of the library's general error type.
    pub fn into_error(self) -> (error: Error)
        ensures
            error@ == ErrorView::ServiceNotFound(self@),
    {
        Error::ServiceNotFound(self.0)
    }
}

/// The command line named a subcommand that nothing implements.
#[derive(Debug, PartialEq, Eq)]
pub struct UnimplementedSubcommand(pub String);

impl View for UnimplementedSubcommand {
    type V = Seq<char>;

    open spec fn view(&self) -> Seq<char> {
        self.0@
    }
}

impl UnimplementedSubcommand {
    /// `Unimplemented subcommand '<name>'; please file a bug`.
    pub open spec fn message_of(name: Seq<char>) -> Seq<char> {
        "Unimplemented subcommand '"@ + name + "'; please file a bug"@
    }

    pub fn message(&self) -> (text: String)
        ensures
            text@ == Self::message_of(self@),
    {
        String::from_str("Unimplemented subcommand '").concat(self.0.as_str()).concat(
            "'; please file a bug",
        )
    }
}

/// The operation that found a service's compose file missing.
#[derive(Clone, Copy, Debug, PartialEq, Eq, Structural)]
pub enum Verb {
    Start,
    Stop,
    Build,
    Execute,
}

impl Verb {
    pub open spec fn word(self) -> Seq<char> {
        match self {
            Verb::Start => "start"@,
            Verb::Stop => "stop"@,
            Verb::Build => "build"@,
            Verb::Execute => "execute"@,
        }
    }

    pub fn as_str(&self) -> (word: &'static str)
        ensures
            word@ == self.word(),
    {
        match self {
            Verb::Start => "start",
            Verb::Stop => "stop",
            Verb::Build => "build",
            Verb::Execute => "execute",
        }
    }
}

/// What is wrong with a configuration file that is there.
#[derive(Clone, Copy, Debug, PartialEq, Eq, Structural)]
pub enum Problem {
    /// The text holds more brackets, braces and dots than are read.
    Nesting,
    /// The text is not a TOML document.
    Syntax,
    /// `services` is not a table, or a service's `path` or `git` is not a string.
    Services,
    /// `volumes` is not an array of strings.
    Volumes,
    /// `tasks` is not an array of tasks.
    Tasks,
    /// `hooks` is not a table of arrays of strings.
    Hooks,
}

impl Problem {
    /// The words for the problem.
    pub open spec fn message(self) -> Seq<char> {
        match self {
            Problem::Nesting => "config file holds too many brackets, braces and dots"@,
            Problem::Syntax => "Unable to parse config file"@,
            Problem::Services => "services must be in table format"@,
            Problem::Volumes => "volumes must be an array of strings"@,
            Problem::Tasks => "tasks must be an array of tasks"@,
            Problem::Hooks => "hooks must be a table of arrays of strings"@,
        }
    }

    /// The words for the problem.
    pub fn as_str(&self) -> (words: &'static str)
        ensures
            words@ == self.message(),
    {
        match self {
            Problem::Nesting => "config file holds too many brackets, braces and dots",
            Problem::Syntax => "Unable to parse config file",
            Problem::Services => "services must be in table format",
            Problem::Volumes => "volumes must be an array of strings",
            Problem::Tasks => "tasks must be an array of tasks",
            Problem::Hooks => "hooks must be a table of arrays of strings",
        }
    }
}

/// An argument that a command cannot do without.
#[derive(Clone, Copy, Debug, PartialEq, Eq, Structural)]
pub enum Argument {
    /// No subcommand was given.
    Subcommand,
    /// No project was named for a command that works on one.
    Project,
    /// No name was given for a project to set up.
    ProjectName,
    /// No repository was given to take a project's files from.
    Repository,
    /// No service was named for its tasks.
    Service,
    /// No service was named to update.
    UpdatedService,
    /// No tasks were named to execute.
    Tasks,
}

/// Every failure the library reports.
#[derive(Debug, PartialEq, Eq)]
pub enum Error {
    /// The home directory of the user is unknown.
    HomeNotFound,
    /// The project has no configuration file.
    ConfigNotFound,
    /// The project configuration cannot be used.
    InvalidConfig(Problem),
    /// No service of the project has this name.
    ServiceNotFound(String),
    /// The service has no compose file on disk.
    MissingComposeFile { verb: Verb, service: String },
    /// The service has no source on disk and no repository to take it from.
    NoRepository(String),
    /// The command line lacks an argument.
    MissingArgument(Argument),
    /// The operating system could not start this program.
    NotStarted(String),
    /// This program ran and did not end well. This ends nothing; it is
    /// what the user is told of a hook.
    Unsuccessful(String),
    /// The command line named a subcommand that nothing implements.
    UnimplementedSubcommand(String),
}

/// What an `Error` holds.
pub enum ErrorView {
    HomeNotFound,
    ConfigNotFound,
    InvalidConfig(Problem),
    ServiceNotFound(Seq<char>),
    MissingComposeFile { verb: Verb, service: Seq<char> },
    NoRepository(Seq<char>),
    MissingArgument(Argument),
    NotStarted(Seq<char>),
    Unsuccessful(Seq<char>),
    UnimplementedSubcommand(Seq<char>),
}

impl View for Error {
    type V = ErrorView;

    open spec fn view(&self) -> ErrorView {
        match self {
            Error::HomeNotFound => ErrorView::HomeNotFound,
            Error::ConfigNotFound => ErrorView::ConfigNotFound,
            Error::InvalidConfig(problem) => ErrorView::InvalidConfig(*problem),
            Error::ServiceNotFound(name) => ErrorView::ServiceNotFound(name@),
            Error::MissingComposeFile { verb, service } => ErrorView::MissingComposeFile {
                verb: *verb,
                service: service@,
            },
            Error::NoRepository(name) => ErrorView::NoRepository(name@),
            Error::MissingArgument(argument) => ErrorView::MissingArgument(*argument),
            Error::NotStarted(program) => ErrorView::NotStarted(program@),
            Error::Unsuccessful(program) => ErrorView::Unsuccessful(program@),
            Error::UnimplementedSubcommand(name) => ErrorView::UnimplementedSubcommand(name@),
        }
    }
}

impl DeepView for Error {
    type V = ErrorView;

    open spec fn deep_view(&self) -> ErrorView {
        self@
    }
}

impl ErrorView {
    /// The sentence that reports the failure.
    pub open spec fn message(self) -> Seq<char> {
        match self {
            ErrorView::HomeNotFound => "unable to determine home directory"@,
            ErrorView::ConfigNotFound => "Couldn't find devbox project config"@,
            ErrorView::InvalidConfig(problem) => problem.message(),
            ErrorView::ServiceNotFound(name) => ServiceNotFound::message_of(name),
            ErrorView::MissingComposeFile { verb, service } => "Failed to "@ + verb.word() + " "@
                + service + " - missing docker-compose file"@,
            ErrorView::NoRepository(name) => "No repository configured for "@ + name,
            ErrorView::MissingArgument(argument) => match argument {
                Argument::Subcommand => "No subcommand found"@,
                Argument::Project => "Project name required"@,
                Argument::ProjectName => "Missing project name"@,
                Argument::Repository => "Missing git repository URL!"@,
                Argument::Service => "No `SERVICE` supplied"@,
                Argument::UpdatedService => "Error parsing `SERVICE`"@,
                Argument::Tasks => "Error parsing `TASKS`"@,
            },
            ErrorView::NotStarted(program) => "Unable to start "@ + program,
            ErrorView::Unsuccessful(program) => program + " exited with a failure"@,
            ErrorView::UnimplementedSubcommand(name) => UnimplementedSubcommand::message_of(name),
        }
    }
}

impl Error {
    /// The sentence that reports the failure.
    pub fn message(&self) -> (text: String)
        ensures
            text@ == self@.message(),
    {
        match self {
            Error::HomeNotFound => String::from_str("unable to determine home directory"),
            Error::ConfigNotFound => String::from_str("Couldn't find devbox project config"),
            Error::InvalidConfig(problem) => String::from_str(problem.as_str()),
            Error::ServiceNotFound(name) => String::from_str("Unable to find service ").concat(
                name.as_str(),
            ),
            Error::MissingComposeFile { verb, service } => String::from_str("Failed to ").concat(
                verb.as_str(),
            ).concat(" ").concat(service.as_str()).concat(" - missing docker-compose file"),
            Error::NoRepository(name) => String::from_str("No repository configured for ").concat(
                name.as_str(),
            ),
            Error::MissingArgument(argument) => match argument {
                Argument::Subcommand => String::from_str("No subcommand found"),
                Argument::Project => String::from_str("Project name required"),
                Argument::ProjectName => String::from_str("Missing project name"),
                Argument::Repository => String::from_str("Missing git repository URL!"),
                Argument::Service => String::from_str("No `SERVICE` supplied"),
                Argument::UpdatedService => String::from_str("Error parsing `SERVICE`"),
                Argument::Tasks => String::from_str("Error parsing `TASKS`"),
            },
            Error::NotStarted(program) => String::from_str("Unable to start ").concat(
                program.as_str(),
            ),
            Error::Unsuccessful(program) => program.clone().concat(" exited with a failure"),
            Error::UnimplementedSubcommand(name) => String::from_str(
                "Unimplemented subcommand '",
            ).concat(name.as_str()).concat("'; please file a bug"),
        }
    }
}

impl Clone for Error {
    fn clone(&self) -> (copy: Error)
        ensures
            copy@ == self@,
    {
        match self {
            Error::HomeNotFound => Error::HomeNotFound,
            Error::ConfigNotFound => Error::ConfigNotFound,
            Error::InvalidConfig(problem) => Error::InvalidConfig(*problem),
            Error::ServiceNotFound(name) => Error::ServiceNotFound(name.clone()),
            Error::MissingComposeFile { verb, service } => Error::MissingComposeFile {
                verb: *verb,
                service: service.clone(),
            },
            Error::NoRepository(name) => Error::NoRepository(name.clone()),
            Error::MissingArgument(argument) => Error::MissingArgument(*argument),
            Error::NotStarted(program) => Error::NotStarted(program.clone()),
            Error::Unsuccessful(program) => Error::Unsuccessful(program.clone()),
            Error::UnimplementedSubcommand(name) => Error::UnimplementedSubcommand(name.clone()),
        }
    }
}

} // verus!
