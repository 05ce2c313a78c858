//! Plans: what an operation asks the caller to do, step by step.
//!
//! A plan is carried out in order. The caller starts each process, waits for
//! it to exit, and asks `settle` whether to go on.

use vstd::prelude::*;
use vstd::string::*;

use crate::errors::{Error, ErrorView, Problem, Verb};
use crate::text::{clone_optional, clone_strings};

verus! {

/// One external process to start: the program, its arguments, and how it runs.
#[derive(Debug, PartialEq, Eq)]
pub struct Invocation {
    pub program: String,
    pub args: Vec<String>,
    /// The directory to run in; the caller's own where there is none.
    pub dir: Option<String>,
    /// Whether what the process prints is thrown away.
    pub discard_output: bool,
    /// Whether what the process prints as errors is thrown away.
    pub discard_errors: bool,
}

/// What an `Invocation` holds.
pub struct InvocationView {
    pub program: Seq<char>,
    pub args: Seq<Seq<char>>,
    pub dir: Option<Seq<char>>,
    pub discard_output: bool,
    pub discard_errors: bool,
}

impl View for Invocation {
    type V = InvocationView;

    open spec fn view(&self) -> InvocationView {
        InvocationView {
            program: self.program@,
            args: self.args.deep_view(),
            dir: self.dir.deep_view(),
            discard_output: self.discard_output,
            discard_errors: self.discard_errors,
        }
    }
}

impl DeepView for Invocation {
    type V = InvocationView;

    open spec fn deep_view(&self) -> InvocationView {
        self@
    }
}

impl InvocationView {
    /// `program` with `args`, run where the caller stands, nothing discarded.
    pub open spec fn plain(program: Seq<char>, args: Seq<Seq<char>>) -> InvocationView {
        InvocationView { program, args, dir: None, discard_output: false, discard_errors: false }
    }

    /// The same invocation with more arguments at the end.
    pub open spec fn with(self, more: Seq<Seq<char>>) -> InvocationView {
        InvocationView { args: self.args + more, ..self }
    }
}

impl Invocation {
    /// An invocation of `program` without arguments.
    pub fn new(program: &str) -> (invocation: Invocation)
        ensures
            invocation@ == InvocationView::plain(program@, Seq::empty()),
    {
        let invocation = Invocation {
            program: String::from_str(program),
            args: Vec::new(),
            dir: None,
            discard_output: false,
            discard_errors: false,
        };
        assert(invocation.args.deep_view() =~= Seq::empty());
        invocation
    }

    /// Adds one argument at the end.
    pub fn arg(&mut self, arg: &str)
        ensures
            final(self)@ == old(self)@.with(seq![arg@]),
    {
        let ghost before = self.args.deep_view();
        self.args.push(String::from_str(arg));
        assert(self.args.deep_view() =~= before + seq![arg@]);
    }

    /// Adds arguments at the end, in order.
    pub fn args(&mut self, more: &Vec<String>)
        ensures
            final(self)@ == old(self)@.with(more.deep_view()),
    {
        let ghost before = self.args.deep_view();
        let mut i: usize = 0;
        while i < more.len()
            invariant
                i <= more.len(),
                self.program == old(self).program,
                self.dir == old(self).dir,
                self.discard_output == old(self).discard_output,
                self.discard_errors == old(self).discard_errors,
                self.args.deep_view() == before + more.deep_view().take(i as int),
            decreases more.len() - i,
        {
            let ghost sofar = self.args.deep_view();
            self.args.push(more[i].clone());
            assert(self.args.deep_view() =~= sofar.push(more[i as int]@));
            assert(more.deep_view().take(i as int + 1) =~= more.deep_view().take(i as int).push(
                more[i as int]@,
            ));
            assert(before + more.deep_view().take(i as int + 1) =~= (before
                + more.deep_view().take(i as int)).push(more[i as int]@));
            i += 1;
        }
        assert(more.deep_view().take(more.len() as int) =~= more.deep_view());
    }
}

impl Clone for Invocation {
    fn clone(&self) -> (copy: Invocation)
        ensures
            copy@ == self@,
    {
        Invocation {
            program: self.program.clone(),
            args: clone_strings(&self.args),
            dir: clone_optional(&self.dir),
            discard_output: self.discard_output,
            discard_errors: self.discard_errors,
        }
    }
}

/// How loud a notice is.
#[derive(Clone, Copy, Debug, PartialEq, Eq, Structural)]
pub enum Level {
    Plain,
    /// Said on the error stream, though nothing has failed.
    Aside,
    Info,
    Warn,
    /// A check that passed.
    Passed,
    /// A check that did not pass.
    Failed,
}

/// Something the user is told while a plan is made or carried out.
#[derive(Debug, PartialEq, Eq)]
pub enum Notice {
    /// The service has no configuration file of its own.
    ConfigNotFound { service: String },
    /// The service's configuration declares no tasks.
    NoTasks { service: String },
    /// A hook names a task that the service does not declare.
    UnknownHookTask { task: String },
    /// The hooks of a stage are about to run.
    RunningHooks { stage: String },
    /// The source of the service is on disk already, so it is updated.
    AlreadyCloned { service: String },
    /// A task was asked for that the service does not declare.
    UnknownTask { task: String, service: String },
    /// The project's network is about to be created.
    CreatingNetwork { project: String },
    /// The project's volumes are about to be created.
    CreatingVolumes,
    /// One volume is about to be created.
    CreatingVolume { name: String },
    /// The newest images are about to be pulled.
    PullingImages,
    /// The images are about to be built.
    BuildingImages,
    /// A program that the tool needs can be started.
    CommandFound { command: String },
    /// A program that the tool needs cannot be started.
    CommandMissing { command: String },
    /// The service's own configuration file is there and cannot be used, in
    /// whole or in part.
    Malformed { service: String, problem: Problem },
    /// Something failed, and what was going on goes on without it.
    Failed(Error),
}

/// What a `Notice` holds.
pub enum NoticeView {
    ConfigNotFound { service: Seq<char> },
    NoTasks { service: Seq<char> },
    UnknownHookTask { task: Seq<char> },
    RunningHooks { stage: Seq<char> },
    AlreadyCloned { service: Seq<char> },
    UnknownTask { task: Seq<char>, service: Seq<char> },
    CreatingNetwork { project: Seq<char> },
    CreatingVolumes,
    CreatingVolume { name: Seq<char> },
    PullingImages,
    BuildingImages,
    CommandFound { command: Seq<char> },
    CommandMissing { command: Seq<char> },
    Malformed { service: Seq<char>, problem: Problem },
    Failed(ErrorView),
}

impl View for Notice {
    type V = NoticeView;

    open spec fn view(&self) -> NoticeView {
        match self {
            Notice::ConfigNotFound { service } => NoticeView::ConfigNotFound { service: service@ },
            Notice::NoTasks { service } => NoticeView::NoTasks { service: service@ },
            Notice::UnknownHookTask { task } => NoticeView::UnknownHookTask { task: task@ },
            Notice::RunningHooks { stage } => NoticeView::RunningHooks { stage: stage@ },
            Notice::AlreadyCloned { service } => NoticeView::AlreadyCloned { service: service@ },
            Notice::UnknownTask { task, service } => NoticeView::UnknownTask {
                task: task@,
                service: service@,
            },
            Notice::CreatingNetwork { project } => NoticeView::CreatingNetwork {
                project: project@,
            },
            Notice::CreatingVolumes => NoticeView::CreatingVolumes,
            Notice::CreatingVolume { name } => NoticeView::CreatingVolume { name: name@ },
            Notice::PullingImages => NoticeView::PullingImages,
            Notice::BuildingImages => NoticeView::BuildingImages,
            Notice::CommandFound { command } => NoticeView::CommandFound { command: command@ },
            Notice::CommandMissing { command } => NoticeView::CommandMissing {
                command: command@,
            },
            Notice::Malformed { service, problem } => NoticeView::Malformed {
                service: service@,
                problem: *problem,
            },
            Notice::Failed(error) => NoticeView::Failed(error@),
        }
    }
}

impl DeepView for Notice {
    type V = NoticeView;

    open spec fn deep_view(&self) -> NoticeView {
        self@
    }
}

impl NoticeView {
    /// How loud the notice is.
    pub open spec fn level(self) -> Level {
        match self {
            NoticeView::ConfigNotFound { .. } => Level::Warn,
            NoticeView::UnknownHookTask { .. } => Level::Warn,
            NoticeView::RunningHooks { .. } => Level::Info,
            NoticeView::AlreadyCloned { .. } => Level::Aside,
            NoticeView::UnknownTask { .. } => Level::Aside,
            NoticeView::CommandFound { .. } => Level::Passed,
            NoticeView::CommandMissing { .. } => Level::Failed,
            NoticeView::Malformed { .. } => Level::Warn,
            NoticeView::Failed(_) => Level::Warn,
            _ => Level::Plain,
        }
    }

    /// The words of the notice.
    pub open spec fn message(self) -> Seq<char> {
        match self {
            NoticeView::ConfigNotFound { service } =>
                "Config file not found, no tasks or hooks are defined for "@ + service,
            NoticeView::NoTasks { service } => "No tasks found for service '"@ + service + "'"@,
            NoticeView::UnknownHookTask { task } => "Task `"@ + task
                + "` was not found in the available tasks"@,
            NoticeView::RunningHooks { stage } => "Running "@ + stage + " hooks"@,
            NoticeView::AlreadyCloned { service } => service
                + " already exists, fetching updates..."@,
            NoticeView::UnknownTask { task, service } => "Task '"@ + task
                + "' could not be found for service "@ + service,
            NoticeView::CreatingNetwork { project } => "Creating '"@ + project + "' network"@,
            NoticeView::CreatingVolumes => "Creating volumes"@,
            NoticeView::CreatingVolume { name } => "Creating volume: "@ + name,
            NoticeView::PullingImages => "Pulling latest images..."@,
            NoticeView::BuildingImages => "Building images..."@,
            NoticeView::CommandFound { command } => command + " was found in PATH"@,
            NoticeView::CommandMissing { command } => command + " was not found in PATH"@,
            NoticeView::Malformed { service, problem } => "Config file of "@ + service
                + " is malformed: "@ + problem.message(),
            NoticeView::Failed(error) => error.message(),
        }
    }
}

impl Notice {
    /// How loud the notice is.
    pub fn level(&self) -> (level: Level)
        ensures
            level == self@.level(),
    {
        match self {
            Notice::ConfigNotFound { .. } => Level::Warn,
            Notice::UnknownHookTask { .. } => Level::Warn,
            Notice::RunningHooks { .. } => Level::Info,
            Notice::AlreadyCloned { .. } => Level::Aside,
            Notice::UnknownTask { .. } => Level::Aside,
            Notice::CommandFound { .. } => Level::Passed,
            Notice::CommandMissing { .. } => Level::Failed,
            Notice::Malformed { .. } => Level::Warn,
            Notice::Failed(_) => Level::Warn,
            _ => Level::Plain,
        }
    }

    /// The words of the notice.
    pub fn message(&self) -> (text: String)
        ensures
            text@ == self@.message(),
    {
        match self {
            Notice::ConfigNotFound { service } => String::from_str(
                "Config file not found, no tasks or hooks are defined for ",
            ).concat(service.as_str()),
            Notice::NoTasks { service } => String::from_str("No tasks found for service '").concat(
                service.as_str(),
            ).concat("'"),
            Notice::UnknownHookTask { task } => String::from_str("Task `").concat(
                task.as_str(),
            ).concat("` was not found in the available tasks"),
            Notice::RunningHooks { stage } => String::from_str("Running ").concat(
                stage.as_str(),
            ).concat(" hooks"),
            Notice::AlreadyCloned { service } => service.clone().concat(
                " already exists, fetching updates...",
            ),
            Notice::UnknownTask { task, service } => String::from_str("Task '").concat(
                task.as_str(),
            ).concat("' could not be found for service ").concat(service.as_str()),
            Notice::CreatingNetwork { project } => String::from_str("Creating '").concat(
                project.as_str(),
            ).concat("' network"),
            Notice::CreatingVolumes => String::from_str("Creating volumes"),
            Notice::CreatingVolume { name } => String::from_str("Creating volume: ").concat(
                name.as_str(),
            ),
            Notice::PullingImages => String::from_str("Pulling latest images..."),
            Notice::BuildingImages => String::from_str("Building images..."),
            Notice::CommandFound { command } => command.clone().concat(" was found in PATH"),
            Notice::CommandMissing { command } => command.clone().concat(
                " was not found in PATH",
            ),
            Notice::Malformed { service, problem } => String::from_str("Config file of ").concat(
                service.as_str(),
            ).concat(" is malformed: ").concat(problem.as_str()),
            Notice::Failed(error) => error.message(),
        }
    }
}

impl Clone for Notice {
    fn clone(&self) -> (copy: Notice)
        ensures
            copy@ == self@,
    {
        match self {
            Notice::ConfigNotFound { service } => Notice::ConfigNotFound {
                service: service.clone(),
            },
            Notice::NoTasks { service } => Notice::NoTasks { service: service.clone() },
            Notice::UnknownHookTask { task } => Notice::UnknownHookTask { task: task.clone() },
            Notice::RunningHooks { stage } => Notice::RunningHooks { stage: stage.clone() },
            Notice::AlreadyCloned { service } => Notice::AlreadyCloned {
                service: service.clone(),
            },
            Notice::UnknownTask { task, service } => Notice::UnknownTask {
                task: task.clone(),
                service: service.clone(),
            },
            Notice::CreatingNetwork { project } => Notice::CreatingNetwork {
                project: project.clone(),
            },
            Notice::CreatingVolumes => Notice::CreatingVolumes,
            Notice::CreatingVolume { name } => Notice::CreatingVolume { name: name.clone() },
            Notice::PullingImages => Notice::PullingImages,
            Notice::BuildingImages => Notice::BuildingImages,
            Notice::CommandFound { command } => Notice::CommandFound { command: command.clone() },
            Notice::CommandMissing { command } => Notice::CommandMissing {
                command: command.clone(),
            },
            Notice::Malformed { service, problem } => Notice::Malformed {
                service: service.clone(),
                problem: *problem,
            },
            Notice::Failed(error) => Notice::Failed(error.clone()),
        }
    }
}

/// A file that must be on disk when a process is about to start, and the
/// failure that its absence is.
#[derive(Debug, PartialEq, Eq)]
pub struct Guard {
    pub file: String,
    pub verb: Verb,
    pub service: String,
}

/// What a `Guard` holds.
pub struct GuardView {
    pub file: Seq<char>,
    pub verb: Verb,
    pub service: Seq<char>,
}

impl View for Guard {
    type V = GuardView;

    open spec fn view(&self) -> GuardView {
        GuardView { file: self.file@, verb: self.verb, service: self.service@ }
    }
}

impl DeepView for Guard {
    type V = GuardView;

    open spec fn deep_view(&self) -> GuardView {
        self@
    }
}

/// One process of a plan, and what its failure means for the rest.
#[derive(Debug, PartialEq, Eq)]
pub struct Launch {
    pub invocation: Invocation,
    /// Looked at right before the process starts; without the file the
    /// process is not started.
    pub guard: Option<Guard>,
    /// Whether a failure to start ends the plan. Where it does not, the
    /// plan goes on, and `report` says what the user is told of the failure.
    pub fatal: bool,
}

/// What a `Launch` holds.
pub struct LaunchView {
    pub invocation: InvocationView,
    pub guard: Option<GuardView>,
    pub fatal: bool,
}

impl View for Launch {
    type V = LaunchView;

    open spec fn view(&self) -> LaunchView {
        LaunchView {
            invocation: self.invocation@,
            guard: self.guard.deep_view(),
            fatal: self.fatal,
        }
    }
}

impl DeepView for Launch {
    type V = LaunchView;

    open spec fn deep_view(&self) -> LaunchView {
        self@
    }
}

/// How an attempt to run a process ended.
#[derive(Clone, Copy, Debug, PartialEq, Eq, Structural)]
pub enum Outcome {
    /// The guarded file is not on disk; the process was not started.
    Missing,
    /// The operating system could not start the process.
    NotStarted,
    /// The process ran and exited, with or without success.
    Exited { success: bool },
}

impl LaunchView {
    /// The failure that ends the plan after this launch, if any. A process
    /// that ran never ends the plan, whatever its exit status.
    pub open spec fn verdict(self, outcome: Outcome) -> Option<ErrorView> {
        if !self.fatal {
            None
        } else {
            match outcome {
                Outcome::Exited { .. } => None,
                Outcome::NotStarted => Some(ErrorView::NotStarted(self.invocation.program)),
                Outcome::Missing => match self.guard {
                    Some(guard) => Some(
                        ErrorView::MissingComposeFile { verb: guard.verb, service: guard.service },
                    ),
                    None => None,
                },
            }
        }
    }
}

impl LaunchView {
    /// What the user is told of a launch that failed without ending the
    /// plan: that its file was missing, that it could not be started, or
    /// that it ran and did not end well. Nothing is told of a launch that
    /// ended well, nor of one whose failure to start ends the plan, which
    /// is told as the plan's own failure; and the exit status of such a
    /// launch is not looked at.
    pub open spec fn report(self, outcome: Outcome) -> Option<NoticeView> {
        if self.fatal {
            None
        } else {
            match outcome {
                Outcome::Exited { success } => if success {
                    None
                } else {
                    Some(NoticeView::Failed(ErrorView::Unsuccessful(self.invocation.program)))
                },
                Outcome::NotStarted => Some(
                    NoticeView::Failed(ErrorView::NotStarted(self.invocation.program)),
                ),
                Outcome::Missing => match self.guard {
                    Some(guard) => Some(
                        NoticeView::Failed(
                            ErrorView::MissingComposeFile {
                                verb: guard.verb,
                                service: guard.service,
                            },
                        ),
                    ),
                    None => None,
                },
            }
        }
    }
}

impl Launch {
    /// Says what the user is told of an attempt that failed without ending
    /// the plan.
    pub fn report(&self, outcome: Outcome) -> (notice: Option<Notice>)
        ensures
            notice.deep_view() == self@.report(outcome),
    {
        if self.fatal {
            return None;
        }
        match outcome {
            Outcome::Exited { success } => if success {
                None
            } else {
                Some(Notice::Failed(Error::Unsuccessful(self.invocation.program.clone())))
            },
            Outcome::NotStarted => Some(
                Notice::Failed(Error::NotStarted(self.invocation.program.clone())),
            ),
            Outcome::Missing => match &self.guard {
                Some(guard) => Some(
                    Notice::Failed(
                        Error::MissingComposeFile {
                            verb: guard.verb,
                            service: guard.service.clone(),
                        },
                    ),
                ),
                None => None,
            },
        }
    }

    /// Decides, after an attempt to run the process, whether the plan ends
    /// here, and with which failure.
    pub fn settle(&self, outcome: Outcome) -> (failure: Option<Error>)
        ensures
            failure.deep_view() == self@.verdict(outcome),
    {
        if !self.fatal {
            return None;
        }
        match outcome {
            Outcome::Exited { .. } => None,
            Outcome::NotStarted => Some(Error::NotStarted(self.invocation.program.clone())),
            Outcome::Missing => match &self.guard {
                Some(guard) => Some(
                    Error::MissingComposeFile { verb: guard.verb, service: guard.service.clone() },
                ),
                None => None,
            },
        }
    }
}

/// One step of a plan.
#[derive(Debug, PartialEq, Eq)]
pub enum Step {
    /// Tell the user something.
    Say(Notice),
    /// Print a text as it is.
    Show(String),
    /// Start a process and wait for it to exit.
    Run(Launch),
    /// Run the first process to its end and feed what it printed to the
    /// second. No failure of either ends the plan; `report` says what the
    /// user is told of one.
    Pipe { from: Invocation, into: Invocation },
}

/// What a `Step` holds.
pub enum StepView {
    Say(NoticeView),
    Show(Seq<char>),
    Run(LaunchView),
    Pipe { from: InvocationView, into: InvocationView },
}

impl View for Step {
    type V = StepView;

    open spec fn view(&self) -> StepView {
        match self {
            Step::Say(notice) => StepView::Say(notice@),
            Step::Show(text) => StepView::Show(text@),
            Step::Run(launch) => StepView::Run(launch@),
            Step::Pipe { from, into } => StepView::Pipe { from: from@, into: into@ },
        }
    }
}

impl DeepView for Step {
    type V = StepView;

    open spec fn deep_view(&self) -> StepView {
        self@
    }
}

impl StepView {
    /// What the user is told of a step that failed without ending the plan.
    /// A pipe ends no plan, so each of its failures is told: under the name
    /// of its first program.
    pub open spec fn report(self, outcome: Outcome) -> Option<NoticeView> {
        match self {
            StepView::Run(launch) => launch.report(outcome),
            StepView::Pipe { from, into } => match outcome {
                Outcome::Exited { success } => if success {
                    None
                } else {
                    Some(NoticeView::Failed(ErrorView::Unsuccessful(from.program)))
                },
                _ => Some(NoticeView::Failed(ErrorView::NotStarted(from.program))),
            },
            _ => None,
        }
    }

    /// The step that runs `program` with `args` where the caller stands.
    pub open spec fn run(program: Seq<char>, args: Seq<Seq<char>>, fatal: bool) -> StepView {
        StepView::Run(
            LaunchView { invocation: InvocationView::plain(program, args), guard: None, fatal },
        )
    }
}

impl Step {
    /// Says what the user is told of a step that failed without ending the
    /// plan.
    pub fn report(&self, outcome: Outcome) -> (notice: Option<Notice>)
        ensures
            notice.deep_view() == self@.report(outcome),
    {
        match self {
            Step::Run(launch) => launch.report(outcome),
            Step::Pipe { from, into } => match outcome {
                Outcome::Exited { success } => if success {
                    None
                } else {
                    Some(Notice::Failed(Error::Unsuccessful(from.program.clone())))
                },
                _ => Some(Notice::Failed(Error::NotStarted(from.program.clone()))),
            },
            _ => None,
        }
    }

    /// The step that runs an invocation without a guard.
    pub fn run(invocation: Invocation, fatal: bool) -> (step: Step)
        ensures
            step@ == StepView::Run(LaunchView { invocation: invocation@, guard: None, fatal }),
    {
        Step::Run(Launch { invocation, guard: None, fatal })
    }
}

/// The single step `step` as a plan.
pub fn only(step: Step) -> (plan: Vec<Step>)
    ensures
        plan.deep_view() == seq![step@],
{
    let mut plan: Vec<Step> = Vec::new();
    plan.push(step);
    assert(plan.deep_view() =~= seq![step@]);
    plan
}

/// Moves the steps of `more` to the end of `plan`.
pub fn extend(plan: &mut Vec<Step>, more: Vec<Step>)
    ensures
        final(plan).deep_view() == old(plan).deep_view() + more.deep_view(),
{
    let ghost before = plan.deep_view();
    let ghost added = more.deep_view();
    let mut more = more;
    plan.append(&mut more);
    assert(plan.deep_view() =~= before + added);
}

} // verus!
