//! Lifecycle: what starting, stopping, building, cloning and updating a
//! service ask for, and how its hooks go around them.

use vstd::prelude::*;
use vstd::string::*;

use crate::errors::{Error, ErrorView, Verb};
use crate::plan::{
    extend, Guard, GuardView, Invocation, InvocationView, Launch, LaunchView, Notice, NoticeView,
    Step, StepView,
};
use crate::service::{cmd, Service, ServiceView};
use crate::task::{find_named, Task, TaskView};

verus! {

/// What an operation on a service gives: the steps to carry out, or the
/// failure that keeps anything from being done.
pub open spec fn plan_view(plan: Result<Vec<Step>, Error>) -> Result<Seq<StepView>, ErrorView> {
    match plan {
        Ok(steps) => Ok(steps.deep_view()),
        Err(error) => Err(error@),
    }
}

impl ServiceView {
    /// The service's compose file as what a task needs on disk to run.
    pub open spec fn guard(self, home: Seq<char>) -> GuardView {
        GuardView { file: self.compose_file(home), verb: Verb::Execute, service: self.name }
    }

    /// A task run in a container of its own that is removed afterwards. It
    /// needs the compose file; no failure of it ends a plan.
    pub open spec fn run_task_step(self, home: Seq<char>, task: TaskView) -> StepView {
        StepView::Run(
            LaunchView {
                invocation: self.compose("docker-compose"@, home).with(
                    seq!["run"@, "--rm"@, self.name] + task.command,
                ),
                guard: Some(self.guard(home)),
                fatal: false,
            },
        )
    }

    /// A task run inside the service's running container. It needs the
    /// compose file; a failure to start it ends the plan.
    pub open spec fn exec_task_step(self, home: Seq<char>, task: TaskView) -> StepView {
        StepView::Run(
            LaunchView {
                invocation: self.compose("docker-compose"@, home).with(
                    seq!["exec"@, self.name] + task.command,
                ),
                guard: Some(self.guard(home)),
                fatal: true,
            },
        )
    }

    /// One `run_task_step` for each task, in order.
    pub open spec fn run_task_steps(self, home: Seq<char>, tasks: Seq<TaskView>) -> Seq<StepView> {
        tasks.map_values(|task: TaskView| self.run_task_step(home, task))
    }

    /// The hooks of a stage: the announcement, then every task of the stage
    /// in the order declared.
    pub open spec fn hook_steps(self, home: Seq<char>, stage: Seq<char>) -> Seq<StepView> {
        seq![StepView::Say(NoticeView::RunningHooks { stage })] + self.run_task_steps(
            home,
            self.hook_tasks(stage),
        )
    }

    /// The compose subcommand `words` applied to this service. A failure to
    /// start it ends the plan.
    pub open spec fn primary(self, home: Seq<char>, words: Seq<Seq<char>>) -> StepView {
        StepView::Run(
            LaunchView {
                invocation: self.compose("docker-compose"@, home).with(words.push(self.name)),
                guard: None,
                fatal: true,
            },
        )
    }

    /// The failure of an operation that finds no compose file.
    pub open spec fn missing(self, verb: Verb) -> ErrorView {
        ErrorView::MissingComposeFile { verb, service: self.name }
    }

    /// Starting the service: `up -d <name>`, given its compose file.
    pub open spec fn start_plan(self, home: Seq<char>, overlay_exists: bool) -> Result<
        Seq<StepView>,
        ErrorView,
    > {
        if overlay_exists {
            Ok(seq![self.primary(home, seq!["up"@, "-d"@])])
        } else {
            Err(self.missing(Verb::Start))
        }
    }

    /// Stopping the service: `stop <name>`, given its compose file.
    pub open spec fn stop_plan(self, home: Seq<char>, overlay_exists: bool) -> Result<
        Seq<StepView>,
        ErrorView,
    > {
        if overlay_exists {
            Ok(seq![self.primary(home, seq!["stop"@])])
        } else {
            Err(self.missing(Verb::Stop))
        }
    }

    /// Building the service, given its compose file: the `before-build`
    /// hooks, `build <name>`, the `after-build` hooks.
    pub open spec fn build_plan(self, home: Seq<char>, overlay_exists: bool) -> Result<
        Seq<StepView>,
        ErrorView,
    > {
        if overlay_exists {
            Ok(
                self.hook_steps(home, "before-build"@) + seq![self.primary(home, seq!["build"@])]
                    + self.hook_steps(home, "after-build"@),
            )
        } else {
            Err(self.missing(Verb::Build))
        }
    }

    /// `git pull origin master` inside the source.
    pub open spec fn pull_step(self, home: Seq<char>) -> StepView {
        StepView::Run(
            LaunchView {
                invocation: InvocationView {
                    program: "git"@,
                    args: seq!["pull"@, "origin"@, "master"@],
                    dir: Some(self.source_path(home)),
                    discard_output: false,
                    discard_errors: false,
                },
                guard: None,
                fatal: true,
            },
        )
    }

    /// `git clone <repo> <source>`.
    pub open spec fn clone_step(self, home: Seq<char>, repo: Seq<char>) -> StepView {
        StepView::Run(
            LaunchView {
                invocation: InvocationView::plain(
                    "git"@,
                    seq!["clone"@, repo, self.source_path(home)],
                ),
                guard: None,
                fatal: true,
            },
        )
    }

    /// Cloning the service. A source that is on disk is never cloned over:
    /// the user is told and it is pulled instead. Without a source the
    /// repository is cloned, and its absence is the failure.
    pub open spec fn clone_plan(self, home: Seq<char>, source_exists: bool) -> Result<
        Seq<StepView>,
        ErrorView,
    > {
        if source_exists {
            Ok(
                seq![
                    StepView::Say(NoticeView::AlreadyCloned { service: self.name }),
                    self.pull_step(home),
                ],
            )
        } else {
            match self.repo {
                Some(repo) => Ok(seq![self.clone_step(home, repo)]),
                None => Err(ErrorView::NoRepository(self.name)),
            }
        }
    }

    /// Updating the service. With its source on disk: the `before-update`
    /// hooks, the pull, the `after-update` hooks. Without: what cloning is.
    pub open spec fn update_plan(self, home: Seq<char>, source_exists: bool) -> Result<
        Seq<StepView>,
        ErrorView,
    > {
        if source_exists {
            Ok(
                self.hook_steps(home, "before-update"@) + seq![self.pull_step(home)]
                    + self.hook_steps(home, "after-update"@),
            )
        } else {
            self.clone_plan(home, false)
        }
    }

    /// The step for one requested task: the task where the service declares
    /// it, else the report that it does not.
    pub open spec fn requested_step(self, home: Seq<char>, name: Seq<char>) -> StepView {
        match find_named(self.task_list(), name) {
            Some(task) => self.exec_task_step(home, task),
            None => StepView::Say(NoticeView::UnknownTask { task: name, service: self.name }),
        }
    }

    /// Executing tasks by name: one step for each name, in order.
    pub open spec fn exec_plan(self, home: Seq<char>, names: Seq<Seq<char>>) -> Seq<StepView> {
        names.map_values(|name: Seq<char>| self.requested_step(home, name))
    }
}

impl Service {
    fn guard(&self, home: &str) -> (guard: Guard)
        ensures
            guard@ == self@.guard(home@),
    {
        Guard {
            file: self.devbox_compose_file(home),
            verb: Verb::Execute,
            service: self.name.clone(),
        }
    }

    /// The step that runs a task in a container of its own.
    pub fn run_task(&self, home: &str, task: &Task) -> (step: Step)
        ensures
            step@ == self@.run_task_step(home@, task@),
    {
        let mut invocation = cmd("docker-compose", self, home);
        let ghost base = invocation@;
        invocation.arg("run");
        invocation.arg("--rm");
        invocation.arg(self.name.as_str());
        invocation.args(&task.command);
        assert(invocation@.args =~= base.with(
            seq!["run"@, "--rm"@, self.name@] + task@.command,
        ).args);
        Step::Run(Launch { invocation, guard: Some(self.guard(home)), fatal: false })
    }

    /// The step that runs a task inside the service's running container.
    pub fn exec_task(&self, home: &str, task: &Task) -> (step: Step)
        ensures
            step@ == self@.exec_task_step(home@, task@),
    {
        let mut invocation = cmd("docker-compose", self, home);
        let ghost base = invocation@;
        invocation.arg("exec");
        invocation.arg(self.name.as_str());
        invocation.args(&task.command);
        assert(invocation@.args =~= base.with(seq!["exec"@, self.name@] + task@.command).args);
        Step::Run(Launch { invocation, guard: Some(self.guard(home)), fatal: true })
    }

    /// The steps of the hooks of one lifecycle stage.
    pub fn run_lifecycle_hooks(&self, home: &str, lifecycle: &str) -> (steps: Vec<Step>)
        ensures
            steps.deep_view() == self@.hook_steps(home@, lifecycle@),
    {
        let tasks = self.tasks_for_hook(lifecycle);
        let mut steps: Vec<Step> = Vec::new();
        steps.push(Step::Say(Notice::RunningHooks { stage: String::from_str(lifecycle) }));
        let ghost announce = seq![StepView::Say(NoticeView::RunningHooks { stage: lifecycle@ })];
        assert(steps.deep_view() =~= announce + self@.run_task_steps(
            home@,
            tasks.deep_view().take(0),
        ));
        let mut i: usize = 0;
        while i < tasks.len()
            invariant
                i <= tasks.len(),
                steps.deep_view() == announce + self@.run_task_steps(
                    home@,
                    tasks.deep_view().take(i as int),
                ),
            decreases tasks.len() - i,
        {
            let ghost before = steps.deep_view();
            let step = self.run_task(home, &tasks[i]);
            steps.push(step);
            assert(steps.deep_view() =~= before.push(step@));
            assert(self@.run_task_steps(home@, tasks.deep_view().take(i as int + 1))
                =~= self@.run_task_steps(home@, tasks.deep_view().take(i as int)).push(step@));
            assert(announce + self@.run_task_steps(home@, tasks.deep_view().take(i as int + 1))
                =~= before.push(step@));
            i += 1;
        }
        assert(tasks.deep_view().take(tasks.len() as int) =~= tasks.deep_view());
        steps
    }

    fn primary(&self, home: &str, words: Vec<String>) -> (step: Step)
        ensures
            step@ == self@.primary(home@, words.deep_view()),
    {
        let mut invocation = cmd("docker-compose", self, home);
        let ghost base = invocation@;
        invocation.args(&words);
        invocation.arg(self.name.as_str());
        assert(invocation@.args =~= base.with(words.deep_view().push(self.name@)).args);
        Step::Run(Launch { invocation, guard: None, fatal: true })
    }

    fn missing(&self, verb: Verb) -> (error: Error)
        ensures
            error@ == self@.missing(verb),
    {
        Error::MissingComposeFile { verb, service: self.name.clone() }
    }

    /// What starting the service asks for, given whether its compose file
    /// is on disk.
    pub fn start(&self, home: &str, overlay_exists: bool) -> (plan: Result<Vec<Step>, Error>)
        ensures
            plan_view(plan) == self@.start_plan(home@, overlay_exists),
    {
        if !overlay_exists {
            return Err(self.missing(Verb::Start));
        }
        let mut words: Vec<String> = Vec::new();
        words.push(String::from_str("up"));
        words.push(String::from_str("-d"));
        assert(words.deep_view() =~= seq!["up"@, "-d"@]);
        let mut steps: Vec<Step> = Vec::new();
        steps.push(self.primary(home, words));
        assert(steps.deep_view() =~= seq![self@.primary(home@, seq!["up"@, "-d"@])]);
        Ok(steps)
    }

    /// What stopping the service asks for, given whether its compose file
    /// is on disk.
    pub fn stop(&self, home: &str, overlay_exists: bool) -> (plan: Result<Vec<Step>, Error>)
        ensures
            plan_view(plan) == self@.stop_plan(home@, overlay_exists),
    {
        if !overlay_exists {
            return Err(self.missing(Verb::Stop));
        }
        let mut words: Vec<String> = Vec::new();
        words.push(String::from_str("stop"));
        assert(words.deep_view() =~= seq!["stop"@]);
        let mut steps: Vec<Step> = Vec::new();
        steps.push(self.primary(home, words));
        assert(steps.deep_view() =~= seq![self@.primary(home@, seq!["stop"@])]);
        Ok(steps)
    }

    /// What building the service asks for, given whether its compose file
    /// is on disk. Without the file nothing is to be run.
    pub fn build(&self, home: &str, overlay_exists: bool) -> (plan: Result<Vec<Step>, Error>)
        ensures
            plan_view(plan) == self@.build_plan(home@, overlay_exists),
    {
        if !overlay_exists {
            return Err(self.missing(Verb::Build));
        }
        let mut words: Vec<String> = Vec::new();
        words.push(String::from_str("build"));
        assert(words.deep_view() =~= seq!["build"@]);
        let mut steps = self.run_lifecycle_hooks(home, "before-build");
        let ghost before = steps.deep_view();
        let step = self.primary(home, words);
        steps.push(step);
        assert(steps.deep_view() =~= before + seq![step@]);
        extend(&mut steps, self.run_lifecycle_hooks(home, "after-build"));
        Ok(steps)
    }

    /// The step that pulls the newest source.
    pub fn update_repo(&self, home: &str) -> (step: Step)
        ensures
            step@ == self@.pull_step(home@),
    {
        let mut invocation = Invocation::new("git");
        invocation.arg("pull");
        invocation.arg("origin");
        invocation.arg("master");
        invocation.dir = Some(self.source_path(home));
        assert(invocation@.args =~= seq!["pull"@, "origin"@, "master"@]);
        Step::Run(Launch { invocation, guard: None, fatal: true })
    }

    /// What cloning the service asks for, given whether its source is on
    /// disk.
    pub fn clone_repo(&self, home: &str, source_exists: bool) -> (plan: Result<Vec<Step>, Error>)
        ensures
            plan_view(plan) == self@.clone_plan(home@, source_exists),
    {
        let mut steps: Vec<Step> = Vec::new();
        if source_exists {
            steps.push(Step::Say(Notice::AlreadyCloned { service: self.name.clone() }));
            steps.push(self.update_repo(home));
            assert(steps.deep_view() =~= self@.clone_plan(home@, source_exists)->Ok_0);
            return Ok(steps);
        }
        match &self.repo {
            Some(repo) => {
                let source = self.source_path(home);
                let mut invocation = Invocation::new("git");
                invocation.arg("clone");
                invocation.arg(repo.as_str());
                invocation.arg(source.as_str());
                assert(invocation@.args =~= seq!["clone"@, repo@, source@]);
                steps.push(Step::Run(Launch { invocation, guard: None, fatal: true }));
                assert(steps.deep_view() =~= seq![self@.clone_step(home@, repo@)]);
                Ok(steps)
            },
            None => Err(Error::NoRepository(self.name.clone())),
        }
    }

    /// What updating the service asks for, given whether its source is on
    /// disk.
    pub fn update(&self, home: &str, source_exists: bool) -> (plan: Result<Vec<Step>, Error>)
        ensures
            plan_view(plan) == self@.update_plan(home@, source_exists),
    {
        if !source_exists {
            return self.clone_repo(home, false);
        }
        let mut steps = self.run_lifecycle_hooks(home, "before-update");
        let ghost before = steps.deep_view();
        let step = self.update_repo(home);
        steps.push(step);
        assert(steps.deep_view() =~= before + seq![step@]);
        extend(&mut steps, self.run_lifecycle_hooks(home, "after-update"));
        Ok(steps)
    }

    /// What executing the named tasks asks for: a step for each declared
    /// task, a report for each name that the service does not declare.
    pub fn exec_tasks(&self, home: &str, task_names: Vec<String>) -> (steps: Vec<Step>)
        ensures
            steps.deep_view() == self@.exec_plan(home@, task_names.deep_view()),
    {
        let mut steps: Vec<Step> = Vec::new();
        let mut i: usize = 0;
        while i < task_names.len()
            invariant
                i <= task_names.len(),
                steps.len() == i,
                forall|k: int|
                    0 <= k < i ==> (#[trigger] steps[k])@ == self@.requested_step(
                        home@,
                        task_names[k]@,
                    ),
            decreases task_names.len() - i,
        {
            let step = match self.find_task(task_names[i].as_str()) {
                Some(task) => self.exec_task(home, &task),
                None => Step::Say(
                    Notice::UnknownTask {
                        task: task_names[i].clone(),
                        service: self.name.clone(),
                    },
                ),
            };
            steps.push(step);
            i += 1;
        }
        assert(steps.deep_view() =~= self@.exec_plan(home@, task_names.deep_view()));
        steps
    }
}

} // verus!
