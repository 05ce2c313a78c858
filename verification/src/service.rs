//! Services: where the source of each lives, which compose file describes
//! it, and which tasks it declares.
//!
//! Every location depends on `home`, the home directory that the project
//! lives under, which the caller hands in.

use vstd::prelude::*;
use vstd::string::*;

use crate::paths::{compose_file, join, join_path, project_dir, project_dir_in};
use crate::plan::{Invocation, InvocationView};
use crate::table::{printed_clean, task_rows, task_table};
use crate::task::{clone_tasks, find_in, find_named, names, Task, TaskView};
use crate::text::{clone_optional, same};

verus! {

/// One service of a project.
#[derive(Debug, PartialEq, Eq)]
pub struct Service {
    /// The tasks of each lifecycle stage, once read. Where a stage occurs
    /// more than once, its last entry counts.
    pub hooks: Option<Vec<(String, Vec<Task>)>>,
    pub name: String,
    /// The git repository that the source is cloned from.
    pub repo: Option<String>,
    /// Where the source lives, if not below the project's directory.
    pub path: Option<String>,
    pub project_name: String,
    /// The tasks that the service declares, once read.
    pub tasks: Option<Vec<Task>>,
}

/// What a `Service` holds. The hooks are a map from a stage's name to the
/// tasks that run at that stage.
pub struct ServiceView {
    pub hooks: Option<Map<Seq<char>, Seq<TaskView>>>,
    pub name: Seq<char>,
    pub repo: Option<Seq<char>>,
    pub path: Option<Seq<char>>,
    pub project_name: Seq<char>,
    pub tasks: Option<Seq<TaskView>>,
}

/// The map that a list of hook entries stands for: each entry maps its stage
/// to its tasks, a later entry replacing an earlier one of the same stage.
pub open spec fn hook_map(entries: Seq<(String, Vec<Task>)>) -> Map<Seq<char>, Seq<TaskView>>
    decreases entries.len(),
{
    if entries.len() == 0 {
        Map::empty()
    } else {
        hook_map(entries.drop_last()).insert(entries.last().0@, entries.last().1.deep_view())
    }
}

/// The last entry of a stage is what the map holds for it.
pub proof fn lemma_hook_map_last(entries: Seq<(String, Vec<Task>)>, stage: Seq<char>, i: int)
    requires
        0 <= i < entries.len(),
        entries[i].0@ == stage,
        forall|j: int| i < j < entries.len() ==> entries[j].0@ != stage,
    ensures
        hook_map(entries).contains_key(stage),
        hook_map(entries)[stage] == entries[i].1.deep_view(),
    decreases entries.len(),
{
    if i < entries.len() - 1 {
        lemma_hook_map_last(entries.drop_last(), stage, i);
    }
}

/// A stage without an entry is not in the map.
pub proof fn lemma_hook_map_absent(entries: Seq<(String, Vec<Task>)>, stage: Seq<char>)
    requires
        forall|j: int| 0 <= j < entries.len() ==> entries[j].0@ != stage,
    ensures
        !hook_map(entries).contains_key(stage),
    decreases entries.len(),
{
    if entries.len() > 0 {
        lemma_hook_map_absent(entries.drop_last(), stage);
    }
}

/// The map of hook entries depends on what the entries hold alone.
pub proof fn lemma_hook_map_of_views(
    one: Seq<(String, Vec<Task>)>,
    other: Seq<(String, Vec<Task>)>,
)
    requires
        one.len() == other.len(),
        forall|i: int|
            0 <= i < one.len() ==> one[i].0@ == other[i].0@ && one[i].1.deep_view()
                == other[i].1.deep_view(),
    ensures
        hook_map(one) == hook_map(other),
    decreases one.len(),
{
    if one.len() > 0 {
        lemma_hook_map_of_views(one.drop_last(), other.drop_last());
    }
}

impl View for Service {
    type V = ServiceView;

    open spec fn view(&self) -> ServiceView {
        ServiceView {
            hooks: match self.hooks {
                Some(entries) => Some(hook_map(entries@)),
                None => None,
            },
            name: self.name@,
            repo: self.repo.deep_view(),
            path: self.path.deep_view(),
            project_name: self.project_name@,
            tasks: self.tasks.deep_view(),
        }
    }
}

impl DeepView for Service {
    type V = ServiceView;

    open spec fn deep_view(&self) -> ServiceView {
        self@
    }
}

impl ServiceView {
    /// Where the source of the service lives: its `path` where it has one,
    /// else `src/<name>` below the directory of its project.
    pub open spec fn source_path(self, home: Seq<char>) -> Seq<char> {
        match self.path {
            Some(path) => path,
            None => join(join(project_dir(home, self.project_name), "src"@), self.name),
        }
    }

    /// The directory inside the source that holds the service's own files.
    pub open spec fn devbox_dir(self, home: Seq<char>) -> Seq<char> {
        join(self.source_path(home), ".devbox"@)
    }

    /// The service's compose file: `<source>/.devbox/docker-compose.yml`.
    pub open spec fn compose_file(self, home: Seq<char>) -> Seq<char> {
        join(self.devbox_dir(home), "docker-compose.yml"@)
    }

    /// The service's own configuration: `<source>/.devbox/config.toml`.
    pub open spec fn config_file(self, home: Seq<char>) -> Seq<char> {
        join(self.devbox_dir(home), "config.toml"@)
    }

    /// The tasks that the service declares; none before they are read.
    pub open spec fn task_list(self) -> Seq<TaskView> {
        match self.tasks {
            Some(tasks) => tasks,
            None => Seq::empty(),
        }
    }

    /// The tasks that run at a stage; none for a stage without hooks.
    pub open spec fn hook_tasks(self, stage: Seq<char>) -> Seq<TaskView> {
        match self.hooks {
            Some(hooks) => if hooks.contains_key(stage) {
                hooks[stage]
            } else {
                Seq::empty()
            },
            None => Seq::empty(),
        }
    }

    /// The compose invocation for this service: the project's compose file,
    /// then the service's own, which may so override the first, then the
    /// directory of the service's file as the project directory.
    pub open spec fn compose(self, program: Seq<char>, home: Seq<char>) -> InvocationView {
        InvocationView::plain(
            program,
            seq![
                "-f"@,
                compose_file(project_dir(home, self.project_name)),
                "-f"@,
                self.compose_file(home),
                "--project-directory"@,
                self.devbox_dir(home),
            ],
        )
    }
}

impl Clone for Service {
    fn clone(&self) -> (copy: Service)
        ensures
            copy@ == self@,
    {
        let hooks = match &self.hooks {
            Some(entries) => {
                let mut copies: Vec<(String, Vec<Task>)> = Vec::new();
                let mut i: usize = 0;
                while i < entries.len()
                    invariant
                        i <= entries.len(),
                        copies.len() == i,
                        forall|k: int|
                            0 <= k < i ==> copies[k].0@ == entries[k].0@ && copies[k].1.deep_view()
                                == entries[k].1.deep_view(),
                    decreases entries.len() - i,
                {
                    copies.push((entries[i].0.clone(), clone_tasks(&entries[i].1)));
                    i += 1;
                }
                proof {
                    lemma_hook_map_of_views(copies@, entries@);
                }
                Some(copies)
            },
            None => None,
        };
        let tasks = match &self.tasks {
            Some(tasks) => Some(clone_tasks(tasks)),
            None => None,
        };
        Service {
            hooks,
            name: self.name.clone(),
            repo: clone_optional(&self.repo),
            path: clone_optional(&self.path),
            project_name: self.project_name.clone(),
            tasks,
        }
    }
}

/// Builds the compose invocation of `program` for a service. Whether the
/// service's compose file exists is not looked at here.
pub fn cmd(program: &str, service: &Service, home: &str) -> (invocation: Invocation)
    ensures
        invocation@ == service@.compose(program@, home@),
{
    let project = project_dir_in(home, service.project_name.as_str());
    let base = join_path(project.as_str(), "docker-compose.yml");
    let overlay = service.devbox_compose_file(home);
    let dir = service.devbox_dir(home);
    let mut invocation = Invocation::new(program);
    invocation.arg("-f");
    invocation.arg(base.as_str());
    invocation.arg("-f");
    invocation.arg(overlay.as_str());
    invocation.arg("--project-directory");
    invocation.arg(dir.as_str());
    assert(invocation@.args =~= service@.compose(program@, home@).args);
    invocation
}

impl Service {
    /// Where the source of the service lives.
    pub fn source_path(&self, home: &str) -> (path: String)
        ensures
            path@ == self@.source_path(home@),
            self.path is Some ==> path@ == self.path.unwrap()@,
    {
        match &self.path {
            Some(path) => path.clone(),
            None => {
                let project = project_dir_in(home, self.project_name.as_str());
                let src = join_path(project.as_str(), "src");
                join_path(src.as_str(), self.name.as_str())
            },
        }
    }

    /// The directory inside the source that holds the service's own files.
    pub fn devbox_dir(&self, home: &str) -> (dir: String)
        ensures
            dir@ == self@.devbox_dir(home@),
    {
        let source = self.source_path(home);
        join_path(source.as_str(), ".devbox")
    }

    /// The service's compose file.
    pub fn devbox_compose_file(&self, home: &str) -> (file: String)
        ensures
            file@ == self@.compose_file(home@),
    {
        let dir = self.devbox_dir(home);
        join_path(dir.as_str(), "docker-compose.yml")
    }

    /// The service's own configuration file.
    pub fn devbox_toml_file(&self, home: &str) -> (file: String)
        ensures
            file@ == self@.config_file(home@),
    {
        let dir = self.devbox_dir(home);
        join_path(dir.as_str(), "config.toml")
    }

    /// The tasks that the service declares.
    pub fn tasks(&self) -> (tasks: Vec<Task>)
        ensures
            tasks.deep_view() == self@.task_list(),
    {
        match &self.tasks {
            Some(tasks) => clone_tasks(tasks),
            None => {
                let tasks: Vec<Task> = Vec::new();
                assert(tasks.deep_view() =~= Seq::empty());
                tasks
            },
        }
    }

    /// The listing of the declared tasks, as a table in plain text. A line
    /// break or an escape character in a name or a description is shown as
    /// a space.
    pub fn list_tasks(&self) -> (text: String)
        ensures
            text@ == printed_clean(task_rows(self@.task_list())),
    {
        let tasks = self.tasks();
        task_table(&tasks)
    }

    /// The first declared task that is called `name`.
    pub fn find_task(&self, name: &str) -> (task: Option<Task>)
        ensures
            task.deep_view() == find_named(self@.task_list(), name@),
    {
        match &self.tasks {
            Some(tasks) => find_in(tasks, name),
            None => {
                assert(names(Seq::<TaskView>::empty()) =~= Seq::empty());
                None
            },
        }
    }

    /// The tasks that run at the stage `name`.
    pub fn tasks_for_hook(&self, name: &str) -> (tasks: Vec<Task>)
        ensures
            tasks.deep_view() == self@.hook_tasks(name@),
    {
        if let Some(entries) = &self.hooks {
            let mut i: usize = entries.len();
            while i > 0
                invariant
                    i <= entries.len(),
                    self.hooks == Some(*entries),
                    forall|j: int| i <= j < entries.len() ==> entries[j].0@ != name@,
                decreases i,
            {
                i -= 1;
                if same(entries[i].0.as_str(), name) {
                    proof {
                        lemma_hook_map_last(entries@, name@, i as int);
                    }
                    return clone_tasks(&entries[i].1);
                }
            }
            proof {
                lemma_hook_map_absent(entries@, name@);
            }
        }
        let tasks: Vec<Task> = Vec::new();
        assert(tasks.deep_view() =~= Seq::empty());
        tasks
    }
}

} // verus!
