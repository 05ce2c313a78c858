//! Tasks: named command vectors that run against a service's container.

use vstd::prelude::*;
use vstd::string::*;

use crate::document::{lemma_array_view, Node, Tree};
use crate::text::{
    clone_strings, first_index, lemma_first_index_absent, lemma_first_index_at, same,
};

verus! {

/// A unit of work declared by a service.
#[derive(Debug, PartialEq, Eq)]
pub struct Task {
    pub name: String,
    pub description: String,
    /// The argument vector handed to the containerised command, as written.
    pub command: Vec<String>,
}

/// What a `Task` holds.
pub struct TaskView {
    pub name: Seq<char>,
    pub description: Seq<char>,
    pub command: Seq<Seq<char>>,
}

impl View for Task {
    type V = TaskView;

    open spec fn view(&self) -> TaskView {
        TaskView {
            name: self.name@,
            description: self.description@,
            command: self.command.deep_view(),
        }
    }
}

impl DeepView for Task {
    type V = TaskView;

    open spec fn deep_view(&self) -> TaskView {
        self@
    }
}

impl Clone for Task {
    fn clone(&self) -> (copy: Task)
        ensures
            copy@ == self@,
    {
        Task {
            name: self.name.clone(),
            description: self.description.clone(),
            command: clone_strings(&self.command),
        }
    }
}

impl TaskView {
    /// The task made of three values, where the first two read as strings and
    /// the third as a list of strings.
    pub open spec fn of_parts(name: Node, description: Node, command: Node) -> Option<TaskView> {
        if name.as_string() is Some && description.as_string() is Some && command.as_strings()
            is Some {
            Some(
                TaskView {
                    name: name.as_string().unwrap(),
                    description: description.as_string().unwrap(),
                    command: command.as_strings().unwrap(),
                },
            )
        } else {
            None
        }
    }

    /// The task that a document value declares. A table declares one through
    /// its entries `name`, `description` and `exec`, whatever else it holds;
    /// an array through exactly these three in this order. Nothing else
    /// declares a task.
    pub open spec fn of(node: Node) -> Option<TaskView> {
        match node {
            Node::Table(_) => if node.get("name"@) is Some && node.get("description"@) is Some
                && node.get("exec"@) is Some {
                Self::of_parts(
                    node.get("name"@).unwrap(),
                    node.get("description"@).unwrap(),
                    node.get("exec"@).unwrap(),
                )
            } else {
                None
            },
            Node::Array(items) => if items.len() == 3 {
                Self::of_parts(items[0], items[1], items[2])
            } else {
                None
            },
            _ => None,
        }
    }

    /// The tasks that a document value declares: those of an array whose
    /// items each declare one.
    pub open spec fn list_of(node: Node) -> Option<Seq<TaskView>> {
        match node {
            Node::Array(items) => if forall|i: int|
                0 <= i < items.len() ==> Self::of(#[trigger] items[i]) is Some {
                Some(items.map_values(|item: Node| Self::of(item).unwrap()))
            } else {
                None
            },
            _ => None,
        }
    }
}

/// The names of a list of tasks, in order.
pub open spec fn names(tasks: Seq<TaskView>) -> Seq<Seq<char>> {
    tasks.map_values(|task: TaskView| task.name)
}

/// The first task of `tasks` that is called `name`.
pub open spec fn find_named(tasks: Seq<TaskView>, name: Seq<char>) -> Option<TaskView> {
    match first_index(names(tasks), name) {
        Some(i) => Some(tasks[i]),
        None => None,
    }
}

/// The tasks that a list of names stands for in a catalog, in the order of
/// the names. A name that the catalog does not hold stands for nothing.
pub open spec fn resolve(wanted: Seq<Seq<char>>, catalog: Seq<TaskView>) -> Seq<TaskView>
    decreases wanted.len(),
{
    if wanted.len() == 0 {
        Seq::empty()
    } else {
        let earlier = resolve(wanted.drop_last(), catalog);
        match find_named(catalog, wanted.last()) {
            Some(task) => earlier.push(task),
            None => earlier,
        }
    }
}

/// The names of `wanted` that a catalog does not hold, in order.
pub open spec fn unknown(wanted: Seq<Seq<char>>, catalog: Seq<TaskView>) -> Seq<Seq<char>>
    decreases wanted.len(),
{
    if wanted.len() == 0 {
        Seq::empty()
    } else {
        let earlier = unknown(wanted.drop_last(), catalog);
        match find_named(catalog, wanted.last()) {
            Some(_) => earlier,
            None => earlier.push(wanted.last()),
        }
    }
}

impl Task {
    fn from_parts(name: &Tree, description: &Tree, command: &Tree) -> (task: Option<Task>)
        ensures
            task.deep_view() == TaskView::of_parts(name@, description@, command@),
    {
        let name = name.as_string();
        let description = description.as_string();
        let command = command.as_strings();
        match (name, description, command) {
            (Some(name), Some(description), Some(command)) => Some(
                Task { name, description, command },
            ),
            _ => None,
        }
    }

    /// Reads the task that a document value declares.
    pub fn from_tree(tree: &Tree) -> (task: Option<Task>)
        ensures
            task.deep_view() == TaskView::of(tree@),
    {
        match tree {
            Tree::Table(_) => {
                let name = tree.get("name");
                let description = tree.get("description");
                let command = tree.get("exec");
                match (name, description, command) {
                    (Some(name), Some(description), Some(command)) => Task::from_parts(
                        name,
                        description,
                        command,
                    ),
                    _ => None,
                }
            },
            Tree::Array(items) => {
                proof {
                    lemma_array_view(*tree);
                }
                if items.len() == 3 {
                    Task::from_parts(&items[0], &items[1], &items[2])
                } else {
                    None
                }
            },
            _ => None,
        }
    }

    /// Reads the tasks that a document value declares.
    pub fn list_from_tree(tree: &Tree) -> (tasks: Option<Vec<Task>>)
        ensures
            tasks.deep_view() == TaskView::list_of(tree@),
    {
        match tree {
            Tree::Array(items) => {
                let ghost nodes = tree@->Array_0;
                proof {
                    lemma_array_view(*tree);
                }
                let mut tasks: Vec<Task> = Vec::new();
                let mut i: usize = 0;
                while i < items.len()
                    invariant
                        i <= items.len(),
                        tree@ is Array,
                        nodes == tree@->Array_0,
                        nodes.len() == items.len(),
                        forall|k: int| 0 <= k < items.len() ==> nodes[k] == items[k]@,
                        tasks.len() == i,
                        forall|k: int|
                            0 <= k < i ==> TaskView::of(nodes[k]) == Some(#[trigger] tasks[k]@),
                    decreases items.len() - i,
                {
                    match Task::from_tree(&items[i]) {
                        Some(task) => tasks.push(task),
                        None => {
                            assert(TaskView::of(nodes[i as int]) is None);
                            return None;
                        },
                    }
                    i += 1;
                }
                proof {
                    assert forall|k: int| 0 <= k < nodes.len() implies TaskView::of(
                        #[trigger] nodes[k],
                    ) is Some by {
                        assert(TaskView::of(nodes[k]) == Some(tasks[k]@));
                    }
                    assert(tasks.deep_view() =~= TaskView::list_of(tree@).unwrap());
                }
                Some(tasks)
            },
            _ => None,
        }
    }
}

/// Copies a list of tasks.
pub fn clone_tasks(tasks: &Vec<Task>) -> (copy: Vec<Task>)
    ensures
        copy.deep_view() == tasks.deep_view(),
{
    let mut copy: Vec<Task> = Vec::new();
    let mut i: usize = 0;
    while i < tasks.len()
        invariant
            i <= tasks.len(),
            copy.len() == i,
            forall|k: int| 0 <= k < i ==> copy[k]@ == tasks[k]@,
        decreases tasks.len() - i,
    {
        copy.push(tasks[i].clone());
        i += 1;
    }
    assert(copy.deep_view() =~= tasks.deep_view());
    copy
}

/// Finds the first task of `tasks` that is called `name`.
pub fn find_in(tasks: &Vec<Task>, name: &str) -> (found: Option<Task>)
    ensures
        found.deep_view() == find_named(tasks.deep_view(), name@),
{
    let ghost all = names(tasks.deep_view());
    let mut i: usize = 0;
    while i < tasks.len()
        invariant
            i <= tasks.len(),
            all == names(tasks.deep_view()),
            forall|k: int| 0 <= k < i ==> all[k] != name@,
        decreases tasks.len() - i,
    {
        if same(tasks[i].name.as_str(), name) {
            proof {
                lemma_first_index_at(all, name@, i as int);
            }
            return Some(tasks[i].clone());
        }
        i += 1;
    }
    proof {
        lemma_first_index_absent(all, name@);
    }
    None
}

/// Resolves a list of task names against a catalog: the tasks found, and
/// the names that stand for nothing.
pub fn resolve_names(wanted: &Vec<String>, catalog: &Vec<Task>) -> (found: (Vec<Task>, Vec<String>))
    ensures
        found.0.deep_view() == resolve(wanted.deep_view(), catalog.deep_view()),
        found.1.deep_view() == unknown(wanted.deep_view(), catalog.deep_view()),
{
    let mut tasks: Vec<Task> = Vec::new();
    let mut missing: Vec<String> = Vec::new();
    let mut i: usize = 0;
    assert(wanted.deep_view().take(0) =~= Seq::empty());
    assert(tasks.deep_view() =~= Seq::empty());
    assert(missing.deep_view() =~= Seq::empty());
    while i < wanted.len()
        invariant
            i <= wanted.len(),
            tasks.deep_view() == resolve(wanted.deep_view().take(i as int), catalog.deep_view()),
            missing.deep_view() == unknown(wanted.deep_view().take(i as int), catalog.deep_view()),
        decreases wanted.len() - i,
    {
        let ghost tasks_before = tasks.deep_view();
        let ghost missing_before = missing.deep_view();
        let found = find_in(catalog, wanted[i].as_str());
        proof {
            let upto = wanted.deep_view().take(i as int + 1);
            assert(upto.drop_last() =~= wanted.deep_view().take(i as int));
            assert(upto.last() == wanted[i as int]@);
        }
        match found {
            Some(task) => {
                tasks.push(task);
                assert(tasks.deep_view() =~= tasks_before.push(task@));
            },
            None => {
                missing.push(wanted[i].clone());
                assert(missing.deep_view() =~= missing_before.push(wanted[i as int]@));
            },
        }
        i += 1;
    }
    assert(wanted.deep_view().take(wanted.len() as int) =~= wanted.deep_view());
    (tasks, missing)
}

} // verus!
