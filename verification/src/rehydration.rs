//! Rehydration: a service reads the tasks and hooks that its own
//! configuration file declares.
//!
//! What a service holds afterwards depends on the file alone, never on what
//! it held before: tasks and hooks that the file does not give are gone.

use vstd::prelude::*;
use vstd::string::*;

use crate::document::{document_of, lemma_table_view, parse, Entry, Node, Tree};
use crate::errors::{Error, ErrorView, Problem};
use crate::plan::{Notice, NoticeView};
use crate::service::{hook_map, Service, ServiceView};
use crate::task::{resolve, resolve_names, unknown, Task, TaskView};
use crate::text::append_strings;

verus! {

/// Whether a document value can declare hooks: a table whose every entry is
/// a list of strings.
pub open spec fn hooks_well_formed(node: Node) -> bool {
    &&& node is Table
    &&& forall|i: int|
        0 <= i < node->Table_0.len() ==> (#[trigger] node->Table_0[i]).value.as_strings() is Some
}

/// The hooks that the entries of a table declare: each stage with the tasks
/// that its names stand for in the catalog.
pub open spec fn resolved_hooks(entries: Seq<Entry>, catalog: Seq<TaskView>) -> Map<
    Seq<char>,
    Seq<TaskView>,
>
    decreases entries.len(),
{
    if entries.len() == 0 {
        Map::empty()
    } else {
        resolved_hooks(entries.drop_last(), catalog).insert(
            entries.last().key,
            resolve(entries.last().value.as_strings().unwrap(), catalog),
        )
    }
}

/// The task names in the entries of a hooks table that the catalog does not
/// hold, entry after entry.
pub open spec fn unresolved_hooks(entries: Seq<Entry>, catalog: Seq<TaskView>) -> Seq<Seq<char>>
    decreases entries.len(),
{
    if entries.len() == 0 {
        Seq::empty()
    } else {
        unresolved_hooks(entries.drop_last(), catalog) + unknown(
            entries.last().value.as_strings().unwrap(),
            catalog,
        )
    }
}

/// One warning for each task name that a hook could not resolve.
pub open spec fn hook_warnings(names: Seq<Seq<char>>) -> Seq<NoticeView> {
    names.map_values(|task: Seq<char>| NoticeView::UnknownHookTask { task })
}

impl ServiceView {
    /// The service with neither tasks nor hooks.
    pub open spec fn emptied(self) -> ServiceView {
        ServiceView { tasks: None, hooks: None, ..self }
    }

    /// The service after its tasks are read from a document: the tasks
    /// that `tasks` declares. A document without `tasks`, and one whose
    /// `tasks` do not declare a list of tasks, leave none.
    pub open spec fn with_tasks_from(self, doc: Node) -> ServiceView {
        match doc.get("tasks"@) {
            Some(declared) => ServiceView { tasks: TaskView::list_of(declared), ..self },
            None => ServiceView { tasks: None, ..self },
        }
    }

    /// The service after its hooks are read from a document and resolved
    /// against its tasks. A document without `hooks`, and one whose `hooks`
    /// cannot declare any, leave none.
    pub open spec fn with_hooks_from(self, doc: Node) -> ServiceView {
        match doc.get("hooks"@) {
            Some(declared) => if hooks_well_formed(declared) {
                ServiceView {
                    hooks: Some(resolved_hooks(declared->Table_0, self.task_list())),
                    ..self
                }
            } else {
                ServiceView { hooks: None, ..self }
            },
            None => ServiceView { hooks: None, ..self },
        }
    }

    /// The service after its own configuration document is read: first the
    /// tasks, then the hooks against those tasks.
    pub open spec fn rehydrated_from(self, doc: Node) -> ServiceView {
        self.with_tasks_from(doc).with_hooks_from(doc)
    }

    /// The service after its own configuration file is read. No file, and a
    /// file that cannot be read as a document, leave the service with
    /// neither tasks nor hooks.
    pub open spec fn rehydrated(self, contents: Option<Seq<char>>) -> ServiceView {
        match contents {
            Some(text) => match document_of(text) {
                Ok(doc) => self.rehydrated_from(doc),
                Err(_) => self.emptied(),
            },
            None => self.emptied(),
        }
    }

    /// What the user is told when the tasks are read: that there are none,
    /// or that what stands for them cannot be used.
    pub open spec fn task_notices(self, doc: Node) -> Seq<NoticeView> {
        match doc.get("tasks"@) {
            Some(declared) => if TaskView::list_of(declared) is Some {
                Seq::empty()
            } else {
                seq![NoticeView::Malformed { service: self.name, problem: Problem::Tasks }]
            },
            None => seq![NoticeView::NoTasks { service: self.name }],
        }
    }

    /// What the user is told when the hooks are read: each task name that
    /// stands for nothing, or that what stands for the hooks cannot be used.
    pub open spec fn hook_notices(self, doc: Node) -> Seq<NoticeView> {
        match doc.get("hooks"@) {
            Some(declared) => if hooks_well_formed(declared) {
                hook_warnings(unresolved_hooks(declared->Table_0, self.task_list()))
            } else {
                seq![NoticeView::Malformed { service: self.name, problem: Problem::Hooks }]
            },
            None => Seq::empty(),
        }
    }

    /// What the user is told when the configuration document is read.
    pub open spec fn notices_from(self, doc: Node) -> Seq<NoticeView> {
        self.task_notices(doc) + self.with_tasks_from(doc).hook_notices(doc)
    }

    /// What the user is told when the configuration file is read: that
    /// there is none, why it cannot be read, or what reading it gave.
    pub open spec fn rehydration_notices(self, contents: Option<Seq<char>>) -> Seq<NoticeView> {
        match contents {
            Some(text) => match document_of(text) {
                Ok(doc) => self.notices_from(doc),
                Err(problem) => seq![NoticeView::Malformed { service: self.name, problem }],
            },
            None => seq![NoticeView::ConfigNotFound { service: self.name }],
        }
    }
}

impl Service {
    /// Reads the tasks of the service from its configuration document. The
    /// tasks it had are gone, whatever the document holds.
    pub fn insert_tasks(&mut self, values: &Tree) -> (notices: Vec<Notice>)
        ensures
            final(self)@ == old(self)@.with_tasks_from(values@),
            notices.deep_view() == old(self)@.task_notices(values@),
    {
        let mut notices: Vec<Notice> = Vec::new();
        match values.get("tasks") {
            Some(declared) => {
                self.tasks = Task::list_from_tree(declared);
                if self.tasks.is_none() {
                    notices.push(
                        Notice::Malformed { service: self.name.clone(), problem: Problem::Tasks },
                    );
                    assert(notices.deep_view() =~= seq![
                        NoticeView::Malformed { service: self.name@, problem: Problem::Tasks },
                    ]);
                } else {
                    assert(notices.deep_view() =~= Seq::empty());
                }
            },
            None => {
                self.tasks = None;
                notices.push(Notice::NoTasks { service: self.name.clone() });
                assert(notices.deep_view() =~= seq![NoticeView::NoTasks { service: self.name@ }]);
            },
        }
        notices
    }

    /// Reads the hooks of the service from its configuration document and
    /// resolves each task name against the tasks of the service. A name that
    /// no task has is left out and reported. The hooks it had are gone,
    /// whatever the document holds. Fails, and leaves no hooks, exactly
    /// where the document has `hooks` and they are not a table of lists of
    /// strings.
    pub fn insert_hooks(&mut self, values: &Tree) -> (outcome: Result<Vec<Notice>, Error>)
        ensures
            final(self)@ == old(self)@.with_hooks_from(values@),
            match outcome {
                Ok(notices) => {
                    &&& values@.get("hooks"@) matches Some(declared) ==> hooks_well_formed(declared)
                    &&& notices.deep_view() == old(self)@.hook_notices(values@)
                },
                Err(error) => {
                    &&& values@.get("hooks"@) matches Some(declared) && !hooks_well_formed(declared)
                    &&& error@ == ErrorView::InvalidConfig(Problem::Hooks)
                },
            },
    {
        let declared = match values.get("hooks") {
            Some(declared) => declared,
            None => {
                self.hooks = None;
                let notices: Vec<Notice> = Vec::new();
                assert(notices.deep_view() =~= Seq::empty());
                return Ok(notices);
            },
        };
        let entries = match declared {
            Tree::Table(entries) => entries,
            _ => {
                self.hooks = None;
                return Err(Error::InvalidConfig(Problem::Hooks));
            },
        };
        let catalog = self.tasks();
        let ghost nodes = declared@->Table_0;
        proof {
            lemma_table_view(*declared);
        }
        let mut hooks: Vec<(String, Vec<Task>)> = Vec::new();
        let mut missing: Vec<String> = Vec::new();
        let mut i: usize = 0;
        assert(nodes.take(0) =~= Seq::empty());
        assert(missing.deep_view() =~= Seq::empty());
        while i < entries.len()
            invariant
                i <= entries.len(),
                *self == *old(self),
                values@.get("hooks"@) == Some(declared@),
                declared@ is Table,
                nodes == declared@->Table_0,
                nodes.len() == entries.len(),
                forall|k: int|
                    0 <= k < entries.len() ==> (#[trigger] nodes[k]) == (Entry {
                        key: entries[k].0@,
                        value: entries[k].1@,
                    }),
                forall|k: int| 0 <= k < i ==> (#[trigger] nodes[k]).value.as_strings() is Some,
                hook_map(hooks@) == resolved_hooks(nodes.take(i as int), catalog.deep_view()),
                missing.deep_view() == unresolved_hooks(nodes.take(i as int), catalog.deep_view()),
            decreases entries.len() - i,
        {
            let names = match entries[i].1.as_strings() {
                Some(names) => names,
                None => {
                    assert(nodes[i as int].value.as_strings() is None);
                    self.hooks = None;
                    return Err(Error::InvalidConfig(Problem::Hooks));
                },
            };
            let (tasks, unknown_names) = resolve_names(&names, &catalog);
            let ghost hooks_before = hooks@;
            proof {
                let upto = nodes.take(i as int + 1);
                assert(upto.drop_last() =~= nodes.take(i as int));
                assert(upto.last() == nodes[i as int]);
            }
            let entry = (entries[i].0.clone(), tasks);
            hooks.push(entry);
            assert(hooks@.drop_last() =~= hooks_before);
            assert(hooks@.last() == entry);
            append_strings(&mut missing, unknown_names);
            i += 1;
        }
        assert(nodes.take(nodes.len() as int) =~= nodes);
        let mut notices: Vec<Notice> = Vec::new();
        let mut k: usize = 0;
        while k < missing.len()
            invariant
                k <= missing.len(),
                notices.len() == k,
                forall|j: int|
                    0 <= j < k ==> (#[trigger] notices[j])@ == (NoticeView::UnknownHookTask {
                        task: missing[j]@,
                    }),
            decreases missing.len() - k,
        {
            notices.push(Notice::UnknownHookTask { task: missing[k].clone() });
            k += 1;
        }
        assert(notices.deep_view() =~= hook_warnings(missing.deep_view()));
        self.hooks = Some(hooks);
        Ok(notices)
    }

    /// Reads tasks and hooks from the service's own configuration document.
    /// Tasks or hooks that cannot be read leave none, and the user is told;
    /// this never fails.
    pub fn rehydrate_from(&mut self, values: &Tree) -> (notices: Vec<Notice>)
        ensures
            final(self)@ == old(self)@.rehydrated_from(values@),
            notices.deep_view() == old(self)@.notices_from(values@),
    {
        let mut notices = self.insert_tasks(values);
        let ghost first = notices.deep_view();
        match self.insert_hooks(values) {
            Ok(mut more) => {
                let ghost second = more.deep_view();
                notices.append(&mut more);
                assert(notices.deep_view() =~= first + second);
            },
            Err(_) => {
                notices.push(
                    Notice::Malformed { service: self.name.clone(), problem: Problem::Hooks },
                );
                assert(notices.deep_view() =~= first + seq![
                    NoticeView::Malformed { service: self.name@, problem: Problem::Hooks },
                ]);
            },
        }
        notices
    }

    /// Reads tasks and hooks from the contents of the service's own
    /// configuration file, `None` standing for a file that is not there.
    /// A missing file, and a file that cannot be read as a document, leave
    /// neither tasks nor hooks, and the user is told which it was. This
    /// never fails.
    pub fn rehydrate_from_devbox_toml(&mut self, contents: Option<&str>) -> (notices: Vec<Notice>)
        ensures
            final(self)@ == old(self)@.rehydrated(contents.deep_view()),
            notices.deep_view() == old(self)@.rehydration_notices(contents.deep_view()),
    {
        let mut notices: Vec<Notice> = Vec::new();
        match contents {
            Some(text) => match parse(text) {
                Ok(values) => {
                    return self.rehydrate_from(&values);
                },
                Err(problem) => {
                    notices.push(Notice::Malformed { service: self.name.clone(), problem });
                    assert(notices.deep_view() =~= seq![
                        NoticeView::Malformed { service: self.name@, problem },
                    ]);
                },
            },
            None => {
                notices.push(Notice::ConfigNotFound { service: self.name.clone() });
                assert(notices.deep_view() =~= seq![
                    NoticeView::ConfigNotFound { service: self.name@ },
                ]);
            },
        }
        self.tasks = None;
        self.hooks = None;
        notices
    }
}

} // verus!
