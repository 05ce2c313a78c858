//! Projects: the services and volumes that a configuration declares, and
//! the lookup of a service by its name.

use vstd::prelude::*;
use vstd::string::*;

use crate::document::{document_of, keys, lemma_table_view, parse, Entry, Node, Tree};
use crate::errors::{Error, ErrorView, Problem, ServiceNotFound};
use crate::guarantees::lemma_rehydration_keeps_names;
use crate::paths::{compose_file, compose_file_in, project_dir, project_dir_in};
use crate::plan::Notice;
use crate::service::{Service, ServiceView};
use crate::text::{
    dedup, distinct, first_index, lemma_distinct, lemma_first_index_absent, lemma_first_index_at,
    same,
};

verus! {

/// A named set of services with the volumes they share.
#[derive(Debug, PartialEq, Eq)]
pub struct Project {
    /// The project's compose file, which every service's own is layered on.
    pub docker_compose_file: String,
    pub name: String,
    /// The services, in the order in which the configuration declares them.
    pub services: Vec<Service>,
    pub volumes: Vec<String>,
}

/// What a `Project` holds.
pub struct ProjectView {
    pub docker_compose_file: Seq<char>,
    pub name: Seq<char>,
    pub services: Seq<ServiceView>,
    pub volumes: Seq<Seq<char>>,
}

impl View for Project {
    type V = ProjectView;

    open spec fn view(&self) -> ProjectView {
        ProjectView {
            docker_compose_file: self.docker_compose_file@,
            name: self.name@,
            services: self.services.deep_view(),
            volumes: self.volumes.deep_view(),
        }
    }
}

/// What the text of a string entry of a table is: `None` where the table
/// has no such entry.
pub open spec fn optional_text(table: Node, key: Seq<char>) -> Option<Seq<char>> {
    match table.get(key) {
        Some(value) => value.as_str(),
        None => None,
    }
}

/// Whether an entry of a table, if it is there, is a string.
pub open spec fn text_or_absent(table: Node, key: Seq<char>) -> bool {
    table.get(key) matches Some(value) ==> value.as_str() is Some
}

/// The service that one entry of `services` declares for a project: the key
/// is its name, `path` and `git` its location and repository. Neither tasks
/// nor hooks are known yet. An entry whose `path` or `git` is not a string
/// declares nothing.
pub open spec fn service_of(project: Seq<char>, entry: Entry) -> Option<ServiceView> {
    if text_or_absent(entry.value, "path"@) && text_or_absent(entry.value, "git"@) {
        Some(
            ServiceView {
                hooks: None,
                name: entry.key,
                repo: optional_text(entry.value, "git"@),
                path: optional_text(entry.value, "path"@),
                project_name: project,
                tasks: None,
            },
        )
    } else {
        None
    }
}

/// The services that a table declares, in its order.
pub open spec fn services_in(project: Seq<char>, entries: Seq<Entry>) -> Seq<ServiceView> {
    entries.map_values(|entry: Entry| service_of(project, entry).unwrap())
}

/// The services that a configuration document declares: none without
/// `services`, else one for each entry of that table. `None` where
/// `services` is not a table, where an entry declares nothing, and where two
/// entries have one name.
pub open spec fn services_of(project: Seq<char>, doc: Node) -> Option<Seq<ServiceView>> {
    match doc.get("services"@) {
        None => Some(Seq::empty()),
        Some(Node::Table(entries)) => if keys(entries).no_duplicates() && forall|i: int|
            0 <= i < entries.len() ==> service_of(project, #[trigger] entries[i]) is Some {
            Some(services_in(project, entries))
        } else {
            None
        },
        Some(_) => None,
    }
}

/// The volumes that a configuration document declares: none without
/// `volumes`, else the strings of that array, each once, where it is first
/// named. `None` where `volumes` is not an array of strings.
pub open spec fn volumes_of(doc: Node) -> Option<Seq<Seq<char>>> {
    match doc.get("volumes"@) {
        None => Some(Seq::empty()),
        Some(declared) => match declared.as_strs() {
            Some(names) => Some(distinct(names)),
            None => None,
        },
    }
}

impl ProjectView {
    /// The names of the services, in order.
    pub open spec fn names(self) -> Seq<Seq<char>> {
        self.services.map_values(|service: ServiceView| service.name)
    }

    /// No two services have one name, and no volume is named twice.
    pub open spec fn well_formed(self) -> bool {
        &&& self.names().no_duplicates()
        &&& self.volumes.no_duplicates()
    }

    /// The place of the service called `name`.
    pub open spec fn position(self, name: Seq<char>) -> Option<int> {
        first_index(self.names(), name)
    }

    /// The project that a configuration document declares.
    pub open spec fn from_document(name: Seq<char>, home: Seq<char>, doc: Node) -> Result<
        ProjectView,
        ErrorView,
    > {
        match services_of(name, doc) {
            None => Err(ErrorView::InvalidConfig(Problem::Services)),
            Some(services) => match volumes_of(doc) {
                None => Err(ErrorView::InvalidConfig(Problem::Volumes)),
                Some(volumes) => Ok(
                    ProjectView {
                        docker_compose_file: compose_file(project_dir(home, name)),
                        name,
                        services,
                        volumes,
                    },
                ),
            },
        }
    }

    /// The project that the contents of a configuration file declare,
    /// `None` standing for a file that is not there.
    pub open spec fn load(name: Seq<char>, home: Seq<char>, contents: Option<Seq<char>>) -> Result<
        ProjectView,
        ErrorView,
    > {
        match contents {
            None => Err(ErrorView::ConfigNotFound),
            Some(text) => match document_of(text) {
                Err(problem) => Err(ErrorView::InvalidConfig(problem)),
                Ok(doc) => Self::from_document(name, home, doc),
            },
        }
    }

    /// The project after the service at `place` has read its own
    /// configuration file.
    pub open spec fn rehydrated_at(self, place: int, contents: Option<Seq<char>>) -> ProjectView {
        ProjectView {
            services: self.services.update(place, self.services[place].rehydrated(contents)),
            ..self
        }
    }
}

/// A loaded project, or why there is none.
pub open spec fn loaded_view(loaded: Result<Project, Error>) -> Result<ProjectView, ErrorView> {
    match loaded {
        Ok(project) => Ok(project@),
        Err(error) => Err(error@),
    }
}

fn optional_text_in(table: &Tree, key: &str) -> (text: Result<Option<String>, ()>)
    ensures
        match text {
            Ok(found) => text_or_absent(table@, key@) && found.deep_view() == optional_text(
                table@,
                key@,
            ),
            Err(_) => !text_or_absent(table@, key@),
        },
{
    match table.get(key) {
        Some(value) => match value.as_str() {
            Some(s) => Ok(Some(String::from_str(s))),
            None => Err(()),
        },
        None => Ok(None),
    }
}

fn service_from(project: &str, key: &String, attributes: &Tree) -> (service: Option<Service>)
    ensures
        service.deep_view() == service_of(project@, Entry { key: key@, value: attributes@ }),
{
    let path = match optional_text_in(attributes, "path") {
        Ok(path) => path,
        Err(_) => {
            return None;
        },
    };
    let repo = match optional_text_in(attributes, "git") {
        Ok(repo) => repo,
        Err(_) => {
            return None;
        },
    };
    Some(
        Service {
            hooks: None,
            name: key.clone(),
            repo,
            path,
            project_name: String::from_str(project),
            tasks: None,
        },
    )
}

fn services_from(project: &str, doc: &Tree) -> (services: Option<Vec<Service>>)
    ensures
        services.deep_view() == services_of(project@, doc@),
{
    let mut services: Vec<Service> = Vec::new();
    let declared = match doc.get("services") {
        Some(declared) => declared,
        None => {
            assert(services.deep_view() =~= Seq::empty());
            return Some(services);
        },
    };
    let entries = match declared {
        Tree::Table(entries) => entries,
        _ => {
            return None;
        },
    };
    let ghost nodes = declared@->Table_0;
    proof {
        lemma_table_view(*declared);
    }
    let mut i: usize = 0;
    while i < entries.len()
        invariant
            i <= entries.len(),
            doc@.get("services"@) == Some(declared@),
            declared@ is Table,
            nodes == declared@->Table_0,
            nodes.len() == entries.len(),
            forall|k: int|
                0 <= k < entries.len() ==> (#[trigger] nodes[k]) == (Entry {
                    key: entries[k].0@,
                    value: entries[k].1@,
                }),
            services.len() == i,
            forall|k: int|
                0 <= k < i ==> service_of(project@, nodes[k]) == Some(#[trigger] services[k]@),
            forall|a: int, b: int| 0 <= a < b < i ==> nodes[a].key != nodes[b].key,
        decreases entries.len() - i,
    {
        let mut k: usize = 0;
        while k < i
            invariant
                k <= i < entries.len(),
                services.len() == i,
                nodes.len() == entries.len(),
                forall|j: int|
                    0 <= j < entries.len() ==> (#[trigger] nodes[j]) == (Entry {
                        key: entries[j].0@,
                        value: entries[j].1@,
                    }),
                forall|j: int|
                    0 <= j < i ==> service_of(project@, nodes[j]) == Some(#[trigger] services[j]@),
                forall|j: int| 0 <= j < k ==> nodes[j].key != nodes[i as int].key,
                doc@.get("services"@) == Some(declared@),
                declared@ is Table,
                nodes == declared@->Table_0,
            decreases i - k,
        {
            if same(services[k].name.as_str(), entries[i].0.as_str()) {
                proof {
                    assert(services[k as int]@.name == nodes[k as int].key);
                    assert(keys(nodes)[k as int] == keys(nodes)[i as int]);
                }
                return None;
            }
            assert(services[k as int]@.name == nodes[k as int].key);
            k += 1;
        }
        match service_from(project, &entries[i].0, &entries[i].1) {
            Some(service) => services.push(service),
            None => {
                assert(service_of(project@, nodes[i as int]) is None);
                return None;
            },
        }
        i += 1;
    }
    proof {
        assert forall|k: int| 0 <= k < nodes.len() implies service_of(
            project@,
            #[trigger] nodes[k],
        ) is Some by {
            assert(service_of(project@, nodes[k]) == Some(services[k]@));
        }
        assert forall|a: int, b: int|
            0 <= a < keys(nodes).len() && 0 <= b < keys(nodes).len() && a != b implies keys(
            nodes,
        )[a] != keys(nodes)[b] by {
            if a < b {
                assert(nodes[a].key != nodes[b].key);
            } else {
                assert(nodes[b].key != nodes[a].key);
            }
        }
        assert(services.deep_view() =~= services_in(project@, nodes));
    }
    Some(services)
}

fn volumes_from(doc: &Tree) -> (volumes: Option<Vec<String>>)
    ensures
        volumes.deep_view() == volumes_of(doc@),
{
    match doc.get("volumes") {
        Some(declared) => match declared.as_strs() {
            Some(names) => Some(dedup(names)),
            None => None,
        },
        None => {
            let volumes: Vec<String> = Vec::new();
            assert(volumes.deep_view() =~= Seq::empty());
            Some(volumes)
        },
    }
}

impl Project {
    /// Builds the project that a configuration document declares.
    pub fn from_document(project_name: &str, home: &str, doc: &Tree) -> (loaded: Result<
        Project,
        Error,
    >)
        ensures
            loaded_view(loaded) == ProjectView::from_document(project_name@, home@, doc@),
            loaded matches Ok(project) ==> project@.well_formed(),
    {
        let services = match services_from(project_name, doc) {
            Some(services) => services,
            None => {
                return Err(Error::InvalidConfig(Problem::Services));
            },
        };
        let volumes = match volumes_from(doc) {
            Some(volumes) => volumes,
            None => {
                return Err(Error::InvalidConfig(Problem::Volumes));
            },
        };
        let dir = project_dir_in(home, project_name);
        let project = Project {
            docker_compose_file: compose_file_in(dir.as_str()),
            name: String::from_str(project_name),
            services,
            volumes,
        };
        proof {
            lemma_loaded_names(project_name@, doc@);
            lemma_loaded_volumes(doc@);
        }
        Ok(project)
    }

    /// Loads the project `project_name` from the contents of its
    /// configuration file, `None` standing for a file that is not there.
    /// `home` is the home directory that the project lives under.
    pub fn new(project_name: &str, home: &str, contents: Option<&str>) -> (loaded: Result<
        Project,
        Error,
    >)
        ensures
            loaded_view(loaded) == ProjectView::load(project_name@, home@, contents.deep_view()),
            loaded matches Ok(project) ==> project@.well_formed(),
    {
        let text = match contents {
            Some(text) => text,
            None => {
                return Err(Error::ConfigNotFound);
            },
        };
        match parse(text) {
            Ok(doc) => Project::from_document(project_name, home, &doc),
            Err(problem) => Err(Error::InvalidConfig(problem)),
        }
    }

    /// Finds the service called `name` and has it read its own
    /// configuration file, whose contents the caller hands in (`None` for a
    /// file that is not there). Gives the service, to be worked on in place,
    /// and what the user is to be told. Fails, and changes nothing, exactly
    /// where no service has that name.
    pub fn find_service(&mut self, name: &str, contents: Option<&str>) -> (found: Result<
        (&mut Service, Vec<Notice>),
        ServiceNotFound,
    >)
        ensures
            match old(self)@.position(name@) {
                Some(place) => {
                    &&& found matches Ok((service, notices))
                    &&& place < old(self).services.len()
                    &&& service@ == old(self)@.services[place].rehydrated(contents.deep_view())
                    &&& notices.deep_view() == old(self)@.services[place].rehydration_notices(
                        contents.deep_view(),
                    )
                    &&& final(self).services@ == old(self).services@.update(
                        place,
                        *final(service),
                    )
                    &&& final(self).name == old(self).name
                    &&& final(self).docker_compose_file == old(self).docker_compose_file
                    &&& final(self).volumes == old(self).volumes
                },
                None => {
                    &&& found matches Err(missing)
                    &&& missing@ == name@
                    &&& final(self)@ == old(self)@
                },
            },
    {
        match self.locate(name) {
            Some(index) => {
                let service = &mut self.services[index];
                let notices = service.rehydrate_from_devbox_toml(contents);
                Ok((service, notices))
            },
            None => Err(ServiceNotFound(String::from_str(name))),
        }
    }

    /// Has the service at `index` read its own configuration file, whose
    /// contents the caller hands in. Gives what the user is to be told.
    /// Without such a service nothing happens.
    pub fn rehydrate_at(&mut self, index: usize, contents: Option<&str>) -> (notices: Vec<Notice>)
        ensures
            index < old(self).services.len() ==> final(self)@ == old(self)@.rehydrated_at(
                index as int,
                contents.deep_view(),
            ) && notices.deep_view() == old(self)@.services[index as int].rehydration_notices(
                contents.deep_view(),
            ),
            index >= old(self).services.len() ==> final(self)@ == old(self)@ && notices@.len() == 0,
            old(self)@.well_formed() ==> final(self)@.well_formed(),
    {
        if index >= self.services.len() {
            return Vec::new();
        }
        proof {
            lemma_rehydration_keeps_names(self@, index as int, contents.deep_view());
        }
        let ghost before = self.services.deep_view();
        let notices = self.services[index].rehydrate_from_devbox_toml(contents);
        assert(self.services.deep_view() =~= before.update(
            index as int,
            before[index as int].rehydrated(contents.deep_view()),
        ));
        notices
    }

    /// The place of the service called `name`.
    pub fn locate(&self, name: &str) -> (place: Option<usize>)
        ensures
            match place {
                Some(i) => self@.position(name@) == Some(i as int) && i < self.services.len(),
                None => self@.position(name@) is None,
            },
    {
        let ghost all = self@.names();
        let mut i: usize = 0;
        while i < self.services.len()
            invariant
                i <= self.services.len(),
                all == self@.names(),
                forall|k: int| 0 <= k < i ==> all[k] != name@,
            decreases self.services.len() - i,
        {
            if same(self.services[i].name.as_str(), name) {
                proof {
                    lemma_first_index_at(all, name@, i as int);
                }
                return Some(i);
            }
            i += 1;
        }
        proof {
            lemma_first_index_absent(all, name@);
        }
        None
    }
}

/// The volumes of a loaded project are named once each.
pub proof fn lemma_loaded_volumes(doc: Node)
    requires
        volumes_of(doc) is Some,
    ensures
        volumes_of(doc).unwrap().no_duplicates(),
{
    match doc.get("volumes"@) {
        Some(declared) => {
            lemma_distinct(declared.as_strs().unwrap());
        },
        None => {},
    }
}

/// The services of a loaded project have the names of the entries that
/// declare them, so no two of them share one.
pub proof fn lemma_loaded_names(project: Seq<char>, doc: Node)
    requires
        services_of(project, doc) is Some,
    ensures
        (ProjectView {
            docker_compose_file: Seq::empty(),
            name: project,
            services: services_of(project, doc).unwrap(),
            volumes: Seq::empty(),
        }).names().no_duplicates(),
{
    let view = ProjectView {
        docker_compose_file: Seq::empty(),
        name: project,
        services: services_of(project, doc).unwrap(),
        volumes: Seq::empty(),
    };
    match doc.get("services"@) {
        Some(Node::Table(entries)) => {
            assert(view.names() =~= keys(entries));
        },
        _ => {},
    }
}

} // verus!
