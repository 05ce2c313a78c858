use devbox::document::Tree;
use devbox::errors::{Error, Problem, ServiceNotFound};
use devbox::plan::Notice;
use devbox::project::Project;
use devbox::service::Service;

const HOME: &str = "/home/dev";

const CONFIG: &str = r#"volumes = ["pg"]

[services]
api = { path = "/src/api" }
worker = { git = "https://x/worker" }
"#;

fn demo() -> Project {
    Project::new("demo", HOME, Some(CONFIG)).unwrap()
}

#[test]
fn loading_gives_services_in_declared_order_and_volumes() {
    let project = demo();
    assert_eq!(project.name, "demo");
    assert_eq!(project.docker_compose_file, "/home/dev/.config/devbox/demo/docker-compose.yml");
    assert_eq!(project.services.len(), 2);
    assert_eq!(
        project.services[0],
        Service {
            hooks: None,
            name: "api".to_string(),
            repo: None,
            path: Some("/src/api".to_string()),
            project_name: "demo".to_string(),
            tasks: None,
        }
    );
    assert_eq!(
        project.services[1],
        Service {
            hooks: None,
            name: "worker".to_string(),
            repo: Some("https://x/worker".to_string()),
            path: None,
            project_name: "demo".to_string(),
            tasks: None,
        }
    );
    assert_eq!(project.services[0].source_path(HOME), "/src/api");
    assert_eq!(
        project.services[1].source_path(HOME),
        "/home/dev/.config/devbox/demo/src/worker"
    );
    assert_eq!(project.volumes, vec!["pg".to_string()]);
}

#[test]
fn loading_keeps_the_order_of_the_file_not_of_the_alphabet() {
    let project = Project::new(
        "demo",
        HOME,
        Some("[services]\nzeta = {}\nalpha = { path = \"/a\", git = \"g\" }\n"),
    )
    .unwrap();
    let names: Vec<&str> = project.services.iter().map(|s| s.name.as_str()).collect();
    assert_eq!(names, vec!["zeta", "alpha"]);
    assert_eq!(project.services[1].path, Some("/a".to_string()));
    assert_eq!(project.services[1].repo, Some("g".to_string()));
    assert_eq!(project.volumes, Vec::<String>::new());
}

#[test]
fn loading_an_empty_file_gives_an_empty_project() {
    let project = Project::new("demo", HOME, Some("")).unwrap();
    assert_eq!(project.services, vec![]);
    assert_eq!(project.volumes, Vec::<String>::new());
    assert_eq!(project.name, "demo");
}

#[test]
fn loading_without_a_file_fails() {
    assert_eq!(Project::new("demo", HOME, None), Err(Error::ConfigNotFound));
}

#[test]
fn loading_what_is_not_toml_fails() {
    assert_eq!(
        Project::new("demo", HOME, Some("[services")),
        Err(Error::InvalidConfig(Problem::Syntax))
    );
}

#[test]
fn loading_refuses_malformed_services() {
    let cases = [
        "services = [\"api\"]\n",
        "services = \"api\"\n",
        "[services]\napi = { path = 3 }\n",
        "[services]\napi = { git = [\"x\"] }\n",
        "[services]\napi = { path = \"/a\" }\nworker = { git = 1979-05-27 }\n",
    ];
    for text in cases {
        assert_eq!(
            Project::new("demo", HOME, Some(text)),
            Err(Error::InvalidConfig(Problem::Services)),
            "for {:?}",
            text
        );
    }
}

#[test]
fn loading_refuses_malformed_volumes() {
    let cases = ["volumes = \"pg\"\n", "volumes = [1, 2]\n", "[volumes]\npg = true\n"];
    for text in cases {
        assert_eq!(
            Project::new("demo", HOME, Some(text)),
            Err(Error::InvalidConfig(Problem::Volumes)),
            "for {:?}",
            text
        );
    }
}

#[test]
fn services_are_looked_at_before_volumes() {
    assert_eq!(
        Project::new("demo", HOME, Some("volumes = 1\nservices = 2\n")),
        Err(Error::InvalidConfig(Problem::Services))
    );
}

#[test]
fn a_service_that_is_no_table_has_neither_path_nor_repository() {
    let project = Project::new("demo", HOME, Some("[services]\napi = 5\n")).unwrap();
    assert_eq!(project.services.len(), 1);
    assert_eq!(project.services[0].name, "api");
    assert_eq!(project.services[0].path, None);
    assert_eq!(project.services[0].repo, None);
}

#[test]
fn from_document_refuses_two_services_of_one_name() {
    let entry = || Tree::Table(vec![]);
    let doc = Tree::Table(vec![(
        "services".to_string(),
        Tree::Table(vec![
            ("api".to_string(), entry()),
            ("worker".to_string(), entry()),
            ("api".to_string(), entry()),
        ]),
    )]);
    assert_eq!(
        Project::from_document("demo", HOME, &doc),
        Err(Error::InvalidConfig(Problem::Services))
    );
}

#[test]
fn from_document_reads_a_tree() {
    let doc = Tree::Table(vec![
        ("volumes".to_string(), Tree::Array(vec![Tree::Text("pg".to_string())])),
        (
            "services".to_string(),
            Tree::Table(vec![(
                "api".to_string(),
                Tree::Table(vec![("git".to_string(), Tree::Text("g".to_string()))]),
            )]),
        ),
    ]);
    let project = Project::from_document("demo", "/h", &doc).unwrap();
    assert_eq!(project.docker_compose_file, "/h/.config/devbox/demo/docker-compose.yml");
    assert_eq!(project.services.len(), 1);
    assert_eq!(project.services[0].repo, Some("g".to_string()));
    assert_eq!(project.volumes, vec!["pg".to_string()]);
}

#[test]
fn find_service_fails_with_the_exact_name() {
    let mut project = demo();
    for name in ["db", "", "API", "api ", "worker/"] {
        assert_eq!(
            project.find_service(name, Some("tasks = []\n")).unwrap_err(),
            ServiceNotFound(name.to_string())
        );
    }
    assert_eq!(project, demo());
    let missing = project.find_service("db", None).unwrap_err();
    assert_eq!(missing.message(), "Unable to find service db");
}

#[test]
fn find_service_of_an_empty_project_fails() {
    let mut project = Project::new("demo", HOME, Some("")).unwrap();
    assert_eq!(project.find_service("api", None).unwrap_err(), ServiceNotFound("api".to_string()));
}

#[test]
fn find_service_has_the_service_read_its_configuration() {
    let mut project = demo();
    let found = project.find_service(
        "worker",
        Some("[[tasks]]\nname = \"seed\"\ndescription = \"Seed\"\nexec = [\"rake\"]\n[hooks]\nafter-build = [\"seed\", \"gone\"]\n"),
    );
    let (service, notices) = found.unwrap();
    assert_eq!(notices, vec![Notice::UnknownHookTask { task: "gone".to_string() }]);
    assert_eq!(service.name, "worker");
    assert_eq!(service.tasks().len(), 1);
    service.repo = Some("https://y/worker".to_string());
    assert_eq!(project.services[1].repo, Some("https://y/worker".to_string()));
    assert_eq!(project.services[0], demo().services[0]);
    assert_eq!(project.services[1].tasks().len(), 1);
    assert_eq!(project.services[1].tasks_for_hook("after-build").len(), 1);
    assert_eq!(project.services[1].name, "worker");
}

#[test]
fn find_service_without_a_service_file_warns() {
    let mut project = demo();
    let (service, notices) = project.find_service("api", None).unwrap();
    assert_eq!(notices, vec![Notice::ConfigNotFound { service: "api".to_string() }]);
    assert_eq!(service, &mut demo().services.remove(0));
    assert_eq!(project, demo());
}

#[test]
fn find_service_reads_the_file_on_every_lookup() {
    let mut project = demo();
    project
        .find_service("api", Some("[[tasks]]\nname = \"a\"\ndescription = \"\"\nexec = []\n"))
        .unwrap();
    assert_eq!(project.services[0].tasks().len(), 1);
    project.find_service("api", Some("tasks = []\n")).unwrap();
    assert_eq!(project.services[0].tasks().len(), 0);
}

#[test]
fn rehydrate_at_reads_for_the_service_at_a_place() {
    let mut project = demo();
    let notices = project.rehydrate_at(1, Some("title = \"x\"\n"));
    assert_eq!(notices, vec![Notice::NoTasks { service: "worker".to_string() }]);
    assert_eq!(project.rehydrate_at(0, None), vec![Notice::ConfigNotFound {
        service: "api".to_string()
    }]);
    assert_eq!(project.rehydrate_at(2, None), vec![]);
    assert_eq!(project, demo());
}

#[test]
fn locate_gives_the_place_of_a_name() {
    let project = demo();
    assert_eq!(project.locate("api"), Some(0));
    assert_eq!(project.locate("worker"), Some(1));
    assert_eq!(project.locate("db"), None);
}

#[test]
fn a_volume_named_twice_is_one_volume() {
    let project =
        Project::new("demo", HOME, Some("volumes = [\"pg\", \"redis\", \"pg\", \"pg\", \"es\"]\n"))
            .unwrap();
    assert_eq!(project.volumes, vec!["pg".to_string(), "redis".to_string(), "es".to_string()]);
}

#[test]
fn loading_does_not_read_beyond_the_nesting_limit() {
    let text = format!("# {}\n[services]\napi = {{}}\n", ".".repeat(256));
    assert_eq!(Project::new("demo", HOME, Some(&text)), Err(Error::InvalidConfig(Problem::Nesting)));
    let deep = format!("volumes = {}{}", "[".repeat(50000), "]".repeat(50000));
    assert_eq!(Project::new("demo", HOME, Some(&deep)), Err(Error::InvalidConfig(Problem::Nesting)));
}
