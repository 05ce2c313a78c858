use devbox::plan::Invocation;
use devbox::service::{cmd, Service};
use devbox::task::Task;

fn located(path: Option<&str>, repo: Option<&str>) -> Service {
    Service {
        hooks: None,
        name: "api".to_string(),
        repo: repo.map(|r| r.to_string()),
        path: path.map(|p| p.to_string()),
        project_name: "demo".to_string(),
        tasks: None,
    }
}

#[test]
fn source_path_is_the_path_whatever_the_repo() {
    let without = located(Some("/src/api"), None);
    let with = located(Some("/src/api"), Some("https://x/api"));
    assert_eq!(without.source_path("/home/dev"), "/src/api");
    assert_eq!(with.source_path("/home/dev"), "/src/api");
    assert_eq!(with.source_path("/elsewhere"), "/src/api");
}

#[test]
fn source_path_keeps_the_path_verbatim() {
    assert_eq!(located(Some("relative/dir/"), None).source_path("/h"), "relative/dir/");
    assert_eq!(located(Some(""), None).source_path("/h"), "");
}

#[test]
fn source_path_defaults_to_src_below_the_project() {
    let service = located(None, Some("https://x/api"));
    assert_eq!(service.source_path("/home/dev"), "/home/dev/.config/devbox/demo/src/api");
}

#[test]
fn source_path_is_the_same_on_every_call() {
    let service = located(None, None);
    let first = service.source_path("/home/dev");
    let second = service.source_path("/home/dev");
    assert_eq!(first, second);
    assert_eq!(first, "/home/dev/.config/devbox/demo/src/api");
}

#[test]
fn service_files_are_in_the_devbox_dir_of_the_source() {
    let service = located(Some("/src/api"), None);
    assert_eq!(service.devbox_dir("/h"), "/src/api/.devbox");
    assert_eq!(service.devbox_compose_file("/h"), "/src/api/.devbox/docker-compose.yml");
    assert_eq!(service.devbox_toml_file("/h"), "/src/api/.devbox/config.toml");
}

#[test]
fn service_files_follow_the_default_source() {
    let service = located(None, None);
    assert_eq!(
        service.devbox_compose_file("/home/dev"),
        "/home/dev/.config/devbox/demo/src/api/.devbox/docker-compose.yml"
    );
    assert_eq!(
        service.devbox_toml_file("/home/dev"),
        "/home/dev/.config/devbox/demo/src/api/.devbox/config.toml"
    );
}

#[test]
fn cmd_layers_the_service_file_over_the_project_file() {
    let service = located(Some("/src/api"), None);
    let invocation = cmd("docker-compose", &service, "/home/dev");
    assert_eq!(
        invocation,
        Invocation {
            program: "docker-compose".to_string(),
            args: vec![
                "-f".to_string(),
                "/home/dev/.config/devbox/demo/docker-compose.yml".to_string(),
                "-f".to_string(),
                "/src/api/.devbox/docker-compose.yml".to_string(),
                "--project-directory".to_string(),
                "/src/api/.devbox".to_string(),
            ],
            dir: None,
            discard_output: false,
            discard_errors: false,
        }
    );
}

#[test]
fn cmd_takes_any_program() {
    let service = located(None, None);
    let invocation = cmd("podman-compose", &service, "/h");
    assert_eq!(invocation.program, "podman-compose");
    assert_eq!(invocation.args.len(), 6);
    assert_eq!(invocation.args[1], "/h/.config/devbox/demo/docker-compose.yml");
    assert_eq!(invocation.args[3], "/h/.config/devbox/demo/src/api/.devbox/docker-compose.yml");
    assert_eq!(invocation.args[5], "/h/.config/devbox/demo/src/api/.devbox");
}

#[test]
fn invocations_grow_at_the_end() {
    let mut invocation = Invocation::new("git");
    assert_eq!(invocation.args, Vec::<String>::new());
    invocation.arg("pull");
    invocation.args(&vec!["origin".to_string(), "master".to_string()]);
    assert_eq!(invocation.args, vec!["pull", "origin", "master"]);
    let copy = invocation.clone();
    assert_eq!(copy, invocation);
}

#[test]
fn services_clone_to_equal_services() {
    let task = Task {
        name: "seed".to_string(),
        description: "Seed".to_string(),
        command: vec!["rake".to_string()],
    };
    let service = Service {
        hooks: Some(vec![("before-build".to_string(), vec![task.clone()])]),
        name: "api".to_string(),
        repo: Some("https://x/api".to_string()),
        path: None,
        project_name: "demo".to_string(),
        tasks: Some(vec![task]),
    };
    assert_eq!(service.clone(), service);
    assert_eq!(located(None, None).clone(), located(None, None));
}
