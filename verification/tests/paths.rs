use devbox::errors::Error;
use devbox::paths::{
    compose_file_in, config_file_in, devbox_dir, home, home_from, join_path, project_dir_in,
    toml_config_path, yaml_config_path,
};

#[test]
fn join_path_puts_one_separator_between() {
    assert_eq!(join_path("/a", "b"), "/a/b");
    assert_eq!(join_path("rel", "x/y"), "rel/x/y");
}

#[test]
fn join_path_keeps_both_sides_as_written() {
    assert_eq!(join_path("/a/", "b"), "/a//b");
    assert_eq!(join_path("", "b"), "/b");
    assert_eq!(join_path("/a", "/b"), "/a//b");
}

#[test]
fn project_dir_is_below_the_home_config() {
    assert_eq!(project_dir_in("/home/dev", "demo"), "/home/dev/.config/devbox/demo");
}

#[test]
fn project_files_are_inside_the_project_dir() {
    assert_eq!(config_file_in("/p/demo"), "/p/demo/config.toml");
    assert_eq!(compose_file_in("/p/demo"), "/p/demo/docker-compose.yml");
}

#[test]
fn devbox_dir_is_the_project_dir_below_the_users_home() {
    match (home(), devbox_dir("demo")) {
        (Ok(home), Ok(dir)) => assert_eq!(dir, format!("{}/.config/devbox/demo", home)),
        (Err(first), Err(second)) => {
            assert_eq!(first, second);
            assert_eq!(first.message(), "unable to determine home directory");
        }
        (home, dir) => panic!("home {:?} but directory {:?}", home, dir),
    }
}

#[test]
fn config_paths_are_inside_the_users_project_dir() {
    match (devbox_dir("demo"), toml_config_path("demo"), yaml_config_path("demo")) {
        (Ok(dir), Ok(toml), Ok(yaml)) => {
            assert_eq!(toml, format!("{}/config.toml", dir));
            assert_eq!(yaml, format!("{}/docker-compose.yml", dir));
        }
        (Err(_), Err(toml), Err(yaml)) => {
            assert_eq!(toml.message(), "unable to determine home directory");
            assert_eq!(yaml.message(), "unable to determine home directory");
        }
        other => panic!("the three disagree: {:?}", other),
    }
}

#[test]
fn home_is_a_directory_name_where_there_is_one() {
    if let Ok(home) = home() {
        assert!(!home.is_empty());
    }
}

#[test]
fn home_from_takes_the_answer_as_it_is() {
    assert_eq!(home_from(Some("/home/dev".to_string())), Ok("/home/dev".to_string()));
    assert_eq!(home_from(Some(String::new())), Ok(String::new()));
    assert_eq!(home_from(None), Err(Error::HomeNotFound));
}
