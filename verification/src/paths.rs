//! Locations on disk, as `/`-separated strings.

use vstd::prelude::*;
use vstd::string::*;

use crate::errors::{Error, ErrorView};

verus! {

/// The path of `part` inside the directory `base`: the two joined by one `/`.
pub open spec fn join(base: Seq<char>, part: Seq<char>) -> Seq<char> {
    base + "/"@ + part
}

/// Joins a directory and an entry below it.
pub fn join_path(base: &str, part: &str) -> (path: String)
    ensures
        path@ == join(base@, part@),
{
    let mut path = String::from_str(base);
    path.append("/");
    path.append(part);
    path
}

/// Where the project `name` keeps its files under the home directory `home`:
/// `<home>/.config/devbox/<name>`.
pub open spec fn project_dir(home: Seq<char>, name: Seq<char>) -> Seq<char> {
    join(join(join(home, ".config"@), "devbox"@), name)
}

/// The project-level configuration file inside a project directory.
pub open spec fn config_file(dir: Seq<char>) -> Seq<char> {
    join(dir, "config.toml"@)
}

/// The project-level compose file inside a project directory.
pub open spec fn compose_file(dir: Seq<char>) -> Seq<char> {
    join(dir, "docker-compose.yml"@)
}

/// Computes `project_dir` for a known home directory.
pub fn project_dir_in(home: &str, name: &str) -> (dir: String)
    ensures
        dir@ == project_dir(home@, name@),
{
    let config = join_path(home, ".config");
    let devbox = join_path(config.as_str(), "devbox");
    join_path(devbox.as_str(), name)
}

/// Computes `config_file`.
pub fn config_file_in(dir: &str) -> (file: String)
    ensures
        file@ == config_file(dir@),
{
    join_path(dir, "config.toml")
}

/// Computes `compose_file`.
pub fn compose_file_in(dir: &str) -> (file: String)
    ensures
        file@ == compose_file(dir@),
{
    join_path(dir, "docker-compose.yml")
}

/// `dirs::home_dir`: the home directory of the current user as the
/// operating system and the environment give it, if they give one. Nothing is
/// claimed of it: it may differ from one call to the next.
#[verifier::external_body]
fn home_dir() -> (home: Option<String>) {
    dirs::home_dir().map(|path| path.to_string_lossy().into_owned())
}

/// The home directory of the current user.
pub fn home() -> (found: Result<String, Error>)
    ensures
        found matches Err(error) ==> error@ == ErrorView::HomeNotFound,
{
    home_from(home_dir())
}

/// What the search for the home directory comes to, for each thing that the
/// operating system may answer: the directory that it names, or the failure
/// where it names none.
pub open spec fn home_of(answer: Option<Seq<char>>) -> Result<Seq<char>, ErrorView> {
    match answer {
        Some(home) => Ok(home),
        None => Err(ErrorView::HomeNotFound),
    }
}

/// A directory that was found, or why none was.
pub open spec fn found_view(found: Result<String, Error>) -> Result<Seq<char>, ErrorView> {
    match found {
        Ok(dir) => Ok(dir@),
        Err(error) => Err(error@),
    }
}

/// Turns the operating system's answer into the home directory, or into the
/// failure that there is none.
pub fn home_from(answer: Option<String>) -> (found: Result<String, Error>)
    ensures
        found_view(found) == home_of(answer.deep_view()),
{
    match answer {
        Some(home) => Ok(home),
        None => Err(Error::HomeNotFound),
    }
}

/// The directory of the project `name` below the current user's home.
pub fn devbox_dir(name: &str) -> (found: Result<String, Error>)
    ensures
        match found {
            Ok(dir) => exists|home: Seq<char>| dir@ == #[trigger] project_dir(home, name@),
            Err(error) => error@ == ErrorView::HomeNotFound,
        },
{
    match home() {
        Ok(home) => {
            let dir = project_dir_in(home.as_str(), name);
            assert(dir@ == project_dir(home@, name@));
            Ok(dir)
        },
        Err(error) => Err(error),
    }
}

/// The configuration file of the project `name` below the current user's
/// home.
pub fn toml_config_path(name: &str) -> (found: Result<String, Error>)
    ensures
        match found {
            Ok(file) => exists|home: Seq<char>|
                file@ == config_file(#[trigger] project_dir(home, name@)),
            Err(error) => error@ == ErrorView::HomeNotFound,
        },
{
    match home() {
        Ok(home) => {
            let dir = project_dir_in(home.as_str(), name);
            assert(dir@ == project_dir(home@, name@));
            Ok(config_file_in(dir.as_str()))
        },
        Err(error) => Err(error),
    }
}

/// The compose file of the project `name` below the current user's home.
pub fn yaml_config_path(name: &str) -> (found: Result<String, Error>)
    ensures
        match found {
            Ok(file) => exists|home: Seq<char>|
                file@ == compose_file(#[trigger] project_dir(home, name@)),
            Err(error) => error@ == ErrorView::HomeNotFound,
        },
{
    match home() {
        Ok(home) => {
            let dir = project_dir_in(home.as_str(), name);
            assert(dir@ == project_dir(home@, name@));
            Ok(compose_file_in(dir.as_str()))
        },
        Err(error) => Err(error),
    }
}

} // verus!
