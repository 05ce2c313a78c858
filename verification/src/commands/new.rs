//! `new`: set up the files of a project.

use vstd::prelude::*;
use vstd::string::*;

use crate::errors::{Argument, Error, ErrorView};

verus! {

/// How the files of a project come about.
#[derive(Debug, PartialEq, Eq)]
pub enum Scaffold {
    /// From the templates that the tool carries.
    Template { name: String },
    /// From the configuration that a git repository holds. Files that the
    /// project has already are kept.
    FromGit { name: String, repo: String },
    /// From the configuration that a git repository holds, once more.
    Renew { name: String, repo: String },
}

/// What a `Scaffold` holds.
pub enum ScaffoldView {
    Template { name: Seq<char> },
    FromGit { name: Seq<char>, repo: Seq<char> },
    Renew { name: Seq<char>, repo: Seq<char> },
}

impl View for Scaffold {
    type V = ScaffoldView;

    open spec fn view(&self) -> ScaffoldView {
        match self {
            Scaffold::Template { name } => ScaffoldView::Template { name: name@ },
            Scaffold::FromGit { name, repo } => ScaffoldView::FromGit { name: name@, repo: repo@ },
            Scaffold::Renew { name, repo } => ScaffoldView::Renew { name: name@, repo: repo@ },
        }
    }
}

/// A way to set a project up, or why there is none.
pub open spec fn scaffold_view(decided: Result<Scaffold, Error>) -> Result<ScaffoldView, ErrorView> {
    match decided {
        Ok(scaffold) => Ok(scaffold@),
        Err(error) => Err(error@),
    }
}

/// What `new` sets a project up from: the repository where one is given,
/// else the templates. Without a name it fails.
pub open spec fn decision(name: Option<Seq<char>>, git: Option<Seq<char>>) -> Result<
    ScaffoldView,
    ErrorView,
> {
    match name {
        None => Err(ErrorView::MissingArgument(Argument::ProjectName)),
        Some(name) => match git {
            Some(repo) => Ok(ScaffoldView::FromGit { name, repo }),
            None => Ok(ScaffoldView::Template { name }),
        },
    }
}

/// Decides what `new` does.
pub fn exec(name: Option<&str>, git: Option<&str>) -> (decided: Result<Scaffold, Error>)
    ensures
        scaffold_view(decided) == decision(name.deep_view(), git.deep_view()),
{
    let name = match name {
        Some(name) => String::from_str(name),
        None => {
            return Err(Error::MissingArgument(Argument::ProjectName));
        },
    };
    match git {
        Some(repo) => Ok(Scaffold::FromGit { name, repo: String::from_str(repo) }),
        None => Ok(Scaffold::Template { name }),
    }
}

} // verus!
