//! `renew`: take the files of a project from a git repository once more.

use vstd::prelude::*;
use vstd::string::*;

use crate::commands::new::{scaffold_view, Scaffold, ScaffoldView};
use crate::errors::{Argument, Error, ErrorView};

verus! {

/// What `renew` does: it needs the project's name and the repository, and
/// fails without the first, then without the second.
pub open spec fn decision(name: Option<Seq<char>>, git: Option<Seq<char>>) -> Result<
    ScaffoldView,
    ErrorView,
> {
    match name {
        None => Err(ErrorView::MissingArgument(Argument::ProjectName)),
        Some(name) => match git {
            Some(repo) => Ok(ScaffoldView::Renew { name, repo }),
            None => Err(ErrorView::MissingArgument(Argument::Repository)),
        },
    }
}

/// Decides what `renew` does.
pub fn exec(name: Option<&str>, git: Option<&str>) -> (decided: Result<Scaffold, Error>)
    ensures
        scaffold_view(decided) == decision(name.deep_view(), git.deep_view()),
{
    let name = match name {
        Some(name) => String::from_str(name),
        None => {
            return Err(Error::MissingArgument(Argument::ProjectName));
        },
    };
    match git {
        Some(repo) => Ok(Scaffold::Renew { name, repo: String::from_str(repo) }),
        None => Err(Error::MissingArgument(Argument::Repository)),
    }
}

} // verus!
