use vstd::prelude::*;

use crate::path::{candidates, find_recursively, opt_view, parent_directory, parent_spec};

verus! {

/// The untracked marker that holds a developer's own settings.
pub const CONFIG_FILE_NAME_LOCAL: &'static str = ".dev-cli.yml";

/// The committed marker that holds the settings shared by the team.
pub const CONFIG_FILE_NAME_PROJECT: &'static str = ".dev-cli.dist.yml";

/// Neither marker was found above the working directory.
#[derive(Debug, Clone, Copy, PartialEq, Eq)]
pub enum ResolutionError {
    NoProjectRoot,
}

impl ResolutionError {
    /// The diagnostic shown to the user; it names both markers.
    pub fn message(&self) -> (r: String)
        ensures
            r@ == "Could not find a project root. Please add a "@ + CONFIG_FILE_NAME_LOCAL@ + " or "@
                + CONFIG_FILE_NAME_PROJECT@ + " to your project root"@,
    {
        let mut r = String::from_str("Could not find a project root. Please add a ");
        r.append(CONFIG_FILE_NAME_LOCAL);
        r.append(" or ");
        r.append(CONFIG_FILE_NAME_PROJECT);
        r.append(" to your project root");
        r
    }
}

/// The directory that holds the file at `file`; a bare file name lies in the
/// current directory, written as the empty path.
pub open spec fn dir_of(file: Seq<char>) -> Seq<char> {
    match parent_spec(file) {
        Some(p) => p,
        None => Seq::empty(),
    }
}

/// The project root chosen from the markers found: the local marker wins over
/// the project marker.
pub open spec fn project_root_spec(local: Option<Seq<char>>, project: Option<Seq<char>>) -> Option<
    Seq<char>,
> {
    match local {
        Some(l) => Some(dir_of(l)),
        None => match project {
            Some(p) => Some(dir_of(p)),
            None => None,
        },
    }
}

/// The directory that holds the file at `file`.
pub fn containing_directory(file: &str) -> (r: String)
    ensures
        r@ == dir_of(file@),
{
    match parent_directory(file) {
        Some(p) => p,
        None => String::new(),
    }
}

/// The project root, given where each marker was found (if anywhere): the
/// directory of the local marker, else that of the project marker.
pub fn resolve_project_root(local: &Option<String>, project: &Option<String>) -> (r: Result<
    String,
    ResolutionError,
>)
    ensures
        r is Ok <==> project_root_spec(opt_view(*local), opt_view(*project)) is Some,
        r is Ok ==> r->Ok_0@ == project_root_spec(opt_view(*local), opt_view(*project))->0,
        r is Err ==> r->Err_0 == ResolutionError::NoProjectRoot,
{
    match local {
        Some(l) => Ok(containing_directory(l.as_str())),
        None => match project {
            Some(p) => Ok(containing_directory(p.as_str())),
            None => Err(ResolutionError::NoProjectRoot),
        },
    }
}

/// Searches upward from `start` for both markers and resolves the project
/// root from what was found. Whatever is on disk, a root that is returned is
/// the directory of one of the search's candidates for one of the markers.
pub fn locate_project_root(start: &str) -> (r: Result<String, ResolutionError>)
    ensures
        r is Ok ==> (exists|c: Seq<char>|
            (candidates(start@, CONFIG_FILE_NAME_LOCAL@).contains(c) || candidates(
                start@,
                CONFIG_FILE_NAME_PROJECT@,
            ).contains(c)) && r->Ok_0@ == dir_of(c)),
        r is Err ==> r->Err_0 == ResolutionError::NoProjectRoot,
{
    let local = find_recursively(start, CONFIG_FILE_NAME_LOCAL);
    let project = find_recursively(start, CONFIG_FILE_NAME_PROJECT);
    resolve_project_root(&local, &project)
}

} // verus!
