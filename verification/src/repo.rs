//! The identity of one project.

use crate::paths::{home_dir, join_path, joined};
use vstd::prelude::*;
use vstd::string::StringExecFns;

verus! {

/// What a [`Repo`] holds, as plain mathematical values.
pub struct RepoView {
    /// The unique key of the project.
    pub name: Seq<char>,
    /// Whether the project was found on the local filesystem.
    pub local: bool,
    /// The directory that contains the project, once it is materialised.
    pub project_dir: Option<Seq<char>>,
}

/// One project, keyed by its name.
///
/// A project is local when it was found in one of the configured project
/// directories, and remote when it is only known from the hosting account.
/// The name never changes; the containing directory may be attached later.
#[derive(Debug)]
pub struct Repo {
    name: String,
    local: bool,
    project_dir: Option<String>,
}

impl View for Repo {
    type V = RepoView;

    closed spec fn view(&self) -> RepoView {
        RepoView {
            name: self.name@,
            local: self.local,
            project_dir: match self.project_dir {
                Some(dir) => Some(dir@),
                None => None,
            },
        }
    }
}

impl PartialEq for Repo {
    /// Two projects are the same project exactly when their names are equal.
    fn eq(&self, other: &Self) -> (r: bool) {
        self.name == other.name
    }
}

impl vstd::std_specs::cmp::PartialEqSpecImpl for Repo {
    open spec fn obeys_eq_spec() -> bool {
        true
    }

    open spec fn eq_spec(&self, other: &Self) -> bool {
        self@.name == other@.name
    }
}

impl Clone for Repo {
    fn clone(&self) -> (copy: Self)
        ensures
            copy@ == self@,
    {
        let project_dir = match &self.project_dir {
            Some(dir) => Some(dir.clone()),
            None => None,
        };
        Self { name: self.name.clone(), local: self.local, project_dir }
    }
}

impl From<Repo> for String {
    /// A project turns into its name.
    fn from(value: Repo) -> (name: String) {
        value.name
    }
}

impl vstd::std_specs::convert::FromSpecImpl<Repo> for String {
    open spec fn obeys_from_spec() -> bool {
        true
    }

    open spec fn from_spec(value: Repo) -> String {
        value.name_text()
    }
}

/// The views of a sequence of projects.
pub open spec fn repo_views(repos: Seq<Repo>) -> Seq<RepoView> {
    repos.map_values(|r: Repo| r@)
}

/// What the selector shows for a project: the bare name of a local project,
/// the indicator followed by the name of a remote one.
pub open spec fn label(repo: RepoView, indicator: Seq<char>) -> Seq<char> {
    if repo.local {
        repo.name
    } else {
        indicator + repo.name
    }
}

/// Where a project lives under the home directory `home`: its containing
/// directory joined onto `home`, then its name followed by `/`.
pub open spec fn root_under(repo: RepoView, home: Seq<char>) -> Option<Seq<char>> {
    match repo.project_dir {
        Some(dir) => Some(joined(joined(home, dir), repo.name.push('/'))),
        None => None,
    }
}

impl Repo {
    /// The name of the project as it is stored.
    pub closed spec fn name_text(self) -> String {
        self.name
    }

    /// The stored name is the name of the view.
    pub proof fn lemma_name_text(self)
        ensures
            self.name_text()@ == self@.name,
    {
    }

    /// Creates a project with the given name, provenance and containing directory.
    pub fn new(name: &str, local: bool, project_dir: Option<&str>) -> (repo: Self)
        ensures
            repo@ == (RepoView {
                name: name@,
                local,
                project_dir: match project_dir {
                    Some(dir) => Some(dir@),
                    None => None,
                },
            }),
    {
        let project_dir = match project_dir {
            Some(dir) => Some(dir.to_owned()),
            None => None,
        };
        Self { name: name.to_owned(), local, project_dir }
    }

    /// The name of the project.
    pub fn name(&self) -> (name: String)
        ensures
            name@ == self@.name,
    {
        self.name.clone()
    }

    /// The name of the project as the selector shows it, with the indicator
    /// in front if the project is not local.
    pub fn list_name(&self, indicator: &str) -> (shown: String)
        ensures
            shown@ == label(self@, indicator@),
    {
        if self.local {
            self.name.clone()
        } else {
            let mut shown = indicator.to_owned();
            shown.append(self.name.as_str());
            shown
        }
    }

    /// Whether the project exists in one of the local project directories.
    pub fn local(&self) -> (local: bool)
        ensures
            local == self@.local,
    {
        self.local
    }

    /// The directory that contains the project, relative to the home
    /// directory, if the project is materialised.
    pub fn project_dir(&self) -> (dir: Option<String>)
        ensures
            dir is Some == self@.project_dir is Some,
            dir is Some ==> dir->0@ == self@.project_dir->0,
    {
        match &self.project_dir {
            Some(dir) => Some(dir.clone()),
            None => None,
        }
    }

    /// Attaches or removes the containing directory. Name and provenance stay
    /// as they were.
    pub fn set_project_dir(&mut self, project_dir: Option<String>)
        ensures
            final(self)@ == (RepoView {
                name: old(self)@.name,
                local: old(self)@.local,
                project_dir: match project_dir {
                    Some(dir) => Some(dir@),
                    None => None,
                },
            }),
    {
        self.project_dir = project_dir;
    }

    /// The root of the project under the given home directory, if the
    /// project has a containing directory.
    pub fn project_root_under(&self, home: &str) -> (root: Option<String>)
        ensures
            root is Some == root_under(self@, home@) is Some,
            root is Some ==> root->0@ == root_under(self@, home@)->0,
    {
        match &self.project_dir {
            Some(dir) => {
                let parent = join_path(home, dir.as_str());
                let mut leaf = self.name.clone();
                leaf.push('/');
                Some(join_path(parent.as_str(), leaf.as_str()))
            },
            None => None,
        }
    }

    /// The root of the project under the home directory of the current user.
    ///
    /// `None` if the project has no containing directory; otherwise whatever
    /// [`Repo::project_root_under`] gives for the home directory found, and
    /// `None` if none was found.
    pub fn get_project_root(&self) -> (root: Option<String>)
        ensures
            self@.project_dir is None ==> root is None,
            root is Some ==> exists|home: Seq<char>| root_under(self@, home) == Some(root->0@),
    {
        if self.project_dir.is_none() {
            return None;
        }
        match home_dir() {
            Some(home) => self.project_root_under(home.as_str()),
            None => None,
        }
    }
}

} // verus!
