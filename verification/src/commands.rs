//! What each command works on, decided from plain values.

use crate::catalog::{find_named, find_project};
use crate::lifecycle::{begin, begin_spec, Action, Intent, Settings, Stage};
use crate::repo::{repo_views, Repo};
use crate::text::{
    has_substring, lowercase, same_text, str_contains, trim_text, trimmed, views,
};
use vstd::prelude::*;

verus! {

/// What a deletion is aimed at.
#[derive(Debug)]
pub enum DeleteTarget {
    /// The local project that was named.
    Project(Repo),
    /// A project was named, and no local project has that name.
    NotFound,
    /// No project was named: the selector is to offer the local projects.
    Select,
}

/// Whether a project directory is listed under a filter: always without a
/// filter, otherwise if its lower-case form contains the filter's.
pub open spec fn dir_listed(dir: Seq<char>, filter: Option<Seq<char>>) -> bool {
    match filter {
        Some(f) => has_substring(lowercase(dir), lowercase(f)),
        None => true,
    }
}

/// The project directories that are listed under a filter, in the
/// configured order.
pub open spec fn listed_dirs(dirs: Seq<Seq<char>>, filter: Option<Seq<char>>) -> Seq<Seq<char>> {
    dirs.filter(|dir: Seq<char>| dir_listed(dir, filter))
}

/// The local project to open by name: the first local project whose name
/// is the given text without the whitespace around it.
pub fn open_specific_project(project_name: &str, local_projects: &Vec<Repo>) -> (project: Option<
    Repo,
>)
    ensures
        project is Some == find_named(repo_views(local_projects@), trimmed(project_name@)) is Some,
        project is Some ==> project->0@ == find_named(
            repo_views(local_projects@),
            trimmed(project_name@),
        )->0,
{
    let name = trim_text(project_name);
    find_project(local_projects, name.as_str())
}

/// What a deletion is aimed at: the selector's choice if no project was
/// named, otherwise the first local project of that name, if there is one.
pub fn delete_project(project: Option<&str>, local_projects: &Vec<Repo>) -> (target: DeleteTarget)
    ensures
        project is None ==> target is Select,
        project is Some ==> match find_named(repo_views(local_projects@), project->0@) {
            Some(found) => target matches DeleteTarget::Project(repo) && repo@ == found,
            None => target is NotFound,
        },
{
    match project {
        None => DeleteTarget::Select,
        Some(name) => match find_project(local_projects, name) {
            Some(repo) => DeleteTarget::Project(repo),
            None => DeleteTarget::NotFound,
        },
    }
}

/// The first step of opening what the selector gave: nothing without a
/// selection, otherwise as the lifecycle begins for a project of that
/// provenance.
pub fn open_project(selection: Option<&Repo>, settings: Settings) -> (next: (Stage, Action))
    ensures
        next == begin_spec(
            Intent::Open,
            match selection {
                Some(repo) => Some(repo@.local),
                None => None,
            },
            settings,
        ),
{
    let selected = match selection {
        Some(repo) => Some(repo.local()),
        None => None,
    };
    begin(Intent::Open, selected, settings)
}

/// How borrowing a project begins: not at all unless the hosting account is
/// switched on; with a selection, by choosing where to clone it, without
/// asking for consent; without one, there is nothing to do.
pub fn borrow_project(github_enabled: bool, selected: bool) -> (first: Option<(Stage, Action)>)
    ensures
        first == if !github_enabled {
            None
        } else if selected {
            Some((Stage::ChoosingDestination, Action::ChooseDestination))
        } else {
            Some((Stage::Done, Action::Nothing))
        },
{
    if !github_enabled {
        None
    } else if selected {
        Some((Stage::ChoosingDestination, Action::ChooseDestination))
    } else {
        Some((Stage::Done, Action::Nothing))
    }
}

/// The project that was created, as its name and the directory it was
/// created in: present exactly if a name was given and a directory chosen.
pub fn new_project(project_name: Option<&str>, projects_dir: Option<&str>) -> (created: Option<
    (String, String),
>)
    ensures
        created is Some == (project_name is Some && projects_dir is Some),
        created matches Some(pair) ==> pair.0@ == project_name->0@ && pair.1@ == projects_dir->0@,
{
    match (project_name, projects_dir) {
        (Some(name), Some(dir)) => Some((name.to_owned(), dir.to_owned())),
        _ => None,
    }
}

/// The project directories to list: all of them without a filter,
/// otherwise those whose lower-case form contains the filter's.
pub fn list_projects(projects_dirs: &Vec<String>, project_dir_filter: Option<&str>) -> (listed: Vec<
    String,
>)
    ensures
        views(listed@) == listed_dirs(
            views(projects_dirs@),
            match project_dir_filter {
                Some(f) => Some(f@),
                None => None,
            },
        ),
{
    let ghost filter = match project_dir_filter {
        Some(f) => Some(f@),
        None => None,
    };
    let ghost all = views(projects_dirs@);
    let mut listed: Vec<String> = Vec::new();
    let mut i: usize = 0;
    proof {
        reveal_with_fuel(Seq::filter, 2);
        assert(views(listed@) =~= listed_dirs(all.take(0), filter));
    }
    while i < projects_dirs.len()
        invariant
            i <= projects_dirs.len(),
            all == views(projects_dirs@),
            filter == match project_dir_filter {
                Some(f) => Some(f@),
                None => None,
            },
            views(listed@) =~= listed_dirs(all.take(i as int), filter),
        decreases projects_dirs.len() - i,
    {
        let keep = match project_dir_filter {
            Some(f) => {
                let dir = projects_dirs[i].as_str().to_lowercase();
                let wanted = f.to_lowercase();
                str_contains(dir.as_str(), wanted.as_str())
            },
            None => true,
        };
        proof {
            reveal_with_fuel(Seq::filter, 2);
            assert(all.take(i + 1).drop_last() =~= all.take(i as int));
            assert(all.take(i + 1).last() == projects_dirs@[i as int]@);
        }
        if keep {
            let dir = projects_dirs[i].clone();
            proof {
                assert(views(listed@.push(dir)) =~= views(listed@).push(dir@));
            }
            listed.push(dir);
        }
        i += 1;
    }
    assert(all.take(i as int) =~= all);
    listed
}

/// The directory that a project goes into without asking: the configured
/// project directory if there is exactly one. With several, the user
/// chooses.
pub fn get_project_dir(projects_dirs: &Vec<String>) -> (dir: Option<String>)
    ensures
        dir is Some == (projects_dirs@.len() == 1),
        dir is Some ==> dir->0@ == projects_dirs@[0]@,
{
    if projects_dirs.len() == 1 {
        Some(projects_dirs[0].clone())
    } else {
        None
    }
}

/// The first directory of `dirs` that the selector shows as `shown`: the
/// selector shows each directory without the whitespace around it.
pub open spec fn dir_shown_as(dirs: Seq<Seq<char>>, shown: Seq<char>) -> Option<Seq<char>>
    decreases dirs.len(),
{
    if dirs.len() == 0 {
        None
    } else if trimmed(dirs[0]) == shown {
        Some(dirs[0])
    } else {
        dir_shown_as(dirs.drop_first(), shown)
    }
}

/// The project directory that the user selected among several: the first
/// configured directory that the selector shows as the selected text.
pub fn chosen_project_dir(projects_dirs: &Vec<String>, selected: &str) -> (dir: Option<String>)
    ensures
        dir is Some == dir_shown_as(views(projects_dirs@), selected@) is Some,
        dir is Some ==> dir->0@ == dir_shown_as(views(projects_dirs@), selected@)->0,
{
    let ghost all = views(projects_dirs@);
    let mut i: usize = 0;
    assert(all.skip(0) =~= all);
    while i < projects_dirs.len()
        invariant
            i <= projects_dirs.len(),
            all == views(projects_dirs@),
            dir_shown_as(all, selected@) == dir_shown_as(all.skip(i as int), selected@),
        decreases projects_dirs.len() - i,
    {
        proof {
            assert(all.skip(i as int)[0] == projects_dirs@[i as int]@);
            assert(all.skip(i as int).drop_first() =~= all.skip(i + 1));
        }
        let shown = trim_text(projects_dirs[i].as_str());
        if same_text(shown.as_str(), selected) {
            return Some(projects_dirs[i].clone());
        }
        i += 1;
    }
    None
}

} // verus!
