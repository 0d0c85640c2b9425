//! What the selector is given, and what its answer means.

use crate::catalog::{distinct_names, find_named, find_project, has_name, lemma_find_named};
use crate::repo::{label, repo_views, Repo, RepoView};
use crate::text::{chars_of, string_of, views};
use vstd::prelude::*;

verus! {

/// Why a selection could not be resolved.
#[derive(Clone, Copy, Debug, PartialEq, Eq, Structural)]
pub enum ResolveError {
    /// The selector handed back text that names no project of the catalog,
    /// with or without the indicator in front.
    NotInCatalog,
}

/// The labels that the selector shows for a catalog, in catalog order.
pub open spec fn labels(catalog: Seq<RepoView>, indicator: Seq<char>) -> Seq<Seq<char>> {
    catalog.map_values(|r: RepoView| label(r, indicator))
}

/// The project that non-empty selector text stands for: the first project
/// with exactly that name, else the first project named by the text without
/// its first `indicator.len()` characters.
pub open spec fn resolved(raw: Seq<char>, catalog: Seq<RepoView>, indicator: Seq<char>) -> Option<
    RepoView,
> {
    match find_named(catalog, raw) {
        Some(found) => Some(found),
        None => if indicator.len() <= raw.len() {
            find_named(catalog, raw.skip(indicator.len() as int))
        } else {
            None
        },
    }
}

/// What selector text resolves to: nothing for empty text (the user chose
/// nothing), the project it stands for, or an error if it stands for none.
pub open spec fn resolution(raw: Seq<char>, catalog: Seq<RepoView>, indicator: Seq<char>) -> Result<
    Option<RepoView>,
    ResolveError,
> {
    if raw.len() == 0 {
        Ok(None)
    } else {
        match resolved(raw, catalog, indicator) {
            Some(found) => Ok(Some(found)),
            None => Err(ResolveError::NotInCatalog),
        }
    }
}

/// The view of a resolution outcome.
pub open spec fn outcome_view(outcome: Result<Option<Repo>, ResolveError>) -> Result<
    Option<RepoView>,
    ResolveError,
> {
    match outcome {
        Ok(Some(repo)) => Ok(Some(repo@)),
        Ok(None) => Ok(None),
        Err(e) => Err(e),
    }
}

/// The labels to hand to the selector for the given projects: the bare name
/// of each local project, the indicator and the name of each remote one.
pub fn selector_items(projects: &Vec<Repo>, indicator: &str) -> (items: Vec<String>)
    ensures
        views(items@) == labels(repo_views(projects@), indicator@),
{
    let mut items: Vec<String> = Vec::new();
    let mut i: usize = 0;
    while i < projects.len()
        invariant
            i <= projects.len(),
            views(items@) =~= labels(repo_views(projects@), indicator@).take(i as int),
        decreases projects.len() - i,
    {
        let item = projects[i].list_name(indicator);
        proof {
            assert(views(items@.push(item)) =~= views(items@).push(item@));
        }
        items.push(item);
        i += 1;
    }
    items
}

/// Resolves the text that the selector handed back to a project of the
/// catalog.
///
/// Empty text means that nothing was chosen. Otherwise the text is looked up
/// as a name, and if that finds nothing, once more without the indicator's
/// length of characters at its front. Text that resolves to no project is
/// reported as [`ResolveError::NotInCatalog`].
pub fn resolve(raw_text: &str, catalog: &Vec<Repo>, indicator: &str) -> (outcome: Result<
    Option<Repo>,
    ResolveError,
>)
    ensures
        outcome_view(outcome) == resolution(raw_text@, repo_views(catalog@), indicator@),
        raw_text@.len() == 0 ==> outcome matches Ok(None),
{
    if raw_text.is_empty() {
        return Ok(None);
    }
    match find_project(catalog, raw_text) {
        Some(found) => Ok(Some(found)),
        None => {
            let raw = chars_of(raw_text);
            let skip = indicator.unicode_len();
            if skip <= raw.len() {
                let trimmed = string_of(&raw, skip, raw.len());
                assert(trimmed@ =~= raw_text@.skip(indicator@.len() as int));
                match find_project(catalog, trimmed.as_str()) {
                    Some(found) => Ok(Some(found)),
                    None => Err(ResolveError::NotInCatalog),
                }
            } else {
                Err(ResolveError::NotInCatalog)
            }
        },
    }
}

/// Resolves the selector's answer against the local projects followed by
/// the remote projects that were offered.
pub fn run_fzf(
    project_name: &str,
    local_projects: &Vec<Repo>,
    git_projects: &Vec<Repo>,
    indicator: &str,
) -> (outcome: Result<Option<Repo>, ResolveError>)
    ensures
        outcome_view(outcome) == resolution(
            project_name@,
            repo_views(local_projects@) + repo_views(git_projects@),
            indicator@,
        ),
        project_name@.len() == 0 ==> outcome matches Ok(None),
{
    let mut projects: Vec<Repo> = Vec::new();
    let mut i: usize = 0;
    while i < local_projects.len()
        invariant
            i <= local_projects.len(),
            repo_views(projects@) =~= repo_views(local_projects@).take(i as int),
        decreases local_projects.len() - i,
    {
        let copy = local_projects[i].clone();
        proof {
            assert(repo_views(projects@.push(copy)) =~= repo_views(projects@).push(copy@));
        }
        projects.push(copy);
        i += 1;
    }
    let mut j: usize = 0;
    while j < git_projects.len()
        invariant
            j <= git_projects.len(),
            repo_views(projects@) =~= repo_views(local_projects@) + repo_views(
                git_projects@,
            ).take(j as int),
        decreases git_projects.len() - j,
    {
        let copy = git_projects[j].clone();
        proof {
            assert(repo_views(projects@.push(copy)) =~= repo_views(projects@).push(copy@));
        }
        projects.push(copy);
        j += 1;
    }
    assert(repo_views(projects@) =~= repo_views(local_projects@) + repo_views(git_projects@));
    resolve(project_name, &projects, indicator)
}

/// In a catalog without repeated names, the one project of a given name is
/// what a lookup by that name finds.
pub proof fn lemma_find_distinct(catalog: Seq<RepoView>, i: int)
    requires
        0 <= i < catalog.len(),
        distinct_names(catalog),
    ensures
        find_named(catalog, catalog[i].name) == Some(catalog[i]),
{
    lemma_find_named(catalog, catalog[i].name);
    assert(has_name(catalog, catalog[i].name));
}

/// Choosing the label of a local project gives back that project: for every
/// local project with a non-empty name in a catalog without repeated names.
pub proof fn law_resolve_local(catalog: Seq<RepoView>, indicator: Seq<char>, i: int)
    requires
        0 <= i < catalog.len(),
        distinct_names(catalog),
        catalog[i].local,
        catalog[i].name.len() > 0,
    ensures
        resolution(label(catalog[i], indicator), catalog, indicator) == Ok::<
            Option<RepoView>,
            ResolveError,
        >(Some(catalog[i])),
{
    lemma_find_distinct(catalog, i);
}

/// Choosing the label of a remote project, which is the indicator followed
/// by its name, gives back that project: for every remote project with a
/// non-empty name in a catalog without repeated names, unless another
/// project's bare name is that very label.
pub proof fn law_resolve_remote(catalog: Seq<RepoView>, indicator: Seq<char>, i: int)
    requires
        0 <= i < catalog.len(),
        distinct_names(catalog),
        !catalog[i].local,
        catalog[i].name.len() > 0,
        forall|k: int|
            0 <= k < catalog.len() && (#[trigger] catalog[k]).name == indicator + catalog[i].name
                ==> k == i,
    ensures
        resolution(label(catalog[i], indicator), catalog, indicator) == Ok::<
            Option<RepoView>,
            ResolveError,
        >(Some(catalog[i])),
{
    let raw = indicator + catalog[i].name;
    lemma_find_distinct(catalog, i);
    lemma_find_named(catalog, raw);
    assert(raw.skip(indicator.len() as int) =~= catalog[i].name);
}

} // verus!
