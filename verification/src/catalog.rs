//! The catalog: local projects first, then the remote projects that are not
//! local already.

use crate::repo::{repo_views, Repo, RepoView};
use crate::text::{
    chars_of, contains, find_from, has_substring, run_before, same_text, split_words, string_of,
    views, words,
};
use vstd::prelude::*;

verus! {

/// One configured project directory with the names of its immediate
/// subdirectories, in listing order.
pub struct DirListing {
    /// The directory, relative to the home directory.
    pub dir: String,
    /// The names of the subdirectories found in it.
    pub entries: Vec<String>,
}

/// What a [`DirListing`] holds, as plain mathematical values.
pub struct DirListingView {
    pub dir: Seq<char>,
    pub entries: Seq<Seq<char>>,
}

impl View for DirListing {
    type V = DirListingView;

    open spec fn view(&self) -> DirListingView {
        DirListingView { dir: self.dir@, entries: views(self.entries@) }
    }
}

/// The views of a sequence of directory listings.
pub open spec fn listing_views(listings: Seq<DirListing>) -> Seq<DirListingView> {
    listings.map_values(|l: DirListing| l@)
}

/// The local project called `name` inside the directory `dir`.
pub open spec fn local_entry(dir: Seq<char>, name: Seq<char>) -> RepoView {
    RepoView { name, local: true, project_dir: Some(dir) }
}

/// The remote project called `name`, not materialised.
pub open spec fn remote_entry(name: Seq<char>) -> RepoView {
    RepoView { name, local: false, project_dir: None }
}

/// The local projects of one directory, in listing order.
pub open spec fn dir_projects(dir: Seq<char>, entries: Seq<Seq<char>>) -> Seq<RepoView> {
    entries.map_values(|name: Seq<char>| local_entry(dir, name))
}

/// The local projects of all directories: directory by directory in the
/// configured order, each in its listing order.
pub open spec fn local_catalog(listings: Seq<DirListingView>) -> Seq<RepoView>
    decreases listings.len(),
{
    if listings.len() == 0 {
        Seq::empty()
    } else {
        local_catalog(listings.drop_last()) + dir_projects(
            listings.last().dir,
            listings.last().entries,
        )
    }
}

/// The first project of `catalog` called `name`, if there is one.
pub open spec fn find_named(catalog: Seq<RepoView>, name: Seq<char>) -> Option<RepoView>
    decreases catalog.len(),
{
    if catalog.len() == 0 {
        None
    } else if catalog[0].name == name {
        Some(catalog[0])
    } else {
        find_named(catalog.drop_first(), name)
    }
}

/// Whether some project of `catalog` is called `name`.
pub open spec fn has_name(catalog: Seq<RepoView>, name: Seq<char>) -> bool {
    exists|i: int| 0 <= i < catalog.len() && catalog[i].name == name
}

/// Whether no two projects of `catalog` share a name.
pub open spec fn distinct_names(catalog: Seq<RepoView>) -> bool {
    forall|i: int, j: int| 0 <= i < j < catalog.len() ==> catalog[i].name != catalog[j].name
}

/// The project name in an `owner/name` entry: what stands between the first
/// `/` and the next one (or the end). Empty if the entry holds no `/`.
pub open spec fn repo_name(entry: Seq<char>) -> Seq<char> {
    let owner_len = run_before(entry, '/');
    if owner_len < entry.len() {
        let rest = entry.skip(owner_len + 1 as int);
        rest.take(run_before(rest, '/') as int)
    } else {
        Seq::empty()
    }
}

/// Whether a listed entry contributes a remote project: it has the form
/// `owner/name` with a name that is not empty and not a local project's.
pub open spec fn kept(local: Seq<RepoView>, entry: Seq<char>) -> bool {
    &&& run_before(entry, '/') < entry.len()
    &&& repo_name(entry).len() > 0
    &&& !has_name(local, repo_name(entry))
}

/// The remote projects that a host listing contributes beside the local
/// projects `local`, in listing order.
pub open spec fn remote_catalog(local: Seq<RepoView>, listing: Seq<Seq<char>>) -> Seq<RepoView>
    decreases listing.len(),
{
    if listing.len() == 0 {
        Seq::empty()
    } else {
        let before = remote_catalog(local, listing.drop_last());
        if kept(local, listing.last()) {
            before.push(remote_entry(repo_name(listing.last())))
        } else {
            before
        }
    }
}

/// The whole catalog: the local projects, then the remote contribution. The
/// remote contribution is empty when the remote side is disabled or when the
/// host gave no listing.
pub open spec fn catalog_of(
    listings: Seq<DirListingView>,
    remote_enabled: bool,
    remote: Option<Seq<Seq<char>>>,
) -> Seq<RepoView> {
    let local = local_catalog(listings);
    match remote {
        Some(listing) if remote_enabled => local + remote_catalog(local, listing),
        _ => local,
    }
}

/// The entries of a host listing, read from what the listing command wrote:
/// nothing if it reported a connection error, otherwise the whitespace
/// separated words of its output.
pub open spec fn listed_entries(stdout: Seq<char>, stderr: Seq<char>) -> Option<Seq<Seq<char>>> {
    if has_substring(stderr, "error connecting"@) {
        None
    } else {
        Some(words(stdout))
    }
}

/// `find_named` finds a project exactly when one has the name; what it finds
/// has the name and stands in the catalog before any other of that name.
pub proof fn lemma_find_named(catalog: Seq<RepoView>, name: Seq<char>)
    ensures
        find_named(catalog, name) is Some <==> has_name(catalog, name),
        find_named(catalog, name) matches Some(r) ==> r.name == name && exists|i: int|
            0 <= i < catalog.len() && catalog[i] == r && forall|j: int|
                0 <= j < i ==> catalog[j].name != name,
    decreases catalog.len(),
{
    if catalog.len() == 0 {
    } else if catalog[0].name == name {
        assert(catalog[0] == find_named(catalog, name)->0);
    } else {
        let rest = catalog.drop_first();
        lemma_find_named(rest, name);
        if has_name(catalog, name) {
            let i = choose|i: int| 0 <= i < catalog.len() && catalog[i].name == name;
            assert(rest[i - 1].name == name);
        }
        if find_named(rest, name) is Some {
            let r = find_named(rest, name)->0;
            let i = choose|i: int|
                0 <= i < rest.len() && rest[i] == r && forall|j: int|
                    0 <= j < i ==> rest[j].name != name;
            assert(catalog[i + 1] == r);
            assert forall|j: int| 0 <= j < i + 1 implies catalog[j].name != name by {
                if j > 0 {
                    assert(catalog[j] == rest[j - 1]);
                }
            }
        }
    }
}

/// Looks a project up by its name: the first one in `catalog` called `name`.
pub fn find_project(catalog: &Vec<Repo>, name: &str) -> (found: Option<Repo>)
    ensures
        found is Some == find_named(repo_views(catalog@), name@) is Some,
        found is Some ==> found->0@ == find_named(repo_views(catalog@), name@)->0,
{
    let ghost all = repo_views(catalog@);
    let mut i: usize = 0;
    assert(all.skip(0) =~= all);
    while i < catalog.len()
        invariant
            i <= catalog.len(),
            all == repo_views(catalog@),
            find_named(all, name@) == find_named(all.skip(i as int), name@),
        decreases catalog.len() - i,
    {
        let candidate = catalog[i].name();
        proof {
            assert(all.skip(i as int)[0] == catalog@[i as int]@);
            assert(all.skip(i as int).drop_first() =~= all.skip(i + 1));
        }
        if same_text(candidate.as_str(), name) {
            return Some(catalog[i].clone());
        }
        i += 1;
    }
    None
}

/// Whether some project of `catalog` is called `name`.
pub fn contains_name(catalog: &Vec<Repo>, name: &str) -> (present: bool)
    ensures
        present == has_name(repo_views(catalog@), name@),
{
    proof {
        lemma_find_named(repo_views(catalog@), name@);
    }
    find_project(catalog, name).is_some()
}

/// The local projects of one directory: one per listed subdirectory, each
/// rooted in that directory.
pub fn get_local_project(project_dir: &str, entries: &Vec<String>) -> (projects: Vec<Repo>)
    ensures
        repo_views(projects@) == dir_projects(project_dir@, views(entries@)),
{
    let mut projects: Vec<Repo> = Vec::new();
    let mut i: usize = 0;
    while i < entries.len()
        invariant
            i <= entries.len(),
            repo_views(projects@) =~= dir_projects(project_dir@, views(entries@)).take(i as int),
        decreases entries.len() - i,
    {
        let project = Repo::new(entries[i].as_str(), true, Some(project_dir));
        proof {
            assert(repo_views(projects@.push(project)) =~= repo_views(projects@).push(project@));
        }
        projects.push(project);
        i += 1;
    }
    projects
}

/// The local projects of all configured directories, directory by directory
/// in the configured order.
pub fn get_local_projects(listings: &Vec<DirListing>) -> (projects: Vec<Repo>)
    ensures
        repo_views(projects@) == local_catalog(listing_views(listings@)),
{
    let mut projects: Vec<Repo> = Vec::new();
    let mut i: usize = 0;
    let ghost all = listing_views(listings@);
    while i < listings.len()
        invariant
            i <= listings.len(),
            all == listing_views(listings@),
            repo_views(projects@) =~= local_catalog(all.take(i as int)),
        decreases listings.len() - i,
    {
        let mut found = get_local_project(listings[i].dir.as_str(), &listings[i].entries);
        proof {
            assert(all.take(i + 1).drop_last() =~= all.take(i as int));
            assert(all.take(i + 1).last() == listings@[i as int]@);
            assert(repo_views(projects@ + found@) =~= repo_views(projects@) + repo_views(found@));
        }
        projects.append(&mut found);
        i += 1;
    }
    assert(all.take(i as int) =~= all);
    projects
}

/// The project name in an `owner/name` entry, or `None` if the entry holds
/// no `/`.
pub fn entry_name(entry: &str) -> (name: Option<String>)
    ensures
        name is Some == (run_before(entry@, '/') < entry@.len()),
        name is Some ==> name->0@ == repo_name(entry@),
{
    let chars = chars_of(entry);
    assert(chars@.skip(0) =~= chars@);
    let slash = find_from(&chars, 0, '/');
    if slash >= chars.len() {
        return None;
    }
    let start = slash + 1;
    let end = find_from(&chars, start, '/');
    let name = string_of(&chars, start, end);
    proof {
        let rest = entry@.skip(start as int);
        assert(rest.take(run_before(rest, '/') as int) =~= chars@.subrange(
            start as int,
            end as int,
        ));
    }
    Some(name)
}

/// The remote projects that a host listing contributes: one per entry of
/// the form `owner/name` whose name is not empty and not among
/// `local_projects`, in listing order.
pub fn get_gh_repos(local_projects: &Vec<Repo>, listing: &Vec<String>) -> (repos: Vec<Repo>)
    ensures
        repo_views(repos@) == remote_catalog(repo_views(local_projects@), views(listing@)),
{
    let mut repos: Vec<Repo> = Vec::new();
    let mut i: usize = 0;
    let ghost local = repo_views(local_projects@);
    let ghost all = views(listing@);
    while i < listing.len()
        invariant
            i <= listing.len(),
            local == repo_views(local_projects@),
            all == views(listing@),
            repo_views(repos@) =~= remote_catalog(local, all.take(i as int)),
        decreases listing.len() - i,
    {
        proof {
            assert(all.take(i + 1).drop_last() =~= all.take(i as int));
            assert(all.take(i + 1).last() == listing@[i as int]@);
        }
        match entry_name(listing[i].as_str()) {
            Some(name) => {
                let named = name.as_str().unicode_len() > 0;
                if named && !contains_name(local_projects, name.as_str()) {
                    let repo = Repo::new(name.as_str(), false, None);
                    proof {
                        assert(repo_views(repos@.push(repo)) =~= repo_views(repos@).push(repo@));
                    }
                    repos.push(repo);
                }
            },
            None => {},
        }
        i += 1;
    }
    assert(all.take(i as int) =~= all);
    repos
}

/// Reads the entries of a host listing from what the listing command wrote
/// on its two output streams. A reported connection error gives `None`.
pub fn parse_repo_list(stdout: &str, stderr: &str) -> (entries: Option<Vec<String>>)
    ensures
        entries is Some == listed_entries(stdout@, stderr@) is Some,
        entries is Some ==> views(entries->0@) == listed_entries(stdout@, stderr@)->0,
{
    let err = chars_of(stderr);
    let marker = chars_of("error connecting");
    if contains(&err, &marker) {
        None
    } else {
        Some(split_words(stdout))
    }
}

/// Builds the catalog: every local project, then every remote project of
/// the listing that is not local already. A disabled remote side or a failed
/// listing (`None`) contributes nothing and is no error.
pub fn build(
    listings: &Vec<DirListing>,
    remote_enabled: bool,
    remote: Option<&Vec<String>>,
) -> (catalog: Vec<Repo>)
    ensures
        repo_views(catalog@) == catalog_of(
            listing_views(listings@),
            remote_enabled,
            match remote {
                Some(listing) => Some(views(listing@)),
                None => None,
            },
        ),
        remote is None || !remote_enabled ==> repo_views(catalog@) == local_catalog(
            listing_views(listings@),
        ),
{
    let mut catalog = get_local_projects(listings);
    match remote {
        Some(listing) => {
            if remote_enabled {
                let mut remote_projects = get_gh_repos(&catalog, listing);
                proof {
                    assert(repo_views(catalog@ + remote_projects@) =~= repo_views(catalog@)
                        + repo_views(remote_projects@));
                }
                catalog.append(&mut remote_projects);
            }
        },
        None => {},
    }
    catalog
}

/// The position in `listing` of the entry that contributed the remote
/// project number `k` of `remote_catalog(local, listing)`.
pub open spec fn source_of(local: Seq<RepoView>, listing: Seq<Seq<char>>, k: int) -> int
    decreases listing.len(),
{
    if listing.len() == 0 {
        0
    } else {
        let before = remote_catalog(local, listing.drop_last());
        if kept(local, listing.last()) && k >= before.len() {
            listing.len() - 1
        } else {
            source_of(local, listing.drop_last(), k)
        }
    }
}

/// Every remote project of the catalog comes from a kept entry of the
/// listing, and later projects come from later entries.
pub proof fn lemma_remote_sources(local: Seq<RepoView>, listing: Seq<Seq<char>>)
    ensures
        remote_catalog(local, listing).len() <= listing.len(),
        forall|k: int|
            0 <= k < remote_catalog(local, listing).len() ==> {
                let p = #[trigger] source_of(local, listing, k);
                &&& 0 <= p < listing.len()
                &&& kept(local, listing[p])
                &&& remote_catalog(local, listing)[k] == remote_entry(repo_name(listing[p]))
            },
        forall|k1: int, k2: int|
            0 <= k1 < k2 < remote_catalog(local, listing).len() ==> #[trigger] source_of(
                local,
                listing,
                k1,
            ) < #[trigger] source_of(local, listing, k2),
    decreases listing.len(),
{
    if listing.len() > 0 {
        let shorter = listing.drop_last();
        lemma_remote_sources(local, shorter);
        let before = remote_catalog(local, shorter);
        let all = remote_catalog(local, listing);
        assert forall|k: int| 0 <= k < all.len() implies {
            let p = #[trigger] source_of(local, listing, k);
            &&& 0 <= p < listing.len()
            &&& kept(local, listing[p])
            &&& all[k] == remote_entry(repo_name(listing[p]))
        } by {
            if k < before.len() {
                let p = source_of(local, shorter, k);
                assert(listing[p] == shorter[p]);
            }
        }
        assert forall|k1: int, k2: int| 0 <= k1 < k2 < all.len() implies #[trigger] source_of(
            local,
            listing,
            k1,
        ) < #[trigger] source_of(local, listing, k2) by {
            assert(k1 < before.len());
            let earlier = source_of(local, shorter, k1);
            assert(0 <= earlier < shorter.len());
            assert(source_of(local, listing, k1) == earlier);
            if k2 < before.len() {
                let later = source_of(local, shorter, k2);
                assert(earlier < later);
                assert(source_of(local, listing, k2) == later);
            } else {
                assert(source_of(local, listing, k2) == listing.len() - 1);
            }
        }
    }
}

/// Every project of the local catalog is local.
pub proof fn lemma_local_catalog_is_local(listings: Seq<DirListingView>)
    ensures
        forall|i: int|
            0 <= i < local_catalog(listings).len() ==> (#[trigger] local_catalog(
                listings,
            )[i]).local,
    decreases listings.len(),
{
    if listings.len() > 0 {
        lemma_local_catalog_is_local(listings.drop_last());
    }
}

/// In a catalog, the local projects come first, in the order in which the
/// directories list them, and the remote projects follow, in the order of the
/// host listing: of two remote projects, the earlier one comes from an
/// earlier entry of the listing.
pub proof fn law_catalog_order(
    listings: Seq<DirListingView>,
    remote_enabled: bool,
    remote: Option<Seq<Seq<char>>>,
)
    ensures
        ({
            let catalog = catalog_of(listings, remote_enabled, remote);
            let local = local_catalog(listings);
            &&& local.len() <= catalog.len()
            &&& catalog.take(local.len() as int) == local
            &&& forall|i: int| 0 <= i < local.len() ==> (#[trigger] catalog[i]).local
            &&& forall|i: int| local.len() <= i < catalog.len() ==> !(#[trigger] catalog[i]).local
            &&& forall|i: int, j: int|
                0 <= i < j < catalog.len() && (#[trigger] catalog[j]).local ==> (
                #[trigger] catalog[i]).local
            &&& forall|i: int, j: int|
                local.len() <= i < j < catalog.len() ==> exists|p: int, q: int|
                    0 <= p < q < remote->0.len() && (#[trigger] catalog[i]).name == repo_name(
                        remote->0[p],
                    ) && (#[trigger] catalog[j]).name == repo_name(remote->0[q])
        }),
{
    let catalog = catalog_of(listings, remote_enabled, remote);
    let local = local_catalog(listings);
    lemma_local_catalog_is_local(listings);
    if remote is Some && remote_enabled {
        let listing = remote->0;
        let added = remote_catalog(local, listing);
        lemma_remote_sources(local, listing);
        assert(catalog.take(local.len() as int) =~= local);
        assert forall|i: int| local.len() <= i < catalog.len() implies !(
        #[trigger] catalog[i]).local by {
            let p = source_of(local, listing, i - local.len());
            assert(catalog[i] == added[i - local.len()]);
        }
        assert forall|i: int, j: int| local.len() <= i < j < catalog.len() implies exists|
            p: int,
            q: int,
        |
            0 <= p < q < listing.len() && (#[trigger] catalog[i]).name == repo_name(listing[p])
                && (#[trigger] catalog[j]).name == repo_name(listing[q]) by {
            let p = source_of(local, listing, i - local.len());
            let q = source_of(local, listing, j - local.len());
            assert(catalog[i] == added[i - local.len()]);
            assert(catalog[j] == added[j - local.len()]);
            assert(0 <= p < q < listing.len() && catalog[i].name == repo_name(listing[p])
                && catalog[j].name == repo_name(listing[q]));
        }
    } else {
        assert(catalog.take(local.len() as int) =~= local);
    }
}

/// A catalog never holds two projects of one name; every local name is in
/// it, and the project of that name is the local one, whatever the host
/// lists: provided that the local directories list no name twice and that no
/// two `owner/name` entries of the host listing give the same name.
pub proof fn law_catalog_dedup(
    listings: Seq<DirListingView>,
    remote_enabled: bool,
    remote: Option<Seq<Seq<char>>>,
)
    requires
        distinct_names(local_catalog(listings)),
        remote matches Some(listing) ==> forall|p: int, q: int|
            0 <= p < q < listing.len() && run_before(listing[p], '/') < listing[p].len()
                && run_before(listing[q], '/') < listing[q].len() ==> repo_name(
                #[trigger] listing[p],
            ) != repo_name(#[trigger] listing[q]),
    ensures
        distinct_names(catalog_of(listings, remote_enabled, remote)),
        forall|i: int|
            0 <= i < catalog_of(listings, remote_enabled, remote).len() && has_name(
                local_catalog(listings),
                (#[trigger] catalog_of(listings, remote_enabled, remote)[i]).name,
            ) ==> catalog_of(listings, remote_enabled, remote)[i].local,
        forall|name: Seq<char>| #[trigger]
            has_name(local_catalog(listings), name) ==> has_name(
                catalog_of(listings, remote_enabled, remote),
                name,
            ),
{
    let catalog = catalog_of(listings, remote_enabled, remote);
    let local = local_catalog(listings);
    lemma_local_catalog_is_local(listings);
    assert forall|name: Seq<char>| #[trigger] has_name(local, name) implies has_name(
        catalog,
        name,
    ) by {
        let i = choose|i: int| 0 <= i < local.len() && local[i].name == name;
        assert(catalog[i] == local[i]);
    }
    if remote is Some && remote_enabled {
        let listing = remote->0;
        let added = remote_catalog(local, listing);
        lemma_remote_sources(local, listing);
        assert forall|i: int| local.len() <= i < catalog.len() implies !has_name(
            local,
            (#[trigger] catalog[i]).name,
        ) && !catalog[i].local by {
            let p = source_of(local, listing, i - local.len());
            assert(catalog[i] == added[i - local.len()]);
        }
        assert forall|i: int, j: int| 0 <= i < j < catalog.len() implies catalog[i].name
            != catalog[j].name by {
            if j < local.len() {
                assert(catalog[i] == local[i] && catalog[j] == local[j]);
            } else if i < local.len() {
                assert(catalog[i] == local[i]);
                assert(!has_name(local, catalog[j].name));
            } else {
                let p = source_of(local, listing, i - local.len());
                let q = source_of(local, listing, j - local.len());
                assert(catalog[i] == added[i - local.len()]);
                assert(catalog[j] == added[j - local.len()]);
                assert(p < q);
            }
        }
    }
}

} // verus!
