use workflows::catalog::{
    build, contains_name, entry_name, find_project, get_gh_repos, get_local_project,
    get_local_projects, parse_repo_list, DirListing,
};
use workflows::repo::Repo;

fn names(entries: &[&str]) -> Vec<String> {
    entries.iter().map(|e| e.to_string()).collect()
}

fn listing(dir: &str, entries: &[&str]) -> DirListing {
    DirListing { dir: dir.to_string(), entries: names(entries) }
}

fn summary(catalog: &[Repo]) -> Vec<(String, bool, Option<String>)> {
    catalog.iter().map(|r| (r.name(), r.local(), r.project_dir())).collect()
}

#[test]
fn scenario_local_and_remote_are_merged() {
    let local = vec![listing("Projects/", &["alpha", "beta"])];
    let remote = names(&["me/beta", "me/gamma"]);
    let catalog = build(&local, true, Some(&remote));
    assert_eq!(
        summary(&catalog),
        vec![
            ("alpha".to_string(), true, Some("Projects/".to_string())),
            ("beta".to_string(), true, Some("Projects/".to_string())),
            ("gamma".to_string(), false, None),
        ]
    );
}

#[test]
fn catalog_has_no_name_twice() {
    let local = vec![listing("Projects/", &["alpha", "beta"]), listing(".config/", &["nvim"])];
    let remote = names(&["me/nvim", "me/delta", "me/alpha", "me/gamma"]);
    let catalog = build(&local, true, Some(&remote));
    let mut seen: Vec<String> = catalog.iter().map(|r| r.name()).collect();
    seen.sort();
    seen.dedup();
    assert_eq!(seen.len(), catalog.len());
    for repo in catalog.iter() {
        if repo.name() == "nvim" || repo.name() == "alpha" {
            assert!(repo.local());
        }
    }
}

#[test]
fn local_projects_come_first_in_listing_order() {
    let local = vec![listing("b/", &["zeta", "alpha"]), listing("a/", &["mid"])];
    let remote = names(&["me/omega", "me/beta"]);
    let catalog = build(&local, true, Some(&remote));
    assert_eq!(
        summary(&catalog),
        vec![
            ("zeta".to_string(), true, Some("b/".to_string())),
            ("alpha".to_string(), true, Some("b/".to_string())),
            ("mid".to_string(), true, Some("a/".to_string())),
            ("omega".to_string(), false, None),
            ("beta".to_string(), false, None),
        ]
    );
}

#[test]
fn failed_remote_listing_leaves_the_local_catalog() {
    let local = vec![listing("Projects/", &["alpha", "beta"])];
    let catalog = build(&local, true, None);
    assert_eq!(summary(&catalog), summary(&get_local_projects(&local)));
    assert_eq!(catalog.len(), 2);
}

#[test]
fn disabled_remote_side_contributes_nothing() {
    let local = vec![listing("Projects/", &["alpha"])];
    let remote = names(&["me/gamma"]);
    let catalog = build(&local, false, Some(&remote));
    assert_eq!(summary(&catalog), vec![("alpha".to_string(), true, Some("Projects/".to_string()))]);
}

#[test]
fn empty_directories_contribute_nothing() {
    let local = vec![listing("Projects/", &[]), listing("Work/", &[])];
    assert!(build(&local, true, Some(&vec![])).is_empty());
    assert!(build(&vec![], false, None).is_empty());
}

#[test]
fn local_projects_of_one_directory() {
    let projects = get_local_project("Projects/", &names(&["alpha", "beta"]));
    assert_eq!(
        summary(&projects),
        vec![
            ("alpha".to_string(), true, Some("Projects/".to_string())),
            ("beta".to_string(), true, Some("Projects/".to_string())),
        ]
    );
}

#[test]
fn entry_name_is_the_segment_behind_the_first_slash() {
    assert_eq!(entry_name("me/gamma"), Some("gamma".to_string()));
    assert_eq!(entry_name("me/gamma/extra"), Some("gamma".to_string()));
    assert_eq!(entry_name("me/"), Some(String::new()));
    assert_eq!(entry_name("https://host"), Some(String::new()));
    assert_eq!(entry_name("/lead"), Some("lead".to_string()));
    assert_eq!(entry_name("public"), None);
    assert_eq!(entry_name(""), None);
}

#[test]
fn remote_projects_skip_what_is_no_repository() {
    let local = vec![Repo::new("beta", true, Some("Projects/"))];
    let listed = names(&["me/beta", "public", "me/", "2024-01-01T00:00:00Z", "me/gamma", "me/delta"]);
    let repos = get_gh_repos(&local, &listed);
    assert_eq!(
        summary(&repos),
        vec![("gamma".to_string(), false, None), ("delta".to_string(), false, None)]
    );
}

#[test]
fn repo_list_is_split_at_whitespace() {
    let stdout = "me/alpha\tfirst project\tpublic\t2024-01-01T00:00:00Z\nme/beta\t\tprivate\t2023-05-05T10:00:00Z\n";
    let entries = parse_repo_list(stdout, "").expect("a listing");
    assert_eq!(
        entries,
        vec![
            "me/alpha",
            "first",
            "project",
            "public",
            "2024-01-01T00:00:00Z",
            "me/beta",
            "private",
            "2023-05-05T10:00:00Z"
        ]
    );
    let repos = get_gh_repos(&vec![], &entries);
    assert_eq!(
        summary(&repos),
        vec![("alpha".to_string(), false, None), ("beta".to_string(), false, None)]
    );
}

#[test]
fn connection_error_gives_no_listing() {
    assert_eq!(parse_repo_list("me/alpha", "error connecting to api.github.com"), None);
    assert_eq!(parse_repo_list("", "warning: something else"), Some(vec![]));
    assert_eq!(parse_repo_list("  \n\t ", ""), Some(vec![]));
}

#[test]
fn find_project_gives_the_first_of_a_name() {
    let catalog = vec![
        Repo::new("alpha", true, Some("one/")),
        Repo::new("beta", true, Some("one/")),
        Repo::new("alpha", true, Some("two/")),
    ];
    let found = find_project(&catalog, "alpha").expect("a project");
    assert_eq!(found.project_dir(), Some("one/".to_string()));
    assert!(find_project(&catalog, "Alpha").is_none());
    assert!(find_project(&catalog, "").is_none());
    assert!(contains_name(&catalog, "beta"));
    assert!(!contains_name(&catalog, "gamma"));
}
