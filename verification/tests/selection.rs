use workflows::repo::Repo;
use workflows::selection::{resolve, run_fzf, selector_items, ResolveError};

fn catalog() -> Vec<Repo> {
    vec![
        Repo::new("alpha", true, Some("Projects/")),
        Repo::new("beta", true, Some("Projects/")),
        Repo::new("gamma", false, None),
    ]
}

#[test]
fn scenario_decorated_label_resolves_to_the_remote_project() {
    let found = resolve(" gamma", &catalog(), " ").expect("a resolution").expect("a project");
    assert_eq!(found.name(), "gamma");
    assert!(!found.local());
    assert_eq!(found.project_dir(), None);
}

#[test]
fn default_indicator_is_stripped_by_characters() {
    let found = resolve("\u{ea84} gamma", &catalog(), "\u{ea84} ")
        .expect("a resolution")
        .expect("a project");
    assert_eq!(found.name(), "gamma");
}

#[test]
fn every_label_resolves_to_its_project() {
    let catalog = catalog();
    let labels = selector_items(&catalog, "git: ");
    assert_eq!(labels, vec!["alpha", "beta", "git: gamma"]);
    for (label, repo) in labels.iter().zip(catalog.iter()) {
        let found = resolve(label, &catalog, "git: ").expect("a resolution").expect("a project");
        assert_eq!(found.name(), repo.name());
        assert_eq!(found.local(), repo.local());
        assert_eq!(found.project_dir(), repo.project_dir());
    }
}

#[test]
fn empty_text_means_nothing_was_chosen() {
    assert_eq!(resolve("", &catalog(), " "), Ok(None));
    assert_eq!(resolve("", &catalog(), ""), Ok(None));
    assert_eq!(resolve("", &vec![], "git: "), Ok(None));
}

#[test]
fn unknown_text_is_an_error() {
    assert_eq!(resolve("delta", &catalog(), " "), Err(ResolveError::NotInCatalog));
    assert_eq!(resolve(" delta", &catalog(), " "), Err(ResolveError::NotInCatalog));
    assert_eq!(resolve("x", &vec![], " "), Err(ResolveError::NotInCatalog));
}

#[test]
fn indicator_longer_than_the_text_is_an_error() {
    assert_eq!(resolve("ga", &catalog(), "git: "), Err(ResolveError::NotInCatalog));
}

#[test]
fn bare_name_of_a_remote_project_resolves_too() {
    let found = resolve("gamma", &catalog(), "git: ").expect("a resolution").expect("a project");
    assert_eq!(found.name(), "gamma");
    assert!(!found.local());
}

#[test]
fn exact_name_wins_over_the_stripped_one() {
    let catalog = vec![Repo::new("xa", true, Some("Projects/")), Repo::new("a", false, None)];
    let found = resolve("xa", &catalog, "x").expect("a resolution").expect("a project");
    assert_eq!(found.name(), "xa");
    assert!(found.local());
}

#[test]
fn run_fzf_resolves_against_local_then_remote() {
    let local = vec![Repo::new("alpha", true, Some("Projects/"))];
    let remote = vec![Repo::new("gamma", false, None)];
    let found = run_fzf("? gamma", &local, &remote, "? ").expect("a resolution").expect("a project");
    assert_eq!(found.name(), "gamma");
    let found = run_fzf("alpha", &local, &remote, "? ").expect("a resolution").expect("a project");
    assert!(found.local());
    assert_eq!(run_fzf("", &local, &remote, "? "), Ok(None));
    assert_eq!(run_fzf("beta", &local, &remote, "? "), Err(ResolveError::NotInCatalog));
}
