use workflows::clone::{git_clone, project_name_from_url};

#[test]
fn scenario_clone_url_gives_the_project_name() {
    assert_eq!(project_name_from_url("https://host/user/demo.git"), "demo");
}

#[test]
fn url_without_suffix_keeps_its_last_segment() {
    assert_eq!(project_name_from_url("https://host/user/demo"), "demo");
    assert_eq!(project_name_from_url("git@host:user/demo.git"), "demo");
    assert_eq!(project_name_from_url("demo.git"), "demo");
    assert_eq!(project_name_from_url("demo"), "demo");
}

#[test]
fn only_a_trailing_suffix_is_stripped() {
    assert_eq!(project_name_from_url("https://host/user/my.github.io"), "my.github.io");
    assert_eq!(project_name_from_url("https://host/user/a.git.git"), "a.git");
    assert_eq!(project_name_from_url("https://host/user/.git"), "");
    assert_eq!(project_name_from_url("https://host/user/git"), "git");
}

#[test]
fn trailing_slash_gives_an_empty_name() {
    assert_eq!(project_name_from_url("https://host/user/demo/"), "");
    assert_eq!(project_name_from_url(""), "");
}

#[test]
fn git_clone_gives_a_local_project() {
    let repo = git_clone(Some("https://host/user/demo.git"), Some("Projects/")).expect("a project");
    assert_eq!(repo.name(), "demo");
    assert!(repo.local());
    assert_eq!(repo.project_dir(), Some("Projects/".to_string()));
}

#[test]
fn git_clone_needs_a_url_and_a_clone() {
    assert!(git_clone(None, Some("Projects/")).is_none());
    assert!(git_clone(Some("https://host/user/demo.git"), None).is_none());
    assert!(git_clone(None, None).is_none());
}
