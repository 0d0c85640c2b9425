use workflows::commands::{
    borrow_project, chosen_project_dir, delete_project, get_project_dir, list_projects, new_project, open_project,
    open_specific_project, DeleteTarget,
};
use workflows::lifecycle::{Action, Settings, Stage};
use workflows::repo::Repo;
use workflows::text::{chars_of, contains, split_words, str_contains, string_of, trim_text};

fn local() -> Vec<Repo> {
    vec![Repo::new("alpha", true, Some("Projects/")), Repo::new("beta", true, Some("Work/"))]
}

fn dirs(names: &[&str]) -> Vec<String> {
    names.iter().map(|n| n.to_string()).collect()
}

#[test]
fn named_project_is_opened_after_trimming() {
    let found = open_specific_project("  beta\n", &local()).expect("a project");
    assert_eq!(found.name(), "beta");
    assert_eq!(found.project_dir(), Some("Work/".to_string()));
    assert!(open_specific_project("gamma", &local()).is_none());
    assert!(open_specific_project("al pha", &local()).is_none());
}

#[test]
fn deletion_target_is_named_or_selected() {
    match delete_project(Some("alpha"), &local()) {
        DeleteTarget::Project(repo) => assert_eq!(repo.name(), "alpha"),
        other => panic!("unexpected target {:?}", other),
    }
    assert!(matches!(delete_project(Some("gamma"), &local()), DeleteTarget::NotFound));
    assert!(matches!(delete_project(Some(" alpha"), &local()), DeleteTarget::NotFound));
    assert!(matches!(delete_project(None, &local()), DeleteTarget::Select));
}

#[test]
fn open_begins_by_provenance() {
    let ask = Settings { confirm_cloning: true, open_new_projects: true };
    let remote = Repo::new("gamma", false, None);
    assert_eq!(open_project(None, ask), (Stage::Done, Action::Nothing));
    assert_eq!(open_project(Some(&local()[0]), ask), (Stage::Starting, Action::StartSession));
    assert_eq!(open_project(Some(&remote), ask), (Stage::ConfirmingClone, Action::ConfirmClone));
}

#[test]
fn new_project_needs_a_name_and_a_directory() {
    assert_eq!(
        new_project(Some("demo"), Some("Projects/")),
        Some(("demo".to_string(), "Projects/".to_string()))
    );
    assert_eq!(new_project(None, Some("Projects/")), None);
    assert_eq!(new_project(Some("demo"), None), None);
}

#[test]
fn directories_are_filtered_without_regard_to_case() {
    let all = dirs(&["Projects/", ".config/", "Work/Projects/"]);
    assert_eq!(list_projects(&all, None), all);
    assert_eq!(list_projects(&all, Some("PROJ")), dirs(&["Projects/", "Work/Projects/"]));
    assert_eq!(list_projects(&all, Some("config")), dirs(&[".config/"]));
    assert!(list_projects(&all, Some("none")).is_empty());
    assert_eq!(list_projects(&all, Some("")), all);
}

#[test]
fn sole_directory_is_taken_without_asking() {
    assert_eq!(get_project_dir(&dirs(&["Projects/"])), Some("Projects/".to_string()));
    assert_eq!(get_project_dir(&dirs(&["Projects/", "Work/"])), None);
    assert_eq!(get_project_dir(&dirs(&[])), None);
}

#[test]
fn text_is_split_at_any_whitespace() {
    assert_eq!(split_words("  a\tbc \n d\u{a0}e  "), vec!["a", "bc", "d", "e"]);
    assert!(split_words("").is_empty());
    assert!(split_words(" \n\t").is_empty());
    assert_eq!(split_words("one"), vec!["one"]);
}

#[test]
fn text_is_trimmed_at_both_ends() {
    assert_eq!(trim_text("  a b \n"), "a b");
    assert_eq!(trim_text("a"), "a");
    assert_eq!(trim_text(" \t "), "");
    assert_eq!(trim_text(""), "");
}

#[test]
fn substring_search_finds_every_position() {
    assert!(str_contains("hello world", "hello"));
    assert!(str_contains("hello world", "o w"));
    assert!(str_contains("hello world", "world"));
    assert!(str_contains("hello world", ""));
    assert!(str_contains("", ""));
    assert!(!str_contains("hello world", "worlds"));
    assert!(!str_contains("", "a"));
    assert!(!str_contains("ab", "abc"));
    assert!(contains(&chars_of("aab"), &chars_of("ab")));
}

#[test]
fn characters_round_trip() {
    let chars = chars_of("h\u{e9}llo");
    assert_eq!(chars, vec!['h', '\u{e9}', 'l', 'l', 'o']);
    assert_eq!(string_of(&chars, 1, 4), "\u{e9}ll");
    assert_eq!(string_of(&chars, 2, 2), "");
}

#[test]
fn borrowing_needs_the_hosting_account() {
    assert_eq!(borrow_project(false, true), None);
    assert_eq!(borrow_project(false, false), None);
    assert_eq!(
        borrow_project(true, true),
        Some((Stage::ChoosingDestination, Action::ChooseDestination))
    );
    assert_eq!(borrow_project(true, false), Some((Stage::Done, Action::Nothing)));
}

#[test]
fn selected_directory_is_found_by_what_was_shown() {
    let all = dirs(&["Projects/", " Work/ ", "Work/"]);
    assert_eq!(chosen_project_dir(&all, "Projects/"), Some("Projects/".to_string()));
    assert_eq!(chosen_project_dir(&all, "Work/"), Some(" Work/ ".to_string()));
    assert_eq!(chosen_project_dir(&all, "Other/"), None);
    assert_eq!(chosen_project_dir(&all, ""), None);
}
