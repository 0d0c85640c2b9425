use workflows::config::tmuxinator::{TmuxinatorConfig, DEFAULT_START_COMMAND};
use workflows::repo::Repo;
use workflows::session::{
    create_tmuxinator_config, config_contents, config_contents_under, config_filename, delete_tmuxinator,
    get_active_tmux_session, get_config_contents, run_tmux, run_tmuxinator,
    tmuxinator_config_dir, tmuxinator_config_dir_under, tmuxinator_project_exist,
};

fn windows(names: &[&str], commands: &[&str]) -> TmuxinatorConfig {
    TmuxinatorConfig {
        enabled: None,
        fresh_config: None,
        window_names: Some(names.iter().map(|n| n.to_string()).collect()),
        start_commands: Some(commands.iter().map(|c| c.to_string()).collect()),
    }
}

fn files(names: &[&str]) -> Vec<String> {
    names.iter().map(|n| n.to_string()).collect()
}

#[test]
fn tmuxinator_config_works_with_multiple_windows() {
    let config = windows(&["editor", "files"], &["nvim .", "yazi"]);

    let project = Repo::new("test-repo", true, Some("Projects/test-repo"));

    let generated_config = get_config_contents(&project, config).expect("a home directory");

    assert_eq!(
        generated_config,
        format!(
            "\
# {}

name: {}
root: {}

windows:
 - editor: nvim .
 - files: yazi",
            tmuxinator_config_dir().expect("Failed to cast pathbuf to string"),
            project.name(),
            project.get_project_root().expect("Failed to cast pathbuf to string"),
        )
    );
}

#[test]
fn tmuxinator_config_works_with_not_enough_start_commands() {
    let config = windows(&["editor", "files"], &["nvim ."]);

    let project = Repo::new("test-repo", true, Some("Projects/test-repo"));

    let generated_config = get_config_contents(&project, config).expect("a home directory");

    assert_eq!(
        generated_config,
        format!(
            "\
# {}

name: {}
root: {}

windows:
 - editor: nvim .
 - files: {}",
            tmuxinator_config_dir().expect("Failed to cast pathbuf to string"),
            project.name(),
            project.get_project_root().expect("Failed to cast pathbuf to string"),
            DEFAULT_START_COMMAND
        )
    );
}

#[test]
fn config_contents_are_exact() {
    let project = Repo::new("demo", true, Some("Projects/"));
    let config = windows(&["editor", "files", "shell"], &["nvim .", "yazi"]);
    let text = config_contents(&project, &config, "/home/me/.config/tmuxinator", "/home/me/Projects/demo/");
    assert_eq!(
        text,
        "# /home/me/.config/tmuxinator\n\nname: demo\nroot: /home/me/Projects/demo/\n\nwindows:\n - editor: nvim .\n - files: yazi\n - shell: nvim ."
    );
}

#[test]
fn default_config_has_one_editor_window() {
    let project = Repo::new("demo", true, Some("Projects/"));
    let text = config_contents_under(&project, &TmuxinatorConfig::default(), "/home/me");
    assert_eq!(
        text,
        Some(
            "# /home/me/.config/tmuxinator\n\nname: demo\nroot: /home/me/Projects/demo/\n\nwindows:\n - editor: nvim ."
                .to_string()
        )
    );
}

#[test]
fn config_without_windows_has_the_head_only() {
    let project = Repo::new("demo", true, Some("Projects/"));
    let text = config_contents(&project, &windows(&[], &["nvim ."]), "/c", "/r/");
    assert_eq!(text, "# /c\n\nname: demo\nroot: /r/\n\nwindows:");
}

#[test]
fn remote_project_has_no_config_contents() {
    let project = Repo::new("gamma", false, None);
    assert_eq!(config_contents_under(&project, &TmuxinatorConfig::default(), "/home/me"), None);
    assert_eq!(get_config_contents(&project, TmuxinatorConfig::default()), None);
}

#[test]
fn config_dir_lies_under_home() {
    assert_eq!(tmuxinator_config_dir_under("/home/me"), "/home/me/.config/tmuxinator");
    assert_eq!(tmuxinator_config_dir_under("/home/me/"), "/home/me/.config/tmuxinator");
}

#[test]
fn config_file_is_named_after_the_project() {
    assert_eq!(config_filename(&Repo::new("demo", true, None)), "demo.yml");
}

#[test]
fn config_exists_when_its_file_is_listed() {
    let project = Repo::new("demo", true, Some("Projects/"));
    assert!(tmuxinator_project_exist(&project, &files(&["other.yml", "demo.yml"])));
    assert!(!tmuxinator_project_exist(&project, &files(&["other.yml", "demo.yaml", "demo"])));
    assert!(!tmuxinator_project_exist(&project, &files(&[])));
}

#[test]
fn deleting_an_absent_config_removes_nothing() {
    let project = Repo::new("demo", true, Some("Projects/"));
    let mut listed = files(&["other.yml", "demo.yml"]);
    let first = delete_tmuxinator(&project, &listed);
    assert_eq!(first, Some("demo.yml".to_string()));
    listed.retain(|f| Some(f) != first.as_ref());
    assert_eq!(delete_tmuxinator(&project, &listed), None);
    assert_eq!(delete_tmuxinator(&project, &listed), None);
    assert_eq!(listed, files(&["other.yml"]));
}

#[test]
fn session_start_writes_a_missing_or_fresh_config() {
    let project = Repo::new("demo", true, Some("Projects/"));
    let keep = TmuxinatorConfig::default();
    let fresh = TmuxinatorConfig { fresh_config: Some(true), ..TmuxinatorConfig::default() };
    let missing = run_tmuxinator(&project, &keep, &files(&[]));
    assert!(missing.write_config);
    assert_eq!(missing.command, "tmuxinator start demo");
    assert!(!run_tmuxinator(&project, &keep, &files(&["demo.yml"])).write_config);
    assert!(run_tmuxinator(&project, &fresh, &files(&["demo.yml"])).write_config);
}

#[test]
fn plain_session_is_attached_or_created() {
    let project = Repo::new("demo", true, Some("Projects/"));
    assert_eq!(
        run_tmux(&project, &files(&["other", "demo"]), "/home/me/Projects/demo/"),
        "tmux a -t demo"
    );
    assert_eq!(
        run_tmux(&project, &files(&["other"]), "/home/me/Projects/demo/"),
        "tmux new -s demo -c /home/me/Projects/demo/"
    );
}

#[test]
fn session_names_stand_before_the_first_colon() {
    let listing = "demo: 2 windows (created Mon Jan  1 10:00:00 2024)\nother: 1 windows (attached)\n";
    assert_eq!(get_active_tmux_session(listing), vec!["demo", "other"]);
    assert_eq!(get_active_tmux_session("a: x\r\n\r\n\nb"), vec!["a", "b"]);
    assert_eq!(get_active_tmux_session(":x\n"), vec![""]);
    assert!(get_active_tmux_session("").is_empty());
    assert!(get_active_tmux_session("\n\n").is_empty());
}

#[test]
fn config_file_is_written_trimmed_into_the_config_dir() {
    let project = Repo::new("demo", true, Some("Projects/"));
    let file = create_tmuxinator_config(&project, &windows(&["editor"], &["nvim . "]), "/home/me")
        .expect("a file");
    assert_eq!(file.path, "/home/me/.config/tmuxinator/demo.yml");
    assert_eq!(
        file.contents,
        "# /home/me/.config/tmuxinator\n\nname: demo\nroot: /home/me/Projects/demo/\n\nwindows:\n - editor: nvim ."
    );
    let remote = Repo::new("gamma", false, None);
    assert!(create_tmuxinator_config(&remote, &TmuxinatorConfig::default(), "/home/me").is_none());
}
