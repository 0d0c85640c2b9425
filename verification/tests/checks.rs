use workflows::checks::{check, repo_clean_tree, repo_pushed, DeleteCheckResult, PushedResult};

#[test]
fn push_status_has_three_outcomes() {
    assert_eq!(repo_pushed("Everything up-to-date\n"), PushedResult::Status(true));
    assert_eq!(
        repo_pushed("To host:me/demo.git\n   abc..def  main -> main\n"),
        PushedResult::Status(false)
    );
    assert_eq!(
        repo_pushed("fatal: Could not read from remote repository.\n"),
        PushedResult::NoConnection
    );
    assert_eq!(repo_pushed(""), PushedResult::Status(false));
}

#[test]
fn no_connection_wins_over_up_to_date() {
    assert_eq!(
        repo_pushed("up-to-date fatal: Could not read from remote repo"),
        PushedResult::NoConnection
    );
}

#[test]
fn clean_tree_is_read_from_the_status() {
    assert!(repo_clean_tree("On branch main\nnothing to commit, working tree clean\n"));
    assert!(!repo_clean_tree("On branch main\nChanges not staged for commit:\n"));
    assert!(!repo_clean_tree(""));
}

#[test]
fn switched_off_checks_give_no_result() {
    let clean = "nothing to commit, working tree clean";
    assert_eq!(
        check(true, true, "Everything up-to-date", clean),
        DeleteCheckResult { push_status: Some(PushedResult::Status(true)), tree_status: Some(true) }
    );
    assert_eq!(
        check(false, true, "Everything up-to-date", ""),
        DeleteCheckResult { push_status: None, tree_status: Some(false) }
    );
    assert_eq!(
        check(true, false, "fatal: Could not read from remote repo", clean),
        DeleteCheckResult { push_status: Some(PushedResult::NoConnection), tree_status: None }
    );
    let none = check(false, false, "Everything up-to-date", clean);
    assert_eq!(none, DeleteCheckResult { push_status: None, tree_status: None });
    assert!(!none.any_check_made());
    assert!(check(true, false, "", "").any_check_made());
    assert!(check(false, true, "", "").any_check_made());
}
