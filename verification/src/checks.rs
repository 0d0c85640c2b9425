//! The checks that inform the decision to delete a project. They never
//! forbid it: the user has the last word.

use crate::text::{has_substring, str_contains};
use vstd::prelude::*;

verus! {

/// What a dry-run push says of a project.
#[derive(Clone, Copy, Debug, PartialEq, Eq, Structural)]
pub enum PushedResult {
    /// Whether everything is pushed already.
    Status(bool),
    /// The remote could not be reached, so the status is not known.
    NoConnection,
}

/// The outcome of the checks made before a project is deleted.
#[derive(Clone, Copy, Debug, PartialEq, Eq, Structural)]
pub struct DeleteCheckResult {
    /// The push status, or `None` if that check is switched off.
    pub push_status: Option<PushedResult>,
    /// Whether the working tree is clean, or `None` if that check is
    /// switched off.
    pub tree_status: Option<bool>,
}

/// What the error stream of a dry-run push means: no connection if it
/// reports that the remote could not be read, otherwise pushed exactly if it
/// says that everything is up to date.
pub open spec fn push_status_of(stderr: Seq<char>) -> PushedResult {
    if has_substring(stderr, "fatal: Could not read from remote repo"@) {
        PushedResult::NoConnection
    } else {
        PushedResult::Status(has_substring(stderr, "up-to-date"@))
    }
}

/// Whether the output of a status query reports a clean working tree.
pub open spec fn tree_clean_of(stdout: Seq<char>) -> bool {
    has_substring(stdout, "nothing to commit, working tree clean"@)
}

/// The outcome of the checks, given which of them are switched on and what
/// the two queries wrote.
pub open spec fn check_result(
    check_push: bool,
    check_tree: bool,
    push_stderr: Seq<char>,
    status_stdout: Seq<char>,
) -> DeleteCheckResult {
    DeleteCheckResult {
        push_status: if check_push {
            Some(push_status_of(push_stderr))
        } else {
            None
        },
        tree_status: if check_tree {
            Some(tree_clean_of(status_stdout))
        } else {
            None
        },
    }
}

/// Reads the push status of a project from the error stream of a dry-run
/// push.
pub fn repo_pushed(push_stderr: &str) -> (status: PushedResult)
    ensures
        status == push_status_of(push_stderr@),
{
    if str_contains(push_stderr, "fatal: Could not read from remote repo") {
        PushedResult::NoConnection
    } else {
        PushedResult::Status(str_contains(push_stderr, "up-to-date"))
    }
}

/// Reads from the output of a status query whether the working tree is
/// clean.
pub fn repo_clean_tree(status_stdout: &str) -> (clean: bool)
    ensures
        clean == tree_clean_of(status_stdout@),
{
    str_contains(status_stdout, "nothing to commit, working tree clean")
}

/// Gathers the outcome of the checks that are switched on. The output of a
/// check that is switched off is not looked at.
pub fn check(check_push: bool, check_tree: bool, push_stderr: &str, status_stdout: &str) -> (result:
    DeleteCheckResult)
    ensures
        result == check_result(check_push, check_tree, push_stderr@, status_stdout@),
{
    let push_status = if check_push {
        Some(repo_pushed(push_stderr))
    } else {
        None
    };
    let tree_status = if check_tree {
        Some(repo_clean_tree(status_stdout))
    } else {
        None
    };
    DeleteCheckResult { push_status, tree_status }
}

impl DeleteCheckResult {
    /// Whether any check was made, so that the note on their scope is due.
    pub fn any_check_made(&self) -> (any: bool)
        ensures
            any == (self.push_status is Some || self.tree_status is Some),
    {
        self.push_status.is_some() || self.tree_status.is_some()
    }
}

} // verus!
