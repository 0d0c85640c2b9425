//! Preferences for the checks made before a project is deleted.

use crate::config::flag_or;
use vstd::prelude::*;

verus! {

/// Whether the working tree is checked by default.
pub const DEFAULT_CHECK_TREE: bool = true;

/// Whether the push status is checked by default.
pub const DEFAULT_CHECK_PUSH: bool = true;

/// Which checks run before a project is deleted.
#[derive(Debug, Clone, Copy, PartialEq, Eq, Structural)]
pub struct GitConfig {
    /// Whether to check for a clean working tree before deleting.
    pub check_tree: Option<bool>,
    /// Whether to check the push status before deleting.
    pub check_push: Option<bool>,
}

impl Default for GitConfig {
    /// The preferences with no option set.
    fn default() -> (config: Self)
        ensures
            config == (GitConfig { check_tree: None, check_push: None }),
    {
        Self { check_tree: None, check_push: None }
    }
}

impl GitConfig {
    /// Whether to check for a clean working tree before deleting.
    /// Default: `true`.
    pub fn check_tree(&self) -> (check: bool)
        ensures
            check == flag_or(self.check_tree, DEFAULT_CHECK_TREE),
    {
        match self.check_tree {
            Some(flag) => flag,
            None => DEFAULT_CHECK_TREE,
        }
    }

    /// Whether to check the push status before deleting. Default: `true`.
    pub fn check_push(&self) -> (check: bool)
        ensures
            check == flag_or(self.check_push, DEFAULT_CHECK_PUSH),
    {
        match self.check_push {
            Some(flag) => flag,
            None => DEFAULT_CHECK_PUSH,
        }
    }
}

} // verus!
