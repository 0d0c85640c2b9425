//! Preferences for the remote hosting account.

use crate::config::{clone_opt_text, flag_or, opt_text, text_or, text_or_default};
use vstd::prelude::*;

verus! {

/// Whether remote projects are loaded by default.
pub const DEFAULT_ENABLED: bool = true;

/// Whether cloning is confirmed by default.
pub const DEFAULT_CONFIRM_CLONING: bool = true;

/// The default indicator shown before projects that are not local.
pub const DEFAULT_PROJECT_INDICATOR: &'static str = "\u{ea84} ";

/// Preferences for the remote hosting account.
#[derive(Debug, PartialEq, Eq)]
pub struct GithubConfig {
    /// Whether remote projects are loaded.
    pub enabled: Option<bool>,
    /// Whether to ask before cloning a remote project.
    pub confirm_cloning: Option<bool>,
    /// The indicator shown before projects that are not local.
    pub project_indicator: Option<String>,
}

/// What a [`GithubConfig`] holds, as plain mathematical values.
pub struct GithubConfigView {
    pub enabled: Option<bool>,
    pub confirm_cloning: Option<bool>,
    pub project_indicator: Option<Seq<char>>,
}

/// The view of the preferences with no option set.
pub open spec fn default_view() -> GithubConfigView {
    GithubConfigView { enabled: None, confirm_cloning: None, project_indicator: None }
}

impl View for GithubConfig {
    type V = GithubConfigView;

    open spec fn view(&self) -> GithubConfigView {
        GithubConfigView {
            enabled: self.enabled,
            confirm_cloning: self.confirm_cloning,
            project_indicator: opt_text(self.project_indicator),
        }
    }
}

impl Default for GithubConfig {
    /// The preferences with no option set.
    fn default() -> (config: Self)
        ensures
            config@ == default_view(),
    {
        Self { enabled: None, confirm_cloning: None, project_indicator: None }
    }
}

impl Clone for GithubConfig {
    fn clone(&self) -> (copy: Self)
        ensures
            copy@ == self@,
    {
        Self {
            enabled: self.enabled,
            confirm_cloning: self.confirm_cloning,
            project_indicator: clone_opt_text(&self.project_indicator),
        }
    }
}

impl GithubConfig {
    /// Whether remote projects are loaded. Default: `true`.
    pub fn enabled(&self) -> (enabled: bool)
        ensures
            enabled == flag_or(self.enabled, DEFAULT_ENABLED),
    {
        match self.enabled {
            Some(flag) => flag,
            None => DEFAULT_ENABLED,
        }
    }

    /// Whether to ask before cloning a remote project. Default: `true`.
    pub fn confirm_cloning(&self) -> (confirm: bool)
        ensures
            confirm == flag_or(self.confirm_cloning, DEFAULT_CONFIRM_CLONING),
    {
        match self.confirm_cloning {
            Some(flag) => flag,
            None => DEFAULT_CONFIRM_CLONING,
        }
    }

    /// The indicator shown before projects that are not local.
    pub fn project_indicator(&self) -> (indicator: String)
        ensures
            indicator@ == text_or(self@.project_indicator, DEFAULT_PROJECT_INDICATOR@),
    {
        text_or_default(&self.project_indicator, DEFAULT_PROJECT_INDICATOR)
    }
}

} // verus!
