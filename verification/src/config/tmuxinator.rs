//! Preferences for the session manager.

use crate::config::{clone_opt_texts, flag_or, opt_texts, texts_or, texts_or_default};
use crate::text::views;
use vstd::prelude::*;

verus! {

/// Whether the session manager is used by default.
pub const DEFAULT_ENABLED: bool = true;

/// Whether a fresh session configuration is written by default.
pub const DEFAULT_FRESH_CONFIG: bool = false;

/// The default name of the one window.
pub const DEFAULT_WINDOW_NAME: &'static str = "editor";

/// The default command of a window.
pub const DEFAULT_START_COMMAND: &'static str = "nvim .";

/// Preferences for the session manager.
#[derive(Debug, PartialEq, Eq)]
pub struct TmuxinatorConfig {
    pub enabled: Option<bool>,
    pub fresh_config: Option<bool>,
    pub window_names: Option<Vec<String>>,
    pub start_commands: Option<Vec<String>>,
}

/// What a [`TmuxinatorConfig`] holds, as plain mathematical values.
pub struct TmuxinatorConfigView {
    pub enabled: Option<bool>,
    pub fresh_config: Option<bool>,
    pub window_names: Option<Seq<Seq<char>>>,
    pub start_commands: Option<Seq<Seq<char>>>,
}

/// The view of the preferences with no option set.
pub open spec fn default_view() -> TmuxinatorConfigView {
    TmuxinatorConfigView {
        enabled: None,
        fresh_config: None,
        window_names: None,
        start_commands: None,
    }
}

impl View for TmuxinatorConfig {
    type V = TmuxinatorConfigView;

    open spec fn view(&self) -> TmuxinatorConfigView {
        TmuxinatorConfigView {
            enabled: self.enabled,
            fresh_config: self.fresh_config,
            window_names: opt_texts(self.window_names),
            start_commands: opt_texts(self.start_commands),
        }
    }
}

impl Default for TmuxinatorConfig {
    /// The preferences with no option set.
    fn default() -> (config: Self)
        ensures
            config@ == default_view(),
    {
        Self { enabled: None, fresh_config: None, window_names: None, start_commands: None }
    }
}

impl Clone for TmuxinatorConfig {
    fn clone(&self) -> (copy: Self)
        ensures
            copy@ == self@,
    {
        Self {
            enabled: self.enabled,
            fresh_config: self.fresh_config,
            window_names: clone_opt_texts(&self.window_names),
            start_commands: clone_opt_texts(&self.start_commands),
        }
    }
}

impl TmuxinatorConfig {
    /// Whether the session manager is used. If not, a plain session is
    /// opened in the project's directory. Default: `true`.
    pub fn enabled(&self) -> (enabled: bool)
        ensures
            enabled == flag_or(self.enabled, DEFAULT_ENABLED),
    {
        match self.enabled {
            Some(flag) => flag,
            None => DEFAULT_ENABLED,
        }
    }

    /// Whether a new session configuration is written on every start.
    /// Default: `false`.
    pub fn fresh_config(&self) -> (fresh: bool)
        ensures
            fresh == flag_or(self.fresh_config, DEFAULT_FRESH_CONFIG),
    {
        match self.fresh_config {
            Some(flag) => flag,
            None => DEFAULT_FRESH_CONFIG,
        }
    }

    /// The command that each window starts with, window by window.
    /// Default: the single command `nvim .`.
    pub fn start_commands(&self) -> (commands: Vec<String>)
        ensures
            views(commands@) == texts_or(self@.start_commands, DEFAULT_START_COMMAND@),
    {
        texts_or_default(&self.start_commands, DEFAULT_START_COMMAND)
    }

    /// The names of the windows of a session.
    /// Default: the single window `editor`.
    pub fn window_names(&self) -> (names: Vec<String>)
        ensures
            views(names@) == texts_or(self@.window_names, DEFAULT_WINDOW_NAME@),
    {
        texts_or_default(&self.window_names, DEFAULT_WINDOW_NAME)
    }
}

} // verus!
