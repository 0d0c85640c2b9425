//! General preferences: where projects live and whether new ones are opened.

use crate::config::{clone_opt_texts, flag_or, opt_texts, texts_or, texts_or_default};
use crate::text::views;
use vstd::prelude::*;

verus! {

/// The default location for projects, relative to the home directory.
pub const DEFAULT_PROJECTS_DIR: &'static str = "Projects/";

/// Whether new projects are opened by default.
pub const DEFAULT_OPEN_NEW_PROJECTS: bool = true;

/// General preferences.
#[derive(Debug, PartialEq, Eq)]
pub struct GeneralConfig {
    /// Where projects are stored, each relative to the home directory.
    pub projects_dirs: Option<Vec<String>>,
    /// Whether projects are opened right after they are created.
    pub open_new_projects: Option<bool>,
}

/// What a [`GeneralConfig`] holds, as plain mathematical values.
pub struct GeneralConfigView {
    pub projects_dirs: Option<Seq<Seq<char>>>,
    pub open_new_projects: Option<bool>,
}

/// The view of the preferences with no option set.
pub open spec fn default_view() -> GeneralConfigView {
    GeneralConfigView { projects_dirs: None, open_new_projects: None }
}

impl View for GeneralConfig {
    type V = GeneralConfigView;

    open spec fn view(&self) -> GeneralConfigView {
        GeneralConfigView {
            projects_dirs: opt_texts(self.projects_dirs),
            open_new_projects: self.open_new_projects,
        }
    }
}

impl Default for GeneralConfig {
    /// The preferences with no option set.
    fn default() -> (config: Self)
        ensures
            config@ == default_view(),
    {
        Self { projects_dirs: None, open_new_projects: None }
    }
}

impl Clone for GeneralConfig {
    fn clone(&self) -> (copy: Self)
        ensures
            copy@ == self@,
    {
        Self {
            projects_dirs: clone_opt_texts(&self.projects_dirs),
            open_new_projects: self.open_new_projects,
        }
    }
}

impl GeneralConfig {
    /// Where projects are stored, in the configured order.
    /// Default: the single directory `Projects/`.
    pub fn projects_dirs(&self) -> (dirs: Vec<String>)
        ensures
            views(dirs@) == texts_or(self@.projects_dirs, DEFAULT_PROJECTS_DIR@),
    {
        texts_or_default(&self.projects_dirs, DEFAULT_PROJECTS_DIR)
    }

    /// Whether projects are opened right after they are created.
    /// Default: `true`.
    pub fn open_new_projects(&self) -> (open: bool)
        ensures
            open == flag_or(self.open_new_projects, DEFAULT_OPEN_NEW_PROJECTS),
    {
        match self.open_new_projects {
            Some(flag) => flag,
            None => DEFAULT_OPEN_NEW_PROJECTS,
        }
    }
}

} // verus!
