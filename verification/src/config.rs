//! The user's configuration: every option is optional and has a default.

use vstd::prelude::*;

pub mod fzf;
pub mod general;
pub mod git;
pub mod github;
pub mod templates;
pub mod tmuxinator;

use fzf::{FzfConfig, FzfConfigView};
use general::{GeneralConfig, GeneralConfigView};
use git::GitConfig;
use github::{GithubConfig, GithubConfigView};
use templates::{clone_templates, template_views, WorkspaceTemplate, WorkspaceTemplateView};
use tmuxinator::{TmuxinatorConfig, TmuxinatorConfigView};

verus! {

/// The view of an optional text.
pub open spec fn opt_text(text: Option<String>) -> Option<Seq<char>> {
    match text {
        Some(t) => Some(t@),
        None => None,
    }
}

/// The view of an optional list of texts.
pub open spec fn opt_texts(texts: Option<Vec<String>>) -> Option<Seq<Seq<char>>> {
    match texts {
        Some(t) => Some(crate::text::views(t@)),
        None => None,
    }
}

/// An optional text if it is set, else the default.
pub open spec fn text_or(text: Option<Seq<char>>, default: Seq<char>) -> Seq<char> {
    match text {
        Some(t) => t,
        None => default,
    }
}

/// An optional flag if it is set, else the default.
pub open spec fn flag_or(flag: Option<bool>, default: bool) -> bool {
    match flag {
        Some(f) => f,
        None => default,
    }
}

/// An optional list of texts if it is set, else the one default text.
pub open spec fn texts_or(texts: Option<Seq<Seq<char>>>, default: Seq<char>) -> Seq<Seq<char>> {
    match texts {
        Some(t) => t,
        None => seq![default],
    }
}

/// A copy of an optional text.
pub fn clone_opt_text(text: &Option<String>) -> (copy: Option<String>)
    ensures
        opt_text(copy) == opt_text(*text),
{
    match text {
        Some(t) => Some(t.clone()),
        None => None,
    }
}

/// A copy of a list of texts.
pub fn clone_texts(texts: &Vec<String>) -> (copy: Vec<String>)
    ensures
        crate::text::views(copy@) == crate::text::views(texts@),
{
    let mut copy: Vec<String> = Vec::new();
    let mut i: usize = 0;
    while i < texts.len()
        invariant
            i <= texts.len(),
            crate::text::views(copy@) =~= crate::text::views(texts@).take(i as int),
        decreases texts.len() - i,
    {
        let text = texts[i].clone();
        proof {
            assert(crate::text::views(copy@.push(text)) =~= crate::text::views(copy@).push(text@));
        }
        copy.push(text);
        i += 1;
    }
    copy
}

/// A copy of an optional list of texts.
pub fn clone_opt_texts(texts: &Option<Vec<String>>) -> (copy: Option<Vec<String>>)
    ensures
        opt_texts(copy) == opt_texts(*texts),
{
    match texts {
        Some(t) => Some(clone_texts(t)),
        None => None,
    }
}

/// An optional text if it is set, else the default.
pub fn text_or_default(text: &Option<String>, default: &str) -> (out: String)
    ensures
        out@ == text_or(opt_text(*text), default@),
{
    match text {
        Some(t) => t.clone(),
        None => default.to_owned(),
    }
}

/// An optional list of texts if it is set, else the one default text.
pub fn texts_or_default(texts: &Option<Vec<String>>, default: &str) -> (out: Vec<String>)
    ensures
        crate::text::views(out@) == texts_or(opt_texts(*texts), default@),
{
    match texts {
        Some(t) => clone_texts(t),
        None => {
            let mut out: Vec<String> = Vec::new();
            let text = default.to_owned();
            out.push(text);
            assert(crate::text::views(out@) =~= seq![default@]);
            out
        },
    }
}

/// The user's configuration. A section that is not set stands for that
/// section with every option at its default.
#[derive(Debug, PartialEq, Eq)]
pub struct WorkflowsConfig {
    pub general: Option<GeneralConfig>,
    pub template: Option<Vec<WorkspaceTemplate>>,
    pub github: Option<GithubConfig>,
    pub git: Option<GitConfig>,
    pub tmuxinator: Option<TmuxinatorConfig>,
    pub fzf: Option<FzfConfig>,
}

/// What a [`WorkflowsConfig`] holds, as plain mathematical values.
pub struct WorkflowsConfigView {
    pub general: Option<GeneralConfigView>,
    pub template: Option<Seq<WorkspaceTemplateView>>,
    pub github: Option<GithubConfigView>,
    pub git: Option<GitConfig>,
    pub tmuxinator: Option<TmuxinatorConfigView>,
    pub fzf: Option<FzfConfigView>,
}

impl View for WorkflowsConfig {
    type V = WorkflowsConfigView;

    open spec fn view(&self) -> WorkflowsConfigView {
        WorkflowsConfigView {
            general: match self.general {
                Some(c) => Some(c@),
                None => None,
            },
            template: match self.template {
                Some(t) => Some(template_views(t@)),
                None => None,
            },
            github: match self.github {
                Some(c) => Some(c@),
                None => None,
            },
            git: self.git,
            tmuxinator: match self.tmuxinator {
                Some(c) => Some(c@),
                None => None,
            },
            fzf: match self.fzf {
                Some(c) => Some(c@),
                None => None,
            },
        }
    }
}

impl Default for WorkflowsConfig {
    /// The configuration with no section set.
    fn default() -> (config: Self)
        ensures
            config.general is None,
            config.template is None,
            config.github is None,
            config.git is None,
            config.tmuxinator is None,
            config.fzf is None,
    {
        Self { general: None, template: None, github: None, git: None, tmuxinator: None, fzf: None }
    }
}

impl Clone for WorkflowsConfig {
    fn clone(&self) -> (copy: Self)
        ensures
            copy@ == self@,
    {
        Self {
            general: match &self.general {
                Some(c) => Some(c.clone()),
                None => None,
            },
            template: match &self.template {
                Some(t) => Some(clone_templates(t)),
                None => None,
            },
            github: match &self.github {
                Some(c) => Some(c.clone()),
                None => None,
            },
            git: self.git,
            tmuxinator: match &self.tmuxinator {
                Some(c) => Some(c.clone()),
                None => None,
            },
            fzf: match &self.fzf {
                Some(c) => Some(c.clone()),
                None => None,
            },
        }
    }
}

impl WorkflowsConfig {
    /// The general preferences, or the defaults if the section is not set.
    pub fn general(&self) -> (section: GeneralConfig)
        ensures
            section@ == match self.general {
                Some(c) => c@,
                None => general::default_view(),
            },
    {
        match &self.general {
            Some(c) => c.clone(),
            None => GeneralConfig::default(),
        }
    }

    /// The configured templates, or none if the section is not set.
    pub fn templates(&self) -> (templates: Vec<WorkspaceTemplate>)
        ensures
            template_views(templates@) == match self.template {
                Some(t) => template_views(t@),
                None => Seq::empty(),
            },
    {
        match &self.template {
            Some(t) => clone_templates(t),
            None => {
                let none: Vec<WorkspaceTemplate> = Vec::new();
                assert(template_views(none@) =~= Seq::empty());
                none
            },
        }
    }

    /// The selector preferences, or the defaults if the section is not set.
    pub fn fzf(&self) -> (section: FzfConfig)
        ensures
            section@ == match self.fzf {
                Some(c) => c@,
                None => fzf::default_view(),
            },
    {
        match &self.fzf {
            Some(c) => c.clone(),
            None => FzfConfig::default(),
        }
    }

    /// The source-control preferences, or the defaults if the section is not
    /// set.
    pub fn git(&self) -> (section: GitConfig)
        ensures
            section == match self.git {
                Some(c) => c,
                None => (GitConfig { check_tree: None, check_push: None }),
            },
    {
        match self.git {
            Some(c) => c,
            None => GitConfig::default(),
        }
    }

    /// The hosting-account preferences, or the defaults if the section is not
    /// set.
    pub fn github(&self) -> (section: GithubConfig)
        ensures
            section@ == match self.github {
                Some(c) => c@,
                None => github::default_view(),
            },
    {
        match &self.github {
            Some(c) => c.clone(),
            None => GithubConfig::default(),
        }
    }

    /// The session-manager preferences, or the defaults if the section is not
    /// set.
    pub fn tmuxinator(&self) -> (section: TmuxinatorConfig)
        ensures
            section@ == match self.tmuxinator {
                Some(c) => c@,
                None => tmuxinator::default_view(),
            },
    {
        match &self.tmuxinator {
            Some(c) => c.clone(),
            None => TmuxinatorConfig::default(),
        }
    }

    /// The session-manager preferences, or the defaults if the section is not
    /// set.
    pub fn tmuxinator_config(&self) -> (section: TmuxinatorConfig)
        ensures
            section@ == match self.tmuxinator {
                Some(c) => c@,
                None => tmuxinator::default_view(),
            },
    {
        self.tmuxinator()
    }
}

/// The configuration to work with: the one that was loaded, or the default
/// configuration if none could be loaded.
pub fn get_config(loaded: Option<WorkflowsConfig>) -> (config: WorkflowsConfig)
    ensures
        config@ == match loaded {
            Some(c) => c@,
            None => (WorkflowsConfigView {
                general: None,
                template: None,
                github: None,
                git: None,
                tmuxinator: None,
                fzf: None,
            }),
        },
{
    match loaded {
        Some(c) => c,
        None => WorkflowsConfig::default(),
    }
}

} // verus!
