//! Preferences for the interactive selector.

use crate::config::{clone_opt_text, opt_text, text_or, text_or_default};
use crate::text::lowercase;
use vstd::prelude::*;

verus! {

/// The default label of the border.
pub const DEFAULT_BORDER_LABEL: &'static str = "";

/// The default prompt shown when a project is opened.
pub const DEFAULT_OPEN_PROMPT: &'static str = "Open: ";

/// The default prompt shown when a project is deleted.
pub const DEFAULT_DELETE_PROMPT: &'static str = "Delete: ";

/// The default pointer to the current item.
pub const DEFAULT_POINTER: &'static str = ">";

/// The default prompt shown when a template is selected.
pub const DEFAULT_TEMPLATE_PROMPT: &'static str = "Select a template: ";

/// The default name of the option that selects no template.
pub const DEFAULT_NO_TEMPLATE_OPTION: &'static str = "No Template";

/// `fzf_wrapped::Layout`, with its variants.
#[verifier::external_type_specification]
pub struct ExLayout(fzf_wrapped::Layout);

/// `fzf_wrapped::Border`, with its variants.
#[verifier::external_type_specification]
pub struct ExBorder(fzf_wrapped::Border);

/// `fzf_wrapped::Color`, with its variants.
#[verifier::external_type_specification]
pub struct ExColor(fzf_wrapped::Color);

/// The layout that a name stands for: the name is matched in lower case,
/// and an unknown name stands for the default layout.
pub open spec fn layout_named(name: Seq<char>) -> fzf_wrapped::Layout {
    let key = lowercase(name);
    if key == "reverse"@ {
        fzf_wrapped::Layout::Reverse
    } else if key == "reverse-list"@ {
        fzf_wrapped::Layout::ReverseList
    } else {
        fzf_wrapped::Layout::Default
    }
}

/// The border that a name stands for: the name is matched in lower case,
/// and an unknown name stands for no border.
pub open spec fn border_named(name: Seq<char>) -> fzf_wrapped::Border {
    let key = lowercase(name);
    if key == "rounded"@ {
        fzf_wrapped::Border::Rounded
    } else if key == "sharp"@ {
        fzf_wrapped::Border::Sharp
    } else if key == "horizontal"@ {
        fzf_wrapped::Border::Horizontal
    } else if key == "vertical"@ {
        fzf_wrapped::Border::Vertical
    } else if key == "top"@ {
        fzf_wrapped::Border::Top
    } else if key == "bottom"@ {
        fzf_wrapped::Border::Bottom
    } else if key == "left"@ {
        fzf_wrapped::Border::Left
    } else if key == "right"@ {
        fzf_wrapped::Border::Right
    } else {
        fzf_wrapped::Border::None
    }
}

/// The colour theme that a name stands for: the name is matched in lower
/// case, and an unknown name stands for the dark theme.
pub open spec fn color_named(name: Seq<char>) -> fzf_wrapped::Color {
    let key = lowercase(name);
    if key == "light"@ {
        fzf_wrapped::Color::Light
    } else if key == "16"@ || key == "sixteen"@ {
        fzf_wrapped::Color::Sixteen
    } else if key == "bw"@ {
        fzf_wrapped::Color::Bw
    } else {
        fzf_wrapped::Color::Dark
    }
}

/// Calls `fzf_wrapped::Layout::from`, which lower-cases the name and picks
/// the layout of that name, or the default layout if there is none.
#[verifier::external_body]
fn layout_from(name: String) -> (layout: fzf_wrapped::Layout)
    ensures
        layout == layout_named(name@),
{
    fzf_wrapped::Layout::from(name)
}

/// Calls `fzf_wrapped::Layout::default`, which gives the default layout.
#[verifier::external_body]
fn default_layout() -> (layout: fzf_wrapped::Layout)
    ensures
        layout == fzf_wrapped::Layout::Default,
{
    fzf_wrapped::Layout::default()
}

/// Calls `fzf_wrapped::Border::from`, which lower-cases the name and picks
/// the border of that name, or no border if there is none.
#[verifier::external_body]
fn border_from(name: String) -> (border: fzf_wrapped::Border)
    ensures
        border == border_named(name@),
{
    fzf_wrapped::Border::from(name)
}

/// Calls `fzf_wrapped::Border::default`, which gives no border.
#[verifier::external_body]
fn default_border() -> (border: fzf_wrapped::Border)
    ensures
        border == fzf_wrapped::Border::None,
{
    fzf_wrapped::Border::default()
}

/// Calls `fzf_wrapped::Color::from`, which lower-cases the name and picks
/// the theme of that name, or the dark theme if there is none.
#[verifier::external_body]
fn color_from(name: String) -> (color: fzf_wrapped::Color)
    ensures
        color == color_named(name@),
{
    fzf_wrapped::Color::from(name)
}

/// Calls `fzf_wrapped::Color::default`, which gives the dark theme.
#[verifier::external_body]
fn default_color() -> (color: fzf_wrapped::Color)
    ensures
        color == fzf_wrapped::Color::Dark,
{
    fzf_wrapped::Color::default()
}

/// Preferences for the interactive selector.
#[derive(Debug, PartialEq, Eq)]
pub struct FzfConfig {
    /// The layout of the selector. Default: `default`.
    pub layout: Option<String>,
    /// The border of the selector. Default: `none`.
    pub border: Option<String>,
    /// The label shown in the border. Default: empty.
    pub border_label: Option<String>,
    /// The prompt shown when a project is opened. Default: `Open: `.
    pub open_prompt: Option<String>,
    /// The prompt shown when a project is deleted. Default: `Delete: `.
    pub delete_prompt: Option<String>,
    /// The pointer to the current item. Default: `>`.
    pub pointer: Option<String>,
    /// The colour theme of the selector. Default: `dark`.
    pub theme: Option<String>,
    /// The prompt shown when a template is selected.
    /// Default: `Select a template: `.
    pub template_prompt: Option<String>,
    /// The name of the option that selects no template.
    /// Default: `No Template`.
    pub no_template_option: Option<String>,
}

/// What a [`FzfConfig`] holds, as plain mathematical values.
pub struct FzfConfigView {
    pub layout: Option<Seq<char>>,
    pub border: Option<Seq<char>>,
    pub border_label: Option<Seq<char>>,
    pub open_prompt: Option<Seq<char>>,
    pub delete_prompt: Option<Seq<char>>,
    pub pointer: Option<Seq<char>>,
    pub theme: Option<Seq<char>>,
    pub template_prompt: Option<Seq<char>>,
    pub no_template_option: Option<Seq<char>>,
}

/// The view of the preferences with no option set.
pub open spec fn default_view() -> FzfConfigView {
    FzfConfigView {
        layout: None,
        border: None,
        border_label: None,
        open_prompt: None,
        delete_prompt: None,
        pointer: None,
        theme: None,
        template_prompt: None,
        no_template_option: None,
    }
}

impl View for FzfConfig {
    type V = FzfConfigView;

    open spec fn view(&self) -> FzfConfigView {
        FzfConfigView {
            layout: opt_text(self.layout),
            border: opt_text(self.border),
            border_label: opt_text(self.border_label),
            open_prompt: opt_text(self.open_prompt),
            delete_prompt: opt_text(self.delete_prompt),
            pointer: opt_text(self.pointer),
            theme: opt_text(self.theme),
            template_prompt: opt_text(self.template_prompt),
            no_template_option: opt_text(self.no_template_option),
        }
    }
}

impl Default for FzfConfig {
    /// The preferences with no option set.
    fn default() -> (config: Self)
        ensures
            config@ == default_view(),
    {
        Self {
            layout: None,
            border: None,
            border_label: None,
            open_prompt: None,
            delete_prompt: None,
            pointer: None,
            theme: None,
            template_prompt: None,
            no_template_option: None,
        }
    }
}

impl Clone for FzfConfig {
    fn clone(&self) -> (copy: Self)
        ensures
            copy@ == self@,
    {
        Self {
            layout: clone_opt_text(&self.layout),
            border: clone_opt_text(&self.border),
            border_label: clone_opt_text(&self.border_label),
            open_prompt: clone_opt_text(&self.open_prompt),
            delete_prompt: clone_opt_text(&self.delete_prompt),
            pointer: clone_opt_text(&self.pointer),
            theme: clone_opt_text(&self.theme),
            template_prompt: clone_opt_text(&self.template_prompt),
            no_template_option: clone_opt_text(&self.no_template_option),
        }
    }
}

impl FzfConfig {
    /// The layout of the selector: the one that the configured name stands
    /// for, or the default layout.
    pub fn layout(&self) -> (layout: fzf_wrapped::Layout)
        ensures
            layout == match self@.layout {
                Some(name) => layout_named(name),
                None => fzf_wrapped::Layout::Default,
            },
    {
        match &self.layout {
            Some(name) => layout_from(name.clone()),
            None => default_layout(),
        }
    }

    /// The border of the selector: the one that the configured name stands
    /// for, or the default border.
    pub fn border(&self) -> (border: fzf_wrapped::Border)
        ensures
            border == match self@.border {
                Some(name) => border_named(name),
                None => fzf_wrapped::Border::None,
            },
    {
        match &self.border {
            Some(name) => border_from(name.clone()),
            None => default_border(),
        }
    }

    /// The label shown in the border. Default: empty.
    pub fn border_label(&self) -> (label: String)
        ensures
            label@ == text_or(self@.border_label, DEFAULT_BORDER_LABEL@),
    {
        text_or_default(&self.border_label, DEFAULT_BORDER_LABEL)
    }

    /// The prompt shown when a project is opened. Default: `Open: `.
    pub fn open_prompt(&self) -> (prompt: String)
        ensures
            prompt@ == text_or(self@.open_prompt, DEFAULT_OPEN_PROMPT@),
    {
        text_or_default(&self.open_prompt, DEFAULT_OPEN_PROMPT)
    }

    /// The prompt shown when a project is deleted. Default: `Delete: `.
    pub fn delete_prompt(&self) -> (prompt: String)
        ensures
            prompt@ == text_or(self@.delete_prompt, DEFAULT_DELETE_PROMPT@),
    {
        text_or_default(&self.delete_prompt, DEFAULT_DELETE_PROMPT)
    }

    /// The pointer to the current item. Default: `>`.
    pub fn pointer(&self) -> (pointer: String)
        ensures
            pointer@ == text_or(self@.pointer, DEFAULT_POINTER@),
    {
        text_or_default(&self.pointer, DEFAULT_POINTER)
    }

    /// The colour theme of the selector: the one that the configured name
    /// stands for, or the default theme.
    pub fn theme(&self) -> (color: fzf_wrapped::Color)
        ensures
            color == match self@.theme {
                Some(name) => color_named(name),
                None => fzf_wrapped::Color::Dark,
            },
    {
        match &self.theme {
            Some(name) => color_from(name.clone()),
            None => default_color(),
        }
    }

    /// The prompt shown when a template is selected.
    /// Default: `Select a template: `.
    pub fn template_prompt(&self) -> (prompt: String)
        ensures
            prompt@ == text_or(self@.template_prompt, DEFAULT_TEMPLATE_PROMPT@),
    {
        text_or_default(&self.template_prompt, DEFAULT_TEMPLATE_PROMPT)
    }

    /// The name of the option that selects no template.
    /// Default: `No Template`.
    pub fn no_template_option(&self) -> (option: String)
        ensures
            option@ == text_or(self@.no_template_option, DEFAULT_NO_TEMPLATE_OPTION@),
    {
        text_or_default(&self.no_template_option, DEFAULT_NO_TEMPLATE_OPTION)
    }
}

} // verus!
