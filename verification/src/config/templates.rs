//! Named templates: commands that set a new project up.

use crate::config::clone_texts;
use crate::text::{same_text, views};
use vstd::prelude::*;

verus! {

/// A named list of shell commands, run in order inside a new project.
#[derive(Debug, PartialEq, Eq)]
pub struct WorkspaceTemplate {
    pub name: String,
    pub commands: Vec<String>,
}

/// What a [`WorkspaceTemplate`] holds, as plain mathematical values.
pub struct WorkspaceTemplateView {
    pub name: Seq<char>,
    pub commands: Seq<Seq<char>>,
}

impl View for WorkspaceTemplate {
    type V = WorkspaceTemplateView;

    open spec fn view(&self) -> WorkspaceTemplateView {
        WorkspaceTemplateView { name: self.name@, commands: views(self.commands@) }
    }
}

/// The views of a sequence of templates.
pub open spec fn template_views(templates: Seq<WorkspaceTemplate>) -> Seq<WorkspaceTemplateView> {
    templates.map_values(|t: WorkspaceTemplate| t@)
}

impl Default for WorkspaceTemplate {
    /// The template with an empty name and no commands.
    fn default() -> (template: Self)
        ensures
            template@ == (WorkspaceTemplateView { name: Seq::empty(), commands: Seq::empty() }),
    {
        let template = Self { name: String::new(), commands: Vec::new() };
        assert(views(template.commands@) =~= Seq::empty());
        template
    }
}

impl Clone for WorkspaceTemplate {
    fn clone(&self) -> (copy: Self)
        ensures
            copy@ == self@,
    {
        Self { name: self.name.clone(), commands: clone_texts(&self.commands) }
    }
}

impl WorkspaceTemplate {
    /// The name of the template.
    pub fn name(&self) -> (name: &str)
        ensures
            name@ == self@.name,
    {
        self.name.as_str()
    }

    /// The commands of the template, in the order in which they run.
    pub fn commands(&self) -> (commands: &[String])
        ensures
            commands@ == self.commands@,
    {
        self.commands.as_slice()
    }
}

/// A copy of a list of templates.
pub fn clone_templates(templates: &Vec<WorkspaceTemplate>) -> (copy: Vec<WorkspaceTemplate>)
    ensures
        template_views(copy@) == template_views(templates@),
{
    let mut copy: Vec<WorkspaceTemplate> = Vec::new();
    let mut i: usize = 0;
    while i < templates.len()
        invariant
            i <= templates.len(),
            template_views(copy@) =~= template_views(templates@).take(i as int),
        decreases templates.len() - i,
    {
        let template = templates[i].clone();
        proof {
            assert(template_views(copy@.push(template)) =~= template_views(copy@).push(template@));
        }
        copy.push(template);
        i += 1;
    }
    copy
}

/// The first template of `templates` called `name`, if there is one.
pub open spec fn template_named(templates: Seq<WorkspaceTemplateView>, name: Seq<char>) -> Option<
    WorkspaceTemplateView,
>
    decreases templates.len(),
{
    if templates.len() == 0 {
        None
    } else if templates[0].name == name {
        Some(templates[0])
    } else {
        template_named(templates.drop_first(), name)
    }
}

/// What the template selector offers: nothing if no template is configured,
/// otherwise the name of each template followed by the option that stands
/// for no template.
pub open spec fn offered_templates(
    templates: Seq<WorkspaceTemplateView>,
    no_template_option: Seq<char>,
) -> Seq<Seq<char>> {
    if templates.len() == 0 {
        Seq::empty()
    } else {
        templates.map_values(|t: WorkspaceTemplateView| t.name).push(no_template_option)
    }
}

/// The template that a selection stands for: none if no template is
/// configured, if nothing was selected or if the option for no template was
/// selected; otherwise the first template with the selected name.
pub open spec fn chosen_template(
    templates: Seq<WorkspaceTemplateView>,
    no_template_option: Seq<char>,
    selected: Option<Seq<char>>,
) -> Option<WorkspaceTemplateView> {
    match selected {
        Some(name) if templates.len() > 0 && name != no_template_option => template_named(
            templates,
            name,
        ),
        _ => None,
    }
}

/// The names to hand to the template selector.
pub fn template_options(templates: &Vec<WorkspaceTemplate>, no_template_option: &str) -> (options:
    Vec<String>)
    ensures
        views(options@) == offered_templates(template_views(templates@), no_template_option@),
{
    let mut options: Vec<String> = Vec::new();
    if templates.len() == 0 {
        assert(views(options@) =~= Seq::empty());
        return options;
    }
    let ghost names = template_views(templates@).map_values(|t: WorkspaceTemplateView| t.name);
    let mut i: usize = 0;
    while i < templates.len()
        invariant
            i <= templates.len(),
            names == template_views(templates@).map_values(|t: WorkspaceTemplateView| t.name),
            views(options@) =~= names.take(i as int),
        decreases templates.len() - i,
    {
        let name = templates[i].name.clone();
        proof {
            assert(views(options@.push(name)) =~= views(options@).push(name@));
        }
        options.push(name);
        i += 1;
    }
    let last = no_template_option.to_owned();
    proof {
        assert(views(options@.push(last)) =~= views(options@).push(last@));
        assert(names.take(i as int) =~= names);
    }
    options.push(last);
    options
}

/// The template that the selector's answer stands for.
pub fn get_template(
    templates: &Vec<WorkspaceTemplate>,
    no_template_option: &str,
    selected: Option<&str>,
) -> (template: Option<WorkspaceTemplate>)
    ensures
        template is Some == chosen_template(
            template_views(templates@),
            no_template_option@,
            match selected {
                Some(s) => Some(s@),
                None => None,
            },
        ) is Some,
        template is Some ==> template->0@ == chosen_template(
            template_views(templates@),
            no_template_option@,
            match selected {
                Some(s) => Some(s@),
                None => None,
            },
        )->0,
{
    let name = match selected {
        Some(name) => name,
        None => {
            return None;
        },
    };
    if templates.len() == 0 || same_text(name, no_template_option) {
        return None;
    }
    let ghost all = template_views(templates@);
    let mut i: usize = 0;
    assert(all.skip(0) =~= all);
    while i < templates.len()
        invariant
            i <= templates.len(),
            all == template_views(templates@),
            all.len() > 0,
            selected == Some(name),
            name@ != no_template_option@,
            template_named(all, name@) == template_named(all.skip(i as int), name@),
        decreases templates.len() - i,
    {
        proof {
            assert(all.skip(i as int)[0] == templates@[i as int]@);
            assert(all.skip(i as int).drop_first() =~= all.skip(i + 1));
        }
        if same_text(templates[i].name.as_str(), name) {
            return Some(templates[i].clone());
        }
        i += 1;
    }
    None
}

} // verus!
