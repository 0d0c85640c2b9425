//! What the session manager is asked to do for a project: the text of its
//! per-project configuration, and the commands that start a session.

use crate::config::texts_or;
use crate::config::tmuxinator::{TmuxinatorConfig, DEFAULT_START_COMMAND, DEFAULT_WINDOW_NAME};
use crate::paths::{home_dir, join_path, joined};
use crate::repo::{root_under, Repo, RepoView};
use crate::text::{
    chars_of, find_from, lemma_run_before_bound, run_before, same_text, string_of, trim_text,
    trimmed, views,
};
use vstd::prelude::*;
use vstd::string::StringExecFns;

verus! {

/// The directory of the session manager's configurations under the home
/// directory `home`.
pub open spec fn config_dir_under(home: Seq<char>) -> Seq<char> {
    joined(joined(home, ".config/"@), "tmuxinator"@)
}

/// The name of the configuration file of the project called `name`.
pub open spec fn config_file_of(name: Seq<char>) -> Seq<char> {
    name + ".yml"@
}

/// How often `file` occurs among `files`.
pub open spec fn occurrences(files: Seq<Seq<char>>, file: Seq<char>) -> nat
    decreases files.len(),
{
    if files.len() == 0 {
        0
    } else {
        occurrences(files.drop_last(), file) + if files.last() == file {
            1nat
        } else {
            0nat
        }
    }
}

/// Whether the project has a configuration among the listed files: its
/// file name occurs there exactly once.
pub open spec fn config_exists(files: Seq<Seq<char>>, name: Seq<char>) -> bool {
    occurrences(files, config_file_of(name)) == 1
}

/// The command that window number `i` starts with: the configured one, or
/// the default command where fewer commands than windows are configured.
pub open spec fn command_at(commands: Seq<Seq<char>>, i: int) -> Seq<char> {
    if 0 <= i < commands.len() {
        commands[i]
    } else {
        DEFAULT_START_COMMAND@
    }
}

/// The head of a configuration: a comment with the configuration directory,
/// then the name and the root of the project.
pub open spec fn config_header(config_dir: Seq<char>, name: Seq<char>, root: Seq<char>) -> Seq<
    char,
> {
    "# "@ + config_dir + "\n\nname: "@ + name + "\nroot: "@ + root + "\n\nwindows:"@
}

/// The lines of the first `n` windows, one line per window.
pub open spec fn window_lines(names: Seq<Seq<char>>, commands: Seq<Seq<char>>, n: nat) -> Seq<char>
    decreases n,
{
    if n == 0 {
        Seq::empty()
    } else {
        window_lines(names, commands, (n - 1) as nat) + "\n - "@ + names[n - 1] + ": "@
            + command_at(commands, n - 1)
    }
}

/// The whole text of a configuration.
pub open spec fn config_text(
    config_dir: Seq<char>,
    name: Seq<char>,
    root: Seq<char>,
    names: Seq<Seq<char>>,
    commands: Seq<Seq<char>>,
) -> Seq<char> {
    config_header(config_dir, name, root) + window_lines(names, commands, names.len())
}

/// The configuration text of a project under the home directory `home`, if
/// the project has a containing directory.
pub open spec fn config_text_under(
    project: RepoView,
    names: Seq<Seq<char>>,
    commands: Seq<Seq<char>>,
    home: Seq<char>,
) -> Option<Seq<char>> {
    match root_under(project, home) {
        Some(root) => Some(
            config_text(config_dir_under(home), project.name, root, names, commands),
        ),
        None => None,
    }
}

/// The directory of the session manager's configurations under the given
/// home directory.
pub fn tmuxinator_config_dir_under(home: &str) -> (dir: String)
    ensures
        dir@ == config_dir_under(home@),
{
    let base = join_path(home, ".config/");
    join_path(base.as_str(), "tmuxinator")
}

/// The directory of the session manager's configurations under the home
/// directory of the current user, or `None` if that is not known.
pub fn tmuxinator_config_dir() -> (dir: Option<String>)
    ensures
        dir is Some ==> exists|home: Seq<char>| dir->0@ == config_dir_under(home),
{
    match home_dir() {
        Some(home) => Some(tmuxinator_config_dir_under(home.as_str())),
        None => None,
    }
}

/// The name of the configuration file of a project.
pub fn config_filename(project: &Repo) -> (file: String)
    ensures
        file@ == config_file_of(project@.name),
{
    let mut file = project.name();
    file.append(".yml");
    file
}

/// Whether the project has a configuration among the files listed in the
/// configuration directory.
pub fn tmuxinator_project_exist(project: &Repo, config_files: &Vec<String>) -> (exists: bool)
    ensures
        exists == config_exists(views(config_files@), project@.name),
{
    let wanted = config_filename(project);
    let ghost files = views(config_files@);
    let mut count: usize = 0;
    let mut i: usize = 0;
    while i < config_files.len()
        invariant
            i <= config_files.len(),
            files == views(config_files@),
            count <= i,
            count == occurrences(files.take(i as int), wanted@),
        decreases config_files.len() - i,
    {
        proof {
            assert(files.take(i + 1).drop_last() =~= files.take(i as int));
        }
        if same_text(config_files[i].as_str(), wanted.as_str()) {
            count += 1;
        }
        i += 1;
    }
    assert(files.take(i as int) =~= files);
    count == 1
}

/// The text of the configuration for a project, given the configuration
/// directory and the project's root.
///
/// One line per configured window name; a window without a configured
/// command starts with the default command.
pub fn config_contents(
    project: &Repo,
    config: &TmuxinatorConfig,
    config_dir: &str,
    project_root: &str,
) -> (content: String)
    ensures
        content@ == config_text(
            config_dir@,
            project@.name,
            project_root@,
            texts_or(config@.window_names, DEFAULT_WINDOW_NAME@),
            texts_or(config@.start_commands, DEFAULT_START_COMMAND@),
        ),
{
    let names = config.window_names();
    let commands = config.start_commands();
    let name = project.name();
    let mut content = String::new();
    content.append("# ");
    content.append(config_dir);
    content.append("\n\nname: ");
    content.append(name.as_str());
    content.append("\nroot: ");
    content.append(project_root);
    content.append("\n\nwindows:");
    let ghost header = config_header(config_dir@, project@.name, project_root@);
    assert(content@ =~= header);
    let mut i: usize = 0;
    while i < names.len()
        invariant
            i <= names.len(),
            content@ =~= header + window_lines(views(names@), views(commands@), i as nat),
        decreases names.len() - i,
    {
        let ghost before = content@;
        content.append("\n - ");
        content.append(names[i].as_str());
        content.append(": ");
        if i < commands.len() {
            content.append(commands[i].as_str());
        } else {
            content.append(DEFAULT_START_COMMAND);
        }
        proof {
            let line = "\n - "@ + views(names@)[i as int] + ": "@ + command_at(
                views(commands@),
                i as int,
            );
            assert(content@ =~= before + line);
            assert(window_lines(views(names@), views(commands@), (i + 1) as nat) =~= window_lines(
                views(names@),
                views(commands@),
                i as nat,
            ) + line);
        }
        i += 1;
    }
    content
}

/// The text of the configuration for a project under the given home
/// directory, or `None` if the project has no containing directory.
pub fn config_contents_under(project: &Repo, config: &TmuxinatorConfig, home: &str) -> (content:
    Option<String>)
    ensures
        content is Some == config_text_under(
            project@,
            texts_or(config@.window_names, DEFAULT_WINDOW_NAME@),
            texts_or(config@.start_commands, DEFAULT_START_COMMAND@),
            home@,
        ) is Some,
        content is Some ==> content->0@ == config_text_under(
            project@,
            texts_or(config@.window_names, DEFAULT_WINDOW_NAME@),
            texts_or(config@.start_commands, DEFAULT_START_COMMAND@),
            home@,
        )->0,
{
    match project.project_root_under(home) {
        Some(root) => {
            let dir = tmuxinator_config_dir_under(home);
            Some(config_contents(project, config, dir.as_str(), root.as_str()))
        },
        None => None,
    }
}

/// The text of the configuration for a project under the home directory of
/// the current user.
///
/// `None` if the project has no containing directory or if the home
/// directory is not known; otherwise what [`config_contents_under`] gives
/// for the home directory found.
pub fn get_config_contents(project: &Repo, config: TmuxinatorConfig) -> (content: Option<String>)
    ensures
        project@.project_dir is None ==> content is None,
        content is Some ==> exists|home: Seq<char>|
            config_text_under(
                project@,
                texts_or(config@.window_names, DEFAULT_WINDOW_NAME@),
                texts_or(config@.start_commands, DEFAULT_START_COMMAND@),
                home,
            ) == Some(content->0@),
{
    match home_dir() {
        Some(home) => config_contents_under(project, &config, home.as_str()),
        None => None,
    }
}

/// A session configuration to write: where, and what.
pub struct ConfigFile {
    /// The path of the file.
    pub path: String,
    /// The text of the file.
    pub contents: String,
}

/// The session configuration to write for a project under the given home
/// directory, or `None` if the project has no containing directory.
///
/// The file is named after the project and lies in the configuration
/// directory; it holds the configuration text without the whitespace around
/// it.
pub fn create_tmuxinator_config(project: &Repo, config: &TmuxinatorConfig, home: &str) -> (file:
    Option<ConfigFile>)
    ensures
        file is Some == root_under(project@, home@) is Some,
        file is Some ==> file->0.path@ == joined(
            config_dir_under(home@),
            config_file_of(project@.name),
        ) && file->0.contents@ == trimmed(
            config_text_under(
                project@,
                texts_or(config@.window_names, DEFAULT_WINDOW_NAME@),
                texts_or(config@.start_commands, DEFAULT_START_COMMAND@),
                home@,
            )->0,
        ),
{
    match config_contents_under(project, config, home) {
        Some(contents) => {
            let dir = tmuxinator_config_dir_under(home);
            let path = join_path(dir.as_str(), config_filename(project).as_str());
            Some(ConfigFile { path, contents: trim_text(contents.as_str()) })
        },
        None => None,
    }
}

/// What deleting a project's configuration has to remove: the project's
/// configuration file if it exists among the listed files, and nothing
/// otherwise. Deleting what is absent is no error.
pub fn delete_tmuxinator(project: &Repo, config_files: &Vec<String>) -> (remove: Option<String>)
    ensures
        remove is Some == config_exists(views(config_files@), project@.name),
        remove is Some ==> remove->0@ == config_file_of(project@.name),
{
    if tmuxinator_project_exist(project, config_files) {
        Some(config_filename(project))
    } else {
        None
    }
}

/// Once a project's configuration file is gone from the listing, deleting
/// the configuration again removes nothing.
pub proof fn law_delete_twice(files: Seq<Seq<char>>, name: Seq<char>)
    requires
        forall|i: int| 0 <= i < files.len() ==> #[trigger] files[i] != config_file_of(name),
    ensures
        !config_exists(files, name),
    decreases files.len(),
{
    if files.len() > 0 {
        let shorter = files.drop_last();
        assert forall|i: int| 0 <= i < shorter.len() implies #[trigger] shorter[i]
            != config_file_of(name) by {
            assert(shorter[i] == files[i]);
        }
        law_delete_twice(shorter, name);
        assert(files.last() == files[files.len() - 1]);
    }
}

/// How a session for a project is started.
pub struct SessionStart {
    /// Whether the project's configuration has to be written first.
    pub write_config: bool,
    /// The shell command that starts the session.
    pub command: String,
}

/// Decides how to start a session with the session manager: the
/// configuration is written first if a fresh one is asked for or if none
/// exists, and the session is started by name.
pub fn run_tmuxinator(
    project: &Repo,
    config: &TmuxinatorConfig,
    config_files: &Vec<String>,
) -> (start: SessionStart)
    ensures
        start.write_config == (crate::config::flag_or(config@.fresh_config, false)
            || !config_exists(views(config_files@), project@.name)),
        start.command@ == "tmuxinator start "@ + project@.name,
{
    let write_config = config.fresh_config() || !tmuxinator_project_exist(project, config_files);
    let mut command = String::new();
    command.append("tmuxinator start ");
    command.append(project.name().as_str());
    assert(command@ =~= "tmuxinator start "@ + project@.name);
    SessionStart { write_config, command }
}

/// Whether a session called `name` is among the active sessions.
pub open spec fn session_active(active: Seq<Seq<char>>, name: Seq<char>) -> bool {
    exists|i: int| 0 <= i < active.len() && active[i] == name
}

/// The shell command that opens a plain session for a project: attach to
/// the session of the project's name if one is active, else create one in
/// the project's root.
pub open spec fn tmux_command(name: Seq<char>, root: Seq<char>, active: Seq<Seq<char>>) -> Seq<
    char,
> {
    if session_active(active, name) {
        "tmux a -t "@ + name
    } else {
        "tmux new -s "@ + name + " -c "@ + root
    }
}

/// The shell command that opens a plain session for a project.
pub fn run_tmux(project: &Repo, active_sessions: &Vec<String>, project_root: &str) -> (command:
    String)
    ensures
        command@ == tmux_command(project@.name, project_root@, views(active_sessions@)),
{
    let name = project.name();
    let mut active = false;
    let mut i: usize = 0;
    while i < active_sessions.len() && !active
        invariant
            i <= active_sessions.len(),
            name@ == project@.name,
            active ==> session_active(views(active_sessions@), name@),
            !active ==> forall|k: int| 0 <= k < i ==> views(active_sessions@)[k] != name@,
        decreases active_sessions.len() - i + if active { 0int } else { 1int },
    {
        if same_text(active_sessions[i].as_str(), name.as_str()) {
            assert(views(active_sessions@)[i as int] == name@);
            active = true;
        } else {
            i += 1;
        }
    }
    let mut command = String::new();
    if active {
        command.append("tmux a -t ");
        command.append(name.as_str());
        assert(command@ =~= "tmux a -t "@ + name@);
    } else {
        command.append("tmux new -s ");
        command.append(name.as_str());
        command.append(" -c ");
        command.append(project_root);
        assert(command@ =~= "tmux new -s "@ + name@ + " -c "@ + project_root@);
    }
    command
}

/// A line without the carriage return that ended it, if its line feed
/// was preceded by one.
pub open spec fn line_content(raw: Seq<char>, ended: bool) -> Seq<char> {
    if ended && raw.len() > 0 && raw.last() == '\r' {
        raw.drop_last()
    } else {
        raw
    }
}

/// The names of the sessions in a session listing: for each line that is
/// not empty, what stands before its first `:`.
pub open spec fn session_names(listing: Seq<char>) -> Seq<Seq<char>>
    decreases listing.len(),
    via session_names_terminates
{
    if listing.len() == 0 {
        Seq::empty()
    } else {
        let n = run_before(listing, '\n');
        let ended = n < listing.len();
        let line = line_content(listing.take(n as int), ended);
        let rest = if ended {
            listing.skip(n + 1 as int)
        } else {
            Seq::empty()
        };
        if line.len() == 0 {
            session_names(rest)
        } else {
            seq![line.take(run_before(line, ':') as int)] + session_names(rest)
        }
    }
}

#[via_fn]
proof fn session_names_terminates(listing: Seq<char>) {
    if listing.len() != 0 {
        lemma_run_before_bound(listing, '\n');
    }
}

/// Reads the names of the active sessions from a session listing.
pub fn get_active_tmux_session(listing: &str) -> (names: Vec<String>)
    ensures
        views(names@) == session_names(listing@),
{
    let chars = chars_of(listing);
    let mut names: Vec<String> = Vec::new();
    let mut i: usize = 0;
    assert(chars@.skip(0) =~= chars@);
    assert(views(names@) =~= Seq::<Seq<char>>::empty());
    while i < chars.len()
        invariant
            i <= chars.len(),
            chars@ == listing@,
            session_names(listing@) =~= views(names@) + session_names(chars@.skip(i as int)),
        decreases chars.len() - i,
    {
        let ghost rest = chars@.skip(i as int);
        let end = find_from(&chars, i, '\n');
        let ended = end < chars.len();
        let mut stop = end;
        if ended && end > i && chars[end - 1] == '\r' {
            stop = end - 1;
        }
        let ghost line = line_content(rest.take(run_before(rest, '\n') as int), ended);
        proof {
            assert(rest.take(run_before(rest, '\n') as int) =~= chars@.subrange(
                i as int,
                end as int,
            ));
            assert(line =~= chars@.subrange(i as int, stop as int));
        }
        if stop > i {
            let line_chars = string_of(&chars, i, stop);
            let line_vec = chars_of(line_chars.as_str());
            assert(line_vec@.skip(0) =~= line_vec@);
            let colon = find_from(&line_vec, 0, ':');
            let name = string_of(&line_vec, 0, colon);
            proof {
                assert(name@ =~= line.take(run_before(line, ':') as int));
                assert(views(names@.push(name)) =~= views(names@).push(name@));
            }
            names.push(name);
        }
        if ended {
            proof {
                assert(rest.skip(run_before(rest, '\n') + 1 as int) =~= chars@.skip(end + 1));
            }
            i = end + 1;
        } else {
            i = end;
            assert(chars@.skip(i as int) =~= Seq::<char>::empty());
        }
    }
    assert(chars@.skip(i as int).len() == 0);
    names
}

} // verus!
