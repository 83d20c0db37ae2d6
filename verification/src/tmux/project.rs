//! Maps a [`ProjectConfig`] to tmux commands and operations.
use super::commands::{Commands, CommandsView, TMUX_BIN};
use super::error::{TmuxError, TmuxErrorView};
use super::session::{
    attach_command, build_commands, focus_commands, hook_commands, hook_parts, hook_window_parts,
    indices_fit, layout_commands, layout_hook, new_window_for, pane_commands, pane_key, pane_keys,
    panes_commands, pre_window_key, pre_window_keys, prologue, root_of, run_commands, script_of,
    split_for, stop_commands, window_commands, windows_commands, LAYOUT_HOOK, ROOT_COMMENT,
};
use super::version::{version_of_report, TmuxVersion};
use crate::command::{Cmd, CmdView};
use crate::project_config::project::{ProjectConfig, ProjectConfigView};
use crate::project_config::window::Window;
use crate::text::{
    clone_optional, clone_optional_strings, decimal_string, join_strings, lines, parse_usize,
    parse_usize_spec, push_string, second_field, second_field_of, split_lines, text_of_bytes,
};
use vstd::prelude::*;
use vstd::string::*;
use vstd::utf8::{decode_utf8, valid_utf8};

verus! {

/// The message of the error for a tmux whose settings cannot be read.
pub const READ_ERROR: &'static str = "Cannot get tmux version and config options";

/// Stores tmux configuration information.
///
/// User configuration can alter settings, e.g. the base index of a window (0, 1).
#[derive(Debug, Clone, Copy, PartialEq, Eq)]
pub struct Tmux {
    /// Base index for a new window.
    pub base_index: usize,
    /// Base index for a new pane.
    pub pane_base_index: usize,
    /// Tmux version.
    pub version: TmuxVersion,
}

/// The number that a line of settings gives: the second of its fields.
pub open spec fn setting_of(line: Seq<char>) -> Option<usize> {
    match second_field(line) {
        Some(field) => parse_usize_spec(field),
        None => None,
    }
}

/// The settings that the bytes of tmux's answer hold: none where the bytes are no
/// UTF-8 text.
pub open spec fn probed_bytes(output: Seq<u8>) -> Option<Tmux> {
    if valid_utf8(output) {
        probed(decode_utf8(output))
    } else {
        None
    }
}

/// The settings that tmux's answer holds: two lines that give `base-index` and
/// `pane-base-index`, and after them the version, if tmux reports one. Any other answer
/// holds none.
pub open spec fn probed(output: Seq<char>) -> Option<Tmux> {
    let answer = lines(output);
    if answer.len() == 2 || answer.len() == 3 {
        match (setting_of(answer[0]), setting_of(answer[1])) {
            (Some(base_index), Some(pane_base_index)) => Some(
                Tmux {
                    base_index,
                    pane_base_index,
                    version: version_of_report(
                        if answer.len() == 3 {
                            Some(answer[2])
                        } else {
                            None
                        },
                    ),
                },
            ),
            _ => None,
        }
    } else {
        None
    }
}

fn read_setting(line: &str) -> (value: Option<usize>)
    ensures
        value == setting_of(line@),
{
    match second_field_of(line) {
        Some(field) => parse_usize(field.as_str()),
        None => None,
    }
}

impl Tmux {
    /// Creates a new `Tmux` with the given `base-index`, `pane-base-index` and version.
    pub fn new(base_index: usize, pane_base_index: usize, version: TmuxVersion) -> (tmux: Tmux)
        ensures
            tmux == (Tmux { base_index, pane_base_index, version }),
    {
        Tmux { base_index, pane_base_index, version }
    }

    /// The process that asks the installed tmux for `base-index`, `pane-base-index`
    /// and its version, one line each.
    pub fn probe_command() -> (cmd: Cmd)
        ensures
            cmd.deep_view() == (CmdView {
                command: seq![
                    TMUX_BIN@,
                    "start"@,
                    ";"@,
                    "show"@,
                    "-g"@,
                    "base-index"@,
                    ";"@,
                    "show"@,
                    "-g"@,
                    "pane-base-index"@,
                    ";"@,
                    "display-message"@,
                    "-p"@,
                    "#{version}"@,
                ],
                reset_tmux_env: false,
                as_debug: None,
            }),
    {
        let mut command: Vec<String> = Vec::new();
        command.push(String::from_str(TMUX_BIN));
        command.push(String::from_str("start"));
        command.push(String::from_str(";"));
        command.push(String::from_str("show"));
        command.push(String::from_str("-g"));
        command.push(String::from_str("base-index"));
        command.push(String::from_str(";"));
        command.push(String::from_str("show"));
        command.push(String::from_str("-g"));
        command.push(String::from_str("pane-base-index"));
        command.push(String::from_str(";"));
        command.push(String::from_str("display-message"));
        command.push(String::from_str("-p"));
        command.push(String::from_str("#{version}"));
        assert(command.deep_view() =~= seq![
            TMUX_BIN@,
            "start"@,
            ";"@,
            "show"@,
            "-g"@,
            "base-index"@,
            ";"@,
            "show"@,
            "-g"@,
            "pane-base-index"@,
            ";"@,
            "display-message"@,
            "-p"@,
            "#{version}"@,
        ]);
        Cmd::new(command, false, None)
    }

    /// Reads the settings out of the bytes that tmux wrote in answer to
    /// [`Tmux::probe_command`].
    pub fn new_from_output(output: Vec<u8>) -> (result: Result<Tmux, TmuxError>)
        ensures
            match result {
                Ok(tmux) => probed_bytes(output@) == Some(tmux),
                Err(error) => probed_bytes(output@) is None && error.deep_view()
                    == TmuxErrorView::Message(READ_ERROR@),
            },
    {
        match text_of_bytes(output) {
            Some(answer) => Tmux::new_from_config(answer.as_str()),
            None => Err(TmuxError::Message(String::from_str(READ_ERROR))),
        }
    }

    /// Reads the settings out of what tmux answered to [`Tmux::probe_command`].
    pub fn new_from_config(output: &str) -> (result: Result<Tmux, TmuxError>)
        ensures
            match result {
                Ok(tmux) => probed(output@) == Some(tmux),
                Err(error) => probed(output@) is None && error.deep_view()
                    == TmuxErrorView::Message(READ_ERROR@),
            },
    {
        let answer = split_lines(output);
        if answer.len() != 2 && answer.len() != 3 {
            return Err(TmuxError::Message(String::from_str(READ_ERROR)));
        }
        let base_index = match read_setting(answer[0].as_str()) {
            Some(value) => value,
            None => {
                return Err(TmuxError::Message(String::from_str(READ_ERROR)));
            },
        };
        let pane_base_index = match read_setting(answer[1].as_str()) {
            Some(value) => value,
            None => {
                return Err(TmuxError::Message(String::from_str(READ_ERROR)));
            },
        };
        let version = if answer.len() == 3 {
            TmuxVersion::from(Some(answer[2].as_str()))
        } else {
            TmuxVersion::from(None)
        };
        Ok(Tmux::new(base_index, pane_base_index, version))
    }
}

fn no_commands() -> (commands: Vec<Commands>)
    ensures
        commands.deep_view() == Seq::<CommandsView>::empty(),
{
    let commands: Vec<Commands> = Vec::new();
    assert(commands.deep_view() =~= Seq::empty());
    commands
}

fn push_command(commands: &mut Vec<Commands>, command: Commands)
    ensures
        final(commands).deep_view() == old(commands).deep_view().push(command.deep_view()),
{
    commands.push(command);
    assert(commands.deep_view() =~= old(commands).deep_view().push(command.deep_view()));
}

fn append_commands(commands: &mut Vec<Commands>, more: Vec<Commands>)
    ensures
        final(commands).deep_view() == old(commands).deep_view() + more.deep_view(),
{
    let mut rest = more;
    commands.append(&mut rest);
    assert(commands.deep_view() =~= old(commands).deep_view() + more.deep_view());
}

fn root_for(project: &ProjectConfig, window: &Window) -> (root: Option<String>)
    ensures
        root.deep_view() == root_of(project.deep_view(), window.deep_view()),
{
    match &window.root {
        Some(root) => Some(root.clone()),
        None => clone_optional(&project.project_root),
    }
}

fn pre_window_keys_for(
    project: &ProjectConfig,
    tmux: &Tmux,
    idx: usize,
    window: &Window,
    pane_idx: usize,
) -> (keys: Vec<Commands>)
    requires
        tmux.base_index + idx <= usize::MAX,
        tmux.pane_base_index + pane_idx <= usize::MAX,
    ensures
        keys.deep_view() == pre_window_keys(
            project.deep_view(),
            *tmux,
            idx as int,
            window.deep_view(),
            pane_idx as int,
        ),
{
    let mut keys: Vec<Commands> = Vec::new();
    match &project.pre_window {
        Some(commands) => {
            let mut k: usize = 0;
            while k < commands.len()
                invariant
                    k <= commands.len(),
                    keys.len() == k,
                    tmux.base_index + idx <= usize::MAX,
                    tmux.pane_base_index + pane_idx <= usize::MAX,
                    project.pre_window == Some(*commands),
                    forall|j: int|
                        0 <= j < k ==> (#[trigger] keys[j]).deep_view() == pre_window_key(
                            project.deep_view(),
                            *tmux,
                            idx as int,
                            window.deep_view(),
                            pane_idx as int,
                            j,
                        ),
                decreases commands.len() - k,
            {
                let comment = if idx == 0 && pane_idx == 0 && k == 0 {
                    let mut text = String::from_str("Continue \"");
                    text.append(window.name.as_str());
                    text.append("\" window");
                    Some(text)
                } else {
                    None
                };
                keys.push(
                    Commands::SendKeys {
                        command: commands[k].clone(),
                        session_name: project.project_name.clone(),
                        window_index: idx + tmux.base_index,
                        pane_index: Some(pane_idx + tmux.pane_base_index),
                        comment,
                    },
                );
                k += 1;
            }
        },
        None => {},
    }
    assert(keys.deep_view() =~= pre_window_keys(
        project.deep_view(),
        *tmux,
        idx as int,
        window.deep_view(),
        pane_idx as int,
    ));
    keys
}

fn pane_keys_for(
    project: &ProjectConfig,
    tmux: &Tmux,
    idx: usize,
    pane_idx: usize,
    pane: &Option<Vec<String>>,
) -> (keys: Vec<Commands>)
    requires
        tmux.base_index + idx <= usize::MAX,
        tmux.pane_base_index + pane_idx <= usize::MAX,
    ensures
        keys.deep_view() == pane_keys(
            project.deep_view(),
            *tmux,
            idx as int,
            pane_idx as int,
            pane.deep_view(),
        ),
{
    let mut keys: Vec<Commands> = Vec::new();
    match pane {
        Some(commands) => {
            let mut k: usize = 0;
            while k < commands.len()
                invariant
                    k <= commands.len(),
                    keys.len() == k,
                    tmux.base_index + idx <= usize::MAX,
                    tmux.pane_base_index + pane_idx <= usize::MAX,
                    forall|j: int|
                        0 <= j < k ==> (#[trigger] keys[j]).deep_view() == pane_key(
                            project.deep_view(),
                            *tmux,
                            idx as int,
                            pane_idx as int,
                            commands.deep_view(),
                            j,
                        ),
                decreases commands.len() - k,
            {
                keys.push(
                    Commands::SendKeys {
                        command: commands[k].clone(),
                        session_name: project.project_name.clone(),
                        window_index: idx + tmux.base_index,
                        pane_index: Some(pane_idx + tmux.pane_base_index),
                        comment: None,
                    },
                );
                k += 1;
            }
        },
        None => {},
    }
    assert(keys.deep_view() =~= pane_keys(
        project.deep_view(),
        *tmux,
        idx as int,
        pane_idx as int,
        pane.deep_view(),
    ));
    keys
}

fn pane_commands_for(
    project: &ProjectConfig,
    tmux: &Tmux,
    idx: usize,
    window: &Window,
    pane_idx: usize,
) -> (commands: Vec<Commands>)
    requires
        tmux.base_index + idx <= usize::MAX,
        tmux.pane_base_index + pane_idx <= usize::MAX,
        pane_idx < window.panes.len(),
    ensures
        commands.deep_view() == pane_commands(
            project.deep_view(),
            *tmux,
            idx as int,
            window.deep_view(),
            pane_idx as int,
        ),
{
    let mut commands = no_commands();
    if pane_idx > 0 {
        push_command(
            &mut commands,
            Commands::SplitWindow {
                session_name: project.project_name.clone(),
                window_index: idx + tmux.base_index,
                project_root: root_for(project, window),
            },
        );
    }
    assert(commands.deep_view() =~= split_for(
        project.deep_view(),
        *tmux,
        idx as int,
        window.deep_view(),
        pane_idx as int,
    ));
    append_commands(&mut commands, pre_window_keys_for(project, tmux, idx, window, pane_idx));
    append_commands(
        &mut commands,
        pane_keys_for(project, tmux, idx, pane_idx, &window.panes[pane_idx]),
    );
    commands
}

fn window_commands_for(
    project: &ProjectConfig,
    tmux: &Tmux,
    idx: usize,
    window: &Window,
) -> (commands: Vec<Commands>)
    requires
        tmux.base_index + idx <= usize::MAX,
        tmux.pane_base_index + window.panes.len() <= usize::MAX,
    ensures
        commands.deep_view() == window_commands(
            project.deep_view(),
            *tmux,
            idx as int,
            window.deep_view(),
        ),
{
    let ghost p = project.deep_view();
    let ghost w = window.deep_view();
    let mut commands = no_commands();
    if idx > 0 {
        push_command(
            &mut commands,
            Commands::NewWindow {
                session_name: project.project_name.clone(),
                window_name: window.name.clone(),
                window_index: idx + tmux.base_index,
                project_root: root_for(project, window),
            },
        );
    }
    assert(commands.deep_view() =~= new_window_for(p, *tmux, idx as int, w) + panes_commands(
        p,
        *tmux,
        idx as int,
        w,
        0,
    ));
    let mut pane_idx: usize = 0;
    while pane_idx < window.panes.len()
        invariant
            pane_idx <= window.panes.len(),
            tmux.base_index + idx <= usize::MAX,
            tmux.pane_base_index + window.panes.len() <= usize::MAX,
            p == project.deep_view(),
            w == window.deep_view(),
            commands.deep_view() == new_window_for(p, *tmux, idx as int, w) + panes_commands(
                p,
                *tmux,
                idx as int,
                w,
                pane_idx as nat,
            ),
        decreases window.panes.len() - pane_idx,
    {
        let more = pane_commands_for(project, tmux, idx, window, pane_idx);
        append_commands(&mut commands, more);
        proof {
            let head = new_window_for(p, *tmux, idx as int, w);
            let done = panes_commands(p, *tmux, idx as int, w, pane_idx as nat);
            let next = pane_commands(p, *tmux, idx as int, w, pane_idx as int);
            assert((head + done) + next =~= head + (done + next));
        }
        pane_idx += 1;
    }
    if window.panes.len() > 1 {
        let ghost before = commands.deep_view();
        push_command(
            &mut commands,
            Commands::SelectLayout {
                session_name: project.project_name.clone(),
                window_index: idx + tmux.base_index,
                layout: window.layout.clone(),
            },
        );
        push_command(
            &mut commands,
            Commands::SelectPane {
                session_name: project.project_name.clone(),
                window_index: idx + tmux.base_index,
                pane_index: tmux.pane_base_index,
            },
        );
        assert(commands.deep_view() =~= before + layout_commands(p, *tmux, idx as int, w));
    } else {
        assert(commands.deep_view() =~= commands.deep_view() + layout_commands(
            p,
            *tmux,
            idx as int,
            w,
        ));
    }
    commands
}

fn hook_parts_for(project: &ProjectConfig, tmux: &Tmux) -> (parts: Vec<String>)
    requires
        indices_fit(project.deep_view(), *tmux),
    ensures
        parts.deep_view() == hook_parts(project.deep_view(), *tmux),
{
    let ghost p = project.deep_view();
    let mut parts: Vec<String> = Vec::new();
    assert(parts.deep_view() =~= hook_window_parts(*tmux, p.window_list(), 0));
    match &project.windows {
        Some(windows) => {
            assert(windows.deep_view() == p.window_list());
            let mut idx: usize = 0;
            while idx < windows.len()
                invariant
                    idx <= windows.len(),
                    p == project.deep_view(),
                    windows.deep_view() == p.window_list(),
                    tmux.base_index + windows.len() <= usize::MAX,
                    parts.deep_view() == hook_window_parts(*tmux, p.window_list(), idx as nat),
                decreases windows.len() - idx,
            {
                let mut select = String::from_str("selectw -t ");
                let number = decimal_string(tmux.base_index + idx);
                select.append(number.as_str());
                let mut layout = String::from_str("selectl ");
                layout.append(windows[idx].layout.as_str());
                push_string(&mut parts, select);
                push_string(&mut parts, layout);
                if idx > 0 {
                    push_string(&mut parts, String::from_str("selectw -l"));
                }
                proof {
                    assert(windows.deep_view()[idx as int] == windows[idx as int].deep_view());
                }
                idx += 1;
            }
        },
        None => {},
    }
    let mut unset = String::from_str("set-hook -u -t ");
    unset.append(project.project_name.as_str());
    unset.append(" ");
    unset.append(LAYOUT_HOOK);
    push_string(&mut parts, unset);
    parts
}

/// The tmux project, generates the required commands based on a
/// [`ProjectConfig`] and the [`Tmux`] settings.
#[derive(Debug)]
pub struct TmuxProject<'a> {
    tmux: Tmux,
    project: &'a ProjectConfig,
}

impl<'a> TmuxProject<'a> {
    #[verifier::type_invariant]
    spec fn every_index_fits(self) -> bool {
        indices_fit(self.project.deep_view(), self.tmux)
    }

    /// The model of the project that the commands are compiled from.
    pub closed spec fn project(&self) -> ProjectConfigView {
        self.project.deep_view()
    }

    /// The tmux settings that the commands are compiled for.
    pub closed spec fn tmux(&self) -> Tmux {
        self.tmux
    }

    /// True when every window and pane of the project has a tmux index that a
    /// `usize` holds, as [`TmuxProject::new`] asks.
    pub fn fits(project: &ProjectConfig, tmux: &Tmux) -> (fit: bool)
        ensures
            fit == indices_fit(project.deep_view(), *tmux),
    {
        match &project.windows {
            Some(windows) => {
                assert(windows.deep_view() == project.deep_view().window_list());
                if windows.len() > usize::MAX - tmux.base_index {
                    return false;
                }
                let mut i: usize = 0;
                while i < windows.len()
                    invariant
                        i <= windows.len(),
                        windows.deep_view() == project.deep_view().window_list(),
                        forall|k: int|
                            0 <= k < i ==> tmux.pane_base_index + (
                            #[trigger] project.deep_view().window_list()[k]).panes.len()
                                <= usize::MAX,
                    decreases windows.len() - i,
                {
                    assert(windows.deep_view()[i as int] == windows[i as int].deep_view());
                    if windows[i].panes.len() > usize::MAX - tmux.pane_base_index {
                        return false;
                    }
                    i += 1;
                }
                true
            },
            None => true,
        }
    }

    /// Creates a new tmux project from a [`ProjectConfig`] and the settings of the
    /// installed tmux.
    pub fn new(project: &'a ProjectConfig, tmux: Tmux) -> (compiler: TmuxProject<'a>)
        requires
            indices_fit(project.deep_view(), tmux),
        ensures
            compiler.project() == project.deep_view(),
            compiler.tmux() == tmux,
    {
        TmuxProject { tmux, project }
    }

    /// The process that tells, by its exit status, whether the project's session is
    /// already running.
    pub fn has_session_command(&self) -> (cmd: Cmd)
        ensures
            cmd.deep_view() == (CmdView {
                command: seq![TMUX_BIN@, "has-session"@, "-t"@, self.project().project_name],
                reset_tmux_env: true,
                as_debug: None,
            }),
    {
        let mut command: Vec<String> = Vec::new();
        command.push(String::from_str(TMUX_BIN));
        command.push(String::from_str("has-session"));
        command.push(String::from_str("-t"));
        command.push(self.project.project_name.clone());
        assert(command.deep_view() =~= seq![
            TMUX_BIN@,
            "has-session"@,
            "-t"@,
            self.project().project_name,
        ]);
        Cmd::new(command, true, None)
    }

    /// The commands for the window at position `idx` of the project, and its panes;
    /// `idx` is `0` based, and is adjusted for the `base-index` and `pane-base-index`
    /// of tmux.
    pub fn get_window_commands(&self, idx: usize) -> (commands: Vec<Commands>)
        requires
            idx < self.project().window_list().len(),
        ensures
            commands.deep_view() == window_commands(
                self.project(),
                self.tmux(),
                idx as int,
                self.project().window_list()[idx as int],
            ),
    {
        proof {
            use_type_invariant(self);
        }
        match &self.project.windows {
            Some(windows) => {
                assert(windows.deep_view() == self.project().window_list());
                assert(windows.deep_view()[idx as int] == windows[idx as int].deep_view());
                window_commands_for(self.project, &self.tmux, idx, &windows[idx])
            },
            None => no_commands(),
        }
    }

    /// The hook that applies the layouts again once a client has attached.
    pub fn get_layout_hooks_command(&self) -> (hook: Option<Commands>)
        ensures
            hook.deep_view() == layout_hook(self.project(), self.tmux()),
    {
        proof {
            use_type_invariant(self);
        }
        let count = match &self.project.windows {
            Some(windows) => windows.len(),
            None => 0,
        };
        if count == 0 {
            return None;
        }
        let parts = hook_parts_for(self.project, &self.tmux);
        Some(
            Commands::SetHook {
                session_name: self.project.project_name.clone(),
                hook_name: String::from_str(LAYOUT_HOOK),
                hook_command: join_strings(&parts, ";"),
            },
        )
    }

    /// The command that attaches to the session.
    pub fn get_attach_session_command(&self) -> (command: Commands)
        ensures
            command.deep_view() == attach_command(self.project()),
    {
        Commands::AttachSession { session_name: self.project.project_name.clone() }
    }

    /// The commands that stop a running session.
    pub fn get_stop_session_commands(&self) -> (commands: Vec<Commands>)
        ensures
            commands.deep_view() == stop_commands(self.project()),
    {
        let mut commands = no_commands();
        push_command(
            &mut commands,
            Commands::StopSession { session_name: self.project.project_name.clone() },
        );
        push_command(
            &mut commands,
            Commands::ProjectEvent {
                event_name: String::from_str("stop"),
                on_event: clone_optional_strings(&self.project.on_project_stop),
            },
        );
        commands
    }

    /// The commands that create the project's session.
    pub fn get_commands(&self) -> (commands: Vec<Commands>)
        ensures
            commands.deep_view() == build_commands(self.project(), self.tmux()),
    {
        proof {
            use_type_invariant(self);
        }
        let ghost p = self.project();
        let ghost t = self.tmux();
        let project = self.project;
        let first = match &project.windows {
            Some(windows) => {
                assert(windows.deep_view() == p.window_list());
                if windows.len() > 0 {
                    assert(windows.deep_view()[0] == windows[0].deep_view());
                    Some(windows[0].name.clone())
                } else {
                    None
                }
            },
            None => None,
        };
        let mut commands = no_commands();
        push_command(
            &mut commands,
            Commands::Server {
                project_name: project.project_name.clone(),
                project_root: clone_optional(&project.project_root),
            },
        );
        push_command(
            &mut commands,
            Commands::ProjectEvent {
                event_name: String::from_str("start"),
                on_event: clone_optional_strings(&project.on_project_start),
            },
        );
        push_command(
            &mut commands,
            Commands::Session {
                project_name: project.project_name.clone(),
                first_window_name: first,
            },
        );
        match &project.project_root {
            Some(root) => {
                let mut cd = String::from_str("cd ");
                cd.append(root.as_str());
                push_command(
                    &mut commands,
                    Commands::SendKeys {
                        command: cd,
                        session_name: project.project_name.clone(),
                        window_index: self.tmux.base_index,
                        pane_index: None,
                        comment: Some(String::from_str(ROOT_COMMENT)),
                    },
                );
            },
            None => {},
        }
        assert(commands.deep_view() =~= prologue(p, t) + windows_commands(p, t, 0));
        match &project.windows {
            Some(windows) => {
                let mut idx: usize = 0;
                while idx < windows.len()
                    invariant
                        idx <= windows.len(),
                        p == project.deep_view(),
                        t == self.tmux,
                        indices_fit(p, t),
                        windows.deep_view() == p.window_list(),
                        commands.deep_view() == prologue(p, t) + windows_commands(
                            p,
                            t,
                            idx as nat,
                        ),
                    decreases windows.len() - idx,
                {
                    assert(windows.deep_view()[idx as int] == windows[idx as int].deep_view());
                    let more = window_commands_for(project, &self.tmux, idx, &windows[idx]);
                    append_commands(&mut commands, more);
                    proof {
                        let done = windows_commands(p, t, idx as nat);
                        let next = window_commands(p, t, idx as int, p.window_list()[idx as int]);
                        assert((prologue(p, t) + done) + next =~= prologue(p, t) + (done + next));
                    }
                    idx += 1;
                }
                if windows.len() > 0 {
                    // select 1st window and 1st pane
                    push_command(
                        &mut commands,
                        Commands::SelectWindow {
                            session_name: project.project_name.clone(),
                            window_index: self.tmux.base_index,
                        },
                    );
                    push_command(
                        &mut commands,
                        Commands::SelectPane {
                            session_name: project.project_name.clone(),
                            window_index: self.tmux.base_index,
                            pane_index: self.tmux.pane_base_index,
                        },
                    );
                }
            },
            None => {},
        }
        let ghost body = prologue(p, t) + windows_commands(p, t, p.window_list().len());
        assert(commands.deep_view() =~= body + focus_commands(p, t));
        if self.tmux.version.at_least(&TmuxVersion::Version(2, 6)) {
            match self.get_layout_hooks_command() {
                Some(hook) => {
                    push_command(&mut commands, hook);
                },
                None => {},
            }
        }
        assert(commands.deep_view() =~= body + focus_commands(p, t) + hook_commands(p, t));
        push_command(&mut commands, self.get_attach_session_command());
        push_command(
            &mut commands,
            Commands::ProjectEvent {
                event_name: String::from_str("exit"),
                on_event: clone_optional_strings(&project.on_project_exit),
            },
        );
        assert(commands.deep_view() =~= build_commands(p, t));
        commands
    }

    /// The commands of a run, which the caller runs in order:
    ///
    /// - only the attach, where the session is running already;
    /// - else the commands that create the session.
    pub fn run(&self, session_exists: bool) -> (commands: Vec<Commands>)
        ensures
            commands.deep_view() == run_commands(self.project(), self.tmux(), session_exists),
            session_exists ==> commands.deep_view() == seq![attach_command(self.project())],
    {
        if session_exists {
            let mut commands = no_commands();
            push_command(&mut commands, self.get_attach_session_command());
            commands
        } else {
            self.get_commands()
        }
    }

    /// The commands that stop the project's session and run `on_project_stop`
    /// (if specified), which the caller runs in order.
    pub fn stop(&self) -> (commands: Vec<Commands>)
        ensures
            commands.deep_view() == stop_commands(self.project()),
    {
        self.get_stop_session_commands()
    }

    /// The shell script that creates the project's session. `shell` is the user's
    /// shell, which the head of the script names.
    pub fn render(&self, shell: Option<&str>) -> (script: String)
        ensures
            script@ == script_of(build_commands(self.project(), self.tmux()), shell.deep_view()),
    {
        let commands = self.get_commands();
        let mut texts: Vec<String> = Vec::new();
        let mut i: usize = 0;
        while i < commands.len()
            invariant
                i <= commands.len(),
                texts.len() == i,
                forall|k: int|
                    0 <= k < i ==> (#[trigger] texts[k])@ == commands[k].deep_view().text(
                        shell.deep_view(),
                    ),
            decreases commands.len() - i,
        {
            texts.push(commands[i].render(shell));
            i += 1;
        }
        assert(texts.deep_view() =~= Seq::new(
            commands.deep_view().len(),
            |i: int| commands.deep_view()[i].text(shell.deep_view()),
        ));
        join_strings(&texts, "\n")
    }
}

} // verus!
