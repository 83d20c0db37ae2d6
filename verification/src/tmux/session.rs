//! The commands of a session, in order: what is compiled for a project and the
//! settings of the installed tmux.
use super::commands::CommandsView;
use super::project::Tmux;
use super::version::TmuxVersion;
use crate::project_config::project::ProjectConfigView;
use crate::project_config::window::WindowView;
use crate::text::{decimal_of, join};
use vstd::prelude::*;

verus! {

/// The event on which tmux applies the layouts again.
pub const LAYOUT_HOOK: &'static str = "client-session-changed";

/// The comment above the keys that change into the project's root.
pub const ROOT_COMMENT: &'static str =
    "Manually switch to root directory if required to support tmux < 1.9";

/// The tmux index of the window at position `idx` of the project.
pub open spec fn window_number(tmux: Tmux, idx: int) -> usize {
    (tmux.base_index + idx) as usize
}

/// The tmux index of the pane at position `pane_idx` of its window.
pub open spec fn pane_number(tmux: Tmux, pane_idx: int) -> usize {
    (tmux.pane_base_index + pane_idx) as usize
}

/// True when every window and pane of the project has a tmux index that a `usize`
/// holds.
pub open spec fn indices_fit(project: ProjectConfigView, tmux: Tmux) -> bool {
    &&& tmux.base_index + project.window_list().len() <= usize::MAX
    &&& forall|i: int|
        0 <= i < project.window_list().len() ==> tmux.pane_base_index + (
        #[trigger] project.window_list()[i]).panes.len() <= usize::MAX
}

/// The working directory of a window: its own root, else the project's.
pub open spec fn root_of(project: ProjectConfigView, window: WindowView) -> Option<Seq<char>> {
    match window.root {
        Some(root) => Some(root),
        None => project.project_root,
    }
}

/// The comment above the first keys that are sent to the first window.
pub open spec fn continue_comment(window_name: Seq<char>) -> Seq<char> {
    "Continue \""@ + window_name + "\" window"@
}

/// The keys of the `k`-th `pre_window` command for one pane. The very first of the
/// whole build carries the comment.
pub open spec fn pre_window_key(
    project: ProjectConfigView,
    tmux: Tmux,
    idx: int,
    window: WindowView,
    pane_idx: int,
    k: int,
) -> CommandsView {
    CommandsView::SendKeys {
        command: project.pre_window->Some_0[k],
        session_name: project.project_name,
        window_index: window_number(tmux, idx),
        pane_index: Some(pane_number(tmux, pane_idx)),
        comment: if idx == 0 && pane_idx == 0 && k == 0 {
            Some(continue_comment(window.name))
        } else {
            None
        },
    }
}

/// The keys of the `pre_window` commands for one pane, in order.
pub open spec fn pre_window_keys(
    project: ProjectConfigView,
    tmux: Tmux,
    idx: int,
    window: WindowView,
    pane_idx: int,
) -> Seq<CommandsView> {
    match project.pre_window {
        Some(commands) => Seq::new(
            commands.len(),
            |k: int| pre_window_key(project, tmux, idx, window, pane_idx, k),
        ),
        None => Seq::empty(),
    }
}

/// The keys of the `k`-th command of a pane.
pub open spec fn pane_key(
    project: ProjectConfigView,
    tmux: Tmux,
    idx: int,
    pane_idx: int,
    commands: Seq<Seq<char>>,
    k: int,
) -> CommandsView {
    CommandsView::SendKeys {
        command: commands[k],
        session_name: project.project_name,
        window_index: window_number(tmux, idx),
        pane_index: Some(pane_number(tmux, pane_idx)),
        comment: None,
    }
}

/// The keys of a pane's own commands, in order.
pub open spec fn pane_keys(
    project: ProjectConfigView,
    tmux: Tmux,
    idx: int,
    pane_idx: int,
    pane: Option<Seq<Seq<char>>>,
) -> Seq<CommandsView> {
    match pane {
        Some(commands) => Seq::new(
            commands.len(),
            |k: int| pane_key(project, tmux, idx, pane_idx, commands, k),
        ),
        None => Seq::empty(),
    }
}

/// The split that makes room for a pane: none for the first pane of a window.
pub open spec fn split_for(
    project: ProjectConfigView,
    tmux: Tmux,
    idx: int,
    window: WindowView,
    pane_idx: int,
) -> Seq<CommandsView> {
    if pane_idx > 0 {
        seq![
            CommandsView::SplitWindow {
                session_name: project.project_name,
                window_index: window_number(tmux, idx),
                project_root: root_of(project, window),
            },
        ]
    } else {
        Seq::empty()
    }
}

/// The commands for one pane: the split, the `pre_window` keys, the pane's own keys.
pub open spec fn pane_commands(
    project: ProjectConfigView,
    tmux: Tmux,
    idx: int,
    window: WindowView,
    pane_idx: int,
) -> Seq<CommandsView> {
    split_for(project, tmux, idx, window, pane_idx) + pre_window_keys(
        project,
        tmux,
        idx,
        window,
        pane_idx,
    ) + pane_keys(project, tmux, idx, pane_idx, window.panes[pane_idx])
}

/// The commands for the first `count` panes of a window, in order.
pub open spec fn panes_commands(
    project: ProjectConfigView,
    tmux: Tmux,
    idx: int,
    window: WindowView,
    count: nat,
) -> Seq<CommandsView>
    decreases count,
{
    if count == 0 {
        Seq::empty()
    } else {
        panes_commands(project, tmux, idx, window, (count - 1) as nat) + pane_commands(
            project,
            tmux,
            idx,
            window,
            count - 1,
        )
    }
}

/// The creation of a window: none for the first window, which the session brings.
pub open spec fn new_window_for(
    project: ProjectConfigView,
    tmux: Tmux,
    idx: int,
    window: WindowView,
) -> Seq<CommandsView> {
    if idx > 0 {
        seq![
            CommandsView::NewWindow {
                session_name: project.project_name,
                window_name: window.name,
                window_index: window_number(tmux, idx),
                project_root: root_of(project, window),
            },
        ]
    } else {
        Seq::empty()
    }
}

/// The layout of a window with more than one pane, and the return to its first pane.
pub open spec fn layout_commands(
    project: ProjectConfigView,
    tmux: Tmux,
    idx: int,
    window: WindowView,
) -> Seq<CommandsView> {
    if window.panes.len() > 1 {
        seq![
            CommandsView::SelectLayout {
                session_name: project.project_name,
                window_index: window_number(tmux, idx),
                layout: window.layout,
            },
            CommandsView::SelectPane {
                session_name: project.project_name,
                window_index: window_number(tmux, idx),
                pane_index: tmux.pane_base_index,
            },
        ]
    } else {
        Seq::empty()
    }
}

/// The commands for the window at position `idx`: its creation, its panes in order,
/// and its layout once all its panes exist.
pub open spec fn window_commands(
    project: ProjectConfigView,
    tmux: Tmux,
    idx: int,
    window: WindowView,
) -> Seq<CommandsView> {
    new_window_for(project, tmux, idx, window) + panes_commands(
        project,
        tmux,
        idx,
        window,
        window.panes.len(),
    ) + layout_commands(project, tmux, idx, window)
}

/// The commands for the first `count` windows of the project, in order.
pub open spec fn windows_commands(project: ProjectConfigView, tmux: Tmux, count: nat) -> Seq<
    CommandsView,
>
    decreases count,
{
    if count == 0 {
        Seq::empty()
    } else {
        windows_commands(project, tmux, (count - 1) as nat) + window_commands(
            project,
            tmux,
            count - 1,
            project.window_list()[count - 1],
        )
    }
}

/// The parts of the layout hook for the first `count` windows: each window is
/// selected and given its layout, and each but the first hands the focus back.
pub open spec fn hook_window_parts(tmux: Tmux, windows: Seq<WindowView>, count: nat) -> Seq<
    Seq<char>,
>
    decreases count,
{
    if count == 0 {
        Seq::empty()
    } else {
        let idx = count - 1;
        let parts = hook_window_parts(tmux, windows, idx as nat).push(
            "selectw -t "@ + decimal_of(window_number(tmux, idx)),
        ).push("selectl "@ + windows[idx].layout);
        if idx > 0 {
            parts.push("selectw -l"@)
        } else {
            parts
        }
    }
}

/// The parts of the layout hook: the windows in order, and at last the removal of
/// the hook itself.
pub open spec fn hook_parts(project: ProjectConfigView, tmux: Tmux) -> Seq<Seq<char>> {
    hook_window_parts(tmux, project.window_list(), project.window_list().len()).push(
        "set-hook -u -t "@ + project.project_name + " "@ + LAYOUT_HOOK@,
    )
}

/// The hook that applies the layouts again once a client has attached; none for a
/// project without windows.
pub open spec fn layout_hook(project: ProjectConfigView, tmux: Tmux) -> Option<CommandsView> {
    if project.window_list().len() == 0 {
        None
    } else {
        Some(
            CommandsView::SetHook {
                session_name: project.project_name,
                hook_name: LAYOUT_HOOK@,
                hook_command: join(hook_parts(project, tmux), ";"@),
            },
        )
    }
}

/// The name of the first window, if the project has one.
pub open spec fn first_window_name(project: ProjectConfigView) -> Option<Seq<char>> {
    if project.window_list().len() > 0 {
        Some(project.window_list()[0].name)
    } else {
        None
    }
}

/// The start of a build: the server, the `on_project_start` commands, the session,
/// and the change into the project's root by keys.
pub open spec fn prologue(project: ProjectConfigView, tmux: Tmux) -> Seq<CommandsView> {
    seq![
        CommandsView::Server {
            project_name: project.project_name,
            project_root: project.project_root,
        },
        CommandsView::ProjectEvent {
            event_name: "start"@,
            on_event: project.on_project_start,
        },
        CommandsView::Session {
            project_name: project.project_name,
            first_window_name: first_window_name(project),
        },
    ] + match project.project_root {
        Some(root) => seq![
            CommandsView::SendKeys {
                command: "cd "@ + root,
                session_name: project.project_name,
                window_index: tmux.base_index,
                pane_index: None,
                comment: Some(ROOT_COMMENT@),
            },
        ],
        None => Seq::empty(),
    }
}

/// The return of the focus to the first window and its first pane, for a project that
/// has at least one window.
pub open spec fn focus_commands(project: ProjectConfigView, tmux: Tmux) -> Seq<CommandsView> {
    if project.window_list().len() > 0 {
        seq![
            CommandsView::SelectWindow {
                session_name: project.project_name,
                window_index: tmux.base_index,
            },
            CommandsView::SelectPane {
                session_name: project.project_name,
                window_index: tmux.base_index,
                pane_index: tmux.pane_base_index,
            },
        ]
    } else {
        Seq::empty()
    }
}

/// The layout hook, for a tmux of version 2.6 or newer.
pub open spec fn hook_commands(project: ProjectConfigView, tmux: Tmux) -> Seq<CommandsView> {
    if tmux.version.older_than(TmuxVersion::Version(2, 6)) {
        Seq::empty()
    } else {
        match layout_hook(project, tmux) {
            Some(hook) => seq![hook],
            None => Seq::empty(),
        }
    }
}

/// The command that attaches to the project's session.
pub open spec fn attach_command(project: ProjectConfigView) -> CommandsView {
    CommandsView::AttachSession { session_name: project.project_name }
}

/// The end of a build: the attach, and the `on_project_exit` commands, which run
/// once the user has detached.
pub open spec fn epilogue(project: ProjectConfigView) -> Seq<CommandsView> {
    seq![
        attach_command(project),
        CommandsView::ProjectEvent { event_name: "exit"@, on_event: project.on_project_exit },
    ]
}

/// The commands that build the project's session from scratch, in order.
pub open spec fn build_commands(project: ProjectConfigView, tmux: Tmux) -> Seq<CommandsView> {
    prologue(project, tmux) + windows_commands(project, tmux, project.window_list().len())
        + focus_commands(project, tmux) + hook_commands(project, tmux) + epilogue(project)
}

/// The commands of a run: only the attach where the session exists, else the build.
pub open spec fn run_commands(project: ProjectConfigView, tmux: Tmux, session_exists: bool) -> Seq<
    CommandsView,
> {
    if session_exists {
        seq![attach_command(project)]
    } else {
        build_commands(project, tmux)
    }
}

/// The commands that tear the session down: the kill, then the `on_project_stop`
/// commands.
pub open spec fn stop_commands(project: ProjectConfigView) -> Seq<CommandsView> {
    seq![
        CommandsView::StopSession { session_name: project.project_name },
        CommandsView::ProjectEvent { event_name: "stop"@, on_event: project.on_project_stop },
    ]
}

/// The script of a list of commands: each command rendered, one below the other.
pub open spec fn script_of(commands: Seq<CommandsView>, shell: Option<Seq<char>>) -> Seq<char> {
    join(Seq::new(commands.len(), |i: int| commands[i].text(shell)), "\n"@)
}

} // verus!
