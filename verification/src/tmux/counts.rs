//! What holds of every compiled session: how many windows are created and split,
//! and when a hook is set.
use super::commands::{Commands, CommandsView};
use super::project::Tmux;
use super::session::{
    build_commands, epilogue, focus_commands, hook_commands, layout_commands, new_window_for,
    pane_commands, pane_keys, panes_commands, pre_window_keys, prologue, split_for,
    window_commands, windows_commands,
};
use super::version::TmuxVersion;
use crate::project_config::project::ProjectConfigView;
use crate::project_config::window::WindowView;
use vstd::prelude::*;

verus! {

/// The kinds of commands.
#[derive(Debug, Clone, Copy, PartialEq, Eq, Structural)]
pub enum CommandKind {
    Server,
    ProjectEvent,
    Session,
    SendKeys,
    NewWindow,
    SplitWindow,
    SelectLayout,
    SelectWindow,
    SelectPane,
    AttachSession,
    StopSession,
    SetHook,
}

impl CommandsView {
    /// The kind of the command.
    pub open spec fn kind(self) -> CommandKind {
        match self {
            CommandsView::Server { .. } => CommandKind::Server,
            CommandsView::ProjectEvent { .. } => CommandKind::ProjectEvent,
            CommandsView::Session { .. } => CommandKind::Session,
            CommandsView::SendKeys { .. } => CommandKind::SendKeys,
            CommandsView::NewWindow { .. } => CommandKind::NewWindow,
            CommandsView::SplitWindow { .. } => CommandKind::SplitWindow,
            CommandsView::SelectLayout { .. } => CommandKind::SelectLayout,
            CommandsView::SelectWindow { .. } => CommandKind::SelectWindow,
            CommandsView::SelectPane { .. } => CommandKind::SelectPane,
            CommandsView::AttachSession { .. } => CommandKind::AttachSession,
            CommandsView::StopSession { .. } => CommandKind::StopSession,
            CommandsView::SetHook { .. } => CommandKind::SetHook,
        }
    }
}

impl Commands {
    /// The kind of the command.
    pub fn kind(&self) -> (kind: CommandKind)
        ensures
            kind == self.deep_view().kind(),
    {
        match self {
            Commands::Server { .. } => CommandKind::Server,
            Commands::ProjectEvent { .. } => CommandKind::ProjectEvent,
            Commands::Session { .. } => CommandKind::Session,
            Commands::SendKeys { .. } => CommandKind::SendKeys,
            Commands::NewWindow { .. } => CommandKind::NewWindow,
            Commands::SplitWindow { .. } => CommandKind::SplitWindow,
            Commands::SelectLayout { .. } => CommandKind::SelectLayout,
            Commands::SelectWindow { .. } => CommandKind::SelectWindow,
            Commands::SelectPane { .. } => CommandKind::SelectPane,
            Commands::AttachSession { .. } => CommandKind::AttachSession,
            Commands::StopSession { .. } => CommandKind::StopSession,
            Commands::SetHook { .. } => CommandKind::SetHook,
        }
    }
}

/// How many of the commands are of the given kind.
pub open spec fn count_kind(commands: Seq<CommandsView>, kind: CommandKind) -> nat
    decreases commands.len(),
{
    if commands.len() == 0 {
        0
    } else {
        count_kind(commands.drop_last(), kind) + if commands.last().kind() == kind {
            1nat
        } else {
            0nat
        }
    }
}

/// Counts the commands of the given kind.
pub fn count_commands(commands: &Vec<Commands>, kind: CommandKind) -> (count: usize)
    ensures
        count == count_kind(commands.deep_view(), kind),
{
    let ghost views = commands.deep_view();
    let mut count: usize = 0;
    let mut i: usize = 0;
    assert(views.take(0) =~= Seq::empty());
    while i < commands.len()
        invariant
            i <= commands.len(),
            views == commands.deep_view(),
            count <= i,
            count == count_kind(views.take(i as int), kind),
        decreases commands.len() - i,
    {
        assert(views.take(i + 1).drop_last() =~= views.take(i as int));
        assert(views.take(i + 1).last() == commands[i as int].deep_view());
        if commands[i].kind() == kind {
            count += 1;
        }
        i += 1;
    }
    assert(views.take(i as int) =~= views);
    count
}

/// The count over two lists in a row is the sum of the counts.
pub proof fn lemma_count_concat(
    first: Seq<CommandsView>,
    second: Seq<CommandsView>,
    kind: CommandKind,
)
    ensures
        count_kind(first + second, kind) == count_kind(first, kind) + count_kind(second, kind),
    decreases second.len(),
{
    if second.len() == 0 {
        assert(first + second =~= first);
    } else {
        lemma_count_concat(first, second.drop_last(), kind);
        assert((first + second).drop_last() =~= first + second.drop_last());
    }
}

/// A list without a command of the kind counts none, and a list that counts none
/// holds none.
pub proof fn lemma_count_zero(commands: Seq<CommandsView>, kind: CommandKind)
    ensures
        count_kind(commands, kind) == 0 <==> forall|i: int|
            0 <= i < commands.len() ==> (#[trigger] commands[i]).kind() != kind,
    decreases commands.len(),
{
    if commands.len() > 0 {
        let front = commands.drop_last();
        lemma_count_zero(front, kind);
        if count_kind(commands, kind) == 0 {
            assert forall|i: int| 0 <= i < commands.len() implies (#[trigger] commands[i]).kind()
                != kind by {
                if i < front.len() {
                    assert(front[i] == commands[i]);
                }
            }
        }
        if forall|i: int| 0 <= i < commands.len() ==> (#[trigger] commands[i]).kind() != kind {
            assert forall|i: int| 0 <= i < front.len() implies (#[trigger] front[i]).kind()
                != kind by {
                assert(front[i] == commands[i]);
            }
            assert(commands[commands.len() - 1].kind() != kind);
        }
    }
}

/// The panes of the first `count` windows of the project, in all.
pub open spec fn total_panes(project: ProjectConfigView, count: nat) -> nat
    decreases count,
{
    if count == 0 {
        0
    } else {
        total_panes(project, (count - 1) as nat) + project.window_list()[count - 1].panes.len()
    }
}

/// The commands for one pane hold one split, but for the first pane of a window, and
/// create no window and set no hook.
pub proof fn lemma_pane_counts(
    project: ProjectConfigView,
    tmux: Tmux,
    idx: int,
    window: WindowView,
    pane_idx: int,
)
    ensures
        count_kind(pane_commands(project, tmux, idx, window, pane_idx), CommandKind::NewWindow)
            == 0,
        count_kind(pane_commands(project, tmux, idx, window, pane_idx), CommandKind::SetHook) == 0,
        count_kind(pane_commands(project, tmux, idx, window, pane_idx), CommandKind::SplitWindow)
            == if pane_idx > 0 {
            1nat
        } else {
            0nat
        },
{
    let split = split_for(project, tmux, idx, window, pane_idx);
    let pre = pre_window_keys(project, tmux, idx, window, pane_idx);
    let own = pane_keys(project, tmux, idx, pane_idx, window.panes[pane_idx]);
    lemma_count_zero(pre, CommandKind::NewWindow);
    lemma_count_zero(pre, CommandKind::SetHook);
    lemma_count_zero(pre, CommandKind::SplitWindow);
    lemma_count_zero(own, CommandKind::NewWindow);
    lemma_count_zero(own, CommandKind::SetHook);
    lemma_count_zero(own, CommandKind::SplitWindow);
    lemma_count_concat(split, pre, CommandKind::NewWindow);
    lemma_count_concat(split, pre, CommandKind::SetHook);
    lemma_count_concat(split, pre, CommandKind::SplitWindow);
    lemma_count_concat(split + pre, own, CommandKind::NewWindow);
    lemma_count_concat(split + pre, own, CommandKind::SetHook);
    lemma_count_concat(split + pre, own, CommandKind::SplitWindow);
    if pane_idx > 0 {
        assert(split.drop_last() =~= Seq::empty());
        assert(count_kind(split.drop_last(), CommandKind::SplitWindow) == 0);
        assert(count_kind(split.drop_last(), CommandKind::NewWindow) == 0);
        assert(count_kind(split.drop_last(), CommandKind::SetHook) == 0);
    }
}

/// The commands for the first `count` panes of a window hold a split for each but the
/// first, and create no window and set no hook.
pub proof fn lemma_panes_counts(
    project: ProjectConfigView,
    tmux: Tmux,
    idx: int,
    window: WindowView,
    count: nat,
)
    ensures
        count_kind(panes_commands(project, tmux, idx, window, count), CommandKind::NewWindow) == 0,
        count_kind(panes_commands(project, tmux, idx, window, count), CommandKind::SetHook) == 0,
        count_kind(panes_commands(project, tmux, idx, window, count), CommandKind::SplitWindow)
            == if count > 0 {
            (count - 1) as nat
        } else {
            0nat
        },
    decreases count,
{
    if count > 0 {
        let before = panes_commands(project, tmux, idx, window, (count - 1) as nat);
        let last = pane_commands(project, tmux, idx, window, count - 1);
        lemma_panes_counts(project, tmux, idx, window, (count - 1) as nat);
        lemma_pane_counts(project, tmux, idx, window, count - 1);
        lemma_count_concat(before, last, CommandKind::NewWindow);
        lemma_count_concat(before, last, CommandKind::SetHook);
        lemma_count_concat(before, last, CommandKind::SplitWindow);
    }
}

/// The commands for a window with at least one pane create the window, but for the
/// first window, split it once for each pane but the first, and set no hook.
pub proof fn lemma_window_counts(
    project: ProjectConfigView,
    tmux: Tmux,
    idx: int,
    window: WindowView,
)
    requires
        window.panes.len() >= 1,
    ensures
        count_kind(window_commands(project, tmux, idx, window), CommandKind::NewWindow) == if idx
            > 0 {
            1nat
        } else {
            0nat
        },
        count_kind(window_commands(project, tmux, idx, window), CommandKind::SetHook) == 0,
        count_kind(window_commands(project, tmux, idx, window), CommandKind::SplitWindow)
            == window.panes.len() - 1,
{
    let create = new_window_for(project, tmux, idx, window);
    let panes = panes_commands(project, tmux, idx, window, window.panes.len());
    let layout = layout_commands(project, tmux, idx, window);
    lemma_panes_counts(project, tmux, idx, window, window.panes.len());
    lemma_count_zero(layout, CommandKind::NewWindow);
    lemma_count_zero(layout, CommandKind::SetHook);
    lemma_count_zero(layout, CommandKind::SplitWindow);
    lemma_count_concat(create, panes, CommandKind::NewWindow);
    lemma_count_concat(create, panes, CommandKind::SetHook);
    lemma_count_concat(create, panes, CommandKind::SplitWindow);
    lemma_count_concat(create + panes, layout, CommandKind::NewWindow);
    lemma_count_concat(create + panes, layout, CommandKind::SetHook);
    lemma_count_concat(create + panes, layout, CommandKind::SplitWindow);
    if idx > 0 {
        assert(create.drop_last() =~= Seq::empty());
        assert(count_kind(create.drop_last(), CommandKind::SplitWindow) == 0);
        assert(count_kind(create.drop_last(), CommandKind::NewWindow) == 0);
        assert(count_kind(create.drop_last(), CommandKind::SetHook) == 0);
    }
}

/// The commands for the first `count` windows of a valid project create each window
/// but the first, split once for each pane but the first of its window, and set no
/// hook.
pub proof fn lemma_windows_counts(project: ProjectConfigView, tmux: Tmux, count: nat)
    requires
        project.valid(),
        count <= project.window_list().len(),
    ensures
        count_kind(windows_commands(project, tmux, count), CommandKind::NewWindow) == if count
            > 0 {
            (count - 1) as nat
        } else {
            0nat
        },
        count_kind(windows_commands(project, tmux, count), CommandKind::SetHook) == 0,
        count_kind(windows_commands(project, tmux, count), CommandKind::SplitWindow) == total_panes(
            project,
            count,
        ) - count,
        total_panes(project, count) >= count,
    decreases count,
{
    if count > 0 {
        let before = windows_commands(project, tmux, (count - 1) as nat);
        let window = project.window_list()[count - 1];
        let last = window_commands(project, tmux, count - 1, window);
        lemma_windows_counts(project, tmux, (count - 1) as nat);
        lemma_window_counts(project, tmux, count - 1, window);
        lemma_count_concat(before, last, CommandKind::NewWindow);
        lemma_count_concat(before, last, CommandKind::SetHook);
        lemma_count_concat(before, last, CommandKind::SplitWindow);
    }
}

/// The commands for the first `count` windows of a project set no hook.
pub proof fn lemma_windows_set_no_hook(project: ProjectConfigView, tmux: Tmux, count: nat)
    ensures
        count_kind(windows_commands(project, tmux, count), CommandKind::SetHook) == 0,
    decreases count,
{
    if count > 0 {
        let idx = count - 1;
        let window = project.window_list()[idx];
        let before = windows_commands(project, tmux, idx as nat);
        let create = new_window_for(project, tmux, idx, window);
        let panes = panes_commands(project, tmux, idx, window, window.panes.len());
        let layout = layout_commands(project, tmux, idx, window);
        lemma_windows_set_no_hook(project, tmux, idx as nat);
        lemma_panes_counts(project, tmux, idx, window, window.panes.len());
        lemma_count_zero(create, CommandKind::SetHook);
        lemma_count_zero(layout, CommandKind::SetHook);
        lemma_count_concat(create, panes, CommandKind::SetHook);
        lemma_count_concat(create + panes, layout, CommandKind::SetHook);
        lemma_count_concat(before, create + panes + layout, CommandKind::SetHook);
    }
}

/// How many commands of a kind a build holds outside the commands for its windows
/// and outside the hook.
proof fn lemma_frame_counts(project: ProjectConfigView, tmux: Tmux, kind: CommandKind)
    requires
        kind == CommandKind::NewWindow || kind == CommandKind::SplitWindow || kind
            == CommandKind::SetHook,
    ensures
        count_kind(build_commands(project, tmux), kind) == count_kind(
            windows_commands(project, tmux, project.window_list().len()),
            kind,
        ) + count_kind(hook_commands(project, tmux), kind),
{
    let head = prologue(project, tmux);
    let windows = windows_commands(project, tmux, project.window_list().len());
    let focus = focus_commands(project, tmux);
    let hook = hook_commands(project, tmux);
    let tail = epilogue(project);
    lemma_count_zero(head, kind);
    lemma_count_zero(focus, kind);
    lemma_count_zero(tail, kind);
    lemma_count_concat(head, windows, kind);
    lemma_count_concat(head + windows, focus, kind);
    lemma_count_concat(head + windows + focus, hook, kind);
    lemma_count_concat(head + windows + focus + hook, tail, kind);
}

/// For a valid project with N windows, N at least 1, the commands that build the
/// session hold exactly N - 1 that create a window, and exactly as many that split a
/// window as the project has panes beyond the first of each window.
pub proof fn lemma_build_creates_and_splits(project: ProjectConfigView, tmux: Tmux)
    requires
        project.valid(),
        project.window_list().len() >= 1,
    ensures
        count_kind(build_commands(project, tmux), CommandKind::NewWindow)
            == project.window_list().len() - 1,
        count_kind(build_commands(project, tmux), CommandKind::SplitWindow) == total_panes(
            project,
            project.window_list().len(),
        ) - project.window_list().len(),
{
    let hook = hook_commands(project, tmux);
    lemma_frame_counts(project, tmux, CommandKind::NewWindow);
    lemma_frame_counts(project, tmux, CommandKind::SplitWindow);
    lemma_windows_counts(project, tmux, project.window_list().len());
    lemma_count_zero(hook, CommandKind::NewWindow);
    lemma_count_zero(hook, CommandKind::SplitWindow);
}

/// For a tmux older than 2.6, the commands that build a session set no hook, whatever
/// the windows of the project.
pub proof fn lemma_old_tmux_sets_no_hook(project: ProjectConfigView, tmux: Tmux)
    requires
        tmux.version.older_than(TmuxVersion::Version(2, 6)),
    ensures
        forall|i: int|
            0 <= i < build_commands(project, tmux).len() ==> !((
            #[trigger] build_commands(project, tmux)[i]) is SetHook),
{
    let commands = build_commands(project, tmux);
    lemma_frame_counts(project, tmux, CommandKind::SetHook);
    lemma_windows_set_no_hook(project, tmux, project.window_list().len());
    assert(hook_commands(project, tmux) =~= Seq::empty());
    lemma_count_zero(commands, CommandKind::SetHook);
    assert forall|i: int| 0 <= i < commands.len() implies !((
    #[trigger] commands[i]) is SetHook) by {
        assert(commands[i].kind() != CommandKind::SetHook);
    }
}

} // verus!
