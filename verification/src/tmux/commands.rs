//! The various tmux operations commands.
use crate::text::{decimal_of, join, join_strings, push_decimal};
use vstd::prelude::*;
use vstd::string::*;

verus! {

/// The tmux program.
pub const TMUX_BIN: &'static str = "tmux";

/// The name under which a rendered script presents this program.
pub const APP_NAME: &'static str = "rusmux";

/// The commands. A closed set of variants, each holding only the texts and
/// indices that it needs, so that it is rendered or run without the project
/// that it was compiled from.
#[derive(Debug, PartialEq, Eq)]
#[allow(inconsistent_fields)]
pub enum Commands {
    /// Start the server and change into the work directory if specified.
    Server { project_name: String, project_root: Option<String> },
    /// Runs the various `on_project_<event>` commands.
    ProjectEvent { event_name: String, on_event: Option<Vec<String>> },
    /// Start the new tmux session, with its first window named if there is one.
    Session { project_name: String, first_window_name: Option<String> },
    /// `send-keys` command.
    SendKeys {
        command: String,
        session_name: String,
        window_index: usize,
        pane_index: Option<usize>,
        comment: Option<String>,
    },
    /// `new-window` command.
    NewWindow {
        session_name: String,
        window_name: String,
        window_index: usize,
        project_root: Option<String>,
    },
    /// `split-window` command.
    SplitWindow { session_name: String, window_index: usize, project_root: Option<String> },
    /// `select-layout` command.
    SelectLayout { session_name: String, window_index: usize, layout: String },
    /// `select-window` command.
    SelectWindow { session_name: String, window_index: usize },
    /// `select-pane` command.
    SelectPane { session_name: String, window_index: usize, pane_index: usize },
    /// Attaches to a session using `attach-session` or `switch-client`,
    /// depending upon already running inside a tmux session or out of it.
    AttachSession { session_name: String },
    /// `kill-session` command.
    StopSession { session_name: String },
    /// Sets a hook for a tmux event.
    SetHook { session_name: String, hook_name: String, hook_command: String },
}

/// The model of [`Commands`].
#[allow(inconsistent_fields)]
pub enum CommandsView {
    Server { project_name: Seq<char>, project_root: Option<Seq<char>> },
    ProjectEvent { event_name: Seq<char>, on_event: Option<Seq<Seq<char>>> },
    Session { project_name: Seq<char>, first_window_name: Option<Seq<char>> },
    SendKeys {
        command: Seq<char>,
        session_name: Seq<char>,
        window_index: usize,
        pane_index: Option<usize>,
        comment: Option<Seq<char>>,
    },
    NewWindow {
        session_name: Seq<char>,
        window_name: Seq<char>,
        window_index: usize,
        project_root: Option<Seq<char>>,
    },
    SplitWindow { session_name: Seq<char>, window_index: usize, project_root: Option<Seq<char>> },
    SelectLayout { session_name: Seq<char>, window_index: usize, layout: Seq<char> },
    SelectWindow { session_name: Seq<char>, window_index: usize },
    SelectPane { session_name: Seq<char>, window_index: usize, pane_index: usize },
    AttachSession { session_name: Seq<char> },
    StopSession { session_name: Seq<char> },
    SetHook { session_name: Seq<char>, hook_name: Seq<char>, hook_command: Seq<char> },
}

impl DeepView for Commands {
    type V = CommandsView;

    open spec fn deep_view(&self) -> CommandsView {
        match self {
            Commands::Server { project_name, project_root } => CommandsView::Server {
                project_name: project_name@,
                project_root: project_root.deep_view(),
            },
            Commands::ProjectEvent { event_name, on_event } => CommandsView::ProjectEvent {
                event_name: event_name@,
                on_event: on_event.deep_view(),
            },
            Commands::Session { project_name, first_window_name } => CommandsView::Session {
                project_name: project_name@,
                first_window_name: first_window_name.deep_view(),
            },
            Commands::SendKeys {
                command,
                session_name,
                window_index,
                pane_index,
                comment,
            } => CommandsView::SendKeys {
                command: command@,
                session_name: session_name@,
                window_index: *window_index,
                pane_index: *pane_index,
                comment: comment.deep_view(),
            },
            Commands::NewWindow {
                session_name,
                window_name,
                window_index,
                project_root,
            } => CommandsView::NewWindow {
                session_name: session_name@,
                window_name: window_name@,
                window_index: *window_index,
                project_root: project_root.deep_view(),
            },
            Commands::SplitWindow {
                session_name,
                window_index,
                project_root,
            } => CommandsView::SplitWindow {
                session_name: session_name@,
                window_index: *window_index,
                project_root: project_root.deep_view(),
            },
            Commands::SelectLayout {
                session_name,
                window_index,
                layout,
            } => CommandsView::SelectLayout {
                session_name: session_name@,
                window_index: *window_index,
                layout: layout@,
            },
            Commands::SelectWindow { session_name, window_index } => CommandsView::SelectWindow {
                session_name: session_name@,
                window_index: *window_index,
            },
            Commands::SelectPane {
                session_name,
                window_index,
                pane_index,
            } => CommandsView::SelectPane {
                session_name: session_name@,
                window_index: *window_index,
                pane_index: *pane_index,
            },
            Commands::AttachSession { session_name } => CommandsView::AttachSession {
                session_name: session_name@,
            },
            Commands::StopSession { session_name } => CommandsView::StopSession {
                session_name: session_name@,
            },
            Commands::SetHook { session_name, hook_name, hook_command } => CommandsView::SetHook {
                session_name: session_name@,
                hook_name: hook_name@,
                hook_command: hook_command@,
            },
        }
    }
}

/// The name by which tmux knows a window: `session:index`.
pub open spec fn window_target(session_name: Seq<char>, window_index: usize) -> Seq<char> {
    session_name + ":"@ + decimal_of(window_index)
}

/// The name by which tmux knows a pane: `session:index.pane`.
pub open spec fn pane_target(
    session_name: Seq<char>,
    window_index: usize,
    pane_index: usize,
) -> Seq<char> {
    window_target(session_name, window_index) + "."@ + decimal_of(pane_index)
}

/// The target of `send-keys`: a pane where a pane index is given, else a window.
pub open spec fn keys_target(
    session_name: Seq<char>,
    window_index: usize,
    pane_index: Option<usize>,
) -> Seq<char> {
    match pane_index {
        Some(pane) => pane_target(session_name, window_index, pane),
        None => window_target(session_name, window_index),
    }
}

/// Writes `session:index`.
pub fn window_target_string(session_name: &str, window_index: usize) -> (target: String)
    ensures
        target@ == window_target(session_name@, window_index),
{
    let mut target = String::from_str(session_name);
    target.append(":");
    push_decimal(&mut target, window_index);
    target
}

/// Writes `session:index.pane`.
pub fn pane_target_string(session_name: &str, window_index: usize, pane_index: usize) -> (target:
    String)
    ensures
        target@ == pane_target(session_name@, window_index, pane_index),
{
    let mut target = window_target_string(session_name, window_index);
    target.append(".");
    push_decimal(&mut target, pane_index);
    target
}

/// Writes the target of `send-keys`.
pub fn keys_target_string(
    session_name: &str,
    window_index: usize,
    pane_index: Option<usize>,
) -> (target: String)
    ensures
        target@ == keys_target(session_name@, window_index, pane_index),
{
    match pane_index {
        Some(pane) => pane_target_string(session_name, window_index, pane),
        None => window_target_string(session_name, window_index),
    }
}

/// True of the characters that a shell reads as themselves.
pub open spec fn is_shell_safe(c: char) -> bool {
    ('a' <= c <= 'z') || ('A' <= c <= 'Z') || ('0' <= c <= '9') || c == '-' || c == '_' || c == '='
        || c == '/' || c == ',' || c == '.' || c == '+'
}

/// True when the text needs no quotes: it is not empty and every character is safe.
pub open spec fn needs_no_quotes(text: Seq<char>) -> bool {
    text.len() > 0 && forall|i: int| 0 <= i < text.len() ==> is_shell_safe(#[trigger] text[i])
}

/// The text as it stands between single quotes: a single quote or an exclamation
/// mark closes the quotes, stands behind a backslash, and opens them again.
pub open spec fn quoted_body(text: Seq<char>) -> Seq<char>
    decreases text.len(),
{
    if text.len() == 0 {
        Seq::empty()
    } else if text.last() == '\'' || text.last() == '!' {
        quoted_body(text.drop_last()) + seq!['\'', '\\', text.last(), '\'']
    } else {
        quoted_body(text.drop_last()).push(text.last())
    }
}

/// The text escaped for a shell: itself where it needs no quotes, else in single quotes.
pub open spec fn shell_escaped(text: Seq<char>) -> Seq<char> {
    if needs_no_quotes(text) {
        text
    } else {
        seq!['\''] + quoted_body(text) + seq!['\'']
    }
}

/// Calls `shell_escape::unix::escape`, the escaping that `shell_escape::escape`
/// applies on every Unix. Trusted: the result is the text itself where it is not
/// empty and holds only letters, digits and `-_=/,.+`; else the text in single quotes,
/// with `'\` before and `'` after each single quote and exclamation mark in it.
#[verifier::external_body]
fn escape_for_shell(text: &str) -> (escaped: String)
    ensures
        escaped@ == shell_escaped(text@),
{
    shell_escape::unix::escape(std::borrow::Cow::Borrowed(text)).into_owned()
}

/// `prefix` and the text, where there is a text; else nothing.
pub open spec fn prefixed(prefix: Seq<char>, text: Option<Seq<char>>) -> Seq<char> {
    match text {
        Some(t) => prefix + t,
        None => Seq::empty(),
    }
}

fn prefixed_string(prefix: &str, text: Option<&str>) -> (out: String)
    ensures
        out@ == prefixed(prefix@, text.deep_view()),
{
    match text {
        Some(t) => {
            let mut out = String::from_str(prefix);
            out.append(t);
            out
        },
        None => String::new(),
    }
}

pub fn as_text(text: &Option<String>) -> (out: Option<&str>)
    ensures
        out.deep_view() == text.deep_view(),
{
    match text {
        Some(t) => Some(t.as_str()),
        None => None,
    }
}

/// The head of a script: the shell line, a comment that names the project, the start
/// of the server, and the change into the project's root.
pub open spec fn server_text(
    shell: Option<Seq<char>>,
    project_name: Seq<char>,
    project_root: Option<Seq<char>>,
) -> Seq<char> {
    prefixed("#!"@, shell) + "\n#\n# "@ + APP_NAME@ + " "@ + project_name + " project\n\n"@
        + TMUX_BIN@ + " start-server"@ + prefixed("\ncd "@, project_root)
}

/// The commands of a project event, one per line, under a comment that names the event.
pub open spec fn project_event_text(event_name: Seq<char>, on_event: Option<Seq<Seq<char>>>) -> Seq<
    char,
> {
    "\n# Run on_project_"@ + event_name + " command(s)\n"@ + match on_event {
        Some(commands) => join(commands, "\n"@),
        None => Seq::empty(),
    }
}

/// The line that creates the session, detached, with its first window named.
pub open spec fn session_text(project_name: Seq<char>, first_window_name: Option<Seq<char>>) -> Seq<
    char,
> {
    "\n# Create new session and first window\nTMUX= "@ + TMUX_BIN@ + " new-session -d -s "@
        + project_name + prefixed(" -n "@, first_window_name)
}

/// The comment above a line, where there is one.
pub open spec fn comment_text(comment: Option<Seq<char>>) -> Seq<char> {
    match comment {
        Some(c) => "\n# "@ + c + "\n"@,
        None => Seq::empty(),
    }
}

/// The line that types a command into a pane, the command escaped for the shell.
pub open spec fn send_keys_text(
    command: Seq<char>,
    session_name: Seq<char>,
    window_index: usize,
    pane_index: Option<usize>,
    comment: Option<Seq<char>>,
) -> Seq<char> {
    comment_text(comment) + TMUX_BIN@ + " send-keys -t "@ + keys_target(
        session_name,
        window_index,
        pane_index,
    ) + " "@ + shell_escaped(command) + " C-m"@
}

/// The flag that gives a new window or pane its working directory.
pub open spec fn cd_root_flag(project_root: Option<Seq<char>>) -> Seq<char> {
    prefixed(" -c "@, project_root)
}

/// The line that creates a window, under a comment that names it.
pub open spec fn new_window_text(
    session_name: Seq<char>,
    window_name: Seq<char>,
    window_index: usize,
    project_root: Option<Seq<char>>,
) -> Seq<char> {
    "\n# Create \""@ + window_name + "\" window \n"@ + TMUX_BIN@ + " new-window"@ + cd_root_flag(
        project_root,
    ) + " -t "@ + window_target(session_name, window_index) + " -n "@ + window_name
}

/// The line that splits a window.
pub open spec fn split_window_text(
    session_name: Seq<char>,
    window_index: usize,
    project_root: Option<Seq<char>>,
) -> Seq<char> {
    TMUX_BIN@ + " splitw"@ + cd_root_flag(project_root) + " -t "@ + window_target(
        session_name,
        window_index,
    )
}

/// The line that applies a layout to a window.
pub open spec fn select_layout_text(
    session_name: Seq<char>,
    window_index: usize,
    layout: Seq<char>,
) -> Seq<char> {
    TMUX_BIN@ + " select-layout -t "@ + window_target(session_name, window_index) + " "@ + layout
}

/// The line that selects a window.
pub open spec fn select_window_text(session_name: Seq<char>, window_index: usize) -> Seq<char> {
    TMUX_BIN@ + " select-window -t "@ + window_target(session_name, window_index)
}

/// The line that selects a pane.
pub open spec fn select_pane_text(
    session_name: Seq<char>,
    window_index: usize,
    pane_index: usize,
) -> Seq<char> {
    TMUX_BIN@ + " select-pane -t "@ + pane_target(session_name, window_index, pane_index)
}

/// The block that attaches to the session, or switches to it inside tmux.
pub open spec fn attach_session_text(session_name: Seq<char>) -> Seq<char> {
    "\nif [ -z \"$TMUX\" ]; then\n  "@ + TMUX_BIN@ + " -u attach-session -t "@ + session_name
        + "\nelse\n  "@ + TMUX_BIN@ + " -u switch-client -t "@ + session_name + "\nfi"@
}

/// The line that kills the session.
pub open spec fn stop_session_text(session_name: Seq<char>) -> Seq<char> {
    TMUX_BIN@ + " kill-session -t "@ + session_name
}

/// The line that sets a hook, its body in double quotes.
pub open spec fn set_hook_text(
    session_name: Seq<char>,
    hook_name: Seq<char>,
    hook_command: Seq<char>,
) -> Seq<char> {
    TMUX_BIN@ + " set-hook -t "@ + session_name + " "@ + hook_name + " \""@ + hook_command + "\""@
}

impl CommandsView {
    /// The command as a line, or a small block, of a shell script. `shell` is the
    /// user's shell, which the head of the script names.
    pub open spec fn text(self, shell: Option<Seq<char>>) -> Seq<char> {
        match self {
            CommandsView::Server { project_name, project_root } => server_text(
                shell,
                project_name,
                project_root,
            ),
            CommandsView::ProjectEvent { event_name, on_event } => project_event_text(
                event_name,
                on_event,
            ),
            CommandsView::Session { project_name, first_window_name } => session_text(
                project_name,
                first_window_name,
            ),
            CommandsView::SendKeys {
                command,
                session_name,
                window_index,
                pane_index,
                comment,
            } => send_keys_text(command, session_name, window_index, pane_index, comment),
            CommandsView::NewWindow {
                session_name,
                window_name,
                window_index,
                project_root,
            } => new_window_text(session_name, window_name, window_index, project_root),
            CommandsView::SplitWindow {
                session_name,
                window_index,
                project_root,
            } => split_window_text(session_name, window_index, project_root),
            CommandsView::SelectLayout { session_name, window_index, layout } => select_layout_text(
                session_name,
                window_index,
                layout,
            ),
            CommandsView::SelectWindow { session_name, window_index } => select_window_text(
                session_name,
                window_index,
            ),
            CommandsView::SelectPane { session_name, window_index, pane_index } => select_pane_text(
                session_name,
                window_index,
                pane_index,
            ),
            CommandsView::AttachSession { session_name } => attach_session_text(session_name),
            CommandsView::StopSession { session_name } => stop_session_text(session_name),
            CommandsView::SetHook { session_name, hook_name, hook_command } => set_hook_text(
                session_name,
                hook_name,
                hook_command,
            ),
        }
    }
}

impl Commands {
    /// Writes the head of a script.
    pub fn fmt_server_command(
        shell: Option<&str>,
        project_name: &str,
        project_root: &Option<String>,
    ) -> (out: String)
        ensures
            out@ == server_text(shell.deep_view(), project_name@, project_root.deep_view()),
    {
        let mut out = prefixed_string("#!", shell);
        out.append("\n#\n# ");
        out.append(APP_NAME);
        out.append(" ");
        out.append(project_name);
        out.append(" project\n\n");
        out.append(TMUX_BIN);
        out.append(" start-server");
        let cd_command = prefixed_string("\ncd ", as_text(project_root));
        out.append(cd_command.as_str());
        out
    }

    /// Writes the commands of a project event.
    pub fn fmt_project_command(event_name: &str, on_event: &Option<Vec<String>>) -> (out: String)
        ensures
            out@ == project_event_text(event_name@, on_event.deep_view()),
    {
        let mut out = String::from_str("\n# Run on_project_");
        out.append(event_name);
        out.append(" command(s)\n");
        let commands = match on_event {
            Some(list) => join_strings(list, "\n"),
            None => String::new(),
        };
        out.append(commands.as_str());
        out
    }

    /// Writes the line that creates the session.
    pub fn fmt_session_command(project_name: &str, first_window_name: Option<&str>) -> (out:
        String)
        ensures
            out@ == session_text(project_name@, first_window_name.deep_view()),
    {
        let mut out = String::from_str("\n# Create new session and first window\nTMUX= ");
        out.append(TMUX_BIN);
        out.append(" new-session -d -s ");
        out.append(project_name);
        let window_param = prefixed_string(" -n ", first_window_name);
        out.append(window_param.as_str());
        out
    }

    /// Writes the line that types a command into a pane.
    pub fn fmt_send_keys(
        command: &str,
        session_name: &str,
        window_index: usize,
        pane_index: Option<usize>,
        comment: Option<&str>,
    ) -> (out: String)
        ensures
            out@ == send_keys_text(
                command@,
                session_name@,
                window_index,
                pane_index,
                comment.deep_view(),
            ),
    {
        let mut out = match comment {
            Some(c) => {
                let mut text = String::from_str("\n# ");
                text.append(c);
                text.append("\n");
                text
            },
            None => String::new(),
        };
        out.append(TMUX_BIN);
        out.append(" send-keys -t ");
        let target = keys_target_string(session_name, window_index, pane_index);
        out.append(target.as_str());
        out.append(" ");
        let escaped = escape_for_shell(command);
        out.append(escaped.as_str());
        out.append(" C-m");
        out
    }

    /// Writes the flag that gives a new window or pane its working directory.
    pub fn get_cd_root_flag(project_root: &Option<String>) -> (out: String)
        ensures
            out@ == cd_root_flag(project_root.deep_view()),
    {
        prefixed_string(" -c ", as_text(project_root))
    }

    /// Writes the line that creates a window.
    pub fn fmt_new_window(
        session_name: &str,
        window_name: &str,
        window_index: usize,
        project_root: &Option<String>,
    ) -> (out: String)
        ensures
            out@ == new_window_text(
                session_name@,
                window_name@,
                window_index,
                project_root.deep_view(),
            ),
    {
        let cd_root = Commands::get_cd_root_flag(project_root);
        let target = window_target_string(session_name, window_index);
        let mut out = String::from_str("\n# Create \"");
        out.append(window_name);
        out.append("\" window \n");
        out.append(TMUX_BIN);
        out.append(" new-window");
        out.append(cd_root.as_str());
        out.append(" -t ");
        out.append(target.as_str());
        out.append(" -n ");
        out.append(window_name);
        out
    }

    /// Writes the line that splits a window.
    pub fn fmt_split_window(
        session_name: &str,
        window_index: usize,
        project_root: &Option<String>,
    ) -> (out: String)
        ensures
            out@ == split_window_text(session_name@, window_index, project_root.deep_view()),
    {
        let cd_root = Commands::get_cd_root_flag(project_root);
        let target = window_target_string(session_name, window_index);
        let mut out = String::from_str(TMUX_BIN);
        out.append(" splitw");
        out.append(cd_root.as_str());
        out.append(" -t ");
        out.append(target.as_str());
        out
    }

    /// Writes the line that applies a layout to a window.
    pub fn fmt_select_layout(session_name: &str, window_index: usize, layout: &str) -> (out:
        String)
        ensures
            out@ == select_layout_text(session_name@, window_index, layout@),
    {
        let target = window_target_string(session_name, window_index);
        let mut out = String::from_str(TMUX_BIN);
        out.append(" select-layout -t ");
        out.append(target.as_str());
        out.append(" ");
        out.append(layout);
        out
    }

    /// Writes the line that selects a window.
    pub fn fmt_select_window(session_name: &str, window_index: usize) -> (out: String)
        ensures
            out@ == select_window_text(session_name@, window_index),
    {
        let target = window_target_string(session_name, window_index);
        let mut out = String::from_str(TMUX_BIN);
        out.append(" select-window -t ");
        out.append(target.as_str());
        out
    }

    /// Writes the line that selects a pane.
    pub fn fmt_select_pane(session_name: &str, window_index: usize, pane_index: usize) -> (out:
        String)
        ensures
            out@ == select_pane_text(session_name@, window_index, pane_index),
    {
        let target = pane_target_string(session_name, window_index, pane_index);
        let mut out = String::from_str(TMUX_BIN);
        out.append(" select-pane -t ");
        out.append(target.as_str());
        out
    }

    /// Writes the block that attaches to the session.
    pub fn fmt_attach_session(session_name: &str) -> (out: String)
        ensures
            out@ == attach_session_text(session_name@),
    {
        let mut out = String::from_str("\nif [ -z \"$TMUX\" ]; then\n  ");
        out.append(TMUX_BIN);
        out.append(" -u attach-session -t ");
        out.append(session_name);
        out.append("\nelse\n  ");
        out.append(TMUX_BIN);
        out.append(" -u switch-client -t ");
        out.append(session_name);
        out.append("\nfi");
        out
    }

    /// Writes the line that kills the session.
    pub fn fmt_stop_session(session_name: &str) -> (out: String)
        ensures
            out@ == stop_session_text(session_name@),
    {
        let mut out = String::from_str(TMUX_BIN);
        out.append(" kill-session -t ");
        out.append(session_name);
        out
    }

    /// Writes the line that sets a hook.
    pub fn fmt_set_hook(session_name: &str, hook_name: &str, hook_command: &str) -> (out: String)
        ensures
            out@ == set_hook_text(session_name@, hook_name@, hook_command@),
    {
        let mut out = String::from_str(TMUX_BIN);
        out.append(" set-hook -t ");
        out.append(session_name);
        out.append(" ");
        out.append(hook_name);
        out.append(" \"");
        out.append(hook_command);
        out.append("\"");
        out
    }

    /// Renders the command as a line, or a small block, of a shell script. `shell`
    /// is the user's shell, which the head of the script names.
    pub fn render(&self, shell: Option<&str>) -> (out: String)
        ensures
            out@ == self.deep_view().text(shell.deep_view()),
    {
        match self {
            Commands::Server { project_name, project_root } => Commands::fmt_server_command(
                shell,
                project_name.as_str(),
                project_root,
            ),
            Commands::ProjectEvent { event_name, on_event } => Commands::fmt_project_command(
                event_name.as_str(),
                on_event,
            ),
            Commands::Session { project_name, first_window_name } => Commands::fmt_session_command(
                project_name.as_str(),
                as_text(first_window_name),
            ),
            Commands::SendKeys {
                command,
                session_name,
                window_index,
                pane_index,
                comment,
            } => Commands::fmt_send_keys(
                command.as_str(),
                session_name.as_str(),
                *window_index,
                *pane_index,
                as_text(comment),
            ),
            Commands::NewWindow {
                session_name,
                window_name,
                window_index,
                project_root,
            } => Commands::fmt_new_window(
                session_name.as_str(),
                window_name.as_str(),
                *window_index,
                project_root,
            ),
            Commands::SplitWindow {
                session_name,
                window_index,
                project_root,
            } => Commands::fmt_split_window(session_name.as_str(), *window_index, project_root),
            Commands::SelectLayout {
                session_name,
                window_index,
                layout,
            } => Commands::fmt_select_layout(
                session_name.as_str(),
                *window_index,
                layout.as_str(),
            ),
            Commands::SelectWindow { session_name, window_index } => Commands::fmt_select_window(
                session_name.as_str(),
                *window_index,
            ),
            Commands::SelectPane {
                session_name,
                window_index,
                pane_index,
            } => Commands::fmt_select_pane(session_name.as_str(), *window_index, *pane_index),
            Commands::AttachSession { session_name } => Commands::fmt_attach_session(
                session_name.as_str(),
            ),
            Commands::StopSession { session_name } => Commands::fmt_stop_session(
                session_name.as_str(),
            ),
            Commands::SetHook { session_name, hook_name, hook_command } => Commands::fmt_set_hook(
                session_name.as_str(),
                hook_name.as_str(),
                hook_command.as_str(),
            ),
        }
    }
}

} // verus!
