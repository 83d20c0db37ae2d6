//! Running the commands: what each command asks the caller to do, and how the
//! outcome of each step is judged.
use super::commands::{
    as_text, keys_target, keys_target_string, pane_target, pane_target_string, window_target,
    window_target_string, Commands, CommandsView, TMUX_BIN,
};
use super::error::{TmuxError, TmuxErrorView};
use crate::command::{shown_as, Cmd, CmdView};
use vstd::prelude::*;
use vstd::string::*;

verus! {

/// True of a path that holds nothing to expand: no `$` anywhere, and no `~` at its
/// start.
pub open spec fn is_plain(path: Seq<char>) -> bool {
    &&& forall|i: int| 0 <= i < path.len() ==> path[i] != '$'
    &&& path.len() > 0 ==> path[0] != '~'
}

/// Calls `shellexpand::full`, which replaces a `~` at the start by the home directory
/// and `$NAME` or `${NAME}` by the value of that environment variable. An error holds
/// the name of the variable that could not be looked up.
///
/// Trusted: a plain path comes back as it is, since without a `$` no variable is
/// looked up, and without a `~` at the start no home directory is asked for. Of any
/// other path nothing is claimed: it depends on the user and the environment.
#[verifier::external_body]
fn expand(path: &str) -> (result: Result<String, String>)
    ensures
        result is Err ==> !is_plain(path@),
        result matches Ok(same) ==> is_plain(path@) ==> same@ == path@,
{
    match shellexpand::full(path) {
        Ok(expanded) => Ok(expanded.into_owned()),
        Err(error) => Err(error.var_name),
    }
}

/// Expands a path for the current user and environment. A plain path comes back as
/// it is; any other is expanded, or refused for a variable that cannot be looked up.
pub fn expand_path(path: &str) -> (result: Result<String, TmuxError>)
    ensures
        result matches Ok(same) ==> is_plain(path@) ==> same@ == path@,
        result matches Err(error) ==> error is Expand,
        result is Err ==> !is_plain(path@),
{
    let expansion = expand(path);
    path_of_expansion(expansion)
}

/// What the line that tells of a failed command of a project event starts with.
pub const HOOK_FAILURE: &'static str = "Error executing command ";

/// One thing for the caller to do on behalf of a command.
#[derive(Debug, PartialEq, Eq)]
pub enum Step {
    /// Run the process and wait for it. A failure to start it is reported and
    /// passed over.
    Attempt(Cmd),
    /// Run the process and wait for it. A failure to start it is an error, and so is
    /// an exit status other than success, with the message given here.
    Require(Cmd, String),
    /// Change the working directory of this process to the expansion of the path.
    ChangeDir(String),
    /// Run nothing, and tell the user the line given here.
    Report(String),
}

/// The model of a [`Step`].
pub enum StepView {
    Attempt(CmdView),
    Require(CmdView, Seq<char>),
    ChangeDir(Seq<char>),
    Report(Seq<char>),
}

impl DeepView for Step {
    type V = StepView;

    open spec fn deep_view(&self) -> StepView {
        match self {
            Step::Attempt(cmd) => StepView::Attempt(cmd.deep_view()),
            Step::Require(cmd, message) => StepView::Require(cmd.deep_view(), message@),
            Step::ChangeDir(path) => StepView::ChangeDir(path@),
            Step::Report(line) => StepView::Report(line@),
        }
    }
}

/// How a step ended.
#[derive(Debug, PartialEq, Eq)]
pub enum Outcome {
    /// The process could not be started, or the directory not entered; holds what
    /// the system said.
    NotStarted(String),
    /// The process ran and reported failure.
    Failed,
    /// The process ran and reported success, or the directory was entered.
    Succeeded,
}

/// The model of an [`Outcome`].
pub enum OutcomeView {
    NotStarted(Seq<char>),
    Failed,
    Succeeded,
}

impl DeepView for Outcome {
    type V = OutcomeView;

    open spec fn deep_view(&self) -> OutcomeView {
        match self {
            Outcome::NotStarted(cause) => OutcomeView::NotStarted(cause@),
            Outcome::Failed => OutcomeView::Failed,
            Outcome::Succeeded => OutcomeView::Succeeded,
        }
    }
}

impl StepView {
    /// The error that ends the run after this step, if the outcome is one.
    pub open spec fn error(self, outcome: OutcomeView) -> Option<TmuxErrorView> {
        match (self, outcome) {
            (StepView::Attempt(_), _) => None,
            (StepView::Report(_), _) => None,
            (_, OutcomeView::NotStarted(cause)) => Some(TmuxErrorView::CommandError(cause)),
            (StepView::Require(_, message), OutcomeView::Failed) => Some(
                TmuxErrorView::Message(message),
            ),
            _ => None,
        }
    }

    /// The line that tells the user of what is passed over: a process that could not
    /// be started, or a command that was not run at all.
    pub open spec fn report(self, outcome: OutcomeView) -> Option<Seq<char>> {
        match (self, outcome) {
            (StepView::Attempt(cmd), OutcomeView::NotStarted(_)) => Some(
                HOOK_FAILURE@ + shown_as(cmd),
            ),
            (StepView::Report(line), _) => Some(line),
            _ => None,
        }
    }
}

impl Step {
    /// Judges how the step ended: the error that ends the run, or `Ok` to go on.
    pub fn conclude(&self, outcome: &Outcome) -> (result: Result<(), TmuxError>)
        ensures
            match result {
                Ok(_) => self.deep_view().error(outcome.deep_view()) is None,
                Err(error) => self.deep_view().error(outcome.deep_view()) == Some(
                    error.deep_view(),
                ),
            },
    {
        match (self, outcome) {
            (Step::Attempt(_), _) => Ok(()),
            (Step::Report(_), _) => Ok(()),
            (_, Outcome::NotStarted(cause)) => Err(TmuxError::CommandError(cause.clone())),
            (Step::Require(_, message), Outcome::Failed) => Err(
                TmuxError::Message(message.clone()),
            ),
            _ => Ok(()),
        }
    }

    /// The line that tells the user of what is passed over.
    pub fn report(&self, outcome: &Outcome) -> (line: Option<String>)
        ensures
            line.deep_view() == self.deep_view().report(outcome.deep_view()),
    {
        match (self, outcome) {
            (Step::Attempt(cmd), Outcome::NotStarted(_)) => {
                let mut line = String::from_str(HOOK_FAILURE);
                let shown = cmd.shown();
                line.append(shown.as_str());
                Some(line)
            },
            (Step::Report(line), _) => Some(line.clone()),
            _ => None,
        }
    }
}

fn push_text(words: &mut Vec<String>, text: &str)
    ensures
        final(words).deep_view() == old(words).deep_view().push(text@),
{
    words.push(String::from_str(text));
    assert(words.deep_view() =~= old(words).deep_view().push(text@));
}

fn push_step(steps: &mut Vec<Step>, step: Step)
    ensures
        final(steps).deep_view() == old(steps).deep_view().push(step.deep_view()),
{
    steps.push(step);
    assert(steps.deep_view() =~= old(steps).deep_view().push(step.deep_view()));
}

/// A run of tmux with the given arguments.
pub open spec fn tmux_cmd(arguments: Seq<Seq<char>>, reset_tmux_env: bool) -> CmdView {
    CmdView { command: seq![TMUX_BIN@] + arguments, reset_tmux_env, as_debug: None }
}

/// The arguments that give a new window or pane its working directory.
pub open spec fn root_arguments(root: Option<Seq<char>>) -> Seq<Seq<char>> {
    match root {
        Some(directory) => seq!["-c"@, directory],
        None => Seq::empty(),
    }
}

/// What is done for one command of a project event, given what it splits into: a
/// line that cannot be split is reported; a line without words is passed over; else
/// the first word is run with the others as its arguments.
pub open spec fn hook_step(command: Seq<char>, words: Option<Seq<Seq<char>>>) -> Option<StepView> {
    match words {
        None => Some(StepView::Report(HOOK_FAILURE@ + command)),
        Some(list) => if list.len() == 0 {
            None
        } else {
            Some(
                StepView::Attempt(
                    CmdView { command: list, reset_tmux_env: false, as_debug: Some(command) },
                ),
            )
        },
    }
}

/// What is done for the commands of a project event, in order.
pub open spec fn hook_steps(commands: Seq<Seq<char>>) -> Seq<StepView>
    decreases commands.len(),
{
    if commands.len() == 0 {
        Seq::empty()
    } else {
        let front = hook_steps(commands.drop_last());
        match hook_step(commands.last(), shlex_split(commands.last())) {
            Some(step) => front.push(step),
            None => front,
        }
    }
}

/// The name of the tmux command that brings the user to a session: a switch of the
/// client inside tmux, an attach outside.
pub open spec fn attach_word(inside_tmux: bool) -> Seq<char> {
    if inside_tmux {
        "switch-client"@
    } else {
        "attach-session"@
    }
}

impl CommandsView {
    /// The root directory that running the command has to expand.
    pub open spec fn root_to_expand(self) -> Option<Seq<char>> {
        match self {
            CommandsView::NewWindow { project_root, .. } => project_root,
            CommandsView::SplitWindow { project_root, .. } => project_root,
            _ => None,
        }
    }

    /// What is done to run the command, in order. `root` is the expanded root of a new
    /// window or pane; `inside_tmux` tells whether the user is inside a tmux client.
    pub open spec fn steps(self, root: Option<Seq<char>>, inside_tmux: bool) -> Seq<StepView> {
        match self {
            CommandsView::Server { project_root, .. } => {
                let start = StepView::Require(
                    tmux_cmd(seq!["start-server"@], false),
                    "Cannot start server"@,
                );
                match project_root {
                    Some(directory) => seq![start, StepView::ChangeDir(directory)],
                    None => seq![start],
                }
            },
            CommandsView::ProjectEvent { on_event, .. } => match on_event {
                Some(commands) => hook_steps(commands),
                None => Seq::empty(),
            },
            CommandsView::Session { project_name, first_window_name } => seq![
                StepView::Require(
                    tmux_cmd(
                        seq!["new-session"@, "-d"@, "-s"@, project_name] + match first_window_name {
                            Some(name) => seq!["-n"@, name],
                            None => Seq::empty(),
                        },
                        true,
                    ),
                    "Cannot start session"@,
                ),
            ],
            CommandsView::SendKeys { command, session_name, window_index, pane_index, .. } => seq![
                StepView::Require(
                    tmux_cmd(
                        seq![
                            "send-keys"@,
                            "-t"@,
                            keys_target(session_name, window_index, pane_index),
                            command,
                            "C-m"@,
                        ],
                        false,
                    ),
                    "Cannot run send-keys for "@ + command,
                ),
            ],
            CommandsView::NewWindow { session_name, window_name, window_index, .. } => seq![
                StepView::Require(
                    tmux_cmd(
                        seq![
                            "new-window"@,
                            "-t"@,
                            window_target(session_name, window_index),
                            "-n"@,
                            window_name,
                        ] + root_arguments(root),
                        false,
                    ),
                    "Cannot create window "@ + window_name,
                ),
            ],
            CommandsView::SplitWindow { session_name, window_index, .. } => seq![
                StepView::Require(
                    tmux_cmd(
                        seq!["splitw"@, "-t"@, window_target(session_name, window_index)]
                            + root_arguments(root),
                        false,
                    ),
                    "Cannot split window "@ + window_target(session_name, window_index),
                ),
            ],
            CommandsView::SelectLayout { session_name, window_index, layout } => seq![
                StepView::Require(
                    tmux_cmd(
                        seq![
                            "select-layout"@,
                            "-t"@,
                            window_target(session_name, window_index),
                            layout,
                        ],
                        false,
                    ),
                    "Cannot select layout "@ + layout + " for window "@ + window_target(
                        session_name,
                        window_index,
                    ),
                ),
            ],
            CommandsView::SelectWindow { session_name, window_index } => seq![
                StepView::Require(
                    tmux_cmd(
                        seq!["select-window"@, "-t"@, window_target(session_name, window_index)],
                        false,
                    ),
                    "Cannot select window "@ + window_target(session_name, window_index),
                ),
            ],
            CommandsView::SelectPane { session_name, window_index, pane_index } => seq![
                StepView::Require(
                    tmux_cmd(
                        seq![
                            "select-pane"@,
                            "-t"@,
                            pane_target(session_name, window_index, pane_index),
                        ],
                        false,
                    ),
                    "Cannot select pane "@ + pane_target(session_name, window_index, pane_index),
                ),
            ],
            CommandsView::AttachSession { session_name } => seq![
                StepView::Require(
                    tmux_cmd(seq!["-u"@, attach_word(inside_tmux), "-t"@, session_name], false),
                    "Cannot "@ + attach_word(inside_tmux) + " to session "@ + session_name,
                ),
            ],
            CommandsView::StopSession { session_name } => seq![
                StepView::Require(
                    tmux_cmd(seq!["kill-session"@, "-t"@, session_name], false),
                    "Cannot kill session "@ + session_name,
                ),
            ],
            CommandsView::SetHook { session_name, hook_name, hook_command } => seq![
                StepView::Require(
                    tmux_cmd(
                        seq!["set-hook"@, "-t"@, session_name, hook_name, hook_command],
                        false,
                    ),
                    "Cannot set "@ + hook_name + " hook for session "@ + session_name,
                ),
            ],
        }
    }
}

fn no_words() -> (words: Vec<String>)
    ensures
        words.deep_view() == Seq::<Seq<char>>::empty(),
{
    let words: Vec<String> = Vec::new();
    assert(words.deep_view() =~= Seq::empty());
    words
}

/// The result of an expansion as the library hands it on: the expanded path as it
/// is, or the error that names the variable that could not be looked up.
pub fn path_of_expansion(expansion: Result<String, String>) -> (result: Result<
    String,
    TmuxError,
>)
    ensures
        match expansion {
            Ok(expanded) => result matches Ok(path) && path@ == expanded@,
            Err(variable) => result matches Err(TmuxError::Expand(name)) && name@ == variable@,
        },
{
    match expansion {
        Ok(expanded) => Ok(expanded),
        Err(variable) => Err(TmuxError::Expand(variable)),
    }
}

/// The words that the `shlex` crate splits a command line into, by the rules of a
/// POSIX shell; nothing for a line that ends inside a quotation or right after a
/// backslash.
pub uninterp spec fn shlex_split(command: Seq<char>) -> Option<Seq<Seq<char>>>;

/// Calls `shlex::split`.
/// Trusted: the result is what [`shlex_split`] names; nothing more is claimed of it.
#[verifier::external_body]
fn split_words(command: &str) -> (words: Option<Vec<String>>)
    ensures
        words.deep_view() == shlex_split(command@),
{
    shlex::split(command)
}

fn push_root_arguments(words: &mut Vec<String>, root: Option<&str>)
    ensures
        final(words).deep_view() == old(words).deep_view() + root_arguments(root.deep_view()),
{
    match root {
        Some(directory) => {
            push_text(words, "-c");
            push_text(words, directory);
            assert(words.deep_view() =~= old(words).deep_view() + seq!["-c"@, directory@]);
        },
        None => {
            assert(words.deep_view() =~= old(words).deep_view() + Seq::empty());
        },
    }
}

fn require_tmux(arguments: Vec<String>, reset_tmux_env: bool, message: String) -> (step: Step)
    ensures
        step.deep_view() == StepView::Require(
            tmux_cmd(arguments.deep_view(), reset_tmux_env),
            message@,
        ),
{
    let mut command = no_words();
    push_text(&mut command, TMUX_BIN);
    let mut rest = arguments;
    command.append(&mut rest);
    assert(command.deep_view() =~= seq![TMUX_BIN@] + arguments.deep_view());
    Step::Require(Cmd::new(command, reset_tmux_env, None), message)
}

fn words3(first: &str, second: &str, third: &str) -> (words: Vec<String>)
    ensures
        words.deep_view() == seq![first@, second@, third@],
{
    let mut words = no_words();
    push_text(&mut words, first);
    push_text(&mut words, second);
    push_text(&mut words, third);
    assert(words.deep_view() =~= seq![first@, second@, third@]);
    words
}

fn words4(first: &str, second: &str, third: &str, fourth: &str) -> (words: Vec<String>)
    ensures
        words.deep_view() == seq![first@, second@, third@, fourth@],
{
    let mut words = words3(first, second, third);
    push_text(&mut words, fourth);
    assert(words.deep_view() =~= seq![first@, second@, third@, fourth@]);
    words
}

fn words5(first: &str, second: &str, third: &str, fourth: &str, fifth: &str) -> (words: Vec<
    String,
>)
    ensures
        words.deep_view() == seq![first@, second@, third@, fourth@, fifth@],
{
    let mut words = words4(first, second, third, fourth);
    push_text(&mut words, fifth);
    assert(words.deep_view() =~= seq![first@, second@, third@, fourth@, fifth@]);
    words
}

fn one_step(step: Step) -> (steps: Vec<Step>)
    ensures
        steps.deep_view() == seq![step.deep_view()],
{
    let mut steps: Vec<Step> = Vec::new();
    steps.push(step);
    assert(steps.deep_view() =~= seq![step.deep_view()]);
    steps
}

fn text_of_two(first: &str, second: &str) -> (out: String)
    ensures
        out@ == first@ + second@,
{
    let mut out = String::from_str(first);
    out.append(second);
    out
}

fn text_of_four(first: &str, second: &str, third: &str, fourth: &str) -> (out: String)
    ensures
        out@ == first@ + second@ + third@ + fourth@,
{
    let mut out = String::from_str(first);
    out.append(second);
    out.append(third);
    out.append(fourth);
    out
}

/// What is done for one command of a project event, given what it was split into.
pub fn hook_step_of(command: &str, words: Option<Vec<String>>) -> (step: Option<Step>)
    ensures
        step.deep_view() == hook_step(command@, words.deep_view()),
{
    match words {
        None => Some(Step::Report(text_of_two(HOOK_FAILURE, command))),
        Some(list) => {
            if list.len() == 0 {
                None
            } else {
                Some(Step::Attempt(Cmd::new(list, false, Some(String::from_str(command)))))
            }
        },
    }
}

fn hook_steps_of(commands: &Vec<String>) -> (steps: Vec<Step>)
    ensures
        steps.deep_view() == hook_steps(commands.deep_view()),
{
    let mut steps: Vec<Step> = Vec::new();
    let ghost texts = commands.deep_view();
    let mut i: usize = 0;
    assert(steps.deep_view() =~= hook_steps(texts.take(0)));
    while i < commands.len()
        invariant
            i <= commands.len(),
            texts == commands.deep_view(),
            steps.deep_view() == hook_steps(texts.take(i as int)),
        decreases commands.len() - i,
    {
        proof {
            assert(texts.take(i + 1).drop_last() =~= texts.take(i as int));
            assert(texts.take(i + 1).last() == commands[i as int]@);
        }
        let words = split_words(commands[i].as_str());
        match hook_step_of(commands[i].as_str(), words) {
            Some(step) => {
                push_step(&mut steps, step);
            },
            None => {},
        }
        i += 1;
    }
    assert(texts.take(i as int) =~= texts);
    steps
}

fn attach_word_of(inside_tmux: bool) -> (word: &'static str)
    ensures
        word@ == attach_word(inside_tmux),
{
    if inside_tmux {
        "switch-client"
    } else {
        "attach-session"
    }
}

impl Commands {
    /// What is to be done to run the command, in order. `root` is the expanded root
    /// of a new window or pane; `inside_tmux` tells whether the user is inside a tmux
    /// client.
    pub fn steps(&self, root: Option<&str>, inside_tmux: bool) -> (steps: Vec<Step>)
        ensures
            steps.deep_view() == self.deep_view().steps(root.deep_view(), inside_tmux),
    {
        match self {
            Commands::Server { project_root, .. } => {
                let mut arguments = no_words();
                push_text(&mut arguments, "start-server");
                let mut steps = one_step(
                    require_tmux(arguments, false, String::from_str("Cannot start server")),
                );
                let ghost start = steps.deep_view()[0];
                match project_root {
                    Some(directory) => {
                        push_step(&mut steps, Step::ChangeDir(directory.clone()));
                        assert(steps.deep_view() =~= seq![start, StepView::ChangeDir(directory@)]);
                    },
                    None => {},
                }
                steps
            },
            Commands::ProjectEvent { on_event, .. } => match on_event {
                Some(commands) => hook_steps_of(commands),
                None => {
                    let steps: Vec<Step> = Vec::new();
                    assert(steps.deep_view() =~= Seq::empty());
                    steps
                },
            },
            Commands::Session { project_name, first_window_name } => {
                let mut arguments = words4("new-session", "-d", "-s", project_name.as_str());
                let ghost head = arguments.deep_view();
                match first_window_name {
                    Some(name) => {
                        push_text(&mut arguments, "-n");
                        push_text(&mut arguments, name.as_str());
                        assert(arguments.deep_view() =~= head + seq!["-n"@, name@]);
                    },
                    None => {
                        assert(arguments.deep_view() =~= head + Seq::empty());
                    },
                }
                one_step(require_tmux(arguments, true, String::from_str("Cannot start session")))
            },
            Commands::SendKeys { command, session_name, window_index, pane_index, .. } => {
                let target = keys_target_string(session_name.as_str(), *window_index, *pane_index);
                let arguments = words5("send-keys", "-t", target.as_str(), command.as_str(), "C-m");
                let message = text_of_two("Cannot run send-keys for ", command.as_str());
                one_step(require_tmux(arguments, false, message))
            },
            Commands::NewWindow { session_name, window_name, window_index, .. } => {
                let target = window_target_string(session_name.as_str(), *window_index);
                let mut arguments = words5(
                    "new-window",
                    "-t",
                    target.as_str(),
                    "-n",
                    window_name.as_str(),
                );
                push_root_arguments(&mut arguments, root);
                let message = text_of_two("Cannot create window ", window_name.as_str());
                one_step(require_tmux(arguments, false, message))
            },
            Commands::SplitWindow { session_name, window_index, .. } => {
                let target = window_target_string(session_name.as_str(), *window_index);
                let mut arguments = words3("splitw", "-t", target.as_str());
                push_root_arguments(&mut arguments, root);
                let message = text_of_two("Cannot split window ", target.as_str());
                one_step(require_tmux(arguments, false, message))
            },
            Commands::SelectLayout { session_name, window_index, layout } => {
                let target = window_target_string(session_name.as_str(), *window_index);
                let arguments = words4("select-layout", "-t", target.as_str(), layout.as_str());
                let message = text_of_four(
                    "Cannot select layout ",
                    layout.as_str(),
                    " for window ",
                    target.as_str(),
                );
                one_step(require_tmux(arguments, false, message))
            },
            Commands::SelectWindow { session_name, window_index } => {
                let target = window_target_string(session_name.as_str(), *window_index);
                let arguments = words3("select-window", "-t", target.as_str());
                let message = text_of_two("Cannot select window ", target.as_str());
                one_step(require_tmux(arguments, false, message))
            },
            Commands::SelectPane { session_name, window_index, pane_index } => {
                let target = pane_target_string(session_name.as_str(), *window_index, *pane_index);
                let arguments = words3("select-pane", "-t", target.as_str());
                let message = text_of_two("Cannot select pane ", target.as_str());
                one_step(require_tmux(arguments, false, message))
            },
            Commands::AttachSession { session_name } => {
                let word = attach_word_of(inside_tmux);
                let arguments = words4("-u", word, "-t", session_name.as_str());
                let message = text_of_four("Cannot ", word, " to session ", session_name.as_str());
                one_step(require_tmux(arguments, false, message))
            },
            Commands::StopSession { session_name } => {
                let arguments = words3("kill-session", "-t", session_name.as_str());
                let message = text_of_two("Cannot kill session ", session_name.as_str());
                one_step(require_tmux(arguments, false, message))
            },
            Commands::SetHook { session_name, hook_name, hook_command } => {
                let arguments = words5(
                    "set-hook",
                    "-t",
                    session_name.as_str(),
                    hook_name.as_str(),
                    hook_command.as_str(),
                );
                let message = text_of_four(
                    "Cannot set ",
                    hook_name.as_str(),
                    " hook for session ",
                    session_name.as_str(),
                );
                one_step(require_tmux(arguments, false, message))
            },
        }
    }

    /// Plans the run of the command: expands the root of a new window or pane for the
    /// current user and environment, and lists what is to be done, in order. A root
    /// that is plain is taken as it is. The caller does each step, hands the outcome
    /// to [`Step::conclude`], and stops at the first error.
    pub fn run(&self, inside_tmux: bool) -> (result: Result<Vec<Step>, TmuxError>)
        ensures
            match result {
                Ok(steps) => match self.deep_view().root_to_expand() {
                    None => steps.deep_view() == self.deep_view().steps(None, inside_tmux),
                    Some(root) => if is_plain(root) {
                        steps.deep_view() == self.deep_view().steps(Some(root), inside_tmux)
                    } else {
                        exists|directory: Seq<char>|
                            steps.deep_view() == self.deep_view().steps(
                                Some(directory),
                                inside_tmux,
                            )
                    },
                },
                Err(error) => error is Expand && (self.deep_view().root_to_expand()
                    matches Some(root) && !is_plain(root)),
            },
    {
        let root = match self {
            Commands::NewWindow { project_root, .. } => as_text(project_root),
            Commands::SplitWindow { project_root, .. } => as_text(project_root),
            _ => None,
        };
        match root {
            None => Ok(self.steps(None, inside_tmux)),
            Some(path) => match expand_path(path) {
                Ok(directory) => Ok(self.steps(Some(directory.as_str()), inside_tmux)),
                Err(error) => Err(error),
            },
        }
    }
}

} // verus!
