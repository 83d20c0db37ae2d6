//! One process to run, as plain data.
use crate::text::{join, join_strings};
use vstd::prelude::*;

verus! {

/// A process to run: the program with its arguments, whether it runs without
/// `TMUX` in its environment, and the text that stands for it in a report.
#[derive(Debug, PartialEq, Eq)]
pub struct Cmd {
    /// The program, then its arguments.
    pub command: Vec<String>,
    /// True when the process runs with `TMUX` removed from its environment.
    pub reset_tmux_env: bool,
    /// The text that a report shows in place of the words of `command`.
    pub as_debug: Option<String>,
}

/// The model of a [`Cmd`].
pub struct CmdView {
    pub command: Seq<Seq<char>>,
    pub reset_tmux_env: bool,
    pub as_debug: Option<Seq<char>>,
}

impl DeepView for Cmd {
    type V = CmdView;

    open spec fn deep_view(&self) -> CmdView {
        CmdView {
            command: self.command.deep_view(),
            reset_tmux_env: self.reset_tmux_env,
            as_debug: self.as_debug.deep_view(),
        }
    }
}

impl Cmd {
    /// The process that runs `command`.
    pub fn new(command: Vec<String>, reset_tmux_env: bool, as_debug: Option<String>) -> (cmd: Cmd)
        ensures
            cmd.deep_view() == (CmdView {
                command: command.deep_view(),
                reset_tmux_env,
                as_debug: as_debug.deep_view(),
            }),
    {
        Cmd { command, reset_tmux_env, as_debug }
    }
}

/// The text in which a process is named in a report.
pub open spec fn shown_as(cmd: CmdView) -> Seq<char> {
    match cmd.as_debug {
        Some(text) => text,
        None => join(cmd.command, " "@),
    }
}

impl Cmd {
    /// The text in which the process is named in a report.
    pub fn shown(&self) -> (text: String)
        ensures
            text@ == shown_as(self.deep_view()),
    {
        match &self.as_debug {
            Some(text) => text.clone(),
            None => join_strings(&self.command, " "),
        }
    }
}

} // verus!
