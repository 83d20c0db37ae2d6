//! Tmux operations errors.
use vstd::prelude::*;
use vstd::string::*;

verus! {

/// Indicates a problem running tmux commands and operations.
#[derive(Debug, PartialEq, Eq)]
pub enum TmuxError {
    /// A process could not be run; holds what the system said.
    CommandError(String),
    /// Generic message (e.g. a problem starting a session).
    Message(String),
    /// A directory or file path could not be expanded; holds the name of the
    /// variable that could not be looked up.
    Expand(String),
}

/// The model of a [`TmuxError`].
pub enum TmuxErrorView {
    CommandError(Seq<char>),
    Message(Seq<char>),
    Expand(Seq<char>),
}

impl DeepView for TmuxError {
    type V = TmuxErrorView;

    open spec fn deep_view(&self) -> TmuxErrorView {
        match self {
            TmuxError::CommandError(cause) => TmuxErrorView::CommandError(cause@),
            TmuxError::Message(text) => TmuxErrorView::Message(text@),
            TmuxError::Expand(variable) => TmuxErrorView::Expand(variable@),
        }
    }
}

impl TmuxErrorView {
    /// The error as it is shown to the user.
    pub open spec fn message(self) -> Seq<char> {
        match self {
            TmuxErrorView::CommandError(_) => "Error running command"@,
            TmuxErrorView::Message(text) => text,
            TmuxErrorView::Expand(_) => "Can not expand path"@,
        }
    }
}

impl TmuxError {
    /// The error as it is shown to the user.
    pub fn message(&self) -> (text: String)
        ensures
            text@ == self.deep_view().message(),
    {
        match self {
            TmuxError::CommandError(_) => String::from_str("Error running command"),
            TmuxError::Message(text) => text.clone(),
            TmuxError::Expand(_) => String::from_str("Can not expand path"),
        }
    }
}

} // verus!
