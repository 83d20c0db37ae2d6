//! Tmux operations.
pub mod commands;
pub mod counts;
pub mod error;
pub mod project;
pub mod session;
pub mod steps;
pub mod version;

pub use commands::Commands;
pub use commands::TMUX_BIN;
pub use error::TmuxError;
pub use project::{Tmux, TmuxProject};
pub use steps::{Outcome, Step};
pub use version::TmuxVersion;
