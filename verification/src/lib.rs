//! Turns a declarative description of a tmux working session into the ordered
//! tmux commands that build it, attach to it, or tear it down.
//!
//! * [`project_config`] decodes a project from its YAML document;
//! * [`tmux`] reads the settings of the installed tmux, compiles a project into
//!   commands, renders them as a script, and plans their run;
//! * [`yaml`], [`command`], [`template`] and [`text`] hold the plain values that the
//!   others exchange with the outside.
pub mod command;
pub mod project_config;
pub mod template;
pub mod text;
pub mod tmux;
pub mod yaml;

pub use command::Cmd;
pub use project_config::{ProjectConfig, ProjectParseError, Window, WindowOptions};
pub use template::NewProjectFrom;
pub use tmux::{Commands, Outcome, Step, Tmux, TmuxError, TmuxProject, TmuxVersion};
pub use yaml::YamlValue;
