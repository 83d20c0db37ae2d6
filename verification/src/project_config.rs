//! Maps a project's YAML document to [`ProjectConfig`].
//!
//! A project must include the name, optional events (like `start`, `stop`),
//! and optional windows, each with optional panes. Several shapes are read:
//!
//! * a window can be a string (a single pane command), or a mapping with
//!   several panes;
//! * an event can be a string, or a list of strings.
pub mod error;
pub mod options;
pub mod project;
pub mod stringorvec;
pub mod window;

pub use error::ProjectParseError;
pub use options::WindowOptions;
pub use project::ProjectConfig;
pub use window::Window;
