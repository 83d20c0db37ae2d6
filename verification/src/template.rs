//! The content of a new project file.
use vstd::prelude::*;
use vstd::string::*;

verus! {

/// What the default template holds below the line that names the project.
pub const TEMPLATE_BODY: &'static str = "
# project_root: ~/src/project_path
# on_project_start:
#   - sudo systemctl start postgresql
# pre_window:
#   - workon dummy
# windows:
#   - editor: vim
#   - shells:
#       layout: main-vertical
#       panes:
#         - #
#         - grunt serve
";

/// What a new project file is created from: a blank file that holds only the
/// name, or the default template.
#[derive(Debug, Clone, Copy, PartialEq, Eq)]
pub enum NewProjectFrom<'a> {
    DefaultTemplate { name: &'a str },
    Blank { name: &'a str },
}

/// The line that names the project.
pub open spec fn name_line(project_name: Seq<char>) -> Seq<char> {
    "project_name: "@ + project_name
}

impl<'a> NewProjectFrom<'a> {
    /// The name, or the path of the file, that the project was asked for under.
    pub open spec fn given_name(self) -> Seq<char> {
        match self {
            NewProjectFrom::DefaultTemplate { name } => name@,
            NewProjectFrom::Blank { name } => name@,
        }
    }

    /// The content of the new file for a project called `project_name`.
    pub open spec fn content_of(self, project_name: Seq<char>) -> Seq<char> {
        match self {
            NewProjectFrom::DefaultTemplate { .. } => name_line(project_name) + TEMPLATE_BODY@,
            NewProjectFrom::Blank { .. } => name_line(project_name),
        }
    }

    /// The name, or the path of the file, that the project was asked for under.
    pub fn name(&self) -> (name: &'a str)
        ensures
            name@ == self.given_name(),
    {
        match self {
            NewProjectFrom::DefaultTemplate { name } => name,
            NewProjectFrom::Blank { name } => name,
        }
    }

    /// Writes the content of the new file for a project called `project_name`.
    pub fn content(&self, project_name: &str) -> (text: String)
        ensures
            text@ == self.content_of(project_name@),
    {
        let mut text = String::from_str("project_name: ");
        text.append(project_name);
        match self {
            NewProjectFrom::DefaultTemplate { .. } => {
                text.append(TEMPLATE_BODY);
            },
            NewProjectFrom::Blank { .. } => {},
        }
        text
    }
}

} // verus!
