//! The project configuration.
use super::error::{decoded, ProjectParseError};
use super::stringorvec::{deserialize_optional_vec_or_string, optional_strings_of};
use super::window::{window_of_node, Window, WindowView};
use crate::yaml::{get, mapping_get, YamlValue};
use vstd::prelude::*;

verus! {

/// The reason given for a document without a project name.
pub const MISSING_NAME: &'static str = "missing field `project_name`";

/// The reason given for a document that has both `project_name` and `name`.
pub const DUPLICATE_NAME: &'static str = "duplicate field `project_name`";

/// The reason given for a document with a key that is no string.
pub const INVALID_KEY: &'static str = "invalid type: expected a string as key";

/// The reason given for a value that should be a string and is not.
pub const EXPECTED_STRING: &'static str = "invalid type: expected a string";

/// The reason given for a document that is no mapping.
pub const EXPECTED_MAPPING: &'static str = "invalid type: expected a mapping";

/// The reason given for `windows` that are no sequence.
pub const EXPECTED_SEQUENCE: &'static str = "invalid type: expected a sequence";

/// A project, as its `.yml` file describes it. For example:
///
/// ```yml
/// project_name: demo
/// project_root: ~/src/demo
/// on_project_start:
///   - sudo systemctl start postgresql
///   - sudo systemctl start mysqld
/// # on_project_stop:
/// pre_window:
///   - workon demo
///   - cd demo
/// windows:
///   - editor: vim
///   - shells:
///       layout: main-vertical
///       panes:
///         - #
///         - grunt serve
///   - mail: python -m smtpd -n -c DebuggingServer localhost:1025
/// ```
#[derive(Debug, PartialEq, Eq)]
pub struct ProjectConfig {
    /// Required project name, also found under the key `name`.
    pub project_name: String,
    /// The root directory for the project (optional).
    /// Will be shell expanded and `cd` into before starting the session.
    pub project_root: Option<String>,
    /// Optional command(s) to run upon session start, before starting
    /// the tmux session.
    pub on_project_start: Option<Vec<String>>,
    /// Optional command(s) to run when session setup is done and the user has
    /// detached.
    pub on_project_exit: Option<Vec<String>>,
    /// Optional command(s) to run when the tmux session is killed.
    pub on_project_stop: Option<Vec<String>>,
    /// Optional command(s) to run in each newly created pane (e.g. activate
    /// a virtualenv).
    pub pre_window: Option<Vec<String>>,
    /// Optional list of [`Window`]s to create.
    pub windows: Option<Vec<Window>>,
}

/// The model of a [`ProjectConfig`].
pub struct ProjectConfigView {
    pub project_name: Seq<char>,
    pub project_root: Option<Seq<char>>,
    pub on_project_start: Option<Seq<Seq<char>>>,
    pub on_project_exit: Option<Seq<Seq<char>>>,
    pub on_project_stop: Option<Seq<Seq<char>>>,
    pub pre_window: Option<Seq<Seq<char>>>,
    pub windows: Option<Seq<WindowView>>,
}

impl DeepView for ProjectConfig {
    type V = ProjectConfigView;

    open spec fn deep_view(&self) -> ProjectConfigView {
        ProjectConfigView {
            project_name: self.project_name@,
            project_root: self.project_root.deep_view(),
            on_project_start: self.on_project_start.deep_view(),
            on_project_exit: self.on_project_exit.deep_view(),
            on_project_stop: self.on_project_stop.deep_view(),
            pre_window: self.pre_window.deep_view(),
            windows: self.windows.deep_view(),
        }
    }
}

impl ProjectConfigView {
    /// The windows of the project; none where it configures none.
    pub open spec fn window_list(self) -> Seq<WindowView> {
        match self.windows {
            Some(windows) => windows,
            None => Seq::empty(),
        }
    }

    /// True when every window has at least one pane, as every decoded project has.
    pub open spec fn valid(self) -> bool {
        forall|i: int|
            0 <= i < self.window_list().len() ==> (#[trigger] self.window_list()[i]).panes.len()
                >= 1
    }
}

/// True when every key of the mapping is a scalar string.
pub open spec fn all_keys_text(entries: Seq<(YamlValue, YamlValue)>) -> bool {
    forall|i: int| 0 <= i < entries.len() ==> (#[trigger] entries[i]).0 is String
}

/// The project's name: the string under `project_name` or under `name`, one of
/// which must be there, and not both.
pub open spec fn name_of(entries: Seq<(YamlValue, YamlValue)>) -> Result<Seq<char>, Seq<char>> {
    match (mapping_get(entries, "project_name"@), mapping_get(entries, "name"@)) {
        (Some(_), Some(_)) => Err(DUPLICATE_NAME@),
        (None, None) => Err(MISSING_NAME@),
        (Some(YamlValue::String(name)), None) => Ok(name@),
        (None, Some(YamlValue::String(name))) => Ok(name@),
        _ => Err(EXPECTED_STRING@),
    }
}

/// An optional string: nothing where the entry is absent or null.
pub open spec fn optional_text_of(value: Option<YamlValue>) -> Result<
    Option<Seq<char>>,
    Seq<char>,
> {
    match value {
        None => Ok(None),
        Some(YamlValue::Null) => Ok(None),
        Some(YamlValue::String(text)) => Ok(Some(text@)),
        Some(_) => Err(EXPECTED_STRING@),
    }
}

/// An optional string or list of strings: nothing where the entry is absent.
pub open spec fn optional_strings_entry(value: Option<YamlValue>) -> Result<
    Option<Seq<Seq<char>>>,
    Seq<char>,
> {
    match value {
        None => Ok(None),
        Some(node) => optional_strings_of(node),
    }
}

/// The window with one pane that runs nothing, where it has no pane at all.
pub open spec fn with_default_pane(window: WindowView) -> WindowView {
    if window.panes.len() == 0 {
        WindowView { panes: seq![None], ..window }
    } else {
        window
    }
}

/// True when the node decodes to a window.
pub open spec fn is_window(node: YamlValue) -> bool {
    window_of_node(node) is Ok
}

/// The window that a node of `windows` stands for in the project: the decoded
/// window, with the default pane where it has none.
pub open spec fn listed_window(node: YamlValue) -> WindowView {
    match window_of_node(node) {
        Ok(window) => with_default_pane(window),
        Err(_) => arbitrary(),
    }
}

/// The reason why a node is no window.
pub open spec fn refusal_of(node: YamlValue) -> Seq<char> {
    match window_of_node(node) {
        Ok(_) => Seq::empty(),
        Err(reason) => reason,
    }
}

/// The index of the first node at or after `from` that is no window; the number of
/// nodes where all are windows.
pub open spec fn first_refused(items: Seq<YamlValue>, from: int) -> int
    decreases items.len() - from,
{
    if from < 0 || from >= items.len() {
        items.len() as int
    } else if !is_window(items[from]) {
        from
    } else {
        first_refused(items, from + 1)
    }
}

/// `first_refused` stays inside the nodes, finds a node that is no window, and
/// passes only windows.
pub proof fn lemma_first_refused(items: Seq<YamlValue>, from: int)
    requires
        0 <= from <= items.len(),
    ensures
        from <= first_refused(items, from) <= items.len(),
        first_refused(items, from) < items.len() ==> !is_window(
            items[first_refused(items, from)],
        ),
        forall|k: int| from <= k < first_refused(items, from) ==> is_window(items[k]),
    decreases items.len() - from,
{
    if from < items.len() && is_window(items[from]) {
        lemma_first_refused(items, from + 1);
    }
}

/// The windows of a sequence, in order; refused for the reason of the first node
/// that is no window.
pub open spec fn windows_of(items: Seq<YamlValue>) -> Result<Seq<WindowView>, Seq<char>> {
    let bad = first_refused(items, 0);
    if bad < items.len() {
        Err(refusal_of(items[bad]))
    } else {
        Ok(Seq::new(items.len(), |i: int| listed_window(items[i])))
    }
}

/// The optional windows: none where the entry is absent or null.
pub open spec fn optional_windows_of(value: Option<YamlValue>) -> Result<
    Option<Seq<WindowView>>,
    Seq<char>,
> {
    match value {
        None => Ok(None),
        Some(YamlValue::Null) => Ok(None),
        Some(YamlValue::Sequence(items)) => match windows_of(items@) {
            Ok(windows) => Ok(Some(windows)),
            Err(reason) => Err(reason),
        },
        Some(_) => Err(EXPECTED_SEQUENCE@),
    }
}

/// The reason of the first entry of a project that is refused, in the order: keys,
/// name, `project_root`, `on_project_start`, `on_project_exit`, `on_project_stop`,
/// `pre_window`, `windows`.
pub open spec fn first_refusal(entries: Seq<(YamlValue, YamlValue)>) -> Option<Seq<char>> {
    if !all_keys_text(entries) {
        Some(INVALID_KEY@)
    } else if let Err(reason) = name_of(entries) {
        Some(reason)
    } else if let Err(reason) = optional_text_of(mapping_get(entries, "project_root"@)) {
        Some(reason)
    } else if let Err(reason) = optional_strings_entry(mapping_get(entries, "on_project_start"@)) {
        Some(reason)
    } else if let Err(reason) = optional_strings_entry(mapping_get(entries, "on_project_exit"@)) {
        Some(reason)
    } else if let Err(reason) = optional_strings_entry(mapping_get(entries, "on_project_stop"@)) {
        Some(reason)
    } else if let Err(reason) = optional_strings_entry(mapping_get(entries, "pre_window"@)) {
        Some(reason)
    } else if let Err(reason) = optional_windows_of(mapping_get(entries, "windows"@)) {
        Some(reason)
    } else {
        None
    }
}

/// What the entries of a document decode to.
pub open spec fn project_of_entries(entries: Seq<(YamlValue, YamlValue)>) -> Result<
    ProjectConfigView,
    Seq<char>,
> {
    match first_refusal(entries) {
        Some(reason) => Err(reason),
        None => Ok(
            ProjectConfigView {
                project_name: name_of(entries)->Ok_0,
                project_root: optional_text_of(mapping_get(entries, "project_root"@))->Ok_0,
                on_project_start: optional_strings_entry(
                    mapping_get(entries, "on_project_start"@),
                )->Ok_0,
                on_project_exit: optional_strings_entry(
                    mapping_get(entries, "on_project_exit"@),
                )->Ok_0,
                on_project_stop: optional_strings_entry(
                    mapping_get(entries, "on_project_stop"@),
                )->Ok_0,
                pre_window: optional_strings_entry(mapping_get(entries, "pre_window"@))->Ok_0,
                windows: optional_windows_of(mapping_get(entries, "windows"@))->Ok_0,
            },
        ),
    }
}

/// What a document decodes to. The document is a mapping with string keys; an
/// empty document stands for a mapping without entries. Keys that the project does
/// not know are passed over, and of a key that occurs twice the first entry counts.
pub open spec fn project_of(document: YamlValue) -> Result<ProjectConfigView, Seq<char>> {
    match document {
        YamlValue::Mapping(entries) => project_of_entries(entries@),
        YamlValue::Null => project_of_entries(Seq::empty()),
        _ => Err(EXPECTED_MAPPING@),
    }
}

/// Every project that a document decodes to is valid: each window has a pane.
pub proof fn lemma_decoded_project_is_valid(document: YamlValue)
    requires
        project_of(document) is Ok,
    ensures
        project_of(document)->Ok_0.valid(),
{
    let project = project_of(document)->Ok_0;
    assert forall|i: int| 0 <= i < project.window_list().len() implies (
    #[trigger] project.window_list()[i]).panes.len() >= 1 by {
        let entries = match document {
            YamlValue::Mapping(entries) => entries@,
            _ => Seq::empty(),
        };
        match mapping_get(entries, "windows"@) {
            Some(YamlValue::Sequence(items)) => {
                lemma_first_refused(items@, 0);
                assert(is_window(items@[i]));
                assert(project.window_list()[i] == listed_window(items@[i]));
            },
            _ => {},
        }
    }
}

fn decode_optional_text(value: Option<&YamlValue>) -> (result: Result<
    Option<String>,
    ProjectParseError,
>)
    ensures
        decoded(result) == optional_text_of(
            match value {
                Some(node) => Some(*node),
                None => None,
            },
        ),
{
    match value {
        None => Ok(None),
        Some(YamlValue::Null) => Ok(None),
        Some(YamlValue::String(text)) => Ok(Some(text.clone())),
        Some(_) => Err(ProjectParseError::new(EXPECTED_STRING)),
    }
}

fn decode_optional_strings(value: Option<&YamlValue>) -> (result: Result<
    Option<Vec<String>>,
    ProjectParseError,
>)
    ensures
        decoded(result) == optional_strings_entry(
            match value {
                Some(node) => Some(*node),
                None => None,
            },
        ),
{
    match value {
        None => Ok(None),
        Some(node) => deserialize_optional_vec_or_string(node),
    }
}

fn decode_windows(items: &Vec<YamlValue>) -> (result: Result<Vec<Window>, ProjectParseError>)
    ensures
        decoded(result) == windows_of(items@),
{
    let mut windows: Vec<Window> = Vec::new();
    let mut i: usize = 0;
    while i < items.len()
        invariant
            i <= items.len(),
            windows.len() == i,
            first_refused(items@, 0) == first_refused(items@, i as int),
            forall|k: int|
                0 <= k < i ==> (#[trigger] windows[k]).deep_view() == listed_window(items[k]),
        decreases items.len() - i,
    {
        match Window::decode_node(&items[i]) {
            Ok(mut window) => {
                if window.panes.len() == 0 {
                    window.panes.push(None);
                    assert(window.panes.deep_view() =~= seq![None]);
                }
                windows.push(window);
            },
            Err(error) => {
                return Err(error);
            },
        }
        i += 1;
    }
    assert(windows.deep_view() =~= Seq::new(items@.len(), |k: int| listed_window(items[k])));
    Ok(windows)
}

fn decode_optional_windows(value: Option<&YamlValue>) -> (result: Result<
    Option<Vec<Window>>,
    ProjectParseError,
>)
    ensures
        decoded(result) == optional_windows_of(
            match value {
                Some(node) => Some(*node),
                None => None,
            },
        ),
{
    match value {
        None => Ok(None),
        Some(YamlValue::Null) => Ok(None),
        Some(YamlValue::Sequence(items)) => match decode_windows(items) {
            Ok(windows) => Ok(Some(windows)),
            Err(error) => Err(error),
        },
        Some(_) => Err(ProjectParseError::new(EXPECTED_SEQUENCE)),
    }
}

fn check_keys(entries: &Vec<(YamlValue, YamlValue)>) -> (all: bool)
    ensures
        all == all_keys_text(entries@),
{
    let mut i: usize = 0;
    while i < entries.len()
        invariant
            i <= entries.len(),
            forall|k: int| 0 <= k < i ==> (#[trigger] entries[k]).0 is String,
        decreases entries.len() - i,
    {
        match &entries[i].0 {
            YamlValue::String(_) => {},
            _ => {
                assert(!(entries@[i as int].0 is String));
                return false;
            },
        }
        i += 1;
    }
    true
}

fn decode_name(entries: &Vec<(YamlValue, YamlValue)>) -> (result: Result<
    String,
    ProjectParseError,
>)
    ensures
        match result {
            Ok(name) => name_of(entries@) == Ok::<Seq<char>, Seq<char>>(name@),
            Err(error) => name_of(entries@) == Err::<Seq<char>, Seq<char>>(error.deep_view()),
        },
{
    match (get(entries, "project_name"), get(entries, "name")) {
        (Some(_), Some(_)) => Err(ProjectParseError::new(DUPLICATE_NAME)),
        (None, None) => Err(ProjectParseError::new(MISSING_NAME)),
        (Some(YamlValue::String(name)), None) => Ok(name.clone()),
        (None, Some(YamlValue::String(name))) => Ok(name.clone()),
        _ => Err(ProjectParseError::new(EXPECTED_STRING)),
    }
}

fn decode_entries(entries: &Vec<(YamlValue, YamlValue)>) -> (result: Result<
    ProjectConfig,
    ProjectParseError,
>)
    ensures
        decoded(result) == project_of_entries(entries@),
{
    if !check_keys(entries) {
        return Err(ProjectParseError::new(INVALID_KEY));
    }
    let project_name = match decode_name(entries) {
        Ok(name) => name,
        Err(error) => {
            return Err(error);
        },
    };
    let project_root = match decode_optional_text(get(entries, "project_root")) {
        Ok(root) => root,
        Err(error) => {
            return Err(error);
        },
    };
    let on_project_start = match decode_optional_strings(get(entries, "on_project_start")) {
        Ok(commands) => commands,
        Err(error) => {
            return Err(error);
        },
    };
    let on_project_exit = match decode_optional_strings(get(entries, "on_project_exit")) {
        Ok(commands) => commands,
        Err(error) => {
            return Err(error);
        },
    };
    let on_project_stop = match decode_optional_strings(get(entries, "on_project_stop")) {
        Ok(commands) => commands,
        Err(error) => {
            return Err(error);
        },
    };
    let pre_window = match decode_optional_strings(get(entries, "pre_window")) {
        Ok(commands) => commands,
        Err(error) => {
            return Err(error);
        },
    };
    let windows = match decode_optional_windows(get(entries, "windows")) {
        Ok(windows) => windows,
        Err(error) => {
            return Err(error);
        },
    };
    Ok(
        ProjectConfig {
            project_name,
            project_root,
            on_project_start,
            on_project_exit,
            on_project_stop,
            pre_window,
            windows,
        },
    )
}

impl ProjectConfig {
    /// True when every window of the project has at least one pane.
    pub fn is_valid(&self) -> (valid: bool)
        ensures
            valid == self.deep_view().valid(),
    {
        match &self.windows {
            Some(windows) => {
                assert(windows.deep_view() == self.deep_view().window_list());
                let mut i: usize = 0;
                while i < windows.len()
                    invariant
                        i <= windows.len(),
                        windows.deep_view() == self.deep_view().window_list(),
                        forall|k: int|
                            0 <= k < i ==> (
                            #[trigger] self.deep_view().window_list()[k]).panes.len() >= 1,
                    decreases windows.len() - i,
                {
                    assert(windows.deep_view()[i as int] == windows[i as int].deep_view());
                    if windows[i].panes.len() == 0 {
                        return false;
                    }
                    i += 1;
                }
                true
            },
            None => true,
        }
    }

    /// Decodes a project from its document.
    pub fn decode(document: &YamlValue) -> (result: Result<ProjectConfig, ProjectParseError>)
        ensures
            decoded(result) == project_of(*document),
            result matches Ok(project) ==> project.deep_view().valid(),
    {
        proof {
            if project_of(*document) is Ok {
                lemma_decoded_project_is_valid(*document);
            }
        }
        match document {
            YamlValue::Mapping(entries) => decode_entries(entries),
            YamlValue::Null => {
                let entries: Vec<(YamlValue, YamlValue)> = Vec::new();
                decode_entries(&entries)
            },
            _ => Err(ProjectParseError::new(EXPECTED_MAPPING)),
        }
    }
}

impl TryFrom<YamlValue> for ProjectConfig {
    type Error = ProjectParseError;

    /// Decodes a project from its document.
    fn try_from(document: YamlValue) -> (result: Result<ProjectConfig, ProjectParseError>)
        ensures
            decoded(result) == project_of(document),
            result matches Ok(project) ==> project.deep_view().valid(),
    {
        ProjectConfig::decode(&document)
    }
}

impl vstd::std_specs::convert::TryFromSpecImpl<YamlValue> for ProjectConfig {
    open spec fn obeys_try_from_spec() -> bool {
        false
    }

    open spec fn try_from_spec(document: YamlValue) -> Result<ProjectConfig, ProjectParseError> {
        arbitrary()
    }
}

} // verus!
