//! Decodes a [`Window`], an optional section of a project's configuration.
use super::error::{decoded, ProjectParseError};
use super::options::{pairs_map, WindowOptions};
use super::stringorvec::{all_strings, text_of, texts_of};
use crate::yaml::{get, is_key, lemma_get_absent, lemma_get_at, mapping_get, YamlValue};
use vstd::prelude::*;
use vstd::string::*;

verus! {

/// The layout of a window that names none.
pub const DEFAULT_LAYOUT: &'static str = "tiled";

/// The reason given for a window that has none of the accepted shapes.
pub const INVALID_WINDOW: &'static str = "invalid window structure";

/// The name under which a pane's list of commands is written out.
pub const PANE_GROUP: &'static str = "commands";

/// Represents each window in the project configuration. It can be specified in
/// several ways.
///
/// ```yaml
/// test:
/// ```
/// is a window named `test` with a single pane running nothing, with `tiled` layout.
///
/// ```yaml
/// test2 window: vim
/// ```
/// is a window named `test2 window` with a single pane running `vim`, with `tiled`
/// layout.
///
/// ```yaml
/// window4:
///   layout: main-vertical
///   options:
///     main-pane-width: 60%
///   panes:
///     - vim
///     - #
///     - npm run serve
/// ```
/// is a window named `window4` with 3 panes running `vim`, nothing and
/// `npm run serve`, with `main-vertical` layout.
#[derive(Debug, PartialEq, Eq)]
pub struct Window {
    /// The name of the window.
    pub name: String,
    /// The tmux layout of the window. Defaults to `tiled`.
    pub layout: String,
    /// The window's panes, each with the optional commands to run in it.
    pub panes: Vec<Option<Vec<String>>>,
    /// Per window options.
    pub options: Option<WindowOptions>,
    /// Root directory for the window (optional). Where it is set, it is the
    /// window's working directory and takes precedence over the project's root.
    pub root: Option<String>,
}

/// The model of a [`Window`].
pub struct WindowView {
    pub name: Seq<char>,
    pub layout: Seq<char>,
    pub panes: Seq<Option<Seq<Seq<char>>>>,
    pub options: Option<Map<Seq<char>, Seq<char>>>,
    pub root: Option<Seq<char>>,
}

impl DeepView for Window {
    type V = WindowView;

    open spec fn deep_view(&self) -> WindowView {
        WindowView {
            name: self.name@,
            layout: self.layout@,
            panes: self.panes.deep_view(),
            options: self.options.deep_view(),
            root: self.root.deep_view(),
        }
    }
}

/// The texts of the scalar strings among the items, in order; other items are dropped.
pub open spec fn strings_among(items: Seq<YamlValue>) -> Seq<Seq<char>>
    decreases items.len(),
{
    if items.len() == 0 {
        Seq::empty()
    } else {
        let front = strings_among(items.drop_last());
        match items.last() {
            YamlValue::String(text) => front.push(text@),
            _ => front,
        }
    }
}

/// The commands of the pane that a mapping's single value names.
pub open spec fn group_of(commands: YamlValue) -> Option<Seq<Seq<char>>> {
    match commands {
        YamlValue::String(command) => Some(seq![command@]),
        YamlValue::Sequence(items) => Some(strings_among(items@)),
        _ => None,
    }
}

/// What one item under `panes` decodes to: a string is a pane with that command; a
/// mapping with exactly one key is a named group, with the one command or the list of
/// commands that it holds; anything else is a pane that runs nothing.
pub open spec fn pane_of(item: YamlValue) -> Option<Seq<Seq<char>>> {
    match item {
        YamlValue::String(command) => Some(seq![command@]),
        YamlValue::Mapping(entries) => if entries@.len() == 1 {
            group_of(entries@[0].1)
        } else {
            None
        },
        _ => None,
    }
}

/// The panes of a sequence: one for each item, in order.
pub open spec fn panes_of(items: Seq<YamlValue>) -> Seq<Option<Seq<Seq<char>>>> {
    Seq::new(items.len(), |i: int| pane_of(items[i]))
}

/// True when the mapping has no entry `key`, or one that is a scalar string.
pub open spec fn text_entry_valid(entries: Seq<(YamlValue, YamlValue)>, key: Seq<char>) -> bool {
    match mapping_get(entries, key) {
        None => true,
        Some(value) => value is String,
    }
}

/// The text of the entry `key`, where the mapping has one.
pub open spec fn text_entry(entries: Seq<(YamlValue, YamlValue)>, key: Seq<char>) -> Option<
    Seq<char>,
> {
    match mapping_get(entries, key) {
        Some(YamlValue::String(text)) => Some(text@),
        _ => None,
    }
}

/// True when names and values are all scalar strings.
pub open spec fn all_text_pairs(pairs: Seq<(YamlValue, YamlValue)>) -> bool {
    forall|i: int|
        0 <= i < pairs.len() ==> (#[trigger] pairs[i]).0 is String && pairs[i].1 is String
}

/// The names and values as texts.
pub open spec fn text_pairs(pairs: Seq<(YamlValue, YamlValue)>) -> Seq<(Seq<char>, Seq<char>)> {
    Seq::new(pairs.len(), |i: int| (text_of(pairs[i].0), text_of(pairs[i].1)))
}

/// True when the mapping has no entry `options`, or one that maps strings to strings.
pub open spec fn options_entry_valid(entries: Seq<(YamlValue, YamlValue)>) -> bool {
    match mapping_get(entries, "options"@) {
        None => true,
        Some(YamlValue::Mapping(pairs)) => all_text_pairs(pairs@),
        Some(_) => false,
    }
}

/// The options of the entry `options`, where the mapping has one.
pub open spec fn options_entry(entries: Seq<(YamlValue, YamlValue)>) -> Option<
    Map<Seq<char>, Seq<char>>,
> {
    match mapping_get(entries, "options"@) {
        Some(YamlValue::Mapping(pairs)) => Some(pairs_map(text_pairs(pairs@))),
        _ => None,
    }
}

/// The panes of the entry `panes`; none where the mapping has no such sequence.
pub open spec fn panes_entry(entries: Seq<(YamlValue, YamlValue)>) -> Seq<
    Option<Seq<Seq<char>>>,
> {
    match mapping_get(entries, "panes"@) {
        Some(YamlValue::Sequence(items)) => panes_of(items@),
        _ => Seq::empty(),
    }
}

/// The layout that the mapping names, `tiled` where it names none.
pub open spec fn layout_entry(entries: Seq<(YamlValue, YamlValue)>) -> Seq<char> {
    match text_entry(entries, "layout"@) {
        Some(layout) => layout,
        None => DEFAULT_LAYOUT@,
    }
}

/// What the entry `name: value` of a project's windows decodes to.
///
/// * null: one pane that runs nothing;
/// * a string: one pane that runs it;
/// * a mapping: the `layout`, `root`, `options` and `panes` that it holds, each
///   optional; `layout` and `root` must be strings and `options` a mapping of strings
///   to strings;
/// * anything else is refused.
pub open spec fn window_of(name: Seq<char>, value: YamlValue) -> Result<WindowView, Seq<char>> {
    match value {
        YamlValue::Null => Ok(
            WindowView {
                name,
                layout: DEFAULT_LAYOUT@,
                panes: seq![None],
                options: None,
                root: None,
            },
        ),
        YamlValue::String(command) => Ok(
            WindowView {
                name,
                layout: DEFAULT_LAYOUT@,
                panes: seq![Some(seq![command@])],
                options: None,
                root: None,
            },
        ),
        YamlValue::Mapping(entries) => if text_entry_valid(entries@, "layout"@) && text_entry_valid(
            entries@,
            "root"@,
        ) && options_entry_valid(entries@) {
            Ok(
                WindowView {
                    name,
                    layout: layout_entry(entries@),
                    panes: panes_entry(entries@),
                    options: options_entry(entries@),
                    root: text_entry(entries@, "root"@),
                },
            )
        } else {
            Err(INVALID_WINDOW@)
        },
        _ => Err(INVALID_WINDOW@),
    }
}

/// What a node of a project's `windows` decodes to: the node must be a mapping with
/// exactly one entry, whose key, a string, is the window's name.
pub open spec fn window_of_node(node: YamlValue) -> Result<WindowView, Seq<char>> {
    match node {
        YamlValue::Mapping(entries) => if entries@.len() == 1 && entries@[0].0 is String {
            window_of(text_of(entries@[0].0), entries@[0].1)
        } else {
            Err(INVALID_WINDOW@)
        },
        _ => Err(INVALID_WINDOW@),
    }
}

fn one_command(command: &String) -> (commands: Vec<String>)
    ensures
        commands.deep_view() == seq![command@],
{
    let mut commands: Vec<String> = Vec::new();
    commands.push(command.clone());
    assert(commands.deep_view() =~= seq![command@]);
    commands
}

fn decode_strings_among(items: &Vec<YamlValue>) -> (commands: Vec<String>)
    ensures
        commands.deep_view() == strings_among(items@),
{
    let mut commands: Vec<String> = Vec::new();
    let mut i: usize = 0;
    assert(commands.deep_view() =~= strings_among(items@.take(0)));
    while i < items.len()
        invariant
            i <= items.len(),
            commands.deep_view() == strings_among(items@.take(i as int)),
        decreases items.len() - i,
    {
        let ghost before = commands.deep_view();
        assert(items@.take(i + 1).drop_last() =~= items@.take(i as int));
        match &items[i] {
            YamlValue::String(text) => {
                commands.push(text.clone());
                assert(commands.deep_view() =~= before.push(text@));
            },
            _ => {},
        }
        i += 1;
    }
    assert(items@.take(i as int) =~= items@);
    commands
}

/// Decodes one item under `panes`.
pub fn decode_pane(item: &YamlValue) -> (pane: Option<Vec<String>>)
    ensures
        pane.deep_view() == pane_of(*item),
{
    match item {
        YamlValue::String(command) => Some(one_command(command)),
        YamlValue::Mapping(entries) => {
            if entries.len() == 1 {
                match &entries[0].1 {
                    YamlValue::String(command) => Some(one_command(command)),
                    YamlValue::Sequence(items) => Some(decode_strings_among(items)),
                    _ => None,
                }
            } else {
                None
            }
        },
        _ => None,
    }
}

fn decode_panes(items: &Vec<YamlValue>) -> (panes: Vec<Option<Vec<String>>>)
    ensures
        panes.deep_view() == panes_of(items@),
{
    let mut panes: Vec<Option<Vec<String>>> = Vec::new();
    let mut i: usize = 0;
    while i < items.len()
        invariant
            i <= items.len(),
            panes.len() == i,
            forall|k: int| 0 <= k < i ==> (#[trigger] panes[k]).deep_view() == pane_of(items[k]),
        decreases items.len() - i,
    {
        panes.push(decode_pane(&items[i]));
        i += 1;
    }
    assert(panes.deep_view() =~= panes_of(items@));
    panes
}

fn decode_options(pairs: &Vec<(YamlValue, YamlValue)>) -> (options: Option<WindowOptions>)
    ensures
        options is Some <==> all_text_pairs(pairs@),
        options matches Some(o) ==> o.deep_view() == pairs_map(text_pairs(pairs@)),
{
    let mut options = WindowOptions::new();
    let ghost texts = text_pairs(pairs@);
    let mut i: usize = 0;
    assert(texts.take(0) =~= Seq::empty());
    while i < pairs.len()
        invariant
            i <= pairs.len(),
            texts == text_pairs(pairs@),
            all_text_pairs(pairs@.take(i as int)),
            options.deep_view() == pairs_map(texts.take(i as int)),
        decreases pairs.len() - i,
    {
        match (&pairs[i].0, &pairs[i].1) {
            (YamlValue::String(name), YamlValue::String(value)) => {
                options.insert(name.clone(), value.clone());
                proof {
                    assert(texts.take(i + 1).drop_last() =~= texts.take(i as int));
                    assert(texts.take(i + 1).last() == (name@, value@));
                    assert forall|k: int| 0 <= k < i + 1 implies (#[trigger] pairs@.take(
                        i + 1,
                    )[k]).0 is String && pairs@.take(i + 1)[k].1 is String by {
                        if k < i {
                            assert(pairs@.take(i as int)[k].0 is String);
                        }
                    }
                }
            },
            _ => {
                assert(!(pairs@[i as int].0 is String && pairs@[i as int].1 is String));
                return None;
            },
        }
        i += 1;
    }
    assert(pairs@.take(i as int) =~= pairs@);
    assert(texts.take(i as int) =~= texts);
    Some(options)
}

impl Window {
    /// Decodes the entry `name: value` of a project's windows.
    pub fn decode(name: &str, value: &YamlValue) -> (result: Result<Window, ProjectParseError>)
        ensures
            decoded(result) == window_of(name@, *value),
    {
        match value {
            YamlValue::Null => {
                let mut panes: Vec<Option<Vec<String>>> = Vec::new();
                panes.push(None);
                assert(panes.deep_view() =~= seq![None]);
                Ok(
                    Window {
                        name: String::from_str(name),
                        layout: String::from_str(DEFAULT_LAYOUT),
                        panes,
                        options: None,
                        root: None,
                    },
                )
            },
            YamlValue::String(command) => {
                let mut panes: Vec<Option<Vec<String>>> = Vec::new();
                panes.push(Some(one_command(command)));
                assert(panes.deep_view() =~= seq![Some(seq![command@])]);
                Ok(
                    Window {
                        name: String::from_str(name),
                        layout: String::from_str(DEFAULT_LAYOUT),
                        panes,
                        options: None,
                        root: None,
                    },
                )
            },
            YamlValue::Mapping(entries) => {
                let layout = match get(entries, "layout") {
                    None => String::from_str(DEFAULT_LAYOUT),
                    Some(YamlValue::String(text)) => text.clone(),
                    Some(_) => {
                        return Err(ProjectParseError::new(INVALID_WINDOW));
                    },
                };
                let root = match get(entries, "root") {
                    None => None,
                    Some(YamlValue::String(text)) => Some(text.clone()),
                    Some(_) => {
                        return Err(ProjectParseError::new(INVALID_WINDOW));
                    },
                };
                let options = match get(entries, "options") {
                    None => None,
                    Some(YamlValue::Mapping(pairs)) => {
                        match decode_options(pairs) {
                            Some(options) => Some(options),
                            None => {
                                return Err(ProjectParseError::new(INVALID_WINDOW));
                            },
                        }
                    },
                    Some(_) => {
                        return Err(ProjectParseError::new(INVALID_WINDOW));
                    },
                };
                let panes = match get(entries, "panes") {
                    Some(YamlValue::Sequence(items)) => decode_panes(items),
                    _ => {
                        let none: Vec<Option<Vec<String>>> = Vec::new();
                        assert(none.deep_view() =~= Seq::empty());
                        none
                    },
                };
                Ok(Window { name: String::from_str(name), layout, panes, options, root })
            },
            _ => Err(ProjectParseError::new(INVALID_WINDOW)),
        }
    }

    /// Decodes a node of a project's `windows`: a mapping whose single key is the
    /// window's name.
    pub fn decode_node(node: &YamlValue) -> (result: Result<Window, ProjectParseError>)
        ensures
            decoded(result) == window_of_node(*node),
    {
        match node {
            YamlValue::Mapping(entries) => {
                if entries.len() == 1 {
                    match &entries[0].0 {
                        YamlValue::String(name) => Window::decode(name.as_str(), &entries[0].1),
                        _ => Err(ProjectParseError::new(INVALID_WINDOW)),
                    }
                } else {
                    Err(ProjectParseError::new(INVALID_WINDOW))
                }
            },
            _ => Err(ProjectParseError::new(INVALID_WINDOW)),
        }
    }
}

/// Where every item is a string, the strings among the items are all their texts.
pub proof fn lemma_strings_among_all(items: Seq<YamlValue>)
    requires
        all_strings(items),
    ensures
        strings_among(items) == texts_of(items),
    decreases items.len(),
{
    if items.len() > 0 {
        let front = items.drop_last();
        assert forall|i: int| 0 <= i < front.len() implies (#[trigger] front[i]) is String by {
            assert(items[i] is String);
        }
        lemma_strings_among_all(front);
        assert(items[items.len() - 1] is String);
        assert(strings_among(items) =~= texts_of(items));
    } else {
        assert(strings_among(items) =~= texts_of(items));
    }
}

/// The four keys of a window's mapping are four different texts.
pub proof fn lemma_window_keys_differ()
    ensures
        "layout"@ != "root"@,
        "layout"@ != "options"@,
        "layout"@ != "panes"@,
        "root"@ != "options"@,
        "root"@ != "panes"@,
        "options"@ != "panes"@,
{
    reveal_strlit("layout");
    reveal_strlit("root");
    reveal_strlit("options");
    reveal_strlit("panes");
    assert("layout"@.len() == 6);
    assert("root"@.len() == 4);
    assert("options"@.len() == 7);
    assert("panes"@.len() == 5);
}

fn text_nodes(texts: &Vec<String>) -> (items: Vec<YamlValue>)
    ensures
        all_strings(items@),
        texts_of(items@) == texts.deep_view(),
{
    let mut items: Vec<YamlValue> = Vec::new();
    let mut i: usize = 0;
    while i < texts.len()
        invariant
            i <= texts.len(),
            items.len() == i,
            forall|k: int|
                0 <= k < i ==> (#[trigger] items[k]) is String && text_of(items[k]) == texts[k]@,
        decreases texts.len() - i,
    {
        items.push(YamlValue::String(texts[i].clone()));
        i += 1;
    }
    assert(texts_of(items@) =~= texts.deep_view());
    items
}

/// True when `item` is a pane as it is written out: null for a pane that runs
/// nothing, a string for a single command, else a mapping of [`PANE_GROUP`] to the
/// list of commands.
pub open spec fn is_written_pane(item: YamlValue, pane: Option<Seq<Seq<char>>>) -> bool {
    match pane {
        None => item is Null,
        Some(commands) => if commands.len() == 1 {
            is_key(item, commands[0])
        } else {
            &&& item matches YamlValue::Mapping(entries)
            &&& entries@.len() == 1
            &&& is_key(entries@[0].0, PANE_GROUP@)
            &&& entries@[0].1 matches YamlValue::Sequence(items)
            &&& all_strings(items@)
            &&& texts_of(items@) == commands
        },
    }
}

/// A pane that was written out decodes to itself.
pub proof fn lemma_written_pane_decodes(item: YamlValue, pane: Option<Seq<Seq<char>>>)
    requires
        is_written_pane(item, pane),
    ensures
        pane_of(item) == pane,
{
    match pane {
        None => {},
        Some(commands) => {
            if commands.len() == 1 {
                assert(commands =~= seq![commands[0]]);
            } else {
                match item {
                    YamlValue::Mapping(entries) => match entries@[0].1 {
                        YamlValue::Sequence(items) => {
                            lemma_strings_among_all(items@);
                        },
                        _ => {},
                    },
                    _ => {},
                }
            }
        },
    }
}

/// Writes a pane as an item of `panes`: null for a pane that runs nothing, a string
/// for a single command, else a group named [`PANE_GROUP`] with the list of commands.
/// Decoding the item gives the pane back.
pub fn encode_pane(pane: &Option<Vec<String>>) -> (item: YamlValue)
    ensures
        is_written_pane(item, pane.deep_view()),
        pane_of(item) == pane.deep_view(),
{
    match pane {
        None => YamlValue::Null,
        Some(commands) => {
            let item = if commands.len() == 1 {
                YamlValue::String(commands[0].clone())
            } else {
                let items = text_nodes(commands);
                let mut entries: Vec<(YamlValue, YamlValue)> = Vec::new();
                entries.push(
                    (YamlValue::String(String::from_str(PANE_GROUP)), YamlValue::Sequence(items)),
                );
                YamlValue::Mapping(entries)
            };
            proof {
                lemma_written_pane_decodes(item, pane.deep_view());
            }
            item
        },
    }
}

fn encode_panes(panes: &Vec<Option<Vec<String>>>) -> (items: Vec<YamlValue>)
    ensures
        panes_of(items@) == panes.deep_view(),
        are_written_panes(items@, panes.deep_view()),
{
    let mut items: Vec<YamlValue> = Vec::new();
    let mut i: usize = 0;
    while i < panes.len()
        invariant
            i <= panes.len(),
            items.len() == i,
            forall|k: int| 0 <= k < i ==> pane_of(#[trigger] items[k]) == panes[k].deep_view(),
            forall|k: int|
                0 <= k < i ==> is_written_pane(#[trigger] items[k], panes[k].deep_view()),
        decreases panes.len() - i,
    {
        items.push(encode_pane(&panes[i]));
        i += 1;
    }
    assert(panes_of(items@) =~= panes.deep_view());
    items
}

fn encode_options(options: &WindowOptions) -> (pairs: Vec<(YamlValue, YamlValue)>)
    ensures
        all_text_pairs(pairs@),
        text_pairs(pairs@) == options.pairs(),
        pairs_map(text_pairs(pairs@)) == options.deep_view(),
{
    let n = options.len();
    let mut pairs: Vec<(YamlValue, YamlValue)> = Vec::new();
    let mut i: usize = 0;
    while i < n
        invariant
            i <= n,
            n == options.pairs().len(),
            pairs.len() == i,
            forall|k: int|
                0 <= k < i ==> (#[trigger] pairs[k]).0 is String && pairs[k].1 is String && text_of(
                    pairs[k].0,
                ) == options.pairs()[k].0 && text_of(pairs[k].1) == options.pairs()[k].1,
        decreases n - i,
    {
        let name = options.name_at(i).clone();
        let value = options.value_at(i).clone();
        pairs.push((YamlValue::String(name), YamlValue::String(value)));
        i += 1;
    }
    proof {
        assert(text_pairs(pairs@) =~= options.pairs());
        options.lemma_view();
    }
    pairs
}

/// True when the items are the panes as they are written out, one for one.
pub open spec fn are_written_panes(
    items: Seq<YamlValue>,
    panes: Seq<Option<Seq<Seq<char>>>>,
) -> bool {
    &&& items.len() == panes.len()
    &&& forall|i: int| 0 <= i < items.len() ==> is_written_pane(#[trigger] items[i], panes[i])
}

/// True when `value` is a mapping of strings to strings that holds the pairs, in order.
pub open spec fn is_written_options(value: YamlValue, pairs: Seq<(Seq<char>, Seq<char>)>) -> bool {
    &&& value matches YamlValue::Mapping(list)
    &&& all_text_pairs(list@)
    &&& text_pairs(list@) == pairs
}

/// True when `value` is the sequence of the panes as they are written out.
pub open spec fn is_written_sequence(value: YamlValue, panes: Seq<Option<Seq<Seq<char>>>>) -> bool {
    &&& value matches YamlValue::Sequence(items)
    &&& are_written_panes(items@, panes)
}

/// True when the entries are a window's as they are written out: `layout`, then
/// `root` and `options` where the window has them, then `panes`. `options` are the
/// window's options as pairs, in the order in which they are kept.
pub open spec fn are_written_entries(
    entries: Seq<(YamlValue, YamlValue)>,
    window: WindowView,
    options: Option<Seq<(Seq<char>, Seq<char>)>>,
) -> bool {
    let options_at: int = if window.root is Some {
        2
    } else {
        1
    };
    let panes_at: int = if options is Some {
        options_at + 1
    } else {
        options_at
    };
    &&& entries.len() == panes_at + 1
    &&& is_key(entries[0].0, "layout"@)
    &&& is_key(entries[0].1, window.layout)
    &&& window.root matches Some(root) ==> is_key(entries[1].0, "root"@) && is_key(
        entries[1].1,
        root,
    )
    &&& options matches Some(pairs) ==> is_key(entries[options_at].0, "options"@)
        && is_written_options(entries[options_at].1, pairs)
    &&& is_key(entries[panes_at].0, "panes"@)
    &&& is_written_sequence(entries[panes_at].1, window.panes)
}

/// True when `node` is the window as it is written out: a mapping from the window's
/// name to the mapping of its entries.
pub open spec fn is_written_window(
    node: YamlValue,
    window: WindowView,
    options: Option<Seq<(Seq<char>, Seq<char>)>>,
) -> bool {
    &&& node matches YamlValue::Mapping(outer)
    &&& outer@.len() == 1
    &&& is_key(outer@[0].0, window.name)
    &&& outer@[0].1 matches YamlValue::Mapping(entries)
    &&& are_written_entries(entries@, window, options)
}

/// The options that pairs stand for.
pub open spec fn options_of_pairs(options: Option<Seq<(Seq<char>, Seq<char>)>>) -> Option<
    Map<Seq<char>, Seq<char>>,
> {
    match options {
        Some(pairs) => Some(pairs_map(pairs)),
        None => None,
    }
}

/// Writing a window out and decoding what was written gives the window back: its
/// name, layout, root, options and panes, with nothing lost.
pub proof fn lemma_written_window_decodes(
    node: YamlValue,
    window: WindowView,
    options: Option<Seq<(Seq<char>, Seq<char>)>>,
)
    requires
        is_written_window(node, window, options),
        window.options == options_of_pairs(options),
    ensures
        window_of_node(node) == Ok::<WindowView, Seq<char>>(window),
{
    lemma_window_keys_differ();
    let entries = match node {
        YamlValue::Mapping(outer) => match outer@[0].1 {
            YamlValue::Mapping(entries) => entries@,
            _ => Seq::empty(),
        },
        _ => Seq::empty(),
    };
    let options_at: int = if window.root is Some {
        2
    } else {
        1
    };
    let panes_at: int = if options is Some {
        options_at + 1
    } else {
        options_at
    };
    lemma_get_at(entries, "layout"@, 0);
    lemma_get_at(entries, "panes"@, panes_at);
    if window.root is Some {
        lemma_get_at(entries, "root"@, 1);
    } else {
        lemma_get_absent(entries, "root"@);
    }
    if options is Some {
        lemma_get_at(entries, "options"@, options_at);
    } else {
        lemma_get_absent(entries, "options"@);
    }
    match entries[panes_at].1 {
        YamlValue::Sequence(items) => {
            assert forall|i: int| 0 <= i < items@.len() implies pane_of(#[trigger] items@[i])
                == window.panes[i] by {
                lemma_written_pane_decodes(items@[i], window.panes[i]);
            }
            assert(panes_of(items@) =~= window.panes);
        },
        _ => {},
    }
}

impl Window {
    /// The options of the window as pairs, in the order in which they are kept.
    pub open spec fn option_pairs(&self) -> Option<Seq<(Seq<char>, Seq<char>)>> {
        match self.options {
            Some(options) => Some(options.pairs()),
            None => None,
        }
    }

    /// Writes the window as a node of a project's `windows`: a mapping from its name
    /// to a mapping with `layout`, `root` and `options` where set, and `panes`.
    /// Decoding the node gives the window back.
    pub fn encode(&self) -> (node: YamlValue)
        ensures
            is_written_window(node, self.deep_view(), self.option_pairs()),
            window_of_node(node) == Ok::<WindowView, Seq<char>>(self.deep_view()),
    {
        let mut entries: Vec<(YamlValue, YamlValue)> = Vec::new();
        entries.push(
            (YamlValue::String(String::from_str("layout")), YamlValue::String(self.layout.clone())),
        );
        match &self.root {
            Some(root) => {
                entries.push(
                    (YamlValue::String(String::from_str("root")), YamlValue::String(root.clone())),
                );
            },
            None => {},
        }
        match &self.options {
            Some(options) => {
                let pairs = encode_options(options);
                entries.push(
                    (YamlValue::String(String::from_str("options")), YamlValue::Mapping(pairs)),
                );
            },
            None => {},
        }
        let items = encode_panes(&self.panes);
        entries.push((YamlValue::String(String::from_str("panes")), YamlValue::Sequence(items)));
        let mut outer: Vec<(YamlValue, YamlValue)> = Vec::new();
        outer.push((YamlValue::String(self.name.clone()), YamlValue::Mapping(entries)));
        let node = YamlValue::Mapping(outer);
        proof {
            match &self.options {
                Some(options) => {
                    options.lemma_view();
                },
                None => {},
            }
            lemma_written_window_decodes(node, self.deep_view(), self.option_pairs());
        }
        node
    }
}

impl TryFrom<YamlValue> for Window {
    type Error = ProjectParseError;

    /// Decodes a node of a project's `windows`.
    fn try_from(node: YamlValue) -> (result: Result<Window, ProjectParseError>)
        ensures
            decoded(result) == window_of_node(node),
    {
        Window::decode_node(&node)
    }
}

impl vstd::std_specs::convert::TryFromSpecImpl<YamlValue> for Window {
    open spec fn obeys_try_from_spec() -> bool {
        false
    }

    open spec fn try_from_spec(node: YamlValue) -> Result<Window, ProjectParseError> {
        arbitrary()
    }
}

/// A window whose value is null or a string has exactly one pane: one that runs
/// nothing for null, one that runs the string for a string.
pub proof fn lemma_scalar_window_has_one_pane(name: Seq<char>, value: YamlValue)
    requires
        value is Null || value is String,
    ensures
        window_of(name, value) is Ok,
        window_of(name, value)->Ok_0.panes == seq![
            if value is Null {
                None
            } else {
                Some(seq![text_of(value)])
            },
        ],
{
}

/// A window decodes to one pane for each item of the sequence under `panes`, in the
/// order of the sequence.
pub proof fn lemma_panes_follow_sequence(name: Seq<char>, value: YamlValue, items: Seq<YamlValue>)
    requires
        value matches YamlValue::Mapping(entries) && mapping_get(entries@, "panes"@)
            matches Some(YamlValue::Sequence(list)) && list@ == items,
        window_of(name, value) is Ok,
    ensures
        window_of(name, value)->Ok_0.panes.len() == items.len(),
        forall|i: int|
            0 <= i < items.len() ==> window_of(name, value)->Ok_0.panes[i] == pane_of(items[i]),
{
}

/// A window that names no layout has the layout `tiled`.
pub proof fn lemma_default_layout(name: Seq<char>, value: YamlValue)
    requires
        value matches YamlValue::Mapping(entries) ==> mapping_get(entries@, "layout"@) is None,
        window_of(name, value) is Ok,
    ensures
        window_of(name, value)->Ok_0.layout == DEFAULT_LAYOUT@,
{
}

} // verus!
