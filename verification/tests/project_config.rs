use rusmux::project_config::project::{
    DUPLICATE_NAME, EXPECTED_MAPPING, EXPECTED_SEQUENCE, EXPECTED_STRING, INVALID_KEY, MISSING_NAME,
};
use rusmux::project_config::stringorvec::{
    deserialize_optional_vec_or_string, EXPECTED_STRING_OR_LIST,
};
use rusmux::project_config::window::{decode_pane, encode_pane, INVALID_WINDOW};
use rusmux::{ProjectConfig, ProjectParseError, Window, WindowOptions, YamlValue};

fn convert(value: &serde_yaml::Value) -> YamlValue {
    match value {
        serde_yaml::Value::Null => YamlValue::Null,
        serde_yaml::Value::Bool(flag) => YamlValue::Bool(*flag),
        serde_yaml::Value::Number(number) => YamlValue::Number(number.to_string()),
        serde_yaml::Value::String(text) => YamlValue::String(text.clone()),
        serde_yaml::Value::Sequence(items) => {
            YamlValue::Sequence(items.iter().map(convert).collect())
        }
        serde_yaml::Value::Mapping(entries) => YamlValue::Mapping(
            entries
                .iter()
                .map(|(key, value)| (convert(key), convert(value)))
                .collect(),
        ),
        serde_yaml::Value::Tagged(tagged) => convert(&tagged.value),
    }
}

fn yaml(text: &str) -> YamlValue {
    convert(&serde_yaml::from_str::<serde_yaml::Value>(text).unwrap())
}

fn text(value: &str) -> YamlValue {
    YamlValue::String(value.to_string())
}

fn reason(result: Result<ProjectConfig, ProjectParseError>) -> String {
    result.unwrap_err().0
}

#[test]
fn project_empty_project_test() {
    let name = "empty";
    let yaml_text = format!("project_name: {name}");

    let project = ProjectConfig::try_from(yaml(&yaml_text)).unwrap();
    assert_eq!(project.project_name, name);
    assert_eq!(project.windows, None);
}

#[test]
fn empty_project_with_name_instead_of_project_name_test() {
    let name = "empty";
    let yaml_text = format!("name: {name}");

    let project = ProjectConfig::try_from(yaml(&yaml_text)).unwrap();
    assert_eq!(project.project_name, name);
    assert_eq!(project.windows, None);
}

#[test]
fn project_invalid_project_test() {
    let empty_project: String = "".into();
    let project = ProjectConfig::try_from(yaml(&empty_project));
    assert!(project.is_err(), "Should return an error");
}

#[test]
fn project_test_windows() {
    let name: String = "with-windows".into();
    let project_root: String = "/home/dummy/void".into();
    let window_name: String = "editor".into();
    let window_command: String = "vim".into();
    let yaml_text = format!(
        "project_name: {name}
project_root: {project_root}
windows:
  - {window_name}: {window_command}"
    );
    let project = ProjectConfig::try_from(yaml(&yaml_text)).unwrap();
    assert_eq!(project.project_name, name);
    assert_eq!(project.project_root, Some(project_root));
    assert!(project.windows.is_some(), "windows is none");

    let windows = project.windows.unwrap();
    assert_eq!(windows.len(), 1);
    let first = windows.first().unwrap();
    assert_eq!(first.name, window_name);
    assert_eq!(first.panes, vec![Some(vec![window_command])]);
}

#[test]
fn window_windows_test() {
    let windows_strings = [
        "test: #",
        "test2 window: vim",
        "window3:\n  panes:\n    - vim\n    - #\n    - npm run serve",
        "window4:\n  layout: main-vertical\n  panes:\n    - vim\n    - #\n    - npm run serve",
    ];

    let windows: Vec<Window> = windows_strings
        .iter()
        .map(|text| Window::try_from(yaml(text)).unwrap())
        .collect();

    assert_eq!(windows[0].name, "test");
    assert_eq!(windows[0].layout, "tiled".to_string());
    assert_eq!(windows[0].panes, vec![None]);

    assert_eq!(windows[1].name, "test2 window");
    assert_eq!(windows[1].layout, "tiled".to_string());
    assert_eq!(windows[1].panes, vec![Some(vec!["vim".into()])]);

    assert_eq!(windows[2].name, "window3");
    assert_eq!(windows[2].layout, "tiled".to_string());
    assert_eq!(
        windows[2].panes,
        vec![
            Some(vec!["vim".into()]),
            None,
            Some(vec!["npm run serve".into()])
        ]
    );

    assert_eq!(windows[3].name, "window4");
    assert_eq!(windows[3].layout, "main-vertical".to_string());
    assert_eq!(
        windows[3].panes,
        vec![
            Some(vec!["vim".into()]),
            None,
            Some(vec!["npm run serve".into()])
        ]
    );
}

#[test]
fn multicommand_panes() {
    let yaml_text = "\
greek-window:
  panes:
    - alpha-pane:
      - echo alpha1
      - echo alpha2
    - beta-pane:
      - echo beta
    - gamma-pane: echo gamma
    - echo delta # a good old single command pane";
    let window = Window::try_from(yaml(yaml_text)).unwrap();
    assert_eq!(window.name, "greek-window");
    assert_eq!(
        window.panes,
        vec![
            Some(vec!["echo alpha1".into(), "echo alpha2".into()]),
            Some(vec!["echo beta".into()]),
            Some(vec!["echo gamma".into()]),
            Some(vec!["echo delta".into()]),
        ]
    );
}

#[test]
fn invalid_multicommand_pane() {
    let yaml_text = "\
aircraft-window:
  panes:
    - bad-plane:
        aero-bullet: echo 'object is not a valid command, also the worst airplane in history'
    - ok-plane: echo 'Boeing 747'";
    let window = Window::try_from(yaml(yaml_text)).unwrap();
    assert_eq!(window.name, "aircraft-window");
    assert_eq!(
        window.panes,
        vec![None, Some(vec!["echo 'Boeing 747'".into()]),]
    );
}

#[test]
fn invalid_multicommand_pane_item() {
    let yaml_text = "\
roman-window:
  panes:
    - roman-pane:
      # comments are fine
      - echo I
      - # empty command is ignored
      - echo II
      - bad-command: is ignored!";
    let window = Window::try_from(yaml(yaml_text)).unwrap();
    assert_eq!(window.name, "roman-window");
    assert_eq!(
        window.panes,
        vec![Some(vec!["echo I".into(), "echo II".into()])]
    );
}

#[test]
fn window_options() {
    let yaml_text = "\
window-with-options:
    options:
        main-pane-height: 70%
        main-pane-width: 75%";

    let window = Window::try_from(yaml(yaml_text)).unwrap();
    assert!(window.options.is_some());

    let options = window.options.unwrap();
    assert_eq!(options.len(), 2);
    assert_eq!(options.get("main-pane-height"), Some(&"70%".to_string()));
    assert_eq!(options.get("main-pane-width"), Some(&"75%".to_string()));
}

#[test]
fn window_root() {
    let yaml_text = "\
window-with-root:
    root: /home/dummy/void";
    let window = Window::try_from(yaml(yaml_text)).unwrap();

    assert_eq!(window.root, Some("/home/dummy/void".into()));

    let yaml_text = "\
window-wiout-root:";
    let window = Window::try_from(yaml(yaml_text)).unwrap();

    assert_eq!(window.root, None);
}

#[test]
fn scalar_or_null_window_has_exactly_one_pane() {
    let none = Window::decode("w", &YamlValue::Null).unwrap();
    assert_eq!(none.panes, vec![None]);
    let one = Window::decode("w", &text("htop -d 5")).unwrap();
    assert_eq!(one.panes, vec![Some(vec!["htop -d 5".to_string()])]);
    assert_eq!(one.name, "w");
    assert_eq!(one.layout, "tiled");
    assert_eq!(one.options, None);
    assert_eq!(one.root, None);
    let empty = Window::decode("w", &text("")).unwrap();
    assert_eq!(empty.panes, vec![Some(vec!["".to_string()])]);
}

#[test]
fn panes_count_equals_sequence_length_in_order() {
    let window = Window::try_from(yaml(
        "w:\n  panes:\n    - a\n    - 1\n    - true\n    - [x]\n    - {}\n    - {k: v}\n    - {k: [p, 2, q]}\n    - #\n    - z",
    ))
    .unwrap();
    assert_eq!(
        window.panes,
        vec![
            Some(vec!["a".to_string()]),
            None,
            None,
            None,
            None,
            Some(vec!["v".to_string()]),
            Some(vec!["p".to_string(), "q".to_string()]),
            None,
            Some(vec!["z".to_string()]),
        ]
    );
    let empty = Window::try_from(yaml("w:\n  panes: []")).unwrap();
    assert_eq!(empty.panes.len(), 0);
}

#[test]
fn absent_layout_is_tiled() {
    for source in ["w:", "w: vim", "w:\n  root: /tmp", "w:\n  panes:\n    - a"] {
        assert_eq!(Window::try_from(yaml(source)).unwrap().layout, "tiled");
    }
    assert_eq!(
        Window::try_from(yaml("w:\n  layout: even-horizontal"))
            .unwrap()
            .layout,
        "even-horizontal"
    );
}

#[test]
fn pane_mapping_with_two_keys_is_a_pane_without_command() {
    let window = Window::try_from(yaml(
        "w:\n  panes:\n    - first: echo 1\n      second: echo 2\n    - sibling: echo 3\n    - echo 4",
    ))
    .unwrap();
    assert_eq!(
        window.panes,
        vec![
            None,
            Some(vec!["echo 3".to_string()]),
            Some(vec!["echo 4".to_string()]),
        ]
    );
    let two = YamlValue::Mapping(vec![(text("a"), text("x")), (text("b"), text("y"))]);
    assert_eq!(decode_pane(&two), None);
    assert_eq!(decode_pane(&YamlValue::Mapping(vec![])), None);
}

#[test]
fn window_of_other_node_type_is_refused() {
    for value in [
        YamlValue::Bool(true),
        YamlValue::Number("3".to_string()),
        YamlValue::Sequence(vec![text("vim")]),
    ] {
        assert_eq!(
            Window::decode("w", &value),
            Err(ProjectParseError(INVALID_WINDOW.to_string()))
        );
    }
    assert_eq!(INVALID_WINDOW, "invalid window structure");
}

#[test]
fn window_with_wrong_entries_is_refused() {
    for source in [
        "w:\n  layout: 3",
        "w:\n  layout:",
        "w:\n  root: [a]",
        "w:\n  options: tiled",
        "w:\n  options:\n    a: 1",
        "w:\n  options:\n    1: a",
    ] {
        assert_eq!(
            Window::try_from(yaml(source)),
            Err(ProjectParseError(INVALID_WINDOW.to_string())),
            "{}",
            source
        );
    }
    let none = Window::try_from(yaml("w:\n  panes: vim")).unwrap();
    assert_eq!(none.panes.len(), 0);
}

#[test]
fn window_node_must_be_a_single_key_mapping() {
    for node in [
        YamlValue::Null,
        text("editor"),
        YamlValue::Mapping(vec![]),
        YamlValue::Mapping(vec![(text("a"), text("x")), (text("b"), text("y"))]),
        YamlValue::Mapping(vec![(YamlValue::Number("1".to_string()), text("x"))]),
    ] {
        assert_eq!(
            Window::try_from(node),
            Err(ProjectParseError(INVALID_WINDOW.to_string()))
        );
    }
}

#[test]
fn window_round_trip_is_lossless() {
    let sources = [
        "test: #",
        "test2 window: vim",
        "window3:\n  panes:\n    - vim\n    - #\n    - npm run serve",
        "window4:\n  layout: main-vertical\n  root: ~/src\n  options:\n    main-pane-width: 60%\n    main-pane-height: 70%\n  panes:\n    - vim\n    - group:\n      - a\n      - b\n    - empty: []\n    - one: [x]\n    - bad: {x: y}",
        "only-options:\n  options: {}",
        "no-panes:\n  layout: tiled",
    ];
    for source in sources {
        let window = Window::try_from(yaml(source)).unwrap();
        let again = Window::try_from(window.encode()).unwrap();
        assert_eq!(again, window, "{}", source);
        let third = Window::try_from(again.encode()).unwrap();
        assert_eq!(third, again, "{}", source);
    }
}

#[test]
fn pane_round_trip_is_lossless() {
    for pane in [
        None,
        Some(vec![]),
        Some(vec!["a".to_string()]),
        Some(vec!["a".to_string(), "b c".to_string()]),
    ] {
        assert_eq!(decode_pane(&encode_pane(&pane)), pane);
    }
    assert_eq!(encode_pane(&None), YamlValue::Null);
    assert_eq!(encode_pane(&Some(vec!["a".to_string()])), text("a"));
}

#[test]
fn options_are_a_map() {
    let mut options = WindowOptions::new();
    assert_eq!(options.len(), 0);
    assert_eq!(options.get("a"), None);
    options.insert("a".to_string(), "1".to_string());
    options.insert("b".to_string(), "2".to_string());
    options.insert("a".to_string(), "3".to_string());
    assert_eq!(options.len(), 2);
    assert_eq!(options.get("a"), Some(&"3".to_string()));
    assert_eq!(options.get("b"), Some(&"2".to_string()));
    assert_eq!(options.get("c"), None);
    assert_eq!(options.name_at(0), "a");
    assert_eq!(options.value_at(1), "2");

    let mut other = WindowOptions::new();
    other.insert("b".to_string(), "2".to_string());
    assert!(options != other);
    other.insert("a".to_string(), "3".to_string());
    assert!(options == other);
    other.insert("a".to_string(), "4".to_string());
    assert!(options != other);
}

#[test]
fn string_or_list_decodes_both_shapes() {
    assert_eq!(deserialize_optional_vec_or_string(&YamlValue::Null), Ok(None));
    assert_eq!(
        deserialize_optional_vec_or_string(&text("make")),
        Ok(Some(vec!["make".to_string()]))
    );
    assert_eq!(
        deserialize_optional_vec_or_string(&YamlValue::Sequence(vec![text("a"), text("b")])),
        Ok(Some(vec!["a".to_string(), "b".to_string()]))
    );
    assert_eq!(
        deserialize_optional_vec_or_string(&YamlValue::Sequence(vec![])),
        Ok(Some(vec![]))
    );
    for value in [
        YamlValue::Bool(false),
        YamlValue::Number("1".to_string()),
        YamlValue::Mapping(vec![]),
        YamlValue::Sequence(vec![text("a"), YamlValue::Null]),
        YamlValue::Sequence(vec![YamlValue::Number("1".to_string())]),
    ] {
        assert_eq!(
            deserialize_optional_vec_or_string(&value),
            Err(ProjectParseError(EXPECTED_STRING_OR_LIST.to_string()))
        );
    }
}

#[test]
fn project_hooks_take_string_or_list() {
    let project = ProjectConfig::try_from(yaml(
        "project_name: demo\non_project_start: make\non_project_exit:\n  - a\n  - b\non_project_stop:\npre_window: [workon demo, cd demo]",
    ))
    .unwrap();
    assert_eq!(project.on_project_start, Some(vec!["make".to_string()]));
    assert_eq!(
        project.on_project_exit,
        Some(vec!["a".to_string(), "b".to_string()])
    );
    assert_eq!(project.on_project_stop, None);
    assert_eq!(
        project.pre_window,
        Some(vec!["workon demo".to_string(), "cd demo".to_string()])
    );
    assert_eq!(project.project_root, None);
}

#[test]
fn project_windows_get_the_default_pane() {
    let project = ProjectConfig::try_from(yaml(
        "name: demo\nwindows:\n  - a:\n      layout: tiled\n  - b:\n      panes: []\n  - c: vim",
    ))
    .unwrap();
    let windows = project.windows.unwrap();
    assert_eq!(windows[0].panes, vec![None]);
    assert_eq!(windows[1].panes, vec![None]);
    assert_eq!(windows[2].panes, vec![Some(vec!["vim".to_string()])]);
    let none = ProjectConfig::try_from(yaml("name: demo\nwindows:")).unwrap();
    assert_eq!(none.windows, None);
    let empty = ProjectConfig::try_from(yaml("name: demo\nwindows: []")).unwrap();
    assert_eq!(empty.windows, Some(vec![]));
}

#[test]
fn decoded_projects_are_valid() {
    let project = ProjectConfig::try_from(yaml(
        "name: demo\nwindows:\n  - a:\n      layout: tiled\n  - b: vim",
    ))
    .unwrap();
    assert!(project.is_valid());
    let mut by_hand = project;
    by_hand.windows.as_mut().unwrap()[1].panes.clear();
    assert!(!by_hand.is_valid());
    assert!(ProjectConfig::try_from(yaml("name: demo")).unwrap().is_valid());
}

#[test]
fn project_errors_name_their_reason() {
    assert_eq!(reason(ProjectConfig::try_from(yaml(""))), MISSING_NAME);
    assert_eq!(reason(ProjectConfig::try_from(yaml("project_root: /"))), MISSING_NAME);
    assert_eq!(
        reason(ProjectConfig::try_from(yaml("name: a\nproject_name: b"))),
        DUPLICATE_NAME
    );
    assert_eq!(reason(ProjectConfig::try_from(yaml("- a"))), EXPECTED_MAPPING);
    assert_eq!(reason(ProjectConfig::try_from(yaml("demo"))), EXPECTED_MAPPING);
    assert_eq!(reason(ProjectConfig::try_from(yaml("name: a\n1: b"))), INVALID_KEY);
    assert_eq!(reason(ProjectConfig::try_from(yaml("name: 1"))), EXPECTED_STRING);
    assert_eq!(reason(ProjectConfig::try_from(yaml("name:"))), EXPECTED_STRING);
    assert_eq!(
        reason(ProjectConfig::try_from(yaml("name: a\nproject_root: [x]"))),
        EXPECTED_STRING
    );
    assert_eq!(
        reason(ProjectConfig::try_from(yaml("name: a\npre_window: {x: y}"))),
        EXPECTED_STRING_OR_LIST
    );
    assert_eq!(
        reason(ProjectConfig::try_from(yaml("name: a\nwindows: vim"))),
        EXPECTED_SEQUENCE
    );
    assert_eq!(
        reason(ProjectConfig::try_from(yaml("name: a\nwindows:\n  - vim"))),
        INVALID_WINDOW
    );
    assert_eq!(
        reason(ProjectConfig::try_from(yaml("name: a\nwindows:\n  - e: vim\n  - f: 3"))),
        INVALID_WINDOW
    );
}

#[test]
fn project_passes_over_unknown_keys() {
    let project = ProjectConfig::try_from(yaml("name: a\ncolour: blue\nproject_root: ~/x")).unwrap();
    assert_eq!(project.project_name, "a");
    assert_eq!(project.project_root, Some("~/x".to_string()));
}

#[test]
fn parse_error_message_has_the_prefix() {
    let error = ProjectParseError::new("missing field `project_name`");
    assert_eq!(
        error.message(),
        "Cannot parse yaml: missing field `project_name`"
    );
}
