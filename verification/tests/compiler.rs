use rusmux::tmux::counts::{count_commands, CommandKind};
use rusmux::tmux::project::READ_ERROR;
use rusmux::tmux::session::LAYOUT_HOOK;
use rusmux::{
    Cmd, Commands, ProjectConfig, Tmux, TmuxError, TmuxProject, TmuxVersion, Window,
};

fn s(text: &str) -> String {
    text.to_string()
}

fn words(list: &[&str]) -> Vec<String> {
    list.iter().map(|w| w.to_string()).collect()
}

fn window(name: &str, panes: Vec<Option<Vec<String>>>) -> Window {
    Window {
        name: s(name),
        layout: s("tiled"),
        panes,
        options: None,
        root: None,
    }
}

fn project(name: &str, windows: Option<Vec<Window>>) -> ProjectConfig {
    ProjectConfig {
        project_name: s(name),
        project_root: None,
        on_project_start: None,
        on_project_exit: None,
        on_project_stop: None,
        pre_window: None,
        windows,
    }
}

fn keys(command: &str, window_index: usize, pane_index: usize) -> Commands {
    Commands::SendKeys {
        command: s(command),
        session_name: s("demo"),
        window_index,
        pane_index: Some(pane_index),
        comment: None,
    }
}

fn demo() -> ProjectConfig {
    project("demo", Some(vec![window("editor", vec![Some(words(&["vim"]))])]))
}

fn larger() -> ProjectConfig {
    let mut shells = window(
        "shells",
        vec![None, Some(words(&["grunt serve"])), Some(words(&["a", "b"]))],
    );
    shells.layout = s("main-vertical");
    shells.root = Some(s("/tmp"));
    ProjectConfig {
        project_name: s("demo"),
        project_root: Some(s("~/src/demo")),
        on_project_start: Some(words(&["make"])),
        on_project_exit: Some(words(&["make clean"])),
        on_project_stop: Some(words(&["make stop"])),
        pre_window: Some(words(&["workon demo"])),
        windows: Some(vec![window("editor", vec![Some(words(&["vim"]))]), shells]),
    }
}

#[test]
fn single_window_example() {
    let config = demo();
    let tmux = Tmux::new(1, 1, TmuxVersion::Version(2, 5));
    assert!(TmuxProject::fits(&config, &tmux));
    let compiler = TmuxProject::new(&config, tmux);
    let commands = compiler.get_commands();
    assert_eq!(
        commands,
        vec![
            Commands::Server { project_name: s("demo"), project_root: None },
            Commands::ProjectEvent { event_name: s("start"), on_event: None },
            Commands::Session { project_name: s("demo"), first_window_name: Some(s("editor")) },
            keys("vim", 1, 1),
            Commands::SelectWindow { session_name: s("demo"), window_index: 1 },
            Commands::SelectPane { session_name: s("demo"), window_index: 1, pane_index: 1 },
            Commands::AttachSession { session_name: s("demo") },
            Commands::ProjectEvent { event_name: s("exit"), on_event: None },
        ]
    );
    assert_eq!(count_commands(&commands, CommandKind::NewWindow), 0);
    assert_eq!(count_commands(&commands, CommandKind::SendKeys), 1);
    assert_eq!(count_commands(&commands, CommandKind::SelectLayout), 0);
    assert_eq!(count_commands(&commands, CommandKind::SetHook), 0);
    assert_eq!(compiler.run(false), commands);
}

#[test]
fn single_window_example_with_hook() {
    let config = demo();
    let compiler = TmuxProject::new(&config, Tmux::new(1, 1, TmuxVersion::Version(2, 6)));
    let commands = compiler.get_commands();
    assert_eq!(commands.len(), 9);
    assert_eq!(
        commands[6],
        Commands::SetHook {
            session_name: s("demo"),
            hook_name: s("client-session-changed"),
            hook_command: s(
                "selectw -t 1;selectl tiled;set-hook -u -t demo client-session-changed"
            ),
        }
    );
    assert_eq!(commands[7], Commands::AttachSession { session_name: s("demo") });
    assert_eq!(compiler.get_layout_hooks_command().as_ref(), Some(&commands[6]));
    assert_eq!(LAYOUT_HOOK, "client-session-changed");
}

#[test]
fn larger_project_in_order() {
    let config = larger();
    let compiler = TmuxProject::new(&config, Tmux::new(1, 0, TmuxVersion::Version(3, 3)));
    let pre = |window_index: usize, pane_index: usize| keys("workon demo", window_index, pane_index);
    let split = || Commands::SplitWindow {
        session_name: s("demo"),
        window_index: 2,
        project_root: Some(s("/tmp")),
    };
    let expected = vec![
        Commands::Server { project_name: s("demo"), project_root: Some(s("~/src/demo")) },
        Commands::ProjectEvent { event_name: s("start"), on_event: Some(words(&["make"])) },
        Commands::Session { project_name: s("demo"), first_window_name: Some(s("editor")) },
        Commands::SendKeys {
            command: s("cd ~/src/demo"),
            session_name: s("demo"),
            window_index: 1,
            pane_index: None,
            comment: Some(s(
                "Manually switch to root directory if required to support tmux < 1.9",
            )),
        },
        Commands::SendKeys {
            command: s("workon demo"),
            session_name: s("demo"),
            window_index: 1,
            pane_index: Some(0),
            comment: Some(s("Continue \"editor\" window")),
        },
        keys("vim", 1, 0),
        Commands::NewWindow {
            session_name: s("demo"),
            window_name: s("shells"),
            window_index: 2,
            project_root: Some(s("/tmp")),
        },
        pre(2, 0),
        split(),
        pre(2, 1),
        keys("grunt serve", 2, 1),
        split(),
        pre(2, 2),
        keys("a", 2, 2),
        keys("b", 2, 2),
        Commands::SelectLayout {
            session_name: s("demo"),
            window_index: 2,
            layout: s("main-vertical"),
        },
        Commands::SelectPane { session_name: s("demo"), window_index: 2, pane_index: 0 },
        Commands::SelectWindow { session_name: s("demo"), window_index: 1 },
        Commands::SelectPane { session_name: s("demo"), window_index: 1, pane_index: 0 },
        Commands::SetHook {
            session_name: s("demo"),
            hook_name: s("client-session-changed"),
            hook_command: s(
                "selectw -t 1;selectl tiled;selectw -t 2;selectl main-vertical;selectw -l;set-hook -u -t demo client-session-changed"
            ),
        },
        Commands::AttachSession { session_name: s("demo") },
        Commands::ProjectEvent { event_name: s("exit"), on_event: Some(words(&["make clean"])) },
    ];
    assert_eq!(compiler.get_commands(), expected);
    assert_eq!(compiler.get_window_commands(0)[..], expected[4..6]);
    assert_eq!(compiler.get_window_commands(1)[..], expected[6..17]);
}

#[test]
fn window_root_falls_back_to_project_root() {
    let mut config = larger();
    config.windows.as_mut().unwrap()[1].root = None;
    let compiler = TmuxProject::new(&config, Tmux::new(0, 0, TmuxVersion::Max));
    let commands = compiler.get_window_commands(1);
    assert_eq!(
        commands[0],
        Commands::NewWindow {
            session_name: s("demo"),
            window_name: s("shells"),
            window_index: 1,
            project_root: Some(s("~/src/demo")),
        }
    );
    assert_eq!(
        commands[2],
        Commands::SplitWindow {
            session_name: s("demo"),
            window_index: 1,
            project_root: Some(s("~/src/demo")),
        }
    );
}

#[test]
fn new_windows_and_splits_are_counted_by_windows_and_panes() {
    let pane_counts = [vec![1], vec![3], vec![1, 1], vec![2, 1, 4], vec![5, 5, 5, 5]];
    for counts in pane_counts {
        let windows: Vec<Window> = counts
            .iter()
            .enumerate()
            .map(|(i, n)| window(&format!("w{}", i), (0..*n).map(|_| None).collect()))
            .collect();
        let config = project("demo", Some(windows));
        for version in [TmuxVersion::Version(1, 8), TmuxVersion::Max] {
            let compiler = TmuxProject::new(&config, Tmux::new(1, 1, version));
            let commands = compiler.get_commands();
            let total: usize = counts.iter().sum();
            assert_eq!(count_commands(&commands, CommandKind::NewWindow), counts.len() - 1);
            assert_eq!(
                count_commands(&commands, CommandKind::SplitWindow),
                total - counts.len()
            );
        }
    }
}

#[test]
fn old_tmux_gets_no_hook() {
    for config in [demo(), larger(), project("demo", None), project("demo", Some(vec![]))] {
        for version in [
            TmuxVersion::Version(2, 5),
            TmuxVersion::Version(1, 9),
            TmuxVersion::Version(0, 0),
            TmuxVersion::Version(1, 900),
        ] {
            let compiler = TmuxProject::new(&config, Tmux::new(0, 0, version));
            assert_eq!(count_commands(&compiler.get_commands(), CommandKind::SetHook), 0);
        }
    }
}

#[test]
fn new_tmux_gets_one_hook_when_there_are_windows() {
    for version in [TmuxVersion::Version(2, 6), TmuxVersion::Version(3, 0), TmuxVersion::Max] {
        let with_windows = larger();
        let compiler = TmuxProject::new(&with_windows, Tmux::new(0, 0, version));
        assert_eq!(count_commands(&compiler.get_commands(), CommandKind::SetHook), 1);
        let without = project("demo", None);
        let compiler = TmuxProject::new(&without, Tmux::new(0, 0, version));
        assert_eq!(count_commands(&compiler.get_commands(), CommandKind::SetHook), 0);
        assert_eq!(compiler.get_layout_hooks_command(), None);
        let empty = project("demo", Some(vec![]));
        let compiler = TmuxProject::new(&empty, Tmux::new(0, 0, version));
        assert_eq!(count_commands(&compiler.get_commands(), CommandKind::SetHook), 0);
    }
}

#[test]
fn existing_session_is_only_attached_to() {
    for config in [demo(), larger(), project("demo", None)] {
        let compiler = TmuxProject::new(&config, Tmux::new(1, 1, TmuxVersion::Max));
        assert_eq!(
            compiler.run(true),
            vec![Commands::AttachSession { session_name: s("demo") }]
        );
        assert_eq!(
            compiler.get_attach_session_command(),
            Commands::AttachSession { session_name: s("demo") }
        );
    }
}

#[test]
fn project_without_windows() {
    let config = project("bare", None);
    let compiler = TmuxProject::new(&config, Tmux::new(1, 1, TmuxVersion::Max));
    assert_eq!(
        compiler.run(false),
        vec![
            Commands::Server { project_name: s("bare"), project_root: None },
            Commands::ProjectEvent { event_name: s("start"), on_event: None },
            Commands::Session { project_name: s("bare"), first_window_name: None },
            Commands::AttachSession { session_name: s("bare") },
            Commands::ProjectEvent { event_name: s("exit"), on_event: None },
        ]
    );
}

#[test]
fn project_with_an_empty_list_of_windows() {
    let config = project("bare", Some(vec![]));
    for version in [TmuxVersion::Version(2, 5), TmuxVersion::Max] {
        let compiler = TmuxProject::new(&config, Tmux::new(1, 1, version));
        assert_eq!(
            compiler.run(false),
            vec![
                Commands::Server { project_name: s("bare"), project_root: None },
                Commands::ProjectEvent { event_name: s("start"), on_event: None },
                Commands::Session { project_name: s("bare"), first_window_name: None },
                Commands::AttachSession { session_name: s("bare") },
                Commands::ProjectEvent { event_name: s("exit"), on_event: None },
            ]
        );
    }
}

#[test]
fn hook_lists_the_windows_and_then_its_own_removal() {
    let config = larger();
    let compiler = TmuxProject::new(&config, Tmux::new(3, 0, TmuxVersion::Max));
    let hook = compiler.get_layout_hooks_command().unwrap();
    let body = match &hook {
        Commands::SetHook { session_name, hook_name, hook_command } => {
            assert_eq!(session_name, "demo");
            assert_eq!(hook_name, "client-session-changed");
            hook_command
        }
        _ => unreachable!(),
    };
    let parts: Vec<&str> = body.split(';').collect();
    assert_eq!(
        parts,
        vec![
            "selectw -t 3",
            "selectl tiled",
            "selectw -t 4",
            "selectl main-vertical",
            "selectw -l",
            "set-hook -u -t demo client-session-changed",
        ]
    );
}

#[test]
fn stop_kills_then_runs_the_stop_commands() {
    let config = larger();
    let compiler = TmuxProject::new(&config, Tmux::new(1, 1, TmuxVersion::Max));
    let expected = vec![
        Commands::StopSession { session_name: s("demo") },
        Commands::ProjectEvent { event_name: s("stop"), on_event: Some(words(&["make stop"])) },
    ];
    assert_eq!(compiler.stop(), expected);
    assert_eq!(compiler.get_stop_session_commands(), expected);
}

#[test]
fn script_of_the_single_window_example() {
    let config = demo();
    let compiler = TmuxProject::new(&config, Tmux::new(1, 1, TmuxVersion::Version(2, 5)));
    assert_eq!(
        compiler.render(Some("/bin/zsh")),
        "#!/bin/zsh\n#\n# rusmux demo project\n\ntmux start-server\n\
         \n# Run on_project_start command(s)\n\n\
         \n# Create new session and first window\nTMUX= tmux new-session -d -s demo -n editor\n\
         tmux send-keys -t demo:1.1 vim C-m\n\
         tmux select-window -t demo:1\n\
         tmux select-pane -t demo:1.1\n\
         \nif [ -z \"$TMUX\" ]; then\n  tmux -u attach-session -t demo\nelse\n  tmux -u switch-client -t demo\nfi\n\
         \n# Run on_project_exit command(s)\n"
    );
}

#[test]
fn session_probe_asks_has_session() {
    let config = demo();
    let compiler = TmuxProject::new(&config, Tmux::new(1, 1, TmuxVersion::Max));
    assert_eq!(
        compiler.has_session_command(),
        Cmd::new(words(&["tmux", "has-session", "-t", "demo"]), true, None)
    );
}

#[test]
fn probe_command_asks_for_both_indices_and_the_version() {
    assert_eq!(
        Tmux::probe_command(),
        Cmd::new(
            words(&[
                "tmux",
                "start",
                ";",
                "show",
                "-g",
                "base-index",
                ";",
                "show",
                "-g",
                "pane-base-index",
                ";",
                "display-message",
                "-p",
                "#{version}",
            ]),
            false,
            None
        )
    );
}

#[test]
fn settings_are_read_from_the_answer() {
    assert_eq!(
        Tmux::new_from_config("base-index 1\npane-base-index 0\n3.3a\n"),
        Ok(Tmux::new(1, 0, TmuxVersion::Version(3, 3)))
    );
    assert_eq!(
        Tmux::new_from_config("base-index 0\npane-base-index 1\n"),
        Ok(Tmux::new(0, 1, TmuxVersion::Max))
    );
    assert_eq!(
        Tmux::new_from_config("base-index 12\r\npane-base-index 34\r\nnext-3.4"),
        Ok(Tmux::new(12, 34, TmuxVersion::Version(3, 4)))
    );
    assert_eq!(
        Tmux::new_from_config("base-index 1\npane-base-index 1\nmaster"),
        Ok(Tmux::new(1, 1, TmuxVersion::Max))
    );
}

#[test]
fn settings_that_cannot_be_read_are_an_error() {
    let error = Err(TmuxError::Message(s("Cannot get tmux version and config options")));
    for answer in [
        "",
        "base-index 1",
        "base-index 1\n",
        "base-index 1\npane-base-index 1\n3.3\nmore",
        "base-index one\npane-base-index 1\n",
        "base-index 1\npane-base-index\n",
        "base-index  1\npane-base-index 1\n",
        "base-index 1\npane-base-index -1\n3.3",
        "1\n1\n",
        "base-index 99999999999999999999999999\npane-base-index 1",
    ] {
        assert_eq!(Tmux::new_from_config(answer), error, "{:?}", answer);
    }
    assert_eq!(READ_ERROR, "Cannot get tmux version and config options");
}

#[test]
fn settings_are_read_from_bytes() {
    let error = Err(TmuxError::Message(s("Cannot get tmux version and config options")));
    assert_eq!(
        Tmux::new_from_output(b"base-index 1\npane-base-index 0\n3.3a\n".to_vec()),
        Ok(Tmux::new(1, 0, TmuxVersion::Version(3, 3)))
    );
    assert_eq!(
        Tmux::new_from_output("base-index 2\npane-base-index 3\n\u{e9} 2.6".as_bytes().to_vec()),
        Ok(Tmux::new(2, 3, TmuxVersion::Version(2, 6)))
    );
    assert_eq!(
        Tmux::new_from_output(b"base-index 1\npane-base-index 0\n\xff3.3".to_vec()),
        error
    );
    assert_eq!(Tmux::new_from_output(vec![0xc3]), error);
    assert_eq!(Tmux::new_from_output(vec![]), error);
}

#[test]
fn indices_must_fit() {
    let config = larger();
    assert!(TmuxProject::fits(&config, &Tmux::new(usize::MAX - 2, usize::MAX - 3, TmuxVersion::Max)));
    assert!(!TmuxProject::fits(&config, &Tmux::new(usize::MAX - 1, 0, TmuxVersion::Max)));
    assert!(!TmuxProject::fits(&config, &Tmux::new(0, usize::MAX - 2, TmuxVersion::Max)));
    assert!(TmuxProject::fits(&project("x", None), &Tmux::new(usize::MAX, usize::MAX, TmuxVersion::Max)));
    let compiler = TmuxProject::new(&config, Tmux::new(usize::MAX - 2, usize::MAX - 3, TmuxVersion::Version(1, 0)));
    let commands = compiler.get_window_commands(1);
    assert_eq!(
        commands[commands.len() - 1],
        Commands::SelectPane {
            session_name: s("demo"),
            window_index: usize::MAX - 1,
            pane_index: usize::MAX - 3,
        }
    );
}
