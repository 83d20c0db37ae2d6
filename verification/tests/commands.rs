use rusmux::tmux::commands::{
    keys_target_string, pane_target_string, window_target_string, APP_NAME,
};
use rusmux::tmux::steps::{expand_path, hook_step_of, path_of_expansion, HOOK_FAILURE};
use rusmux::tmux::TMUX_BIN;
use rusmux::{Cmd, Commands, Outcome, Step, TmuxError};

fn s(text: &str) -> String {
    text.to_string()
}

fn words(list: &[&str]) -> Vec<String> {
    list.iter().map(|w| w.to_string()).collect()
}

fn tmux(arguments: &[&str], message: &str) -> Vec<Step> {
    let mut command = vec![s("tmux")];
    command.extend(words(arguments));
    vec![Step::Require(Cmd::new(command, false, None), s(message))]
}

fn send_keys(command: &str) -> Commands {
    Commands::SendKeys {
        command: s(command),
        session_name: s("demo"),
        window_index: 1,
        pane_index: Some(2),
        comment: None,
    }
}

#[test]
fn names_of_the_programs() {
    assert_eq!(TMUX_BIN, "tmux");
    assert_eq!(APP_NAME, "rusmux");
}

#[test]
fn targets_are_session_window_pane() {
    assert_eq!(window_target_string("demo", 0), "demo:0");
    assert_eq!(window_target_string("my session", 12), "my session:12");
    assert_eq!(pane_target_string("demo", 1, 10), "demo:1.10");
    assert_eq!(keys_target_string("demo", 3, None), "demo:3");
    assert_eq!(keys_target_string("demo", 3, Some(4)), "demo:3.4");
}

#[test]
fn render_server() {
    let with_root = Commands::Server {
        project_name: s("demo"),
        project_root: Some(s("~/src/demo")),
    };
    assert_eq!(
        with_root.render(Some("/bin/zsh")),
        "#!/bin/zsh\n#\n# rusmux demo project\n\ntmux start-server\ncd ~/src/demo"
    );
    let bare = Commands::Server {
        project_name: s("demo"),
        project_root: None,
    };
    assert_eq!(
        bare.render(None),
        "\n#\n# rusmux demo project\n\ntmux start-server"
    );
    assert_eq!(
        Commands::fmt_server_command(Some("/bin/sh"), "x", &None),
        "#!/bin/sh\n#\n# rusmux x project\n\ntmux start-server"
    );
}

#[test]
fn render_project_event() {
    let start = Commands::ProjectEvent {
        event_name: s("start"),
        on_event: Some(words(&["sudo systemctl start postgresql", "make"])),
    };
    assert_eq!(
        start.render(None),
        "\n# Run on_project_start command(s)\nsudo systemctl start postgresql\nmake"
    );
    let none = Commands::ProjectEvent {
        event_name: s("exit"),
        on_event: None,
    };
    assert_eq!(none.render(Some("/bin/sh")), "\n# Run on_project_exit command(s)\n");
}

#[test]
fn render_session() {
    let named = Commands::Session {
        project_name: s("demo"),
        first_window_name: Some(s("editor")),
    };
    assert_eq!(
        named.render(None),
        "\n# Create new session and first window\nTMUX= tmux new-session -d -s demo -n editor"
    );
    assert_eq!(
        Commands::fmt_session_command("demo", None),
        "\n# Create new session and first window\nTMUX= tmux new-session -d -s demo"
    );
}

#[test]
fn render_send_keys_escapes_the_command() {
    assert_eq!(send_keys("vim").render(None), "tmux send-keys -t demo:1.2 vim C-m");
    assert_eq!(
        send_keys("npm run serve").render(None),
        "tmux send-keys -t demo:1.2 'npm run serve' C-m"
    );
    assert_eq!(
        send_keys("echo 'hi' there!").render(None),
        "tmux send-keys -t demo:1.2 'echo '\\''hi'\\'' there'\\!'' C-m"
    );
    assert_eq!(send_keys("").render(None), "tmux send-keys -t demo:1.2 '' C-m");
    assert_eq!(
        send_keys("--aaa=bbb-ccc/d,e.f+g_h").render(None),
        "tmux send-keys -t demo:1.2 --aaa=bbb-ccc/d,e.f+g_h C-m"
    );
    assert_eq!(
        send_keys("caf\u{e9}").render(None),
        "tmux send-keys -t demo:1.2 'caf\u{e9}' C-m"
    );
    let commented = Commands::SendKeys {
        command: s("cd ~/src"),
        session_name: s("demo"),
        window_index: 0,
        pane_index: None,
        comment: Some(s("Continue \"editor\" window")),
    };
    assert_eq!(
        commented.render(None),
        "\n# Continue \"editor\" window\ntmux send-keys -t demo:0 'cd ~/src' C-m"
    );
    assert_eq!(
        Commands::fmt_send_keys("ls", "d", 1, Some(0), Some("note")),
        "\n# note\ntmux send-keys -t d:1.0 ls C-m"
    );
}

#[test]
fn render_windows_and_panes() {
    let new_window = Commands::NewWindow {
        session_name: s("demo"),
        window_name: s("shells"),
        window_index: 2,
        project_root: Some(s("~/x")),
    };
    assert_eq!(
        new_window.render(None),
        "\n# Create \"shells\" window \ntmux new-window -c ~/x -t demo:2 -n shells"
    );
    assert_eq!(
        Commands::fmt_new_window("demo", "mail", 3, &None),
        "\n# Create \"mail\" window \ntmux new-window -t demo:3 -n mail"
    );
    let split = Commands::SplitWindow {
        session_name: s("demo"),
        window_index: 2,
        project_root: Some(s("~/x")),
    };
    assert_eq!(split.render(None), "tmux splitw -c ~/x -t demo:2");
    assert_eq!(Commands::fmt_split_window("demo", 2, &None), "tmux splitw -t demo:2");
    assert_eq!(Commands::get_cd_root_flag(&Some(s("/tmp"))), " -c /tmp");
    assert_eq!(Commands::get_cd_root_flag(&None), "");
    let layout = Commands::SelectLayout {
        session_name: s("demo"),
        window_index: 2,
        layout: s("main-vertical"),
    };
    assert_eq!(layout.render(None), "tmux select-layout -t demo:2 main-vertical");
    let window = Commands::SelectWindow {
        session_name: s("demo"),
        window_index: 1,
    };
    assert_eq!(window.render(None), "tmux select-window -t demo:1");
    let pane = Commands::SelectPane {
        session_name: s("demo"),
        window_index: 1,
        pane_index: 1,
    };
    assert_eq!(pane.render(None), "tmux select-pane -t demo:1.1");
}

#[test]
fn render_session_ends() {
    let attach = Commands::AttachSession { session_name: s("demo") };
    assert_eq!(
        attach.render(None),
        "\nif [ -z \"$TMUX\" ]; then\n  tmux -u attach-session -t demo\nelse\n  tmux -u switch-client -t demo\nfi"
    );
    let stop = Commands::StopSession { session_name: s("demo") };
    assert_eq!(stop.render(None), "tmux kill-session -t demo");
    let hook = Commands::SetHook {
        session_name: s("demo"),
        hook_name: s("client-session-changed"),
        hook_command: s("selectw -t 1;selectl tiled"),
    };
    assert_eq!(
        hook.render(None),
        "tmux set-hook -t demo client-session-changed \"selectw -t 1;selectl tiled\""
    );
}

#[test]
fn steps_of_server() {
    let start = || tmux(&["start-server"], "Cannot start server");
    let bare = Commands::Server { project_name: s("demo"), project_root: None };
    assert_eq!(bare.run(false), Ok(start()));
    let with_root = Commands::Server {
        project_name: s("demo"),
        project_root: Some(s("~/src/demo")),
    };
    assert_eq!(
        with_root.run(true),
        Ok(vec![start().remove(0), Step::ChangeDir(s("~/src/demo"))])
    );
}

#[test]
fn steps_of_session() {
    let named = Commands::Session {
        project_name: s("demo"),
        first_window_name: Some(s("editor")),
    };
    assert_eq!(
        named.run(false),
        Ok(vec![Step::Require(
            Cmd::new(
                words(&["tmux", "new-session", "-d", "-s", "demo", "-n", "editor"]),
                true,
                None
            ),
            s("Cannot start session"),
        )])
    );
    let bare = Commands::Session { project_name: s("demo"), first_window_name: None };
    assert_eq!(
        bare.run(false),
        Ok(vec![Step::Require(
            Cmd::new(words(&["tmux", "new-session", "-d", "-s", "demo"]), true, None),
            s("Cannot start session"),
        )])
    );
}

#[test]
fn steps_of_send_keys_pass_the_command_as_it_is() {
    assert_eq!(
        send_keys("npm run serve").run(false),
        Ok(tmux(
            &["send-keys", "-t", "demo:1.2", "npm run serve", "C-m"],
            "Cannot run send-keys for npm run serve"
        ))
    );
    let to_window = Commands::SendKeys {
        command: s("cd /"),
        session_name: s("demo"),
        window_index: 0,
        pane_index: None,
        comment: Some(s("note")),
    };
    assert_eq!(
        to_window.run(false),
        Ok(tmux(&["send-keys", "-t", "demo:0", "cd /", "C-m"], "Cannot run send-keys for cd /"))
    );
}

#[test]
fn steps_of_new_window_and_split() {
    let bare = Commands::NewWindow {
        session_name: s("demo"),
        window_name: s("shells"),
        window_index: 2,
        project_root: None,
    };
    assert_eq!(
        bare.run(false),
        Ok(tmux(&["new-window", "-t", "demo:2", "-n", "shells"], "Cannot create window shells"))
    );
    let rooted = Commands::NewWindow {
        session_name: s("demo"),
        window_name: s("shells"),
        window_index: 2,
        project_root: Some(s("/tmp")),
    };
    assert_eq!(
        rooted.run(false),
        Ok(tmux(
            &["new-window", "-t", "demo:2", "-n", "shells", "-c", "/tmp"],
            "Cannot create window shells"
        ))
    );
    assert_eq!(
        rooted.steps(Some("/elsewhere"), false),
        tmux(
            &["new-window", "-t", "demo:2", "-n", "shells", "-c", "/elsewhere"],
            "Cannot create window shells"
        )
    );
    let split = Commands::SplitWindow {
        session_name: s("demo"),
        window_index: 2,
        project_root: Some(s("/tmp")),
    };
    assert_eq!(
        split.run(false),
        Ok(tmux(&["splitw", "-t", "demo:2", "-c", "/tmp"], "Cannot split window demo:2"))
    );
    assert_eq!(
        split.steps(None, false),
        tmux(&["splitw", "-t", "demo:2"], "Cannot split window demo:2")
    );
}

#[test]
fn steps_expand_the_root() {
    let split = Commands::SplitWindow {
        session_name: s("demo"),
        window_index: 2,
        project_root: Some(s("${RUSMUX_TEST_SURELY_UNSET:-fallback}/x")),
    };
    assert_eq!(
        split.run(false),
        Ok(tmux(&["splitw", "-t", "demo:2", "-c", "fallback/x"], "Cannot split window demo:2"))
    );
    let lost = Commands::NewWindow {
        session_name: s("demo"),
        window_name: s("w"),
        window_index: 2,
        project_root: Some(s("$RUSMUX_TEST_SURELY_UNSET/x")),
    };
    assert_eq!(
        lost.run(false),
        Err(TmuxError::Expand(s("RUSMUX_TEST_SURELY_UNSET")))
    );
    assert_eq!(expand_path("/plain/path"), Ok(s("/plain/path")));
    assert_eq!(
        expand_path("${RUSMUX_TEST_SURELY_UNSET:-a b}"),
        Ok(s("a b"))
    );
    assert_eq!(
        expand_path("$RUSMUX_TEST_SURELY_UNSET"),
        Err(TmuxError::Expand(s("RUSMUX_TEST_SURELY_UNSET")))
    );
}

#[test]
fn plain_paths_expand_to_themselves() {
    for path in [
        "",
        "/",
        "/tmp",
        "relative/dir",
        "a~b",
        "/home/~user",
        "with space/and 'quotes'",
        "{HOME}",
        "caf\u{e9}/\u{fc}",
        "C:\\dir",
    ] {
        assert_eq!(expand_path(path), Ok(s(path)), "{:?}", path);
    }
    let rooted = Commands::SplitWindow {
        session_name: s("demo"),
        window_index: 0,
        project_root: Some(s("relative/dir")),
    };
    assert_eq!(
        rooted.run(false),
        Ok(tmux(&["splitw", "-t", "demo:0", "-c", "relative/dir"], "Cannot split window demo:0"))
    );
}

#[test]
fn expansion_is_handed_on_as_path_or_error() {
    assert_eq!(path_of_expansion(Ok(s("/home/me/src"))), Ok(s("/home/me/src")));
    assert_eq!(path_of_expansion(Ok(s(""))), Ok(s("")));
    assert_eq!(path_of_expansion(Err(s("HOME"))), Err(TmuxError::Expand(s("HOME"))));
    assert_eq!(path_of_expansion(Err(s(""))), Err(TmuxError::Expand(s(""))));
}

#[test]
fn steps_of_selections() {
    let layout = Commands::SelectLayout {
        session_name: s("demo"),
        window_index: 2,
        layout: s("main-vertical"),
    };
    assert_eq!(
        layout.run(false),
        Ok(tmux(
            &["select-layout", "-t", "demo:2", "main-vertical"],
            "Cannot select layout main-vertical for window demo:2"
        ))
    );
    let window = Commands::SelectWindow { session_name: s("demo"), window_index: 1 };
    assert_eq!(
        window.run(false),
        Ok(tmux(&["select-window", "-t", "demo:1"], "Cannot select window demo:1"))
    );
    let pane = Commands::SelectPane { session_name: s("demo"), window_index: 1, pane_index: 0 };
    assert_eq!(
        pane.run(false),
        Ok(tmux(&["select-pane", "-t", "demo:1.0"], "Cannot select pane demo:1.0"))
    );
}

#[test]
fn steps_of_attach_depend_on_being_inside_tmux() {
    let attach = Commands::AttachSession { session_name: s("demo") };
    assert_eq!(
        attach.run(false),
        Ok(tmux(
            &["-u", "attach-session", "-t", "demo"],
            "Cannot attach-session to session demo"
        ))
    );
    assert_eq!(
        attach.run(true),
        Ok(tmux(
            &["-u", "switch-client", "-t", "demo"],
            "Cannot switch-client to session demo"
        ))
    );
}

#[test]
fn steps_of_stop_and_hook() {
    let stop = Commands::StopSession { session_name: s("demo") };
    assert_eq!(
        stop.run(false),
        Ok(tmux(&["kill-session", "-t", "demo"], "Cannot kill session demo"))
    );
    let hook = Commands::SetHook {
        session_name: s("demo"),
        hook_name: s("client-session-changed"),
        hook_command: s("selectw -t 1;selectl tiled"),
    };
    assert_eq!(
        hook.run(false),
        Ok(tmux(
            &["set-hook", "-t", "demo", "client-session-changed", "selectw -t 1;selectl tiled"],
            "Cannot set client-session-changed hook for session demo"
        ))
    );
}

#[test]
fn steps_of_project_event_split_each_command() {
    let event = Commands::ProjectEvent {
        event_name: s("start"),
        on_event: Some(words(&[
            "echo hello world",
            "",
            "   # only a comment",
            "echo \"unterminated",
            "ls -l 'my dir' a\\ b",
        ])),
    };
    assert_eq!(
        event.run(false),
        Ok(vec![
            Step::Attempt(Cmd::new(
                words(&["echo", "hello", "world"]),
                false,
                Some(s("echo hello world"))
            )),
            Step::Report(s("Error executing command echo \"unterminated")),
            Step::Attempt(Cmd::new(
                words(&["ls", "-l", "my dir", "a b"]),
                false,
                Some(s("ls -l 'my dir' a\\ b"))
            )),
        ])
    );
    let none = Commands::ProjectEvent { event_name: s("start"), on_event: None };
    assert_eq!(none.run(false), Ok(vec![]));
    let empty = Commands::ProjectEvent { event_name: s("start"), on_event: Some(vec![]) };
    assert_eq!(empty.run(false), Ok(vec![]));
}

#[test]
fn hook_step_for_each_split() {
    assert_eq!(
        hook_step_of("make all", Some(words(&["make", "all"]))),
        Some(Step::Attempt(Cmd::new(words(&["make", "all"]), false, Some(s("make all")))))
    );
    assert_eq!(hook_step_of("", Some(vec![])), None);
    assert_eq!(
        hook_step_of("'", None),
        Some(Step::Report(s("Error executing command '")))
    );
    assert_eq!(HOOK_FAILURE, "Error executing command ");
}

#[test]
fn conclude_judges_each_outcome() {
    let cmd = || Cmd::new(words(&["tmux", "x"]), false, None);
    let not_started = Outcome::NotStarted(s("No such file or directory"));
    let command_error = Err(TmuxError::CommandError(s("No such file or directory")));

    let require = Step::Require(cmd(), s("Cannot x"));
    assert_eq!(require.conclude(&Outcome::Succeeded), Ok(()));
    assert_eq!(require.conclude(&Outcome::Failed), Err(TmuxError::Message(s("Cannot x"))));
    assert_eq!(require.conclude(&not_started), command_error);

    let attempt = Step::Attempt(cmd());
    assert_eq!(attempt.conclude(&Outcome::Succeeded), Ok(()));
    assert_eq!(attempt.conclude(&Outcome::Failed), Ok(()));
    assert_eq!(attempt.conclude(&not_started), Ok(()));

    let change = Step::ChangeDir(s("/tmp"));
    assert_eq!(change.conclude(&Outcome::Succeeded), Ok(()));
    assert_eq!(change.conclude(&not_started), command_error);

    let report = Step::Report(s("line"));
    assert_eq!(report.conclude(&Outcome::Succeeded), Ok(()));
    assert_eq!(report.conclude(&not_started), Ok(()));
}

#[test]
fn report_tells_of_what_is_passed_over() {
    let not_started = Outcome::NotStarted(s("No such file or directory"));
    let hook = Step::Attempt(Cmd::new(words(&["mak", "all"]), false, Some(s("mak  all"))));
    assert_eq!(hook.report(&not_started), Some(s("Error executing command mak  all")));
    assert_eq!(hook.report(&Outcome::Failed), None);
    assert_eq!(hook.report(&Outcome::Succeeded), None);
    let bare = Step::Attempt(Cmd::new(words(&["mak", "all"]), false, None));
    assert_eq!(bare.report(&not_started), Some(s("Error executing command mak all")));
    let require = Step::Require(Cmd::new(words(&["tmux"]), false, None), s("Cannot x"));
    assert_eq!(require.report(&not_started), None);
    assert_eq!(Step::Report(s("line")).report(&Outcome::Succeeded), Some(s("line")));
    assert_eq!(Cmd::new(words(&["a", "b c"]), true, None).shown(), "a b c");
}

#[test]
fn error_messages() {
    assert_eq!(TmuxError::CommandError(s("x")).message(), "Error running command");
    assert_eq!(TmuxError::Message(s("Cannot start session")).message(), "Cannot start session");
    assert_eq!(TmuxError::Expand(s("HOME")).message(), "Can not expand path");
}
