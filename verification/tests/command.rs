use voxtype::clipboard::{set_clipboard, ClipTool, VerifiedCopy};
use voxtype::command::{
    Action, CommandOutcome, CommandSpec, Input, LimitedRun, RunAction, RunEvent, Stream, Streams,
};
use voxtype::daemon::{notify, process_alive};
use voxtype::environment::{detect_audio_system, require_tool, WaylandCompositor};
use voxtype::focus::focus_query;
use voxtype::paste::{press_with_xdotool, EditorSearch, WtypePaste};
use voxtype::recording::{kill_process, NameProbe};
use voxtype::x11::{EditorProbe, TerminalProbe};

fn sleep_command(limit_ms: Option<u64>, capture: bool) -> CommandSpec {
    CommandSpec {
        argv: vec!["sleep".to_string(), "5".to_string()],
        input: Input::Inherited,
        capture,
        limit_ms,
    }
}

fn outcome(run: LimitedRun) -> CommandOutcome {
    match run.outcome() {
        Ok(o) => o,
        Err(state) => panic!("the run is not over: {:?}", state),
    }
}

#[test]
fn a_hung_program_is_killed() {
    let mut run = LimitedRun::start(&sleep_command(Some(150), true)).next(RunEvent::Spawned);
    let mut clock = 0;
    let mut looks = 0;
    while run.action() != RunAction::Kill {
        assert_eq!(run.action(), RunAction::Poll);
        looks += 1;
        run = run.next(RunEvent::Running { elapsed_ms: clock });
        if run.action() == RunAction::Sleep(20) {
            clock += 20;
            run = run.next(RunEvent::Slept);
        }
    }
    assert_eq!(looks, 9);
    assert!(matches!(
        outcome(run.next(RunEvent::Killed)),
        CommandOutcome::TimedOut
    ));
}

#[test]
fn a_program_without_limit_is_waited_for() {
    let run = LimitedRun::start(&sleep_command(None, false)).next(RunEvent::Spawned);
    let run = run.next(RunEvent::Running {
        elapsed_ms: u64::MAX,
    });
    assert_eq!(run.action(), RunAction::Sleep(20));
}

#[test]
fn streams_of_programs() {
    let quiet = LimitedRun::start(&sleep_command(Some(1), false));
    assert_eq!(
        quiet.action(),
        RunAction::Spawn(Streams {
            stdin: Stream::Inherited,
            stdout: Stream::Null,
            stderr: Stream::Null,
        })
    );
    let copy = LimitedRun::start(&set_clipboard(ClipTool::WlCopy, "payload"));
    assert_eq!(
        copy.action(),
        RunAction::Spawn(Streams {
            stdin: Stream::Piped,
            stdout: Stream::Null,
            stderr: Stream::Null,
        })
    );
    let captured = LimitedRun::start(&sleep_command(Some(1), true));
    assert_eq!(
        captured.action(),
        RunAction::Spawn(Streams {
            stdin: Stream::Inherited,
            stdout: Stream::Piped,
            stderr: Stream::Piped,
        })
    );
}

fn stdin_of(command: &CommandSpec) -> Stream {
    match LimitedRun::start(command).action() {
        RunAction::Spawn(streams) => streams.stdin,
        other => panic!("not a start: {:?}", other),
    }
}

#[test]
fn lookups_read_nothing_and_tools_read_what_the_caller_reads() {
    let lookups = vec![
        require_tool("xsel", None),
        require_tool("xdotool", Some(800)),
        detect_audio_system().command().unwrap(),
        process_alive(7),
        kill_process(7),
        NameProbe::AskPs { pid: 7 }.command().unwrap(),
        TerminalProbe::is_terminal_window().command().unwrap(),
        EditorProbe::AskClass {
            window: "1".to_string(),
        }
        .command()
        .unwrap(),
        EditorSearch::is_vscode_running().command().unwrap(),
    ];
    for command in &lookups {
        assert_eq!(stdin_of(command), Stream::Null, "{:?}", command.argv);
    }
    let mut tools = vec![
        notify("voxtype", "Recording..."),
        press_with_xdotool(false),
        focus_query(WaylandCompositor::Sway).unwrap(),
        focus_query(WaylandCompositor::Hyprland).unwrap(),
    ];
    let check = VerifiedCopy::Checking { again: false };
    let paste = WtypePaste::paste_with_wtype(None, WaylandCompositor::Sway);
    for action in [check.action("x"), paste.action()] {
        match action {
            Action::Run(command) => tools.push(command),
            other => panic!("not a command: {:?}", other),
        }
    }
    for command in &tools {
        assert_eq!(stdin_of(command), Stream::Inherited, "{:?}", command.argv);
    }
}

#[test]
fn output_is_collected_where_it_is_wanted() {
    let run = LimitedRun::start(&sleep_command(Some(2000), true))
        .next(RunEvent::Spawned)
        .next(RunEvent::Exited {
            success: true,
            status: "exit status: 0".to_string(),
        });
    assert_eq!(run.action(), RunAction::Collect);
    match outcome(run.next(RunEvent::Collected {
        stdout: b"hello world".to_vec(),
        stderr: Vec::new(),
    })) {
        CommandOutcome::Completed(o) => {
            assert!(o.success);
            assert_eq!(o.stdout, b"hello world".to_vec());
        }
        other => panic!("expected Completed, got {:?}", other),
    }

    let run = LimitedRun::start(&sleep_command(Some(2000), false))
        .next(RunEvent::Spawned)
        .next(RunEvent::Exited {
            success: false,
            status: "exit status: 3".to_string(),
        });
    match outcome(run) {
        CommandOutcome::Completed(o) => {
            assert!(!o.success);
            assert_eq!(o.status, "exit status: 3");
            assert!(o.stdout.is_empty());
        }
        other => panic!("expected Completed, got {:?}", other),
    }
}

#[test]
fn failures_to_run() {
    let run = LimitedRun::start(&sleep_command(Some(1), false))
        .next(RunEvent::SpawnFailed("No such file".to_string()));
    assert!(matches!(outcome(run), CommandOutcome::Failed(why) if why == "No such file"));
    let run = LimitedRun::start(&sleep_command(Some(1), false))
        .next(RunEvent::Spawned)
        .next(RunEvent::PollFailed("gone".to_string()));
    assert!(matches!(outcome(run), CommandOutcome::Failed(why) if why == "gone"));
}

#[test]
fn reports_out_of_turn_change_nothing() {
    let run = LimitedRun::start(&sleep_command(Some(1), false)).next(RunEvent::Killed);
    assert!(matches!(run.action(), RunAction::Spawn(_)));
    assert!(run.outcome().is_err());
}
