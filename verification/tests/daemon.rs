use voxtype::cli::{
    alive_news, help_lines, parse_command, pid_news, running_news, version_line, CliCommand,
    Launch, LaunchNews, LaunchStep,
};
use voxtype::command::{CommandOutcome, CommandOutput};
use voxtype::config::{Config, KeyError, Provider};
use voxtype::daemon::{
    daemon_pid, daemon_running, notify, notify_fallback, process_alive, recorder_news, Daemon,
    DaemonError, DaemonProbe, Duty, News, Outcome, Signal, Toggle, ToggleGuard,
};
use voxtype::fallback::{FallbackError, Transcription};
use voxtype::inject::{InjectError, Injection};
use voxtype::paste::WtypePaste;
use voxtype::providers::TranscribeError;
use voxtype::recording::{
    audio_report, config_report, ffmpeg_command, injection_report, read_pid, transcription_report,
    NameProbe, RecordError, Report, StartRecording, Step, StopError, StopRecording, AUDIO_FILE,
    LOCKFILE, PIDFILE, RECORDER,
};

fn some(s: &str) -> Option<String> {
    Some(s.to_string())
}

fn ran(success: bool, stdout: &str) -> CommandOutcome {
    CommandOutcome::Completed(CommandOutput {
        success,
        status: "exit status".to_string(),
        stdout: stdout.as_bytes().to_vec(),
        stderr: Vec::new(),
    })
}

fn failed(why: &str) -> CommandOutcome {
    CommandOutcome::Failed(why.to_string())
}

#[test]
fn process_numbers_in_files() {
    assert_eq!(PIDFILE, "/tmp/voxtype.pid");
    assert_eq!(LOCKFILE, "/tmp/voxtype.lock");
    assert_eq!(read_pid(&some(" 4711\n")), Some(4711));
    assert_eq!(read_pid(&some("+7")), Some(7));
    assert_eq!(read_pid(&some("4294967295")), Some(u32::MAX));
    assert_eq!(read_pid(&some("4294967296")), None);
    assert_eq!(read_pid(&some("-1")), None);
    assert_eq!(read_pid(&some("")), None);
    assert_eq!(read_pid(&None), None);
    assert_eq!(daemon_pid(&some("12")), Some(12));
}

#[test]
fn names_of_processes() {
    let p = NameProbe::is_process_named(42);
    assert_eq!(p.comm_file(), some("/proc/42/comm"));
    assert!(p.command().is_none());
    assert_eq!(
        p.read_comm(&some("ffmpeg\n"), "ffmpeg"),
        NameProbe::Decided(true)
    );
    assert_eq!(
        p.read_comm(&some("ffmpeg2"), "ffmpeg"),
        NameProbe::Decided(false)
    );
    let q = p.read_comm(&None, "ffmpeg");
    assert_eq!(q.comm_file(), None);
    assert_eq!(
        q.command().unwrap().argv,
        vec!["ps", "-p", "42", "-o", "comm="]
    );
    assert_eq!(
        q.next(&ran(false, " ffmpeg \n"), "ffmpeg"),
        NameProbe::Decided(true)
    );
    assert_eq!(
        q.next(&failed("no ps"), "ffmpeg"),
        NameProbe::Decided(false)
    );
    assert_eq!(NameProbe::is_ffmpeg_running(&None), NameProbe::Decided(false));
    assert_eq!(
        NameProbe::is_ffmpeg_running(&some("7\n")),
        NameProbe::ReadComm { pid: 7 }
    );
}

#[test]
fn recorders_are_known_by_their_name() {
    assert_eq!(RECORDER, "ffmpeg");
    let p = NameProbe::is_ffmpeg_running(&some("7\n"));
    assert_eq!(
        p.read_recorder_comm(&some("ffmpeg\n")),
        NameProbe::Decided(true)
    );
    assert_eq!(
        p.read_recorder_comm(&some("bash\n")),
        NameProbe::Decided(false)
    );
    let q = p.read_recorder_comm(&None);
    assert_eq!(q, NameProbe::AskPs { pid: 7 });
    assert_eq!(
        q.next_recorder(&ran(true, "ffmpeg\n")),
        NameProbe::Decided(true)
    );
    assert_eq!(
        q.next_recorder(&ran(true, "bash\n")),
        NameProbe::Decided(false)
    );
    assert_eq!(
        q.next_recorder(&failed("no ps")),
        NameProbe::Decided(false)
    );
}

#[test]
fn is_a_daemon_running() {
    assert_eq!(daemon_running(&None), DaemonProbe::Decided(false));
    assert_eq!(daemon_running(&some("x")), DaemonProbe::Decided(false));
    let p = daemon_running(&some("99\n"));
    assert_eq!(p.command().unwrap().argv, vec!["kill", "-0", "99"]);
    assert_eq!(p.next(&ran(true, "")), DaemonProbe::Decided(true));
    assert_eq!(p.next(&ran(false, "")), DaemonProbe::Decided(false));
    assert_eq!(process_alive(5).argv, vec!["kill", "-0", "5"]);
}

#[test]
fn notifications() {
    let c = notify("voxtype", "Recording...");
    assert_eq!(
        c.argv,
        vec!["notify-send", "-a", "voxtype", "voxtype", "Recording..."]
    );
    assert_eq!(c.limit_ms, Some(2000));
    assert!(!c.capture);
    assert_eq!(notify_fallback(&ran(true, ""), "a", "b"), None);
    assert_eq!(
        notify_fallback(&CommandOutcome::TimedOut, "a", "b"),
        some("[voxtype] a: b")
    );
}

#[test]
fn one_toggle_at_a_time() {
    let mut g = ToggleGuard::new();
    assert!(g.try_acquire());
    assert!(!g.try_acquire());
    assert!(!g.try_acquire());
    g.release();
    assert!(g.try_acquire());
}

/// Runs the start of a recording; the commands answer by their first word.
fn start(
    lock: Option<String>,
    source: Result<Option<String>, String>,
    shell: &dyn Fn(&str) -> CommandOutcome,
) -> (Vec<String>, Result<(), RecordError>) {
    let mut s = StartRecording::start_recording();
    let mut log = Vec::new();
    loop {
        let report = match s.action() {
            Step::ReadLock => Report::Lock(lock.clone()),
            Step::RemoveAudio => {
                log.push("remove audio".to_string());
                Report::Finished
            }
            Step::Run(c) => {
                log.push(c.argv.join(" "));
                Report::Ran(shell(&c.argv.join(" ")))
            }
            Step::LoadConfig => Report::Config(source.clone()),
            Step::Spawn(c) => {
                log.push(c.argv.join(" "));
                match shell(&c.argv[0]) {
                    CommandOutcome::Failed(_) => Report::Failed,
                    _ => Report::Spawned(31),
                }
            }
            Step::WriteLock(pid) => {
                log.push(format!("lock {}", pid));
                Report::Finished
            }
            Step::Done => break,
            other => panic!("unexpected {:?}", other),
        };
        s = s.next(report);
    }
    match s {
        StartRecording::Done(r) => (log, r),
        other => panic!("stopped in {:?}", other),
    }
}

#[test]
fn a_recording_starts() {
    let (log, r) = start(some("17\n"), Ok(some("mic")), &|_| ran(true, "PulseAudio"));
    assert!(r.is_ok());
    assert_eq!(
        log,
        vec![
            "kill 17",
            "remove audio",
            "which ffmpeg",
            "pactl info",
            "pactl info",
            "ffmpeg -y -f pulse -i mic -ac 1 -ar 16000 -b:a 64k -loglevel error /tmp/voxtype.mp3",
            "lock 31",
        ]
    );
    // Without a lock nothing is killed; a broken configuration does not matter.
    let (log, r) = start(None, Err("broken".to_string()), &|_| ran(true, ""));
    assert!(r.is_ok());
    assert_eq!(log[0], "remove audio");
    assert!(log[4].contains("-i default "));
    assert_eq!(ffmpeg_command(&None).argv[14], AUDIO_FILE);
}

#[test]
fn a_recording_that_does_not_start() {
    let message = |shell: &dyn Fn(&str) -> CommandOutcome| {
        start(None, Ok(None), shell).1.unwrap_err().message()
    };
    assert_eq!(
        message(&|_| ran(false, "")),
        "ffmpeg not found. Install: sudo apt install ffmpeg"
    );
    assert_eq!(
        message(&|c| if c == "which ffmpeg" {
            ran(true, "")
        } else {
            failed("none")
        }),
        "No audio system detected. Install one of:\n- sudo apt install pulseaudio pulseaudio-utils\n- sudo apt install pipewire pipewire-pulse wireplumber"
    );
    assert_eq!(
        message(&|c| if c == "pactl info" {
            failed("enoent")
        } else {
            ran(true, "")
        }),
        "pactl info failed (enoent). Is PulseAudio/PipeWire running?\nTry: pulseaudio --start  or  systemctl --user start pipewire"
    );
    assert_eq!(
        message(&|c| if c == "ffmpeg" {
            failed("enoent")
        } else {
            ran(true, "")
        }),
        "Failed to start ffmpeg recording (check microphone)"
    );
    let s = StartRecording::WriteLock { pid: 3 }.next(Report::Failed);
    match s {
        StartRecording::Done(Err(e)) => assert_eq!(e.message(), "Failed to write lockfile"),
        other => panic!("unexpected {:?}", other),
    }
}

/// Runs the end of a recording.
fn stop(
    size: Option<u64>,
    config: Result<Option<String>, String>,
    transcribed: Result<String, String>,
    injected: Result<(), String>,
) -> (Vec<String>, Result<String, StopError>) {
    let mut s = StopRecording::stop_and_transcribe();
    let mut log = Vec::new();
    let mut looks = 0;
    loop {
        let report = match s.action() {
            Step::ReadLock => Report::Lock(some("8")),
            Step::Run(c) => {
                log.push(c.argv.join(" "));
                Report::Ran(ran(true, ""))
            }
            Step::LookAtAudio => {
                looks += 1;
                Report::Audio {
                    recording: looks < 3,
                    exists: true,
                    elapsed_ms: 50 * looks,
                }
            }
            Step::Sleep(ms) => {
                assert_eq!(ms, 50);
                Report::Slept
            }
            Step::RemoveLock => {
                log.push("unlock".to_string());
                Report::Finished
            }
            Step::RemoveAudio => {
                log.push("remove audio".to_string());
                Report::Finished
            }
            Step::MeasureAudio => Report::Size(size),
            Step::LoadConfig => Report::Config(config.clone()),
            Step::Transcribe => {
                log.push("transcribe".to_string());
                Report::Transcribed(transcribed.clone())
            }
            Step::Inject(text) => {
                log.push(format!("inject {}", text));
                Report::Injected(injected.clone())
            }
            Step::Done => break,
            other => panic!("unexpected {:?}", other),
        };
        s = s.next(report);
    }
    assert_eq!(looks, 3);
    match s {
        StopRecording::Done(r) => (log, r),
        other => panic!("stopped in {:?}", other),
    }
}

#[test]
fn a_recording_ends_in_pasted_text() {
    let (log, r) = stop(Some(1024), Ok(None), Ok("hello".to_string()), Ok(()));
    assert_eq!(r.unwrap(), "hello");
    assert_eq!(
        log,
        vec!["kill 8", "unlock", "transcribe", "inject hello", "remove audio"]
    );
}

#[test]
fn audio_that_is_of_no_use_is_removed() {
    let ok = || Ok("x".to_string());
    let (log, r) = stop(Some(1023), Ok(None), ok(), Ok(()));
    assert_eq!(log.last().unwrap(), "remove audio");
    assert_eq!(
        r.unwrap_err().message(),
        "Audio file too small (1023 bytes). Check microphone:\n- Is your mic plugged in and selected as default?\n- Test: ffmpeg -f pulse -i default -ac 1 -ar 16000 -t 3 /tmp/test.mp3"
    );
    let (log, r) = stop(Some(27_999_999), Ok(None), ok(), Ok(()));
    assert_eq!(log.last().unwrap(), "remove audio");
    assert_eq!(
        r.unwrap_err().message(),
        "Audio file too large (27 MB). Maximum is ~20 MB.\nSpeak for a shorter duration or reduce bitrate."
    );
    let (log, r) = stop(Some(20_000_000), Ok(None), Ok(" \t".to_string()), Ok(()));
    assert_eq!(log, vec!["kill 8", "unlock", "transcribe", "remove audio"]);
    assert_eq!(
        r.unwrap_err().message(),
        "Transcription returned empty (no speech detected)"
    );
}

#[test]
fn audio_that_may_be_needed_is_kept() {
    let ok = || Ok("x".to_string());
    let why = || "why".to_string();
    let (log, r) = stop(None, Ok(None), ok(), Ok(()));
    assert_eq!(log, vec!["kill 8", "unlock"]);
    assert_eq!(
        r.unwrap_err().message(),
        "No audio recorded. Recording may have been too brief."
    );
    let (log, r) = stop(Some(30_000_000), Err(why()), ok(), Ok(()));
    assert_eq!(log, vec!["kill 8", "unlock"]);
    assert!(matches!(r, Err(StopError::Config(w)) if w == "why"));
    let (log, r) = stop(Some(5000), Ok(None), Err(why()), Ok(()));
    assert_eq!(log, vec!["kill 8", "unlock", "transcribe"]);
    assert!(matches!(r, Err(StopError::Transcription(w)) if w == "why"));
    let (log, r) = stop(Some(5000), Ok(None), ok(), Err(why()));
    assert_eq!(log.last().unwrap(), "inject x");
    let e = r.unwrap_err();
    assert_eq!(e.message(), "why");
    assert!(matches!(e, StopError::Injection(_)));
}

#[test]
fn the_wait_for_audio_has_an_end() {
    let s = StopRecording::Looking.next(Report::Audio {
        recording: true,
        exists: false,
        elapsed_ms: 399,
    });
    assert!(matches!(s, StopRecording::Resting));
    let s = s.next(Report::Slept).next(Report::Audio {
        recording: true,
        exists: false,
        elapsed_ms: 400,
    });
    assert!(matches!(s, StopRecording::RemoveLock));
}

#[test]
fn a_toggle_tells_what_it_does() {
    let t = Toggle::toggle(true);
    assert!(matches!(t.action(), Step::Notify(m) if m == "Transcribing..."));
    let t = t.next(Report::Finished);
    assert!(matches!(t.action(), Step::ReadLock));
    let t = Toggle::Stopping(StopRecording::RemoveAudio {
        outcome: Ok("äöü".to_string()),
    })
    .next(Report::Finished);
    assert!(matches!(t.action(), Step::Notify(m) if m == "Pasted 3 chars ✓"));
    assert!(matches!(t.next(Report::Finished).action(), Step::Done));

    let t = Toggle::toggle(false);
    assert!(matches!(t.action(), Step::ReadLock));
    let t = Toggle::Starting(StartRecording::WriteLock { pid: 1 }).next(Report::Finished);
    assert!(matches!(t.action(), Step::Notify(m) if m == "Recording..."));
    assert_eq!(
        Outcome::NotRecording(RecordError::NoFfmpeg).message(),
        "Recording failed: ffmpeg not found. Install: sudo apt install ffmpeg"
    );
    assert_eq!(
        Outcome::NotPasted(StopError::NoSpeech).message(),
        "Transcription returned empty (no speech detected)"
    );
}

/// The duties of a daemon, until it waits for a signal or ends.
fn daemon_start(pid_file: Option<String>, alive: bool, lock: Option<String>, recorder: bool) -> (Vec<String>, Daemon) {
    let mut d = Daemon::run_daemon(100);
    let mut log = Vec::new();
    loop {
        let news = match d.action() {
            Duty::ReadPid => News::Content(pid_file.clone()),
            Duty::ReadLock => News::Content(lock.clone()),
            Duty::Run(c) => {
                log.push(c.argv.join(" "));
                News::Ran(ran(alive, ""))
            }
            Duty::AskRecorder(_) => News::Recorder(recorder),
            Duty::AwaitSignal | Duty::Done => break,
            other => {
                log.push(format!("{:?}", other));
                News::Finished
            }
        };
        d = d.next(&news);
    }
    (log, d)
}

#[test]
fn handlers_are_installed_before_the_pid_file() {
    let (log, d) = daemon_start(None, false, None, false);
    assert_eq!(
        log,
        vec![
            "Register(Usr1)",
            "Register(Term)",
            "Register(Int)",
            "RemoveLock",
            "RemoveAudio",
            "WritePid",
            "CheckEnvironment",
        ]
    );
    assert!(matches!(d, Daemon::Serving));
}

#[test]
fn there_is_one_daemon() {
    let (log, d) = daemon_start(some("7"), true, None, false);
    assert_eq!(log, vec!["kill -0 7"]);
    assert!(matches!(d, Daemon::Done(Ok(()))));
    // A dead one, or itself, is no obstacle.
    let (_, d) = daemon_start(some("7"), false, None, false);
    assert!(matches!(d, Daemon::Serving));
    let (log, _) = daemon_start(some("100"), true, None, false);
    assert_eq!(log[0], "Register(Usr1)");
}

#[test]
fn stale_recorders_are_killed_and_others_spared() {
    let (log, _) = daemon_start(None, false, some("55"), true);
    assert!(log.contains(&"kill 55".to_string()));
    let (log, _) = daemon_start(None, false, some("55"), false);
    assert!(!log.contains(&"kill 55".to_string()));
    assert!(log.contains(&"RemoveLock".to_string()));
}

#[test]
fn signals_of_the_daemon() {
    let d = Daemon::Serving.next(&News::Arrived(Signal::Usr1));
    assert!(matches!(d.action(), Duty::Toggle));
    assert!(matches!(d.next(&News::Finished), Daemon::Serving));
    for signal in [Signal::Term, Signal::Int] {
        let mut d = Daemon::Serving.next(&News::Arrived(signal));
        let mut log = Vec::new();
        loop {
            let news = match d.action() {
                Duty::ReadLock => News::Content(some("4")),
                Duty::Run(c) => {
                    log.push(c.argv.join(" "));
                    News::Ran(ran(true, ""))
                }
                Duty::Done => break,
                other => {
                    log.push(format!("{:?}", other));
                    News::Finished
                }
            };
            d = d.next(&news);
        }
        assert_eq!(log, vec!["kill 4", "RemoveLock", "RemovePid", "RemoveAudio"]);
        assert!(matches!(d, Daemon::Done(Ok(()))));
    }
}

#[test]
fn a_daemon_that_cannot_start() {
    for (signal, message) in [
        (Signal::Usr1, "Failed to setup SIGUSR1 handler"),
        (Signal::Term, "Failed to setup SIGTERM handler"),
        (Signal::Int, "Failed to setup SIGINT handler"),
    ] {
        match Daemon::Register(signal).next(&News::Failed) {
            Daemon::Done(Err(e)) => {
                assert_eq!(e, DaemonError::NoHandler(signal));
                assert_eq!(e.message(), message);
            }
            other => panic!("unexpected {:?}", other),
        }
    }
    match Daemon::WritePid.next(&News::Failed) {
        Daemon::Done(Err(e)) => assert_eq!(e.message(), "Failed to write PID file"),
        other => panic!("unexpected {:?}", other),
    }
}

#[test]
fn commands_of_the_command_line() {
    for (arg, command) in [
        ("--help", CliCommand::Help),
        ("-h", CliCommand::Help),
        ("--version", CliCommand::Version),
        ("-V", CliCommand::Version),
        ("--stats", CliCommand::Stats),
        ("stats", CliCommand::Stats),
        ("--configure", CliCommand::Configure),
        ("configure", CliCommand::Configure),
        ("__daemon", CliCommand::RunDaemon),
        ("--daemon", CliCommand::StartDaemon),
        ("-d", CliCommand::StartDaemon),
        ("--restart", CliCommand::Restart),
        ("restart", CliCommand::Restart),
        ("toggle", CliCommand::Toggle),
        ("", CliCommand::Toggle),
    ] {
        assert_eq!(parse_command(Some(arg)), command);
    }
    assert_eq!(parse_command(None), CliCommand::Toggle);
    assert_eq!(version_line("1.2.3"), "voxtype 1.2.3");
    let help = help_lines("1.2.3");
    assert_eq!(help.len(), 8);
    assert!(help[0].starts_with("voxtype 1.2.3 — voice-to-text dictation for Linux"));
    assert_eq!(help[1], "USAGE:");
    assert_eq!(help[7], "  voxtype --version  Print version");
}

/// Runs a command to the daemon; the daemon runs after so many looks.
fn launch(command: CliCommand, running_after: u64, pid: Option<u32>) -> (Vec<LaunchStep>, Launch) {
    let mut l = Launch::launch(command);
    let mut log = Vec::new();
    let mut looks = 0;
    loop {
        let step = l.action();
        let news = match step {
            LaunchStep::AskRunning => {
                looks += 1;
                LaunchNews::Running(looks > running_after)
            }
            LaunchStep::ReadPid => LaunchNews::Pid(pid),
            LaunchStep::AskAlive(_) => LaunchNews::Alive(true),
            LaunchStep::Spawn => LaunchNews::Spawned,
            LaunchStep::Sleep(_) => LaunchNews::Slept,
            LaunchStep::Send(_, _) => LaunchNews::Sent(Ok(true)),
            LaunchStep::Done => break,
        };
        log.push(step);
        l = l.next(news);
    }
    (log, l)
}

#[test]
fn a_toggle_from_the_command_line() {
    let (log, l) = launch(CliCommand::Toggle, 0, Some(9));
    assert_eq!(
        log,
        vec![
            LaunchStep::AskRunning,
            LaunchStep::ReadPid,
            LaunchStep::Send(Signal::Usr1, 9)
        ]
    );
    assert!(matches!(l, Launch::Done(Ok(()))));
    let (log, _) = launch(CliCommand::Toggle, 2, Some(9));
    assert_eq!(
        log,
        vec![
            LaunchStep::AskRunning,
            LaunchStep::Spawn,
            LaunchStep::AskRunning,
            LaunchStep::Sleep(100),
            LaunchStep::AskRunning,
            LaunchStep::Sleep(300),
            LaunchStep::ReadPid,
            LaunchStep::Send(Signal::Usr1, 9)
        ]
    );
    let (_, l) = launch(CliCommand::Toggle, 0, None);
    match l {
        Launch::Done(Err(e)) => assert_eq!(e.message(), "Daemon not running"),
        other => panic!("unexpected {:?}", other),
    }
}

#[test]
fn a_daemon_that_does_not_come_up() {
    let (log, l) = launch(CliCommand::StartDaemon, u64::MAX, None);
    assert_eq!(
        log.iter().filter(|s| **s == LaunchStep::Sleep(100)).count(),
        20
    );
    match l {
        Launch::Done(Err(e)) => assert_eq!(e.message(), "Daemon failed to start within 2 seconds"),
        other => panic!("unexpected {:?}", other),
    }
    match (Launch::Spawn { toggle: false }).next(LaunchNews::SpawnFailed("eagain".to_string())) {
        Launch::Done(Err(e)) => assert_eq!(e.message(), "Failed to spawn daemon: eagain"),
        other => panic!("unexpected {:?}", other),
    }
}

#[test]
fn a_restart_from_the_command_line() {
    let (log, l) = launch(CliCommand::Restart, 0, Some(3));
    assert_eq!(log[0], LaunchStep::ReadPid);
    assert_eq!(log[1], LaunchStep::Send(Signal::Term, 3));
    assert_eq!(
        log.iter().filter(|s| **s == LaunchStep::Sleep(50)).count(),
        50
    );
    assert_eq!(log[log.len() - 2], LaunchStep::Spawn);
    assert!(matches!(l, Launch::Done(Ok(()))));
    let (log, _) = launch(CliCommand::Restart, 0, None);
    assert_eq!(
        log,
        vec![LaunchStep::ReadPid, LaunchStep::Spawn, LaunchStep::AskRunning]
    );
}

#[test]
fn signals_that_are_not_taken() {
    match (Launch::Send { pid: 12 }).next(LaunchNews::Sent(Ok(false))) {
        Launch::Done(Err(e)) => assert_eq!(
            e.message(),
            "Failed to send USR1 to daemon (pid 12). Is voxtype still running?"
        ),
        other => panic!("unexpected {:?}", other),
    }
    match (Launch::EndOld { pid: 12 }).next(LaunchNews::Sent(Err("enoent".to_string()))) {
        Launch::Done(Err(e)) => {
            assert_eq!(e.message(), "Failed to send TERM to daemon: enoent")
        }
        other => panic!("unexpected {:?}", other),
    }
}

#[test]
fn a_search_for_a_recorder_reaches_the_daemon() {
    let open = NameProbe::is_process_named(7);
    assert!(recorder_news(&open).is_none());
    let found = open.read_recorder_comm(&some("ffmpeg\n"));
    let news = recorder_news(&found).unwrap();
    assert!(matches!(
        Daemon::AskRecorder { pid: 7 }.next(&news),
        Daemon::KillStale { pid: 7 }
    ));
    let other = open.read_recorder_comm(&some("bash\n"));
    let news = recorder_news(&other).unwrap();
    assert!(matches!(
        Daemon::AskRecorder { pid: 7 }.next(&news),
        Daemon::RemoveStaleLock
    ));
}

#[test]
fn a_search_for_a_recorder_ends_the_wait() {
    let lock = some("7");
    let open = NameProbe::is_ffmpeg_running(&lock);
    assert!(audio_report(&open, true, 0).is_none());
    let gone = open.read_recorder_comm(&None).next_recorder(&failed("no ps"));
    let report = audio_report(&gone, true, 0).unwrap();
    assert!(matches!(
        StopRecording::Looking.next(report),
        StopRecording::RemoveLock
    ));
    let there = open.read_recorder_comm(&some("ffmpeg"));
    let report = audio_report(&there, true, 399).unwrap();
    assert!(matches!(
        StopRecording::Looking.next(report),
        StopRecording::Resting
    ));
    let report = audio_report(&there, false, 400).unwrap();
    assert!(matches!(
        StopRecording::Looking.next(report),
        StopRecording::RemoveLock
    ));
}

#[test]
fn the_configured_source_reaches_the_recorder() {
    let config = Config::load(Some("audio_source = 'mic'\n")).unwrap();
    match StartRecording::LoadConfig.next(config_report(&config)) {
        StartRecording::Spawn { source } => assert_eq!(source.as_deref(), Some("mic")),
        other => panic!("not a start: {:?}", other),
    }
}

#[test]
fn a_transcription_reaches_the_window() {
    let open = Transcription::Calling {
        queue: vec![Provider::Groq],
        forced: true,
    };
    assert!(transcription_report(open, None).is_none());
    let text = Transcription::Done(Ok("hello".to_string()));
    let report = transcription_report(text, None).unwrap();
    match StopRecording::Transcribing.next(report).action() {
        Step::Inject(text) => assert_eq!(text, "hello"),
        other => panic!("not an injection: {:?}", other),
    }
    let blank = Transcription::Done(Ok("  ".to_string()));
    let report = transcription_report(blank, None).unwrap();
    assert!(matches!(
        StopRecording::Transcribing.next(report),
        StopRecording::RemoveAudio {
            outcome: Err(StopError::NoSpeech)
        }
    ));
    let nobody = Transcription::Done(Err(FallbackError::AllFailed));
    let report = transcription_report(nobody, None).unwrap();
    match StopRecording::Transcribing.next(report) {
        StopRecording::Done(Err(e)) => assert_eq!(
            e.message(),
            "All configured providers failed or returned empty results"
        ),
        other => panic!("not the end: {:?}", other),
    }
    // The place of the configuration file stands in the words of the error.
    let no_key = || {
        FallbackError::Forced(TranscribeError::Key(KeyError {
            provider: Provider::Groq,
        }))
    };
    let expected = no_key().message(Some("/c/config.toml"));
    assert!(expected.contains("/c/config.toml"));
    match transcription_report(Transcription::Done(Err(no_key())), Some("/c/config.toml")) {
        Some(Report::Transcribed(Err(told))) => assert_eq!(told, expected),
        other => panic!("no report: {:?}", other),
    }
}

#[test]
fn an_injection_ends_the_recording() {
    let state = || StopRecording::Injecting {
        text: "hello".to_string(),
    };
    let open: Injection<String, WtypePaste> = Injection::Focus;
    assert!(injection_report(&open).is_none());
    let done: Injection<String, WtypePaste> = Injection::Done(Ok(()));
    match state().next(injection_report(&done).unwrap()) {
        StopRecording::RemoveAudio { outcome: Ok(text) } => assert_eq!(text, "hello"),
        other => panic!("not the end: {:?}", other),
    }
    let not: Injection<String, WtypePaste> = Injection::Done(Err(InjectError::NoWlCopy));
    match state().next(injection_report(&not).unwrap()) {
        StopRecording::Done(Err(e)) => assert_eq!(
            e.message(),
            "wl-copy not found. Install: sudo apt install wl-clipboard"
        ),
        other => panic!("not the end: {:?}", other),
    }
}

#[test]
fn a_search_for_the_daemon_reaches_the_command() {
    let open = daemon_running(&some("12"));
    assert!(running_news(&open).is_none());
    let ask = || Launch::launch(CliCommand::Toggle);
    let dead = open.next(&ran(false, ""));
    assert!(matches!(
        ask().next(running_news(&dead).unwrap()),
        Launch::Spawn { toggle: true }
    ));
    let none = daemon_running(&None);
    assert!(matches!(
        ask().next(running_news(&none).unwrap()),
        Launch::Spawn { toggle: true }
    ));
    let alive = open.next(&ran(true, ""));
    assert!(matches!(
        ask().next(running_news(&alive).unwrap()),
        Launch::ReadPid
    ));
    assert!(matches!(
        Launch::ReadPid.next(pid_news(&some("12\n"))),
        Launch::Send { pid: 12 }
    ));
    assert!(matches!(pid_news(&some("x")), LaunchNews::Pid(None)));
    assert!(matches!(
        alive_news(&ran(true, "")),
        LaunchNews::Alive(true)
    ));
    assert!(matches!(
        alive_news(&failed("no kill")),
        LaunchNews::Alive(false)
    ));
}
