//! The command line: which command is meant, and how the daemon is started,
//! restarted and signalled.

use crate::command::CommandOutcome;
use crate::daemon::{daemon_pid, DaemonProbe, Signal};
use crate::recording::pid_in;
use crate::text::{
    a_part_stands_in_the_whole, decimal, decimal_string, has_text, opt_text, same_text, texts,
};
use vstd::prelude::*;

verus! {

// ── Commands ──────────────────────────────────────────────────────

/// What the user asks for.
#[derive(Debug, Clone, Copy, PartialEq, Eq, Structural)]
pub enum CliCommand {
    Help,
    Version,
    Stats,
    Configure,
    /// Be the daemon.
    RunDaemon,
    /// See to it that a daemon runs.
    StartDaemon,
    /// Replace the daemon by a new one.
    Restart,
    /// Toggle the recording.
    Toggle,
}

/// The command that a first argument asks for; to toggle is the default.
pub open spec fn command_named(arg: Option<Seq<char>>) -> CliCommand {
    match arg {
        None => CliCommand::Toggle,
        Some(a) => if a == "--help"@ || a == "-h"@ {
            CliCommand::Help
        } else if a == "--version"@ || a == "-V"@ {
            CliCommand::Version
        } else if a == "--stats"@ || a == "stats"@ {
            CliCommand::Stats
        } else if a == "--configure"@ || a == "configure"@ {
            CliCommand::Configure
        } else if a == "__daemon"@ {
            CliCommand::RunDaemon
        } else if a == "--daemon"@ || a == "-d"@ {
            CliCommand::StartDaemon
        } else if a == "--restart"@ || a == "restart"@ {
            CliCommand::Restart
        } else {
            CliCommand::Toggle
        },
    }
}

/// The command that a first argument asks for.
pub fn parse_command(arg: Option<&str>) -> (r: CliCommand)
    ensures
        r == command_named(
            match arg {
                Some(a) => Some(a@),
                None => None,
            },
        ),
{
    let a = match arg {
        None => return CliCommand::Toggle,
        Some(a) => a,
    };
    if same_text(a, "--help") || same_text(a, "-h") {
        CliCommand::Help
    } else if same_text(a, "--version") || same_text(a, "-V") {
        CliCommand::Version
    } else if same_text(a, "--stats") || same_text(a, "stats") {
        CliCommand::Stats
    } else if same_text(a, "--configure") || same_text(a, "configure") {
        CliCommand::Configure
    } else if same_text(a, "__daemon") {
        CliCommand::RunDaemon
    } else if same_text(a, "--daemon") || same_text(a, "-d") {
        CliCommand::StartDaemon
    } else if same_text(a, "--restart") || same_text(a, "restart") {
        CliCommand::Restart
    } else {
        CliCommand::Toggle
    }
}

/// The version of the program, in words.
pub fn version_line(version: &str) -> (r: String)
    ensures
        r@ == "voxtype "@ + version@,
{
    let mut line = "voxtype ".to_owned();
    line.append(version);
    line
}

/// How the program is used.
pub open spec fn usage(version: Seq<char>) -> Seq<Seq<char>> {
    seq![
        "voxtype "@ + version + " — voice-to-text dictation for Linux\\n"@,
        "USAGE:"@,
        "  voxtype            Toggle recording (Ctrl+Space via daemon)"@,
        "  voxtype --daemon   Start daemon in background"@,
        "  voxtype --restart  Restart daemon (picks up new binary)"@,
        "  voxtype --stats    Show provider usage statistics"@,
        "  voxtype --configure  Interactively set default STT provider"@,
        "  voxtype --version  Print version"@,
    ]
}

/// How the program is used.
pub fn help_lines(version: &str) -> (r: Vec<String>)
    ensures
        texts(r@) == usage(version@),
{
    let mut title = version_line(version);
    title.append(" — voice-to-text dictation for Linux\\n");
    let r = vec![
        title,
        "USAGE:".to_owned(),
        "  voxtype            Toggle recording (Ctrl+Space via daemon)".to_owned(),
        "  voxtype --daemon   Start daemon in background".to_owned(),
        "  voxtype --restart  Restart daemon (picks up new binary)".to_owned(),
        "  voxtype --stats    Show provider usage statistics".to_owned(),
        "  voxtype --configure  Interactively set default STT provider".to_owned(),
        "  voxtype --version  Print version".to_owned(),
    ];
    assert(texts(r@) =~= usage(version@));
    r
}

// ── Starting and signalling the daemon ────────────────────────────

/// How often the CLI looks whether a new daemon runs.
pub const START_LOOKS: u64 = 20;

/// Pause between two such looks.
pub const START_POLL_MS: u64 = 100;

/// Pause between the start of a daemon and the first signal to it.
pub const START_SETTLE_MS: u64 = 300;

/// How often the CLI looks whether an old daemon is gone.
pub const EXIT_LOOKS: u64 = 50;

/// Pause between two such looks.
pub const EXIT_POLL_MS: u64 = 50;

/// Why a command to the daemon failed.
#[derive(Debug)]
pub enum LaunchError {
    SpawnFailed(String),
    NotStarted,
    /// The signal could not be sent.
    SignalFailed { signal: Signal, why: String },
    /// There is no such process to send it to.
    SignalRefused { signal: Signal, pid: u32 },
    NotRunning,
}

/// The name of a signal for `kill`.
pub open spec fn signal_word(signal: Signal) -> Seq<char> {
    match signal {
        Signal::Usr1 => "USR1"@,
        Signal::Term => "TERM"@,
        Signal::Int => "INT"@,
    }
}

/// The name of a signal for `kill`.
pub fn signal_name(signal: Signal) -> (r: &'static str)
    ensures
        r@ == signal_word(signal),
{
    match signal {
        Signal::Usr1 => "USR1",
        Signal::Term => "TERM",
        Signal::Int => "INT",
    }
}

impl LaunchError {
    /// The words for the error.
    pub open spec fn words(self) -> Seq<char> {
        match self {
            LaunchError::SpawnFailed(why) => "Failed to spawn daemon: "@ + why@,
            LaunchError::NotStarted => "Daemon failed to start within 2 seconds"@,
            LaunchError::SignalFailed { signal, why } => "Failed to send "@ + signal_word(signal)
                + " to daemon: "@ + why@,
            LaunchError::SignalRefused { signal, pid } => "Failed to send "@ + signal_word(signal)
                + " to daemon (pid "@ + decimal(pid as nat) + "). Is voxtype still running?"@,
            LaunchError::NotRunning => "Daemon not running"@,
        }
    }

    /// The message for the user.
    pub fn message(&self) -> (r: String)
        ensures
            r@ == self.words(),
    {
        match self {
            LaunchError::SpawnFailed(why) => {
                let mut m = "Failed to spawn daemon: ".to_owned();
                m.append(why.as_str());
                m
            },
            LaunchError::NotStarted => "Daemon failed to start within 2 seconds".to_owned(),
            LaunchError::SignalFailed { signal, why } => {
                let mut m = "Failed to send ".to_owned();
                m.append(signal_name(*signal));
                m.append(" to daemon: ");
                m.append(why.as_str());
                m
            },
            LaunchError::SignalRefused { signal, pid } => {
                let mut m = "Failed to send ".to_owned();
                m.append(signal_name(*signal));
                m.append(" to daemon (pid ");
                m.append(decimal_string(*pid as u64).as_str());
                m.append("). Is voxtype still running?");
                m
            },
            LaunchError::NotRunning => "Daemon not running".to_owned(),
        }
    }
}

/// What is to be done next with the daemon.
#[derive(Debug, Clone, Copy, PartialEq, Eq, Structural)]
pub enum LaunchStep {
    /// Look whether a daemon runs.
    AskRunning,
    /// Read the process number of the daemon.
    ReadPid,
    /// Look whether a process is alive.
    AskAlive(u32),
    /// Start a daemon.
    Spawn,
    /// Let so many milliseconds pass.
    Sleep(u64),
    /// Send a signal to a process.
    Send(Signal, u32),
    /// Nothing: it is over.
    Done,
}

/// What is reported of it.
#[derive(Debug)]
pub enum LaunchNews {
    /// Whether a daemon runs.
    Running(bool),
    /// The number in the PID file, if there is one.
    Pid(Option<u32>),
    /// Whether the process is alive.
    Alive(bool),
    Spawned,
    SpawnFailed(String),
    Slept,
    /// Whether the signal was taken, or why it could not be sent.
    Sent(Result<bool, String>),
}

/// The news of a search for a daemon that is over.
pub open spec fn running_told(p: DaemonProbe) -> Option<LaunchNews> {
    match p {
        DaemonProbe::Decided(runs) => Some(LaunchNews::Running(runs)),
        _ => None,
    }
}

/// The news of a search for a daemon that is over.
pub fn running_news(p: &DaemonProbe) -> (r: Option<LaunchNews>)
    ensures
        r == running_told(*p),
{
    match p {
        DaemonProbe::Decided(runs) => Some(LaunchNews::Running(*runs)),
        _ => None,
    }
}

/// The news of the content of the PID file.
pub fn pid_news(content: &Option<String>) -> (r: LaunchNews)
    ensures
        r == LaunchNews::Pid(pid_in(opt_text(*content))),
{
    LaunchNews::Pid(daemon_pid(content))
}

/// The news of the reply to the question whether a process is alive.
pub fn alive_news(outcome: &CommandOutcome) -> (r: LaunchNews)
    ensures
        r == LaunchNews::Alive(outcome.succeeded()),
{
    LaunchNews::Alive(outcome.is_success())
}

/// A command to the daemon in progress. `toggle` says that the daemon is to be
/// toggled once it runs.
#[derive(Debug)]
pub enum Launch {
    AskRunning { toggle: bool },
    /// A restart: find the old daemon.
    FindOld,
    EndOld { pid: u32 },
    AwaitExit { pid: u32, left: u64 },
    RestExit { pid: u32, left: u64 },
    Spawn { toggle: bool },
    AwaitStart { toggle: bool, left: u64 },
    RestStart { toggle: bool, left: u64 },
    Settle,
    ReadPid,
    Send { pid: u32 },
    Done(Result<(), LaunchError>),
}

impl Launch {
    /// The first state for a command that concerns the daemon.
    pub open spec fn first(command: CliCommand) -> Launch {
        match command {
            CliCommand::Restart => Launch::FindOld,
            CliCommand::StartDaemon => Launch::AskRunning { toggle: false },
            _ => Launch::AskRunning { toggle: true },
        }
    }

    /// What is to be done in this state.
    pub open spec fn due(self) -> LaunchStep {
        match self {
            Launch::AskRunning { .. } | Launch::AwaitStart { .. } => LaunchStep::AskRunning,
            Launch::FindOld | Launch::ReadPid => LaunchStep::ReadPid,
            Launch::EndOld { pid } => LaunchStep::Send(Signal::Term, pid),
            Launch::AwaitExit { pid, .. } => LaunchStep::AskAlive(pid),
            Launch::RestExit { .. } => LaunchStep::Sleep(EXIT_POLL_MS),
            Launch::Spawn { .. } => LaunchStep::Spawn,
            Launch::RestStart { .. } => LaunchStep::Sleep(START_POLL_MS),
            Launch::Settle => LaunchStep::Sleep(START_SETTLE_MS),
            Launch::Send { pid } => LaunchStep::Send(Signal::Usr1, pid),
            Launch::Done(_) => LaunchStep::Done,
        }
    }

    /// What came of a signal: `next` if it was taken.
    pub open spec fn signalled(
        signal: Signal,
        pid: u32,
        sent: Result<bool, String>,
        next: Launch,
    ) -> Launch {
        match sent {
            Ok(true) => next,
            Ok(false) => Launch::Done(Err(LaunchError::SignalRefused { signal, pid })),
            Err(why) => Launch::Done(Err(LaunchError::SignalFailed { signal, why })),
        }
    }

    /// The state that news lead to.
    pub open spec fn after(self, n: LaunchNews) -> Launch {
        match (self, n) {
            (Launch::AskRunning { toggle }, LaunchNews::Running(runs)) => if !runs {
                Launch::Spawn { toggle }
            } else if toggle {
                Launch::ReadPid
            } else {
                Launch::Done(Ok(()))
            },
            (Launch::FindOld, LaunchNews::Pid(found)) => match found {
                Some(pid) => Launch::EndOld { pid },
                None => Launch::Spawn { toggle: false },
            },
            (Launch::EndOld { pid }, LaunchNews::Sent(sent)) => Launch::signalled(
                Signal::Term,
                pid,
                sent,
                Launch::AwaitExit { pid, left: EXIT_LOOKS },
            ),
            (Launch::AwaitExit { pid, left }, LaunchNews::Alive(alive)) => if alive {
                Launch::RestExit { pid, left }
            } else {
                Launch::Spawn { toggle: false }
            },
            (Launch::RestExit { pid, left }, LaunchNews::Slept) => if left <= 1 {
                Launch::Spawn { toggle: false }
            } else {
                Launch::AwaitExit { pid, left: (left - 1) as u64 }
            },
            (Launch::Spawn { toggle }, LaunchNews::Spawned) => Launch::AwaitStart {
                toggle,
                left: START_LOOKS,
            },
            (Launch::Spawn { .. }, LaunchNews::SpawnFailed(why)) => Launch::Done(
                Err(LaunchError::SpawnFailed(why)),
            ),
            (Launch::AwaitStart { toggle, left }, LaunchNews::Running(runs)) => if !runs {
                Launch::RestStart { toggle, left }
            } else if toggle {
                Launch::Settle
            } else {
                Launch::Done(Ok(()))
            },
            (Launch::RestStart { toggle, left }, LaunchNews::Slept) => if left <= 1 {
                Launch::Done(Err(LaunchError::NotStarted))
            } else {
                Launch::AwaitStart { toggle, left: (left - 1) as u64 }
            },
            (Launch::Settle, LaunchNews::Slept) => Launch::ReadPid,
            (Launch::ReadPid, LaunchNews::Pid(found)) => match found {
                Some(pid) => Launch::Send { pid },
                None => Launch::Done(Err(LaunchError::NotRunning)),
            },
            (Launch::Send { pid }, LaunchNews::Sent(sent)) => Launch::signalled(
                Signal::Usr1,
                pid,
                sent,
                Launch::Done(Ok(())),
            ),
            _ => self,
        }
    }

    /// A command to the daemon, from its beginning.
    pub fn launch(command: CliCommand) -> (r: Launch)
        ensures
            r == Launch::first(command),
    {
        match command {
            CliCommand::Restart => Launch::FindOld,
            CliCommand::StartDaemon => Launch::AskRunning { toggle: false },
            _ => Launch::AskRunning { toggle: true },
        }
    }

    /// What is to be done in this state.
    pub fn action(&self) -> (r: LaunchStep)
        ensures
            r == self.due(),
    {
        match self {
            Launch::AskRunning { .. } | Launch::AwaitStart { .. } => LaunchStep::AskRunning,
            Launch::FindOld | Launch::ReadPid => LaunchStep::ReadPid,
            Launch::EndOld { pid } => LaunchStep::Send(Signal::Term, *pid),
            Launch::AwaitExit { pid, .. } => LaunchStep::AskAlive(*pid),
            Launch::RestExit { .. } => LaunchStep::Sleep(EXIT_POLL_MS),
            Launch::Spawn { .. } => LaunchStep::Spawn,
            Launch::RestStart { .. } => LaunchStep::Sleep(START_POLL_MS),
            Launch::Settle => LaunchStep::Sleep(START_SETTLE_MS),
            Launch::Send { pid } => LaunchStep::Send(Signal::Usr1, *pid),
            Launch::Done(_) => LaunchStep::Done,
        }
    }

    fn send_signal(signal: Signal, pid: u32, sent: Result<bool, String>, next: Launch) -> (r: Launch)
        ensures
            r == Launch::signalled(signal, pid, sent, next),
    {
        match sent {
            Ok(taken) => {
                if taken {
                    next
                } else {
                    Launch::Done(Err(LaunchError::SignalRefused { signal, pid }))
                }
            },
            Err(why) => Launch::Done(Err(LaunchError::SignalFailed { signal, why })),
        }
    }

    /// The state that news lead to.
    pub fn next(self, n: LaunchNews) -> (r: Launch)
        ensures
            r == self.after(n),
    {
        match (self, n) {
            (Launch::AskRunning { toggle }, LaunchNews::Running(runs)) => {
                if !runs {
                    Launch::Spawn { toggle }
                } else if toggle {
                    Launch::ReadPid
                } else {
                    Launch::Done(Ok(()))
                }
            },
            (Launch::FindOld, LaunchNews::Pid(found)) => match found {
                Some(pid) => Launch::EndOld { pid },
                None => Launch::Spawn { toggle: false },
            },
            (Launch::EndOld { pid }, LaunchNews::Sent(sent)) => Launch::send_signal(
                Signal::Term,
                pid,
                sent,
                Launch::AwaitExit { pid, left: EXIT_LOOKS },
            ),
            (Launch::AwaitExit { pid, left }, LaunchNews::Alive(alive)) => {
                if alive {
                    Launch::RestExit { pid, left }
                } else {
                    Launch::Spawn { toggle: false }
                }
            },
            (Launch::RestExit { pid, left }, LaunchNews::Slept) => {
                if left <= 1 {
                    Launch::Spawn { toggle: false }
                } else {
                    Launch::AwaitExit { pid, left: left - 1 }
                }
            },
            (Launch::Spawn { toggle }, LaunchNews::Spawned) => Launch::AwaitStart {
                toggle,
                left: START_LOOKS,
            },
            (Launch::Spawn { .. }, LaunchNews::SpawnFailed(why)) => Launch::Done(
                Err(LaunchError::SpawnFailed(why)),
            ),
            (Launch::AwaitStart { toggle, left }, LaunchNews::Running(runs)) => {
                if !runs {
                    Launch::RestStart { toggle, left }
                } else if toggle {
                    Launch::Settle
                } else {
                    Launch::Done(Ok(()))
                }
            },
            (Launch::RestStart { toggle, left }, LaunchNews::Slept) => {
                if left <= 1 {
                    Launch::Done(Err(LaunchError::NotStarted))
                } else {
                    Launch::AwaitStart { toggle, left: left - 1 }
                }
            },
            (Launch::Settle, LaunchNews::Slept) => Launch::ReadPid,
            (Launch::ReadPid, LaunchNews::Pid(found)) => match found {
                Some(pid) => Launch::Send { pid },
                None => Launch::Done(Err(LaunchError::NotRunning)),
            },
            (Launch::Send { pid }, LaunchNews::Sent(sent)) => Launch::send_signal(
                Signal::Usr1,
                pid,
                sent,
                Launch::Done(Ok(())),
            ),
            (s, _) => s,
        }
    }
}

// ── Laws ──────────────────────────────────────────────────────────

/// A daemon is started exactly where none runs: where the PID file has no
/// number, or where the process of that number is not alive. One that runs is
/// toggled if that is asked for, and left alone otherwise.
pub proof fn a_daemon_is_started_where_none_runs(
    toggle: bool,
    pid_file: Option<Seq<char>>,
    alive: CommandOutcome,
)
    ensures
        running_told(DaemonProbe::first(pid_file).after(alive)) matches Some(n) && (
        Launch::AskRunning { toggle }).after(n) == if pid_in(pid_file) is None || !alive.succeeded() {
            Launch::Spawn { toggle }
        } else if toggle {
            Launch::ReadPid
        } else {
            Launch::Done(Ok(()))
        },
{
}

impl Launch {
    /// The state after a list of news.
    pub open spec fn run(self, news: Seq<LaunchNews>) -> Launch
        decreases news.len(),
    {
        if news.len() == 0 {
            self
        } else {
            self.run(news.drop_last()).after(news.last())
        }
    }

    /// The time that was slept in the course of the news.
    pub open spec fn slept(self, news: Seq<LaunchNews>) -> nat
        decreases news.len(),
    {
        if news.len() == 0 {
            0
        } else {
            self.slept(news.drop_last()) + match self.run(news.drop_last()).due() {
                LaunchStep::Sleep(ms) if news.last() is Slept => ms as nat,
                _ => 0,
            }
        }
    }

    /// The time that may still be slept.
    pub open spec fn sleep_left(self) -> nat {
        let start = START_LOOKS as nat * START_POLL_MS as nat + START_SETTLE_MS as nat;
        match self {
            Launch::AskRunning { .. } | Launch::Spawn { .. } => start,
            Launch::FindOld | Launch::EndOld { .. } => EXIT_LOOKS as nat * EXIT_POLL_MS as nat
                + start,
            Launch::AwaitExit { left, .. } | Launch::RestExit { left, .. } => at_least_one(left)
                * EXIT_POLL_MS as nat + start,
            Launch::AwaitStart { left, .. } | Launch::RestStart { left, .. } => at_least_one(left)
                * START_POLL_MS as nat + START_SETTLE_MS as nat,
            Launch::Settle => START_SETTLE_MS as nat,
            Launch::ReadPid | Launch::Send { .. } | Launch::Done(_) => 0,
        }
    }
}

/// A count, and at least one.
pub open spec fn at_least_one(left: u64) -> nat {
    if left <= 1 {
        1
    } else {
        left as nat
    }
}

/// The CLI waits a limited time, whatever the daemon does: in all its pauses
/// together less than five seconds.
pub proof fn the_wait_for_the_daemon_is_limited(s: Launch, news: Seq<LaunchNews>)
    ensures
        s.slept(news) + s.run(news).sleep_left() <= s.sleep_left(),
        forall|c: CliCommand| #[trigger] Launch::first(c).sleep_left() < 5000,
    decreases news.len(),
{
    if news.len() > 0 {
        the_wait_for_the_daemon_is_limited(s, news.drop_last());
    }
}

/// A toggle reaches only a process whose number was read from the PID file,
/// which a daemon writes once it can handle the signal.
pub proof fn a_toggle_goes_to_the_process_in_the_pid_file(s: Launch, n: LaunchNews)
    ensures
        s.after(n).due() matches LaunchStep::Send(signal, pid) ==> s.after(n) == s || (n
            == LaunchNews::Pid(Some(pid)) && s.due() == LaunchStep::ReadPid && signal == if s
            == Launch::FindOld {
            Signal::Term
        } else {
            Signal::Usr1
        }),
{
}

/// To start or to restart the daemon toggles nothing.
pub proof fn a_start_toggles_nothing(command: CliCommand, news: Seq<LaunchNews>)
    requires
        command == CliCommand::StartDaemon || command == CliCommand::Restart,
    ensures
        match Launch::first(command).run(news) {
            Launch::AskRunning { toggle } => !toggle,
            Launch::Spawn { toggle } => !toggle,
            Launch::AwaitStart { toggle, .. } => !toggle,
            Launch::RestStart { toggle, .. } => !toggle,
            Launch::Settle | Launch::ReadPid | Launch::Send { .. } => false,
            _ => true,
        },
    decreases news.len(),
{
    if news.len() > 0 {
        a_start_toggles_nothing(command, news.drop_last());
    }
}

/// Each option asks for its command, and for no other; any other argument, or
/// none, toggles the recording.
pub proof fn each_option_asks_for_its_command(a: Seq<char>)
    ensures
        command_named(None) == CliCommand::Toggle,
        command_named(Some(a)) == CliCommand::Help <==> a == "--help"@ || a == "-h"@,
        command_named(Some(a)) == CliCommand::Version <==> a == "--version"@ || a == "-V"@,
        command_named(Some(a)) == CliCommand::Stats <==> a == "--stats"@ || a == "stats"@,
        command_named(Some(a)) == CliCommand::Configure <==> a == "--configure"@ || a
            == "configure"@,
        command_named(Some(a)) == CliCommand::RunDaemon <==> a == "__daemon"@,
        command_named(Some(a)) == CliCommand::StartDaemon <==> a == "--daemon"@ || a == "-d"@,
        command_named(Some(a)) == CliCommand::Restart <==> a == "--restart"@ || a == "restart"@,
{
    reveal_strlit("--help");
    reveal_strlit("-h");
    reveal_strlit("--version");
    reveal_strlit("-V");
    reveal_strlit("--stats");
    reveal_strlit("stats");
    reveal_strlit("--configure");
    reveal_strlit("configure");
    reveal_strlit("__daemon");
    reveal_strlit("--daemon");
    reveal_strlit("-d");
    reveal_strlit("--restart");
    reveal_strlit("restart");
    assert("--help"@.len() == 6 && "-h"@.len() == 2 && "-h"@[1] == 'h');
    assert("--version"@.len() == 9 && "--version"@[2] == 'v' && "-V"@.len() == 2 && "-V"@[1] == 'V');
    assert("--stats"@.len() == 7 && "--stats"@[0] == '-' && "stats"@.len() == 5);
    assert("--configure"@.len() == 11 && "configure"@.len() == 9 && "configure"@[2] == 'n'
        && "configure"@[0] == 'c');
    assert("__daemon"@.len() == 8 && "__daemon"@[0] == '_' && "--daemon"@.len() == 8
        && "--daemon"@[0] == '-');
    assert("-d"@.len() == 2 && "-d"@[1] == 'd');
    assert("--restart"@.len() == 9 && "--restart"@[2] == 'r' && "--restart"@[0] == '-'
        && "--version"@[0] == '-');
    assert("restart"@.len() == 7 && "restart"@[0] == 'r');
}

/// Every option that the help shows is understood as what the help says of it.
pub proof fn the_help_shows_what_is_understood(version: Seq<char>)
    ensures
        usage(version).len() == 8,
        usage(version)[3] == "  voxtype "@ + "--daemon"@ + "   Start daemon in background"@,
        usage(version)[4] == "  voxtype "@ + "--restart"@
            + "  Restart daemon (picks up new binary)"@,
        usage(version)[5] == "  voxtype "@ + "--stats"@ + "    Show provider usage statistics"@,
        usage(version)[6] == "  voxtype "@ + "--configure"@
            + "  Interactively set default STT provider"@,
        usage(version)[7] == "  voxtype "@ + "--version"@ + "  Print version"@,
        has_text(usage(version)[0], version),
{
    reveal_strlit("  voxtype ");
    assert(usage(version)[3] =~= "  voxtype "@ + "--daemon"@ + "   Start daemon in background"@) by {
        reveal_strlit("  voxtype --daemon   Start daemon in background");
        reveal_strlit("--daemon");
        reveal_strlit("   Start daemon in background");
    }
    assert(usage(version)[4] =~= "  voxtype "@ + "--restart"@
        + "  Restart daemon (picks up new binary)"@) by {
        reveal_strlit("  voxtype --restart  Restart daemon (picks up new binary)");
        reveal_strlit("--restart");
        reveal_strlit("  Restart daemon (picks up new binary)");
    }
    assert(usage(version)[5] =~= "  voxtype "@ + "--stats"@
        + "    Show provider usage statistics"@) by {
        reveal_strlit("  voxtype --stats    Show provider usage statistics");
        reveal_strlit("--stats");
        reveal_strlit("    Show provider usage statistics");
    }
    assert(usage(version)[6] =~= "  voxtype "@ + "--configure"@
        + "  Interactively set default STT provider"@) by {
        reveal_strlit("  voxtype --configure  Interactively set default STT provider");
        reveal_strlit("--configure");
        reveal_strlit("  Interactively set default STT provider");
    }
    assert(usage(version)[7] =~= "  voxtype "@ + "--version"@ + "  Print version"@) by {
        reveal_strlit("  voxtype --version  Print version");
        reveal_strlit("--version");
        reveal_strlit("  Print version");
    }
    a_part_stands_in_the_whole(
        "voxtype "@,
        version,
        " — voice-to-text dictation for Linux\\n"@,
    );
}

/// The signals have the names that `kill` knows.
pub proof fn signals_have_their_names(signal: Signal)
    ensures
        signal_word(signal) == match signal {
            Signal::Usr1 => "USR1"@,
            Signal::Term => "TERM"@,
            Signal::Int => "INT"@,
        },
{
}

/// A toggle of a daemon that runs goes to the process of the PID file and is
/// done when it was taken. Where no daemon runs one is started first, and the
/// toggle follows once it runs and has settled.
pub proof fn a_toggle_reaches_the_daemon(pid: u32, sent: Result<bool, String>)
    ensures
        ({
            let s = Launch::first(CliCommand::Toggle);
            let found = s.after(LaunchNews::Running(true));
            let send = found.after(LaunchNews::Pid(Some(pid)));
            let spawn = s.after(LaunchNews::Running(false));
            let started = spawn.after(LaunchNews::Spawned).after(LaunchNews::Running(true));
            &&& s.due() == LaunchStep::AskRunning
            &&& found.due() == LaunchStep::ReadPid
            &&& send.due() == LaunchStep::Send(Signal::Usr1, pid)
            &&& sent == Ok::<bool, String>(true) ==> send.after(LaunchNews::Sent(sent))
                == Launch::Done(Ok(()))
            &&& sent == Ok::<bool, String>(false) ==> send.after(LaunchNews::Sent(sent))
                == Launch::Done(
                Err(LaunchError::SignalRefused { signal: Signal::Usr1, pid }),
            )
            &&& sent matches Err(why) ==> send.after(LaunchNews::Sent(sent)) == Launch::Done(
                Err(LaunchError::SignalFailed { signal: Signal::Usr1, why }),
            )
            &&& found.after(LaunchNews::Pid(None)) == Launch::Done(Err(LaunchError::NotRunning))
            &&& spawn.due() == LaunchStep::Spawn
            &&& started.due() == LaunchStep::Sleep(300)
            &&& started.after(LaunchNews::Slept) == found
        }),
{
}

/// To start the daemon is done as soon as one runs, without a signal.
pub proof fn a_start_is_done_when_a_daemon_runs(why: String)
    ensures
        ({
            let s = Launch::first(CliCommand::StartDaemon);
            let spawn = s.after(LaunchNews::Running(false));
            &&& s.after(LaunchNews::Running(true)) == Launch::Done(Ok(()))
            &&& spawn.due() == LaunchStep::Spawn
            &&& spawn.after(LaunchNews::Spawned).due() == LaunchStep::AskRunning
            &&& spawn.after(LaunchNews::Spawned).after(LaunchNews::Running(true)) == Launch::Done(
                Ok(()),
            )
            &&& spawn.after(LaunchNews::SpawnFailed(why)) == Launch::Done(
                Err(LaunchError::SpawnFailed(why)),
            )
        }),
{
}

/// A restart tells the old daemon to end, waits for it to go, and then starts a
/// new one; without an old one it starts a new one at once. An old daemon that
/// cannot be told ends the restart.
pub proof fn a_restart_replaces_the_daemon(pid: u32, left: u64)
    ensures
        ({
            let s = Launch::first(CliCommand::Restart);
            let end = s.after(LaunchNews::Pid(Some(pid)));
            let wait = end.after(LaunchNews::Sent(Ok(true)));
            &&& s.due() == LaunchStep::ReadPid
            &&& s.after(LaunchNews::Pid(None)).due() == LaunchStep::Spawn
            &&& end.due() == LaunchStep::Send(Signal::Term, pid)
            &&& end.after(LaunchNews::Sent(Ok(false))) == Launch::Done(
                Err(LaunchError::SignalRefused { signal: Signal::Term, pid }),
            )
            &&& wait == (Launch::AwaitExit { pid, left: 50 })
            &&& wait.due() == LaunchStep::AskAlive(pid)
            &&& wait.after(LaunchNews::Alive(false)).due() == LaunchStep::Spawn
            &&& wait.after(LaunchNews::Alive(true)).due() == LaunchStep::Sleep(50)
            &&& wait.after(LaunchNews::Alive(true)).after(LaunchNews::Slept).due()
                == LaunchStep::AskAlive(pid)
        }),
        (Launch::AwaitExit { pid, left }).after(LaunchNews::Alive(true)) == (Launch::RestExit {
            pid,
            left,
        }),
        left > 1 ==> (Launch::RestExit { pid, left }).after(LaunchNews::Slept) == (
        Launch::AwaitExit { pid, left: (left - 1) as u64 }),
        left <= 1 ==> (Launch::RestExit { pid, left }).after(LaunchNews::Slept).due()
            == LaunchStep::Spawn,
{
}

impl Launch {
    /// The pauses that are left before the wait for a new daemon is given up.
    spec fn start_left(self) -> int {
        match self {
            Launch::AwaitStart { left, .. } | Launch::RestStart { left, .. } => left as int,
            _ => 0,
        }
    }
}

proof fn lemma_the_wait_for_the_start(toggle: bool, news: Seq<LaunchNews>)
    ensures
        ({
            let s = Launch::AwaitStart { toggle, left: START_LOOKS };
            let t = s.run(news);
            &&& t is AwaitStart || t is RestStart ==> 1 <= t.start_left() <= 20 && s.slept(news)
                == 100 * (20 - t.start_left())
            &&& t == Launch::Done(Err(LaunchError::NotStarted)) ==> s.slept(news) == 2000
            &&& t is AwaitStart || t is RestStart || t is Settle || t is ReadPid || t is Send
                || t is Done
        }),
    decreases news.len(),
{
    if news.len() > 0 {
        lemma_the_wait_for_the_start(toggle, news.drop_last());
    }
}

/// A daemon that does not come up is given up after two seconds, as the message
/// says, and not before.
pub proof fn a_daemon_has_two_seconds_to_come_up(toggle: bool, news: Seq<LaunchNews>)
    requires
        (Launch::AwaitStart { toggle, left: START_LOOKS }).run(news) == Launch::Done(
            Err(LaunchError::NotStarted),
        ),
    ensures
        (Launch::AwaitStart { toggle, left: START_LOOKS }).slept(news) == 2000,
        LaunchError::NotStarted.words() == "Daemon failed to start within 2 seconds"@,
        (Launch::Spawn { toggle }).after(LaunchNews::Spawned) == (Launch::AwaitStart {
            toggle,
            left: START_LOOKS,
        }),
{
    lemma_the_wait_for_the_start(toggle, news);
}

/// The user is told what kept a command from the daemon: the reason, the signal
/// and the number of the process.
pub proof fn a_failed_command_is_explained(signal: Signal, pid: u32, why: String)
    ensures
        LaunchError::SpawnFailed(why).words() == "Failed to spawn daemon: "@ + why@,
        LaunchError::NotRunning.words() == "Daemon not running"@,
        has_text((LaunchError::SignalFailed { signal, why }).words(), signal_word(signal)),
        has_text((LaunchError::SignalFailed { signal, why }).words(), why@),
        has_text((LaunchError::SignalFailed { signal, why }).words(), "Failed to send "@),
        has_text((LaunchError::SignalRefused { signal, pid }).words(), signal_word(signal)),
        has_text((LaunchError::SignalRefused { signal, pid }).words(), decimal(pid as nat)),
        has_text((LaunchError::SignalRefused { signal, pid }).words(), "Failed to send "@),
        has_text(
            (LaunchError::SignalRefused { signal, pid }).words(),
            "Is voxtype still running?"@,
        ),
{
    let none = Seq::<char>::empty();
    let start = "Failed to send "@;
    let name = signal_word(signal);
    let failed = (LaunchError::SignalFailed { signal, why }).words();
    let rest = " to daemon: "@ + why@;
    a_part_stands_in_the_whole(none, start, name + rest);
    assert(none + start + (name + rest) =~= failed);
    a_part_stands_in_the_whole(start, name, rest);
    assert(start + name + rest =~= failed);
    a_part_stands_in_the_whole(start + name + " to daemon: "@, why@, none);
    assert(start + name + " to daemon: "@ + why@ + none =~= failed);
    let refused = (LaunchError::SignalRefused { signal, pid }).words();
    let number = decimal(pid as nat);
    let end = "). Is voxtype still running?"@;
    let tail = " to daemon (pid "@ + number + end;
    a_part_stands_in_the_whole(none, start, name + tail);
    assert(none + start + (name + tail) =~= refused);
    a_part_stands_in_the_whole(start, name, tail);
    assert(start + name + tail =~= refused);
    a_part_stands_in_the_whole(start + name + " to daemon (pid "@, number, end);
    reveal_strlit("). Is voxtype still running?");
    reveal_strlit("Is voxtype still running?");
    assert("). "@ + "Is voxtype still running?"@ =~= end) by {
        reveal_strlit("). ");
    }
    let before = start + name + " to daemon (pid "@ + number + "). "@;
    a_part_stands_in_the_whole(before, "Is voxtype still running?"@, none);
    assert(before + "Is voxtype still running?"@ + none =~= refused);
}

}
