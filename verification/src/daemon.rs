//! The daemon: its start, the signals it serves, and its end.

use crate::command::{lookup, lookup_command, CommandOutcome, CommandSpec, CommandView, Input};
use crate::recording::{
    is_recorder, kill_command, kill_process, pid_in, read_pid, step_view, NameProbe, RecordError,
    Report, StartRecording, Step, StopError, StopRecording, RECORDER,
};
use crate::text::{
    a_part_stands_in_the_whole, decimal, decimal_string, has_text, occurs_at, opt_text, owned, texts,
};
use vstd::prelude::*;

verus! {

// ── Notification ──────────────────────────────────────────────────

/// Budget for desktop notifications; a wedged notification daemon must not
/// hold up the toggle.
pub const NOTIFY_TIMEOUT_MS: u64 = 2000;

/// The command that shows a desktop notification.
pub open spec fn notify_command(summary: Seq<char>, body: Seq<char>) -> CommandView {
    CommandView {
        argv: seq!["notify-send"@, "-a"@, "voxtype"@, summary, body],
        input: Input::Inherited,
        capture: false,
        limit_ms: Some(NOTIFY_TIMEOUT_MS),
    }
}

/// The command that shows a desktop notification.
pub fn notify(summary: &str, body: &str) -> (r: CommandSpec)
    ensures
        r@ == notify_command(summary@, body@),
{
    let argv = owned(vec!["notify-send", "-a", "voxtype", summary, body]);
    assert(texts(argv@) =~= notify_command(summary@, body@).argv);
    CommandSpec { argv, input: Input::Inherited, capture: false, limit_ms: Some(NOTIFY_TIMEOUT_MS) }
}

/// What to print instead, where the notification was not shown.
pub fn notify_fallback(outcome: &CommandOutcome, summary: &str, body: &str) -> (r: Option<String>)
    ensures
        match r {
            Some(line) => !outcome.succeeded() && line@ == "[voxtype] "@ + summary@ + ": "@ + body@,
            None => outcome.succeeded(),
        },
{
    if outcome.is_success() {
        return None;
    }
    let mut line = "[voxtype] ".to_owned();
    line.append(summary);
    line.append(": ");
    line.append(body);
    Some(line)
}

// ── Concurrent toggle guard ───────────────────────────────────────

/// Prevents a toggle while another is in progress. Without this, rapid
/// double-presses could run two recorders or two transcriptions at once.
#[derive(Debug, Clone, Copy, PartialEq, Eq, Structural)]
pub struct ToggleGuard {
    pub busy: bool,
}

impl ToggleGuard {
    pub fn new() -> (r: ToggleGuard)
        ensures
            !r.busy,
    {
        ToggleGuard { busy: false }
    }

    /// Takes the guard, unless it is taken.
    pub fn try_acquire(&mut self) -> (r: bool)
        ensures
            r == !old(self).busy,
            final(self).busy,
    {
        let free = !self.busy;
        self.busy = true;
        free
    }

    /// Gives the guard back.
    pub fn release(&mut self)
        ensures
            !final(self).busy,
    {
        self.busy = false;
    }
}

// ── Toggle ────────────────────────────────────────────────────────

/// What came of a toggle.
#[derive(Debug)]
pub enum Outcome {
    Pasted(String),
    NotPasted(StopError),
    Recording,
    NotRecording(RecordError),
}

impl Outcome {
    /// What the user is told.
    pub open spec fn words(self) -> Seq<char> {
        match self {
            Outcome::Pasted(text) => "Pasted "@ + decimal(text@.len()) + " chars ✓"@,
            Outcome::NotPasted(e) => e.words(),
            Outcome::Recording => "Recording..."@,
            Outcome::NotRecording(e) => "Recording failed: "@ + e.words(),
        }
    }

    /// What the user is told.
    pub fn message(&self) -> (r: String)
        ensures
            r@ == self.words(),
    {
        match self {
            Outcome::Pasted(text) => {
                let len: usize = text.as_str().unicode_len();
                let mut m = "Pasted ".to_owned();
                m.append(decimal_string(len as u64).as_str());
                m.append(" chars ✓");
                m
            },
            Outcome::NotPasted(e) => e.message(),
            Outcome::Recording => "Recording...".to_owned(),
            Outcome::NotRecording(e) => {
                let mut m = "Recording failed: ".to_owned();
                m.append(e.message().as_str());
                m
            },
        }
    }
}

/// A toggle: it starts a recording, or stops the one that there is.
#[derive(Debug)]
pub enum Toggle {
    /// Tell the user that the recording is being transcribed.
    Announcing,
    Stopping(StopRecording),
    Starting(StartRecording),
    /// Tell the user what came of it.
    Telling(Outcome),
    Done,
}

impl Toggle {
    /// A step is open wherever one is under way.
    pub open spec fn wf(self) -> bool {
        match self {
            Toggle::Stopping(s) => s !is Done,
            Toggle::Starting(s) => s.wf() && s !is Done,
            _ => true,
        }
    }

    /// The first state.
    pub open spec fn first(recording: bool) -> Toggle {
        if recording {
            Toggle::Announcing
        } else {
            Toggle::Starting(StartRecording::ReadLock)
        }
    }

    /// What is to be done in this state.
    pub open spec fn due(self) -> Step<CommandView, Seq<char>> {
        match self {
            Toggle::Announcing => Step::Notify("Transcribing..."@),
            Toggle::Stopping(s) => s.due(),
            Toggle::Starting(s) => s.due(),
            Toggle::Telling(o) => Step::Notify(o.words()),
            Toggle::Done => Step::Done,
        }
    }

    /// The state that a report leads to.
    pub open spec fn after(self, r: Report) -> Toggle {
        match (self, r) {
            (Toggle::Announcing, Report::Finished) => Toggle::Stopping(StopRecording::ReadLock),
            (Toggle::Stopping(s), r) => match s.after(r) {
                StopRecording::Done(Ok(text)) => Toggle::Telling(Outcome::Pasted(text)),
                StopRecording::Done(Err(e)) => Toggle::Telling(Outcome::NotPasted(e)),
                s => Toggle::Stopping(s),
            },
            (Toggle::Starting(s), r) => match s.after(r) {
                StartRecording::Done(Ok(_)) => Toggle::Telling(Outcome::Recording),
                StartRecording::Done(Err(e)) => Toggle::Telling(Outcome::NotRecording(e)),
                s => Toggle::Starting(s),
            },
            (Toggle::Telling(_), Report::Finished) => Toggle::Done,
            _ => self,
        }
    }

    /// A toggle from its beginning; `recording` says whether a recording is
    /// in progress.
    pub fn toggle(recording: bool) -> (r: Toggle)
        ensures
            r == Toggle::first(recording),
            r.wf(),
    {
        if recording {
            Toggle::Announcing
        } else {
            Toggle::Starting(StartRecording::start_recording())
        }
    }

    /// What is to be done in this state.
    pub fn action(&self) -> (r: Step<CommandSpec, String>)
        ensures
            step_view(r) == self.due(),
    {
        match self {
            Toggle::Announcing => Step::Notify("Transcribing...".to_owned()),
            Toggle::Stopping(s) => s.action(),
            Toggle::Starting(s) => s.action(),
            Toggle::Telling(o) => Step::Notify(o.message()),
            Toggle::Done => Step::Done,
        }
    }

    /// The state that a report leads to.
    pub fn next(self, r: Report) -> (t: Toggle)
        ensures
            t == self.after(r),
    {
        match (self, r) {
            (Toggle::Announcing, Report::Finished) => Toggle::Stopping(
                StopRecording::stop_and_transcribe(),
            ),
            (Toggle::Stopping(s), r) => match s.next(r) {
                StopRecording::Done(d) => match d {
                    Ok(text) => Toggle::Telling(Outcome::Pasted(text)),
                    Err(e) => Toggle::Telling(Outcome::NotPasted(e)),
                },
                s => Toggle::Stopping(s),
            },
            (Toggle::Starting(s), r) => match s.next(r) {
                StartRecording::Done(d) => match d {
                    Ok(_) => Toggle::Telling(Outcome::Recording),
                    Err(e) => Toggle::Telling(Outcome::NotRecording(e)),
                },
                s => Toggle::Starting(s),
            },
            (Toggle::Telling(_), Report::Finished) => Toggle::Done,
            (s, _) => s,
        }
    }

    /// The state after a list of reports.
    pub open spec fn run(self, reports: Seq<Report>) -> Toggle
        decreases reports.len(),
    {
        if reports.len() == 0 {
            self
        } else {
            self.run(reports.drop_last()).after(reports.last())
        }
    }
}

/// A toggle goes on until it is done.
pub proof fn a_toggle_goes_on_until_it_is_done(t: Toggle, r: Report)
    requires
        t.wf(),
    ensures
        t.after(r).wf(),
        t.due() is Done <==> t is Done,
{
}

/// A toggle does one thing: while nothing is being recorded it only starts a
/// recording, and while something is being recorded it only stops it. Either
/// way the user is told what came of it before it is over.
pub proof fn a_toggle_starts_or_stops(recording: bool, reports: Seq<Report>)
    ensures
        match Toggle::first(recording).run(reports) {
            Toggle::Announcing | Toggle::Stopping(_) => recording,
            Toggle::Starting(_) => !recording,
            Toggle::Telling(o) => recording == (o is Pasted || o is NotPasted),
            Toggle::Done => exists|i: int|
                0 <= i < reports.len() && (#[trigger] Toggle::first(recording).run(
                    reports.take(i),
                )) is Telling && reports[i] is Finished,
        },
    decreases reports.len(),
{
    if reports.len() > 0 {
        let before = reports.drop_last();
        let n = reports.len() - 1;
        a_toggle_starts_or_stops(recording, before);
        let s = Toggle::first(recording);
        assert(reports.take(n) =~= before);
        if s.run(before) is Done {
            let i = choose|i: int|
                0 <= i < before.len() && (#[trigger] s.run(before.take(i))) is Telling
                    && before[i] is Finished;
            assert(before.take(i) =~= reports.take(i));
            assert(s.run(reports.take(i)) is Telling && reports[i] is Finished);
        } else if s.run(reports) is Done {
            assert(s.run(reports.take(n)) is Telling && reports[n] is Finished);
        }
    }
}

// ── Who is the daemon ─────────────────────────────────────────────

/// The question whether a process is alive.
pub open spec fn alive_question(pid: u32) -> CommandView {
    lookup(seq!["kill"@, "-0"@, decimal(pid as nat)], None)
}

/// The question whether a process is alive: the command succeeds if it is.
pub fn process_alive(pid: u32) -> (r: CommandSpec)
    ensures
        r@ == alive_question(pid),
{
    let number = decimal_string(pid as u64);
    let argv = owned(vec!["kill", "-0", number.as_str()]);
    assert(texts(argv@) =~= alive_question(pid).argv);
    lookup_command(argv, None)
}

/// PID stored in the daemon PID file, if any.
pub fn daemon_pid(content: &Option<String>) -> (r: Option<u32>)
    ensures
        r == pid_in(opt_text(*content)),
{
    read_pid(content)
}

/// The search whether a daemon runs.
#[derive(Debug, Clone, Copy, PartialEq, Eq, Structural)]
pub enum DaemonProbe {
    AskAlive { pid: u32 },
    Decided(bool),
}

impl DaemonProbe {
    /// The first state: without a number in the PID file no daemon runs.
    pub open spec fn first(content: Option<Seq<char>>) -> DaemonProbe {
        match pid_in(content) {
            Some(pid) => DaemonProbe::AskAlive { pid },
            None => DaemonProbe::Decided(false),
        }
    }

    /// The command that the search waits for.
    pub open spec fn due(self) -> Option<CommandView> {
        match self {
            DaemonProbe::AskAlive { pid } => Some(alive_question(pid)),
            DaemonProbe::Decided(_) => None,
        }
    }

    /// The state after the reply.
    pub open spec fn after(self, outcome: CommandOutcome) -> DaemonProbe {
        match self {
            DaemonProbe::AskAlive { .. } => DaemonProbe::Decided(outcome.succeeded()),
            DaemonProbe::Decided(_) => self,
        }
    }

    /// The command that the search waits for.
    pub fn command(&self) -> (r: Option<CommandSpec>)
        ensures
            match r {
                Some(c) => self.due() == Some(c@),
                None => self.due() is None,
            },
    {
        match self {
            DaemonProbe::AskAlive { pid } => Some(process_alive(*pid)),
            DaemonProbe::Decided(_) => None,
        }
    }

    /// The state after the reply.
    pub fn next(self, outcome: &CommandOutcome) -> (r: DaemonProbe)
        ensures
            r == self.after(*outcome),
    {
        match self {
            DaemonProbe::AskAlive { .. } => DaemonProbe::Decided(outcome.is_success()),
            DaemonProbe::Decided(b) => DaemonProbe::Decided(b),
        }
    }
}

/// Whether a live process owns the daemon PID file: the search from its
/// beginning, by the content of the file.
pub fn daemon_running(content: &Option<String>) -> (r: DaemonProbe)
    ensures
        r == DaemonProbe::first(opt_text(*content)),
{
    match daemon_pid(content) {
        Some(pid) => DaemonProbe::AskAlive { pid },
        None => DaemonProbe::Decided(false),
    }
}

// ── The life of the daemon ────────────────────────────────────────

/// The signals that the daemon serves.
#[derive(Debug, Clone, Copy, PartialEq, Eq, Structural)]
pub enum Signal {
    Usr1,
    Term,
    Int,
}

/// Why the daemon did not start.
#[derive(Debug, Clone, Copy, PartialEq, Eq, Structural)]
pub enum DaemonError {
    NoHandler(Signal),
    PidNotWritten,
}

impl DaemonError {
    /// The words for the error.
    pub open spec fn words(self) -> Seq<char> {
        match self {
            DaemonError::NoHandler(Signal::Usr1) => "Failed to setup SIGUSR1 handler"@,
            DaemonError::NoHandler(Signal::Term) => "Failed to setup SIGTERM handler"@,
            DaemonError::NoHandler(Signal::Int) => "Failed to setup SIGINT handler"@,
            DaemonError::PidNotWritten => "Failed to write PID file"@,
        }
    }

    /// The message for the user.
    pub fn message(&self) -> (r: &'static str)
        ensures
            r@ == self.words(),
    {
        match self {
            DaemonError::NoHandler(Signal::Usr1) => "Failed to setup SIGUSR1 handler",
            DaemonError::NoHandler(Signal::Term) => "Failed to setup SIGTERM handler",
            DaemonError::NoHandler(Signal::Int) => "Failed to setup SIGINT handler",
            DaemonError::PidNotWritten => "Failed to write PID file",
        }
    }
}

/// What the daemon does next.
#[derive(Debug)]
pub enum Duty<C> {
    /// Read the PID file.
    ReadPid,
    /// Run a command to its end.
    Run(C),
    /// Install the handler of a signal.
    Register(Signal),
    ReadLock,
    /// Ask whether a process is a recorder: whether its name is
    /// [`RECORDER`](crate::recording::RECORDER).
    AskRecorder(u32),
    RemoveLock,
    RemoveAudio,
    /// Write the number of the daemon to the PID file.
    WritePid,
    /// Check the environment and report what is wrong with it.
    CheckEnvironment,
    AwaitSignal,
    /// Toggle the recording.
    Toggle,
    RemovePid,
    /// Nothing: the daemon ends.
    Done,
}

/// A duty as a mathematical value.
pub open spec fn duty_view(d: Duty<CommandSpec>) -> Duty<CommandView> {
    match d {
        Duty::ReadPid => Duty::ReadPid,
        Duty::Run(c) => Duty::Run(c@),
        Duty::Register(s) => Duty::Register(s),
        Duty::ReadLock => Duty::ReadLock,
        Duty::AskRecorder(pid) => Duty::AskRecorder(pid),
        Duty::RemoveLock => Duty::RemoveLock,
        Duty::RemoveAudio => Duty::RemoveAudio,
        Duty::WritePid => Duty::WritePid,
        Duty::CheckEnvironment => Duty::CheckEnvironment,
        Duty::AwaitSignal => Duty::AwaitSignal,
        Duty::Toggle => Duty::Toggle,
        Duty::RemovePid => Duty::RemovePid,
        Duty::Done => Duty::Done,
    }
}

/// What is reported to the daemon.
#[derive(Debug)]
pub enum News {
    /// The content of the file that was read, if there is one.
    Content(Option<String>),
    Ran(CommandOutcome),
    /// Whether the name of the process is
    /// [`RECORDER`](crate::recording::RECORDER).
    Recorder(bool),
    Finished,
    Failed,
    Arrived(Signal),
}

/// The news of a search for a recorder that is over.
pub open spec fn recorder_told(p: NameProbe) -> Option<News> {
    match p {
        NameProbe::Decided(is) => Some(News::Recorder(is)),
        _ => None,
    }
}

/// The news of a search for a recorder that is over.
pub fn recorder_news(p: &NameProbe) -> (r: Option<News>)
    ensures
        r == recorder_told(*p),
{
    match p {
        NameProbe::Decided(is) => Some(News::Recorder(*is)),
        _ => None,
    }
}

/// The daemon.
#[derive(Debug, Clone, Copy)]
pub enum Daemon {
    /// Single-instance guard: another live daemon may own the PID file.
    ReadPid { own: u32 },
    AskAlive { pid: u32 },
    /// Handlers come before the PID file: the CLI only sends signals after it
    /// sees that file, and an unhandled one would kill the daemon.
    Register(Signal),
    /// A previous daemon may have died while it recorded.
    ReadLock,
    AskRecorder { pid: u32 },
    KillStale { pid: u32 },
    RemoveStaleLock,
    RemoveStaleAudio,
    WritePid,
    CheckEnvironment,
    Serving,
    Toggling,
    /// End the recorder and remove the files.
    EndReadLock,
    EndKill { pid: u32 },
    EndLock,
    EndPid,
    EndAudio,
    Done(Result<(), DaemonError>),
}

impl Daemon {
    /// What the daemon does next.
    pub open spec fn due(self) -> Duty<CommandView> {
        match self {
            Daemon::ReadPid { .. } => Duty::ReadPid,
            Daemon::AskAlive { pid } => Duty::Run(alive_question(pid)),
            Daemon::Register(s) => Duty::Register(s),
            Daemon::ReadLock => Duty::ReadLock,
            Daemon::AskRecorder { pid } => Duty::AskRecorder(pid),
            Daemon::KillStale { pid } => Duty::Run(kill_command(pid)),
            Daemon::RemoveStaleLock => Duty::RemoveLock,
            Daemon::RemoveStaleAudio => Duty::RemoveAudio,
            Daemon::WritePid => Duty::WritePid,
            Daemon::CheckEnvironment => Duty::CheckEnvironment,
            Daemon::Serving => Duty::AwaitSignal,
            Daemon::Toggling => Duty::Toggle,
            Daemon::EndReadLock => Duty::ReadLock,
            Daemon::EndKill { pid } => Duty::Run(kill_command(pid)),
            Daemon::EndLock => Duty::RemoveLock,
            Daemon::EndPid => Duty::RemovePid,
            Daemon::EndAudio => Duty::RemoveAudio,
            Daemon::Done(_) => Duty::Done,
        }
    }

    /// The state that news lead to.
    pub open spec fn after(self, n: News) -> Daemon {
        match (self, n) {
            (Daemon::ReadPid { own }, News::Content(content)) => match pid_in(opt_text(content)) {
                Some(pid) => if pid == own {
                    Daemon::Register(Signal::Usr1)
                } else {
                    Daemon::AskAlive { pid }
                },
                None => Daemon::Register(Signal::Usr1),
            },
            (Daemon::AskAlive { .. }, News::Ran(o)) => if o.succeeded() {
                Daemon::Done(Ok(()))
            } else {
                Daemon::Register(Signal::Usr1)
            },
            (Daemon::Register(s), News::Finished) => match s {
                Signal::Usr1 => Daemon::Register(Signal::Term),
                Signal::Term => Daemon::Register(Signal::Int),
                Signal::Int => Daemon::ReadLock,
            },
            (Daemon::Register(s), News::Failed) => Daemon::Done(Err(DaemonError::NoHandler(s))),
            (Daemon::ReadLock, News::Content(content)) => match pid_in(opt_text(content)) {
                Some(pid) => Daemon::AskRecorder { pid },
                None => Daemon::RemoveStaleLock,
            },
            (Daemon::AskRecorder { pid }, News::Recorder(is)) => if is {
                Daemon::KillStale { pid }
            } else {
                Daemon::RemoveStaleLock
            },
            (Daemon::KillStale { .. }, News::Ran(_)) => Daemon::RemoveStaleLock,
            (Daemon::RemoveStaleLock, News::Finished) => Daemon::RemoveStaleAudio,
            (Daemon::RemoveStaleAudio, News::Finished) => Daemon::WritePid,
            (Daemon::WritePid, News::Finished) => Daemon::CheckEnvironment,
            (Daemon::WritePid, News::Failed) => Daemon::Done(Err(DaemonError::PidNotWritten)),
            (Daemon::CheckEnvironment, News::Finished) => Daemon::Serving,
            (Daemon::Serving, News::Arrived(s)) => match s {
                Signal::Usr1 => Daemon::Toggling,
                Signal::Term | Signal::Int => Daemon::EndReadLock,
            },
            (Daemon::Toggling, News::Finished) => Daemon::Serving,
            (Daemon::EndReadLock, News::Content(content)) => match pid_in(opt_text(content)) {
                Some(pid) => Daemon::EndKill { pid },
                None => Daemon::EndLock,
            },
            (Daemon::EndKill { .. }, News::Ran(_)) => Daemon::EndLock,
            (Daemon::EndLock, News::Finished) => Daemon::EndPid,
            (Daemon::EndPid, News::Finished) => Daemon::EndAudio,
            (Daemon::EndAudio, News::Finished) => Daemon::Done(Ok(())),
            _ => self,
        }
    }

    /// The daemon from its beginning, with its own process number.
    pub fn run_daemon(own: u32) -> (r: Daemon)
        ensures
            r == (Daemon::ReadPid { own }),
    {
        Daemon::ReadPid { own }
    }

    /// What the daemon does next.
    pub fn action(&self) -> (r: Duty<CommandSpec>)
        ensures
            duty_view(r) == self.due(),
    {
        match self {
            Daemon::ReadPid { .. } => Duty::ReadPid,
            Daemon::AskAlive { pid } => Duty::Run(process_alive(*pid)),
            Daemon::Register(s) => Duty::Register(*s),
            Daemon::ReadLock => Duty::ReadLock,
            Daemon::AskRecorder { pid } => Duty::AskRecorder(*pid),
            Daemon::KillStale { pid } => Duty::Run(kill_process(*pid)),
            Daemon::RemoveStaleLock => Duty::RemoveLock,
            Daemon::RemoveStaleAudio => Duty::RemoveAudio,
            Daemon::WritePid => Duty::WritePid,
            Daemon::CheckEnvironment => Duty::CheckEnvironment,
            Daemon::Serving => Duty::AwaitSignal,
            Daemon::Toggling => Duty::Toggle,
            Daemon::EndReadLock => Duty::ReadLock,
            Daemon::EndKill { pid } => Duty::Run(kill_process(*pid)),
            Daemon::EndLock => Duty::RemoveLock,
            Daemon::EndPid => Duty::RemovePid,
            Daemon::EndAudio => Duty::RemoveAudio,
            Daemon::Done(_) => Duty::Done,
        }
    }

    /// The state that news lead to.
    pub fn next(self, n: &News) -> (r: Daemon)
        ensures
            r == self.after(*n),
    {
        match (self, n) {
            (Daemon::ReadPid { own }, News::Content(content)) => match daemon_pid(content) {
                Some(pid) => {
                    if pid == own {
                        Daemon::Register(Signal::Usr1)
                    } else {
                        Daemon::AskAlive { pid }
                    }
                },
                None => Daemon::Register(Signal::Usr1),
            },
            (Daemon::AskAlive { .. }, News::Ran(o)) => {
                if o.is_success() {
                    Daemon::Done(Ok(()))
                } else {
                    Daemon::Register(Signal::Usr1)
                }
            },
            (Daemon::Register(s), News::Finished) => match s {
                Signal::Usr1 => Daemon::Register(Signal::Term),
                Signal::Term => Daemon::Register(Signal::Int),
                Signal::Int => Daemon::ReadLock,
            },
            (Daemon::Register(s), News::Failed) => Daemon::Done(Err(DaemonError::NoHandler(s))),
            (Daemon::ReadLock, News::Content(content)) => match read_pid(content) {
                Some(pid) => Daemon::AskRecorder { pid },
                None => Daemon::RemoveStaleLock,
            },
            (Daemon::AskRecorder { pid }, News::Recorder(is)) => {
                if *is {
                    Daemon::KillStale { pid }
                } else {
                    Daemon::RemoveStaleLock
                }
            },
            (Daemon::KillStale { .. }, News::Ran(_)) => Daemon::RemoveStaleLock,
            (Daemon::RemoveStaleLock, News::Finished) => Daemon::RemoveStaleAudio,
            (Daemon::RemoveStaleAudio, News::Finished) => Daemon::WritePid,
            (Daemon::WritePid, News::Finished) => Daemon::CheckEnvironment,
            (Daemon::WritePid, News::Failed) => Daemon::Done(Err(DaemonError::PidNotWritten)),
            (Daemon::CheckEnvironment, News::Finished) => Daemon::Serving,
            (Daemon::Serving, News::Arrived(s)) => match s {
                Signal::Usr1 => Daemon::Toggling,
                Signal::Term | Signal::Int => Daemon::EndReadLock,
            },
            (Daemon::Toggling, News::Finished) => Daemon::Serving,
            (Daemon::EndReadLock, News::Content(content)) => match read_pid(content) {
                Some(pid) => Daemon::EndKill { pid },
                None => Daemon::EndLock,
            },
            (Daemon::EndKill { .. }, News::Ran(_)) => Daemon::EndLock,
            (Daemon::EndLock, News::Finished) => Daemon::EndPid,
            (Daemon::EndPid, News::Finished) => Daemon::EndAudio,
            (Daemon::EndAudio, News::Finished) => Daemon::Done(Ok(())),
            (s, _) => s,
        }
    }
}

// ── Laws ──────────────────────────────────────────────────────────

impl Daemon {
    /// The state after a list of news.
    pub open spec fn run(self, news: Seq<News>) -> Daemon
        decreases news.len(),
    {
        if news.len() == 0 {
            self
        } else {
            self.run(news.drop_last()).after(news.last())
        }
    }

    /// In the course of the news the daemon had this duty and did it.
    pub open spec fn did(self, news: Seq<News>, duty: Duty<CommandView>) -> bool {
        exists|i: int| #[trigger] self.did_at(news, duty, i)
    }

    /// News `i` say that this duty was done.
    pub open spec fn did_at(self, news: Seq<News>, duty: Duty<CommandView>, i: int) -> bool {
        0 <= i < news.len() && self.run(news.take(i)).due() == duty && news[i] is Finished
    }
}

proof fn lemma_what_was_done_stays_done(s: Daemon, news: Seq<News>)
    requires
        news.len() > 0,
    ensures
        forall|d: Duty<CommandView>| s.did(news.drop_last(), d) ==> #[trigger] s.did(news, d),
        news.last() is Finished ==> s.did(news, s.run(news.drop_last()).due()),
{
    let before = news.drop_last();
    let n = news.len() - 1;
    assert forall|d: Duty<CommandView>| s.did(before, d) implies #[trigger] s.did(news, d) by {
        let i = choose|i: int| #[trigger] s.did_at(before, d, i);
        assert(before.take(i) =~= news.take(i));
        assert(s.did_at(news, d, i));
    }
    if news.last() is Finished {
        assert(news.take(n) =~= before);
        assert(s.did_at(news, s.run(before).due(), n));
    }
}

impl Daemon {
    /// How far the daemon has come: the handlers, the PID file, the end.
    spec fn progress(self) -> int {
        match self {
            Daemon::ReadPid { .. } | Daemon::AskAlive { .. } | Daemon::Register(Signal::Usr1) => 0,
            Daemon::Register(Signal::Term) => 1,
            Daemon::Register(Signal::Int) => 2,
            Daemon::ReadLock | Daemon::AskRecorder { .. } | Daemon::KillStale { .. }
            | Daemon::RemoveStaleLock => 3,
            Daemon::RemoveStaleAudio => 4,
            Daemon::WritePid => 5,
            Daemon::CheckEnvironment | Daemon::Serving | Daemon::Toggling | Daemon::EndReadLock
            | Daemon::EndKill { .. } | Daemon::EndLock => 6,
            Daemon::EndPid => 7,
            Daemon::EndAudio => 8,
            Daemon::Done(_) => 0,
        }
    }
}

proof fn lemma_order_of_duties(own: u32, news: Seq<News>)
    ensures
        ({
            let s = Daemon::ReadPid { own };
            let p = s.run(news).progress();
            &&& p >= 1 ==> s.did(news, Duty::Register(Signal::Usr1))
            &&& p >= 2 ==> s.did(news, Duty::Register(Signal::Term))
            &&& p >= 3 ==> s.did(news, Duty::Register(Signal::Int))
            &&& p >= 5 ==> s.did(news, Duty::RemoveLock) && s.did(news, Duty::RemoveAudio)
            &&& p >= 6 ==> s.did(news, Duty::WritePid)
        }),
    decreases news.len(),
{
    if news.len() > 0 {
        lemma_order_of_duties(own, news.drop_last());
        let s = Daemon::ReadPid { own };
        lemma_what_was_done_stays_done(s, news);
        let t = s.run(news.drop_last());
        if t is RemoveStaleLock && s.run(news) is RemoveStaleAudio {
            assert(s.did(news, Duty::RemoveLock));
        }
        lemma_stale_lock_first(own, news);
    }
}

proof fn lemma_stale_lock_first(own: u32, news: Seq<News>)
    ensures
        ({
            let s = Daemon::ReadPid { own };
            s.run(news).progress() >= 4 ==> s.did(news, Duty::RemoveLock)
        }),
    decreases news.len(),
{
    if news.len() > 0 {
        lemma_stale_lock_first(own, news.drop_last());
        lemma_what_was_done_stays_done(Daemon::ReadPid { own }, news);
    }
}

/// A toggle finds its handler: the PID file, which tells the CLI that the
/// daemon is ready, is written only after the handlers of all signals are
/// installed and what an earlier daemon left behind is removed.
pub proof fn handlers_come_before_the_pid_file(own: u32, news: Seq<News>)
    ensures
        ({
            let s = Daemon::ReadPid { own };
            s.run(news).due() is WritePid || s.did(news, Duty::WritePid) ==> {
                &&& s.did(news, Duty::Register(Signal::Usr1))
                &&& s.did(news, Duty::Register(Signal::Term))
                &&& s.did(news, Duty::Register(Signal::Int))
                &&& s.did(news, Duty::RemoveLock)
                &&& s.did(news, Duty::RemoveAudio)
            }
        }),
    decreases news.len(),
{
    let s = Daemon::ReadPid { own };
    lemma_order_of_duties(own, news);
    if news.len() > 0 && s.did(news, Duty::WritePid) && !(s.run(news).due() is WritePid) {
        let i = choose|i: int| #[trigger] s.did_at(news, Duty::WritePid, i);
        let early = news.take(i);
        lemma_order_of_duties(own, early);
        assert forall|d: Duty<CommandView>| s.did(early, d) implies #[trigger] s.did(news, d) by {
            let k = choose|k: int| #[trigger] s.did_at(early, d, k);
            assert(early.take(k) =~= news.take(k));
            assert(s.did_at(news, d, k));
        }
    }
}

/// No two daemons: where the PID file names another process that is alive, the
/// daemon ends without having done anything.
pub proof fn a_second_daemon_ends_at_once(
    own: u32,
    content: Option<String>,
    pid: u32,
    alive: CommandOutcome,
    news: Seq<News>,
)
    requires
        pid_in(opt_text(content)) == Some(pid),
        pid != own,
        alive.succeeded(),
        news.len() >= 2,
        news[0] == News::Content(content),
        news[1] == News::Ran(alive),
    ensures
        (Daemon::ReadPid { own }).run(news) == Daemon::Done(Ok(())),
        !(Daemon::ReadPid { own }).did(news, Duty::WritePid),
    decreases news.len(),
{
    let s = Daemon::ReadPid { own };
    let n = news.len() - 1;
    if news.len() == 2 {
        assert(news.drop_last().drop_last() =~= Seq::empty());
        assert(s.run(Seq::empty()) == s);
        assert(news.drop_last().last() == news[0]);
        assert(s.run(news.drop_last()) == (Daemon::AskAlive { pid }));
    } else {
        a_second_daemon_ends_at_once(own, content, pid, alive, news.drop_last());
    }
    assert(!s.did(news, Duty::WritePid)) by {
        if s.did(news, Duty::WritePid) {
            let i = choose|i: int| #[trigger] s.did_at(news, Duty::WritePid, i);
            if i < n {
                if news.len() == 2 {
                    assert(news.take(0) =~= Seq::empty());
                    assert(s.run(Seq::empty()) == s);
                } else {
                    assert(news.take(i) =~= news.drop_last().take(i));
                    assert(s.did_at(news.drop_last(), Duty::WritePid, i));
                }
            } else {
                assert(news.take(n) =~= news.drop_last());
            }
        }
    }
}

/// A process is killed at the start only if it is a recorder: the number in a
/// stale lock file may have passed to another process.
pub proof fn only_a_recorder_is_killed_at_the_start(s: Daemon, n: News)
    ensures
        s.after(n) matches Daemon::KillStale { pid } ==> s.after(n) == s || (s
            == (Daemon::AskRecorder { pid }) && n == News::Recorder(true)),
{
}

/// The process in a stale lock file is killed exactly where the search finds
/// that it is a recorder.
pub proof fn a_stale_recorder_is_killed(pid: u32, comm: Option<Seq<char>>, ps: CommandOutcome)
    ensures
        ({
            let p = (NameProbe::ReadComm { pid }).after_comm(comm, RECORDER@).after_ps(
                ps,
                RECORDER@,
            );
            recorder_told(p) matches Some(n) && (Daemon::AskRecorder { pid }).after(n)
                == if is_recorder(comm, ps) {
                Daemon::KillStale { pid }
            } else {
                Daemon::RemoveStaleLock
            }
        }),
{
}

/// A daemon that served goes only by a signal to end, and then it has removed
/// its lock, its PID file and its audio.
pub proof fn a_daemon_cleans_up(news: Seq<News>)
    ensures
        ({
            let s = Daemon::Serving;
            match s.run(news) {
                Daemon::Serving | Daemon::Toggling => true,
                Daemon::EndReadLock | Daemon::EndKill { .. } | Daemon::EndLock => true,
                Daemon::EndPid => s.did(news, Duty::RemoveLock),
                Daemon::EndAudio => s.did(news, Duty::RemoveLock) && s.did(news, Duty::RemovePid),
                Daemon::Done(r) => {
                    &&& r == Ok::<(), DaemonError>(())
                    &&& s.did(news, Duty::RemoveLock)
                    &&& s.did(news, Duty::RemovePid)
                    &&& s.did(news, Duty::RemoveAudio)
                },
                _ => false,
            }
        }),
    decreases news.len(),
{
    if news.len() > 0 {
        a_daemon_cleans_up(news.drop_last());
        lemma_what_was_done_stays_done(Daemon::Serving, news);
    }
}

/// A notification shows its summary and its body, in the name of the program,
/// and cannot hold anything up for longer than two seconds.
pub proof fn a_notification_shows_its_text(summary: Seq<char>, body: Seq<char>)
    ensures
        ({
            let c = notify_command(summary, body);
            &&& c.argv[0] == "notify-send"@
            &&& c.argv[c.argv.len() - 2] == summary
            &&& c.argv.last() == body
            &&& c.argv[1] == "-a"@
            &&& c.argv[2] == "voxtype"@
            &&& c.argv.len() == 5
            &&& c.limit_ms == Some(2000u64)
            &&& c.input is Inherited
            &&& !c.capture
        }),
{
}

/// The user is told what came of a toggle: how many characters were pasted, that
/// a recording runs, or the words of the error.
pub proof fn the_user_is_told_what_came_of_it(text: String, e: StopError, f: RecordError)
    ensures
        Outcome::Pasted(text).words() == "Pasted "@ + decimal(text@.len()) + " chars ✓"@,
        Outcome::NotPasted(e).words() == e.words(),
        Outcome::Recording.words() == "Recording..."@,
        has_text(Outcome::NotRecording(f).words(), f.words()),
        has_text(Outcome::NotRecording(f).words(), "Recording failed"@),
{
    let none = Seq::<char>::empty();
    let start = "Recording failed: "@;
    a_part_stands_in_the_whole(start, f.words(), none);
    assert(start + f.words() + none =~= start + f.words());
    reveal_strlit("Recording failed: ");
    reveal_strlit("Recording failed");
    let words = start + f.words();
    assert(words.subrange(0, 16) =~= "Recording failed"@);
    assert(occurs_at(words, "Recording failed"@, 0));
}

/// A toggle that ends a recording announces the transcription first. What it
/// tells at its end is the outcome: the text that was injected, or the error of
/// whichever part failed.
pub proof fn a_toggle_tells_the_outcome(
    s: StopRecording,
    t: StartRecording,
    r: Report,
    text: String,
    e: StopError,
    f: RecordError,
)
    ensures
        Toggle::first(true).due() == Step::<CommandView, Seq<char>>::Notify("Transcribing..."@),
        Toggle::first(true).after(Report::Finished).due() is ReadLock,
        Toggle::first(true).after(Report::Finished) == Toggle::Stopping(StopRecording::ReadLock),
        Toggle::first(false) == Toggle::Starting(StartRecording::ReadLock),
        s.after(r) == StopRecording::Done(Ok(text)) ==> Toggle::Stopping(s).after(r).due() == Step::<
            CommandView,
            Seq<char>,
        >::Notify(Outcome::Pasted(text).words()),
        s.after(r) == StopRecording::Done(Err(e)) ==> Toggle::Stopping(s).after(r).due() == Step::<
            CommandView,
            Seq<char>,
        >::Notify(e.words()),
        s.after(r) !is Done ==> Toggle::Stopping(s).after(r).due() == s.after(r).due(),
        t.after(r) == StartRecording::Done(Ok(())) ==> Toggle::Starting(t).after(r).due() == Step::<
            CommandView,
            Seq<char>,
        >::Notify("Recording..."@),
        t.after(r) == StartRecording::Done(Err(f)) ==> Toggle::Starting(t).after(r).due() == Step::<
            CommandView,
            Seq<char>,
        >::Notify(Outcome::NotRecording(f).words()),
        t.after(r) !is Done ==> Toggle::Starting(t).after(r).due() == t.after(r).due(),
{
}

/// A daemon counts as running exactly where the PID file has a number and the
/// process of that number is alive, which is asked of that process.
pub proof fn a_daemon_runs_where_its_process_is_alive(
    content: Option<Seq<char>>,
    pid: u32,
    alive: CommandOutcome,
)
    ensures
        DaemonProbe::first(content).after(alive) == DaemonProbe::Decided(
            pid_in(content) is Some && alive.succeeded(),
        ),
        pid_in(content) == Some(pid) ==> DaemonProbe::first(content).due() == Some(
            alive_question(pid),
        ),
        alive_question(pid).argv == seq!["kill"@, "-0"@, decimal(pid as nat)],
        alive_question(pid).input is Empty,
{
}

/// The daemon serves one signal by a toggle and goes on; the two signals to end
/// make it read the lock file, tell a recorder that it names to end, and then
/// clean up.
pub proof fn the_daemon_serves_its_signals(
    lock: Option<String>,
    pid: u32,
    o: CommandOutcome,
)
    ensures
        Daemon::Serving.due() is AwaitSignal,
        Daemon::Serving.after(News::Arrived(Signal::Usr1)).due() is Toggle,
        Daemon::Toggling.after(News::Finished) == Daemon::Serving,
        Daemon::Serving.after(News::Arrived(Signal::Term)).due() is ReadLock,
        Daemon::Serving.after(News::Arrived(Signal::Int)) == Daemon::Serving.after(
            News::Arrived(Signal::Term),
        ),
        pid_in(opt_text(lock)) == Some(pid) ==> Daemon::Serving.after(
            News::Arrived(Signal::Term),
        ).after(News::Content(lock)).due() == Duty::<CommandView>::Run(kill_command(pid)),
        pid_in(opt_text(lock)) is None ==> Daemon::Serving.after(
            News::Arrived(Signal::Term),
        ).after(News::Content(lock)).due() is RemoveLock,
        (Daemon::EndKill { pid }).after(News::Ran(o)).due() is RemoveLock,
{
}

/// The daemon comes up where no other is alive: where the PID file names no
/// process, its own, or one that is gone. A handler that cannot be installed,
/// or a PID file that cannot be written, ends it with the error for it.
pub proof fn the_daemon_comes_up_alone(
    own: u32,
    content: Option<String>,
    pid: u32,
    alive: CommandOutcome,
    signal: Signal,
)
    ensures
        ({
            let s = Daemon::ReadPid { own };
            let t = s.after(News::Content(content));
            &&& s.due() is ReadPid
            &&& pid_in(opt_text(content)) is None ==> t == Daemon::Register(Signal::Usr1)
            &&& pid_in(opt_text(content)) == Some(own) ==> t == Daemon::Register(Signal::Usr1)
            &&& pid_in(opt_text(content)) == Some(pid) && pid != own ==> {
                &&& t.due() == Duty::<CommandView>::Run(alive_question(pid))
                &&& !alive.succeeded() ==> t.after(News::Ran(alive)) == Daemon::Register(
                    Signal::Usr1,
                )
                &&& alive.succeeded() ==> t.after(News::Ran(alive)) == Daemon::Done(Ok(()))
            }
        }),
        Daemon::Register(signal).after(News::Failed) == Daemon::Done(
            Err(DaemonError::NoHandler(signal)),
        ),
        Daemon::WritePid.after(News::Failed) == Daemon::Done(Err(DaemonError::PidNotWritten)),
        Daemon::WritePid.after(News::Finished).due() is CheckEnvironment,
        Daemon::CheckEnvironment.after(News::Finished) == Daemon::Serving,
{
}

/// A recorder that a daemon left behind is looked for by the number in the lock
/// file, and told to end by that number.
pub proof fn a_recorder_left_behind_is_looked_for(
    lock: Option<String>,
    pid: u32,
    o: CommandOutcome,
)
    ensures
        pid_in(opt_text(lock)) == Some(pid) ==> Daemon::ReadLock.after(News::Content(lock)).due()
            == Duty::<CommandView>::AskRecorder(pid),
        pid_in(opt_text(lock)) is None ==> Daemon::ReadLock.after(News::Content(lock)).due()
            is RemoveLock,
        (Daemon::KillStale { pid }).due() == Duty::<CommandView>::Run(kill_command(pid)),
        (Daemon::KillStale { pid }).after(News::Ran(o)).due() is RemoveLock,
{
}

/// The errors of a start name the signal.
pub proof fn a_missing_handler_is_named(signal: Signal)
    ensures
        DaemonError::NoHandler(signal).words() == "Failed to setup SIG"@
            + crate::cli::signal_word(signal) + " handler"@,
        DaemonError::PidNotWritten.words() == "Failed to write PID file"@,
{
    reveal_strlit("Failed to setup SIG");
    reveal_strlit(" handler");
    match signal {
        Signal::Usr1 => {
            reveal_strlit("USR1");
            reveal_strlit("Failed to setup SIGUSR1 handler");
        },
        Signal::Term => {
            reveal_strlit("TERM");
            reveal_strlit("Failed to setup SIGTERM handler");
        },
        Signal::Int => {
            reveal_strlit("INT");
            reveal_strlit("Failed to setup SIGINT handler");
        },
    }
    assert(DaemonError::NoHandler(signal).words() =~= "Failed to setup SIG"@
        + crate::cli::signal_word(signal) + " handler"@);
}

/// The value of a duty shows it as it is.
pub proof fn a_duty_is_shown_as_it_is(d: Duty<CommandSpec>)
    ensures
        d is ReadPid ==> duty_view(d) is ReadPid,
        d matches Duty::Run(c) ==> duty_view(d) == Duty::Run(c@),
        d matches Duty::Register(s) ==> duty_view(d) == Duty::<CommandView>::Register(s),
        d is ReadLock ==> duty_view(d) is ReadLock,
        d matches Duty::AskRecorder(pid) ==> duty_view(d) == Duty::<CommandView>::AskRecorder(pid),
        d is RemoveLock ==> duty_view(d) is RemoveLock,
        d is RemoveAudio ==> duty_view(d) is RemoveAudio,
        d is WritePid ==> duty_view(d) is WritePid,
        d is CheckEnvironment ==> duty_view(d) is CheckEnvironment,
        d is AwaitSignal ==> duty_view(d) is AwaitSignal,
        d is Toggle ==> duty_view(d) is Toggle,
        d is RemovePid ==> duty_view(d) is RemovePid,
        d is Done ==> duty_view(d) is Done,
{
}

}
