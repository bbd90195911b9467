//! Starting a recording, and stopping it again: what is to be done with the
//! recorder, its files and the recorded audio.

use crate::command::{
    lookup, lookup_command, overdue, CommandOutcome, CommandSpec, CommandView, Input,
};
use crate::config::Config;
use crate::environment::{detect_audio_system, require_tool, tool_question, AudioProbe, AudioSystem};
use crate::fallback::{Progress, Transcription};
use crate::inject::{InjectError, Injection};
use crate::paste::WtypePaste;
use crate::text::{
    a_part_stands_in_the_whole, a_written_number_is_read_back, blank, decimal, decimal_string,
    has_text, opt_text, owned, parse_u32, parsed_number, same_text, texts, trim, trimmed,
    trimmed_is_empty_iff_blank,
};
use crate::x11::{printed, printed_text, process_query, process_question};
use vstd::prelude::*;

verus! {

// ── Files and processes ───────────────────────────────────────────

/// The process number of the daemon.
pub const PIDFILE: &'static str = "/tmp/voxtype.pid";

/// The process number of the recorder, while it records.
pub const LOCKFILE: &'static str = "/tmp/voxtype.lock";

/// The recorded audio.
pub const AUDIO_FILE: &'static str = "/tmp/voxtype.mp3";

/// The name of the process that records.
pub const RECORDER: &'static str = "ffmpeg";

/// The process number in a file, if there is a file with one.
pub open spec fn pid_in(content: Option<Seq<char>>) -> Option<u32> {
    match content {
        Some(s) => match parsed_number(trimmed(s), u32::MAX as nat) {
            Some(n) => Some(n as u32),
            None => None,
        },
        None => None,
    }
}

/// The process number in a file, if there is a file with one.
pub fn read_pid(content: &Option<String>) -> (r: Option<u32>)
    ensures
        r == pid_in(opt_text(*content)),
{
    match content {
        Some(s) => parse_u32(trim(s.as_str())),
        None => None,
    }
}

/// The command that ends a process.
pub open spec fn kill_command(pid: u32) -> CommandView {
    lookup(seq!["kill"@, decimal(pid as nat)], None)
}

/// The command that ends a process.
pub fn kill_process(pid: u32) -> (r: CommandSpec)
    ensures
        r@ == kill_command(pid),
{
    let number = decimal_string(pid as u64);
    let argv = owned(vec!["kill", number.as_str()]);
    assert(texts(argv@) =~= seq!["kill"@, decimal(pid as nat)]);
    lookup_command(argv, None)
}

/// The search whether a process has a name.
#[derive(Debug, Clone, Copy, PartialEq, Eq, Structural)]
pub enum NameProbe {
    /// Read what the system keeps of the process.
    ReadComm { pid: u32 },
    /// That is specific to Linux; `ps` is the portable fallback.
    AskPs { pid: u32 },
    Decided(bool),
}

impl NameProbe {
    /// The search by the content of a lock file: without a process there is
    /// no name.
    pub open spec fn of_lock(content: Option<Seq<char>>) -> NameProbe {
        match pid_in(content) {
            Some(pid) => NameProbe::ReadComm { pid },
            None => NameProbe::Decided(false),
        }
    }

    /// The state after the file of the system was read, if it could be.
    pub open spec fn after_comm(self, comm: Option<Seq<char>>, name: Seq<char>) -> NameProbe {
        match self {
            NameProbe::ReadComm { pid } => match comm {
                Some(c) => NameProbe::Decided(trimmed(c) == name),
                None => NameProbe::AskPs { pid },
            },
            _ => self,
        }
    }

    /// The state after the reply of `ps`.
    pub open spec fn after_ps(self, outcome: CommandOutcome, name: Seq<char>) -> NameProbe {
        match self {
            NameProbe::AskPs { .. } => NameProbe::Decided(printed(outcome) == Some(name)),
            _ => self,
        }
    }

    /// The search for the name of a process, from its beginning.
    pub fn is_process_named(pid: u32) -> (r: NameProbe)
        ensures
            r == (NameProbe::ReadComm { pid }),
    {
        NameProbe::ReadComm { pid }
    }

    /// The search whether the process in a lock file is still a recorder,
    /// that is, whether its name is [`RECORDER`]: go on with
    /// [`read_recorder_comm`](Self::read_recorder_comm) and
    /// [`next_recorder`](Self::next_recorder).
    pub fn is_ffmpeg_running(lock: &Option<String>) -> (r: NameProbe)
        ensures
            r == NameProbe::of_lock(opt_text(*lock)),
    {
        match read_pid(lock) {
            Some(pid) => NameProbe::is_process_named(pid),
            None => NameProbe::Decided(false),
        }
    }

    /// The file of the system that is to be read, if one is.
    pub fn comm_file(&self) -> (r: Option<String>)
        ensures
            opt_text(r) == match *self {
                NameProbe::ReadComm { pid } => Some("/proc/"@ + decimal(pid as nat) + "/comm"@),
                _ => None,
            },
    {
        match self {
            NameProbe::ReadComm { pid } => {
                let mut path = "/proc/".to_owned();
                path.append(decimal_string(*pid as u64).as_str());
                path.append("/comm");
                Some(path)
            },
            _ => None,
        }
    }

    /// The command that is to be run, if one is.
    pub fn command(&self) -> (r: Option<CommandSpec>)
        ensures
            match r {
                Some(c) => *self matches NameProbe::AskPs { pid } && c@ == process_question(
                    pid,
                    None,
                ),
                None => *self !is AskPs,
            },
    {
        match self {
            NameProbe::AskPs { pid } => Some(process_query(*pid, None)),
            _ => None,
        }
    }

    /// The state after the file of the system was read, if it could be.
    pub fn read_comm(self, comm: &Option<String>, name: &str) -> (r: NameProbe)
        ensures
            r == self.after_comm(opt_text(*comm), name@),
    {
        match self {
            NameProbe::ReadComm { pid } => match comm {
                Some(c) => NameProbe::Decided(same_text(trim(c.as_str()), name)),
                None => NameProbe::AskPs { pid },
            },
            s => s,
        }
    }

    /// The state after the reply of `ps`.
    pub fn next(self, outcome: &CommandOutcome, name: &str) -> (r: NameProbe)
        ensures
            r == self.after_ps(*outcome, name@),
    {
        match self {
            NameProbe::AskPs { .. } => match printed_text(outcome) {
                Some(s) => NameProbe::Decided(same_text(s.as_str(), name)),
                None => NameProbe::Decided(false),
            },
            s => s,
        }
    }

    /// The state of the search for a recorder after the file of the system was
    /// read, if it could be.
    pub fn read_recorder_comm(self, comm: &Option<String>) -> (r: NameProbe)
        ensures
            r == self.after_comm(opt_text(*comm), RECORDER@),
    {
        self.read_comm(comm, RECORDER)
    }

    /// The state of the search for a recorder after the reply of `ps`.
    pub fn next_recorder(self, outcome: &CommandOutcome) -> (r: NameProbe)
        ensures
            r == self.after_ps(*outcome, RECORDER@),
    {
        self.next(outcome, RECORDER)
    }
}

// ── Steps ─────────────────────────────────────────────────────────

/// What is to be done next.
#[derive(Debug)]
pub enum Step<C, S> {
    /// Read the lock file.
    ReadLock,
    /// Write a process number to the lock file.
    WriteLock(u32),
    RemoveLock,
    RemoveAudio,
    /// Run a command to its end.
    Run(C),
    /// Start a program and let it run.
    Spawn(C),
    /// Look whether the recorder still runs and whether there is audio.
    LookAtAudio,
    /// Let so many milliseconds pass.
    Sleep(u64),
    /// Ask for the size of the audio.
    MeasureAudio,
    LoadConfig,
    /// Have the audio transcribed.
    Transcribe,
    /// Put text into the focused window.
    Inject(S),
    /// Show the user a message.
    Notify(S),
    /// Nothing: it is over.
    Done,
}

/// A step as a mathematical value.
pub open spec fn step_view(s: Step<CommandSpec, String>) -> Step<CommandView, Seq<char>> {
    match s {
        Step::ReadLock => Step::ReadLock,
        Step::WriteLock(pid) => Step::WriteLock(pid),
        Step::RemoveLock => Step::RemoveLock,
        Step::RemoveAudio => Step::RemoveAudio,
        Step::Run(c) => Step::Run(c@),
        Step::Spawn(c) => Step::Spawn(c@),
        Step::LookAtAudio => Step::LookAtAudio,
        Step::Sleep(ms) => Step::Sleep(ms),
        Step::MeasureAudio => Step::MeasureAudio,
        Step::LoadConfig => Step::LoadConfig,
        Step::Transcribe => Step::Transcribe,
        Step::Inject(t) => Step::Inject(t@),
        Step::Notify(t) => Step::Notify(t@),
        Step::Done => Step::Done,
    }
}

/// What is reported of a step.
#[derive(Debug)]
pub enum Report {
    /// The content of the lock file, if there is one.
    Lock(Option<String>),
    /// It was done; where that cannot be told apart, it was tried.
    Finished,
    /// It could not be done.
    Failed,
    Ran(CommandOutcome),
    /// The program runs under this number.
    Spawned(u32),
    /// Whether the recorder runs, whether there is audio, and how long the
    /// wait has taken.
    Audio { recording: bool, exists: bool, elapsed_ms: u64 },
    Slept,
    /// The size of the audio, if there is any.
    Size(Option<u64>),
    /// The audio source that is configured, if one is; or why the
    /// configuration cannot be used.
    Config(Result<Option<String>, String>),
    /// The transcription, or why there is none.
    Transcribed(Result<String, String>),
    /// Whether the text was injected, or why not.
    Injected(Result<(), String>),
}

// ── Reports of what else is run ───────────────────────────────────

/// The report on the audio, once the search for the recorder is over.
pub open spec fn audio_seen(p: NameProbe, exists: bool, elapsed_ms: u64) -> Option<Report> {
    match p {
        NameProbe::Decided(recording) => Some(Report::Audio { recording, exists, elapsed_ms }),
        _ => None,
    }
}

/// The report on the audio, once the search for the recorder is over: whether
/// there is audio, and how long the wait has taken.
pub fn audio_report(p: &NameProbe, exists: bool, elapsed_ms: u64) -> (r: Option<Report>)
    ensures
        r == audio_seen(*p, exists, elapsed_ms),
{
    match p {
        NameProbe::Decided(recording) => Some(
            Report::Audio { recording: *recording, exists, elapsed_ms },
        ),
        _ => None,
    }
}

/// The report on a configuration that was loaded.
pub fn config_report(config: &Config) -> (r: Report)
    ensures
        r matches Report::Config(Ok(source)) && opt_text(source) == config@.audio_source,
{
    let source = match &config.audio_source {
        Some(s) => Some(s.clone()),
        None => None,
    };
    Report::Config(Ok(source))
}

/// A report says what came of a transcription: its text, or its error in
/// words. Of one that goes on there is no report.
pub open spec fn transcription_told(t: Progress, config_path: Option<Seq<char>>, r: Report) -> bool {
    match t {
        Progress::Done(Ok(text)) => r matches Report::Transcribed(Ok(s)) && s@ == text,
        Progress::Done(Err(e)) => r matches Report::Transcribed(Err(why)) && why@ == e.words(
            config_path,
        ),
        Progress::Calling { .. } => false,
    }
}

/// The report on a transcription that is over; `config_path` is the place of
/// the configuration file, if it is known.
pub fn transcription_report(t: Transcription, config_path: Option<&str>) -> (r: Option<Report>)
    ensures
        match r {
            Some(told) => transcription_told(
                t@,
                match config_path {
                    Some(p) => Some(p@),
                    None => None,
                },
                told,
            ),
            None => t is Calling,
        },
{
    match t.result() {
        Some(result) => match result {
            Ok(text) => Some(Report::Transcribed(Ok(text))),
            Err(e) => Some(Report::Transcribed(Err(e.message(config_path)))),
        },
        None => None,
    }
}

/// A report says what came of an injection: that the text is there, or the
/// error in words.
pub open spec fn injection_told(result: Result<(), InjectError>, r: Report) -> bool {
    match result {
        Ok(_) => r == Report::Injected(Ok(())),
        Err(e) => r matches Report::Injected(Err(why)) && why@ == e.words(),
    }
}

/// The report on an injection that is over.
pub fn injection_report(i: &Injection<String, WtypePaste>) -> (r: Option<Report>)
    ensures
        match r {
            Some(told) => *i matches Injection::Done(result) && injection_told(result, told),
            None => *i !is Done,
        },
{
    match i {
        Injection::Done(result) => match result {
            Ok(_) => Some(Report::Injected(Ok(()))),
            Err(e) => Some(Report::Injected(Err(e.message()))),
        },
        _ => None,
    }
}

// ── Starting ──────────────────────────────────────────────────────

/// Why a recording did not start.
#[derive(Debug)]
pub enum RecordError {
    NoFfmpeg,
    PactlFailed(String),
    NoAudioSystem,
    NotSpawned,
    LockNotWritten,
}

impl RecordError {
    /// The words for the error.
    pub open spec fn words(self) -> Seq<char> {
        match self {
            RecordError::NoFfmpeg => "ffmpeg not found. Install: sudo apt install ffmpeg"@,
            RecordError::PactlFailed(why) => "pactl info failed ("@ + why@
                + "). Is PulseAudio/PipeWire running?\nTry: pulseaudio --start  or  systemctl --user start pipewire"@,
            RecordError::NoAudioSystem => "No audio system detected. Install one of:\n- sudo apt install pulseaudio pulseaudio-utils\n- sudo apt install pipewire pipewire-pulse wireplumber"@,
            RecordError::NotSpawned => "Failed to start ffmpeg recording (check microphone)"@,
            RecordError::LockNotWritten => "Failed to write lockfile"@,
        }
    }

    /// The message for the user.
    pub fn message(&self) -> (r: String)
        ensures
            r@ == self.words(),
    {
        match self {
            RecordError::NoFfmpeg => "ffmpeg not found. Install: sudo apt install ffmpeg".to_owned(),
            RecordError::PactlFailed(why) => {
                let mut m = "pactl info failed (".to_owned();
                m.append(why.as_str());
                m.append("). Is PulseAudio/PipeWire running?\nTry: pulseaudio --start  or  systemctl --user start pipewire");
                m
            },
            RecordError::NoAudioSystem => "No audio system detected. Install one of:\n- sudo apt install pulseaudio pulseaudio-utils\n- sudo apt install pipewire pipewire-pulse wireplumber".to_owned(),
            RecordError::NotSpawned => "Failed to start ffmpeg recording (check microphone)".to_owned(),
            RecordError::LockNotWritten => "Failed to write lockfile".to_owned(),
        }
    }
}

/// The command that records from an audio source: one channel at 16 kHz, at
/// 64 kbit/s, into the audio file.
pub open spec fn record_command(source: Option<String>) -> CommandView {
    CommandView {
        argv: seq![
            "ffmpeg"@,
            "-y"@,
            "-f"@,
            "pulse"@,
            "-i"@,
            match source {
                Some(s) => s@,
                None => "default"@,
            },
            "-ac"@,
            "1"@,
            "-ar"@,
            "16000"@,
            "-b:a"@,
            "64k"@,
            "-loglevel"@,
            "error"@,
            AUDIO_FILE@,
        ],
        input: Input::Inherited,
        capture: false,
        limit_ms: None,
    }
}

/// The command that records from an audio source.
pub fn ffmpeg_command(source: &Option<String>) -> (r: CommandSpec)
    ensures
        r@ == record_command(*source),
{
    let name = match source {
        Some(s) => s.as_str(),
        None => "default",
    };
    let argv = owned(
        vec![
            "ffmpeg",
            "-y",
            "-f",
            "pulse",
            "-i",
            name,
            "-ac",
            "1",
            "-ar",
            "16000",
            "-b:a",
            "64k",
            "-loglevel",
            "error",
            AUDIO_FILE,
        ],
    );
    assert(texts(argv@) =~= record_command(*source).argv);
    CommandSpec { argv, input: Input::Inherited, capture: false, limit_ms: None }
}

/// The start of a recording.
#[derive(Debug)]
pub enum StartRecording {
    /// A recorder may be left from before: end it and remove its audio.
    ReadLock,
    Kill { pid: u32 },
    RemoveAudio,
    AskFfmpeg,
    Audio(AudioProbe),
    /// Whether the audio server answers.
    CheckServer,
    LoadConfig,
    Spawn { source: Option<String> },
    WriteLock { pid: u32 },
    Done(Result<(), RecordError>),
}

impl StartRecording {
    /// A search is open wherever one is under way.
    pub open spec fn wf(self) -> bool {
        self matches StartRecording::Audio(p) ==> p !is Decided
    }

    /// What is to be done in this state.
    pub open spec fn due(self) -> Step<CommandView, Seq<char>> {
        match self {
            StartRecording::ReadLock => Step::ReadLock,
            StartRecording::Kill { pid } => Step::Run(kill_command(pid)),
            StartRecording::RemoveAudio => Step::RemoveAudio,
            StartRecording::AskFfmpeg => Step::Run(tool_question("ffmpeg"@, None)),
            StartRecording::Audio(p) => match p.due() {
                Some(c) => Step::Run(c),
                None => Step::Done,
            },
            StartRecording::CheckServer => Step::Run(lookup(seq!["pactl"@, "info"@], None)),
            StartRecording::LoadConfig => Step::LoadConfig,
            StartRecording::Spawn { source } => Step::Spawn(record_command(source)),
            StartRecording::WriteLock { pid } => Step::WriteLock(pid),
            StartRecording::Done(_) => Step::Done,
        }
    }

    /// The state that a report leads to. A configuration that cannot be used
    /// counts as one that sets nothing.
    pub open spec fn after(self, r: Report) -> StartRecording {
        match (self, r) {
            (StartRecording::ReadLock, Report::Lock(content)) => match pid_in(opt_text(content)) {
                Some(pid) => StartRecording::Kill { pid },
                None => StartRecording::RemoveAudio,
            },
            (StartRecording::Kill { .. }, Report::Ran(_)) => StartRecording::RemoveAudio,
            (StartRecording::RemoveAudio, Report::Finished) => StartRecording::AskFfmpeg,
            (StartRecording::AskFfmpeg, Report::Ran(o)) => if o.succeeded() {
                StartRecording::Audio(AudioProbe::AskPactl)
            } else {
                StartRecording::Done(Err(RecordError::NoFfmpeg))
            },
            (StartRecording::Audio(p), Report::Ran(o)) => match p.after(o) {
                AudioProbe::Decided(a) => if a == AudioSystem::Absent {
                    StartRecording::Done(Err(RecordError::NoAudioSystem))
                } else {
                    StartRecording::CheckServer
                },
                q => StartRecording::Audio(q),
            },
            (StartRecording::CheckServer, Report::Ran(o)) => match o {
                CommandOutcome::Failed(why) => StartRecording::Done(
                    Err(RecordError::PactlFailed(why)),
                ),
                _ => StartRecording::LoadConfig,
            },
            (StartRecording::LoadConfig, Report::Config(c)) => StartRecording::Spawn {
                source: match c {
                    Ok(source) => source,
                    Err(_) => None,
                },
            },
            (StartRecording::Spawn { .. }, Report::Spawned(pid)) => StartRecording::WriteLock {
                pid,
            },
            (StartRecording::Spawn { .. }, Report::Failed) => StartRecording::Done(
                Err(RecordError::NotSpawned),
            ),
            (StartRecording::WriteLock { .. }, Report::Finished) => StartRecording::Done(Ok(())),
            (StartRecording::WriteLock { .. }, Report::Failed) => StartRecording::Done(
                Err(RecordError::LockNotWritten),
            ),
            _ => self,
        }
    }

    /// The start of a recording, from its beginning.
    pub fn start_recording() -> (r: StartRecording)
        ensures
            r == StartRecording::ReadLock,
    {
        StartRecording::ReadLock
    }

    /// What is to be done in this state.
    pub fn action(&self) -> (r: Step<CommandSpec, String>)
        ensures
            step_view(r) == self.due(),
    {
        match self {
            StartRecording::ReadLock => Step::ReadLock,
            StartRecording::Kill { pid } => Step::Run(kill_process(*pid)),
            StartRecording::RemoveAudio => Step::RemoveAudio,
            StartRecording::AskFfmpeg => Step::Run(require_tool("ffmpeg", None)),
            StartRecording::Audio(p) => match p.command() {
                Some(c) => Step::Run(c),
                None => Step::Done,
            },
            StartRecording::CheckServer => {
                let argv = owned(vec!["pactl", "info"]);
                assert(texts(argv@) =~= seq!["pactl"@, "info"@]);
                Step::Run(lookup_command(argv, None))
            },
            StartRecording::LoadConfig => Step::LoadConfig,
            StartRecording::Spawn { source } => Step::Spawn(ffmpeg_command(source)),
            StartRecording::WriteLock { pid } => Step::WriteLock(*pid),
            StartRecording::Done(_) => Step::Done,
        }
    }

    /// The state that a report leads to.
    pub fn next(self, r: Report) -> (s: StartRecording)
        ensures
            s == self.after(r),
    {
        match (self, r) {
            (StartRecording::ReadLock, Report::Lock(content)) => match read_pid(&content) {
                Some(pid) => StartRecording::Kill { pid },
                None => StartRecording::RemoveAudio,
            },
            (StartRecording::Kill { .. }, Report::Ran(_)) => StartRecording::RemoveAudio,
            (StartRecording::RemoveAudio, Report::Finished) => StartRecording::AskFfmpeg,
            (StartRecording::AskFfmpeg, Report::Ran(o)) => {
                if o.is_success() {
                    StartRecording::Audio(detect_audio_system())
                } else {
                    StartRecording::Done(Err(RecordError::NoFfmpeg))
                }
            },
            (StartRecording::Audio(p), Report::Ran(o)) => match p.next(&o) {
                AudioProbe::Decided(a) => match a {
                    AudioSystem::Absent => StartRecording::Done(Err(RecordError::NoAudioSystem)),
                    _ => StartRecording::CheckServer,
                },
                q => StartRecording::Audio(q),
            },
            (StartRecording::CheckServer, Report::Ran(o)) => match o {
                CommandOutcome::Failed(why) => StartRecording::Done(
                    Err(RecordError::PactlFailed(why)),
                ),
                _ => StartRecording::LoadConfig,
            },
            (StartRecording::LoadConfig, Report::Config(c)) => match c {
                Ok(source) => StartRecording::Spawn { source },
                Err(_) => StartRecording::Spawn { source: None },
            },
            (StartRecording::Spawn { .. }, Report::Spawned(pid)) => StartRecording::WriteLock {
                pid,
            },
            (StartRecording::Spawn { .. }, Report::Failed) => StartRecording::Done(
                Err(RecordError::NotSpawned),
            ),
            (StartRecording::WriteLock { .. }, Report::Finished) => StartRecording::Done(Ok(())),
            (StartRecording::WriteLock { .. }, Report::Failed) => StartRecording::Done(
                Err(RecordError::LockNotWritten),
            ),
            (s, _) => s,
        }
    }
}

// ── Stopping ──────────────────────────────────────────────────────

/// The time that the recorder has to write its audio.
pub const FLUSH_TIMEOUT_MS: u64 = 400;

/// Pause between two looks at the audio.
pub const FLUSH_POLL_MS: u64 = 50;

/// Audio below this size holds no speech.
pub const MIN_AUDIO_BYTES: u64 = 1024;

/// Groq has a ~25 MB upload limit; anything approaching it is rejected early.
pub fn audio_too_large(len: u64) -> (r: bool)
    ensures
        r == (len > 20_000_000),
{
    len > 20_000_000
}

/// Why a recording did not end in pasted text.
#[derive(Debug)]
pub enum StopError {
    NoAudio,
    TooSmall(u64),
    /// The configuration cannot be used.
    Config(String),
    TooLarge(u64),
    /// No provider gave a transcription.
    Transcription(String),
    NoSpeech,
    /// The text was not injected.
    Injection(String),
}

impl StopError {
    /// The words for the error.
    pub open spec fn words(self) -> Seq<char> {
        match self {
            StopError::NoAudio => "No audio recorded. Recording may have been too brief."@,
            StopError::TooSmall(n) => "Audio file too small ("@ + decimal(n as nat)
                + " bytes). Check microphone:\n- Is your mic plugged in and selected as default?\n- Test: ffmpeg -f pulse -i default -ac 1 -ar 16000 -t 3 /tmp/test.mp3"@,
            StopError::Config(why) => why@,
            StopError::TooLarge(n) => "Audio file too large ("@ + decimal(n as nat / 1_000_000)
                + " MB). Maximum is ~20 MB.\nSpeak for a shorter duration or reduce bitrate."@,
            StopError::Transcription(why) => why@,
            StopError::NoSpeech => "Transcription returned empty (no speech detected)"@,
            StopError::Injection(why) => why@,
        }
    }

    /// The message for the user.
    pub fn message(&self) -> (r: String)
        ensures
            r@ == self.words(),
    {
        match self {
            StopError::NoAudio => "No audio recorded. Recording may have been too brief.".to_owned(),
            StopError::TooSmall(n) => {
                let mut m = "Audio file too small (".to_owned();
                m.append(decimal_string(*n).as_str());
                m.append(" bytes). Check microphone:\n- Is your mic plugged in and selected as default?\n- Test: ffmpeg -f pulse -i default -ac 1 -ar 16000 -t 3 /tmp/test.mp3");
                m
            },
            StopError::Config(why) => why.clone(),
            StopError::TooLarge(n) => {
                let mut m = "Audio file too large (".to_owned();
                m.append(decimal_string(*n / 1_000_000).as_str());
                m.append(" MB). Maximum is ~20 MB.\nSpeak for a shorter duration or reduce bitrate.");
                m
            },
            StopError::Transcription(why) => why.clone(),
            StopError::NoSpeech => "Transcription returned empty (no speech detected)".to_owned(),
            StopError::Injection(why) => why.clone(),
        }
    }
}

/// The end of a recording, up to the pasted text.
#[derive(Debug)]
pub enum StopRecording {
    /// End the recorder.
    ReadLock,
    Kill { pid: u32 },
    /// Wait for the audio: it is complete once the recorder is gone and there
    /// is some. The wait ends after its time in any case.
    Looking,
    Resting,
    RemoveLock,
    Measuring,
    LoadConfig { size: u64 },
    Transcribing,
    Injecting { text: String },
    /// Remove the audio, which is of no more use.
    RemoveAudio { outcome: Result<String, StopError> },
    Done(Result<String, StopError>),
}

impl StopRecording {
    /// What is to be done in this state.
    pub open spec fn due(self) -> Step<CommandView, Seq<char>> {
        match self {
            StopRecording::ReadLock => Step::ReadLock,
            StopRecording::Kill { pid } => Step::Run(kill_command(pid)),
            StopRecording::Looking => Step::LookAtAudio,
            StopRecording::Resting => Step::Sleep(FLUSH_POLL_MS),
            StopRecording::RemoveLock => Step::RemoveLock,
            StopRecording::Measuring => Step::MeasureAudio,
            StopRecording::LoadConfig { .. } => Step::LoadConfig,
            StopRecording::Transcribing => Step::Transcribe,
            StopRecording::Injecting { text } => Step::Inject(text@),
            StopRecording::RemoveAudio { .. } => Step::RemoveAudio,
            StopRecording::Done(_) => Step::Done,
        }
    }

    /// The state that a report leads to.
    pub open spec fn after(self, r: Report) -> StopRecording {
        match (self, r) {
            (StopRecording::ReadLock, Report::Lock(content)) => match pid_in(opt_text(content)) {
                Some(pid) => StopRecording::Kill { pid },
                None => StopRecording::Looking,
            },
            (StopRecording::Kill { .. }, Report::Ran(_)) => StopRecording::Looking,
            (StopRecording::Looking, Report::Audio { recording, exists, elapsed_ms }) => if (
            !recording && exists) || overdue(elapsed_ms, Some(FLUSH_TIMEOUT_MS)) {
                StopRecording::RemoveLock
            } else {
                StopRecording::Resting
            },
            (StopRecording::Resting, Report::Slept) => StopRecording::Looking,
            (StopRecording::RemoveLock, Report::Finished) => StopRecording::Measuring,
            (StopRecording::Measuring, Report::Size(size)) => match size {
                None => StopRecording::Done(Err(StopError::NoAudio)),
                Some(n) => if n < MIN_AUDIO_BYTES {
                    StopRecording::RemoveAudio { outcome: Err(StopError::TooSmall(n)) }
                } else {
                    StopRecording::LoadConfig { size: n }
                },
            },
            (StopRecording::LoadConfig { size }, Report::Config(c)) => match c {
                Err(why) => StopRecording::Done(Err(StopError::Config(why))),
                Ok(_) => if size > 20_000_000 {
                    StopRecording::RemoveAudio { outcome: Err(StopError::TooLarge(size)) }
                } else {
                    StopRecording::Transcribing
                },
            },
            (StopRecording::Transcribing, Report::Transcribed(t)) => match t {
                Err(why) => StopRecording::Done(Err(StopError::Transcription(why))),
                Ok(text) => if blank(text@) {
                    StopRecording::RemoveAudio { outcome: Err(StopError::NoSpeech) }
                } else {
                    StopRecording::Injecting { text }
                },
            },
            (StopRecording::Injecting { text }, Report::Injected(i)) => match i {
                Err(why) => StopRecording::Done(Err(StopError::Injection(why))),
                Ok(_) => StopRecording::RemoveAudio { outcome: Ok(text) },
            },
            (StopRecording::RemoveAudio { outcome }, Report::Finished) => StopRecording::Done(outcome),
            _ => self,
        }
    }

    /// The end of a recording, from its beginning.
    pub fn stop_and_transcribe() -> (r: StopRecording)
        ensures
            r == StopRecording::ReadLock,
    {
        StopRecording::ReadLock
    }

    /// What is to be done in this state.
    pub fn action(&self) -> (r: Step<CommandSpec, String>)
        ensures
            step_view(r) == self.due(),
    {
        match self {
            StopRecording::ReadLock => Step::ReadLock,
            StopRecording::Kill { pid } => Step::Run(kill_process(*pid)),
            StopRecording::Looking => Step::LookAtAudio,
            StopRecording::Resting => Step::Sleep(FLUSH_POLL_MS),
            StopRecording::RemoveLock => Step::RemoveLock,
            StopRecording::Measuring => Step::MeasureAudio,
            StopRecording::LoadConfig { .. } => Step::LoadConfig,
            StopRecording::Transcribing => Step::Transcribe,
            StopRecording::Injecting { text } => Step::Inject(text.clone()),
            StopRecording::RemoveAudio { .. } => Step::RemoveAudio,
            StopRecording::Done(_) => Step::Done,
        }
    }

    /// The state that a report leads to.
    pub fn next(self, r: Report) -> (s: StopRecording)
        ensures
            s == self.after(r),
    {
        match (self, r) {
            (StopRecording::ReadLock, Report::Lock(content)) => match read_pid(&content) {
                Some(pid) => StopRecording::Kill { pid },
                None => StopRecording::Looking,
            },
            (StopRecording::Kill { .. }, Report::Ran(_)) => StopRecording::Looking,
            (StopRecording::Looking, Report::Audio { recording, exists, elapsed_ms }) => {
                if (!recording && exists) || elapsed_ms >= FLUSH_TIMEOUT_MS {
                    StopRecording::RemoveLock
                } else {
                    StopRecording::Resting
                }
            },
            (StopRecording::Resting, Report::Slept) => StopRecording::Looking,
            (StopRecording::RemoveLock, Report::Finished) => StopRecording::Measuring,
            (StopRecording::Measuring, Report::Size(size)) => match size {
                None => StopRecording::Done(Err(StopError::NoAudio)),
                Some(n) => {
                    if n < MIN_AUDIO_BYTES {
                        StopRecording::RemoveAudio { outcome: Err(StopError::TooSmall(n)) }
                    } else {
                        StopRecording::LoadConfig { size: n }
                    }
                },
            },
            (StopRecording::LoadConfig { size }, Report::Config(c)) => match c {
                Err(why) => StopRecording::Done(Err(StopError::Config(why))),
                Ok(_) => {
                    if audio_too_large(size) {
                        StopRecording::RemoveAudio { outcome: Err(StopError::TooLarge(size)) }
                    } else {
                        StopRecording::Transcribing
                    }
                },
            },
            (StopRecording::Transcribing, Report::Transcribed(t)) => match t {
                Err(why) => StopRecording::Done(Err(StopError::Transcription(why))),
                Ok(text) => {
                    proof {
                        trimmed_is_empty_iff_blank(text@);
                    }
                    if trim(text.as_str()).is_empty() {
                        StopRecording::RemoveAudio { outcome: Err(StopError::NoSpeech) }
                    } else {
                        StopRecording::Injecting { text }
                    }
                },
            },
            (StopRecording::Injecting { text }, Report::Injected(i)) => match i {
                Err(why) => StopRecording::Done(Err(StopError::Injection(why))),
                Ok(_) => StopRecording::RemoveAudio { outcome: Ok(text) },
            },
            (StopRecording::RemoveAudio { outcome }, Report::Finished) => StopRecording::Done(outcome),
            (s, _) => s,
        }
    }
}

// ── Laws ──────────────────────────────────────────────────────────

/// A process is a recorder: by what the system keeps of it or, where that
/// cannot be read, by the reply of `ps`.
pub open spec fn is_recorder(comm: Option<Seq<char>>, ps: CommandOutcome) -> bool {
    match comm {
        Some(c) => trimmed(c) == RECORDER@,
        None => printed(ps) == Some(RECORDER@),
    }
}

/// The search for a recorder comes to an end: it finds one exactly where the
/// process has the name of a recorder, and none where the lock file names no
/// process.
pub proof fn a_recorder_is_found_by_its_name(
    lock: Option<Seq<char>>,
    pid: u32,
    comm: Option<Seq<char>>,
    ps: CommandOutcome,
)
    ensures
        (NameProbe::ReadComm { pid }).after_comm(comm, RECORDER@).after_ps(ps, RECORDER@)
            == NameProbe::Decided(is_recorder(comm, ps)),
        NameProbe::of_lock(lock).after_comm(comm, RECORDER@).after_ps(ps, RECORDER@)
            == NameProbe::Decided(pid_in(lock) is Some && is_recorder(comm, ps)),
{
}

/// The wait for the audio ends with the recorder: as soon as the lock file
/// names no recorder any more and there is audio. Otherwise it goes on until
/// its time is up.
pub proof fn the_wait_ends_with_the_recorder(
    lock: Option<Seq<char>>,
    comm: Option<Seq<char>>,
    ps: CommandOutcome,
    exists: bool,
    elapsed_ms: u64,
)
    ensures
        ({
            let p = NameProbe::of_lock(lock).after_comm(comm, RECORDER@).after_ps(ps, RECORDER@);
            let gone = !(pid_in(lock) is Some && is_recorder(comm, ps));
            audio_seen(p, exists, elapsed_ms) matches Some(r) && StopRecording::Looking.after(r)
                == if (gone && exists) || elapsed_ms >= FLUSH_TIMEOUT_MS {
                StopRecording::RemoveLock
            } else {
                StopRecording::Resting
            }
        }),
{
}

/// What the providers gave is what is injected, unless it is blank; where
/// they gave nothing, the user is told why.
pub proof fn what_was_transcribed_is_injected(
    t: Progress,
    config_path: Option<Seq<char>>,
    r: Report,
)
    requires
        transcription_told(t, config_path, r),
    ensures
        match t {
            Progress::Done(Ok(text)) => if blank(text) {
                StopRecording::Transcribing.after(r) == (StopRecording::RemoveAudio {
                    outcome: Err(StopError::NoSpeech),
                })
            } else {
                StopRecording::Transcribing.after(r).due() == Step::<CommandView, Seq<char>>::Inject(
                    text,
                )
            },
            Progress::Done(Err(e)) => StopRecording::Transcribing.after(r) matches
                StopRecording::Done(Err(told)) && told.words() == e.words(config_path),
            Progress::Calling { .. } => false,
        },
{
}

/// Text that was injected ends the recording, and its audio is removed; where
/// it was not, the audio stays and the user is told why.
pub proof fn what_was_injected_ends_the_recording(
    text: String,
    result: Result<(), InjectError>,
    r: Report,
)
    requires
        injection_told(result, r),
    ensures
        match result {
            Ok(_) => (StopRecording::Injecting { text }).after(r) == (StopRecording::RemoveAudio {
                outcome: Ok(text),
            }),
            Err(e) => (StopRecording::Injecting { text }).after(r) matches StopRecording::Done(
                Err(told),
            ) && told.words() == e.words(),
        },
{
}

impl StartRecording {
    /// The state after a list of reports.
    pub open spec fn run(self, reports: Seq<Report>) -> StartRecording
        decreases reports.len(),
    {
        if reports.len() == 0 {
            self
        } else {
            self.run(reports.drop_last()).after(reports.last())
        }
    }

    /// The lock file was read, and a recorder that it named was ended.
    pub open spec fn old_recorder_ended(self, reports: Seq<Report>) -> bool {
        exists|i: int| #[trigger] self.lock_read_at(reports, i)
    }

    /// Report `i` is the content of the lock file, and a recorder that it
    /// names was ended after it.
    pub open spec fn lock_read_at(self, reports: Seq<Report>, i: int) -> bool {
        &&& 0 <= i < reports.len()
        &&& self.run(reports.take(i)) is ReadLock
        &&& reports[i] is Lock
        &&& forall|pid: u32|
            pid_in(opt_text(reports[i]->Lock_0)) == Some(pid) ==> #[trigger] self.killed_after(
                reports,
                i,
                pid,
            )
    }

    /// A report after report `i` says that the process was told to end.
    pub open spec fn killed_after(self, reports: Seq<Report>, i: int, pid: u32) -> bool {
        exists|j: int| #[trigger] self.killed_at(reports, j, pid) && i < j
    }

    /// Report `j` says that the process was told to end.
    pub open spec fn killed_at(self, reports: Seq<Report>, j: int, pid: u32) -> bool {
        &&& 0 <= j < reports.len()
        &&& self.run(reports.take(j)) == (StartRecording::Kill { pid })
        &&& reports[j] is Ran
    }

    /// The lock file was read, and names a recorder that is to be ended.
    spec fn lock_names(self, reports: Seq<Report>, pid: u32) -> bool {
        exists|i: int| #[trigger] self.lock_names_at(reports, pid, i)
    }

    spec fn lock_names_at(self, reports: Seq<Report>, pid: u32, i: int) -> bool {
        &&& 0 <= i < reports.len()
        &&& self.run(reports.take(i)) is ReadLock
        &&& reports[i] matches Report::Lock(content) && pid_in(opt_text(content)) == Some(pid)
    }
}

proof fn lemma_one_more_report(s: StartRecording, reports: Seq<Report>)
    requires
        reports.len() > 0,
    ensures
        s.old_recorder_ended(reports.drop_last()) ==> s.old_recorder_ended(reports),
        forall|pid: u32|
            s.lock_names(reports.drop_last(), pid) ==> #[trigger] s.lock_names(reports, pid),
{
    let before = reports.drop_last();
    if s.old_recorder_ended(before) {
        let i = choose|i: int| #[trigger] s.lock_read_at(before, i);
        assert(before.take(i) =~= reports.take(i));
        assert forall|pid: u32| pid_in(opt_text(reports[i]->Lock_0)) == Some(
            pid,
        ) implies #[trigger] s.killed_after(reports, i, pid) by {
            assert(s.killed_after(before, i, pid));
            let j = choose|j: int| #[trigger] s.killed_at(before, j, pid) && i < j;
            assert(before.take(j) =~= reports.take(j));
            assert(s.killed_at(reports, j, pid));
        }
        assert(s.lock_read_at(reports, i));
    }
    assert forall|pid: u32| s.lock_names(before, pid) implies #[trigger] s.lock_names(
        reports,
        pid,
    ) by {
        let i = choose|i: int| #[trigger] s.lock_names_at(before, pid, i);
        assert(before.take(i) =~= reports.take(i));
        assert(s.lock_names_at(reports, pid, i));
    }
}

proof fn lemma_start_order(reports: Seq<Report>)
    ensures
        ({
            let s = StartRecording::ReadLock;
            match s.run(reports) {
                StartRecording::ReadLock => true,
                StartRecording::Kill { pid } => s.lock_names(reports, pid),
                _ => s.old_recorder_ended(reports),
            }
        }),
    decreases reports.len(),
{
    if reports.len() > 0 {
        let s = StartRecording::ReadLock;
        let before = reports.drop_last();
        let n = reports.len() - 1;
        lemma_start_order(before);
        lemma_one_more_report(s, reports);
        assert(reports.take(n) =~= before);
        match s.run(before) {
            StartRecording::ReadLock => {
                match s.run(reports) {
                    StartRecording::Kill { pid } => {
                        assert(s.lock_names_at(reports, pid, n));
                    },
                    StartRecording::RemoveAudio => {
                        assert(s.lock_read_at(reports, n));
                    },
                    _ => {},
                }
            },
            StartRecording::Kill { pid } => {
                if s.run(reports) is RemoveAudio {
                    let i = choose|i: int| #[trigger] s.lock_names_at(before, pid, i);
                    assert(before.take(i) =~= reports.take(i));
                    assert(reports[i] == before[i]);
                    assert(s.killed_at(reports, n, pid) && i < n);
                    assert(s.killed_after(reports, i, pid));
                    assert(s.lock_read_at(reports, i));
                } else {
                    assert(s.lock_names(reports, pid));
                }
            },
            _ => {},
        }
    }
}

/// No recorder is started beside another: before one is spawned, the lock file
/// was read, and a recorder that it names was told to end.
pub proof fn the_old_recorder_is_ended_first(reports: Seq<Report>)
    ensures
        StartRecording::ReadLock.run(reports).due() is Spawn
            ==> StartRecording::ReadLock.old_recorder_ended(reports),
{
    lemma_start_order(reports);
}

/// A start succeeds only with the number of the spawned recorder in the lock
/// file.
pub proof fn a_started_recorder_is_in_the_lock_file(s: StartRecording, r: Report)
    ensures
        s.after(r) matches StartRecording::WriteLock { pid } ==> s.after(r) == s || (s is Spawn
            && r == Report::Spawned(pid)),
        s !is Done && s.after(r) == StartRecording::Done(Ok(())) ==> s is WriteLock && r
            == Report::Finished,
{
}

/// A start goes on until it is done.
pub proof fn a_start_goes_on_until_it_is_done(s: StartRecording, r: Report)
    requires
        s.wf(),
    ensures
        s.after(r).wf(),
        s.due() is Done <==> s is Done,
{
}

impl StopRecording {
    /// The state after a list of reports.
    pub open spec fn run(self, reports: Seq<Report>) -> StopRecording
        decreases reports.len(),
    {
        if reports.len() == 0 {
            self
        } else {
            self.run(reports.drop_last()).after(reports.last())
        }
    }

    /// The audio was removed at one of the reports.
    pub open spec fn audio_removed(self, reports: Seq<Report>) -> bool {
        exists|i: int|
            0 <= i < reports.len() && (#[trigger] self.run(reports.take(i))).due() is RemoveAudio
                && reports[i] is Finished
    }
}

/// The outcome is one after which the audio is of no more use.
pub open spec fn audio_is_used_up(r: Result<String, StopError>) -> bool {
    match r {
        Ok(_) => true,
        Err(StopError::TooSmall(_)) => true,
        Err(StopError::TooLarge(_)) => true,
        Err(StopError::NoSpeech) => true,
        Err(_) => false,
    }
}

/// The audio is removed exactly where it is of no more use: after a paste, and
/// where it is too small, too large or without speech. Where the configuration,
/// the transcription or the injection fails it is kept.
pub proof fn audio_is_kept_where_it_may_be_needed(reports: Seq<Report>)
    ensures
        StopRecording::ReadLock.run(reports) matches StopRecording::Done(r)
            ==> StopRecording::ReadLock.audio_removed(reports) == audio_is_used_up(r),
        StopRecording::ReadLock.run(reports) !is Done
            ==> !StopRecording::ReadLock.audio_removed(reports),
        StopRecording::ReadLock.run(reports) matches StopRecording::RemoveAudio { outcome }
            ==> audio_is_used_up(outcome),
    decreases reports.len(),
{
    let s = StopRecording::ReadLock;
    if reports.len() > 0 {
        let before = reports.drop_last();
        let n = reports.len() - 1;
        audio_is_kept_where_it_may_be_needed(before);
        assert(reports.take(n) =~= before);
        assert forall|i: int| 0 <= i < n implies #[trigger] s.run(reports.take(i)) == s.run(
            before.take(i),
        ) by {
            assert(reports.take(i) =~= before.take(i));
        }
        if s.audio_removed(before) {
            let i = choose|i: int|
                0 <= i < before.len() && (#[trigger] s.run(before.take(i))).due() is RemoveAudio
                    && before[i] is Finished;
            assert(s.run(reports.take(i)) == s.run(before.take(i)));
            assert(s.audio_removed(reports));
        }
        if s.run(before).due() is RemoveAudio && reports.last() is Finished {
            assert(s.run(reports.take(n)).due() is RemoveAudio);
            assert(s.audio_removed(reports));
        } else if s.audio_removed(reports) {
            let i = choose|i: int|
                0 <= i < reports.len() && (#[trigger] s.run(reports.take(i))).due() is RemoveAudio
                    && reports[i] is Finished;
            assert(i < n);
            assert(s.run(before.take(i)).due() is RemoveAudio);
            assert(s.audio_removed(before));
        }
    }
}

/// What is injected is the transcription as it was reported, and never a blank
/// one; what the user is told was pasted is what was injected.
pub proof fn what_is_injected_was_transcribed(s: StopRecording, r: Report)
    ensures
        s.after(r) matches StopRecording::Injecting { text } ==> s.after(r) == s || (r
            == Report::Transcribed(Ok(text)) && !blank(text@)),
        s.after(r) matches StopRecording::RemoveAudio { outcome: Ok(text) } ==> s.after(r) == s || s
            == (StopRecording::Injecting { text }),
{
}

/// The wait for the audio ends as soon as the recorder is gone and there is
/// audio, and after its time in any case.
pub proof fn the_wait_for_audio_ends(recording: bool, exists: bool, elapsed_ms: u64)
    ensures
        StopRecording::Looking.after(Report::Audio { recording, exists, elapsed_ms }) is RemoveLock
            <==> (!recording && exists) || elapsed_ms >= FLUSH_TIMEOUT_MS,
{
}

/// The lock is given up before anything is transcribed, so that the next toggle
/// starts a new recording.
pub proof fn the_lock_is_removed_before_transcription(reports: Seq<Report>)
    ensures
        ({
            let s = StopRecording::ReadLock;
            let t = s.run(reports);
            t !is ReadLock && t !is Kill && t !is Looking && t !is Resting && t !is RemoveLock
                ==> exists|i: int|
                0 <= i < reports.len() && (#[trigger] s.run(reports.take(i))) is RemoveLock
                    && reports[i] is Finished
        }),
    decreases reports.len(),
{
    let s = StopRecording::ReadLock;
    if reports.len() > 0 {
        let before = reports.drop_last();
        let n = reports.len() - 1;
        the_lock_is_removed_before_transcription(before);
        let t = s.run(before);
        let u = s.run(reports);
        assert(reports.take(n) =~= before);
        if t !is ReadLock && t !is Kill && t !is Looking && t !is Resting && t !is RemoveLock {
            let i = choose|i: int|
                0 <= i < before.len() && (#[trigger] s.run(before.take(i))) is RemoveLock
                    && before[i] is Finished;
            assert(before.take(i) =~= reports.take(i));
            assert(s.run(reports.take(i)) is RemoveLock && reports[i] is Finished);
        } else if u !is ReadLock && u !is Kill && u !is Looking && u !is Resting && u !is RemoveLock {
            assert(s.run(reports.take(n)) is RemoveLock && reports[n] is Finished);
        }
    }
}

/// The recorder reads the given source, or the default one, records one channel
/// at 16 kHz and 64 kbit/s, and writes over the audio file. The program that is
/// started is the one that recorders are known by.
pub proof fn the_recorder_records_its_source(source: Option<String>, name: String)
    ensures
        ({
            let argv = record_command(source).argv;
            &&& argv[0] == RECORDER@
            &&& argv.contains("-y"@)
            &&& argv[2] == "-f"@ && argv[3] == "pulse"@
            &&& argv[4] == "-i"@
            &&& source == Some(name) ==> argv[5] == name@
            &&& source is None ==> argv[5] == "default"@
            &&& argv[6] == "-ac"@ && argv[7] == "1"@
            &&& argv[8] == "-ar"@ && argv[9] == "16000"@
            &&& argv[10] == "-b:a"@ && argv[11] == "64k"@
            &&& argv[12] == "-loglevel"@ && argv[13] == "error"@
            &&& argv.last() == "/tmp/voxtype.mp3"@
            &&& argv.len() == 15
        }),
        record_command(source).input is Inherited && !record_command(source).capture,
        record_command(source).limit_ms is None,
        RECORDER@ == "ffmpeg"@,
{
    let argv = record_command(source).argv;
    assert(argv[1] == "-y"@);
}

/// A process is told to end by its number, and without another signal; the
/// question whether it is alive does it no harm.
pub proof fn a_process_is_ended_by_its_number(pid: u32)
    ensures
        kill_command(pid).argv == seq!["kill"@, decimal(pid as nat)],
        crate::daemon::alive_question(pid).argv == seq!["kill"@, "-0"@, decimal(pid as nat)],
        kill_command(pid).input is Empty,
{
}

/// The number of a process that was written to a file is read back, with a line
/// feed after it or without.
pub proof fn a_written_process_number_is_read_back(pid: u32, after: Seq<char>)
    requires
        blank(after),
    ensures
        pid_in(Some(decimal(pid as nat) + after)) == Some(pid),
        pid_in(None) is None,
{
    let none = Seq::<char>::empty();
    a_written_number_is_read_back(pid as nat, u32::MAX as nat, none, after);
    assert(none + decimal(pid as nat) + after =~= decimal(pid as nat) + after);
}

/// The source of the configuration is what is recorded from; a configuration
/// that sets none, or cannot be used, leaves it to the default.
pub proof fn the_configured_source_is_recorded_from(source: Option<String>, why: String)
    ensures
        StartRecording::LoadConfig.after(Report::Config(Ok(source))).due() == Step::<
            CommandView,
            Seq<char>,
        >::Spawn(record_command(source)),
        StartRecording::LoadConfig.after(Report::Config(Err(why))).due() == Step::<
            CommandView,
            Seq<char>,
        >::Spawn(record_command(None)),
{
}

/// A recording is started step by step: the old recorder is told to end and its
/// audio removed, ffmpeg is looked for, then an audio system, then the server
/// is asked; the recorder is started, and its number written to the lock file.
/// Whatever is missing ends the start with the error for it.
pub proof fn a_start_takes_ffmpeg_and_an_audio_system(
    lock: Option<String>,
    pid: u32,
    ffmpeg: CommandOutcome,
    probe: AudioProbe,
    audio: CommandOutcome,
    server: CommandOutcome,
    spawned: u32,
    source: Option<String>,
)
    ensures
        pid_in(opt_text(lock)) == Some(pid) ==> StartRecording::ReadLock.after(
            Report::Lock(lock),
        ).due() == Step::<CommandView, Seq<char>>::Run(kill_command(pid)),
        pid_in(opt_text(lock)) is None ==> StartRecording::ReadLock.after(
            Report::Lock(lock),
        ).due() is RemoveAudio,
        (StartRecording::Kill { pid }).after(Report::Ran(server)).due() is RemoveAudio,
        StartRecording::RemoveAudio.after(Report::Finished).due() == Step::<
            CommandView,
            Seq<char>,
        >::Run(tool_question("ffmpeg"@, None)),
        !ffmpeg.succeeded() ==> StartRecording::AskFfmpeg.after(Report::Ran(ffmpeg))
            == StartRecording::Done(Err(RecordError::NoFfmpeg)),
        ffmpeg.succeeded() ==> StartRecording::AskFfmpeg.after(Report::Ran(ffmpeg))
            == StartRecording::Audio(AudioProbe::AskPactl),
        probe.after(audio) == AudioProbe::Decided(AudioSystem::Absent) ==> StartRecording::Audio(
            probe,
        ).after(Report::Ran(audio)) == StartRecording::Done(Err(RecordError::NoAudioSystem)),
        probe.after(audio) == AudioProbe::Decided(AudioSystem::PulseAudio) || probe.after(audio)
            == AudioProbe::Decided(AudioSystem::PipeWire) ==> StartRecording::Audio(probe).after(
            Report::Ran(audio),
        ).due() == Step::<CommandView, Seq<char>>::Run(lookup(seq!["pactl"@, "info"@], None)),
        server matches CommandOutcome::Failed(why) ==> StartRecording::CheckServer.after(
            Report::Ran(server),
        ) == StartRecording::Done(Err(RecordError::PactlFailed(why))),
        server !is Failed ==> StartRecording::CheckServer.after(Report::Ran(server)).due()
            is LoadConfig,
        (StartRecording::Spawn { source }).after(Report::Spawned(spawned)).due() == Step::<
            CommandView,
            Seq<char>,
        >::WriteLock(spawned),
        (StartRecording::Spawn { source }).after(Report::Failed) == StartRecording::Done(
            Err(RecordError::NotSpawned),
        ),
        (StartRecording::WriteLock { pid }).after(Report::Finished) == StartRecording::Done(Ok(())),
        (StartRecording::WriteLock { pid }).after(Report::Failed) == StartRecording::Done(
            Err(RecordError::LockNotWritten),
        ),
{
}

/// A recording is ended by telling the recorder of the lock file to end, and
/// then its audio is waited for; without a recorder it is waited for at once.
pub proof fn the_recorder_is_told_to_end(lock: Option<String>, pid: u32, o: CommandOutcome)
    ensures
        StopRecording::ReadLock.due() is ReadLock,
        pid_in(opt_text(lock)) == Some(pid) ==> StopRecording::ReadLock.after(
            Report::Lock(lock),
        ).due() == Step::<CommandView, Seq<char>>::Run(kill_command(pid)),
        pid_in(opt_text(lock)) is None ==> StopRecording::ReadLock.after(Report::Lock(lock)).due()
            is LookAtAudio,
        (StopRecording::Kill { pid }).after(Report::Ran(o)).due() is LookAtAudio,
        StopRecording::Resting.due() == Step::<CommandView, Seq<char>>::Sleep(50),
        StopRecording::Resting.after(Report::Slept).due() is LookAtAudio,
        StopRecording::RemoveLock.after(Report::Finished).due() is MeasureAudio,
{
}

/// The wait for the audio of a recorder that does not go takes 400 milliseconds.
pub proof fn the_wait_for_audio_takes_400_milliseconds(exists: bool, elapsed_ms: u64)
    ensures
        StopRecording::Looking.after(Report::Audio { recording: true, exists, elapsed_ms }).due()
            is RemoveLock <==> elapsed_ms >= 400,
        StopRecording::Looking.after(
            Report::Audio { recording: false, exists: false, elapsed_ms },
        ).due() is RemoveLock <==> elapsed_ms >= 400,
        StopRecording::Looking.after(
            Report::Audio { recording: false, exists: true, elapsed_ms },
        ).due() is RemoveLock,
{
}

/// Audio is transcribed exactly where it has from 1024 bytes to 20 million and
/// the configuration can be used; smaller and larger audio is removed, with the
/// error and the size.
pub proof fn audio_of_a_fair_size_is_transcribed(
    n: u64,
    config: Result<Option<String>, String>,
)
    ensures
        ({
            let measured = StopRecording::Measuring.after(Report::Size(Some(n)));
            let loaded = measured.after(Report::Config(config));
            &&& n < 1024 ==> measured == (StopRecording::RemoveAudio {
                outcome: Err(StopError::TooSmall(n)),
            })
            &&& n >= 1024 ==> {
                &&& measured.due() is LoadConfig
                &&& config matches Err(why) ==> loaded == StopRecording::Done(
                    Err(StopError::Config(why)),
                )
                &&& config is Ok && n <= 20_000_000 ==> loaded.due() is Transcribe
                &&& config is Ok && n > 20_000_000 ==> loaded == (StopRecording::RemoveAudio {
                    outcome: Err(StopError::TooLarge(n)),
                })
            }
        }),
        StopRecording::Measuring.after(Report::Size(None)) == StopRecording::Done(
            Err(StopError::NoAudio),
        ),
{
}

/// The errors of sizes are told with the size: in bytes where there is too
/// little, in millions of bytes where there is too much.
pub proof fn a_size_is_told(n: u64)
    ensures
        has_text(StopError::TooSmall(n).words(), decimal(n as nat) + " bytes"@),
        has_text(StopError::TooLarge(n).words(), decimal(n as nat / 1_000_000) + " MB"@),
{
    let small = " bytes). Check microphone:\n- Is your mic plugged in and selected as default?\n- Test: ffmpeg -f pulse -i default -ac 1 -ar 16000 -t 3 /tmp/test.mp3"@;
    let large = " MB). Maximum is ~20 MB.\nSpeak for a shorter duration or reduce bitrate."@;
    assert(small =~= " bytes"@ + small.skip(6)) by {
        reveal_strlit(" bytes). Check microphone:\n- Is your mic plugged in and selected as default?\n- Test: ffmpeg -f pulse -i default -ac 1 -ar 16000 -t 3 /tmp/test.mp3");
        reveal_strlit(" bytes");
    }
    assert(large =~= " MB"@ + large.skip(3)) by {
        reveal_strlit(" MB). Maximum is ~20 MB.\nSpeak for a shorter duration or reduce bitrate.");
        reveal_strlit(" MB");
    }
    let a = "Audio file too small ("@;
    let d = decimal(n as nat);
    a_part_stands_in_the_whole(a, d + " bytes"@, small.skip(6));
    assert(a + (d + " bytes"@) + small.skip(6) =~= a + d + (" bytes"@ + small.skip(6)));
    let b = "Audio file too large ("@;
    let m = decimal(n as nat / 1_000_000);
    a_part_stands_in_the_whole(b, m + " MB"@, large.skip(3));
    assert(b + (m + " MB"@) + large.skip(3) =~= b + m + (" MB"@ + large.skip(3)));
}

/// A provider's or a tool's own words reach the user unchanged.
pub proof fn reasons_are_told_unchanged(why: String)
    ensures
        StopError::Config(why).words() == why@,
        StopError::Transcription(why).words() == why@,
        StopError::Injection(why).words() == why@,
        has_text(RecordError::PactlFailed(why).words(), why@),
{
    a_part_stands_in_the_whole(
        "pactl info failed ("@,
        why@,
        "). Is PulseAudio/PipeWire running?\nTry: pulseaudio --start  or  systemctl --user start pipewire"@,
    );
}

/// The places in which the daemon, its lock and its audio are kept are three.
pub proof fn each_file_has_its_own_place()
    ensures
        PIDFILE@ == "/tmp/voxtype.pid"@,
        LOCKFILE@ == "/tmp/voxtype.lock"@,
        AUDIO_FILE@ == "/tmp/voxtype.mp3"@,
        PIDFILE@ != LOCKFILE@,
        PIDFILE@ != AUDIO_FILE@,
        LOCKFILE@ != AUDIO_FILE@,
{
    reveal_strlit("/tmp/voxtype.pid");
    reveal_strlit("/tmp/voxtype.lock");
    reveal_strlit("/tmp/voxtype.mp3");
    assert("/tmp/voxtype.pid"@.len() == 16 && "/tmp/voxtype.lock"@.len() == 17);
    assert("/tmp/voxtype.pid"@[13] == 'p');
    assert("/tmp/voxtype.mp3"@.len() == 16 && "/tmp/voxtype.mp3"@[13] == 'm');
}

/// The user is told which step of a start failed, and which of a stop.
pub proof fn each_failure_has_its_words(n: u64)
    ensures
        RecordError::NoFfmpeg.words() == "ffmpeg not found. Install: sudo apt install ffmpeg"@,
        RecordError::NoAudioSystem.words()
            == "No audio system detected. Install one of:\n- sudo apt install pulseaudio pulseaudio-utils\n- sudo apt install pipewire pipewire-pulse wireplumber"@,
        RecordError::NotSpawned.words() == "Failed to start ffmpeg recording (check microphone)"@,
        RecordError::LockNotWritten.words() == "Failed to write lockfile"@,
        StopError::NoAudio.words() == "No audio recorded. Recording may have been too brief."@,
        StopError::NoSpeech.words() == "Transcription returned empty (no speech detected)"@,
        has_text(StopError::TooSmall(n).words(), "Audio file too small ("@),
        has_text(StopError::TooLarge(n).words(), "Audio file too large ("@),
{
    let none = Seq::<char>::empty();
    let small = decimal(n as nat)
        + " bytes). Check microphone:\n- Is your mic plugged in and selected as default?\n- Test: ffmpeg -f pulse -i default -ac 1 -ar 16000 -t 3 /tmp/test.mp3"@;
    let large = decimal(n as nat / 1_000_000)
        + " MB). Maximum is ~20 MB.\nSpeak for a shorter duration or reduce bitrate."@;
    a_part_stands_in_the_whole(none, "Audio file too small ("@, small);
    assert(none + "Audio file too small ("@ + small =~= StopError::TooSmall(n).words());
    a_part_stands_in_the_whole(none, "Audio file too large ("@, large);
    assert(none + "Audio file too large ("@ + large =~= StopError::TooLarge(n).words());
}

/// The value of a step shows it as it is.
pub proof fn a_step_is_shown_as_it_is(s: Step<CommandSpec, String>)
    ensures
        s is ReadLock ==> step_view(s) is ReadLock,
        s matches Step::WriteLock(pid) ==> step_view(s) == Step::<CommandView, Seq<char>>::WriteLock(
            pid,
        ),
        s is RemoveLock ==> step_view(s) is RemoveLock,
        s is RemoveAudio ==> step_view(s) is RemoveAudio,
        s matches Step::Run(c) ==> step_view(s) == Step::<CommandView, Seq<char>>::Run(c@),
        s matches Step::Spawn(c) ==> step_view(s) == Step::<CommandView, Seq<char>>::Spawn(c@),
        s is LookAtAudio ==> step_view(s) is LookAtAudio,
        s matches Step::Sleep(ms) ==> step_view(s) == Step::<CommandView, Seq<char>>::Sleep(ms),
        s is MeasureAudio ==> step_view(s) is MeasureAudio,
        s is LoadConfig ==> step_view(s) is LoadConfig,
        s is Transcribe ==> step_view(s) is Transcribe,
        s matches Step::Inject(t) ==> step_view(s) == Step::<CommandView, Seq<char>>::Inject(t@),
        s matches Step::Notify(t) ==> step_view(s) == Step::<CommandView, Seq<char>>::Notify(t@),
        s is Done ==> step_view(s) is Done,
{
}

}
