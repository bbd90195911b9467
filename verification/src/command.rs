//! External commands: what to run, for how long, and what came of it.

use vstd::prelude::*;

verus! {

// ── Commands ──────────────────────────────────────────────────────

/// What a program reads on its standard input.
#[derive(Debug)]
pub enum Input<T> {
    /// What the caller itself would read.
    Inherited,
    /// Nothing.
    Empty,
    /// This text.
    Text(T),
}

/// An input as a mathematical value.
pub open spec fn input_view(i: Input<String>) -> Input<Seq<char>> {
    match i {
        Input::Inherited => Input::Inherited,
        Input::Empty => Input::Empty,
        Input::Text(s) => Input::Text(s@),
    }
}

/// A command to run, under a time limit where it has one.
#[derive(Debug)]
pub struct CommandSpec {
    /// The program and its arguments.
    pub argv: Vec<String>,
    /// What the program reads.
    pub input: Input<String>,
    /// Whether to collect what the program writes.
    pub capture: bool,
    /// The time after which the program is killed, if there is a limit.
    pub limit_ms: Option<u64>,
}

/// A command as a mathematical value.
pub ghost struct CommandView {
    pub argv: Seq<Seq<char>>,
    pub input: Input<Seq<char>>,
    pub capture: bool,
    pub limit_ms: Option<u64>,
}

impl View for CommandSpec {
    type V = CommandView;

    open spec fn view(&self) -> CommandView {
        CommandView {
            argv: crate::text::texts(self.argv@),
            input: input_view(self.input),
            capture: self.capture,
            limit_ms: self.limit_ms,
        }
    }
}

/// A tool that is run with the input of its caller and whose output is
/// collected.
pub open spec fn query(argv: Seq<Seq<char>>, limit_ms: Option<u64>) -> CommandView {
    CommandView { argv, input: Input::Inherited, capture: true, limit_ms }
}

/// A question to the system: a command that gets no input and whose output is
/// collected.
pub open spec fn lookup(argv: Seq<Seq<char>>, limit_ms: Option<u64>) -> CommandView {
    CommandView { argv, input: Input::Empty, capture: true, limit_ms }
}

/// The tool with these words, with the input of its caller and with its output
/// collected.
pub(crate) fn query_command(argv: Vec<String>, limit_ms: Option<u64>) -> (r: CommandSpec)
    ensures
        r@ == query(crate::text::texts(argv@), limit_ms),
{
    CommandSpec { argv, input: Input::Inherited, capture: true, limit_ms }
}

/// The command with these words, without input and with its output collected.
pub(crate) fn lookup_command(argv: Vec<String>, limit_ms: Option<u64>) -> (r: CommandSpec)
    ensures
        r@ == lookup(crate::text::texts(argv@), limit_ms),
{
    CommandSpec { argv, input: Input::Empty, capture: true, limit_ms }
}

/// What a program that ran to its end left behind.
#[derive(Debug)]
pub struct CommandOutput {
    /// Whether the program reported success.
    pub success: bool,
    /// The exit status in words.
    pub status: String,
    pub stdout: Vec<u8>,
    pub stderr: Vec<u8>,
}

/// Outcome of a bounded external command run.
#[derive(Debug)]
pub enum CommandOutcome {
    Completed(CommandOutput),
    TimedOut,
    Failed(String),
}

impl CommandOutcome {
    /// The program ran to its end and reported success.
    pub open spec fn succeeded(self) -> bool {
        self matches CommandOutcome::Completed(o) && o.success
    }

    /// Whether the program ran to its end and reported success.
    pub fn is_success(&self) -> (r: bool)
        ensures
            r == self.succeeded(),
    {
        match self {
            CommandOutcome::Completed(o) => o.success,
            _ => false,
        }
    }
}

// ── Steps of a procedure ──────────────────────────────────────────

/// What a procedure made of commands wants done next.
#[derive(Debug)]
pub enum Action<C> {
    /// Run a command and report its outcome.
    Run(C),
    /// Let so many milliseconds pass.
    Sleep(u64),
    /// Nothing: the procedure is over.
    Done,
}

/// An action as a mathematical value.
pub open spec fn action_view(a: Action<CommandSpec>) -> Action<CommandView> {
    match a {
        Action::Run(c) => Action::Run(c@),
        Action::Sleep(ms) => Action::Sleep(ms),
        Action::Done => Action::Done,
    }
}

/// What is reported to a procedure that waits.
#[derive(Debug)]
pub enum Event {
    /// The command was run, with this outcome.
    Ran(CommandOutcome),
    /// The time has passed.
    Slept,
}

/// The event reports on the action.
pub open spec fn answers(e: Event, a: Action<CommandView>) -> bool {
    match (a, e) {
        (Action::Run(_), Event::Ran(_)) => true,
        (Action::Sleep(_), Event::Slept) => true,
        _ => false,
    }
}

/// The action takes limited time: a command has a limit.
pub open spec fn bounded(a: Action<CommandView>) -> bool {
    a matches Action::Run(c) ==> c.limit_ms is Some
}

/// The time that a bounded action takes at most.
pub open spec fn cost_ms(a: Action<CommandView>) -> nat {
    match a {
        Action::Run(c) => match c.limit_ms {
            Some(limit) => limit as nat,
            None => 0,
        },
        Action::Sleep(ms) => ms as nat,
        Action::Done => 0,
    }
}

// ── Running one command ───────────────────────────────────────────

/// Pause between two looks at a running program.
pub const POLL_INTERVAL_MS: u64 = 20;

/// What a stream of the program is connected to.
#[derive(Debug, Clone, Copy, PartialEq, Eq, Structural)]
pub enum Stream {
    /// What the program would have anyway.
    Inherited,
    /// The null device.
    Null,
    /// A pipe that is drained or filled on a background thread.
    Piped,
}

/// The streams of a program that is to be started.
#[derive(Debug, Clone, Copy, PartialEq, Eq, Structural)]
pub struct Streams {
    pub stdin: Stream,
    pub stdout: Stream,
    pub stderr: Stream,
}

/// What is to be done next to run one command.
#[derive(Debug, Clone, Copy, PartialEq, Eq, Structural)]
pub enum RunAction {
    /// Start the program, with these streams.
    Spawn(Streams),
    /// Look whether the program has ended.
    Poll,
    /// Let so many milliseconds pass.
    Sleep(u64),
    /// Kill the program and wait for its end.
    Kill,
    /// Read what the program has written.
    Collect,
    /// Nothing: the run is over.
    Finish,
}

/// What is reported of the program.
#[derive(Debug)]
pub enum RunEvent {
    Spawned,
    SpawnFailed(String),
    /// The program still runs, so long after its start.
    Running { elapsed_ms: u64 },
    /// The program has ended.
    Exited { success: bool, status: String },
    PollFailed(String),
    Slept,
    Killed,
    Collected { stdout: Vec<u8>, stderr: Vec<u8> },
}

/// The run of one command.
#[derive(Debug)]
pub enum LimitedRun {
    Starting { limit_ms: Option<u64>, stdin: Stream, capture: bool },
    Looking { limit_ms: Option<u64>, capture: bool },
    Resting { limit_ms: Option<u64>, capture: bool },
    Killing,
    Reading { success: bool, status: String },
    Finished(CommandOutcome),
}

/// What the standard input of a program is connected to.
pub open spec fn stdin_of(input: Input<Seq<char>>) -> Stream {
    match input {
        Input::Inherited => Stream::Inherited,
        Input::Empty => Stream::Null,
        Input::Text(_) => Stream::Piped,
    }
}

/// The streams of a program: its output goes nowhere unless it is collected,
/// since a child of the program that holds a pipe open would block the reader.
pub open spec fn streams_of(stdin: Stream, capture: bool) -> Streams {
    let out = if capture {
        Stream::Piped
    } else {
        Stream::Null
    };
    Streams { stdin, stdout: out, stderr: out }
}

/// The limit, if there is one, has been reached.
pub open spec fn overdue(elapsed_ms: u64, limit_ms: Option<u64>) -> bool {
    limit_ms matches Some(limit) && elapsed_ms >= limit
}

impl LimitedRun {
    /// The run of a command, before its start.
    pub open spec fn of(c: CommandView) -> LimitedRun {
        LimitedRun::Starting {
            limit_ms: c.limit_ms,
            stdin: stdin_of(c.input),
            capture: c.capture,
        }
    }

    /// Begins to run `cmd` to completion, killing it if it exceeds its limit.
    pub fn start(cmd: &CommandSpec) -> (r: LimitedRun)
        ensures
            r == LimitedRun::of(cmd@),
    {
        LimitedRun::Starting {
            limit_ms: cmd.limit_ms,
            stdin: match &cmd.input {
                Input::Inherited => Stream::Inherited,
                Input::Empty => Stream::Null,
                Input::Text(_) => Stream::Piped,
            },
            capture: cmd.capture,
        }
    }

    /// What is to be done in this state.
    pub open spec fn due(self) -> RunAction {
        match self {
            LimitedRun::Starting { stdin, capture, .. } => RunAction::Spawn(
                streams_of(stdin, capture),
            ),
            LimitedRun::Looking { .. } => RunAction::Poll,
            LimitedRun::Resting { .. } => RunAction::Sleep(POLL_INTERVAL_MS),
            LimitedRun::Killing => RunAction::Kill,
            LimitedRun::Reading { .. } => RunAction::Collect,
            LimitedRun::Finished(_) => RunAction::Finish,
        }
    }

    /// The state that an event leads to; an event that does not answer what
    /// was due changes nothing. The output of a run that does not collect it
    /// is empty.
    pub open spec fn leads_to(self, e: RunEvent, r: LimitedRun) -> bool {
        match (self, e) {
            (LimitedRun::Starting { limit_ms, capture, .. }, RunEvent::Spawned) => r
                == (LimitedRun::Looking { limit_ms, capture }),
            (LimitedRun::Starting { .. }, RunEvent::SpawnFailed(why)) => r == LimitedRun::Finished(
                CommandOutcome::Failed(why),
            ),
            (LimitedRun::Looking { limit_ms, capture }, RunEvent::Running { elapsed_ms }) => r == (
            if overdue(elapsed_ms, limit_ms) {
                LimitedRun::Killing
            } else {
                LimitedRun::Resting { limit_ms, capture }
            }),
            (LimitedRun::Looking { capture, .. }, RunEvent::Exited { success, status }) => if capture {
                r == (LimitedRun::Reading { success, status })
            } else {
                &&& r matches LimitedRun::Finished(CommandOutcome::Completed(o))
                &&& o.success == success
                &&& o.status == status
                &&& o.stdout@.len() == 0
                &&& o.stderr@.len() == 0
            },
            (LimitedRun::Looking { .. }, RunEvent::PollFailed(why)) => r == LimitedRun::Finished(
                CommandOutcome::Failed(why),
            ),
            (LimitedRun::Resting { limit_ms, capture }, RunEvent::Slept) => r
                == (LimitedRun::Looking { limit_ms, capture }),
            (LimitedRun::Killing, RunEvent::Killed) => r == LimitedRun::Finished(
                CommandOutcome::TimedOut,
            ),
            (LimitedRun::Reading { success, status }, RunEvent::Collected { stdout, stderr }) => r
                == LimitedRun::Finished(
                CommandOutcome::Completed(CommandOutput { success, status, stdout, stderr }),
            ),
            _ => r == self,
        }
    }

    /// What is to be done in this state.
    pub fn action(&self) -> (r: RunAction)
        ensures
            r == self.due(),
    {
        match self {
            LimitedRun::Starting { stdin, capture, .. } => {
                let out = if *capture {
                    Stream::Piped
                } else {
                    Stream::Null
                };
                RunAction::Spawn(Streams { stdin: *stdin, stdout: out, stderr: out })
            },
            LimitedRun::Looking { .. } => RunAction::Poll,
            LimitedRun::Resting { .. } => RunAction::Sleep(POLL_INTERVAL_MS),
            LimitedRun::Killing => RunAction::Kill,
            LimitedRun::Reading { .. } => RunAction::Collect,
            LimitedRun::Finished(_) => RunAction::Finish,
        }
    }

    /// The state after an event.
    pub fn next(self, e: RunEvent) -> (r: LimitedRun)
        ensures
            self.leads_to(e, r),
    {
        match (self, e) {
            (LimitedRun::Starting { limit_ms, capture, .. }, RunEvent::Spawned) => {
                LimitedRun::Looking { limit_ms, capture }
            },
            (LimitedRun::Starting { .. }, RunEvent::SpawnFailed(why)) => {
                LimitedRun::Finished(CommandOutcome::Failed(why))
            },
            (LimitedRun::Looking { limit_ms, capture }, RunEvent::Running { elapsed_ms }) => {
                let late = match limit_ms {
                    Some(limit) => elapsed_ms >= limit,
                    None => false,
                };
                if late {
                    LimitedRun::Killing
                } else {
                    LimitedRun::Resting { limit_ms, capture }
                }
            },
            (LimitedRun::Looking { capture, .. }, RunEvent::Exited { success, status }) => {
                if capture {
                    LimitedRun::Reading { success, status }
                } else {
                    LimitedRun::Finished(
                        CommandOutcome::Completed(
                            CommandOutput {
                                success,
                                status,
                                stdout: Vec::new(),
                                stderr: Vec::new(),
                            },
                        ),
                    )
                }
            },
            (LimitedRun::Looking { .. }, RunEvent::PollFailed(why)) => {
                LimitedRun::Finished(CommandOutcome::Failed(why))
            },
            (LimitedRun::Resting { limit_ms, capture }, RunEvent::Slept) => {
                LimitedRun::Looking { limit_ms, capture }
            },
            (LimitedRun::Killing, RunEvent::Killed) => {
                LimitedRun::Finished(CommandOutcome::TimedOut)
            },
            (LimitedRun::Reading { success, status }, RunEvent::Collected { stdout, stderr }) => {
                LimitedRun::Finished(
                    CommandOutcome::Completed(CommandOutput { success, status, stdout, stderr }),
                )
            },
            (s, _) => s,
        }
    }

    /// The outcome of a finished run; the run itself otherwise.
    pub fn outcome(self) -> (r: Result<CommandOutcome, LimitedRun>)
        ensures
            match self {
                LimitedRun::Finished(o) => r == Ok::<CommandOutcome, LimitedRun>(o),
                _ => r == Err::<CommandOutcome, LimitedRun>(self),
            },
    {
        match self {
            LimitedRun::Finished(o) => Ok(o),
            s => Err(s),
        }
    }
}

// ── Laws ──────────────────────────────────────────────────────────

/// The states that a command went through under a list of events.
pub open spec fn is_run(c: CommandView, states: Seq<LimitedRun>, events: Seq<RunEvent>) -> bool {
    &&& states.len() == events.len() + 1
    &&& states[0] == LimitedRun::of(c)
    &&& forall|i: int|
        0 <= i < events.len() ==> (#[trigger] states[i]).leads_to(events[i], states[i + 1])
}

/// How many pauses were over before event `i`.
pub open spec fn pauses(states: Seq<LimitedRun>, events: Seq<RunEvent>, i: int) -> nat
    decreases i,
{
    if i <= 0 {
        0
    } else if states[i - 1] is Resting && events[i - 1] is Slept {
        pauses(states, events, i - 1) + 1
    } else {
        pauses(states, events, i - 1)
    }
}

/// The clock shows at least the time of the pauses so far.
pub open spec fn clock_holds(states: Seq<LimitedRun>, events: Seq<RunEvent>) -> bool {
    forall|i: int|
        0 <= i < events.len() && states[i] is Looking && (#[trigger] events[i]) is Running
            ==> events[i]->elapsed_ms >= POLL_INTERVAL_MS * pauses(states, events, i)
}

/// The limit that a state of a run carries is that of the command.
proof fn lemma_limit_is_kept(
    c: CommandView,
    states: Seq<LimitedRun>,
    events: Seq<RunEvent>,
    i: int,
)
    requires
        is_run(c, states, events),
        0 <= i < states.len(),
    ensures
        states[i] matches LimitedRun::Starting { limit_ms, .. } ==> limit_ms == c.limit_ms,
        states[i] matches LimitedRun::Looking { limit_ms, .. } ==> limit_ms == c.limit_ms,
        states[i] matches LimitedRun::Resting { limit_ms, .. } ==> limit_ms == c.limit_ms,
    decreases i,
{
    if i > 0 {
        lemma_limit_is_kept(c, states, events, i - 1);
        assert(states[i - 1].leads_to(events[i - 1], states[i]));
    }
}

/// A hung program cannot hold a run up: the pauses of a run, all but the last,
/// together stay below the limit, whatever is reported.
pub proof fn a_run_rests_no_longer_than_its_limit(
    c: CommandView,
    states: Seq<LimitedRun>,
    events: Seq<RunEvent>,
    i: int,
)
    requires
        is_run(c, states, events),
        clock_holds(states, events),
        c.limit_ms is Some,
        0 <= i < states.len(),
    ensures
        pauses(states, events, i) > 0 ==> POLL_INTERVAL_MS * (pauses(states, events, i) - 1)
            < c.limit_ms->0,
        states[i] is Resting ==> POLL_INTERVAL_MS * pauses(states, events, i) < c.limit_ms->0,
    decreases i,
{
    if i > 0 {
        a_run_rests_no_longer_than_its_limit(c, states, events, i - 1);
        lemma_limit_is_kept(c, states, events, i - 1);
        assert(states[i - 1].leads_to(events[i - 1], states[i]));
        assert(states[i - 1] is Looking && events[i - 1] is Running ==> events[i - 1]->elapsed_ms
            >= POLL_INTERVAL_MS * pauses(states, events, i - 1));
    }
}

/// A program is killed only when it was seen running after its limit.
pub proof fn only_an_overdue_program_is_killed(
    c: CommandView,
    states: Seq<LimitedRun>,
    events: Seq<RunEvent>,
    i: int,
) -> (j: int)
    requires
        is_run(c, states, events),
        0 <= i < states.len(),
        states[i] is Killing || states[i] == LimitedRun::Finished(CommandOutcome::TimedOut),
    ensures
        0 <= j < i,
        events[j] matches RunEvent::Running { elapsed_ms } && overdue(elapsed_ms, c.limit_ms),
    decreases i,
{
    assert(states[i - 1].leads_to(events[i - 1], states[i]));
    lemma_limit_is_kept(c, states, events, i - 1);
    if states[i - 1] is Looking {
        i - 1
    } else {
        only_an_overdue_program_is_killed(c, states, events, i - 1)
    }
}

/// A run completes only with the exit that was reported of the program.
pub proof fn a_completed_run_saw_the_exit(
    c: CommandView,
    states: Seq<LimitedRun>,
    events: Seq<RunEvent>,
    i: int,
) -> (j: int)
    requires
        is_run(c, states, events),
        0 <= i < states.len(),
        states[i] is Reading || (states[i] matches LimitedRun::Finished(o) && o is Completed),
    ensures
        0 <= j < i,
        events[j] matches RunEvent::Exited { success, status } && match states[i] {
            LimitedRun::Reading { success: b, status: t } => b == success && t == status,
            LimitedRun::Finished(CommandOutcome::Completed(o)) => o.success == success && o.status
                == status,
            _ => false,
        },
    decreases i,
{
    assert(states[i - 1].leads_to(events[i - 1], states[i]));
    if states[i - 1] is Looking {
        i - 1
    } else {
        a_completed_run_saw_the_exit(c, states, events, i - 1)
    }
}

/// A program reads what its command says: the text through a pipe, nothing
/// from the null device, or what the caller reads. What it writes is piped
/// exactly where it is to be collected, and goes nowhere otherwise.
pub proof fn a_program_is_started_with_the_streams_of_its_command(c: CommandView)
    ensures
        LimitedRun::of(c).due() matches RunAction::Spawn(s) && {
            &&& s.stdin == Stream::Piped <==> c.input is Text
            &&& s.stdin == Stream::Null <==> c.input is Empty
            &&& s.stdin == Stream::Inherited <==> c.input is Inherited
            &&& c.capture ==> s.stdout == Stream::Piped && s.stderr == Stream::Piped
            &&& !c.capture ==> s.stdout == Stream::Null && s.stderr == Stream::Null
        },
{
}

/// A question to the system reads nothing, a tool what its caller reads; of
/// both the output is collected, and the words and the limit are as given.
pub proof fn lookups_and_queries_differ_in_their_input(argv: Seq<Seq<char>>, limit_ms: Option<u64>)
    ensures
        lookup(argv, limit_ms).input is Empty,
        query(argv, limit_ms).input is Inherited,
        lookup(argv, limit_ms).capture && query(argv, limit_ms).capture,
        lookup(argv, limit_ms).argv == argv && query(argv, limit_ms).argv == argv,
        lookup(argv, limit_ms).limit_ms == limit_ms && query(argv, limit_ms).limit_ms == limit_ms,
{
}

/// A program that is seen running is killed as soon as it has taken as long as
/// its limit or longer, and is left alone before that, or where it has none.
pub proof fn a_program_is_killed_exactly_when_it_is_overdue(
    limit_ms: Option<u64>,
    capture: bool,
    elapsed_ms: u64,
    r: LimitedRun,
)
    requires
        (LimitedRun::Looking { limit_ms, capture }).leads_to(RunEvent::Running { elapsed_ms }, r),
    ensures
        r.due() == RunAction::Kill <==> (limit_ms matches Some(limit) && limit <= elapsed_ms),
        r.due() != RunAction::Kill ==> r.due() == RunAction::Sleep(20),
{
}

/// What is reported of a program is what its run says: that it could not be
/// started or watched, and why, and that it was killed.
pub proof fn a_fault_is_reported_as_it_was(s: LimitedRun, e: RunEvent, r: LimitedRun)
    requires
        s.leads_to(e, r),
    ensures
        s.due() is Spawn ==> match e {
            RunEvent::SpawnFailed(why) => r == LimitedRun::Finished(CommandOutcome::Failed(why)),
            RunEvent::Spawned => r.due() == RunAction::Poll,
            _ => true,
        },
        s.due() is Poll ==> match e {
            RunEvent::PollFailed(why) => r == LimitedRun::Finished(CommandOutcome::Failed(why)),
            _ => true,
        },
        s.due() is Kill ==> match e {
            RunEvent::Killed => r == LimitedRun::Finished(CommandOutcome::TimedOut),
            _ => true,
        },
        s.due() is Sleep ==> match e {
            RunEvent::Slept => r.due() == RunAction::Poll,
            _ => true,
        },
{
}

/// Whether the output is collected is decided by the command.
proof fn lemma_capture_is_kept(
    c: CommandView,
    states: Seq<LimitedRun>,
    events: Seq<RunEvent>,
    i: int,
)
    requires
        is_run(c, states, events),
        0 <= i < states.len(),
    ensures
        states[i] matches LimitedRun::Starting { capture, .. } ==> capture == c.capture,
        states[i] matches LimitedRun::Looking { capture, .. } ==> capture == c.capture,
        states[i] matches LimitedRun::Resting { capture, .. } ==> capture == c.capture,
        states[i] is Reading ==> c.capture,
    decreases i,
{
    if i > 0 {
        lemma_capture_is_kept(c, states, events, i - 1);
        assert(states[i - 1].leads_to(events[i - 1], states[i]));
    }
}

/// What a completed run reports as the output is what was read from the
/// program, each stream as it was; nothing where it was not to be collected.
pub proof fn a_completed_run_has_the_output_that_was_read(
    c: CommandView,
    states: Seq<LimitedRun>,
    events: Seq<RunEvent>,
    i: int,
) -> (j: int)
    requires
        is_run(c, states, events),
        0 <= i < states.len(),
        states[i] matches LimitedRun::Finished(o) && o is Completed,
    ensures
        states[i] matches LimitedRun::Finished(CommandOutcome::Completed(o)) && if c.capture {
            &&& 0 <= j < i
            &&& events[j] == (RunEvent::Collected { stdout: o.stdout, stderr: o.stderr })
        } else {
            o.stdout@.len() == 0 && o.stderr@.len() == 0
        },
    decreases i,
{
    assert(states[i - 1].leads_to(events[i - 1], states[i]));
    lemma_capture_is_kept(c, states, events, i - 1);
    if states[i - 1] is Finished {
        a_completed_run_has_the_output_that_was_read(c, states, events, i - 1)
    } else {
        i - 1
    }
}

/// The value of a command shows it as it is: its words, its input, whether its
/// output is collected, and its limit.
pub proof fn a_command_is_shown_as_it_is(c: CommandSpec, i: int)
    ensures
        c@.argv.len() == c.argv@.len(),
        0 <= i < c.argv@.len() ==> c@.argv[i] == c.argv@[i]@,
        c@.capture == c.capture,
        c@.limit_ms == c.limit_ms,
        c.input is Inherited ==> c@.input is Inherited,
        c.input is Empty ==> c@.input is Empty,
        c.input matches Input::Text(s) ==> c@.input == Input::<Seq<char>>::Text(s@),
{
}

/// So does the value of an action.
pub proof fn an_action_is_shown_as_it_is(a: Action<CommandSpec>)
    ensures
        a matches Action::Run(c) ==> action_view(a) == Action::Run(c@),
        a matches Action::Sleep(ms) ==> action_view(a) == Action::<CommandView>::Sleep(ms),
        a is Done ==> action_view(a) is Done,
{
}

/// A run that is over asks for nothing more, and one that is not asks for the
/// start, a look, a pause, the end of the program, or its output, as far as it
/// has come.
pub proof fn a_run_asks_for_what_is_next(s: LimitedRun)
    ensures
        s is Starting <==> s.due() is Spawn,
        s is Looking <==> s.due() is Poll,
        s is Resting <==> s.due() == RunAction::Sleep(20),
        s is Killing <==> s.due() is Kill,
        s is Reading <==> s.due() is Collect,
        s is Finished <==> s.due() is Finish,
{
}

}
