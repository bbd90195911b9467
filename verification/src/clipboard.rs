//! Putting text on the clipboard, and making sure that it is there.

use crate::command::{
    action_view, answers, bounded, cost_ms, query, query_command, Action, CommandOutcome,
    CommandSpec, CommandView, Event, Input,
};
use crate::environment::{filled, is_filled, require_tool, tool_question, LOOKUP_TIMEOUT_MS};
use crate::focus::FocusClass;
use crate::text::{
    a_part_stands_in_the_whole, chars_of, decimal, decimal_string, from_utf8_lossy, has_text,
    lossy_text, owned, texts,
};
use vstd::prelude::*;

verus! {

/// Upper bound for clipboard-set commands (wl-copy, xsel, xclip). These
/// daemonize after writing their data; one that stays alive never offered the
/// selection, so it is killed and reported instead of blocking.
pub const CLIP_CMD_TIMEOUT_MS: u64 = 3000;

/// Budget for verifying the clipboard via wl-paste before sending the key.
/// wl-paste blocks when the clipboard is empty, so this is the ceiling of
/// each attempt.
pub const VERIFY_TIMEOUT_MS: u64 = 500;

// ── Setting the clipboard ─────────────────────────────────────────

/// The tools that set a clipboard.
#[derive(Debug, Clone, Copy, PartialEq, Eq, Structural)]
pub enum ClipTool {
    WlCopy,
    Xsel,
    Xclip,
}

/// Why a tool did not set the clipboard.
#[derive(Debug)]
pub enum ClipFault {
    /// It reported failure, with this exit status.
    Exited(String),
    TimedOut,
    /// It could not be run.
    NotRun(String),
}

/// A clipboard that was not set.
#[derive(Debug)]
pub struct ClipboardError {
    pub tool: ClipTool,
    pub fault: ClipFault,
}

/// The words of the command that sets the clipboard.
pub open spec fn clip_argv(tool: ClipTool) -> Seq<Seq<char>> {
    match tool {
        ClipTool::WlCopy => seq!["wl-copy"@],
        ClipTool::Xsel => seq!["xsel"@, "--clipboard"@, "--input"@],
        ClipTool::Xclip => seq!["xclip"@, "-selection"@, "clipboard"@],
    }
}

/// The command that sets the clipboard to a text: the text goes to its input,
/// and its output is not waited for.
pub open spec fn clip_command(tool: ClipTool, text: Seq<char>) -> CommandView {
    CommandView {
        argv: clip_argv(tool),
        input: Input::Text(text),
        capture: false,
        limit_ms: Some(CLIP_CMD_TIMEOUT_MS),
    }
}

/// The command that sets the clipboard to a text.
pub fn set_clipboard(tool: ClipTool, text: &str) -> (r: CommandSpec)
    ensures
        r@ == clip_command(tool, text@),
{
    let argv = match tool {
        ClipTool::WlCopy => owned(vec!["wl-copy"]),
        ClipTool::Xsel => owned(vec!["xsel", "--clipboard", "--input"]),
        ClipTool::Xclip => owned(vec!["xclip", "-selection", "clipboard"]),
    };
    assert(texts(argv@) =~= clip_argv(tool));
    CommandSpec {
        argv,
        input: Input::Text(text.to_owned()),
        capture: false,
        limit_ms: Some(CLIP_CMD_TIMEOUT_MS),
    }
}

/// What came of a command that sets the clipboard.
pub open spec fn clip_result(tool: ClipTool, outcome: CommandOutcome) -> Result<
    (),
    ClipboardError,
> {
    match outcome {
        CommandOutcome::Completed(o) => if o.success {
            Ok(())
        } else {
            Err(ClipboardError { tool, fault: ClipFault::Exited(o.status) })
        },
        CommandOutcome::TimedOut => Err(ClipboardError { tool, fault: ClipFault::TimedOut }),
        CommandOutcome::Failed(why) => Err(ClipboardError { tool, fault: ClipFault::NotRun(why) }),
    }
}

/// What came of a command that sets the clipboard.
pub fn clipboard_set(tool: ClipTool, outcome: CommandOutcome) -> (r: Result<(), ClipboardError>)
    ensures
        r == clip_result(tool, outcome),
{
    match outcome {
        CommandOutcome::Completed(o) => if o.success {
            Ok(())
        } else {
            Err(ClipboardError { tool, fault: ClipFault::Exited(o.status) })
        },
        CommandOutcome::TimedOut => Err(ClipboardError { tool, fault: ClipFault::TimedOut }),
        CommandOutcome::Failed(why) => Err(ClipboardError { tool, fault: ClipFault::NotRun(why) }),
    }
}

pub open spec fn tool_name(tool: ClipTool) -> Seq<char> {
    match tool {
        ClipTool::WlCopy => "wl-copy"@,
        ClipTool::Xsel => "xsel"@,
        ClipTool::Xclip => "xclip"@,
    }
}

/// The package that a tool comes in.
pub open spec fn tool_package(tool: ClipTool) -> Seq<char> {
    match tool {
        ClipTool::WlCopy => "wl-clipboard"@,
        ClipTool::Xsel => "xsel"@,
        ClipTool::Xclip => "xclip"@,
    }
}

impl ClipboardError {
    /// The words for the fault.
    pub open spec fn words(self) -> Seq<char> {
        let hint = ". Install: sudo apt install "@ + tool_package(self.tool);
        match self.fault {
            ClipFault::Exited(status) => tool_name(self.tool) + " exited with "@ + status@ + if self.tool
                == ClipTool::WlCopy {
                ""@
            } else {
                hint
            },
            ClipFault::TimedOut => tool_name(self.tool) + " timed out after "@ + decimal(
                CLIP_CMD_TIMEOUT_MS as nat,
            ) + " ms"@,
            ClipFault::NotRun(why) => tool_name(self.tool) + " not found: "@ + why@ + hint,
        }
    }

    /// The message for the user.
    pub fn message(&self) -> (r: String)
        ensures
            r@ == self.words(),
    {
        let name = match self.tool {
            ClipTool::WlCopy => "wl-copy",
            ClipTool::Xsel => "xsel",
            ClipTool::Xclip => "xclip",
        };
        let package = match self.tool {
            ClipTool::WlCopy => "wl-clipboard",
            ClipTool::Xsel => "xsel",
            ClipTool::Xclip => "xclip",
        };
        let mut hint = ". Install: sudo apt install ".to_owned();
        hint.append(package);
        let mut m = name.to_owned();
        match &self.fault {
            ClipFault::Exited(status) => {
                m.append(" exited with ");
                m.append(status.as_str());
                match self.tool {
                    ClipTool::WlCopy => m.append(""),
                    _ => m.append(hint.as_str()),
                }
            },
            ClipFault::TimedOut => {
                m.append(" timed out after ");
                m.append(decimal_string(CLIP_CMD_TIMEOUT_MS).as_str());
                m.append(" ms");
            },
            ClipFault::NotRun(why) => {
                m.append(" not found: ");
                m.append(why.as_str());
                m.append(hint.as_str());
            },
        }
        m
    }
}

/// The command that sets a clipboard reads exactly the text that is to be put
/// there, under a time limit, and its output is not waited for, since the tool
/// stays behind as the owner of the selection. It is the tool itself that is
/// run, on the selection that applications paste from.
pub proof fn a_clipboard_tool_reads_the_text(tool: ClipTool, text: Seq<char>)
    ensures
        clip_command(tool, text).input == Input::<Seq<char>>::Text(text),
        clip_command(tool, text).limit_ms == Some(3000u64),
        !clip_command(tool, text).capture,
        clip_command(tool, text).argv[0] == match tool {
            ClipTool::WlCopy => "wl-copy"@,
            ClipTool::Xsel => "xsel"@,
            ClipTool::Xclip => "xclip"@,
        },
        tool == ClipTool::WlCopy ==> clip_command(tool, text).argv.len() == 1,
        tool == ClipTool::Xsel ==> clip_command(tool, text).argv.skip(1) == seq![
            "--clipboard"@,
            "--input"@,
        ],
        tool == ClipTool::Xclip ==> clip_command(tool, text).argv.skip(1) == seq![
            "-selection"@,
            "clipboard"@,
        ],
{
    if tool == ClipTool::Xsel {
        assert(clip_command(tool, text).argv.skip(1) =~= seq!["--clipboard"@, "--input"@]);
    } else if tool == ClipTool::Xclip {
        assert(clip_command(tool, text).argv.skip(1) =~= seq!["-selection"@, "clipboard"@]);
    }
}

/// Two texts are set by two commands: what is on the clipboard is the text that
/// was dictated, whichever it is.
pub proof fn different_texts_are_set_by_different_commands(
    tool: ClipTool,
    a: Seq<char>,
    b: Seq<char>,
)
    ensures
        clip_command(tool, a) == clip_command(tool, b) <==> a == b,
        clip_command(tool, a).argv == clip_command(tool, b).argv,
{
}

/// A clipboard counts as set exactly where the tool ran to its end and reported
/// success. Otherwise the error names the tool and what happened to it.
pub proof fn a_clipboard_is_set_by_success_alone(tool: ClipTool, outcome: CommandOutcome)
    ensures
        clip_result(tool, outcome) is Ok <==> (outcome matches CommandOutcome::Completed(o)
            && o.success),
        clip_result(tool, outcome) matches Err(e) ==> e.tool == tool && match outcome {
            CommandOutcome::Completed(o) => e.fault == ClipFault::Exited(o.status),
            CommandOutcome::TimedOut => e.fault == ClipFault::TimedOut,
            CommandOutcome::Failed(why) => e.fault == ClipFault::NotRun(why),
        },
{
}

/// The message of a clipboard that was not set names the tool, and says why or
/// with which status.
pub proof fn a_clipboard_error_tells_the_tool_and_the_reason(e: ClipboardError)
    ensures
        has_text(
            e.words(),
            match e.tool {
                ClipTool::WlCopy => "wl-copy"@,
                ClipTool::Xsel => "xsel"@,
                ClipTool::Xclip => "xclip"@,
            },
        ),
        e.fault matches ClipFault::Exited(status) ==> has_text(e.words(), status@),
        e.fault matches ClipFault::NotRun(why) ==> has_text(e.words(), why@),
        e.fault is TimedOut ==> has_text(e.words(), decimal(3000)),
{
    let none = Seq::<char>::empty();
    let name = tool_name(e.tool);
    let hint = ". Install: sudo apt install "@ + tool_package(e.tool);
    match e.fault {
        ClipFault::Exited(status) => {
            let end = if e.tool == ClipTool::WlCopy {
                ""@
            } else {
                hint
            };
            a_part_stands_in_the_whole(name + " exited with "@, status@, end);
            assert(e.words() =~= none + name + (" exited with "@ + status@ + end));
            a_part_stands_in_the_whole(none, name, " exited with "@ + status@ + end);
        },
        ClipFault::TimedOut => {
            a_part_stands_in_the_whole(name + " timed out after "@, decimal(3000), " ms"@);
            assert(e.words() =~= none + name + (" timed out after "@ + decimal(3000) + " ms"@));
            a_part_stands_in_the_whole(none, name, " timed out after "@ + decimal(3000) + " ms"@);
        },
        ClipFault::NotRun(why) => {
            a_part_stands_in_the_whole(name + " not found: "@, why@, hint);
            assert(e.words() =~= none + name + (" not found: "@ + why@ + hint));
            a_part_stands_in_the_whole(none, name, " not found: "@ + why@ + hint);
        },
    }
}

// ── Reading the clipboard back ────────────────────────────────────

/// A text without the line feeds at its end.
pub open spec fn without_last_newlines(s: Seq<char>) -> Seq<char>
    decreases s.len(),
{
    if s.len() > 0 && s.last() == '\n' {
        without_last_newlines(s.drop_last())
    } else {
        s
    }
}

/// Two texts are the same but for line feeds at the end.
pub open spec fn same_but_newlines(a: Seq<char>, b: Seq<char>) -> bool {
    without_last_newlines(a) == without_last_newlines(b)
}

fn length_without_newlines(s: &Vec<char>) -> (r: usize)
    ensures
        r <= s@.len(),
        s@.take(r as int) == without_last_newlines(s@),
{
    let mut r: usize = s.len();
    assert(s@.take(r as int) =~= s@);
    while r > 0 && s[r - 1] == '\n'
        invariant
            r <= s@.len(),
            without_last_newlines(s@.take(r as int)) == without_last_newlines(s@),
        decreases r,
    {
        assert(s@.take(r as int).drop_last() =~= s@.take(r - 1));
        r -= 1;
    }
    r
}

/// Compares the text that was put on the clipboard with what was read back,
/// tolerating a trailing newline added or stripped by the clipboard.
pub fn clipboard_matches(expected: &str, got: &str) -> (r: bool)
    ensures
        r == same_but_newlines(expected@, got@),
{
    let a = chars_of(expected);
    let b = chars_of(got);
    let n: usize = length_without_newlines(&a);
    let m: usize = length_without_newlines(&b);
    if n != m {
        assert(a@.take(n as int).len() != b@.take(m as int).len());
        return false;
    }
    let mut i: usize = 0;
    while i < n
        invariant
            i <= n,
            n <= a@.len(),
            n <= b@.len(),
            a@ == expected@,
            b@ == got@,
            a@.take(n as int) == without_last_newlines(a@),
            b@.take(n as int) == without_last_newlines(b@),
            forall|k: int| 0 <= k < i ==> a@[k] == b@[k],
        decreases n - i,
    {
        if a[i] != b[i] {
            assert(a@.take(n as int)[i as int] != b@.take(n as int)[i as int]);
            return false;
        }
        i += 1;
    }
    assert(a@.take(n as int) =~= b@.take(n as int));
    true
}

/// The question for what is on the Wayland clipboard.
pub open spec fn clipboard_question() -> CommandView {
    query(seq!["wl-paste"@], Some(VERIFY_TIMEOUT_MS))
}

/// The reply to that question shows the text.
pub open spec fn clipboard_shows(text: Seq<char>, outcome: CommandOutcome) -> bool {
    match outcome {
        CommandOutcome::Completed(o) => o.success && same_but_newlines(text, lossy_text(o.stdout@)),
        _ => false,
    }
}

/// Whether the clipboard, read back, is what was put there.
pub fn clipboard_contains(expected: &str, outcome: &CommandOutcome) -> (r: bool)
    ensures
        r == clipboard_shows(expected@, *outcome),
{
    match outcome {
        CommandOutcome::Completed(o) => {
            if o.success {
                let stdout = from_utf8_lossy(o.stdout.as_slice());
                clipboard_matches(expected, stdout.as_str())
            } else {
                false
            }
        },
        _ => false,
    }
}

/// A text that comes back as it is, with a line feed more or with one less,
/// is recognised.
pub proof fn a_newline_at_the_end_does_not_matter(s: Seq<char>)
    ensures
        same_but_newlines(s, s),
        same_but_newlines(s, s.push('\n')),
        same_but_newlines(s.push('\n'), s),
{
    assert(s.push('\n').drop_last() =~= s);
}

/// What was put on the clipboard is recognised when it is read back,
/// whatever blanks it begins or ends with: as it was, with a line feed added
/// or with one stripped.
pub proof fn what_was_set_is_recognised(text: Seq<char>, outcome: CommandOutcome)
    ensures
        outcome matches CommandOutcome::Completed(o) ==> (o.success && (lossy_text(o.stdout@)
            == text || lossy_text(o.stdout@) == text.push('\n') || text == lossy_text(
            o.stdout@,
        ).push('\n')) ==> clipboard_shows(text, outcome)),
{
    a_newline_at_the_end_does_not_matter(text);
    if let CommandOutcome::Completed(o) = outcome {
        a_newline_at_the_end_does_not_matter(lossy_text(o.stdout@));
    }
}

proof fn lemma_without_last_newlines(s: Seq<char>)
    ensures
        without_last_newlines(s).len() <= s.len(),
        without_last_newlines(s) == s.take(without_last_newlines(s).len() as int),
        without_last_newlines(s).len() > 0 ==> without_last_newlines(s).last() != '\n',
        forall|i: int| without_last_newlines(s).len() <= i < s.len() ==> #[trigger] s[i] == '\n',
    decreases s.len(),
{
    if s.len() > 0 && s.last() == '\n' {
        let rest = s.drop_last();
        lemma_without_last_newlines(rest);
        let n = without_last_newlines(s).len() as int;
        assert(rest.take(n) =~= s.take(n));
        assert forall|i: int| n <= i < s.len() implies #[trigger] s[i] == '\n' by {
            if i < rest.len() {
                assert(rest[i] == s[i]);
            }
        }
    } else {
        assert(s.take(s.len() as int) =~= s);
    }
}

/// Another text is not taken for the one that was set: two texts that count as
/// the same agree in every character but line feeds at the end, so that two
/// that do not end in one are the same text.
pub proof fn another_text_is_not_recognised(a: Seq<char>, b: Seq<char>)
    requires
        same_but_newlines(a, b),
    ensures
        forall|i: int| 0 <= i < a.len() && i < b.len() ==> #[trigger] a[i] == b[i],
        forall|i: int| a.len() <= i < b.len() ==> #[trigger] b[i] == '\n',
        forall|i: int| b.len() <= i < a.len() ==> #[trigger] a[i] == '\n',
        (a.len() == 0 || a.last() != '\n') && (b.len() == 0 || b.last() != '\n') ==> a == b,
{
    lemma_without_last_newlines(a);
    lemma_without_last_newlines(b);
    let k = without_last_newlines(a);
    assert forall|i: int| 0 <= i < a.len() && i < b.len() implies #[trigger] a[i] == b[i] by {
        if i < k.len() {
            assert(a.take(k.len() as int)[i] == a[i]);
            assert(b.take(k.len() as int)[i] == b[i]);
        }
    }
    if (a.len() == 0 || a.last() != '\n') && (b.len() == 0 || b.last() != '\n') {
        assert(a =~= b);
    }
}

/// A reply shows a text only if the question succeeded and the text is in it.
pub proof fn only_a_reply_with_the_text_shows_it(text: Seq<char>, outcome: CommandOutcome)
    requires
        clipboard_shows(text, outcome),
        text.len() > 0,
        text.last() != '\n',
    ensures
        outcome matches CommandOutcome::Completed(o) && o.success && lossy_text(o.stdout@).len()
            >= text.len() && lossy_text(o.stdout@).take(text.len() as int) == text,
{
    if let CommandOutcome::Completed(o) = outcome {
        let got = lossy_text(o.stdout@);
        another_text_is_not_recognised(text, got);
        if got.len() < text.len() {
            assert(text[text.len() - 1] == '\n');
        }
        assert(got.take(text.len() as int) =~= text);
    }
}

// ── The Wayland clipboard ─────────────────────────────────────────

/// Setting the Wayland clipboard and confirming that the data offer is live
/// by reading it back, retrying once. Pasting before the offer is registered
/// is why a paste key sometimes finds nothing to paste.
#[derive(Debug)]
pub enum VerifiedCopy {
    Copying { again: bool },
    Checking { again: bool },
    /// Last chance: set it once more and proceed. The offer may still become
    /// visible to the application even if the read-back raced.
    CopyingUnchecked,
    Done(Result<(), ClipboardError>),
}

impl VerifiedCopy {
    /// What is to be done in this state, to copy `text`.
    pub open spec fn due(self, text: Seq<char>) -> Action<CommandView> {
        match self {
            VerifiedCopy::Copying { .. } | VerifiedCopy::CopyingUnchecked => Action::Run(
                clip_command(ClipTool::WlCopy, text),
            ),
            VerifiedCopy::Checking { .. } => Action::Run(clipboard_question()),
            VerifiedCopy::Done(_) => Action::Done,
        }
    }

    /// The state that an event leads to.
    pub open spec fn after(self, text: Seq<char>, e: Event) -> VerifiedCopy {
        match (self, e) {
            (VerifiedCopy::Copying { again }, Event::Ran(o)) => match clip_result(
                ClipTool::WlCopy,
                o,
            ) {
                Ok(_) => VerifiedCopy::Checking { again },
                Err(err) => VerifiedCopy::Done(Err(err)),
            },
            (VerifiedCopy::Checking { again }, Event::Ran(o)) => if clipboard_shows(text, o) {
                VerifiedCopy::Done(Ok(()))
            } else if again {
                VerifiedCopy::CopyingUnchecked
            } else {
                VerifiedCopy::Copying { again: true }
            },
            (VerifiedCopy::CopyingUnchecked, Event::Ran(o)) => VerifiedCopy::Done(
                clip_result(ClipTool::WlCopy, o),
            ),
            _ => self,
        }
    }

    /// The time that it takes at most from here.
    pub open spec fn budget(self) -> nat {
        match self {
            VerifiedCopy::Copying { again } => if again {
                (2 * CLIP_CMD_TIMEOUT_MS + VERIFY_TIMEOUT_MS) as nat
            } else {
                (3 * CLIP_CMD_TIMEOUT_MS + 2 * VERIFY_TIMEOUT_MS) as nat
            },
            VerifiedCopy::Checking { again } => if again {
                (CLIP_CMD_TIMEOUT_MS + VERIFY_TIMEOUT_MS) as nat
            } else {
                (2 * CLIP_CMD_TIMEOUT_MS + 2 * VERIFY_TIMEOUT_MS) as nat
            },
            VerifiedCopy::CopyingUnchecked => CLIP_CMD_TIMEOUT_MS as nat,
            VerifiedCopy::Done(_) => 0,
        }
    }

    /// The beginning.
    pub fn set_clipboard_wl_copy_verified() -> (r: VerifiedCopy)
        ensures
            r == (VerifiedCopy::Copying { again: false }),
    {
        VerifiedCopy::Copying { again: false }
    }

    /// What is to be done in this state, to copy `text`.
    pub fn action(&self, text: &str) -> (r: Action<CommandSpec>)
        ensures
            action_view(r) == self.due(text@),
    {
        match self {
            VerifiedCopy::Copying { .. } | VerifiedCopy::CopyingUnchecked => Action::Run(
                set_clipboard(ClipTool::WlCopy, text),
            ),
            VerifiedCopy::Checking { .. } => {
                let argv = owned(vec!["wl-paste"]);
                assert(texts(argv@) =~= seq!["wl-paste"@]);
                Action::Run(query_command(argv, Some(VERIFY_TIMEOUT_MS)))
            },
            VerifiedCopy::Done(_) => Action::Done,
        }
    }

    /// The state that an event leads to.
    pub fn next(self, text: &str, e: Event) -> (r: VerifiedCopy)
        ensures
            r == self.after(text@, e),
    {
        match (self, e) {
            (VerifiedCopy::Copying { again }, Event::Ran(o)) => match clipboard_set(
                ClipTool::WlCopy,
                o,
            ) {
                Ok(_) => VerifiedCopy::Checking { again },
                Err(err) => VerifiedCopy::Done(Err(err)),
            },
            (VerifiedCopy::Checking { again }, Event::Ran(o)) => {
                if clipboard_contains(text, &o) {
                    VerifiedCopy::Done(Ok(()))
                } else if again {
                    VerifiedCopy::CopyingUnchecked
                } else {
                    VerifiedCopy::Copying { again: true }
                }
            },
            (VerifiedCopy::CopyingUnchecked, Event::Ran(o)) => VerifiedCopy::Done(
                clipboard_set(ClipTool::WlCopy, o),
            ),
            (s, _) => s,
        }
    }
}

/// Each step has a time limit, which the budget covers.
pub proof fn a_verified_copy_is_bounded(s: VerifiedCopy, text: Seq<char>, e: Event)
    ensures
        bounded(s.due(text)),
        answers(e, s.due(text)) ==> s.budget() >= cost_ms(s.due(text)) + s.after(text, e).budget(),
{
}

/// Success is reported only of a clipboard that was set: the step before was
/// a read-back that showed the text, or a copy that succeeded.
pub proof fn success_means_the_clipboard_was_set(s: VerifiedCopy, text: Seq<char>, e: Event)
    requires
        s !is Done,
        s.after(text, e) matches VerifiedCopy::Done(r) && r is Ok,
    ensures
        e matches Event::Ran(o) && match s {
            VerifiedCopy::Checking { .. } => clipboard_shows(text, o),
            VerifiedCopy::CopyingUnchecked => o.succeeded(),
            _ => false,
        },
{
}

/// The text is copied with wl-copy and read back with wl-paste, whose output is
/// collected for it. What the read-back shows ends the copying; where it shows
/// something else the text is copied again, and where that is not seen either
/// once more without a look. A copy that fails ends it with the error.
pub proof fn a_copy_is_read_back_and_retried(
    text: Seq<char>,
    again: bool,
    copied: CommandOutcome,
    seen: CommandOutcome,
)
    ensures
        ({
            let first = VerifiedCopy::Copying { again: false };
            let copy = VerifiedCopy::Copying { again };
            let check = copy.after(text, Event::Ran(copied));
            let then = check.after(text, Event::Ran(seen));
            &&& copy.due(text) matches Action::Run(c) && c.argv[0] == "wl-copy"@ && c.input
                == Input::<Seq<char>>::Text(text)
            &&& !copied.succeeded() ==> (check matches VerifiedCopy::Done(r) && r is Err)
            &&& copied.succeeded() ==> {
                &&& check.due(text) matches Action::Run(c) && c.argv == seq!["wl-paste"@]
                    && c.capture && c.limit_ms == Some(500u64)
                &&& clipboard_shows(text, seen) ==> then == VerifiedCopy::Done(Ok(()))
                &&& !clipboard_shows(text, seen) ==> then.due(text) == first.due(text)
                &&& !clipboard_shows(text, seen) && !again ==> then == (VerifiedCopy::Copying {
                    again: true,
                })
            }
        }),
        VerifiedCopy::CopyingUnchecked.due(text) matches Action::Run(c) && c.argv[0] == "wl-copy"@
            && c.input == Input::<Seq<char>>::Text(text),
        VerifiedCopy::CopyingUnchecked.after(text, Event::Ran(copied)) matches VerifiedCopy::Done(r)
            && (r is Ok <==> copied.succeeded()),
{
}

// ── The X11 clipboard of a Wayland session ────────────────────────

/// Seeding the X11 CLIPBOARD selection in addition to Wayland's. XWayland
/// applications read the X selection; keeping both in sync avoids relying on
/// the bridge of the compositor.
#[derive(Debug, Clone, Copy, PartialEq, Eq, Structural)]
pub enum Seeding {
    AskXsel,
    SetXsel,
    AskXclip,
    SetXclip,
    /// Over; whether the selection was set.
    Done(bool),
}

/// The window could be an XWayland one that was not recognised.
pub open spec fn worth_seeding(class: Option<FocusClass>) -> bool {
    class is None || class == Some(FocusClass::Generic)
}

impl Seeding {
    /// The first state: there is something to do only for a window that is
    /// not known, in a session that has an X display.
    pub open spec fn first(class: Option<FocusClass>, display: Option<String>) -> Seeding {
        if worth_seeding(class) && filled(display) {
            Seeding::AskXsel
        } else {
            Seeding::Done(false)
        }
    }

    /// What is to be done in this state, to seed `text`.
    pub open spec fn due(self, text: Seq<char>) -> Action<CommandView> {
        match self {
            Seeding::AskXsel => Action::Run(tool_question("xsel"@, Some(LOOKUP_TIMEOUT_MS))),
            Seeding::SetXsel => Action::Run(clip_command(ClipTool::Xsel, text)),
            Seeding::AskXclip => Action::Run(tool_question("xclip"@, Some(LOOKUP_TIMEOUT_MS))),
            Seeding::SetXclip => Action::Run(clip_command(ClipTool::Xclip, text)),
            Seeding::Done(_) => Action::Done,
        }
    }

    /// The state that an event leads to.
    pub open spec fn after(self, e: Event) -> Seeding {
        match (self, e) {
            (Seeding::AskXsel, Event::Ran(o)) => if o.succeeded() {
                Seeding::SetXsel
            } else {
                Seeding::AskXclip
            },
            (Seeding::SetXsel, Event::Ran(o)) => if o.succeeded() {
                Seeding::Done(true)
            } else {
                Seeding::AskXclip
            },
            (Seeding::AskXclip, Event::Ran(o)) => if o.succeeded() {
                Seeding::SetXclip
            } else {
                Seeding::Done(false)
            },
            (Seeding::SetXclip, Event::Ran(o)) => Seeding::Done(o.succeeded()),
            _ => self,
        }
    }

    /// The time that it takes at most from here.
    pub open spec fn budget(self) -> nat {
        match self {
            Seeding::AskXsel => (2 * CLIP_CMD_TIMEOUT_MS + 2 * LOOKUP_TIMEOUT_MS) as nat,
            Seeding::SetXsel => (2 * CLIP_CMD_TIMEOUT_MS + LOOKUP_TIMEOUT_MS) as nat,
            Seeding::AskXclip => (CLIP_CMD_TIMEOUT_MS + LOOKUP_TIMEOUT_MS) as nat,
            Seeding::SetXclip => CLIP_CMD_TIMEOUT_MS as nat,
            Seeding::Done(_) => 0,
        }
    }

    /// The beginning, for a focused window of a class, if it is known.
    pub fn maybe_set_x_clipboard(class: Option<FocusClass>, display: &Option<String>) -> (r: Seeding)
        ensures
            r == Seeding::first(class, *display),
    {
        let worth_it = match class {
            None | Some(FocusClass::Generic) => true,
            Some(_) => false,
        };
        if worth_it && is_filled(display) {
            Seeding::AskXsel
        } else {
            Seeding::Done(false)
        }
    }

    /// What is to be done in this state, to seed `text`.
    pub fn action(&self, text: &str) -> (r: Action<CommandSpec>)
        ensures
            action_view(r) == self.due(text@),
    {
        match self {
            Seeding::AskXsel => Action::Run(require_tool("xsel", Some(LOOKUP_TIMEOUT_MS))),
            Seeding::SetXsel => Action::Run(set_clipboard(ClipTool::Xsel, text)),
            Seeding::AskXclip => Action::Run(require_tool("xclip", Some(LOOKUP_TIMEOUT_MS))),
            Seeding::SetXclip => Action::Run(set_clipboard(ClipTool::Xclip, text)),
            Seeding::Done(_) => Action::Done,
        }
    }

    /// The state that an event leads to.
    pub fn next(self, e: &Event) -> (r: Seeding)
        ensures
            r == self.after(*e),
    {
        match e {
            Event::Ran(o) => {
                let ok = o.is_success();
                match self {
                    Seeding::AskXsel => if ok {
                        Seeding::SetXsel
                    } else {
                        Seeding::AskXclip
                    },
                    Seeding::SetXsel => if ok {
                        Seeding::Done(true)
                    } else {
                        Seeding::AskXclip
                    },
                    Seeding::AskXclip => if ok {
                        Seeding::SetXclip
                    } else {
                        Seeding::Done(false)
                    },
                    Seeding::SetXclip => Seeding::Done(ok),
                    Seeding::Done(b) => Seeding::Done(b),
                }
            },
            Event::Slept => self,
        }
    }
}

/// Each step has a time limit, which the budget covers.
pub proof fn seeding_is_bounded(s: Seeding, text: Seq<char>, e: Event)
    ensures
        bounded(s.due(text)),
        answers(e, s.due(text)) ==> s.budget() >= cost_ms(s.due(text)) + s.after(e).budget(),
{
}

/// The X11 clipboard is seeded exactly for a window whose application is not
/// known, in a session with an X display, and it is seeded with the text.
pub proof fn an_unknown_window_has_its_x11_clipboard_seeded(
    class: Option<FocusClass>,
    display: Option<String>,
    text: Seq<char>,
)
    ensures
        Seeding::first(class, display).due(text) is Done <==> class == Some(FocusClass::Terminal)
            || class == Some(FocusClass::Browser) || class == Some(FocusClass::Ide) || !(
        display matches Some(d) && d@.len() > 0),
        Seeding::SetXsel.due(text) matches Action::Run(c) && c.argv[0] == "xsel"@ && c.input
            == Input::<Seq<char>>::Text(text),
        Seeding::SetXclip.due(text) matches Action::Run(c) && c.argv[0] == "xclip"@ && c.input
            == Input::<Seq<char>>::Text(text),
{
    if let Some(c) = class {
        assert(c == FocusClass::Terminal || c == FocusClass::Browser || c == FocusClass::Ide || c
            == FocusClass::Generic);
    }
}

/// Seeding succeeds exactly where one of the two tools is there and sets the
/// selection; the second is not asked for where the first did it.
pub proof fn one_tool_seeds_the_x11_clipboard(
    has_xsel: CommandOutcome,
    xsel: CommandOutcome,
    has_xclip: CommandOutcome,
    xclip: CommandOutcome,
)
    ensures
        ({
            let s = Seeding::AskXsel.after(Event::Ran(has_xsel));
            let t = if s is SetXsel {
                s.after(Event::Ran(xsel))
            } else {
                s
            };
            let u = if t is AskXclip {
                t.after(Event::Ran(has_xclip))
            } else {
                t
            };
            let v = if u is SetXclip {
                u.after(Event::Ran(xclip))
            } else {
                u
            };
            &&& v == Seeding::Done(
                (has_xsel.succeeded() && xsel.succeeded()) || (has_xclip.succeeded()
                    && xclip.succeeded()),
            )
            &&& has_xsel.succeeded() && xsel.succeeded() ==> t == Seeding::Done(true)
        }),
{
}

}
