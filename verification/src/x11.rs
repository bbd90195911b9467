//! Questions about the active window of an X11 session.

use crate::command::{lookup, lookup_command, CommandOutcome, CommandSpec, CommandView};
use crate::environment::LOOKUP_TIMEOUT_MS;
use crate::focus::{is_known_terminal, terminal_name};
use crate::text::{
    chars_of, decimal, decimal_string, from_utf8_lossy, is_listed, lossy_text, lowercase, opt_text,
    owned, parse_u32, parsed_number, str_texts, texts, to_lowercase, trim, trimmed,
};
use vstd::prelude::*;

verus! {

// ── Window classes ────────────────────────────────────────────────

/// The last position of a character in a text; -1 where it has none.
pub open spec fn last_at(s: Seq<char>, c: char) -> int
    decreases s.len(),
{
    if s.len() == 0 {
        -1
    } else if s.last() == c {
        s.len() - 1
    } else {
        last_at(s.drop_last(), c)
    }
}

/// What stands before the last quotation mark of a text, back to the one
/// before it or to the start; nothing where there is no quotation mark.
pub open spec fn last_quoted(s: Seq<char>) -> Option<Seq<char>> {
    let k = last_at(s, '"');
    if k < 0 {
        None
    } else {
        Some(s.subrange(last_at(s.take(k), '"') + 1, k))
    }
}

/// The class of a window in the `WM_CLASS` line of its properties: the last
/// quoted name, trimmed and in lower case, unless that leaves nothing.
pub open spec fn wm_class_in(output: Seq<char>) -> Option<Seq<char>> {
    match last_quoted(output) {
        Some(name) => {
            let class = lowercase(trimmed(name));
            if class.len() == 0 {
                None
            } else {
                Some(class)
            }
        },
        None => None,
    }
}

proof fn lemma_last_at(s: Seq<char>, c: char, k: int)
    requires
        -1 <= k < s.len(),
        k >= 0 ==> s[k] == c,
        forall|i: int| k < i < s.len() ==> s[i] != c,
    ensures
        last_at(s, c) == k,
    decreases s.len(),
{
    if s.len() > 0 && s.last() != c {
        lemma_last_at(s.drop_last(), c, k);
    }
}

/// How many of the first `end` characters come before the last `c` among
/// them, that one included.
fn past_last(s: &Vec<char>, c: char, end: usize) -> (r: usize)
    requires
        end <= s@.len(),
    ensures
        r == last_at(s@.take(end as int), c) + 1,
        r <= end,
        r > 0 ==> s@[r - 1] == c,
{
    let mut r: usize = end;
    while r > 0 && s[r - 1] != c
        invariant
            r <= end <= s@.len(),
            forall|i: int| r <= i < end ==> s@[i] != c,
        decreases r,
    {
        r -= 1;
    }
    proof {
        lemma_last_at(s@.take(end as int), c, r - 1);
    }
    r
}

/// The characters of `s` from `from` up to `to`.
fn text_between(s: &Vec<char>, from: usize, to: usize) -> (r: String)
    requires
        from <= to <= s@.len(),
    ensures
        r@ == s@.subrange(from as int, to as int),
{
    let mut out = String::new();
    for i in from..to
        invariant
            to <= s@.len(),
            from <= i <= to,
            out@ == s@.subrange(from as int, i as int),
    {
        out.push(s[i]);
        assert(out@ =~= s@.subrange(from as int, i + 1));
    }
    out
}

/// Extracts the class from an `xprop -id <win> WM_CLASS` output line,
/// e.g. `WM_CLASS(STRING) = "alacritty", "Alacritty"` gives `alacritty`.
pub fn parse_wm_class(output: &str) -> (r: Option<String>)
    ensures
        opt_text(r) == wm_class_in(output@),
{
    let s = chars_of(output);
    let len: usize = s.len();
    let past: usize = past_last(&s, '"', len);
    assert(s@.take(len as int) =~= output@);
    if past == 0 {
        return None;
    }
    let start: usize = past_last(&s, '"', past - 1);
    let name = text_between(&s, start, past - 1);
    let class = to_lowercase(trim(name.as_str()));
    if class.as_str().is_empty() {
        None
    } else {
        Some(class)
    }
}

// ── Commands ──────────────────────────────────────────────────────

/// The question for the active window.
pub open spec fn window_question() -> CommandView {
    lookup(seq!["xdotool"@, "getactivewindow"@], Some(LOOKUP_TIMEOUT_MS))
}

fn window_query() -> (r: CommandSpec)
    ensures
        r@ == window_question(),
{
    let argv = owned(vec!["xdotool", "getactivewindow"]);
    assert(texts(argv@) =~= seq!["xdotool"@, "getactivewindow"@]);
    lookup_command(argv, Some(LOOKUP_TIMEOUT_MS))
}

/// The question for the class of a window.
pub open spec fn class_question(window: Seq<char>) -> CommandView {
    lookup(seq!["xprop"@, "-id"@, window, "WM_CLASS"@], Some(LOOKUP_TIMEOUT_MS))
}

fn class_query(window: &str) -> (r: CommandSpec)
    ensures
        r@ == class_question(window@),
{
    let argv = owned(vec!["xprop", "-id", window, "WM_CLASS"]);
    assert(texts(argv@) =~= seq!["xprop"@, "-id"@, window@, "WM_CLASS"@]);
    lookup_command(argv, Some(LOOKUP_TIMEOUT_MS))
}

/// The question for the process of the active window.
pub open spec fn pid_question() -> CommandView {
    lookup(seq!["xdotool"@, "getactivewindow"@, "getwindowpid"@], Some(LOOKUP_TIMEOUT_MS))
}

fn pid_query() -> (r: CommandSpec)
    ensures
        r@ == pid_question(),
{
    let argv = owned(vec!["xdotool", "getactivewindow", "getwindowpid"]);
    assert(texts(argv@) =~= seq!["xdotool"@, "getactivewindow"@, "getwindowpid"@]);
    lookup_command(argv, Some(LOOKUP_TIMEOUT_MS))
}

/// The question for the name of a process.
pub open spec fn process_question(pid: u32, limit_ms: Option<u64>) -> CommandView {
    lookup(seq!["ps"@, "-p"@, decimal(pid as nat), "-o"@, "comm="@], limit_ms)
}

/// The question for the name of a process.
pub fn process_query(pid: u32, limit_ms: Option<u64>) -> (r: CommandSpec)
    ensures
        r@ == process_question(pid, limit_ms),
{
    let number = decimal_string(pid as u64);
    let argv = owned(vec!["ps", "-p", number.as_str(), "-o", "comm="]);
    assert(texts(argv@) =~= seq!["ps"@, "-p"@, decimal(pid as nat), "-o"@, "comm="@]);
    lookup_command(argv, limit_ms)
}

/// What a program that ran to its end has printed, trimmed.
pub open spec fn printed(outcome: CommandOutcome) -> Option<Seq<char>> {
    match outcome {
        CommandOutcome::Completed(o) => Some(trimmed(lossy_text(o.stdout@))),
        _ => None,
    }
}

/// What a program that ran to its end has printed, trimmed.
pub(crate) fn printed_text(outcome: &CommandOutcome) -> (r: Option<String>)
    ensures
        opt_text(r) == printed(*outcome),
{
    match outcome {
        CommandOutcome::Completed(o) => {
            let stdout = from_utf8_lossy(o.stdout.as_slice());
            Some(trim(stdout.as_str()).to_owned())
        },
        _ => None,
    }
}

// ── Terminal windows ──────────────────────────────────────────────

/// The search whether the active window is a terminal: by the class of the
/// window, and where that is no terminal's by the name of its process.
#[derive(Debug)]
pub enum TerminalProbe<S> {
    AskWindow,
    AskClass { window: S },
    AskPid,
    AskProcess { pid: u32 },
    Decided(bool),
}

impl View for TerminalProbe<String> {
    type V = TerminalProbe<Seq<char>>;

    open spec fn view(&self) -> TerminalProbe<Seq<char>> {
        match self {
            TerminalProbe::AskWindow => TerminalProbe::AskWindow,
            TerminalProbe::AskClass { window } => TerminalProbe::AskClass { window: window@ },
            TerminalProbe::AskPid => TerminalProbe::AskPid,
            TerminalProbe::AskProcess { pid } => TerminalProbe::AskProcess { pid: *pid },
            TerminalProbe::Decided(b) => TerminalProbe::Decided(*b),
        }
    }
}

/// The class that the properties of a window show is a terminal's.
pub open spec fn terminal_by_class(outcome: CommandOutcome) -> bool {
    match outcome {
        CommandOutcome::Completed(o) => match wm_class_in(lossy_text(o.stdout@)) {
            Some(class) => terminal_name(class),
            None => false,
        },
        _ => false,
    }
}

impl TerminalProbe<Seq<char>> {
    /// The command that the search waits for.
    pub open spec fn due(self) -> Option<CommandView> {
        match self {
            TerminalProbe::AskWindow => Some(window_question()),
            TerminalProbe::AskClass { window } => Some(class_question(window)),
            TerminalProbe::AskPid => Some(pid_question()),
            TerminalProbe::AskProcess { pid } => Some(
                process_question(pid, Some(LOOKUP_TIMEOUT_MS)),
            ),
            TerminalProbe::Decided(_) => None,
        }
    }

    /// The state that the outcome of that command leads to.
    pub open spec fn after(self, outcome: CommandOutcome) -> TerminalProbe<Seq<char>> {
        match self {
            TerminalProbe::AskWindow => match printed(outcome) {
                Some(window) => if window.len() == 0 {
                    TerminalProbe::Decided(false)
                } else {
                    TerminalProbe::AskClass { window }
                },
                None => TerminalProbe::Decided(false),
            },
            TerminalProbe::AskClass { .. } => if terminal_by_class(outcome) {
                TerminalProbe::Decided(true)
            } else {
                TerminalProbe::AskPid
            },
            TerminalProbe::AskPid => match printed(outcome) {
                Some(number) => match parsed_number(number, u32::MAX as nat) {
                    Some(pid) => TerminalProbe::AskProcess { pid: pid as u32 },
                    None => TerminalProbe::Decided(false),
                },
                None => TerminalProbe::Decided(false),
            },
            TerminalProbe::AskProcess { .. } => TerminalProbe::Decided(
                match printed(outcome) {
                    Some(name) => terminal_name(lowercase(name)),
                    None => false,
                },
            ),
            TerminalProbe::Decided(_) => self,
        }
    }

    /// The time that the search takes at most from here.
    pub open spec fn budget(self) -> nat {
        match self {
            TerminalProbe::AskWindow => 4 * LOOKUP_TIMEOUT_MS as nat,
            TerminalProbe::AskClass { .. } => 3 * LOOKUP_TIMEOUT_MS as nat,
            TerminalProbe::AskPid => 2 * LOOKUP_TIMEOUT_MS as nat,
            TerminalProbe::AskProcess { .. } => LOOKUP_TIMEOUT_MS as nat,
            TerminalProbe::Decided(_) => 0,
        }
    }
}

impl TerminalProbe<String> {
    /// The search from its beginning.
    pub fn is_terminal_window() -> (r: Self)
        ensures
            r@ == TerminalProbe::<Seq<char>>::AskWindow,
    {
        TerminalProbe::AskWindow
    }

    /// The command that the search waits for.
    pub fn command(&self) -> (r: Option<CommandSpec>)
        ensures
            match r {
                Some(c) => self@.due() == Some(c@),
                None => self@.due() is None,
            },
    {
        match self {
            TerminalProbe::AskWindow => Some(window_query()),
            TerminalProbe::AskClass { window } => Some(class_query(window.as_str())),
            TerminalProbe::AskPid => Some(pid_query()),
            TerminalProbe::AskProcess { pid } => Some(process_query(*pid, Some(LOOKUP_TIMEOUT_MS))),
            TerminalProbe::Decided(_) => None,
        }
    }

    /// The state that the outcome of that command leads to.
    pub fn next(self, outcome: &CommandOutcome) -> (r: Self)
        ensures
            r@ == self@.after(*outcome),
    {
        match self {
            TerminalProbe::AskWindow => match printed_text(outcome) {
                Some(window) => if window.as_str().is_empty() {
                    TerminalProbe::Decided(false)
                } else {
                    TerminalProbe::AskClass { window }
                },
                None => TerminalProbe::Decided(false),
            },
            TerminalProbe::AskClass { .. } => {
                let known = match outcome {
                    CommandOutcome::Completed(o) => {
                        let stdout = from_utf8_lossy(o.stdout.as_slice());
                        match parse_wm_class(stdout.as_str()) {
                            Some(class) => is_known_terminal(class.as_str()),
                            None => false,
                        }
                    },
                    _ => false,
                };
                if known {
                    TerminalProbe::Decided(true)
                } else {
                    TerminalProbe::AskPid
                }
            },
            TerminalProbe::AskPid => match printed_text(outcome) {
                Some(number) => match parse_u32(number.as_str()) {
                    Some(pid) => TerminalProbe::AskProcess { pid },
                    None => TerminalProbe::Decided(false),
                },
                None => TerminalProbe::Decided(false),
            },
            TerminalProbe::AskProcess { .. } => match printed_text(outcome) {
                Some(name) => {
                    let lowered = to_lowercase(name.as_str());
                    TerminalProbe::Decided(is_known_terminal(lowered.as_str()))
                },
                None => TerminalProbe::Decided(false),
            },
            TerminalProbe::Decided(b) => TerminalProbe::Decided(b),
        }
    }
}

/// Each question of the search has a time limit, which its budget covers.
pub proof fn a_terminal_search_is_bounded(p: TerminalProbe<Seq<char>>, outcome: CommandOutcome)
    ensures
        p.due() matches Some(c) ==> c.limit_ms == Some(LOOKUP_TIMEOUT_MS) && p.budget()
            >= LOOKUP_TIMEOUT_MS + p.after(outcome).budget(),
{
}

// ── Editor windows ────────────────────────────────────────────────

/// The window classes of the editors that take the paste shortcut of a
/// synthetic keystroke for something else.
pub open spec fn editor_names() -> Seq<&'static str> {
    seq!["code", "code-oss", "vscode", "vscodium"]
}

/// The search whether the active window is such an editor.
#[derive(Debug)]
pub enum EditorProbe<S> {
    AskWindow,
    AskClass { window: S },
    Decided(bool),
}

impl View for EditorProbe<String> {
    type V = EditorProbe<Seq<char>>;

    open spec fn view(&self) -> EditorProbe<Seq<char>> {
        match self {
            EditorProbe::AskWindow => EditorProbe::AskWindow,
            EditorProbe::AskClass { window } => EditorProbe::AskClass { window: window@ },
            EditorProbe::Decided(b) => EditorProbe::Decided(*b),
        }
    }
}

/// The class that the properties of a window show is an editor's.
pub open spec fn editor_by_class(outcome: CommandOutcome) -> bool {
    match outcome {
        CommandOutcome::Completed(o) => match wm_class_in(lossy_text(o.stdout@)) {
            Some(class) => str_texts(editor_names()).contains(class),
            None => false,
        },
        _ => false,
    }
}

impl EditorProbe<Seq<char>> {
    /// The command that the search waits for.
    pub open spec fn due(self) -> Option<CommandView> {
        match self {
            EditorProbe::AskWindow => Some(window_question()),
            EditorProbe::AskClass { window } => Some(class_question(window)),
            EditorProbe::Decided(_) => None,
        }
    }

    /// The state that the outcome of that command leads to.
    pub open spec fn after(self, outcome: CommandOutcome) -> EditorProbe<Seq<char>> {
        match self {
            EditorProbe::AskWindow => match printed(outcome) {
                Some(window) => if window.len() == 0 {
                    EditorProbe::Decided(false)
                } else {
                    EditorProbe::AskClass { window }
                },
                None => EditorProbe::Decided(false),
            },
            EditorProbe::AskClass { .. } => EditorProbe::Decided(editor_by_class(outcome)),
            EditorProbe::Decided(_) => self,
        }
    }

    /// The time that the search takes at most from here.
    pub open spec fn budget(self) -> nat {
        match self {
            EditorProbe::AskWindow => 2 * LOOKUP_TIMEOUT_MS as nat,
            EditorProbe::AskClass { .. } => LOOKUP_TIMEOUT_MS as nat,
            EditorProbe::Decided(_) => 0,
        }
    }
}

impl EditorProbe<String> {
    /// The search from its beginning.
    pub fn is_vscode_window_x11() -> (r: Self)
        ensures
            r@ == EditorProbe::<Seq<char>>::AskWindow,
    {
        EditorProbe::AskWindow
    }

    /// The command that the search waits for.
    pub fn command(&self) -> (r: Option<CommandSpec>)
        ensures
            match r {
                Some(c) => self@.due() == Some(c@),
                None => self@.due() is None,
            },
    {
        match self {
            EditorProbe::AskWindow => Some(window_query()),
            EditorProbe::AskClass { window } => Some(class_query(window.as_str())),
            EditorProbe::Decided(_) => None,
        }
    }

    /// The state that the outcome of that command leads to.
    pub fn next(self, outcome: &CommandOutcome) -> (r: Self)
        ensures
            r@ == self@.after(*outcome),
    {
        match self {
            EditorProbe::AskWindow => match printed_text(outcome) {
                Some(window) => if window.as_str().is_empty() {
                    EditorProbe::Decided(false)
                } else {
                    EditorProbe::AskClass { window }
                },
                None => EditorProbe::Decided(false),
            },
            EditorProbe::AskClass { .. } => {
                let names = vec!["code", "code-oss", "vscode", "vscodium"];
                assert(names@ =~= editor_names());
                let known = match outcome {
                    CommandOutcome::Completed(o) => {
                        let stdout = from_utf8_lossy(o.stdout.as_slice());
                        match parse_wm_class(stdout.as_str()) {
                            Some(class) => is_listed(class.as_str(), &names),
                            None => false,
                        }
                    },
                    _ => false,
                };
                EditorProbe::Decided(known)
            },
            EditorProbe::Decided(b) => EditorProbe::Decided(b),
        }
    }
}

/// Each question of the search has a time limit, which its budget covers.
pub proof fn an_editor_search_is_bounded(p: EditorProbe<Seq<char>>, outcome: CommandOutcome)
    ensures
        p.due() matches Some(c) ==> c.limit_ms == Some(LOOKUP_TIMEOUT_MS) && p.budget()
            >= LOOKUP_TIMEOUT_MS + p.after(outcome).budget(),
{
}

// ── Laws ──────────────────────────────────────────────────────────

/// The class of a window is the last quoted name of its properties, trimmed and
/// in lower case; what stands before that name and after it does not matter.
pub proof fn the_class_is_the_last_quoted_name(
    before: Seq<char>,
    name: Seq<char>,
    after: Seq<char>,
)
    requires
        forall|i: int| 0 <= i < name.len() ==> #[trigger] name[i] != '"',
        forall|i: int| 0 <= i < after.len() ==> #[trigger] after[i] != '"',
    ensures
        wm_class_in(before + seq!['"'] + name + seq!['"'] + after) == if lowercase(
            trimmed(name),
        ).len() == 0 {
            None
        } else {
            Some(lowercase(trimmed(name)))
        },
        wm_class_in(after) is None,
{
    let s = before + seq!['"'] + name + seq!['"'] + after;
    let k = before.len() + 1 + name.len();
    assert(s[k as int] == '"');
    assert forall|i: int| k < i < s.len() implies s[i] != '"' by {
        assert(s[i] == after[i - k - 1]);
    }
    lemma_last_at(s, '"', k as int);
    let t = s.take(k as int);
    assert forall|i: int| before.len() < i < t.len() implies t[i] != '"' by {
        assert(t[i] == name[i - before.len() - 1]);
    }
    lemma_last_at(t, '"', before.len() as int);
    assert(s.subrange(before.len() as int + 1, k as int) =~= name);
    lemma_last_at(after, '"', -1);
}

/// The questions for a window are asked with the tools of X11, about the window
/// and the process that they are for, without input.
pub proof fn a_window_is_asked_about_by_its_number(window: Seq<char>, pid: u32)
    ensures
        window_question().argv == seq!["xdotool"@, "getactivewindow"@],
        class_question(window).argv == seq!["xprop"@, "-id"@, window, "WM_CLASS"@],
        pid_question().argv == seq!["xdotool"@, "getactivewindow"@, "getwindowpid"@],
        process_question(pid, None).argv == seq![
            "ps"@,
            "-p"@,
            decimal(pid as nat),
            "-o"@,
            "comm="@,
        ],
        window_question().input is Empty && class_question(window).input is Empty,
        pid_question().input is Empty && process_question(pid, None).input is Empty,
        process_question(pid, None).limit_ms is None,
        window_question().limit_ms == Some(800u64),
        class_question(window).limit_ms == Some(800u64),
        pid_question().limit_ms == Some(800u64),
        class_question(window).capture && window_question().capture && pid_question().capture
            && process_question(pid, None).capture,
{
}

/// The active window is a terminal exactly where its class is that of one, or
/// where that is not so and its process is one by name. Without a window there
/// is no terminal, and without a process there is none by name.
pub proof fn a_terminal_is_known_by_its_class_or_its_process(
    window: CommandOutcome,
    class: CommandOutcome,
    number: CommandOutcome,
    process: CommandOutcome,
)
    ensures
        ({
            let s = TerminalProbe::<Seq<char>>::AskWindow.after(window);
            let t = if s is AskClass {
                s.after(class)
            } else {
                s
            };
            let u = if t is AskPid {
                t.after(number)
            } else {
                t
            };
            let v = if u is AskProcess {
                u.after(process)
            } else {
                u
            };
            let has_window = window matches CommandOutcome::Completed(o) && trimmed(
                lossy_text(o.stdout@),
            ).len() > 0;
            let by_class = class matches CommandOutcome::Completed(o) && (wm_class_in(
                lossy_text(o.stdout@),
            ) matches Some(c) && str_texts(crate::focus::terminal_names()).contains(c));
            let has_process = number matches CommandOutcome::Completed(o) && parsed_number(
                trimmed(lossy_text(o.stdout@)),
                u32::MAX as nat,
            ) is Some;
            let by_process = process matches CommandOutcome::Completed(o) && str_texts(
                crate::focus::terminal_names(),
            ).contains(lowercase(trimmed(lossy_text(o.stdout@))));
            v == TerminalProbe::<Seq<char>>::Decided(
                has_window && (by_class || (has_process && by_process)),
            )
        }),
{
}

/// The class of the window that was found is asked for, and the name of the
/// process that was found.
pub proof fn the_search_goes_on_with_what_it_found(outcome: CommandOutcome, found: Seq<char>)
    requires
        outcome matches CommandOutcome::Completed(o) && trimmed(lossy_text(o.stdout@)) == found,
        found.len() > 0,
    ensures
        TerminalProbe::<Seq<char>>::AskWindow.after(outcome).due() matches Some(c)
            && c.argv.contains(found),
        EditorProbe::<Seq<char>>::AskWindow.after(outcome).due() matches Some(c) && c.argv.contains(
            found,
        ),
        parsed_number(found, u32::MAX as nat) matches Some(n) ==> (TerminalProbe::<
            Seq<char>,
        >::AskPid.after(outcome).due() matches Some(c) && c.argv.contains(decimal(n))),
{
    let w = class_question(found).argv;
    assert(w[2] == found);
    if let Some(n) = parsed_number(found, u32::MAX as nat) {
        let p = process_question(n as u32, Some(LOOKUP_TIMEOUT_MS)).argv;
        assert(p[2] == decimal(n));
    }
}

/// The active window is such an editor exactly where there is a window and its
/// class is one of the four names.
pub proof fn an_editor_is_known_by_its_class(window: CommandOutcome, class: CommandOutcome)
    ensures
        ({
            let s = EditorProbe::<Seq<char>>::AskWindow.after(window);
            let t = if s is AskClass {
                s.after(class)
            } else {
                s
            };
            let has_window = window matches CommandOutcome::Completed(o) && trimmed(
                lossy_text(o.stdout@),
            ).len() > 0;
            let by_class = class matches CommandOutcome::Completed(o) && (wm_class_in(
                lossy_text(o.stdout@),
            ) matches Some(c) && (c == "code"@ || c == "code-oss"@ || c == "vscode"@ || c
                == "vscodium"@));
            t == EditorProbe::<Seq<char>>::Decided(has_window && by_class)
        }),
{
    let names = str_texts(editor_names());
    assert(names[0] == "code"@ && names[1] == "code-oss"@ && names[2] == "vscode"@ && names[3]
        == "vscodium"@);
    assert(names.len() == 4);
    assert forall|c: Seq<char>| #[trigger] names.contains(c) implies c == "code"@ || c
        == "code-oss"@ || c == "vscode"@ || c == "vscodium"@ by {
        let i = choose|i: int| 0 <= i < names.len() && names[i] == c;
        assert(i == 0 || i == 1 || i == 2 || i == 3);
    }
}

/// The values of the searches show them as they are.
pub proof fn a_search_is_shown_as_it_is(t: TerminalProbe<String>, e: EditorProbe<String>)
    ensures
        t is AskWindow ==> t@ is AskWindow,
        t matches TerminalProbe::AskClass { window } ==> t@ == (TerminalProbe::AskClass {
            window: window@,
        }),
        t is AskPid ==> t@ is AskPid,
        t matches TerminalProbe::AskProcess { pid } ==> t@ == (TerminalProbe::<
            Seq<char>,
        >::AskProcess { pid }),
        t matches TerminalProbe::Decided(b) ==> t@ == TerminalProbe::<Seq<char>>::Decided(b),
        e is AskWindow ==> e@ is AskWindow,
        e matches EditorProbe::AskClass { window } ==> e@ == (EditorProbe::AskClass {
            window: window@,
        }),
        e matches EditorProbe::Decided(b) ==> e@ == EditorProbe::<Seq<char>>::Decided(b),
{
}

}
