//! Putting dictated text into the focused window: on the clipboard first, and
//! from there by the paste shortcut of the application.

use crate::clipboard::{
    clip_command, set_clipboard, ClipTool, ClipboardError, Seeding, VerifiedCopy,
    CLIP_CMD_TIMEOUT_MS,
};
use crate::command::{
    action_view, answers, bounded, cost_ms, Action, CommandOutcome, CommandSpec, CommandView, Event,
    Input,
};
use crate::environment::{
    check_display_env, compositor_of, detect_wayland_compositor, display_fault, require_tool,
    socket_of, tool_question, DesktopEnv, DisplayError, DisplayFault, EnvVars, WaylandCompositor,
    X11Tools, LOOKUP_TIMEOUT_MS,
};
use crate::focus::{
    detect_focus_target, focus_by_reply, focus_query, focus_question, FocusClass, TargetView,
    IPC_TIMEOUT_MS,
};
use crate::paste::{
    press_with_xdotool, shortcut, shortcut_for, target_keys, xdotool_command, EditorSearch,
    PasteView, WtypePaste, RETRY_PAUSE_MS, WTYPE_TIMEOUT_MS,
};
use crate::text::{a_part_stands_in_the_whole, has_text, opt_text};
use crate::x11::{EditorProbe, TerminalProbe};
use vstd::prelude::*;

verus! {

/// Pause to let the X11 clipboard propagate after it was set: the tools
/// report success once the data is registered, before the selection is live.
pub const CLIPBOARD_PROPAGATE_DELAY_MS: u64 = 50;

// ── Errors ────────────────────────────────────────────────────────

/// Why text was not injected.
#[derive(Debug)]
pub enum InjectError {
    /// The display of the session cannot be used.
    Display(DisplayError),
    /// No tool set the X11 clipboard.
    NoClipboard,
    /// The paste shortcut was reported as failed, with this exit status.
    KeyExited { terminal: bool, status: String },
    KeyTimedOut { terminal: bool },
    /// The paste shortcut could not be sent.
    KeyNotRun { terminal: bool, why: String },
    NoWlCopy,
    /// The Wayland clipboard was not set.
    Clipboard(ClipboardError),
}

impl InjectError {
    /// The words for the error.
    pub open spec fn words(self) -> Seq<char> {
        match self {
            InjectError::Display(e) => e.words(),
            InjectError::NoClipboard => "Both xsel and xclip failed to set clipboard. Install: sudo apt install xsel xclip"@,
            InjectError::KeyExited { terminal, status } => "xdotool key "@ + shortcut(terminal)
                + " failed ("@ + status@
                + "). Clipboard is set (manual paste). Is DISPLAY set correctly?"@,
            InjectError::KeyTimedOut { terminal } => "xdotool key "@ + shortcut(terminal)
                + " timed out. Clipboard is set (manual paste)."@,
            InjectError::KeyNotRun { terminal, why } => "xdotool key "@ + shortcut(terminal)
                + " failed ("@ + why@ + "). Clipboard is set (manual paste)."@,
            InjectError::NoWlCopy => "wl-copy not found. Install: sudo apt install wl-clipboard"@,
            InjectError::Clipboard(e) => e.words(),
        }
    }

    /// The message for the user.
    pub fn message(&self) -> (r: String)
        ensures
            r@ == self.words(),
    {
        match self {
            InjectError::Display(e) => e.message(),
            InjectError::NoClipboard => "Both xsel and xclip failed to set clipboard. Install: sudo apt install xsel xclip".to_owned(),
            InjectError::KeyExited { terminal, status } => {
                let mut m = "xdotool key ".to_owned();
                m.append(shortcut_for(*terminal));
                m.append(" failed (");
                m.append(status.as_str());
                m.append("). Clipboard is set (manual paste). Is DISPLAY set correctly?");
                m
            },
            InjectError::KeyTimedOut { terminal } => {
                let mut m = "xdotool key ".to_owned();
                m.append(shortcut_for(*terminal));
                m.append(" timed out. Clipboard is set (manual paste).");
                m
            },
            InjectError::KeyNotRun { terminal, why } => {
                let mut m = "xdotool key ".to_owned();
                m.append(shortcut_for(*terminal));
                m.append(" failed (");
                m.append(why.as_str());
                m.append("). Clipboard is set (manual paste).");
                m
            },
            InjectError::NoWlCopy => "wl-copy not found. Install: sudo apt install wl-clipboard".to_owned(),
            InjectError::Clipboard(e) => e.message(),
        }
    }
}

// ── X11 ───────────────────────────────────────────────────────────

/// Injection into an X11 window.
#[derive(Debug)]
pub enum X11Injection<S> {
    /// Set the clipboard via xsel.
    SetXsel,
    /// xsel failed: set it via xclip.
    SetXclip,
    /// Wait for the clipboard to propagate.
    Settle,
    /// Ask whether the window is an editor that takes the shortcut for
    /// something else.
    Editor(EditorProbe<S>),
    /// Ask whether the window is a terminal.
    Terminal(TerminalProbe<S>),
    /// Ask whether the shortcut can be sent.
    AskXdotool { terminal: bool },
    Press { terminal: bool },
    Done(Result<(), InjectError>),
}

impl View for X11Injection<String> {
    type V = X11Injection<Seq<char>>;

    open spec fn view(&self) -> X11Injection<Seq<char>> {
        match self {
            X11Injection::SetXsel => X11Injection::SetXsel,
            X11Injection::SetXclip => X11Injection::SetXclip,
            X11Injection::Settle => X11Injection::Settle,
            X11Injection::Editor(p) => X11Injection::Editor(p@),
            X11Injection::Terminal(p) => X11Injection::Terminal(p@),
            X11Injection::AskXdotool { terminal } => X11Injection::AskXdotool {
                terminal: *terminal,
            },
            X11Injection::Press { terminal } => X11Injection::Press { terminal: *terminal },
            X11Injection::Done(r) => X11Injection::Done(*r),
        }
    }
}

/// What came of sending the paste shortcut.
pub open spec fn press_result(terminal: bool, outcome: CommandOutcome) -> Result<(), InjectError> {
    match outcome {
        CommandOutcome::Completed(o) => if o.success {
            Ok(())
        } else {
            Err(InjectError::KeyExited { terminal, status: o.status })
        },
        CommandOutcome::TimedOut => Err(InjectError::KeyTimedOut { terminal }),
        CommandOutcome::Failed(why) => Err(InjectError::KeyNotRun { terminal, why }),
    }
}

fn pressed(terminal: bool, outcome: CommandOutcome) -> (r: Result<(), InjectError>)
    ensures
        r == press_result(terminal, outcome),
{
    match outcome {
        CommandOutcome::Completed(o) => if o.success {
            Ok(())
        } else {
            Err(InjectError::KeyExited { terminal, status: o.status })
        },
        CommandOutcome::TimedOut => Err(InjectError::KeyTimedOut { terminal }),
        CommandOutcome::Failed(why) => Err(InjectError::KeyNotRun { terminal, why }),
    }
}

/// A question as an action; no question as none.
pub open spec fn ask(c: Option<CommandView>) -> Action<CommandView> {
    match c {
        Some(c) => Action::Run(c),
        None => Action::Done,
    }
}

fn ask_action(c: Option<CommandSpec>) -> (r: Action<CommandSpec>)
    ensures
        action_view(r) == ask(
            match c {
                Some(c) => Some(c@),
                None => None,
            },
        ),
{
    match c {
        Some(c) => Action::Run(c),
        None => Action::Done,
    }
}

impl X11Injection<Seq<char>> {
    /// A question is open wherever one is being asked.
    pub open spec fn wf(self) -> bool {
        match self {
            X11Injection::Editor(p) => p !is Decided,
            X11Injection::Terminal(p) => p !is Decided,
            _ => true,
        }
    }

    /// What is to be done in this state, to inject `text`.
    pub open spec fn due(self, text: Seq<char>) -> Action<CommandView> {
        match self {
            X11Injection::SetXsel => Action::Run(clip_command(ClipTool::Xsel, text)),
            X11Injection::SetXclip => Action::Run(clip_command(ClipTool::Xclip, text)),
            X11Injection::Settle => Action::Sleep(CLIPBOARD_PROPAGATE_DELAY_MS),
            X11Injection::Editor(p) => ask(p.due()),
            X11Injection::Terminal(p) => ask(p.due()),
            X11Injection::AskXdotool { .. } => Action::Run(
                tool_question("xdotool"@, Some(LOOKUP_TIMEOUT_MS)),
            ),
            X11Injection::Press { terminal } => Action::Run(xdotool_command(terminal)),
            X11Injection::Done(_) => Action::Done,
        }
    }

    /// The state that an event leads to. An editor gets no keystroke, and
    /// neither does anyone without the tool for it: the clipboard is set.
    pub open spec fn after(self, e: Event) -> X11Injection<Seq<char>> {
        match (self, e) {
            (X11Injection::SetXsel, Event::Ran(o)) => if o.succeeded() {
                X11Injection::Settle
            } else {
                X11Injection::SetXclip
            },
            (X11Injection::SetXclip, Event::Ran(o)) => if o.succeeded() {
                X11Injection::Settle
            } else {
                X11Injection::Done(Err(InjectError::NoClipboard))
            },
            (X11Injection::Settle, Event::Slept) => X11Injection::Editor(EditorProbe::AskWindow),
            (X11Injection::Editor(p), Event::Ran(o)) => match p.after(o) {
                EditorProbe::Decided(true) => X11Injection::Done(Ok(())),
                EditorProbe::Decided(false) => X11Injection::Terminal(TerminalProbe::AskWindow),
                q => X11Injection::Editor(q),
            },
            (X11Injection::Terminal(p), Event::Ran(o)) => match p.after(o) {
                TerminalProbe::Decided(terminal) => X11Injection::AskXdotool { terminal },
                q => X11Injection::Terminal(q),
            },
            (X11Injection::AskXdotool { terminal }, Event::Ran(o)) => if o.succeeded() {
                X11Injection::Press { terminal }
            } else {
                X11Injection::Done(Ok(()))
            },
            (X11Injection::Press { terminal }, Event::Ran(o)) => X11Injection::Done(
                press_result(terminal, o),
            ),
            _ => self,
        }
    }

    /// The time that injection takes at most from here.
    pub open spec fn budget(self) -> nat {
        let press = CLIP_CMD_TIMEOUT_MS as nat;
        let ask_tool = LOOKUP_TIMEOUT_MS as nat + press;
        let ask_window = 4 * LOOKUP_TIMEOUT_MS as nat + ask_tool;
        let settle = CLIPBOARD_PROPAGATE_DELAY_MS as nat + 2 * LOOKUP_TIMEOUT_MS as nat
            + ask_window;
        match self {
            X11Injection::SetXsel => 2 * CLIP_CMD_TIMEOUT_MS as nat + settle,
            X11Injection::SetXclip => CLIP_CMD_TIMEOUT_MS as nat + settle,
            X11Injection::Settle => settle,
            X11Injection::Editor(p) => p.budget() + ask_window,
            X11Injection::Terminal(p) => p.budget() + ask_tool,
            X11Injection::AskXdotool { .. } => ask_tool,
            X11Injection::Press { .. } => press,
            X11Injection::Done(_) => 0,
        }
    }
}

impl X11Injection<String> {
    /// Injection from its beginning.
    pub fn inject_text_x11() -> (r: Self)
        ensures
            r@ == X11Injection::<Seq<char>>::SetXsel,
    {
        X11Injection::SetXsel
    }

    /// What is to be done in this state, to inject `text`.
    pub fn action(&self, text: &str) -> (r: Action<CommandSpec>)
        ensures
            action_view(r) == self@.due(text@),
    {
        match self {
            X11Injection::SetXsel => Action::Run(set_clipboard(ClipTool::Xsel, text)),
            X11Injection::SetXclip => Action::Run(set_clipboard(ClipTool::Xclip, text)),
            X11Injection::Settle => Action::Sleep(CLIPBOARD_PROPAGATE_DELAY_MS),
            X11Injection::Editor(p) => ask_action(p.command()),
            X11Injection::Terminal(p) => ask_action(p.command()),
            X11Injection::AskXdotool { .. } => Action::Run(
                require_tool("xdotool", Some(LOOKUP_TIMEOUT_MS)),
            ),
            X11Injection::Press { terminal } => Action::Run(press_with_xdotool(*terminal)),
            X11Injection::Done(_) => Action::Done,
        }
    }

    /// The state that an event leads to.
    pub fn next(self, e: Event) -> (r: Self)
        ensures
            r@ == self@.after(e),
    {
        match (self, e) {
            (X11Injection::SetXsel, Event::Ran(o)) => {
                if o.is_success() {
                    X11Injection::Settle
                } else {
                    X11Injection::SetXclip
                }
            },
            (X11Injection::SetXclip, Event::Ran(o)) => {
                if o.is_success() {
                    X11Injection::Settle
                } else {
                    X11Injection::Done(Err(InjectError::NoClipboard))
                }
            },
            (X11Injection::Settle, Event::Slept) => X11Injection::Editor(
                EditorProbe::is_vscode_window_x11(),
            ),
            (X11Injection::Editor(p), Event::Ran(o)) => match p.next(&o) {
                EditorProbe::Decided(b) => {
                    if b {
                        X11Injection::Done(Ok(()))
                    } else {
                        X11Injection::Terminal(TerminalProbe::is_terminal_window())
                    }
                },
                q => X11Injection::Editor(q),
            },
            (X11Injection::Terminal(p), Event::Ran(o)) => match p.next(&o) {
                TerminalProbe::Decided(terminal) => X11Injection::AskXdotool { terminal },
                q => X11Injection::Terminal(q),
            },
            (X11Injection::AskXdotool { terminal }, Event::Ran(o)) => {
                if o.is_success() {
                    X11Injection::Press { terminal }
                } else {
                    X11Injection::Done(Ok(()))
                }
            },
            (X11Injection::Press { terminal }, Event::Ran(o)) => X11Injection::Done(
                pressed(terminal, o),
            ),
            (s, _) => s,
        }
    }
}

/// Each step has a time limit, which the budget covers, and injection goes on
/// until it is done.
pub proof fn an_x11_step_is_bounded(s: X11Injection<Seq<char>>, text: Seq<char>, e: Event)
    requires
        s.wf(),
    ensures
        s.after(e).wf(),
        s.due(text) is Done <==> s is Done,
        bounded(s.due(text)),
        answers(e, s.due(text)) ==> s.budget() >= cost_ms(s.due(text)) + s.after(e).budget(),
{
}

/// An editor gets no shortcut, and any other window the one of its kind: that
/// of a terminal exactly where the search found a terminal.
pub proof fn an_x11_window_gets_its_shortcut(s: X11Injection<Seq<char>>, o: CommandOutcome)
    ensures
        s matches X11Injection::Editor(p) && p.after(o) == EditorProbe::<Seq<char>>::Decided(true)
            ==> s.after(Event::Ran(o)) == X11Injection::<Seq<char>>::Done(Ok(())),
        s.after(Event::Ran(o)) matches X11Injection::AskXdotool { terminal } ==> s is AskXdotool
            || (s matches X11Injection::Terminal(p) && p.after(o)
            == TerminalProbe::<Seq<char>>::Decided(terminal)),
        s.after(Event::Ran(o)) matches X11Injection::Press { terminal } ==> s
            == (X11Injection::<Seq<char>>::AskXdotool { terminal }),
{
}

// ── Wayland ───────────────────────────────────────────────────────

/// What injection needs to know of the session.
#[derive(Debug)]
pub struct Session {
    pub compositor: WaylandCompositor,
    /// The X display, where the session has one.
    pub display: Option<String>,
}

/// Injection into the focused window of a session. The class of the window is
/// carried along where it is known.
#[derive(Debug)]
pub enum Injection<S, P> {
    /// Ask the compositor for the focused window, so that the shortcut and
    /// the way of injection match the application.
    Focus,
    /// The window is an XWayland client: look for the X11 tools, which reach
    /// it directly.
    XwaylandTools { tools: X11Tools, class: Option<FocusClass> },
    /// Inject through the X11 path.
    X11(X11Injection<S>),
    AskWlCopy { class: Option<FocusClass> },
    /// wl-copy is missing: look for the X11 tools instead.
    ToolsInstead { tools: X11Tools },
    /// Set the Wayland clipboard.
    Copy { copy: VerifiedCopy, class: Option<FocusClass> },
    /// Seed the X11 clipboard too, for an XWayland client that was not
    /// recognised as one.
    Seed { seeding: Seeding, class: Option<FocusClass> },
    /// Look for a running editor that takes the shortcut for something else.
    Editors { search: EditorSearch, class: Option<FocusClass> },
    AskWtype { class: Option<FocusClass> },
    /// Send the paste keys.
    Paste(P),
    Done(Result<(), InjectError>),
}

impl View for Injection<String, WtypePaste> {
    type V = Injection<Seq<char>, PasteView>;

    open spec fn view(&self) -> Injection<Seq<char>, PasteView> {
        match self {
            Injection::Focus => Injection::Focus,
            Injection::XwaylandTools { tools, class } => Injection::XwaylandTools {
                tools: *tools,
                class: *class,
            },
            Injection::X11(x) => Injection::X11(x@),
            Injection::AskWlCopy { class } => Injection::AskWlCopy { class: *class },
            Injection::ToolsInstead { tools } => Injection::ToolsInstead { tools: *tools },
            Injection::Copy { copy, class } => Injection::Copy { copy: *copy, class: *class },
            Injection::Seed { seeding, class } => Injection::Seed {
                seeding: *seeding,
                class: *class,
            },
            Injection::Editors { search, class } => Injection::Editors {
                search: *search,
                class: *class,
            },
            Injection::AskWtype { class } => Injection::AskWtype { class: *class },
            Injection::Paste(p) => Injection::Paste(p@),
            Injection::Done(r) => Injection::Done(*r),
        }
    }
}

impl Injection<Seq<char>, PasteView> {
    /// A step is open wherever one is being taken.
    pub open spec fn wf(self) -> bool {
        match self {
            Injection::XwaylandTools { tools, .. } => tools !is Decided,
            Injection::X11(x) => x.wf() && x !is Done,
            Injection::ToolsInstead { tools } => tools !is Decided,
            Injection::Copy { copy, .. } => copy !is Done,
            Injection::Seed { seeding, .. } => seeding !is Done,
            Injection::Editors { search, .. } => search !is Decided,
            Injection::Paste(p) => p.wf() && p.remaining.len() <= 2 && p.due() !is Done,
            _ => true,
        }
    }

    /// Injection into a Wayland window, from its beginning: without an answer
    /// of the compositor the window stays unknown.
    pub open spec fn of_wayland(session: Session) -> Injection<Seq<char>, PasteView> {
        if focus_question(session.compositor) is Some {
            Injection::Focus
        } else {
            Injection::AskWlCopy { class: None }
        }
    }

    /// Injection from its beginning, in a session with a display.
    pub open spec fn of(env: DesktopEnv, session: Session) -> Injection<Seq<char>, PasteView> {
        match env {
            DesktopEnv::X11 => Injection::X11(X11Injection::SetXsel),
            DesktopEnv::Wayland => Injection::of_wayland(session),
        }
    }

    /// What is to be done in this state, to inject `text`.
    pub open spec fn due(self, session: Session, text: Seq<char>) -> Action<CommandView> {
        match self {
            Injection::Focus => ask(focus_question(session.compositor)),
            Injection::XwaylandTools { tools, .. } => ask(tools.due()),
            Injection::X11(x) => x.due(text),
            Injection::AskWlCopy { .. } => Action::Run(
                tool_question("wl-copy"@, Some(LOOKUP_TIMEOUT_MS)),
            ),
            Injection::ToolsInstead { tools } => ask(tools.due()),
            Injection::Copy { copy, .. } => copy.due(text),
            Injection::Seed { seeding, .. } => seeding.due(text),
            Injection::Editors { search, .. } => ask(search.due()),
            Injection::AskWtype { .. } => Action::Run(
                tool_question("wtype"@, Some(LOOKUP_TIMEOUT_MS)),
            ),
            Injection::Paste(p) => p.due(),
            Injection::Done(_) => Action::Done,
        }
    }

    /// The step after the focused window was asked for.
    pub open spec fn knowing(session: Session, target: Option<TargetView>) -> Injection<
        Seq<char>,
        PasteView,
    > {
        match target {
            None => Injection::AskWlCopy { class: None },
            Some(t) => match X11Tools::first(session.display) {
                X11Tools::Decided(_) => Injection::AskWlCopy { class: Some(t.class) },
                tools => if t.xwayland {
                    Injection::XwaylandTools { tools, class: Some(t.class) }
                } else {
                    Injection::AskWlCopy { class: Some(t.class) }
                },
            },
        }
    }

    /// The step after a state of the X11 path.
    pub open spec fn through_x11(x: X11Injection<Seq<char>>) -> Injection<Seq<char>, PasteView> {
        match x {
            X11Injection::Done(r) => Injection::Done(r),
            x => Injection::X11(x),
        }
    }

    /// The step where wl-copy is missing.
    pub open spec fn without_wl_copy(session: Session) -> Injection<Seq<char>, PasteView> {
        match X11Tools::first(session.display) {
            X11Tools::Decided(_) => Injection::Done(Err(InjectError::NoWlCopy)),
            tools => Injection::ToolsInstead { tools },
        }
    }

    /// The step after both clipboards: an editor gets no keystroke.
    pub open spec fn clipboards_set(class: Option<FocusClass>) -> Injection<Seq<char>, PasteView> {
        if class == Some(FocusClass::Ide) {
            Injection::Done(Ok(()))
        } else {
            Injection::Editors { search: EditorSearch::AskCode, class }
        }
    }

    /// The step after the Wayland clipboard was set.
    pub open spec fn copied(session: Session, class: Option<FocusClass>) -> Injection<
        Seq<char>,
        PasteView,
    > {
        match Seeding::first(class, session.display) {
            Seeding::Done(_) => Injection::clipboards_set(class),
            seeding => Injection::Seed { seeding, class },
        }
    }

    /// The step after a state of the attempts to paste: whatever came of
    /// them, the clipboard is set.
    pub open spec fn pasting(p: PasteView) -> Injection<Seq<char>, PasteView> {
        if p.due() is Done {
            Injection::Done(Ok(()))
        } else {
            Injection::Paste(p)
        }
    }

    /// The state that an event leads to.
    pub open spec fn after(self, session: Session, text: Seq<char>, e: Event) -> Injection<
        Seq<char>,
        PasteView,
    > {
        match (self, e) {
            (Injection::Focus, Event::Ran(o)) => Injection::knowing(
                session,
                focus_by_reply(session.compositor, o),
            ),
            (Injection::XwaylandTools { tools, class }, Event::Ran(o)) => match tools.after(
                o.succeeded(),
            ) {
                X11Tools::Decided(true) => Injection::X11(X11Injection::SetXsel),
                X11Tools::Decided(false) => Injection::AskWlCopy { class },
                tools => Injection::XwaylandTools { tools, class },
            },
            (Injection::X11(x), e) => Injection::through_x11(x.after(e)),
            (Injection::AskWlCopy { class }, Event::Ran(o)) => if o.succeeded() {
                Injection::Copy { copy: VerifiedCopy::Copying { again: false }, class }
            } else {
                Injection::without_wl_copy(session)
            },
            (Injection::ToolsInstead { tools }, Event::Ran(o)) => match tools.after(o.succeeded()) {
                X11Tools::Decided(true) => Injection::X11(X11Injection::SetXsel),
                X11Tools::Decided(false) => Injection::Done(Err(InjectError::NoWlCopy)),
                tools => Injection::ToolsInstead { tools },
            },
            (Injection::Copy { copy, class }, e) => match copy.after(text, e) {
                VerifiedCopy::Done(Ok(_)) => Injection::copied(session, class),
                VerifiedCopy::Done(Err(err)) => Injection::Done(Err(InjectError::Clipboard(err))),
                copy => Injection::Copy { copy, class },
            },
            (Injection::Seed { seeding, class }, e) => match seeding.after(e) {
                Seeding::Done(_) => Injection::clipboards_set(class),
                seeding => Injection::Seed { seeding, class },
            },
            (Injection::Editors { search, class }, Event::Ran(o)) => match search.after(
                o.succeeded(),
            ) {
                EditorSearch::Decided(true) => Injection::Done(Ok(())),
                EditorSearch::Decided(false) => Injection::AskWtype { class },
                search => Injection::Editors { search, class },
            },
            (Injection::AskWtype { class }, Event::Ran(o)) => if o.succeeded() {
                Injection::pasting(PasteView::of(target_keys(class, session.compositor)))
            } else {
                Injection::Done(Ok(()))
            },
            (Injection::Paste(p), e) => Injection::pasting(p.after(e)),
            _ => self,
        }
    }
}

impl Injection<String, WtypePaste> {
    /// The state is consistent.
    pub open spec fn wf(&self) -> bool {
        self@.wf() && (self matches Injection::Paste(p) ==> p.wf())
    }

    /// Injects text into the focused window of a session: first of all the
    /// display is checked. `socket_exists` answers for the Wayland socket.
    pub fn inject_text(
        env: DesktopEnv,
        vars: &EnvVars,
        system_dir: &Option<String>,
        socket_exists: bool,
    ) -> (r: (Self, Session))
        ensures
            r.0.wf(),
            r.1.compositor == compositor_of(*vars),
            r.1.display == vars.display,
            match display_fault(env, *vars, *system_dir, socket_exists) {
                None => r.0@ == Injection::<Seq<char>, PasteView>::of(env, r.1),
                Some(fault) => {
                    &&& r.0 matches Injection::Done(Err(InjectError::Display(e)))
                    &&& e.fault == fault
                    &&& opt_text(e.socket) == if fault == DisplayFault::NoSocket {
                        socket_of(*vars, *system_dir)
                    } else {
                        None
                    }
                },
            },
    {
        let display = match &vars.display {
            Some(d) => Some(d.clone()),
            None => None,
        };
        let session = Session { compositor: detect_wayland_compositor(vars), display };
        let first = match check_display_env(env, vars, system_dir, socket_exists) {
            Err(e) => Injection::Done(Err(InjectError::Display(e))),
            Ok(_) => match env {
                DesktopEnv::X11 => Injection::X11(X11Injection::inject_text_x11()),
                DesktopEnv::Wayland => Injection::inject_text_wayland(&session),
            },
        };
        (first, session)
    }

    /// Injection into a Wayland window, from its beginning.
    pub fn inject_text_wayland(session: &Session) -> (r: Self)
        ensures
            r.wf(),
            r@ == Injection::<Seq<char>, PasteView>::of_wayland(*session),
    {
        match focus_query(session.compositor) {
            Some(_) => Injection::Focus,
            None => Injection::AskWlCopy { class: None },
        }
    }

    /// What is to be done in this state, to inject `text`.
    pub fn action(&self, session: &Session, text: &str) -> (r: Action<CommandSpec>)
        requires
            self.wf(),
        ensures
            action_view(r) == self@.due(*session, text@),
    {
        match self {
            Injection::Focus => ask_action(focus_query(session.compositor)),
            Injection::XwaylandTools { tools, .. } => ask_action(tools.command()),
            Injection::X11(x) => x.action(text),
            Injection::AskWlCopy { .. } => Action::Run(
                require_tool("wl-copy", Some(LOOKUP_TIMEOUT_MS)),
            ),
            Injection::ToolsInstead { tools } => ask_action(tools.command()),
            Injection::Copy { copy, .. } => copy.action(text),
            Injection::Seed { seeding, .. } => seeding.action(text),
            Injection::Editors { search, .. } => ask_action(search.command()),
            Injection::AskWtype { .. } => Action::Run(
                require_tool("wtype", Some(LOOKUP_TIMEOUT_MS)),
            ),
            Injection::Paste(p) => p.action(),
            Injection::Done(_) => Action::Done,
        }
    }

    fn clipboards_done(class: Option<FocusClass>) -> (r: Self)
        ensures
            r.wf(),
            r@ == Injection::<Seq<char>, PasteView>::clipboards_set(class),
    {
        match class {
            Some(FocusClass::Ide) => Injection::Done(Ok(())),
            _ => Injection::Editors { search: EditorSearch::is_vscode_running(), class },
        }
    }

    fn paste_on(p: WtypePaste) -> (r: Self)
        requires
            p.wf(),
            p@.wf(),
            p@.remaining.len() <= 2,
        ensures
            r.wf(),
            r@ == Injection::<Seq<char>, PasteView>::pasting(p@),
    {
        match p.action() {
            Action::Done => Injection::Done(Ok(())),
            _ => Injection::Paste(p),
        }
    }

    /// The state that an event leads to.
    pub fn next(self, session: &Session, text: &str, e: Event) -> (r: Self)
        requires
            self.wf(),
        ensures
            r.wf(),
            r@ == self@.after(*session, text@, e),
    {
        match (self, e) {
            (Injection::Focus, Event::Ran(o)) => {
                match detect_focus_target(session.compositor, &o) {
                    None => Injection::AskWlCopy { class: None },
                    Some(t) => match X11Tools::x11_tools_available(&session.display) {
                        X11Tools::Decided(_) => Injection::AskWlCopy { class: Some(t.class) },
                        tools => {
                            if t.xwayland {
                                Injection::XwaylandTools { tools, class: Some(t.class) }
                            } else {
                                Injection::AskWlCopy { class: Some(t.class) }
                            }
                        },
                    },
                }
            },
            (Injection::XwaylandTools { tools, class }, Event::Ran(o)) => match tools.next(&o) {
                X11Tools::Decided(there) => {
                    if there {
                        Injection::X11(X11Injection::inject_text_x11())
                    } else {
                        Injection::AskWlCopy { class }
                    }
                },
                tools => Injection::XwaylandTools { tools, class },
            },
            (Injection::X11(x), e) => {
                proof {
                    an_x11_step_is_bounded(x@, text@, e);
                }
                match x.next(e) {
                    X11Injection::Done(r) => Injection::Done(r),
                    x => Injection::X11(x),
                }
            },
            (Injection::AskWlCopy { class }, Event::Ran(o)) => {
                if o.is_success() {
                    Injection::Copy { copy: VerifiedCopy::set_clipboard_wl_copy_verified(), class }
                } else {
                    match X11Tools::x11_tools_available(&session.display) {
                        X11Tools::Decided(_) => Injection::Done(Err(InjectError::NoWlCopy)),
                        tools => Injection::ToolsInstead { tools },
                    }
                }
            },
            (Injection::ToolsInstead { tools }, Event::Ran(o)) => match tools.next(&o) {
                X11Tools::Decided(there) => {
                    if there {
                        Injection::X11(X11Injection::inject_text_x11())
                    } else {
                        Injection::Done(Err(InjectError::NoWlCopy))
                    }
                },
                tools => Injection::ToolsInstead { tools },
            },
            (Injection::Copy { copy, class }, e) => match copy.next(text, e) {
                VerifiedCopy::Done(r) => match r {
                    Ok(_) => match Seeding::maybe_set_x_clipboard(class, &session.display) {
                        Seeding::Done(_) => Self::clipboards_done(class),
                        seeding => Injection::Seed { seeding, class },
                    },
                    Err(err) => Injection::Done(Err(InjectError::Clipboard(err))),
                },
                copy => Injection::Copy { copy, class },
            },
            (Injection::Seed { seeding, class }, e) => match seeding.next(&e) {
                Seeding::Done(_) => Self::clipboards_done(class),
                seeding => Injection::Seed { seeding, class },
            },
            (Injection::Editors { search, class }, Event::Ran(o)) => match search.next(&o) {
                EditorSearch::Decided(found) => {
                    if found {
                        Injection::Done(Ok(()))
                    } else {
                        Injection::AskWtype { class }
                    }
                },
                search => Injection::Editors { search, class },
            },
            (Injection::AskWtype { class }, Event::Ran(o)) => {
                if o.is_success() {
                    Self::paste_on(WtypePaste::paste_with_wtype(class, session.compositor))
                } else {
                    Injection::Done(Ok(()))
                }
            },
            (Injection::Paste(p), e) => Self::paste_on(p.next(&e)),
            (s, _) => s,
        }
    }
}

// ── Laws ──────────────────────────────────────────────────────────

/// The greater of two numbers.
pub open spec fn greater(a: nat, b: nat) -> nat {
    if a >= b {
        a
    } else {
        b
    }
}

impl Injection<Seq<char>, PasteView> {
    /// The time that injection takes at most from here.
    pub open spec fn budget(self) -> nat {
        let x11 = X11Injection::<Seq<char>>::SetXsel.budget();
        let paste = 2 * (2 * WTYPE_TIMEOUT_MS + RETRY_PAUSE_MS) as nat;
        let ask_wtype = LOOKUP_TIMEOUT_MS as nat + paste;
        let editors = EditorSearch::AskCode.budget() + ask_wtype;
        let seed = Seeding::AskXsel.budget() + editors;
        let copy = (VerifiedCopy::Copying { again: false }).budget() + seed;
        let instead = X11Tools::AskXsel.budget() + x11;
        let ask_copy = LOOKUP_TIMEOUT_MS as nat + greater(copy, instead);
        match self {
            Injection::Focus => IPC_TIMEOUT_MS as nat + X11Tools::AskXsel.budget() + greater(
                x11,
                ask_copy,
            ),
            Injection::XwaylandTools { tools, .. } => tools.budget() + greater(x11, ask_copy),
            Injection::X11(x) => x.budget(),
            Injection::AskWlCopy { .. } => ask_copy,
            Injection::ToolsInstead { tools } => tools.budget() + x11,
            Injection::Copy { copy, .. } => copy.budget() + seed,
            Injection::Seed { seeding, .. } => seeding.budget() + editors,
            Injection::Editors { search, .. } => search.budget() + ask_wtype,
            Injection::AskWtype { .. } => ask_wtype,
            Injection::Paste(p) => p.budget(),
            Injection::Done(_) => 0,
        }
    }

    /// The state after a list of events.
    pub open spec fn run(self, session: Session, text: Seq<char>, events: Seq<Event>) -> Injection<
        Seq<char>,
        PasteView,
    >
        decreases events.len(),
    {
        if events.len() == 0 {
            self
        } else {
            self.run(session, text, events.drop_last()).after(session, text, events.last())
        }
    }

    /// The time that the steps of a list of events took at most.
    pub open spec fn spent(self, session: Session, text: Seq<char>, events: Seq<Event>) -> nat
        decreases events.len(),
    {
        if events.len() == 0 {
            0
        } else {
            let due = self.run(session, text, events.drop_last()).due(session, text);
            self.spent(session, text, events.drop_last()) + if answers(events.last(), due) {
                cost_ms(due)
            } else {
                0
            }
        }
    }

    /// A paste shortcut is to be sent in this state.
    pub open spec fn presses(self) -> bool {
        match self {
            Injection::X11(x) => x is Press,
            Injection::Paste(p) => p.due() is Run,
            _ => false,
        }
    }

    /// The event reports that a clipboard was set to the text: a clipboard tool
    /// read exactly the text, and succeeded.
    pub open spec fn sets_clipboard(self, session: Session, text: Seq<char>, e: Event) -> bool {
        &&& exists|tool: ClipTool|
            self.due(session, text) == Action::Run(#[trigger] clip_command(tool, text))
        &&& self.due(session, text) matches Action::Run(c) && c.input
            == Input::<Seq<char>>::Text(text)
        &&& e matches Event::Ran(o) && o.succeeded()
    }

    /// One of a list of events reports that a clipboard was set to the text.
    pub open spec fn clipboard_was_set(
        self,
        session: Session,
        text: Seq<char>,
        events: Seq<Event>,
    ) -> bool {
        exists|i: int|
            0 <= i < events.len() && (#[trigger] self.run(
                session,
                text,
                events.take(i),
            )).sets_clipboard(session, text, events[i])
    }

    /// The clipboard has to have been set to come to this state.
    spec fn beyond_clipboard(self) -> bool {
        match self {
            Injection::X11(x) => x !is SetXsel && x !is SetXclip,
            Injection::Copy { copy, .. } => copy is Checking,
            Injection::Seed { .. } | Injection::Editors { .. } | Injection::AskWtype { .. }
            | Injection::Paste(_) => true,
            Injection::Done(r) => match r {
                Ok(_) => true,
                Err(InjectError::KeyExited { .. }) => true,
                Err(InjectError::KeyTimedOut { .. }) => true,
                Err(InjectError::KeyNotRun { .. }) => true,
                Err(_) => false,
            },
            _ => false,
        }
    }
}

/// Each step has a time limit, which the budget covers, and injection goes on
/// until it is done. No step is free, so it does get done.
pub proof fn an_injection_step_is_bounded(
    s: Injection<Seq<char>, PasteView>,
    session: Session,
    text: Seq<char>,
    e: Event,
)
    requires
        s.wf(),
        s is Focus ==> focus_question(session.compositor) is Some,
    ensures
        s.after(session, text, e).wf(),
        s.after(session, text, e) is Focus ==> s is Focus,
        s.due(session, text) is Done <==> s is Done,
        bounded(s.due(session, text)),
        s !is Done ==> cost_ms(s.due(session, text)) > 0,
        answers(e, s.due(session, text)) ==> s.budget() >= cost_ms(s.due(session, text)) + s.after(
            session,
            text,
            e,
        ).budget(),
        !answers(e, s.due(session, text)) ==> s.after(session, text, e) == s,
{
    match s {
        Injection::X11(x) => {
            an_x11_step_is_bounded(x, text, e);
        },
        Injection::Paste(p) => {
            crate::paste::pasting_is_bounded(p, e);
        },
        Injection::AskWtype { class } => {
            let keys = target_keys(class, session.compositor);
            assert(keys.len() <= 2);
            let p = PasteView::of(keys);
            let each = (2 * WTYPE_TIMEOUT_MS + RETRY_PAUSE_MS) as nat;
            assert(each * keys.len() <= each * 2) by (nonlinear_arith)
                requires
                    keys.len() <= 2,
            ;
        },
        _ => {},
    }
}

/// A wedged tool cannot block dictation: whatever the tools do, the steps of an
/// injection together take no longer than the budget of its beginning.
pub proof fn injection_takes_limited_time(
    s: Injection<Seq<char>, PasteView>,
    session: Session,
    text: Seq<char>,
    events: Seq<Event>,
)
    requires
        s.wf(),
        s is Focus ==> focus_question(session.compositor) is Some,
    ensures
        s.run(session, text, events).wf(),
        s.run(session, text, events) is Focus ==> s is Focus,
        s.spent(session, text, events) + s.run(session, text, events).budget() <= s.budget(),
    decreases events.len(),
{
    if events.len() > 0 {
        injection_takes_limited_time(s, session, text, events.drop_last());
        an_injection_step_is_bounded(
            s.run(session, text, events.drop_last()),
            session,
            text,
            events.last(),
        );
    }
}

/// That budget is below 35 seconds in every session.
pub proof fn injection_ends_within_35_seconds(
    env: DesktopEnv,
    session: Session,
    text: Seq<char>,
    events: Seq<Event>,
)
    ensures
        Injection::<Seq<char>, PasteView>::of(env, session).spent(session, text, events) < 35_000,
{
    let s = Injection::<Seq<char>, PasteView>::of(env, session);
    injection_takes_limited_time(s, session, text, events);
}

proof fn lemma_a_step_keeps_the_clipboard(
    s: Injection<Seq<char>, PasteView>,
    session: Session,
    text: Seq<char>,
    e: Event,
)
    requires
        s.wf(),
        s.after(session, text, e).beyond_clipboard(),
        !s.beyond_clipboard(),
    ensures
        s.sets_clipboard(session, text, e),
{
    match s {
        Injection::X11(x) => {
            if x is SetXsel {
                assert(s.due(session, text) == Action::Run(clip_command(ClipTool::Xsel, text)));
            } else {
                assert(s.due(session, text) == Action::Run(clip_command(ClipTool::Xclip, text)));
            }
        },
        Injection::Copy { .. } => {
            assert(s.due(session, text) == Action::Run(clip_command(ClipTool::WlCopy, text)));
        },
        _ => {},
    }
}

/// The text is always on the clipboard first: no paste shortcut is sent, and
/// no injection succeeds, before a clipboard was set to the text.
pub proof fn the_clipboard_is_set_before_anything_is_pasted(
    env: DesktopEnv,
    session: Session,
    text: Seq<char>,
    events: Seq<Event>,
)
    ensures
        ({
            let s = Injection::<Seq<char>, PasteView>::of(env, session);
            let t = s.run(session, text, events);
            t.presses() || t == Injection::<Seq<char>, PasteView>::Done(Ok(()))
                ==> s.clipboard_was_set(session, text, events)
        }),
{
    lemma_beyond_the_clipboard(env, session, text, events);
}

/// An error of the paste shortcut comes only after the clipboard was set, as
/// its message says.
pub proof fn a_failed_shortcut_leaves_the_clipboard_set(
    env: DesktopEnv,
    session: Session,
    text: Seq<char>,
    events: Seq<Event>,
)
    ensures
        ({
            let s = Injection::<Seq<char>, PasteView>::of(env, session);
            s.run(session, text, events) matches Injection::Done(Err(e)) && (e is KeyExited
                || e is KeyTimedOut || e is KeyNotRun) ==> s.clipboard_was_set(
                session,
                text,
                events,
            )
        }),
{
    lemma_beyond_the_clipboard(env, session, text, events);
}

proof fn lemma_beyond_the_clipboard(
    env: DesktopEnv,
    session: Session,
    text: Seq<char>,
    events: Seq<Event>,
)
    ensures
        ({
            let s = Injection::<Seq<char>, PasteView>::of(env, session);
            s.run(session, text, events).beyond_clipboard() ==> s.clipboard_was_set(
                session,
                text,
                events,
            )
        }),
    decreases events.len(),
{
    let s = Injection::<Seq<char>, PasteView>::of(env, session);
    if events.len() > 0 && s.run(session, text, events).beyond_clipboard() {
        let before = events.drop_last();
        let n = events.len() - 1;
        lemma_beyond_the_clipboard(env, session, text, before);
        injection_takes_limited_time(s, session, text, before);
        if s.run(session, text, before).beyond_clipboard() {
            let i = choose|i: int|
                0 <= i < before.len() && (#[trigger] s.run(
                    session,
                    text,
                    before.take(i),
                )).sets_clipboard(session, text, before[i]);
            assert(before.take(i) =~= events.take(i));
            assert(s.run(session, text, events.take(i)).sets_clipboard(session, text, events[i]));
        } else {
            lemma_a_step_keeps_the_clipboard(
                s.run(session, text, before),
                session,
                text,
                events.last(),
            );
            assert(before =~= events.take(n));
            assert(s.run(session, text, events.take(n)).sets_clipboard(session, text, events[n]));
        }
    }
}

/// Once the Wayland clipboard is being set for a window of a class, only keys
/// of that class are pressed: exactly one shortcut for a terminal or a
/// browser, none for an editor.
pub proof fn only_keys_of_the_class_are_pressed(
    copy: VerifiedCopy,
    class: Option<FocusClass>,
    session: Session,
    text: Seq<char>,
    events: Seq<Event>,
)
    ensures
        ({
            let s = Injection::<Seq<char>, PasteView>::Copy { copy, class };
            match s.run(session, text, events) {
                Injection::Copy { class: c, .. } => c == class,
                Injection::Seed { class: c, .. } => c == class,
                Injection::Editors { class: c, .. } => c == class && c != Some(FocusClass::Ide),
                Injection::AskWtype { class: c } => c == class && c != Some(FocusClass::Ide),
                Injection::Paste(p) => {
                    &&& class != Some(FocusClass::Ide)
                    &&& p.remaining.len() > 0
                    &&& target_keys(class, session.compositor).contains(p.remaining[0])
                    &&& p.remaining.len() <= target_keys(class, session.compositor).len()
                    &&& p.remaining == target_keys(class, session.compositor).skip(
                        target_keys(class, session.compositor).len() - p.remaining.len(),
                    )
                },
                Injection::Done(_) => true,
                _ => false,
            }
        }),
    decreases events.len(),
{
    if events.len() > 0 {
        let s = Injection::<Seq<char>, PasteView>::Copy { copy, class };
        let t = s.run(session, text, events.drop_last());
        let u = s.run(session, text, events);
        let keys = target_keys(class, session.compositor);
        only_keys_of_the_class_are_pressed(copy, class, session, text, events.drop_last());
        if let Injection::Paste(p) = u {
            if let Injection::Paste(q) = t {
                let k = keys.len() - q.remaining.len();
                assert(q.remaining.drop_first() =~= keys.skip(k + 1));
                assert(p.remaining == q.remaining || p.remaining == q.remaining.drop_first());
                assert(p.remaining[0] == keys[keys.len() - p.remaining.len()]);
            } else {
                assert(keys.skip(0) =~= keys);
                assert(p.remaining[0] == keys[0]);
            }
        }
    }
}

/// A focused XWayland window is reached through the X11 path, where its tools
/// are installed.
pub proof fn an_xwayland_window_is_reached_through_x11(
    session: Session,
    target: TargetView,
    xsel: CommandOutcome,
    xclip: CommandOutcome,
    xdotool: CommandOutcome,
    text: Seq<char>,
)
    requires
        target.xwayland,
        crate::environment::filled(session.display),
        xsel.succeeded() || xclip.succeeded(),
        xdotool.succeeded(),
    ensures
        ({
            let s = Injection::<Seq<char>, PasteView>::knowing(session, Some(target));
            let t = s.after(session, text, Event::Ran(xsel));
            let u = if xsel.succeeded() {
                t
            } else {
                t.after(session, text, Event::Ran(xclip))
            };
            u.after(session, text, Event::Ran(xdotool)) == Injection::<Seq<char>, PasteView>::X11(
                X11Injection::SetXsel,
            )
        }),
{
}

/// An X11 injection sets the clipboard with xsel, and with xclip where that
/// fails; where both fail it ends with the error. Once the clipboard is set it
/// pauses, and then asks for the window.
pub proof fn an_x11_injection_sets_the_clipboard_first(
    text: Seq<char>,
    xsel: CommandOutcome,
    xclip: CommandOutcome,
)
    ensures
        ({
            let s = X11Injection::<Seq<char>>::SetXsel;
            let t = s.after(Event::Ran(xsel));
            let u = t.after(Event::Ran(xclip));
            &&& s.due(text) matches Action::Run(c) && c.argv[0] == "xsel"@ && c.input == Input::<
                Seq<char>,
            >::Text(text)
            &&& xsel.succeeded() ==> t.due(text) == Action::<CommandView>::Sleep(50)
            &&& !xsel.succeeded() ==> (t.due(text) matches Action::Run(c) && c.argv[0] == "xclip"@
                && c.input == Input::<Seq<char>>::Text(text))
            &&& !xsel.succeeded() && xclip.succeeded() ==> u.due(text) == Action::<
                CommandView,
            >::Sleep(50)
            &&& !xsel.succeeded() && !xclip.succeeded() ==> u == X11Injection::<Seq<char>>::Done(
                Err(InjectError::NoClipboard),
            )
        }),
        X11Injection::<Seq<char>>::Settle.after(Event::Slept) == X11Injection::<Seq<char>>::Editor(
            EditorProbe::AskWindow,
        ),
{
}

/// An X11 window that is no editor gets the shortcut of its kind pressed, where
/// the tool for it is there: with shift exactly if it is a terminal. Success is
/// reported exactly where the tool succeeded, and without the tool the text
/// stays on the clipboard.
pub proof fn an_x11_window_is_pasted_into(
    editor: EditorProbe<Seq<char>>,
    window: TerminalProbe<Seq<char>>,
    terminal: bool,
    answer: CommandOutcome,
    tool: CommandOutcome,
    pressed: CommandOutcome,
    text: Seq<char>,
)
    ensures
        editor.after(answer) == EditorProbe::<Seq<char>>::Decided(false) ==> X11Injection::Editor(
            editor,
        ).after(Event::Ran(answer)) == X11Injection::<Seq<char>>::Terminal(
            TerminalProbe::AskWindow,
        ),
        editor.after(answer) !is Decided ==> X11Injection::Editor(editor).after(
            Event::Ran(answer),
        ) == X11Injection::<Seq<char>>::Editor(editor.after(answer)),
        window.after(answer) == TerminalProbe::<Seq<char>>::Decided(terminal)
            ==> X11Injection::Terminal(window).after(Event::Ran(answer)) == (X11Injection::<
            Seq<char>,
        >::AskXdotool { terminal }),
        window.after(answer) !is Decided ==> X11Injection::Terminal(window).after(
            Event::Ran(answer),
        ) == X11Injection::<Seq<char>>::Terminal(window.after(answer)),
        ({
            let ask = X11Injection::<Seq<char>>::AskXdotool { terminal };
            let press = ask.after(Event::Ran(tool));
            let end = press.after(Event::Ran(pressed));
            &&& ask.due(text) == Action::Run(tool_question("xdotool"@, Some(800u64)))
            &&& !tool.succeeded() ==> press == X11Injection::<Seq<char>>::Done(Ok(()))
            &&& tool.succeeded() ==> {
                &&& press.due(text) matches Action::Run(c) && c.argv == seq![
                    "xdotool"@,
                    "key"@,
                    if terminal {
                        "ctrl+shift+v"@
                    } else {
                        "ctrl+v"@
                    },
                ]
                &&& pressed.succeeded() ==> end == X11Injection::<Seq<char>>::Done(Ok(()))
                &&& !pressed.succeeded() ==> (end matches X11Injection::Done(r) && r is Err)
            }
        }),
{
}

/// A failed shortcut is reported as what it was: the status of the tool, that it
/// took too long, or why it could not be run, and for which shortcut.
pub proof fn a_failed_shortcut_is_reported_as_it_was(terminal: bool, outcome: CommandOutcome)
    ensures
        press_result(terminal, outcome) is Ok <==> outcome.succeeded(),
        press_result(terminal, outcome) matches Err(e) ==> match outcome {
            CommandOutcome::Completed(o) => e == (InjectError::KeyExited {
                terminal,
                status: o.status,
            }),
            CommandOutcome::TimedOut => e == (InjectError::KeyTimedOut { terminal }),
            CommandOutcome::Failed(why) => e == (InjectError::KeyNotRun { terminal, why }),
        },
        press_result(terminal, outcome) matches Err(e) ==> has_text(
            e.words(),
            if terminal {
                "ctrl+shift+v"@
            } else {
                "ctrl+v"@
            },
        ),
{
    if let Err(e) = press_result(terminal, outcome) {
        let key = shortcut(terminal);
        match e {
            InjectError::KeyExited { status, .. } => {
                let end = " failed ("@ + status@
                    + "). Clipboard is set (manual paste). Is DISPLAY set correctly?"@;
                a_part_stands_in_the_whole("xdotool key "@, key, end);
                assert("xdotool key "@ + key + end =~= e.words());
            },
            InjectError::KeyTimedOut { .. } => {
                a_part_stands_in_the_whole(
                    "xdotool key "@,
                    key,
                    " timed out. Clipboard is set (manual paste)."@,
                );
            },
            InjectError::KeyNotRun { why, .. } => {
                let end = " failed ("@ + why@ + "). Clipboard is set (manual paste)."@;
                a_part_stands_in_the_whole("xdotool key "@, key, end);
                assert("xdotool key "@ + key + end =~= e.words());
            },
            _ => {},
        }
    }
}

/// An injection begins with the clipboard in an X11 session; in a Wayland
/// session with the question for the focused window, where the compositor
/// answers it, and with wl-copy otherwise.
pub proof fn an_injection_begins_as_its_session_asks(session: Session, text: Seq<char>)
    ensures
        Injection::<Seq<char>, PasteView>::of(DesktopEnv::X11, session).due(
            session,
            text,
        ) matches Action::Run(c) && c.argv[0] == "xsel"@ && c.input == Input::<Seq<char>>::Text(
            text,
        ),
        session.compositor == WaylandCompositor::Sway ==> (Injection::<Seq<char>, PasteView>::of(
            DesktopEnv::Wayland,
            session,
        ).due(session, text) matches Action::Run(c) && c.argv[0] == "swaymsg"@),
        session.compositor == WaylandCompositor::Hyprland ==> (Injection::<
            Seq<char>,
            PasteView,
        >::of(DesktopEnv::Wayland, session).due(session, text) matches Action::Run(c) && c.argv[0]
            == "hyprctl"@),
        session.compositor != WaylandCompositor::Sway && session.compositor
            != WaylandCompositor::Hyprland ==> Injection::<Seq<char>, PasteView>::of(
            DesktopEnv::Wayland,
            session,
        ) == (Injection::<Seq<char>, PasteView>::AskWlCopy { class: None }),
{
}

/// A window that is no XWayland client is reached through Wayland, with the
/// class that it was found to have, and so is one that is not known; an XWayland
/// client is too where the session has no X display.
pub proof fn a_native_window_is_reached_through_wayland(
    session: Session,
    text: Seq<char>,
    outcome: CommandOutcome,
    target: TargetView,
)
    ensures
        !target.xwayland ==> Injection::<Seq<char>, PasteView>::knowing(session, Some(target)) == (
        Injection::<Seq<char>, PasteView>::AskWlCopy { class: Some(target.class) }),
        !crate::environment::filled(session.display) ==> Injection::<
            Seq<char>,
            PasteView,
        >::knowing(session, Some(target)) == (Injection::<Seq<char>, PasteView>::AskWlCopy {
            class: Some(target.class),
        }),
        Injection::<Seq<char>, PasteView>::knowing(session, None) == (Injection::<
            Seq<char>,
            PasteView,
        >::AskWlCopy { class: None }),
        Injection::<Seq<char>, PasteView>::Focus.after(session, text, Event::Ran(outcome))
            == Injection::<Seq<char>, PasteView>::knowing(
            session,
            focus_by_reply(session.compositor, outcome),
        ),
{
}

/// Where the X11 tools of an XWayland client are missing, the Wayland path is
/// taken, and the class of the window is kept.
pub proof fn without_x11_tools_the_wayland_path_is_taken(
    tools: X11Tools,
    class: Option<FocusClass>,
    session: Session,
    text: Seq<char>,
    o: CommandOutcome,
)
    ensures
        ({
            let s = Injection::<Seq<char>, PasteView>::XwaylandTools { tools, class };
            let t = s.after(session, text, Event::Ran(o));
            &&& tools.after(o.succeeded()) == X11Tools::Decided(false) ==> t == (Injection::<
                Seq<char>,
                PasteView,
            >::AskWlCopy { class })
            &&& tools.after(o.succeeded()) == X11Tools::Decided(true) ==> t == Injection::<
                Seq<char>,
                PasteView,
            >::X11(X11Injection::SetXsel)
            &&& tools.after(o.succeeded()) !is Decided ==> t == (Injection::<
                Seq<char>,
                PasteView,
            >::XwaylandTools { tools: tools.after(o.succeeded()), class })
        }),
{
}

/// With wl-copy the text is put on the Wayland clipboard. Without it the X11
/// path is taken where its tools are there, and otherwise the injection ends
/// with the error that says so.
pub proof fn without_wl_copy_the_x11_path_is_taken(
    class: Option<FocusClass>,
    session: Session,
    text: Seq<char>,
    wl_copy: CommandOutcome,
    tools: X11Tools,
    o: CommandOutcome,
)
    ensures
        ({
            let s = Injection::<Seq<char>, PasteView>::AskWlCopy { class };
            let t = s.after(session, text, Event::Ran(wl_copy));
            &&& s.due(session, text) == Action::Run(tool_question("wl-copy"@, Some(800u64)))
            &&& wl_copy.succeeded() ==> {
                &&& t.due(session, text) matches Action::Run(c) && c.argv[0] == "wl-copy"@
                    && c.input == Input::<Seq<char>>::Text(text)
                &&& t matches Injection::Copy { class: kept, .. } && kept == class
            }
            &&& !wl_copy.succeeded() && !crate::environment::filled(session.display) ==> t
                == Injection::<Seq<char>, PasteView>::Done(Err(InjectError::NoWlCopy))
            &&& !wl_copy.succeeded() && crate::environment::filled(session.display) ==> t == (
            Injection::<Seq<char>, PasteView>::ToolsInstead { tools: X11Tools::AskXsel })
        }),
        ({
            let s = Injection::<Seq<char>, PasteView>::ToolsInstead { tools };
            let t = s.after(session, text, Event::Ran(o));
            &&& tools.after(o.succeeded()) == X11Tools::Decided(true) ==> t == Injection::<
                Seq<char>,
                PasteView,
            >::X11(X11Injection::SetXsel)
            &&& tools.after(o.succeeded()) == X11Tools::Decided(false) ==> t == Injection::<
                Seq<char>,
                PasteView,
            >::Done(Err(InjectError::NoWlCopy))
        }),
        InjectError::NoWlCopy.words()
            == "wl-copy not found. Install: sudo apt install wl-clipboard"@,
{
}

/// Once the clipboard is set, a focused editor ends the injection, and so does
/// one that runs; any other window gets the keys of its class, beginning with
/// the first, where wtype is there.
pub proof fn a_wayland_window_is_pasted_into(
    class: Option<FocusClass>,
    session: Session,
    text: Seq<char>,
    search: EditorSearch,
    o: CommandOutcome,
    wtype: CommandOutcome,
)
    ensures
        Injection::<Seq<char>, PasteView>::clipboards_set(class)
            == if class == Some(FocusClass::Ide) {
            Injection::<Seq<char>, PasteView>::Done(Ok(()))
        } else {
            Injection::<Seq<char>, PasteView>::Editors { search: EditorSearch::AskCode, class }
        },
        ({
            let s = Injection::<Seq<char>, PasteView>::Editors { search, class };
            let t = s.after(session, text, Event::Ran(o));
            &&& search.after(o.succeeded()) == EditorSearch::Decided(true) ==> t == Injection::<
                Seq<char>,
                PasteView,
            >::Done(Ok(()))
            &&& search.after(o.succeeded()) == EditorSearch::Decided(false) ==> t == (Injection::<
                Seq<char>,
                PasteView,
            >::AskWtype { class })
        }),
        ({
            let s = Injection::<Seq<char>, PasteView>::AskWtype { class };
            let t = s.after(session, text, Event::Ran(wtype));
            let keys = target_keys(class, session.compositor);
            &&& s.due(session, text) == Action::Run(tool_question("wtype"@, Some(800u64)))
            &&& !wtype.succeeded() ==> t == Injection::<Seq<char>, PasteView>::Done(Ok(()))
            &&& wtype.succeeded() && class != Some(FocusClass::Ide) ==> (t.due(
                session,
                text,
            ) matches Action::Run(c) && c.argv == seq!["wtype"@] + keys[0])
        }),
{
    crate::paste::known_targets_get_one_shortcut(class, session.compositor);
}

/// After the Wayland clipboard the X11 one is seeded where that is worth it, and
/// whatever comes of that the injection goes on; a Wayland clipboard that could
/// not be set ends it with the error.
pub proof fn both_clipboards_come_before_the_keys(
    copy: VerifiedCopy,
    seeding: Seeding,
    class: Option<FocusClass>,
    session: Session,
    text: Seq<char>,
    e: Event,
    err: ClipboardError,
)
    ensures
        ({
            let s = Injection::<Seq<char>, PasteView>::Copy { copy, class };
            let t = s.after(session, text, e);
            &&& copy.after(text, e) == VerifiedCopy::Done(Err(err)) ==> t == Injection::<
                Seq<char>,
                PasteView,
            >::Done(Err(InjectError::Clipboard(err)))
            &&& copy.after(text, e) == VerifiedCopy::Done(Ok(())) && Seeding::first(
                class,
                session.display,
            ) is Done ==> t == Injection::<Seq<char>, PasteView>::clipboards_set(class)
            &&& copy.after(text, e) == VerifiedCopy::Done(Ok(())) && Seeding::first(
                class,
                session.display,
            ) !is Done ==> t == (Injection::<Seq<char>, PasteView>::Seed {
                seeding: Seeding::AskXsel,
                class,
            })
            &&& copy.after(text, e) !is Done ==> t == (Injection::<Seq<char>, PasteView>::Copy {
                copy: copy.after(text, e),
                class,
            })
        }),
        seeding.after(e) is Done ==> (Injection::<Seq<char>, PasteView>::Seed {
            seeding,
            class,
        }).after(session, text, e) == Injection::<Seq<char>, PasteView>::clipboards_set(class),
        InjectError::Clipboard(err).words() == err.words(),
{
}

/// What was pasted or could not be pasted with wtype, the text is on the
/// clipboard, and the injection succeeds.
pub proof fn keys_that_fail_leave_the_text_on_the_clipboard(
    p: PasteView,
    session: Session,
    text: Seq<char>,
    e: Event,
)
    ensures
        ({
            let t = Injection::<Seq<char>, PasteView>::Paste(p).after(session, text, e);
            &&& p.after(e).due() is Done ==> t == Injection::<Seq<char>, PasteView>::Done(Ok(()))
            &&& p.after(e).due() !is Done ==> t == Injection::<Seq<char>, PasteView>::Paste(
                p.after(e),
            )
        }),
{
}

/// The value of an X11 injection shows it as it is.
pub proof fn an_x11_injection_is_shown_as_it_is(x: X11Injection<String>)
    ensures
        x is SetXsel ==> x@ is SetXsel,
        x is SetXclip ==> x@ is SetXclip,
        x is Settle ==> x@ is Settle,
        x matches X11Injection::Editor(p) ==> x@ == X11Injection::Editor(p@),
        x matches X11Injection::Terminal(p) ==> x@ == X11Injection::Terminal(p@),
        x matches X11Injection::AskXdotool { terminal } ==> x@ == (X11Injection::<
            Seq<char>,
        >::AskXdotool { terminal }),
        x matches X11Injection::Press { terminal } ==> x@ == (X11Injection::<Seq<char>>::Press {
            terminal,
        }),
        x matches X11Injection::Done(r) ==> x@ == X11Injection::<Seq<char>>::Done(r),
{
}

/// The value of an injection shows it as it is.
pub proof fn an_injection_is_shown_as_it_is(s: Injection<String, WtypePaste>)
    ensures
        s is Focus ==> s@ is Focus,
        s matches Injection::XwaylandTools { tools, class } ==> s@ == (Injection::<
            Seq<char>,
            PasteView,
        >::XwaylandTools { tools, class }),
        s matches Injection::X11(x) ==> s@ == Injection::<Seq<char>, PasteView>::X11(x@),
        s matches Injection::AskWlCopy { class } ==> s@ == (Injection::<
            Seq<char>,
            PasteView,
        >::AskWlCopy { class }),
        s matches Injection::ToolsInstead { tools } ==> s@ == (Injection::<
            Seq<char>,
            PasteView,
        >::ToolsInstead { tools }),
        s matches Injection::Copy { copy, class } ==> s@ == (Injection::<
            Seq<char>,
            PasteView,
        >::Copy { copy, class }),
        s matches Injection::Seed { seeding, class } ==> s@ == (Injection::<
            Seq<char>,
            PasteView,
        >::Seed { seeding, class }),
        s matches Injection::Editors { search, class } ==> s@ == (Injection::<
            Seq<char>,
            PasteView,
        >::Editors { search, class }),
        s matches Injection::AskWtype { class } ==> s@ == (Injection::<
            Seq<char>,
            PasteView,
        >::AskWtype { class }),
        s matches Injection::Paste(p) ==> s@ == Injection::<Seq<char>, PasteView>::Paste(p@),
        s matches Injection::Done(r) ==> s@ == Injection::<Seq<char>, PasteView>::Done(r),
{
}

}
