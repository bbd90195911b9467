//! The keys that paste, and the attempts to press them.

use crate::clipboard::CLIP_CMD_TIMEOUT_MS;
use crate::command::{
    action_view, answers, bounded, cost_ms, lookup, lookup_command, query, query_command, Action,
    CommandOutcome, CommandSpec, CommandView, Event, Input,
};
use crate::environment::{WaylandCompositor, LOOKUP_TIMEOUT_MS};
use crate::focus::{FocusClass, FocusTarget};
use crate::text::{has_text, occurs_at, owned, str_texts, texts};
use vstd::prelude::*;

verus! {

// ── Keys ──────────────────────────────────────────────────────────

/// Ctrl+V, as arguments of wtype.
pub open spec fn gui_keys() -> Seq<Seq<char>> {
    seq!["-M"@, "ctrl"@, "-k"@, "v"@, "-m"@, "ctrl"@]
}

/// Ctrl+Shift+V, as arguments of wtype.
pub open spec fn term_keys() -> Seq<Seq<char>> {
    seq![
        "-M"@,
        "ctrl"@,
        "-M"@,
        "shift"@,
        "-k"@,
        "v"@,
        "-m"@,
        "ctrl"@,
        "-m"@,
        "shift"@,
    ]
}

/// Lists of arguments as mathematical values.
pub open spec fn key_texts(lists: Seq<Vec<&'static str>>) -> Seq<Seq<Seq<char>>> {
    lists.map_values(|keys: Vec<&'static str>| str_texts(keys@))
}

/// The keys to try where the focused application is not known: GNOME users
/// mostly have applications with Ctrl+V in front of them, users of the other
/// compositors terminals.
pub open spec fn compositor_keys(compositor: WaylandCompositor) -> Seq<Seq<Seq<char>>> {
    match compositor {
        WaylandCompositor::Gnome => seq![gui_keys(), term_keys()],
        _ => seq![term_keys(), gui_keys()],
    }
}

/// The keys to try for a focused application of a class, if it is known.
pub open spec fn target_keys(
    class: Option<FocusClass>,
    compositor: WaylandCompositor,
) -> Seq<Seq<Seq<char>>> {
    match class {
        Some(FocusClass::Terminal) => seq![term_keys()],
        Some(FocusClass::Browser) => seq![gui_keys()],
        Some(FocusClass::Ide) => Seq::empty(),
        Some(FocusClass::Generic) | None => compositor_keys(compositor),
    }
}

fn ctrl_v() -> (r: Vec<&'static str>)
    ensures
        str_texts(r@) == gui_keys(),
{
    let r = vec!["-M", "ctrl", "-k", "v", "-m", "ctrl"];
    assert(str_texts(r@) =~= gui_keys());
    r
}

fn ctrl_shift_v() -> (r: Vec<&'static str>)
    ensures
        str_texts(r@) == term_keys(),
{
    let r = vec!["-M", "ctrl", "-M", "shift", "-k", "v", "-m", "ctrl", "-m", "shift"];
    assert(str_texts(r@) =~= term_keys());
    r
}

/// Wayland paste key sequences to try, ordered by likelihood for the
/// detected compositor. Terminal paste = Ctrl+Shift+V, GUI paste = Ctrl+V.
pub fn paste_keys_for(compositor: WaylandCompositor) -> (r: Vec<Vec<&'static str>>)
    ensures
        key_texts(r@) == compositor_keys(compositor),
{
    let r = match compositor {
        WaylandCompositor::Gnome => vec![ctrl_v(), ctrl_shift_v()],
        _ => vec![ctrl_shift_v(), ctrl_v()],
    };
    assert(key_texts(r@) =~= compositor_keys(compositor));
    r
}

/// Paste key sequences to use, ordered by likelihood, for an app class.
/// Known classes get exactly one sequence: the wrong first key in a fallback
/// chain is what causes double pastes (browsers accept Ctrl+Shift+V too) and
/// stray literal characters (Ctrl+V is "quoted insert" in many terminals).
pub fn paste_keys_for_class(class: Option<FocusClass>, compositor: WaylandCompositor) -> (r: Vec<
    Vec<&'static str>,
>)
    ensures
        key_texts(r@) == target_keys(class, compositor),
{
    let r = match class {
        Some(FocusClass::Terminal) => vec![ctrl_shift_v()],
        Some(FocusClass::Browser) => vec![ctrl_v()],
        Some(FocusClass::Ide) => Vec::new(),
        Some(FocusClass::Generic) | None => paste_keys_for(compositor),
    };
    assert(key_texts(r@) =~= target_keys(class, compositor));
    r
}

/// Paste key sequences to use, ordered by likelihood, for the focused app.
pub fn paste_keys_for_target(target: Option<&FocusTarget>, compositor: WaylandCompositor) -> (r:
    Vec<Vec<&'static str>>)
    ensures
        key_texts(r@) == target_keys(
            match target {
                Some(t) => Some(t.class),
                None => None,
            },
            compositor,
        ),
{
    match target {
        Some(t) => paste_keys_for_class(Some(t.class), compositor),
        None => paste_keys_for_class(None, compositor),
    }
}

// ── Pressing them on Wayland ──────────────────────────────────────

/// Budget of each attempt of a wtype paste. The virtual-keyboard protocol can
/// wedge under compositor load; it never blocks dictation indefinitely.
pub const WTYPE_TIMEOUT_MS: u64 = 2500;

/// Pause before a key is tried again.
pub const RETRY_PAUSE_MS: u64 = 80;

/// Where the attempts stand.
#[derive(Debug, Clone, Copy, PartialEq, Eq, Structural)]
pub enum PastePhase {
    /// Press the first of the remaining keys.
    First,
    /// Wait before it is pressed again.
    Pausing,
    /// Press it again.
    Second,
    Delivered,
    /// All keys were tried in vain.
    GivenUp,
}

/// The attempts to paste via wtype.
#[derive(Debug)]
pub struct WtypePaste {
    lists: Vec<Vec<&'static str>>,
    at: usize,
    phase: PastePhase,
}

/// The attempts as a mathematical value: the keys that remain, the one in
/// turn first.
pub ghost struct PasteView {
    pub remaining: Seq<Seq<Seq<char>>>,
    pub phase: PastePhase,
}

impl View for WtypePaste {
    type V = PasteView;

    closed spec fn view(&self) -> PasteView {
        PasteView { remaining: key_texts(self.lists@).skip(self.at as int), phase: self.phase }
    }
}

/// The command that presses keys.
pub open spec fn press_command(keys: Seq<Seq<char>>) -> CommandView {
    query(seq!["wtype"@] + keys, Some(WTYPE_TIMEOUT_MS))
}

impl PasteView {
    /// The attempts before the first of these keys.
    pub open spec fn of(keys: Seq<Seq<Seq<char>>>) -> PasteView {
        PasteView {
            remaining: keys,
            phase: if keys.len() == 0 {
                PastePhase::GivenUp
            } else {
                PastePhase::First
            },
        }
    }

    /// There is a key in turn wherever one is to be pressed.
    pub open spec fn wf(self) -> bool {
        match self.phase {
            PastePhase::First | PastePhase::Pausing | PastePhase::Second => self.remaining.len()
                > 0,
            _ => true,
        }
    }

    /// What is to be done.
    pub open spec fn due(self) -> Action<CommandView> {
        match self.phase {
            PastePhase::First | PastePhase::Second => Action::Run(press_command(self.remaining[0])),
            PastePhase::Pausing => Action::Sleep(RETRY_PAUSE_MS),
            PastePhase::Delivered | PastePhase::GivenUp => Action::Done,
        }
    }

    /// On to the next key.
    pub open spec fn next_key(self) -> PasteView {
        PasteView::of(self.remaining.drop_first())
    }

    /// The state that an event leads to. A key whose press was reported as
    /// failed is tried once more, since it was not delivered; one that timed
    /// out or could not be sent is not, since that would likely repeat.
    pub open spec fn after(self, e: Event) -> PasteView {
        match (self.phase, e) {
            (PastePhase::First, Event::Ran(o)) => if o.succeeded() {
                PasteView { phase: PastePhase::Delivered, ..self }
            } else if o is Completed {
                PasteView { phase: PastePhase::Pausing, ..self }
            } else {
                self.next_key()
            },
            (PastePhase::Pausing, Event::Slept) => PasteView { phase: PastePhase::Second, ..self },
            (PastePhase::Second, Event::Ran(o)) => if o.succeeded() {
                PasteView { phase: PastePhase::Delivered, ..self }
            } else {
                self.next_key()
            },
            _ => self,
        }
    }

    /// The time that the attempts take at most from here.
    pub open spec fn budget(self) -> nat {
        let each = (2 * WTYPE_TIMEOUT_MS + RETRY_PAUSE_MS) as nat;
        match self.phase {
            PastePhase::First => each * self.remaining.len(),
            PastePhase::Pausing => (each * self.remaining.len() - WTYPE_TIMEOUT_MS) as nat,
            PastePhase::Second => (each * self.remaining.len() - WTYPE_TIMEOUT_MS
                - RETRY_PAUSE_MS) as nat,
            _ => 0,
        }
    }
}

impl WtypePaste {
    /// The attempts are consistent.
    pub closed spec fn wf(&self) -> bool {
        self.at <= self.lists@.len() && self@.wf()
    }

    /// Paste via wtype, choosing the key sequence from the focused app.
    pub fn paste_with_wtype(class: Option<FocusClass>, compositor: WaylandCompositor) -> (r:
        WtypePaste)
        ensures
            r.wf(),
            r@ == PasteView::of(target_keys(class, compositor)),
    {
        let lists = paste_keys_for_class(class, compositor);
        let phase = if lists.len() == 0 {
            PastePhase::GivenUp
        } else {
            PastePhase::First
        };
        assert(key_texts(lists@).skip(0) =~= key_texts(lists@));
        assert(key_texts(lists@).len() == lists@.len());
        WtypePaste { lists, at: 0, phase }
    }

    /// Whether a paste was delivered, once the attempts are over.
    pub fn delivered(&self) -> (r: bool)
        ensures
            r == (self@.phase == PastePhase::Delivered),
    {
        self.phase == PastePhase::Delivered
    }

    /// What is to be done.
    pub fn action(&self) -> (r: Action<CommandSpec>)
        requires
            self.wf(),
        ensures
            action_view(r) == self@.due(),
    {
        match self.phase {
            PastePhase::First | PastePhase::Second => {
                let keys = &self.lists[self.at];
                let mut argv = owned(vec!["wtype"]);
                assert(texts(argv@) =~= seq!["wtype"@]);
                for i in 0..keys.len()
                    invariant
                        texts(argv@) == seq!["wtype"@] + str_texts(keys@).take(i as int),
                {
                    let ghost before = argv@;
                    argv.push(keys[i].to_owned());
                    assert(texts(argv@) =~= texts(before).push(keys@[i as int]@));
                    assert(str_texts(keys@).take(i + 1) =~= str_texts(keys@).take(i as int).push(
                        keys@[i as int]@,
                    ));
                }
                assert(str_texts(keys@).take(keys@.len() as int) =~= str_texts(keys@));
                assert(self@.remaining[0] == str_texts(keys@));
                Action::Run(query_command(argv, Some(WTYPE_TIMEOUT_MS)))
            },
            PastePhase::Pausing => Action::Sleep(RETRY_PAUSE_MS),
            PastePhase::Delivered | PastePhase::GivenUp => Action::Done,
        }
    }

    fn advance(self) -> (r: WtypePaste)
        requires
            self.wf(),
            self@.remaining.len() > 0,
        ensures
            r.wf(),
            r@ == self@.next_key(),
    {
        assert(self.at < self.lists.len());
        let at: usize = self.at + 1;
        let phase = if at == self.lists.len() {
            PastePhase::GivenUp
        } else {
            PastePhase::First
        };
        assert(key_texts(self.lists@).skip(at as int) =~= key_texts(self.lists@).skip(
            self.at as int,
        ).drop_first());
        WtypePaste { lists: self.lists, at, phase }
    }

    /// The state that an event leads to.
    pub fn next(self, e: &Event) -> (r: WtypePaste)
        requires
            self.wf(),
        ensures
            r.wf(),
            r@ == self@.after(*e),
    {
        match (self.phase, e) {
            (PastePhase::First, Event::Ran(o)) => {
                if o.is_success() {
                    WtypePaste { lists: self.lists, at: self.at, phase: PastePhase::Delivered }
                } else {
                    match o {
                        CommandOutcome::Completed(_) => WtypePaste {
                            lists: self.lists,
                            at: self.at,
                            phase: PastePhase::Pausing,
                        },
                        _ => self.advance(),
                    }
                }
            },
            (PastePhase::Pausing, Event::Slept) => WtypePaste {
                lists: self.lists,
                at: self.at,
                phase: PastePhase::Second,
            },
            (PastePhase::Second, Event::Ran(o)) => {
                if o.is_success() {
                    WtypePaste { lists: self.lists, at: self.at, phase: PastePhase::Delivered }
                } else {
                    self.advance()
                }
            },
            _ => self,
        }
    }
}

/// Each step has a time limit, which the budget covers.
pub proof fn pasting_is_bounded(s: PasteView, e: Event)
    requires
        s.wf(),
    ensures
        s.after(e).wf(),
        bounded(s.due()),
        answers(e, s.due()) ==> s.budget() >= cost_ms(s.due()) + s.after(e).budget(),
{
    let each = (2 * WTYPE_TIMEOUT_MS + RETRY_PAUSE_MS) as nat;
    let n = s.remaining.len() as int;
    if n > 0 {
        assert(each * n == each * (n - 1) + each) by (nonlinear_arith);
        assert(each * (n - 1) >= 0) by (nonlinear_arith)
            requires
                n > 0,
                each >= 0,
        ;
        assert(s.remaining.drop_first().len() == n - 1);
    }
}

/// Nothing is pressed after a press that succeeded: a paste is not doubled.
pub proof fn a_delivered_key_is_the_last(s: PasteView, e: Event)
    requires
        s.due() is Run,
        e matches Event::Ran(o) && o.succeeded(),
    ensures
        s.after(e).due() is Done,
        s.after(e).phase == PastePhase::Delivered,
{
}

/// A key is pressed a second time only after its first press ran and was
/// reported as failed, and after a pause.
pub proof fn a_key_is_pressed_again_only_after_a_failed_press(s: PasteView, e: Event)
    requires
        s.phase != PastePhase::Second,
        s.after(e).phase == PastePhase::Pausing || s.after(e).phase == PastePhase::Second,
    ensures
        s.after(e).remaining == s.remaining,
        s.phase == PastePhase::First ==> (e matches Event::Ran(o) && o is Completed
            && !o.succeeded()),
        s.after(e).phase == PastePhase::Second ==> s.phase == PastePhase::Pausing,
{
}

/// Known applications get exactly one shortcut, an editor none, an unknown
/// one both.
pub proof fn known_targets_get_one_shortcut(class: Option<FocusClass>, compositor: WaylandCompositor)
    ensures
        class == Some(FocusClass::Terminal) ==> target_keys(class, compositor) == seq![term_keys()],
        class == Some(FocusClass::Browser) ==> target_keys(class, compositor) == seq![gui_keys()],
        class == Some(FocusClass::Ide) ==> target_keys(class, compositor).len() == 0,
        class is None || class == Some(FocusClass::Generic) ==> target_keys(
            class,
            compositor,
        ).len() == 2 && target_keys(class, compositor).contains(term_keys()) && target_keys(
            class,
            compositor,
        ).contains(gui_keys()),
{
    let keys = target_keys(class, compositor);
    if class is None || class == Some(FocusClass::Generic) {
        assert(keys[0] == term_keys() || keys[1] == term_keys());
        assert(keys[0] == gui_keys() || keys[1] == gui_keys());
    }
}

/// Where the application is not known, the shortcut that is tried first is
/// Ctrl+V on GNOME and Ctrl+Shift+V on every other compositor, and the other one
/// is tried after it. Nothing follows a delivered key, so it is the first that
/// decides where the text goes.
pub proof fn the_compositor_decides_what_is_tried_first(
    class: Option<FocusClass>,
    compositor: WaylandCompositor,
)
    requires
        class is None || class == Some(FocusClass::Generic),
    ensures
        target_keys(class, compositor)[0].contains("shift"@) <==> compositor
            != WaylandCompositor::Gnome,
        target_keys(class, compositor)[1].contains("shift"@) <==> compositor
            == WaylandCompositor::Gnome,
        target_keys(class, compositor).len() == 2,
        compositor_keys(compositor) == target_keys(class, compositor),
{
    shift_tells_the_two_shortcuts_apart();
}

/// A known application gets one shortcut on every compositor: the one with
/// shift if it is a terminal, the one without if it is a browser.
pub proof fn shift_is_for_terminals(compositor: WaylandCompositor, other: WaylandCompositor)
    ensures
        target_keys(Some(FocusClass::Terminal), compositor).len() == 1,
        target_keys(Some(FocusClass::Terminal), compositor)[0].contains("shift"@),
        target_keys(Some(FocusClass::Browser), compositor).len() == 1,
        !target_keys(Some(FocusClass::Browser), compositor)[0].contains("shift"@),
        forall|class: FocusClass|
            class != FocusClass::Generic ==> #[trigger] target_keys(Some(class), compositor)
                == target_keys(Some(class), other),
{
    shift_tells_the_two_shortcuts_apart();
    assert forall|class: FocusClass| class != FocusClass::Generic implies #[trigger] target_keys(
        Some(class),
        compositor,
    ) == target_keys(Some(class), other) by {
        assert(class == FocusClass::Terminal || class == FocusClass::Browser || class
            == FocusClass::Ide);
    }
}

/// The words at position `i` are this flag and this key.
pub open spec fn says_at(keys: Seq<Seq<char>>, flag: Seq<char>, key: Seq<char>, i: int) -> bool {
    0 <= i && i + 1 < keys.len() && keys[i] == flag && keys[i + 1] == key
}

/// The words hold a modifier down, press V and let the modifier go, in this
/// order.
pub open spec fn presses_v_with(keys: Seq<Seq<char>>, modifier: Seq<char>) -> bool {
    exists|i: int, j: int, k: int|
        i < j < k && #[trigger] says_at(keys, "-M"@, modifier, i) && #[trigger] says_at(
            keys,
            "-k"@,
            "v"@,
            j,
        ) && #[trigger] says_at(keys, "-m"@, modifier, k)
}

proof fn lemma_words_of_wtype()
    ensures
        "-M"@ != "-m"@,
        "-M"@ != "-k"@,
        "-m"@ != "-k"@,
        "-M"@ != "ctrl"@,
        "-M"@ != "shift"@,
        "-M"@ != "v"@,
        "-m"@ != "ctrl"@,
        "-m"@ != "shift"@,
        "-m"@ != "v"@,
        "-k"@ != "ctrl"@,
        "-k"@ != "shift"@,
        "-k"@ != "v"@,
        "ctrl"@ != "shift"@,
        "ctrl"@ != "v"@,
        "shift"@ != "v"@,
{
    reveal_strlit("-M");
    reveal_strlit("-m");
    reveal_strlit("-k");
    reveal_strlit("ctrl");
    reveal_strlit("shift");
    reveal_strlit("v");
    assert("-M"@[1] != "-m"@[1] && "-M"@[1] != "-k"@[1] && "-m"@[1] != "-k"@[1]);
    assert("ctrl"@.len() == 4 && "shift"@.len() == 5 && "v"@.len() == 1 && "-M"@.len() == 2);
}

/// Both shortcuts hold Ctrl down, press V and let Ctrl go again, in this order;
/// the one for terminals does so with Shift too, the other never touches it.
pub proof fn shift_tells_the_two_shortcuts_apart()
    ensures
        presses_v_with(gui_keys(), "ctrl"@),
        presses_v_with(term_keys(), "ctrl"@),
        presses_v_with(term_keys(), "shift"@),
        gui_keys().len() == 6,
        term_keys().len() == 10,
        term_keys().contains("shift"@),
        !gui_keys().contains("shift"@),
{
    lemma_words_of_wtype();
    let g = gui_keys();
    let t = term_keys();
    assert(says_at(g, "-M"@, "ctrl"@, 0) && says_at(g, "-k"@, "v"@, 2) && says_at(
        g,
        "-m"@,
        "ctrl"@,
        4,
    ));
    assert(says_at(t, "-M"@, "ctrl"@, 0) && says_at(t, "-k"@, "v"@, 4) && says_at(
        t,
        "-m"@,
        "ctrl"@,
        6,
    ));
    assert(says_at(t, "-M"@, "shift"@, 2) && says_at(t, "-m"@, "shift"@, 8));
    assert(t[3] == "shift"@);
    assert(g.len() == 6);
    assert(!g.contains("shift"@)) by {
        assert(g[0] != "shift"@ && g[1] != "shift"@ && g[2] != "shift"@ && g[3] != "shift"@ && g[4]
            != "shift"@ && g[5] != "shift"@);
    }
}

/// A shortcut is pressed with wtype, which gets the words of the shortcut and no
/// others, under a time limit.
pub proof fn wtype_gets_the_words_of_the_shortcut(keys: Seq<Seq<char>>)
    ensures
        press_command(keys).argv[0] == "wtype"@,
        press_command(keys).argv.skip(1) == keys,
        press_command(keys).limit_ms == Some(2500u64),
{
    assert(press_command(keys).argv.skip(1) =~= keys);
}

/// The attempts begin with the first shortcut of the list. One that could not be
/// sent, or took too long, makes way for the next; one that was reported as
/// failed does so after it was tried twice; and the attempts are given up
/// exactly where none is left.
pub proof fn the_shortcuts_are_tried_in_their_order(
    keys: Seq<Seq<Seq<char>>>,
    o: CommandOutcome,
    again: CommandOutcome,
)
    requires
        keys.len() > 0,
        !o.succeeded(),
        !again.succeeded(),
    ensures
        ({
            let s = PasteView::of(keys);
            let t = s.after(Event::Ran(o));
            &&& s.due() == Action::Run(press_command(keys[0]))
            &&& o is Completed ==> {
                &&& t.due() == Action::<CommandView>::Sleep(80)
                &&& t.after(Event::Slept).due() == s.due()
                &&& t.after(Event::Slept).after(Event::Ran(again)) == PasteView::of(
                    keys.drop_first(),
                )
            }
            &&& o !is Completed ==> t == PasteView::of(keys.drop_first())
            &&& s.phase != PastePhase::GivenUp
        }),
        PasteView::of(Seq::empty()).due() is Done,
        PasteView::of(Seq::empty()).phase == PastePhase::GivenUp,
{
}

// ── Editors that are running ──────────────────────────────────────

/// The process names of the editors that take the paste shortcut for
/// something else.
pub open spec fn editor_processes() -> Seq<Seq<char>> {
    seq!["code"@, "code-oss"@, "codium"@]
}

/// The search for such a process, on Wayland, where the focused window cannot
/// be asked for directly.
#[derive(Debug, Clone, Copy, PartialEq, Eq, Structural)]
pub enum EditorSearch {
    AskCode,
    AskCodeOss,
    AskCodium,
    Decided(bool),
}

/// The question whether a process of this name runs.
pub open spec fn process_search(name: Seq<char>) -> CommandView {
    lookup(seq!["pgrep"@, "-x"@, name], Some(LOOKUP_TIMEOUT_MS))
}

impl EditorSearch {
    /// The command that the search waits for.
    pub open spec fn due(self) -> Option<CommandView> {
        match self {
            EditorSearch::AskCode => Some(process_search(editor_processes()[0])),
            EditorSearch::AskCodeOss => Some(process_search(editor_processes()[1])),
            EditorSearch::AskCodium => Some(process_search(editor_processes()[2])),
            EditorSearch::Decided(_) => None,
        }
    }

    /// The state after a reply: one that was found decides.
    pub open spec fn after(self, found: bool) -> EditorSearch {
        match self {
            EditorSearch::AskCode if !found => EditorSearch::AskCodeOss,
            EditorSearch::AskCodeOss if !found => EditorSearch::AskCodium,
            EditorSearch::Decided(_) => self,
            _ => EditorSearch::Decided(found),
        }
    }

    /// The time that the search takes at most from here.
    pub open spec fn budget(self) -> nat {
        match self {
            EditorSearch::AskCode => 3 * LOOKUP_TIMEOUT_MS as nat,
            EditorSearch::AskCodeOss => 2 * LOOKUP_TIMEOUT_MS as nat,
            EditorSearch::AskCodium => LOOKUP_TIMEOUT_MS as nat,
            EditorSearch::Decided(_) => 0,
        }
    }

    /// The search from its beginning.
    pub fn is_vscode_running() -> (r: EditorSearch)
        ensures
            r == EditorSearch::AskCode,
    {
        EditorSearch::AskCode
    }

    /// The command that the search waits for.
    pub fn command(&self) -> (r: Option<CommandSpec>)
        ensures
            match r {
                Some(c) => self.due() == Some(c@),
                None => self.due() is None,
            },
    {
        let name = match self {
            EditorSearch::AskCode => "code",
            EditorSearch::AskCodeOss => "code-oss",
            EditorSearch::AskCodium => "codium",
            EditorSearch::Decided(_) => return None,
        };
        let argv = owned(vec!["pgrep", "-x", name]);
        assert(texts(argv@) =~= seq!["pgrep"@, "-x"@, name@]);
        Some(lookup_command(argv, Some(LOOKUP_TIMEOUT_MS)))
    }

    /// The state after a reply.
    pub fn next(self, outcome: &CommandOutcome) -> (r: EditorSearch)
        ensures
            r == self.after(outcome.succeeded()),
    {
        let found = outcome.is_success();
        match self {
            EditorSearch::AskCode => if found {
                EditorSearch::Decided(true)
            } else {
                EditorSearch::AskCodeOss
            },
            EditorSearch::AskCodeOss => if found {
                EditorSearch::Decided(true)
            } else {
                EditorSearch::AskCodium
            },
            EditorSearch::AskCodium => EditorSearch::Decided(found),
            EditorSearch::Decided(b) => EditorSearch::Decided(b),
        }
    }
}

/// An editor runs exactly where one of the three questions finds it.
pub proof fn one_running_editor_decides(code: bool, code_oss: bool, codium: bool)
    ensures
        ({
            let s = EditorSearch::AskCode.after(code);
            let t = if s is AskCodeOss {
                s.after(code_oss)
            } else {
                s
            };
            let u = if t is AskCodium {
                t.after(codium)
            } else {
                t
            };
            u == EditorSearch::Decided(code || code_oss || codium)
        }),
{
}

/// The questions are for the three names under which the editor runs, each by
/// its whole name.
pub proof fn the_editor_is_looked_for_under_its_names(name: Seq<char>)
    ensures
        EditorSearch::AskCode.due() matches Some(c) && c.argv.last() == "code"@,
        EditorSearch::AskCodeOss.due() matches Some(c) && c.argv.last() == "code-oss"@,
        EditorSearch::AskCodium.due() matches Some(c) && c.argv.last() == "codium"@,
        process_search(name).argv == seq!["pgrep"@, "-x"@, name],
        process_search(name).input is Empty,
{
}

// ── Pressing them on X11 ──────────────────────────────────────────

/// The paste shortcut of an X11 window.
pub open spec fn shortcut(terminal: bool) -> Seq<char> {
    if terminal {
        "ctrl+shift+v"@
    } else {
        "ctrl+v"@
    }
}

/// The paste shortcut of an X11 window.
pub fn shortcut_for(terminal: bool) -> (r: &'static str)
    ensures
        r@ == shortcut(terminal),
{
    if terminal {
        "ctrl+shift+v"
    } else {
        "ctrl+v"
    }
}

/// The command that presses the shortcut.
pub open spec fn xdotool_command(terminal: bool) -> CommandView {
    CommandView {
        argv: seq!["xdotool"@, "key"@, shortcut(terminal)],
        input: Input::Inherited,
        capture: false,
        limit_ms: Some(CLIP_CMD_TIMEOUT_MS),
    }
}

/// The command that presses the shortcut.
pub fn press_with_xdotool(terminal: bool) -> (r: CommandSpec)
    ensures
        r@ == xdotool_command(terminal),
{
    let argv = owned(vec!["xdotool", "key", shortcut_for(terminal)]);
    assert(texts(argv@) =~= seq!["xdotool"@, "key"@, shortcut(terminal)]);
    CommandSpec { argv, input: Input::Inherited, capture: false, limit_ms: Some(CLIP_CMD_TIMEOUT_MS) }
}

/// An X11 window gets one keystroke: a terminal the one with shift, any other
/// window the one without.
pub proof fn an_x11_shortcut_has_shift_for_a_terminal(terminal: bool)
    ensures
        xdotool_command(terminal).argv.len() == 3,
        xdotool_command(terminal).argv[0] == "xdotool"@,
        xdotool_command(terminal).argv[1] == "key"@,
        has_text(xdotool_command(terminal).argv[2], "shift"@) <==> terminal,
        xdotool_command(true).argv[2] == "ctrl+"@ + "shift+"@ + "v"@,
        xdotool_command(false).argv[2] == "ctrl+"@ + "v"@,
        xdotool_command(terminal).limit_ms == Some(3000u64),
        xdotool_command(terminal).input is Inherited && !xdotool_command(terminal).capture,
{
    reveal_strlit("ctrl+shift+v");
    reveal_strlit("ctrl+v");
    reveal_strlit("ctrl+");
    reveal_strlit("shift+");
    reveal_strlit("shift");
    reveal_strlit("v");
    assert("ctrl+shift+v"@ =~= "ctrl+"@ + "shift+"@ + "v"@);
    assert("ctrl+v"@ =~= "ctrl+"@ + "v"@);
    assert("ctrl+shift+v"@.subrange(5, 10) =~= "shift"@);
    assert(occurs_at("ctrl+shift+v"@, "shift"@, 5));
    assert(!has_text("ctrl+v"@, "shift"@)) by {
        if has_text("ctrl+v"@, "shift"@) {
            let i = choose|i: int| occurs_at("ctrl+v"@, "shift"@, i);
            assert("ctrl+v"@.subrange(i, i + 5)[0] == "shift"@[0]);
        }
    }
}

}
