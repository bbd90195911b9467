//! The focused window: what kind of application it belongs to, and which
//! keys paste into it.

use crate::command::{query, query_command, CommandOutcome, CommandSpec, CommandView};
use crate::environment::WaylandCompositor;
use crate::json::{a_field_is_smaller, document_of_bytes, parse_json_bytes, Json, JsonTree};
use crate::text::{
    is_listed, lowercase, opt_text, owned, str_texts, texts, to_lowercase, trim, trimmed,
};
use vstd::prelude::*;

verus! {

// ── Application classes ───────────────────────────────────────────

/// Broad app classes that dictate which paste shortcut to use.
#[derive(Debug, Clone, Copy, PartialEq, Eq, Structural)]
pub enum FocusClass {
    Terminal,
    Browser,
    Ide,
    Generic,
}

/// The names of terminal emulators.
pub open spec fn terminal_names() -> Seq<&'static str> {
    seq![
        "alacritty",
        "xfce4-terminal",
        "xfterminal",
        "gnome-terminal",
        "gnome-terminal-server",
        "konsole",
        "xterm",
        "uxterm",
        "urxvt",
        "urxvtc",
        "terminator",
        "tilix",
        "kitty",
        "wezterm",
        "st",
        "st-256color",
        "rxvt",
        "foot",
        "footclient",
        "guake",
        "mate-terminal",
        "lxterminal",
        "cool-retro-term",
        "deepin-terminal",
        "sakura",
        "termite",
        "ghostty",
        "blackbox",
        "contour",
        "tabby",
        "warp-terminal",
    ]
}

/// The names of browsers.
pub open spec fn browser_names() -> Seq<&'static str> {
    seq![
        "google-chrome",
        "chrome",
        "chromium",
        "chromium-browser",
        "firefox",
        "firefox-esr",
        "librewolf",
        "waterfox",
        "brave-browser",
        "brave",
        "microsoft-edge",
        "msedge",
        "edge",
        "vivaldi",
        "opera",
        "epiphany",
        "zen",
        "thorium-browser",
        "floorp",
        "mullvad-browser",
        "tor-browser",
    ]
}

/// The names of development environments.
pub open spec fn ide_names() -> Seq<&'static str> {
    seq![
        "code",
        "code-oss",
        "vscodium",
        "codium",
        "cursor",
        "zed",
        "sublime_text",
        "sublimetext",
        "idea",
        "pycharm",
        "webstorm",
        "goland",
        "rustrover",
        "clion",
        "phpstorm",
        "datagrip",
        "rider",
        "rubymine",
        "fleet",
        "android-studio",
        "studio64",
    ]
}

/// The name is that of a terminal emulator.
pub open spec fn terminal_name(name: Seq<char>) -> bool {
    str_texts(terminal_names()).contains(name)
}

/// The class of an application by its name in lower case.
pub open spec fn class_named(name: Seq<char>) -> FocusClass {
    if name.len() == 0 {
        FocusClass::Generic
    } else if terminal_name(name) {
        FocusClass::Terminal
    } else if str_texts(browser_names()).contains(name) {
        FocusClass::Browser
    } else if str_texts(ide_names()).contains(name) {
        FocusClass::Ide
    } else {
        FocusClass::Generic
    }
}

/// The class of an application by its identifier.
pub open spec fn class_of(id: Seq<char>) -> FocusClass {
    class_named(lowercase(trimmed(id)))
}

pub fn is_known_terminal(name: &str) -> (r: bool)
    ensures
        r == terminal_name(name@),
{
    let names = vec![
        "alacritty",
        "xfce4-terminal",
        "xfterminal",
        "gnome-terminal",
        "gnome-terminal-server",
        "konsole",
        "xterm",
        "uxterm",
        "urxvt",
        "urxvtc",
        "terminator",
        "tilix",
        "kitty",
        "wezterm",
        "st",
        "st-256color",
        "rxvt",
        "foot",
        "footclient",
        "guake",
        "mate-terminal",
        "lxterminal",
        "cool-retro-term",
        "deepin-terminal",
        "sakura",
        "termite",
        "ghostty",
        "blackbox",
        "contour",
        "tabby",
        "warp-terminal",
    ];
    assert(names@ =~= terminal_names());
    is_listed(name, &names)
}

/// The class of an application by its name in lower case.
pub fn classify_name(name: &str) -> (r: FocusClass)
    ensures
        r == class_named(name@),
{
    if name.is_empty() {
        return FocusClass::Generic;
    }
    if is_known_terminal(name) {
        return FocusClass::Terminal;
    }
    let browsers = vec![
        "google-chrome",
        "chrome",
        "chromium",
        "chromium-browser",
        "firefox",
        "firefox-esr",
        "librewolf",
        "waterfox",
        "brave-browser",
        "brave",
        "microsoft-edge",
        "msedge",
        "edge",
        "vivaldi",
        "opera",
        "epiphany",
        "zen",
        "thorium-browser",
        "floorp",
        "mullvad-browser",
        "tor-browser",
    ];
    assert(browsers@ =~= browser_names());
    if is_listed(name, &browsers) {
        return FocusClass::Browser;
    }
    let ides = vec![
        "code",
        "code-oss",
        "vscodium",
        "codium",
        "cursor",
        "zed",
        "sublime_text",
        "sublimetext",
        "idea",
        "pycharm",
        "webstorm",
        "goland",
        "rustrover",
        "clion",
        "phpstorm",
        "datagrip",
        "rider",
        "rubymine",
        "fleet",
        "android-studio",
        "studio64",
    ];
    assert(ides@ =~= ide_names());
    if is_listed(name, &ides) {
        return FocusClass::Ide;
    }
    FocusClass::Generic
}

/// Maps an app identifier (sway `app_id`, Hyprland `class`, or X11 `WM_CLASS`)
/// to the class that determines the paste shortcut.
pub fn classify_focus(id: &str) -> (r: FocusClass)
    ensures
        r == class_of(id@),
{
    let name = to_lowercase(trim(id));
    classify_name(name.as_str())
}

// ── The focused window ────────────────────────────────────────────

/// A detected focused window.
#[derive(Debug)]
pub struct FocusTarget {
    pub class: FocusClass,
    /// True when the window is an XWayland (X11) client.
    pub xwayland: bool,
    /// Raw app identifier (app_id or WM_CLASS), when known.
    pub id: Option<String>,
}

/// A focused window as a mathematical value.
pub ghost struct TargetView {
    pub class: FocusClass,
    pub xwayland: bool,
    pub id: Option<Seq<char>>,
}

impl View for FocusTarget {
    type V = TargetView;

    open spec fn view(&self) -> TargetView {
        TargetView { class: self.class, xwayland: self.xwayland, id: opt_text(self.id) }
    }
}

/// A window that may be unknown, as a mathematical value.
pub open spec fn target_view(t: Option<FocusTarget>) -> Option<TargetView> {
    match t {
        Some(f) => Some(f@),
        None => None,
    }
}

/// The window of an application with this identifier; the empty identifier
/// says nothing.
pub open spec fn window_of(id: Option<Seq<char>>, xwayland: bool) -> TargetView {
    let known = if id == Some(Seq::<char>::empty()) {
        None
    } else {
        id
    };
    TargetView {
        class: class_of(
            match known {
                Some(s) => s,
                None => Seq::empty(),
            },
        ),
        xwayland,
        id: known,
    }
}

fn target_named(id: Option<&str>, xwayland: bool) -> (r: FocusTarget)
    ensures
        r@ == window_of(
            match id {
                Some(s) => Some(s@),
                None => None,
            },
            xwayland,
        ),
{
    match id {
        Some(s) => {
            if s.is_empty() {
                assert(s@ =~= Seq::<char>::empty());
                proof {
                    reveal_strlit("");
                    assert(""@ =~= Seq::<char>::empty());
                }
                FocusTarget { class: classify_focus(""), xwayland, id: None }
            } else {
                FocusTarget { class: classify_focus(s), xwayland, id: Some(s.to_owned()) }
            }
        },
        None => {
            proof {
                reveal_strlit("");
                assert(""@ =~= Seq::<char>::empty());
            }
            FocusTarget { class: classify_focus(""), xwayland, id: None }
        },
    }
}

// ── Sway ──────────────────────────────────────────────────────────

/// The node says of itself that it has the focus.
pub open spec fn focused(node: JsonTree) -> bool {
    node.field("focused"@) matches Some(b) && b.truth() == Some(true)
}

/// The nodes of a tree, each before its children, tiled ones before floating
/// ones.
pub open spec fn nodes_of(t: JsonTree) -> Seq<JsonTree>
    decreases t,
{
    proof {
        a_field_is_smaller(t, "nodes"@);
        a_field_is_smaller(t, "floating_nodes"@);
    }
    let tiled = match t.field("nodes"@) {
        Some(JsonTree::Array(items)) => nodes_of_all(items),
        _ => Seq::empty(),
    };
    let floating = match t.field("floating_nodes"@) {
        Some(JsonTree::Array(items)) => nodes_of_all(items),
        _ => Seq::empty(),
    };
    seq![t] + tiled + floating
}

/// The nodes of a list of trees.
pub open spec fn nodes_of_all(ts: Seq<JsonTree>) -> Seq<JsonTree>
    decreases ts,
{
    if ts.len() == 0 {
        Seq::empty()
    } else {
        nodes_of(ts[0]) + nodes_of_all(ts.drop_first())
    }
}

/// The first of a list of nodes that has the focus.
pub open spec fn first_focused(nodes: Seq<JsonTree>) -> Option<JsonTree>
    decreases nodes.len(),
{
    if nodes.len() == 0 {
        None
    } else if focused(nodes[0]) {
        Some(nodes[0])
    } else {
        first_focused(nodes.drop_first())
    }
}

proof fn lemma_first_focused_of_two(a: Seq<JsonTree>, b: Seq<JsonTree>)
    ensures
        first_focused(a + b) == match first_focused(a) {
            Some(n) => Some(n),
            None => first_focused(b),
        },
    decreases a.len(),
{
    if a.len() == 0 {
        assert(a + b =~= b);
    } else {
        assert((a + b).drop_first() =~= a.drop_first() + b);
        lemma_first_focused_of_two(a.drop_first(), b);
    }
}

/// The first focused node below a list of trees.
fn find_focused_among<'a>(children: &'a Vec<Json>, trees: Ghost<Seq<JsonTree>>) -> (r: Option<&'a Json>)
    requires
        trees@.len() == children@.len(),
        forall|i: int| 0 <= i < children@.len() ==> trees@[i] == (#[trigger] children@[i]).tree(),
    ensures
        match r {
            Some(n) => first_focused(nodes_of_all(trees@)) == Some(n.tree()),
            None => first_focused(nodes_of_all(trees@)) is None,
        },
    decreases trees@, 1nat,
{
    let ghost ts = trees@;
    assert(ts.skip(0) =~= ts);
    for i in 0..children.len()
        invariant
            ts == trees@,
            ts.len() == children@.len(),
            forall|k: int| 0 <= k < children@.len() ==> ts[k] == (#[trigger] children@[k]).tree(),
            first_focused(nodes_of_all(ts)) == first_focused(nodes_of_all(ts.skip(i as int))),
    {
        let ghost rest = ts.skip(i as int);
        proof {
            assert(rest[0] == children@[i as int].tree());
            assert(rest.drop_first() =~= ts.skip(i + 1));
            lemma_first_focused_of_two(nodes_of(rest[0]), nodes_of_all(rest.drop_first()));
            assert(decreases_to!(ts => ts[i as int]));
        }
        if let Some(found) = find_focused_node(&children[i]) {
            return Some(found);
        }
    }
    assert(ts.skip(ts.len() as int).len() == 0);
    None
}

/// Walks a sway `get_tree` value to the node with `focused: true`.
pub fn find_focused_node(v: &Json) -> (r: Option<&Json>)
    ensures
        match r {
            Some(n) => first_focused(nodes_of(v.tree())) == Some(n.tree()),
            None => first_focused(nodes_of(v.tree())) is None,
        },
    decreases v.tree(), 0nat,
{
    let ghost t = v.tree();
    proof {
        a_field_is_smaller(t, "nodes"@);
        a_field_is_smaller(t, "floating_nodes"@);
    }
    let ghost tiled = match t.field("nodes"@) {
        Some(JsonTree::Array(items)) => nodes_of_all(items),
        _ => Seq::empty(),
    };
    let ghost floating = match t.field("floating_nodes"@) {
        Some(JsonTree::Array(items)) => nodes_of_all(items),
        _ => Seq::empty(),
    };
    proof {
        lemma_first_focused_of_two(seq![t] + tiled, floating);
        lemma_first_focused_of_two(seq![t], tiled);
        assert(seq![t].drop_first() =~= Seq::<JsonTree>::empty());
        assert(first_focused(Seq::<JsonTree>::empty()) is None);
        assert(nodes_of(t) == seq![t] + tiled + floating);
    }
    if let Some(b) = v.get("focused") {
        if let Some(flag) = b.as_bool() {
            if flag {
                return Some(v);
            }
        }
    }
    if let Some(nodes) = v.get("nodes") {
        if let Some(children) = nodes.as_array() {
            assert(decreases_to!(nodes.tree() => nodes.tree()->Array_0));
            if let Some(found) = find_focused_among(children, Ghost(nodes.tree()->Array_0)) {
                return Some(found);
            }
        }
    }
    if let Some(nodes) = v.get("floating_nodes") {
        if let Some(children) = nodes.as_array() {
            assert(decreases_to!(nodes.tree() => nodes.tree()->Array_0));
            if let Some(found) = find_focused_among(children, Ghost(nodes.tree()->Array_0)) {
                return Some(found);
            }
        }
    }
    None
}

/// The identifier that a node gives: its `app_id`, otherwise the class of its
/// X11 window.
pub open spec fn node_id(node: JsonTree) -> Option<Seq<char>> {
    let app_id = match node.field("app_id"@) {
        Some(v) => v.text(),
        None => None,
    };
    let win_class = match node.field("window_properties"@) {
        Some(p) => match p.field("class"@) {
            Some(c) => c.text(),
            None => None,
        },
        None => None,
    };
    if app_id is Some {
        app_id
    } else {
        win_class
    }
}

/// The window that a node stands for; XWayland clients are those that have
/// X11 window properties.
pub open spec fn node_window(node: JsonTree) -> TargetView {
    window_of(node_id(node), node.field("window_properties"@) is Some)
}

/// Extracts the app id and XWayland-ness from a sway tree node.
pub fn focus_target_from_node(node: &Json) -> (r: Option<FocusTarget>)
    ensures
        target_view(r) == Some(node_window(node.tree())),
{
    let window_properties = node.get("window_properties");
    let app_id = match node.get("app_id") {
        Some(v) => v.as_str(),
        None => None,
    };
    let win_class = match window_properties {
        Some(p) => match p.get("class") {
            Some(c) => c.as_str(),
            None => None,
        },
        None => None,
    };
    let id = match app_id {
        Some(s) => Some(s),
        None => win_class,
    };
    Some(target_named(id, window_properties.is_some()))
}

/// The window that has the focus in a sway tree.
pub open spec fn sway_window(tree: JsonTree) -> Option<TargetView> {
    match first_focused(nodes_of(tree)) {
        Some(node) => Some(node_window(node)),
        None => None,
    }
}

/// The window that has the focus in a sway tree.
pub fn focus_in_sway_tree(tree: &Json) -> (r: Option<FocusTarget>)
    ensures
        target_view(r) == sway_window(tree.tree()),
{
    match find_focused_node(tree) {
        Some(node) => focus_target_from_node(node),
        None => None,
    }
}

// ── Hyprland ──────────────────────────────────────────────────────

/// The window that Hyprland describes as the active one.
pub open spec fn hypr_window(v: JsonTree) -> TargetView {
    window_of(
        match v.field("class"@) {
            Some(c) => c.text(),
            None => None,
        },
        v.field("xwayland"@) matches Some(x) && x.truth() == Some(true),
    )
}

/// The window that Hyprland describes as the active one.
pub fn focus_in_hypr_window(v: &Json) -> (r: FocusTarget)
    ensures
        r@ == hypr_window(v.tree()),
{
    let class = match v.get("class") {
        Some(c) => c.as_str(),
        None => None,
    };
    let xwayland = match v.get("xwayland") {
        Some(x) => match x.as_bool() {
            Some(b) => b,
            None => false,
        },
        None => false,
    };
    target_named(class, xwayland)
}

// ── Asking the compositor ─────────────────────────────────────────

/// Budget for compositor IPC (swaymsg / hyprctl) used in focus detection.
pub const IPC_TIMEOUT_MS: u64 = 800;

/// The question for the focused window, of a compositor that answers it.
pub open spec fn focus_question(compositor: WaylandCompositor) -> Option<CommandView> {
    match compositor {
        WaylandCompositor::Sway => Some(
            query(seq!["swaymsg"@, "-t"@, "get_tree"@], Some(IPC_TIMEOUT_MS)),
        ),
        WaylandCompositor::Hyprland => Some(
            query(seq!["hyprctl"@, "activewindow"@, "-j"@], Some(IPC_TIMEOUT_MS)),
        ),
        _ => None,
    }
}

/// The question for the focused window, of a compositor that answers it:
/// elsewhere nothing is guessed from possibly stale X11 focus.
pub fn focus_query(compositor: WaylandCompositor) -> (r: Option<CommandSpec>)
    ensures
        match r {
            Some(c) => focus_question(compositor) == Some(c@),
            None => focus_question(compositor) is None,
        },
{
    match compositor {
        WaylandCompositor::Sway => {
            let argv = owned(vec!["swaymsg", "-t", "get_tree"]);
            assert(texts(argv@) =~= seq!["swaymsg"@, "-t"@, "get_tree"@]);
            Some(query_command(argv, Some(IPC_TIMEOUT_MS)))
        },
        WaylandCompositor::Hyprland => {
            let argv = owned(vec!["hyprctl", "activewindow", "-j"]);
            assert(texts(argv@) =~= seq!["hyprctl"@, "activewindow"@, "-j"@]);
            Some(query_command(argv, Some(IPC_TIMEOUT_MS)))
        },
        _ => None,
    }
}

/// The document in the output of a command that succeeded.
pub open spec fn replied_document(outcome: CommandOutcome) -> Option<JsonTree> {
    match outcome {
        CommandOutcome::Completed(o) => if o.success {
            document_of_bytes(o.stdout@)
        } else {
            None
        },
        _ => None,
    }
}

fn read_document(outcome: &CommandOutcome) -> (r: Option<Json>)
    ensures
        match r {
            Some(v) => replied_document(*outcome) == Some(v.tree()),
            None => replied_document(*outcome) is None,
        },
{
    match outcome {
        CommandOutcome::Completed(o) => {
            if o.success {
                parse_json_bytes(o.stdout.as_slice())
            } else {
                None
            }
        },
        _ => None,
    }
}

/// The focused window by the reply of a compositor to its question.
pub open spec fn focus_by_reply(
    compositor: WaylandCompositor,
    outcome: CommandOutcome,
) -> Option<TargetView> {
    match compositor {
        WaylandCompositor::Sway => match replied_document(outcome) {
            Some(tree) => sway_window(tree),
            None => None,
        },
        WaylandCompositor::Hyprland => match replied_document(outcome) {
            Some(v) => Some(hypr_window(v)),
            None => None,
        },
        _ => None,
    }
}

/// The focused node from sway's tree, by the reply of `swaymsg -t get_tree`.
pub fn focused_window_from_sway(outcome: &CommandOutcome) -> (r: Option<FocusTarget>)
    ensures
        target_view(r) == focus_by_reply(WaylandCompositor::Sway, *outcome),
{
    match read_document(outcome) {
        Some(tree) => focus_in_sway_tree(&tree),
        None => None,
    }
}

/// Hyprland's focused window, by the reply of `hyprctl activewindow -j`.
pub fn focused_window_from_hypr(outcome: &CommandOutcome) -> (r: Option<FocusTarget>)
    ensures
        target_view(r) == focus_by_reply(WaylandCompositor::Hyprland, *outcome),
{
    match read_document(outcome) {
        Some(v) => Some(focus_in_hypr_window(&v)),
        None => None,
    }
}

/// Best-effort detection of the focused window for the paste step, by the
/// reply to [`focus_query`]. Authoritative on Sway and Hyprland; None
/// elsewhere.
pub fn detect_focus_target(compositor: WaylandCompositor, outcome: &CommandOutcome) -> (r: Option<
    FocusTarget,
>)
    ensures
        target_view(r) == focus_by_reply(compositor, *outcome),
{
    match compositor {
        WaylandCompositor::Sway => focused_window_from_sway(outcome),
        WaylandCompositor::Hyprland => focused_window_from_hypr(outcome),
        WaylandCompositor::Kde | WaylandCompositor::Gnome | WaylandCompositor::Other => None,
    }
}

// ── Laws ──────────────────────────────────────────────────────────

/// A focused node is found exactly where there is one, and what is found is
/// one of the nodes and has the focus.
pub proof fn a_focused_node_is_found(nodes: Seq<JsonTree>)
    ensures
        first_focused(nodes) is Some <==> exists|i: int|
            0 <= i < nodes.len() && focused(#[trigger] nodes[i]),
        first_focused(nodes) matches Some(n) ==> focused(n) && nodes.contains(n),
    decreases nodes.len(),
{
    if nodes.len() > 0 {
        let rest = nodes.drop_first();
        a_focused_node_is_found(rest);
        if focused(nodes[0]) {
            assert(nodes.contains(nodes[0]));
        } else {
            if let Some(n) = first_focused(rest) {
                let i = choose|i: int| 0 <= i < rest.len() && rest[i] == n;
                assert(nodes[i + 1] == n);
            }
            if exists|i: int| 0 <= i < nodes.len() && focused(#[trigger] nodes[i]) {
                let i = choose|i: int| 0 <= i < nodes.len() && focused(#[trigger] nodes[i]);
                assert(rest[i - 1] == nodes[i]);
            }
        }
    }
}

/// What the compositor does not answer for stays unknown: nothing is guessed
/// where there is no question, no reply or no document.
pub proof fn without_an_answer_the_window_stays_unknown(
    compositor: WaylandCompositor,
    outcome: CommandOutcome,
)
    ensures
        focus_question(compositor) is None ==> focus_by_reply(compositor, outcome) is None,
        !outcome.succeeded() ==> focus_by_reply(compositor, outcome) is None,
        replied_document(outcome) is None ==> focus_by_reply(compositor, outcome) is None,
{
}

/// The node that stands for the focused window.
pub open spec fn has_focus(node: JsonTree) -> bool {
    node.field("focused"@) == Some(JsonTree::Bool(true))
}

/// A Hyprland window counts as an XWayland client exactly where its field
/// `xwayland` is true, and its application is known by its field `class`. A
/// class that is missing, empty or no text leaves the application unknown.
pub proof fn a_hyprland_window_says_what_it_is(v: JsonTree, class: Seq<char>)
    ensures
        hypr_window(v).xwayland <==> v.field("xwayland"@) == Some(JsonTree::Bool(true)),
        v.field("xwayland"@) == Some(JsonTree::Bool(false)) ==> !hypr_window(v).xwayland,
        v.field("xwayland"@) is None ==> !hypr_window(v).xwayland,
        v.field("class"@) == Some(JsonTree::Text(class)) && class.len() > 0 ==> hypr_window(v).id
            == Some(class) && hypr_window(v).class == class_of(class),
        v.field("class"@) == Some(JsonTree::Text(class)) && class.len() == 0 ==> hypr_window(v).id
            is None && hypr_window(v).class == FocusClass::Generic,
        !(v.field("class"@) matches Some(JsonTree::Text(_))) ==> hypr_window(v).id is None
            && hypr_window(v).class == FocusClass::Generic,
{
    lemma_no_name_is_generic();
    if class.len() == 0 {
        assert(class =~= Seq::<char>::empty());
    }
}

/// A sway node counts as an XWayland client exactly where it has X11 window
/// properties. Its application is known by its `app_id`, and where that is no
/// text by the class among those properties.
pub proof fn a_sway_node_says_what_it_is(
    node: JsonTree,
    properties: JsonTree,
    app_id: Seq<char>,
    class: Seq<char>,
)
    ensures
        node_window(node).xwayland <==> node.field("window_properties"@) is Some,
        node.field("app_id"@) == Some(JsonTree::Text(app_id)) && app_id.len() > 0 ==> node_window(
            node,
        ).id == Some(app_id) && node_window(node).class == class_of(app_id),
        !(node.field("app_id"@) matches Some(JsonTree::Text(_))) && node.field(
            "window_properties"@,
        ) == Some(properties) && properties.field("class"@) == Some(JsonTree::Text(class))
            && class.len() > 0 ==> node_window(node).id == Some(class) && node_window(node).class
            == class_of(class),
        !(node.field("app_id"@) matches Some(JsonTree::Text(_))) && node.field(
            "window_properties"@,
        ) is None ==> node_window(node).id is None && node_window(node).class
            == FocusClass::Generic,
{
    lemma_no_name_is_generic();
}

proof fn lemma_no_name_is_generic()
    ensures
        class_of(Seq::<char>::empty()) == FocusClass::Generic,
{
    let none = Seq::<char>::empty();
    assert(trimmed(none) =~= none);
    assert(none.map_values(|c: char| crate::text::ascii_lower(c)) =~= none);
    assert(vstd::utf8::is_ascii_chars(none));
    assert(lowercase(none) =~= none);
}

/// Every node of a tree is looked at: the tree itself, and all that is below the
/// tiled and below the floating ones.
pub proof fn every_node_is_looked_at(t: JsonTree, children: Seq<JsonTree>, i: int, node: JsonTree)
    requires
        t.field("nodes"@) == Some(JsonTree::Array(children)) || t.field("floating_nodes"@) == Some(
            JsonTree::Array(children),
        ),
        0 <= i < children.len(),
        nodes_of(children[i]).contains(node),
    ensures
        nodes_of(t).contains(node),
        nodes_of(t).contains(t),
{
    let all = nodes_of(t);
    assert(all[0] == t);
    lemma_nodes_of_a_list(children, i, node);
    let below = nodes_of_all(children);
    let k = choose|k: int| 0 <= k < below.len() && below[k] == node;
    let tiled = match t.field("nodes"@) {
        Some(JsonTree::Array(items)) => nodes_of_all(items),
        _ => Seq::empty(),
    };
    let floating = match t.field("floating_nodes"@) {
        Some(JsonTree::Array(items)) => nodes_of_all(items),
        _ => Seq::empty(),
    };
    assert(all == seq![t] + tiled + floating);
    if t.field("nodes"@) == Some(JsonTree::Array(children)) {
        assert(all[k + 1] == node);
    } else {
        assert(all[k + 1 + tiled.len()] == node);
    }
}

proof fn lemma_nodes_of_a_list(ts: Seq<JsonTree>, i: int, node: JsonTree)
    requires
        0 <= i < ts.len(),
        nodes_of(ts[i]).contains(node),
    ensures
        nodes_of_all(ts).contains(node),
    decreases ts.len(),
{
    let first = nodes_of(ts[0]);
    let rest = nodes_of_all(ts.drop_first());
    assert(nodes_of_all(ts) == first + rest);
    if i == 0 {
        let k = choose|k: int| 0 <= k < first.len() && first[k] == node;
        assert((first + rest)[k] == node);
    } else {
        assert(ts.drop_first()[i - 1] == ts[i]);
        lemma_nodes_of_a_list(ts.drop_first(), i - 1, node);
        let k = choose|k: int| 0 <= k < rest.len() && rest[k] == node;
        assert((first + rest)[first.len() + k] == node);
    }
}

/// Sway's focused window is that of a node that says of itself that it has the
/// focus, and there is one exactly where a node says so.
pub proof fn the_window_of_a_focused_node_is_taken(tree: JsonTree)
    ensures
        sway_window(tree) is Some <==> exists|i: int|
            0 <= i < nodes_of(tree).len() && has_focus(#[trigger] nodes_of(tree)[i]),
        sway_window(tree) matches Some(w) ==> exists|i: int|
            0 <= i < nodes_of(tree).len() && has_focus(#[trigger] nodes_of(tree)[i]) && w
                == node_window(nodes_of(tree)[i]),
{
    let nodes = nodes_of(tree);
    a_focused_node_is_found(nodes);
    assert forall|n: JsonTree| #[trigger] focused(n) == has_focus(n) by {
        if let Some(b) = n.field("focused"@) {
            assert(b.truth() == Some(true) <==> b == JsonTree::Bool(true));
        }
    }
    if let Some(n) = first_focused(nodes) {
        let i = choose|i: int| 0 <= i < nodes.len() && nodes[i] == n;
        assert(has_focus(nodes[i]));
    }
    if exists|i: int| 0 <= i < nodes.len() && has_focus(#[trigger] nodes[i]) {
        let i = choose|i: int| 0 <= i < nodes.len() && has_focus(#[trigger] nodes[i]);
        assert(focused(nodes[i]));
    }
}

/// Sway and Hyprland are asked with their own tools, under a time limit, and
/// their reply is read; no other compositor is asked.
pub proof fn each_compositor_is_asked_with_its_tool(
    compositor: WaylandCompositor,
    outcome: CommandOutcome,
    t: JsonTree,
)
    ensures
        focus_question(compositor) is Some <==> compositor == WaylandCompositor::Sway || compositor
            == WaylandCompositor::Hyprland,
        focus_question(WaylandCompositor::Sway) matches Some(c) && c.argv == seq![
            "swaymsg"@,
            "-t"@,
            "get_tree"@,
        ],
        focus_question(WaylandCompositor::Hyprland) matches Some(c) && c.argv == seq![
            "hyprctl"@,
            "activewindow"@,
            "-j"@,
        ],
        focus_question(compositor) matches Some(c) ==> c.capture && c.limit_ms == Some(800u64),
        outcome matches CommandOutcome::Completed(o) && o.success && document_of_bytes(o.stdout@)
            == Some(t) ==> focus_by_reply(WaylandCompositor::Sway, outcome) == sway_window(t)
            && focus_by_reply(WaylandCompositor::Hyprland, outcome) == Some(hypr_window(t)),
{
}

/// An application is known by its name however that is written: in upper or
/// lower case, with white space around it or without.
pub proof fn the_writing_of_a_name_does_not_matter(a: Seq<char>, b: Seq<char>)
    requires
        lowercase(trimmed(a)) == lowercase(trimmed(b)),
    ensures
        class_of(a) == class_of(b),
        class_of(a) == class_named(lowercase(trimmed(b))),
{
}

/// These names are those of terminal emulators.
pub proof fn these_are_terminals(name: Seq<char>)
    requires
        name == "alacritty"@
            || name == "xfce4-terminal"@
            || name == "xfterminal"@
            || name == "gnome-terminal"@
            || name == "gnome-terminal-server"@
            || name == "konsole"@
            || name == "xterm"@
            || name == "uxterm"@
            || name == "urxvt"@
            || name == "urxvtc"@
            || name == "terminator"@
            || name == "tilix"@
            || name == "kitty"@
            || name == "wezterm"@
            || name == "st"@
            || name == "st-256color"@
            || name == "rxvt"@
            || name == "foot"@
            || name == "footclient"@
            || name == "guake"@
            || name == "mate-terminal"@
            || name == "lxterminal"@
            || name == "cool-retro-term"@
            || name == "deepin-terminal"@
            || name == "sakura"@
            || name == "termite"@
            || name == "ghostty"@
            || name == "blackbox"@
            || name == "contour"@
            || name == "tabby"@
            || name == "warp-terminal"@,
    ensures
        class_named(name) == FocusClass::Terminal,
{
    let all = str_texts(terminal_names());
    assert(all[0] == "alacritty"@);
    assert(all[1] == "xfce4-terminal"@);
    assert(all[2] == "xfterminal"@);
    assert(all[3] == "gnome-terminal"@);
    assert(all[4] == "gnome-terminal-server"@);
    assert(all[5] == "konsole"@);
    assert(all[6] == "xterm"@);
    assert(all[7] == "uxterm"@);
    assert(all[8] == "urxvt"@);
    assert(all[9] == "urxvtc"@);
    assert(all[10] == "terminator"@);
    assert(all[11] == "tilix"@);
    assert(all[12] == "kitty"@);
    assert(all[13] == "wezterm"@);
    assert(all[14] == "st"@);
    assert(all[15] == "st-256color"@);
    assert(all[16] == "rxvt"@);
    assert(all[17] == "foot"@);
    assert(all[18] == "footclient"@);
    assert(all[19] == "guake"@);
    assert(all[20] == "mate-terminal"@);
    assert(all[21] == "lxterminal"@);
    assert(all[22] == "cool-retro-term"@);
    assert(all[23] == "deepin-terminal"@);
    assert(all[24] == "sakura"@);
    assert(all[25] == "termite"@);
    assert(all[26] == "ghostty"@);
    assert(all[27] == "blackbox"@);
    assert(all[28] == "contour"@);
    assert(all[29] == "tabby"@);
    assert(all[30] == "warp-terminal"@);
    a_name_stands_for_one_kind(name);
}

/// These names are those of browsers.
pub proof fn these_are_browsers(name: Seq<char>)
    requires
        name == "google-chrome"@
            || name == "chrome"@
            || name == "chromium"@
            || name == "chromium-browser"@
            || name == "firefox"@
            || name == "firefox-esr"@
            || name == "librewolf"@
            || name == "waterfox"@
            || name == "brave-browser"@
            || name == "brave"@
            || name == "microsoft-edge"@
            || name == "msedge"@
            || name == "edge"@
            || name == "vivaldi"@
            || name == "opera"@
            || name == "epiphany"@
            || name == "zen"@
            || name == "thorium-browser"@
            || name == "floorp"@
            || name == "mullvad-browser"@
            || name == "tor-browser"@,
    ensures
        class_named(name) == FocusClass::Browser,
{
    let all = str_texts(browser_names());
    assert(all[0] == "google-chrome"@);
    assert(all[1] == "chrome"@);
    assert(all[2] == "chromium"@);
    assert(all[3] == "chromium-browser"@);
    assert(all[4] == "firefox"@);
    assert(all[5] == "firefox-esr"@);
    assert(all[6] == "librewolf"@);
    assert(all[7] == "waterfox"@);
    assert(all[8] == "brave-browser"@);
    assert(all[9] == "brave"@);
    assert(all[10] == "microsoft-edge"@);
    assert(all[11] == "msedge"@);
    assert(all[12] == "edge"@);
    assert(all[13] == "vivaldi"@);
    assert(all[14] == "opera"@);
    assert(all[15] == "epiphany"@);
    assert(all[16] == "zen"@);
    assert(all[17] == "thorium-browser"@);
    assert(all[18] == "floorp"@);
    assert(all[19] == "mullvad-browser"@);
    assert(all[20] == "tor-browser"@);
    a_name_stands_for_one_kind(name);
}

/// These names are those of development environments.
pub proof fn these_are_editors(name: Seq<char>)
    requires
        name == "code"@
            || name == "code-oss"@
            || name == "vscodium"@
            || name == "codium"@
            || name == "cursor"@
            || name == "zed"@
            || name == "sublime_text"@
            || name == "sublimetext"@
            || name == "idea"@
            || name == "pycharm"@
            || name == "webstorm"@
            || name == "goland"@
            || name == "rustrover"@
            || name == "clion"@
            || name == "phpstorm"@
            || name == "datagrip"@
            || name == "rider"@
            || name == "rubymine"@
            || name == "fleet"@
            || name == "android-studio"@
            || name == "studio64"@,
    ensures
        class_named(name) == FocusClass::Ide,
{
    let all = str_texts(ide_names());
    assert(all[0] == "code"@);
    assert(all[1] == "code-oss"@);
    assert(all[2] == "vscodium"@);
    assert(all[3] == "codium"@);
    assert(all[4] == "cursor"@);
    assert(all[5] == "zed"@);
    assert(all[6] == "sublime_text"@);
    assert(all[7] == "sublimetext"@);
    assert(all[8] == "idea"@);
    assert(all[9] == "pycharm"@);
    assert(all[10] == "webstorm"@);
    assert(all[11] == "goland"@);
    assert(all[12] == "rustrover"@);
    assert(all[13] == "clion"@);
    assert(all[14] == "phpstorm"@);
    assert(all[15] == "datagrip"@);
    assert(all[16] == "rider"@);
    assert(all[17] == "rubymine"@);
    assert(all[18] == "fleet"@);
    assert(all[19] == "android-studio"@);
    assert(all[20] == "studio64"@);
    a_name_stands_for_one_kind(name);
}

/// No name stands for two kinds of application, so each name of a list has the
/// class of its list, and every other name is one that is not known.
pub proof fn a_name_stands_for_one_kind(name: Seq<char>)
    ensures
        str_texts(terminal_names()).contains(name) <==> class_named(name) == FocusClass::Terminal,
        str_texts(browser_names()).contains(name) <==> class_named(name) == FocusClass::Browser,
        str_texts(ide_names()).contains(name) <==> class_named(name) == FocusClass::Ide,
        terminal_names().len() == 31,
        browser_names().len() == 21,
        ide_names().len() == 21,
{
    lemma_lists_are_disjoint(name);
}

proof fn lemma_terminal_cases(name: Seq<char>)
    requires
        str_texts(terminal_names()).contains(name),
    ensures
        name == "alacritty"@
            || name == "xfce4-terminal"@
            || name == "xfterminal"@
            || name == "gnome-terminal"@
            || name == "gnome-terminal-server"@
            || name == "konsole"@
            || name == "xterm"@
            || name == "uxterm"@
            || name == "urxvt"@
            || name == "urxvtc"@
            || name == "terminator"@
            || name == "tilix"@
            || name == "kitty"@
            || name == "wezterm"@
            || name == "st"@
            || name == "st-256color"@
            || name == "rxvt"@
            || name == "foot"@
            || name == "footclient"@
            || name == "guake"@
            || name == "mate-terminal"@
            || name == "lxterminal"@
            || name == "cool-retro-term"@
            || name == "deepin-terminal"@
            || name == "sakura"@
            || name == "termite"@
            || name == "ghostty"@
            || name == "blackbox"@
            || name == "contour"@
            || name == "tabby"@
            || name == "warp-terminal"@,
{
    let all = str_texts(terminal_names());
    assert(all.len() == 31);
    let i = choose|i: int| 0 <= i < all.len() && all[i] == name;
    assert(all[0] == "alacritty"@);
    assert(all[1] == "xfce4-terminal"@);
    assert(all[2] == "xfterminal"@);
    assert(all[3] == "gnome-terminal"@);
    assert(all[4] == "gnome-terminal-server"@);
    assert(all[5] == "konsole"@);
    assert(all[6] == "xterm"@);
    assert(all[7] == "uxterm"@);
    assert(all[8] == "urxvt"@);
    assert(all[9] == "urxvtc"@);
    assert(all[10] == "terminator"@);
    assert(all[11] == "tilix"@);
    assert(all[12] == "kitty"@);
    assert(all[13] == "wezterm"@);
    assert(all[14] == "st"@);
    assert(all[15] == "st-256color"@);
    assert(all[16] == "rxvt"@);
    assert(all[17] == "foot"@);
    assert(all[18] == "footclient"@);
    assert(all[19] == "guake"@);
    assert(all[20] == "mate-terminal"@);
    assert(all[21] == "lxterminal"@);
    assert(all[22] == "cool-retro-term"@);
    assert(all[23] == "deepin-terminal"@);
    assert(all[24] == "sakura"@);
    assert(all[25] == "termite"@);
    assert(all[26] == "ghostty"@);
    assert(all[27] == "blackbox"@);
    assert(all[28] == "contour"@);
    assert(all[29] == "tabby"@);
    assert(all[30] == "warp-terminal"@);
    assert(i == 0 || i == 1 || i == 2 || i == 3 || i == 4 || i == 5 || i == 6 || i == 7 || i == 8 || i == 9 || i == 10 || i == 11 || i == 12 || i == 13 || i == 14 || i == 15 || i == 16 || i == 17 || i == 18 || i == 19 || i == 20 || i == 21 || i == 22 || i == 23 || i == 24 || i == 25 || i == 26 || i == 27 || i == 28 || i == 29 || i == 30);
}

proof fn lemma_browser_cases(name: Seq<char>)
    requires
        str_texts(browser_names()).contains(name),
    ensures
        name == "google-chrome"@
            || name == "chrome"@
            || name == "chromium"@
            || name == "chromium-browser"@
            || name == "firefox"@
            || name == "firefox-esr"@
            || name == "librewolf"@
            || name == "waterfox"@
            || name == "brave-browser"@
            || name == "brave"@
            || name == "microsoft-edge"@
            || name == "msedge"@
            || name == "edge"@
            || name == "vivaldi"@
            || name == "opera"@
            || name == "epiphany"@
            || name == "zen"@
            || name == "thorium-browser"@
            || name == "floorp"@
            || name == "mullvad-browser"@
            || name == "tor-browser"@,
{
    let all = str_texts(browser_names());
    assert(all.len() == 21);
    let i = choose|i: int| 0 <= i < all.len() && all[i] == name;
    assert(all[0] == "google-chrome"@);
    assert(all[1] == "chrome"@);
    assert(all[2] == "chromium"@);
    assert(all[3] == "chromium-browser"@);
    assert(all[4] == "firefox"@);
    assert(all[5] == "firefox-esr"@);
    assert(all[6] == "librewolf"@);
    assert(all[7] == "waterfox"@);
    assert(all[8] == "brave-browser"@);
    assert(all[9] == "brave"@);
    assert(all[10] == "microsoft-edge"@);
    assert(all[11] == "msedge"@);
    assert(all[12] == "edge"@);
    assert(all[13] == "vivaldi"@);
    assert(all[14] == "opera"@);
    assert(all[15] == "epiphany"@);
    assert(all[16] == "zen"@);
    assert(all[17] == "thorium-browser"@);
    assert(all[18] == "floorp"@);
    assert(all[19] == "mullvad-browser"@);
    assert(all[20] == "tor-browser"@);
    assert(i == 0 || i == 1 || i == 2 || i == 3 || i == 4 || i == 5 || i == 6 || i == 7 || i == 8 || i == 9 || i == 10 || i == 11 || i == 12 || i == 13 || i == 14 || i == 15 || i == 16 || i == 17 || i == 18 || i == 19 || i == 20);
}

proof fn lemma_editor_cases(name: Seq<char>)
    requires
        str_texts(ide_names()).contains(name),
    ensures
        name == "code"@
            || name == "code-oss"@
            || name == "vscodium"@
            || name == "codium"@
            || name == "cursor"@
            || name == "zed"@
            || name == "sublime_text"@
            || name == "sublimetext"@
            || name == "idea"@
            || name == "pycharm"@
            || name == "webstorm"@
            || name == "goland"@
            || name == "rustrover"@
            || name == "clion"@
            || name == "phpstorm"@
            || name == "datagrip"@
            || name == "rider"@
            || name == "rubymine"@
            || name == "fleet"@
            || name == "android-studio"@
            || name == "studio64"@,
{
    let all = str_texts(ide_names());
    assert(all.len() == 21);
    let i = choose|i: int| 0 <= i < all.len() && all[i] == name;
    assert(all[0] == "code"@);
    assert(all[1] == "code-oss"@);
    assert(all[2] == "vscodium"@);
    assert(all[3] == "codium"@);
    assert(all[4] == "cursor"@);
    assert(all[5] == "zed"@);
    assert(all[6] == "sublime_text"@);
    assert(all[7] == "sublimetext"@);
    assert(all[8] == "idea"@);
    assert(all[9] == "pycharm"@);
    assert(all[10] == "webstorm"@);
    assert(all[11] == "goland"@);
    assert(all[12] == "rustrover"@);
    assert(all[13] == "clion"@);
    assert(all[14] == "phpstorm"@);
    assert(all[15] == "datagrip"@);
    assert(all[16] == "rider"@);
    assert(all[17] == "rubymine"@);
    assert(all[18] == "fleet"@);
    assert(all[19] == "android-studio"@);
    assert(all[20] == "studio64"@);
    assert(i == 0 || i == 1 || i == 2 || i == 3 || i == 4 || i == 5 || i == 6 || i == 7 || i == 8 || i == 9 || i == 10 || i == 11 || i == 12 || i == 13 || i == 14 || i == 15 || i == 16 || i == 17 || i == 18 || i == 19 || i == 20);
}

proof fn lemma_browsers_are_no_terminals(name: Seq<char>)
    requires
        name == "google-chrome"@
            || name == "chrome"@
            || name == "chromium"@
            || name == "chromium-browser"@
            || name == "firefox"@
            || name == "firefox-esr"@
            || name == "librewolf"@
            || name == "waterfox"@
            || name == "brave-browser"@
            || name == "brave"@
            || name == "microsoft-edge"@
            || name == "msedge"@
            || name == "edge"@
            || name == "vivaldi"@
            || name == "opera"@
            || name == "epiphany"@
            || name == "zen"@
            || name == "thorium-browser"@
            || name == "floorp"@
            || name == "mullvad-browser"@
            || name == "tor-browser"@,
    ensures
        name.len() > 0,
        name != "alacritty"@,
        name != "xfce4-terminal"@,
        name != "xfterminal"@,
        name != "gnome-terminal"@,
        name != "gnome-terminal-server"@,
        name != "konsole"@,
        name != "xterm"@,
        name != "uxterm"@,
        name != "urxvt"@,
        name != "urxvtc"@,
        name != "terminator"@,
        name != "tilix"@,
        name != "kitty"@,
        name != "wezterm"@,
        name != "st"@,
        name != "st-256color"@,
        name != "rxvt"@,
        name != "foot"@,
        name != "footclient"@,
        name != "guake"@,
        name != "mate-terminal"@,
        name != "lxterminal"@,
        name != "cool-retro-term"@,
        name != "deepin-terminal"@,
        name != "sakura"@,
        name != "termite"@,
        name != "ghostty"@,
        name != "blackbox"@,
        name != "contour"@,
        name != "tabby"@,
        name != "warp-terminal"@,
{
    reveal_strlit("google-chrome");
    assert("google-chrome"@.len() == 13 && "google-chrome"@[0] == 'g');
    reveal_strlit("chrome");
    assert("chrome"@.len() == 6 && "chrome"@[0] == 'c');
    reveal_strlit("chromium");
    assert("chromium"@.len() == 8 && "chromium"@[0] == 'c');
    reveal_strlit("chromium-browser");
    assert("chromium-browser"@.len() == 16);
    reveal_strlit("firefox");
    assert("firefox"@.len() == 7 && "firefox"@[0] == 'f');
    reveal_strlit("firefox-esr");
    assert("firefox-esr"@.len() == 11 && "firefox-esr"@[0] == 'f');
    reveal_strlit("librewolf");
    assert("librewolf"@.len() == 9 && "librewolf"@[0] == 'l');
    reveal_strlit("waterfox");
    assert("waterfox"@.len() == 8 && "waterfox"@[0] == 'w');
    reveal_strlit("brave-browser");
    assert("brave-browser"@.len() == 13 && "brave-browser"@[0] == 'b');
    reveal_strlit("brave");
    assert("brave"@.len() == 5 && "brave"@[0] == 'b');
    reveal_strlit("microsoft-edge");
    assert("microsoft-edge"@.len() == 14 && "microsoft-edge"@[0] == 'm');
    reveal_strlit("msedge");
    assert("msedge"@.len() == 6 && "msedge"@[0] == 'm');
    reveal_strlit("edge");
    assert("edge"@.len() == 4 && "edge"@[0] == 'e');
    reveal_strlit("vivaldi");
    assert("vivaldi"@.len() == 7 && "vivaldi"@[0] == 'v');
    reveal_strlit("opera");
    assert("opera"@.len() == 5 && "opera"@[0] == 'o');
    reveal_strlit("epiphany");
    assert("epiphany"@.len() == 8 && "epiphany"@[0] == 'e');
    reveal_strlit("zen");
    assert("zen"@.len() == 3);
    reveal_strlit("thorium-browser");
    assert("thorium-browser"@.len() == 15 && "thorium-browser"@[0] == 't');
    reveal_strlit("floorp");
    assert("floorp"@.len() == 6 && "floorp"@[0] == 'f');
    reveal_strlit("mullvad-browser");
    assert("mullvad-browser"@.len() == 15 && "mullvad-browser"@[0] == 'm');
    reveal_strlit("tor-browser");
    assert("tor-browser"@.len() == 11 && "tor-browser"@[0] == 't');
    reveal_strlit("alacritty");
    assert("alacritty"@.len() == 9 && "alacritty"@[0] == 'a');
    reveal_strlit("xfce4-terminal");
    assert("xfce4-terminal"@.len() == 14 && "xfce4-terminal"@[0] == 'x');
    reveal_strlit("xfterminal");
    assert("xfterminal"@.len() == 10);
    reveal_strlit("gnome-terminal");
    assert("gnome-terminal"@.len() == 14 && "gnome-terminal"@[0] == 'g');
    reveal_strlit("gnome-terminal-server");
    assert("gnome-terminal-server"@.len() == 21);
    reveal_strlit("konsole");
    assert("konsole"@.len() == 7 && "konsole"@[0] == 'k');
    reveal_strlit("xterm");
    assert("xterm"@.len() == 5 && "xterm"@[0] == 'x');
    reveal_strlit("uxterm");
    assert("uxterm"@.len() == 6 && "uxterm"@[0] == 'u');
    reveal_strlit("urxvt");
    assert("urxvt"@.len() == 5 && "urxvt"@[0] == 'u');
    reveal_strlit("urxvtc");
    assert("urxvtc"@.len() == 6 && "urxvtc"@[0] == 'u');
    reveal_strlit("terminator");
    assert("terminator"@.len() == 10);
    reveal_strlit("tilix");
    assert("tilix"@.len() == 5 && "tilix"@[0] == 't');
    reveal_strlit("kitty");
    assert("kitty"@.len() == 5 && "kitty"@[0] == 'k');
    reveal_strlit("wezterm");
    assert("wezterm"@.len() == 7 && "wezterm"@[0] == 'w');
    reveal_strlit("st");
    assert("st"@.len() == 2);
    reveal_strlit("st-256color");
    assert("st-256color"@.len() == 11 && "st-256color"@[0] == 's');
    reveal_strlit("rxvt");
    assert("rxvt"@.len() == 4 && "rxvt"@[0] == 'r');
    reveal_strlit("foot");
    assert("foot"@.len() == 4 && "foot"@[0] == 'f');
    reveal_strlit("footclient");
    assert("footclient"@.len() == 10);
    reveal_strlit("guake");
    assert("guake"@.len() == 5 && "guake"@[0] == 'g');
    reveal_strlit("mate-terminal");
    assert("mate-terminal"@.len() == 13 && "mate-terminal"@[0] == 'm');
    reveal_strlit("lxterminal");
    assert("lxterminal"@.len() == 10);
    reveal_strlit("cool-retro-term");
    assert("cool-retro-term"@.len() == 15 && "cool-retro-term"@[0] == 'c');
    reveal_strlit("deepin-terminal");
    assert("deepin-terminal"@.len() == 15 && "deepin-terminal"@[0] == 'd');
    reveal_strlit("sakura");
    assert("sakura"@.len() == 6 && "sakura"@[0] == 's');
    reveal_strlit("termite");
    assert("termite"@.len() == 7 && "termite"@[0] == 't');
    reveal_strlit("ghostty");
    assert("ghostty"@.len() == 7 && "ghostty"@[0] == 'g');
    reveal_strlit("blackbox");
    assert("blackbox"@.len() == 8 && "blackbox"@[0] == 'b');
    reveal_strlit("contour");
    assert("contour"@.len() == 7 && "contour"@[0] == 'c');
    reveal_strlit("tabby");
    assert("tabby"@.len() == 5 && "tabby"@[0] == 't');
    reveal_strlit("warp-terminal");
    assert("warp-terminal"@.len() == 13 && "warp-terminal"@[0] == 'w');
}

proof fn lemma_editors_are_no_terminals(name: Seq<char>)
    requires
        name == "code"@
            || name == "code-oss"@
            || name == "vscodium"@
            || name == "codium"@
            || name == "cursor"@
            || name == "zed"@
            || name == "sublime_text"@
            || name == "sublimetext"@
            || name == "idea"@
            || name == "pycharm"@
            || name == "webstorm"@
            || name == "goland"@
            || name == "rustrover"@
            || name == "clion"@
            || name == "phpstorm"@
            || name == "datagrip"@
            || name == "rider"@
            || name == "rubymine"@
            || name == "fleet"@
            || name == "android-studio"@
            || name == "studio64"@,
    ensures
        name.len() > 0,
        name != "alacritty"@,
        name != "xfce4-terminal"@,
        name != "xfterminal"@,
        name != "gnome-terminal"@,
        name != "gnome-terminal-server"@,
        name != "konsole"@,
        name != "xterm"@,
        name != "uxterm"@,
        name != "urxvt"@,
        name != "urxvtc"@,
        name != "terminator"@,
        name != "tilix"@,
        name != "kitty"@,
        name != "wezterm"@,
        name != "st"@,
        name != "st-256color"@,
        name != "rxvt"@,
        name != "foot"@,
        name != "footclient"@,
        name != "guake"@,
        name != "mate-terminal"@,
        name != "lxterminal"@,
        name != "cool-retro-term"@,
        name != "deepin-terminal"@,
        name != "sakura"@,
        name != "termite"@,
        name != "ghostty"@,
        name != "blackbox"@,
        name != "contour"@,
        name != "tabby"@,
        name != "warp-terminal"@,
{
    reveal_strlit("code");
    assert("code"@.len() == 4 && "code"@[0] == 'c');
    reveal_strlit("code-oss");
    assert("code-oss"@.len() == 8 && "code-oss"@[0] == 'c');
    reveal_strlit("vscodium");
    assert("vscodium"@.len() == 8 && "vscodium"@[0] == 'v');
    reveal_strlit("codium");
    assert("codium"@.len() == 6 && "codium"@[0] == 'c');
    reveal_strlit("cursor");
    assert("cursor"@.len() == 6 && "cursor"@[0] == 'c');
    reveal_strlit("zed");
    assert("zed"@.len() == 3);
    reveal_strlit("sublime_text");
    assert("sublime_text"@.len() == 12);
    reveal_strlit("sublimetext");
    assert("sublimetext"@.len() == 11 && "sublimetext"@[1] == 'u');
    reveal_strlit("idea");
    assert("idea"@.len() == 4 && "idea"@[0] == 'i');
    reveal_strlit("pycharm");
    assert("pycharm"@.len() == 7 && "pycharm"@[0] == 'p');
    reveal_strlit("webstorm");
    assert("webstorm"@.len() == 8 && "webstorm"@[0] == 'w');
    reveal_strlit("goland");
    assert("goland"@.len() == 6 && "goland"@[0] == 'g');
    reveal_strlit("rustrover");
    assert("rustrover"@.len() == 9 && "rustrover"@[0] == 'r');
    reveal_strlit("clion");
    assert("clion"@.len() == 5 && "clion"@[0] == 'c');
    reveal_strlit("phpstorm");
    assert("phpstorm"@.len() == 8 && "phpstorm"@[0] == 'p');
    reveal_strlit("datagrip");
    assert("datagrip"@.len() == 8 && "datagrip"@[0] == 'd');
    reveal_strlit("rider");
    assert("rider"@.len() == 5 && "rider"@[0] == 'r');
    reveal_strlit("rubymine");
    assert("rubymine"@.len() == 8 && "rubymine"@[0] == 'r');
    reveal_strlit("fleet");
    assert("fleet"@.len() == 5 && "fleet"@[0] == 'f');
    reveal_strlit("android-studio");
    assert("android-studio"@.len() == 14 && "android-studio"@[0] == 'a');
    reveal_strlit("studio64");
    assert("studio64"@.len() == 8 && "studio64"@[0] == 's');
    reveal_strlit("alacritty");
    assert("alacritty"@.len() == 9 && "alacritty"@[0] == 'a');
    reveal_strlit("xfce4-terminal");
    assert("xfce4-terminal"@.len() == 14 && "xfce4-terminal"@[0] == 'x');
    reveal_strlit("xfterminal");
    assert("xfterminal"@.len() == 10);
    reveal_strlit("gnome-terminal");
    assert("gnome-terminal"@.len() == 14 && "gnome-terminal"@[0] == 'g');
    reveal_strlit("gnome-terminal-server");
    assert("gnome-terminal-server"@.len() == 21);
    reveal_strlit("konsole");
    assert("konsole"@.len() == 7 && "konsole"@[0] == 'k');
    reveal_strlit("xterm");
    assert("xterm"@.len() == 5 && "xterm"@[0] == 'x');
    reveal_strlit("uxterm");
    assert("uxterm"@.len() == 6 && "uxterm"@[0] == 'u');
    reveal_strlit("urxvt");
    assert("urxvt"@.len() == 5 && "urxvt"@[0] == 'u');
    reveal_strlit("urxvtc");
    assert("urxvtc"@.len() == 6 && "urxvtc"@[0] == 'u');
    reveal_strlit("terminator");
    assert("terminator"@.len() == 10);
    reveal_strlit("tilix");
    assert("tilix"@.len() == 5 && "tilix"@[0] == 't');
    reveal_strlit("kitty");
    assert("kitty"@.len() == 5 && "kitty"@[0] == 'k');
    reveal_strlit("wezterm");
    assert("wezterm"@.len() == 7 && "wezterm"@[0] == 'w');
    reveal_strlit("st");
    assert("st"@.len() == 2);
    reveal_strlit("st-256color");
    assert("st-256color"@.len() == 11 && "st-256color"@[1] == 't');
    reveal_strlit("rxvt");
    assert("rxvt"@.len() == 4 && "rxvt"@[0] == 'r');
    reveal_strlit("foot");
    assert("foot"@.len() == 4 && "foot"@[0] == 'f');
    reveal_strlit("footclient");
    assert("footclient"@.len() == 10);
    reveal_strlit("guake");
    assert("guake"@.len() == 5 && "guake"@[0] == 'g');
    reveal_strlit("mate-terminal");
    assert("mate-terminal"@.len() == 13);
    reveal_strlit("lxterminal");
    assert("lxterminal"@.len() == 10);
    reveal_strlit("cool-retro-term");
    assert("cool-retro-term"@.len() == 15);
    reveal_strlit("deepin-terminal");
    assert("deepin-terminal"@.len() == 15);
    reveal_strlit("sakura");
    assert("sakura"@.len() == 6 && "sakura"@[0] == 's');
    reveal_strlit("termite");
    assert("termite"@.len() == 7 && "termite"@[0] == 't');
    reveal_strlit("ghostty");
    assert("ghostty"@.len() == 7 && "ghostty"@[0] == 'g');
    reveal_strlit("blackbox");
    assert("blackbox"@.len() == 8 && "blackbox"@[0] == 'b');
    reveal_strlit("contour");
    assert("contour"@.len() == 7 && "contour"@[0] == 'c');
    reveal_strlit("tabby");
    assert("tabby"@.len() == 5 && "tabby"@[0] == 't');
    reveal_strlit("warp-terminal");
    assert("warp-terminal"@.len() == 13);
}

proof fn lemma_editors_are_no_browsers(name: Seq<char>)
    requires
        name == "code"@
            || name == "code-oss"@
            || name == "vscodium"@
            || name == "codium"@
            || name == "cursor"@
            || name == "zed"@
            || name == "sublime_text"@
            || name == "sublimetext"@
            || name == "idea"@
            || name == "pycharm"@
            || name == "webstorm"@
            || name == "goland"@
            || name == "rustrover"@
            || name == "clion"@
            || name == "phpstorm"@
            || name == "datagrip"@
            || name == "rider"@
            || name == "rubymine"@
            || name == "fleet"@
            || name == "android-studio"@
            || name == "studio64"@,
    ensures
        name.len() > 0,
        name != "google-chrome"@,
        name != "chrome"@,
        name != "chromium"@,
        name != "chromium-browser"@,
        name != "firefox"@,
        name != "firefox-esr"@,
        name != "librewolf"@,
        name != "waterfox"@,
        name != "brave-browser"@,
        name != "brave"@,
        name != "microsoft-edge"@,
        name != "msedge"@,
        name != "edge"@,
        name != "vivaldi"@,
        name != "opera"@,
        name != "epiphany"@,
        name != "zen"@,
        name != "thorium-browser"@,
        name != "floorp"@,
        name != "mullvad-browser"@,
        name != "tor-browser"@,
{
    reveal_strlit("code");
    assert("code"@.len() == 4 && "code"@[0] == 'c');
    reveal_strlit("code-oss");
    assert("code-oss"@.len() == 8 && "code-oss"@[0] == 'c' && "code-oss"@[1] == 'o');
    reveal_strlit("vscodium");
    assert("vscodium"@.len() == 8 && "vscodium"@[0] == 'v');
    reveal_strlit("codium");
    assert("codium"@.len() == 6 && "codium"@[0] == 'c' && "codium"@[1] == 'o');
    reveal_strlit("cursor");
    assert("cursor"@.len() == 6 && "cursor"@[0] == 'c' && "cursor"@[1] == 'u');
    reveal_strlit("zed");
    assert("zed"@.len() == 3 && "zed"@[2] == 'd');
    reveal_strlit("sublime_text");
    assert("sublime_text"@.len() == 12);
    reveal_strlit("sublimetext");
    assert("sublimetext"@.len() == 11 && "sublimetext"@[0] == 's');
    reveal_strlit("idea");
    assert("idea"@.len() == 4 && "idea"@[0] == 'i');
    reveal_strlit("pycharm");
    assert("pycharm"@.len() == 7 && "pycharm"@[0] == 'p');
    reveal_strlit("webstorm");
    assert("webstorm"@.len() == 8 && "webstorm"@[0] == 'w' && "webstorm"@[1] == 'e');
    reveal_strlit("goland");
    assert("goland"@.len() == 6 && "goland"@[0] == 'g');
    reveal_strlit("rustrover");
    assert("rustrover"@.len() == 9 && "rustrover"@[0] == 'r');
    reveal_strlit("clion");
    assert("clion"@.len() == 5 && "clion"@[0] == 'c');
    reveal_strlit("phpstorm");
    assert("phpstorm"@.len() == 8 && "phpstorm"@[0] == 'p');
    reveal_strlit("datagrip");
    assert("datagrip"@.len() == 8 && "datagrip"@[0] == 'd');
    reveal_strlit("rider");
    assert("rider"@.len() == 5 && "rider"@[0] == 'r');
    reveal_strlit("rubymine");
    assert("rubymine"@.len() == 8 && "rubymine"@[0] == 'r');
    reveal_strlit("fleet");
    assert("fleet"@.len() == 5 && "fleet"@[0] == 'f');
    reveal_strlit("android-studio");
    assert("android-studio"@.len() == 14 && "android-studio"@[0] == 'a');
    reveal_strlit("studio64");
    assert("studio64"@.len() == 8 && "studio64"@[0] == 's');
    reveal_strlit("google-chrome");
    assert("google-chrome"@.len() == 13);
    reveal_strlit("chrome");
    assert("chrome"@.len() == 6 && "chrome"@[0] == 'c' && "chrome"@[1] == 'h');
    reveal_strlit("chromium");
    assert("chromium"@.len() == 8 && "chromium"@[0] == 'c' && "chromium"@[1] == 'h');
    reveal_strlit("chromium-browser");
    assert("chromium-browser"@.len() == 16);
    reveal_strlit("firefox");
    assert("firefox"@.len() == 7 && "firefox"@[0] == 'f');
    reveal_strlit("firefox-esr");
    assert("firefox-esr"@.len() == 11 && "firefox-esr"@[0] == 'f');
    reveal_strlit("librewolf");
    assert("librewolf"@.len() == 9 && "librewolf"@[0] == 'l');
    reveal_strlit("waterfox");
    assert("waterfox"@.len() == 8 && "waterfox"@[0] == 'w' && "waterfox"@[1] == 'a');
    reveal_strlit("brave-browser");
    assert("brave-browser"@.len() == 13);
    reveal_strlit("brave");
    assert("brave"@.len() == 5 && "brave"@[0] == 'b');
    reveal_strlit("microsoft-edge");
    assert("microsoft-edge"@.len() == 14 && "microsoft-edge"@[0] == 'm');
    reveal_strlit("msedge");
    assert("msedge"@.len() == 6 && "msedge"@[0] == 'm');
    reveal_strlit("edge");
    assert("edge"@.len() == 4 && "edge"@[0] == 'e');
    reveal_strlit("vivaldi");
    assert("vivaldi"@.len() == 7 && "vivaldi"@[0] == 'v');
    reveal_strlit("opera");
    assert("opera"@.len() == 5 && "opera"@[0] == 'o');
    reveal_strlit("epiphany");
    assert("epiphany"@.len() == 8 && "epiphany"@[0] == 'e');
    reveal_strlit("zen");
    assert("zen"@.len() == 3 && "zen"@[2] == 'n');
    reveal_strlit("thorium-browser");
    assert("thorium-browser"@.len() == 15);
    reveal_strlit("floorp");
    assert("floorp"@.len() == 6 && "floorp"@[0] == 'f');
    reveal_strlit("mullvad-browser");
    assert("mullvad-browser"@.len() == 15);
    reveal_strlit("tor-browser");
    assert("tor-browser"@.len() == 11 && "tor-browser"@[0] == 't');
}

proof fn lemma_terminals_have_names(name: Seq<char>)
    requires
        str_texts(terminal_names()).contains(name),
    ensures
        name.len() > 0,
{
    lemma_terminal_cases(name);
    reveal_strlit("alacritty");
    assert("alacritty"@.len() == 9);
    reveal_strlit("xfce4-terminal");
    assert("xfce4-terminal"@.len() == 14);
    reveal_strlit("xfterminal");
    assert("xfterminal"@.len() == 10);
    reveal_strlit("gnome-terminal");
    assert("gnome-terminal"@.len() == 14);
    reveal_strlit("gnome-terminal-server");
    assert("gnome-terminal-server"@.len() == 21);
    reveal_strlit("konsole");
    assert("konsole"@.len() == 7);
    reveal_strlit("xterm");
    assert("xterm"@.len() == 5);
    reveal_strlit("uxterm");
    assert("uxterm"@.len() == 6);
    reveal_strlit("urxvt");
    assert("urxvt"@.len() == 5);
    reveal_strlit("urxvtc");
    assert("urxvtc"@.len() == 6);
    reveal_strlit("terminator");
    assert("terminator"@.len() == 10);
    reveal_strlit("tilix");
    assert("tilix"@.len() == 5);
    reveal_strlit("kitty");
    assert("kitty"@.len() == 5);
    reveal_strlit("wezterm");
    assert("wezterm"@.len() == 7);
    reveal_strlit("st");
    assert("st"@.len() == 2);
    reveal_strlit("st-256color");
    assert("st-256color"@.len() == 11);
    reveal_strlit("rxvt");
    assert("rxvt"@.len() == 4);
    reveal_strlit("foot");
    assert("foot"@.len() == 4);
    reveal_strlit("footclient");
    assert("footclient"@.len() == 10);
    reveal_strlit("guake");
    assert("guake"@.len() == 5);
    reveal_strlit("mate-terminal");
    assert("mate-terminal"@.len() == 13);
    reveal_strlit("lxterminal");
    assert("lxterminal"@.len() == 10);
    reveal_strlit("cool-retro-term");
    assert("cool-retro-term"@.len() == 15);
    reveal_strlit("deepin-terminal");
    assert("deepin-terminal"@.len() == 15);
    reveal_strlit("sakura");
    assert("sakura"@.len() == 6);
    reveal_strlit("termite");
    assert("termite"@.len() == 7);
    reveal_strlit("ghostty");
    assert("ghostty"@.len() == 7);
    reveal_strlit("blackbox");
    assert("blackbox"@.len() == 8);
    reveal_strlit("contour");
    assert("contour"@.len() == 7);
    reveal_strlit("tabby");
    assert("tabby"@.len() == 5);
    reveal_strlit("warp-terminal");
    assert("warp-terminal"@.len() == 13);
}

proof fn lemma_lists_are_disjoint(name: Seq<char>)
    ensures
        str_texts(terminal_names()).contains(name) ==> name.len() > 0,
        str_texts(browser_names()).contains(name) ==> name.len() > 0 && !str_texts(
            terminal_names(),
        ).contains(name),
        str_texts(ide_names()).contains(name) ==> name.len() > 0 && !str_texts(
            terminal_names(),
        ).contains(name) && !str_texts(browser_names()).contains(name),
{
    if str_texts(terminal_names()).contains(name) {
        lemma_terminals_have_names(name);
        lemma_terminal_cases(name);
    }
    if str_texts(browser_names()).contains(name) {
        lemma_browser_cases(name);
        lemma_browsers_are_no_terminals(name);
    }
    if str_texts(ide_names()).contains(name) {
        lemma_editor_cases(name);
        lemma_editors_are_no_terminals(name);
        lemma_editors_are_no_browsers(name);
    }
}

/// The value of a window shows it as it is.
pub proof fn a_window_is_shown_as_it_is(t: FocusTarget)
    ensures
        t@.class == t.class,
        t@.xwayland == t.xwayland,
        t.id matches Some(id) ==> t@.id == Some(id@),
        t.id is None ==> t@.id is None,
        target_view(Some(t)) == Some(t@),
        target_view(None) is None,
{
}

}
