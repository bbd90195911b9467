//! The desktop session: which display server, compositor and audio system
//! there is, and which tools it takes to work with them.

use crate::clipboard::{clip_argv, ClipTool};
use crate::command::{lookup, lookup_command, CommandOutcome, CommandSpec, CommandView};
use crate::paste::{press_command, xdotool_command};
use crate::recording::RECORDER;
use crate::text::{
    a_part_stands_in_the_whole, contains, every_part_is_joined, from_utf8_lossy, has_text, join,
    joined, lossy_text, lowercase, opt_text, owned, same_text, str_texts, texts, to_lowercase,
};
use vstd::prelude::*;

verus! {

// ── Environment detection ─────────────────────────────────────────

#[derive(Debug, Clone, Copy, PartialEq, Eq, Structural)]
pub enum DesktopEnv {
    X11,
    Wayland,
}

#[derive(Debug, Clone, Copy, PartialEq, Eq, Structural)]
pub enum WaylandCompositor {
    Sway,
    Hyprland,
    Kde,
    Gnome,
    Other,
}

#[derive(Debug, Clone, Copy, PartialEq, Eq, Structural)]
pub enum AudioSystem {
    PulseAudio,
    PipeWire,
    Absent,
}

/// The environment variables that describe the session; `None` stands for a
/// variable that is not set.
#[derive(Debug)]
pub struct EnvVars {
    pub wayland_display: Option<String>,
    pub xdg_session_type: Option<String>,
    pub display: Option<String>,
    pub xdg_current_desktop: Option<String>,
    pub xdg_runtime_dir: Option<String>,
}

/// The variable is set to a text other than the empty one.
pub open spec fn filled(v: Option<String>) -> bool {
    v matches Some(s) && s@.len() > 0
}

/// Whether the variable is set to a text other than the empty one.
pub(crate) fn is_filled(v: &Option<String>) -> (r: bool)
    ensures
        r == filled(*v),
{
    match v {
        Some(s) => !s.as_str().is_empty(),
        None => false,
    }
}

/// The variable is set, to this text.
pub open spec fn set_to(v: Option<String>, s: Seq<char>) -> bool {
    v matches Some(t) && t@ == s
}

/// The session: Wayland where there is a Wayland display or the session says
/// so, X11 where there is only an X display, Wayland where there is neither.
pub open spec fn env_of(vars: EnvVars) -> DesktopEnv {
    if vars.wayland_display is None && !set_to(vars.xdg_session_type, "wayland"@)
        && vars.display is Some {
        DesktopEnv::X11
    } else {
        DesktopEnv::Wayland
    }
}

pub fn detect_env(vars: &EnvVars) -> (r: DesktopEnv)
    ensures
        r == env_of(*vars),
{
    let wayland_session = match &vars.xdg_session_type {
        Some(t) => same_text(t.as_str(), "wayland"),
        None => false,
    };
    // On XWayland, both DISPLAY and WAYLAND_DISPLAY are set: Wayland wins.
    if vars.wayland_display.is_some() || wayland_session {
        DesktopEnv::Wayland
    } else if vars.display.is_some() {
        DesktopEnv::X11
    } else {
        // No display server at all: prefer Wayland as the safer fallback.
        DesktopEnv::Wayland
    }
}

/// The compositor that the name of a desktop, in lower case, stands for.
pub open spec fn compositor_in(desktop: Seq<char>) -> WaylandCompositor {
    if has_text(desktop, "sway"@) {
        WaylandCompositor::Sway
    } else if has_text(desktop, "hyprland"@) {
        WaylandCompositor::Hyprland
    } else if has_text(desktop, "kde"@) || has_text(desktop, "plasma"@) {
        WaylandCompositor::Kde
    } else if has_text(desktop, "gnome"@) || has_text(desktop, "mutter"@) {
        WaylandCompositor::Gnome
    } else {
        WaylandCompositor::Other
    }
}

/// The compositor that the name of a desktop, in lower case, stands for.
pub fn compositor_named(desktop: &str) -> (r: WaylandCompositor)
    ensures
        r == compositor_in(desktop@),
{
    if contains(desktop, "sway") {
        WaylandCompositor::Sway
    } else if contains(desktop, "hyprland") {
        WaylandCompositor::Hyprland
    } else if contains(desktop, "kde") || contains(desktop, "plasma") {
        WaylandCompositor::Kde
    } else if contains(desktop, "gnome") || contains(desktop, "mutter") {
        WaylandCompositor::Gnome
    } else {
        WaylandCompositor::Other
    }
}

/// The compositor of the session.
pub open spec fn compositor_of(vars: EnvVars) -> WaylandCompositor {
    compositor_in(
        lowercase(
            match vars.xdg_current_desktop {
                Some(d) => d@,
                None => ""@,
            },
        ),
    )
}

pub fn detect_wayland_compositor(vars: &EnvVars) -> (r: WaylandCompositor)
    ensures
        r == compositor_of(*vars),
{
    let desktop = match &vars.xdg_current_desktop {
        Some(d) => to_lowercase(d.as_str()),
        None => to_lowercase(""),
    };
    compositor_named(desktop.as_str())
}

/// The effective backend: the one that the configuration forces, otherwise
/// the one of the session.
pub open spec fn effective(backend: Option<String>, vars: EnvVars) -> DesktopEnv {
    if set_to(backend, "x11"@) {
        DesktopEnv::X11
    } else if set_to(backend, "wayland"@) {
        DesktopEnv::Wayland
    } else {
        env_of(vars)
    }
}

/// The effective backend: the `backend` override of the configuration wins
/// when it names one, otherwise the session decides.
pub fn effective_env(backend: &Option<String>, vars: &EnvVars) -> (r: DesktopEnv)
    ensures
        r == effective(*backend, *vars),
{
    match backend {
        Some(b) => {
            if same_text(b.as_str(), "x11") {
                DesktopEnv::X11
            } else if same_text(b.as_str(), "wayland") {
                DesktopEnv::Wayland
            } else {
                proof {
                    reveal_strlit("x11");
                    reveal_strlit("wayland");
                }
                detect_env(vars)
            }
        },
        None => detect_env(vars),
    }
}

// ── Audio system ──────────────────────────────────────────────────

/// The search for the audio system of the machine.
#[derive(Debug, Clone, Copy, PartialEq, Eq, Structural)]
pub enum AudioProbe {
    AskPactl,
    AskPipewire,
    Decided(AudioSystem),
}

/// What the reply of `pactl info` says, if it decides: PipeWire where it names
/// itself, PulseAudio where the command succeeds otherwise.
pub open spec fn audio_by_pactl(outcome: CommandOutcome) -> Option<AudioSystem> {
    match outcome {
        CommandOutcome::Completed(o) => if has_text(lossy_text(o.stdout@), "PipeWire"@) || has_text(
            lossy_text(o.stdout@),
            "pipewire"@,
        ) {
            Some(AudioSystem::PipeWire)
        } else if o.success {
            Some(AudioSystem::PulseAudio)
        } else {
            None
        },
        _ => None,
    }
}

impl AudioProbe {
    /// The command that the search waits for.
    pub open spec fn due(self) -> Option<CommandView> {
        match self {
            AudioProbe::AskPactl => Some(lookup(seq!["pactl"@, "info"@], None)),
            AudioProbe::AskPipewire => Some(lookup(seq!["pipewire"@, "--version"@], None)),
            AudioProbe::Decided(_) => None,
        }
    }

    /// The state that the outcome of that command leads to.
    pub open spec fn after(self, outcome: CommandOutcome) -> AudioProbe {
        match self {
            AudioProbe::AskPactl => match audio_by_pactl(outcome) {
                Some(a) => AudioProbe::Decided(a),
                None => AudioProbe::AskPipewire,
            },
            AudioProbe::AskPipewire => AudioProbe::Decided(
                if outcome is Completed {
                    AudioSystem::PipeWire
                } else {
                    AudioSystem::Absent
                },
            ),
            AudioProbe::Decided(_) => self,
        }
    }

    /// The command that the search waits for.
    pub fn command(&self) -> (r: Option<CommandSpec>)
        ensures
            match r {
                Some(c) => self.due() == Some(c@),
                None => self.due() is None,
            },
    {
        match self {
            AudioProbe::AskPactl => {
                let argv = owned(vec!["pactl", "info"]);
                assert(texts(argv@) =~= seq!["pactl"@, "info"@]);
                Some(lookup_command(argv, None))
            },
            AudioProbe::AskPipewire => {
                let argv = owned(vec!["pipewire", "--version"]);
                assert(texts(argv@) =~= seq!["pipewire"@, "--version"@]);
                Some(lookup_command(argv, None))
            },
            AudioProbe::Decided(_) => None,
        }
    }

    /// The state that the outcome of that command leads to.
    pub fn next(self, outcome: &CommandOutcome) -> (r: AudioProbe)
        ensures
            r == self.after(*outcome),
    {
        match self {
            AudioProbe::AskPactl => match outcome {
                CommandOutcome::Completed(o) => {
                    let stdout = from_utf8_lossy(o.stdout.as_slice());
                    if contains(stdout.as_str(), "PipeWire") || contains(
                        stdout.as_str(),
                        "pipewire",
                    ) {
                        AudioProbe::Decided(AudioSystem::PipeWire)
                    } else if o.success {
                        AudioProbe::Decided(AudioSystem::PulseAudio)
                    } else {
                        AudioProbe::AskPipewire
                    }
                },
                _ => AudioProbe::AskPipewire,
            },
            AudioProbe::AskPipewire => match outcome {
                CommandOutcome::Completed(_) => AudioProbe::Decided(AudioSystem::PipeWire),
                _ => AudioProbe::Decided(AudioSystem::Absent),
            },
            AudioProbe::Decided(_) => self,
        }
    }
}

/// The search for the audio system, from its beginning: `pactl` is asked
/// first, and `pipewire` where that leaves it open.
pub fn detect_audio_system() -> (r: AudioProbe)
    ensures
        r == AudioProbe::AskPactl,
{
    AudioProbe::AskPactl
}

// ── Tools ─────────────────────────────────────────────────────────

/// Budget for looking up a tool, a window or a process while text is pasted.
pub const LOOKUP_TIMEOUT_MS: u64 = 800;

/// The question whether a tool is installed.
pub open spec fn tool_question(name: Seq<char>, limit_ms: Option<u64>) -> CommandView {
    lookup(seq!["which"@, name], limit_ms)
}

/// The question whether a tool is installed.
pub fn require_tool(name: &str, limit_ms: Option<u64>) -> (r: CommandSpec)
    ensures
        r@ == tool_question(name@, limit_ms),
{
    let argv = owned(vec!["which", name]);
    assert(texts(argv@) =~= seq!["which"@, name@]);
    lookup_command(argv, limit_ms)
}

/// The tools that dictation takes in a session.
pub open spec fn tools_of(env: DesktopEnv) -> Seq<Seq<char>> {
    match env {
        DesktopEnv::X11 => seq!["ffmpeg"@, "xdotool"@, "xsel"@, "xclip"@],
        DesktopEnv::Wayland => seq!["ffmpeg"@, "wl-copy"@, "wtype"@],
    }
}

/// The tools that dictation takes in a session.
pub fn tools_needed(env: DesktopEnv) -> (r: Vec<&'static str>)
    ensures
        str_texts(r@) == tools_of(env),
{
    let r = match env {
        DesktopEnv::X11 => vec!["ffmpeg", "xdotool", "xsel", "xclip"],
        DesktopEnv::Wayland => vec!["ffmpeg", "wl-copy", "wtype"],
    };
    assert(str_texts(r@) =~= tools_of(env));
    r
}

/// The tools of a list, in its order, that are not among those found.
pub open spec fn not_found(tools: Seq<Seq<char>>, found: Seq<Seq<char>>) -> Seq<Seq<char>> {
    tools.filter(|t: Seq<char>| !found.contains(t))
}

/// The tools that a session takes and that were not found.
pub fn validate_deps(env: DesktopEnv, found: &Vec<String>) -> (missing: Vec<String>)
    ensures
        texts(missing@) == not_found(tools_of(env), texts(found@)),
{
    let tools = tools_needed(env);
    let ghost all = tools_of(env);
    let ghost absent = |t: Seq<char>| !texts(found@).contains(t);
    let mut missing: Vec<String> = Vec::new();
    assert(all.take(0) =~= Seq::empty());
    assert(texts(missing@) =~= all.take(0).filter(absent)) by {
        reveal(Seq::filter);
    }
    for i in 0..tools.len()
        invariant
            all == str_texts(tools@),
            absent == (|t: Seq<char>| !texts(found@).contains(t)),
            texts(missing@) == all.take(i as int).filter(absent),
    {
        let mut k: usize = 0;
        let mut there = false;
        while k < found.len() && !there
            invariant
                k <= found@.len(),
                i < tools@.len(),
                !there ==> forall|j: int| 0 <= j < k ==> found@[j]@ != tools@[i as int]@,
                there ==> texts(found@).contains(tools@[i as int]@),
            decreases found@.len() - k,
        {
            if same_text(found[k].as_str(), tools[i]) {
                there = true;
                assert(texts(found@)[k as int] == tools@[i as int]@);
            }
            k += 1;
        }
        proof {
            if !there {
                assert(forall|j: int|
                    0 <= j < found@.len() ==> #[trigger] texts(found@)[j] == found@[j]@);
            }
            assert(all.take(i + 1) =~= all.take(i as int).push(all[i as int]));
            assert(all.take(i + 1).drop_last() =~= all.take(i as int));
            reveal(Seq::filter);
        }
        if !there {
            let ghost before = missing@;
            missing.push(tools[i].to_owned());
            assert(texts(missing@) =~= texts(before).push(all[i as int]));
        }
    }
    assert(all.take(tools@.len() as int) =~= all);
    missing
}

pub open spec fn install_hint(env: DesktopEnv) -> Seq<char> {
    match env {
        DesktopEnv::X11 => "sudo apt install ffmpeg xdotool xsel xclip"@,
        DesktopEnv::Wayland => "sudo apt install ffmpeg wl-clipboard wtype"@,
    }
}

pub fn deps_install_hint(env: DesktopEnv) -> (r: &'static str)
    ensures
        r@ == install_hint(env),
{
    match env {
        DesktopEnv::X11 => "sudo apt install ffmpeg xdotool xsel xclip",
        DesktopEnv::Wayland => "sudo apt install ffmpeg wl-clipboard wtype",
    }
}

/// What to tell the user of missing tools; nothing where none is missing.
pub fn missing_message(missing: &Vec<String>, env: DesktopEnv) -> (r: Option<String>)
    ensures
        match r {
            Some(m) => missing@.len() > 0 && m@ == "Missing runtime dependencies: "@ + joined(
                texts(missing@),
                ", "@,
            ) + ". Install with: "@ + install_hint(env),
            None => missing@.len() == 0,
        },
{
    if missing.len() == 0 {
        return None;
    }
    let mut m = "Missing runtime dependencies: ".to_owned();
    m.append(join(missing, ", ").as_str());
    m.append(". Install with: ");
    m.append(deps_install_hint(env));
    Some(m)
}

/// The search for the tools that put text into an X11 window.
#[derive(Debug, Clone, Copy, PartialEq, Eq, Structural)]
pub enum X11Tools {
    AskXsel,
    AskXclip,
    AskXdotool,
    Decided(bool),
}

impl X11Tools {
    /// The first state: without an X display there is nothing to look for.
    pub open spec fn first(display: Option<String>) -> X11Tools {
        if filled(display) {
            X11Tools::AskXsel
        } else {
            X11Tools::Decided(false)
        }
    }

    /// The command that the search waits for.
    pub open spec fn due(self) -> Option<CommandView> {
        match self {
            X11Tools::AskXsel => Some(tool_question("xsel"@, Some(LOOKUP_TIMEOUT_MS))),
            X11Tools::AskXclip => Some(tool_question("xclip"@, Some(LOOKUP_TIMEOUT_MS))),
            X11Tools::AskXdotool => Some(tool_question("xdotool"@, Some(LOOKUP_TIMEOUT_MS))),
            X11Tools::Decided(_) => None,
        }
    }

    /// The state after a reply: one of the two clipboard tools is needed, and
    /// the keystroke tool.
    pub open spec fn after(self, found: bool) -> X11Tools {
        match self {
            X11Tools::AskXsel => if found {
                X11Tools::AskXdotool
            } else {
                X11Tools::AskXclip
            },
            X11Tools::AskXclip => if found {
                X11Tools::AskXdotool
            } else {
                X11Tools::Decided(false)
            },
            X11Tools::AskXdotool => X11Tools::Decided(found),
            X11Tools::Decided(_) => self,
        }
    }

    /// The time that the search takes at most from here.
    pub open spec fn budget(self) -> nat {
        match self {
            X11Tools::AskXsel => 3 * LOOKUP_TIMEOUT_MS as nat,
            X11Tools::AskXclip => 2 * LOOKUP_TIMEOUT_MS as nat,
            X11Tools::AskXdotool => LOOKUP_TIMEOUT_MS as nat,
            X11Tools::Decided(_) => 0,
        }
    }

    /// The search from its beginning.
    pub fn x11_tools_available(display: &Option<String>) -> (r: X11Tools)
        ensures
            r == X11Tools::first(*display),
    {
        if is_filled(display) {
            X11Tools::AskXsel
        } else {
            X11Tools::Decided(false)
        }
    }

    /// The command that the search waits for.
    pub fn command(&self) -> (r: Option<CommandSpec>)
        ensures
            match r {
                Some(c) => self.due() == Some(c@),
                None => self.due() is None,
            },
    {
        match self {
            X11Tools::AskXsel => Some(require_tool("xsel", Some(LOOKUP_TIMEOUT_MS))),
            X11Tools::AskXclip => Some(require_tool("xclip", Some(LOOKUP_TIMEOUT_MS))),
            X11Tools::AskXdotool => Some(require_tool("xdotool", Some(LOOKUP_TIMEOUT_MS))),
            X11Tools::Decided(_) => None,
        }
    }

    /// The state after a reply.
    pub fn next(self, outcome: &CommandOutcome) -> (r: X11Tools)
        ensures
            r == self.after(outcome.succeeded()),
    {
        let found = outcome.is_success();
        match self {
            X11Tools::AskXsel => if found {
                X11Tools::AskXdotool
            } else {
                X11Tools::AskXclip
            },
            X11Tools::AskXclip => if found {
                X11Tools::AskXdotool
            } else {
                X11Tools::Decided(false)
            },
            X11Tools::AskXdotool => X11Tools::Decided(found),
            X11Tools::Decided(_) => self,
        }
    }
}

/// With all three answers given, the tools are there exactly where one of the
/// clipboard tools and the keystroke tool were found.
pub proof fn x11_takes_a_clipboard_tool_and_a_keystroke_tool(
    display: Option<String>,
    xsel: bool,
    xclip: bool,
    xdotool: bool,
)
    requires
        filled(display),
    ensures
        X11Tools::first(display) is AskXsel,
        ({
            let s = X11Tools::AskXsel.after(xsel);
            let t = if s is AskXclip {
                s.after(xclip)
            } else {
                s
            };
            let u = if t is AskXdotool {
                t.after(xdotool)
            } else {
                t
            };
            u == X11Tools::Decided((xsel || xclip) && xdotool)
        }),
{
}

// ── Display check ─────────────────────────────────────────────────

/// What is wrong with the display of the session.
#[derive(Debug, Clone, Copy, PartialEq, Eq, Structural)]
pub enum DisplayFault {
    NoDisplay,
    EmptyDisplay,
    NoWaylandDisplay,
    EmptyWaylandDisplay,
    NoRuntimeDir,
    NoSocket,
}

/// A display that cannot be used; `socket` is the path that was looked at
/// where a socket is missing.
#[derive(Debug)]
pub struct DisplayError {
    pub fault: DisplayFault,
    pub socket: Option<String>,
}

/// The directory for the sockets of the session: the one that the environment
/// names, otherwise the one that the system knows.
pub open spec fn runtime_dir_of(vars: EnvVars, system_dir: Option<String>) -> Option<Seq<char>> {
    if filled(vars.xdg_runtime_dir) {
        opt_text(vars.xdg_runtime_dir)
    } else {
        opt_text(system_dir)
    }
}

/// A relative path inside a directory.
pub open spec fn path_in(dir: Seq<char>, name: Seq<char>) -> Seq<char> {
    if dir.len() == 0 || dir.last() == '/' {
        dir + name
    } else {
        dir + "/"@ + name
    }
}

/// The path of the Wayland socket: `WAYLAND_DISPLAY` is a path of its own or
/// a name in the runtime directory. No path where either is missing.
pub open spec fn socket_of(vars: EnvVars, system_dir: Option<String>) -> Option<Seq<char>> {
    match vars.wayland_display {
        Some(wl) => if wl@.len() == 0 {
            None
        } else if wl@[0] == '/' {
            Some(wl@)
        } else {
            match runtime_dir_of(vars, system_dir) {
                Some(dir) => Some(path_in(dir, wl@)),
                None => None,
            }
        },
        None => None,
    }
}

/// What is wrong with the display, if anything is; `socket_exists` says of
/// the path of the Wayland socket whether there is something.
pub open spec fn display_fault(
    env: DesktopEnv,
    vars: EnvVars,
    system_dir: Option<String>,
    socket_exists: bool,
) -> Option<DisplayFault> {
    match env {
        DesktopEnv::X11 => if vars.display is None {
            Some(DisplayFault::NoDisplay)
        } else if !filled(vars.display) {
            Some(DisplayFault::EmptyDisplay)
        } else {
            None
        },
        DesktopEnv::Wayland => if vars.wayland_display is None {
            Some(DisplayFault::NoWaylandDisplay)
        } else if !filled(vars.wayland_display) {
            Some(DisplayFault::EmptyWaylandDisplay)
        } else if socket_of(vars, system_dir) is None {
            Some(DisplayFault::NoRuntimeDir)
        } else if !socket_exists {
            Some(DisplayFault::NoSocket)
        } else {
            None
        },
    }
}

/// The path of the Wayland socket, where one follows from the environment.
pub fn wayland_socket(vars: &EnvVars, system_dir: &Option<String>) -> (r: Option<String>)
    ensures
        opt_text(r) == socket_of(*vars, *system_dir),
{
    match &vars.wayland_display {
        Some(wl) => {
            if wl.as_str().is_empty() {
                return None;
            }
            if wl.as_str().get_char(0) == '/' {
                return Some(wl.clone());
            }
            let dir = if is_filled(&vars.xdg_runtime_dir) {
                &vars.xdg_runtime_dir
            } else {
                system_dir
            };
            match dir {
                Some(d) => {
                    let mut path = d.clone();
                    let len: usize = d.as_str().unicode_len();
                    if len > 0 && d.as_str().get_char(len - 1) != '/' {
                        path.append("/");
                    }
                    path.append(wl.as_str());
                    Some(path)
                },
                None => None,
            }
        },
        None => None,
    }
}

/// Validates that a display server can be reached before anything is done
/// with it. `socket_exists` answers for the path of [`wayland_socket`].
pub fn check_display_env(
    env: DesktopEnv,
    vars: &EnvVars,
    system_dir: &Option<String>,
    socket_exists: bool,
) -> (r: Result<(), DisplayError>)
    ensures
        match r {
            Ok(_) => display_fault(env, *vars, *system_dir, socket_exists) is None,
            Err(e) => {
                &&& display_fault(env, *vars, *system_dir, socket_exists) == Some(e.fault)
                &&& opt_text(e.socket) == if e.fault == DisplayFault::NoSocket {
                    socket_of(*vars, *system_dir)
                } else {
                    None
                }
            },
        },
{
    match env {
        DesktopEnv::X11 => {
            if vars.display.is_none() {
                return Err(DisplayError { fault: DisplayFault::NoDisplay, socket: None });
            }
            if !is_filled(&vars.display) {
                return Err(DisplayError { fault: DisplayFault::EmptyDisplay, socket: None });
            }
            Ok(())
        },
        DesktopEnv::Wayland => {
            if vars.wayland_display.is_none() {
                return Err(DisplayError { fault: DisplayFault::NoWaylandDisplay, socket: None });
            }
            if !is_filled(&vars.wayland_display) {
                return Err(
                    DisplayError { fault: DisplayFault::EmptyWaylandDisplay, socket: None },
                );
            }
            match wayland_socket(vars, system_dir) {
                None => Err(DisplayError { fault: DisplayFault::NoRuntimeDir, socket: None }),
                Some(path) => {
                    if socket_exists {
                        Ok(())
                    } else {
                        Err(DisplayError { fault: DisplayFault::NoSocket, socket: Some(path) })
                    }
                },
            }
        },
    }
}

impl DisplayError {
    /// The words for the fault.
    pub open spec fn words(self) -> Seq<char> {
        match self.fault {
            DisplayFault::NoDisplay => "DISPLAY is not set. voxtype needs an X11 display.\nMake sure you're running this from within an X session.\nIf using Wayland, set backend = \"wayland\" in config.toml."@,
            DisplayFault::EmptyDisplay => "DISPLAY is set but empty. Check your X11 session."@,
            DisplayFault::NoWaylandDisplay => "WAYLAND_DISPLAY is not set. voxtype needs a Wayland compositor.\nMake sure you're running this from within a Wayland session.\nIf using X11, set backend = \"x11\" in config.toml."@,
            DisplayFault::EmptyWaylandDisplay => "WAYLAND_DISPLAY is set but empty. Check your Wayland session."@,
            DisplayFault::NoRuntimeDir => "Cannot determine Wayland runtime directory (XDG_RUNTIME_DIR is not set)"@,
            DisplayFault::NoSocket => "Wayland socket "@ + match self.socket {
                Some(p) => p@,
                None => ""@,
            } + " does not exist. Check your compositor."@,
        }
    }

    /// The message for the user.
    pub fn message(&self) -> (r: String)
        ensures
            r@ == self.words(),
    {
        match self.fault {
            DisplayFault::NoDisplay => "DISPLAY is not set. voxtype needs an X11 display.\nMake sure you're running this from within an X session.\nIf using Wayland, set backend = \"wayland\" in config.toml.".to_owned(),
            DisplayFault::EmptyDisplay => "DISPLAY is set but empty. Check your X11 session.".to_owned(),
            DisplayFault::NoWaylandDisplay => "WAYLAND_DISPLAY is not set. voxtype needs a Wayland compositor.\nMake sure you're running this from within a Wayland session.\nIf using X11, set backend = \"x11\" in config.toml.".to_owned(),
            DisplayFault::EmptyWaylandDisplay => "WAYLAND_DISPLAY is set but empty. Check your Wayland session.".to_owned(),
            DisplayFault::NoRuntimeDir => "Cannot determine Wayland runtime directory (XDG_RUNTIME_DIR is not set)".to_owned(),
            DisplayFault::NoSocket => {
                let mut m = "Wayland socket ".to_owned();
                match &self.socket {
                    Some(p) => m.append(p.as_str()),
                    None => m.append(""),
                }
                m.append(" does not exist. Check your compositor.");
                m
            },
        }
    }
}

// ── Laws ──────────────────────────────────────────────────────────

/// Where both display variables are set, as under XWayland, Wayland wins.
pub proof fn wayland_wins_over_x11(vars: EnvVars)
    requires
        vars.wayland_display is Some,
    ensures
        env_of(vars) == DesktopEnv::Wayland,
{
}

/// A backend that the configuration forces holds whatever the session is; any
/// other setting leaves the choice to the session.
pub proof fn a_forced_backend_holds_everywhere(
    backend: Option<String>,
    vars: EnvVars,
    other: EnvVars,
)
    ensures
        set_to(backend, "x11"@) ==> effective(backend, vars) == DesktopEnv::X11,
        set_to(backend, "wayland"@) ==> effective(backend, vars) == DesktopEnv::Wayland,
        !set_to(backend, "x11"@) && !set_to(backend, "wayland"@) ==> effective(backend, vars)
            == env_of(vars),
        set_to(backend, "x11"@) || set_to(backend, "wayland"@) ==> effective(backend, vars)
            == effective(backend, other),
{
    reveal_strlit("x11");
    reveal_strlit("wayland");
    assert("x11"@.len() != "wayland"@.len());
}

/// The session is an X11 one exactly where there is an X display, no Wayland
/// display, and no word of the session that it is a Wayland one.
pub proof fn x11_takes_an_x_display_alone(vars: EnvVars)
    ensures
        env_of(vars) == DesktopEnv::X11 <==> vars.display is Some && vars.wayland_display is None && !(
        vars.xdg_session_type matches Some(t) && t@ == "wayland"@),
        env_of(vars) == DesktopEnv::X11 || env_of(vars) == DesktopEnv::Wayland,
        vars.display is None ==> env_of(vars) == DesktopEnv::Wayland,
{
}

/// A compositor is known by a word in the name of the desktop, and each word
/// stands for one; of several the order is sway, Hyprland, KDE, GNOME. Without
/// any of the words the compositor is another one.
pub proof fn a_compositor_is_known_by_a_word(desktop: Seq<char>)
    ensures
        compositor_in(desktop) == WaylandCompositor::Sway <==> has_text(desktop, "sway"@),
        compositor_in(desktop) == WaylandCompositor::Hyprland ==> has_text(desktop, "hyprland"@),
        has_text(desktop, "hyprland"@) && !has_text(desktop, "sway"@) ==> compositor_in(desktop)
            == WaylandCompositor::Hyprland,
        compositor_in(desktop) == WaylandCompositor::Kde ==> has_text(desktop, "kde"@) || has_text(
            desktop,
            "plasma"@,
        ),
        (has_text(desktop, "kde"@) || has_text(desktop, "plasma"@)) && !has_text(desktop, "sway"@)
            && !has_text(desktop, "hyprland"@) ==> compositor_in(desktop) == WaylandCompositor::Kde,
        compositor_in(desktop) == WaylandCompositor::Gnome ==> has_text(desktop, "gnome"@)
            || has_text(desktop, "mutter"@),
        (has_text(desktop, "gnome"@) || has_text(desktop, "mutter"@)) && !has_text(desktop, "sway"@)
            && !has_text(desktop, "hyprland"@) && !has_text(desktop, "kde"@) && !has_text(
            desktop,
            "plasma"@,
        ) ==> compositor_in(desktop) == WaylandCompositor::Gnome,
        compositor_in(desktop) == WaylandCompositor::Other <==> !has_text(desktop, "sway"@)
            && !has_text(desktop, "hyprland"@) && !has_text(desktop, "kde"@) && !has_text(
            desktop,
            "plasma"@,
        ) && !has_text(desktop, "gnome"@) && !has_text(desktop, "mutter"@),
{
}

/// The compositor follows from the name of the desktop alone, and not from the
/// case in which that is written.
pub proof fn the_case_of_the_desktop_does_not_matter(
    a: EnvVars,
    b: EnvVars,
    x: String,
    y: String,
)
    requires
        a.xdg_current_desktop == Some(x),
        b.xdg_current_desktop == Some(y),
        lowercase(x@) == lowercase(y@),
    ensures
        compositor_of(a) == compositor_of(b),
        compositor_of(a) == compositor_in(lowercase(y@)),
{
}

/// The audio system is PipeWire where it names itself in the reply of `pactl`,
/// or where `pactl` does not decide and `pipewire` can be run; PulseAudio where
/// `pactl` succeeds without naming PipeWire; and there is none where neither
/// gives a sign of one.
pub proof fn the_audio_system_is_found_by_two_questions(
    pactl: CommandOutcome,
    pipewire: CommandOutcome,
)
    ensures
        ({
            let s = AudioProbe::AskPactl.after(pactl);
            let found = if s is AskPipewire {
                s.after(pipewire)
            } else {
                s
            };
            let names_itself = pactl matches CommandOutcome::Completed(o) && (has_text(
                lossy_text(o.stdout@),
                "PipeWire"@,
            ) || has_text(lossy_text(o.stdout@), "pipewire"@));
            let runs = pipewire is Completed;
            found == AudioProbe::Decided(
                if names_itself {
                    AudioSystem::PipeWire
                } else if pactl.succeeded() {
                    AudioSystem::PulseAudio
                } else if runs {
                    AudioSystem::PipeWire
                } else {
                    AudioSystem::Absent
                },
            )
        }),
        AudioProbe::AskPactl.due() matches Some(c) && c.argv == seq!["pactl"@, "info"@] && c.input
            is Empty,
        AudioProbe::AskPipewire.due() matches Some(c) && c.argv[0] == "pipewire"@ && c.input
            is Empty,
{
}

/// A tool is asked for by its name, without input; the answer is whether the
/// question succeeds.
pub proof fn a_tool_is_asked_for_by_its_name(name: Seq<char>, limit_ms: Option<u64>)
    ensures
        tool_question(name, limit_ms).argv == seq!["which"@, name],
        tool_question(name, limit_ms).input is Empty,
        tool_question(name, limit_ms).limit_ms == limit_ms,
        X11Tools::AskXsel.due() == Some(tool_question("xsel"@, Some(800u64))),
        X11Tools::AskXclip.due() == Some(tool_question("xclip"@, Some(800u64))),
        X11Tools::AskXdotool.due() == Some(tool_question("xdotool"@, Some(800u64))),
{
}

/// There are X11 tools to look for exactly where there is an X display.
pub proof fn without_a_display_there_are_no_x11_tools(display: Option<String>)
    ensures
        X11Tools::first(display) == X11Tools::Decided(false) <==> !(display matches Some(d)
            && d@.len() > 0),
        X11Tools::first(display) is Decided || X11Tools::first(display) is AskXsel,
{
}

/// The tools that are checked for at the start are those that dictation runs in
/// such a session: the recorder, the clipboard tools and the keystroke tool.
pub proof fn the_tools_that_are_used_are_checked_for(terminal: bool, keys: Seq<Seq<char>>)
    ensures
        tools_of(DesktopEnv::X11).contains(RECORDER@),
        tools_of(DesktopEnv::X11).contains(clip_argv(ClipTool::Xsel)[0]),
        tools_of(DesktopEnv::X11).contains(clip_argv(ClipTool::Xclip)[0]),
        tools_of(DesktopEnv::X11).contains(xdotool_command(terminal).argv[0]),
        tools_of(DesktopEnv::Wayland).contains(RECORDER@),
        tools_of(DesktopEnv::Wayland).contains(clip_argv(ClipTool::WlCopy)[0]),
        tools_of(DesktopEnv::Wayland).contains(press_command(keys).argv[0]),
        tools_of(DesktopEnv::X11).len() == 4,
        tools_of(DesktopEnv::Wayland).len() == 3,
{
    let x = tools_of(DesktopEnv::X11);
    let w = tools_of(DesktopEnv::Wayland);
    assert(x[0] == RECORDER@ && x[1] == "xdotool"@ && x[2] == "xsel"@ && x[3] == "xclip"@);
    assert(w[0] == RECORDER@ && w[1] == "wl-copy"@ && w[2] == "wtype"@);
}

/// A tool is reported missing exactly where it is needed and was not found, and
/// the message names it.
pub proof fn a_missing_tool_is_reported(
    tools: Seq<Seq<char>>,
    found: Seq<Seq<char>>,
    tool: Seq<char>,
)
    ensures
        not_found(tools, found).contains(tool) <==> tools.contains(tool) && !found.contains(tool),
        not_found(tools, found).contains(tool) ==> has_text(
            joined(not_found(tools, found), ", "@),
            tool,
        ),
{
    let pred = |t: Seq<char>| !found.contains(t);
    let missing = not_found(tools, found);
    lemma_filtered(tools, pred, tool);
    if missing.contains(tool) {
        let i = choose|i: int| 0 <= i < missing.len() && missing[i] == tool;
        every_part_is_joined(missing, ", "@, i);
    }
}

proof fn lemma_filtered(
    tools: Seq<Seq<char>>,
    pred: spec_fn(Seq<char>) -> bool,
    tool: Seq<char>,
)
    ensures
        tools.filter(pred).contains(tool) <==> tools.contains(tool) && pred(tool),
    decreases tools.len(),
{
    reveal(Seq::filter);
    if tools.len() > 0 {
        let rest = tools.drop_last();
        lemma_filtered(rest, pred, tool);
        let kept = rest.filter(pred);
        if tools.contains(tool) {
            let i = choose|i: int| 0 <= i < tools.len() && tools[i] == tool;
            if i < rest.len() {
                assert(rest[i] == tool);
            }
        }
        if rest.contains(tool) {
            let i = choose|i: int| 0 <= i < rest.len() && rest[i] == tool;
            assert(tools[i] == tool);
        }
        if pred(tools.last()) {
            let more = kept.push(tools.last());
            assert(tools.filter(pred) == more);
            if kept.contains(tool) {
                let i = choose|i: int| 0 <= i < kept.len() && kept[i] == tool;
                assert(more[i] == tool);
            }
            if tool == tools.last() {
                assert(more[more.len() - 1] == tool);
                assert(tools[tools.len() - 1] == tool);
            }
            if more.contains(tool) && tool != tools.last() {
                let i = choose|i: int| 0 <= i < more.len() && more[i] == tool;
                assert(kept[i] == tool);
            }
        }
    }
}

/// The hint names the tools of its session, or the package that they come in.
pub proof fn the_hint_is_for_the_session()
    ensures
        install_hint(DesktopEnv::X11) == "sudo apt install ffmpeg xdotool xsel xclip"@,
        install_hint(DesktopEnv::Wayland) == "sudo apt install ffmpeg wl-clipboard wtype"@,
{
}

/// An X11 session can be used exactly where `DISPLAY` is set to something, and a
/// Wayland session exactly where `WAYLAND_DISPLAY` is, its socket has a place
/// and there is something in that place. What is missing is told apart.
pub proof fn a_display_is_usable_where_it_can_be_reached(
    vars: EnvVars,
    system_dir: Option<String>,
    socket_exists: bool,
)
    ensures
        ({
            let x = display_fault(DesktopEnv::X11, vars, system_dir, socket_exists);
            let w = display_fault(DesktopEnv::Wayland, vars, system_dir, socket_exists);
            &&& x is None <==> (vars.display matches Some(d) && d@.len() > 0)
            &&& x == Some(DisplayFault::NoDisplay) <==> vars.display is None
            &&& x == Some(DisplayFault::EmptyDisplay) <==> (vars.display matches Some(d)
                && d@.len() == 0)
            &&& w is None <==> socket_of(vars, system_dir) is Some && socket_exists
            &&& w == Some(DisplayFault::NoWaylandDisplay) <==> vars.wayland_display is None
            &&& w == Some(DisplayFault::EmptyWaylandDisplay) <==> (
            vars.wayland_display matches Some(d) && d@.len() == 0)
            &&& w == Some(DisplayFault::NoSocket) <==> socket_of(vars, system_dir) is Some
                && !socket_exists
            &&& w == Some(DisplayFault::NoRuntimeDir) <==> filled(vars.wayland_display) && socket_of(
                vars,
                system_dir,
            ) is None
        }),
{
}

/// A display that is a path of its own is the socket. Any other is a name in the
/// runtime directory: in that of the environment where it is set, otherwise in
/// that of the system.
pub proof fn the_socket_lies_in_the_runtime_directory(
    vars: EnvVars,
    system_dir: Option<String>,
    name: String,
    dir: String,
)
    requires
        vars.wayland_display == Some(name),
        name@.len() > 0,
    ensures
        name@[0] == '/' ==> socket_of(vars, system_dir) == Some(name@),
        name@[0] != '/' && dir@.len() > 0 && (vars.xdg_runtime_dir == Some(dir) || (!filled(
            vars.xdg_runtime_dir,
        ) && system_dir == Some(dir))) ==> (socket_of(vars, system_dir) matches Some(path) && {
            let n = path.len() - name@.len();
            &&& path.skip(n) == name@
            &&& path[n - 1] == '/'
            &&& path.take(dir@.len() as int) == dir@
            &&& n == dir@.len() <==> dir@.last() == '/'
            &&& n <= dir@.len() + 1
        }),
        name@[0] != '/' && !filled(vars.xdg_runtime_dir) && system_dir is None ==> socket_of(
            vars,
            system_dir,
        ) is None,
{
    reveal_strlit("/");
    if name@[0] != '/' && dir@.len() > 0 {
        let path = path_in(dir@, name@);
        let n = path.len() - name@.len();
        assert(path.skip(n) =~= name@);
        assert(path.take(dir@.len() as int) =~= dir@);
    }
}

/// The message of a missing socket names the place that was looked at.
pub proof fn a_missing_socket_is_named(e: DisplayError, path: String)
    requires
        e.fault == DisplayFault::NoSocket,
        e.socket == Some(path),
    ensures
        has_text(e.words(), path@),
{
    a_part_stands_in_the_whole(
        "Wayland socket "@,
        path@,
        " does not exist. Check your compositor."@,
    );
}

/// A name in no directory stands alone.
pub proof fn a_name_in_no_directory_stands_alone(name: Seq<char>)
    ensures
        path_in(Seq::empty(), name) == name,
{
    assert(Seq::<char>::empty() + name =~= name);
}

/// Each fault of the display has its words, which name the variable.
pub proof fn each_display_fault_has_its_words(socket: Option<String>)
    ensures
        (DisplayError { fault: DisplayFault::NoDisplay, socket }).words()
            == "DISPLAY is not set. voxtype needs an X11 display.\nMake sure you're running this from within an X session.\nIf using Wayland, set backend = \"wayland\" in config.toml."@,
        (DisplayError { fault: DisplayFault::EmptyDisplay, socket }).words()
            == "DISPLAY is set but empty. Check your X11 session."@,
        (DisplayError { fault: DisplayFault::NoWaylandDisplay, socket }).words()
            == "WAYLAND_DISPLAY is not set. voxtype needs a Wayland compositor.\nMake sure you're running this from within a Wayland session.\nIf using X11, set backend = \"x11\" in config.toml."@,
        (DisplayError { fault: DisplayFault::EmptyWaylandDisplay, socket }).words()
            == "WAYLAND_DISPLAY is set but empty. Check your Wayland session."@,
        (DisplayError { fault: DisplayFault::NoRuntimeDir, socket }).words()
            == "Cannot determine Wayland runtime directory (XDG_RUNTIME_DIR is not set)"@,
{
}

}
