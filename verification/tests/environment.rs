use voxtype::command::{CommandOutcome, CommandOutput};
use voxtype::environment::{
    check_display_env, compositor_named, deps_install_hint, detect_audio_system, detect_env,
    detect_wayland_compositor, effective_env, missing_message, require_tool, tools_needed,
    validate_deps, wayland_socket, AudioProbe, AudioSystem, DesktopEnv, DisplayFault, EnvVars,
    WaylandCompositor, X11Tools,
};

fn some(s: &str) -> Option<String> {
    Some(s.to_string())
}

fn session(wayland: Option<&str>, kind: Option<&str>, display: Option<&str>) -> EnvVars {
    EnvVars {
        wayland_display: wayland.map(String::from),
        xdg_session_type: kind.map(String::from),
        display: display.map(String::from),
        xdg_current_desktop: None,
        xdg_runtime_dir: None,
    }
}

fn desktop(name: &str) -> EnvVars {
    EnvVars {
        wayland_display: None,
        xdg_session_type: None,
        display: None,
        xdg_current_desktop: some(name),
        xdg_runtime_dir: None,
    }
}

fn completed(success: bool, stdout: &str) -> CommandOutcome {
    CommandOutcome::Completed(CommandOutput {
        success,
        status: "exit status".to_string(),
        stdout: stdout.as_bytes().to_vec(),
        stderr: Vec::new(),
    })
}

#[test]
fn environment_detection() {
    assert_eq!(
        detect_env(&session(Some("wayland-0"), None, None)),
        DesktopEnv::Wayland
    );
    assert_eq!(
        detect_env(&session(None, Some("wayland"), None)),
        DesktopEnv::Wayland
    );
    assert_eq!(
        detect_env(&session(None, Some("x11"), Some(":0"))),
        DesktopEnv::X11
    );

    // XWayland: both display vars set, Wayland must win
    assert_eq!(
        detect_env(&session(Some("wayland-0"), Some("x11"), Some(":0"))),
        DesktopEnv::Wayland
    );

    // No display server at all: safe Wayland fallback
    assert_eq!(detect_env(&session(None, None, None)), DesktopEnv::Wayland);

    assert_eq!(
        detect_wayland_compositor(&desktop("sway")),
        WaylandCompositor::Sway
    );
    assert_eq!(
        detect_wayland_compositor(&desktop("KDE")),
        WaylandCompositor::Kde
    );
    assert_eq!(
        detect_wayland_compositor(&desktop("GNOME")),
        WaylandCompositor::Gnome
    );
    assert_eq!(
        detect_wayland_compositor(&desktop("Hyprland")),
        WaylandCompositor::Hyprland
    );
    assert_eq!(
        detect_wayland_compositor(&desktop("ubuntu:GNOME")),
        WaylandCompositor::Gnome
    );
    assert_eq!(
        detect_wayland_compositor(&desktop("unknown")),
        WaylandCompositor::Other
    );
}

#[test]
fn compositors_by_name() {
    assert_eq!(compositor_named("plasma"), WaylandCompositor::Kde);
    assert_eq!(compositor_named("mutter"), WaylandCompositor::Gnome);
    assert_eq!(compositor_named("sway:gnome"), WaylandCompositor::Sway);
    assert_eq!(compositor_named("SWAY"), WaylandCompositor::Other);
    assert_eq!(compositor_named(""), WaylandCompositor::Other);
}

#[test]
fn a_forced_backend_wins() {
    let x11 = session(None, None, Some(":0"));
    let wayland = session(Some("wayland-1"), None, None);
    assert_eq!(effective_env(&some("wayland"), &x11), DesktopEnv::Wayland);
    assert_eq!(effective_env(&some("x11"), &wayland), DesktopEnv::X11);
    assert_eq!(effective_env(&some("auto"), &x11), DesktopEnv::X11);
    assert_eq!(effective_env(&None, &wayland), DesktopEnv::Wayland);
}

#[test]
fn audio_systems() {
    let p = detect_audio_system();
    assert_eq!(p.command().unwrap().argv, vec!["pactl", "info"]);
    assert_eq!(p.command().unwrap().limit_ms, None);
    assert_eq!(
        p.next(&completed(false, "Server Name: PulseAudio (on PipeWire 1.0)")),
        AudioProbe::Decided(AudioSystem::PipeWire)
    );
    assert_eq!(
        p.next(&completed(true, "Server Name: pulseaudio")),
        AudioProbe::Decided(AudioSystem::PulseAudio)
    );
    let q = p.next(&completed(false, "Connection refused"));
    assert_eq!(q.command().unwrap().argv, vec!["pipewire", "--version"]);
    assert_eq!(
        q.next(&completed(false, "")),
        AudioProbe::Decided(AudioSystem::PipeWire)
    );
    let r = p.next(&CommandOutcome::Failed("not found".to_string()));
    assert_eq!(
        r.next(&CommandOutcome::Failed("not found".to_string())),
        AudioProbe::Decided(AudioSystem::Absent)
    );
}

#[test]
fn missing_tools() {
    assert_eq!(
        tools_needed(DesktopEnv::X11),
        vec!["ffmpeg", "xdotool", "xsel", "xclip"]
    );
    let found = vec!["xsel".to_string(), "ffmpeg".to_string()];
    let missing = validate_deps(DesktopEnv::X11, &found);
    assert_eq!(missing, vec!["xdotool", "xclip"]);
    assert_eq!(
        missing_message(&missing, DesktopEnv::X11),
        some("Missing runtime dependencies: xdotool, xclip. Install with: sudo apt install ffmpeg xdotool xsel xclip")
    );
    assert_eq!(
        validate_deps(DesktopEnv::Wayland, &found),
        vec!["wl-copy", "wtype"]
    );
    assert_eq!(missing_message(&Vec::new(), DesktopEnv::Wayland), None);
    assert_eq!(
        deps_install_hint(DesktopEnv::Wayland),
        "sudo apt install ffmpeg wl-clipboard wtype"
    );
    assert_eq!(require_tool("wtype", None).argv, vec!["which", "wtype"]);
}

#[test]
fn x11_tools_by_their_answers() {
    let yes = completed(true, "");
    let no = completed(false, "");
    let ask = X11Tools::x11_tools_available(&some(":0"));
    assert_eq!(ask.command().unwrap().argv, vec!["which", "xsel"]);
    assert_eq!(ask.next(&yes).next(&yes), X11Tools::Decided(true));
    assert_eq!(ask.next(&yes).next(&no), X11Tools::Decided(false));
    assert_eq!(ask.next(&no).next(&yes).next(&yes), X11Tools::Decided(true));
    assert_eq!(ask.next(&no).next(&no), X11Tools::Decided(false));
    assert_eq!(
        X11Tools::x11_tools_available(&None),
        X11Tools::Decided(false)
    );
    assert_eq!(
        X11Tools::x11_tools_available(&some("")),
        X11Tools::Decided(false)
    );
}

#[test]
fn display_checks_on_x11() {
    let fault = |vars: &EnvVars| {
        check_display_env(DesktopEnv::X11, vars, &None, false)
            .err()
            .map(|e| (e.fault, e.message()))
    };
    assert_eq!(fault(&session(None, None, Some(":0"))), None);
    assert_eq!(
        fault(&session(None, None, None)),
        Some((
            DisplayFault::NoDisplay,
            "DISPLAY is not set. voxtype needs an X11 display.\n\
             Make sure you're running this from within an X session.\n\
             If using Wayland, set backend = \"wayland\" in config.toml."
                .to_string()
        ))
    );
    assert_eq!(
        fault(&session(None, None, Some(""))),
        Some((
            DisplayFault::EmptyDisplay,
            "DISPLAY is set but empty. Check your X11 session.".to_string()
        ))
    );
}

#[test]
fn display_checks_on_wayland() {
    let check = |vars: &EnvVars, dir: &Option<String>, exists: bool| {
        check_display_env(DesktopEnv::Wayland, vars, dir, exists)
            .err()
            .map(|e| (e.fault, e.message()))
    };
    assert_eq!(
        check(&session(None, None, None), &None, true),
        Some((
            DisplayFault::NoWaylandDisplay,
            "WAYLAND_DISPLAY is not set. voxtype needs a Wayland compositor.\n\
             Make sure you're running this from within a Wayland session.\n\
             If using X11, set backend = \"x11\" in config.toml."
                .to_string()
        ))
    );
    assert_eq!(
        check(&session(Some(""), None, None), &None, true).unwrap().0,
        DisplayFault::EmptyWaylandDisplay
    );
    assert_eq!(
        check(&session(Some("wayland-0"), None, None), &None, true),
        Some((
            DisplayFault::NoRuntimeDir,
            "Cannot determine Wayland runtime directory (XDG_RUNTIME_DIR is not set)".to_string()
        ))
    );
    let dir = some("/run/user/1000");
    assert_eq!(
        check(&session(Some("wayland-0"), None, None), &dir, false),
        Some((
            DisplayFault::NoSocket,
            "Wayland socket /run/user/1000/wayland-0 does not exist. Check your compositor."
                .to_string()
        ))
    );
    assert_eq!(
        check(&session(Some("wayland-0"), None, None), &dir, true),
        None
    );
}

#[test]
fn wayland_socket_paths() {
    let mut vars = session(Some("wayland-0"), None, None);
    assert_eq!(wayland_socket(&vars, &None), None);
    vars.xdg_runtime_dir = some("");
    assert_eq!(
        wayland_socket(&vars, &some("/run/user/7/")),
        some("/run/user/7/wayland-0")
    );
    vars.xdg_runtime_dir = some("/tmp/run");
    assert_eq!(
        wayland_socket(&vars, &some("/run/user/7")),
        some("/tmp/run/wayland-0")
    );
    vars.wayland_display = some("/abs/wl");
    assert_eq!(wayland_socket(&vars, &None), some("/abs/wl"));
}
