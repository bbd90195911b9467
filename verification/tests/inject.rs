use voxtype::clipboard::{
    clipboard_contains, clipboard_set, ClipFault, ClipTool, ClipboardError, Seeding, VerifiedCopy,
};
use voxtype::command::{Action, CommandOutcome, CommandOutput, CommandSpec, Event, Input};
use voxtype::environment::{DesktopEnv, DisplayError, DisplayFault, EnvVars, WaylandCompositor};
use voxtype::focus::FocusClass;
use voxtype::inject::{InjectError, Injection, Session};
use voxtype::paste::{EditorSearch, WtypePaste};
use voxtype::x11::{parse_wm_class, EditorProbe, TerminalProbe};

type Machine = Injection<String, WtypePaste>;

fn ran(success: bool, stdout: &str) -> CommandOutcome {
    CommandOutcome::Completed(CommandOutput {
        success,
        status: if success {
            "exit status: 0".to_string()
        } else {
            "exit status: 1".to_string()
        },
        stdout: stdout.as_bytes().to_vec(),
        stderr: Vec::new(),
    })
}

fn failed(why: &str) -> CommandOutcome {
    CommandOutcome::Failed(why.to_string())
}

fn session(compositor: WaylandCompositor, display: Option<&str>) -> Session {
    Session {
        compositor,
        display: display.map(String::from),
    }
}

/// Runs an injection with a shell that answers each command, and gives back
/// the commands, the time they may have taken, and the result.
fn inject(
    start: Machine,
    session: &Session,
    text: &str,
    shell: &dyn Fn(&CommandSpec) -> CommandOutcome,
) -> (Vec<String>, u64, Result<(), InjectError>) {
    let mut state = start;
    let mut log = Vec::new();
    let mut time = 0;
    loop {
        match state.action(session, text) {
            Action::Run(c) => {
                time += c.limit_ms.unwrap();
                if let Input::Text(input) = &c.input {
                    assert_eq!(input, text);
                }
                log.push(c.argv.join(" "));
                let o = shell(&c);
                state = state.next(session, text, Event::Ran(o));
            }
            Action::Sleep(ms) => {
                time += ms;
                log.push(format!("sleep {}", ms));
                state = state.next(session, text, Event::Slept);
            }
            Action::Done => break,
        }
    }
    match state {
        Injection::Done(r) => (log, time, r),
        other => panic!("stopped in {:?}", other),
    }
}

const TERM_KEYS: &str = "wtype -M ctrl -M shift -k v -m ctrl -m shift";
const GUI_KEYS: &str = "wtype -M ctrl -k v -m ctrl";

#[test]
fn x11_terminal_gets_its_shortcut() {
    let s = session(WaylandCompositor::Other, Some(":0"));
    let start: Machine = Injection::X11(voxtype::inject::X11Injection::inject_text_x11());
    let (log, _, r) = inject(start, &s, "hello", &|c| match c.argv[0].as_str() {
        "xdotool" if c.argv[1] == "getactivewindow" => ran(true, "4711\n"),
        "xprop" => ran(true, "WM_CLASS(STRING) = \"kitty\", \"kitty\"\n"),
        _ => ran(true, ""),
    });
    assert!(r.is_ok());
    assert_eq!(
        log,
        vec![
            "xsel --clipboard --input",
            "sleep 50",
            "xdotool getactivewindow",
            "xprop -id 4711 WM_CLASS",
            "xdotool getactivewindow",
            "xprop -id 4711 WM_CLASS",
            "which xdotool",
            "xdotool key ctrl+shift+v",
        ]
    );
}

#[test]
fn x11_editor_gets_no_key() {
    let s = session(WaylandCompositor::Other, Some(":0"));
    let start: Machine = Injection::X11(voxtype::inject::X11Injection::inject_text_x11());
    let (log, _, r) = inject(start, &s, "hello", &|c| match c.argv[0].as_str() {
        "xsel" => failed("not found"),
        "xdotool" => ran(true, "7"),
        "xprop" => ran(true, "WM_CLASS(STRING) = \"code\", \"Code\"\n"),
        _ => ran(true, ""),
    });
    assert!(r.is_ok());
    assert_eq!(log[0], "xsel --clipboard --input");
    assert_eq!(log[1], "xclip -selection clipboard");
    assert_eq!(log.last().unwrap(), "xprop -id 7 WM_CLASS");
}

#[test]
fn x11_errors() {
    let s = session(WaylandCompositor::Other, Some(":0"));
    let x11 = || -> Machine { Injection::X11(voxtype::inject::X11Injection::inject_text_x11()) };
    let (log, _, r) = inject(x11(), &s, "t", &|_| failed("gone"));
    assert_eq!(log.len(), 2);
    assert_eq!(
        r.unwrap_err().message(),
        "Both xsel and xclip failed to set clipboard. Install: sudo apt install xsel xclip"
    );
    let (_, _, r) = inject(x11(), &s, "t", &|c| match c.argv[0].as_str() {
        "xdotool" if c.argv[1] == "key" => ran(false, ""),
        _ => ran(true, ""),
    });
    assert_eq!(
        r.unwrap_err().message(),
        "xdotool key ctrl+v failed (exit status: 1). Clipboard is set (manual paste). Is DISPLAY set correctly?"
    );
    let (_, _, r) = inject(x11(), &s, "t", &|c| match c.argv[0].as_str() {
        "xdotool" if c.argv[1] == "key" => CommandOutcome::TimedOut,
        _ => ran(true, ""),
    });
    assert_eq!(
        r.unwrap_err().message(),
        "xdotool key ctrl+v timed out. Clipboard is set (manual paste)."
    );
    let (_, _, r) = inject(x11(), &s, "t", &|c| match c.argv[0].as_str() {
        "xdotool" if c.argv[1] == "key" => failed("no exec"),
        _ => ran(true, ""),
    });
    assert_eq!(
        r.unwrap_err().message(),
        "xdotool key ctrl+v failed (no exec). Clipboard is set (manual paste)."
    );
    // Without the keystroke tool the clipboard has to do.
    let (_, _, r) = inject(x11(), &s, "t", &|c| match c.argv[0].as_str() {
        "which" => ran(false, ""),
        _ => ran(true, ""),
    });
    assert!(r.is_ok());
}

#[test]
fn wayland_browser_gets_one_shortcut() {
    let s = session(WaylandCompositor::Sway, None);
    let (log, _, r) = inject(
        Injection::inject_text_wayland(&s),
        &s,
        "hello",
        &|c| match c.argv[0].as_str() {
            "swaymsg" => ran(
                true,
                r#"{"nodes":[{"focused":true,"app_id":"firefox"}]}"#,
            ),
            "wl-paste" => ran(true, "hello\n"),
            "pgrep" => ran(false, ""),
            _ => ran(true, ""),
        },
    );
    assert!(r.is_ok());
    assert_eq!(
        log,
        vec![
            "swaymsg -t get_tree",
            "which wl-copy",
            "wl-copy",
            "wl-paste",
            "pgrep -x code",
            "pgrep -x code-oss",
            "pgrep -x codium",
            "which wtype",
            GUI_KEYS,
        ]
    );
}

#[test]
fn wayland_ide_gets_no_key() {
    let s = session(WaylandCompositor::Hyprland, None);
    let (log, _, r) = inject(
        Injection::inject_text_wayland(&s),
        &s,
        "hello",
        &|c| match c.argv[0].as_str() {
            "hyprctl" => ran(true, r#"{"class":"zed","xwayland":false}"#),
            "wl-paste" => ran(true, "hello"),
            _ => ran(true, ""),
        },
    );
    assert!(r.is_ok());
    assert_eq!(
        log,
        vec!["hyprctl activewindow -j", "which wl-copy", "wl-copy", "wl-paste"]
    );
}

#[test]
fn unknown_window_gets_both_shortcuts_and_both_clipboards() {
    let s = session(WaylandCompositor::Gnome, Some(":0"));
    let (log, _, r) = inject(
        Injection::inject_text_wayland(&s),
        &s,
        "hello",
        &|c| match c.argv[0].as_str() {
            "wl-paste" => ran(true, "hello"),
            "pgrep" => ran(false, ""),
            "xsel" => ran(false, ""),
            "wtype" => ran(false, ""),
            _ => ran(true, ""),
        },
    );
    assert!(r.is_ok());
    assert_eq!(
        log,
        vec![
            "which wl-copy",
            "wl-copy",
            "wl-paste",
            "which xsel",
            "xsel --clipboard --input",
            "which xclip",
            "xclip -selection clipboard",
            "pgrep -x code",
            "pgrep -x code-oss",
            "pgrep -x codium",
            "which wtype",
            GUI_KEYS,
            "sleep 80",
            GUI_KEYS,
            TERM_KEYS,
            "sleep 80",
            TERM_KEYS,
        ]
    );
}

#[test]
fn xwayland_window_goes_through_x11() {
    let s = session(WaylandCompositor::Sway, Some(":1"));
    let tree = r#"{"nodes":[{"focused":true,"window_properties":{"class":"xterm"}}]}"#;
    let (log, _, r) = inject(
        Injection::inject_text_wayland(&s),
        &s,
        "hello",
        &|c| match c.argv[0].as_str() {
            "swaymsg" => ran(true, tree),
            "xdotool" if c.argv[1] == "getactivewindow" => ran(true, "9"),
            "xprop" => ran(true, "WM_CLASS(STRING) = \"xterm\", \"XTerm\""),
            _ => ran(true, ""),
        },
    );
    assert!(r.is_ok());
    assert_eq!(log[1], "which xsel");
    assert_eq!(log[2], "which xdotool");
    assert_eq!(log[3], "xsel --clipboard --input");
    assert_eq!(log.last().unwrap(), "xdotool key ctrl+shift+v");
    assert!(!log.iter().any(|c| c.starts_with("wl-copy")));

    // Without X11 tools the Wayland path is taken.
    let (log, _, r) = inject(
        Injection::inject_text_wayland(&s),
        &s,
        "hello",
        &|c| match c.argv[0].as_str() {
            "swaymsg" => ran(true, tree),
            "which" if c.argv[1].starts_with('x') => ran(false, ""),
            "wl-paste" => ran(true, "hello"),
            "pgrep" => ran(false, ""),
            _ => ran(true, ""),
        },
    );
    assert!(r.is_ok());
    assert_eq!(log.last().unwrap(), TERM_KEYS);
}

#[test]
fn missing_wl_copy() {
    let s = session(WaylandCompositor::Kde, None);
    let (log, _, r) = inject(Injection::inject_text_wayland(&s), &s, "t", &|_| {
        ran(false, "")
    });
    assert_eq!(log, vec!["which wl-copy"]);
    assert_eq!(
        r.unwrap_err().message(),
        "wl-copy not found. Install: sudo apt install wl-clipboard"
    );
    let s = session(WaylandCompositor::Kde, Some(":0"));
    let (log, _, r) = inject(
        Injection::inject_text_wayland(&s),
        &s,
        "t",
        &|c| match c.argv.join(" ").as_str() {
            "which wl-copy" => ran(false, ""),
            _ => ran(true, ""),
        },
    );
    assert!(r.is_ok());
    assert!(log.contains(&"xsel --clipboard --input".to_string()));
}

#[test]
fn a_refused_wayland_clipboard_is_an_error() {
    let s = session(WaylandCompositor::Kde, None);
    let (_, _, r) = inject(
        Injection::inject_text_wayland(&s),
        &s,
        "t",
        &|c| match c.argv[0].as_str() {
            "wl-copy" => CommandOutcome::TimedOut,
            _ => ran(true, ""),
        },
    );
    assert_eq!(
        r.unwrap_err().message(),
        "wl-copy timed out after 3000 ms"
    );
}

#[test]
fn wedged_tools_cannot_block_injection() {
    for compositor in [
        WaylandCompositor::Sway,
        WaylandCompositor::Hyprland,
        WaylandCompositor::Kde,
        WaylandCompositor::Gnome,
        WaylandCompositor::Other,
    ] {
        for display in [None, Some(":0")] {
            let s = session(compositor, display);
            let (_, time, _) = inject(Injection::inject_text_wayland(&s), &s, "t", &|_| {
                CommandOutcome::TimedOut
            });
            assert!(time < 35_000);
            // Only wtype hangs.
            let (log, time, r) = inject(
                Injection::inject_text_wayland(&s),
                &s,
                "t",
                &|c| match c.argv[0].as_str() {
                    "wtype" => CommandOutcome::TimedOut,
                    "pgrep" => ran(false, ""),
                    "wl-paste" => ran(true, "t"),
                    _ => ran(true, "{}"),
                },
            );
            assert!(r.is_ok());
            assert!(time < 35_000);
            assert_eq!(log.iter().filter(|c| c.starts_with("wtype")).count(), 2);
        }
    }
}

#[test]
fn the_display_is_checked_first() {
    let vars = EnvVars {
        wayland_display: None,
        xdg_session_type: None,
        display: None,
        xdg_current_desktop: Some("GNOME".to_string()),
        xdg_runtime_dir: None,
    };
    let (state, s) = Injection::inject_text(DesktopEnv::X11, &vars, &None, false);
    assert_eq!(s.compositor, WaylandCompositor::Gnome);
    match state {
        Injection::Done(Err(InjectError::Display(DisplayError { fault, socket }))) => {
            assert_eq!(fault, DisplayFault::NoDisplay);
            assert_eq!(socket, None);
        }
        other => panic!("unexpected {:?}", other),
    }
    let vars = EnvVars {
        wayland_display: Some("/run/wl".to_string()),
        ..vars
    };
    let (state, s) = Injection::inject_text(DesktopEnv::Wayland, &vars, &None, true);
    let (log, _, _) = inject(state, &s, "t", &|_| failed("x"));
    assert_eq!(log, vec!["which wl-copy"]);
    let (state, _) = Injection::inject_text(DesktopEnv::Wayland, &vars, &None, false);
    match state {
        Injection::Done(Err(e)) => assert_eq!(
            e.message(),
            "Wayland socket /run/wl does not exist. Check your compositor."
        ),
        other => panic!("unexpected {:?}", other),
    }
}

#[test]
fn clipboard_is_set_three_times_at_most() {
    let mut c = VerifiedCopy::set_clipboard_wl_copy_verified();
    let mut log = Vec::new();
    while let Action::Run(cmd) = c.action("x") {
        log.push(cmd.argv.join(" "));
        c = c.next("x", Event::Ran(ran(true, "other")));
    }
    assert_eq!(
        log,
        vec!["wl-copy", "wl-paste", "wl-copy", "wl-paste", "wl-copy"]
    );
    assert!(matches!(c, VerifiedCopy::Done(Ok(()))));
}

#[test]
fn clipboard_read_back() {
    assert!(clipboard_contains("hello", &ran(true, "hello\n")));
    assert!(clipboard_contains("hello\n", &ran(true, "hello")));
    // Blanks belong to the text; only line feeds at its end do not count.
    assert!(clipboard_contains(" hello", &ran(true, " hello\n")));
    assert!(clipboard_contains("\thello  ", &ran(true, "\thello  \n")));
    assert!(!clipboard_contains("hello", &ran(true, "  hello \n")));
    assert!(!clipboard_contains(" hello", &ran(true, "hello\n")));
    assert!(!clipboard_contains("hello", &ran(false, "hello")));
    assert!(!clipboard_contains("hello", &CommandOutcome::TimedOut));
    // Bytes that are no text are not what was put there.
    let bytes = CommandOutcome::Completed(CommandOutput {
        success: true,
        status: String::new(),
        stdout: vec![b'a', 0xff, b'b'],
        stderr: Vec::new(),
    });
    assert!(clipboard_contains("a\u{fffd}b", &bytes));
    assert!(!clipboard_contains("ab", &bytes));
}

#[test]
fn clipboard_error_messages() {
    let e = clipboard_set(ClipTool::WlCopy, ran(false, "")).unwrap_err();
    assert_eq!(e.message(), "wl-copy exited with exit status: 1");
    let e = clipboard_set(ClipTool::WlCopy, failed("enoent")).unwrap_err();
    assert_eq!(
        e.message(),
        "wl-copy not found: enoent. Install: sudo apt install wl-clipboard"
    );
    let e = clipboard_set(ClipTool::Xsel, ran(false, "")).unwrap_err();
    assert_eq!(
        e.message(),
        "xsel exited with exit status: 1. Install: sudo apt install xsel"
    );
    let e = ClipboardError {
        tool: ClipTool::Xclip,
        fault: ClipFault::TimedOut,
    };
    assert_eq!(e.message(), "xclip timed out after 3000 ms");
    let e = clipboard_set(ClipTool::Xclip, failed("enoent")).unwrap_err();
    assert_eq!(
        e.message(),
        "xclip not found: enoent. Install: sudo apt install xclip"
    );
    assert!(clipboard_set(ClipTool::Xclip, ran(true, "")).is_ok());
}

#[test]
fn seeding_is_for_unknown_windows() {
    let display = Some(":0".to_string());
    assert_eq!(
        Seeding::maybe_set_x_clipboard(Some(FocusClass::Browser), &display),
        Seeding::Done(false)
    );
    assert_eq!(
        Seeding::maybe_set_x_clipboard(None, &None),
        Seeding::Done(false)
    );
    let s = Seeding::maybe_set_x_clipboard(Some(FocusClass::Generic), &display);
    assert_eq!(s, Seeding::AskXsel);
    let s = s.next(&Event::Ran(ran(true, "")));
    assert_eq!(s, Seeding::SetXsel);
    assert_eq!(s.next(&Event::Ran(ran(true, ""))), Seeding::Done(true));
}

#[test]
fn delivered_keys_are_not_repeated() {
    let mut p = WtypePaste::paste_with_wtype(None, WaylandCompositor::Sway);
    let mut pressed = Vec::new();
    let mut replies = vec![ran(false, ""), ran(true, "")].into_iter();
    loop {
        match p.action() {
            Action::Run(c) => {
                assert_eq!(c.limit_ms, Some(2500));
                pressed.push(c.argv.join(" "));
                p = p.next(&Event::Ran(replies.next().unwrap()));
            }
            Action::Sleep(ms) => {
                assert_eq!(ms, 80);
                p = p.next(&Event::Slept);
            }
            Action::Done => break,
        }
    }
    assert_eq!(pressed, vec![TERM_KEYS, TERM_KEYS]);
    assert!(p.delivered());
}

#[test]
fn terminals_by_process() {
    let p = TerminalProbe::is_terminal_window().next(&ran(true, " 77 \n"));
    assert_eq!(
        p.command().unwrap().argv,
        vec!["xprop", "-id", "77", "WM_CLASS"]
    );
    let p = p.next(&ran(true, "WM_CLASS:  not found."));
    assert_eq!(
        p.command().unwrap().argv,
        vec!["xdotool", "getactivewindow", "getwindowpid"]
    );
    let p = p.next(&ran(true, "4242\n"));
    assert_eq!(
        p.command().unwrap().argv,
        vec!["ps", "-p", "4242", "-o", "comm="]
    );
    assert!(matches!(
        p.next(&ran(true, "Konsole\n")),
        TerminalProbe::Decided(true)
    ));
    let bad = TerminalProbe::is_terminal_window()
        .next(&ran(true, "77"))
        .next(&CommandOutcome::TimedOut)
        .next(&ran(true, "99999999999"));
    assert!(matches!(bad, TerminalProbe::Decided(false)));
    assert!(matches!(
        TerminalProbe::is_terminal_window().next(&ran(true, "\n")),
        TerminalProbe::Decided(false)
    ));
}

#[test]
fn editors_by_window_and_by_process() {
    let p = EditorProbe::is_vscode_window_x11().next(&ran(true, "5"));
    assert!(matches!(
        p.next(&ran(true, "WM_CLASS(STRING) = \"x\", \"VSCodium\"")),
        EditorProbe::Decided(true)
    ));
    let p = EditorProbe::is_vscode_window_x11().next(&ran(true, "5"));
    assert!(matches!(
        p.next(&ran(true, "WM_CLASS(STRING) = \"zed\"")),
        EditorProbe::Decided(false)
    ));
    let s = EditorSearch::is_vscode_running();
    assert_eq!(s.command().unwrap().argv, vec!["pgrep", "-x", "code"]);
    assert_eq!(s.next(&ran(true, "1")), EditorSearch::Decided(true));
    let last = s.next(&ran(false, "")).next(&failed("x"));
    assert_eq!(last.command().unwrap().argv, vec!["pgrep", "-x", "codium"]);
    assert_eq!(last.next(&ran(false, "")), EditorSearch::Decided(false));
}

#[test]
fn odd_window_classes() {
    assert_eq!(parse_wm_class("\"\""), None);
    assert_eq!(parse_wm_class("a\"b"), Some("a".to_string()));
    assert_eq!(parse_wm_class("\" X \" tail"), Some("x".to_string()));
    assert_eq!(parse_wm_class("\"a\" \" \""), None);
    assert_eq!(parse_wm_class("\"ÄÖ\""), Some("äö".to_string()));
}
