use voxtype::clipboard::clipboard_matches;
use voxtype::environment::WaylandCompositor;
use voxtype::focus::{FocusClass, FocusTarget};
use voxtype::paste::{paste_keys_for, paste_keys_for_target};
use voxtype::recording::audio_too_large;
use voxtype::x11::parse_wm_class;

#[test]
fn wm_class_parsing() {
    assert_eq!(
        parse_wm_class(r#"WM_CLASS(STRING) = "alacritty", "Alacritty""#),
        Some("alacritty".to_string())
    );
    assert_eq!(parse_wm_class(""), None);
    assert_eq!(parse_wm_class("WM_CLASS(STRING) = "), None);
    assert_eq!(
        parse_wm_class(r#"WM_CLASS(STRING) = "code", "Code""#),
        Some("code".to_string())
    );
}

#[test]
fn audio_size_limit() {
    assert!(!audio_too_large(1024));
    assert!(!audio_too_large(20_000_000));
    assert!(audio_too_large(20_000_001));
}

#[test]
fn paste_key_selection() {
    let gnome = paste_keys_for(WaylandCompositor::Gnome);
    // GNOME: plain Ctrl+V first
    assert_eq!(gnome[0], &["-M", "ctrl", "-k", "v", "-m", "ctrl"][..]);
    assert_eq!(gnome[1][3], "shift");

    let sway = paste_keys_for(WaylandCompositor::Sway);
    // Sway: Ctrl+Shift+V first
    assert_eq!(sway[0][3], "shift");
    assert_eq!(sway[1], &["-M", "ctrl", "-k", "v", "-m", "ctrl"][..]);

    assert_eq!(paste_keys_for(WaylandCompositor::Other)[0][3], "shift");
}

#[test]
fn paste_keys_for_known_targets() {
    let term = FocusTarget {
        class: FocusClass::Terminal,
        xwayland: false,
        id: Some("alacritty".to_string()),
    };
    let keys = paste_keys_for_target(Some(&term), WaylandCompositor::Sway);
    assert_eq!(keys.len(), 1);
    assert!(keys[0].contains(&"shift"));

    let browser = FocusTarget {
        class: FocusClass::Browser,
        xwayland: false,
        id: Some("google-chrome".to_string()),
    };
    let keys = paste_keys_for_target(Some(&browser), WaylandCompositor::Sway);
    assert_eq!(keys.len(), 1);
    assert!(!keys[0].contains(&"shift"));

    let ide = FocusTarget {
        class: FocusClass::Ide,
        xwayland: false,
        id: Some("code".to_string()),
    };
    assert!(paste_keys_for_target(Some(&ide), WaylandCompositor::Sway).is_empty());

    // Unknown target keeps the compositor-aware fallback chain.
    assert_eq!(
        paste_keys_for_target(None, WaylandCompositor::Sway).len(),
        2
    );
    assert_eq!(
        paste_keys_for_target(None, WaylandCompositor::Gnome).len(),
        2
    );
}

#[test]
fn clipboard_match_comparison() {
    assert!(clipboard_matches("hello", "hello"));
    assert!(clipboard_matches("hello", "hello\n"));
    assert!(clipboard_matches("hello\n", "hello"));
    assert!(!clipboard_matches("hello", "hallo"));
    assert!(!clipboard_matches("hello", ""));
}
