use voxtype::command::{CommandOutcome, CommandOutput};
use voxtype::environment::WaylandCompositor;
use voxtype::focus::{
    classify_focus, classify_name, detect_focus_target, find_focused_node, focus_query,
    focus_target_from_node, focused_window_from_hypr, focused_window_from_sway, is_known_terminal,
    FocusClass,
};
use voxtype::json::parse_json;

fn replied(stdout: &str) -> CommandOutcome {
    CommandOutcome::Completed(CommandOutput {
        success: true,
        status: "exit status: 0".to_string(),
        stdout: stdout.as_bytes().to_vec(),
        stderr: Vec::new(),
    })
}

#[test]
fn terminal_classification() {
    assert!(is_known_terminal("alacritty"));
    assert!(is_known_terminal("ghostty"));
    assert!(is_known_terminal("st"));
    assert!(is_known_terminal("xterm"));
    assert!(!is_known_terminal("firefox"));
    assert!(!is_known_terminal(""));
}

#[test]
fn focus_classification() {
    assert_eq!(classify_focus("google-chrome"), FocusClass::Browser);
    assert_eq!(classify_focus("chromium"), FocusClass::Browser);
    assert_eq!(classify_focus("firefox"), FocusClass::Browser);
    assert_eq!(classify_focus("Alacritty"), FocusClass::Terminal);
    assert_eq!(classify_focus("alacritty"), FocusClass::Terminal);
    assert_eq!(classify_focus("foot"), FocusClass::Terminal);
    assert_eq!(classify_focus("code"), FocusClass::Ide);
    assert_eq!(classify_focus("pycharm"), FocusClass::Ide);
    assert_eq!(classify_focus("gimp"), FocusClass::Generic);
    assert_eq!(classify_focus(""), FocusClass::Generic);
}

#[test]
fn sway_focus_parsing() {
    // Native Wayland window: app_id present, no window_properties.
    let tree = parse_json(
        r#"{
                "nodes": [{
                    "nodes": [{
                        "focused": true,
                        "app_id": "google-chrome",
                        "name": "ChatGPT - Google Chrome"
                    }]
                }]
            }"#,
    )
    .unwrap();
    let node = find_focused_node(&tree).unwrap();
    let target = focus_target_from_node(node).unwrap();
    assert_eq!(target.class, FocusClass::Browser);
    assert!(!target.xwayland);
    assert_eq!(target.id.as_deref(), Some("google-chrome"));

    // XWayland window: window_properties instead of app_id.
    let tree = parse_json(
        r#"{
                "nodes": [{
                    "focused": true,
                    "window_properties": { "class": "alacritty", "instance": "alacritty" }
                }]
            }"#,
    )
    .unwrap();
    let target = focus_target_from_node(find_focused_node(&tree).unwrap()).unwrap();
    assert_eq!(target.class, FocusClass::Terminal);
    assert!(target.xwayland);
    assert_eq!(target.id.as_deref(), Some("alacritty"));

    // No focused node at all.
    let tree = parse_json(r#"{"nodes": []}"#).unwrap();
    assert!(find_focused_node(&tree).is_none());
}

#[test]
fn identifiers_are_trimmed_and_lowered() {
    assert_eq!(classify_focus("  KITTY\n"), FocusClass::Terminal);
    assert_eq!(classify_focus("Sublime_Text"), FocusClass::Ide);
    assert_eq!(classify_name("KITTY"), FocusClass::Generic);
    assert_eq!(classify_name("zen"), FocusClass::Browser);
    // The Kelvin sign is a lower-case k in lower case.
    assert_eq!(classify_focus("\u{212a}itty"), FocusClass::Terminal);
}

#[test]
fn the_first_focused_node_counts() {
    let tree = parse_json(
        r#"{"focused": false,
            "floating_nodes": [{"focused": true, "app_id": "floating"}],
            "nodes": [{"nodes": [], "app_id": "x"},
                      {"floating_nodes": [{"focused": true, "app_id": "deep"}],
                       "nodes": "none"},
                      {"focused": true, "app_id": "late"}]}"#,
    )
    .unwrap();
    let node = find_focused_node(&tree).unwrap();
    assert_eq!(
        focus_target_from_node(node).unwrap().id.as_deref(),
        Some("deep")
    );
    // Only the value true counts.
    let tree = parse_json(r#"{"focused": "true", "nodes": [{"focused": 1}]}"#).unwrap();
    assert!(find_focused_node(&tree).is_none());
}

#[test]
fn windows_without_identifier_are_generic() {
    let node = parse_json(r#"{"focused": true, "app_id": "", "window_properties": {"class": "kitty"}}"#)
        .unwrap();
    let target = focus_target_from_node(&node).unwrap();
    assert_eq!(target.class, FocusClass::Generic);
    assert!(target.xwayland);
    assert_eq!(target.id, None);
}

#[test]
fn compositors_are_asked_for_the_focus() {
    let sway = focus_query(WaylandCompositor::Sway).unwrap();
    assert_eq!(sway.argv, vec!["swaymsg", "-t", "get_tree"]);
    assert_eq!(sway.limit_ms, Some(800));
    assert!(sway.capture);
    let hypr = focus_query(WaylandCompositor::Hyprland).unwrap();
    assert_eq!(hypr.argv, vec!["hyprctl", "activewindow", "-j"]);
    assert!(focus_query(WaylandCompositor::Gnome).is_none());
    assert!(focus_query(WaylandCompositor::Kde).is_none());
    assert!(focus_query(WaylandCompositor::Other).is_none());
}

#[test]
fn replies_of_compositors() {
    let sway = replied(r#"{"nodes":[{"focused":true,"app_id":"foot"}]}"#);
    let target = focused_window_from_sway(&sway).unwrap();
    assert_eq!(target.class, FocusClass::Terminal);
    assert_eq!(target.id.as_deref(), Some("foot"));
    assert!(detect_focus_target(WaylandCompositor::Kde, &sway).is_none());
    assert!(detect_focus_target(WaylandCompositor::Sway, &sway).is_some());

    let hypr = replied(r#"{"class":"Firefox","xwayland":true}"#);
    let target = focused_window_from_hypr(&hypr).unwrap();
    assert_eq!(target.class, FocusClass::Browser);
    assert!(target.xwayland);
    assert_eq!(target.id.as_deref(), Some("Firefox"));
    let bare = focused_window_from_hypr(&replied("{}")).unwrap();
    assert_eq!(bare.class, FocusClass::Generic);
    assert!(!bare.xwayland);
    assert_eq!(bare.id, None);

    assert!(focused_window_from_hypr(&replied("not json")).is_none());
    assert!(focused_window_from_sway(&CommandOutcome::TimedOut).is_none());
    let failed = CommandOutcome::Completed(CommandOutput {
        success: false,
        status: "exit status: 1".to_string(),
        stdout: b"{}".to_vec(),
        stderr: Vec::new(),
    });
    assert!(focused_window_from_hypr(&failed).is_none());
}
