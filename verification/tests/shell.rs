use groket_hud::shell::{
    control_session_list, control_session_timeline, forward_notification, hud_initial_selection,
    selection_of, startup_show_requested, toggle_palette, tray_menu_action, Toggle, TrayAction,
};
use serde_json::Value;

fn parsed(text: &str) -> Value {
    serde_json::from_str(text).expect("JSON")
}

#[test]
fn tray_menu_routes_show_and_quit_without_fallback_actions() {
    assert_eq!(tray_menu_action("show-hud"), TrayAction::Show);
    assert_eq!(tray_menu_action("quit-hud"), TrayAction::Quit);
    assert_eq!(tray_menu_action("unknown"), TrayAction::Ignore);
}

#[test]
fn startup_show_accepts_only_explicit_truthy_values() {
    for raw in ["1", "true", "TRUE", "yes", " Yes "] {
        assert!(startup_show_requested(Some(raw)));
    }
    for raw in ["", "0", "false", "show"] {
        assert!(!startup_show_requested(Some(raw)));
    }
    assert!(!startup_show_requested(None));
}

#[test]
fn the_shortcut_toggles_the_palette() {
    assert_eq!(toggle_palette(Some(true)), Toggle::Hide);
    assert_eq!(toggle_palette(Some(false)), Toggle::Show);
    assert_eq!(toggle_palette(None), Toggle::Show);
}

#[test]
fn commands_fill_in_what_is_left_out() {
    let call = control_session_list(None, None);
    assert_eq!(call.method, "session/list");
    assert_eq!(call.params, parsed(r#"{"limit":80}"#));
    assert_eq!(
        control_session_list(Some("fox".into()), Some(3)).params,
        parsed(r#"{"limit":3,"query":"fox"}"#)
    );
    let call = control_session_timeline("s", None, None);
    assert_eq!(call.method, "session/timeline");
    assert_eq!(
        call.params,
        parsed(r#"{"session":"s","limit":80,"offset":0,"contentChars":12000}"#)
    );
    assert_eq!(
        control_session_timeline("s", Some(9), Some(4)).params,
        parsed(r#"{"session":"s","limit":4,"offset":9,"contentChars":12000}"#)
    );
}

#[test]
fn notifications_are_forwarded() {
    let params = parsed(r#"{"sessionId":"a"}"#);
    let shown = forward_notification("hud/show", &params);
    assert!(shown.show);
    assert_eq!(
        shown.payload,
        parsed(r#"{"method":"hud/show","params":{"sessionId":"a"}}"#)
    );
    assert!(!forward_notification("session/changed", &params).show);
}

#[test]
fn a_selection_is_known_by_the_last_name() {
    let first = selection_of("s/a", Some("a"), Some(" 7"));
    assert_eq!((first.session.as_str(), first.session_id.as_str()), ("s/a", "a"));
    assert_eq!(first.prompt_index, Some(7));
    let first = selection_of("..", None, Some("seven"));
    assert_eq!((first.session.as_str(), first.session_id.as_str()), ("..", ".."));
    assert_eq!(first.prompt_index, None);
}

#[test]
fn the_first_selection_comes_from_the_settings() {
    let first = hud_initial_selection(Some(" /home/u/s/abc/ "), Some(" 12 ")).expect("selection");
    assert_eq!(first.session, "/home/u/s/abc/");
    assert_eq!(first.session_id, "abc");
    assert_eq!(first.prompt_index, Some(12));
    for (session, id) in [
        ("abc", "abc"),
        ("a/b/./", "b"),
        ("a/..", "a/.."),
        ("/", "/"),
        (".", "."),
        ("a/.hidden", ".hidden"),
        ("a//b//", "b"),
        ("./..", "./.."),
        ("a/./.", "a"),
        ("ä/ö", "ö"),
    ] {
        let first = hud_initial_selection(Some(session), None).expect("selection");
        assert_eq!(first.session_id, id);
        let name = std::path::Path::new(session).file_name().and_then(|n| n.to_str());
        assert_eq!(first.session_id, name.unwrap_or(session));
        assert_eq!(first.prompt_index, None);
    }
    for prompt in ["", "x", "-1", "4294967296", "1 2"] {
        let first = hud_initial_selection(Some("a"), Some(prompt)).expect("selection");
        assert_eq!(first.prompt_index, None, "{prompt}");
    }
    let first = hud_initial_selection(Some("a"), Some("+4294967295")).expect("selection");
    assert_eq!(first.prompt_index, Some(4_294_967_295));
    assert!(hud_initial_selection(None, Some("1")).is_none());
    assert!(hud_initial_selection(Some("  "), None).is_none());
}
