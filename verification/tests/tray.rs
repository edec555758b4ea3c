use groket_hud::tray::{
    action_from_click, action_from_menu_id, action_from_notify, check_icon, decode_tray_rgba,
    env_flag_enabled, menu, rgba_to_argb, tray_pixmap, TrayAction, TrayButton, TrayClickState,
    TrayError, MENU_QUIT_ID, MENU_QUIT_LABEL, MENU_SHOW_ID, MENU_SHOW_LABEL, SHOW_NOTIFY,
};

#[test]
fn menu_ids_route_show_and_quit() {
    assert_eq!(action_from_menu_id(MENU_SHOW_ID), Some(TrayAction::Show));
    assert_eq!(action_from_menu_id(MENU_QUIT_ID), Some(TrayAction::Quit));
    assert_eq!(action_from_menu_id("other"), None);
}

#[test]
fn left_click_release_shows() {
    assert_eq!(
        action_from_click(TrayButton::Left, TrayClickState::Up),
        Some(TrayAction::Show)
    );
    assert_eq!(
        action_from_click(TrayButton::Left, TrayClickState::Down),
        None
    );
    assert_eq!(
        action_from_click(TrayButton::Right, TrayClickState::Up),
        None
    );
}

#[test]
fn hud_show_notify_shows() {
    assert_eq!(action_from_notify(SHOW_NOTIFY), Some(TrayAction::Show));
    assert_eq!(action_from_notify("session/changed"), None);
    assert_eq!(action_from_notify("hud/hide"), None);
}

#[test]
fn show_on_start_flag_parses() {
    assert!(env_flag_enabled(Some("1")));
    assert!(env_flag_enabled(Some("true")));
    assert!(env_flag_enabled(Some("YES")));
    assert!(!env_flag_enabled(Some("0")));
    assert!(!env_flag_enabled(Some("")));
    assert!(!env_flag_enabled(None));
}

#[test]
fn rgba_to_argb_rotates_channels() {
    let argb = rgba_to_argb(&[0x11, 0x22, 0x33, 0x44]);
    assert_eq!(argb, vec![0x44, 0x11, 0x22, 0x33]);
}

#[test]
fn only_whole_pixels_are_turned() {
    assert_eq!(rgba_to_argb(&[]), Vec::<u8>::new());
    assert_eq!(rgba_to_argb(&[1, 2, 3]), vec![1, 2, 3]);
    assert_eq!(
        rgba_to_argb(&[1, 2, 3, 4, 5, 6, 7, 8, 9]),
        vec![4, 1, 2, 3, 8, 5, 6, 7, 9]
    );
}

#[test]
fn four_turns_restore_a_picture() {
    let picture = vec![1, 2, 3, 4, 5, 6, 7, 8];
    let turned = (0..4).fold(picture.clone(), |p, _| rgba_to_argb(&p));
    assert_eq!(turned, picture);
}

#[test]
fn the_menu_shows_then_quits() {
    let entries = menu();
    assert_eq!(entries.len(), 2);
    assert_eq!((entries[0].id, entries[0].label), (MENU_SHOW_ID, MENU_SHOW_LABEL));
    assert_eq!((entries[1].id, entries[1].label), (MENU_QUIT_ID, MENU_QUIT_LABEL));
    for entry in &entries {
        assert_eq!(action_from_menu_id(entry.id), Some(entry.action));
    }
}

#[test]
fn an_icon_has_four_bytes_for_each_pixel() {
    let (rgba, width, height) = check_icon(vec![7; 24], 2, 3).expect("usable");
    assert_eq!((rgba.len(), width, height), (24, 2, 3));
    assert!(matches!(check_icon(vec![], 0, 3), Err(TrayError::BadIcon)));
    assert!(matches!(check_icon(vec![], 3, 0), Err(TrayError::BadIcon)));
    assert!(matches!(check_icon(vec![7; 23], 2, 3), Err(TrayError::BadIcon)));
}

#[test]
fn a_pixmap_has_sides_that_the_host_can_hold() {
    let (width, height, argb) = tray_pixmap(&[1, 2, 3, 4], 1, 1).expect("pixmap");
    assert_eq!((width, height, argb), (1, 1, vec![4, 1, 2, 3]));
    assert!(tray_pixmap(&[], 0x7fff_ffff, 0x7fff_ffff).is_ok());
    assert!(matches!(tray_pixmap(&[], 0x8000_0000, 1), Err(TrayError::BadIcon)));
    assert!(matches!(tray_pixmap(&[], 1, 0x8000_0000), Err(TrayError::BadIcon)));
}

/// A PNG of one row: an opaque red pixel and a half transparent blue one.
const TWO_PIXELS: [u8; 77] = [
    0x89, 0x50, 0x4e, 0x47, 0x0d, 0x0a, 0x1a, 0x0a, 0x00, 0x00, 0x00, 0x0d, 0x49, 0x48, 0x44,
    0x52, 0x00, 0x00, 0x00, 0x02, 0x00, 0x00, 0x00, 0x01, 0x08, 0x06, 0x00, 0x00, 0x00, 0xf4,
    0x22, 0x7f, 0x8a, 0x00, 0x00, 0x00, 0x14, 0x49, 0x44, 0x41, 0x54, 0x78, 0x01, 0x01, 0x09,
    0x00, 0xf6, 0xff, 0x00, 0xff, 0x00, 0x00, 0xff, 0x00, 0x00, 0xff, 0x80, 0x0f, 0x7a, 0x03,
    0x7e, 0x4a, 0x6e, 0x70, 0x0c, 0x00, 0x00, 0x00, 0x00, 0x49, 0x45, 0x4e, 0x44, 0xae, 0x42,
    0x60, 0x82,
];

#[test]
fn a_picture_file_is_decoded() {
    let (rgba, width, height) = decode_tray_rgba(&TWO_PIXELS).expect("picture");
    assert_eq!((width, height), (2, 1));
    assert_eq!(rgba, vec![255, 0, 0, 255, 0, 0, 255, 128]);
}

#[test]
fn other_bytes_are_no_picture() {
    assert!(matches!(decode_tray_rgba(b"not a picture"), Err(TrayError::BadIcon)));
    assert!(matches!(decode_tray_rgba(&[]), Err(TrayError::BadIcon)));
}

#[test]
fn tray_errors_have_their_text() {
    assert_eq!(TrayError::BadIcon.to_text(), "embedded tray icon is not a usable PNG");
    assert_eq!(TrayError::Host("no host".into()).to_text(), "no host");
}
