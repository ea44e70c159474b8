use stay_awake::dispatch::{
    handle_message, quit_label, OsCall, WindowMessage, CMD_MENU_QUIT, EXIT_CODE_OK, VK_F15_CODE,
    WM_COMMAND_MSG, WM_CONTEXTMENU_MSG, WM_TIMER_MSG, WM_TRAY_CALLBACK,
};

fn msg(msg: u32, w_param: usize, l_param: usize) -> WindowMessage {
    WindowMessage { msg, w_param, l_param }
}

#[test]
fn timer_tick_injects_one_keypress() {
    let (calls, quit) = handle_message(&msg(WM_TIMER_MSG, 7, 9));
    assert_eq!(calls, vec![OsCall::InjectKeyPress { virtual_key: VK_F15_CODE }]);
    assert!(!quit);
}

#[test]
fn injected_key_is_f15() {
    assert_eq!(VK_F15_CODE, 0x7E);
}

#[test]
fn quit_command_posts_quit() {
    let (calls, quit) = handle_message(&msg(WM_COMMAND_MSG, CMD_MENU_QUIT, 0));
    assert_eq!(calls, vec![OsCall::PostQuit { exit_code: EXIT_CODE_OK }]);
    assert_eq!(EXIT_CODE_OK, 0);
    assert!(quit);
}

#[test]
fn other_command_does_nothing() {
    let (calls, quit) = handle_message(&msg(WM_COMMAND_MSG, 2, 0));
    assert!(calls.is_empty());
    assert!(!quit);
}

#[test]
fn tray_context_menu_opens_popup_at_cursor() {
    // Cursor at x = 40, y = 25, packed into the low two words.
    let packed: usize = (25 << 16) | 40;
    let (calls, quit) = handle_message(&msg(WM_TRAY_CALLBACK, packed, WM_CONTEXTMENU_MSG as usize));
    assert_eq!(
        calls,
        vec![
            OsCall::CreatePopupMenu,
            OsCall::SetForegroundWindow,
            OsCall::AppendMenuItem { command: CMD_MENU_QUIT },
            OsCall::TrackMenu { x: 40, y: 25 },
            OsCall::DestroyMenu,
            OsCall::PostNullMessage,
        ]
    );
    assert!(!quit);
}

#[test]
fn tray_context_menu_decodes_negative_coordinates() {
    // A monitor left of the primary one: x = -1, y = 25.
    let packed: usize = (25 << 16) | 0xFFFF;
    let (calls, _) = handle_message(&msg(WM_TRAY_CALLBACK, packed, WM_CONTEXTMENU_MSG as usize));
    assert_eq!(calls[3], OsCall::TrackMenu { x: -1, y: 25 });
}

#[test]
fn tray_context_menu_reads_only_the_sub_event_code() {
    // Version-4 semantics: the sub-event code is the low word of the
    // parameter; the high bits carry the icon identifier. A nonzero
    // icon id must not hide the gesture.
    let event = (101usize << 16) | WM_CONTEXTMENU_MSG as usize;
    let (calls, quit) = handle_message(&msg(WM_TRAY_CALLBACK, 0, event));
    assert_eq!(calls.len(), 6);
    assert_eq!(calls[0], OsCall::CreatePopupMenu);
    assert!(!quit);
}

#[test]
fn popup_menu_has_one_quit_entry() {
    let (calls, _) = handle_message(&msg(WM_TRAY_CALLBACK, 0, WM_CONTEXTMENU_MSG as usize));
    let appended: Vec<&OsCall> = calls
        .iter()
        .filter(|c| matches!(c, OsCall::AppendMenuItem { .. }))
        .collect();
    assert_eq!(appended, vec![&OsCall::AppendMenuItem { command: CMD_MENU_QUIT }]);
    assert_eq!(quit_label(), "Quit");
}

#[test]
fn popup_menu_is_destroyed_after_being_shown() {
    let (calls, _) = handle_message(&msg(WM_TRAY_CALLBACK, 123, WM_CONTEXTMENU_MSG as usize));
    let track = calls
        .iter()
        .position(|c| matches!(c, OsCall::TrackMenu { .. }))
        .unwrap();
    assert_eq!(calls[track + 1], OsCall::DestroyMenu);
}

#[test]
fn other_tray_event_does_nothing() {
    // A plain left click (WM_LBUTTONUP) on the icon is ignored.
    let (calls, quit) = handle_message(&msg(WM_TRAY_CALLBACK, 0, 0x0202));
    assert!(calls.is_empty());
    assert!(!quit);
}

#[test]
fn unknown_message_does_nothing() {
    // WM_PAINT, for one.
    let (calls, quit) = handle_message(&msg(0x000F, 0, 0));
    assert!(calls.is_empty());
    assert!(!quit);
}
