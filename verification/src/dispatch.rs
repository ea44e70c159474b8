//! The window-message handler, as a decision function.
//!
//! Every message the hidden window receives is mapped to the exact
//! sequence of operating-system calls the program must issue in
//! response: a timer tick injects one synthetic key press, the quit menu
//! command posts the quit signal, and a context-menu gesture on the tray
//! icon opens the popup menu at the cursor. The driver that owns the
//! real window procedure executes the returned calls in order.

use vstd::prelude::*;
use crate::coords::{cursor_x, cursor_y, get_mouse_pos};

verus! {

/// Message number of a timer tick.
pub const WM_TIMER_MSG: u32 = 0x0113;

/// Message number of a menu command.
pub const WM_COMMAND_MSG: u32 = 0x0111;

/// Sub-event code of a context-menu gesture. Under the version-4 tray
/// semantics the callback message coalesces all icon events: the
/// sub-event code stands in the low 16 bits of the parameter, and the
/// high bits carry other content, such as the icon identifier.
pub const WM_CONTEXTMENU_MSG: u32 = 0x007B;

/// First message number available for application use; the tray icon's
/// callback message is registered under it.
pub const WM_USER_MSG: u32 = 0x0400;

/// The callback message number the tray icon is registered with.
pub const WM_TRAY_CALLBACK: u32 = WM_USER_MSG;

/// Identifier of the recurring activity timer.
pub const ACTIVITY_TIMER_ID: usize = 1;

/// Interval of the activity timer, in milliseconds.
pub const ACTIVITY_INTERVAL_MS: u32 = 30 * 1000;

/// Command identifier of the single "Quit" menu entry.
pub const CMD_MENU_QUIT: usize = 1;

/// Version of tray-icon semantics requested: one coalesced callback
/// message carrying sub-event codes.
pub const TRAY_ICON_VERSION: u32 = 4;

/// Virtual-key code of the F15 key, a key with no bound system action.
pub const VK_F15_CODE: u16 = 0x7E;

/// Exit code of a graceful quit.
pub const EXIT_CODE_OK: i32 = 0;

/// One operating-system call the program issues. The library decides
/// which calls to make and in what order; the driver performs them.
#[derive(Clone, Copy, PartialEq, Eq, Structural, Debug)]
pub enum OsCall {
    /// Declare to the power manager that system and display must stay
    /// active, as a persistent flag.
    DeclareActivityRequired,
    /// Register the window class of the hidden message window.
    RegisterWindowClass,
    /// Create the hidden tool window that receives all messages.
    CreateHiddenWindow,
    /// Start the recurring activity timer on the hidden window.
    StartTimer { timer_id: usize, interval_ms: u32 },
    /// Add the notification icon to the system tray.
    AddTrayIcon,
    /// Request the given tray-icon callback semantics version.
    SetTrayIconVersion { version: u32 },
    /// Synthesize one press of the given virtual key.
    InjectKeyPress { virtual_key: u16 },
    /// Post the quit signal that ends the message loop.
    PostQuit { exit_code: i32 },
    /// Bring the hidden window to the foreground, so the popup menu
    /// dismisses on an outside click.
    SetForegroundWindow,
    /// Create the transient popup menu. If this call fails, the driver
    /// abandons the calls that follow it up to and including
    /// `PostNullMessage`: no menu was created, so none is shown.
    CreatePopupMenu,
    /// Append the single enabled "Quit" entry under the given command
    /// identifier.
    AppendMenuItem { command: usize },
    /// Show the popup menu at the given screen position, left- and
    /// bottom-aligned, and block until it is dismissed.
    TrackMenu { x: i32, y: i32 },
    /// Destroy the popup menu object.
    DestroyMenu,
    /// Post a null message to the window, releasing input capture held
    /// after tracking a popup from a non-foreground context.
    PostNullMessage,
    /// Remove the notification icon from the system tray.
    RemoveTrayIcon,
}

/// One message delivered to the hidden window.
#[derive(Clone, Copy, PartialEq, Eq, Structural, Debug)]
pub struct WindowMessage {
    /// The message number.
    pub msg: u32,
    /// The first packed parameter.
    pub w_param: usize,
    /// The second packed parameter.
    pub l_param: usize,
}

/// The calls that open, show and tear down the popup menu at (x, y).
pub open spec fn menu_calls(x: i32, y: i32) -> Seq<OsCall> {
    seq![
        OsCall::CreatePopupMenu,
        OsCall::SetForegroundWindow,
        OsCall::AppendMenuItem { command: CMD_MENU_QUIT },
        OsCall::TrackMenu { x, y },
        OsCall::DestroyMenu,
        OsCall::PostNullMessage,
    ]
}

/// Whether a message is a context-menu gesture on the tray icon: the
/// tray callback message whose sub-event code — the low 16 bits of the
/// parameter — is the context-menu code, whatever the high bits carry.
pub open spec fn is_tray_context_menu(m: WindowMessage) -> bool {
    m.msg == WM_TRAY_CALLBACK && (m.l_param & 0xffff) as u32 == WM_CONTEXTMENU_MSG
}

/// Whether a message is the quit menu command.
pub open spec fn requests_quit(m: WindowMessage) -> bool {
    m.msg == WM_COMMAND_MSG && m.w_param == CMD_MENU_QUIT
}

/// The calls the handler issues for one message.
pub open spec fn handler_calls(m: WindowMessage) -> Seq<OsCall> {
    if m.msg == WM_TIMER_MSG {
        seq![OsCall::InjectKeyPress { virtual_key: VK_F15_CODE }]
    } else if requests_quit(m) {
        seq![OsCall::PostQuit { exit_code: EXIT_CODE_OK }]
    } else if is_tray_context_menu(m) {
        menu_calls(cursor_x(m.w_param as u64) as i32, cursor_y(m.w_param as u64) as i32)
    } else {
        Seq::empty()
    }
}

/// Handles one window message: returns the calls to issue, in order,
/// and whether the message asked the message loop to terminate.
pub fn handle_message(m: &WindowMessage) -> (r: (Vec<OsCall>, bool))
    ensures
        r.0@ == handler_calls(*m),
        r.1 == requests_quit(*m),
{
    let mut calls: Vec<OsCall> = Vec::new();
    let mut quit: bool = false;
    if m.msg == WM_TIMER_MSG {
        calls.push(OsCall::InjectKeyPress { virtual_key: VK_F15_CODE });
    } else if m.msg == WM_COMMAND_MSG {
        if m.w_param == CMD_MENU_QUIT {
            calls.push(OsCall::PostQuit { exit_code: EXIT_CODE_OK });
            quit = true;
        }
    } else if m.msg == WM_TRAY_CALLBACK && (m.l_param & 0xffff) as u32 == WM_CONTEXTMENU_MSG {
        let (x, y) = get_mouse_pos(m.w_param);
        calls.push(OsCall::CreatePopupMenu);
        calls.push(OsCall::SetForegroundWindow);
        calls.push(OsCall::AppendMenuItem { command: CMD_MENU_QUIT });
        calls.push(OsCall::TrackMenu { x, y });
        calls.push(OsCall::DestroyMenu);
        calls.push(OsCall::PostNullMessage);
    }
    proof {
        assert(calls@ =~= handler_calls(*m));
    }
    (calls, quit)
}

/// The label of the single popup-menu entry.
pub fn quit_label() -> (s: &'static str)
    ensures
        s@ == "Quit"@,
{
    "Quit"
}

/// Law: each timer firing issues exactly one synthetic key press — of
/// the F15 key — and nothing else, whatever the message parameters.
pub proof fn lemma_timer_single_keypress(m: WindowMessage)
    requires
        m.msg == WM_TIMER_MSG,
    ensures
        handler_calls(m).len() == 1,
        handler_calls(m)[0] == (OsCall::InjectKeyPress { virtual_key: VK_F15_CODE }),
{
}

/// A trace in which every popup menu shown is also torn down: each
/// `TrackMenu` call is immediately followed by a `DestroyMenu` call.
pub open spec fn menu_discipline(t: Seq<OsCall>) -> bool {
    forall|i: int|
        0 <= i < t.len() && (#[trigger] t[i]) is TrackMenu ==> i + 1 < t.len() && t[i + 1] is DestroyMenu
}

/// Law: menu discipline is preserved by concatenation of traces.
pub proof fn lemma_menu_discipline_concat(a: Seq<OsCall>, b: Seq<OsCall>)
    requires
        menu_discipline(a),
        menu_discipline(b),
    ensures
        menu_discipline(a + b),
{
    assert forall|i: int| 0 <= i < (a + b).len() && (#[trigger] (a + b)[i]) is TrackMenu implies i + 1
        < (a + b).len() && (a + b)[i + 1] is DestroyMenu by {
        if i < a.len() {
            assert(a[i] is TrackMenu);
        } else {
            assert(b[i - a.len()] is TrackMenu);
        }
    }
}

/// Law: the handler destroys every popup menu it shows, whether or not
/// an entry was selected.
pub proof fn lemma_handler_menu_discipline(m: WindowMessage)
    ensures
        menu_discipline(handler_calls(m)),
{
}

} // verus!
