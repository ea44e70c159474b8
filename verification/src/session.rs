//! A whole run of the program: startup, message loop, shutdown.
//!
//! `startup_calls` and `shutdown_calls` are the fixed call sequences
//! issued before and after the message loop. `message_loop` dispatches a
//! queue of messages to the handler until one of them requests quit.
//! `run_session` strings the three together and is the model of the
//! whole process; the laws at the end of the module hold of every run.

use vstd::prelude::*;
use crate::dispatch::{
    handle_message, handler_calls, lemma_handler_menu_discipline, lemma_menu_discipline_concat,
    menu_discipline, requests_quit, OsCall, WindowMessage, ACTIVITY_INTERVAL_MS,
    ACTIVITY_TIMER_ID, TRAY_ICON_VERSION,
};

verus! {

/// The calls issued at startup, in order: declare the activity
/// requirement, create the hidden window, start the activity timer,
/// and add the tray icon under version-4 callback semantics.
pub open spec fn startup_call_seq() -> Seq<OsCall> {
    seq![
        OsCall::DeclareActivityRequired,
        OsCall::RegisterWindowClass,
        OsCall::CreateHiddenWindow,
        OsCall::StartTimer { timer_id: ACTIVITY_TIMER_ID, interval_ms: ACTIVITY_INTERVAL_MS },
        OsCall::AddTrayIcon,
        OsCall::SetTrayIconVersion { version: TRAY_ICON_VERSION },
    ]
}

/// The calls issued at shutdown: the tray icon is removed, and nothing
/// else. Window and timer are torn down by process exit, and the
/// persistent activity declaration is reset the same way — no explicit
/// clearing call is issued, a known asymmetry with startup.
pub open spec fn shutdown_call_seq() -> Seq<OsCall> {
    seq![OsCall::RemoveTrayIcon]
}

/// The calls the message loop issues for a queue of messages: each
/// message is handled in order, and the loop stops right after the
/// first message that requests quit.
pub open spec fn loop_call_seq(ms: Seq<WindowMessage>) -> Seq<OsCall>
    decreases ms.len(),
{
    if ms.len() == 0 {
        Seq::empty()
    } else if requests_quit(ms[0]) {
        handler_calls(ms[0])
    } else {
        handler_calls(ms[0]) + loop_call_seq(ms.skip(1))
    }
}

/// How many messages of a queue the loop dispatches before it stops.
pub open spec fn handled_len(ms: Seq<WindowMessage>) -> int
    decreases ms.len(),
{
    if ms.len() == 0 {
        0
    } else if requests_quit(ms[0]) {
        1
    } else {
        1 + handled_len(ms.skip(1))
    }
}

/// The calls a whole run issues: startup, then the loop, then shutdown.
pub open spec fn session_call_seq(ms: Seq<WindowMessage>) -> Seq<OsCall> {
    startup_call_seq() + loop_call_seq(ms) + shutdown_call_seq()
}

/// Returns the startup call sequence.
pub fn startup_calls() -> (r: Vec<OsCall>)
    ensures
        r@ == startup_call_seq(),
{
    let mut calls: Vec<OsCall> = Vec::new();
    calls.push(OsCall::DeclareActivityRequired);
    calls.push(OsCall::RegisterWindowClass);
    calls.push(OsCall::CreateHiddenWindow);
    calls.push(OsCall::StartTimer { timer_id: ACTIVITY_TIMER_ID, interval_ms: ACTIVITY_INTERVAL_MS });
    calls.push(OsCall::AddTrayIcon);
    calls.push(OsCall::SetTrayIconVersion { version: TRAY_ICON_VERSION });
    proof {
        assert(calls@ =~= startup_call_seq());
    }
    calls
}

/// Returns the shutdown call sequence.
pub fn shutdown_calls() -> (r: Vec<OsCall>)
    ensures
        r@ == shutdown_call_seq(),
{
    let mut calls: Vec<OsCall> = Vec::new();
    calls.push(OsCall::RemoveTrayIcon);
    proof {
        assert(calls@ =~= shutdown_call_seq());
    }
    calls
}

/// Dispatches a queue of messages in order, stopping right after the
/// first one that requests quit. Returns the calls issued and how many
/// messages were dispatched.
pub fn message_loop(ms: &Vec<WindowMessage>) -> (r: (Vec<OsCall>, usize))
    ensures
        r.0@ == loop_call_seq(ms@),
        r.1 as int == handled_len(ms@),
        r.1 <= ms@.len(),
{
    let mut trace: Vec<OsCall> = Vec::new();
    let mut i: usize = 0;
    let mut quit: bool = false;
    proof {
        assert(ms@.skip(0) =~= ms@);
        assert(trace@ + loop_call_seq(ms@) =~= loop_call_seq(ms@));
    }
    while i < ms.len() && !quit
        invariant
            0 <= i <= ms@.len(),
            !quit ==> loop_call_seq(ms@) == trace@ + loop_call_seq(ms@.skip(i as int)),
            !quit ==> handled_len(ms@) == i + handled_len(ms@.skip(i as int)),
            quit ==> trace@ == loop_call_seq(ms@) && i as int == handled_len(ms@),
        decreases ms@.len() - i,
    {
        let m = ms[i];
        proof {
            assert(ms@.skip(i as int)[0] == ms@[i as int]);
            if !requests_quit(ms@[i as int]) {
                assert(ms@.skip(i as int).skip(1) =~= ms@.skip(i as int + 1));
            }
        }
        let (mut calls, q) = handle_message(&m);
        trace.append(&mut calls);
        if q {
            quit = true;
            proof {
                assert(loop_call_seq(ms@.skip(i as int)) == handler_calls(ms@[i as int]));
                assert(trace@ =~= loop_call_seq(ms@));
            }
        } else {
            proof {
                assert(loop_call_seq(ms@.skip(i as int)) == handler_calls(ms@[i as int])
                    + loop_call_seq(ms@.skip(i as int + 1)));
                assert(trace@ + loop_call_seq(ms@.skip(i as int + 1)) =~= loop_call_seq(ms@));
            }
        }
        i = i + 1;
    }
    proof {
        if !quit {
            assert(ms@.skip(i as int) =~= Seq::<WindowMessage>::empty());
            assert(trace@ =~= loop_call_seq(ms@));
        }
    }
    (trace, i)
}

/// Runs one whole session over a queue of messages: the startup calls,
/// then the message loop, then the shutdown calls. Returns the full
/// call trace and how many messages the loop dispatched.
pub fn run_session(ms: &Vec<WindowMessage>) -> (r: (Vec<OsCall>, usize))
    ensures
        r.0@ == session_call_seq(ms@),
        r.1 as int == handled_len(ms@),
{
    let mut trace = startup_calls();
    let (mut loop_trace, handled) = message_loop(ms);
    trace.append(&mut loop_trace);
    let mut tail = shutdown_calls();
    trace.append(&mut tail);
    proof {
        assert(trace@ =~= session_call_seq(ms@));
    }
    (trace, handled)
}

/// Law: the message loop issues no tray-icon call: adding and removing
/// the icon happen only in startup and shutdown.
pub proof fn lemma_loop_no_icon_calls(ms: Seq<WindowMessage>)
    ensures
        forall|i: int|
            0 <= i < loop_call_seq(ms).len() ==> !((#[trigger] loop_call_seq(ms)[i]) is AddTrayIcon)
                && !(loop_call_seq(ms)[i] is RemoveTrayIcon),
    decreases ms.len(),
{
    if ms.len() != 0 && !requests_quit(ms[0]) {
        lemma_loop_no_icon_calls(ms.skip(1));
    }
}

/// Law: every run is balanced on the tray icon. The whole call trace
/// holds exactly one `AddTrayIcon` and exactly one `RemoveTrayIcon`,
/// and the removal comes after the addition — on the graceful-quit path
/// and on the queue-exhausted path alike.
pub proof fn lemma_tray_icon_balanced(ms: Seq<WindowMessage>)
    ensures
        ({
            let t = session_call_seq(ms);
            &&& exists|a: int| 0 <= a < t.len() && (#[trigger] t[a]) is AddTrayIcon
            &&& exists|r: int| 0 <= r < t.len() && (#[trigger] t[r]) is RemoveTrayIcon
            &&& forall|a: int, b: int|
                0 <= a < t.len() && 0 <= b < t.len() && (#[trigger] t[a]) is AddTrayIcon
                    && (#[trigger] t[b]) is AddTrayIcon ==> a == b
            &&& forall|a: int, b: int|
                0 <= a < t.len() && 0 <= b < t.len() && (#[trigger] t[a]) is RemoveTrayIcon
                    && (#[trigger] t[b]) is RemoveTrayIcon ==> a == b
            &&& forall|a: int, b: int|
                0 <= a < t.len() && 0 <= b < t.len() && (#[trigger] t[a]) is AddTrayIcon
                    && (#[trigger] t[b]) is RemoveTrayIcon ==> a < b
        }),
{
    let t = session_call_seq(ms);
    let lp = loop_call_seq(ms);
    lemma_loop_no_icon_calls(ms);
    assert(t[4] is AddTrayIcon);
    assert(t[t.len() - 1] is RemoveTrayIcon);
    assert forall|a: int| 0 <= a < t.len() && (#[trigger] t[a]) is AddTrayIcon implies a == 4 by {
        if a >= startup_call_seq().len() && a < t.len() - 1 {
            assert(t[a] == lp[a - startup_call_seq().len()]);
        }
    }
    assert forall|b: int| 0 <= b < t.len() && (#[trigger] t[b]) is RemoveTrayIcon implies b == t.len()
        - 1 by {
        if b >= startup_call_seq().len() && b < t.len() - 1 {
            assert(t[b] == lp[b - startup_call_seq().len()]);
        }
    }
}

/// Law: the message loop destroys every popup menu it shows: in the
/// loop's call trace, each `TrackMenu` is immediately followed by a
/// `DestroyMenu`, whether an entry was selected or the menu was
/// dismissed without one.
pub proof fn lemma_loop_menu_discipline(ms: Seq<WindowMessage>)
    ensures
        menu_discipline(loop_call_seq(ms)),
    decreases ms.len(),
{
    if ms.len() == 0 {
    } else if requests_quit(ms[0]) {
        lemma_handler_menu_discipline(ms[0]);
    } else {
        lemma_handler_menu_discipline(ms[0]);
        lemma_loop_menu_discipline(ms.skip(1));
        lemma_menu_discipline_concat(handler_calls(ms[0]), loop_call_seq(ms.skip(1)));
    }
}

/// Law: a whole run destroys every popup menu it shows.
pub proof fn lemma_session_menu_discipline(ms: Seq<WindowMessage>)
    ensures
        menu_discipline(session_call_seq(ms)),
{
    lemma_loop_menu_discipline(ms);
    lemma_menu_discipline_concat(startup_call_seq(), loop_call_seq(ms));
    lemma_menu_discipline_concat(startup_call_seq() + loop_call_seq(ms), shutdown_call_seq());
}

/// Law: selecting "Quit" terminates the message loop. If the first
/// quit-requesting message stands at index k of the queue, the loop
/// dispatches exactly the first k + 1 messages, posts the quit signal
/// with exit code 0 as its last call, and the run's very last call —
/// after the loop — removes the tray icon.
pub proof fn lemma_quit_terminates(ms: Seq<WindowMessage>, k: int)
    requires
        0 <= k < ms.len(),
        requests_quit(ms[k]),
        forall|j: int| 0 <= j < k ==> !requests_quit(#[trigger] ms[j]),
    ensures
        handled_len(ms) == k + 1,
        loop_call_seq(ms).len() > 0,
        loop_call_seq(ms).last() == (OsCall::PostQuit { exit_code: 0 }),
        session_call_seq(ms).last() == OsCall::RemoveTrayIcon,
    decreases ms.len(),
{
    if k == 0 {
    } else {
        assert(ms.skip(1)[k - 1] == ms[k]);
        assert forall|j: int| 0 <= j < k - 1 implies !requests_quit(#[trigger] ms.skip(1)[j]) by {
            assert(ms.skip(1)[j] == ms[j + 1]);
        }
        lemma_quit_terminates(ms.skip(1), k - 1);
    }
}

/// Law: while no message requests quit, the loop never stops early: a
/// queue without a quit command is dispatched whole.
pub proof fn lemma_no_quit_handles_all(ms: Seq<WindowMessage>)
    requires
        forall|j: int| 0 <= j < ms.len() ==> !requests_quit(#[trigger] ms[j]),
    ensures
        handled_len(ms) == ms.len(),
    decreases ms.len(),
{
    if ms.len() != 0 {
        assert forall|j: int| 0 <= j < ms.skip(1).len() implies !requests_quit(
            #[trigger] ms.skip(1)[j],
        ) by {
            assert(ms.skip(1)[j] == ms[j + 1]);
        }
        lemma_no_quit_handles_all(ms.skip(1));
    }
}

} // verus!
