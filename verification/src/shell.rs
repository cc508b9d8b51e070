//! The three handlers the shell registers with the runtime, each the
//! decision function of `events` followed by its effect on the window
//! registry. The runtime's callbacks call these and then perform
//! whatever outside action — exiting the process, suppressing a close —
//! the returned `Action` asks for.

use vstd::prelude::*;

use crate::events::{
    decide_menu_event, decide_tray_event, decide_window_event, menu_action, tray_action,
    window_action, Action, TrayEvent, WindowEvent,
};
use crate::windows::{hide_result, show_focus_result, WindowRegistry};

verus! {

/// The label under which the runtime creates the main window.
pub open spec fn main_label() -> Seq<char> {
    "main"@
}

/// Serve a tray-icon interaction: a left-button click shows and focuses
/// the main window (silently doing nothing when it does not exist);
/// every other interaction leaves the registry untouched.
pub fn on_tray_event(reg: &mut WindowRegistry, e: &TrayEvent) -> (a: Action)
    requires
        old(reg).wf(),
    ensures
        a == tray_action(*e),
        final(reg).wf(),
        final(reg).labels == old(reg).labels,
        a == Action::ShowAndFocusMain ==> final(reg).states@ == show_focus_result(
            *old(reg),
            main_label(),
        ),
        a != Action::ShowAndFocusMain ==> *final(reg) == *old(reg),
{
    let a = decide_tray_event(e);
    match a {
        Action::ShowAndFocusMain => {
            reg.show_and_focus("main");
        },
        _ => {},
    }
    a
}

/// Serve a context-menu selection: "open" shows and focuses the main
/// window exactly as a left tray click does; "quit" asks the caller to
/// exit with code 0 and reads or writes no window state at all; any
/// other identifier does nothing.
pub fn on_menu_event(reg: &mut WindowRegistry, id: &str) -> (a: Action)
    requires
        old(reg).wf(),
    ensures
        a == menu_action(id@),
        final(reg).wf(),
        final(reg).labels == old(reg).labels,
        a == Action::ShowAndFocusMain ==> final(reg).states@ == show_focus_result(
            *old(reg),
            main_label(),
        ),
        a != Action::ShowAndFocusMain ==> *final(reg) == *old(reg),
{
    let a = decide_menu_event(id);
    match a {
        Action::ShowAndFocusMain => {
            reg.show_and_focus("main");
        },
        _ => {},
    }
    a
}

/// Serve an event of the window under `label`: a close request hides the
/// window — never destroys it, the count is unchanged — and reports that
/// the close must be suppressed; every other event is left to the
/// runtime and changes nothing.
pub fn on_window_event(reg: &mut WindowRegistry, label: &str, e: &WindowEvent) -> (prevent_close:
    bool)
    requires
        old(reg).wf(),
    ensures
        prevent_close == (window_action(*e) == Action::HideAndPreventClose),
        prevent_close == (*e is CloseRequested),
        final(reg).wf(),
        final(reg).labels == old(reg).labels,
        final(reg).window_count() == old(reg).window_count(),
        *e is CloseRequested ==> final(reg).states@ == hide_result(*old(reg), label@),
        !(*e is CloseRequested) ==> *final(reg) == *old(reg),
{
    let a = decide_window_event(e);
    match a {
        Action::HideAndPreventClose => {
            reg.hide_window(label);
            true
        },
        _ => false,
    }
}

} // verus!
