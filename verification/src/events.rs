//! Events the windowing runtime reports, the actions the shell answers
//! them with, and the three pure decision functions that connect them.

use vstd::prelude::*;

verus! {

/// The mouse button reported with a tray-icon interaction.
#[derive(Clone, Copy, PartialEq, Eq, Structural, Debug)]
pub enum MouseButton {
    Left,
    Right,
    Middle,
}

/// Whether the reported click was a press or a release.
#[derive(Clone, Copy, PartialEq, Eq, Structural, Debug)]
pub enum MouseButtonState {
    Up,
    Down,
}

/// An interaction with the tray icon, as the runtime reports it.
#[derive(Clone, Copy, PartialEq, Eq, Structural, Debug)]
pub enum TrayEvent {
    Click { button: MouseButton, button_state: MouseButtonState },
    DoubleClick { button: MouseButton },
    Enter,
    Move,
    Leave,
}

/// An event the runtime reports for one window.
#[derive(Clone, Copy, PartialEq, Eq, Structural, Debug)]
pub enum WindowEvent {
    CloseRequested,
    Focused(bool),
    Resized,
    Moved,
    Destroyed,
}

/// What the shell decides to do in answer to an event.
#[derive(Clone, Copy, PartialEq, Eq, Structural, Debug)]
pub enum Action {
    /// Make the main window visible and give it input focus.
    ShowAndFocusMain,
    /// Terminate the process with the given exit code.
    Exit(i32),
    /// Suppress the pending close and hide the window instead.
    HideAndPreventClose,
    /// Do nothing.
    Ignore,
}

/// The decision for a tray-icon interaction: only a left-button click
/// acts, whatever its press state; everything else is ignored.
pub open spec fn tray_action(e: TrayEvent) -> Action {
    if e matches TrayEvent::Click { button: MouseButton::Left, .. } {
        Action::ShowAndFocusMain
    } else {
        Action::Ignore
    }
}

/// The decision for a context-menu selection, by item identifier:
/// "open" shows and focuses the main window, "quit" exits with code 0,
/// any other identifier is ignored.
pub open spec fn menu_action(id: Seq<char>) -> Action {
    if id == "open"@ {
        Action::ShowAndFocusMain
    } else if id == "quit"@ {
        Action::Exit(0)
    } else {
        Action::Ignore
    }
}

/// The decision for a window event: a close request is answered by
/// hiding the window and suppressing the close; nothing else is acted on.
pub open spec fn window_action(e: WindowEvent) -> Action {
    if e is CloseRequested {
        Action::HideAndPreventClose
    } else {
        Action::Ignore
    }
}

/// Decide the answer to a tray-icon interaction.
pub fn decide_tray_event(e: &TrayEvent) -> (a: Action)
    ensures
        a == tray_action(*e),
{
    match e {
        TrayEvent::Click { button: MouseButton::Left, .. } => Action::ShowAndFocusMain,
        _ => Action::Ignore,
    }
}

/// Decide the answer to a context-menu selection.
pub fn decide_menu_event(id: &str) -> (a: Action)
    ensures
        a == menu_action(id@),
{
    let chosen: String = id.to_owned();
    let open_id: String = "open".to_owned();
    let quit_id: String = "quit".to_owned();
    if chosen == open_id {
        Action::ShowAndFocusMain
    } else if chosen == quit_id {
        Action::Exit(0)
    } else {
        Action::Ignore
    }
}

/// Decide the answer to a window event.
pub fn decide_window_event(e: &WindowEvent) -> (a: Action)
    ensures
        a == window_action(*e),
{
    match e {
        WindowEvent::CloseRequested => Action::HideAndPreventClose,
        _ => Action::Ignore,
    }
}

} // verus!
