//! The shell's behavioural laws, each proved of the decision functions
//! and registry effects the other modules state.

use vstd::prelude::*;

use crate::events::{menu_action, tray_action, window_action, Action, MouseButton,
    MouseButtonState, TrayEvent, WindowEvent};
use crate::windows::{hide_result, show_focus_result, WindowRegistry, WindowState};

verus! {

/// Law: of all tray interactions, exactly the left-button clicks act —
/// they show and focus the main window — and every other interaction,
/// whatever its button or kind, is ignored.
pub proof fn lemma_tray_left_click_only(e: TrayEvent)
    ensures
        (e matches TrayEvent::Click { button: MouseButton::Left, .. }) <==> tray_action(e)
            == Action::ShowAndFocusMain,
        !(e matches TrayEvent::Click { button: MouseButton::Left, .. }) ==> tray_action(e)
            == Action::Ignore,
{
}

/// Law: selecting the "open" menu item decides exactly the action a left
/// tray click decides, whatever the click's press state — so the two,
/// served by `shell::on_menu_event` and `shell::on_tray_event`, change
/// the registry identically.
pub proof fn lemma_open_equals_left_click(bs: MouseButtonState)
    ensures
        menu_action("open"@) == tray_action(
            TrayEvent::Click { button: MouseButton::Left, button_state: bs },
        ),
        menu_action("open"@) == Action::ShowAndFocusMain,
{
}

/// Law: selecting the "quit" menu item decides termination with exit
/// code 0. The decision is a function of the identifier alone: no window
/// state enters it.
pub proof fn lemma_quit_exits_zero()
    ensures
        menu_action("quit"@) == Action::Exit(0),
{
    reveal_strlit("open");
    reveal_strlit("quit");
    assert("quit"@[0] == 'q');
    assert("open"@[0] == 'o');
}

/// Law: a close request never destroys a window. The close itself is
/// answered with suppression, the number of windows is unchanged, the
/// addressed window's visibility turns to hidden, and every other window
/// keeps its attributes.
pub proof fn lemma_close_hides_never_destroys(r: WindowRegistry, label: Seq<char>)
    requires
        r.wf(),
    ensures
        window_action(WindowEvent::CloseRequested) == Action::HideAndPreventClose,
        hide_result(r, label).len() == r.window_count(),
        forall|i: int|
            0 <= i < r.states@.len() && r.labels@[i]@ == label ==> !hide_result(r, label)[i].visible
                && hide_result(r, label)[i].focused == r.states@[i].focused,
        forall|i: int|
            0 <= i < r.states@.len() && r.labels@[i]@ != label ==> hide_result(r, label)[i]
                == r.states@[i],
{
}

/// Law: showing and focusing a window that does not exist changes no
/// window state at all — the lookup miss is a silent no-op.
pub proof fn lemma_show_absent_window_is_noop(r: WindowRegistry, label: Seq<char>)
    requires
        r.wf(),
        !r.has_window(label),
    ensures
        show_focus_result(r, label) == r.states@,
{
    assert forall|i: int| 0 <= i < r.states@.len() implies show_focus_result(r, label)[i]
        == r.states@[i] by {
        assert(!(0 <= i < r.labels@.len() && r.labels@[i]@ == label));
    }
    assert(show_focus_result(r, label) =~= r.states@);
}

/// Law: hiding a window that does not exist changes no window state at
/// all — the miss is swallowed, never an error.
pub proof fn lemma_hide_absent_window_is_noop(r: WindowRegistry, label: Seq<char>)
    requires
        r.wf(),
        !r.has_window(label),
    ensures
        hide_result(r, label) == r.states@,
{
    assert forall|i: int| 0 <= i < r.states@.len() implies hide_result(r, label)[i]
        == r.states@[i] by {
        assert(!(0 <= i < r.labels@.len() && r.labels@[i]@ == label));
    }
    assert(hide_result(r, label) =~= r.states@);
}

/// Law: after a window under `label` is shown and focused, it is visible
/// and focused; after it is hidden, it is not visible.
pub proof fn lemma_effects_on_target(r: WindowRegistry, label: Seq<char>)
    requires
        r.wf(),
        r.has_window(label),
    ensures
        show_focus_result(r, label)[r.index_of(label)] == (WindowState {
            visible: true,
            focused: true,
        }),
        !hide_result(r, label)[r.index_of(label)].visible,
{
}

} // verus!
