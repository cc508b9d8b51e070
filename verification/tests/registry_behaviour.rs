use insta_shell::events::{
    Action, MouseButton, MouseButtonState, TrayEvent, WindowEvent,
};
use insta_shell::shell::{on_menu_event, on_tray_event, on_window_event};
use insta_shell::windows::{WindowRegistry, WindowState};

fn left_click() -> TrayEvent {
    TrayEvent::Click { button: MouseButton::Left, button_state: MouseButtonState::Up }
}

#[test]
fn register_and_count() {
    let mut reg = WindowRegistry::new();
    assert_eq!(reg.count(), 0);
    reg.register("main".to_owned(), WindowState { visible: true, focused: true });
    assert_eq!(reg.count(), 1);
    reg.register("about".to_owned(), WindowState { visible: false, focused: false });
    assert_eq!(reg.count(), 2);
}

#[test]
fn tray_left_click_shows_hidden_main() {
    let mut reg = WindowRegistry::new();
    reg.register("main".to_owned(), WindowState { visible: false, focused: false });
    let a = on_tray_event(&mut reg, &left_click());
    assert_eq!(a, Action::ShowAndFocusMain);
    assert_eq!(reg.state("main"), Some(WindowState { visible: true, focused: true }));
}

#[test]
fn tray_right_click_changes_nothing() {
    let mut reg = WindowRegistry::new();
    reg.register("main".to_owned(), WindowState { visible: false, focused: false });
    let e = TrayEvent::Click { button: MouseButton::Right, button_state: MouseButtonState::Up };
    let a = on_tray_event(&mut reg, &e);
    assert_eq!(a, Action::Ignore);
    assert_eq!(reg.state("main"), Some(WindowState { visible: false, focused: false }));
}

#[test]
fn open_menu_has_same_effect_as_left_click() {
    let mut by_menu = WindowRegistry::new();
    by_menu.register("main".to_owned(), WindowState { visible: false, focused: false });
    let mut by_click = WindowRegistry::new();
    by_click.register("main".to_owned(), WindowState { visible: false, focused: false });

    let a_menu = on_menu_event(&mut by_menu, "open");
    let a_click = on_tray_event(&mut by_click, &left_click());

    assert_eq!(a_menu, a_click);
    assert_eq!(by_menu.state("main"), by_click.state("main"));
    assert_eq!(by_menu.state("main"), Some(WindowState { visible: true, focused: true }));
}

#[test]
fn quit_menu_reads_no_window_state() {
    let mut reg = WindowRegistry::new();
    reg.register("main".to_owned(), WindowState { visible: true, focused: false });
    let before = reg.state("main");
    let a = on_menu_event(&mut reg, "quit");
    assert_eq!(a, Action::Exit(0));
    assert_eq!(reg.state("main"), before);
    assert_eq!(reg.count(), 1);

    let mut empty = WindowRegistry::new();
    assert_eq!(on_menu_event(&mut empty, "quit"), Action::Exit(0));
}

#[test]
fn close_request_hides_but_never_destroys() {
    let mut reg = WindowRegistry::new();
    reg.register("main".to_owned(), WindowState { visible: true, focused: true });
    reg.register("about".to_owned(), WindowState { visible: true, focused: false });
    let before = reg.count();

    let prevent = on_window_event(&mut reg, "main", &WindowEvent::CloseRequested);

    assert!(prevent);
    assert_eq!(reg.count(), before);
    assert_eq!(reg.state("main"), Some(WindowState { visible: false, focused: true }));
    assert_eq!(reg.state("about"), Some(WindowState { visible: true, focused: false }));
}

#[test]
fn close_request_applies_to_any_window() {
    let mut reg = WindowRegistry::new();
    reg.register("main".to_owned(), WindowState { visible: true, focused: false });
    reg.register("about".to_owned(), WindowState { visible: true, focused: true });

    let prevent = on_window_event(&mut reg, "about", &WindowEvent::CloseRequested);

    assert!(prevent);
    assert_eq!(reg.count(), 2);
    assert_eq!(reg.state("about"), Some(WindowState { visible: false, focused: true }));
    assert_eq!(reg.state("main"), Some(WindowState { visible: true, focused: false }));
}

#[test]
fn non_close_events_change_nothing() {
    let mut reg = WindowRegistry::new();
    reg.register("main".to_owned(), WindowState { visible: true, focused: true });
    for e in [
        WindowEvent::Focused(false),
        WindowEvent::Resized,
        WindowEvent::Moved,
        WindowEvent::Destroyed,
    ] {
        let prevent = on_window_event(&mut reg, "main", &e);
        assert!(!prevent);
        assert_eq!(reg.state("main"), Some(WindowState { visible: true, focused: true }));
    }
}

#[test]
fn open_with_absent_main_is_silent_noop() {
    let mut reg = WindowRegistry::new();
    let a = on_menu_event(&mut reg, "open");
    assert_eq!(a, Action::ShowAndFocusMain);
    assert_eq!(reg.count(), 0);
    assert_eq!(reg.state("main"), None);
}

#[test]
fn tray_click_with_absent_main_is_silent_noop() {
    let mut reg = WindowRegistry::new();
    reg.register("about".to_owned(), WindowState { visible: true, focused: true });
    let a = on_tray_event(&mut reg, &left_click());
    assert_eq!(a, Action::ShowAndFocusMain);
    assert_eq!(reg.count(), 1);
    assert_eq!(reg.state("about"), Some(WindowState { visible: true, focused: true }));
}

#[test]
fn close_request_for_absent_window_is_swallowed() {
    let mut reg = WindowRegistry::new();
    let prevent = on_window_event(&mut reg, "main", &WindowEvent::CloseRequested);
    assert!(prevent);
    assert_eq!(reg.count(), 0);
}

#[test]
fn show_and_focus_touches_only_target() {
    let mut reg = WindowRegistry::new();
    reg.register("main".to_owned(), WindowState { visible: false, focused: false });
    reg.register("about".to_owned(), WindowState { visible: false, focused: false });
    reg.show_and_focus("main");
    assert_eq!(reg.state("main"), Some(WindowState { visible: true, focused: true }));
    assert_eq!(reg.state("about"), Some(WindowState { visible: false, focused: false }));
}

#[test]
fn hide_window_keeps_focus_flag() {
    let mut reg = WindowRegistry::new();
    reg.register("main".to_owned(), WindowState { visible: true, focused: true });
    reg.hide_window("main");
    assert_eq!(reg.state("main"), Some(WindowState { visible: false, focused: true }));
}
