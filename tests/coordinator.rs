use renai_desktop::lifecycle::{
    menu_action_from_id, menu_entries, menu_id_of, ButtonState, Command, LifecycleCoordinator,
    MenuAction, MouseButton, UiEvent, EXIT_STATUS, MAIN_WINDOW,
};

fn click(button: MouseButton, state: ButtonState, window_visible: Option<bool>) -> UiEvent {
    UiEvent::IconClick { button, state, window_visible }
}

#[test]
fn close_request_hides_and_keeps_running() {
    let mut c = LifecycleCoordinator::new();
    assert_eq!(
        c.handle_event(UiEvent::CloseRequested),
        vec![Command::PreventClose, Command::Hide]
    );
    assert!(!c.is_terminated());
    assert_eq!(c.handle_event(UiEvent::Menu(MenuAction::Show)), vec![Command::Show, Command::Focus]);
}

#[test]
fn menu_show_and_hide() {
    let mut c = LifecycleCoordinator::new();
    assert_eq!(c.handle_event(UiEvent::Menu(MenuAction::Show)), vec![Command::Show, Command::Focus]);
    assert_eq!(c.handle_event(UiEvent::Menu(MenuAction::Hide)), vec![Command::Hide]);
    assert_eq!(c.handle_event(UiEvent::Menu(MenuAction::Hide)), vec![Command::Hide]);
}

#[test]
fn quit_stops_once_then_exits() {
    let mut c = LifecycleCoordinator::new();
    assert_eq!(
        c.handle_event(UiEvent::Menu(MenuAction::Quit)),
        vec![Command::StopBackend, Command::Exit(0)]
    );
    assert_eq!(EXIT_STATUS, 0);
    assert!(c.is_terminated());
    assert!(c.handle_event(UiEvent::Menu(MenuAction::Quit)).is_empty());
    assert!(c.handle_event(UiEvent::CloseRequested).is_empty());
}

#[test]
fn primary_click_toggles() {
    let mut c = LifecycleCoordinator::new();
    assert_eq!(
        c.handle_event(click(MouseButton::Left, ButtonState::Up, Some(true))),
        vec![Command::Hide]
    );
    assert_eq!(
        c.handle_event(click(MouseButton::Left, ButtonState::Up, Some(false))),
        vec![Command::Show, Command::Focus]
    );
}

#[test]
fn failed_visibility_query_shows() {
    let mut c = LifecycleCoordinator::new();
    assert_eq!(
        c.handle_event(click(MouseButton::Left, ButtonState::Up, None)),
        vec![Command::Show, Command::Focus]
    );
}

#[test]
fn other_clicks_ignored() {
    let mut c = LifecycleCoordinator::new();
    assert!(c.handle_event(click(MouseButton::Left, ButtonState::Down, Some(true))).is_empty());
    assert!(c.handle_event(click(MouseButton::Right, ButtonState::Up, Some(true))).is_empty());
    assert!(c.handle_event(click(MouseButton::Middle, ButtonState::Up, None)).is_empty());
}

#[test]
fn menu_ids_parse() {
    assert_eq!(menu_action_from_id("show"), Some(MenuAction::Show));
    assert_eq!(menu_action_from_id("hide"), Some(MenuAction::Hide));
    assert_eq!(menu_action_from_id("quit"), Some(MenuAction::Quit));
    assert_eq!(menu_action_from_id("Quit"), None);
    assert_eq!(menu_action_from_id(""), None);
    assert_eq!(menu_action_from_id("exit"), None);
}

#[test]
fn menu_entries_round_trip() {
    let entries = menu_entries();
    let ids: Vec<&str> = entries.iter().map(|e| e.id).collect();
    let labels: Vec<&str> = entries.iter().map(|e| e.label).collect();
    assert_eq!(ids, vec!["show", "hide", "quit"]);
    assert_eq!(labels, vec!["Show RenAI", "Hide", "Quit"]);
    for a in [MenuAction::Show, MenuAction::Hide, MenuAction::Quit] {
        assert_eq!(menu_action_from_id(menu_id_of(a)), Some(a));
    }
    assert_eq!(MAIN_WINDOW, "main");
}
