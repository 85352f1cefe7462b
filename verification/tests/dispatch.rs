use app_lifecycle::event::{Action, ClickKind, Event};
use app_lifecycle::launch::LaunchInvocation;
use app_lifecycle::window::{AppState, WindowState};

#[test]
fn close_request_hides_visible_window() {
    let mut s = AppState::new();
    assert_eq!(s.window, WindowState::Visible);
    let action = s.handle_event(Event::WindowCloseRequested);
    assert_eq!(action, Some(Action::HideWindow));
    assert_eq!(s.window, WindowState::Hidden);
}

#[test]
fn close_request_on_hidden_window_keeps_it_hidden() {
    let mut s = AppState::new();
    s.handle_event(Event::WindowCloseRequested);
    let action = s.handle_event(Event::WindowCloseRequested);
    assert_eq!(action, Some(Action::HideWindow));
    assert_eq!(s.window, WindowState::Hidden);
}

#[test]
fn close_request_on_released_window_is_noop() {
    let mut s = AppState::new();
    s.release_window();
    let action = s.handle_event(Event::WindowCloseRequested);
    assert_eq!(action, None);
    assert_eq!(s.window, WindowState::Released);
}

#[test]
fn repeated_close_requests_never_exit() {
    let mut s = AppState::new();
    let events = vec![Event::WindowCloseRequested; 10];
    let actions = s.run_events(events);
    assert_eq!(actions.len(), 10);
    for action in &actions {
        assert_ne!(*action, Some(Action::Exit));
    }
    assert_eq!(s.window, WindowState::Hidden);
}

#[test]
fn quit_menu_exits_when_window_visible() {
    let mut s = AppState::new();
    let action = s.handle_event(Event::MenuSelect("quit".to_string()));
    assert_eq!(action, Some(Action::Exit));
}

#[test]
fn quit_menu_exits_when_window_hidden() {
    let mut s = AppState::new();
    s.handle_event(Event::WindowCloseRequested);
    let action = s.handle_event(Event::MenuSelect("quit".to_string()));
    assert_eq!(action, Some(Action::Exit));
}

#[test]
fn quit_menu_exits_when_window_released() {
    let mut s = AppState::new();
    s.release_window();
    let action = s.handle_event(Event::MenuSelect("quit".to_string()));
    assert_eq!(action, Some(Action::Exit));
}

#[test]
fn other_menu_ids_are_ignored() {
    let mut s = AppState::new();
    assert_eq!(s.handle_event(Event::MenuSelect("version".to_string())), None);
    assert_eq!(s.handle_event(Event::MenuSelect("".to_string())), None);
    assert_eq!(s.handle_event(Event::MenuSelect("QUIT".to_string())), None);
    assert_eq!(s.window, WindowState::Visible);
}

#[test]
fn tray_left_click_shows_hidden_window() {
    let mut s = AppState::new();
    s.handle_event(Event::WindowCloseRequested);
    assert_eq!(s.window, WindowState::Hidden);
    let action = s.handle_event(Event::TrayClick(ClickKind::Left));
    assert_eq!(action, Some(Action::ShowAndFocusWindow));
    assert_eq!(s.window, WindowState::Visible);
}

#[test]
fn tray_left_click_is_idempotent_when_visible() {
    let mut s = AppState::new();
    let first = s.handle_event(Event::TrayClick(ClickKind::Left));
    assert_eq!(first, Some(Action::ShowAndFocusWindow));
    assert_eq!(s.window, WindowState::Visible);
    let second = s.handle_event(Event::TrayClick(ClickKind::Left));
    assert_eq!(second, Some(Action::ShowAndFocusWindow));
    assert_eq!(s.window, WindowState::Visible);
}

#[test]
fn tray_right_and_other_clicks_are_ignored() {
    let mut s = AppState::new();
    s.handle_event(Event::WindowCloseRequested);
    assert_eq!(s.handle_event(Event::TrayClick(ClickKind::Right)), None);
    assert_eq!(s.handle_event(Event::TrayClick(ClickKind::Other)), None);
    assert_eq!(s.window, WindowState::Hidden);
}

#[test]
fn tray_left_click_on_released_window_is_noop() {
    let mut s = AppState::new();
    s.release_window();
    let action = s.handle_event(Event::TrayClick(ClickKind::Left));
    assert_eq!(action, None);
    assert_eq!(s.window, WindowState::Released);
}

#[test]
fn duplicate_launch_emits_payload_unchanged() {
    let mut s = AppState::new();
    let invocation = LaunchInvocation {
        args: vec!["app".to_string(), "--flag".to_string()],
        cwd: "/home/user".to_string(),
    };
    let action = s.handle_event(Event::DuplicateLaunch(invocation.clone()));
    assert_eq!(action, Some(Action::EmitSingleInstance(invocation)));
    assert_eq!(s.window, WindowState::Visible);
}

#[test]
fn run_events_returns_actions_in_arrival_order() {
    let mut s = AppState::new();
    let events = vec![
        Event::WindowCloseRequested,
        Event::TrayClick(ClickKind::Right),
        Event::TrayClick(ClickKind::Left),
        Event::MenuSelect("version".to_string()),
        Event::MenuSelect("quit".to_string()),
    ];
    let actions = s.run_events(events);
    assert_eq!(
        actions,
        vec![
            Some(Action::HideWindow),
            None,
            Some(Action::ShowAndFocusWindow),
            None,
            Some(Action::Exit),
        ]
    );
    assert_eq!(s.window, WindowState::Visible);
}
