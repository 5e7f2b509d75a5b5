use tile_rs::key_bindings::{default_key_bindings, find_action, Action};
use tile_rs::layout_engines::LayoutEngineType;
use tile_rs::window_location::WindowState;
use tile_rs::keys::{Keys, VirtualKey};
use tile_rs::window::{FilterReason, ProcessDetails, Window, WindowInfo};
use tile_rs::windows_manager::{
    WindowCommand, WindowNotification, WindowUpdateType, WindowsManager,
};

fn info(title: &str, class: &str, program: &str) -> WindowInfo {
    WindowInfo {
        title: title.to_string(),
        class: class.to_string(),
        process: Some(ProcessDetails {
            id: 4242,
            path: format!("C:/apps/{}", program),
            file_name: program.to_string(),
        }),
        is_focused: false,
        is_minimized: false,
        is_maximized: false,
        is_cloaked: false,
    }
}

fn plain_info(title: &str) -> WindowInfo {
    info(title, "AppClass", "app.exe")
}

#[test]
fn filter_rejects_ignored_class() {
    let r = Window::new(1, info("Program Manager", "Progman", "explorer.exe"));
    assert_eq!(r.unwrap_err(), FilterReason::IgnoredClass);
}

#[test]
fn filter_rejects_empty_title() {
    let r = Window::new(1, info("", "AppClass", "app.exe"));
    assert_eq!(r.unwrap_err(), FilterReason::EmptyTitle);
}

#[test]
fn filter_rejects_ignored_title() {
    let r = Window::new(1, info("Windows Input Experience", "AppClass", "app.exe"));
    assert_eq!(r.unwrap_err(), FilterReason::IgnoredTitle);
}

#[test]
fn filter_rejects_unreadable_process() {
    let mut i = plain_info("Editor");
    i.process = None;
    let r = Window::new(1, i);
    assert_eq!(r.unwrap_err(), FilterReason::ProcessUnavailable);
}

#[test]
fn filter_rejects_ignored_program() {
    let r = Window::new(1, info("Search", "AppClass", "SearchHost.exe"));
    assert_eq!(r.unwrap_err(), FilterReason::IgnoredProgram);
}

#[test]
fn filter_admits_ordinary_window() {
    let w = Window::new(7, plain_info("Editor")).unwrap();
    assert_eq!(w.handle, 7);
    assert_eq!(w.title(), "Editor");
    assert_eq!(w.process_file_name(), "app.exe");
    assert_eq!(w.process_id(), 4242);
    assert!(!w.did_manual_hide());
    assert!(!w.is_mouse_moving);
}

#[test]
fn register_is_idempotent_and_keeps_first_metadata() {
    let (mut m, _senders) = WindowsManager::new();
    m.register_window(10, Some(plain_info("First")));
    assert_eq!(m.windows.len(), 1);
    m.register_window(10, Some(plain_info("Second")));
    assert_eq!(m.windows.len(), 1);
    assert_eq!(m.windows[0].title(), "First");
}

#[test]
fn register_skips_filtered_and_missing_metadata() {
    let (mut m, _senders) = WindowsManager::new();
    m.register_window(1, Some(info("Shell", "Progman", "explorer.exe")));
    m.register_window(2, None);
    assert!(m.windows.is_empty());
}

#[test]
fn unregister_removes_only_the_named_window() {
    let (mut m, _senders) = WindowsManager::new();
    m.register_window(1, Some(plain_info("A")));
    m.register_window(2, Some(plain_info("B")));
    m.unregister_window(1);
    assert_eq!(m.windows.len(), 1);
    assert_eq!(m.windows[0].handle, 2);
    m.unregister_window(99);
    assert_eq!(m.windows.len(), 1);
}

#[test]
fn hide_unregisters_unless_manually_hidden() {
    let (mut m, _senders) = WindowsManager::new();
    m.register_window(1, Some(plain_info("A")));
    m.register_window(2, Some(plain_info("B")));

    // window 2 was hidden by the manager itself: it stays tracked
    m.windows[1].did_manual_hide = true;
    m.update_window(2, WindowUpdateType::Hide, None);
    assert_eq!(m.windows.len(), 2);

    // window 1 was cloaked by the OS: it is unregistered
    m.update_window(1, WindowUpdateType::Hide, None);
    assert_eq!(m.windows.len(), 1);
    assert_eq!(m.windows[0].handle, 2);
}

#[test]
fn show_on_tracked_window_changes_nothing() {
    let (mut m, _senders) = WindowsManager::new();
    m.register_window(1, Some(plain_info("A")));
    m.update_window(1, WindowUpdateType::Show, Some(plain_info("Other")));
    assert_eq!(m.windows.len(), 1);
    assert_eq!(m.windows[0].title(), "A");
}

#[test]
fn show_on_unknown_window_registers_it() {
    let (mut m, _senders) = WindowsManager::new();
    m.update_window(5, WindowUpdateType::Show, Some(plain_info("New")));
    assert_eq!(m.windows.len(), 1);
    assert_eq!(m.windows[0].handle, 5);
}

#[test]
fn foreground_moves_focus_exclusively() {
    let (mut m, _senders) = WindowsManager::new();
    let mut focused = plain_info("A");
    focused.is_focused = true;
    m.register_window(1, Some(focused));
    m.register_window(2, Some(plain_info("B")));
    assert!(m.windows[0].is_focused);

    m.update_window(2, WindowUpdateType::Foreground, None);
    assert!(!m.windows[0].is_focused);
    assert!(m.windows[1].is_focused);
}

#[test]
fn minimize_updates_derived_state() {
    let (mut m, _senders) = WindowsManager::new();
    m.register_window(1, Some(plain_info("A")));
    m.update_window(1, WindowUpdateType::MinimizeStart, None);
    assert!(m.windows[0].is_minimized);
    m.update_window(1, WindowUpdateType::MinimizeEnd, None);
    assert!(!m.windows[0].is_minimized);
}

#[test]
fn single_dragging_window_invariant() {
    let (mut m, _senders) = WindowsManager::new();
    m.register_window(1, Some(plain_info("A")));
    m.register_window(2, Some(plain_info("B")));

    m.start_move_window(1);
    assert!(m.windows[0].is_mouse_moving);
    assert!(!m.windows[1].is_mouse_moving);
    assert_eq!(m.mouse_move_window, Some(1));

    m.start_move_window(2);
    assert!(!m.windows[0].is_mouse_moving);
    assert!(m.windows[1].is_mouse_moving);
    assert_eq!(m.mouse_move_window, Some(2));

    m.end_move_window(2);
    assert!(!m.windows[0].is_mouse_moving);
    assert!(!m.windows[1].is_mouse_moving);
    assert_eq!(m.mouse_move_window, None);
}

#[test]
fn toggle_floating_twice_restores_the_set() {
    let (mut m, _senders) = WindowsManager::new();
    let mut focused = plain_info("A");
    focused.is_focused = true;
    m.register_window(1, Some(focused));
    assert!(m.floating.is_empty());

    let cmds = m.toggle_focused_window_tiling();
    assert_eq!(m.floating, vec![1]);
    assert_eq!(cmds, vec![WindowCommand::BringToTop(1), WindowCommand::Focus(1)]);

    let cmds = m.toggle_focused_window_tiling();
    assert!(m.floating.is_empty());
    // the window is raised only on the transition into floating
    assert_eq!(cmds, vec![WindowCommand::Focus(1)]);
}

#[test]
fn toggle_without_focused_window_does_nothing() {
    let (mut m, _senders) = WindowsManager::new();
    m.register_window(1, Some(plain_info("A")));
    let cmds = m.toggle_focused_window_tiling();
    assert!(cmds.is_empty());
    assert!(m.floating.is_empty());
}

#[test]
fn window_move_reports_layoutability() {
    let (mut m, _senders) = WindowsManager::new();
    m.register_window(1, Some(plain_info("A")));
    assert!(m.window_move(1));
    m.windows[0].is_cloaked = true;
    assert!(!m.window_move(1));
    m.windows[0].did_manual_hide = true;
    assert!(m.window_move(1));
    assert!(!m.window_move(99));
}

#[test]
fn events_flow_through_the_queues() {
    let (mut m, senders) = WindowsManager::new();
    senders
        .window_events
        .send((WindowNotification::Show, 42))
        .unwrap();

    let polled = m.handle_window();
    assert_eq!(polled, Some((WindowNotification::Show, 42)));
    // nothing else is queued: a second poll drains nothing
    assert_eq!(m.handle_window(), None);

    let (kind, hwnd) = polled.unwrap();
    m.process_window_event(kind, hwnd, Some(plain_info("Mail")));
    assert_eq!(m.windows.len(), 1);
    assert_eq!(m.windows[0].handle, 42);

    senders
        .window_events
        .send((WindowNotification::Destroy, 42))
        .unwrap();
    let (kind, hwnd) = m.handle_window().unwrap();
    m.process_window_event(kind, hwnd, None);
    assert!(m.windows.is_empty());
}

#[test]
fn key_chords_flow_through_their_queue() {
    let (mut m, senders) = WindowsManager::new();
    let mut focused = plain_info("A");
    focused.is_focused = true;
    m.register_window(1, Some(focused));

    let bindings = default_key_bindings();
    let chord = Keys { shift: false, ctrl: false, alt: true, win: false, key: VirtualKey::T };
    senders.keys.send(chord).unwrap();
    let cmds = m.handle_keys(&bindings);
    assert_eq!(cmds, vec![WindowCommand::BringToTop(1), WindowCommand::Focus(1)]);
    assert_eq!(m.floating, vec![1]);

    // an empty queue leaves everything alone
    let cmds = m.handle_keys(&bindings);
    assert!(cmds.is_empty());
    assert_eq!(m.floating, vec![1]);
}

#[test]
fn chord_with_different_modifiers_does_not_match() {
    let bindings = default_key_bindings();
    let bound = Keys { shift: false, ctrl: false, alt: true, win: false, key: VirtualKey::T };
    assert_eq!(find_action(&bindings, &bound), Some(Action::ToggleFocusedWindowTiling));

    // same virtual key, extra or missing modifier bits: no match
    let with_ctrl = Keys { ctrl: true, ..bound };
    let without_alt = Keys { alt: false, ..bound };
    let with_win = Keys { win: true, ..bound };
    assert_eq!(find_action(&bindings, &with_ctrl), None);
    assert_eq!(find_action(&bindings, &without_alt), None);
    assert_eq!(find_action(&bindings, &with_win), None);

    let other_key = Keys { key: VirtualKey::U, ..bound };
    assert_eq!(find_action(&bindings, &other_key), None);
}

#[test]
fn mouse_queue_drains_one_signal_per_poll() {
    let (m, senders) = WindowsManager::new();
    assert!(!m.handle_mouse());
    senders.mouse.send(()).unwrap();
    senders.mouse.send(()).unwrap();
    assert!(m.handle_mouse());
    assert!(m.handle_mouse());
    assert!(!m.handle_mouse());
}

#[test]
fn moving_window_snapshot() {
    let (mut m, _senders) = WindowsManager::new();
    m.register_window(1, Some(plain_info("A")));
    assert!(m.moving_window().is_none());
    m.start_move_window(1);
    let snapshot = m.moving_window().unwrap();
    assert_eq!(snapshot.handle, 1);
    assert!(snapshot.is_mouse_moving);
    m.end_move_window(1);
    assert!(m.moving_window().is_none());
}

#[test]
fn change_layout_selects_the_engine_type() {
    let (mut m, _senders) = WindowsManager::new();
    assert_eq!(m.layout_engine_type, LayoutEngineType::Dwindle);
    m.change_layout(LayoutEngineType::Grid);
    assert_eq!(m.layout_engine_type, LayoutEngineType::Grid);
}

#[test]
fn test_layout_uses_a_fresh_engine_of_the_chosen_type() {
    let (mut m, _senders) = WindowsManager::new();
    m.register_window(1, Some(plain_info("A")));
    m.register_window(2, Some(plain_info("B")));
    m.register_window(3, Some(plain_info("C")));
    let layout = m.test_layout(LayoutEngineType::Dwindle, 1000, 1000);
    assert_eq!(layout.len(), 3);
    assert_eq!((layout[0].x, layout[0].y, layout[0].width, layout[0].height), (0, 0, 500, 1000));
    assert_eq!((layout[1].x, layout[1].y, layout[1].width, layout[1].height), (500, 0, 500, 500));
    assert_eq!((layout[2].x, layout[2].y, layout[2].width, layout[2].height), (500, 500, 500, 500));
}

#[test]
fn show_windows_in_current_state_clears_manual_hide() {
    let (mut m, _senders) = WindowsManager::new();
    let mut minimized = plain_info("A");
    minimized.is_minimized = true;
    m.register_window(1, Some(minimized));
    let mut maximized = plain_info("B");
    maximized.is_maximized = true;
    m.register_window(2, Some(maximized));
    m.register_window(3, Some(plain_info("C")));
    m.windows[2].did_manual_hide = true;

    let shows = m.show_windows_in_current_state();
    assert_eq!(
        shows,
        vec![
            (1, WindowState::Minimized),
            (2, WindowState::Maximized),
            (3, WindowState::Normal),
        ]
    );
    assert!(!m.windows[2].did_manual_hide);
}
