use tile_rs::layout_engines::{LayoutEngine, LayoutEngineType};
use tile_rs::window::Window;
use tile_rs::window_location::WindowState;
use tile_rs::windows_manager::WindowUpdateType;
use tile_rs::workspace::{WindowOrder, Workspace};
use tile_rs::workspace_container::WorkspaceContainer;

fn window(handle: isize, focused: bool) -> Window {
    Window {
        handle,
        title: format!("window {}", handle),
        class: "AppClass".to_string(),
        process_id: 100,
        process_name: "C:/apps/app.exe".to_string(),
        process_file_name: "app.exe".to_string(),
        did_manual_hide: false,
        is_mouse_moving: false,
        is_focused: focused,
        is_minimized: false,
        is_maximized: false,
        is_cloaked: false,
    }
}

#[test]
fn new_workspace_starts_empty_with_full_layout() {
    let ws = Workspace::new("main");
    assert_eq!(ws.name, "main");
    assert!(ws.windows.is_empty());
    assert_eq!(ws.layout_engine, LayoutEngineType::Full);
    assert!(ws.last_focused.is_none());
    assert_eq!(ws.layout_name(), "Full");
}

#[test]
fn add_window_order_and_focus_memory() {
    let mut ws = Workspace::new("main");
    ws.add_window(&window(1, false), WindowOrder::NewWindowsLast);
    ws.add_window(&window(2, false), WindowOrder::NewWindowsLast);
    ws.add_window(&window(3, false), WindowOrder::NewWindowsFirst);
    let handles: Vec<isize> = ws.windows.iter().map(|w| w.handle).collect();
    assert_eq!(handles, vec![3, 1, 2]);
    // the first window became the remembered focus holder
    assert_eq!(ws.last_focused.as_ref().map(|w| w.handle), Some(1));

    // a focused window takes the memory over
    ws.add_window(&window(4, true), WindowOrder::NewWindowsLast);
    assert_eq!(ws.last_focused.as_ref().map(|w| w.handle), Some(4));
}

#[test]
fn remove_window_moves_focus_memory_to_the_next() {
    let mut ws = Workspace::new("main");
    ws.add_window(&window(1, true), WindowOrder::NewWindowsLast);
    ws.add_window(&window(2, false), WindowOrder::NewWindowsLast);
    ws.add_window(&window(3, false), WindowOrder::NewWindowsLast);
    assert_eq!(ws.last_focused.as_ref().map(|w| w.handle), Some(1));

    ws.remove_window(&window(1, true));
    let handles: Vec<isize> = ws.windows.iter().map(|w| w.handle).collect();
    assert_eq!(handles, vec![2, 3]);
    assert_eq!(ws.last_focused.as_ref().map(|w| w.handle), Some(2));
}

#[test]
fn remove_last_window_clears_focus_memory() {
    let mut ws = Workspace::new("main");
    ws.add_window(&window(1, true), WindowOrder::NewWindowsLast);
    ws.remove_window(&window(1, true));
    assert!(ws.windows.is_empty());
    assert!(ws.last_focused.is_none());
}

#[test]
fn focused_window_and_close_focus_window() {
    let mut ws = Workspace::new("main");
    ws.add_window(&window(1, false), WindowOrder::NewWindowsLast);
    assert!(ws.focused_window().is_none());
    assert_eq!(ws.close_focus_window(), None);

    ws.add_window(&window(2, true), WindowOrder::NewWindowsLast);
    assert_eq!(ws.focused_window().map(|w| w.handle), Some(2));
    assert_eq!(ws.close_focus_window(), Some(2));
}

#[test]
fn update_window_remembers_the_foreground_window() {
    let mut ws = Workspace::new("main");
    ws.add_window(&window(1, false), WindowOrder::NewWindowsLast);
    ws.update_window(&window(5, false), WindowUpdateType::Foreground);
    assert_eq!(ws.last_focused.as_ref().map(|w| w.handle), Some(5));
    ws.update_window(&window(6, false), WindowUpdateType::Move);
    assert_eq!(ws.last_focused.as_ref().map(|w| w.handle), Some(5));
}

#[test]
fn cycling_layout_engines_keeps_tuning_state() {
    let mut ws = Workspace::new("main");
    assert_eq!(ws.layout_engine, LayoutEngineType::Full);
    ws.next_layout_engine();
    assert_eq!(ws.layout_engine, LayoutEngineType::Grid);
    ws.next_layout_engine();
    assert_eq!(ws.layout_engine, LayoutEngineType::Dwindle);
    ws.previous_layout_engine();
    ws.previous_layout_engine();
    assert_eq!(ws.layout_engine, LayoutEngineType::Full);

    // tune the dwindle engine, switch away and back: the offset is kept
    ws.next_layout_engine();
    ws.next_layout_engine();
    assert_eq!(ws.layout_engine, LayoutEngineType::Dwindle);
    match ws.get_layout_engine() {
        LayoutEngine::Dwindle(e) => assert_eq!(e.primary_percent_offset, 0),
        _ => panic!("expected the dwindle engine"),
    }
    ws.add_window(&window(1, false), WindowOrder::NewWindowsLast);
    ws.add_window(&window(2, false), WindowOrder::NewWindowsLast);
    // expand the dwindle primary area through the engine directly
    let mut engines_probe = ws.engines.clone();
    match &mut engines_probe[0] {
        LayoutEngine::Dwindle(e) => e.expand_primary_area(),
        _ => panic!("expected the dwindle engine at its cycle position"),
    }
    ws.engines = engines_probe;
    ws.next_layout_engine();
    ws.previous_layout_engine();
    match ws.get_layout_engine() {
        LayoutEngine::Dwindle(e) => assert_eq!(e.primary_percent_offset, 3),
        _ => panic!("expected the dwindle engine"),
    }
    ws.reset_layout();
    match ws.get_layout_engine() {
        LayoutEngine::Dwindle(e) => assert_eq!(e.primary_percent_offset, 0),
        _ => panic!("expected the dwindle engine"),
    }
}

#[test]
fn do_layout_keeps_the_full_engines_memory_across_calls() {
    let mut ws = Workspace::new("main");
    assert_eq!(ws.layout_engine, LayoutEngineType::Full);
    ws.add_window(&window(1, false), WindowOrder::NewWindowsLast);
    ws.add_window(&window(2, true), WindowOrder::NewWindowsLast);

    let layout = ws.do_layout(1920, 1080);
    assert_eq!(layout[0].state, WindowState::Minimized);
    assert_eq!(layout[1].state, WindowState::Normal);

    // focus is lost entirely; the previously full window stays normal
    ws.windows[1].is_focused = false;
    let layout = ws.do_layout(1920, 1080);
    assert_eq!(layout[0].state, WindowState::Minimized);
    assert_eq!(layout[1].state, WindowState::Normal);
}

#[test]
fn do_layout_empty_workspace_yields_empty_layout() {
    let mut ws = Workspace::new("main");
    assert!(ws.do_layout(1000, 1000).is_empty());
    ws.next_layout_engine();
    assert!(ws.do_layout(1000, 1000).is_empty());
}

#[test]
fn swap_windows_exchanges_positions() {
    let mut ws = Workspace::new("main");
    ws.add_window(&window(1, false), WindowOrder::NewWindowsLast);
    ws.add_window(&window(2, false), WindowOrder::NewWindowsLast);
    ws.add_window(&window(3, false), WindowOrder::NewWindowsLast);
    ws.swap_windows(&window(1, false), &window(3, false));
    let handles: Vec<isize> = ws.windows.iter().map(|w| w.handle).collect();
    assert_eq!(handles, vec![3, 2, 1]);

    // a missing handle leaves the list unchanged
    ws.swap_windows(&window(1, false), &window(9, false));
    let handles: Vec<isize> = ws.windows.iter().map(|w| w.handle).collect();
    assert_eq!(handles, vec![3, 2, 1]);
}

#[test]
fn container_creates_workspaces_by_name() {
    let mut c = WorkspaceContainer::new();
    c.create_workspaces(vec!["one", "two", "three"]);
    assert_eq!(c.workspaces.len(), 3);
    assert_eq!(c.workspaces[0].name, "one");
    assert_eq!(c.workspaces[1].name, "two");
    assert_eq!(c.workspaces[2].name, "three");
    c.create_workspace("four");
    assert_eq!(c.workspaces.len(), 4);
    assert_eq!(c.workspaces[3].name, "four");
}

#[test]
fn layout_names_follow_the_active_variant() {
    let mut ws = Workspace::new("main");
    let mut names = Vec::new();
    for _ in 0..4 {
        names.push(ws.layout_name());
        ws.next_layout_engine();
    }
    assert_eq!(names, vec!["Full", "Grid", "Dwindle", "Focus"]);
}
