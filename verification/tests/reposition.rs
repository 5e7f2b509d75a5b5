use tile_rs::structs::Rectangle;
use tile_rs::window::Window;
use tile_rs::window_location::{WindowLocation, WindowState};
use tile_rs::windows_defer_pos_handle::{ShowCommand, WindowPosChange, WindowsDeferPosHandle};

fn window(handle: isize) -> Window {
    Window {
        handle,
        title: format!("window {}", handle),
        class: "AppClass".to_string(),
        process_id: 100,
        process_name: "C:/apps/app.exe".to_string(),
        process_file_name: "app.exe".to_string(),
        did_manual_hide: false,
        is_mouse_moving: false,
        is_focused: false,
        is_minimized: false,
        is_maximized: false,
        is_cloaked: false,
    }
}

#[test]
fn target_is_adjusted_by_the_frame_offset() {
    let mut batch = WindowsDeferPosHandle::new();
    let target = WindowLocation::new(100, 100, 800, 600, WindowState::Normal);
    let offset = Rectangle::new(-7, 0, 14, 7);
    let current = WindowLocation::new(0, 0, 0, 0, WindowState::Normal);
    batch.defer_window_pos(&window(1), &target, &offset, &current);
    assert_eq!(
        batch.moves,
        vec![WindowPosChange { handle: 1, x: 93, y: 100, width: 814, height: 607 }]
    );
    assert_eq!(batch.to_normal, vec![1]);
    assert!(batch.to_minimize.is_empty());
    assert!(batch.to_maximize.is_empty());
}

#[test]
fn unchanged_geometry_records_no_move() {
    let mut batch = WindowsDeferPosHandle::new();
    let target = WindowLocation::new(100, 100, 800, 600, WindowState::Normal);
    let offset = Rectangle::new(-7, 0, 14, 7);
    // the window already stands exactly at the adjusted target
    let current = WindowLocation::new(93, 100, 814, 607, WindowState::Normal);
    batch.defer_window_pos(&window(1), &target, &offset, &current);
    assert!(batch.moves.is_empty());
    assert_eq!(batch.to_normal, vec![1]);
}

#[test]
fn finalize_orders_minimize_then_maximize_then_normal() {
    let mut batch = WindowsDeferPosHandle::new();
    let offset = Rectangle::new(0, 0, 0, 0);
    let current = WindowLocation::new(0, 0, 0, 0, WindowState::Normal);

    batch.defer_window_pos(&window(1), &WindowLocation::new(1, 0, 10, 10, WindowState::Normal), &offset, &current);
    batch.defer_window_pos(&window(2), &WindowLocation::new(2, 0, 10, 10, WindowState::Minimized), &offset, &current);
    batch.defer_window_pos(&window(3), &WindowLocation::new(3, 0, 10, 10, WindowState::Maximized), &offset, &current);
    batch.defer_window_pos(&window(4), &WindowLocation::new(4, 0, 10, 10, WindowState::Minimized), &offset, &current);

    let commands = batch.finalize();
    assert_eq!(
        commands,
        vec![
            ShowCommand::Minimize(2),
            ShowCommand::Minimize(4),
            ShowCommand::Maximize(3),
            ShowCommand::ShowNormal(1),
        ]
    );
}
