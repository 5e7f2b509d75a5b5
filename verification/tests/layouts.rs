use tile_rs::layout_engines::dwindle_layout_engine::DwindleLayoutEngine;
use tile_rs::layout_engines::focus_layout_engine::FocusLayoutEngine;
use tile_rs::layout_engines::full_layout_engine::FullLayoutEngine;
use tile_rs::layout_engines::grid_layout_engine::GridLayoutEngine;
use tile_rs::layout_engines::{LayoutEngine, LayoutEngineType};
use tile_rs::window::Window;
use tile_rs::window_location::{WindowLocation, WindowState};

fn window(handle: isize, focused: bool) -> Window {
    Window {
        handle,
        title: format!("window {}", handle),
        class: "AppClass".to_string(),
        process_id: 100,
        process_name: "C:/apps/app.exe".to_string(),
        process_file_name: "app.exe".to_string(),
        did_manual_hide: false,
        is_mouse_moving: false,
        is_focused: focused,
        is_minimized: false,
        is_maximized: false,
        is_cloaked: false,
    }
}

fn windows(n: usize) -> Vec<Window> {
    (0..n).map(|i| window(i as isize + 1, false)).collect()
}

fn loc(x: i32, y: i32, width: i32, height: i32, state: WindowState) -> WindowLocation {
    WindowLocation::new(x, y, width, height, state)
}

#[test]
fn every_engine_yields_empty_layout_for_no_windows() {
    let empty: Vec<Window> = vec![];
    assert!(DwindleLayoutEngine::new().calc_layout(&empty, 1000, 1000).is_empty());
    assert!(FocusLayoutEngine::new().calc_layout(&empty, 1000, 1000).is_empty());
    assert!(FullLayoutEngine::new().calc_layout(&empty, 1000, 1000).is_empty());
    assert!(GridLayoutEngine::new().calc_layout(&empty, 1000, 1000).is_empty());
    assert!(DwindleLayoutEngine::new().calc_layout(&empty, 0, 0).is_empty());
    assert!(GridLayoutEngine::new().calc_layout(&empty, 0, 0).is_empty());
}

#[test]
fn dwindle_three_windows_alternating_bisection() {
    let mut engine = DwindleLayoutEngine::new();
    let ws = windows(3);
    let layout = engine.calc_layout(&ws, 1000, 1000);
    assert_eq!(layout.len(), 3);
    assert_eq!(layout[0], loc(0, 0, 500, 1000, WindowState::Normal));
    assert_eq!(layout[1], loc(500, 0, 500, 500, WindowState::Normal));
    assert_eq!(layout[2], loc(500, 500, 500, 500, WindowState::Normal));
}

#[test]
fn dwindle_five_windows_keeps_halving() {
    let mut engine = DwindleLayoutEngine::new();
    let ws = windows(5);
    let layout = engine.calc_layout(&ws, 1000, 1000);
    assert_eq!(layout.len(), 5);
    assert_eq!(layout[0], loc(0, 0, 500, 1000, WindowState::Normal));
    assert_eq!(layout[1], loc(500, 0, 500, 500, WindowState::Normal));
    assert_eq!(layout[2], loc(500, 500, 250, 500, WindowState::Normal));
    assert_eq!(layout[3], loc(750, 500, 250, 250, WindowState::Normal));
    assert_eq!(layout[4], loc(750, 750, 250, 250, WindowState::Normal));
}

#[test]
fn dwindle_primary_takes_full_width_when_all_primary() {
    let mut engine = DwindleLayoutEngine::new();
    engine.increment_num_in_primary();
    engine.increment_num_in_primary();
    assert_eq!(engine.get_num_in_primary(), 3);
    let ws = windows(3);
    let layout = engine.calc_layout(&ws, 900, 900);
    for cell in &layout {
        assert_eq!(cell.x, 0);
        assert_eq!(cell.width, 900);
        assert_eq!(cell.height, 300);
    }
}

#[test]
fn focus_primary_takes_full_width_when_all_primary() {
    let engine = FocusLayoutEngine::with_params(4, 70, 3);
    let ws = windows(3);
    let layout = engine.calc_layout(&ws, 800, 600);
    for cell in &layout {
        assert_eq!(cell.x, 0);
        assert_eq!(cell.width, 800);
    }
}

#[test]
fn focus_balances_left_and_right_stacks() {
    let engine = FocusLayoutEngine::new();
    let ws = windows(3);
    let layout = engine.calc_layout(&ws, 1000, 600);
    assert_eq!(layout.len(), 3);
    assert_eq!(layout[0], loc(150, 0, 700, 600, WindowState::Normal));
    assert_eq!(layout[1], loc(0, 0, 150, 600, WindowState::Normal));
    assert_eq!(layout[2], loc(850, 0, 150, 600, WindowState::Normal));
}

#[test]
fn focus_primary_absorbs_empty_right_stack() {
    // two windows: one in primary, one on the left, none on the right
    let engine = FocusLayoutEngine::new();
    let ws = windows(2);
    let layout = engine.calc_layout(&ws, 1000, 600);
    assert_eq!(layout.len(), 2);
    assert_eq!(layout[0], loc(150, 0, 850, 600, WindowState::Normal));
    assert_eq!(layout[1], loc(0, 0, 150, 600, WindowState::Normal));
}

#[test]
fn grid_counts_and_cells_stay_in_bounds() {
    for n in 1..=16usize {
        let mut engine = GridLayoutEngine::new();
        let ws = windows(n);
        let layout = engine.calc_layout(&ws, 900, 600);
        assert_eq!(layout.len(), n);
        for cell in &layout {
            assert!(cell.x >= 0 && cell.y >= 0);
            assert!(cell.width >= 0 && cell.height >= 0);
            assert!(cell.x + cell.width <= 900);
            assert!(cell.y + cell.height <= 600);
        }
    }
}

#[test]
fn grid_five_windows_row_major() {
    let mut engine = GridLayoutEngine::new();
    let ws = windows(5);
    let layout = engine.calc_layout(&ws, 900, 600);
    assert_eq!(layout[0], loc(0, 0, 300, 300, WindowState::Normal));
    assert_eq!(layout[1], loc(300, 0, 300, 300, WindowState::Normal));
    assert_eq!(layout[2], loc(600, 0, 300, 300, WindowState::Normal));
    assert_eq!(layout[3], loc(0, 300, 300, 300, WindowState::Normal));
    assert_eq!(layout[4], loc(300, 300, 300, 300, WindowState::Normal));
}

#[test]
fn full_shows_exactly_the_focused_window_normal() {
    let mut engine = FullLayoutEngine::new();
    let mut ws = windows(3);
    ws[1].is_focused = true;
    let layout = engine.calc_layout(&ws, 1920, 1080);
    assert_eq!(layout.len(), 3);
    assert_eq!(layout[0].state, WindowState::Minimized);
    assert_eq!(layout[1].state, WindowState::Normal);
    assert_eq!(layout[2].state, WindowState::Minimized);
    for cell in &layout {
        assert_eq!((cell.x, cell.y, cell.width, cell.height), (0, 0, 1920, 1080));
    }
}

#[test]
fn full_keeps_last_full_window_when_focus_is_lost() {
    let mut engine = FullLayoutEngine::new();
    let mut ws = windows(3);
    ws[1].is_focused = true;
    let _ = engine.calc_layout(&ws, 1920, 1080);
    assert_eq!(engine.last_full, Some(2));

    // the desktop is clicked: nothing is focused any more
    ws[1].is_focused = false;
    let layout = engine.calc_layout(&ws, 1920, 1080);
    assert_eq!(layout[0].state, WindowState::Minimized);
    assert_eq!(layout[1].state, WindowState::Normal);
    assert_eq!(layout[2].state, WindowState::Minimized);
}

#[test]
fn full_minimizes_everything_without_focus_or_history() {
    let mut engine = FullLayoutEngine::new();
    let ws = windows(2);
    let layout = engine.calc_layout(&ws, 100, 100);
    assert_eq!(layout[0].state, WindowState::Minimized);
    assert_eq!(layout[1].state, WindowState::Minimized);
}

#[test]
fn layout_type_cycle_is_closed() {
    let all = LayoutEngineType::variants();
    assert_eq!(
        all,
        [
            LayoutEngineType::Dwindle,
            LayoutEngineType::Focus,
            LayoutEngineType::Full,
            LayoutEngineType::Grid,
        ]
    );
    for t in all {
        assert_eq!(t.next().previous(), t);
        assert_eq!(t.previous().next(), t);
    }
    assert_eq!(LayoutEngineType::Grid.next(), LayoutEngineType::Dwindle);
    assert_eq!(LayoutEngineType::Dwindle.previous(), LayoutEngineType::Grid);
    assert_eq!(LayoutEngineType::default(), LayoutEngineType::Full);
}

#[test]
fn engine_names() {
    assert_eq!(DwindleLayoutEngine::new().name(), "dwindle");
    assert_eq!(FocusLayoutEngine::new().name(), "focus");
    assert_eq!(FullLayoutEngine::new().name(), "full");
    assert_eq!(GridLayoutEngine::new().name(), "grid");
    assert_eq!(LayoutEngine::of_type(LayoutEngineType::Grid).name(), "grid");
}

#[test]
fn primary_area_tuning_moves_the_split() {
    let mut engine = DwindleLayoutEngine::new();
    engine.expand_primary_area();
    let ws = windows(2);
    let layout = engine.calc_layout(&ws, 1000, 1000);
    assert_eq!(layout[0].width, 530);
    engine.shrink_primary_area();
    engine.shrink_primary_area();
    let layout = engine.calc_layout(&ws, 1000, 1000);
    assert_eq!(layout[0].width, 470);
    engine.reset_primary_area();
    let layout = engine.calc_layout(&ws, 1000, 1000);
    assert_eq!(layout[0].width, 500);
}

#[test]
fn decrement_num_in_primary_stops_at_one() {
    let mut engine = DwindleLayoutEngine::new();
    assert_eq!(engine.get_num_in_primary(), 1);
    engine.decrement_num_in_primary();
    assert_eq!(engine.get_num_in_primary(), 1);
    engine.increment_num_in_primary();
    assert_eq!(engine.get_num_in_primary(), 2);
    engine.decrement_num_in_primary();
    assert_eq!(engine.get_num_in_primary(), 1);
}

#[test]
fn full_and_grid_tuning_operations_are_no_ops() {
    let mut full = FullLayoutEngine::new();
    full.shrink_primary_area();
    full.expand_primary_area();
    full.reset_primary_area();
    full.increment_num_in_primary();
    full.decrement_num_in_primary();
    assert_eq!(full, FullLayoutEngine::new());

    let mut grid = GridLayoutEngine::new();
    grid.shrink_primary_area();
    grid.expand_primary_area();
    grid.reset_primary_area();
    grid.increment_num_in_primary();
    grid.decrement_num_in_primary();
    assert_eq!(grid, GridLayoutEngine::new());
}

#[test]
fn engine_dispatch_matches_concrete_engines() {
    let ws = windows(3);
    let mut by_enum = LayoutEngine::of_type(LayoutEngineType::Dwindle);
    let from_enum = by_enum.calc_layout(&ws, 1000, 1000);
    let mut direct = DwindleLayoutEngine::new();
    let from_direct = direct.calc_layout(&ws, 1000, 1000);
    assert_eq!(from_enum, from_direct);
    assert_eq!(by_enum.engine_type(), LayoutEngineType::Dwindle);
}
