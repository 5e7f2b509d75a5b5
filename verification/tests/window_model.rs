use tile_rs::event::Event;
use tile_rs::window::{ProcessDetails, Window, WindowInfo};
use tile_rs::window_location::WindowState;
use tile_rs::Settings;
use tile_rs::layout_engines::LayoutEngineType;
use tile_rs::workspace::WindowOrder;

fn make_window() -> Window {
    Window::new(
        11,
        WindowInfo {
            title: "Notes".to_string(),
            class: "AppClass".to_string(),
            process: Some(ProcessDetails {
                id: 7,
                path: "C:/apps/notes.exe".to_string(),
                file_name: "notes.exe".to_string(),
            }),
            is_focused: true,
            is_minimized: false,
            is_maximized: false,
            is_cloaked: false,
        },
    )
    .unwrap()
}

#[test]
fn accessors_reflect_the_captured_metadata() {
    let w = make_window();
    assert_eq!(w.handle(), 11);
    assert_eq!(w.title(), "Notes");
    assert_eq!(w.class(), "AppClass");
    assert_eq!(w.process_id(), 7);
    assert_eq!(w.process_name(), "C:/apps/notes.exe");
    assert_eq!(w.process_file_name(), "notes.exe");
    assert!(w.is_focused());
    assert!(!w.is_minimized());
    assert!(!w.is_maximized());
}

#[test]
fn manual_hide_marks_only_layoutable_windows() {
    let mut w = make_window();
    assert!(w.can_layout());
    w.hide_window();
    assert!(w.did_manual_hide());

    let mut cloaked = make_window();
    cloaked.is_cloaked = true;
    assert!(!cloaked.can_layout());
    cloaked.hide_window();
    assert!(!cloaked.did_manual_hide());
    // once manually hidden, a window stays ours even while cloaked
    cloaked.did_manual_hide = true;
    assert!(cloaked.can_layout());
}

#[test]
fn show_calls_clear_the_manual_hide_mark() {
    let mut w = make_window();
    w.hide_window();
    assert!(w.did_manual_hide());
    w.show_normal();
    assert!(!w.did_manual_hide());

    w.hide_window();
    w.show_maximized();
    assert!(!w.did_manual_hide());

    w.hide_window();
    w.show_minimized();
    assert!(!w.did_manual_hide());
}

#[test]
fn show_in_current_state_picks_the_matching_state() {
    let mut w = make_window();
    assert_eq!(w.show_in_current_state(), WindowState::Normal);
    w.is_minimized = true;
    assert_eq!(w.show_in_current_state(), WindowState::Minimized);
    w.is_minimized = false;
    w.is_maximized = true;
    assert_eq!(w.show_in_current_state(), WindowState::Maximized);
}

#[test]
fn broadcast_reaches_every_subscriber() {
    let mut event: Event<u32> = Event::new();
    let first = event.subscribe();
    let second = event.subscribe();
    event.broadcast(42);
    assert_eq!(first.try_recv(), Ok(42));
    assert_eq!(second.try_recv(), Ok(42));
    assert!(first.try_recv().is_err());
}

#[test]
fn broadcast_drops_gone_subscribers_silently() {
    let mut event: Event<u32> = Event::new();
    let first = event.subscribe();
    let gone = event.subscribe();
    drop(gone);
    event.broadcast(1);
    event.broadcast(2);
    assert_eq!(first.try_recv(), Ok(1));
    assert_eq!(first.try_recv(), Ok(2));
}

#[test]
fn settings_default_to_full_layout_and_append_order() {
    let s = Settings::default();
    assert_eq!(s.layout_engine_type, LayoutEngineType::Full);
    assert_eq!(s.new_window_order, WindowOrder::NewWindowsLast);
}
