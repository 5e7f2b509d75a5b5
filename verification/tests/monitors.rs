use tile_rs::monitor::Monitor;
use tile_rs::native_monitor_container::NativeMonitorContainer;
use tile_rs::screen::Screen;
use tile_rs::structs::Rectangle;

fn screen(name: &str, x: i32, width: i32, primary: bool) -> Screen {
    Screen::new(
        Rectangle::new(x, 0, width, 1080),
        Rectangle::new(x, 0, width, 1040),
        primary,
        name.to_string(),
        x as isize,
        32,
    )
}

#[test]
fn monitor_exposes_its_working_area() {
    let m = Monitor::new(0, screen("DISPLAY1", 0, 1920, true));
    assert_eq!(m.name(), "DISPLAY1");
    assert_eq!(m.x(), 0);
    assert_eq!(m.y(), 0);
    assert_eq!(m.width(), 1920);
    assert_eq!(m.height(), 1040);
}

#[test]
fn primary_screen_finds_the_first_primary() {
    let screens = vec![
        screen("DISPLAY1", 0, 1920, false),
        screen("DISPLAY2", 1920, 1280, true),
    ];
    let p = Screen::primary_screen(&screens).unwrap();
    assert_eq!(p.device_name, "DISPLAY2");

    let none = vec![screen("DISPLAY1", 0, 1920, false)];
    assert!(Screen::primary_screen(&none).is_none());
}

#[test]
fn container_enumerates_monitors_in_order() {
    let c = NativeMonitorContainer::new(vec![
        screen("DISPLAY1", 0, 1920, true),
        screen("DISPLAY2", 1920, 1280, false),
    ]);
    assert_eq!(c.num_monitors(), 2);
    assert_eq!(c.focused_monitor().name(), "DISPLAY1");
    assert_eq!(c.get_all_monitors().len(), 2);
    assert_eq!(c.get_monitor_at_index(1).unwrap().name(), "DISPLAY2");
    assert!(c.get_monitor_at_index(2).is_none());
    assert!(c.get_monitor_at_index(-1).is_none());
}

#[test]
fn lookup_by_point_and_rectangle() {
    let c = NativeMonitorContainer::new(vec![
        screen("DISPLAY1", 0, 1920, true),
        screen("DISPLAY2", 1920, 1280, false),
    ]);
    assert_eq!(c.get_monitor_at_point(100, 100).name(), "DISPLAY1");
    assert_eq!(c.get_monitor_at_point(2000, 100).name(), "DISPLAY2");
    // a point on no display falls back to the first monitor
    assert_eq!(c.get_monitor_at_point(-50, 0).name(), "DISPLAY1");

    assert_eq!(c.get_monitor_at_rect(2000, 10, 100, 100).name(), "DISPLAY2");
    assert_eq!(c.get_monitor_at_rect(-500, 10, 100, 100).name(), "DISPLAY1");
}

#[test]
fn next_and_previous_monitor_wrap_around() {
    let c = NativeMonitorContainer::new(vec![
        screen("DISPLAY1", 0, 1920, true),
        screen("DISPLAY2", 1920, 1280, false),
    ]);
    assert_eq!(c.get_next_monitor().name(), "DISPLAY2");
    assert_eq!(c.get_previous_monitor().name(), "DISPLAY2");

    let single = NativeMonitorContainer::new(vec![screen("DISPLAY1", 0, 1920, true)]);
    assert_eq!(single.get_next_monitor().name(), "DISPLAY1");
    assert_eq!(single.get_previous_monitor().name(), "DISPLAY1");
}
