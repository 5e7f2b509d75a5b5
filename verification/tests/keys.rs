use tile_rs::key_bindings::{default_key_bindings, Action};
use tile_rs::keys::{Keys, VirtualKey};
use tile_rs::window_location::{WindowLocation, WindowState};

#[test]
fn virtual_keys_decode_from_their_codes() {
    assert_eq!(VirtualKey::from_vk(0x08), VirtualKey::Backspace);
    assert_eq!(VirtualKey::from_vk(0x0D), VirtualKey::Enter);
    assert_eq!(VirtualKey::from_vk(0x1B), VirtualKey::Esc);
    assert_eq!(VirtualKey::from_vk(0x20), VirtualKey::Space);
    assert_eq!(VirtualKey::from_vk(0x30), VirtualKey::Key0);
    assert_eq!(VirtualKey::from_vk(0x39), VirtualKey::Key9);
    assert_eq!(VirtualKey::from_vk(0x41), VirtualKey::A);
    assert_eq!(VirtualKey::from_vk(0x54), VirtualKey::T);
    assert_eq!(VirtualKey::from_vk(0x5A), VirtualKey::Z);
    assert_eq!(VirtualKey::from_vk(0x70), VirtualKey::F1);
    assert_eq!(VirtualKey::from_vk(0x87), VirtualKey::F24);
    assert_eq!(VirtualKey::from_vk(0xA0), VirtualKey::LeftShift);
    assert_eq!(VirtualKey::from_vk(0xDE), VirtualKey::Quote);
}

#[test]
fn unknown_codes_decode_to_unknown() {
    assert_eq!(VirtualKey::from_vk(0x00), VirtualKey::Unknown);
    assert_eq!(VirtualKey::from_vk(0x07), VirtualKey::Unknown);
    assert_eq!(VirtualKey::from_vk(0x5E), VirtualKey::Unknown);
    assert_eq!(VirtualKey::from_vk(0xFF), VirtualKey::Unknown);
    assert_eq!(VirtualKey::from_vk(0x1_0000), VirtualKey::Unknown);
}

#[test]
fn default_chord_is_alt_t() {
    let bindings = default_key_bindings();
    assert_eq!(bindings.len(), 1);
    let (action, keys) = bindings[0];
    assert_eq!(action, Action::ToggleFocusedWindowTiling);
    assert_eq!(
        keys,
        Keys { shift: false, ctrl: false, alt: true, win: false, key: VirtualKey::T }
    );
}

#[test]
fn default_keys_have_no_modifiers() {
    let k = Keys::default();
    assert!(!k.shift && !k.ctrl && !k.alt && !k.win);
    assert_eq!(k.key, VirtualKey::Unknown);
}

#[test]
fn point_inside_location_is_edge_inclusive() {
    let l = WindowLocation::new(10, 10, 100, 50, WindowState::Normal);
    assert!(l.is_point_inside(10, 10));
    assert!(l.is_point_inside(110, 60));
    assert!(l.is_point_inside(50, 30));
    assert!(!l.is_point_inside(9, 30));
    assert!(!l.is_point_inside(111, 30));
    assert!(!l.is_point_inside(50, 61));
}
