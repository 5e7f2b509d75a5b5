//! Key chords: a set of modifier bits plus one virtual key. Chords compare
//! for exact equality on every field; bindings are matched by full equality,
//! never by prefix.

use vstd::prelude::*;

verus! {

#[derive(Debug, Clone, Copy, PartialEq, Eq, Structural)]
pub struct Keys {
    pub shift: bool,
    pub ctrl: bool,
    pub alt: bool,
    pub win: bool,
    pub key: VirtualKey,
}

impl Default for Keys {
    /// A chord with no modifiers and no recognized key.
    fn default() -> (r: Keys)
        ensures
            r == (Keys { shift: false, ctrl: false, alt: false, win: false, key: VirtualKey::Unknown }),
    {
        Keys { shift: false, ctrl: false, alt: false, win: false, key: VirtualKey::Unknown }
    }
}

#[derive(Debug, Clone, Copy, PartialEq, Eq, Structural)]
pub enum VirtualKey {
    Unknown,
    Backspace,
    Tab,
    Clear,
    Enter,
    Shift,
    Ctrl,
    Alt,
    Pause,
    Capslock,
    Esc,
    Space,
    PageUp,
    PageDown,
    End,
    Home,
    Left,
    Up,
    Right,
    Down,
    Select,
    Print,
    Execute,
    PrintScreen,
    Insert,
    Delete,
    Help,
    Key0,
    Key1,
    Key2,
    Key3,
    Key4,
    Key5,
    Key6,
    Key7,
    Key8,
    Key9,
    A,
    B,
    C,
    D,
    E,
    F,
    G,
    H,
    I,
    J,
    K,
    L,
    M,
    N,
    O,
    P,
    Q,
    R,
    S,
    T,
    U,
    V,
    W,
    X,
    Y,
    Z,
    LeftWin,
    RightWin,
    Apps,
    Sleep,
    Num0,
    Num1,
    Num2,
    Num3,
    Num4,
    Num5,
    Num6,
    Num7,
    Num8,
    Num9,
    Multiply,
    Add,
    Separator,
    Subtract,
    Decimal,
    Divide,
    F1,
    F2,
    F3,
    F4,
    F5,
    F6,
    F7,
    F8,
    F9,
    F10,
    F11,
    F12,
    F13,
    F14,
    F15,
    F16,
    F17,
    F18,
    F19,
    F20,
    F21,
    F22,
    F23,
    F24,
    NumLock,
    ScrollLock,
    LeftShift,
    RightShift,
    LeftControl,
    RightControl,
    LeftAlt,
    RightAlt,
    BrowserBack,
    BrowserForward,
    BrowserRefresh,
    BrowserStop,
    BrowserSearch,
    BrowserFavorites,
    BrowserHome,
    VolumeMute,
    VolumeDown,
    VolumeUp,
    MediaNextTrack,
    MediaPreviousTrack,
    MediaStop,
    MediaPlayPause,
    LaunchMail,
    LaunchMediaSelect,
    LaunchApp1,
    LaunchApp2,
    Semicolon,
    Equals,
    Comma,
    Minus,
    Period,
    Slash,
    BackTick,
    LeftBracket,
    Backslash,
    RightBracket,
    Quote,
}

/// The virtual key denoted by an OS virtual-key code; codes outside the
/// table denote no recognized key.
pub open spec fn spec_from_vk(vk: u32) -> VirtualKey {
    match vk {
        0x08u32 => VirtualKey::Backspace,
        0x09u32 => VirtualKey::Tab,
        0x0Cu32 => VirtualKey::Clear,
        0x0Du32 => VirtualKey::Enter,
        0x10u32 => VirtualKey::Shift,
        0x11u32 => VirtualKey::Ctrl,
        0x12u32 => VirtualKey::Alt,
        0x13u32 => VirtualKey::Pause,
        0x14u32 => VirtualKey::Capslock,
        0x1Bu32 => VirtualKey::Esc,
        0x20u32 => VirtualKey::Space,
        0x21u32 => VirtualKey::PageUp,
        0x22u32 => VirtualKey::PageDown,
        0x23u32 => VirtualKey::End,
        0x24u32 => VirtualKey::Home,
        0x25u32 => VirtualKey::Left,
        0x26u32 => VirtualKey::Up,
        0x27u32 => VirtualKey::Right,
        0x28u32 => VirtualKey::Down,
        0x29u32 => VirtualKey::Select,
        0x2Au32 => VirtualKey::Print,
        0x2Bu32 => VirtualKey::Execute,
        0x2Cu32 => VirtualKey::PrintScreen,
        0x2Du32 => VirtualKey::Insert,
        0x2Eu32 => VirtualKey::Delete,
        0x2Fu32 => VirtualKey::Help,
        0x30u32 => VirtualKey::Key0,
        0x31u32 => VirtualKey::Key1,
        0x32u32 => VirtualKey::Key2,
        0x33u32 => VirtualKey::Key3,
        0x34u32 => VirtualKey::Key4,
        0x35u32 => VirtualKey::Key5,
        0x36u32 => VirtualKey::Key6,
        0x37u32 => VirtualKey::Key7,
        0x38u32 => VirtualKey::Key8,
        0x39u32 => VirtualKey::Key9,
        0x41u32 => VirtualKey::A,
        0x42u32 => VirtualKey::B,
        0x43u32 => VirtualKey::C,
        0x44u32 => VirtualKey::D,
        0x45u32 => VirtualKey::E,
        0x46u32 => VirtualKey::F,
        0x47u32 => VirtualKey::G,
        0x48u32 => VirtualKey::H,
        0x49u32 => VirtualKey::I,
        0x4Au32 => VirtualKey::J,
        0x4Bu32 => VirtualKey::K,
        0x4Cu32 => VirtualKey::L,
        0x4Du32 => VirtualKey::M,
        0x4Eu32 => VirtualKey::N,
        0x4Fu32 => VirtualKey::O,
        0x50u32 => VirtualKey::P,
        0x51u32 => VirtualKey::Q,
        0x52u32 => VirtualKey::R,
        0x53u32 => VirtualKey::S,
        0x54u32 => VirtualKey::T,
        0x55u32 => VirtualKey::U,
        0x56u32 => VirtualKey::V,
        0x57u32 => VirtualKey::W,
        0x58u32 => VirtualKey::X,
        0x59u32 => VirtualKey::Y,
        0x5Au32 => VirtualKey::Z,
        0x5Bu32 => VirtualKey::LeftWin,
        0x5Cu32 => VirtualKey::RightWin,
        0x5Du32 => VirtualKey::Apps,
        0x5Fu32 => VirtualKey::Sleep,
        0x60u32 => VirtualKey::Num0,
        0x61u32 => VirtualKey::Num1,
        0x62u32 => VirtualKey::Num2,
        0x63u32 => VirtualKey::Num3,
        0x64u32 => VirtualKey::Num4,
        0x65u32 => VirtualKey::Num5,
        0x66u32 => VirtualKey::Num6,
        0x67u32 => VirtualKey::Num7,
        0x68u32 => VirtualKey::Num8,
        0x69u32 => VirtualKey::Num9,
        0x6Au32 => VirtualKey::Multiply,
        0x6Bu32 => VirtualKey::Add,
        0x6Cu32 => VirtualKey::Separator,
        0x6Du32 => VirtualKey::Subtract,
        0x6Eu32 => VirtualKey::Decimal,
        0x6Fu32 => VirtualKey::Divide,
        0x70u32 => VirtualKey::F1,
        0x71u32 => VirtualKey::F2,
        0x72u32 => VirtualKey::F3,
        0x73u32 => VirtualKey::F4,
        0x74u32 => VirtualKey::F5,
        0x75u32 => VirtualKey::F6,
        0x76u32 => VirtualKey::F7,
        0x77u32 => VirtualKey::F8,
        0x78u32 => VirtualKey::F9,
        0x79u32 => VirtualKey::F10,
        0x7Au32 => VirtualKey::F11,
        0x7Bu32 => VirtualKey::F12,
        0x7Cu32 => VirtualKey::F13,
        0x7Du32 => VirtualKey::F14,
        0x7Eu32 => VirtualKey::F15,
        0x7Fu32 => VirtualKey::F16,
        0x80u32 => VirtualKey::F17,
        0x81u32 => VirtualKey::F18,
        0x82u32 => VirtualKey::F19,
        0x83u32 => VirtualKey::F20,
        0x84u32 => VirtualKey::F21,
        0x85u32 => VirtualKey::F22,
        0x86u32 => VirtualKey::F23,
        0x87u32 => VirtualKey::F24,
        0x90u32 => VirtualKey::NumLock,
        0x91u32 => VirtualKey::ScrollLock,
        0xA0u32 => VirtualKey::LeftShift,
        0xA1u32 => VirtualKey::RightShift,
        0xA2u32 => VirtualKey::LeftControl,
        0xA3u32 => VirtualKey::RightControl,
        0xA4u32 => VirtualKey::LeftAlt,
        0xA5u32 => VirtualKey::RightAlt,
        0xA6u32 => VirtualKey::BrowserBack,
        0xA7u32 => VirtualKey::BrowserForward,
        0xA8u32 => VirtualKey::BrowserRefresh,
        0xA9u32 => VirtualKey::BrowserStop,
        0xAAu32 => VirtualKey::BrowserSearch,
        0xABu32 => VirtualKey::BrowserFavorites,
        0xACu32 => VirtualKey::BrowserHome,
        0xADu32 => VirtualKey::VolumeMute,
        0xAEu32 => VirtualKey::VolumeDown,
        0xAFu32 => VirtualKey::VolumeUp,
        0xB0u32 => VirtualKey::MediaNextTrack,
        0xB1u32 => VirtualKey::MediaPreviousTrack,
        0xB2u32 => VirtualKey::MediaStop,
        0xB3u32 => VirtualKey::MediaPlayPause,
        0xB4u32 => VirtualKey::LaunchMail,
        0xB5u32 => VirtualKey::LaunchMediaSelect,
        0xB6u32 => VirtualKey::LaunchApp1,
        0xB7u32 => VirtualKey::LaunchApp2,
        0xBAu32 => VirtualKey::Semicolon,
        0xBBu32 => VirtualKey::Equals,
        0xBCu32 => VirtualKey::Comma,
        0xBDu32 => VirtualKey::Minus,
        0xBEu32 => VirtualKey::Period,
        0xBFu32 => VirtualKey::Slash,
        0xC0u32 => VirtualKey::BackTick,
        0xDBu32 => VirtualKey::LeftBracket,
        0xDCu32 => VirtualKey::Backslash,
        0xDDu32 => VirtualKey::RightBracket,
        0xDEu32 => VirtualKey::Quote,
        _ => VirtualKey::Unknown,
    }
}

impl VirtualKey {
    pub fn from_vk(vk: u32) -> (r: VirtualKey)
        ensures
            r == spec_from_vk(vk),
    {
        match vk {
            0x08 => VirtualKey::Backspace,
            0x09 => VirtualKey::Tab,
            0x0C => VirtualKey::Clear,
            0x0D => VirtualKey::Enter,
            0x10 => VirtualKey::Shift,
            0x11 => VirtualKey::Ctrl,
            0x12 => VirtualKey::Alt,
            0x13 => VirtualKey::Pause,
            0x14 => VirtualKey::Capslock,
            0x1B => VirtualKey::Esc,
            0x20 => VirtualKey::Space,
            0x21 => VirtualKey::PageUp,
            0x22 => VirtualKey::PageDown,
            0x23 => VirtualKey::End,
            0x24 => VirtualKey::Home,
            0x25 => VirtualKey::Left,
            0x26 => VirtualKey::Up,
            0x27 => VirtualKey::Right,
            0x28 => VirtualKey::Down,
            0x29 => VirtualKey::Select,
            0x2A => VirtualKey::Print,
            0x2B => VirtualKey::Execute,
            0x2C => VirtualKey::PrintScreen,
            0x2D => VirtualKey::Insert,
            0x2E => VirtualKey::Delete,
            0x2F => VirtualKey::Help,
            0x30 => VirtualKey::Key0,
            0x31 => VirtualKey::Key1,
            0x32 => VirtualKey::Key2,
            0x33 => VirtualKey::Key3,
            0x34 => VirtualKey::Key4,
            0x35 => VirtualKey::Key5,
            0x36 => VirtualKey::Key6,
            0x37 => VirtualKey::Key7,
            0x38 => VirtualKey::Key8,
            0x39 => VirtualKey::Key9,
            0x41 => VirtualKey::A,
            0x42 => VirtualKey::B,
            0x43 => VirtualKey::C,
            0x44 => VirtualKey::D,
            0x45 => VirtualKey::E,
            0x46 => VirtualKey::F,
            0x47 => VirtualKey::G,
            0x48 => VirtualKey::H,
            0x49 => VirtualKey::I,
            0x4A => VirtualKey::J,
            0x4B => VirtualKey::K,
            0x4C => VirtualKey::L,
            0x4D => VirtualKey::M,
            0x4E => VirtualKey::N,
            0x4F => VirtualKey::O,
            0x50 => VirtualKey::P,
            0x51 => VirtualKey::Q,
            0x52 => VirtualKey::R,
            0x53 => VirtualKey::S,
            0x54 => VirtualKey::T,
            0x55 => VirtualKey::U,
            0x56 => VirtualKey::V,
            0x57 => VirtualKey::W,
            0x58 => VirtualKey::X,
            0x59 => VirtualKey::Y,
            0x5A => VirtualKey::Z,
            0x5B => VirtualKey::LeftWin,
            0x5C => VirtualKey::RightWin,
            0x5D => VirtualKey::Apps,
            0x5F => VirtualKey::Sleep,
            0x60 => VirtualKey::Num0,
            0x61 => VirtualKey::Num1,
            0x62 => VirtualKey::Num2,
            0x63 => VirtualKey::Num3,
            0x64 => VirtualKey::Num4,
            0x65 => VirtualKey::Num5,
            0x66 => VirtualKey::Num6,
            0x67 => VirtualKey::Num7,
            0x68 => VirtualKey::Num8,
            0x69 => VirtualKey::Num9,
            0x6A => VirtualKey::Multiply,
            0x6B => VirtualKey::Add,
            0x6C => VirtualKey::Separator,
            0x6D => VirtualKey::Subtract,
            0x6E => VirtualKey::Decimal,
            0x6F => VirtualKey::Divide,
            0x70 => VirtualKey::F1,
            0x71 => VirtualKey::F2,
            0x72 => VirtualKey::F3,
            0x73 => VirtualKey::F4,
            0x74 => VirtualKey::F5,
            0x75 => VirtualKey::F6,
            0x76 => VirtualKey::F7,
            0x77 => VirtualKey::F8,
            0x78 => VirtualKey::F9,
            0x79 => VirtualKey::F10,
            0x7A => VirtualKey::F11,
            0x7B => VirtualKey::F12,
            0x7C => VirtualKey::F13,
            0x7D => VirtualKey::F14,
            0x7E => VirtualKey::F15,
            0x7F => VirtualKey::F16,
            0x80 => VirtualKey::F17,
            0x81 => VirtualKey::F18,
            0x82 => VirtualKey::F19,
            0x83 => VirtualKey::F20,
            0x84 => VirtualKey::F21,
            0x85 => VirtualKey::F22,
            0x86 => VirtualKey::F23,
            0x87 => VirtualKey::F24,
            0x90 => VirtualKey::NumLock,
            0x91 => VirtualKey::ScrollLock,
            0xA0 => VirtualKey::LeftShift,
            0xA1 => VirtualKey::RightShift,
            0xA2 => VirtualKey::LeftControl,
            0xA3 => VirtualKey::RightControl,
            0xA4 => VirtualKey::LeftAlt,
            0xA5 => VirtualKey::RightAlt,
            0xA6 => VirtualKey::BrowserBack,
            0xA7 => VirtualKey::BrowserForward,
            0xA8 => VirtualKey::BrowserRefresh,
            0xA9 => VirtualKey::BrowserStop,
            0xAA => VirtualKey::BrowserSearch,
            0xAB => VirtualKey::BrowserFavorites,
            0xAC => VirtualKey::BrowserHome,
            0xAD => VirtualKey::VolumeMute,
            0xAE => VirtualKey::VolumeDown,
            0xAF => VirtualKey::VolumeUp,
            0xB0 => VirtualKey::MediaNextTrack,
            0xB1 => VirtualKey::MediaPreviousTrack,
            0xB2 => VirtualKey::MediaStop,
            0xB3 => VirtualKey::MediaPlayPause,
            0xB4 => VirtualKey::LaunchMail,
            0xB5 => VirtualKey::LaunchMediaSelect,
            0xB6 => VirtualKey::LaunchApp1,
            0xB7 => VirtualKey::LaunchApp2,
            0xBA => VirtualKey::Semicolon,
            0xBB => VirtualKey::Equals,
            0xBC => VirtualKey::Comma,
            0xBD => VirtualKey::Minus,
            0xBE => VirtualKey::Period,
            0xBF => VirtualKey::Slash,
            0xC0 => VirtualKey::BackTick,
            0xDB => VirtualKey::LeftBracket,
            0xDC => VirtualKey::Backslash,
            0xDD => VirtualKey::RightBracket,
            0xDE => VirtualKey::Quote,
            _ => VirtualKey::Unknown,
        }
    }
}

} // verus!
