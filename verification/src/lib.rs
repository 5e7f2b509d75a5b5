//! Core of a tiling window manager: a verified model of the tracked-window
//! registry, pluggable layout algorithms, key-chord dispatch and batched
//! repositioning. The operating-system mechanism (hooks, window introspection
//! and mutation) lives outside this crate and communicates with the core
//! through plain values and message queues.

pub mod action;
pub mod channel;
pub mod event;
pub mod key_bindings;
pub mod keys;
pub mod layout_engines;
pub mod monitor;
pub mod native_monitor_container;
pub mod screen;
pub mod structs;
pub mod window;
pub mod window_location;
pub mod windows_defer_pos_handle;
pub mod windows_manager;
pub mod workspace;
pub mod workspace_container;

use vstd::prelude::*;

verus! {

use crate::layout_engines::LayoutEngineType;
use crate::workspace::WindowOrder;

/// The persisted user settings of the shell host.
#[derive(Debug, Clone, Copy, PartialEq, Eq, Structural)]
pub struct Settings {
    pub layout_engine_type: LayoutEngineType,
    pub new_window_order: WindowOrder,
}

impl Default for Settings {
    fn default() -> (r: Settings)
        ensures
            r == (Settings {
                layout_engine_type: LayoutEngineType::Full,
                new_window_order: WindowOrder::NewWindowsLast,
            }),
    {
        Settings {
            layout_engine_type: LayoutEngineType::Full,
            new_window_order: WindowOrder::NewWindowsLast,
        }
    }
}

} // verus!
