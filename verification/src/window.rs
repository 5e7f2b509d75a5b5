//! The model of one tracked top-level window: identity, metadata captured at
//! registration, and derived state. The OS-facing layer hands the raw
//! metadata in as plain values; the registration filter itself is pure logic
//! and is verified here.

use vstd::prelude::*;
use vstd::string::StringExecFns;

use crate::window_location::WindowState;

verus! {

/// Metadata of the owning process, captured once at registration. `None`
/// stands for a process that could not be inspected (no process id, the
/// process could not be opened, or its image path could not be read).
#[derive(Debug)]
pub struct ProcessDetails {
    pub id: u32,
    pub path: String,
    pub file_name: String,
}

impl Clone for ProcessDetails {
    fn clone(&self) -> (r: ProcessDetails)
        ensures
            r == *self,
    {
        ProcessDetails { id: self.id, path: self.path.clone(), file_name: self.file_name.clone() }
    }
}

/// Everything the OS reports about a window handle at registration time.
#[derive(Debug)]
pub struct WindowInfo {
    pub title: String,
    pub class: String,
    pub process: Option<ProcessDetails>,
    pub is_focused: bool,
    pub is_minimized: bool,
    pub is_maximized: bool,
    pub is_cloaked: bool,
}

impl Clone for WindowInfo {
    fn clone(&self) -> (r: WindowInfo)
        ensures
            r == *self,
    {
        WindowInfo {
            title: self.title.clone(),
            class: self.class.clone(),
            process: match &self.process {
                Some(p) => Some(p.clone()),
                None => None,
            },
            is_focused: self.is_focused,
            is_minimized: self.is_minimized,
            is_maximized: self.is_maximized,
            is_cloaked: self.is_cloaked,
        }
    }
}

/// Why a handle was rejected by the registration filter. A rejection is a
/// normal "do not track this" outcome, not an error to propagate.
#[derive(Debug, Clone, Copy, PartialEq, Eq, Structural)]
pub enum FilterReason {
    IgnoredClass,
    EmptyTitle,
    IgnoredTitle,
    ProcessUnavailable,
    IgnoredProgram,
}

/// Shell-chrome window classes that are never tracked.
pub open spec fn is_ignored_class(c: Seq<char>) -> bool {
    ||| c == "TaskManagerWindow"@
    ||| c == "MSCTFIME UI"@
    ||| c == "SHELLDLL_DefView"@
    ||| c == "LockScreenBackstopFrame"@
    ||| c == "Progman"@
    ||| c == "Shell_TrayWnd"@
    ||| c == "WorkerW"@
    ||| c == "Shell_SecondaryTrayWnd"@
    ||| c == "Windows.UI.Composition.DesktopWindowContentBridge"@
    ||| c == "IME"@
}

/// Known-noise window titles that are never tracked.
pub open spec fn is_ignored_title(t: Seq<char>) -> bool {
    t == "Windows Input Experience"@
}

/// Shell-helper executables whose windows are never tracked.
pub open spec fn is_ignored_program(p: Seq<char>) -> bool {
    ||| p == "StartMenuExperienceHost.exe"@
    ||| p == "SearchHost.exe"@
    ||| p == "ApplicationFrameHost.exe"@
}

/// The registration filter: whether a handle with this metadata should ever
/// be tracked.
pub open spec fn passes_filter(info: WindowInfo) -> bool {
    &&& !is_ignored_class(info.class@)
    &&& info.title@.len() > 0
    &&& !is_ignored_title(info.title@)
    &&& info.process is Some
    &&& !is_ignored_program(info.process->Some_0.file_name@)
}

/// The first filter rule that rejects this metadata, in the order the rules
/// are applied.
pub open spec fn spec_filter_reason(info: WindowInfo) -> FilterReason {
    if is_ignored_class(info.class@) {
        FilterReason::IgnoredClass
    } else if info.title@.len() == 0 {
        FilterReason::EmptyTitle
    } else if is_ignored_title(info.title@) {
        FilterReason::IgnoredTitle
    } else if !(info.process is Some) {
        FilterReason::ProcessUnavailable
    } else {
        FilterReason::IgnoredProgram
    }
}

/// One tracked window. Owned exclusively by the registry once registered;
/// identity and process metadata are immutable after construction, the
/// remaining flags are derived state kept current from OS notifications.
#[derive(Debug)]
pub struct Window {
    pub handle: isize,
    pub title: String,
    pub class: String,
    pub process_id: u32,
    pub process_name: String,
    pub process_file_name: String,
    pub did_manual_hide: bool,
    pub is_mouse_moving: bool,
    pub is_focused: bool,
    pub is_minimized: bool,
    pub is_maximized: bool,
    pub is_cloaked: bool,
}

/// The window value that registration of `handle` with metadata `info`
/// produces when the filter admits it.
pub open spec fn spec_window_of(handle: isize, info: WindowInfo) -> Window {
    Window {
        handle,
        title: info.title,
        class: info.class,
        process_id: info.process->Some_0.id,
        process_name: info.process->Some_0.path,
        process_file_name: info.process->Some_0.file_name,
        did_manual_hide: false,
        is_mouse_moving: false,
        is_focused: info.is_focused,
        is_minimized: info.is_minimized,
        is_maximized: info.is_maximized,
        is_cloaked: info.is_cloaked,
    }
}

impl Clone for Window {
    fn clone(&self) -> (r: Window)
        ensures
            r == *self,
    {
        Window {
            handle: self.handle,
            title: self.title.clone(),
            class: self.class.clone(),
            process_id: self.process_id,
            process_name: self.process_name.clone(),
            process_file_name: self.process_file_name.clone(),
            did_manual_hide: self.did_manual_hide,
            is_mouse_moving: self.is_mouse_moving,
            is_focused: self.is_focused,
            is_minimized: self.is_minimized,
            is_maximized: self.is_maximized,
            is_cloaked: self.is_cloaked,
        }
    }
}

impl Window {
    /// Applies the registration filter and, when it admits the handle,
    /// constructs the tracked-window model. A rejection reports the first
    /// rule that failed.
    pub fn new(handle: isize, info: WindowInfo) -> (r: Result<Window, FilterReason>)
        ensures
            r is Ok <==> passes_filter(info),
            passes_filter(info) ==> r->Ok_0 == spec_window_of(handle, info),
            !passes_filter(info) ==> r->Err_0 == spec_filter_reason(info),
    {
        if Self::class_is_ignored(&info.class) {
            return Err(FilterReason::IgnoredClass);
        }
        if info.title.as_str().is_empty() {
            return Err(FilterReason::EmptyTitle);
        }
        if info.title == String::from_str("Windows Input Experience") {
            return Err(FilterReason::IgnoredTitle);
        }
        match info.process {
            None => Err(FilterReason::ProcessUnavailable),
            Some(process) => {
                if Self::program_is_ignored(&process.file_name) {
                    Err(FilterReason::IgnoredProgram)
                } else {
                    Ok(Window {
                        handle,
                        title: info.title,
                        class: info.class,
                        process_id: process.id,
                        process_name: process.path,
                        process_file_name: process.file_name,
                        did_manual_hide: false,
                        is_mouse_moving: false,
                        is_focused: info.is_focused,
                        is_minimized: info.is_minimized,
                        is_maximized: info.is_maximized,
                        is_cloaked: info.is_cloaked,
                    })
                }
            },
        }
    }

    fn class_is_ignored(class: &String) -> (r: bool)
        ensures
            r == is_ignored_class(class@),
    {
        *class == String::from_str("TaskManagerWindow")
            || *class == String::from_str("MSCTFIME UI")
            || *class == String::from_str("SHELLDLL_DefView")
            || *class == String::from_str("LockScreenBackstopFrame")
            || *class == String::from_str("Progman")
            || *class == String::from_str("Shell_TrayWnd")
            || *class == String::from_str("WorkerW")
            || *class == String::from_str("Shell_SecondaryTrayWnd")
            || *class == String::from_str("Windows.UI.Composition.DesktopWindowContentBridge")
            || *class == String::from_str("IME")
    }

    fn program_is_ignored(file_name: &String) -> (r: bool)
        ensures
            r == is_ignored_program(file_name@),
    {
        *file_name == String::from_str("StartMenuExperienceHost.exe")
            || *file_name == String::from_str("SearchHost.exe")
            || *file_name == String::from_str("ApplicationFrameHost.exe")
    }

    pub fn handle(&self) -> (r: isize)
        ensures
            r == self.handle,
    {
        self.handle
    }

    pub fn did_manual_hide(&self) -> (r: bool)
        ensures
            r == self.did_manual_hide,
    {
        self.did_manual_hide
    }

    pub fn title(&self) -> (r: &String)
        ensures
            r == self.title,
    {
        &self.title
    }

    pub fn class(&self) -> (r: &String)
        ensures
            r == self.class,
    {
        &self.class
    }

    pub fn process_id(&self) -> (r: u32)
        ensures
            r == self.process_id,
    {
        self.process_id
    }

    pub fn process_file_name(&self) -> (r: &String)
        ensures
            r == self.process_file_name,
    {
        &self.process_file_name
    }

    pub fn process_name(&self) -> (r: &String)
        ensures
            r == self.process_name,
    {
        &self.process_name
    }

    pub fn is_focused(&self) -> (r: bool)
        ensures
            r == self.is_focused,
    {
        self.is_focused
    }

    pub fn is_minimized(&self) -> (r: bool)
        ensures
            r == self.is_minimized,
    {
        self.is_minimized
    }

    pub fn is_maximized(&self) -> (r: bool)
        ensures
            r == self.is_maximized,
    {
        self.is_maximized
    }

    /// Whether the window currently takes part in automatic layout: it is
    /// either visible (not cloaked by the OS) or hidden by the manager
    /// itself, which still counts as ours.
    pub open spec fn spec_can_layout(self) -> bool {
        self.did_manual_hide || !self.is_cloaked
    }

    pub fn can_layout(&self) -> (r: bool)
        ensures
            r == self.spec_can_layout(),
    {
        self.did_manual_hide || !self.is_cloaked
    }

    /// Marks the window as hidden by the manager itself, so that a later
    /// OS-side hide notification does not unregister it. The caller performs
    /// the actual hide.
    pub fn hide_window(&mut self)
        ensures
            *final(self) == (Window {
                did_manual_hide: old(self).spec_can_layout() || old(self).did_manual_hide,
                ..*old(self)
            }),
    {
        if self.can_layout() {
            self.did_manual_hide = true;
        }
    }

    /// Clears the manual-hide mark; the caller shows the window normal.
    pub fn show_normal(&mut self)
        ensures
            *final(self) == (Window { did_manual_hide: false, ..*old(self) }),
    {
        self.did_manual_hide = false;
    }

    /// Clears the manual-hide mark; the caller shows the window maximized.
    pub fn show_maximized(&mut self)
        ensures
            *final(self) == (Window { did_manual_hide: false, ..*old(self) }),
    {
        self.did_manual_hide = false;
    }

    /// Clears the manual-hide mark; the caller shows the window minimized.
    pub fn show_minimized(&mut self)
        ensures
            *final(self) == (Window { did_manual_hide: false, ..*old(self) }),
    {
        self.did_manual_hide = false;
    }

    /// Decides which show state restores the window as it currently is, and
    /// clears the manual-hide mark. The caller performs the show call.
    pub fn show_in_current_state(&mut self) -> (s: WindowState)
        ensures
            *final(self) == (Window { did_manual_hide: false, ..*old(self) }),
            s == (if old(self).is_minimized {
                WindowState::Minimized
            } else if old(self).is_maximized {
                WindowState::Maximized
            } else {
                WindowState::Normal
            }),
    {
        if self.is_minimized {
            self.show_minimized();
            WindowState::Minimized
        } else if self.is_maximized {
            self.show_maximized();
            WindowState::Maximized
        } else {
            self.show_normal();
            WindowState::Normal
        }
    }

    /// Hook kept for observers of per-window updates; the registry itself
    /// broadcasts update events.
    pub fn notify_updated(&mut self)
        ensures
            *final(self) == *old(self),
    {
    }
}

} // verus!
