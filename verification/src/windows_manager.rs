//! The window registry and manager: the sole authority on which windows are
//! tracked and in what state. OS notifications and input events arrive
//! through message queues (one dequeue per queue per poll); all mutation
//! funnels through the registration, update and move entry points, whose
//! transitions are stated below as functions of the old state.

use vstd::prelude::*;

verus! {

use crate::channel::{channel_try_recv, channel_unbounded};
use crate::event::Event;
use crate::key_bindings::{find_action, spec_has_binding, Action};
use crate::keys::Keys;
use crate::layout_engines::dwindle_layout_engine::spec_dwindle_layout;
use crate::layout_engines::focus_layout_engine::spec_focus_cell;
use crate::layout_engines::full_layout_engine::spec_full_cell;
use crate::layout_engines::grid_layout_engine::spec_grid_cell;
use crate::layout_engines::{LayoutEngine, LayoutEngineType};
use crate::window_location::WindowLocation;
use crate::window::{passes_filter, spec_window_of, Window, WindowInfo};
use crate::window_location::WindowState;

/// A normalized OS lifecycle or state notification, as the hook layer
/// enqueues it: one kind plus the window handle it concerns.
#[derive(Debug, Clone, Copy, PartialEq, Eq, Structural)]
pub enum WindowNotification {
    Show,
    Destroy,
    Cloaked,
    Uncloaked,
    MinimizeStart,
    MinimizeEnd,
    Foreground,
    MoveSizeStart,
    MoveSizeEnd,
    LocationChange,
}

/// The per-window update kinds the registry distinguishes.
#[derive(Debug, Clone, Copy, PartialEq, Eq, Structural)]
pub enum WindowUpdateType {
    Show,
    Hide,
    MinimizeStart,
    MinimizeEnd,
    Foreground,
    MoveStart,
    MoveEnd,
    Move,
}

/// An OS call the registry asks its caller to perform on a window: the
/// registry itself never touches the OS.
#[derive(Debug, Clone, Copy, PartialEq, Eq, Structural)]
pub enum WindowCommand {
    BringToTop(isize),
    Focus(isize),
}

/// The producer ends of the three event queues, handed to the hook layer at
/// startup. The hooks only translate raw callbacks into messages; they never
/// touch the registry.
pub struct HookSenders {
    pub window_events: crossbeam_channel::Sender<(WindowNotification, isize)>,
    pub keys: crossbeam_channel::Sender<Keys>,
    pub mouse: crossbeam_channel::Sender<()>,
}

/// The handle is tracked: some registry entry carries it.
pub open spec fn spec_tracked(windows: Seq<Window>, h: isize) -> bool {
    exists|i: int| 0 <= i < windows.len() && (#[trigger] windows[i]).handle == h
}

/// The position of the entry carrying a tracked handle.
pub open spec fn spec_index_of(windows: Seq<Window>, h: isize) -> int {
    choose|i: int| 0 <= i < windows.len() && (#[trigger] windows[i]).handle == h
}

/// Entries carry pairwise distinct handles.
pub open spec fn spec_handles_unique(windows: Seq<Window>) -> bool {
    forall|p: int, q: int| 0 <= p < q < windows.len()
        ==> (#[trigger] windows[p]).handle != (#[trigger] windows[q]).handle
}

/// Registration: a no-op for a tracked handle, for missing metadata and for
/// metadata the filter rejects; otherwise the new window is appended, so
/// iteration order is registration order.
pub open spec fn spec_register(windows: Seq<Window>, h: isize, info: Option<WindowInfo>) -> Seq<Window> {
    if spec_tracked(windows, h) || !(info matches Some(i) && passes_filter(i)) {
        windows
    } else {
        windows.push(spec_window_of(h, info->Some_0))
    }
}

/// Unregistration: a no-op for an untracked handle; otherwise the entry is
/// removed and the order of the rest is kept.
pub open spec fn spec_unregister(windows: Seq<Window>, h: isize) -> Seq<Window> {
    if spec_tracked(windows, h) {
        windows.remove(spec_index_of(windows, h))
    } else {
        windows
    }
}

/// A per-window state update. `Show` on a tracked handle and the move kinds
/// change no model state; `Hide` unregisters exactly when the window did not
/// hide by the manager's own hand; the remaining kinds update derived state.
pub open spec fn spec_update(windows: Seq<Window>, h: isize, t: WindowUpdateType, info: Option<WindowInfo>) -> Seq<Window> {
    if t == WindowUpdateType::Show {
        if spec_tracked(windows, h) {
            windows
        } else {
            spec_register(windows, h, info)
        }
    } else if !spec_tracked(windows, h) {
        windows
    } else {
        let idx = spec_index_of(windows, h);
        if t == WindowUpdateType::Hide {
            if windows[idx].did_manual_hide {
                windows
            } else {
                windows.remove(idx)
            }
        } else if t == WindowUpdateType::Foreground {
            Seq::new(windows.len(), |i: int| Window { is_focused: windows[i].handle == h, ..windows[i] })
        } else if t == WindowUpdateType::MinimizeStart {
            windows.update(idx, Window { is_minimized: true, ..windows[idx] })
        } else if t == WindowUpdateType::MinimizeEnd {
            windows.update(idx, Window { is_minimized: false, ..windows[idx] })
        } else {
            windows
        }
    }
}

/// Starting a drag: for a tracked handle, exactly that window carries the
/// dragging flag afterwards; an untracked handle changes nothing.
pub open spec fn spec_start_move(windows: Seq<Window>, h: isize) -> Seq<Window> {
    if spec_tracked(windows, h) {
        Seq::new(windows.len(), |i: int| Window { is_mouse_moving: windows[i].handle == h, ..windows[i] })
    } else {
        windows
    }
}

/// Ending a drag: for a tracked handle, no window carries the dragging flag
/// afterwards; an untracked handle changes nothing.
pub open spec fn spec_end_move(windows: Seq<Window>, h: isize) -> Seq<Window> {
    if spec_tracked(windows, h) {
        Seq::new(windows.len(), |i: int| Window { is_mouse_moving: false, ..windows[i] })
    } else {
        windows
    }
}

/// `j` is the first focused entry.
pub open spec fn spec_first_focused(windows: Seq<Window>, j: int) -> bool {
    &&& 0 <= j < windows.len()
    &&& windows[j].is_focused
    &&& forall|k: int| 0 <= k < j ==> !(#[trigger] windows[k]).is_focused
}

/// The outcome of toggling the focused window's floating state, relating the
/// manager before (`pre`) and after (`post`) and the commands handed to the
/// caller: without a focused window nothing changes; otherwise exactly the
/// focused window's floating membership flips, and the window is raised
/// exactly on the transition into floating, refocused on both.
pub open spec fn spec_toggle_outcome(pre: WindowsManager, post: WindowsManager, cmds: Seq<WindowCommand>) -> bool {
    &&& ((forall|j: int| !spec_first_focused(pre.windows@, j)) ==> post == pre && cmds.len() == 0)
    &&& (forall|j: int| spec_first_focused(pre.windows@, j) ==> {
        let h = pre.windows@[j].handle;
        &&& (forall|x: isize| post.floating@.contains(x) == (if x == h {
            !pre.floating@.contains(h)
        } else {
            pre.floating@.contains(x)
        }))
        &&& cmds == (if pre.floating@.contains(h) {
            seq![WindowCommand::Focus(h)]
        } else {
            seq![WindowCommand::BringToTop(h), WindowCommand::Focus(h)]
        })
    })
}

pub struct WindowsManager {
    /// The tracked windows, in registration order (stable for enumeration
    /// and for layout ordering), with pairwise distinct handles.
    pub windows: Vec<Window>,
    /// Handles the user excluded from automatic tiling, without duplicates.
    pub floating: Vec<isize>,
    /// The window currently being dragged, if any; at most one window may
    /// carry the dragging flag, and only the recorded one.
    pub mouse_move_window: Option<isize>,
    pub layout_engine_type: LayoutEngineType,
    pub event_window_created: Event<(Window, bool)>,
    pub event_window_destroyed: Event<Window>,
    pub event_window_updated: Event<(Window, WindowUpdateType)>,
    pub window_events: crossbeam_channel::Receiver<(WindowNotification, isize)>,
    pub key_events: crossbeam_channel::Receiver<Keys>,
    pub mouse_events: crossbeam_channel::Receiver<()>,
}

impl WindowsManager {
    /// The registry invariant: handles are unique, the floating list holds
    /// no duplicates, and only the recorded drag window carries the dragging
    /// flag.
    pub open spec fn wf(self) -> bool {
        &&& spec_handles_unique(self.windows@)
        &&& (forall|i: int| 0 <= i < self.windows@.len()
            ==> ((#[trigger] self.windows@[i]).is_mouse_moving
                ==> self.mouse_move_window == Some(self.windows@[i].handle)))
        &&& (forall|p: int, q: int| 0 <= p < q < self.floating@.len()
            ==> (#[trigger] self.floating@[p]) != (#[trigger] self.floating@[q]))
    }

    /// Everything except the tracked-window list is unchanged.
    pub open spec fn same_but_windows(self, other: WindowsManager) -> bool {
        &&& self.floating == other.floating
        &&& self.mouse_move_window == other.mouse_move_window
        &&& self.layout_engine_type == other.layout_engine_type
        &&& self.event_window_created == other.event_window_created
        &&& self.event_window_destroyed == other.event_window_destroyed
        &&& self.event_window_updated == other.event_window_updated
        &&& self.window_events == other.window_events
        &&& self.key_events == other.key_events
        &&& self.mouse_events == other.mouse_events
    }

    /// Everything except windows and the broadcast fan-outs is unchanged.
    pub open spec fn same_but_windows_and_events(self, other: WindowsManager) -> bool {
        &&& self.floating == other.floating
        &&& self.mouse_move_window == other.mouse_move_window
        &&& self.layout_engine_type == other.layout_engine_type
        &&& self.window_events == other.window_events
        &&& self.key_events == other.key_events
        &&& self.mouse_events == other.mouse_events
    }

    /// A fresh manager with no tracked windows, together with the producer
    /// ends of its three event queues for the hook layer.
    pub fn new() -> (r: (WindowsManager, HookSenders))
        ensures
            r.0.wf(),
            r.0.windows@.len() == 0,
            r.0.floating@.len() == 0,
            r.0.mouse_move_window is None,
            r.0.layout_engine_type == LayoutEngineType::Dwindle,
    {
        let (window_tx, window_rx) = channel_unbounded();
        let (key_tx, key_rx) = channel_unbounded();
        let (mouse_tx, mouse_rx) = channel_unbounded();
        let manager = WindowsManager {
            windows: Vec::new(),
            floating: Vec::new(),
            mouse_move_window: None,
            layout_engine_type: LayoutEngineType::Dwindle,
            event_window_created: Event::new(),
            event_window_destroyed: Event::new(),
            event_window_updated: Event::new(),
            window_events: window_rx,
            key_events: key_rx,
            mouse_events: mouse_rx,
        };
        let senders = HookSenders { window_events: window_tx, keys: key_tx, mouse: mouse_tx };
        (manager, senders)
    }

    /// The position of a tracked handle.
    fn find_index(&self, hwnd: isize) -> (r: Option<usize>)
        ensures
            r is Some <==> spec_tracked(self.windows@, hwnd),
            r matches Some(i) ==> i < self.windows@.len()
                && self.windows@[i as int].handle == hwnd
                && (forall|j: int| 0 <= j < i ==> (#[trigger] self.windows@[j]).handle != hwnd),
    {
        let mut i: usize = 0;
        while i < self.windows.len()
            invariant
                0 <= i <= self.windows@.len(),
                forall|j: int| 0 <= j < i ==> (#[trigger] self.windows@[j]).handle != hwnd,
            decreases self.windows@.len() - i,
        {
            if self.windows[i].handle == hwnd {
                return Some(i);
            }
            i = i + 1;
        }
        None
    }

    /// Under unique handles, the tracked index is the found index.
    proof fn lemma_index_unique(windows: Seq<Window>, i: int)
        requires
            spec_handles_unique(windows),
            0 <= i < windows.len(),
        ensures
            spec_tracked(windows, windows[i].handle),
            spec_index_of(windows, windows[i].handle) == i,
    {
        let h = windows[i].handle;
        assert(spec_tracked(windows, h));
        let j = spec_index_of(windows, h);
        if j < i {
            assert(windows[j].handle != windows[i].handle);
        } else if j > i {
            assert(windows[i].handle != windows[j].handle);
        }
    }

    /// Registers a window: a no-op when the handle is already tracked (the
    /// metadata captured at first registration stays authoritative), when no
    /// metadata could be read, or when the filter rejects it; otherwise the
    /// window is appended to the registry.
    pub fn register_window(&mut self, hwnd: isize, info: Option<WindowInfo>)
        requires
            old(self).wf(),
        ensures
            final(self).wf(),
            final(self).windows@ == spec_register(old(self).windows@, hwnd, info),
            final(self).same_but_windows(*old(self)),
    {
        if self.find_index(hwnd).is_some() {
            return;
        }
        match info {
            None => {
                assert(self.windows@ == spec_register(self.windows@, hwnd, info));
            },
            Some(wi) => {
                match Window::new(hwnd, wi) {
                    Ok(window) => {
                        self.windows.push(window);
                        proof {
                            assert forall|p: int, q: int| 0 <= p < q < self.windows@.len()
                                implies (#[trigger] self.windows@[p]).handle != (#[trigger] self.windows@[q]).handle by {
                                if q == self.windows@.len() - 1 {
                                    assert(!spec_tracked(old(self).windows@, hwnd));
                                    assert(old(self).windows@[p].handle != hwnd);
                                }
                            }
                        }
                    },
                    Err(_) => (),
                }
            },
        }
    }

    /// Unregisters a window: a no-op when the handle is not tracked;
    /// otherwise the entry leaves the registry (the order of the rest is
    /// kept) and the destroyed event reports it.
    pub fn unregister_window(&mut self, hwnd: isize)
        requires
            old(self).wf(),
        ensures
            final(self).wf(),
            final(self).windows@ == spec_unregister(old(self).windows@, hwnd),
            final(self).same_but_windows_and_events(*old(self)),
            final(self).event_window_created == old(self).event_window_created,
            final(self).event_window_updated == old(self).event_window_updated,
    {
        match self.find_index(hwnd) {
            None => (),
            Some(i) => {
                proof {
                    Self::lemma_index_unique(self.windows@, i as int);
                }
                let window = self.windows.remove(i);
                proof {
                    assert(spec_handles_unique(self.windows@)) by {
                        assert forall|p: int, q: int| 0 <= p < q < self.windows@.len()
                            implies (#[trigger] self.windows@[p]).handle != (#[trigger] self.windows@[q]).handle by {
                            let ghost ws = old(self).windows@;
                            let pp: int = if p < i { p } else { p + 1 };
                            let qq: int = if q < i { q } else { q + 1 };
                            assert(self.windows@[p] == ws[pp]);
                            assert(self.windows@[q] == ws[qq]);
                        }
                    }
                }
                self.event_window_destroyed.broadcast(window);
            },
        }
    }

    /// Applies one state update to a window, following the update policy:
    /// `Show` registers unknown handles and leaves tracked ones unchanged;
    /// `Hide` unregisters exactly when the window did not hide by the
    /// manager's own hand; focus and minimize updates change derived state
    /// only; the move kinds have their own entry points and change nothing
    /// here.
    pub fn update_window(&mut self, hwnd: isize, update_type: WindowUpdateType, info: Option<WindowInfo>)
        requires
            old(self).wf(),
        ensures
            final(self).wf(),
            final(self).windows@ == spec_update(old(self).windows@, hwnd, update_type, info),
            final(self).same_but_windows_and_events(*old(self)),
            final(self).event_window_created == old(self).event_window_created,
    {
        let idx = self.find_index(hwnd);
        if update_type == WindowUpdateType::Show {
            match idx {
                Some(i) => {
                    let window = self.windows[i].clone();
                    self.event_window_updated.broadcast((window, update_type));
                },
                None => {
                    self.register_window(hwnd, info);
                },
            }
            return;
        }
        match idx {
            None => (),
            Some(i) => {
                proof {
                    Self::lemma_index_unique(self.windows@, i as int);
                }
                if update_type == WindowUpdateType::Hide {
                    if !self.windows[i].did_manual_hide() {
                        self.unregister_window(hwnd);
                    } else {
                        let window = self.windows[i].clone();
                        self.event_window_updated.broadcast((window, update_type));
                    }
                } else if update_type == WindowUpdateType::Foreground {
                    let ghost before = self.windows@;
                    let ghost prev = *self;
                    let mut k: usize = 0;
                    while k < self.windows.len()
                        invariant
                            0 <= k <= self.windows@.len(),
                            self.windows@.len() == before.len(),
                            self.floating == prev.floating,
                            self.mouse_move_window == prev.mouse_move_window,
                            self.layout_engine_type == prev.layout_engine_type,
                            self.event_window_created == prev.event_window_created,
                            self.event_window_destroyed == prev.event_window_destroyed,
                            self.event_window_updated == prev.event_window_updated,
                            self.window_events == prev.window_events,
                            self.key_events == prev.key_events,
                            self.mouse_events == prev.mouse_events,
                            forall|j: int| 0 <= j < k
                                ==> self.windows@[j] == (Window { is_focused: before[j].handle == hwnd, ..before[j] }),
                            forall|j: int| k <= j < before.len() ==> self.windows@[j] == before[j],
                        decreases self.windows@.len() - k,
                    {
                        let focused = self.windows[k].handle == hwnd;
                        self.windows[k].is_focused = focused;
                        k = k + 1;
                    }
                    proof {
                        assert(self.windows@ =~= Seq::new(
                            before.len(),
                            |j: int| Window { is_focused: before[j].handle == hwnd, ..before[j] },
                        ));
                    }
                    let window = self.windows[i].clone();
                    self.event_window_updated.broadcast((window, update_type));
                } else if update_type == WindowUpdateType::MinimizeStart {
                    self.windows[i].is_minimized = true;
                    let window = self.windows[i].clone();
                    self.event_window_updated.broadcast((window, update_type));
                } else if update_type == WindowUpdateType::MinimizeEnd {
                    self.windows[i].is_minimized = false;
                    let window = self.windows[i].clone();
                    self.event_window_updated.broadcast((window, update_type));
                } else {
                    let window = self.windows[i].clone();
                    self.event_window_updated.broadcast((window, update_type));
                }
            },
        }
    }

    /// Starts a drag: any previously dragging window loses its flag first,
    /// then the window is recorded and flagged, so that at most one window
    /// is ever mid-drag. An untracked handle changes nothing.
    pub fn start_move_window(&mut self, hwnd: isize)
        requires
            old(self).wf(),
        ensures
            final(self).wf(),
            final(self).windows@ == spec_start_move(old(self).windows@, hwnd),
            final(self).mouse_move_window == if spec_tracked(old(self).windows@, hwnd) {
                Some(hwnd)
            } else {
                old(self).mouse_move_window
            },
            final(self).floating == old(self).floating,
            final(self).layout_engine_type == old(self).layout_engine_type,
            final(self).event_window_created == old(self).event_window_created,
            final(self).event_window_destroyed == old(self).event_window_destroyed,
            final(self).window_events == old(self).window_events,
            final(self).key_events == old(self).key_events,
            final(self).mouse_events == old(self).mouse_events,
    {
        let idx = match self.find_index(hwnd) {
            None => {
                return;
            },
            Some(i) => i,
        };
        let ghost before = self.windows@;
        match self.mouse_move_window {
            Some(current) => {
                match self.find_index(current) {
                    Some(ci) => {
                        self.windows[ci].is_mouse_moving = false;
                    },
                    None => (),
                }
            },
            None => (),
        }
        self.mouse_move_window = Some(hwnd);
        assert(self.windows@[idx as int].handle == hwnd);
        self.windows[idx].is_mouse_moving = true;
        proof {
            assert forall|j: int| 0 <= j < self.windows@.len()
                implies self.windows@[j] == (Window {
                    is_mouse_moving: before[j].handle == hwnd,
                    ..before[j]
                }) by {
                if j != idx as int {
                    if before[j].is_mouse_moving {
                        assert(old(self).mouse_move_window == Some(before[j].handle));
                    }
                    if before[j].handle == hwnd {
                        Self::lemma_index_unique(before, j);
                        Self::lemma_index_unique(before, idx as int);
                    }
                }
            }
            assert(self.windows@ =~= spec_start_move(before, hwnd));
        }
        let window = self.windows[idx].clone();
        self.event_window_updated.broadcast((window, WindowUpdateType::MoveStart));
    }

    /// Ends a drag: clears whichever window is recorded as dragging and the
    /// record itself. An untracked handle changes nothing.
    pub fn end_move_window(&mut self, hwnd: isize)
        requires
            old(self).wf(),
        ensures
            final(self).wf(),
            final(self).windows@ == spec_end_move(old(self).windows@, hwnd),
            final(self).mouse_move_window == if spec_tracked(old(self).windows@, hwnd) {
                Option::<isize>::None
            } else {
                old(self).mouse_move_window
            },
            final(self).floating == old(self).floating,
            final(self).layout_engine_type == old(self).layout_engine_type,
            final(self).event_window_created == old(self).event_window_created,
            final(self).event_window_destroyed == old(self).event_window_destroyed,
            final(self).window_events == old(self).window_events,
            final(self).key_events == old(self).key_events,
            final(self).mouse_events == old(self).mouse_events,
    {
        let idx = match self.find_index(hwnd) {
            None => {
                return;
            },
            Some(i) => i,
        };
        let ghost before = self.windows@;
        match self.mouse_move_window {
            Some(current) => {
                match self.find_index(current) {
                    Some(ci) => {
                        self.windows[ci].is_mouse_moving = false;
                    },
                    None => (),
                }
                self.mouse_move_window = None;
            },
            None => (),
        }
        proof {
            assert forall|j: int| 0 <= j < self.windows@.len()
                implies self.windows@[j] == (Window { is_mouse_moving: false, ..before[j] }) by {
                if before[j].is_mouse_moving {
                    assert(old(self).mouse_move_window == Some(before[j].handle));
                }
            }
            assert(self.windows@ =~= spec_end_move(before, hwnd));
        }
        let window = self.windows[idx].clone();
        self.event_window_updated.broadcast((window, WindowUpdateType::MoveEnd));
    }

    /// Reports whether a moved window should trigger relayout: only a
    /// tracked window that still takes part in layout does.
    pub fn window_move(&mut self, hwnd: isize) -> (r: bool)
        requires
            old(self).wf(),
        ensures
            final(self).wf(),
            r == (spec_tracked(old(self).windows@, hwnd)
                && old(self).windows@[spec_index_of(old(self).windows@, hwnd)].spec_can_layout()),
            final(self).windows == old(self).windows,
            final(self).same_but_windows_and_events(*old(self)),
            final(self).event_window_created == old(self).event_window_created,
            final(self).event_window_destroyed == old(self).event_window_destroyed,
    {
        match self.find_index(hwnd) {
            None => false,
            Some(i) => {
                proof {
                    Self::lemma_index_unique(self.windows@, i as int);
                }
                if self.windows[i].can_layout() {
                    let window = self.windows[i].clone();
                    self.event_window_updated.broadcast((window, WindowUpdateType::Move));
                    true
                } else {
                    false
                }
            },
        }
    }

    /// Selects the active layout algorithm.
    pub fn change_layout(&mut self, layout_engine_type: LayoutEngineType)
        ensures
            final(self).layout_engine_type == layout_engine_type,
            final(self).windows == old(self).windows,
            final(self).floating == old(self).floating,
            final(self).mouse_move_window == old(self).mouse_move_window,
            final(self).event_window_created == old(self).event_window_created,
            final(self).event_window_destroyed == old(self).event_window_destroyed,
            final(self).event_window_updated == old(self).event_window_updated,
            final(self).window_events == old(self).window_events,
            final(self).key_events == old(self).key_events,
            final(self).mouse_events == old(self).mouse_events,
    {
        self.layout_engine_type = layout_engine_type;
    }

    /// The position of the first focused window, if any window is focused.
    fn first_focused_index(&self) -> (r: Option<usize>)
        ensures
            r matches Some(i) ==> spec_first_focused(self.windows@, i as int),
            r is None ==> forall|j: int| !spec_first_focused(self.windows@, j),
    {
        let mut i: usize = 0;
        while i < self.windows.len()
            invariant
                0 <= i <= self.windows@.len(),
                forall|k: int| 0 <= k < i ==> !(#[trigger] self.windows@[k]).is_focused,
            decreases self.windows@.len() - i,
        {
            if self.windows[i].is_focused() {
                return Some(i);
            }
            i = i + 1;
        }
        assert forall|j: int| !spec_first_focused(self.windows@, j) by {
            if 0 <= j < self.windows@.len() {
                assert(!self.windows@[j].is_focused);
            }
        }
        None
    }

    /// The position of a handle in the floating list, if it is there.
    fn floating_position(&self, hwnd: isize) -> (r: Option<usize>)
        ensures
            r matches Some(i) ==> i < self.floating@.len()
                && self.floating@[i as int] == hwnd
                && (forall|k: int| 0 <= k < i ==> (#[trigger] self.floating@[k]) != hwnd),
            r is None ==> !self.floating@.contains(hwnd),
    {
        let mut i: usize = 0;
        while i < self.floating.len()
            invariant
                0 <= i <= self.floating@.len(),
                forall|k: int| 0 <= k < i ==> (#[trigger] self.floating@[k]) != hwnd,
            decreases self.floating@.len() - i,
        {
            if self.floating[i] == hwnd {
                return Some(i);
            }
            i = i + 1;
        }
        None
    }

    /// Toggles the focused window in and out of the floating set. Floating
    /// a window removes it from automatic tiling and asks the caller to
    /// raise and refocus it; unfloating returns it to tiling and only asks
    /// for a refocus: the window is raised exactly on the transition into
    /// floating.
    pub fn toggle_focused_window_tiling(&mut self) -> (cmds: Vec<WindowCommand>)
        requires
            old(self).wf(),
        ensures
            final(self).wf(),
            final(self).windows == old(self).windows,
            final(self).mouse_move_window == old(self).mouse_move_window,
            final(self).layout_engine_type == old(self).layout_engine_type,
            final(self).window_events == old(self).window_events,
            final(self).key_events == old(self).key_events,
            final(self).mouse_events == old(self).mouse_events,
            spec_toggle_outcome(*old(self), *final(self), cmds@),
    {
        let mut cmds: Vec<WindowCommand> = Vec::new();

        let fi = match self.first_focused_index() {
            None => {
                return cmds;
            },
            Some(i) => i,
        };
        assert(spec_first_focused(self.windows@, fi as int));
        let hwnd = self.windows[fi].handle;

        let ghost before_floating = self.floating@;
        let floating_pos = self.floating_position(hwnd);
        let mut pos: usize = 0;
        let in_floating = match floating_pos {
            Some(p) => {
                pos = p;
                true
            },
            None => false,
        };

        if !in_floating {
            assert(!before_floating.contains(hwnd));
            self.floating.push(hwnd);
            proof {
                assert forall|x: isize| self.floating@.contains(x) == (if x == hwnd {
                    !before_floating.contains(hwnd)
                } else {
                    before_floating.contains(x)
                }) by {
                    if x == hwnd {
                        assert(self.floating@[self.floating@.len() - 1] == hwnd);
                    } else {
                        if before_floating.contains(x) {
                            let w = choose|k: int| 0 <= k < before_floating.len() && before_floating[k] == x;
                            assert(self.floating@[w] == x);
                        }
                        if self.floating@.contains(x) {
                            let w = choose|k: int| 0 <= k < self.floating@.len() && self.floating@[k] == x;
                            assert(before_floating[w] == x);
                        }
                    }
                }
            }
            let removed_window = self.windows[fi].clone();
            self.event_window_destroyed.broadcast(removed_window);
            cmds.push(WindowCommand::BringToTop(hwnd));
        } else {
            let _ = self.floating.remove(pos);
            proof {
                assert forall|x: isize| self.floating@.contains(x) == (if x == hwnd {
                    !before_floating.contains(hwnd)
                } else {
                    before_floating.contains(x)
                }) by {
                    if x == hwnd {
                        if self.floating@.contains(x) {
                            let w = choose|k: int| 0 <= k < self.floating@.len() && self.floating@[k] == x;
                            let ww: int = if w < pos { w } else { w + 1 };
                            assert(before_floating[ww] == hwnd);
                            assert(before_floating[pos as int] == hwnd);
                        }
                    } else {
                        if before_floating.contains(x) {
                            let w = choose|k: int| 0 <= k < before_floating.len() && before_floating[k] == x;
                            if w < pos {
                                assert(self.floating@[w] == x);
                            } else {
                                assert(w > pos);
                                assert(self.floating@[w - 1] == x);
                            }
                        }
                        if self.floating@.contains(x) {
                            let w = choose|k: int| 0 <= k < self.floating@.len() && self.floating@[k] == x;
                            let ww: int = if w < pos { w } else { w + 1 };
                            assert(before_floating[ww] == x);
                        }
                    }
                }
            }
            let added_window = self.windows[fi].clone();
            self.event_window_created.broadcast((added_window, false));
        }

        proof {
            assert(spec_handles_unique(self.windows@));
            assert forall|p: int, q: int| 0 <= p < q < self.floating@.len()
                implies (#[trigger] self.floating@[p]) != (#[trigger] self.floating@[q]) by {
                if !in_floating {
                    if q == self.floating@.len() - 1 {
                        assert(before_floating[p] == self.floating@[p]);
                        assert(!before_floating.contains(hwnd));
                        if self.floating@[p] == hwnd {
                            assert(before_floating[p] == hwnd);
                        }
                    }
                } else {
                    let pp: int = if p < pos { p } else { p + 1 };
                    let qq: int = if q < pos { q } else { q + 1 };
                    assert(self.floating@[p] == before_floating[pp]);
                    assert(self.floating@[q] == before_floating[qq]);
                }
            }
        }

        cmds.push(WindowCommand::Focus(hwnd));

        proof {
            if !in_floating {
                assert(cmds@ =~= seq![WindowCommand::BringToTop(hwnd), WindowCommand::Focus(hwnd)]);
            } else {
                assert(cmds@ =~= seq![WindowCommand::Focus(hwnd)]);
            }
            assert forall|j: int| spec_first_focused(old(self).windows@, j) implies j == fi as int by {
                if j < fi as int {
                    assert(!old(self).windows@[j].is_focused);
                } else if j > fi as int {
                    assert(!old(self).windows@[fi as int].is_focused);
                }
            }
        }
        cmds
    }


    /// Restores every tracked window to its current state (clearing any
    /// manual-hide mark) and reports, per window, which show call the caller
    /// must perform.
    pub fn show_windows_in_current_state(&mut self) -> (r: Vec<(isize, WindowState)>)
        requires
            old(self).wf(),
        ensures
            final(self).wf(),
            final(self).windows@ == Seq::new(
                old(self).windows@.len(),
                |i: int| Window { did_manual_hide: false, ..old(self).windows@[i] },
            ),
            final(self).same_but_windows(*old(self)),
            r@.len() == old(self).windows@.len(),
            forall|i: int| 0 <= i < r@.len() ==> r@[i] == (
                old(self).windows@[i].handle,
                if old(self).windows@[i].is_minimized {
                    WindowState::Minimized
                } else if old(self).windows@[i].is_maximized {
                    WindowState::Maximized
                } else {
                    WindowState::Normal
                },
            ),
    {
        let ghost before = self.windows@;
        let ghost prev = *self;
        let mut shows: Vec<(isize, WindowState)> = Vec::new();
        let mut k: usize = 0;
        while k < self.windows.len()
            invariant
                0 <= k <= self.windows@.len(),
                self.windows@.len() == before.len(),
                self.floating == prev.floating,
                self.mouse_move_window == prev.mouse_move_window,
                self.layout_engine_type == prev.layout_engine_type,
                self.event_window_created == prev.event_window_created,
                self.event_window_destroyed == prev.event_window_destroyed,
                self.event_window_updated == prev.event_window_updated,
                self.window_events == prev.window_events,
                self.key_events == prev.key_events,
                self.mouse_events == prev.mouse_events,
                shows@.len() == k,
                forall|j: int| 0 <= j < k
                    ==> self.windows@[j] == (Window { did_manual_hide: false, ..before[j] }),
                forall|j: int| k <= j < before.len() ==> self.windows@[j] == before[j],
                forall|j: int| 0 <= j < k ==> shows@[j] == (
                    before[j].handle,
                    if before[j].is_minimized {
                        WindowState::Minimized
                    } else if before[j].is_maximized {
                        WindowState::Maximized
                    } else {
                        WindowState::Normal
                    },
                ),
            decreases self.windows@.len() - k,
        {
            let handle = self.windows[k].handle;
            let state = self.windows[k].show_in_current_state();
            shows.push((handle, state));
            k = k + 1;
        }
        proof {
            assert(self.windows@ =~= Seq::new(
                before.len(),
                |i: int| Window { did_manual_hide: false, ..before[i] },
            ));
        }
        shows
    }

    /// Computes the layout a fresh engine of the chosen variant assigns to
    /// the tracked windows, in registration order. The caller applies the
    /// locations through a batched reposition.
    pub fn test_layout(&mut self, layout_engine_type: LayoutEngineType, space_width: i32, space_height: i32) -> (r: Vec<WindowLocation>)
        requires
            old(self).wf(),
            0 <= space_width,
            0 <= space_height,
            old(self).windows@.len() <= i32::MAX,
        ensures
            *final(self) == *old(self),
            r@.len() == old(self).windows@.len(),
            old(self).windows@.len() == 0 ==> r@ =~= Seq::<WindowLocation>::empty(),
            layout_engine_type == LayoutEngineType::Dwindle && old(self).windows@.len() > 0
                ==> r@ =~= spec_dwindle_layout(
                    old(self).windows@.len() as int,
                    1,
                    50,
                    space_width as int,
                    space_height as int,
                ),
            layout_engine_type == LayoutEngineType::Focus ==> forall|i: int| 0 <= i < r@.len()
                ==> r@[i] == spec_focus_cell(
                    i,
                    old(self).windows@.len() as int,
                    1,
                    70,
                    space_width as int,
                    space_height as int,
                ),
            layout_engine_type == LayoutEngineType::Full ==> forall|i: int| 0 <= i < r@.len()
                ==> r@[i] == spec_full_cell(
                    old(self).windows@,
                    None,
                    i,
                    space_width as int,
                    space_height as int,
                ),
            layout_engine_type == LayoutEngineType::Grid ==> forall|i: int| 0 <= i < r@.len()
                ==> r@[i] == spec_grid_cell(
                    i,
                    old(self).windows@.len() as int,
                    space_width as int,
                    space_height as int,
                ),
    {
        let mut engine = LayoutEngine::of_type(layout_engine_type);
        engine.calc_layout(&self.windows, space_width, space_height)
    }

    /// A snapshot of the window currently mid-drag, for status display.
    pub fn moving_window(&self) -> (r: Option<Window>)
        requires
            self.wf(),
        ensures
            r matches Some(w) ==> self.mouse_move_window == Some(w.handle)
                && spec_tracked(self.windows@, w.handle)
                && w == self.windows@[spec_index_of(self.windows@, w.handle)],
            r is None ==> self.mouse_move_window is None
                || !spec_tracked(self.windows@, self.mouse_move_window->Some_0),
    {
        match self.mouse_move_window {
            None => None,
            Some(h) => {
                match self.find_index(h) {
                    None => None,
                    Some(i) => {
                        proof {
                            Self::lemma_index_unique(self.windows@, i as int);
                        }
                        Some(self.windows[i].clone())
                    },
                }
            },
        }
    }

    /// Drains at most one OS notification from its queue; the caller looks
    /// up fresh metadata where registration may follow and then hands the
    /// event to `process_window_event`.
    pub fn handle_window(&self) -> (r: Option<(WindowNotification, isize)>) {
        channel_try_recv(&self.window_events)
    }

    /// Dispatches one normalized OS notification to the registry operation
    /// the dispatch table names for it.
    pub fn process_window_event(&mut self, kind: WindowNotification, hwnd: isize, info: Option<WindowInfo>)
        requires
            old(self).wf(),
        ensures
            final(self).wf(),
            final(self).floating == old(self).floating,
            final(self).layout_engine_type == old(self).layout_engine_type,
            final(self).window_events == old(self).window_events,
            final(self).key_events == old(self).key_events,
            final(self).mouse_events == old(self).mouse_events,
            kind == WindowNotification::Show ==> final(self).windows@
                == spec_register(old(self).windows@, hwnd, info)
                && final(self).mouse_move_window == old(self).mouse_move_window,
            kind == WindowNotification::Destroy ==> final(self).windows@
                == spec_unregister(old(self).windows@, hwnd)
                && final(self).mouse_move_window == old(self).mouse_move_window,
            kind == WindowNotification::Cloaked ==> final(self).windows@
                == spec_update(old(self).windows@, hwnd, WindowUpdateType::Hide, info)
                && final(self).mouse_move_window == old(self).mouse_move_window,
            kind == WindowNotification::Uncloaked ==> final(self).windows@
                == spec_update(old(self).windows@, hwnd, WindowUpdateType::Show, info)
                && final(self).mouse_move_window == old(self).mouse_move_window,
            kind == WindowNotification::MinimizeStart ==> final(self).windows@
                == spec_update(old(self).windows@, hwnd, WindowUpdateType::MinimizeStart, info)
                && final(self).mouse_move_window == old(self).mouse_move_window,
            kind == WindowNotification::MinimizeEnd ==> final(self).windows@
                == spec_update(old(self).windows@, hwnd, WindowUpdateType::MinimizeEnd, info)
                && final(self).mouse_move_window == old(self).mouse_move_window,
            kind == WindowNotification::Foreground ==> final(self).windows@
                == spec_update(old(self).windows@, hwnd, WindowUpdateType::Foreground, info)
                && final(self).mouse_move_window == old(self).mouse_move_window,
            kind == WindowNotification::MoveSizeStart ==> final(self).windows@
                == spec_start_move(old(self).windows@, hwnd),
            kind == WindowNotification::MoveSizeEnd ==> final(self).windows@
                == spec_end_move(old(self).windows@, hwnd),
            kind == WindowNotification::LocationChange ==> final(self).windows
                == old(self).windows && final(self).mouse_move_window == old(self).mouse_move_window,
    {
        match kind {
            WindowNotification::Show => self.register_window(hwnd, info),
            WindowNotification::Destroy => self.unregister_window(hwnd),
            WindowNotification::Cloaked => self.update_window(hwnd, WindowUpdateType::Hide, info),
            WindowNotification::Uncloaked => self.update_window(hwnd, WindowUpdateType::Show, info),
            WindowNotification::MinimizeStart => self.update_window(hwnd, WindowUpdateType::MinimizeStart, info),
            WindowNotification::MinimizeEnd => self.update_window(hwnd, WindowUpdateType::MinimizeEnd, info),
            WindowNotification::Foreground => self.update_window(hwnd, WindowUpdateType::Foreground, info),
            WindowNotification::MoveSizeStart => self.start_move_window(hwnd),
            WindowNotification::MoveSizeEnd => self.end_move_window(hwnd),
            WindowNotification::LocationChange => {
                let _ = self.window_move(hwnd);
            },
        }
    }

    /// Dispatches one decoded chord: an exact match against the binding
    /// table triggers the bound action, anything else does nothing.
    pub fn process_keys(&mut self, keys: &Keys, key_bindings: &Vec<(Action, Keys)>) -> (cmds: Vec<WindowCommand>)
        requires
            old(self).wf(),
        ensures
            final(self).wf(),
            final(self).windows == old(self).windows,
            final(self).mouse_move_window == old(self).mouse_move_window,
            final(self).layout_engine_type == old(self).layout_engine_type,
            !spec_has_binding(key_bindings@, *keys) ==> *final(self) == *old(self) && cmds@.len() == 0,
            spec_has_binding(key_bindings@, *keys)
                ==> spec_toggle_outcome(*old(self), *final(self), cmds@),
    {
        match find_action(key_bindings, keys) {
            Some(action) => {
                match action {
                    Action::ToggleFocusedWindowTiling => self.toggle_focused_window_tiling(),
                }
            },
            None => Vec::new(),
        }
    }

    /// Drains at most one decoded chord from its queue and dispatches it.
    /// Whatever chord arrived, either nothing changed or the focused window
    /// was toggled in or out of the floating set.
    pub fn handle_keys(&mut self, key_bindings: &Vec<(Action, Keys)>) -> (cmds: Vec<WindowCommand>)
        requires
            old(self).wf(),
        ensures
            final(self).wf(),
            final(self).windows == old(self).windows,
            final(self).mouse_move_window == old(self).mouse_move_window,
            final(self).layout_engine_type == old(self).layout_engine_type,
            (*final(self) == *old(self) && cmds@.len() == 0)
                || spec_toggle_outcome(*old(self), *final(self), cmds@),
    {
        let received = channel_try_recv(&self.key_events);
        match received {
            Some(keys) => self.process_keys(&keys, key_bindings),
            None => Vec::new(),
        }
    }

    /// Drains at most one mouse-button-up signal from its queue; the signal
    /// carries no data and changes no state.
    pub fn handle_mouse(&self) -> (r: bool) {
        match channel_try_recv(&self.mouse_events) {
            Some(_) => true,
            None => false,
        }
    }
}

/// Toggling the floating state of the same window twice returns the
/// floating set to its original state: the two membership transitions the
/// toggle guarantees compose to the identity.
pub proof fn lemma_toggle_twice_restores_floating(
    before: Seq<isize>,
    mid: Seq<isize>,
    after: Seq<isize>,
    h: isize,
)
    requires
        forall|x: isize| mid.contains(x) == (if x == h {
            !before.contains(h)
        } else {
            before.contains(x)
        }),
        forall|x: isize| after.contains(x) == (if x == h {
            !mid.contains(h)
        } else {
            mid.contains(x)
        }),
    ensures
        forall|x: isize| after.contains(x) == before.contains(x),
{
}

} // verus!
