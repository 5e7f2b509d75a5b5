//! A workspace: an ordered window list together with one engine per layout
//! variant. The active variant can be cycled; each engine keeps its own
//! tuning state, so switching variants does not reset the others.

use vstd::prelude::*;
use vstd::string::StringExecFns;

verus! {

use crate::layout_engines::dwindle_layout_engine::spec_dwindle_layout;
use crate::layout_engines::focus_layout_engine::spec_focus_cell;
use crate::layout_engines::full_layout_engine::{spec_full_cell, spec_last_full_at, FullLayoutEngine};
use crate::layout_engines::grid_layout_engine::spec_grid_cell;
use crate::layout_engines::{LayoutEngine, LayoutEngineType};
use crate::window::Window;
use crate::window_location::WindowLocation;
use crate::windows_manager::{spec_first_focused, WindowUpdateType};

/// The order in which newly added windows enter the list.
#[derive(Debug, Clone, Copy, PartialEq, Eq, Structural)]
pub enum WindowOrder {
    NewWindowsLast,
    NewWindowsFirst,
}

impl Default for WindowOrder {
    fn default() -> (r: WindowOrder)
        ensures
            r == WindowOrder::NewWindowsLast,
    {
        WindowOrder::NewWindowsLast
    }
}

pub struct Workspace {
    pub name: String,
    /// The windows of this workspace, in the order layout sees them.
    pub windows: Vec<Window>,
    /// The active layout variant.
    pub layout_engine: LayoutEngineType,
    /// The window that last held focus here, if any.
    pub last_focused: Option<Window>,
    /// One engine per variant, in cycle order; the inactive ones keep their
    /// tuning state.
    pub engines: Vec<LayoutEngine>,
}

impl Workspace {
    /// One usable engine per variant stands at its cycle position.
    pub open spec fn wf(self) -> bool {
        &&& self.engines@.len() == 4
        &&& (forall|i: int| 0 <= i < 4
            ==> (#[trigger] self.engines@[i]).spec_engine_type() == LayoutEngineType::spec_from_index(i))
        &&& (forall|i: int| 0 <= i < 4 ==> (#[trigger] self.engines@[i]).wf())
    }

    /// The engine of the active variant.
    pub open spec fn spec_active_engine(self) -> LayoutEngine {
        self.engines@[self.layout_engine.spec_index()]
    }

    /// A fresh workspace: no windows, the default layout variant active,
    /// and a fresh engine for every variant.
    pub fn new(name: &str) -> (r: Workspace)
        ensures
            r.wf(),
            r.name@ == name@,
            r.windows@.len() == 0,
            r.layout_engine == LayoutEngineType::Full,
            r.last_focused is None,
            forall|i: int| 0 <= i < 4 ==> (#[trigger] r.engines@[i])
                == LayoutEngine::spec_of_type(LayoutEngineType::spec_from_index(i)),
    {
        let mut engines: Vec<LayoutEngine> = Vec::new();
        engines.push(LayoutEngine::of_type(LayoutEngineType::Dwindle));
        engines.push(LayoutEngine::of_type(LayoutEngineType::Focus));
        engines.push(LayoutEngine::of_type(LayoutEngineType::Full));
        engines.push(LayoutEngine::of_type(LayoutEngineType::Grid));
        Workspace {
            name: String::from_str(name),
            windows: Vec::new(),
            layout_engine: LayoutEngineType::Full,
            last_focused: None,
            engines,
        }
    }

    /// The display name of the active layout variant.
    pub fn layout_name(&self) -> (r: String)
        ensures
            self.layout_engine == LayoutEngineType::Dwindle ==> r@ == "Dwindle"@,
            self.layout_engine == LayoutEngineType::Focus ==> r@ == "Focus"@,
            self.layout_engine == LayoutEngineType::Full ==> r@ == "Full"@,
            self.layout_engine == LayoutEngineType::Grid ==> r@ == "Grid"@,
    {
        match self.layout_engine {
            LayoutEngineType::Dwindle => String::from_str("Dwindle"),
            LayoutEngineType::Focus => String::from_str("Focus"),
            LayoutEngineType::Full => String::from_str("Full"),
            LayoutEngineType::Grid => String::from_str("Grid"),
        }
    }

    /// The first focused window of the list, if any window is focused.
    pub fn focused_window(&self) -> (r: Option<Window>)
        ensures
            r is Some <==> exists|j: int| spec_first_focused(self.windows@, j),
            forall|j: int| spec_first_focused(self.windows@, j) ==> r == Some(self.windows@[j]),
    {
        let mut i: usize = 0;
        while i < self.windows.len()
            invariant
                0 <= i <= self.windows@.len(),
                forall|k: int| 0 <= k < i ==> !(#[trigger] self.windows@[k]).is_focused,
            decreases self.windows@.len() - i,
        {
            if self.windows[i].is_focused() {
                proof {
                    assert(spec_first_focused(self.windows@, i as int));
                    assert forall|j: int| spec_first_focused(self.windows@, j) implies j == i as int by {
                        if j < i as int {
                            assert(!self.windows@[j].is_focused);
                        } else if j > i as int {
                            assert(!self.windows@[i as int].is_focused);
                        }
                    }
                }
                return Some(self.windows[i].clone());
            }
            i = i + 1;
        }
        proof {
            assert forall|j: int| !spec_first_focused(self.windows@, j) by {
                if 0 <= j < self.windows@.len() {
                    assert(!self.windows@[j].is_focused);
                }
            }
        }
        None
    }

    /// Adds a window at the configured end of the list; it becomes the
    /// remembered focus holder when it is focused or when none was
    /// remembered yet. Layout recomputation is requested by the host through
    /// `do_layout`.
    pub fn add_window(&mut self, window: &Window, window_order: WindowOrder)
        requires
            old(self).wf(),
        ensures
            final(self).wf(),
            final(self).windows@ == (if window_order == WindowOrder::NewWindowsLast {
                old(self).windows@.push(*window)
            } else {
                old(self).windows@.insert(0, *window)
            }),
            final(self).last_focused == (if old(self).last_focused is None || window.is_focused {
                Some(*window)
            } else {
                old(self).last_focused
            }),
            final(self).name == old(self).name,
            final(self).layout_engine == old(self).layout_engine,
            final(self).engines == old(self).engines,
    {
        if self.last_focused.is_none() || window.is_focused() {
            self.last_focused = Some(window.clone());
        }
        match window_order {
            WindowOrder::NewWindowsLast => self.windows.push(window.clone()),
            WindowOrder::NewWindowsFirst => self.windows.insert(0, window.clone()),
        }
    }

    /// Removes every entry carrying the window's handle. When the removed
    /// window was the remembered focus holder, the remembered focus moves to
    /// the entry after it (cyclically), or to none when it was alone.
    pub fn remove_window(&mut self, window: &Window)
        requires
            old(self).wf(),
        ensures
            final(self).wf(),
            final(self).windows@ == old(self).windows@.filter(|w: Window| w.handle != window.handle),
            final(self).name == old(self).name,
            final(self).layout_engine == old(self).layout_engine,
            final(self).engines == old(self).engines,
            (old(self).last_focused is None
                || old(self).last_focused->Some_0.handle != window.handle)
                ==> final(self).last_focused == old(self).last_focused,
            (old(self).last_focused is Some
                && old(self).last_focused->Some_0.handle == window.handle
                && (forall|j: int| 0 <= j < old(self).windows@.len()
                    ==> (#[trigger] old(self).windows@[j]).handle != window.handle))
                ==> final(self).last_focused is None,
            forall|i: int| (old(self).last_focused is Some
                && old(self).last_focused->Some_0.handle == window.handle
                && 0 <= i < old(self).windows@.len()
                && old(self).windows@[i].handle == window.handle
                && (forall|k: int| 0 <= k < i ==> (#[trigger] old(self).windows@[k]).handle != window.handle))
                ==> final(self).last_focused == (if old(self).windows@.len() > 1 {
                    Some(old(self).windows@[(i + 1) % (old(self).windows@.len() as int)])
                } else {
                    Option::<Window>::None
                }),
    {
        let ghost before = self.windows@;
        let ghost prev = *self;

        match &self.last_focused {
            Some(last) => {
                if last.handle == window.handle {
                    let next = match self.position_of(window.handle) {
                        Some(i) => {
                            if self.windows.len() > 1 {
                                let ni = (i + 1) % self.windows.len();
                                Some(self.windows[ni].clone())
                            } else {
                                None
                            }
                        },
                        None => None,
                    };
                    self.last_focused = next;
                }
            },
            None => (),
        }

        let ghost mid = *self;
        let mut kept: Vec<Window> = Vec::new();
        proof {
            reveal(Seq::filter);
            assert(before.subrange(0, 0).filter(|w: Window| w.handle != window.handle) =~= Seq::<Window>::empty());
        }
        let mut i: usize = 0;
        while i < self.windows.len()
            invariant
                0 <= i <= self.windows@.len(),
                self.windows@ == before,
                *self == mid,
                kept@ == before.subrange(0, i as int).filter(|w: Window| w.handle != window.handle),
            decreases self.windows@.len() - i,
        {
            proof {
                reveal(Seq::filter);
                let pred = |w: Window| w.handle != window.handle;
                let pre1 = before.subrange(0, i as int + 1);
                assert(pre1.drop_last() =~= before.subrange(0, i as int));
                assert(pre1.last() == before[i as int]);
                assert(pre1.filter(pred) == if pred(before[i as int]) {
                    before.subrange(0, i as int).filter(pred).push(before[i as int])
                } else {
                    before.subrange(0, i as int).filter(pred)
                });
            }
            if self.windows[i].handle != window.handle {
                kept.push(self.windows[i].clone());
            }
            i = i + 1;
        }
        proof {
            reveal(Seq::filter);
            assert(before.subrange(0, before.len() as int) =~= before);
        }
        self.windows = kept;
    }

    /// The position of the first entry with this handle.
    fn position_of(&self, handle: isize) -> (r: Option<usize>)
        ensures
            r matches Some(i) ==> i < self.windows@.len()
                && self.windows@[i as int].handle == handle
                && (forall|j: int| 0 <= j < i ==> (#[trigger] self.windows@[j]).handle != handle),
            r is None ==> forall|j: int| 0 <= j < self.windows@.len()
                ==> (#[trigger] self.windows@[j]).handle != handle,
    {
        let mut i: usize = 0;
        while i < self.windows.len()
            invariant
                0 <= i <= self.windows@.len(),
                forall|j: int| 0 <= j < i ==> (#[trigger] self.windows@[j]).handle != handle,
            decreases self.windows@.len() - i,
        {
            if self.windows[i].handle == handle {
                return Some(i);
            }
            i = i + 1;
        }
        None
    }

    /// Applies one state update: a window coming to the foreground becomes
    /// the remembered focus holder; other kinds leave the workspace as it
    /// is. Layout recomputation is requested by the host through
    /// `do_layout`.
    pub fn update_window(&mut self, window: &Window, window_update_type: WindowUpdateType)
        requires
            old(self).wf(),
        ensures
            final(self).wf(),
            final(self).last_focused == (if window_update_type == WindowUpdateType::Foreground {
                Some(*window)
            } else {
                old(self).last_focused
            }),
            final(self).windows == old(self).windows,
            final(self).name == old(self).name,
            final(self).layout_engine == old(self).layout_engine,
            final(self).engines == old(self).engines,
    {
        if window_update_type == WindowUpdateType::Foreground {
            self.last_focused = Some(window.clone());
        }
    }

    /// Names the window the host should close: the focused one, if any.
    pub fn close_focus_window(&self) -> (r: Option<isize>)
        ensures
            r is Some <==> exists|j: int| spec_first_focused(self.windows@, j),
            forall|j: int| spec_first_focused(self.windows@, j) ==> r == Some(self.windows@[j].handle),
    {
        match self.focused_window() {
            Some(window) => Some(window.handle),
            None => None,
        }
    }

    /// Cycles the active layout variant backward.
    pub fn previous_layout_engine(&mut self)
        requires
            old(self).wf(),
        ensures
            final(self).wf(),
            final(self).layout_engine == old(self).layout_engine.spec_previous(),
            final(self).windows == old(self).windows,
            final(self).name == old(self).name,
            final(self).last_focused == old(self).last_focused,
            final(self).engines == old(self).engines,
    {
        self.layout_engine = self.layout_engine.previous();
    }

    /// Cycles the active layout variant forward.
    pub fn next_layout_engine(&mut self)
        requires
            old(self).wf(),
        ensures
            final(self).wf(),
            final(self).layout_engine == old(self).layout_engine.spec_next(),
            final(self).windows == old(self).windows,
            final(self).name == old(self).name,
            final(self).last_focused == old(self).last_focused,
            final(self).engines == old(self).engines,
    {
        self.layout_engine = self.layout_engine.next();
    }

    /// The active engine, by value.
    pub fn get_layout_engine(&self) -> (r: LayoutEngine)
        requires
            self.wf(),
        ensures
            r == self.spec_active_engine(),
    {
        self.engines[self.layout_engine.index()]
    }

    /// Resets the primary-area offset of the active engine.
    pub fn reset_layout(&mut self)
        requires
            old(self).wf(),
        ensures
            final(self).wf(),
            final(self).windows == old(self).windows,
            final(self).name == old(self).name,
            final(self).last_focused == old(self).last_focused,
            final(self).layout_engine == old(self).layout_engine,
            final(self).engines@ == old(self).engines@.update(
                old(self).layout_engine.spec_index(),
                final(self).spec_active_engine(),
            ),
    {
        let idx = self.layout_engine.index();
        let mut engine = self.engines[idx];
        engine.reset_primary_area();
        self.engines[idx] = engine;
    }

    /// Computes the layout of this workspace's windows with the active
    /// engine; the engine's own state (the full layout's remembered last
    /// full window) is carried across calls. An empty list yields an empty
    /// layout.
    pub fn do_layout(&mut self, space_width: i32, space_height: i32) -> (r: Vec<WindowLocation>)
        requires
            old(self).wf(),
            0 <= space_width,
            0 <= space_height,
            old(self).windows@.len() <= i32::MAX,
        ensures
            final(self).wf(),
            final(self).windows == old(self).windows,
            final(self).name == old(self).name,
            final(self).last_focused == old(self).last_focused,
            final(self).layout_engine == old(self).layout_engine,
            r@.len() == old(self).windows@.len(),
            old(self).windows@.len() == 0 ==> r@ =~= Seq::<WindowLocation>::empty(),
            old(self).spec_active_engine() matches LayoutEngine::Dwindle(e) ==> final(self).engines@ == old(self).engines@
                && (old(self).windows@.len() > 0 ==> r@ =~= spec_dwindle_layout(
                    old(self).windows@.len() as int,
                    e.effective_num_in_primary(),
                    e.effective_percent(),
                    space_width as int,
                    space_height as int,
                )),
            old(self).spec_active_engine() matches LayoutEngine::Focus(e) ==> final(self).engines@ == old(self).engines@
                && (forall|i: int| 0 <= i < old(self).windows@.len()
                    ==> r@[i] == spec_focus_cell(
                        i,
                        old(self).windows@.len() as int,
                        e.effective_num_in_primary(),
                        e.effective_percent(),
                        space_width as int,
                        space_height as int,
                    )),
            old(self).spec_active_engine() matches LayoutEngine::Full(e) ==> {
                &&& (forall|i: int| 0 <= i < old(self).windows@.len()
                    ==> r@[i] == spec_full_cell(
                        old(self).windows@,
                        e.last_full,
                        i,
                        space_width as int,
                        space_height as int,
                    ))
                &&& final(self).engines@ == old(self).engines@.update(
                    old(self).layout_engine.spec_index(),
                    LayoutEngine::Full(FullLayoutEngine {
                        last_full: if old(self).windows@.len() == 0 {
                            e.last_full
                        } else {
                            spec_last_full_at(old(self).windows@, e.last_full, old(self).windows@.len() as int)
                        },
                    }),
                )
            },
            old(self).spec_active_engine() matches LayoutEngine::Grid(_) ==> final(self).engines@ == old(self).engines@
                && (forall|i: int| 0 <= i < old(self).windows@.len()
                    ==> r@[i] == spec_grid_cell(
                        i,
                        old(self).windows@.len() as int,
                        space_width as int,
                        space_height as int,
                    )),
    {
        let idx = self.layout_engine.index();
        let mut engine = self.engines[idx];
        let locations = engine.calc_layout(&self.windows, space_width, space_height);
        self.engines[idx] = engine;
        proof {
            if !(old(self).spec_active_engine() is Full) {
                assert(self.engines@ =~= old(self).engines@);
            }
        }
        locations
    }

    /// Exchanges the positions of two windows of the list, found by handle;
    /// a handle that is not present leaves the list unchanged.
    pub fn swap_windows(&mut self, left: &Window, right: &Window)
        requires
            old(self).wf(),
        ensures
            final(self).wf(),
            final(self).name == old(self).name,
            final(self).last_focused == old(self).last_focused,
            final(self).layout_engine == old(self).layout_engine,
            final(self).engines == old(self).engines,
            forall|li: int, ri: int| (0 <= li < old(self).windows@.len()
                && 0 <= ri < old(self).windows@.len()
                && old(self).windows@[li].handle == left.handle
                && old(self).windows@[ri].handle == right.handle
                && (forall|k: int| 0 <= k < li ==> (#[trigger] old(self).windows@[k]).handle != left.handle)
                && (forall|k: int| 0 <= k < ri ==> (#[trigger] old(self).windows@[k]).handle != right.handle))
                ==> final(self).windows@ == old(self).windows@
                    .update(li, old(self).windows@[ri])
                    .update(ri, old(self).windows@[li]),
            ((forall|j: int| 0 <= j < old(self).windows@.len()
                ==> (#[trigger] old(self).windows@[j]).handle != left.handle)
            || (forall|j: int| 0 <= j < old(self).windows@.len()
                ==> (#[trigger] old(self).windows@[j]).handle != right.handle))
                ==> final(self).windows == old(self).windows,
    {
        let li = self.position_of(left.handle);
        let ri = self.position_of(right.handle);
        match (li, ri) {
            (Some(l), Some(r)) => {
                let wl = self.windows[l].clone();
                let wr = self.windows[r].clone();
                self.windows[l] = wr;
                self.windows[r] = wl;
            },
            _ => (),
        }
    }
}

} // verus!
