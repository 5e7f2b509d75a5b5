//! Full layout: every window is offered the whole screen; exactly the
//! focused window is shown normal and the rest are minimized. The engine
//! remembers which window was last shown full, so that when focus is lost
//! entirely (for example the desktop was clicked) the previously full window
//! stays visible instead of everything minimizing.

use vstd::prelude::*;

verus! {

use crate::window::Window;
use crate::window_location::{WindowLocation, WindowState};

/// No window of the list is focused.
pub open spec fn spec_no_focus(windows: Seq<Window>) -> bool {
    forall|i: int| 0 <= i < windows.len() ==> !(#[trigger] windows[i]).is_focused
}

/// Whether window `i` is forced to stay normal: it is focused, or nothing is
/// focused and it is the remembered last-full window.
pub open spec fn spec_force_normal(windows: Seq<Window>, last_full: Option<isize>, i: int) -> bool {
    (spec_no_focus(windows) && last_full == Some(windows[i].handle)) || windows[i].is_focused
}

/// The remembered last-full handle after the first `i` windows have been
/// processed: it moves to each window that was forced normal, in order.
pub open spec fn spec_last_full_at(windows: Seq<Window>, last_full: Option<isize>, i: int) -> Option<isize>
    decreases i
{
    if i <= 0 {
        last_full
    } else {
        let before = spec_last_full_at(windows, last_full, i - 1);
        if spec_force_normal(windows, before, i - 1) {
            Some(windows[i - 1].handle)
        } else {
            before
        }
    }
}

/// The location assigned to window `i`: the full space, normal for a forced
/// window and minimized otherwise.
pub open spec fn spec_full_cell(
    windows: Seq<Window>,
    last_full: Option<isize>,
    i: int,
    space_width: int,
    space_height: int,
) -> WindowLocation {
    WindowLocation {
        x: 0,
        y: 0,
        width: space_width as i32,
        height: space_height as i32,
        state: if spec_force_normal(windows, spec_last_full_at(windows, last_full, i), i) {
            WindowState::Normal
        } else {
            WindowState::Minimized
        },
    }
}

/// When nothing is focused and the remembered last-full handle names window
/// `m` of a list with pairwise distinct handles, the remembered handle never
/// moves while the list is processed.
proof fn lemma_last_full_stable(windows: Seq<Window>, last_full: Option<isize>, m: int, i: int)
    requires
        spec_no_focus(windows),
        0 <= m < windows.len(),
        last_full == Some(windows[m].handle),
        forall|p: int, q: int| 0 <= p < q < windows.len()
            ==> (#[trigger] windows[p].handle) != (#[trigger] windows[q].handle),
        0 <= i <= windows.len(),
    ensures
        spec_last_full_at(windows, last_full, i) == last_full,
    decreases i
{
    if i > 0 {
        lemma_last_full_stable(windows, last_full, m, i - 1);
    }
}

/// Exactly one window is shown normal when exactly one window is focused:
/// the focused one.
pub proof fn lemma_full_single_normal(
    windows: Seq<Window>,
    last_full: Option<isize>,
    space_width: int,
    space_height: int,
    j: int,
)
    requires
        0 <= j < windows.len(),
        windows[j].is_focused,
        forall|k: int| 0 <= k < windows.len() && k != j ==> !(#[trigger] windows[k]).is_focused,
    ensures
        forall|k: int| 0 <= k < windows.len()
            ==> ((#[trigger] spec_full_cell(windows, last_full, k, space_width, space_height).state)
                == WindowState::Normal <==> k == j),
{
    assert(!spec_no_focus(windows));
}

/// When nothing is focused and the remembered last-full handle still names
/// a window of the list (with pairwise distinct handles), exactly that
/// window is shown normal.
pub proof fn lemma_full_no_focus_keeps_last(
    windows: Seq<Window>,
    last_full: Option<isize>,
    space_width: int,
    space_height: int,
    m: int,
)
    requires
        spec_no_focus(windows),
        0 <= m < windows.len(),
        last_full == Some(windows[m].handle),
        forall|p: int, q: int| 0 <= p < q < windows.len()
            ==> (#[trigger] windows[p].handle) != (#[trigger] windows[q].handle),
    ensures
        forall|k: int| 0 <= k < windows.len()
            ==> ((#[trigger] spec_full_cell(windows, last_full, k, space_width, space_height).state)
                == WindowState::Normal <==> k == m),
{
    assert forall|k: int| 0 <= k < windows.len() implies
        ((spec_full_cell(windows, last_full, k, space_width, space_height).state)
            == WindowState::Normal <==> k == m) by {
        lemma_last_full_stable(windows, last_full, m, k);
        if k != m {
            if k < m {
                assert(windows[k].handle != windows[m].handle);
            } else {
                assert(windows[m].handle != windows[k].handle);
            }
        }
    }
}

#[derive(Debug, Clone, Copy, PartialEq, Eq, Structural)]
pub struct FullLayoutEngine {
    pub last_full: Option<isize>,
}

impl FullLayoutEngine {
    pub fn new() -> (r: FullLayoutEngine)
        ensures
            r == (FullLayoutEngine { last_full: None }),
    {
        FullLayoutEngine { last_full: None }
    }

    pub fn name(&self) -> (r: &'static str)
        ensures
            r@ == "full"@,
    {
        "full"
    }

    /// The show state a window should get: normal when it is focused or
    /// forced to stay full, minimized otherwise.
    pub fn get_desired_state(&self, window: &Window, force_normal: bool) -> (s: WindowState)
        ensures
            s == (if window.is_focused || force_normal {
                WindowState::Normal
            } else {
                WindowState::Minimized
            }),
    {
        if window.is_focused() || force_normal {
            WindowState::Normal
        } else {
            WindowState::Minimized
        }
    }

    /// Assigns the full space to every window, normal for exactly the forced
    /// windows, and moves the last-full mark along; an empty input yields an
    /// empty layout and leaves the mark unchanged.
    pub fn calc_layout(&mut self, windows: &Vec<Window>, space_width: i32, space_height: i32) -> (r: Vec<WindowLocation>)
        ensures
            r@.len() == windows@.len(),
            windows@.len() == 0 ==> r@ =~= Seq::<WindowLocation>::empty(),
            windows@.len() == 0 ==> *final(self) == *old(self),
            forall|i: int| 0 <= i < windows@.len()
                ==> r@[i] == spec_full_cell(windows@, old(self).last_full, i, space_width as int, space_height as int),
            windows@.len() > 0 ==> final(self).last_full
                == spec_last_full_at(windows@, old(self).last_full, windows@.len() as int),
    {
        let mut list: Vec<WindowLocation> = Vec::new();
        let num_windows = windows.len();

        if num_windows == 0 {
            return list;
        }

        let mut no_focus = true;
        let mut i: usize = 0;
        while i < num_windows
            invariant
                0 <= i <= num_windows,
                num_windows == windows@.len(),
                no_focus == (forall|j: int| 0 <= j < i ==> !(#[trigger] windows@[j]).is_focused),
            decreases num_windows - i,
        {
            if windows[i].is_focused() {
                no_focus = false;
                proof {
                    assert(!spec_no_focus(windows@));
                }
                i = num_windows;
            } else {
                i = i + 1;
            }
        }
        assert(no_focus == spec_no_focus(windows@));

        let ghost initial = self.last_full;
        let mut list: Vec<WindowLocation> = Vec::new();
        let mut i: usize = 0;
        while i < num_windows
            invariant
                0 <= i <= num_windows,
                num_windows == windows@.len(),
                no_focus == spec_no_focus(windows@),
                self.last_full == spec_last_full_at(windows@, initial, i as int),
                list@.len() == i,
                forall|j: int| 0 <= j < i
                    ==> list@[j] == spec_full_cell(windows@, initial, j, space_width as int, space_height as int),
            decreases num_windows - i,
        {
            let window = &windows[i];
            let force_normal = (no_focus && match self.last_full {
                Some(h) => h == window.handle,
                None => false,
            }) || window.is_focused();

            assert(force_normal == spec_force_normal(windows@, spec_last_full_at(windows@, initial, i as int), i as int));

            if force_normal {
                self.last_full = Some(window.handle);
            }

            let state = self.get_desired_state(window, force_normal);
            list.push(WindowLocation { x: 0, y: 0, width: space_width, height: space_height, state });
            i = i + 1;
        }
        list
    }

    pub fn shrink_primary_area(&mut self)
        ensures
            *final(self) == *old(self),
    {
    }

    pub fn expand_primary_area(&mut self)
        ensures
            *final(self) == *old(self),
    {
    }

    pub fn reset_primary_area(&mut self)
        ensures
            *final(self) == *old(self),
    {
    }

    pub fn increment_num_in_primary(&mut self)
        ensures
            *final(self) == *old(self),
    {
    }

    pub fn decrement_num_in_primary(&mut self)
        ensures
            *final(self) == *old(self),
    {
    }
}

} // verus!
