//! The set of available monitors, resolved once at startup from the screens
//! the OS enumerated, with a focused monitor and lookups by index, point and
//! rectangle.

use vstd::prelude::*;

use crate::monitor::Monitor;
use crate::screen::Screen;
use crate::structs::Rectangle;

verus! {

/// `j` is the first monitor whose display bounds contain the point.
pub open spec fn spec_first_at_point(monitors: Seq<Monitor>, x: int, y: int, j: int) -> bool {
    &&& 0 <= j < monitors.len()
    &&& monitors[j].screen.bounds.spec_contains(x, y)
    &&& forall|k: int| 0 <= k < j ==> !(#[trigger] monitors[k]).screen.bounds.spec_contains(x, y)
}

/// `j` is the first monitor whose display bounds intersect the rectangle.
pub open spec fn spec_first_at_rect(monitors: Seq<Monitor>, rect: Rectangle, j: int) -> bool {
    &&& 0 <= j < monitors.len()
    &&& monitors[j].screen.bounds.spec_intersects(rect)
    &&& forall|k: int| 0 <= k < j ==> !(#[trigger] monitors[k]).screen.bounds.spec_intersects(rect)
}

#[derive(Debug)]
pub struct NativeMonitorContainer {
    pub monitors: Vec<Monitor>,
    pub focused_monitor: i32,
}

impl NativeMonitorContainer {
    /// At least one monitor exists, the count fits the index type, every
    /// monitor records its position, and the focused index is valid.
    pub open spec fn wf(self) -> bool {
        &&& 1 <= self.monitors@.len() <= i32::MAX
        &&& 0 <= self.focused_monitor < self.monitors@.len()
        &&& forall|i: int| 0 <= i < self.monitors@.len() ==> (#[trigger] self.monitors@[i]).index == i
    }

    /// One monitor per enumerated screen, in enumeration order, with the
    /// first one focused.
    pub fn new(screens: Vec<Screen>) -> (r: NativeMonitorContainer)
        requires
            1 <= screens@.len() <= i32::MAX,
        ensures
            r.wf(),
            r.focused_monitor == 0,
            r.monitors@.len() == screens@.len(),
            forall|i: int| 0 <= i < screens@.len()
                ==> (#[trigger] r.monitors@[i]) == (Monitor { index: i as u32, screen: screens@[i] }),
    {
        let mut monitors: Vec<Monitor> = Vec::new();
        let mut i: usize = 0;
        let n = screens.len();
        while i < n
            invariant
                0 <= i <= n,
                n == screens@.len(),
                n <= i32::MAX,
                monitors@.len() == i,
                forall|j: int| 0 <= j < i
                    ==> (#[trigger] monitors@[j]) == (Monitor { index: j as u32, screen: screens@[j] }),
            decreases n - i,
        {
            monitors.push(Monitor { index: i as u32, screen: screens[i].clone() });
            i = i + 1;
        }
        NativeMonitorContainer { monitors, focused_monitor: 0 }
    }

    pub fn num_monitors(&self) -> (r: i32)
        requires
            self.wf(),
        ensures
            r == self.monitors@.len(),
    {
        self.monitors.len() as i32
    }

    pub fn focused_monitor(&self) -> (r: &Monitor)
        requires
            self.wf(),
        ensures
            *r == self.monitors@[self.focused_monitor as int],
    {
        &self.monitors[self.focused_monitor as usize]
    }

    pub fn get_all_monitors(&self) -> (r: &Vec<Monitor>)
        ensures
            *r == self.monitors,
    {
        &self.monitors
    }

    pub fn get_monitor_at_index(&self, index: i32) -> (r: Option<&Monitor>)
        ensures
            (0 <= index < self.monitors@.len()) ==> (r matches Some(m) && *m == self.monitors@[index as int]),
            !(0 <= index < self.monitors@.len()) ==> r is None,
    {
        if index >= 0 && (index as usize) < self.monitors.len() {
            Some(&self.monitors[index as usize])
        } else {
            None
        }
    }

    /// The first monitor whose display contains the point, or the first
    /// monitor when none does.
    pub fn get_monitor_at_point(&self, x: i32, y: i32) -> (r: &Monitor)
        requires
            self.wf(),
            forall|i: int| 0 <= i < self.monitors@.len()
                ==> (#[trigger] self.monitors@[i]).screen.bounds.edges_in_range(),
        ensures
            forall|j: int| spec_first_at_point(self.monitors@, x as int, y as int, j)
                ==> *r == self.monitors@[j],
            (forall|j: int| 0 <= j < self.monitors@.len()
                ==> !(#[trigger] self.monitors@[j]).screen.bounds.spec_contains(x as int, y as int))
                ==> *r == self.monitors@[0],
    {
        let mut i: usize = 0;
        while i < self.monitors.len()
            invariant
                0 <= i <= self.monitors@.len(),
                forall|k: int| 0 <= k < i
                    ==> !(#[trigger] self.monitors@[k]).screen.bounds.spec_contains(x as int, y as int),
                forall|k: int| 0 <= k < self.monitors@.len()
                    ==> (#[trigger] self.monitors@[k]).screen.bounds.edges_in_range(),
            decreases self.monitors@.len() - i,
        {
            if self.monitors[i].screen.bounds.contains(x, y) {
                proof {
                    assert forall|j: int| spec_first_at_point(self.monitors@, x as int, y as int, j)
                        implies j == i as int by {
                        if j < i as int {
                            assert(!self.monitors@[j].screen.bounds.spec_contains(x as int, y as int));
                        } else if j > i as int {
                            assert(!self.monitors@[i as int].screen.bounds.spec_contains(x as int, y as int));
                        }
                    }
                }
                return &self.monitors[i];
            }
            i = i + 1;
        }
        &self.monitors[0]
    }

    /// The first monitor whose display intersects the rectangle, or the
    /// first monitor when none does.
    pub fn get_monitor_at_rect(&self, x: i32, y: i32, width: i32, height: i32) -> (r: &Monitor)
        requires
            self.wf(),
            forall|i: int| 0 <= i < self.monitors@.len()
                ==> (#[trigger] self.monitors@[i]).screen.bounds.edges_in_range(),
            i32::MIN <= x + width <= i32::MAX,
            i32::MIN <= y + height <= i32::MAX,
        ensures
            forall|j: int| spec_first_at_rect(self.monitors@, Rectangle { x, y, width, height }, j)
                ==> *r == self.monitors@[j],
            (forall|j: int| 0 <= j < self.monitors@.len()
                ==> !(#[trigger] self.monitors@[j]).screen.bounds.spec_intersects(
                    Rectangle { x, y, width, height },
                ))
                ==> *r == self.monitors@[0],
    {
        let rect = Rectangle::new(x, y, width, height);
        let mut i: usize = 0;
        while i < self.monitors.len()
            invariant
                rect == (Rectangle { x, y, width, height }),
                i32::MIN <= x + width <= i32::MAX,
                i32::MIN <= y + height <= i32::MAX,
                0 <= i <= self.monitors@.len(),
                forall|k: int| 0 <= k < i
                    ==> !(#[trigger] self.monitors@[k]).screen.bounds.spec_intersects(rect),
                forall|k: int| 0 <= k < self.monitors@.len()
                    ==> (#[trigger] self.monitors@[k]).screen.bounds.edges_in_range(),
            decreases self.monitors@.len() - i,
        {
            if self.monitors[i].screen.bounds.intersects_with(rect) {
                proof {
                    assert forall|j: int| spec_first_at_rect(self.monitors@, rect, j)
                        implies j == i as int by {
                        if j < i as int {
                            assert(!self.monitors@[j].screen.bounds.spec_intersects(rect));
                        } else if j > i as int {
                            assert(!self.monitors@[i as int].screen.bounds.spec_intersects(rect));
                        }
                    }
                }
                return &self.monitors[i];
            }
            i = i + 1;
        }
        &self.monitors[0]
    }

    /// The monitor after the focused one, wrapping to the first.
    pub fn get_next_monitor(&self) -> (r: &Monitor)
        requires
            self.wf(),
        ensures
            *r == (if self.focused_monitor + 1 < self.monitors@.len() {
                self.monitors@[self.focused_monitor as int + 1]
            } else {
                self.monitors@[0]
            }),
    {
        let next = self.focused_monitor + 1;
        if (next as usize) < self.monitors.len() {
            &self.monitors[next as usize]
        } else {
            &self.monitors[0]
        }
    }

    /// The monitor before the focused one, wrapping to the last.
    pub fn get_previous_monitor(&self) -> (r: &Monitor)
        requires
            self.wf(),
        ensures
            *r == (if self.focused_monitor >= 1 {
                self.monitors@[self.focused_monitor as int - 1]
            } else {
                self.monitors@[self.monitors@.len() - 1]
            }),
    {
        if self.focused_monitor >= 1 {
            &self.monitors[(self.focused_monitor - 1) as usize]
        } else {
            &self.monitors[self.monitors.len() - 1]
        }
    }
}

} // verus!
