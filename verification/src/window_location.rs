//! A target or observed window geometry together with its show state.

use vstd::prelude::*;

verus! {

#[derive(Debug, Clone, Copy, PartialEq, Eq, Structural)]
pub enum WindowState {
    Normal,
    Minimized,
    Maximized,
}

#[derive(Debug, Clone, Copy, PartialEq, Eq, Structural)]
pub struct WindowLocation {
    pub x: i32,
    pub y: i32,
    pub width: i32,
    pub height: i32,
    pub state: WindowState,
}

impl WindowLocation {
    pub fn new(x: i32, y: i32, width: i32, height: i32, state: WindowState) -> (r: WindowLocation)
        ensures
            r == (WindowLocation { x, y, width, height, state }),
    {
        WindowLocation { x, y, width, height, state }
    }

    /// Whether the point lies inside the location, edges included.
    pub fn is_point_inside(&self, x: i32, y: i32) -> (r: bool)
        requires
            i32::MIN <= self.x + self.width <= i32::MAX,
            i32::MIN <= self.y + self.height <= i32::MAX,
        ensures
            r == (self.x <= x <= self.x + self.width && self.y <= y <= self.y + self.height),
    {
        self.x <= x && x <= self.x + self.width && self.y <= y && y <= self.y + self.height
    }
}

} // verus!
