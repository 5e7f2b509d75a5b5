//! A monitor: a display with its position in the enumeration order. Layout
//! works inside the monitor's working area.

use vstd::prelude::*;

use crate::screen::Screen;

verus! {

#[derive(Debug)]
pub struct Monitor {
    pub index: u32,
    pub screen: Screen,
}

impl Clone for Monitor {
    fn clone(&self) -> (r: Monitor)
        ensures
            r == *self,
    {
        Monitor { index: self.index, screen: self.screen.clone() }
    }
}

impl Monitor {
    pub fn new(index: u32, screen: Screen) -> (r: Monitor)
        ensures
            r == (Monitor { index, screen }),
    {
        Monitor { index, screen }
    }

    pub fn name(&self) -> (r: &String)
        ensures
            r == self.screen.device_name,
    {
        &self.screen.device_name
    }

    pub fn width(&self) -> (r: i32)
        ensures
            r == self.screen.work_area.width,
    {
        self.screen.working_area().width
    }

    pub fn height(&self) -> (r: i32)
        ensures
            r == self.screen.work_area.height,
    {
        self.screen.working_area().height
    }

    pub fn x(&self) -> (r: i32)
        ensures
            r == self.screen.work_area.x,
    {
        self.screen.working_area().x
    }

    pub fn y(&self) -> (r: i32)
        ensures
            r == self.screen.work_area.y,
    {
        self.screen.working_area().y
    }
}

} // verus!
