//! A display as the OS reports it: its bounds, working area and identity,
//! captured as plain values at enumeration time by the OS-facing layer.

use vstd::prelude::*;

use crate::structs::Rectangle;

verus! {

#[derive(Debug)]
pub struct Screen {
    pub bounds: Rectangle,
    pub primary: bool,
    pub device_name: String,
    pub hmonitor: isize,
    pub bit_depth: i32,
    pub work_area: Rectangle,
}

impl Clone for Screen {
    fn clone(&self) -> (r: Screen)
        ensures
            r == *self,
    {
        Screen {
            bounds: self.bounds,
            primary: self.primary,
            device_name: self.device_name.clone(),
            hmonitor: self.hmonitor,
            bit_depth: self.bit_depth,
            work_area: self.work_area,
        }
    }
}

/// `j` is the first primary screen of the list.
pub open spec fn spec_first_primary(screens: Seq<Screen>, j: int) -> bool {
    &&& 0 <= j < screens.len()
    &&& screens[j].primary
    &&& forall|k: int| 0 <= k < j ==> !(#[trigger] screens[k]).primary
}

impl Screen {
    pub fn new(
        bounds: Rectangle,
        work_area: Rectangle,
        primary: bool,
        device_name: String,
        hmonitor: isize,
        bit_depth: i32,
    ) -> (r: Screen)
        ensures
            r == (Screen { bounds, primary, device_name, hmonitor, bit_depth, work_area }),
    {
        Screen { bounds, primary, device_name, hmonitor, bit_depth, work_area }
    }

    /// The area of this display available to windows.
    pub fn working_area(&self) -> (r: Rectangle)
        ensures
            r == self.work_area,
    {
        self.work_area
    }

    /// The first display marked primary, if the list holds one.
    pub fn primary_screen(screens: &Vec<Screen>) -> (r: Option<&Screen>)
        ensures
            r is Some <==> exists|j: int| spec_first_primary(screens@, j),
            forall|j: int| spec_first_primary(screens@, j) ==> (r matches Some(s) && *s == screens@[j]),
    {
        let mut i: usize = 0;
        while i < screens.len()
            invariant
                0 <= i <= screens@.len(),
                forall|k: int| 0 <= k < i ==> !(#[trigger] screens@[k]).primary,
            decreases screens@.len() - i,
        {
            if screens[i].primary {
                proof {
                    assert(spec_first_primary(screens@, i as int));
                    assert forall|j: int| spec_first_primary(screens@, j) implies j == i as int by {
                        if j < i as int {
                            assert(!screens@[j].primary);
                        } else if j > i as int {
                            assert(!screens@[i as int].primary);
                        }
                    }
                }
                return Some(&screens[i]);
            }
            i = i + 1;
        }
        proof {
            assert forall|j: int| !spec_first_primary(screens@, j) by {
                if 0 <= j < screens@.len() {
                    assert(!screens@[j].primary);
                }
            }
        }
        None
    }
}

} // verus!
