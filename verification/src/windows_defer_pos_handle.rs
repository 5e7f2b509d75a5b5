//! Batched repositioning: collects the geometry moves and show-state changes
//! one layout pass asks for, so the caller can apply them to the OS as one
//! batch and finalize the show states in a fixed order afterwards (minimize,
//! then maximize, then show normal). Target geometries are given in
//! visual-frame terms; each window's non-client frame offset is added before
//! the raw move is recorded, and a move that would leave the window exactly
//! where it is records nothing.

use vstd::prelude::*;

use crate::structs::Rectangle;
use crate::window::Window;
use crate::window_location::{WindowLocation, WindowState};

verus! {

/// One raw move/resize for the OS position call.
#[derive(Debug, Clone, Copy, PartialEq, Eq, Structural)]
pub struct WindowPosChange {
    pub handle: isize,
    pub x: i32,
    pub y: i32,
    pub width: i32,
    pub height: i32,
}

/// One show-state call to perform at batch finalization. Minimize and
/// maximize are skipped by the caller when the window is already in that
/// state at finalization time.
#[derive(Debug, Clone, Copy, PartialEq, Eq, Structural)]
pub enum ShowCommand {
    Minimize(isize),
    Maximize(isize),
    ShowNormal(isize),
}

pub struct WindowsDeferPosHandle {
    pub to_minimize: Vec<isize>,
    pub to_maximize: Vec<isize>,
    pub to_normal: Vec<isize>,
    pub moves: Vec<WindowPosChange>,
}

impl WindowsDeferPosHandle {
    pub fn new() -> (r: WindowsDeferPosHandle)
        ensures
            r.to_minimize@.len() == 0,
            r.to_maximize@.len() == 0,
            r.to_normal@.len() == 0,
            r.moves@.len() == 0,
    {
        WindowsDeferPosHandle {
            to_minimize: Vec::new(),
            to_maximize: Vec::new(),
            to_normal: Vec::new(),
            moves: Vec::new(),
        }
    }

    /// Queues one window's target: its handle joins the queue of its target
    /// show state, and a raw move (the target adjusted by the window's frame
    /// offset) is recorded unless it equals the window's current geometry.
    pub fn defer_window_pos(
        &mut self,
        window: &Window,
        location: &WindowLocation,
        offset: &Rectangle,
        current: &WindowLocation,
    )
        requires
            i32::MIN <= location.x + offset.x <= i32::MAX,
            i32::MIN <= location.y + offset.y <= i32::MAX,
            i32::MIN <= location.width + offset.width <= i32::MAX,
            i32::MIN <= location.height + offset.height <= i32::MAX,
        ensures
            final(self).to_minimize@ == (if location.state == WindowState::Minimized {
                old(self).to_minimize@.push(window.handle)
            } else {
                old(self).to_minimize@
            }),
            final(self).to_maximize@ == (if location.state == WindowState::Maximized {
                old(self).to_maximize@.push(window.handle)
            } else {
                old(self).to_maximize@
            }),
            final(self).to_normal@ == (if location.state == WindowState::Normal {
                old(self).to_normal@.push(window.handle)
            } else {
                old(self).to_normal@
            }),
            final(self).moves@ == (if current.x == location.x + offset.x
                && current.y == location.y + offset.y
                && current.width == location.width + offset.width
                && current.height == location.height + offset.height {
                old(self).moves@
            } else {
                old(self).moves@.push(WindowPosChange {
                    handle: window.handle,
                    x: (location.x + offset.x) as i32,
                    y: (location.y + offset.y) as i32,
                    width: (location.width + offset.width) as i32,
                    height: (location.height + offset.height) as i32,
                })
            }),
    {
        match location.state {
            WindowState::Maximized => self.to_maximize.push(window.handle),
            WindowState::Minimized => self.to_minimize.push(window.handle),
            WindowState::Normal => self.to_normal.push(window.handle),
        }

        let x = location.x + offset.x;
        let y = location.y + offset.y;
        let width = location.width + offset.width;
        let height = location.height + offset.height;

        if current.x != x || current.y != y || current.width != width || current.height != height {
            self.moves.push(WindowPosChange { handle: window.handle, x, y, width, height });
        }
    }

    /// The show-state calls of batch finalization, in the guaranteed order:
    /// every queued minimize, then every queued maximize, then every queued
    /// show-normal, each queue in insertion order. The caller must issue
    /// them even if applying individual moves failed.
    pub fn finalize(&self) -> (r: Vec<ShowCommand>)
        ensures
            r@ == self.to_minimize@.map_values(|h: isize| ShowCommand::Minimize(h))
                + self.to_maximize@.map_values(|h: isize| ShowCommand::Maximize(h))
                + self.to_normal@.map_values(|h: isize| ShowCommand::ShowNormal(h)),
    {
        let mut commands: Vec<ShowCommand> = Vec::new();
        let mut i: usize = 0;
        while i < self.to_minimize.len()
            invariant
                0 <= i <= self.to_minimize@.len(),
                commands@ =~= self.to_minimize@.subrange(0, i as int).map_values(
                    |h: isize| ShowCommand::Minimize(h),
                ),
            decreases self.to_minimize@.len() - i,
        {
            commands.push(ShowCommand::Minimize(self.to_minimize[i]));
            proof {
                assert(commands@ =~= self.to_minimize@.subrange(0, i as int + 1).map_values(
                    |h: isize| ShowCommand::Minimize(h),
                ));
            }
            i = i + 1;
        }
        let ghost part1 = self.to_minimize@.map_values(|h: isize| ShowCommand::Minimize(h));
        proof {
            assert(self.to_minimize@.subrange(0, self.to_minimize@.len() as int) =~= self.to_minimize@);
            assert(commands@ =~= part1);
        }

        let mut i: usize = 0;
        while i < self.to_maximize.len()
            invariant
                0 <= i <= self.to_maximize@.len(),
                commands@ =~= part1 + self.to_maximize@.subrange(0, i as int).map_values(
                    |h: isize| ShowCommand::Maximize(h),
                ),
                part1 == self.to_minimize@.map_values(|h: isize| ShowCommand::Minimize(h)),
            decreases self.to_maximize@.len() - i,
        {
            commands.push(ShowCommand::Maximize(self.to_maximize[i]));
            proof {
                assert(commands@ =~= part1 + self.to_maximize@.subrange(0, i as int + 1).map_values(
                    |h: isize| ShowCommand::Maximize(h),
                ));
            }
            i = i + 1;
        }
        let ghost part2 = part1 + self.to_maximize@.map_values(|h: isize| ShowCommand::Maximize(h));
        proof {
            assert(self.to_maximize@.subrange(0, self.to_maximize@.len() as int) =~= self.to_maximize@);
            assert(commands@ =~= part2);
        }

        let mut i: usize = 0;
        while i < self.to_normal.len()
            invariant
                0 <= i <= self.to_normal@.len(),
                commands@ =~= part2 + self.to_normal@.subrange(0, i as int).map_values(
                    |h: isize| ShowCommand::ShowNormal(h),
                ),
                part2 == self.to_minimize@.map_values(|h: isize| ShowCommand::Minimize(h))
                    + self.to_maximize@.map_values(|h: isize| ShowCommand::Maximize(h)),
            decreases self.to_normal@.len() - i,
        {
            commands.push(ShowCommand::ShowNormal(self.to_normal[i]));
            proof {
                assert(commands@ =~= part2 + self.to_normal@.subrange(0, i as int + 1).map_values(
                    |h: isize| ShowCommand::ShowNormal(h),
                ));
            }
            i = i + 1;
        }
        proof {
            assert(self.to_normal@.subrange(0, self.to_normal@.len() as int) =~= self.to_normal@);
            assert(commands@ =~= part2 + self.to_normal@.map_values(|h: isize| ShowCommand::ShowNormal(h)));
        }
        commands
    }
}

} // verus!
