//! The closed family of layout algorithms. Each engine is a deterministic
//! pure function from an ordered window list and a screen size to one target
//! geometry per window; the engines also carry their own tuning state
//! (primary-area offsets), which switching between engines does not reset.

pub mod dwindle_layout_engine;
pub mod focus_layout_engine;
pub mod full_layout_engine;
pub mod grid_layout_engine;

use vstd::prelude::*;

verus! {

use vstd::arithmetic::div_mod::{
    lemma_div_is_ordered,
    lemma_div_multiples_vanish,
    lemma_div_nonincreasing,
    lemma_div_pos_is_pos,
};
use crate::layout_engines::dwindle_layout_engine::DwindleLayoutEngine;
use crate::layout_engines::focus_layout_engine::FocusLayoutEngine;
use crate::layout_engines::full_layout_engine::FullLayoutEngine;
use crate::layout_engines::grid_layout_engine::GridLayoutEngine;
use crate::window::Window;
use crate::window_location::WindowLocation;

/// The primary-area percentage actually used: the configured percentage
/// plus its offset, held inside `[0, 100]`.
pub open spec fn clamp_percent(p: int) -> int {
    if p < 0 {
        0
    } else if p > 100 {
        100
    } else {
        p
    }
}

/// The primary-window count actually used at layout time: the effective
/// count held inside `[1, n]`, for `n >= 1` windows.
pub open spec fn clamp_num_in_primary(eff: int, n: int) -> int {
    if eff > n {
        n
    } else if eff < 1 {
        1
    } else {
        eff
    }
}

/// A percentage share of a nonnegative width stays between zero and the
/// whole width.
pub proof fn lemma_percent_share_bounds(w: int, pct: int)
    requires
        0 <= w,
        0 <= pct <= 100,
    ensures
        0 <= w * pct / 100 <= w,
{
    assert(0 <= w * pct && w * pct <= w * 100) by (nonlinear_arith)
        requires
            0 <= w,
            0 <= pct <= 100,
    ;
    lemma_div_pos_is_pos(w * pct, 100);
    lemma_div_is_ordered(w * pct, w * 100, 100);
    lemma_div_multiples_vanish(w, 100);
}

/// A nonnegative value divided by a positive count stays between zero and
/// the value.
pub proof fn lemma_share_bounds(v: int, d: int)
    requires
        0 <= v,
        1 <= d,
    ensures
        0 <= v / d <= v,
{
    lemma_div_pos_is_pos(v, d);
    lemma_div_nonincreasing(v, d);
}

#[derive(Debug, Clone, Copy, PartialEq, Eq, Structural, Hash)]
pub enum LayoutEngineType {
    Dwindle,
    Focus,
    Full,
    Grid,
}

impl LayoutEngineType {
    /// Position of the variant in the fixed cycle order.
    pub open spec fn spec_index(self) -> int {
        match self {
            LayoutEngineType::Dwindle => 0,
            LayoutEngineType::Focus => 1,
            LayoutEngineType::Full => 2,
            LayoutEngineType::Grid => 3,
        }
    }

    /// The variant at a position of the cycle order.
    pub open spec fn spec_from_index(i: int) -> LayoutEngineType {
        if i == 0 {
            LayoutEngineType::Dwindle
        } else if i == 1 {
            LayoutEngineType::Focus
        } else if i == 2 {
            LayoutEngineType::Full
        } else {
            LayoutEngineType::Grid
        }
    }

    pub open spec fn spec_next(self) -> LayoutEngineType {
        Self::spec_from_index((self.spec_index() + 1) % 4)
    }

    pub open spec fn spec_previous(self) -> LayoutEngineType {
        Self::spec_from_index((self.spec_index() + 3) % 4)
    }

    pub fn variants() -> (r: [LayoutEngineType; 4])
        ensures
            r@ =~= seq![
                LayoutEngineType::Dwindle,
                LayoutEngineType::Focus,
                LayoutEngineType::Full,
                LayoutEngineType::Grid,
            ],
    {
        [
            LayoutEngineType::Dwindle,
            LayoutEngineType::Focus,
            LayoutEngineType::Full,
            LayoutEngineType::Grid,
        ]
    }

    pub(crate) fn index(&self) -> (i: usize)
        ensures
            i == self.spec_index(),
    {
        match self {
            LayoutEngineType::Dwindle => 0,
            LayoutEngineType::Focus => 1,
            LayoutEngineType::Full => 2,
            LayoutEngineType::Grid => 3,
        }
    }

    fn from_index(i: usize) -> (r: LayoutEngineType)
        requires
            i < 4,
        ensures
            r == Self::spec_from_index(i as int),
    {
        if i == 0 {
            LayoutEngineType::Dwindle
        } else if i == 1 {
            LayoutEngineType::Focus
        } else if i == 2 {
            LayoutEngineType::Full
        } else {
            LayoutEngineType::Grid
        }
    }

    /// The previous variant in the cycle, wrapping around.
    pub fn previous(&self) -> (r: LayoutEngineType)
        ensures
            r == self.spec_previous(),
    {
        Self::from_index((self.index() + 3) % 4)
    }

    /// The next variant in the cycle, wrapping around.
    pub fn next(&self) -> (r: LayoutEngineType)
        ensures
            r == self.spec_next(),
    {
        Self::from_index((self.index() + 1) % 4)
    }
}

impl Default for LayoutEngineType {
    fn default() -> (r: LayoutEngineType)
        ensures
            r == LayoutEngineType::Full,
    {
        LayoutEngineType::Full
    }
}

/// The cycle over the variants is closed: stepping forward and then backward
/// (or backward and then forward) returns to the starting variant, for every
/// variant.
pub proof fn lemma_layout_cycle_closed(t: LayoutEngineType)
    ensures
        t.spec_next().spec_previous() == t,
        t.spec_previous().spec_next() == t,
{
}

/// One concrete layout algorithm with its tuning state. The variant set is
/// closed, so dispatch is an exhaustive match rather than an indirect call.
#[derive(Debug, Clone, Copy, PartialEq, Eq, Structural)]
pub enum LayoutEngine {
    Dwindle(DwindleLayoutEngine),
    Focus(FocusLayoutEngine),
    Full(FullLayoutEngine),
    Grid(GridLayoutEngine),
}

impl LayoutEngine {
    /// The tuning state of the carried engine stays usable.
    pub open spec fn wf(self) -> bool {
        match self {
            LayoutEngine::Dwindle(e) => e.wf(),
            LayoutEngine::Focus(e) => e.wf(),
            LayoutEngine::Full(_) => true,
            LayoutEngine::Grid(_) => true,
        }
    }

    pub open spec fn spec_engine_type(self) -> LayoutEngineType {
        match self {
            LayoutEngine::Dwindle(_) => LayoutEngineType::Dwindle,
            LayoutEngine::Focus(_) => LayoutEngineType::Focus,
            LayoutEngine::Full(_) => LayoutEngineType::Full,
            LayoutEngine::Grid(_) => LayoutEngineType::Grid,
        }
    }

    /// A fresh engine of the given variant, with default tuning state.
    pub fn of_type(t: LayoutEngineType) -> (r: LayoutEngine)
        ensures
            r.spec_engine_type() == t,
            r.wf(),
            r == Self::spec_of_type(t),
    {
        match t {
            LayoutEngineType::Dwindle => LayoutEngine::Dwindle(DwindleLayoutEngine::new()),
            LayoutEngineType::Focus => LayoutEngine::Focus(FocusLayoutEngine::new()),
            LayoutEngineType::Full => LayoutEngine::Full(FullLayoutEngine::new()),
            LayoutEngineType::Grid => LayoutEngine::Grid(GridLayoutEngine::new()),
        }
    }

    /// The fresh engine of a variant.
    pub open spec fn spec_of_type(t: LayoutEngineType) -> LayoutEngine {
        match t {
            LayoutEngineType::Dwindle => LayoutEngine::Dwindle(DwindleLayoutEngine {
                num_in_primary: 1,
                primary_percent: 50,
                primary_percent_increment: 3,
                num_in_primary_offset: 0,
                primary_percent_offset: 0,
            }),
            LayoutEngineType::Focus => LayoutEngine::Focus(FocusLayoutEngine {
                num_in_primary: 1,
                primary_percent: 70,
                primary_percent_increment: 3,
                num_in_primary_offset: 0,
                primary_percent_offset: 0,
            }),
            LayoutEngineType::Full => LayoutEngine::Full(FullLayoutEngine { last_full: None }),
            LayoutEngineType::Grid => LayoutEngine::Grid(GridLayoutEngine {  }),
        }
    }

    pub fn engine_type(&self) -> (t: LayoutEngineType)
        ensures
            t == self.spec_engine_type(),
    {
        match self {
            LayoutEngine::Dwindle(_) => LayoutEngineType::Dwindle,
            LayoutEngine::Focus(_) => LayoutEngineType::Focus,
            LayoutEngine::Full(_) => LayoutEngineType::Full,
            LayoutEngine::Grid(_) => LayoutEngineType::Grid,
        }
    }

    /// The name of the algorithm, as the engines report themselves.
    pub fn name(&self) -> (r: &'static str)
        ensures
            self is Dwindle ==> r@ == "dwindle"@,
            self is Focus ==> r@ == "focus"@,
            self is Full ==> r@ == "full"@,
            self is Grid ==> r@ == "grid"@,
    {
        match self {
            LayoutEngine::Dwindle(e) => e.name(),
            LayoutEngine::Focus(e) => e.name(),
            LayoutEngine::Full(e) => e.name(),
            LayoutEngine::Grid(e) => e.name(),
        }
    }

    /// One target location per window, by the carried algorithm. An empty
    /// window list always yields an empty layout; only the full layout
    /// changes its own state (the remembered last-full window).
    pub fn calc_layout(&mut self, windows: &Vec<Window>, space_width: i32, space_height: i32) -> (r: Vec<WindowLocation>)
        requires
            0 <= space_width,
            0 <= space_height,
            windows@.len() <= i32::MAX,
        ensures
            r@.len() == windows@.len(),
            windows@.len() == 0 ==> r@ =~= Seq::<WindowLocation>::empty(),
            final(self).spec_engine_type() == old(self).spec_engine_type(),
            old(self).wf() ==> final(self).wf(),
            (*old(self)) matches LayoutEngine::Dwindle(e) ==> *final(self) == *old(self)
                && (windows@.len() > 0 ==> r@ =~= dwindle_layout_engine::spec_dwindle_layout(
                    windows@.len() as int,
                    e.effective_num_in_primary(),
                    e.effective_percent(),
                    space_width as int,
                    space_height as int,
                )),
            (*old(self)) matches LayoutEngine::Focus(e) ==> *final(self) == *old(self)
                && (forall|i: int| 0 <= i < windows@.len()
                    ==> r@[i] == focus_layout_engine::spec_focus_cell(
                        i,
                        windows@.len() as int,
                        e.effective_num_in_primary(),
                        e.effective_percent(),
                        space_width as int,
                        space_height as int,
                    )),
            (*old(self)) matches LayoutEngine::Full(e) ==> {
                &&& (forall|i: int| 0 <= i < windows@.len()
                    ==> r@[i] == full_layout_engine::spec_full_cell(
                        windows@,
                        e.last_full,
                        i,
                        space_width as int,
                        space_height as int,
                    ))
                &&& *final(self) == LayoutEngine::Full(FullLayoutEngine {
                    last_full: if windows@.len() == 0 {
                        e.last_full
                    } else {
                        full_layout_engine::spec_last_full_at(windows@, e.last_full, windows@.len() as int)
                    },
                })
            },
            (*old(self)) matches LayoutEngine::Grid(e) ==> *final(self) == *old(self)
                && (forall|i: int| 0 <= i < windows@.len()
                    ==> r@[i] == grid_layout_engine::spec_grid_cell(
                        i,
                        windows@.len() as int,
                        space_width as int,
                        space_height as int,
                    )),
    {
        match self {
            LayoutEngine::Dwindle(e) => e.calc_layout(windows, space_width, space_height),
            LayoutEngine::Focus(e) => e.calc_layout(windows, space_width, space_height),
            LayoutEngine::Full(e) => e.calc_layout(windows, space_width, space_height),
            LayoutEngine::Grid(e) => e.calc_layout(windows, space_width, space_height),
        }
    }

    /// Narrows the primary area of the carried engine, where it has one.
    pub fn shrink_primary_area(&mut self)
        ensures
            final(self).spec_engine_type() == old(self).spec_engine_type(),
            old(self).wf() ==> final(self).wf(),
            (*old(self)) matches LayoutEngine::Dwindle(e) ==> *final(self) == LayoutEngine::Dwindle(
                DwindleLayoutEngine {
                    num_in_primary: e.num_in_primary,
                    primary_percent: e.primary_percent,
                    primary_percent_increment: e.primary_percent_increment,
                    num_in_primary_offset: e.num_in_primary_offset,
                    primary_percent_offset: if i32::MIN <= e.primary_percent_offset - e.primary_percent_increment <= i32::MAX {
                        (e.primary_percent_offset - e.primary_percent_increment) as i32
                    } else {
                        e.primary_percent_offset
                    },
                },
            ),
            (*old(self)) matches LayoutEngine::Focus(e) ==> *final(self) == LayoutEngine::Focus(
                FocusLayoutEngine {
                    num_in_primary: e.num_in_primary,
                    primary_percent: e.primary_percent,
                    primary_percent_increment: e.primary_percent_increment,
                    num_in_primary_offset: e.num_in_primary_offset,
                    primary_percent_offset: if i32::MIN <= e.primary_percent_offset - e.primary_percent_increment <= i32::MAX {
                        (e.primary_percent_offset - e.primary_percent_increment) as i32
                    } else {
                        e.primary_percent_offset
                    },
                },
            ),
            (*old(self)) is Full || (*old(self)) is Grid ==> *final(self) == *old(self),
    {
        match self {
            LayoutEngine::Dwindle(e) => e.shrink_primary_area(),
            LayoutEngine::Focus(e) => e.shrink_primary_area(),
            LayoutEngine::Full(e) => e.shrink_primary_area(),
            LayoutEngine::Grid(e) => e.shrink_primary_area(),
        }
    }

    /// Widens the primary area of the carried engine, where it has one.
    pub fn expand_primary_area(&mut self)
        ensures
            final(self).spec_engine_type() == old(self).spec_engine_type(),
            old(self).wf() ==> final(self).wf(),
            (*old(self)) matches LayoutEngine::Dwindle(e) ==> *final(self) == LayoutEngine::Dwindle(
                DwindleLayoutEngine {
                    num_in_primary: e.num_in_primary,
                    primary_percent: e.primary_percent,
                    primary_percent_increment: e.primary_percent_increment,
                    num_in_primary_offset: e.num_in_primary_offset,
                    primary_percent_offset: if i32::MIN <= e.primary_percent_offset + e.primary_percent_increment <= i32::MAX {
                        (e.primary_percent_offset + e.primary_percent_increment) as i32
                    } else {
                        e.primary_percent_offset
                    },
                },
            ),
            (*old(self)) matches LayoutEngine::Focus(e) ==> *final(self) == LayoutEngine::Focus(
                FocusLayoutEngine {
                    num_in_primary: e.num_in_primary,
                    primary_percent: e.primary_percent,
                    primary_percent_increment: e.primary_percent_increment,
                    num_in_primary_offset: e.num_in_primary_offset,
                    primary_percent_offset: if i32::MIN <= e.primary_percent_offset + e.primary_percent_increment <= i32::MAX {
                        (e.primary_percent_offset + e.primary_percent_increment) as i32
                    } else {
                        e.primary_percent_offset
                    },
                },
            ),
            (*old(self)) is Full || (*old(self)) is Grid ==> *final(self) == *old(self),
    {
        match self {
            LayoutEngine::Dwindle(e) => e.expand_primary_area(),
            LayoutEngine::Focus(e) => e.expand_primary_area(),
            LayoutEngine::Full(e) => e.expand_primary_area(),
            LayoutEngine::Grid(e) => e.expand_primary_area(),
        }
    }

    /// Resets the primary-area offset of the carried engine, where it has
    /// one.
    pub fn reset_primary_area(&mut self)
        ensures
            final(self).spec_engine_type() == old(self).spec_engine_type(),
            old(self).wf() ==> final(self).wf(),
            (*old(self)) matches LayoutEngine::Dwindle(e) ==> *final(self) == LayoutEngine::Dwindle(
                DwindleLayoutEngine {
                    num_in_primary: e.num_in_primary,
                    primary_percent: e.primary_percent,
                    primary_percent_increment: e.primary_percent_increment,
                    num_in_primary_offset: e.num_in_primary_offset,
                    primary_percent_offset: 0,
                },
            ),
            (*old(self)) matches LayoutEngine::Focus(e) ==> *final(self) == LayoutEngine::Focus(
                FocusLayoutEngine {
                    num_in_primary: e.num_in_primary,
                    primary_percent: e.primary_percent,
                    primary_percent_increment: e.primary_percent_increment,
                    num_in_primary_offset: e.num_in_primary_offset,
                    primary_percent_offset: 0,
                },
            ),
            (*old(self)) is Full || (*old(self)) is Grid ==> *final(self) == *old(self),
    {
        match self {
            LayoutEngine::Dwindle(e) => e.reset_primary_area(),
            LayoutEngine::Focus(e) => e.reset_primary_area(),
            LayoutEngine::Full(e) => e.reset_primary_area(),
            LayoutEngine::Grid(e) => e.reset_primary_area(),
        }
    }

    /// Raises the number of windows the primary area holds, where the
    /// carried engine has a primary area.
    pub fn increment_num_in_primary(&mut self)
        requires
            old(self).wf(),
        ensures
            final(self).wf(),
            final(self).spec_engine_type() == old(self).spec_engine_type(),
            (*old(self)) matches LayoutEngine::Dwindle(e)
                ==> final(self)->Dwindle_0.effective_num_in_primary()
                    == if e.effective_num_in_primary() < i32::MAX {
                        e.effective_num_in_primary() + 1
                    } else {
                        e.effective_num_in_primary()
                    },
            (*old(self)) matches LayoutEngine::Focus(e)
                ==> final(self)->Focus_0.effective_num_in_primary()
                    == if e.effective_num_in_primary() < i32::MAX {
                        e.effective_num_in_primary() + 1
                    } else {
                        e.effective_num_in_primary()
                    },
            (*old(self)) is Full || (*old(self)) is Grid ==> *final(self) == *old(self),
    {
        match self {
            LayoutEngine::Dwindle(e) => e.increment_num_in_primary(),
            LayoutEngine::Focus(e) => e.increment_num_in_primary(),
            LayoutEngine::Full(e) => e.increment_num_in_primary(),
            LayoutEngine::Grid(e) => e.increment_num_in_primary(),
        }
    }

    /// Lowers the number of windows the primary area holds, never below
    /// one, where the carried engine has a primary area.
    pub fn decrement_num_in_primary(&mut self)
        requires
            old(self).wf(),
        ensures
            final(self).wf(),
            final(self).spec_engine_type() == old(self).spec_engine_type(),
            (*old(self)) matches LayoutEngine::Dwindle(e) ==> final(self)->Dwindle_0.effective_num_in_primary()
                == if e.effective_num_in_primary() > 1 {
                    e.effective_num_in_primary() - 1
                } else {
                    e.effective_num_in_primary()
                },
            (*old(self)) matches LayoutEngine::Focus(e) ==> final(self)->Focus_0.effective_num_in_primary()
                == if e.effective_num_in_primary() > 1 {
                    e.effective_num_in_primary() - 1
                } else {
                    e.effective_num_in_primary()
                },
            (*old(self)) is Full || (*old(self)) is Grid ==> *final(self) == *old(self),
    {
        match self {
            LayoutEngine::Dwindle(e) => e.decrement_num_in_primary(),
            LayoutEngine::Focus(e) => e.decrement_num_in_primary(),
            LayoutEngine::Full(e) => e.decrement_num_in_primary(),
            LayoutEngine::Grid(e) => e.decrement_num_in_primary(),
        }
    }
}

} // verus!
