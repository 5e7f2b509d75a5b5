//! Focus layout: a primary column holds the first `num_in_primary` windows
//! stacked vertically; the remaining windows are split into a left and a
//! right stack, balanced as evenly as possible. When the right stack is
//! empty the primary column absorbs its width.

use vstd::prelude::*;

verus! {

use crate::layout_engines::{clamp_num_in_primary, clamp_percent, lemma_percent_share_bounds, lemma_share_bounds};
use crate::window::Window;
use crate::window_location::{WindowLocation, WindowState};

/// Size of the left secondary stack: the larger half of what the primary
/// column does not hold.
pub open spec fn spec_focus_left_count(n: int, nip: int) -> int {
    (n - nip + 1) / 2
}

/// Size of the right secondary stack: the smaller half.
pub open spec fn spec_focus_right_count(n: int, nip: int) -> int {
    (n - nip) / 2
}

/// The location assigned to window `i` of `n` by the focus layout with
/// effective primary count `eff` and primary percentage `pct`.
pub open spec fn spec_focus_cell(i: int, n: int, eff: int, pct: int, space_width: int, space_height: int) -> WindowLocation {
    let nip = clamp_num_in_primary(eff, n);
    let nb_left = spec_focus_left_count(n, nip);
    let nb_right = spec_focus_right_count(n, nip);
    let pw0 = space_width * pct / 100;
    let sec = (space_width - pw0) / 2;
    let pw = if nip >= n {
        space_width
    } else if nb_right == 0 {
        pw0 + sec
    } else {
        pw0
    };
    let sec_x = if nip >= n {
        0
    } else {
        sec
    };
    let ph = space_height / nip;
    let lh = space_height / (if nb_left >= 1 { nb_left } else { 1 });
    let rh = space_height / (if nb_right >= 1 { nb_right } else { 1 });
    if i < nip {
        WindowLocation {
            x: sec_x as i32,
            y: (i * ph) as i32,
            width: pw as i32,
            height: ph as i32,
            state: WindowState::Normal,
        }
    } else if i < nip + nb_left {
        WindowLocation {
            x: 0,
            y: ((i - nip) * lh) as i32,
            width: sec_x as i32,
            height: lh as i32,
            state: WindowState::Normal,
        }
    } else {
        WindowLocation {
            x: (sec_x + pw) as i32,
            y: ((i - nip - nb_left) * rh) as i32,
            width: sec_x as i32,
            height: rh as i32,
            state: WindowState::Normal,
        }
    }
}

#[derive(Debug, Clone, Copy, PartialEq, Eq, Structural)]
pub struct FocusLayoutEngine {
    pub num_in_primary: i32,
    pub primary_percent: i32,
    pub primary_percent_increment: i32,
    pub num_in_primary_offset: i32,
    pub primary_percent_offset: i32,
}

impl FocusLayoutEngine {
    /// The tuning state stays usable: the effective primary count is at
    /// least one and fits the machine integer.
    pub open spec fn wf(self) -> bool {
        &&& 1 <= self.num_in_primary
        &&& 1 <= self.num_in_primary + self.num_in_primary_offset <= i32::MAX
    }

    /// The primary-window count before clamping to the window count.
    pub open spec fn effective_num_in_primary(self) -> int {
        self.num_in_primary + self.num_in_primary_offset
    }

    /// The primary-area percentage used at layout time.
    pub open spec fn effective_percent(self) -> int {
        clamp_percent(self.primary_percent + self.primary_percent_offset)
    }

    pub fn new() -> (r: FocusLayoutEngine)
        ensures
            r == (FocusLayoutEngine {
                num_in_primary: 1,
                primary_percent: 70,
                primary_percent_increment: 3,
                num_in_primary_offset: 0,
                primary_percent_offset: 0,
            }),
            r.wf(),
    {
        FocusLayoutEngine {
            num_in_primary: 1,
            primary_percent: 70,
            primary_percent_increment: 3,
            num_in_primary_offset: 0,
            primary_percent_offset: 0,
        }
    }

    pub fn with_params(num_in_primary: i32, primary_percent: i32, primary_percent_increment: i32) -> (r: FocusLayoutEngine)
        requires
            1 <= num_in_primary,
        ensures
            r == (FocusLayoutEngine {
                num_in_primary,
                primary_percent,
                primary_percent_increment,
                num_in_primary_offset: 0,
                primary_percent_offset: 0,
            }),
            r.wf(),
    {
        FocusLayoutEngine {
            num_in_primary,
            primary_percent,
            primary_percent_increment,
            num_in_primary_offset: 0,
            primary_percent_offset: 0,
        }
    }

    pub fn name(&self) -> (r: &'static str)
        ensures
            r@ == "focus"@,
    {
        "focus"
    }

    pub fn get_num_in_primary(&self) -> (r: i32)
        requires
            self.wf(),
        ensures
            r == self.effective_num_in_primary(),
    {
        self.num_in_primary + self.num_in_primary_offset
    }

    /// One location per window: primary column first, then the left stack,
    /// then the right stack; an empty input yields an empty layout.
    pub fn calc_layout(&self, windows: &Vec<Window>, space_width: i32, space_height: i32) -> (r: Vec<WindowLocation>)
        requires
            0 <= space_width,
            0 <= space_height,
            windows@.len() <= i32::MAX,
        ensures
            r@.len() == windows@.len(),
            windows@.len() == 0 ==> r@ =~= Seq::<WindowLocation>::empty(),
            forall|i: int| 0 <= i < windows@.len()
                ==> r@[i] == spec_focus_cell(
                    i,
                    windows@.len() as int,
                    self.effective_num_in_primary(),
                    self.effective_percent(),
                    space_width as int,
                    space_height as int,
                ),
    {
        let mut list: Vec<WindowLocation> = Vec::new();
        let num_windows = windows.len();

        if num_windows == 0 {
            return list;
        }

        let n = num_windows as i64;
        let eff = self.num_in_primary as i64 + self.num_in_primary_offset as i64;
        let nip: i64 = if eff > n {
            n
        } else if eff < 1 {
            1
        } else {
            eff
        };
        let ghost n_int = n as int;
        assert(nip == clamp_num_in_primary(self.effective_num_in_primary(), n_int));

        let nb_left = (n - nip + 1) / 2;
        let nb_right = (n - nip) / 2;

        let pct_raw = self.primary_percent as i64 + self.primary_percent_offset as i64;
        let pct: i64 = if pct_raw < 0 {
            0
        } else if pct_raw > 100 {
            100
        } else {
            pct_raw
        };
        assert(pct == self.effective_percent());

        proof {
            lemma_percent_share_bounds(space_width as int, pct as int);
        }
        let pw0 = space_width as i64 * pct / 100;
        assert(0 <= pw0 <= space_width);
        proof {
            lemma_share_bounds(space_width - pw0 as int, 2);
        }
        let sec = (space_width as i64 - pw0) / 2;
        assert(0 <= sec <= space_width);
        let pw: i64 = if nip >= n {
            space_width as i64
        } else if nb_right == 0 {
            pw0 + sec
        } else {
            pw0
        };
        let sec_x: i64 = if nip >= n {
            0
        } else {
            sec
        };

        proof {
            lemma_share_bounds(space_height as int, nip as int);
            lemma_share_bounds(space_height as int, if nb_left >= 1 { nb_left as int } else { 1 });
            lemma_share_bounds(space_height as int, if nb_right >= 1 { nb_right as int } else { 1 });
        }
        let ph = space_height as i64 / nip;
        let lh = space_height as i64 / (if nb_left >= 1 { nb_left } else { 1 });
        let rh = space_height as i64 / (if nb_right >= 1 { nb_right } else { 1 });
        assert(0 <= ph <= space_height && 0 <= lh <= space_height && 0 <= rh <= space_height);

        let mut i: i64 = 0;
        while i < n
            invariant
                0 <= i <= n,
                n == windows@.len(),
                n <= i32::MAX,
                list@.len() == i,
                nip == clamp_num_in_primary(self.effective_num_in_primary(), n as int),
                1 <= nip <= n,
                pct == self.effective_percent(),
                nb_left == spec_focus_left_count(n as int, nip as int),
                nb_right == spec_focus_right_count(n as int, nip as int),
                0 <= nb_left <= n,
                0 <= nb_right <= n,
                pw0 == space_width as int * pct / 100,
                sec == (space_width as int - pw0) / 2,
                0 <= pw0 <= space_width,
                0 <= sec <= space_width,
                pw == (if nip >= n as int {
                    space_width as int
                } else if nb_right == 0 {
                    pw0 + sec
                } else {
                    pw0 as int
                }),
                sec_x == (if nip >= n as int { 0int } else { sec as int }),
                ph == space_height as int / nip as int,
                lh == space_height as int / (if nb_left >= 1 { nb_left as int } else { 1int }),
                rh == space_height as int / (if nb_right >= 1 { nb_right as int } else { 1int }),
                0 <= ph <= space_height,
                0 <= lh <= space_height,
                0 <= rh <= space_height,
                0 <= space_width,
                0 <= space_height,
                forall|j: int| 0 <= j < i
                    ==> list@[j] == spec_focus_cell(
                        j,
                        n as int,
                        self.effective_num_in_primary(),
                        self.effective_percent(),
                        space_width as int,
                        space_height as int,
                    ),
            decreases n - i,
        {
            if i < nip {
                assert(0 <= i * ph <= 0x7fffffff * 0x7fffffff) by (nonlinear_arith)
                    requires
                        0 <= i <= 0x7fffffff,
                        0 <= ph <= 0x7fffffff,
                ;
                let y = i * ph;
                list.push(WindowLocation {
                    x: #[verifier::truncate] (sec_x as i32),
                    y: #[verifier::truncate] (y as i32),
                    width: #[verifier::truncate] (pw as i32),
                    height: #[verifier::truncate] (ph as i32),
                    state: WindowState::Normal,
                });
            } else if i < nip + nb_left {
                assert(0 <= (i - nip) * lh <= 0x7fffffff * 0x7fffffff) by (nonlinear_arith)
                    requires
                        0 <= i - nip <= 0x7fffffff,
                        0 <= lh <= 0x7fffffff,
                ;
                let y = (i - nip) * lh;
                list.push(WindowLocation {
                    x: 0,
                    y: #[verifier::truncate] (y as i32),
                    width: #[verifier::truncate] (sec_x as i32),
                    height: #[verifier::truncate] (lh as i32),
                    state: WindowState::Normal,
                });
            } else {
                assert(0 <= (i - nip - nb_left) * rh <= 0x7fffffff * 0x7fffffff) by (nonlinear_arith)
                    requires
                        0 <= i - nip - nb_left <= 0x7fffffff,
                        0 <= rh <= 0x7fffffff,
                ;
                let y = (i - nip - nb_left) * rh;
                list.push(WindowLocation {
                    x: #[verifier::truncate] ((sec_x + pw) as i32),
                    y: #[verifier::truncate] (y as i32),
                    width: #[verifier::truncate] (sec_x as i32),
                    height: #[verifier::truncate] (rh as i32),
                    state: WindowState::Normal,
                });
            }
            i = i + 1;
        }
        list
    }

    pub fn shrink_primary_area(&mut self)
        ensures
            *final(self) == (FocusLayoutEngine {
                primary_percent_offset: if i32::MIN <= old(self).primary_percent_offset - old(self).primary_percent_increment <= i32::MAX {
                    (old(self).primary_percent_offset - old(self).primary_percent_increment) as i32
                } else {
                    old(self).primary_percent_offset
                },
                ..*old(self)
            }),
    {
        match self.primary_percent_offset.checked_sub(self.primary_percent_increment) {
            Some(v) => self.primary_percent_offset = v,
            None => (),
        }
    }

    pub fn expand_primary_area(&mut self)
        ensures
            *final(self) == (FocusLayoutEngine {
                primary_percent_offset: if i32::MIN <= old(self).primary_percent_offset + old(self).primary_percent_increment <= i32::MAX {
                    (old(self).primary_percent_offset + old(self).primary_percent_increment) as i32
                } else {
                    old(self).primary_percent_offset
                },
                ..*old(self)
            }),
    {
        match self.primary_percent_offset.checked_add(self.primary_percent_increment) {
            Some(v) => self.primary_percent_offset = v,
            None => (),
        }
    }

    pub fn reset_primary_area(&mut self)
        ensures
            *final(self) == (FocusLayoutEngine { primary_percent_offset: 0, ..*old(self) }),
    {
        self.primary_percent_offset = 0;
    }

    pub fn increment_num_in_primary(&mut self)
        requires
            old(self).wf(),
        ensures
            final(self).wf(),
            *final(self) == (FocusLayoutEngine {
                num_in_primary_offset: if old(self).effective_num_in_primary() < i32::MAX {
                    (old(self).num_in_primary_offset + 1) as i32
                } else {
                    old(self).num_in_primary_offset
                },
                ..*old(self)
            }),
    {
        let eff = self.num_in_primary as i64 + self.num_in_primary_offset as i64;
        if eff < i32::MAX as i64 {
            self.num_in_primary_offset = self.num_in_primary_offset + 1;
        }
    }

    /// A no-op once the effective primary count is down to one.
    pub fn decrement_num_in_primary(&mut self)
        requires
            old(self).wf(),
        ensures
            final(self).wf(),
            *final(self) == (FocusLayoutEngine {
                num_in_primary_offset: if old(self).effective_num_in_primary() > 1 {
                    (old(self).num_in_primary_offset - 1) as i32
                } else {
                    old(self).num_in_primary_offset
                },
                ..*old(self)
            }),
    {
        let eff = self.num_in_primary as i64 + self.num_in_primary_offset as i64;
        if eff > 1 {
            self.num_in_primary_offset = self.num_in_primary_offset - 1;
        }
    }
}

/// When the effective primary count reaches the window count, the primary
/// column spans the full space width and the secondary stacks have zero
/// width: every window's cell is the full-width primary cell.
pub proof fn lemma_focus_primary_fills_space(i: int, n: int, eff: int, pct: int, space_width: int, space_height: int)
    requires
        0 <= i < n,
        n >= 1,
        eff >= n,
        0 <= space_width <= i32::MAX,
        0 <= space_height,
    ensures
        spec_focus_cell(i, n, eff, pct, space_width, space_height).x == 0,
        spec_focus_cell(i, n, eff, pct, space_width, space_height).width == space_width,
{
}

} // verus!
