//! Dwindle layout: the primary column stacks the first `num_in_primary`
//! windows; the remaining windows bisect the secondary area, alternating
//! vertical and horizontal splits, each window taking half of what is left
//! until the final two share it.

use vstd::prelude::*;

verus! {

use crate::layout_engines::{clamp_num_in_primary, clamp_percent, lemma_percent_share_bounds, lemma_share_bounds};
use crate::window::Window;
use crate::window_location::{WindowLocation, WindowState};

#[derive(Debug, Clone, Copy, PartialEq, Eq, Structural)]
pub enum Orientation {
    Horizontal,
    Vertical,
}

/// Width of the primary column: the full space when every window is
/// primary, otherwise the configured percentage of it.
pub open spec fn spec_dwindle_primary_width(n: int, nip: int, pct: int, space_width: int) -> int {
    if nip >= n {
        space_width
    } else {
        space_width * pct / 100
    }
}

/// The secondary cells from window `i` on, given the split cursor: its
/// orientation, position and size. A vertical step moves the cursor down and
/// halves the width for the next split; a horizontal step moves it right and
/// halves the height; the last two windows keep the full remaining extent.
pub open spec fn spec_dwindle_rest(
    n: int,
    i: int,
    orient: Orientation,
    left: int,
    top: int,
    w: int,
    h: int,
) -> Seq<WindowLocation>
    decreases n - i
{
    if i >= n {
        Seq::empty()
    } else {
        let cell = WindowLocation {
            x: left as i32,
            y: top as i32,
            width: w as i32,
            height: h as i32,
            state: WindowState::Normal,
        };
        match orient {
            Orientation::Vertical => seq![cell] + spec_dwindle_rest(
                n,
                i + 1,
                Orientation::Horizontal,
                left,
                top + h,
                if i < n - 2 { w / 2 } else { w },
                h,
            ),
            Orientation::Horizontal => seq![cell] + spec_dwindle_rest(
                n,
                i + 1,
                Orientation::Vertical,
                left + w,
                top,
                w,
                if i < n - 2 { h / 2 } else { h },
            ),
        }
    }
}

/// The whole dwindle layout for `n >= 1` windows with effective primary
/// count `eff` and primary percentage `pct`: the stacked primary column
/// followed by the alternating bisection of the secondary area.
pub open spec fn spec_dwindle_layout(n: int, eff: int, pct: int, space_width: int, space_height: int) -> Seq<WindowLocation> {
    let nip = clamp_num_in_primary(eff, n);
    let pw = spec_dwindle_primary_width(n, nip, pct, space_width);
    let ph = space_height / nip;
    let primary = Seq::new(
        nip as nat,
        |i: int| WindowLocation {
            x: 0,
            y: (i * ph) as i32,
            width: pw as i32,
            height: ph as i32,
            state: WindowState::Normal,
        },
    );
    let h0 = if n > 2 { space_height / 2 } else { space_height };
    primary + spec_dwindle_rest(n, nip, Orientation::Vertical, pw, 0, space_width - pw, h0)
}

/// The secondary recursion emits one cell per remaining window.
pub proof fn lemma_dwindle_rest_len(n: int, i: int, orient: Orientation, left: int, top: int, w: int, h: int)
    requires
        i <= n,
    ensures
        spec_dwindle_rest(n, i, orient, left, top, w, h).len() == n - i,
    decreases n - i
{
    if i < n {
        match orient {
            Orientation::Vertical => {
                lemma_dwindle_rest_len(
                    n,
                    i + 1,
                    Orientation::Horizontal,
                    left,
                    top + h,
                    if i < n - 2 { w / 2 } else { w },
                    h,
                );
            },
            Orientation::Horizontal => {
                lemma_dwindle_rest_len(
                    n,
                    i + 1,
                    Orientation::Vertical,
                    left + w,
                    top,
                    w,
                    if i < n - 2 { h / 2 } else { h },
                );
            },
        }
    }
}

/// The dwindle layout assigns one location per window.
pub proof fn lemma_dwindle_layout_len(n: int, eff: int, pct: int, space_width: int, space_height: int)
    requires
        n >= 1,
    ensures
        spec_dwindle_layout(n, eff, pct, space_width, space_height).len() == n,
{
    let nip = clamp_num_in_primary(eff, n);
    let pw = spec_dwindle_primary_width(n, nip, pct, space_width);
    let h0 = if n > 2 { space_height / 2 } else { space_height };
    lemma_dwindle_rest_len(n, nip, Orientation::Vertical, pw, 0, space_width - pw, h0);
}

/// When the effective primary count reaches the window count, every window
/// stands in the primary column, which spans the full space width.
pub proof fn lemma_dwindle_primary_fills_space(i: int, n: int, eff: int, pct: int, space_width: int, space_height: int)
    requires
        0 <= i < n,
        n >= 1,
        eff >= n,
        0 <= space_width <= i32::MAX,
        0 <= space_height,
    ensures
        spec_dwindle_layout(n, eff, pct, space_width, space_height)[i].x == 0,
        spec_dwindle_layout(n, eff, pct, space_width, space_height)[i].width == space_width,
{
}

#[derive(Debug, Clone, Copy, PartialEq, Eq, Structural)]
pub struct DwindleLayoutEngine {
    pub num_in_primary: i32,
    pub primary_percent: i32,
    pub primary_percent_increment: i32,
    pub num_in_primary_offset: i32,
    pub primary_percent_offset: i32,
}

impl DwindleLayoutEngine {
    /// The tuning state stays usable: the effective primary count is at
    /// least one and fits the machine integer.
    pub open spec fn wf(self) -> bool {
        &&& 1 <= self.num_in_primary
        &&& 1 <= self.num_in_primary + self.num_in_primary_offset <= i32::MAX
    }

    /// The primary-window count before clamping to the window count.
    pub open spec fn effective_num_in_primary(self) -> int {
        self.num_in_primary + self.num_in_primary_offset
    }

    /// The primary-area percentage used at layout time.
    pub open spec fn effective_percent(self) -> int {
        clamp_percent(self.primary_percent + self.primary_percent_offset)
    }

    pub fn new() -> (r: DwindleLayoutEngine)
        ensures
            r == (DwindleLayoutEngine {
                num_in_primary: 1,
                primary_percent: 50,
                primary_percent_increment: 3,
                num_in_primary_offset: 0,
                primary_percent_offset: 0,
            }),
            r.wf(),
    {
        DwindleLayoutEngine {
            num_in_primary: 1,
            primary_percent: 50,
            primary_percent_increment: 3,
            num_in_primary_offset: 0,
            primary_percent_offset: 0,
        }
    }

    pub fn name(&self) -> (r: &'static str)
        ensures
            r@ == "dwindle"@,
    {
        "dwindle"
    }

    pub fn get_num_in_primary(&self) -> (r: i32)
        requires
            self.wf(),
        ensures
            r == self.effective_num_in_primary(),
    {
        self.num_in_primary + self.num_in_primary_offset
    }

    /// One location per window, primary column first, then the alternating
    /// bisection; an empty input yields an empty layout.
    pub fn calc_layout(&mut self, windows: &Vec<Window>, space_width: i32, space_height: i32) -> (r: Vec<WindowLocation>)
        requires
            0 <= space_width,
            0 <= space_height,
            windows@.len() <= i32::MAX,
        ensures
            *final(self) == *old(self),
            r@.len() == windows@.len(),
            windows@.len() == 0 ==> r@ =~= Seq::<WindowLocation>::empty(),
            windows@.len() > 0 ==> r@ =~= spec_dwindle_layout(
                windows@.len() as int,
                old(self).effective_num_in_primary(),
                old(self).effective_percent(),
                space_width as int,
                space_height as int,
            ),
    {
        let mut list: Vec<WindowLocation> = Vec::new();
        let num_windows = windows.len();

        if num_windows == 0 {
            return list;
        }

        let n = num_windows as i64;
        let ghost n_int = n as int;
        let eff = self.num_in_primary as i64 + self.num_in_primary_offset as i64;
        let nip: i64 = if eff > n {
            n
        } else if eff < 1 {
            1
        } else {
            eff
        };
        assert(nip == clamp_num_in_primary(self.effective_num_in_primary(), n_int));

        let pct_raw = self.primary_percent as i64 + self.primary_percent_offset as i64;
        let pct: i64 = if pct_raw < 0 {
            0
        } else if pct_raw > 100 {
            100
        } else {
            pct_raw
        };
        assert(pct == self.effective_percent());

        proof {
            lemma_percent_share_bounds(space_width as int, pct as int);
            lemma_share_bounds(space_height as int, nip as int);
            lemma_share_bounds(space_height as int, 2);
        }
        let pw: i64 = if nip >= n {
            space_width as i64
        } else {
            space_width as i64 * pct / 100
        };
        assert(pw == spec_dwindle_primary_width(n_int, nip as int, pct as int, space_width as int));
        assert(0 <= pw <= space_width);
        let ph = space_height as i64 / nip;
        assert(0 <= ph <= space_height);

        let ghost total = spec_dwindle_layout(
            n_int,
            self.effective_num_in_primary(),
            self.effective_percent(),
            space_width as int,
            space_height as int,
        );
        proof {
            lemma_dwindle_layout_len(
                n_int,
                self.effective_num_in_primary(),
                self.effective_percent(),
                space_width as int,
                space_height as int,
            );
        }

        let mut i: i64 = 0;
        while i < nip
            invariant
                0 <= i <= nip,
                1 <= nip <= n,
                n == windows@.len(),
                n <= i32::MAX,
                list@.len() == i,
                ph == space_height as int / nip as int,
                0 <= ph <= space_height,
                0 <= space_height <= i32::MAX,
                total == spec_dwindle_layout(
                    n_int,
                    self.effective_num_in_primary(),
                    self.effective_percent(),
                    space_width as int,
                    space_height as int,
                ),
                n_int == n as int,
                nip == clamp_num_in_primary(self.effective_num_in_primary(), n_int),
                pw == spec_dwindle_primary_width(n_int, nip as int, self.effective_percent(), space_width as int),
                0 <= pw <= space_width,
                0 <= space_height,
                forall|j: int| 0 <= j < i ==> list@[j] == total[j],
            decreases nip - i,
        {
            assert(0 <= i * ph <= 0x7fffffff * 0x7fffffff) by (nonlinear_arith)
                requires
                    0 <= i <= 0x7fffffff,
                    0 <= ph <= 0x7fffffff,
            ;
            let y = i * ph;
            list.push(WindowLocation {
                x: 0,
                y: #[verifier::truncate] (y as i32),
                width: #[verifier::truncate] (pw as i32),
                height: #[verifier::truncate] (ph as i32),
                state: WindowState::Normal,
            });
            i = i + 1;
        }

        let mut cur_orientation = Orientation::Vertical;
        let mut cur_width: i64 = space_width as i64 - pw;
        let mut cur_top: i64 = 0;
        let mut cur_left: i64 = pw;
        let mut cur_height: i64 = if n > 2 {
            space_height as i64 / 2
        } else {
            space_height as i64
        };

        let ghost rest0 = spec_dwindle_rest(
            n_int,
            nip as int,
            Orientation::Vertical,
            pw as int,
            0,
            space_width - pw as int,
            if n_int > 2 { space_height as int / 2 } else { space_height as int },
        );
        proof {
            lemma_dwindle_rest_len(
                n_int,
                nip as int,
                Orientation::Vertical,
                pw as int,
                0,
                space_width - pw as int,
                if n_int > 2 { space_height as int / 2 } else { space_height as int },
            );
            assert(0 <= (nip as int) * (space_height as int)
                && space_width <= ((nip as int) + 1) * (space_width as int)) by (nonlinear_arith)
                requires
                    1 <= nip,
                    0 <= space_height,
                    0 <= space_width,
            ;
            assert(rest0.len() == n_int - nip as int);
            assert(total.len() == n_int);
            assert forall|k: int| 0 <= k < n_int implies (list@ + rest0)[k] == total[k] by {
                if k < nip as int {
                    assert((list@ + rest0)[k] == list@[k]);
                } else {
                    assert((list@ + rest0)[k] == rest0[k - nip as int]);
                    assert(total[k] == rest0[k - nip as int]);
                }
            }
            assert(total =~= list@ + rest0);
        }

        while i < n
            invariant
                nip <= i <= n,
                1 <= nip <= n,
                n == windows@.len(),
                n <= i32::MAX,
                n_int == n as int,
                list@.len() == i,
                0 <= space_height <= i32::MAX,
                0 <= space_width <= i32::MAX,
                0 <= cur_height <= space_height,
                0 <= cur_width <= space_width,
                0 <= cur_top <= i * (space_height as int),
                0 <= cur_left <= (i + 1) * (space_width as int),
                total.len() == n,
                forall|j: int| 0 <= j < i ==> list@[j] == total[j],
                total =~= list@ + spec_dwindle_rest(
                    n_int,
                    i as int,
                    cur_orientation,
                    cur_left as int,
                    cur_top as int,
                    cur_width as int,
                    cur_height as int,
                ),
            decreases n - i,
        {
            let ghost rest_before = spec_dwindle_rest(
                n_int,
                i as int,
                cur_orientation,
                cur_left as int,
                cur_top as int,
                cur_width as int,
                cur_height as int,
            );
            list.push(WindowLocation {
                x: #[verifier::truncate] (cur_left as i32),
                y: #[verifier::truncate] (cur_top as i32),
                width: #[verifier::truncate] (cur_width as i32),
                height: #[verifier::truncate] (cur_height as i32),
                state: WindowState::Normal,
            });
            match cur_orientation {
                Orientation::Vertical => {
                    proof {
                        assert((i as int) * (space_height as int) + space_height
                            == ((i as int) + 1) * (space_height as int)
                            && ((i as int) + 1) * (space_height as int) <= 0x80000000 * 0x80000000)
                            by (nonlinear_arith)
                            requires
                                0 <= i + 1 <= 0x80000000,
                                0 <= space_height <= 0x7fffffff,
                        ;
                        assert(((i as int) + 1) * (space_width as int)
                            <= ((i as int) + 2) * (space_width as int)) by (nonlinear_arith)
                            requires
                                0 <= space_width,
                        ;
                    }
                    cur_top = cur_top + cur_height;
                    if i < n - 2 {
                        cur_width = cur_width / 2;
                    }
                    cur_orientation = Orientation::Horizontal;
                },
                Orientation::Horizontal => {
                    proof {
                        assert(((i as int) + 1) * (space_width as int) + space_width
                            == ((i as int) + 2) * (space_width as int)
                            && ((i as int) + 2) * (space_width as int) <= 0x80000001 * 0x80000000)
                            by (nonlinear_arith)
                            requires
                                0 <= i + 2 <= 0x80000001,
                                0 <= space_width <= 0x7fffffff,
                        ;
                        assert((i as int) * (space_height as int)
                            <= ((i as int) + 1) * (space_height as int)) by (nonlinear_arith)
                            requires
                                0 <= space_height,
                        ;
                    }
                    cur_left = cur_left + cur_width;
                    if i < n - 2 {
                        cur_height = cur_height / 2;
                    }
                    cur_orientation = Orientation::Vertical;
                },
            }
            i = i + 1;
            proof {
                assert(total =~= list@ + spec_dwindle_rest(
                    n_int,
                    i as int,
                    cur_orientation,
                    cur_left as int,
                    cur_top as int,
                    cur_width as int,
                    cur_height as int,
                )) by {
                    assert(rest_before =~= seq![list@[i - 1]] + spec_dwindle_rest(
                        n_int,
                        i as int,
                        cur_orientation,
                        cur_left as int,
                        cur_top as int,
                        cur_width as int,
                        cur_height as int,
                    ));
                }
            }
        }
        proof {
            assert(total =~= list@);
        }
        list
    }

    pub fn shrink_primary_area(&mut self)
        ensures
            *final(self) == (DwindleLayoutEngine {
                primary_percent_offset: if i32::MIN <= old(self).primary_percent_offset - old(self).primary_percent_increment <= i32::MAX {
                    (old(self).primary_percent_offset - old(self).primary_percent_increment) as i32
                } else {
                    old(self).primary_percent_offset
                },
                ..*old(self)
            }),
    {
        match self.primary_percent_offset.checked_sub(self.primary_percent_increment) {
            Some(v) => self.primary_percent_offset = v,
            None => (),
        }
    }

    pub fn expand_primary_area(&mut self)
        ensures
            *final(self) == (DwindleLayoutEngine {
                primary_percent_offset: if i32::MIN <= old(self).primary_percent_offset + old(self).primary_percent_increment <= i32::MAX {
                    (old(self).primary_percent_offset + old(self).primary_percent_increment) as i32
                } else {
                    old(self).primary_percent_offset
                },
                ..*old(self)
            }),
    {
        match self.primary_percent_offset.checked_add(self.primary_percent_increment) {
            Some(v) => self.primary_percent_offset = v,
            None => (),
        }
    }

    pub fn reset_primary_area(&mut self)
        ensures
            *final(self) == (DwindleLayoutEngine { primary_percent_offset: 0, ..*old(self) }),
    {
        self.primary_percent_offset = 0;
    }

    pub fn increment_num_in_primary(&mut self)
        requires
            old(self).wf(),
        ensures
            final(self).wf(),
            *final(self) == (DwindleLayoutEngine {
                num_in_primary_offset: if old(self).effective_num_in_primary() < i32::MAX {
                    (old(self).num_in_primary_offset + 1) as i32
                } else {
                    old(self).num_in_primary_offset
                },
                ..*old(self)
            }),
    {
        let eff = self.num_in_primary as i64 + self.num_in_primary_offset as i64;
        if eff < i32::MAX as i64 {
            self.num_in_primary_offset = self.num_in_primary_offset + 1;
        }
    }

    /// A no-op once the effective primary count is down to one.
    pub fn decrement_num_in_primary(&mut self)
        requires
            old(self).wf(),
        ensures
            final(self).wf(),
            *final(self) == (DwindleLayoutEngine {
                num_in_primary_offset: if old(self).effective_num_in_primary() > 1 {
                    (old(self).num_in_primary_offset - 1) as i32
                } else {
                    old(self).num_in_primary_offset
                },
                ..*old(self)
            }),
    {
        let eff = self.num_in_primary as i64 + self.num_in_primary_offset as i64;
        if eff > 1 {
            self.num_in_primary_offset = self.num_in_primary_offset - 1;
        }
    }
}

} // verus!
