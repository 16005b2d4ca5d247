//! The Up and Down cursor movement: visually nearest column. The widget
//! cannot measure text itself — advance widths come from the host's font
//! stack — so the movement is split into a measure request (which text
//! the host must measure) and the application of the measured widths.

use vstd::prelude::*;

use crate::buffer::TextInputValue;
use crate::lines::lemma_line_end_bounds;
use crate::lines::lemma_line_index_stable;
use crate::lines::lemma_line_start_bounds;
use crate::lines::lemma_line_start_stable;
use crate::lines::line_end;
use crate::lines::line_index;
use crate::lines::line_start;

verus! {

/// What an Up or Down movement needs measured: the advance width of the
/// reference text (the current line up to the cursor) is the target
/// offset, and the destination line is measured once per prefix.
pub struct MeasureRequest {
    /// The current line up to the cursor; its total advance width is the
    /// target offset.
    pub reference: Vec<char>,
    /// The destination line (the line above for Up, below for Down).
    pub line: Vec<char>,
}

/// The measured answer to a [`MeasureRequest`]: the target offset and one
/// advance width per boundary of the destination line (one more width
/// than the line has scalar units, starting with the empty prefix).
pub struct NavMeasure {
    /// Advance width of the reference text.
    pub target: u64,
    /// `prefix_widths[i]` is the advance width of the destination line's
    /// first `i` scalar units.
    pub prefix_widths: Vec<u64>,
}

/// How far apart two advance widths lie.
pub open spec fn width_dist(a: u64, b: u64) -> int {
    if a <= b {
        b - a
    } else {
        a - b
    }
}

/// Whether `i` is the boundary whose prefix width lies closest to the
/// target offset, ties broken in favour of the first such boundary.
pub open spec fn is_closest_boundary(ws: Seq<u64>, target: u64, i: int) -> bool {
    &&& 0 <= i < ws.len()
    &&& forall|j: int| 0 <= j < ws.len() ==> width_dist(#[trigger] ws[j], target) >= width_dist(
        ws[i],
        target,
    )
    &&& forall|j: int| 0 <= j < i ==> width_dist(#[trigger] ws[j], target) > width_dist(ws[i], target)
}

/// The first boundary whose prefix width lies closest to the target
/// offset.
pub open spec fn closest_idx(ws: Seq<u64>, target: u64) -> int
    decreases ws.len(),
{
    if ws.len() <= 1 {
        0
    } else {
        let rest = closest_idx(ws.drop_last(), target);
        if width_dist(ws.last(), target) < width_dist(ws[rest], target) {
            ws.len() - 1
        } else {
            rest
        }
    }
}

/// The first closest boundary deserves its name: no boundary lies
/// closer, and none before it lies as close.
pub proof fn lemma_closest_props(ws: Seq<u64>, target: u64)
    requires
        ws.len() > 0,
    ensures
        is_closest_boundary(ws, target, closest_idx(ws, target)),
    decreases ws.len(),
{
    if ws.len() > 1 {
        lemma_closest_props(ws.drop_last(), target);
        assert forall|j: int| 0 <= j < ws.len() - 1 implies ws.drop_last()[j] == ws[j] by {}
    }
}

/// Only one boundary is the first closest one, so a boundary shown to be
/// closest is the chosen one.
pub proof fn lemma_closest_determined(ws: Seq<u64>, target: u64, i: int)
    requires
        is_closest_boundary(ws, target, i),
    ensures
        closest_idx(ws, target) == i,
{
    lemma_closest_props(ws, target);
    let j = closest_idx(ws, target);
    if j < i {
        assert(width_dist(ws[j], target) > width_dist(ws[i], target));
        assert(width_dist(ws[j], target) >= width_dist(ws[i], target));
        assert(false);
    }
    if i < j {
        assert(false);
    }
}

/// How far apart two advance widths lie.
fn width_distance(a: u64, b: u64) -> (r: u64)
    ensures
        r as int == width_dist(a, b),
{
    if a <= b {
        b - a
    } else {
        a - b
    }
}

/// The first boundary of `ws` whose width lies closest to `target`.
pub fn closest_boundary(ws: &Vec<u64>, target: u64) -> (r: usize)
    requires
        ws@.len() > 0,
    ensures
        is_closest_boundary(ws@, target, r as int),
        r as int == closest_idx(ws@, target),
{
    let mut best: usize = 0;
    let mut best_d: u64 = width_distance(ws[0], target);
    let mut k: usize = 1;
    while k < ws.len()
        invariant
            1 <= k <= ws@.len(),
            best < k,
            best_d as int == width_dist(ws@[best as int], target),
            forall|j: int| 0 <= j < k ==> width_dist(#[trigger] ws@[j], target) >= best_d as int,
            forall|j: int| 0 <= j < best ==> width_dist(#[trigger] ws@[j], target) > best_d as int,
        decreases ws@.len() - k,
    {
        let d = width_distance(ws[k], target);
        if d < best_d {
            best = k;
            best_d = d;
        }
        k = k + 1;
    }
    proof {
        lemma_closest_determined(ws@, target, best as int);
    }
    best
}

/// Where the Up movement lands: at the start of the text when everything
/// before the cursor is on the first line, else on the boundary of the
/// previous line whose prefix width lies closest to the measured target.
pub open spec fn up_result(v: Seq<char>, c: int, m: NavMeasure) -> int {
    if line_start(v, c) == 0 {
        0
    } else {
        line_start(v, line_start(v, c) - 1) + closest_idx(m.prefix_widths@, m.target)
    }
}

/// Where the Down movement lands: at the end of the text when everything
/// at and after the cursor is on the last line, else on the boundary of
/// the next line whose prefix width lies closest to the measured target.
pub open spec fn down_result(v: Seq<char>, c: int, m: NavMeasure) -> int {
    if line_end(v, c) == v.len() {
        v.len() as int
    } else {
        line_end(v, c) + 1 + closest_idx(m.prefix_widths@, m.target)
    }
}

/// How many prefix widths an Up movement from cursor `c` needs: one per
/// boundary of the previous line.
pub open spec fn up_widths_len(v: Seq<char>, c: int) -> int {
    line_start(v, c) - line_start(v, line_start(v, c) - 1)
}

/// How many prefix widths a Down movement from cursor `c` needs: one per
/// boundary of the next line.
pub open spec fn down_widths_len(v: Seq<char>, c: int) -> int {
    line_end(v, line_end(v, c) + 1) - line_end(v, c)
}

impl TextInputValue {
    /// What an Up movement from `cursor` must have measured, or `None`
    /// when no line lies above the cursor (the cursor then moves to the
    /// start of the text without consulting any metrics).
    pub fn up_request(&self, cursor: usize) -> (r: Option<MeasureRequest>)
        requires
            cursor <= self@.len(),
        ensures
            (r is Some) <==> line_start(self@, cursor as int) != 0,
            r matches Some(req) ==> {
                let ls = line_start(self@, cursor as int);
                let pls = line_start(self@, ls - 1);
                &&& req.reference@ == self@.subrange(ls, cursor as int)
                &&& req.line@ == self@.subrange(pls, ls - 1)
                &&& req.line@.len() + 1 == up_widths_len(self@, cursor as int)
            },
    {
        let ls = self.find_line_start(cursor);
        if ls == 0 {
            return None;
        }
        proof {
            lemma_line_start_bounds(self@, cursor as int);
            lemma_line_start_bounds(self@, ls - 1);
        }
        let pls = self.find_line_start(ls - 1);
        Some(
            MeasureRequest {
                reference: self.slice_range(ls, cursor),
                line: self.slice_range(pls, ls - 1),
            },
        )
    }

    /// What a Down movement from `cursor` must have measured, or `None`
    /// when no line lies below the cursor (the cursor then moves to the
    /// end of the text without consulting any metrics).
    pub fn down_request(&self, cursor: usize) -> (r: Option<MeasureRequest>)
        requires
            cursor <= self@.len(),
        ensures
            (r is Some) <==> line_end(self@, cursor as int) != self@.len(),
            r matches Some(req) ==> {
                let ls = line_start(self@, cursor as int);
                let le = line_end(self@, cursor as int);
                let nle = line_end(self@, le + 1);
                &&& req.reference@ == self@.subrange(ls, cursor as int)
                &&& req.line@ == self@.subrange(le + 1, nle)
                &&& req.line@.len() + 1 == down_widths_len(self@, cursor as int)
            },
    {
        let le = self.find_line_end(cursor);
        if le == self.len() {
            return None;
        }
        proof {
            lemma_line_start_bounds(self@, cursor as int);
            lemma_line_end_bounds(self@, cursor as int);
            lemma_line_end_bounds(self@, le + 1);
        }
        let ls = self.find_line_start(cursor);
        let nle = self.find_line_end(le + 1);
        Some(
            MeasureRequest {
                reference: self.slice_range(ls, cursor),
                line: self.slice_range(le + 1, nle),
            },
        )
    }

    /// Moves the cursor up one line, to the boundary of the previous line
    /// whose prefix width lies closest to the cursor's current visual
    /// offset, or to the start of the text when no line lies above. The
    /// measured widths are the answer to [`Self::up_request`].
    pub fn apply_up(&self, cursor: usize, measured: Option<&NavMeasure>) -> (r: usize)
        requires
            cursor <= self@.len(),
            line_start(self@, cursor as int) != 0 ==> (measured matches Some(m)
                && m.prefix_widths@.len() == up_widths_len(self@, cursor as int)),
        ensures
            line_start(self@, cursor as int) == 0 ==> r == 0,
            measured matches Some(m) ==> (line_start(self@, cursor as int) != 0 ==> r as int
                == up_result(self@, cursor as int, *m)),
            r <= self@.len(),
            line_start(self@, cursor as int) != 0 ==> line_start(
                self@,
                line_start(self@, cursor as int) - 1,
            ) <= r as int,
            line_start(self@, cursor as int) != 0 ==> (r as int) < line_start(
                self@,
                cursor as int,
            ),
    {
        let ls = self.find_line_start(cursor);
        proof {
            lemma_line_start_bounds(self@, cursor as int);
        }
        if ls == 0 {
            return 0;
        }
        proof {
            lemma_line_start_bounds(self@, ls - 1);
        }
        let pls = self.find_line_start(ls - 1);
        match measured {
            Some(m) => {
                let x = closest_boundary(&m.prefix_widths, m.target);
                pls + x
            },
            None => {
                proof {
                    assert(false);
                }
                0
            },
        }
    }

    /// Moves the cursor down one line, to the boundary of the next line
    /// whose prefix width lies closest to the cursor's current visual
    /// offset, or to the end of the text when no line lies below. The
    /// measured widths are the answer to [`Self::down_request`].
    pub fn apply_down(&self, cursor: usize, measured: Option<&NavMeasure>) -> (r: usize)
        requires
            cursor <= self@.len(),
            line_end(self@, cursor as int) != self@.len() ==> (measured matches Some(m)
                && m.prefix_widths@.len() == down_widths_len(self@, cursor as int)),
        ensures
            line_end(self@, cursor as int) == self@.len() ==> r == self@.len(),
            measured matches Some(m) ==> (line_end(self@, cursor as int) != self@.len() ==> r
                as int == down_result(self@, cursor as int, *m)),
            r <= self@.len(),
            line_end(self@, cursor as int) != self@.len() ==> line_end(self@, cursor as int)
                < (r as int),
            line_end(self@, cursor as int) != self@.len() ==> r as int <= line_end(
                self@,
                line_end(self@, cursor as int) + 1,
            ),
    {
        let le = self.find_line_end(cursor);
        proof {
            lemma_line_end_bounds(self@, cursor as int);
        }
        if le == self.len() {
            return self.len();
        }
        proof {
            lemma_line_end_bounds(self@, le + 1);
        }
        match measured {
            Some(m) => {
                let x = closest_boundary(&m.prefix_widths, m.target);
                le + 1 + x
            },
            None => {
                proof {
                    assert(false);
                }
                0
            },
        }
    }
}

/// Up then Down from a cursor below the first line comes back to a
/// boundary on the starting line, whatever widths were measured: the
/// column is clamped to the nearest available boundary, so it need not
/// be the identical column, but the line is the same.
pub proof fn lemma_up_then_down_same_line(v: Seq<char>, c: int, m_up: NavMeasure, m_down: NavMeasure)
    requires
        0 <= c <= v.len(),
        line_start(v, c) != 0,
        m_up.prefix_widths@.len() == up_widths_len(v, c),
        m_down.prefix_widths@.len() == down_widths_len(v, up_result(v, c, m_up)),
    ensures
        line_index(v, down_result(v, up_result(v, c, m_up), m_down)) == line_index(v, c),
{
    let ls = line_start(v, c);
    let pls = line_start(v, ls - 1);
    lemma_line_start_bounds(v, c);
    lemma_line_start_bounds(v, ls - 1);
    lemma_closest_props(m_up.prefix_widths@, m_up.target);
    let x = closest_idx(m_up.prefix_widths@, m_up.target);
    let c1 = pls + x;
    assert(c1 == up_result(v, c, m_up));
    assert(pls <= c1 < ls);
    lemma_line_end_bounds(v, c1);
    let le1 = line_end(v, c1);
    assert(ls - 1 < v.len());
    if le1 < ls - 1 {
        assert(v[le1] == '\n');
        assert(v[le1] != '\n');
    }
    if le1 > ls - 1 {
        assert(v[ls - 1] != '\n');
    }
    assert(le1 == ls - 1);
    let nle = line_end(v, ls);
    lemma_line_end_bounds(v, ls);
    lemma_closest_props(m_down.prefix_widths@, m_down.target);
    let x2 = closest_idx(m_down.prefix_widths@, m_down.target);
    let c2 = ls + x2;
    assert(c2 == down_result(v, c1, m_down));
    assert(ls <= c2 <= nle);
    lemma_line_index_stable(v, ls, c);
    lemma_line_index_stable(v, ls, c2);
}

/// Down then Up from a cursor above the last line comes back to a
/// boundary on the starting line, whatever widths were measured.
pub proof fn lemma_down_then_up_same_line(v: Seq<char>, c: int, m_down: NavMeasure, m_up: NavMeasure)
    requires
        0 <= c <= v.len(),
        line_end(v, c) != v.len(),
        m_down.prefix_widths@.len() == down_widths_len(v, c),
        m_up.prefix_widths@.len() == up_widths_len(v, down_result(v, c, m_down)),
    ensures
        line_index(v, up_result(v, down_result(v, c, m_down), m_up)) == line_index(v, c),
{
    let le = line_end(v, c);
    lemma_line_end_bounds(v, c);
    assert(v[le] == '\n');
    let nle = line_end(v, le + 1);
    lemma_line_end_bounds(v, le + 1);
    lemma_closest_props(m_down.prefix_widths@, m_down.target);
    let x2 = closest_idx(m_down.prefix_widths@, m_down.target);
    let c2 = le + 1 + x2;
    assert(c2 == down_result(v, c, m_down));
    assert(le + 1 <= c2 <= nle);
    lemma_line_start_bounds(v, c2);
    let ls2 = line_start(v, c2);
    if ls2 <= le {
        assert(v[le] != '\n');
    }
    if ls2 > le + 1 {
        assert(v[ls2 - 1] == '\n');
        assert(v[ls2 - 1] != '\n');
    }
    assert(ls2 == le + 1);
    lemma_line_start_bounds(v, le);
    if line_start(v, le) > c {
        assert(v[line_start(v, le) - 1] == '\n');
        assert(v[line_start(v, le) - 1] != '\n');
    }
    lemma_line_start_stable(v, le, c);
    let pls2 = line_start(v, le);
    assert(pls2 == line_start(v, c));
    lemma_closest_props(m_up.prefix_widths@, m_up.target);
    let x3 = closest_idx(m_up.prefix_widths@, m_up.target);
    let c3 = pls2 + x3;
    assert(c3 == up_result(v, c2, m_up));
    assert(pls2 <= c3 <= le);
    lemma_line_index_stable(v, pls2, c3);
    lemma_line_index_stable(v, pls2, c);
}

} // verus!
