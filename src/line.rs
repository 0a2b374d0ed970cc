//! Tracing the grid cells of a segment between two points.
//!
//! The cells come from Bresenham's algorithm as `line_drawing` implements it.
//! That algorithm is not symmetric, so a segment is always traced from its
//! lesser endpoint (by `x`, then `y`) and reversed when asked for the other
//! way round: tracing `b` to `a` gives exactly the cells of `a` to `b`,
//! backward.
use vstd::prelude::*;

use crate::direction::sign;
use crate::point::{Point, abs, fits_i32, max};

verus! {

/// The cells that `line_drawing::Bresenham` walks from `start` to `end`.
pub uninterp spec fn bresenham_of(start: (i64, i64), end: (i64, i64)) -> Seq<(i64, i64)>;

/// `p` to `q` is a move of one cell along at least one axis, each axis either
/// staying put or moving toward `end` from `start`.
pub open spec fn is_step_toward(p: (i64, i64), q: (i64, i64), start: (i64, i64), end: (i64, i64)) -> bool {
    let (sx, sy) = (q.0 - p.0, q.1 - p.1);
    &&& sx == 0 || sx == sign(end.0 - start.0)
    &&& sy == 0 || sy == sign(end.1 - start.1)
    &&& sx != 0 || sy != 0
}

/// Relies on `line_drawing::Bresenham` (an iterator, collected here), for
/// coordinates within `i32`, so that its octant transform never negates the
/// least `i64`: it
/// yields the cells from `start` to `end`, both included, one per unit of the
/// longer axis; in its octant-local frame each step adds one along the longer
/// axis and zero or one along the other, so in the grid every step moves one
/// cell toward `end` on one or both axes.
#[verifier::external_body]
fn bresenham(start: (i64, i64), end: (i64, i64)) -> (r: Vec<(i64, i64)>)
    requires
        fits_i32(start.0 as int),
        fits_i32(start.1 as int),
        fits_i32(end.0 as int),
        fits_i32(end.1 as int),
    ensures
        r@ == bresenham_of(start, end),
        r@.len() == 1 + max(abs(end.0 - start.0), abs(end.1 - start.1)),
        r@[0] == start,
        r@[r@.len() - 1] == end,
        forall|i: int|
            0 <= i < r@.len() - 1 ==> is_step_toward(#[trigger] r@[i], r@[i + 1], start, end),
{
    line_drawing::Bresenham::new(start, end).collect()
}

pub open spec fn cell_of(p: Point) -> (i64, i64) {
    (p.x as i64, p.y as i64)
}

pub open spec fn point_of(c: (i64, i64)) -> Point {
    Point { x: c.0 as i32, y: c.1 as i32 }
}

/// `a` comes before `b` ordered by `x`, then by `y`.
pub open spec fn precedes(a: Point, b: Point) -> bool {
    a.x < b.x || (a.x == b.x && a.y <= b.y)
}

/// The cells from `a` to `b`: `[a]` when they are equal; otherwise Bresenham's
/// trace from the lesser endpoint, backward when that is `b`.
pub open spec fn traced(a: Point, b: Point) -> Seq<Point> {
    if a == b {
        seq![a]
    } else if precedes(a, b) {
        bresenham_of(cell_of(a), cell_of(b)).map_values(|c: (i64, i64)| point_of(c))
    } else {
        bresenham_of(cell_of(b), cell_of(a)).map_values(|c: (i64, i64)| point_of(c)).reverse()
    }
}

/// `p` and `q` are distinct cells that touch, by a side or a corner.
pub open spec fn adjacent(p: Point, q: Point) -> bool {
    &&& abs(q.x - p.x) <= 1
    &&& abs(q.y - p.y) <= 1
    &&& p != q
}

/// Along a sequence of steps toward `end`, each coordinate moves monotonically
/// toward `end`'s: from cell `i` to cell `j >= i` it moves only in that
/// coordinate's direction, and not at all where `start` and `end` agree on it.
proof fn lemma_steps_monotone(s: Seq<(i64, i64)>, start: (i64, i64), end: (i64, i64), i: int, j: int)
    requires
        0 <= i <= j < s.len(),
        forall|k: int| 0 <= k < s.len() - 1 ==> is_step_toward(#[trigger] s[k], s[k + 1], start, end),
    ensures
        sign(end.0 - start.0) * (s[j].0 - s[i].0) >= 0,
        sign(end.1 - start.1) * (s[j].1 - s[i].1) >= 0,
        sign(end.0 - start.0) == 0 ==> s[j].0 == s[i].0,
        sign(end.1 - start.1) == 0 ==> s[j].1 == s[i].1,
    decreases j - i,
{
    if i < j {
        lemma_steps_monotone(s, start, end, i, j - 1);
        assert(is_step_toward(s[j - 1], s[j], start, end));
    }
}

/// Every cell of a trace from `start` to `end` lies in the box they span.
proof fn lemma_trace_in_box(s: Seq<(i64, i64)>, start: (i64, i64), end: (i64, i64), k: int)
    requires
        0 <= k < s.len(),
        s[0] == start,
        s[s.len() - 1] == end,
        forall|i: int| 0 <= i < s.len() - 1 ==> is_step_toward(#[trigger] s[i], s[i + 1], start, end),
    ensures
        (start.0 <= s[k].0 <= end.0) || (end.0 <= s[k].0 <= start.0),
        (start.1 <= s[k].1 <= end.1) || (end.1 <= s[k].1 <= start.1),
{
    lemma_steps_monotone(s, start, end, 0, k);
    lemma_steps_monotone(s, start, end, k, s.len() - 1);
    let (sx, sy) = (sign(end.0 - start.0), sign(end.1 - start.1));
    let (lo, hi) = (s[k].0 - start.0, end.0 - s[k].0);
    assert((lo >= 0 && hi >= 0) || (lo <= 0 && hi <= 0)) by (nonlinear_arith)
        requires
            sx * lo >= 0,
            sx * hi >= 0,
            sx == 0 ==> lo == 0,
            sx == -1 || sx == 0 || sx == 1,
    ;
    let (lo, hi) = (s[k].1 - start.1, end.1 - s[k].1);
    assert((lo >= 0 && hi >= 0) || (lo <= 0 && hi <= 0)) by (nonlinear_arith)
        requires
            sy * lo >= 0,
            sy * hi >= 0,
            sy == 0 ==> lo == 0,
            sy == -1 || sy == 0 || sy == 1,
    ;
}

/// Tracing the other way round gives the same cells in reverse order.
pub proof fn lemma_traced_reversed(a: Point, b: Point)
    ensures
        traced(b, a) == traced(a, b).reverse(),
{
    if a == b {
        assert(traced(a, b).reverse() =~= seq![a]);
    } else if precedes(a, b) {
        let s = traced(a, b);
        assert(s.reverse().reverse() =~= s);
    } else {
        assert(precedes(b, a));
    }
}

impl Point {
    /// The grid cells of the segment from `self` to `other`, both included,
    /// each one step (straight or diagonal) from the one before.
    pub fn line_to(self, other: Point) -> (r: Vec<Point>)
        ensures
            r@ == traced(self, other),
            r@.len() == 1 + max(abs(other.x - self.x), abs(other.y - self.y)),
            r@[0] == self,
            r@[r@.len() - 1] == other,
            forall|i: int| 0 <= i < r@.len() - 1 ==> adjacent(#[trigger] r@[i], r@[i + 1]),
    {
        if self == other {
            return vec![self];
        }
        let forward = self.x < other.x || (self.x == other.x && self.y <= other.y);
        let (s, e) = if forward {
            (self, other)
        } else {
            (other, self)
        };
        let (sc, ec) = ((s.x as i64, s.y as i64), (e.x as i64, e.y as i64));
        let cells = bresenham(sc, ec);
        let n = cells.len();
        let ghost expected = traced(self, other);
        let ghost pts = cells@.map_values(|c: (i64, i64)| point_of(c));
        proof {
            assert(expected == if forward { pts } else { pts.reverse() });
        }
        let mut out: Vec<Point> = Vec::new();
        let mut i: usize = 0;
        while i < n
            invariant
                n == cells@.len(),
                n >= 1,
                cells@ == bresenham_of(sc, ec),
                cells@[0] == sc,
                cells@[n - 1] == ec,
                forall|k: int| 0 <= k < n - 1 ==> is_step_toward(#[trigger] cells@[k], cells@[k + 1], sc, ec),
                pts == cells@.map_values(|c: (i64, i64)| point_of(c)),
                expected == if forward { pts } else { pts.reverse() },
                i <= n,
                out@.len() == i,
                forall|k: int| 0 <= k < i ==> out@[k] == expected[k],
            decreases n - i,
        {
            let j = if forward { i } else { n - 1 - i };
            let c = cells[j];
            proof {
                lemma_trace_in_box(cells@, sc, ec, j as int);
            }
            out.push(Point::new(c.0 as i32, c.1 as i32));
            i = i + 1;
        }
        proof {
            assert(out@ =~= expected);
            assert forall|i: int| 0 <= i < out@.len() - 1 implies adjacent(#[trigger] out@[i], out@[i + 1]) by {
                if forward {
                    assert(is_step_toward(cells@[i], cells@[i + 1], sc, ec));
                    lemma_trace_in_box(cells@, sc, ec, i);
                    lemma_trace_in_box(cells@, sc, ec, i + 1);
                } else {
                    let k = n - 2 - i;
                    assert(is_step_toward(cells@[k], cells@[k + 1], sc, ec));
                    lemma_trace_in_box(cells@, sc, ec, k);
                    lemma_trace_in_box(cells@, sc, ec, k + 1);
                }
            }
        }
        out
    }
}

} // verus!
