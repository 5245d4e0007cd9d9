//! The capability every drawable target offers, and the line rasteriser
//! built on it.

use vstd::prelude::*;
use crate::geometry::direction;
use crate::geometry::distance;
use crate::geometry::lemma_minor_end;
use crate::geometry::lemma_minor_range;
use crate::geometry::lemma_minor_start;
use crate::geometry::lemma_minor_step;
use crate::geometry::line_point;
use crate::geometry::line_points;
use crate::geometry::line_steps;
use crate::geometry::residue;
use crate::geometry::within;

verus! {

/// A drawable monochrome surface.
///
/// A surface is modelled by its two transitions: [`Surface::plotted`] is the
/// surface after one `pixel` call and [`Surface::cleared`] the surface after
/// `clear`. Everything else that draws is specified as a sequence of
/// `plotted` steps.
pub trait Surface: Sized {
    /// The width in pixels.
    spec fn spec_width(&self) -> int;

    /// The height in pixels.
    spec fn spec_height(&self) -> int;

    /// The surface as `pixel(x, y)` leaves it.
    spec fn plotted(self, x: int, y: int) -> Self;

    /// The surface as `clear()` leaves it.
    spec fn cleared(self) -> Self;

    /// What holds of every surface: its dimensions are non-negative and
    /// never change, and a pixel outside of them is ignored.
    proof fn lemma_surface(self, x: int, y: int)
        ensures
            0 <= self.spec_width() <= i32::MAX,
            0 <= self.spec_height() <= i32::MAX,
            self.plotted(x, y).spec_width() == self.spec_width(),
            self.plotted(x, y).spec_height() == self.spec_height(),
            self.cleared().spec_width() == self.spec_width(),
            self.cleared().spec_height() == self.spec_height(),
            !within(self.spec_width(), self.spec_height(), x, y) ==> self.plotted(x, y) == self,
    ;

    /// Clear all pixels
    fn clear(&mut self)
        ensures
            *final(self) == old(self).cleared(),
    ;

    /// Fill a pixel
    fn pixel(&mut self, x: i32, y: i32)
        ensures
            *final(self) == old(self).plotted(x as int, y as int),
    ;

    /// Get the width of the surface
    fn width(&self) -> (w: i32)
        ensures
            w == self.spec_width(),
    ;

    /// Get the height of the surface
    fn height(&self) -> (h: i32)
        ensures
            h == self.spec_height(),
    ;

    /// Draw a line
    ///
    /// Plots the pixels of [`line_points`], first end point first: the
    /// surface is left as [`plotted_all`] of them says.
    fn line(&mut self, x1: i32, y1: i32, x2: i32, y2: i32)
        ensures
            *final(self) == line_points(x1 as int, y1 as int, x2 as int, y2 as int).fold_left(
                *old(self),
                |s: Self, p: (int, int)| s.plotted(p.0, p.1),
            ),
    {
        let dx: i64 = if x1 <= x2 {
            x2 as i64 - x1 as i64
        } else {
            x1 as i64 - x2 as i64
        };
        let sx: i32 = if x1 < x2 {
            1
        } else if x1 > x2 {
            -1
        } else {
            0
        };
        let dy: i64 = if y1 <= y2 {
            y2 as i64 - y1 as i64
        } else {
            y1 as i64 - y2 as i64
        };
        let sy: i32 = if y1 < y2 {
            1
        } else if y1 > y2 {
            -1
        } else {
            0
        };
        let mut e: i64 = if dx > dy {
            dx / 2
        } else {
            -(dy / 2)
        };
        let mut x: i32 = x1;
        let mut y: i32 = y1;
        let ghost points = line_points(x1 as int, y1 as int, x2 as int, y2 as int);
        let ghost steps = line_steps(x1 as int, y1 as int, x2 as int, y2 as int);
        let ghost plot = |s: Self, p: (int, int)| s.plotted(p.0, p.1);
        let ghost mut k: int = 0;
        proof {
            if dx > dy {
                lemma_minor_start(dx as int, dy as int);
            } else {
                lemma_minor_start(dy as int, dx as int);
            }
            assert(points.take(0) =~= Seq::<(int, int)>::empty());
        }
        loop
            invariant_except_break
                0 <= k <= steps,
                (x as int, y as int) == line_point(x1 as int, y1 as int, x2 as int, y2 as int, k),
                dx > dy ==> e == dx - 1 - residue(dx as int, dy as int, k),
                0 < dy && dx <= dy ==> e == residue(dy as int, dx as int, k) - (dy - 1),
                *self == points.take(k).fold_left(*old(self), plot),
            invariant
                dx == distance(x1 as int, x2 as int),
                dy == distance(y1 as int, y2 as int),
                sx == direction(x1 as int, x2 as int),
                sy == direction(y1 as int, y2 as int),
                points == line_points(x1 as int, y1 as int, x2 as int, y2 as int),
                steps == line_steps(x1 as int, y1 as int, x2 as int, y2 as int),
                plot == |s: Self, p: (int, int)| s.plotted(p.0, p.1),
            ensures
                *self == points.fold_left(*old(self), plot),
            decreases steps - k,
        {
            self.pixel(x, y);
            proof {
                assert(points.take(k + 1).drop_last() =~= points.take(k));
                assert(points.take(k + 1).last() == (x as int, y as int));
                if dx > dy {
                    lemma_minor_end(dx as int, dy as int);
                } else {
                    lemma_minor_end(dy as int, dx as int);
                }
            }
            if x == x2 && y == y2 {
                proof {
                    assert(k == steps);
                    assert(points.take(k + 1) =~= points);
                }
                break ;
            }
            proof {
                if dx > dy {
                    lemma_minor_step(dx as int, dy as int, k);
                    lemma_minor_range(dx as int, dy as int, k + 1);
                } else {
                    lemma_minor_step(dy as int, dx as int, k);
                    lemma_minor_range(dy as int, dx as int, k + 1);
                }
            }
            let t = e;
            if t > -dx {
                e -= dy;
                x += sx;
            }
            if t < dy {
                e += dx;
                y += sy;
            }
            proof {
                k = k + 1;
            }
        }
    }
}

/// The surface after plotting `points` one after the other.
pub open spec fn plotted_all<S: Surface>(surface: S, points: Seq<(int, int)>) -> S {
    points.fold_left(surface, |s: S, p: (int, int)| s.plotted(p.0, p.1))
}

/// A line from a point to itself plots that point, once.
pub proof fn lemma_line_of_one_point_plots_it<S: Surface>(surface: S, x: int, y: int)
    ensures
        plotted_all(surface, line_points(x, y, x, y)) == surface.plotted(x, y),
{
    reveal_with_fuel(Seq::fold_left, 2);
    let points = line_points(x, y, x, y);
    assert(points.last() == (x, y));
    assert(points.drop_last() =~= Seq::<(int, int)>::empty());
}

/// Whether two pixels of a surface can always be plotted in either order.
pub open spec fn plotting_commutes<S: Surface>() -> bool {
    forall|s: S, a: (int, int), b: (int, int)|
        (#[trigger] s.plotted(a.0, a.1).plotted(b.0, b.1)) == s.plotted(b.0, b.1).plotted(
            a.0,
            a.1,
        )
}

/// Plotting two runs of pixels one after the other is plotting their
/// concatenation.
pub proof fn lemma_plotted_all_append<S: Surface>(
    surface: S,
    first: Seq<(int, int)>,
    second: Seq<(int, int)>,
)
    ensures
        plotted_all(surface, first + second) == plotted_all(plotted_all(surface, first), second),
    decreases second.len(),
{
    if second.len() == 0 {
        assert(first + second =~= first);
    } else {
        lemma_plotted_all_append(surface, first, second.drop_last());
        assert((first + second).drop_last() =~= first + second.drop_last());
    }
}

/// Where plotting commutes, a pixel may as well be plotted before a run as
/// after it.
pub proof fn lemma_plotted_all_first<S: Surface>(surface: S, x: int, y: int, points: Seq<(int, int)>)
    requires
        plotting_commutes::<S>(),
    ensures
        plotted_all(surface.plotted(x, y), points) == plotted_all(surface, points).plotted(x, y),
    decreases points.len(),
{
    if points.len() > 0 {
        let last = points.last();
        lemma_plotted_all_first(surface, x, y, points.drop_last());
        let before = plotted_all(surface, points.drop_last());
        assert(before.plotted((x, y).0, (x, y).1).plotted(last.0, last.1) == before.plotted(
            last.0,
            last.1,
        ).plotted((x, y).0, (x, y).1));
    }
}

/// Where plotting commutes, a run of pixels leaves the same surface
/// whether it is plotted forwards or backwards.
pub proof fn lemma_plotted_all_reverse<S: Surface>(surface: S, points: Seq<(int, int)>)
    requires
        plotting_commutes::<S>(),
    ensures
        plotted_all(surface, points.reverse()) == plotted_all(surface, points),
    decreases points.len(),
{
    if points.len() > 0 {
        let last = points.last();
        let rest = points.drop_last();
        assert(points.reverse() =~= seq![last] + rest.reverse());
        lemma_plotted_all_append(surface, seq![last], rest.reverse());
        assert(seq![last].drop_last() =~= Seq::<(int, int)>::empty());
        assert(plotted_all(surface, seq![last]) == surface.plotted(last.0, last.1)) by {
            reveal_with_fuel(Seq::fold_left, 2);
            assert(seq![last].last() == last);
        }
        lemma_plotted_all_reverse(surface.plotted(last.0, last.1), rest);
        lemma_plotted_all_first(surface, last.0, last.1, rest);
    } else {
        assert(points.reverse() =~= points);
    }
}

} // verus!
