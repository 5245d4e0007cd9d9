//! Surfaces seen through a rotation.

use vstd::prelude::*;
use crate::geometry::within;
use crate::surface::Surface;

verus! {

/// Where a pixel of a surface turned by 90 degrees clockwise lies on the
/// surface itself, which is `width` pixels wide.
pub open spec fn quarter_turn(width: int, x: int, y: int) -> (int, int) {
    (width - 1 - y, x)
}

/// Where a pixel of a surface turned by 180 degrees lies on the surface
/// itself.
pub open spec fn half_turn(width: int, height: int, x: int, y: int) -> (int, int) {
    (width - 1 - x, height - 1 - y)
}

/// Where a pixel of a surface turned by 270 degrees clockwise lies on the
/// surface itself, which is `height` pixels high.
pub open spec fn three_quarter_turn(height: int, x: int, y: int) -> (int, int) {
    (y, height - 1 - x)
}

/// Rotate a surface
///
/// The rotated surface is as wide as the inner one is high and as high as
/// the inner one is wide; a pixel of it is the pixel [`quarter_turn`] of the
/// inner one. Everything else is the inner surface's, which is the field.
#[derive(Debug)]
pub struct Rotate<S>(pub S);

impl<S> Rotate<S> {
    /// Rotate by 90 degrees clockwise
    pub fn by90(surface: S) -> (rotated: Rotate<S>)
        ensures
            rotated == Rotate(surface),
    {
        Rotate(surface)
    }

    /// Rotate by 180 degrees clockwise
    pub fn by180(surface: S) -> (rotated: Rotate<Rotate<S>>)
        ensures
            rotated == Rotate(Rotate(surface)),
    {
        Rotate(Rotate(surface))
    }

    /// Rotate by 270 degrees clockwise
    pub fn by270(surface: S) -> (rotated: Rotate<Rotate<Rotate<S>>>)
        ensures
            rotated == Rotate(Rotate(Rotate(surface))),
    {
        Rotate(Rotate(Rotate(surface)))
    }
}

impl<S: Surface> Surface for Rotate<S> {
    open spec fn spec_width(&self) -> int {
        self.0.spec_height()
    }

    open spec fn spec_height(&self) -> int {
        self.0.spec_width()
    }

    open spec fn plotted(self, x: int, y: int) -> Self {
        let inner = quarter_turn(self.0.spec_width(), x, y);
        Rotate(self.0.plotted(inner.0, inner.1))
    }

    open spec fn cleared(self) -> Self {
        Rotate(self.0.cleared())
    }

    proof fn lemma_surface(self, x: int, y: int) {
        let inner = quarter_turn(self.0.spec_width(), x, y);
        self.0.lemma_surface(inner.0, inner.1);
    }

    fn clear(&mut self) {
        self.0.clear()
    }

    fn height(&self) -> i32 {
        self.0.width()
    }

    fn width(&self) -> i32 {
        self.0.height()
    }

    fn pixel(&mut self, x: i32, y: i32) {
        let column: i64 = self.0.width() as i64 - 1 - y as i64;
        if i32::MIN as i64 <= column && column <= i32::MAX as i64 {
            self.0.pixel(column as i32, x)
        } else {
            proof {
                self.0.lemma_surface(column as int, x as int);
            }
        }
    }
}

impl<S> core::ops::Deref for Rotate<S> {
    type Target = S;

    fn deref(&self) -> (inner: &S)
        ensures
            *inner == self.0,
    {
        &self.0
    }
}

impl<S> core::ops::DerefMut for Rotate<S> {
    fn deref_mut(&mut self) -> (inner: &mut S)
        ensures
            *inner == old(self).0,
            final(self).0 == *final(inner),
    {
        &mut self.0
    }
}

/// Two quarter turns are a half turn: the dimensions are the surface's own
/// again, and a pixel goes to the opposite corner.
pub proof fn lemma_two_quarter_turns<S: Surface>(surface: S, x: int, y: int)
    ensures
        Rotate(Rotate(surface)).spec_width() == surface.spec_width(),
        Rotate(Rotate(surface)).spec_height() == surface.spec_height(),
        quarter_turn(surface.spec_width(), quarter_turn(surface.spec_height(), x, y).0,
            quarter_turn(surface.spec_height(), x, y).1) == half_turn(
            surface.spec_width(),
            surface.spec_height(),
            x,
            y,
        ),
        Rotate(Rotate(surface)).plotted(x, y) == Rotate(
            Rotate(surface.plotted(surface.spec_width() - 1 - x, surface.spec_height() - 1 - y)),
        ),
{
}

/// Three quarter turns are one quarter turn the other way round.
pub proof fn lemma_three_quarter_turns<S: Surface>(surface: S, x: int, y: int)
    ensures
        Rotate(Rotate(Rotate(surface))).spec_width() == surface.spec_height(),
        Rotate(Rotate(Rotate(surface))).spec_height() == surface.spec_width(),
        Rotate(Rotate(Rotate(surface))).plotted(x, y) == Rotate(
            Rotate(Rotate(surface.plotted(y, surface.spec_height() - 1 - x))),
        ),
        (y, surface.spec_height() - 1 - x) == three_quarter_turn(surface.spec_height(), x, y),
{
}

/// Four quarter turns are no turn at all: the dimensions are the surface's
/// own, and a pixel is the same pixel of the surface.
pub proof fn lemma_four_quarter_turns<S: Surface>(surface: S, x: int, y: int)
    ensures
        Rotate(Rotate(Rotate(Rotate(surface)))).spec_width() == surface.spec_width(),
        Rotate(Rotate(Rotate(Rotate(surface)))).spec_height() == surface.spec_height(),
        Rotate(Rotate(Rotate(Rotate(surface)))).plotted(x, y) == Rotate(
            Rotate(Rotate(Rotate(surface.plotted(x, y)))),
        ),
{
}

/// The four quarter turns of a pixel, on a surface of any dimensions, lead
/// back to the pixel.
pub proof fn lemma_quarter_turn_cycle(width: int, height: int, x: int, y: int)
    ensures
        ({
            let a = quarter_turn(height, x, y);
            let b = quarter_turn(width, a.0, a.1);
            let c = quarter_turn(height, b.0, b.1);
            quarter_turn(width, c.0, c.1)
        }) == (x, y),
        ({
            let a = quarter_turn(height, x, y);
            quarter_turn(width, a.0, a.1)
        }) == half_turn(width, height, x, y),
{
}

/// A rotated surface covers a pixel where the inner surface covers the
/// pixel it is mapped to.
pub proof fn lemma_quarter_turn_within(width: int, height: int, x: int, y: int)
    ensures
        within(height, width, x, y) <==> within(
            width,
            height,
            quarter_turn(width, x, y).0,
            quarter_turn(width, x, y).1,
        ),
{
}

} // verus!
