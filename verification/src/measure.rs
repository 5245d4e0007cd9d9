//! A surface that draws nothing.

use vstd::prelude::*;
use crate::surface::Surface;

verus! {

/// The width and the height that [`Measure`] reports: more than any text
/// needs.
pub const EXTENT: i32 = 1000;

/// This struct implements the Surface trait and can be used to measure the width of text without
/// drawing anything
pub struct Measure;

impl Surface for Measure {
    open spec fn spec_width(&self) -> int {
        EXTENT as int
    }

    open spec fn spec_height(&self) -> int {
        EXTENT as int
    }

    open spec fn plotted(self, x: int, y: int) -> Self {
        self
    }

    open spec fn cleared(self) -> Self {
        self
    }

    proof fn lemma_surface(self, x: int, y: int) {
    }

    fn clear(&mut self) {
    }

    fn pixel(&mut self, _x: i32, _y: i32) {
    }

    fn height(&self) -> (h: i32)
        ensures
            h == EXTENT,
    {
        EXTENT
    }

    fn width(&self) -> (w: i32)
        ensures
            w == EXTENT,
    {
        EXTENT
    }
}

} // verus!
