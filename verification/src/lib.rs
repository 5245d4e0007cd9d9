//! Drawing text and lines on small monochrome, bit-packed displays.
//!
//! Every drawable target is a [`Surface`]. A surface is described by what a
//! single `pixel` call does to it; lines, rotations and text are stated as
//! the exact sequence of pixels they plot.
//!
//! - [`surface`]: the `Surface` trait and its line rasteriser.
//! - [`geometry`]: which pixels a line consists of.
//! - [`rotate`], [`measure`]: surfaces made from other surfaces, or from
//!   nothing.
//! - [`glyphs`], [`premium`]: the Premium typeface and writing with it.
//! - [`ssh1106`]: the frame buffer of the SSH1106 controller and the
//!   transfers that bring it to the display.
//! - [`line`]: a string of fixed capacity for the texts to show.

pub mod geometry;
pub mod glyphs;
pub mod line;
pub mod measure;
pub mod premium;
pub mod rotate;
pub mod ssh1106;
pub mod surface;

pub use line::Line;
pub use measure::Measure;
pub use premium::Premium;
pub use rotate::Rotate;
pub use ssh1106::Ssh1106;
pub use surface::Surface;
