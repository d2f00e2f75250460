use vstd::prelude::*;
use crate::geometry::vec2::{Vec2i, Vec2u};
use crate::geometry::vec4::Color;

verus! {

/// A surface that takes single pixels. What becomes of a pixel outside the
/// surface is for the surface to decide: the rasterizer clips nothing.
pub trait Display {
    /// Width and height in pixels, as they are now.
    fn size(&self) -> Vec2u;

    /// Asks for a new width and height.
    fn set_size(&mut self, size: Vec2u);

    /// Paints one pixel.
    fn draw_pixel(&mut self, position: Vec2i, color: Color);
}

} // verus!
