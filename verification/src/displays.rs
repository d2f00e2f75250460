//! What the rasterizer asks of a surface.

pub mod display;
