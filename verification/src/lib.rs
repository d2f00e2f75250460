//! A small software rasterizer for triangles.
//!
//! A triangle is given by three pixels in any order. It is prepared once:
//! a bounding box, and one line for each edge together with the side of
//! that line on which the centre of the box lies. After that a pixel is
//! classified by three half-plane tests. A solid fill paints the pixels
//! that no line has on its outer side; a wireframe paints the pixels that
//! lie on a line.
//!
//! All of it is computed in whole numbers. A point is an absolute pixel; a
//! line keeps its slope and its intercept as fractions over one
//! denominator, so that the offset of a point from a line is exact; and a
//! point counts as lying on a line where that offset, measured along the y
//! axis, is less than `LINE_WIDTH` pixels. An edge between two pixels
//! straight above one another has no finite slope: it is given the slope
//! zero, and so stands for the level line through its upper end.
//!
//! The rasterizer clips nothing against the surface. It walks the bounding
//! box of the triangle and sends every painted pixel to the display, which
//! decides what becomes of the pixels outside it.

pub mod displays;
pub mod game;
pub mod geometry;
pub mod rasterizer;
