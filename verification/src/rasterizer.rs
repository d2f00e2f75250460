//! Lines, triangles and the scan that paints them.

pub mod draw;
pub mod draw_lemmas;
pub mod linear_equation;
pub mod triangle2d;
pub mod triangle_lemmas;
