//! Plain two- and four-component value types.

pub mod vec2;
pub mod vec4;
