use vstd::prelude::*;

verus! {

/// Four components, read either as `x y z w` or as `r g b a`.
#[derive(Default, Clone, Copy, Debug, PartialEq, Eq, Structural)]
pub struct Vec4<T> {
    pub x: T,
    pub y: T,
    pub z: T,
    pub w: T,
}

/// A colour of four channels, eight bits each.
pub type Color = Vec4<u8>;

impl<T> Vec4<T> {
    pub fn new(x: T, y: T, z: T, w: T) -> (r: Self)
        ensures
            r.x == x,
            r.y == y,
            r.z == z,
            r.w == w,
    {
        Self { x, y, z, w }
    }
}

impl<T: Copy> Vec4<T> {
    pub fn x(&self) -> (r: T)
        ensures
            r == self.x,
    {
        self.x
    }

    pub fn y(&self) -> (r: T)
        ensures
            r == self.y,
    {
        self.y
    }

    pub fn z(&self) -> (r: T)
        ensures
            r == self.z,
    {
        self.z
    }

    pub fn w(&self) -> (r: T)
        ensures
            r == self.w,
    {
        self.w
    }

    pub fn r(&self) -> (r: T)
        ensures
            r == self.x,
    {
        self.x
    }

    pub fn g(&self) -> (r: T)
        ensures
            r == self.y,
    {
        self.y
    }

    pub fn b(&self) -> (r: T)
        ensures
            r == self.z,
    {
        self.z
    }

    pub fn a(&self) -> (r: T)
        ensures
            r == self.w,
    {
        self.w
    }
}

} // verus!
