use vstd::prelude::*;

verus! {

/// A pair of coordinates.
#[derive(Default, Clone, Copy, Debug, PartialEq, Eq, Structural)]
pub struct Vec2<T> {
    pub x: T,
    pub y: T,
}

/// Signed pixel coordinates.
pub type Vec2i = Vec2<i32>;

/// Unsigned pixel coordinates, or the size of a surface.
pub type Vec2u = Vec2<u32>;

impl<T> Vec2<T> {
    pub fn new(x: T, y: T) -> (r: Self)
        ensures
            r.x == x,
            r.y == y,
    {
        Self { x, y }
    }

    pub fn from_tuple(pair: (T, T)) -> (r: Self)
        ensures
            r.x == pair.0,
            r.y == pair.1,
    {
        let (x, y) = pair;
        Self { x, y }
    }
}

impl<T: Copy> Vec2<T> {
    pub fn x(&self) -> (r: T)
        ensures
            r == self.x,
    {
        self.x
    }

    pub fn y(&self) -> (r: T)
        ensures
            r == self.y,
    {
        self.y
    }
}

/// The pixel that `value / from` of one axis falls on when that axis is
/// `to` pixels long: the product is divided with truncation, and a result
/// that no signed coordinate can hold is held at the largest one.
pub open spec fn rescaled(value: int, from: int, to: int) -> int
    recommends
        from > 0,
{
    let scaled = (value * to) / from;
    if scaled > i32::MAX {
        i32::MAX as int
    } else {
        scaled
    }
}

fn rescale_axis(value: u32, from: u32, to: u32) -> (r: i32)
    requires
        from > 0,
    ensures
        r == rescaled(value as int, from as int, to as int),
        r >= 0,
{
    assert(0 <= value * to <= 0xffff_ffff * 0xffff_ffff) by (nonlinear_arith)
        requires
            0 <= value <= 0xffff_ffff,
            0 <= to <= 0xffff_ffff,
    ;
    let product: u64 = (value as u64) * (to as u64);
    let scaled: u64 = product / (from as u64);
    if scaled > 0x7fff_ffff {
        0x7fff_ffff
    } else {
        scaled as i32
    }
}

impl Vec2<u32> {
    /// Carries a pixel of a surface of size `bounds` over to a surface of
    /// size `surface`, axis by axis.
    pub fn rescale(&self, bounds: Vec2u, surface: Vec2u) -> (r: Vec2i)
        requires
            bounds.x > 0,
            bounds.y > 0,
        ensures
            r.x == rescaled(self.x as int, bounds.x as int, surface.x as int),
            r.y == rescaled(self.y as int, bounds.y as int, surface.y as int),
            r.x >= 0,
            r.y >= 0,
    {
        Vec2 {
            x: rescale_axis(self.x, bounds.x, surface.x),
            y: rescale_axis(self.y, bounds.y, surface.y),
        }
    }
}

} // verus!
