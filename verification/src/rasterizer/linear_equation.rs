use vstd::prelude::*;
use crate::geometry::vec2::Vec2i;

verus! {

/// A point of the surface, in absolute pixel coordinates.
pub type Point = Vec2i;

/// How far, in pixels and measured along the y axis, a point may lie from a
/// line and still count as lying on it. The bound is strict: with a width of
/// one pixel, every column holds one pixel of a line where the line meets
/// the column at a whole height, and two where it does not. The width is
/// the same on every surface, whatever its size.
pub const LINE_WIDTH: i64 = 1;

/// The largest magnitude of a coordinate that the scaled evaluations accept:
/// enough for the sum of two pixel coordinates.
pub const COORDINATE_LIMIT: i64 = 0x1_0000_0000;

/// Where a point lies relative to a line. The vertical offset of the point
/// from the line is taken as line minus point; `Less` says that zero is less
/// than that offset, `Greater` that zero is greater.
#[derive(Clone, Copy, Debug, PartialEq, Eq, Structural)]
pub enum Comparison {
    Less,
    Equal,
    Greater,
}

/// The line `y = (rise * x + offset) / run`, with `run` positive: slope and
/// intercept as exact fractions over one denominator.
#[derive(Clone, Copy, Debug, PartialEq, Eq, Structural)]
pub struct LinearEquation {
    pub rise: i64,
    pub run: i64,
    pub offset: i128,
}

/// Numerator of the slope of the line from `a` to `b`. Two points above one
/// another give the slope zero.
pub open spec fn rise_between(a: Point, b: Point) -> int {
    if a.x == b.x {
        0
    } else if a.x > b.x {
        a.y - b.y
    } else {
        b.y - a.y
    }
}

/// Denominator of the slope of the line from `a` to `b`, always positive.
pub open spec fn run_between(a: Point, b: Point) -> int {
    if a.x == b.x {
        1
    } else if a.x > b.x {
        a.x - b.x
    } else {
        b.x - a.x
    }
}

/// Numerator of the intercept: the line passes through `a`.
pub open spec fn offset_between(a: Point, b: Point) -> int {
    a.y * run_between(a, b) - rise_between(a, b) * a.x
}

/// The line through `a` and `b`: it passes through `a` with the slope from
/// `a` to `b`, or with the slope zero where `b` lies above or below `a`.
pub open spec fn line_between(a: Point, b: Point) -> LinearEquation {
    LinearEquation {
        rise: rise_between(a, b) as i64,
        run: run_between(a, b) as i64,
        offset: offset_between(a, b) as i128,
    }
}

/// `|left - right| < LINE_WIDTH * unit`.
pub open spec fn nearly_equal_spec(left: int, right: int, unit: int) -> bool {
    let distance = if left >= right {
        left - right
    } else {
        right - left
    };
    distance < LINE_WIDTH * unit
}

/// The class of an offset `value` that is counted in `1 / unit` pixels.
pub open spec fn classify(value: int, unit: int) -> Comparison {
    if nearly_equal_spec(0, value, unit) {
        Comparison::Equal
    } else if 0 < value {
        Comparison::Less
    } else {
        Comparison::Greater
    }
}

/// A product is bounded by the product of the bounds of its factors.
pub proof fn lemma_product_bound(a: int, b: int, bound_a: int, bound_b: int)
    requires
        -bound_a <= a <= bound_a,
        -bound_b <= b <= bound_b,
    ensures
        -(bound_a * bound_b) <= a * b <= bound_a * bound_b,
{
    assert(-(bound_a * bound_b) <= a * b <= bound_a * bound_b) by (nonlinear_arith)
        requires
            -bound_a <= a <= bound_a,
            -bound_b <= b <= bound_b,
    ;
}

/// The fields of the line through two pixels are the fractions that define
/// it, and stay within the magnitudes of `wf`.
pub proof fn lemma_line_between(a: Point, b: Point)
    ensures
        line_between(a, b).rise == rise_between(a, b),
        line_between(a, b).run == run_between(a, b),
        line_between(a, b).offset == offset_between(a, b),
        line_between(a, b).wf(),
{
    lemma_product_bound(a.y as int, run_between(a, b), 0x8000_0000, 0xffff_ffff);
    lemma_product_bound(rise_between(a, b), a.x as int, 0xffff_ffff, 0x8000_0000);
}

/// The line through two points does not depend on which of them comes
/// first, unless one lies straight above the other.
pub proof fn lemma_line_between_symmetric(a: Point, b: Point)
    requires
        a.x != b.x || a.y == b.y,
    ensures
        line_between(a, b) == line_between(b, a),
{
    lemma_line_between(a, b);
    lemma_line_between(b, a);
    let run = run_between(a, b);
    let rise = rise_between(a, b);
    if a.x != b.x {
        assert(a.y * run - rise * a.x == b.y * run - rise * b.x) by (nonlinear_arith)
            requires
                (run == a.x - b.x && rise == a.y - b.y) || (run == b.x - a.x && rise == b.y
                    - a.y),
        ;
    }
}

/// The line between `a` and `b` passes through `a`, wherever `b` lies.
pub proof fn lemma_line_through_first(a: Point, b: Point)
    ensures
        line_between(a, b).value_at(a.x as int, a.y as int, 1) == 0,
        line_between(a, b).comparison_at(a.x as int, a.y as int, 1) == Comparison::Equal,
{
    lemma_line_between(a, b);
    let run = run_between(a, b);
    let rise = rise_between(a, b);
    let offset = offset_between(a, b);
    assert(rise * a.x + offset * 1 - run * a.y == 0) by (nonlinear_arith)
        requires
            offset == a.y * run - rise * a.x,
    ;
    assert(0 < LINE_WIDTH * (run * 1)) by (nonlinear_arith)
        requires
            run > 0,
            LINE_WIDTH == 1,
    ;
}

/// A point on the straight line through `a` and `b` has the offset zero from
/// the line between them, and so the class `Equal`, unless one of the two
/// lies straight above the other. The point is `(x / scale, y / scale)`.
pub proof fn lemma_point_on_line(a: Point, b: Point, x: int, y: int, scale: int)
    requires
        a.x != b.x,
        scale > 0,
        (b.y - a.y) * (x - scale * a.x) == (b.x - a.x) * (y - scale * a.y),
    ensures
        line_between(a, b).value_at(x, y, scale) == 0,
        line_between(a, b).comparison_at(x, y, scale) == Comparison::Equal,
{
    lemma_line_between(a, b);
    let run = run_between(a, b);
    let rise = rise_between(a, b);
    let offset = offset_between(a, b);
    let across = x - scale * a.x;
    let along = y - scale * a.y;
    assert(rise * across == rise * x - rise * (scale * a.x)) by (nonlinear_arith)
        requires
            across == x - scale * a.x,
    ;
    assert(run * along == run * y - run * (scale * a.y)) by (nonlinear_arith)
        requires
            along == y - scale * a.y,
    ;
    assert(offset * scale == (a.y * run) * scale - (rise * a.x) * scale) by (nonlinear_arith)
        requires
            offset == a.y * run - rise * a.x,
    ;
    assert((a.y * run) * scale == run * (scale * a.y)) by (nonlinear_arith);
    assert((rise * a.x) * scale == rise * (scale * a.x)) by (nonlinear_arith);
    assert(rise * x + offset * scale - run * y == rise * across - run * along);
    if a.x > b.x {
        assert(rise * across == -((b.y - a.y) * across)) by (nonlinear_arith)
            requires
                rise == -(b.y - a.y),
        ;
        assert(run * along == -((b.x - a.x) * along)) by (nonlinear_arith)
            requires
                run == -(b.x - a.x),
        ;
    }
    assert(0 < LINE_WIDTH * (run * scale)) by (nonlinear_arith)
        requires
            run > 0,
            scale > 0,
            LINE_WIDTH == 1,
    ;
}

/// Whether two values differ by less than the line width, both counted in
/// `1 / unit` pixels.
pub fn nearly_equal(left: i128, right: i128, unit: i128) -> (r: bool)
    requires
        -0x1_0000_0000_0000_0000_0000 <= left <= 0x1_0000_0000_0000_0000_0000,
        -0x1_0000_0000_0000_0000_0000 <= right <= 0x1_0000_0000_0000_0000_0000,
        0 <= unit <= 0x1_0000_0000_0000_0000_0000,
    ensures
        r == nearly_equal_spec(left as int, right as int, unit as int),
{
    let distance: i128 = if left >= right {
        left - right
    } else {
        right - left
    };
    assert(LINE_WIDTH * unit == unit);
    distance < (LINE_WIDTH as i128) * unit
}

impl LinearEquation {
    /// The magnitudes that lines between two pixels stay within, so that no
    /// evaluation overflows.
    pub open spec fn wf(self) -> bool {
        &&& 0 < self.run <= 0xffff_ffff
        &&& -0xffff_ffff <= self.rise <= 0xffff_ffff
        &&& -0x1_0000_0000_0000_0000 <= self.offset <= 0x1_0000_0000_0000_0000
    }

    /// The vertical offset of the point `(x / scale, y / scale)` from the
    /// line, line minus point, counted in `1 / (run * scale)` pixels.
    pub open spec fn value_at(self, x: int, y: int, scale: int) -> int {
        self.rise * x + self.offset * scale - self.run * y
    }

    /// The class of the point `(x / scale, y / scale)`.
    pub open spec fn comparison_at(self, x: int, y: int, scale: int) -> Comparison {
        classify(self.value_at(x, y, scale), self.run * scale)
    }

    pub fn new(rise: i64, run: i64, offset: i128) -> (r: Self)
        ensures
            r.rise == rise,
            r.run == run,
            r.offset == offset,
    {
        Self { rise, run, offset }
    }

    /// The line through `a` and `b`.
    pub fn between(a: Point, b: Point) -> (r: Self)
        ensures
            r.rise == rise_between(a, b),
            r.run == run_between(a, b),
            r.offset == offset_between(a, b),
            r == line_between(a, b),
            r.wf(),
    {
        let ax: i64 = a.x as i64;
        let ay: i64 = a.y as i64;
        let bx: i64 = b.x as i64;
        let by: i64 = b.y as i64;
        let rise: i64 = if ax == bx {
            0
        } else if ax > bx {
            ay - by
        } else {
            by - ay
        };
        let run: i64 = if ax == bx {
            1
        } else if ax > bx {
            ax - bx
        } else {
            bx - ax
        };
        proof {
            lemma_product_bound(ay as int, run as int, 0x8000_0000, 0xffff_ffff);
            lemma_product_bound(rise as int, ax as int, 0xffff_ffff, 0x8000_0000);
        }
        let offset: i128 = (ay as i128) * (run as i128) - (rise as i128) * (ax as i128);
        Self::new(rise, run, offset)
    }

    /// Evaluates the line at the point `(x / scale, y / scale)`.
    pub fn eval_scaled(&self, x: i64, y: i64, scale: i64) -> (r: i128)
        requires
            self.wf(),
            -COORDINATE_LIMIT <= x <= COORDINATE_LIMIT,
            -COORDINATE_LIMIT <= y <= COORDINATE_LIMIT,
            1 <= scale <= 2,
        ensures
            r == self.value_at(x as int, y as int, scale as int),
            -0x8_0000_0000_0000_0000 <= r <= 0x8_0000_0000_0000_0000,
    {
        proof {
            lemma_product_bound(self.rise as int, x as int, 0xffff_ffff, 0x1_0000_0000);
            lemma_product_bound(self.offset as int, scale as int, 0x1_0000_0000_0000_0000, 2);
            lemma_product_bound(self.run as int, y as int, 0xffff_ffff, 0x1_0000_0000);
        }
        (self.rise as i128) * (x as i128) + self.offset * (scale as i128) - (self.run as i128) * (
        y as i128)
    }

    /// Classifies the point `(x / scale, y / scale)`.
    pub fn compare_scaled(&self, x: i64, y: i64, scale: i64) -> (r: Comparison)
        requires
            self.wf(),
            -COORDINATE_LIMIT <= x <= COORDINATE_LIMIT,
            -COORDINATE_LIMIT <= y <= COORDINATE_LIMIT,
            1 <= scale <= 2,
        ensures
            r == self.comparison_at(x as int, y as int, scale as int),
    {
        let value: i128 = self.eval_scaled(x, y, scale);
        proof {
            lemma_product_bound(self.run as int, scale as int, 0xffff_ffff, 2);
        }
        let unit: i128 = (self.run as i128) * (scale as i128);
        if nearly_equal(0, value, unit) {
            Comparison::Equal
        } else if 0 < value {
            Comparison::Less
        } else {
            Comparison::Greater
        }
    }

    /// The vertical offset of `point` from the line, line minus point,
    /// counted in `1 / run` pixels: zero on the line, and of one sign on
    /// each side of it.
    pub fn eval_at(&self, point: Point) -> (r: i128)
        requires
            self.wf(),
        ensures
            r == self.value_at(point.x as int, point.y as int, 1),
    {
        self.eval_scaled(point.x as i64, point.y as i64, 1)
    }

    /// `Equal` where `point` lies less than the line width from the line,
    /// else the side of the line that it lies on.
    pub fn compare_to(&self, point: Point) -> (r: Comparison)
        requires
            self.wf(),
        ensures
            r == self.comparison_at(point.x as int, point.y as int, 1),
    {
        self.compare_scaled(point.x as i64, point.y as i64, 1)
    }
}

} // verus!
