use vstd::prelude::*;
use crate::displays::display::Display;
use crate::geometry::vec2::{Vec2, Vec2u};
use crate::geometry::vec4::Color;
use crate::rasterizer::linear_equation::Point;
use crate::rasterizer::triangle2d::{Triangle2d, TriangleModel};

verus! {

/// How a triangle is painted, and in which colour.
#[derive(Clone, Copy, Debug, PartialEq, Eq, Structural)]
pub enum Fill {
    /// Every pixel within the bounding lines.
    Solid(Color),
    /// The pixels on the bounding lines.
    Wireframe(Color),
}

/// The colour that `fill` gives `point`, if it paints it at all.
pub open spec fn fill_at_spec(triangle: TriangleModel, fill: Fill, point: Point) -> Option<Color> {
    match fill {
        Fill::Solid(color) => if triangle.within_bounding_lines(
            point.x as int,
            point.y as int,
            1,
        ) {
            Some(color)
        } else {
            None
        },
        Fill::Wireframe(color) => if triangle.on_bounding_lines(
            point.x as int,
            point.y as int,
            1,
        ) {
            Some(color)
        } else {
            None
        },
    }
}

/// The writes of row `y` for the columns from the left edge of the bounding
/// box up to, not including, `upto`, from left to right.
pub open spec fn row_writes(triangle: TriangleModel, fill: Fill, y: int, upto: int) -> Seq<
    (Point, Color),
>
    decreases upto - triangle.top_left.x,
{
    if upto <= triangle.top_left.x {
        Seq::empty()
    } else {
        let before = row_writes(triangle, fill, y, upto - 1);
        let point = Vec2 { x: (upto - 1) as i32, y: y as i32 };
        match fill_at_spec(triangle, fill, point) {
            Some(color) => before.push((point, color)),
            None => before,
        }
    }
}

/// The writes of the rows from the top edge of the bounding box up to, not
/// including, `upto`, from top to bottom; each row spans the whole width of
/// the box, both edges included.
pub open spec fn scan_writes(triangle: TriangleModel, fill: Fill, upto: int) -> Seq<(Point, Color)>
    decreases upto - triangle.top_left.y,
{
    if upto <= triangle.top_left.y {
        Seq::empty()
    } else {
        scan_writes(triangle, fill, upto - 1) + row_writes(
            triangle,
            fill,
            upto - 1,
            triangle.bottom_right.x + 1,
        )
    }
}

/// The writes that paint a triangle: its bounding box row by row, both
/// edges included, with the pixels that `fill` paints.
pub open spec fn triangle_writes(triangle: TriangleModel, fill: Fill) -> Seq<(Point, Color)> {
    scan_writes(triangle, fill, triangle.bottom_right.y + 1)
}

/// The colour that `fill` gives `point`, if it paints it at all.
pub fn fill_at(triangle: &Triangle2d, fill: Fill, point: Point) -> (r: Option<Color>)
    ensures
        r == fill_at_spec(triangle@, fill, point),
{
    match fill {
        Fill::Solid(color) => {
            if triangle.point_within_bounding_lines(point) {
                Some(color)
            } else {
                None
            }
        },
        Fill::Wireframe(color) => {
            if triangle.point_on_bounding_lines(point) {
                Some(color)
            } else {
                None
            }
        },
    }
}

/// A display together with the record of what was asked of it: every pixel
/// that goes to the display through the rasterizer is entered in the record
/// as it is sent.
pub struct Rasterizer<D: Display> {
    display: D,
    written: Ghost<Seq<(Point, Color)>>,
}

impl<D: Display> Rasterizer<D> {
    /// The pixels sent to the display so far, oldest first.
    pub closed spec fn written(&self) -> Seq<(Point, Color)> {
        self.written@
    }

    /// The display that the pixels go to.
    pub closed spec fn display_spec(&self) -> D {
        self.display
    }

    /// A rasterizer that has sent nothing yet.
    pub fn new(display: D) -> (r: Self)
        ensures
            r.written() == Seq::<(Point, Color)>::empty(),
            r.display_spec() == display,
    {
        Rasterizer { display, written: Ghost(Seq::empty()) }
    }

    /// The display that the pixels go to.
    pub fn display(&self) -> (r: &D)
        ensures
            *r == self.display_spec(),
    {
        &self.display
    }

    /// The display, to do with it what is no painting of triangles; what is
    /// sent to it directly is not entered in the record.
    pub fn display_mut(&mut self) -> (r: &mut D)
        ensures
            *r == old(self).display_spec(),
            final(self).display_spec() == *final(r),
            final(self).written() == old(self).written(),
    {
        &mut self.display
    }

    /// Hands the display back.
    pub fn into_display(self) -> (r: D)
        ensures
            r == self.display_spec(),
    {
        self.display
    }

    /// Width and height of the display, as it reports them now: the answer
    /// is one that `size` of the display gives when asked on this display.
    pub fn size(&self) -> (r: Vec2u)
        ensures
            call_ensures(D::size, (&self.display_spec(),), r),
    {
        self.display.size()
    }

    /// Sends one pixel to the display.
    pub fn draw_pixel(&mut self, position: Point, color: Color)
        ensures
            final(self).written() == old(self).written().push((position, color)),
    {
        self.display.draw_pixel(position, color);
        proof {
            self.written@ = self.written@.push((position, color));
        }
    }

    fn draw_internal(&mut self, triangle: &Triangle2d, fill: Fill)
        ensures
            final(self).written() == old(self).written() + triangle_writes(triangle@, fill),
    {
        let top: i64 = triangle.top_left().y as i64;
        let bottom: i64 = triangle.bottom_right().y as i64;
        let left: i64 = triangle.top_left().x as i64;
        let right: i64 = triangle.bottom_right().x as i64;
        let ghost model = triangle@;
        let ghost before = self.written();
        proof {
            use_type_invariant(triangle);
        }

        let mut y: i64 = top;
        assert(self.written() =~= before + scan_writes(model, fill, y as int));
        while y <= bottom
            invariant
                model == triangle@,
                top == model.top_left.y,
                bottom == model.bottom_right.y,
                left == model.top_left.x,
                right == model.bottom_right.x,
                top <= y <= bottom + 1,
                left <= right,
                self.written() == before + scan_writes(model, fill, y as int),
            decreases bottom + 1 - y,
        {
            let ghost rows = self.written();
            let mut x: i64 = left;
            assert(self.written() =~= rows + row_writes(model, fill, y as int, x as int));
            while x <= right
                invariant
                    model == triangle@,
                    left == model.top_left.x,
                    right == model.bottom_right.x,
                    left <= x <= right + 1,
                    -0x8000_0000 <= y <= 0x7fff_ffff,
                    self.written() == rows + row_writes(model, fill, y as int, x as int),
                decreases right + 1 - x,
            {
                let point = Point::new(x as i32, y as i32);
                let ghost row = row_writes(model, fill, y as int, x as int);
                match fill_at(triangle, fill, point) {
                    Some(color) => {
                        self.draw_pixel(point, color);
                        assert(self.written() =~= rows + row.push((point, color)));
                    },
                    None => {},
                }
                x += 1;
            }
            y += 1;
            assert(self.written() =~= before + scan_writes(model, fill, y as int));
        }
    }

    /// Paints `triangle`: the bounding box is walked row by row, both edges
    /// included, and each pixel that `fill` paints is sent to the display in
    /// its colour.
    pub fn draw(&mut self, triangle: Triangle2d, fill: Fill)
        ensures
            final(self).written() == old(self).written() + triangle_writes(triangle@, fill),
    {
        self.draw_internal(&triangle, fill);
    }
}

} // verus!
