use vstd::prelude::*;
use crate::geometry::vec2::Vec2;
use crate::rasterizer::linear_equation::{line_between, Comparison, LinearEquation, Point};

verus! {

/// The coordinate by which points are ordered.
#[derive(Clone, Copy, Debug, PartialEq, Eq, Structural)]
pub enum Axis {
    X,
    Y,
}

/// The coordinate of `point` along `axis`.
pub open spec fn coordinate(point: Point, axis: Axis) -> int {
    match axis {
        Axis::X => point.x as int,
        Axis::Y => point.y as int,
    }
}

/// `points` with the entries at `i` and `j` exchanged where the first is the
/// greater along `axis`.
pub open spec fn ordered_pair(points: Seq<Point>, i: int, j: int, axis: Axis) -> Seq<Point> {
    if coordinate(points[i], axis) > coordinate(points[j], axis) {
        points.update(i, points[j]).update(j, points[i])
    } else {
        points
    }
}

/// Three points in ascending order along `axis`; points that are equal along
/// it keep the order they came in.
pub open spec fn sorted_points(points: Seq<Point>, axis: Axis) -> Seq<Point> {
    ordered_pair(ordered_pair(ordered_pair(points, 0, 1, axis), 1, 2, axis), 0, 1, axis)
}

/// One edge of a triangle: its line, and the class that the points on the
/// inner side of it have.
#[derive(Clone, Copy, Debug, PartialEq, Eq, Structural)]
pub struct TriangleBoundingLine {
    pub equation: LinearEquation,
    pub expected_comparison: Comparison,
}

impl TriangleBoundingLine {
    /// Whether the point `(x / scale, y / scale)` is on the inner side of
    /// the line or on the line itself.
    pub open spec fn admits(self, x: int, y: int, scale: int) -> bool {
        let comparison = self.equation.comparison_at(x, y, scale);
        comparison == self.expected_comparison || comparison == Comparison::Equal
    }

    /// Whether the point `(x / scale, y / scale)` is on the line.
    pub open spec fn touches(self, x: int, y: int, scale: int) -> bool {
        self.equation.comparison_at(x, y, scale) == Comparison::Equal
    }

    /// A bounding line that expects `Equal` until it is told otherwise.
    pub fn new(equation: LinearEquation) -> (r: Self)
        ensures
            r.equation == equation,
            r.expected_comparison == Comparison::Equal,
    {
        Self { equation, expected_comparison: Comparison::Equal }
    }
}

/// What a triangle is to its contracts: the bounding box and the three
/// bounding lines.
pub struct TriangleModel {
    pub top_left: Point,
    pub bottom_right: Point,
    pub lines: Seq<TriangleBoundingLine>,
}

impl TriangleModel {
    /// Three lines within their magnitudes, and a bounding box whose first
    /// corner is neither right of nor below its second.
    pub open spec fn wf(self) -> bool {
        &&& self.lines.len() == 3
        &&& self.lines[0].equation.wf()
        &&& self.lines[1].equation.wf()
        &&& self.lines[2].equation.wf()
        &&& self.top_left.x <= self.bottom_right.x
        &&& self.top_left.y <= self.bottom_right.y
    }

    /// Whether the point `(x / scale, y / scale)` is admitted by all three
    /// bounding lines.
    pub open spec fn within_bounding_lines(self, x: int, y: int, scale: int) -> bool {
        &&& self.lines[0].admits(x, y, scale)
        &&& self.lines[1].admits(x, y, scale)
        &&& self.lines[2].admits(x, y, scale)
    }

    /// Whether the point `(x / scale, y / scale)` is on one of the three
    /// bounding lines.
    pub open spec fn on_bounding_lines(self, x: int, y: int, scale: int) -> bool {
        ||| self.lines[0].touches(x, y, scale)
        ||| self.lines[1].touches(x, y, scale)
        ||| self.lines[2].touches(x, y, scale)
    }
}

/// The least of three numbers.
pub open spec fn min3(a: int, b: int, c: int) -> int {
    if a <= b && a <= c {
        a
    } else if b <= c {
        b
    } else {
        c
    }
}

/// The greatest of three numbers.
pub open spec fn max3(a: int, b: int, c: int) -> int {
    if a >= b && a >= c {
        a
    } else if b >= c {
        b
    } else {
        c
    }
}

/// The least coordinate of three points along `axis`.
pub open spec fn least(points: Seq<Point>, axis: Axis) -> int {
    min3(coordinate(points[0], axis), coordinate(points[1], axis), coordinate(points[2], axis))
}

/// The greatest coordinate of three points along `axis`.
pub open spec fn greatest(points: Seq<Point>, axis: Axis) -> int {
    max3(coordinate(points[0], axis), coordinate(points[1], axis), coordinate(points[2], axis))
}

/// Twice the x coordinate of the centre of the bounding box of `points`.
pub open spec fn center_x2(points: Seq<Point>) -> int {
    least(points, Axis::X) + greatest(points, Axis::X)
}

/// Twice the y coordinate of the centre of the bounding box of `points`.
pub open spec fn center_y2(points: Seq<Point>) -> int {
    least(points, Axis::Y) + greatest(points, Axis::Y)
}

/// The line through `a` and `b`, expecting the class of the centre
/// `(x2 / 2, y2 / 2)`.
pub open spec fn bounding_line(a: Point, b: Point, x2: int, y2: int) -> TriangleBoundingLine {
    let equation = line_between(a, b);
    TriangleBoundingLine { equation, expected_comparison: equation.comparison_at(x2, y2, 2) }
}

/// The triangle of three points. Its bounding box spans the least and the
/// greatest of their coordinates. With the points ordered from top to
/// bottom, its lines join top and middle, top and bottom, middle and bottom;
/// each expects the class of the centre of the bounding box.
pub open spec fn triangle_model(points: Seq<Point>) -> TriangleModel {
    let by_y = sorted_points(points, Axis::Y);
    let x2 = center_x2(points);
    let y2 = center_y2(points);
    TriangleModel {
        top_left: Vec2 { x: least(points, Axis::X) as i32, y: least(points, Axis::Y) as i32 },
        bottom_right: Vec2 {
            x: greatest(points, Axis::X) as i32,
            y: greatest(points, Axis::Y) as i32,
        },
        lines: seq![
            bounding_line(by_y[0], by_y[1], x2, y2),
            bounding_line(by_y[0], by_y[2], x2, y2),
            bounding_line(by_y[1], by_y[2], x2, y2),
        ],
    }
}

fn coordinate_of(point: Point, axis: Axis) -> (r: i32)
    ensures
        r == coordinate(point, axis),
{
    match axis {
        Axis::X => point.x,
        Axis::Y => point.y,
    }
}

fn order_pair(points: &mut [Point; 3], i: usize, j: usize, axis: Axis)
    requires
        i < 3,
        j < 3,
    ensures
        final(points)@ == ordered_pair(old(points)@, i as int, j as int, axis),
{
    let first = points[i];
    let second = points[j];
    if coordinate_of(first, axis) > coordinate_of(second, axis) {
        points[i] = second;
        points[j] = first;
    }
    assert(points@ =~= ordered_pair(old(points)@, i as int, j as int, axis));
}

/// Orders three points along `axis`, ascending, by three exchanges of
/// neighbours.
pub fn sort_points(points: &mut [Point; 3], axis: Axis)
    ensures
        final(points)@ == sorted_points(old(points)@, axis),
        coordinate(final(points)[0], axis) <= coordinate(final(points)[1], axis),
        coordinate(final(points)[1], axis) <= coordinate(final(points)[2], axis),
        final(points)@.to_multiset() == old(points)@.to_multiset(),
{
    order_pair(points, 0, 1, axis);
    order_pair(points, 1, 2, axis);
    order_pair(points, 0, 1, axis);
    proof {
        lemma_sorted_points(old(points)@, axis);
    }
}

/// Sorting three points puts them in ascending order and neither adds nor
/// drops a point.
pub proof fn lemma_sorted_points(points: Seq<Point>, axis: Axis)
    requires
        points.len() == 3,
    ensures
        ({
            let sorted = sorted_points(points, axis);
            &&& sorted.len() == 3
            &&& coordinate(sorted[0], axis) <= coordinate(sorted[1], axis)
            &&& coordinate(sorted[1], axis) <= coordinate(sorted[2], axis)
            &&& coordinate(sorted[0], axis) == least(points, axis)
            &&& coordinate(sorted[2], axis) == greatest(points, axis)
            &&& least(sorted, axis) == least(points, axis)
            &&& greatest(sorted, axis) == greatest(points, axis)
            &&& sorted.to_multiset() == points.to_multiset()
        }),
{
    let a = points[0];
    let b = points[1];
    let c = points[2];
    let sorted = sorted_points(points, axis);
    assert(points =~= seq![a, b, c]);
    lemma_multiset_of_three(a, b, c);
    lemma_multiset_of_three(sorted[0], sorted[1], sorted[2]);
    assert(sorted =~= seq![sorted[0], sorted[1], sorted[2]]);
    assert(sorted.to_multiset() =~= points.to_multiset());
}

/// Three points ordered along one axis have the least and greatest
/// coordinates of the unordered ones along the other axis too.
proof fn lemma_least_is_shared(points: Seq<Point>, sorted: Seq<Point>)
    requires
        points.len() == 3,
        sorted == sorted_points(points, Axis::Y),
    ensures
        least(sorted, Axis::X) == least(points, Axis::X),
        greatest(sorted, Axis::X) == greatest(points, Axis::X),
{
}

proof fn lemma_multiset_of_three(a: Point, b: Point, c: Point)
    ensures
        seq![a, b, c].to_multiset() =~= vstd::multiset::Multiset::empty().insert(a).insert(
            b,
        ).insert(c),
{
    broadcast use vstd::seq_lib::group_to_multiset_ensures;

    let empty = Seq::<Point>::empty();
    assert(seq![a, b, c] =~= empty.push(a).push(b).push(c));
}

/// A triangle prepared for drawing: its bounding box, and its three edges
/// as bounding lines.
#[derive(Clone, Copy, Debug)]
pub struct Triangle2d {
    top_left: Point,
    bottom_right: Point,
    lines: [TriangleBoundingLine; 3],
}

impl View for Triangle2d {
    type V = TriangleModel;

    closed spec fn view(&self) -> TriangleModel {
        TriangleModel {
            top_left: self.top_left,
            bottom_right: self.bottom_right,
            lines: self.lines@,
        }
    }
}

impl Triangle2d {
    /// Holds of every triangle: no value of the type is made but by `new`.
    #[verifier::type_invariant]
    pub open spec fn wf(self) -> bool {
        self@.wf()
    }

    /// The triangle of three points, given in any order.
    pub fn new(points: [Point; 3]) -> (r: Self)
        ensures
            r@ == triangle_model(points@),
            r@.top_left.x == min3(points[0].x as int, points[1].x as int, points[2].x as int),
            r@.top_left.y == min3(points[0].y as int, points[1].y as int, points[2].y as int),
            r@.bottom_right.x == max3(points[0].x as int, points[1].x as int, points[2].x as int),
            r@.bottom_right.y == max3(points[0].y as int, points[1].y as int, points[2].y as int),
            r@.top_left.x <= r@.bottom_right.x,
            r@.top_left.y <= r@.bottom_right.y,
    {
        let ghost model = triangle_model(points@);
        let mut sorted = points;
        sort_points(&mut sorted, Axis::Y);
        let top = sorted[0];
        let middle = sorted[1];
        let bottom = sorted[2];

        proof {
            lemma_sorted_points(points@, Axis::Y);
            lemma_sorted_points(sorted@, Axis::X);
            lemma_least_is_shared(points@, sorted@);
        }
        sort_points(&mut sorted, Axis::X);
        let left = sorted[0];
        let right = sorted[2];

        let top_left = Point::new(left.x, top.y);
        let bottom_right = Point::new(right.x, bottom.y);

        let mut lines = [
            TriangleBoundingLine::new(LinearEquation::between(top, middle)),
            TriangleBoundingLine::new(LinearEquation::between(top, bottom)),
            TriangleBoundingLine::new(LinearEquation::between(middle, bottom)),
        ];

        let center_x2: i64 = left.x as i64 + right.x as i64;
        let center_y2: i64 = top.y as i64 + bottom.y as i64;

        let mut i: usize = 0;
        while i < 3
            invariant
                0 <= i <= 3,
                model == triangle_model(points@),
                center_x2 == self::center_x2(points@),
                center_y2 == self::center_y2(points@),
                -0x1_0000_0000 <= center_x2 <= 0x1_0000_0000,
                -0x1_0000_0000 <= center_y2 <= 0x1_0000_0000,
                forall|j: int| 0 <= j < 3 ==> (#[trigger] lines[j]).equation == model.lines[j].equation,
                forall|j: int| 0 <= j < 3 ==> (#[trigger] lines[j]).equation.wf(),
                forall|j: int|
                    0 <= j < i ==> (#[trigger] lines[j]).expected_comparison
                        == model.lines[j].expected_comparison,
            decreases 3 - i,
        {
            let mut line = lines[i];
            line.expected_comparison = line.equation.compare_scaled(center_x2, center_y2, 2);
            lines[i] = line;
            i += 1;
        }

        let r = Self { top_left, bottom_right, lines };
        proof {
            assert(r@.lines =~= model.lines);
        }
        r
    }

    /// The corner of the bounding box with the least coordinates.
    pub fn top_left(&self) -> (r: Point)
        ensures
            r == self@.top_left,
    {
        self.top_left
    }

    /// The corner of the bounding box with the greatest coordinates.
    pub fn bottom_right(&self) -> (r: Point)
        ensures
            r == self@.bottom_right,
    {
        self.bottom_right
    }

    /// Whether every bounding line has `point` on its inner side or on
    /// itself.
    pub fn point_within_bounding_lines(&self, point: Point) -> (r: bool)
        ensures
            r == self@.within_bounding_lines(point.x as int, point.y as int, 1),
    {
        proof {
            use_type_invariant(self);
        }
        let mut within_lines = true;
        let mut i: usize = 0;
        while i < 3
            invariant
                0 <= i <= 3,
                self@.wf(),
                within_lines == (forall|j: int|
                    0 <= j < i ==> (#[trigger] self@.lines[j]).admits(
                        point.x as int,
                        point.y as int,
                        1,
                    )),
            decreases 3 - i,
        {
            let line = self.lines[i];
            let comparison = line.equation.compare_to(point);
            let admitted = comparison == line.expected_comparison || comparison
                == Comparison::Equal;
            within_lines = within_lines && admitted;
            i += 1;
        }
        within_lines
    }

    /// Whether `point` is on one of the bounding lines.
    pub fn point_on_bounding_lines(&self, point: Point) -> (r: bool)
        ensures
            r == self@.on_bounding_lines(point.x as int, point.y as int, 1),
    {
        proof {
            use_type_invariant(self);
        }
        let mut on_lines = false;
        let mut i: usize = 0;
        while i < 3
            invariant
                0 <= i <= 3,
                self@.wf(),
                on_lines == (exists|j: int|
                    0 <= j < i && (#[trigger] self@.lines[j]).touches(
                        point.x as int,
                        point.y as int,
                        1,
                    )),
            decreases 3 - i,
        {
            let line = self.lines[i];
            let touched = line.equation.compare_to(point) == Comparison::Equal;
            on_lines = on_lines || touched;
            i += 1;
        }
        on_lines
    }
}

} // verus!
