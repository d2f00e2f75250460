use vstd::prelude::*;
use crate::rasterizer::linear_equation::{
    lemma_line_between,
    lemma_line_between_symmetric,
    lemma_line_through_first,
    lemma_point_on_line,
    line_between,
    Comparison,
    LinearEquation,
    Point,
};
use crate::rasterizer::triangle2d::{
    center_x2,
    center_y2,
    greatest,
    least,
    lemma_sorted_points,
    ordered_pair,
    sorted_points,
    triangle_model,
    Axis,
    TriangleModel,
};

verus! {

/// Whether `second` holds the three entries of `first` in some order.
pub open spec fn rearranged(first: Seq<Point>, second: Seq<Point>) -> bool {
    let a = first[0];
    let b = first[1];
    let c = first[2];
    &&& first.len() == 3
    &&& second.len() == 3
    &&& {
        ||| second == seq![a, b, c]
        ||| second == seq![a, c, b]
        ||| second == seq![b, a, c]
        ||| second == seq![b, c, a]
        ||| second == seq![c, a, b]
        ||| second == seq![c, b, a]
    }
}

/// The triangle of any three points is well formed: its lines stay within
/// their magnitudes, and the first corner of its bounding box is neither
/// right of nor below the second.
pub proof fn lemma_triangle_model_wf(points: Seq<Point>)
    requires
        points.len() == 3,
    ensures
        triangle_model(points).wf(),
        triangle_model(points).top_left.x <= triangle_model(points).bottom_right.x,
        triangle_model(points).top_left.y <= triangle_model(points).bottom_right.y,
{
    lemma_sorted_points(points, Axis::X);
    lemma_sorted_points(points, Axis::Y);
    let by_y = sorted_points(points, Axis::Y);
    lemma_line_between(by_y[0], by_y[1]);
    lemma_line_between(by_y[0], by_y[2]);
    lemma_line_between(by_y[1], by_y[2]);
}

/// The centre of the bounding box of any three points is within the
/// bounding lines of their triangle.
pub proof fn lemma_center_within_bounding_lines(points: Seq<Point>)
    requires
        points.len() == 3,
    ensures
        triangle_model(points).within_bounding_lines(center_x2(points), center_y2(points), 2),
{
}

/// The line of the edge between two corners: it starts at the upper one.
pub open spec fn edge_line(p: Point, q: Point) -> LinearEquation {
    if p.y <= q.y {
        line_between(p, q)
    } else {
        line_between(q, p)
    }
}

/// Whether the second three lines are the first three in some order.
pub open spec fn same_lines(
    a: LinearEquation,
    b: LinearEquation,
    c: LinearEquation,
    d: LinearEquation,
    e: LinearEquation,
    f: LinearEquation,
) -> bool {
    ||| (d == a && e == b && f == c)
    ||| (d == a && e == c && f == b)
    ||| (d == b && e == a && f == c)
    ||| (d == b && e == c && f == a)
    ||| (d == c && e == a && f == b)
    ||| (d == c && e == b && f == a)
}

/// An edge has one line, whichever of its ends is named first.
pub proof fn lemma_edge_line_symmetric(p: Point, q: Point)
    ensures
        edge_line(p, q) == edge_line(q, p),
{
    if p.y == q.y {
        lemma_line_between_symmetric(p, q);
    }
}

/// The bounding lines of a triangle are the lines of its three edges, and
/// each expects the class of the centre of the bounding box.
pub proof fn lemma_lines_are_edges(points: Seq<Point>)
    requires
        points.len() == 3,
    ensures
        ({
            let lines = triangle_model(points).lines;
            &&& lines.len() == 3
            &&& same_lines(
                edge_line(points[0], points[1]),
                edge_line(points[0], points[2]),
                edge_line(points[1], points[2]),
                lines[0].equation,
                lines[1].equation,
                lines[2].equation,
            )
            &&& forall|k: int|
                0 <= k < 3 ==> (#[trigger] lines[k]).expected_comparison
                    == lines[k].equation.comparison_at(center_x2(points), center_y2(points), 2)
        }),
{
    let a = points[0];
    let b = points[1];
    let c = points[2];
    lemma_sorted_points(points, Axis::Y);
    lemma_edge_line_symmetric(a, b);
    lemma_edge_line_symmetric(a, c);
    lemma_edge_line_symmetric(b, c);
    let by_y = sorted_points(points, Axis::Y);
    assert(by_y[0].y <= by_y[1].y <= by_y[2].y);
    let first = ordered_pair(points, 0, 1, Axis::Y);
    let second = ordered_pair(first, 1, 2, Axis::Y);
    assert(first =~= seq![a, b, c] || first =~= seq![b, a, c]);
    assert(by_y == ordered_pair(second, 0, 1, Axis::Y));
}

/// The centre of the bounding box is on the bounding lines of a triangle
/// exactly where one of them expects `Equal`: an outline passes through the
/// centre of no other triangle.
pub proof fn lemma_center_on_bounding_lines(points: Seq<Point>)
    requires
        points.len() == 3,
    ensures
        ({
            let triangle = triangle_model(points);
            triangle.on_bounding_lines(center_x2(points), center_y2(points), 2) <==> {
                ||| triangle.lines[0].expected_comparison == Comparison::Equal
                ||| triangle.lines[1].expected_comparison == Comparison::Equal
                ||| triangle.lines[2].expected_comparison == Comparison::Equal
            }
        }),
{
}

/// Three lines taken in two orders are, one order against the other, the
/// same lines.
proof fn lemma_same_lines_joined(
    a: LinearEquation,
    b: LinearEquation,
    c: LinearEquation,
    d: LinearEquation,
    e: LinearEquation,
    f: LinearEquation,
    g: LinearEquation,
    h: LinearEquation,
    i: LinearEquation,
)
    requires
        same_lines(a, b, c, d, e, f),
        same_lines(a, b, c, g, h, i),
    ensures
        same_lines(d, e, f, g, h, i),
{
}

/// The edges of three points are the same lines in whatever order the
/// points come.
proof fn lemma_edges_rearranged(first: Seq<Point>, second: Seq<Point>)
    requires
        rearranged(first, second),
    ensures
        same_lines(
            edge_line(first[0], first[1]),
            edge_line(first[0], first[2]),
            edge_line(first[1], first[2]),
            edge_line(second[0], second[1]),
            edge_line(second[0], second[2]),
            edge_line(second[1], second[2]),
        ),
{
    let a = first[0];
    let b = first[1];
    let c = first[2];
    lemma_edge_line_symmetric(a, b);
    lemma_edge_line_symmetric(a, c);
    lemma_edge_line_symmetric(b, c);
}

/// The least and the greatest coordinate of three points do not depend on
/// the order of the points.
proof fn lemma_extremes_rearranged(first: Seq<Point>, second: Seq<Point>, axis: Axis)
    requires
        rearranged(first, second),
    ensures
        least(first, axis) == least(second, axis),
        greatest(first, axis) == greatest(second, axis),
{
}

/// Three points have the same bounding box, and the same centre of it, in
/// whatever order they come.
proof fn lemma_box_rearranged(first: Seq<Point>, second: Seq<Point>)
    requires
        rearranged(first, second),
    ensures
        triangle_model(first).top_left == triangle_model(second).top_left,
        triangle_model(first).bottom_right == triangle_model(second).bottom_right,
        center_x2(first) == center_x2(second),
        center_y2(first) == center_y2(second),
{
    lemma_extremes_rearranged(first, second, Axis::X);
    lemma_extremes_rearranged(first, second, Axis::Y);
}

/// Two triangles whose bounding lines are the same lines, with the same
/// expectations, admit the same points and are touched at the same points.
proof fn lemma_same_lines_same_answers(
    first: TriangleModel,
    second: TriangleModel,
    x2: int,
    y2: int,
    x: int,
    y: int,
    scale: int,
)
    requires
        first.lines.len() == 3,
        second.lines.len() == 3,
        same_lines(
            first.lines[0].equation,
            first.lines[1].equation,
            first.lines[2].equation,
            second.lines[0].equation,
            second.lines[1].equation,
            second.lines[2].equation,
        ),
        forall|k: int|
            0 <= k < 3 ==> (#[trigger] first.lines[k]).expected_comparison
                == first.lines[k].equation.comparison_at(x2, y2, 2),
        forall|k: int|
            0 <= k < 3 ==> (#[trigger] second.lines[k]).expected_comparison
                == second.lines[k].equation.comparison_at(x2, y2, 2),
    ensures
        first.within_bounding_lines(x, y, scale) == second.within_bounding_lines(x, y, scale),
        first.on_bounding_lines(x, y, scale) == second.on_bounding_lines(x, y, scale),
{
    let a = first.lines[0];
    let b = first.lines[1];
    let c = first.lines[2];
    let d = second.lines[0];
    let e = second.lines[1];
    let f = second.lines[2];
    assert(d == a || d == b || d == c);
    assert(e == a || e == b || e == c);
    assert(f == a || f == b || f == c);
}

/// Three points give the same triangle in whatever order they come: the same
/// bounding box, and at every point the same answer to whether it is within
/// the bounding lines and to whether it is on them. The point is
/// `(x / scale, y / scale)`.
pub proof fn lemma_order_independent(
    first: Seq<Point>,
    second: Seq<Point>,
    x: int,
    y: int,
    scale: int,
)
    requires
        rearranged(first, second),
    ensures
        triangle_model(first).top_left == triangle_model(second).top_left,
        triangle_model(first).bottom_right == triangle_model(second).bottom_right,
        triangle_model(first).within_bounding_lines(x, y, scale) == triangle_model(
            second,
        ).within_bounding_lines(x, y, scale),
        triangle_model(first).on_bounding_lines(x, y, scale) == triangle_model(
            second,
        ).on_bounding_lines(x, y, scale),
{
    let one = triangle_model(first);
    let two = triangle_model(second);
    lemma_box_rearranged(first, second);
    lemma_edges_rearranged(first, second);
    lemma_lines_are_edges(first);
    lemma_lines_are_edges(second);
    lemma_same_lines_joined(
        edge_line(first[0], first[1]),
        edge_line(first[0], first[2]),
        edge_line(first[1], first[2]),
        one.lines[0].equation,
        one.lines[1].equation,
        one.lines[2].equation,
        two.lines[0].equation,
        two.lines[1].equation,
        two.lines[2].equation,
    );
    lemma_same_lines_same_answers(one, two, center_x2(first), center_y2(first), x, y, scale);
}

/// A point on the straight line through two corners of a triangle is on its
/// bounding lines, unless one of the two corners lies straight above the
/// other. The corners are `points[i]` and `points[j]`, the point is
/// `(x / scale, y / scale)`.
pub proof fn lemma_point_on_edge_is_on_bounding_lines(
    points: Seq<Point>,
    i: int,
    j: int,
    x: int,
    y: int,
    scale: int,
)
    requires
        points.len() == 3,
        0 <= i < 3,
        0 <= j < 3,
        points[i].x != points[j].x,
        scale > 0,
        (points[j].y - points[i].y) * (x - scale * points[i].x) == (points[j].x - points[i].x)
            * (y - scale * points[i].y),
    ensures
        triangle_model(points).on_bounding_lines(x, y, scale),
{
    let a = points[i];
    let b = points[j];
    lemma_point_on_line(a, b, x, y, scale);
    lemma_line_between_symmetric(a, b);
    assert(edge_line(a, b).comparison_at(x, y, scale) == Comparison::Equal);
    lemma_edge_line_symmetric(a, b);
    lemma_lines_are_edges(points);
}

/// The upper end of an edge of a triangle is on its bounding lines, whatever
/// the edge. The ends are `points[i]` and `points[j]`.
pub proof fn lemma_upper_end_on_bounding_lines(points: Seq<Point>, i: int, j: int)
    requires
        points.len() == 3,
        0 <= i < 3,
        0 <= j < 3,
        i != j,
        points[i].y <= points[j].y,
    ensures
        triangle_model(points).on_bounding_lines(points[i].x as int, points[i].y as int, 1),
{
    let a = points[i];
    let b = points[j];
    lemma_line_through_first(a, b);
    assert(edge_line(a, b).comparison_at(a.x as int, a.y as int, 1) == Comparison::Equal);
    lemma_edge_line_symmetric(a, b);
    lemma_lines_are_edges(points);
}

/// The midpoint of an edge of a triangle is on its bounding lines, unless
/// one end of the edge lies straight above the other.
pub proof fn lemma_edge_midpoint_on_bounding_lines(points: Seq<Point>, i: int, j: int)
    requires
        points.len() == 3,
        0 <= i < 3,
        0 <= j < 3,
        points[i].x != points[j].x,
    ensures
        triangle_model(points).on_bounding_lines(
            points[i].x + points[j].x,
            points[i].y + points[j].y,
            2,
        ),
{
    let a = points[i];
    let b = points[j];
    assert((b.y - a.y) * ((a.x + b.x) - 2 * a.x) == (b.x - a.x) * ((a.y + b.y) - 2 * a.y))
        by (nonlinear_arith);
    lemma_point_on_edge_is_on_bounding_lines(points, i, j, a.x + b.x, a.y + b.y, 2);
}

} // verus!
