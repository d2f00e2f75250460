use vstd::prelude::*;
use crate::geometry::vec4::Color;
use crate::rasterizer::draw::{fill_at_spec, row_writes, scan_writes, triangle_writes, Fill};
use crate::rasterizer::linear_equation::Point;
use crate::rasterizer::triangle2d::TriangleModel;

verus! {

/// Whether `point` is in the bounding box of `triangle`, edges included.
pub open spec fn in_bounding_box(triangle: TriangleModel, point: Point) -> bool {
    &&& triangle.top_left.x <= point.x <= triangle.bottom_right.x
    &&& triangle.top_left.y <= point.y <= triangle.bottom_right.y
}

proof fn lemma_push_contains<T>(items: Seq<T>, last: T, item: T)
    ensures
        items.push(last).contains(item) <==> items.contains(item) || item == last,
{
    let pushed = items.push(last);
    if items.contains(item) {
        let i = choose|i: int| 0 <= i < items.len() && items[i] == item;
        assert(pushed[i] == item);
    }
    if item == last {
        assert(pushed[items.len() as int] == item);
    }
    if pushed.contains(item) {
        let i = choose|i: int| 0 <= i < pushed.len() && pushed[i] == item;
        if i < items.len() {
            assert(items[i] == item);
        }
    }
}

proof fn lemma_add_contains<T>(first: Seq<T>, second: Seq<T>, item: T)
    ensures
        (first + second).contains(item) <==> first.contains(item) || second.contains(item),
{
    let both = first + second;
    if first.contains(item) {
        let i = choose|i: int| 0 <= i < first.len() && first[i] == item;
        assert(both[i] == item);
    }
    if second.contains(item) {
        let i = choose|i: int| 0 <= i < second.len() && second[i] == item;
        assert(both[first.len() + i] == item);
    }
    if both.contains(item) {
        let i = choose|i: int| 0 <= i < both.len() && both[i] == item;
        if i < first.len() {
            assert(first[i] == item);
        } else {
            assert(second[i - first.len()] == item);
        }
    }
}

/// A row holds a write exactly for each of its pixels that the fill paints,
/// in the colour of the fill.
pub proof fn lemma_row_writes_contains(
    triangle: TriangleModel,
    fill: Fill,
    y: int,
    upto: int,
    point: Point,
    color: Color,
)
    requires
        i32::MIN <= y <= i32::MAX,
        upto <= triangle.bottom_right.x + 1,
    ensures
        row_writes(triangle, fill, y, upto).contains((point, color)) <==> {
            &&& point.y == y
            &&& triangle.top_left.x <= point.x < upto
            &&& fill_at_spec(triangle, fill, point) == Some(color)
        },
    decreases upto - triangle.top_left.x,
{
    if upto > triangle.top_left.x {
        lemma_row_writes_contains(triangle, fill, y, upto - 1, point, color);
        let before = row_writes(triangle, fill, y, upto - 1);
        let last = Point { x: (upto - 1) as i32, y: y as i32 };
        match fill_at_spec(triangle, fill, last) {
            Some(painted) => {
                lemma_push_contains(before, (last, painted), (point, color));
            },
            None => {},
        }
    }
}

/// The rows above `upto` hold a write exactly for each of their pixels that
/// the fill paints.
pub proof fn lemma_scan_writes_contains(
    triangle: TriangleModel,
    fill: Fill,
    upto: int,
    point: Point,
    color: Color,
)
    requires
        upto <= triangle.bottom_right.y + 1,
    ensures
        scan_writes(triangle, fill, upto).contains((point, color)) <==> {
            &&& triangle.top_left.y <= point.y < upto
            &&& triangle.top_left.x <= point.x <= triangle.bottom_right.x
            &&& fill_at_spec(triangle, fill, point) == Some(color)
        },
    decreases upto - triangle.top_left.y,
{
    if upto > triangle.top_left.y {
        lemma_scan_writes_contains(triangle, fill, upto - 1, point, color);
        lemma_row_writes_contains(
            triangle,
            fill,
            upto - 1,
            triangle.bottom_right.x + 1,
            point,
            color,
        );
        lemma_add_contains(
            scan_writes(triangle, fill, upto - 1),
            row_writes(triangle, fill, upto - 1, triangle.bottom_right.x + 1),
            (point, color),
        );
    }
}

/// Painting a triangle writes a pixel exactly where the pixel is in the
/// bounding box and the fill paints it, and writes it in the colour of the
/// fill: nothing outside the box is written, and nothing that the fill
/// paints inside it is left out.
pub proof fn lemma_triangle_writes_contains(
    triangle: TriangleModel,
    fill: Fill,
    point: Point,
    color: Color,
)
    ensures
        triangle_writes(triangle, fill).contains((point, color)) <==> {
            &&& in_bounding_box(triangle, point)
            &&& fill_at_spec(triangle, fill, point) == Some(color)
        },
{
    lemma_scan_writes_contains(triangle, fill, triangle.bottom_right.y + 1, point, color);
}

} // verus!
