use softrender::rasterizer::linear_equation::Point;
use softrender::rasterizer::triangle2d::{sort_points, Axis, Triangle2d};

fn right_triangle() -> Triangle2d {
    Triangle2d::new([Point::new(0, 0), Point::new(10, 0), Point::new(0, 10)])
}

fn tall_triangle() -> Triangle2d {
    Triangle2d::new([Point::new(0, 0), Point::new(20, 0), Point::new(10, 16)])
}

fn orders(a: Point, b: Point, c: Point) -> Vec<[Point; 3]> {
    vec![[a, b, c], [a, c, b], [b, a, c], [b, c, a], [c, a, b], [c, b, a]]
}

#[test]
fn sort_points_orders_along_either_axis() {
    let mut points = [Point::new(3, 1), Point::new(2, 5), Point::new(1, 3)];
    sort_points(&mut points, Axis::X);
    assert_eq!(points, [Point::new(1, 3), Point::new(2, 5), Point::new(3, 1)]);
    sort_points(&mut points, Axis::Y);
    assert_eq!(points, [Point::new(3, 1), Point::new(1, 3), Point::new(2, 5)]);
}

#[test]
fn sort_points_keeps_equal_points_in_order() {
    let mut points = [Point::new(0, 1), Point::new(5, 1), Point::new(2, 0)];
    sort_points(&mut points, Axis::Y);
    assert_eq!(points, [Point::new(2, 0), Point::new(0, 1), Point::new(5, 1)]);
}

#[test]
fn bounding_box_spans_the_corners() {
    let triangle = Triangle2d::new([Point::new(7, -2), Point::new(-4, 9), Point::new(3, 30)]);
    assert_eq!(triangle.top_left(), Point::new(-4, -2));
    assert_eq!(triangle.bottom_right(), Point::new(7, 30));
}

#[test]
fn bounding_box_is_ordered_for_every_order_of_the_points() {
    for points in orders(Point::new(9, 1), Point::new(-5, 8), Point::new(2, -6)) {
        let triangle = Triangle2d::new(points);
        assert!(triangle.top_left().x() <= triangle.bottom_right().x());
        assert!(triangle.top_left().y() <= triangle.bottom_right().y());
        assert_eq!(triangle.top_left(), Point::new(-5, -6));
        assert_eq!(triangle.bottom_right(), Point::new(9, 8));
    }
}

#[test]
fn center_of_the_box_is_within_the_bounding_lines() {
    assert!(tall_triangle().point_within_bounding_lines(Point::new(10, 8)));
    assert!(right_triangle().point_within_bounding_lines(Point::new(5, 5)));
    let other = Triangle2d::new([Point::new(500, 200), Point::new(200, 400), Point::new(1300, 760)]);
    assert!(other.point_within_bounding_lines(Point::new(750, 480)));
}

#[test]
fn point_far_from_the_box_is_not_within_the_bounding_lines() {
    let triangle = tall_triangle();
    assert!(!triangle.point_within_bounding_lines(Point::new(1000, 1000)));
    assert!(!triangle.point_within_bounding_lines(Point::new(-1000, 8)));
    assert!(!triangle.point_within_bounding_lines(Point::new(10, -1000)));
}

#[test]
fn point_far_from_the_box_may_lie_on_a_line_that_the_center_lies_on() {
    // The centre of the box of this triangle is on its longest edge, so
    // that edge admits the points on it and no others, however far away.
    assert!(right_triangle().point_within_bounding_lines(Point::new(-100, 110)));
}

#[test]
fn interior_of_the_tall_triangle() {
    let triangle = tall_triangle();
    assert!(triangle.point_within_bounding_lines(Point::new(10, 4)));
    assert!(triangle.point_within_bounding_lines(Point::new(10, 5)));
    assert!(!triangle.point_within_bounding_lines(Point::new(1, 8)));
    assert!(!triangle.point_within_bounding_lines(Point::new(19, 8)));
}

#[test]
fn right_triangle_admits_its_longest_edge_alone() {
    let triangle = right_triangle();
    assert!(!triangle.point_within_bounding_lines(Point::new(9, 9)));
    assert!(!triangle.point_within_bounding_lines(Point::new(1, 1)));
    assert!(triangle.point_within_bounding_lines(Point::new(9, 1)));
    assert!(triangle.point_within_bounding_lines(Point::new(1, 9)));
}

#[test]
fn order_of_the_points_does_not_matter() {
    let probes = [
        Point::new(10, 8),
        Point::new(10, 4),
        Point::new(5, 8),
        Point::new(1, 8),
        Point::new(0, 0),
        Point::new(5, 5),
        Point::new(0, 5),
        Point::new(9, 1),
        Point::new(30, -3),
    ];
    let corners = [
        (Point::new(0, 0), Point::new(20, 0), Point::new(10, 16)),
        (Point::new(0, 0), Point::new(10, 0), Point::new(0, 10)),
        (Point::new(4, 4), Point::new(4, 4), Point::new(9, 4)),
        (Point::new(3, 9), Point::new(3, 1), Point::new(3, 5)),
    ];
    for (a, b, c) in corners {
        let first = Triangle2d::new([a, b, c]);
        for points in orders(a, b, c) {
            let other = Triangle2d::new(points);
            assert_eq!(other.top_left(), first.top_left());
            assert_eq!(other.bottom_right(), first.bottom_right());
            for probe in probes {
                assert_eq!(
                    other.point_within_bounding_lines(probe),
                    first.point_within_bounding_lines(probe)
                );
                assert_eq!(
                    other.point_on_bounding_lines(probe),
                    first.point_on_bounding_lines(probe)
                );
            }
        }
    }
}

#[test]
fn midpoints_of_the_edges_are_on_the_bounding_lines() {
    let triangle = tall_triangle();
    assert!(triangle.point_on_bounding_lines(Point::new(10, 0)));
    assert!(triangle.point_on_bounding_lines(Point::new(5, 8)));
    assert!(triangle.point_on_bounding_lines(Point::new(15, 8)));
}

#[test]
fn corners_are_on_the_bounding_lines() {
    let triangle = tall_triangle();
    assert!(triangle.point_on_bounding_lines(Point::new(0, 0)));
    assert!(triangle.point_on_bounding_lines(Point::new(20, 0)));
    assert!(triangle.point_on_bounding_lines(Point::new(10, 16)));
}

#[test]
fn center_of_a_large_triangle_is_not_on_the_bounding_lines() {
    assert!(!tall_triangle().point_on_bounding_lines(Point::new(10, 8)));
    assert!(!tall_triangle().point_on_bounding_lines(Point::new(10, 5)));
}

#[test]
fn upright_edge_is_taken_for_a_level_line() {
    let triangle = right_triangle();
    // The edge from (0, 0) to (0, 10) counts as the line y = 0.
    assert!(!triangle.point_on_bounding_lines(Point::new(0, 5)));
    assert!(triangle.point_on_bounding_lines(Point::new(7, 0)));
    // (5, 5) is on the edge from (10, 0) to (0, 10).
    assert!(triangle.point_on_bounding_lines(Point::new(5, 5)));
    assert!(!triangle.point_on_bounding_lines(Point::new(4, 4)));
}

#[test]
fn three_equal_points_make_a_level_line() {
    let triangle = Triangle2d::new([Point::new(5, 5), Point::new(5, 5), Point::new(5, 5)]);
    assert_eq!(triangle.top_left(), Point::new(5, 5));
    assert_eq!(triangle.bottom_right(), Point::new(5, 5));
    assert!(triangle.point_within_bounding_lines(Point::new(5, 5)));
    assert!(triangle.point_on_bounding_lines(Point::new(5, 5)));
    assert!(!triangle.point_on_bounding_lines(Point::new(5, 6)));
    assert!(!triangle.point_on_bounding_lines(Point::new(5, 4)));
}
