use softrender::rasterizer::linear_equation::{
    nearly_equal, Comparison, LinearEquation, Point, LINE_WIDTH,
};

#[test]
fn line_width_is_one_pixel() {
    assert_eq!(LINE_WIDTH, 1);
}

#[test]
fn nearly_equal_is_strict() {
    assert!(nearly_equal(0, 9, 10));
    assert!(!nearly_equal(0, 10, 10));
    assert!(!nearly_equal(0, -10, 10));
    assert!(nearly_equal(5, -4, 10));
    assert!(nearly_equal(-4, 5, 10));
    assert!(!nearly_equal(3, 3, 0));
}

#[test]
fn between_two_points_left_to_right() {
    let line = LinearEquation::between(Point::new(0, 0), Point::new(10, 5));
    assert_eq!(line, LinearEquation::new(5, 10, 0));
}

#[test]
fn between_does_not_depend_on_the_order() {
    let a = Point::new(10, 0);
    let b = Point::new(0, 10);
    assert_eq!(LinearEquation::between(a, b), LinearEquation::new(-10, 10, 100));
    assert_eq!(LinearEquation::between(b, a), LinearEquation::between(a, b));
}

#[test]
fn between_two_points_above_one_another_is_level() {
    assert_eq!(
        LinearEquation::between(Point::new(3, 7), Point::new(3, 1)),
        LinearEquation::new(0, 1, 7)
    );
    assert_eq!(
        LinearEquation::between(Point::new(3, 1), Point::new(3, 7)),
        LinearEquation::new(0, 1, 1)
    );
}

#[test]
fn between_the_same_point_twice_is_level() {
    assert_eq!(
        LinearEquation::between(Point::new(5, 5), Point::new(5, 5)),
        LinearEquation::new(0, 1, 5)
    );
}

#[test]
fn between_the_farthest_corners_does_not_overflow() {
    let a = Point::new(i32::MIN, i32::MIN);
    let b = Point::new(i32::MAX, i32::MAX);
    let line = LinearEquation::between(a, b);
    assert_eq!(line, LinearEquation::new(4294967295, 4294967295, 0));
    assert_eq!(line.eval_at(a), 0);
    assert_eq!(line.eval_at(b), 0);
    assert_eq!(line.eval_at(Point::new(i32::MAX, i32::MIN)), 4294967295i128 * 4294967295i128);
}

#[test]
fn eval_at_is_the_offset_times_the_run() {
    let line = LinearEquation::between(Point::new(0, 0), Point::new(10, 16));
    assert_eq!(line, LinearEquation::new(16, 10, 0));
    assert_eq!(line.eval_at(Point::new(1, 8)), -64);
    assert_eq!(line.eval_at(Point::new(5, 8)), 0);
    assert_eq!(line.eval_at(Point::new(10, 8)), 80);
}

#[test]
fn eval_scaled_takes_half_pixels() {
    let line = LinearEquation::between(Point::new(0, 0), Point::new(10, 5));
    // the point (4.5, 2): 5 * 9 - 10 * 4
    assert_eq!(line.eval_scaled(9, 4, 2), 5);
    let shifted = LinearEquation::between(Point::new(10, 0), Point::new(0, 10));
    // the point (5, 5): -10 * 10 + 100 * 2 - 10 * 10
    assert_eq!(shifted.eval_scaled(10, 10, 2), 0);
}

#[test]
fn compare_to_tells_the_sides_apart() {
    let line = LinearEquation::between(Point::new(0, 0), Point::new(10, 5));
    assert_eq!(line.compare_to(Point::new(4, 2)), Comparison::Equal);
    assert_eq!(line.compare_to(Point::new(5, 2)), Comparison::Equal);
    assert_eq!(line.compare_to(Point::new(5, 3)), Comparison::Equal);
    assert_eq!(line.compare_to(Point::new(4, 1)), Comparison::Less);
    assert_eq!(line.compare_to(Point::new(4, 3)), Comparison::Greater);
    assert_eq!(line.compare_to(Point::new(4, -100)), Comparison::Less);
    assert_eq!(line.compare_to(Point::new(4, 100)), Comparison::Greater);
}

#[test]
fn compare_scaled_allows_twice_the_offset_at_half_pixels() {
    let line = LinearEquation::between(Point::new(0, 0), Point::new(10, 0));
    // the point (5, 0.5) is half a pixel off, the point (5, 1) a whole one
    assert_eq!(line.compare_scaled(10, 1, 2), Comparison::Equal);
    assert_eq!(line.compare_scaled(10, 2, 2), Comparison::Greater);
    assert_eq!(line.compare_scaled(10, -2, 2), Comparison::Less);
}
