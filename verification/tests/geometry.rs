use softrender::geometry::vec2::{Vec2, Vec2i, Vec2u};
use softrender::geometry::vec4::{Color, Vec4};

#[test]
fn vec2_new_keeps_both_coordinates() {
    let v = Vec2i::new(-3, 7);
    assert_eq!(v.x(), -3);
    assert_eq!(v.y(), 7);
}

#[test]
fn vec2_from_tuple_keeps_the_order() {
    let v = Vec2u::from_tuple((1366, 768));
    assert_eq!(v.x(), 1366);
    assert_eq!(v.y(), 768);
    assert_eq!(v, Vec2u::new(1366, 768));
}

#[test]
fn vec2_default_is_the_origin() {
    let v: Vec2<i32> = Vec2::default();
    assert_eq!(v, Vec2i::new(0, 0));
}

#[test]
fn vec4_reads_as_coordinates_and_as_channels() {
    let c = Color::new(94, 129, 172, 255);
    assert_eq!((c.x(), c.y(), c.z(), c.w()), (94, 129, 172, 255));
    assert_eq!((c.r(), c.g(), c.b(), c.a()), (94, 129, 172, 255));
    let v: Vec4<i32> = Vec4::new(1, -2, 3, -4);
    assert_eq!((v.r(), v.g(), v.b(), v.a()), (1, -2, 3, -4));
}

#[test]
fn rescale_to_the_same_size_changes_nothing() {
    let size = Vec2u::new(1366, 768);
    assert_eq!(Vec2u::new(500, 200).rescale(size, size), Vec2i::new(500, 200));
    assert_eq!(Vec2u::new(1300, 760).rescale(size, size), Vec2i::new(1300, 760));
}

#[test]
fn rescale_to_half_the_size_halves() {
    let p = Vec2u::new(500, 200).rescale(Vec2u::new(1366, 768), Vec2u::new(683, 384));
    assert_eq!(p, Vec2i::new(250, 100));
}

#[test]
fn rescale_truncates() {
    // 7 * 10 / 3 = 23.33.., 5 * 9 / 2 = 22.5
    let p = Vec2u::new(7, 5).rescale(Vec2u::new(3, 2), Vec2u::new(10, 9));
    assert_eq!(p, Vec2i::new(23, 22));
}

#[test]
fn rescale_holds_at_the_largest_coordinate() {
    let p = Vec2u::new(4_000_000_000, 1).rescale(Vec2u::new(1, 1), Vec2u::new(2, 2));
    assert_eq!(p, Vec2i::new(i32::MAX, 2));
}

#[test]
fn rescale_to_an_empty_surface_is_the_origin() {
    let p = Vec2u::new(500, 200).rescale(Vec2u::new(1366, 768), Vec2u::new(0, 0));
    assert_eq!(p, Vec2i::new(0, 0));
}
