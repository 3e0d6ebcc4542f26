use tubes2d::point::{whole_pixel, Point, ONE, PIXEL_LIMIT};

#[test]
fn one_pixel_is_a_million_units() {
    assert_eq!(ONE, 1_000_000);
}

#[test]
fn zero_is_the_origin() {
    let origin = Point::zero();
    assert_eq!(origin.x, 0);
    assert_eq!(origin.y, 0);
    assert_eq!(origin, Point::new(0, 0));
}

#[test]
fn new_keeps_its_arguments() {
    let point = Point::new(-3, 7_500_000);
    assert_eq!(point.x, -3);
    assert_eq!(point.y, 7_500_000);
}

#[test]
fn sub_is_component_wise() {
    let difference = Point::new(5 * ONE, 7 * ONE).sub(Point::new(2 * ONE, 10 * ONE));
    assert_eq!(difference, Point::new(3 * ONE, -3 * ONE));
}

#[test]
fn sub_of_itself_is_zero() {
    let point = Point::new(123_456_789, -987_654_321);
    assert_eq!(point.sub(point), Point::zero());
}

#[test]
fn sub_reaches_both_ends_of_the_range() {
    assert_eq!(Point::new(i64::MAX, i64::MIN).sub(Point::zero()), Point::new(i64::MAX, i64::MIN));
    assert_eq!(Point::new(-1, 0).sub(Point::new(i64::MAX, i64::MAX)), Point::new(i64::MIN, -i64::MAX));
}

#[test]
fn whole_pixel_of_positive_coordinates() {
    assert_eq!(whole_pixel(0), 0);
    assert_eq!(whole_pixel(700_000), 0);
    assert_eq!(whole_pixel(999_999), 0);
    assert_eq!(whole_pixel(1_000_000), 1);
    assert_eq!(whole_pixel(99_999_999), 99);
    assert_eq!(whole_pixel(100_000_000), 100);
}

#[test]
fn whole_pixel_rounds_down_below_zero() {
    assert_eq!(whole_pixel(-1), -1);
    assert_eq!(whole_pixel(-200_000), -1);
    assert_eq!(whole_pixel(-1_000_000), -1);
    assert_eq!(whole_pixel(-1_000_001), -2);
}

#[test]
fn whole_pixel_at_the_ends_of_the_range() {
    assert_eq!(whole_pixel(i64::MAX), 9_223_372_036_854);
    assert_eq!(whole_pixel(i64::MIN), -9_223_372_036_855);
    assert_eq!(whole_pixel(i64::MIN), -PIXEL_LIMIT);
}

#[test]
fn row_and_column_of_a_point() {
    let point = Point::new(5_500_000, 3_200_000);
    assert_eq!(point.column(), 5);
    assert_eq!(point.row(), 3);
    let outside = Point::new(-200_000, 100_300_000);
    assert_eq!(outside.column(), -1);
    assert_eq!(outside.row(), 100);
}
