use tubes2d::canvas::{pixel_index, stamp, HEIGHT, WIDTH};
use tubes2d::point::Point;

const RED: [u8; 4] = [0xff, 0x00, 0x00, 0xff];

#[test]
fn canvas_is_a_hundred_pixels_square() {
    assert_eq!(WIDTH, 100);
    assert_eq!(HEIGHT, 100);
}

#[test]
fn pixel_index_is_row_times_height_plus_column() {
    assert_eq!(pixel_index(&Point::new(0, 0)), 0);
    assert_eq!(pixel_index(&Point::new(700_000, 0)), 0);
    assert_eq!(pixel_index(&Point::new(5_500_000, 3_200_000)), 305);
    assert_eq!(pixel_index(&Point::new(99_999_999, 99_999_999)), 9_999);
    assert_eq!(pixel_index(&Point::new(100_000_000, 100_000_000)), 10_100);
}

#[test]
fn pixel_index_left_of_the_canvas() {
    assert_eq!(pixel_index(&Point::new(-200_000, 0)), -1);
    assert_eq!(pixel_index(&Point::new(-200_000, 50_300_000)), 4_999);
    assert_eq!(pixel_index(&Point::new(0, -1)), -100);
}

#[test]
fn pixel_index_at_the_ends_of_the_range() {
    assert_eq!(
        pixel_index(&Point::new(i64::MAX, i64::MAX)),
        9_223_372_036_854 * 100 + 9_223_372_036_854
    );
    assert_eq!(
        pixel_index(&Point::new(i64::MIN, i64::MIN)),
        -9_223_372_036_855 * 100 - 9_223_372_036_855
    );
}

#[test]
fn stamp_writes_four_bytes_at_four_times_the_index() {
    let mut frame = vec![0u8; 40];
    stamp(&mut frame, 3, &RED);
    let mut expected = vec![0u8; 40];
    expected[12] = 0xff;
    expected[15] = 0xff;
    assert_eq!(frame, expected);
}

#[test]
fn stamp_first_and_last_pixel() {
    let mut frame = vec![7u8; 12];
    stamp(&mut frame, 0, &[1, 2, 3, 4]);
    stamp(&mut frame, 2, &[5, 6, 7, 8]);
    assert_eq!(frame, vec![1, 2, 3, 4, 7, 7, 7, 7, 5, 6, 7, 8]);
}

#[test]
fn stamp_past_the_end_is_skipped() {
    let mut frame = vec![9u8; 40];
    stamp(&mut frame, 10, &RED);
    stamp(&mut frame, 11, &RED);
    stamp(&mut frame, i64::MAX, &RED);
    assert_eq!(frame, vec![9u8; 40]);
}

#[test]
fn stamp_at_a_negative_index_is_skipped() {
    let mut frame = vec![9u8; 40];
    stamp(&mut frame, -1, &RED);
    stamp(&mut frame, i64::MIN, &RED);
    assert_eq!(frame, vec![9u8; 40]);
}

#[test]
fn stamp_into_an_empty_or_short_buffer_is_skipped() {
    let mut empty: Vec<u8> = Vec::new();
    stamp(&mut empty, 0, &RED);
    assert!(empty.is_empty());
    let mut short = vec![9u8; 3];
    stamp(&mut short, 0, &RED);
    assert_eq!(short, vec![9u8; 3]);
}

#[test]
fn stamp_skips_a_pixel_that_the_buffer_holds_only_in_part() {
    let mut frame = vec![9u8; 6];
    stamp(&mut frame, 1, &RED);
    assert_eq!(frame, vec![9u8; 6]);
    stamp(&mut frame, 0, &RED);
    assert_eq!(frame, vec![0xff, 0x00, 0x00, 0xff, 9, 9]);
}
