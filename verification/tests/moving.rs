use bg_maker::geometry::{Guide, Point, Rectangle, SnapPoint};
use bg_maker::moving::{move_rect, move_with_snap};

fn board() -> Rectangle {
    Rectangle::new(0, 0, 1280, 720)
}

#[test]
fn plain_move_adds_the_delta() {
    let r = Rectangle::new(10, 20, 30, 40);
    assert_eq!(move_rect(&r, Point::new(5, -25)), Rectangle::new(15, -5, 30, 40));
}

#[test]
fn move_right_snaps_right_edge_to_sibling_left_edge() {
    let a = Rectangle::new(0, 0, 400, 300);
    let b = Rectangle::new(600, 0, 400, 300);
    let out = move_with_snap(&a, Point::new(198, 0), &vec![b], &board());
    assert_eq!(out.rect, Rectangle::new(200, 0, 400, 300));
    assert_eq!(out.ignored, Point::new(-2, 0));
    assert_eq!(out.snap_point.x, Guide::Start);
    assert_eq!(out.snap_point.y, Guide::Start);
    assert_eq!(out.snap_point.x_part, Guide::End);
    assert_eq!(out.snap_point.y_part, Guide::Start);
}

#[test]
fn left_edge_snaps_exactly_onto_right_aligned_sibling() {
    let layer = Rectangle::new(0, 100, 200, 100);
    let sibling = Rectangle::new(1080, 400, 200, 100);
    for dx in [1278, 1279, 1280, 1281, 1282] {
        let out = move_with_snap(&layer, Point::new(dx, 0), &vec![sibling], &board());
        assert_eq!(out.rect.x, 1280);
        assert_eq!(out.rect.y, 100);
        assert_eq!(out.snap_point, SnapPoint::of(Guide::Start, Guide::Off));
        assert_eq!(out.ignored, Point::new(dx - 1280, 0));
    }
}

#[test]
fn three_units_away_is_too_far_to_snap() {
    let layer = Rectangle::new(0, 100, 200, 100);
    let sibling = Rectangle::new(1080, 400, 200, 100);
    let out = move_with_snap(&layer, Point::new(1277, 0), &vec![sibling], &board());
    assert_eq!(out.rect.x, 1277);
    assert_eq!(out.snap_point, SnapPoint::off());
    assert_eq!(out.ignored, Point::new(0, 0));
    let out = move_with_snap(&layer, Point::new(1283, 0), &vec![sibling], &board());
    assert_eq!(out.rect.x, 1283);
    assert_eq!(out.snap_point, SnapPoint::off());
}

#[test]
fn free_move_ignores_nothing() {
    let layer = Rectangle::new(100, 100, 50, 50);
    let sibling = Rectangle::new(600, 500, 40, 40);
    let out = move_with_snap(&layer, Point::new(37, -12), &vec![sibling], &board());
    assert_eq!(out.rect, Rectangle::new(137, 88, 50, 50));
    assert_eq!(out.ignored, Point::zero());
    assert_eq!(out.snap_point, SnapPoint::off());
}

#[test]
fn board_edges_hold_the_layer() {
    let layer = Rectangle::new(50, 50, 100, 100);
    let none: Vec<Rectangle> = Vec::new();
    let out = move_with_snap(&layer, Point::new(-48, 0), &none, &board());
    assert_eq!(out.rect, Rectangle::new(0, 50, 100, 100));
    assert_eq!(out.ignored, Point::new(2, 0));
    assert_eq!(out.snap_point, SnapPoint::of(Guide::Start, Guide::Off));

    let out = move_with_snap(&layer, Point::new(1129, 0), &none, &board());
    assert_eq!(out.rect, Rectangle::new(1180, 50, 100, 100));
    assert_eq!(out.ignored, Point::new(-1, 0));
    assert_eq!(out.snap_point, SnapPoint::of(Guide::End, Guide::Off));

    let out = move_with_snap(&layer, Point::new(0, -51), &none, &board());
    assert_eq!(out.rect, Rectangle::new(50, 0, 100, 100));
    assert_eq!(out.ignored, Point::new(0, -1));
    assert_eq!(out.snap_point, SnapPoint::of(Guide::Off, Guide::Start));

    let out = move_with_snap(&layer, Point::new(0, 572), &none, &board());
    assert_eq!(out.rect, Rectangle::new(50, 620, 100, 100));
    assert_eq!(out.ignored, Point::new(0, 2));
    assert_eq!(out.snap_point, SnapPoint::of(Guide::Off, Guide::End));
}

#[test]
fn board_edge_three_units_away_does_not_hold() {
    let layer = Rectangle::new(50, 50, 100, 100);
    let none: Vec<Rectangle> = Vec::new();
    let out = move_with_snap(&layer, Point::new(-47, 0), &none, &board());
    assert_eq!(out.rect.x, 3);
    assert_eq!(out.snap_point.x, Guide::Off);
}

#[test]
fn centres_align() {
    let layer = Rectangle::new(0, 0, 100, 100);
    let sibling = Rectangle::new(300, 300, 200, 200);
    let out = move_with_snap(&layer, Point::new(348, 0), &vec![sibling], &board());
    assert_eq!(out.rect, Rectangle::new(350, 0, 100, 100));
    assert_eq!(out.snap_point, SnapPoint::of(Guide::Center, Guide::Start));
    assert_eq!(out.ignored, Point::new(-2, 0));
}

#[test]
fn centre_between_two_units_rounds_down() {
    let layer = Rectangle::new(0, 200, 101, 50);
    let sibling = Rectangle::new(300, 500, 200, 100);
    let out = move_with_snap(&layer, Point::new(348, 0), &vec![sibling], &board());
    assert_eq!(out.rect.x, 349);
    assert_eq!(out.snap_point.x, Guide::Center);
    assert_eq!(out.ignored.x, -1);
}

#[test]
fn later_sibling_overrides_earlier_one() {
    let layer = Rectangle::new(0, 300, 50, 50);
    let first = Rectangle::new(60, 0, 40, 40);
    let second = Rectangle::new(101, 600, 50, 50);
    let out = move_with_snap(&layer, Point::new(99, 0), &vec![first, second], &board());
    assert_eq!(out.rect.x, 101);
    assert_eq!(out.snap_point.x, Guide::Start);
    let out = move_with_snap(&layer, Point::new(99, 0), &vec![second, first], &board());
    assert_eq!(out.rect.x, 100);
    assert_eq!(out.snap_point.x, Guide::Start);
}

#[test]
fn sibling_overrides_the_board() {
    let layer = Rectangle::new(100, 300, 50, 50);
    let sibling = Rectangle::new(2, 0, 40, 40);
    let out = move_with_snap(&layer, Point::new(-99, 0), &vec![sibling], &board());
    assert_eq!(out.rect.x, 2);
    assert_eq!(out.snap_point.x, Guide::Start);
    assert_eq!(out.ignored.x, -1);
}

#[test]
fn edge_tests_take_the_first_that_is_near() {
    // The sibling is two units wide: its end is tried before its start.
    let layer = Rectangle::new(0, 300, 50, 50);
    let sibling = Rectangle::new(200, 0, 2, 40);
    let out = move_with_snap(&layer, Point::new(201, 0), &vec![sibling], &board());
    assert_eq!(out.rect.x, 202);
    assert_eq!(out.snap_point.x, Guide::Start);
    // Right edge of the layer against the sibling's left edge.
    let out = move_with_snap(&layer, Point::new(149, 0), &vec![sibling], &board());
    assert_eq!(out.rect.x, 150);
    assert_eq!(out.snap_point.x, Guide::Start);
    assert_eq!(out.snap_point.x_part, Guide::End);
    // Right edge of the layer against the sibling's right edge only.
    let wide = Rectangle::new(100, 0, 200, 40);
    let out = move_with_snap(&layer, Point::new(251, 0), &vec![wide], &board());
    assert_eq!(out.rect.x, 250);
    assert_eq!(out.snap_point.x, Guide::End);
    assert_eq!(out.snap_point.x_part, Guide::End);
}

#[test]
fn snapping_move_keeps_the_size() {
    let layer = Rectangle::new(5, 5, 123, 77);
    let sibling = Rectangle::new(300, 300, 200, 200);
    let out = move_with_snap(&layer, Point::new(170, 218), &vec![sibling], &board());
    assert_eq!(out.rect.width, 123);
    assert_eq!(out.rect.height, 77);
}

#[test]
fn move_saturates_at_the_largest_coordinate() {
    let layer = Rectangle::new(i32::MAX - 10, 0, 50, 50);
    let none: Vec<Rectangle> = Vec::new();
    let out = move_with_snap(&layer, Point::new(100, 200), &none, &board());
    assert_eq!(out.rect.x, i32::MAX);
    assert_eq!(out.rect.y, 200);
    assert_eq!(out.ignored, Point::new(90, 0));
}

#[test]
fn bottom_edge_meeting_a_top_edge_reports_the_start_guide() {
    let layer = Rectangle::new(700, 0, 100, 100);
    let sibling = Rectangle::new(300, 400, 100, 100);
    let out = move_with_snap(&layer, Point::new(0, 301), &vec![sibling], &board());
    assert_eq!(out.rect, Rectangle::new(700, 300, 100, 100));
    assert_eq!(out.ignored, Point::new(0, 1));
    assert_eq!(out.snap_point.y, Guide::Start);
    assert_eq!(out.snap_point.y_part, Guide::End);
    assert_eq!(out.snap_point.x, Guide::Off);
    assert_eq!(out.snap_point.x_part, Guide::Off);
}

#[test]
fn guide_and_part_agree_but_where_an_end_meets_a_start() {
    let layer = Rectangle::new(0, 300, 50, 50);
    let sibling = Rectangle::new(200, 0, 100, 40);
    let result = |dx: i32| {
        let out = move_with_snap(&layer, Point::new(dx, 0), &vec![sibling], &board());
        (out.rect.x, out.snap_point.x, out.snap_point.x_part)
    };
    // Left edge on the sibling's right edge.
    assert_eq!(result(301), (300, Guide::Start, Guide::Start));
    // Left edge on the sibling's left edge.
    assert_eq!(result(199), (200, Guide::Start, Guide::Start));
    // Right edge on the sibling's right edge.
    assert_eq!(result(251), (250, Guide::End, Guide::End));
    // Right edge on the sibling's left edge.
    assert_eq!(result(151), (150, Guide::Start, Guide::End));
}
