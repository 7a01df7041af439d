use bg_maker::geometry::{
    closer_than, half_floor, saturate, Anchor, Axis, Guide, Pivot, Point, Rectangle, SnapPoint,
    GRAB_DISTANCE, MIN_SIZE, MOVE_SNAP_DISTANCE, RELEASE_THRESHOLD, RESIZE_SNAP_DISTANCE,
};

#[test]
fn constants_have_their_documented_values() {
    assert_eq!(MIN_SIZE, 16);
    assert_eq!(MOVE_SNAP_DISTANCE, 3);
    assert_eq!(RESIZE_SNAP_DISTANCE, 10);
    assert_eq!(RELEASE_THRESHOLD, 5);
    assert_eq!(GRAB_DISTANCE, 4);
}

#[test]
fn saturate_clamps_at_both_ends() {
    assert_eq!(saturate(0), 0);
    assert_eq!(saturate(-17), -17);
    assert_eq!(saturate(i32::MAX as i64), i32::MAX);
    assert_eq!(saturate(i32::MAX as i64 + 1), i32::MAX);
    assert_eq!(saturate(i32::MIN as i64 - 1), i32::MIN);
    assert_eq!(saturate(i64::MAX), i32::MAX);
    assert_eq!(saturate(i64::MIN), i32::MIN);
}

#[test]
fn closer_than_is_strict() {
    assert!(closer_than(10, 12, 3));
    assert!(closer_than(12, 10, 3));
    assert!(!closer_than(10, 13, 3));
    assert!(!closer_than(13, 10, 3));
    assert!(closer_than(-5, -5, 1));
    assert!(!closer_than(-5, -5, 0));
}

#[test]
fn half_floor_rounds_down() {
    assert_eq!(half_floor(0), 0);
    assert_eq!(half_floor(7), 3);
    assert_eq!(half_floor(8), 4);
    assert_eq!(half_floor(-1), -1);
    assert_eq!(half_floor(-7), -4);
    assert_eq!(half_floor(-8), -4);
}

#[test]
fn points_add_and_subtract_with_saturation() {
    let a = Point::new(3, -4);
    let b = Point::new(10, 20);
    assert_eq!(a.add_sat(b), Point::new(13, 16));
    assert_eq!(a.sub_sat(b), Point::new(-7, -24));
    assert_eq!(
        Point::new(i32::MAX, i32::MIN).add_sat(Point::new(1, -1)),
        Point::new(i32::MAX, i32::MIN)
    );
    assert_eq!(
        Point::new(i32::MIN, 0).sub_sat(Point::new(1, i32::MIN)),
        Point::new(i32::MIN, i32::MAX)
    );
    assert!(Point::zero().is_origin());
    assert!(!Point::new(0, 1).is_origin());
    assert_eq!(Point::zero(), Point::new(0, 0));
}

#[test]
fn rectangle_contains_left_and_top_edges_only() {
    let r = Rectangle::new(10, 20, 30, 40);
    assert!(r.contains(Point::new(10, 20)));
    assert!(r.contains(Point::new(39, 59)));
    assert!(!r.contains(Point::new(40, 30)));
    assert!(!r.contains(Point::new(20, 60)));
    assert!(!r.contains(Point::new(9, 30)));
    assert!(!r.contains(Point::new(20, 19)));
}

#[test]
fn rectangle_contains_near_the_largest_coordinate() {
    let r = Rectangle::new(i32::MAX - 5, 0, 10, 10);
    assert!(r.contains(Point::new(i32::MAX, 5)));
}

#[test]
fn rectangle_edges_along_an_axis() {
    let r = Rectangle::new(10, 20, 30, 41);
    assert_eq!(r.axis_start(Axis::Horizontal), 10);
    assert_eq!(r.axis_len(Axis::Vertical), 41);
    assert_eq!(r.axis_end(Axis::Horizontal), 40);
    assert_eq!(r.axis_end(Axis::Vertical), 61);
    assert_eq!(r.axis_center2(Axis::Horizontal), 50);
    assert_eq!(r.axis_center2(Axis::Vertical), 81);
    let far = Rectangle::new(i32::MAX, 0, i32::MAX, 1);
    assert_eq!(far.axis_end(Axis::Horizontal), 2 * (i32::MAX as i64));
}

#[test]
fn rectangle_translate_moves_the_origin_only() {
    let r = Rectangle::new(10, 20, 30, 40);
    assert_eq!(r.translate(Point::new(-15, 5)), Rectangle::new(-5, 25, 30, 40));
    assert_eq!(
        r.translate(Point::new(i32::MAX, i32::MIN)),
        Rectangle::new(i32::MAX, i32::MIN + 20, 30, 40)
    );
}

#[test]
fn anchors_and_guides_tell_what_they_are() {
    assert!(Anchor::Start.is_edge());
    assert!(Anchor::End.is_edge());
    assert!(!Anchor::Center.is_edge());
    assert!(!Guide::Off.is_active());
    assert!(Guide::Start.is_active());
    assert!(Guide::Center.is_active());
    assert!(Guide::End.is_active());
    assert!(!SnapPoint::off().is_engaged());
    assert_eq!(SnapPoint::off(), SnapPoint::of(Guide::Off, Guide::Off));
    let snap = SnapPoint::of(Guide::Start, Guide::Center);
    assert_eq!((snap.x, snap.y, snap.x_part, snap.y_part), (
        Guide::Start,
        Guide::Center,
        Guide::Start,
        Guide::Center,
    ));
    assert_eq!(snap.axis_part(Axis::Horizontal), Guide::Start);
    assert_eq!(snap.axis_part(Axis::Vertical), Guide::Center);
    assert!(SnapPoint::of(Guide::Off, Guide::Center).is_engaged());
    assert!(SnapPoint::of(Guide::End, Guide::Off).is_engaged());
    assert_eq!(Pivot::new(Anchor::Start, Anchor::End), Pivot { x: Anchor::Start, y: Anchor::End });
}
