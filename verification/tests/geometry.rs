use inf_runner::geom::{max_int_value, min_int_value, PhysRect, Point};

#[test]
fn new_clamps_zero_size_to_one() {
    let r = PhysRect::new(5, 6, 0, 0);
    assert_eq!(r.width(), 1);
    assert_eq!(r.height(), 1);
}

#[test]
fn new_clamps_positions_to_safe_range() {
    let r = PhysRect::new(i32::MAX, i32::MIN, 5, 5);
    assert_eq!(r.x(), max_int_value() as i32);
    assert_eq!(r.y(), min_int_value());
    let r2 = PhysRect::new(0, 0, u32::MAX, 7);
    assert_eq!(r2.width(), max_int_value());
    assert_eq!(r2.height(), 7);
}

#[test]
fn center_is_centroid_axis_aligned() {
    let r = PhysRect::new(0, 0, 100, 100);
    let c = r.center();
    assert_eq!((c.x(), c.y()), (50, 50));
    let cs = r.coords();
    let sx: i64 = cs.iter().map(|p| p.x()).sum();
    let sy: i64 = cs.iter().map(|p| p.y()).sum();
    assert_eq!(c.x(), sx / 4);
    assert_eq!(c.y(), sy / 4);
}

#[test]
fn center_is_centroid_after_rotation() {
    let mut r = PhysRect::new(30, 40, 100, 60);
    r.rotate(500);
    let c = r.center();
    let cs = r.coords();
    let sx: i64 = cs.iter().map(|p| p.x()).sum();
    let sy: i64 = cs.iter().map(|p| p.y()).sum();
    assert_eq!(c.x(), sx / 4);
    assert_eq!(c.y(), sy / 4);
}

#[test]
fn rotate_round_trip_restores_corners() {
    let mut r = PhysRect::new(100, 100, 100, 50);
    let before = r.coords();
    r.rotate(700);
    r.rotate(-700);
    assert_eq!(r.angle(), 0);
    let after = r.coords();
    for i in 0..4 {
        assert!((after[i].x() - before[i].x()).abs() <= 5);
        assert!((after[i].y() - before[i].y()).abs() <= 5);
    }
}

#[test]
fn contains_point_matches_bounds_check_when_axis_aligned() {
    let r = PhysRect::new(10, 20, 30, 40);
    // strictly inside
    assert!(r.contains_point(Point::new(11, 21)));
    assert!(r.contains_point(Point::new(39, 59)));
    // left and top edges are inclusive
    assert!(r.contains_point(Point::new(10, 20)));
    assert!(r.contains_point(Point::new(10, 30)));
    assert!(r.contains_point(Point::new(20, 20)));
    // right and bottom edges are exclusive
    assert!(!r.contains_point(Point::new(40, 30)));
    assert!(!r.contains_point(Point::new(20, 60)));
    // strictly outside
    assert!(!r.contains_point(Point::new(9, 30)));
    assert!(!r.contains_point(Point::new(20, 19)));
    assert!(!r.contains_point(Point::new(41, 61)));
}

#[test]
fn intersection_is_symmetric() {
    let a = PhysRect::new(0, 0, 10, 10);
    let b = PhysRect::new(5, 5, 10, 10);
    assert!(a.has_intersection(b));
    assert!(b.has_intersection(a));

    let c = PhysRect::new(100, 100, 10, 10);
    assert!(!a.has_intersection(c));
    assert!(!c.has_intersection(a));

    // corner-touching pair: the shared corner lies inside exactly one
    let d = PhysRect::new(10, 10, 5, 5);
    assert_eq!(a.has_intersection(d), d.has_intersection(a));
}

#[test]
fn nearest_side_picks_closest_midpoint() {
    // player directly below the obstacle: the top-right region is closest
    let below = PhysRect::new(0, 100, 100, 100);
    let above = PhysRect::new(0, 0, 100, 100);
    assert_eq!(below.nearest_side(above), 1);
}

#[test]
fn set_position_translates_all_corners() {
    let mut r = PhysRect::new(0, 0, 10, 10);
    r.set_x(5);
    r.set_y(-3);
    assert_eq!(r.x(), 5);
    assert_eq!(r.y(), -3);
    let cs = r.coords();
    assert_eq!((cs[0].x(), cs[0].y()), (5, -3));
    assert_eq!((cs[2].x(), cs[2].y()), (15, 7));
}

#[test]
fn set_position_keeps_corners_consistent_when_clamping() {
    // a request beyond the safe range clamps the reference, and the
    // corners move by the clamped delta, staying with the reference
    let mut r = PhysRect::new(0, 0, 10, 10);
    r.set_x(i32::MAX);
    assert_eq!(r.x(), max_int_value() as i32);
    let cs = r.coords();
    assert_eq!(cs[0].x(), max_int_value() as i64);
    assert_eq!(cs[1].x(), max_int_value() as i64 + 10);
    r.set_y(i32::MIN);
    assert_eq!(r.y(), min_int_value());
    assert_eq!(r.coords()[0].y(), min_int_value() as i64);
}

#[test]
fn from_center_places_center() {
    let r = PhysRect::from_center(50, 50, 10, 10);
    let cs = r.coords();
    assert_eq!((cs[0].x(), cs[0].y()), (45, 45));
    let c = r.center();
    assert_eq!((c.x(), c.y()), (50, 50));
}

#[test]
fn resize_rebuilds_corners() {
    let mut r = PhysRect::new(0, 0, 10, 10);
    r.resize(20, 30);
    assert_eq!(r.width(), 20);
    assert_eq!(r.height(), 30);
    let cs = r.coords();
    assert_eq!((cs[1].x(), cs[1].y()), (20, 0));
    assert_eq!((cs[2].x(), cs[2].y()), (20, 30));
    assert_eq!((cs[3].x(), cs[3].y()), (0, 30));
}

#[test]
fn new_rot_quarter_turn() {
    // a quarter turn is 1571 fixed-point radians; the width axis turns
    // toward positive y
    let r = PhysRect::new_rot(0, 0, 100, 50, 1571);
    let cs = r.coords();
    assert_eq!((cs[0].x(), cs[0].y()), (0, 0));
    assert!((cs[1].x() - 0).abs() <= 2);
    assert!((cs[1].y() - 100).abs() <= 2);
    assert!((cs[3].x() + 50).abs() <= 2);
    assert!((cs[3].y() - 0).abs() <= 2);
}

#[test]
fn offset_and_reposition_move_the_rect() {
    let mut r = PhysRect::new(10, 10, 10, 10);
    r.offset(5, -5);
    assert_eq!((r.x(), r.y()), (15, 5));
    let cs = r.coords();
    assert_eq!((cs[0].x(), cs[0].y()), (15, 5));
    r.reposition(0, 0);
    assert_eq!((r.x(), r.y()), (0, 0));
    let cs2 = r.coords();
    assert_eq!((cs2[2].x(), cs2[2].y()), (10, 10));
}

#[test]
fn contains_is_the_same_test_as_contains_point() {
    let r = PhysRect::new(10, 20, 30, 40);
    assert!(r.contains(15, 25));
    assert!(!r.contains(5, 25));
}

#[test]
fn set_angle_normalizes_to_one_turn() {
    let mut r = PhysRect::new(0, 0, 100, 100);
    r.set_angle(6284 + 500);
    assert_eq!(r.angle(), 500);
    r.set_angle(-500);
    assert_eq!(r.angle(), 6284 - 500);
}

#[test]
fn set_height_clamps() {
    let mut r = PhysRect::new(0, 0, 10, 10);
    r.set_height(0);
    assert_eq!(r.height(), 1);
    r.set_height(25);
    assert_eq!(r.height(), 25);
}

#[test]
fn extrema_track_corners() {
    let r = PhysRect::new(10, 20, 30, 40);
    assert_eq!(r.left().x(), 10);
    assert_eq!(r.right().x(), 40);
    assert_eq!(r.top().y(), 20);
    assert_eq!(r.bottom().y(), 60);
}
