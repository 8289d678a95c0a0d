use gaze_pointer::calibration::CalibrationProfile;
use gaze_pointer::calibration::GridRefs;
use gaze_pointer::calibration::ProfileKind;
use gaze_pointer::calibration::QuadrantRefs;
use gaze_pointer::units::Point;
use gaze_pointer::units::HALF;
use gaze_pointer::units::SCALE;

fn pt(x: i64, y: i64) -> Point {
    Point { x, y }
}

fn symmetric_grid(center: Point, near: i64, far: i64) -> CalibrationProfile {
    CalibrationProfile::Grid(GridRefs {
        top_left: pt(near, near),
        top_center: pt(center.x, near),
        top_right: pt(far, near),
        middle_left: pt(near, center.y),
        center,
        middle_right: pt(far, center.y),
        bottom_left: pt(near, far),
        bottom_center: pt(center.x, far),
        bottom_right: pt(far, far),
    })
}

fn quadrant(center: Point, near: i64, far: i64) -> CalibrationProfile {
    CalibrationProfile::Quadrant(QuadrantRefs {
        center,
        top_left: pt(near, near),
        top_right: pt(far, near),
        bottom_left: pt(near, far),
        bottom_right: pt(far, far),
    })
}

#[test]
fn default_profile_is_the_documented_grid() {
    let p = CalibrationProfile::default();
    assert_eq!(p, symmetric_grid(pt(500_000, 500_000), 300_000, 700_000));
}

#[test]
fn grid_maps_center_to_midpoint() {
    let p = CalibrationProfile::default();
    let r = p.map(&pt(500_000, 500_000));
    assert_eq!(r, pt(HALF, HALF));
}

#[test]
fn quadrant_maps_center_to_midpoint() {
    let p = quadrant(pt(500_000, 500_000), 300_000, 700_000);
    let r = p.map(&pt(500_000, 500_000));
    assert_eq!(r, pt(HALF, HALF));
}

#[test]
fn map_clamps_far_out_of_range_raw() {
    let p = CalibrationProfile::default();
    let r = p.map(&pt(10_000_000, -10_000_000));
    assert_eq!(r, pt(SCALE, 0));
    let q = quadrant(pt(500_000, 500_000), 300_000, 700_000);
    let r = q.map(&pt(-10_000_000, 10_000_000));
    assert_eq!(r, pt(0, SCALE));
    for raw in [
        pt(i64::MIN, i64::MAX),
        pt(i64::MAX, i64::MIN),
        pt(-1, 1_000_001),
        pt(123_456_789, -987_654_321),
    ] {
        let r = p.map(&raw);
        assert!(0 <= r.x && r.x <= SCALE);
        assert!(0 <= r.y && r.y <= SCALE);
        let r = q.map(&raw);
        assert!(0 <= r.x && r.x <= SCALE);
        assert!(0 <= r.y && r.y <= SCALE);
    }
}

#[test]
fn degenerate_grid_falls_back_to_quarter_points() {
    let c = pt(500_000, 500_000);
    let p = symmetric_grid(c, 500_000, 500_000);
    assert_eq!(p.map(&pt(700_000, 200_000)), pt(750_000, 250_000));
    assert_eq!(p.map(&pt(200_000, 700_000)), pt(250_000, 750_000));
    assert_eq!(p.map(&c), pt(750_000, 750_000));
}

#[test]
fn degenerate_quadrant_saturates() {
    let c = pt(500_000, 500_000);
    let p = quadrant(c, 500_000, 500_000);
    assert_eq!(p.map(&pt(700_000, 200_000)), pt(SCALE, 0));
    assert_eq!(p.map(&pt(200_000, 700_000)), pt(0, SCALE));
    assert_eq!(p.map(&c), pt(SCALE, SCALE));
}

#[test]
fn grid_profile_orders_symmetric_raw_inputs() {
    let p = symmetric_grid(pt(500_000, 500_000), 200_000, 800_000);
    let low = p.map(&pt(200_000, 200_000));
    assert!(low.x < HALF);
    assert!(low.y < HALF);
    let mid = p.map(&pt(500_000, 500_000));
    assert_eq!(mid, pt(HALF, HALF));
}

#[test]
fn points_round_trip_grid() {
    let p = symmetric_grid(pt(480_000, 520_000), 250_000, 760_000);
    let v = p.to_points();
    assert_eq!(v.len(), 9);
    let q = CalibrationProfile::from_points(ProfileKind::Grid, &v);
    assert_eq!(q, Some(p));
}

#[test]
fn points_round_trip_quadrant() {
    let p = quadrant(pt(490_000, 510_000), 310_000, 690_000);
    let v = p.to_points();
    assert_eq!(v.len(), 5);
    let q = CalibrationProfile::from_points(ProfileKind::Quadrant, &v);
    assert_eq!(q, Some(p));
}

#[test]
fn from_points_rejects_wrong_count() {
    let p = CalibrationProfile::default();
    let v = p.to_points();
    assert_eq!(CalibrationProfile::from_points(ProfileKind::Quadrant, &v), None);
    let empty: Vec<Point> = Vec::new();
    assert_eq!(CalibrationProfile::from_points(ProfileKind::Grid, &empty), None);
}

#[test]
fn ref_point_counts() {
    assert_eq!(CalibrationProfile::ref_point_count(ProfileKind::Quadrant), 5);
    assert_eq!(CalibrationProfile::ref_point_count(ProfileKind::Grid), 9);
}

#[test]
fn grid_interpolates_between_rows() {
    // Raw y halfway between the top-row average (0.2) and the middle-row
    // average (0.5) must land halfway into the top half: 0.25.
    let p = symmetric_grid(pt(500_000, 500_000), 200_000, 800_000);
    let r = p.map(&pt(350_000, 350_000));
    assert_eq!(r, pt(250_000, 250_000));
}
