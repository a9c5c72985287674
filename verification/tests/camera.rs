use mapviewer::camera::{Camera, CameraError, CameraId, CameraManager};
use mapviewer::position::Position;
use mapviewer::rational::Rational;

fn rat(n: i64, d: i64) -> Rational {
    Rational::new(n, d).unwrap()
}

fn pos(xn: i64, xd: i64, yn: i64, yd: i64) -> Position {
    Position::new(rat(xn, xd), rat(yn, yd))
}

#[test]
fn rational_reduces_to_lowest_terms() {
    let half = rat(2, 4);
    assert_eq!(half.numerator(), 1);
    assert_eq!(half.denominator(), 2);
    let neg = rat(10, -4);
    assert_eq!(neg.numerator(), -5);
    assert_eq!(neg.denominator(), 2);
}

#[test]
fn rational_zero_denominator_is_refused() {
    assert!(Rational::new(1, 0).is_none());
}

#[test]
fn rational_arithmetic_is_exact() {
    let a = rat(1, 3);
    let b = rat(1, 6);
    let sum = a.add(&b).unwrap();
    assert!(sum.eq_value(&rat(1, 2)));
    let diff = a.sub(&b).unwrap();
    assert!(diff.eq_value(&rat(1, 6)));
    let prod = a.mul(&b).unwrap();
    assert!(prod.eq_value(&rat(1, 18)));
    let quot = a.div(&b).unwrap();
    assert!(quot.eq_value(&rat(2, 1)));
}

#[test]
fn rational_overflow_is_reported_not_rounded() {
    let big = rat(i64::MAX, 1);
    assert!(big.add(&rat(1, 1)).is_none());
    assert!(big.mul(&big).is_none());
}

#[test]
fn rational_negation_and_zero_test() {
    let a = rat(7, 3);
    assert!(a.neg().eq_value(&rat(-7, 3)));
    assert!(a.neg().neg().eq_value(&a));
    assert!(Rational::zero().is_zero());
    assert!(!a.is_zero());
    assert!(rat(0, 5).is_zero());
}

#[test]
fn rational_clamp_picks_bounds() {
    let lo = rat(-3, 1);
    let hi = rat(0, 1);
    assert!(rat(-5, 1).clamp(&lo, &hi).eq_value(&lo));
    assert!(rat(1, 2).clamp(&lo, &hi).eq_value(&hi));
    assert!(rat(-1, 1).clamp(&lo, &hi).eq_value(&rat(-1, 1)));
}

// Scenario: viewport (800,600), content (1600,600): the tighter axis is
// vertical, so scale_min = max(800/1600, 600/600) = 1; zoom_out resets
// scale and offset; panning by (-50,0) stays above the pan floor.
#[test]
fn set_limits_and_zoom_out_scenario() {
    let mut cam = Camera::new();
    let viewport = pos(800, 1, 600, 1);
    let content = pos(1600, 1, 600, 1);
    cam.set_limits(&viewport, &content, &Position::origin()).unwrap();
    assert!(cam.scale_min.eq_value(&rat(1, 1)));
    assert!(cam.scale_max.eq_value(&rat(5, 1)));
    cam.zoom_out();
    assert!(cam.scale.eq_value(&rat(1, 1)));
    assert!(cam.offset.x.eq_value(&rat(0, 1)));
    assert!(cam.offset.y.eq_value(&rat(0, 1)));
    // offset_min.x = min(800 - 1*1600, 0) = -800, so a pan of -50 sticks
    assert!(cam.offset_min.x.eq_value(&rat(-800, 1)));
    cam.pan(&pos(-50, 1, 0, 1)).unwrap();
    assert!(cam.offset.x.eq_value(&rat(-50, 1)));
    assert!(cam.offset.y.eq_value(&rat(0, 1)));
}

// After set_limits + zoom_out the projected content exactly fills the
// tighter viewport axis and covers the other.
#[test]
fn zoom_out_fills_tighter_axis() {
    let mut cam = Camera::new();
    cam.set_limits(&pos(800, 1, 600, 1), &pos(1600, 1, 600, 1), &Position::origin()).unwrap();
    cam.zoom_out();
    let projected_h = cam.scale.mul(&rat(600, 1)).unwrap();
    assert!(projected_h.eq_value(&rat(600, 1)));
    let projected_w = cam.scale.mul(&rat(1600, 1)).unwrap();
    assert!(rat(800, 1).le(&projected_w));
}

#[test]
fn set_limits_rejects_zero_dimensions() {
    let mut cam = Camera::new();
    let before = cam;
    let r = cam.set_limits(&pos(800, 1, 600, 1), &pos(0, 1, 600, 1), &Position::origin());
    assert_eq!(r, Err(CameraError::InvalidDimension));
    assert_eq!(cam, before);
    let r2 = cam.set_limits(&pos(800, 1, -600, 1), &pos(100, 1, 100, 1), &Position::origin());
    assert_eq!(r2, Err(CameraError::InvalidDimension));
}

// A long arbitrary pan sequence never leaves the pan box.
#[test]
fn pan_sequence_stays_in_bounds() {
    let mut cam = Camera::new();
    cam.set_limits(&pos(800, 1, 600, 1), &pos(1600, 1, 1200, 1), &Position::origin()).unwrap();
    cam.zoom_out();
    let deltas = [
        (-10000i64, 3i64),
        (250, -99),
        (-1, 1),
        (7000, 7000),
        (-3, -50000),
    ];
    for (dx, dy) in deltas {
        cam.pan(&pos(dx, 1, dy, 1)).unwrap();
        assert!(cam.offset_min.x.le(&cam.offset.x));
        assert!(cam.offset.x.le(&cam.offset_max.x));
        assert!(cam.offset_min.y.le(&cam.offset.y));
        assert!(cam.offset.y.le(&cam.offset_max.y));
    }
}

// Forward and inverse transforms are mutual inverses, exactly.
#[test]
fn transform_round_trip_is_exact() {
    let mut cam = Camera::new();
    cam.set_limits(&pos(800, 1, 600, 1), &pos(1600, 1, 1200, 1), &Position::origin()).unwrap();
    cam.zoom_out();
    cam.zoom(&rat(13, 10), &pos(123, 7, 45, 11), false).unwrap();
    let p = pos(875, 2, -33, 7);
    let screen = cam.forward_transform(&p).unwrap();
    let back = cam.inverse_transform(&screen).unwrap();
    assert!(back.x.eq_value(&p.x));
    assert!(back.y.eq_value(&p.y));
    let world = cam.inverse_transform(&p).unwrap();
    let fwd = cam.forward_transform(&world).unwrap();
    assert!(fwd.x.eq_value(&p.x));
    assert!(fwd.y.eq_value(&p.y));
}

// Zooming about a target keeps the world point under the target fixed
// when no clamp interferes.
#[test]
fn zoom_keeps_target_point_fixed() {
    let mut cam = Camera::new();
    cam.set_limits(&pos(800, 1, 600, 1), &pos(1600, 1, 1200, 1), &Position::origin()).unwrap();
    cam.zoom_out();
    // zoom in about the origin first, recentring the pan floor, so the
    // later zoom has room to keep its target fixed without clamping
    cam.zoom(&rat(2, 1), &Position::origin(), true).unwrap();
    let target = pos(400, 1, 300, 1);
    let before = cam.inverse_transform(&target).unwrap();
    cam.zoom(&rat(11, 10), &target, false).unwrap();
    let after = cam.inverse_transform(&target).unwrap();
    assert!(before.x.eq_value(&after.x));
    assert!(before.y.eq_value(&after.y));
}

#[test]
fn zoom_clamps_scale_to_range() {
    let mut cam = Camera::new();
    cam.set_limits(&pos(800, 1, 600, 1), &pos(1600, 1, 600, 1), &Position::origin()).unwrap();
    cam.zoom_out();
    // scale range is [1, 5]; an enormous factor clamps to 5
    cam.zoom(&rat(1000, 1), &Position::origin(), false).unwrap();
    assert!(cam.scale.eq_value(&rat(5, 1)));
    // a tiny factor clamps back down to 1
    cam.zoom(&rat(1, 1000), &Position::origin(), false).unwrap();
    assert!(cam.scale.eq_value(&rat(1, 1)));
}

// is_within is strict on all four edges.
#[test]
fn is_within_excludes_boundary() {
    let mut cam = Camera::new();
    cam.set_limits(&pos(100, 1, 50, 1), &pos(100, 1, 50, 1), &Position::origin()).unwrap();
    assert!(cam.is_within(&pos(50, 1, 25, 1)).unwrap());
    assert!(!cam.is_within(&pos(0, 1, 25, 1)).unwrap());
    assert!(!cam.is_within(&pos(100, 1, 25, 1)).unwrap());
    assert!(!cam.is_within(&pos(50, 1, 0, 1)).unwrap());
    assert!(!cam.is_within(&pos(50, 1, 50, 1)).unwrap());
    assert!(!cam.is_within(&pos(-1, 1, 25, 1)).unwrap());
}

#[test]
fn scale_to_fit_horizontal_locks_scale() {
    let mut cam = Camera::new();
    // viewport 300 wide, content 600 wide: scale locks to 1/2
    cam.scale_to_fit_horizontal(
        &pos(300, 1, 420, 1),
        &pos(600, 1, 1000, 1),
        &pos(700, 1, 180, 1),
        &rat(0, 1),
    )
    .unwrap();
    assert!(cam.scale.eq_value(&rat(1, 2)));
    assert!(cam.scale_min.eq_value(&rat(1, 2)));
    assert!(cam.scale_max.eq_value(&rat(1, 2)));
    // vertical pan floor is min(420 - 1000, 0) = -580
    assert!(cam.offset_min.y.eq_value(&rat(-580, 1)));
    assert!(cam.offset.x.eq_value(&rat(0, 1)));
}

// Round trip after the horizontal fit: inverse(forward(p)) == p.
#[test]
fn fit_horizontal_round_trip() {
    let mut cam = Camera::new();
    cam.scale_to_fit_horizontal(
        &pos(300, 1, 420, 1),
        &pos(600, 1, 1000, 1),
        &pos(700, 1, 180, 1),
        &rat(-44, 1),
    )
    .unwrap();
    let p = pos(123, 1, 456, 1);
    let screen = cam.forward_transform(&p).unwrap();
    let back = cam.inverse_transform(&screen).unwrap();
    assert!(back.x.eq_value(&p.x));
    assert!(back.y.eq_value(&p.y));
}

#[test]
fn scale_to_fit_horizontal_pans_to_cursor() {
    let mut cam = Camera::new();
    cam.scale_to_fit_horizontal(
        &pos(300, 1, 420, 1),
        &pos(600, 1, 1000, 1),
        &pos(700, 1, 180, 1),
        &rat(-44, 1),
    )
    .unwrap();
    // the requested pan-to-cursor offset is inside [-580, 0]
    assert!(cam.offset.y.eq_value(&rat(-44, 1)));
    // a request below the floor clamps to the floor
    cam.scale_to_fit_horizontal(
        &pos(300, 1, 420, 1),
        &pos(600, 1, 1000, 1),
        &pos(700, 1, 180, 1),
        &rat(-99999, 1),
    )
    .unwrap();
    assert!(cam.offset.y.eq_value(&rat(-580, 1)));
}

#[test]
fn transform_overflow_is_reported() {
    let mut cam = Camera::new();
    cam.scale = rat(i64::MAX, 1);
    cam.scale_min = rat(1, 1);
    cam.scale_max = rat(i64::MAX, 1);
    // p * scale does not fit even in lowest terms
    let r = cam.forward_transform(&pos(i64::MAX, 1, 0, 1));
    assert_eq!(r, Err(CameraError::Overflow));
}

#[test]
fn manager_falls_back_to_identity_for_missing_camera() {
    let cm = CameraManager::new();
    let p = pos(12, 1, 34, 1);
    let dp = cm.get_draw_param(&CameraId::MainMap, &p).unwrap();
    assert!(dp.dest.x.eq_value(&p.x));
    assert!(dp.dest.y.eq_value(&p.y));
    assert!(dp.scale.eq_value(&rat(1, 1)));
    let t = cm.transform_position(&CameraId::ParentMap, &p).unwrap();
    assert!(t.x.eq_value(&p.x));
    let inv = cm.inv_transform_position(&CameraId::TextWindow, &p).unwrap();
    assert!(inv.y.eq_value(&p.y));
    assert!(!cm.is_within(&CameraId::MainMap, &p).unwrap());
}

#[test]
fn manager_creates_camera_on_first_access() {
    let mut cm = CameraManager::new();
    let cam = cm.get_camera(CameraId::MainMap);
    cam.set_limits(&pos(800, 1, 600, 1), &pos(1600, 1, 600, 1), &Position::origin()).unwrap();
    cam.zoom_out();
    // the stored camera now transforms points
    let t = cm.transform_position(&CameraId::MainMap, &pos(10, 1, 20, 1)).unwrap();
    assert!(t.x.eq_value(&rat(10, 1)));
    // other cameras are still absent
    assert!(!cm.is_within(&CameraId::ParentMap, &pos(1, 1, 1, 1)).unwrap());
}

#[test]
fn manager_draw_param_uses_camera_scale() {
    let mut cm = CameraManager::new();
    let cam = cm.get_camera(CameraId::MainMap);
    cam.set_limits(&pos(800, 1, 600, 1), &pos(1600, 1, 600, 1), &Position::origin()).unwrap();
    cam.zoom_out();
    cam.pan(&pos(-50, 1, 0, 1)).unwrap();
    let dp = cm.get_draw_param(&CameraId::MainMap, &pos(100, 1, 100, 1)).unwrap();
    assert!(dp.scale.eq_value(&rat(1, 1)));
    // dest = p * scale + offset = (100 - 50, 100)
    assert!(dp.dest.x.eq_value(&rat(50, 1)));
    assert!(dp.dest.y.eq_value(&rat(100, 1)));
}
