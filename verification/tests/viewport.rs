use mandelbrot::math::IVec2;
use mandelbrot::math::UVec2;
use mandelbrot::engine::point_x;
use mandelbrot::engine::point_y;
use mandelbrot::viewport::Direction;
use mandelbrot::viewport::ViewportState;

const FP_ONE: i64 = 0x1_0000_0000;
const ZOOM_UNIT: u64 = 0x1_0000_0000;
const ZOOM_MAX: u64 = 28 * 0x1_0000_0000;
const CENTER_LIMIT: i64 = 0x8_0000_0000;

#[test]
fn uvec2_new_sets_fields() {
    let v = UVec2::new(3, 7);
    assert_eq!(v.x, 3);
    assert_eq!(v.y, 7);
}

#[test]
fn ivec2_new_sets_fields() {
    let v = IVec2::new(-3, 7);
    assert_eq!(v.x, -3);
    assert_eq!(v.y, 7);
}

#[test]
fn from_parts_clamps_everything() {
    let s = ViewportState::from_parts(i64::MAX, i64::MIN, u64::MAX, 0, 0);
    assert_eq!(s.center_x, CENTER_LIMIT);
    assert_eq!(s.center_y, -CENTER_LIMIT);
    assert_eq!(s.zoom_level, ZOOM_MAX);
    assert_eq!(s.extent.x, 1);
    assert_eq!(s.extent.y, 1);
}

#[test]
fn resize_clamps_zero_extent() {
    let mut s = ViewportState::from_parts(0, 0, 0, 10, 10);
    s.resize(0, 7);
    assert_eq!(s.extent.x, 1);
    assert_eq!(s.extent.y, 7);
    s.resize(5, 0);
    assert_eq!(s.extent.x, 5);
    assert_eq!(s.extent.y, 1);
}

#[test]
fn resize_preserves_center_pixel_plane_point() {
    let mut s = ViewportState::from_parts(
        123_456_789,
        -987_654_321,
        20 * ZOOM_UNIT + 12_345,
        640,
        480,
    );
    let p1 = s.snapshot(100);
    let cx1 = point_x(&p1, 640 / 2);
    let cy1 = point_y(&p1, 480 / 2);
    s.resize(333, 777);
    let p2 = s.snapshot(100);
    let cx2 = point_x(&p2, 333 / 2);
    let cy2 = point_y(&p2, 777 / 2);
    assert_eq!(cx1, 123_456_789);
    assert_eq!(cy1, -987_654_321);
    assert_eq!(cx2, cx1);
    assert_eq!(cy2, cy1);
}

#[test]
fn zoom_round_trip_is_exact() {
    let mut s = ViewportState::from_parts(0, 0, 10 * ZOOM_UNIT, 100, 100);
    let z0 = s.zoom_level;
    let sc0 = s.snapshot(10).scale;
    s.zoom(987_654_321);
    assert_ne!(s.zoom_level, z0);
    s.zoom(-987_654_321);
    assert_eq!(s.zoom_level, z0);
    assert_eq!(s.snapshot(10).scale, sc0);
}

#[test]
fn zoom_saturates_at_bounds() {
    let mut s = ViewportState::from_parts(0, 0, 0, 10, 10);
    s.zoom(-5);
    assert_eq!(s.zoom_level, 0);
    let mut t = ViewportState::from_parts(0, 0, ZOOM_MAX, 10, 10);
    t.zoom(i64::MAX);
    assert_eq!(t.zoom_level, ZOOM_MAX);
}

#[test]
fn zoom_out_doubles_scale_per_level() {
    let mut s = ViewportState::from_parts(0, 0, 20 * ZOOM_UNIT, 100, 100);
    assert_eq!(s.snapshot(10).scale, 1 << 26);
    s.zoom(2 * FP_ONE);
    assert_eq!(s.snapshot(10).scale, 1 << 28);
}

#[test]
fn fractional_zoom_level_scale_is_exact() {
    // Level 25 + 3/4: mantissa 7 * 2^30, scale (7 * 2^30) * 2^25 / 2^26
    // = 7 * 2^29 raw, which is exactly 0.875 plane units per pixel.
    let z = 25 * ZOOM_UNIT + 3 * (1u64 << 30);
    let s = ViewportState::from_parts(-0x8000_0000, 0, z, 4, 4);
    assert_eq!(s.snapshot(50).scale, 7 * (1i64 << 29));
    assert_eq!(s.snapshot(50).scale, 0xE000_0000u32 as i64);
}

#[test]
fn pan_round_trip_is_exact() {
    let mut s = ViewportState::from_parts(1000, 2000, 20 * ZOOM_UNIT, 100, 100);
    s.pan_by_pixels(10, 0);
    assert_eq!(s.center_x, 1000 - 10 * (1 << 26));
    assert_eq!(s.center_y, 2000);
    s.pan_by_pixels(-10, 0);
    assert_eq!(s.center_x, 1000);
    assert_eq!(s.center_y, 2000);
}

#[test]
fn pan_saturates_at_center_limit() {
    let mut s = ViewportState::from_parts(CENTER_LIMIT - 100, 0, ZOOM_MAX, 10, 10);
    s.pan_by_pixels(-1, 0);
    assert_eq!(s.center_x, CENTER_LIMIT);
}

#[test]
fn nudge_moves_one_eighth_of_view() {
    let mut s = ViewportState::from_parts(0, 0, 20 * ZOOM_UNIT, 100, 100);
    s.nudge(Direction::Left);
    assert_eq!(s.center_x, -(100 * (1 << 26) / 8));
    s.nudge(Direction::Right);
    assert_eq!(s.center_x, 0);
    s.nudge(Direction::Up);
    assert_eq!(s.center_y, -(100 * (1 << 26) / 8));
    s.nudge(Direction::Down);
    assert_eq!(s.center_y, 0);
}

#[test]
fn new_fits_height_to_four_units() {
    let s = ViewportState::new(800, 600);
    assert_eq!(s.center_x, -0x8000_0000i64);
    assert_eq!(s.center_y, 0);
    assert_eq!(s.extent.x, 800);
    assert_eq!(s.extent.y, 600);
    // Largest whole level with 600 * scale <= 4.0: scale 2^-8 plane units.
    assert_eq!(s.zoom_level, 18 * ZOOM_UNIT);
    assert_eq!(s.snapshot(10).scale, 1 << 24);
}

#[test]
fn new_clamps_zero_window() {
    let s = ViewportState::new(0, 0);
    assert_eq!(s.extent.x, 1);
    assert_eq!(s.extent.y, 1);
    assert_eq!(s.zoom_level, ZOOM_MAX);
    assert_eq!(s.snapshot(10).scale, 1 << 34);
}

#[test]
fn any_operation_sequence_keeps_state_valid() {
    let mut s = ViewportState::new(320, 200);
    let deltas: [i64; 6] = [i64::MAX, i64::MIN + 1, 3 * FP_ONE, -7 * FP_ONE, 1, -1];
    for (i, d) in deltas.iter().enumerate() {
        s.zoom(*d);
        s.pan_by_pixels(97 * i as i64, -31 * i as i64);
        s.nudge(Direction::Left);
        s.nudge(Direction::Down);
        s.resize(i as u32, (5 - i) as u32);
        assert!(s.snapshot(10).scale > 0);
        assert!(s.extent.x >= 1);
        assert!(s.extent.y >= 1);
        assert!(s.center_x.abs() <= CENTER_LIMIT);
        assert!(s.center_y.abs() <= CENTER_LIMIT);
        assert!(s.zoom_level <= ZOOM_MAX);
    }
}
