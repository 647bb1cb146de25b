use mandelbrot::engine::EscapeResult;
use mandelbrot::engine::MandelbrotParams;
use mandelbrot::engine::POINT_LIMIT;
use mandelbrot::engine::SENTINEL;
use mandelbrot::engine::compute;
use mandelbrot::engine::compute_into;
use mandelbrot::engine::escape_count;
use mandelbrot::engine::point_x;
use mandelbrot::math::UVec2;

const FP_ONE: i64 = 0x1_0000_0000;

/// A 4x4-unit view of the escape disc: center (-0.5, 0), half a plane
/// unit per pixel, eight pixels each way, so columns span [-2.5, 1.0].
fn disc_view() -> MandelbrotParams {
    MandelbrotParams {
        center_x: -FP_ONE / 2,
        center_y: 0,
        scale: FP_ONE / 2,
        extent: UVec2::new(8, 8),
        max_iterations: 50,
    }
}

#[test]
fn origin_never_escapes() {
    assert_eq!(escape_count(0, 0, 50), SENTINEL);
}

#[test]
fn far_point_escapes_immediately() {
    // c = (2, 2): |z_1|^2 = 8 > 4 at the first check.
    let v = escape_count(2 * FP_ONE, 2 * FP_ONE, 50);
    assert!(v >= 1 && v <= 2);
    assert_eq!(v, 1);
}

#[test]
fn zero_iteration_budget_is_sentinel() {
    assert_eq!(escape_count(0, 0, 0), SENTINEL);
    assert_eq!(escape_count(3 * FP_ONE, 3 * FP_ONE, 0), SENTINEL);
}

#[test]
fn known_orbits() {
    // c = (-1, 0) cycles 0 -> -1 -> 0: never escapes.
    assert_eq!(escape_count(-FP_ONE, 0, 100), SENTINEL);
    // c = (1, 1): z_1 = (1, 1), z_2 = (1, 3), |z_2|^2 = 10 > 4.
    assert_eq!(escape_count(FP_ONE, FP_ONE, 100), 2);
}

#[test]
fn grid_pixel_at_origin_is_sentinel() {
    let p = disc_view();
    let r = compute(&p);
    assert_eq!(r.extent, UVec2::new(8, 8));
    assert_eq!(r.data.len(), 64);
    // Pixel (5, 4) maps to plane (0, 0).
    assert_eq!(point_x(&p, 5), 0);
    assert_eq!(r.data[4 * 8 + 5], SENTINEL);
}

#[test]
fn grid_pixel_outside_disc_escapes_fast() {
    let p = MandelbrotParams {
        center_x: 0,
        center_y: 0,
        scale: FP_ONE,
        extent: UVec2::new(5, 5),
        max_iterations: 50,
    };
    let r = compute(&p);
    assert_eq!(r.data.len(), 25);
    // Pixel (4, 4) maps to plane (2, 2): escapes within one or two steps.
    let far = r.data[4 * 5 + 4];
    assert!(far >= 1 && far <= 2);
    assert_eq!(far, 1);
    // Pixel (2, 2) maps to plane (0, 0): never escapes.
    assert_eq!(r.data[2 * 5 + 2], SENTINEL);
}

#[test]
fn compute_into_reuses_the_buffer() {
    let p = disc_view();
    let fresh = compute(&p);
    let mut reused = EscapeResult {
        extent: UVec2::new(1, 1),
        data: vec![7, 7, 7],
    };
    compute_into(&p, &mut reused);
    assert_eq!(reused.extent, UVec2::new(8, 8));
    assert_eq!(reused.data, fresh.data);

    let mut smaller = p;
    smaller.extent = UVec2::new(2, 2);
    compute_into(&smaller, &mut reused);
    assert_eq!(reused.data.len(), 4);
}

#[test]
fn identical_params_give_identical_grids() {
    let p = disc_view();
    let r1: EscapeResult = compute(&p);
    let r2: EscapeResult = compute(&p);
    assert_eq!(r1.extent, r2.extent);
    assert_eq!(r1.data, r2.data);
}

#[test]
fn extent_change_leaves_shared_pixels_alone() {
    // Growing the extent from 8x8 to 10x10 shifts the pixel grid by one
    // in each direction but maps pixel (px+1, py+1) to the plane point of
    // the old (px, py): those pixels keep their escape values exactly.
    let p1 = disc_view();
    let mut p2 = p1;
    p2.extent = UVec2::new(10, 10);
    let r1 = compute(&p1);
    let r2 = compute(&p2);
    for py in 0..8usize {
        for px in 0..8usize {
            assert_eq!(r1.data[py * 8 + px], r2.data[(py + 1) * 10 + (px + 1)]);
        }
    }
}

#[test]
fn column_mapping_is_exact() {
    let p = disc_view();
    assert_eq!(point_x(&p, 0), -5 * FP_ONE / 2);
    assert_eq!(point_x(&p, 4), -FP_ONE / 2);
    assert_eq!(point_x(&p, 7), FP_ONE);
}

#[test]
fn sample_points_saturate() {
    let p = MandelbrotParams {
        center_x: i64::MAX,
        center_y: i64::MIN,
        scale: i64::MAX,
        extent: UVec2::new(3, 3),
        max_iterations: 1,
    };
    assert_eq!(point_x(&p, 2), POINT_LIMIT);
}
