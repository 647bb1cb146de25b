//! The escape-time compute engine: given an immutable parameter snapshot,
//! evaluate for every pixel the iteration at which the recurrence
//! `z_{n+1} = z_n^2 + c` (with `z_0 = 0` and `c` the plane point mapped
//! from that pixel) first leaves the disc `|z| <= 2`, or the sentinel if
//! it stays inside for `max_iterations` steps.
//!
//! Every pixel is a pure function of the snapshot and its own index, so
//! the result is fully determined by the parameters and any two pixels
//! are independent of one another.

use vstd::prelude::*;
use vstd::arithmetic::div_mod::lemma_multiply_divide_lt;
use vstd::arithmetic::div_mod::lemma_div_is_ordered;
use vstd::arithmetic::div_mod::lemma_div_multiples_vanish;
use vstd::arithmetic::mul::lemma_mul_basics;

use crate::fixed::clamp_spec;
use crate::fixed::lemma_abs_square_le;
use crate::fixed::clamp_i128;
use crate::fixed::shr32;
use crate::math::UVec2;

verus! {

/// Result value meaning "did not escape within `max_iterations`";
/// distinct from every real iteration count.
pub const SENTINEL: u32 = 0xFFFF_FFFF;

/// Sample points saturate at `±32.0` plane units (Q32.32). Any point that
/// far out is already outside the escape disc, so the saturation never
/// changes an escape count; it only bounds the recurrence arithmetic.
pub const POINT_LIMIT: i64 = 0x20_0000_0000;

/// `|z|^2 > 4.0` in raw Q32.32 squared units (`4 * 2^64`): the escape test.
pub const ESCAPE_BOUND: i128 = 0x4_0000_0000_0000_0000;

/// Loop bound on either component of `z`: one recurrence step from a
/// non-escaped `z` with a saturated `c` stays below `2^38` raw.
pub const Z_BOUND: i128 = 0x40_0000_0000;

/// Immutable per-frame snapshot of the viewport, consumed by exactly one
/// compute dispatch.
#[derive(Clone, Copy, Debug, PartialEq, Eq, Structural)]
pub struct MandelbrotParams {
    /// Plane coordinate of the center pixel (Q32.32).
    pub center_x: i64,
    /// Plane coordinate of the center pixel (Q32.32).
    pub center_y: i64,
    /// Plane units per pixel (Q32.32), positive.
    pub scale: i64,
    /// Pixel width (`x`) and height (`y`) of the grid.
    pub extent: UVec2,
    /// Cap on per-pixel work; every escape count is below it.
    pub max_iterations: u32,
}

impl MandelbrotParams {
    pub open spec fn wf(self) -> bool {
        &&& self.extent.x >= 1
        &&& self.extent.y >= 1
        &&& self.scale > 0
        &&& self.max_iterations < SENTINEL
    }
}

/// Plane x-coordinate of pixel column `px`: `center + (px - width/2) *
/// scale`, saturated at `±POINT_LIMIT`. The center pixel maps exactly to
/// the center.
pub open spec fn point_x_spec(p: MandelbrotParams, px: int) -> int {
    clamp_spec(
        p.center_x + (px - p.extent.x as int / 2) * p.scale,
        -POINT_LIMIT as int,
        POINT_LIMIT as int,
    )
}

/// Plane y-coordinate of pixel row `py`; rows increase downward.
pub open spec fn point_y_spec(p: MandelbrotParams, py: int) -> int {
    clamp_spec(
        p.center_y + (py - p.extent.y as int / 2) * p.scale,
        -POINT_LIMIT as int,
        POINT_LIMIT as int,
    )
}

/// One recurrence step, real part: `(zx^2 - zy^2) / 2^32 + cx` with floor
/// rounding (the exact Q32.32 product rescaled back).
pub open spec fn step_x_spec(zx: int, zy: int, cx: int) -> int {
    (zx * zx - zy * zy) / 0x1_0000_0000 + cx
}

/// One recurrence step, imaginary part: `2 * zx * zy / 2^32 + cy`.
pub open spec fn step_y_spec(zx: int, zy: int, cy: int) -> int {
    (2 * zx * zy) / 0x1_0000_0000 + cy
}

/// The escape count reached from state `z = (zx, zy)` after `count` steps
/// already taken: the first step index at which `|z|^2` exceeds the
/// escape bound, or `SENTINEL` once `max` steps are reached.
pub open spec fn escape_helper(
    zx: int,
    zy: int,
    cx: int,
    cy: int,
    count: nat,
    max: nat,
) -> nat
    decreases max - count,
{
    if zx * zx + zy * zy > ESCAPE_BOUND {
        count
    } else if count >= max {
        SENTINEL as nat
    } else {
        escape_helper(
            step_x_spec(zx, zy, cx),
            step_y_spec(zx, zy, cy),
            cx,
            cy,
            count + 1,
            max,
        )
    }
}

/// The escape count of plane point `c = (cx, cy)` from `z_0 = 0`.
pub open spec fn escape_spec(cx: int, cy: int, max: nat) -> nat {
    escape_helper(0, 0, cx, cy, 0, max)
}

/// The escape value of the flat pixel index `i` (row-major over the
/// extent) under snapshot `p`.
pub open spec fn pixel_spec(p: MandelbrotParams, i: int) -> nat {
    escape_spec(
        point_x_spec(p, i % p.extent.x as int),
        point_y_spec(p, i / p.extent.x as int),
        p.max_iterations as nat,
    )
}

/// A dense row-major grid of per-pixel escape values, one entry per pixel
/// of the extent it was computed for.
#[derive(Clone, Debug, PartialEq, Eq)]
pub struct EscapeResult {
    /// The extent the grid was computed for; `data` has `x * y` entries.
    pub extent: UVec2,
    /// Per-pixel escape counts, row-major; `SENTINEL` where the point
    /// never escaped.
    pub data: Vec<u32>,
}

/// What `compute` promises: the grid is exactly the per-pixel escape
/// function of the snapshot, sized to its extent.
pub open spec fn is_grid_of(r: EscapeResult, p: MandelbrotParams) -> bool {
    &&& r.extent == p.extent
    &&& r.data@.len() == p.extent.x as int * p.extent.y as int
    &&& forall|i: int|
        0 <= i < r.data@.len() ==> #[trigger] r.data@[i] as nat == pixel_spec(p, i)
}

/// An escape value is either a count in `[count, max]` or the sentinel:
/// with `max` below `SENTINEL`, the sentinel is distinct from every real
/// iteration count.
pub proof fn lemma_escape_helper_range(
    zx: int,
    zy: int,
    cx: int,
    cy: int,
    count: nat,
    max: nat,
)
    requires
        count <= max,
    ensures
        escape_helper(zx, zy, cx, cy, count, max) == SENTINEL as nat || count
            <= escape_helper(zx, zy, cx, cy, count, max) <= max,
    decreases max - count,
{
    if zx * zx + zy * zy > ESCAPE_BOUND {
    } else if count >= max {
    } else {
        lemma_escape_helper_range(
            step_x_spec(zx, zy, cx),
            step_y_spec(zx, zy, cy),
            cx,
            cy,
            count + 1,
            max,
        );
    }
}

/// Sentinel distinctness: every escape value is either a real count of
/// at most `max` or `SENTINEL` — so with `max` below `SENTINEL`, the
/// sentinel can never be mistaken for an iteration count.
pub proof fn lemma_sentinel_distinct(cx: int, cy: int, max: nat)
    ensures
        escape_spec(cx, cy, max) == SENTINEL as nat || escape_spec(cx, cy, max) <= max,
{
    lemma_escape_helper_range(0, 0, cx, cy, 0, max);
}

/// A plane point already outside the escape disc escapes at exactly
/// count one: `z_1 = c` and `|c|^2` is over the bound. In particular the
/// `POINT_LIMIT` saturation of sample points never changes an escape
/// count — a point is moved only when it is far outside the disc, and it
/// stays far outside.
pub proof fn lemma_far_point_escapes_at_one(cx: int, cy: int, max: nat)
    requires
        cx * cx + cy * cy > ESCAPE_BOUND,
        max >= 1,
    ensures
        escape_spec(cx, cy, max) == 1,
{
    lemma_mul_basics(0);
    lemma_div_multiples_vanish(0, 0x1_0000_0000);
    assert(step_x_spec(0, 0, cx) == cx);
    assert(step_y_spec(0, 0, cy) == cy);
    assert(escape_helper(cx, cy, cx, cy, 1, max) == 1);
}

/// Plane x-coordinate of pixel column `px`.
pub fn point_x(p: &MandelbrotParams, px: usize) -> (r: i64)
    requires
        px < p.extent.x,
    ensures
        r as int == point_x_spec(*p, px as int),
        -POINT_LIMIT <= r <= POINT_LIMIT,
{
    let d: i128 = px as i128 - (p.extent.x / 2) as i128;
    assert(-0x8000_0000_0000_0000_0000_0000 <= d * p.scale <= 0x8000_0000_0000_0000_0000_0000)
        by (nonlinear_arith)
        requires
            -0x1_0000_0000 <= d <= 0x1_0000_0000,
            -0x8000_0000_0000_0000 <= p.scale <= 0x7FFF_FFFF_FFFF_FFFF,
    ;
    let c: i128 = p.center_x as i128 + d * p.scale as i128;
    clamp_i128(c, -POINT_LIMIT, POINT_LIMIT)
}

/// Plane y-coordinate of pixel row `py`.
pub fn point_y(p: &MandelbrotParams, py: usize) -> (r: i64)
    requires
        py < p.extent.y,
    ensures
        r as int == point_y_spec(*p, py as int),
        -POINT_LIMIT <= r <= POINT_LIMIT,
{
    let d: i128 = py as i128 - (p.extent.y / 2) as i128;
    assert(-0x8000_0000_0000_0000_0000_0000 <= d * p.scale <= 0x8000_0000_0000_0000_0000_0000)
        by (nonlinear_arith)
        requires
            -0x1_0000_0000 <= d <= 0x1_0000_0000,
            -0x8000_0000_0000_0000 <= p.scale <= 0x7FFF_FFFF_FFFF_FFFF,
    ;
    let c: i128 = p.center_y as i128 + d * p.scale as i128;
    clamp_i128(c, -POINT_LIMIT, POINT_LIMIT)
}

/// Escape count of one plane point: iterate `z := z^2 + c` from zero
/// until `|z|^2 > 4` (short-circuiting without a square root) or the
/// iteration cap is reached.
pub fn escape_count(cx: i64, cy: i64, max: u32) -> (r: u32)
    requires
        -POINT_LIMIT <= cx <= POINT_LIMIT,
        -POINT_LIMIT <= cy <= POINT_LIMIT,
        max < SENTINEL,
    ensures
        r as nat == escape_spec(cx as int, cy as int, max as nat),
{
    let mut zx: i128 = 0;
    let mut zy: i128 = 0;
    let mut count: u32 = 0;
    loop
        invariant
            count <= max,
            max < SENTINEL,
            -POINT_LIMIT <= cx <= POINT_LIMIT,
            -POINT_LIMIT <= cy <= POINT_LIMIT,
            -Z_BOUND <= zx <= Z_BOUND,
            -Z_BOUND <= zy <= Z_BOUND,
            escape_spec(cx as int, cy as int, max as nat) == escape_helper(
                zx as int,
                zy as int,
                cx as int,
                cy as int,
                count as nat,
                max as nat,
            ),
        decreases max - count,
    {
        assert(0 <= zx * zx <= 0x1000_0000_0000_0000_0000 && 0 <= zy * zy
            <= 0x1000_0000_0000_0000_0000) by (nonlinear_arith)
            requires
                -0x40_0000_0000 <= zx <= 0x40_0000_0000,
                -0x40_0000_0000 <= zy <= 0x40_0000_0000,
        ;
        let m2: i128 = zx * zx + zy * zy;
        if m2 > ESCAPE_BOUND {
            return count;
        }
        if count == max {
            return SENTINEL;
        }
        proof {
            assert(m2 <= 0x4_0000_0000_0000_0000);
            assert(zx * zx <= 0x4_0000_0000_0000_0000);
            assert(zy * zy <= 0x4_0000_0000_0000_0000);
            assert(0x2_0000_0000 * 0x2_0000_0000 == 0x4_0000_0000_0000_0000)
                by (nonlinear_arith);
            lemma_abs_square_le(zx as int, 0x2_0000_0000);
            lemma_abs_square_le(zy as int, 0x2_0000_0000);
        }
        assert(0 <= zx * zx <= 0x4_0000_0000_0000_0000 && 0 <= zy * zy
            <= 0x4_0000_0000_0000_0000 && -0x8_0000_0000_0000_0000 <= 2 * zx * zy
            <= 0x8_0000_0000_0000_0000) by (nonlinear_arith)
            requires
                -0x2_0000_0000 <= zx <= 0x2_0000_0000,
                -0x2_0000_0000 <= zy <= 0x2_0000_0000,
        ;
        let tx: i128 = zx * zx - zy * zy;
        let ty: i128 = 2 * zx * zy;
        let sx: i128 = shr32(tx);
        let sy: i128 = shr32(ty);
        proof {
            lemma_div_is_ordered(-0x4_0000_0000_0000_0000, tx as int, 0x1_0000_0000);
            lemma_div_is_ordered(tx as int, 0x4_0000_0000_0000_0000, 0x1_0000_0000);
            lemma_div_is_ordered(-0x8_0000_0000_0000_0000, ty as int, 0x1_0000_0000);
            lemma_div_is_ordered(ty as int, 0x8_0000_0000_0000_0000, 0x1_0000_0000);
            lemma_div_multiples_vanish(-0x4_0000_0000, 0x1_0000_0000);
            lemma_div_multiples_vanish(0x4_0000_0000, 0x1_0000_0000);
            lemma_div_multiples_vanish(-0x8_0000_0000, 0x1_0000_0000);
            lemma_div_multiples_vanish(0x8_0000_0000, 0x1_0000_0000);
            assert(sx as int + cx as int == step_x_spec(zx as int, zy as int, cx as int));
            assert(sy as int + cy as int == step_y_spec(zx as int, zy as int, cy as int));
            assert(escape_helper(zx as int, zy as int, cx as int, cy as int, count as nat, max as nat)
                == escape_helper(
                step_x_spec(zx as int, zy as int, cx as int),
                step_y_spec(zx as int, zy as int, cy as int),
                cx as int,
                cy as int,
                count as nat + 1,
                max as nat,
            ));
        }
        zx = sx + cx as i128;
        zy = sy + cy as i128;
        count = count + 1;
    }
}

/// Evaluate the whole grid into a caller-owned result, reusing its
/// buffer: the allocation is amortized across frames while the extent is
/// unchanged, and the buffer grows only when the extent does. One entry
/// per pixel of the extent, row-major.
pub fn compute_into(p: &MandelbrotParams, out: &mut EscapeResult)
    requires
        p.wf(),
        p.extent.x as int * p.extent.y as int <= usize::MAX as int,
    ensures
        is_grid_of(*final(out), *p),
{
    let w: usize = p.extent.x as usize;
    let h: usize = p.extent.y as usize;
    let total: usize = w * h;
    out.extent = p.extent;
    out.data.clear();
    let mut idx: usize = 0;
    while idx < total
        invariant
            p.wf(),
            w == p.extent.x,
            h == p.extent.y,
            total == w as int * h as int,
            idx <= total,
            out.extent == p.extent,
            out.data@.len() == idx,
            forall|i: int| 0 <= i < idx ==> #[trigger] out.data@[i] as nat == pixel_spec(*p, i),
        decreases total - idx,
    {
        let px: usize = idx % w;
        let py: usize = idx / w;
        proof {
            lemma_multiply_divide_lt(idx as int, w as int, h as int);
        }
        let cx: i64 = point_x(p, px);
        let cy: i64 = point_y(p, py);
        let v: u32 = escape_count(cx, cy, p.max_iterations);
        out.data.push(v);
        idx = idx + 1;
    }
}

/// Evaluate the whole grid into a fresh result. The grid is a pure
/// function of the snapshot — computing it twice for equal parameters
/// gives identical grids — and each entry depends only on its own
/// pixel's plane point.
pub fn compute(p: &MandelbrotParams) -> (r: EscapeResult)
    requires
        p.wf(),
        p.extent.x as int * p.extent.y as int <= usize::MAX as int,
    ensures
        is_grid_of(r, *p),
{
    let mut r = EscapeResult { extent: p.extent, data: Vec::new() };
    compute_into(p, &mut r);
    r
}

/// Determinism: any two grids computed from the same snapshot are
/// identical, entry for entry.
pub proof fn lemma_compute_deterministic(
    p: MandelbrotParams,
    r1: EscapeResult,
    r2: EscapeResult,
)
    requires
        is_grid_of(r1, p),
        is_grid_of(r2, p),
    ensures
        r1.extent == r2.extent,
        r1.data@ == r2.data@,
{
    assert forall|i: int| 0 <= i < r1.data@.len() implies r1.data@[i] == r2.data@[i] by {
        assert(r1.data@[i] as nat == pixel_spec(p, i));
        assert(r2.data@[i] as nat == pixel_spec(p, i));
    }
    assert(r1.data@ =~= r2.data@);
}

/// Independence: a pixel's escape value depends only on its own mapped
/// plane point and the iteration cap. Two pixels of two snapshots — for
/// instance before and after an extent change — that map to the same
/// plane point get the same value.
pub proof fn lemma_pixel_independence(
    p1: MandelbrotParams,
    p2: MandelbrotParams,
    i1: int,
    i2: int,
)
    requires
        point_x_spec(p1, i1 % p1.extent.x as int) == point_x_spec(p2, i2 % p2.extent.x as int),
        point_y_spec(p1, i1 / p1.extent.x as int) == point_y_spec(p2, i2 / p2.extent.x as int),
        p1.max_iterations == p2.max_iterations,
    ensures
        pixel_spec(p1, i1) == pixel_spec(p2, i2),
{
}

} // verus!
