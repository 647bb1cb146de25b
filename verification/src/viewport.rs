//! The viewport transform: the authoritative mapping from pixel space to
//! complex-plane space, updated by discrete navigation commands.
//!
//! Plane coordinates are Q32.32 fixed point. The zoom state is held in the
//! log domain: `zoom_level` is `log2` of the scale (plane units per pixel),
//! in Q32.32, biased so that `0` is the minimum zoom and `ZOOM_MAX` the
//! maximum. Zooming is therefore an exact, clamped addition — repeated
//! deltas compose multiplicatively on the scale, the scale can never reach
//! zero or go negative, and equal opposite deltas cancel exactly. The
//! scale itself is recovered as a base-2 exponential with a linear
//! interpolation of the mantissa between neighbouring powers of two.

use vstd::prelude::*;
use vstd::arithmetic::power2::pow2;
use vstd::arithmetic::power2::lemma_pow2_adds;
use vstd::arithmetic::power2::lemma_pow2_pos;
use vstd::arithmetic::power2::lemma_pow2_strictly_increases;
use vstd::arithmetic::power2::lemma2_to64;
use vstd::arithmetic::power2::lemma2_to64_rest;
use vstd::arithmetic::div_mod::lemma_div_is_ordered;
use vstd::arithmetic::div_mod::lemma_div_by_multiple;

use vstd::arithmetic::div_mod::lemma_div_multiples_vanish;
use vstd::arithmetic::div_mod::lemma_fundamental_div_mod;
use vstd::arithmetic::div_mod::lemma_mod_multiples_basic;
use vstd::arithmetic::mul::lemma_mul_unary_negation;
use vstd::arithmetic::mul::lemma_mul_basics;
use vstd::arithmetic::mul::lemma_mul_inequality;
use vstd::arithmetic::mul::lemma_mul_strict_inequality;

use crate::engine::MandelbrotParams;
use crate::engine::SENTINEL;
use crate::fixed::clamp_spec;
use crate::fixed::clamp_i128;
use crate::fixed::pow2_u64;
use crate::math::UVec2;

verus! {

/// One whole zoom level: the scale doubles per `ZOOM_UNIT` of `zoom_level`.
pub const ZOOM_UNIT: u64 = 0x1_0000_0000;

/// Highest zoom level: scale `4.0` plane units per pixel (fully zoomed out).
pub const ZOOM_MAX: u64 = 28 * 0x1_0000_0000;

/// Smallest representable scale, `2^-26` plane units per pixel: the
/// precision floor below which adjacent pixels would become
/// indistinguishable in Q32.32.
pub const SCALE_MIN: i64 = 0x40;

/// Every scale is strictly below `2^35` raw (`8.0` plane units per pixel).
pub const SCALE_LIMIT: i64 = 0x8_0000_0000;

/// The view center never leaves `[-8.0, 8.0]` on either plane axis; pans
/// and nudges saturate at this bound.
pub const CENTER_LIMIT: i64 = 0x8_0000_0000;

/// A nudge moves the center by `1/8` of the visible width or height.
pub const NUDGE_DIVISOR: u64 = 8;

/// The four cardinal nudge directions.
#[derive(Clone, Copy, Debug, PartialEq, Eq, Structural)]
pub enum Direction {
    Left,
    Right,
    Up,
    Down,
}

/// The scale (plane units per pixel, Q32.32) encoded by a zoom level:
/// `(2^32 + frac) * 2^n / 2^26`, where `n` is the whole part of the level
/// and `frac` its fractional Q32.32 part. Exactly `2^(n+6)` at whole
/// levels, linear in between, monotone throughout.
pub open spec fn scale_spec(zoom_level: u64) -> int {
    ((0x1_0000_0000 + (zoom_level % 0x1_0000_0000) as int) * pow2(
        (zoom_level / 0x1_0000_0000) as nat,
    ) as int) / 0x400_0000
}

/// The live viewport: plane location of the center pixel, zoom level, and
/// pixel extent. Mutated in place by pan, zoom, nudge and resize; the
/// compute stage only ever sees an immutable snapshot of it.
#[derive(Clone, Copy, Debug, PartialEq, Eq, Structural)]
pub struct ViewportState {
    /// Plane x-coordinate mapped to the center pixel (Q32.32).
    pub center_x: i64,
    /// Plane y-coordinate mapped to the center pixel (Q32.32); the plane
    /// y-axis follows pixel rows, increasing downward on screen.
    pub center_y: i64,
    /// Biased log2 of the scale (Q32.32), in `[0, ZOOM_MAX]`.
    pub zoom_level: u64,
    /// Pixel width (`x`) and height (`y`); each at least one pixel.
    pub extent: UVec2,
}

/// State after `zoom(delta)`: the level moves by `delta` and saturates at
/// the zoom bounds. Positive deltas zoom out (scale up), negative zoom in.
pub open spec fn zoom_spec(s: ViewportState, delta: int) -> ViewportState {
    ViewportState {
        zoom_level: clamp_spec(s.zoom_level + delta, 0, ZOOM_MAX as int) as u64,
        ..s
    }
}

/// State after `pan_by_pixels(dx, dy)`: the center moves by the pixel
/// delta times the scale, against the drag direction, saturating at
/// `CENTER_LIMIT`.
pub open spec fn pan_spec(s: ViewportState, dx: int, dy: int) -> ViewportState {
    ViewportState {
        center_x: clamp_spec(
            s.center_x - dx * scale_spec(s.zoom_level),
            -CENTER_LIMIT as int,
            CENTER_LIMIT as int,
        ) as i64,
        center_y: clamp_spec(
            s.center_y - dy * scale_spec(s.zoom_level),
            -CENTER_LIMIT as int,
            CENTER_LIMIT as int,
        ) as i64,
        ..s
    }
}

/// State after `nudge(dir)`: the center moves one `NUDGE_DIVISOR`-th of
/// the visible width (or height) in the given direction, saturating at
/// `CENTER_LIMIT`.
pub open spec fn nudge_spec(s: ViewportState, dir: Direction) -> ViewportState {
    let step_x = (s.extent.x * scale_spec(s.zoom_level)) / NUDGE_DIVISOR as int;
    let step_y = (s.extent.y * scale_spec(s.zoom_level)) / NUDGE_DIVISOR as int;
    match dir {
        Direction::Left => ViewportState {
            center_x: clamp_spec(
                s.center_x - step_x,
                -CENTER_LIMIT as int,
                CENTER_LIMIT as int,
            ) as i64,
            ..s
        },
        Direction::Right => ViewportState {
            center_x: clamp_spec(
                s.center_x + step_x,
                -CENTER_LIMIT as int,
                CENTER_LIMIT as int,
            ) as i64,
            ..s
        },
        Direction::Up => ViewportState {
            center_y: clamp_spec(
                s.center_y - step_y,
                -CENTER_LIMIT as int,
                CENTER_LIMIT as int,
            ) as i64,
            ..s
        },
        Direction::Down => ViewportState {
            center_y: clamp_spec(
                s.center_y + step_y,
                -CENTER_LIMIT as int,
                CENTER_LIMIT as int,
            ) as i64,
            ..s
        },
    }
}

/// State after `resize(w, h)`: only the extent changes, clamped to at
/// least one pixel per dimension; center and zoom are untouched, so the
/// plane point under the center pixel is preserved exactly.
pub open spec fn resize_spec(s: ViewportState, width: u32, height: u32) -> ViewportState {
    ViewportState {
        extent: UVec2 {
            x: if width == 0 { 1u32 } else { width },
            y: if height == 0 { 1u32 } else { height },
        },
        ..s
    }
}

impl ViewportState {
    /// Well-formedness: the invariant every mutator preserves. In
    /// particular the zoom level is bounded, so the scale is always
    /// positive and above the precision floor.
    pub open spec fn wf(self) -> bool {
        &&& self.zoom_level <= ZOOM_MAX
        &&& -CENTER_LIMIT <= self.center_x <= CENTER_LIMIT
        &&& -CENTER_LIMIT <= self.center_y <= CENTER_LIMIT
        &&& self.extent.x >= 1
        &&& self.extent.y >= 1
    }

    /// The current scale in plane units per pixel (Q32.32).
    pub fn scale(&self) -> (r: i64)
        requires
            self.wf(),
        ensures
            r as int == scale_spec(self.zoom_level),
            SCALE_MIN <= r < SCALE_LIMIT,
    {
        proof {
            lemma_scale_spec_bounds(self.zoom_level);
        }
        let frac: u64 = self.zoom_level % 0x1_0000_0000;
        let n: u64 = self.zoom_level / 0x1_0000_0000;
        let p2: u64 = pow2_u64(n);
        proof {
            lemma2_to64();
            if n < 28 {
                lemma_pow2_strictly_increases(n as nat, 28);
            }
        }
        let mant: u64 = 0x1_0000_0000 + frac;
        assert(mant * p2 < 0x2000_0000_0000_0000 && mant * p2 >= 0x1_0000_0000) by (nonlinear_arith)
            requires
                0x1_0000_0000 <= mant < 0x2_0000_0000,
                1 <= p2 <= 0x1000_0000,
        ;
        let prod: u64 = mant * p2;
        let val: u64 = prod / 0x400_0000;
        val as i64
    }

    /// Adjust the zoom level by `delta` (Q32.32 log2 units), saturating at
    /// the zoom bounds. `delta > 0` zooms out (the scale grows), `delta <
    /// 0` zooms in; opposite deltas cancel exactly while no bound is hit.
    pub fn zoom(&mut self, delta: i64)
        requires
            old(self).wf(),
        ensures
            *final(self) == zoom_spec(*old(self), delta as int),
            final(self).wf(),
    {
        let z: i128 = self.zoom_level as i128 + delta as i128;
        let nz: u64 = if z < 0 {
            0
        } else if z > ZOOM_MAX as i128 {
            ZOOM_MAX
        } else {
            z as u64
        };
        self.zoom_level = nz;
    }

    /// Translate the view by a drag of `(delta_x, delta_y)` pixels: the
    /// center moves by the pixel delta times the scale, against the drag,
    /// saturating at `CENTER_LIMIT`. Exact fixed-point arithmetic: no
    /// rounding, so an equal opposite drag restores the center while no
    /// bound is hit.
    pub fn pan_by_pixels(&mut self, delta_x: i64, delta_y: i64)
        requires
            old(self).wf(),
        ensures
            *final(self) == pan_spec(*old(self), delta_x as int, delta_y as int),
            final(self).wf(),
    {
        let sc: i64 = self.scale();
        assert(forall|d: int|
            -0x8000_0000_0000_0000 <= d <= 0x7FFF_FFFF_FFFF_FFFF
                ==> -0x4_0000_0000_0000_0000_0000_0000 <= #[trigger] (d * sc) <= 0x4_0000_0000_0000_0000_0000_0000) by (nonlinear_arith)
            requires
                0 <= sc < 0x8_0000_0000,
        ;
        let px: i128 = delta_x as i128 * sc as i128;
        let py: i128 = delta_y as i128 * sc as i128;
        self.center_x = clamp_i128(self.center_x as i128 - px, -CENTER_LIMIT, CENTER_LIMIT);
        self.center_y = clamp_i128(self.center_y as i128 - py, -CENTER_LIMIT, CENTER_LIMIT);
    }

    /// Move the center one `NUDGE_DIVISOR`-th of the visible width or
    /// height in a cardinal direction: the perceived step is constant
    /// regardless of zoom level.
    pub fn nudge(&mut self, dir: Direction)
        requires
            old(self).wf(),
        ensures
            *final(self) == nudge_spec(*old(self), dir),
            final(self).wf(),
    {
        let sc: i64 = self.scale();
        assert(forall|e: int|
            0 <= e <= 0xFFFF_FFFF ==> 0 <= #[trigger] (e * sc)
                <= 0x8_0000_0000_0000_0000_0) by (nonlinear_arith)
            requires
                0 <= sc < 0x8_0000_0000,
        ;
        let step_x: i128 = ((self.extent.x as u128 * sc as u128) / NUDGE_DIVISOR as u128) as i128;
        let step_y: i128 = ((self.extent.y as u128 * sc as u128) / NUDGE_DIVISOR as u128) as i128;
        match dir {
            Direction::Left => {
                self.center_x = clamp_i128(
                    self.center_x as i128 - step_x,
                    -CENTER_LIMIT,
                    CENTER_LIMIT,
                );
            },
            Direction::Right => {
                self.center_x = clamp_i128(
                    self.center_x as i128 + step_x,
                    -CENTER_LIMIT,
                    CENTER_LIMIT,
                );
            },
            Direction::Up => {
                self.center_y = clamp_i128(
                    self.center_y as i128 - step_y,
                    -CENTER_LIMIT,
                    CENTER_LIMIT,
                );
            },
            Direction::Down => {
                self.center_y = clamp_i128(
                    self.center_y as i128 + step_y,
                    -CENTER_LIMIT,
                    CENTER_LIMIT,
                );
            },
        }
    }

    /// Update the extent to the new window size, clamped to at least one
    /// pixel per dimension. The plane point under the center pixel is
    /// preserved exactly: only the visible extent changes.
    pub fn resize(&mut self, width: u32, height: u32)
        requires
            old(self).wf(),
        ensures
            *final(self) == resize_spec(*old(self), width, height),
            final(self).wf(),
    {
        self.extent = UVec2 {
            x: if width == 0 { 1 } else { width },
            y: if height == 0 { 1 } else { height },
        };
    }
}

/// The snapshot taken from a viewport state: fields copied, the scale
/// materialized from the zoom level.
pub open spec fn snapshot_spec(s: ViewportState, max_iterations: u32) -> MandelbrotParams {
    MandelbrotParams {
        center_x: s.center_x,
        center_y: s.center_y,
        scale: scale_spec(s.zoom_level) as i64,
        extent: s.extent,
        max_iterations,
    }
}

/// The state built from raw parts, every field forced into the invariant.
pub open spec fn from_parts_spec(
    center_x: i64,
    center_y: i64,
    zoom_level: u64,
    width: u32,
    height: u32,
) -> ViewportState {
    ViewportState {
        center_x: clamp_spec(center_x as int, -CENTER_LIMIT as int, CENTER_LIMIT as int) as i64,
        center_y: clamp_spec(center_y as int, -CENTER_LIMIT as int, CENTER_LIMIT as int) as i64,
        zoom_level: if zoom_level > ZOOM_MAX {
            ZOOM_MAX
        } else {
            zoom_level
        },
        extent: UVec2 {
            x: if width == 0 { 1u32 } else { width },
            y: if height == 0 { 1u32 } else { height },
        },
    }
}

impl ViewportState {
    /// Produce the immutable parameter snapshot for one compute dispatch:
    /// pure, mutates nothing, and copies the whole mapping, so a later
    /// state change can never reach an already-taken snapshot.
    pub fn snapshot(&self, max_iterations: u32) -> (r: MandelbrotParams)
        requires
            self.wf(),
            max_iterations < SENTINEL,
        ensures
            r == snapshot_spec(*self, max_iterations),
            r.wf(),
    {
        MandelbrotParams {
            center_x: self.center_x,
            center_y: self.center_y,
            scale: self.scale(),
            extent: self.extent,
            max_iterations,
        }
    }

    /// Build a state from raw parts, clamping every field into the
    /// invariant: centers saturate at `CENTER_LIMIT`, the zoom level at
    /// `ZOOM_MAX`, and the extent at one pixel per dimension.
    pub fn from_parts(
        center_x: i64,
        center_y: i64,
        zoom_level: u64,
        width: u32,
        height: u32,
    ) -> (r: ViewportState)
        ensures
            r == from_parts_spec(center_x, center_y, zoom_level, width, height),
            r.wf(),
    {
        ViewportState {
            center_x: clamp_i128(center_x as i128, -CENTER_LIMIT, CENTER_LIMIT),
            center_y: clamp_i128(center_y as i128, -CENTER_LIMIT, CENTER_LIMIT),
            zoom_level: if zoom_level > ZOOM_MAX {
                ZOOM_MAX
            } else {
                zoom_level
            },
            extent: UVec2 {
                x: if width == 0 { 1 } else { width },
                y: if height == 0 { 1 } else { height },
            },
        }
    }

    /// The startup state for a window of the given pixel size: centered
    /// on `(-0.5, 0)`, at the coarsest whole zoom level whose vertical
    /// span is at most four plane units — so the whole escape disc is in
    /// view regardless of the window size, bounded by the zoom range.
    pub fn new(width: u32, height: u32) -> (r: ViewportState)
        ensures
            r.wf(),
            r.center_x == -0x8000_0000i64,
            r.center_y == 0,
            r.extent.x == if width == 0 { 1u32 } else { width },
            r.extent.y == if height == 0 { 1u32 } else { height },
            r.zoom_level % ZOOM_UNIT == 0,
            scale_spec(r.zoom_level) * r.extent.y <= 0x4_0000_0000 || r.zoom_level == 0,
            r.zoom_level == ZOOM_MAX || scale_spec((r.zoom_level + ZOOM_UNIT) as u64)
                * r.extent.y > 0x4_0000_0000,
    {
        let w: u32 = if width == 0 { 1 } else { width };
        let h: u32 = if height == 0 { 1 } else { height };
        let mut z: u64 = ZOOM_MAX;
        let mut sc: u64 = 0x4_0000_0000;
        proof {
            lemma_mod_multiples_basic(28, 0x1_0000_0000);
            lemma_div_by_multiple(28, 0x1_0000_0000);
            lemma_scale_whole_level(ZOOM_MAX);
            lemma2_to64_rest();
        }
        while z > 0 && (sc as u128) * (h as u128) > 0x4_0000_0000
            invariant
                z <= ZOOM_MAX,
                z % ZOOM_UNIT == 0,
                h >= 1,
                sc as int == scale_spec(z),
                64 <= sc <= 0x4_0000_0000,
                sc as int * h as int <= 0x4_0000_0000_0000_0000,
                z == ZOOM_MAX || scale_spec((z + ZOOM_UNIT) as u64) * h > 0x4_0000_0000,
            decreases z,
        {
            proof {
                lemma_fundamental_div_mod(z as int, 0x1_0000_0000);
                lemma_scale_whole_level(z);
            }
            let ghost zq: int = z as int / 0x1_0000_0000;
            z = z - ZOOM_UNIT;
            sc = sc / 2;
            proof {
                assert(z as int == 0x1_0000_0000 * (zq - 1));
                assert(z as int == (zq - 1) * 0x1_0000_0000);
                lemma_mod_multiples_basic(zq - 1, 0x1_0000_0000);
                lemma_div_multiples_vanish(zq - 1, 0x1_0000_0000);
                lemma_scale_whole_level(z);
                lemma_pow2_adds((zq + 5) as nat, 1);
                lemma2_to64();
                lemma2_to64_rest();
                lemma_div_multiples_vanish(pow2((zq + 5) as nat) as int, 2);
                if zq + 5 > 6 {
                    lemma_pow2_strictly_increases(6, (zq + 5) as nat);
                }
                lemma_pow2_strictly_increases((zq + 5) as nat, 34);
                lemma_mul_inequality(sc as int, 0x4_0000_0000, h as int);
            }
        }
        ViewportState {
            center_x: -0x8000_0000,
            center_y: 0,
            zoom_level: z,
            extent: UVec2 { x: w, y: h },
        }
    }
}

/// At a whole zoom level (fraction zero) the scale is exactly a power of
/// two: `2^(z/ZOOM_UNIT + 6)` raw.
pub proof fn lemma_scale_whole_level(z: u64)
    requires
        z <= ZOOM_MAX,
        z % ZOOM_UNIT == 0,
    ensures
        scale_spec(z) == pow2((z / ZOOM_UNIT + 6) as nat),
{
    let n: nat = (z / 0x1_0000_0000) as nat;
    lemma2_to64();
    lemma_pow2_adds(32, n);
    lemma_pow2_adds(26, n + 6);
    lemma_div_multiples_vanish(pow2(n + 6) as int, pow2(26) as int);
    assert(0x1_0000_0000 * pow2(n) == pow2(32 + n));
    assert(scale_spec(z) == pow2(32 + n) as int / 0x400_0000);
    assert(pow2(32 + n) == pow2(26) * pow2(n + 6));
}

/// Resize preserves the plane coordinate of the center pixel: under any
/// snapshot, the pixel at half the extent maps exactly to the stored
/// center, before and after a resize.
pub proof fn lemma_center_pixel_maps_to_center(s: ViewportState, max_iterations: u32)
    requires
        s.wf(),
    ensures
        crate::engine::point_x_spec(
            snapshot_spec(s, max_iterations),
            s.extent.x as int / 2,
        ) == s.center_x,
        crate::engine::point_y_spec(
            snapshot_spec(s, max_iterations),
            s.extent.y as int / 2,
        ) == s.center_y,
{
    let p = snapshot_spec(s, max_iterations);
    lemma_mul_basics(p.scale as int);
    assert((s.extent.x as int / 2 - p.extent.x as int / 2) * p.scale == 0);
    assert((s.extent.y as int / 2 - p.extent.y as int / 2) * p.scale == 0);
}

/// Resizing never moves the view: the center pixel of the resized state
/// maps to the same plane point as the center pixel before the resize —
/// exactly, with no tolerance.
pub proof fn lemma_resize_preserves_center_point(
    s: ViewportState,
    width: u32,
    height: u32,
    max_iterations: u32,
)
    requires
        s.wf(),
    ensures
        crate::engine::point_x_spec(
            snapshot_spec(resize_spec(s, width, height), max_iterations),
            resize_spec(s, width, height).extent.x as int / 2,
        ) == crate::engine::point_x_spec(
            snapshot_spec(s, max_iterations),
            s.extent.x as int / 2,
        ),
        crate::engine::point_y_spec(
            snapshot_spec(resize_spec(s, width, height), max_iterations),
            resize_spec(s, width, height).extent.y as int / 2,
        ) == crate::engine::point_y_spec(
            snapshot_spec(s, max_iterations),
            s.extent.y as int / 2,
        ),
{
    lemma_center_pixel_maps_to_center(s, max_iterations);
    lemma_center_pixel_maps_to_center(resize_spec(s, width, height), max_iterations);
}

/// Zoom is exactly invertible: `zoom(d)` then `zoom(-d)` restores the
/// state, provided the first step does not saturate at a zoom bound
/// (saturation forgets how far past the bound the request went).
pub proof fn lemma_zoom_round_trip(s: ViewportState, delta: int)
    requires
        s.wf(),
        0 <= s.zoom_level + delta <= ZOOM_MAX,
    ensures
        zoom_spec(zoom_spec(s, delta), -delta) == s,
{
}

/// Panning is exactly invertible: a drag followed by the opposite drag
/// restores the center, provided the first drag does not saturate at
/// `CENTER_LIMIT` (pure fixed-point arithmetic, no precision loss).
pub proof fn lemma_pan_round_trip(s: ViewportState, dx: int, dy: int)
    requires
        s.wf(),
        -CENTER_LIMIT <= s.center_x - dx * scale_spec(s.zoom_level) <= CENTER_LIMIT,
        -CENTER_LIMIT <= s.center_y - dy * scale_spec(s.zoom_level) <= CENTER_LIMIT,
    ensures
        pan_spec(pan_spec(s, dx, dy), -dx, -dy) == s,
{
    let sc: int = scale_spec(s.zoom_level);
    lemma_mul_unary_negation(dx, sc);
    lemma_mul_unary_negation(dy, sc);
}

/// The scale is monotone in the zoom level: zooming out (a positive
/// delta) never shrinks the scale and zooming in never grows it.
pub proof fn lemma_scale_monotone(z1: u64, z2: u64)
    requires
        z1 <= z2 <= ZOOM_MAX,
    ensures
        scale_spec(z1) <= scale_spec(z2),
{
    let n1: nat = (z1 / 0x1_0000_0000) as nat;
    let n2: nat = (z2 / 0x1_0000_0000) as nat;
    let mant1: int = 0x1_0000_0000 + (z1 % 0x1_0000_0000) as int;
    let mant2: int = 0x1_0000_0000 + (z2 % 0x1_0000_0000) as int;
    lemma_div_is_ordered(z1 as int, z2 as int, 0x1_0000_0000);
    lemma_pow2_pos(n1);
    lemma_pow2_pos(n2);
    if n1 == n2 {
        lemma_fundamental_div_mod(z1 as int, 0x1_0000_0000);
        lemma_fundamental_div_mod(z2 as int, 0x1_0000_0000);
        lemma_mul_inequality(mant1, mant2, pow2(n1) as int);
    } else {
        lemma2_to64();
        lemma2_to64_rest();
        lemma_mul_strict_inequality(mant1, 0x2_0000_0000, pow2(n1) as int);
        lemma_pow2_adds(33, n1);
        if 33 + n1 < 32 + n2 {
            lemma_pow2_strictly_increases(33 + n1, 32 + n2);
        }
        lemma_pow2_adds(32, n2);
        lemma_mul_inequality(0x1_0000_0000, mant2, pow2(n2) as int);
        assert(0x2_0000_0000 * pow2(n1) == pow2(33 + n1));
        assert(0x1_0000_0000 * pow2(n2) == pow2(32 + n2));
    }
    lemma_div_is_ordered(mant1 * pow2(n1) as int, mant2 * pow2(n2) as int, 0x400_0000);
}

/// The direction of `zoom(delta)`: a nonnegative delta never shrinks the
/// scale (zoom out), a nonpositive one never grows it (zoom in).
pub proof fn lemma_zoom_direction(s: ViewportState, delta: int)
    requires
        s.wf(),
    ensures
        delta >= 0 ==> scale_spec(zoom_spec(s, delta).zoom_level) >= scale_spec(s.zoom_level),
        delta <= 0 ==> scale_spec(zoom_spec(s, delta).zoom_level) <= scale_spec(s.zoom_level),
{
    let z2: u64 = zoom_spec(s, delta).zoom_level;
    if delta >= 0 {
        lemma_scale_monotone(s.zoom_level, z2);
    } else {
        lemma_scale_monotone(z2, s.zoom_level);
    }
}

/// The scale encoded by any in-range zoom level sits in
/// `[SCALE_MIN, SCALE_LIMIT)`: in particular it is always positive.
pub proof fn lemma_scale_spec_bounds(zoom_level: u64)
    requires
        zoom_level <= ZOOM_MAX,
    ensures
        SCALE_MIN <= scale_spec(zoom_level) < SCALE_LIMIT,
{
    let frac: int = (zoom_level % 0x1_0000_0000) as int;
    let n: nat = (zoom_level / 0x1_0000_0000) as nat;
    let mant: int = 0x1_0000_0000 + frac;
    assert(n <= 28);
    lemma2_to64();
    if n < 28 {
        lemma_pow2_strictly_increases(n, 28);
    }
    lemma_pow2_pos(n);
    let p2: int = pow2(n) as int;
    assert(0x1_0000_0000 <= mant * p2 < 0x2000_0000_0000_0000) by (nonlinear_arith)
        requires
            0x1_0000_0000 <= mant < 0x2_0000_0000,
            1 <= p2 <= 0x1000_0000,
    ;
    lemma_div_is_ordered(0x1_0000_0000, mant * p2, 0x400_0000);
    lemma_div_is_ordered(mant * p2, 0x1FFF_FFFF_FFFF_FFFF, 0x400_0000);
}

} // verus!
