//! The quadratic B-spline interpolation kernel and the 3x3 stencil around a particle.
//!
//! Along one axis the three weights are exact integers in units of
//! `1 / AXIS_ONE`. The weight of a stencil cell is the product of two of them,
//! rounded down to units of `1 / WEIGHT_ONE`.
use vstd::prelude::*;

use crate::fixed::{div_floor, floor_div, fixed_mul, fx_mul, HALF, ONE};
use crate::linalg::{vec2, Mat2, Vec2};

verus! {

/// One along an axis, in the unit of the per-axis weights (`2 * ONE * ONE`).
pub const AXIS_ONE: i64 = 2199023255552;

/// One, in the unit of the stencil weights (`AXIS_ONE * AXIS_ONE / ONE`).
pub const WEIGHT_ONE: i128 = 4611686018427387904;

/// The largest grid width accepted: the most for which the number of cells
/// fits a 32-bit `usize`.
pub const MAX_WIDTH: usize = 65535;

/// Weight `g` (0, 1 or 2) along one axis, for an offset `d` (in fixed point)
/// from the centre of the particle's cell:
/// `0.5 * (0.5 - d)^2`, `0.75 - d^2`, `0.5 * (0.5 + d)^2`.
pub open spec fn axis_weight(d: int, g: int) -> int {
    if g == 0 {
        (HALF - d) * (HALF - d)
    } else if g == 1 {
        6 * HALF * HALF - 2 * d * d
    } else {
        (HALF + d) * (HALF + d)
    }
}

/// The cell that holds coordinate `c`.
pub open spec fn base_cell(c: int) -> int {
    floor_div(c, ONE as int)
}

/// Offset of coordinate `c` from the centre of its cell.
pub open spec fn cell_diff(c: int) -> int {
    c - base_cell(c) * ONE - HALF
}

/// Slot `k` of the stencil covers the cell offset by `(k % 3 - 1, k / 3 - 1)`.
pub open spec fn slot_gx(k: int) -> int {
    k % 3
}

pub open spec fn slot_gy(k: int) -> int {
    k / 3
}

/// Weight of stencil slot `k` for a particle at `p`: the product of its two
/// axis weights, in units of `1 / WEIGHT_ONE`.
pub open spec fn stencil_weight(p: Vec2, k: int) -> int {
    floor_div(
        axis_weight(cell_diff(p.x as int), slot_gx(k)) * axis_weight(cell_diff(p.y as int), slot_gy(k)),
        ONE as int,
    )
}

pub open spec fn stencil_cell_x(p: Vec2, k: int) -> int {
    base_cell(p.x as int) + slot_gx(k) - 1
}

pub open spec fn stencil_cell_y(p: Vec2, k: int) -> int {
    base_cell(p.y as int) + slot_gy(k) - 1
}

/// Index in the grid of stencil slot `k`.
pub open spec fn stencil_index(p: Vec2, width: int, k: int) -> int {
    stencil_cell_x(p, k) * width + stencil_cell_y(p, k)
}

/// Offset from the particle to the centre of stencil slot `k`'s cell.
pub open spec fn stencil_dist(p: Vec2, k: int) -> Vec2 {
    vec2(
        (slot_gx(k) - 1) * ONE - cell_diff(p.x as int),
        (slot_gy(k) - 1) * ONE - cell_diff(p.y as int),
    )
}

/// `p` lies where its whole stencil is inside a grid of the given width.
pub open spec fn in_domain(p: Vec2, width: int) -> bool {
    ONE <= p.x < (width - 1) * ONE && ONE <= p.y < (width - 1) * ONE
}

/// `value * w`, with `w` a stencil weight, rounded toward negative infinity.
pub open spec fn weigh(value: int, w: int) -> int {
    floor_div(value * w, WEIGHT_ONE as int)
}

pub open spec fn weigh_vec(v: Vec2, w: int) -> Vec2 {
    vec2(weigh(v.x as int, w), weigh(v.y as int, w))
}

/// Columns `(wv.x * cd.x, wv.y * cd.x)` and `(wv.x * cd.y, wv.y * cd.y)`.
pub open spec fn outer_term(wv: Vec2, cd: Vec2) -> Mat2 {
    Mat2 {
        x_axis: vec2(fx_mul(wv.x as int, cd.x as int), fx_mul(wv.y as int, cd.x as int)),
        y_axis: vec2(fx_mul(wv.x as int, cd.y as int), fx_mul(wv.y as int, cd.y as int)),
    }
}

/// One cell of a particle's stencil.
#[derive(Clone, Copy, Debug, PartialEq, Eq, Structural)]
pub struct Neighbor {
    pub index: usize,
    pub weight: i128,
    pub dist: Vec2,
}

pub open spec fn neighbor_spec(p: Vec2, width: int, k: int) -> Neighbor {
    Neighbor {
        index: stencil_index(p, width, k) as usize,
        weight: stencil_weight(p, k) as i128,
        dist: stencil_dist(p, k),
    }
}

/// The three weights along each axis for an offset `cell_diff` from the centre
/// of the particle's cell; entry `g` holds the x weight and the y weight.
pub fn quadratic_interpolation_weights(cell_diff: Vec2) -> (r: [Vec2; 3])
    requires
        -HALF <= cell_diff.x <= HALF,
        -HALF <= cell_diff.y <= HALF,
    ensures
        forall|g: int|
            0 <= g < 3 ==> (#[trigger] r@[g]).x == axis_weight(cell_diff.x as int, g) && r@[g].y
                == axis_weight(cell_diff.y as int, g),
{
    let dx = cell_diff.x;
    let dy = cell_diff.y;
    proof {
        lemma_axis_weight_bounds(dx as int);
        lemma_axis_weight_bounds(dy as int);
    }
    let r = [
        Vec2 { x: (HALF - dx) * (HALF - dx), y: (HALF - dy) * (HALF - dy) },
        Vec2 { x: 6 * HALF * HALF - 2 * dx * dx, y: 6 * HALF * HALF - 2 * dy * dy },
        Vec2 { x: (HALF + dx) * (HALF + dx), y: (HALF + dy) * (HALF + dy) },
    ];
    r
}

/// The outer product `[[wv.x * cd.x, wv.y * cd.x], [wv.x * cd.y, wv.y * cd.y]]`
/// (columns), a velocity weighted by a stencil cell times that cell's offset.
pub fn weighted_velocity_and_cell_dist_to_term(weighted_velocity: Vec2, cell_dist: Vec2) -> (r: Mat2)
    ensures
        r == outer_term(weighted_velocity, cell_dist),
{
    Mat2 {
        x_axis: Vec2 {
            x: fixed_mul(weighted_velocity.x, cell_dist.x),
            y: fixed_mul(weighted_velocity.y, cell_dist.x),
        },
        y_axis: Vec2 {
            x: fixed_mul(weighted_velocity.x, cell_dist.y),
            y: fixed_mul(weighted_velocity.y, cell_dist.y),
        },
    }
}

pub proof fn lemma_axis_weight_bounds(d: int)
    requires
        -HALF <= d <= HALF,
    ensures
        forall|g: int| 0 <= g < 3 ==> 0 <= #[trigger] axis_weight(d, g) <= 6 * HALF * HALF,
        forall|g: int| 0 <= g < 3 ==> #[trigger] axis_weight(d, g) <= AXIS_ONE,
        axis_weight(d, 0) + axis_weight(d, 1) + axis_weight(d, 2) == AXIS_ONE,
{
    let h = HALF as int;
    assert(0 <= (h - d) * (h - d) <= 4 * h * h) by (nonlinear_arith)
        requires
            -h <= d <= h,
            h > 0,
    ;
    assert(0 <= (h + d) * (h + d) <= 4 * h * h) by (nonlinear_arith)
        requires
            -h <= d <= h,
            h > 0,
    ;
    assert(0 <= 2 * d * d <= 2 * h * h) by (nonlinear_arith)
        requires
            -h <= d <= h,
    ;
    assert((h - d) * (h - d) + (6 * h * h - 2 * d * d) + (h + d) * (h + d) == 8 * h * h)
        by (nonlinear_arith);
    assert(0 <= axis_weight(d, 0) <= 6 * HALF * HALF);
    assert(0 <= axis_weight(d, 1) <= 6 * HALF * HALF);
    assert(0 <= axis_weight(d, 2) <= 6 * HALF * HALF);
}

/// What a stencil slot of a particle in the domain satisfies: its weight is
/// between zero and one, its cell lies in the grid, its offset is under two cells.
pub proof fn lemma_stencil_bounds(p: Vec2, width: int, k: int)
    requires
        3 <= width <= MAX_WIDTH,
        in_domain(p, width),
        0 <= k < 9,
    ensures
        0 <= stencil_weight(p, k) <= WEIGHT_ONE,
        0 <= stencil_cell_x(p, k) < width,
        0 <= stencil_cell_y(p, k) < width,
        0 <= stencil_index(p, width, k) < width * width,
        -HALF <= cell_diff(p.x as int) < HALF,
        -HALF <= cell_diff(p.y as int) < HALF,
        -2 * ONE <= (slot_gx(k) - 1) * ONE - cell_diff(p.x as int) <= 2 * ONE,
        -2 * ONE <= (slot_gy(k) - 1) * ONE - cell_diff(p.y as int) <= 2 * ONE,
{
    let one = ONE as int;
    vstd::arithmetic::div_mod::lemma_fundamental_div_mod(p.x as int, one);
    vstd::arithmetic::div_mod::lemma_fundamental_div_mod(p.y as int, one);
    let bx = base_cell(p.x as int);
    let by = base_cell(p.y as int);
    assert(1 <= bx <= width - 2) by (nonlinear_arith)
        requires
            p.x == one * bx + (p.x as int) % one,
            0 <= (p.x as int) % one < one,
            one <= p.x < (width - 1) * one,
            one > 0,
    ;
    assert(1 <= by <= width - 2) by (nonlinear_arith)
        requires
            p.y == one * by + (p.y as int) % one,
            0 <= (p.y as int) % one < one,
            one <= p.y < (width - 1) * one,
            one > 0,
    ;
    lemma_axis_weight_bounds(cell_diff(p.x as int));
    lemma_axis_weight_bounds(cell_diff(p.y as int));
    let a = axis_weight(cell_diff(p.x as int), slot_gx(k));
    let b = axis_weight(cell_diff(p.y as int), slot_gy(k));
    let top = AXIS_ONE as int;
    assert(0 <= a * b <= top * top) by (nonlinear_arith)
        requires
            0 <= a <= top,
            0 <= b <= top,
    ;
    vstd::arithmetic::div_mod::lemma_div_is_ordered(a * b, top * top, one);
    vstd::arithmetic::div_mod::lemma_div_pos_is_pos(a * b, one);
    assert(top * top == WEIGHT_ONE * one);
    vstd::arithmetic::div_mod::lemma_div_by_multiple(WEIGHT_ONE as int, one);
    let cx = stencil_cell_x(p, k);
    let cy = stencil_cell_y(p, k);
    assert(0 <= cx * width + cy < width * width) by (nonlinear_arith)
        requires
            0 <= cx < width,
            0 <= cy < width,
    ;
}

/// `value * w`, with `w` a stencil weight, rounded toward negative infinity;
/// the result lies between zero and `value`.
pub fn weigh_value(value: i64, w: i128) -> (r: i64)
    requires
        0 <= w <= WEIGHT_ONE,
    ensures
        r == weigh(value as int, w as int),
        value >= 0 ==> 0 <= r <= value,
        value < 0 ==> value <= r <= 0,
{
    proof {
        let v = value as int;
        let wi = w as int;
        let top = WEIGHT_ONE as int;
        assert(-0x8000_0000_0000_0000 * top <= v * wi <= 0x8000_0000_0000_0000 * top)
            by (nonlinear_arith)
            requires
                -0x8000_0000_0000_0000 <= v < 0x8000_0000_0000_0000,
                0 <= wi <= top,
        ;
        if v >= 0 {
            assert(0 <= v * wi <= v * top) by (nonlinear_arith)
                requires
                    v >= 0,
                    0 <= wi <= top,
            ;
            vstd::arithmetic::div_mod::lemma_div_is_ordered(v * wi, v * top, top);
            vstd::arithmetic::div_mod::lemma_div_by_multiple(v, top);
            vstd::arithmetic::div_mod::lemma_div_pos_is_pos(v * wi, top);
        } else {
            assert(v * top <= v * wi <= 0) by (nonlinear_arith)
                requires
                    v < 0,
                    0 <= wi <= top,
            ;
            vstd::arithmetic::div_mod::lemma_div_is_ordered(v * top, v * wi, top);
            vstd::arithmetic::div_mod::lemma_div_is_ordered(v * wi, 0, top);
            vstd::arithmetic::div_mod::lemma_fundamental_div_mod_converse(v * top, top, v, 0);
        }
    }
    let p: i128 = value as i128 * w;
    div_floor(p, WEIGHT_ONE) as i64
}

pub fn weigh_vec2(v: Vec2, w: i128) -> (r: Vec2)
    requires
        0 <= w <= WEIGHT_ONE,
    ensures
        r == weigh_vec(v, w as int),
{
    Vec2 { x: weigh_value(v.x, w), y: weigh_value(v.y, w) }
}

/// Slot `k` of the stencil of a particle at `position`, in a grid of the given width.
pub fn neighbor_at(position: Vec2, width: usize, k: usize) -> (r: Neighbor)
    requires
        3 <= width <= MAX_WIDTH,
        in_domain(position, width as int),
        k < 9,
    ensures
        r == neighbor_spec(position, width as int, k as int),
        0 <= r.weight <= WEIGHT_ONE,
        r.index < width * width,
{
    proof {
        lemma_stencil_bounds(position, width as int, k as int);
    }
    let bx: i64 = position.x / ONE;
    let by: i64 = position.y / ONE;
    let diff = Vec2 { x: position.x - bx * ONE - HALF, y: position.y - by * ONE - HALF };
    let w = quadratic_interpolation_weights(diff);
    let gx: usize = k % 3;
    let gy: usize = k / 3;
    proof {
        lemma_axis_weight_bounds(diff.x as int);
        lemma_axis_weight_bounds(diff.y as int);
    }
    let weight: i128 = (w[gx].x as i128 * w[gy].y as i128) / (ONE as i128);
    let cx: usize = (bx as usize + gx) - 1;
    let cy: usize = (by as usize + gy) - 1;
    proof {
        assert(cx * width + cy < width * width <= 65535 * 65535) by (nonlinear_arith)
            requires
                cx < width,
                cy < width,
                width <= 65535,
        ;
    }
    let index: usize = cx * width + cy;
    let dist = Vec2 { x: (gx as i64 - 1) * ONE - diff.x, y: (gy as i64 - 1) * ONE - diff.y };
    Neighbor { index, weight, dist }
}

/// The kernel is a partition of unity: for any offset in `[-0.5, 0.5]^2` the
/// nine products of axis weights sum to exactly one (`AXIS_ONE * AXIS_ONE`).
pub proof fn lemma_weights_sum_to_one(dx: int, dy: int)
    requires
        -HALF <= dx <= HALF,
        -HALF <= dy <= HALF,
    ensures
        axis_weight(dx, 0) * axis_weight(dy, 0) + axis_weight(dx, 1) * axis_weight(dy, 0)
            + axis_weight(dx, 2) * axis_weight(dy, 0) + axis_weight(dx, 0) * axis_weight(dy, 1)
            + axis_weight(dx, 1) * axis_weight(dy, 1) + axis_weight(dx, 2) * axis_weight(dy, 1)
            + axis_weight(dx, 0) * axis_weight(dy, 2) + axis_weight(dx, 1) * axis_weight(dy, 2)
            + axis_weight(dx, 2) * axis_weight(dy, 2) == AXIS_ONE * AXIS_ONE,
{
    lemma_axis_weight_bounds(dx);
    lemma_axis_weight_bounds(dy);
    let (a0, a1, a2) = (axis_weight(dx, 0), axis_weight(dx, 1), axis_weight(dx, 2));
    let (b0, b1, b2) = (axis_weight(dy, 0), axis_weight(dy, 1), axis_weight(dy, 2));
    let one = AXIS_ONE as int;
    assert(a0 * b0 + a1 * b0 + a2 * b0 + a0 * b1 + a1 * b1 + a2 * b1 + a0 * b2 + a1 * b2 + a2 * b2
        == one * one) by (nonlinear_arith)
        requires
            a0 + a1 + a2 == one,
            b0 + b1 + b2 == one,
    ;
}

} // verus!
