//! Grid-to-particle gather, advection and the deformation-gradient update.
use vstd::prelude::*;

use crate::fixed::{fixed_add, fixed_div, fixed_sub, fx_add, fx_div, fx_mul, fx_sub, ONE};
use crate::grid::{Cell, Grid};
use crate::kernel::{
    in_domain, neighbor_at, neighbor_spec, outer_term, weigh_vec, weigh_vec2,
    weighted_velocity_and_cell_dist_to_term, MAX_WIDTH,
};
use crate::linalg::{
    identity_mat, mat_add, mat_mul, mat_scale, vec2, vec_add, vec_scale, zero_mat, zero_vec, Mat2,
    Vec2,
};
use crate::particle::{all_in_domain, store_wf, Material, NeoHookeanHyperElasticModel, Particle};
use crate::world::{Boundary, WorldState};

verus! {

/// The velocity of stencil slot `k`'s cell, times the slot's weight.
pub open spec fn weighted_cell_velocity(cells: Seq<Cell>, width: int, p: Vec2, k: int) -> Vec2 {
    let n = neighbor_spec(p, width, k);
    weigh_vec(cells[n.index as int].velocity, n.weight as int)
}

/// Sum over the first `k` slots of the weighted cell velocities.
pub open spec fn gathered_velocity(cells: Seq<Cell>, width: int, p: Vec2, k: nat) -> Vec2
    decreases k,
{
    if k == 0 {
        zero_vec()
    } else {
        vec_add(
            gathered_velocity(cells, width, p, (k - 1) as nat),
            weighted_cell_velocity(cells, width, p, k - 1),
        )
    }
}

/// Sum over the first `k` slots of the outer products of weighted velocity and
/// offset to the cell.
pub open spec fn gathered_b(cells: Seq<Cell>, width: int, p: Vec2, k: nat) -> Mat2
    decreases k,
{
    if k == 0 {
        zero_mat()
    } else {
        mat_add(
            gathered_b(cells, width, p, (k - 1) as nat),
            outer_term(
                weighted_cell_velocity(cells, width, p, k - 1),
                neighbor_spec(p, width, k - 1).dist,
            ),
        )
    }
}

pub open spec fn clamp(v: int, lo: int, hi: int) -> int {
    if v < lo {
        lo
    } else if v > hi {
        hi
    } else {
        v
    }
}

/// A velocity component after the soft walls at `lo` and `hi`: where the
/// projected coordinate `next` passes one, the overshoot is taken off.
pub open spec fn wall_push(v: int, next: int, lo: int, hi: int) -> int {
    let v1 = if next < lo {
        fx_add(v, fx_sub(lo, next))
    } else {
        v
    };
    if next > hi {
        fx_add(v1, fx_sub(hi, next))
    } else {
        v1
    }
}

/// A particle after the gather: velocity and affine matrix rebuilt from the
/// grid, position advanced and clamped to `[1, width - 2]`, then the velocity
/// slowed where the projected path crosses a soft wall.
pub open spec fn gathered(p: Particle, cells: Seq<Cell>, width: int, dt: int, b: Boundary) -> Particle {
    let v = gathered_velocity(cells, width, p.position, 9);
    let c = mat_scale(gathered_b(cells, width, p.position, 9), 4 * ONE);
    let moved = vec_add(p.position, vec_scale(v, dt));
    let hi = (width - 2) * ONE;
    let pos = vec2(clamp(moved.x as int, ONE as int, hi), clamp(moved.y as int, ONE as int, hi));
    let ahead = fx_div(b.lookahead as int, dt);
    let next = vec_add(pos, vec_scale(vec_scale(v, dt), ahead));
    let wall_max = fx_sub((width - 1) * ONE, b.wall as int);
    Particle {
        position: pos,
        velocity: vec2(
            wall_push(v.x as int, next.x as int, b.wall as int, wall_max),
            wall_push(v.y as int, next.y as int, b.wall as int, wall_max),
        ),
        affine_momentum: c,
        ..p
    }
}

/// The gather reads no affine matrix: particles at the same place leave it with
/// the same position, velocity and affine matrix, whatever matrices they
/// brought. With the zero-affine scatter this makes the round trip plain
/// particle-in-cell when every affine matrix is zero.
pub proof fn lemma_gather_ignores_affine(
    p: Particle,
    q: Particle,
    cells: Seq<Cell>,
    width: int,
    dt: int,
    b: Boundary,
)
    requires
        p.position == q.position,
    ensures
        gathered(p, cells, width, dt, b).position == gathered(q, cells, width, dt, b).position,
        gathered(p, cells, width, dt, b).velocity == gathered(q, cells, width, dt, b).velocity,
        gathered(p, cells, width, dt, b).affine_momentum == gathered(q, cells, width, dt, b).affine_momentum,
{
}

fn wall_push_exec(v: i64, next: i64, lo: i64, hi: i64) -> (r: i64)
    ensures
        r == wall_push(v as int, next as int, lo as int, hi as int),
{
    let v1 = if next < lo {
        fixed_add(v, fixed_sub(lo, next))
    } else {
        v
    };
    if next > hi {
        fixed_add(v1, fixed_sub(hi, next))
    } else {
        v1
    }
}

fn clamp_exec(v: i64, lo: i64, hi: i64) -> (r: i64)
    ensures
        r == clamp(v as int, lo as int, hi as int),
{
    if v < lo {
        lo
    } else if v > hi {
        hi
    } else {
        v
    }
}

fn gather_particle(p: &mut Particle, cells: &Vec<Cell>, width: usize, dt: i64, b: Boundary)
    requires
        3 <= width <= MAX_WIDTH,
        cells@.len() == width * width,
        in_domain(old(p).position, width as int),
    ensures
        *final(p) == gathered(*old(p), cells@, width as int, dt as int, b),
        in_domain(final(p).position, width as int),
{
    let pos0 = p.position;
    let mut v = Vec2::zero();
    let mut bm = Mat2::zero();
    let mut k: usize = 0;
    while k < 9
        invariant
            k <= 9,
            3 <= width <= MAX_WIDTH,
            cells@.len() == width * width,
            in_domain(pos0, width as int),
            v == gathered_velocity(cells@, width as int, pos0, k as nat),
            bm == gathered_b(cells@, width as int, pos0, k as nat),
        decreases 9 - k,
    {
        let n = neighbor_at(pos0, width, k);
        let wv = weigh_vec2(cells[n.index].velocity, n.weight);
        bm = bm.add(weighted_velocity_and_cell_dist_to_term(wv, n.dist));
        v = v.add(wv);
        k = k + 1;
    }
    let c = bm.scale(4 * ONE);
    let moved = pos0.add(v.scale(dt));
    let hi: i64 = (width as i64 - 2) * ONE;
    let pos = Vec2 { x: clamp_exec(moved.x, ONE, hi), y: clamp_exec(moved.y, ONE, hi) };
    let ahead = fixed_div(b.lookahead, dt);
    let next = pos.add(v.scale(dt).scale(ahead));
    let wall_max = fixed_sub((width as i64 - 1) * ONE, b.wall);
    p.position = pos;
    p.velocity = Vec2 {
        x: wall_push_exec(v.x, next.x, b.wall, wall_max),
        y: wall_push_exec(v.y, next.y, b.wall, wall_max),
    };
    p.affine_momentum = c;
}

/// Stage C: every particle takes its velocity and affine matrix from the grid
/// and moves. The grid is only read; every particle stays in the domain.
pub fn grid_to_particles(grid: &Grid, particles: &mut Vec<Particle>, world: &WorldState, b: Boundary)
    requires
        grid.wf(),
        store_wf(old(particles)@, grid.width as int),
    ensures
        store_wf(final(particles)@, grid.width as int),
        final(particles)@.len() == old(particles)@.len(),
        forall|i: int|
            0 <= i < old(particles)@.len() ==> #[trigger] final(particles)@[i] == gathered(
                old(particles)@[i],
                grid.cells@,
                grid.width as int,
                world.dt as int,
                b,
            ),
        all_in_domain(final(particles)@, grid.width as int),
{
    let n = particles.len();
    let mut i: usize = 0;
    while i < n
        invariant
            i <= n,
            n == old(particles)@.len(),
            particles@.len() == n,
            grid.wf(),
            store_wf(old(particles)@, grid.width as int),
            store_wf(particles@, grid.width as int),
            forall|j: int| i <= j < n ==> #[trigger] particles@[j] == old(particles)@[j],
            forall|j: int|
                0 <= j < i ==> #[trigger] particles@[j] == gathered(
                    old(particles)@[j],
                    grid.cells@,
                    grid.width as int,
                    world.dt as int,
                    b,
                ),
            forall|j: int| 0 <= j < i ==> in_domain(#[trigger] particles@[j].position, grid.width as int),
        decreases n - i,
    {
        let ghost old_store = particles@;
        let mut p = particles[i];
        gather_particle(&mut p, &grid.cells, grid.width, world.dt, b);
        particles.set(i, p);
        proof {
            assert(p.contributions == old_store[i as int].contributions);
            crate::transfer::lemma_store_wf_set(old_store, i as int, p, grid.width as int);
        }
        i = i + 1;
    }
}

/// `F <- (I + dt * C) * F`.
pub open spec fn deformed(f: Mat2, c: Mat2, dt: int) -> Mat2 {
    mat_mul(mat_add(identity_mat(), mat_scale(c, dt)), f)
}

/// A particle after the deformation update: a solid's gradient advanced by its
/// affine matrix; a fluid unchanged.
pub open spec fn deformation_updated(p: Particle, dt: int) -> Particle {
    match p.material {
        Material::Solid(s) => Particle {
            material: Material::Solid(
                NeoHookeanHyperElasticModel {
                    deformation_gradient: deformed(s.deformation_gradient, p.affine_momentum, dt),
                    ..s
                },
            ),
            ..p
        },
        Material::Fluid(_) => p,
    }
}

/// A diagonal matrix with `a` on the diagonal.
pub open spec fn diag(a: int) -> Mat2 {
    Mat2 { x_axis: vec2(a, 0), y_axis: vec2(0, a) }
}

/// The update multiplies `(I + dt * C)` on the left: from `F = I` with
/// `C = k * I` it gives the isotropic dilation `(1 + dt * k) * I`.
pub proof fn lemma_isotropic_dilation(k: i64, dt: i64)
    requires
        i64::MIN <= ONE + fx_mul(k as int, dt as int) <= i64::MAX,
    ensures
        deformed(identity_mat(), diag(k as int), dt as int) == diag(ONE + fx_mul(k as int, dt as int)),
{
    let a = ONE + fx_mul(k as int, dt as int);
    let one = ONE as int;
    assert(fx_mul(0, dt as int) == 0);
    assert(mat_add(identity_mat(), mat_scale(diag(k as int), dt as int)) == diag(a));
    vstd::arithmetic::div_mod::lemma_fundamental_div_mod_converse(a * one, one, a, 0);
    vstd::arithmetic::div_mod::lemma_fundamental_div_mod_converse(0 * one, one, 0, 0);
    assert(fx_mul(a, one) == a);
    assert(fx_mul(0, one) == 0);
    assert(fx_mul(a, 0) == 0);
    assert(mat_mul(diag(a), identity_mat()) == diag(a));
}

/// Advances every solid's deformation gradient by `(I + dt * C) * F`.
pub fn update_deformation_gradients(particles: &mut Vec<Particle>, world: &WorldState)
    ensures
        forall|w: int| store_wf(old(particles)@, w) ==> store_wf(final(particles)@, w),
        final(particles)@.len() == old(particles)@.len(),
        forall|i: int|
            0 <= i < old(particles)@.len() ==> #[trigger] final(particles)@[i] == deformation_updated(
                old(particles)@[i],
                world.dt as int,
            ),
{
    let n = particles.len();
    let mut i: usize = 0;
    while i < n
        invariant
            i <= n,
            n == old(particles)@.len(),
            particles@.len() == n,
            forall|j: int| i <= j < n ==> #[trigger] particles@[j] == old(particles)@[j],
            forall|j: int|
                0 <= j < n ==> (#[trigger] particles@[j]).position == old(particles)@[j].position
                    && particles@[j].contributions == old(particles)@[j].contributions,
            forall|j: int|
                0 <= j < i ==> #[trigger] particles@[j] == deformation_updated(
                    old(particles)@[j],
                    world.dt as int,
                ),
        decreases n - i,
    {
        let mut p = particles[i];
        match p.material {
            Material::Solid(s) => {
                let f = Mat2::identity().add(p.affine_momentum.scale(world.dt)).mul_mat2(
                    s.deformation_gradient,
                );
                p.material = Material::Solid(
                    NeoHookeanHyperElasticModel {
                        deformation_gradient: f,
                        elastic_lambda: s.elastic_lambda,
                        elastic_mu: s.elastic_mu,
                        min_jacobian: s.min_jacobian,
                    },
                );
            },
            Material::Fluid(_) => {},
        }
        particles.set(i, p);
        i = i + 1;
    }
    assert forall|w: int| store_wf(old(particles)@, w) implies store_wf(particles@, w) by {
        assert forall|j: int| 0 <= j < n implies in_domain(#[trigger] particles@[j].position, w) by {
            assert(in_domain(old(particles)@[j].position, w));
        }
        assert forall|j: int, k: int|
            0 <= j < n && 0 <= k < 9 implies (#[trigger] particles@[j].contributions@[k]).index < w * w by {
            assert(old(particles)@[j].contributions@[k].index < w * w);
        }
    }
}

} // verus!
