//! Constitutive models and the force scatter stages.
//!
//! Both models turn a particle's local density (read from the grid) into a
//! momentum term, a 2x2 matrix that the scatter spreads over the stencil.
use vstd::prelude::*;

use crate::fixed::{
    fixed_add, fixed_div, fixed_max, fixed_mul, fixed_neg, fixed_pow, fixed_sub, fx_add, fx_div,
    fx_max, fx_mul, fx_neg, fx_pow, fx_sub, ONE,
};
use crate::grid::{Cell, Grid};
use crate::kernel::{in_domain, neighbor_at, neighbor_spec, weigh, weigh_value, weigh_vec, weigh_vec2, MAX_WIDTH};
use crate::linalg::{determinant, inverse, mat_add, mat_mul, mat_scale, mat_sub, mat_vec, transpose, vec2, Mat2, Vec2};
use crate::particle::{
    store_wf, GridMassAndMomentumChange, Material, NeoHookeanHyperElasticModel,
    NewtonianFluidModel, Particle,
};
use crate::transfer::{lemma_store_wf_set, same_but_scratch};
use crate::world::WorldState;

verus! {

/// The lowest pressure a fluid takes, -0.1: a floor against runaway attraction.
pub const PRESSURE_FLOOR: i64 = -104858;

/// Sum over the first `k` stencil slots of cell mass times weight.
pub open spec fn density_sum(cells: Seq<Cell>, width: int, p: Vec2, k: nat) -> int
    decreases k,
{
    if k == 0 {
        0
    } else {
        let n = neighbor_spec(p, width, k - 1);
        fx_add(density_sum(cells, width, p, (k - 1) as nat), weigh(cells[n.index as int].mass as int, n.weight as int))
    }
}

/// The density of the grid under a particle at `p`.
pub open spec fn density_at(cells: Seq<Cell>, width: int, p: Vec2) -> int {
    density_sum(cells, width, p, 9)
}

/// Pressure of the equation of state, floored:
/// `max(-0.1, stiffness * ((density / rest_density)^power - 1))`.
pub open spec fn fluid_pressure(m: NewtonianFluidModel, density: int) -> int {
    fx_max(
        PRESSURE_FLOOR as int,
        fx_mul(
            m.eos_stiffness as int,
            fx_sub(fx_pow(fx_div(density, m.rest_density as int), m.eos_power as nat), ONE as int),
        ),
    )
}

/// `-p * I` plus the viscosity times the strain, where the strain is the
/// affine matrix with both off-diagonal entries set to their sum.
pub open spec fn fluid_stress(m: NewtonianFluidModel, affine: Mat2, density: int) -> Mat2 {
    let p = fx_neg(fluid_pressure(m, density));
    let t = fx_add(affine.y_axis.x as int, affine.x_axis.y as int);
    let strain = Mat2 {
        x_axis: vec2(affine.x_axis.x as int, t),
        y_axis: vec2(t, affine.y_axis.y as int),
    };
    mat_add(Mat2 { x_axis: vec2(p, 0), y_axis: vec2(0, p) }, mat_scale(strain, m.dynamic_viscosity as int))
}

/// `-volume * 4 * dt`, the factor that turns a stress into a momentum term.
pub open spec fn stress_factor(volume: int, dt: int) -> int {
    fx_mul(fx_mul(fx_neg(volume), 4 * ONE), dt)
}

/// A fluid's momentum term; zero where the density is not positive.
pub open spec fn fluid_term(m: NewtonianFluidModel, affine: Mat2, mass: int, density: int, dt: int) -> Mat2 {
    if density <= 0 {
        Mat2 { x_axis: vec2(0, 0), y_axis: vec2(0, 0) }
    } else {
        mat_scale(fluid_stress(m, affine, density), stress_factor(fx_div(mass, density), dt))
    }
}

/// A solid's momentum term, given `log_j`, the natural logarithm of the
/// determinant `J` of its deformation gradient `F`:
/// `P = mu * (F - F^-T) + lambda * ln(J) * F^-T`, stress `P * F^T / J`, scaled
/// by the volume times `J`. Zero where the density is not positive, or `J` is
/// not positive or is under the model's `min_jacobian`.
pub open spec fn solid_term(s: NeoHookeanHyperElasticModel, mass: int, density: int, log_j: int, dt: int) -> Mat2 {
    let f = s.deformation_gradient;
    let j = determinant(f);
    if density <= 0 || j <= 0 || j < s.min_jacobian {
        Mat2 { x_axis: vec2(0, 0), y_axis: vec2(0, 0) }
    } else {
        let volume_scaled = fx_mul(fx_div(mass, density), j);
        let f_t = transpose(f);
        let f_inv_t = inverse(f_t);
        let p = mat_add(
            mat_scale(mat_sub(f, f_inv_t), s.elastic_mu as int),
            mat_scale(f_inv_t, fx_mul(log_j, s.elastic_lambda as int)),
        );
        let stress = mat_scale(mat_mul(p, f_t), fx_div(ONE as int, j));
        mat_scale(stress, stress_factor(volume_scaled, dt))
    }
}

pub open spec fn weigh_mat(m: Mat2, w: int) -> Mat2 {
    Mat2 { x_axis: weigh_vec(m.x_axis, w), y_axis: weigh_vec(m.y_axis, w) }
}

/// Slot `k` of the buffer after a force scatter of `term`: no mass, and the
/// weighted term applied to the offset to the cell.
pub open spec fn force_change(p: Vec2, width: int, term: Mat2, k: int) -> GridMassAndMomentumChange {
    let n = neighbor_spec(p, width, k);
    GridMassAndMomentumChange { index: n.index, mass: 0, momentum: mat_vec(weigh_mat(term, n.weight as int), n.dist) }
}

/// `new` is `old` with its buffer filled by a force scatter of `term`.
pub open spec fn force_scattered(new: Particle, old: Particle, width: int, term: Mat2) -> bool {
    &&& same_but_scratch(new, old)
    &&& forall|k: int| 0 <= k < 9 ==> #[trigger] new.contributions@[k] == force_change(old.position, width, term, k)
}

/// The fluid stage on one particle: a fluid scatters its term, a solid is kept.
pub open spec fn fluid_stage_done(new: Particle, old: Particle, cells: Seq<Cell>, width: int, dt: int) -> bool {
    match old.material {
        Material::Fluid(m) => force_scattered(
            new,
            old,
            width,
            fluid_term(m, old.affine_momentum, old.mass as int, density_at(cells, width, old.position), dt),
        ),
        Material::Solid(_) => new == old,
    }
}

/// The solid stage on one particle: a solid scatters its term, a fluid is kept.
pub open spec fn solid_stage_done(
    new: Particle,
    old: Particle,
    cells: Seq<Cell>,
    width: int,
    dt: int,
    log_j: int,
) -> bool {
    match old.material {
        Material::Solid(s) => force_scattered(
            new,
            old,
            width,
            solid_term(s, old.mass as int, density_at(cells, width, old.position), log_j, dt),
        ),
        Material::Fluid(_) => new == old,
    }
}

/// The density of the grid under a particle at `position`.
pub fn density_of(cells: &Vec<Cell>, width: usize, position: Vec2) -> (r: i64)
    requires
        3 <= width <= MAX_WIDTH,
        cells@.len() == width * width,
        in_domain(position, width as int),
    ensures
        r == density_at(cells@, width as int, position),
{
    let mut d: i64 = 0;
    let mut k: usize = 0;
    while k < 9
        invariant
            k <= 9,
            3 <= width <= MAX_WIDTH,
            cells@.len() == width * width,
            in_domain(position, width as int),
            d == density_sum(cells@, width as int, position, k as nat),
        decreases 9 - k,
    {
        let n = neighbor_at(position, width, k);
        d = fixed_add(d, weigh_value(cells[n.index].mass, n.weight));
        k = k + 1;
    }
    d
}

pub fn fluid_momentum_term(m: NewtonianFluidModel, affine: Mat2, mass: i64, density: i64, dt: i64) -> (r: Mat2)
    ensures
        r == fluid_term(m, affine, mass as int, density as int, dt as int),
{
    if density <= 0 {
        return Mat2::zero();
    }
    let ratio = fixed_div(density, m.rest_density);
    let pressure = fixed_max(
        PRESSURE_FLOOR,
        fixed_mul(m.eos_stiffness, fixed_sub(fixed_pow(ratio, m.eos_power), ONE)),
    );
    let p = fixed_neg(pressure);
    let t = fixed_add(affine.y_axis.x, affine.x_axis.y);
    let strain = Mat2 { x_axis: Vec2 { x: affine.x_axis.x, y: t }, y_axis: Vec2 { x: t, y: affine.y_axis.y } };
    let stress = Mat2 { x_axis: Vec2 { x: p, y: 0 }, y_axis: Vec2 { x: 0, y: p } }.add(
        strain.scale(m.dynamic_viscosity),
    );
    let volume = fixed_div(mass, density);
    stress.scale(fixed_mul(fixed_mul(fixed_neg(volume), 4 * ONE), dt))
}

pub fn solid_momentum_term(s: NeoHookeanHyperElasticModel, mass: i64, density: i64, log_j: i64, dt: i64) -> (r: Mat2)
    ensures
        r == solid_term(s, mass as int, density as int, log_j as int, dt as int),
{
    let f = s.deformation_gradient;
    let j = f.determinant();
    if density <= 0 || j <= 0 || j < s.min_jacobian {
        return Mat2::zero();
    }
    let volume_scaled = fixed_mul(fixed_div(mass, density), j);
    let f_t = f.transpose();
    let f_inv_t = f_t.inverse();
    let p = f.sub(f_inv_t).scale(s.elastic_mu).add(f_inv_t.scale(fixed_mul(log_j, s.elastic_lambda)));
    let stress = p.mul_mat2(f_t).scale(fixed_div(ONE, j));
    stress.scale(fixed_mul(fixed_mul(fixed_neg(volume_scaled), 4 * ONE), dt))
}

fn weigh_mat2(m: Mat2, w: i128) -> (r: Mat2)
    requires
        0 <= w <= crate::kernel::WEIGHT_ONE,
    ensures
        r == weigh_mat(m, w as int),
{
    Mat2 { x_axis: weigh_vec2(m.x_axis, w), y_axis: weigh_vec2(m.y_axis, w) }
}

fn scatter_force(p: &mut Particle, width: usize, term: Mat2)
    requires
        3 <= width <= MAX_WIDTH,
        in_domain(old(p).position, width as int),
    ensures
        force_scattered(*final(p), *old(p), width as int, term),
        forall|k: int| 0 <= k < 9 ==> (#[trigger] final(p).contributions@[k]).index < width * width,
{
    let ghost start = *p;
    let mut k: usize = 0;
    while k < 9
        invariant
            k <= 9,
            3 <= width <= MAX_WIDTH,
            in_domain(start.position, width as int),
            same_but_scratch(*p, start),
            forall|j: int| 0 <= j < k ==> (#[trigger] p.contributions@[j]).index < width * width,
            forall|j: int| 0 <= j < k ==> #[trigger] p.contributions@[j] == force_change(start.position, width as int, term, j),
        decreases 9 - k,
    {
        let n = neighbor_at(p.position, width, k);
        let momentum = weigh_mat2(term, n.weight).mul_vec2(n.dist);
        p.contributions[k] = GridMassAndMomentumChange { index: n.index, mass: 0, momentum };
        k = k + 1;
    }
}

/// Stage B for fluids: every fluid particle scatters its momentum term into its
/// own buffer; solids are left alone. The grid is only read.
pub fn particles_to_grid_fluids(grid: &Grid, particles: &mut Vec<Particle>, world: &WorldState)
    requires
        grid.wf(),
        store_wf(old(particles)@, grid.width as int),
    ensures
        store_wf(final(particles)@, grid.width as int),
        final(particles)@.len() == old(particles)@.len(),
        forall|i: int|
            0 <= i < old(particles)@.len() ==> fluid_stage_done(
                #[trigger] final(particles)@[i],
                old(particles)@[i],
                grid.cells@,
                grid.width as int,
                world.dt as int,
            ),
{
    let n = particles.len();
    let mut i: usize = 0;
    while i < n
        invariant
            i <= n,
            n == old(particles)@.len(),
            particles@.len() == n,
            grid.wf(),
            store_wf(old(particles)@, grid.width as int),
            store_wf(particles@, grid.width as int),
            forall|j: int| i <= j < n ==> #[trigger] particles@[j] == old(particles)@[j],
            forall|j: int|
                0 <= j < i ==> fluid_stage_done(
                    #[trigger] particles@[j],
                    old(particles)@[j],
                    grid.cells@,
                    grid.width as int,
                    world.dt as int,
                ),
        decreases n - i,
    {
        let ghost old_store = particles@;
        let mut p = particles[i];
        proof {
            assert(p == old_store[i as int]);
        }
        match p.material {
            Material::Fluid(m) => {
                let density = density_of(&grid.cells, grid.width, p.position);
                let term = fluid_momentum_term(m, p.affine_momentum, p.mass, density, world.dt);
                scatter_force(&mut p, grid.width, term);
            },
            Material::Solid(_) => {},
        }
        particles.set(i, p);
        proof {
            lemma_store_wf_set(old_store, i as int, p, grid.width as int);
        }
        i = i + 1;
    }
}

/// The determinant `J` of each solid's deformation gradient, and one for each
/// fluid: the values whose natural logarithms the solid stage takes.
pub fn solid_jacobians(particles: &Vec<Particle>) -> (r: Vec<i64>)
    ensures
        r@.len() == particles@.len(),
        forall|i: int|
            0 <= i < particles@.len() ==> #[trigger] r@[i] == match particles@[i].material {
                Material::Solid(s) => determinant(s.deformation_gradient),
                Material::Fluid(_) => ONE as int,
            },
{
    let mut r: Vec<i64> = Vec::new();
    let n = particles.len();
    let mut i: usize = 0;
    while i < n
        invariant
            i <= n,
            n == particles@.len(),
            r@.len() == i,
            forall|j: int|
                0 <= j < i ==> #[trigger] r@[j] == match particles@[j].material {
                    Material::Solid(s) => determinant(s.deformation_gradient),
                    Material::Fluid(_) => ONE as int,
                },
        decreases n - i,
    {
        let j = match particles[i].material {
            Material::Solid(s) => s.deformation_gradient.determinant(),
            Material::Fluid(_) => ONE,
        };
        r.push(j);
        i = i + 1;
    }
    r
}

/// Stage B for solids: every solid particle scatters its momentum term into its
/// own buffer, with `log_jacobians[i]` the natural logarithm of particle `i`'s
/// Jacobian; fluids are left alone. The grid is only read.
pub fn particles_to_grid_solids(
    grid: &Grid,
    particles: &mut Vec<Particle>,
    world: &WorldState,
    log_jacobians: &Vec<i64>,
)
    requires
        grid.wf(),
        store_wf(old(particles)@, grid.width as int),
        log_jacobians@.len() == old(particles)@.len(),
    ensures
        store_wf(final(particles)@, grid.width as int),
        final(particles)@.len() == old(particles)@.len(),
        forall|i: int|
            0 <= i < old(particles)@.len() ==> solid_stage_done(
                #[trigger] final(particles)@[i],
                old(particles)@[i],
                grid.cells@,
                grid.width as int,
                world.dt as int,
                log_jacobians@[i] as int,
            ),
{
    let n = particles.len();
    let mut i: usize = 0;
    while i < n
        invariant
            i <= n,
            n == old(particles)@.len(),
            particles@.len() == n,
            log_jacobians@.len() == n,
            grid.wf(),
            store_wf(old(particles)@, grid.width as int),
            store_wf(particles@, grid.width as int),
            forall|j: int| i <= j < n ==> #[trigger] particles@[j] == old(particles)@[j],
            forall|j: int|
                0 <= j < i ==> solid_stage_done(
                    #[trigger] particles@[j],
                    old(particles)@[j],
                    grid.cells@,
                    grid.width as int,
                    world.dt as int,
                    log_jacobians@[j] as int,
                ),
        decreases n - i,
    {
        let ghost old_store = particles@;
        let mut p = particles[i];
        proof {
            assert(p == old_store[i as int]);
        }
        match p.material {
            Material::Solid(s) => {
                let density = density_of(&grid.cells, grid.width, p.position);
                let term = solid_momentum_term(s, p.mass, density, log_jacobians[i], world.dt);
                scatter_force(&mut p, grid.width, term);
            },
            Material::Fluid(_) => {},
        }
        particles.set(i, p);
        proof {
            lemma_store_wf_set(old_store, i as int, p, grid.width as int);
        }
        i = i + 1;
    }
}

} // verus!
