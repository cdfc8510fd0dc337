//! Particles, their materials, and the particle store.
use vstd::prelude::*;

use crate::fixed::ONE;
use crate::kernel::in_domain;
use crate::linalg::{identity_mat, zero_mat, zero_vec, Mat2, Vec2};

verus! {

/// A weakly compressible Newtonian fluid. `eos_power` is the integer exponent
/// of the equation of state.
#[derive(Clone, Copy, Debug, PartialEq, Eq, Structural)]
pub struct NewtonianFluidModel {
    pub rest_density: i64,
    pub dynamic_viscosity: i64,
    pub eos_stiffness: i64,
    pub eos_power: u32,
}

/// A Neo-Hookean hyperelastic solid.
#[derive(Clone, Copy, Debug, PartialEq, Eq, Structural)]
pub struct NeoHookeanHyperElasticModel {
    pub deformation_gradient: Mat2,
    /// First Lame parameter.
    pub elastic_lambda: i64,
    /// Shear modulus.
    pub elastic_mu: i64,
    /// The smallest Jacobian at which stress is computed; below it the
    /// gradient counts as degenerate and the particle adds no stress.
    pub min_jacobian: i64,
}

/// Default `min_jacobian`: 0.01.
pub const MIN_JACOBIAN: i64 = 10486;

#[derive(Clone, Copy, Debug, PartialEq, Eq, Structural)]
pub enum Material {
    Fluid(NewtonianFluidModel),
    Solid(NeoHookeanHyperElasticModel),
}

/// What one particle adds to one grid cell in a scatter stage.
#[derive(Clone, Copy, Debug, PartialEq, Eq, Structural)]
pub struct GridMassAndMomentumChange {
    pub index: usize,
    pub mass: i64,
    pub momentum: Vec2,
}

pub open spec fn no_change() -> GridMassAndMomentumChange {
    GridMassAndMomentumChange { index: 0, mass: 0, momentum: zero_vec() }
}

/// How many ticks a particle lives when its spawner names no limit.
pub const DEFAULT_MAX_AGE: usize = 5000;

/// A material point. `contributions` is its private scratch buffer: slot `k`
/// holds what it adds to the `k`-th cell of its stencil this tick.
#[derive(Clone, Copy, Debug)]
pub struct Particle {
    pub position: Vec2,
    pub velocity: Vec2,
    pub mass: i64,
    pub affine_momentum: Mat2,
    pub material: Material,
    pub contributions: [GridMassAndMomentumChange; 9],
    pub created_at: usize,
    pub max_age: usize,
}

pub fn steel_properties() -> (r: NeoHookeanHyperElasticModel)
    ensures
        r == (NeoHookeanHyperElasticModel {
            deformation_gradient: identity_mat(),
            elastic_lambda: (180000 * ONE) as i64,
            elastic_mu: (78000 * ONE) as i64,
            min_jacobian: MIN_JACOBIAN,
        }),
{
    NeoHookeanHyperElasticModel {
        deformation_gradient: Mat2::identity(),
        elastic_lambda: 180000 * ONE,
        elastic_mu: 78000 * ONE,
        min_jacobian: MIN_JACOBIAN,
    }
}

pub fn wood_properties() -> (r: NeoHookeanHyperElasticModel)
    ensures
        r == (NeoHookeanHyperElasticModel {
            deformation_gradient: identity_mat(),
            elastic_lambda: (18000 * ONE) as i64,
            elastic_mu: (6000 * ONE) as i64,
            min_jacobian: MIN_JACOBIAN,
        }),
{
    NeoHookeanHyperElasticModel {
        deformation_gradient: Mat2::identity(),
        elastic_lambda: 18000 * ONE,
        elastic_mu: 6000 * ONE,
        min_jacobian: MIN_JACOBIAN,
    }
}

/// Water: rest density 4, viscosity 0.1, stiffness 100, exponent 4.
pub fn water_properties() -> (r: NewtonianFluidModel)
    ensures
        r == (NewtonianFluidModel {
            rest_density: (4 * ONE) as i64,
            dynamic_viscosity: 104858,
            eos_stiffness: (100 * ONE) as i64,
            eos_power: 4,
        }),
{
    NewtonianFluidModel {
        rest_density: 4 * ONE,
        dynamic_viscosity: 104858,
        eos_stiffness: 100 * ONE,
        eos_power: 4,
    }
}

/// Why a particle was not spawned.
#[derive(Clone, Copy, Debug, PartialEq, Eq, Structural)]
pub enum SpawnError {
    /// The position leaves part of the particle's stencil outside the grid.
    OutsideGrid,
}

/// A particle's age has run out: `current_tick > created_at + max_age`.
pub open spec fn expired(p: Particle, current_tick: int) -> bool {
    current_tick > p.created_at + p.max_age
}

/// The particles still alive at `current_tick`.
pub open spec fn alive(current_tick: int) -> spec_fn(Particle) -> bool {
    |p: Particle| !expired(p, current_tick)
}

/// Every particle's stencil lies inside a grid `width` cells across.
pub open spec fn all_in_domain(particles: Seq<Particle>, width: int) -> bool {
    forall|i: int| 0 <= i < particles.len() ==> in_domain(#[trigger] particles[i].position, width)
}

/// Every scratch slot of every particle names a cell of a grid with `n` cells.
pub open spec fn all_slots_fit(particles: Seq<Particle>, n: int) -> bool {
    forall|i: int, k: int|
        0 <= i < particles.len() && 0 <= k < 9 ==> (#[trigger] particles[i].contributions@[k]).index
            < n
}

/// The particle store fits a grid `width` cells across: every stencil lies
/// inside it and every scratch slot names one of its cells.
pub open spec fn store_wf(particles: Seq<Particle>, width: int) -> bool {
    all_in_domain(particles, width) && all_slots_fit(particles, width * width)
}

/// Adds a particle at rest in its affine motion, with an empty scratch buffer,
/// provided its stencil lies inside a grid `width` cells across.
pub fn spawn(
    particles: &mut Vec<Particle>,
    width: usize,
    position: Vec2,
    velocity: Vec2,
    mass: i64,
    material: Material,
    created_at: usize,
    max_age: usize,
) -> (r: Result<(), SpawnError>)
    requires
        3 <= width <= crate::kernel::MAX_WIDTH,
        store_wf(old(particles)@, width as int),
    ensures
        store_wf(final(particles)@, width as int),
        in_domain(position, width as int) <==> r is Ok,
        r is Err ==> r == Err::<(), SpawnError>(SpawnError::OutsideGrid) && final(particles)@
            == old(particles)@,
        r is Ok ==> final(particles)@.len() == old(particles)@.len() + 1 && final(particles)@.drop_last()
            == old(particles)@ && ({
            let p = final(particles)@.last();
            &&& p.position == position
            &&& p.velocity == velocity
            &&& p.mass == mass
            &&& p.affine_momentum == zero_mat()
            &&& p.material == material
            &&& p.created_at == created_at
            &&& p.max_age == max_age
            &&& forall|k: int| 0 <= k < 9 ==> #[trigger] p.contributions@[k] == no_change()
        }),
{
    let limit: i64 = (width as i64 - 1) * ONE;
    if position.x < ONE || position.x >= limit || position.y < ONE || position.y >= limit {
        return Err(SpawnError::OutsideGrid);
    }
    let empty = GridMassAndMomentumChange { index: 0, mass: 0, momentum: Vec2 { x: 0, y: 0 } };
    let p = Particle {
        position,
        velocity,
        mass,
        affine_momentum: Mat2::zero(),
        material,
        contributions: [empty; 9],
        created_at,
        max_age,
    };
    particles.push(p);
    assert(final(particles)@.drop_last() =~= old(particles)@);
    proof {
        assert(0 < width * width) by (nonlinear_arith)
            requires
                width >= 3,
        ;
        assert forall|i: int, k: int|
            0 <= i < final(particles)@.len() && 0 <= k < 9 implies (#[trigger] final(particles)@[i].contributions@[k]).index < width * width by {
            if i < old(particles)@.len() {
                assert(final(particles)@[i] == old(particles)@[i]);
            }
        }
    }
    Ok(())
}

/// Whether a particle created at `created_at` that lives `max_age` ticks is
/// past its age at `current_tick`.
pub fn is_expired(created_at: usize, max_age: usize, current_tick: usize) -> (r: bool)
    ensures
        r == (current_tick > created_at + max_age),
{
    current_tick > created_at && current_tick - created_at > max_age
}

/// Removes every particle past its age, keeping the order of the others.
pub fn delete_old_entities(particles: &mut Vec<Particle>, current_tick: usize)
    ensures
        forall|w: int| store_wf(old(particles)@, w) ==> store_wf(final(particles)@, w),
        final(particles)@ == old(particles)@.filter(alive(current_tick as int)),
{
    let n = particles.len();
    let mut kept: Vec<Particle> = Vec::new();
    let mut i: usize = 0;
    while i < n
        invariant
            i <= n,
            n == particles@.len(),
            particles@ == old(particles)@,
            kept@ == particles@.subrange(0, i as int).filter(alive(current_tick as int)),
        decreases n - i,
    {
        let p = particles[i];
        let keep = !is_expired(p.created_at, p.max_age, current_tick);
        let ghost before = kept@;
        if keep {
            kept.push(p);
        }
        proof {
            let s = particles@.subrange(0, i as int + 1);
            assert(s.drop_last() =~= particles@.subrange(0, i as int));
            assert(s.last() == p);
            assert(alive(current_tick as int)(p) == keep);
            reveal(Seq::filter);
            assert(s.filter(alive(current_tick as int)) == if alive(current_tick as int)(p) {
                before.push(p)
            } else {
                before
            });
        }
        i = i + 1;
        assert(particles@.subrange(0, i as int) == particles@.subrange(0, i - 1 + 1));
    }
    assert(particles@.subrange(0, n as int) =~= particles@);
    proof {
        let f = particles@.filter(alive(current_tick as int));
        assert forall|w: int| store_wf(particles@, w) implies store_wf(f, w) by {
            assert forall|j: int| 0 <= j < f.len() implies exists|t: int|
                0 <= t < particles@.len() && #[trigger] particles@[t] == #[trigger] f[j] by {
                assert(f.contains(f[j]));
                particles@.lemma_filter_contains_rev(alive(current_tick as int), f[j]);
            }
            assert forall|j: int| 0 <= j < f.len() implies in_domain(#[trigger] f[j].position, w) by {
                let t = choose|t: int| 0 <= t < particles@.len() && #[trigger] particles@[t] == f[j];
                assert(in_domain(particles@[t].position, w));
            }
            assert forall|j: int, k: int|
                0 <= j < f.len() && 0 <= k < 9 implies (#[trigger] f[j].contributions@[k]).index < w * w by {
                let t = choose|t: int| 0 <= t < particles@.len() && #[trigger] particles@[t] == f[j];
                assert(particles@[t].contributions@[k].index < w * w);
            }
        }
    }
    *particles = kept;
}

} // verus!
