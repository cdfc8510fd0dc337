//! The grid-update stage and the driver that runs one tick.
use vstd::prelude::*;

use crate::gather::{deformation_updated, gathered, grid_to_particles, update_deformation_gradients};
use crate::grid::{reset_cells, updated_cell, Cell, Grid};
use crate::models::{fluid_stage_done, particles_to_grid_fluids, particles_to_grid_solids, solid_stage_done};
use crate::particle::{alive, delete_old_entities, store_wf, Particle};
use crate::transfer::{
    add_particles, apply_momentum_changes, apply_update_cell_computations, mass_momentum_change,
    same_but_scratch, update_cells,
};
use crate::world::{Boundary, WorldState};

verus! {

/// Empties the grid at the start of a tick.
pub fn reset_grid(grid: &mut Grid)
    ensures
        final(grid).width == old(grid).width,
        final(grid).cells@.len() == old(grid).cells@.len(),
        final(grid).cells@ == crate::grid::reset_cells(old(grid).cells@),
{
    grid.reset();
}

/// Adds the buffered momentum of every particle to the grid, advances the tick
/// counter, then updates the grid with this tick's gravity.
pub fn update_grid(grid: &mut Grid, particles: &Vec<Particle>, world: &mut WorldState)
    requires
        old(grid).wf(),
        store_wf(particles@, old(grid).width as int),
        old(world).current_tick < usize::MAX,
    ensures
        final(grid).wf(),
        final(grid).width == old(grid).width,
        *final(world) == (WorldState { current_tick: (old(world).current_tick + 1) as usize, ..*old(world) }),
        ({
            let mid = add_particles(old(grid).cells@, particles@, false);
            &&& final(grid).cells@.len() == mid.len()
            &&& forall|i: int|
                0 <= i < mid.len() ==> #[trigger] final(grid).cells@[i] == updated_cell(
                    mid[i],
                    i,
                    old(grid).width as int,
                    old(world).dt as int,
                    old(world).gravity_spec() as int,
                )
        }),
{
    apply_momentum_changes(grid, particles);
    world.update();
    let g = world.effective_gravity();
    grid.update(world.dt, g);
}

/// The stages of one tick, from grid cells `g0` and particles `ps0` to grid
/// cells `g1` and particles `ps1`, through the particle stores `a` (after the
/// mass and momentum scatter), `f` (after the fluid force scatter) and `s`
/// (after the solid force scatter):
/// the grid is emptied and `a`'s buffers added to it, giving `c1`; the force
/// scatters read `c1`; the grid update adds `s`'s momentum to `c1` and updates
/// every cell; each particle of `s` then gathers from `g1`, has its gradient
/// advanced, and is kept only while alive at the next tick.
pub open spec fn tick_stages(
    g0: Seq<Cell>,
    ps0: Seq<Particle>,
    world: WorldState,
    width: int,
    b: Boundary,
    logs: Seq<i64>,
    a: Seq<Particle>,
    f: Seq<Particle>,
    s: Seq<Particle>,
    g1: Seq<Cell>,
    ps1: Seq<Particle>,
) -> bool {
    let dt = world.dt as int;
    let c1 = add_particles(reset_cells(g0), a, true);
    let mid = add_particles(c1, s, false);
    &&& a.len() == ps0.len()
    &&& f.len() == ps0.len()
    &&& s.len() == ps0.len()
    &&& forall|i: int| 0 <= i < ps0.len() ==> same_but_scratch(#[trigger] a[i], ps0[i])
    &&& forall|i: int, k: int|
        0 <= i < ps0.len() && 0 <= k < 9 ==> (#[trigger] a[i].contributions@[k]) == mass_momentum_change(
            ps0[i],
            width,
            k,
        )
    &&& forall|i: int| 0 <= i < ps0.len() ==> fluid_stage_done(#[trigger] f[i], a[i], c1, width, dt)
    &&& forall|i: int|
        0 <= i < ps0.len() ==> solid_stage_done(#[trigger] s[i], f[i], c1, width, dt, logs[i] as int)
    &&& g1.len() == mid.len()
    &&& forall|i: int|
        0 <= i < mid.len() ==> #[trigger] g1[i] == updated_cell(mid[i], i, width, dt, world.gravity_spec() as int)
    &&& ps1 == Seq::new(
        s.len(),
        |i: int| deformation_updated(gathered(s[i], g1, width, dt, b), dt),
    ).filter(alive(world.current_tick + 1))
}

/// One whole tick: reset, mass and momentum scatter and apply, force scatter
/// for fluids and solids, grid update, gather and advection, deformation
/// update, and removal of expired particles. `log_jacobians[i]` is the natural
/// logarithm of the value `solid_jacobians` gives for particle `i`.
pub fn tick(
    grid: &mut Grid,
    particles: &mut Vec<Particle>,
    world: &mut WorldState,
    b: Boundary,
    log_jacobians: &Vec<i64>,
)
    requires
        old(grid).wf(),
        store_wf(old(particles)@, old(grid).width as int),
        log_jacobians@.len() == old(particles)@.len(),
        old(world).current_tick < usize::MAX,
    ensures
        final(grid).wf(),
        final(grid).width == old(grid).width,
        store_wf(final(particles)@, old(grid).width as int),
        final(particles)@.len() <= old(particles)@.len(),
        *final(world) == (WorldState { current_tick: (old(world).current_tick + 1) as usize, ..*old(world) }),
        forall|i: int|
            0 <= i < final(particles)@.len() ==> alive(final(world).current_tick as int)(
                #[trigger] final(particles)@[i],
            ),
        exists|a: Seq<Particle>, f: Seq<Particle>, s: Seq<Particle>|
            #[trigger] tick_stages(
                old(grid).cells@,
                old(particles)@,
                *old(world),
                old(grid).width as int,
                b,
                log_jacobians@,
                a,
                f,
                s,
                final(grid).cells@,
                final(particles)@,
            ),
{
    let ghost g0 = grid.cells@;
    let ghost ps0 = particles@;
    let ghost world0 = *world;
    let ghost width = grid.width as int;
    reset_grid(grid);
    update_cells(grid, particles);
    let ghost a = particles@;
    apply_update_cell_computations(grid, particles);
    let ghost c1 = grid.cells@;
    particles_to_grid_fluids(grid, particles, world);
    let ghost f = particles@;
    particles_to_grid_solids(grid, particles, world, log_jacobians);
    let ghost s = particles@;
    update_grid(grid, particles, world);
    let ghost g1 = grid.cells@;
    grid_to_particles(grid, particles, world, b);
    update_deformation_gradients(particles, world);
    let ghost before = particles@;
    delete_old_entities(particles, world.current_tick);
    proof {
        let dt = world0.dt as int;
        let moved = Seq::new(
            s.len(),
            |i: int| deformation_updated(gathered(s[i], g1, width, dt, b), dt),
        );
        assert(before =~= moved);
        assert(c1 == add_particles(reset_cells(g0), a, true));
        assert(tick_stages(g0, ps0, world0, width, b, log_jacobians@, a, f, s, g1, particles@));
        let keep = alive(world.current_tick as int);
        before.lemma_filter_len(keep);
        assert forall|i: int| 0 <= i < particles@.len() implies keep(#[trigger] particles@[i]) by {
            before.lemma_filter_pred(keep, i);
        }
    }
}

} // verus!
