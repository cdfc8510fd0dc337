//! The stages of a tick that move mass and momentum between particles and grid.
//!
//! Scatter stages write only into each particle's own scratch buffer; the
//! apply steps then fold those buffers into the grid one particle at a time.
use vstd::prelude::*;

use crate::fixed::fx_add;
use crate::grid::{Cell, Grid};
use crate::kernel::{in_domain, neighbor_at, neighbor_spec, weigh, weigh_value, MAX_WIDTH};
use crate::linalg::{mat_vec, vec_add, vec_scale, zero_mat, Vec2};
use crate::particle::{all_slots_fit, store_wf, GridMassAndMomentumChange, Particle};

verus! {

/// Slot `k` of a particle's buffer after the mass and momentum scatter: the
/// weighted mass, and the weighted mass times the particle's velocity plus its
/// affine correction at that cell.
pub open spec fn mass_momentum_change(p: Particle, width: int, k: int) -> GridMassAndMomentumChange {
    let n = neighbor_spec(p.position, width, k);
    let m = weigh(p.mass as int, n.weight as int);
    GridMassAndMomentumChange {
        index: n.index,
        mass: m as i64,
        momentum: vec_scale(vec_add(p.velocity, mat_vec(p.affine_momentum, n.dist)), m),
    }
}

/// With a zero affine matrix the scatter is plain particle-in-cell: the
/// momentum sent to each stencil cell is the particle's own velocity times the
/// mass sent there, with no rotation or shear added.
pub proof fn lemma_zero_affine_is_pic(p: Particle, width: int, k: int)
    requires
        p.affine_momentum == zero_mat(),
    ensures
        mass_momentum_change(p, width, k).momentum == vec_scale(
            p.velocity,
            weigh(p.mass as int, neighbor_spec(p.position, width, k).weight as int),
        ),
{
    let d = neighbor_spec(p.position, width, k).dist;
    assert(mat_vec(p.affine_momentum, d) == Vec2 { x: 0, y: 0 });
    assert(vec_add(p.velocity, Vec2 { x: 0, y: 0 }) == p.velocity);
}

/// `a` and `b` agree in everything but their scratch buffers.
pub open spec fn same_but_scratch(a: Particle, b: Particle) -> bool {
    &&& a.position == b.position
    &&& a.velocity == b.velocity
    &&& a.mass == b.mass
    &&& a.affine_momentum == b.affine_momentum
    &&& a.material == b.material
    &&& a.created_at == b.created_at
    &&& a.max_age == b.max_age
}

/// Cells after one buffered change is added; `with_mass` says whether its mass
/// is added too, or its momentum alone.
pub open spec fn add_change(cells: Seq<Cell>, c: GridMassAndMomentumChange, with_mass: bool) -> Seq<Cell> {
    let old_cell = cells[c.index as int];
    let mass = if with_mass {
        fx_add(old_cell.mass as int, c.mass as int) as i64
    } else {
        old_cell.mass
    };
    cells.update(c.index as int, Cell { velocity: vec_add(old_cell.velocity, c.momentum), mass })
}

/// Cells after the first `k` slots of `p`'s buffer are added.
pub open spec fn add_slots(cells: Seq<Cell>, p: Particle, k: nat, with_mass: bool) -> Seq<Cell>
    decreases k,
{
    if k == 0 {
        cells
    } else {
        add_change(add_slots(cells, p, (k - 1) as nat, with_mass), p.contributions@[k - 1], with_mass)
    }
}

/// Cells after the whole buffers of `ps` are added, in order.
pub open spec fn add_particles(cells: Seq<Cell>, ps: Seq<Particle>, with_mass: bool) -> Seq<Cell>
    decreases ps.len(),
{
    if ps.len() == 0 {
        cells
    } else {
        add_slots(add_particles(cells, ps.drop_last(), with_mass), ps.last(), 9, with_mass)
    }
}

/// Stage A on one particle: fills its buffer with `mass_momentum_change`.
fn scatter_mass_momentum(p: &mut Particle, width: usize)
    requires
        3 <= width <= MAX_WIDTH,
        in_domain(old(p).position, width as int),
    ensures
        same_but_scratch(*final(p), *old(p)),
        forall|k: int| 0 <= k < 9 ==> (#[trigger] final(p).contributions@[k]).index < width * width,
        forall|k: int|
            0 <= k < 9 ==> #[trigger] final(p).contributions@[k] == mass_momentum_change(
                *old(p),
                width as int,
                k,
            ),
{
    let ghost start = *p;
    let mut k: usize = 0;
    while k < 9
        invariant
            k <= 9,
            3 <= width <= MAX_WIDTH,
            in_domain(start.position, width as int),
            same_but_scratch(*p, start),
            forall|j: int| 0 <= j < k ==> (#[trigger] p.contributions@[j]).index < width * width,
            forall|j: int|
                0 <= j < k ==> #[trigger] p.contributions@[j] == mass_momentum_change(
                    start,
                    width as int,
                    j,
                ),
        decreases 9 - k,
    {
        let n = neighbor_at(p.position, width, k);
        let m = weigh_value(p.mass, n.weight);
        let momentum = p.velocity.add(p.affine_momentum.mul_vec2(n.dist)).scale(m);
        p.contributions[k] = GridMassAndMomentumChange { index: n.index, mass: m, momentum };
        k = k + 1;
    }
}

/// Stage A: every particle scatters its mass and momentum into its own buffer.
/// The grid is only read.
pub fn update_cells(grid: &Grid, particles: &mut Vec<Particle>)
    requires
        grid.wf(),
        store_wf(old(particles)@, grid.width as int),
    ensures
        store_wf(final(particles)@, grid.width as int),
        final(particles)@.len() == old(particles)@.len(),
        forall|i: int|
            0 <= i < old(particles)@.len() ==> same_but_scratch(
                #[trigger] final(particles)@[i],
                old(particles)@[i],
            ),
        forall|i: int, k: int|
            0 <= i < old(particles)@.len() && 0 <= k < 9 ==> (#[trigger] final(particles)@[i].contributions@[k])
                == mass_momentum_change(old(particles)@[i], grid.width as int, k),
{
    let n = particles.len();
    let mut i: usize = 0;
    while i < n
        invariant
            i <= n,
            n == old(particles)@.len(),
            particles@.len() == n,
            grid.wf(),
            store_wf(old(particles)@, grid.width as int),
            store_wf(particles@, grid.width as int),
            forall|j: int| i <= j < n ==> #[trigger] particles@[j] == old(particles)@[j],
            forall|j: int| 0 <= j < i ==> same_but_scratch(#[trigger] particles@[j], old(particles)@[j]),
            forall|j: int, k: int|
                0 <= j < i && 0 <= k < 9 ==> (#[trigger] particles@[j].contributions@[k])
                    == mass_momentum_change(old(particles)@[j], grid.width as int, k),
        decreases n - i,
    {
        let ghost old_store = particles@;
        let mut p = particles[i];
        scatter_mass_momentum(&mut p, grid.width);
        particles.set(i, p);
        proof {
            lemma_store_wf_set(old_store, i as int, p, grid.width as int);
        }
        i = i + 1;
    }
}

/// Replacing one particle by another that fits keeps the store well formed.
pub proof fn lemma_store_wf_set(ps: Seq<Particle>, i: int, p: Particle, width: int)
    requires
        store_wf(ps, width),
        0 <= i < ps.len(),
        in_domain(p.position, width),
        forall|k: int| 0 <= k < 9 ==> (#[trigger] p.contributions@[k]).index < width * width,
    ensures
        store_wf(ps.update(i, p), width),
{
    let q = ps.update(i, p);
    assert forall|j: int| 0 <= j < q.len() implies in_domain(#[trigger] q[j].position, width) by {
        if j != i {
            assert(q[j] == ps[j]);
        }
    }
    assert forall|j: int, k: int|
        0 <= j < q.len() && 0 <= k < 9 implies (#[trigger] q[j].contributions@[k]).index < width * width by {
        if j != i {
            assert(q[j] == ps[j]);
        }
    }
}

/// Adds the whole buffer of one particle to the cells.
fn add_particle_slots(cells: &mut Vec<Cell>, p: &Particle, with_mass: bool)
    requires
        forall|k: int| 0 <= k < 9 ==> (#[trigger] p.contributions@[k]).index < old(cells)@.len(),
    ensures
        final(cells)@.len() == old(cells)@.len(),
        final(cells)@ == add_slots(old(cells)@, *p, 9, with_mass),
{
    let mut k: usize = 0;
    while k < 9
        invariant
            k <= 9,
            cells@.len() == old(cells)@.len(),
            forall|j: int| 0 <= j < 9 ==> (#[trigger] p.contributions@[j]).index < old(cells)@.len(),
            cells@ == add_slots(old(cells)@, *p, k as nat, with_mass),
        decreases 9 - k,
    {
        let c = p.contributions[k];
        let cell = cells[c.index];
        let mass = if with_mass {
            crate::fixed::fixed_add(cell.mass, c.mass)
        } else {
            cell.mass
        };
        cells.set(c.index, Cell { velocity: cell.velocity.add(c.momentum), mass });
        k = k + 1;
    }
}

fn add_all(grid: &mut Grid, particles: &Vec<Particle>, with_mass: bool)
    requires
        old(grid).wf(),
        all_slots_fit(particles@, old(grid).cells@.len() as int),
    ensures
        final(grid).width == old(grid).width,
        final(grid).cells@.len() == old(grid).cells@.len(),
        final(grid).cells@ == add_particles(old(grid).cells@, particles@, with_mass),
{
    let n = particles.len();
    let mut i: usize = 0;
    while i < n
        invariant
            i <= n,
            n == particles@.len(),
            grid.width == old(grid).width,
            grid.cells@.len() == old(grid).cells@.len(),
            all_slots_fit(particles@, old(grid).cells@.len() as int),
            grid.cells@ == add_particles(old(grid).cells@, particles@.subrange(0, i as int), with_mass),
        decreases n - i,
    {
        proof {
            let s = particles@.subrange(0, i as int + 1);
            assert(s.drop_last() =~= particles@.subrange(0, i as int));
            assert(s.last() == particles@[i as int]);
        }
        add_particle_slots(&mut grid.cells, &particles[i], with_mass);
        i = i + 1;
    }
    assert(particles@.subrange(0, n as int) =~= particles@);
}

/// Adds every particle's buffered mass and momentum to the grid, particle by
/// particle, slot by slot.
pub fn apply_update_cell_computations(grid: &mut Grid, particles: &Vec<Particle>)
    requires
        old(grid).wf(),
        all_slots_fit(particles@, old(grid).cells@.len() as int),
    ensures
        final(grid).wf(),
        final(grid).width == old(grid).width,
        final(grid).cells@ == add_particles(old(grid).cells@, particles@, true),
{
    add_all(grid, particles, true);
}

/// Adds every particle's buffered momentum, and no mass, to the grid.
pub fn apply_momentum_changes(grid: &mut Grid, particles: &Vec<Particle>)
    requires
        old(grid).wf(),
        all_slots_fit(particles@, old(grid).cells@.len() as int),
    ensures
        final(grid).wf(),
        final(grid).width == old(grid).width,
        final(grid).cells@ == add_particles(old(grid).cells@, particles@, false),
{
    add_all(grid, particles, false);
}

} // verus!
