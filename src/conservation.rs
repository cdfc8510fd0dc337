//! Conservation of mass by the mass and momentum scatter and its apply step.
use vstd::prelude::*;

use crate::fixed::{fx_add, ONE};
use crate::grid::Cell;
use crate::kernel::{
    axis_weight, cell_diff, in_domain, lemma_stencil_bounds, lemma_weights_sum_to_one, slot_gx,
    slot_gy, stencil_weight, MAX_WIDTH, WEIGHT_ONE,
};
use crate::particle::{store_wf, Particle};
use crate::transfer::{add_change, add_particles, add_slots, mass_momentum_change};

verus! {

/// Sum of the masses of the cells.
pub open spec fn total_mass(cells: Seq<Cell>) -> int
    decreases cells.len(),
{
    if cells.len() == 0 {
        0
    } else {
        total_mass(cells.drop_last()) + cells.last().mass
    }
}

/// Sum of the masses of the particles.
pub open spec fn particles_mass(ps: Seq<Particle>) -> int
    decreases ps.len(),
{
    if ps.len() == 0 {
        0
    } else {
        particles_mass(ps.drop_last()) + ps.last().mass
    }
}

/// Sum of the masses in the first `k` slots of a particle's buffer.
pub open spec fn slot_mass(p: Particle, k: nat) -> int
    decreases k,
{
    if k == 0 {
        0
    } else {
        slot_mass(p, (k - 1) as nat) + p.contributions@[k - 1].mass
    }
}

pub open spec fn nonneg_cells(cells: Seq<Cell>) -> bool {
    forall|i: int| 0 <= i < cells.len() ==> (#[trigger] cells[i]).mass >= 0
}

proof fn lemma_total_update(cells: Seq<Cell>, i: int, c: Cell)
    requires
        0 <= i < cells.len(),
    ensures
        total_mass(cells.update(i, c)) == total_mass(cells) - cells[i].mass + c.mass,
    decreases cells.len(),
{
    let u = cells.update(i, c);
    if i == cells.len() - 1 {
        assert(u.drop_last() =~= cells.drop_last());
    } else {
        assert(u.drop_last() =~= cells.drop_last().update(i, c));
        lemma_total_update(cells.drop_last(), i, c);
    }
}

proof fn lemma_cell_within_total(cells: Seq<Cell>, i: int)
    requires
        nonneg_cells(cells),
        0 <= i < cells.len(),
    ensures
        0 <= cells[i].mass <= total_mass(cells),
    decreases cells.len(),
{
    let d = cells.drop_last();
    assert(nonneg_cells(d)) by {
        assert forall|j: int| 0 <= j < d.len() implies (#[trigger] d[j]).mass >= 0 by {
            assert(d[j] == cells[j]);
        }
    }
    if i < cells.len() - 1 {
        assert(d[i] == cells[i]);
        lemma_cell_within_total(d, i);
    } else {
        lemma_total_nonneg(d);
    }
}

proof fn lemma_total_nonneg(cells: Seq<Cell>)
    requires
        nonneg_cells(cells),
    ensures
        total_mass(cells) >= 0,
    decreases cells.len(),
{
    if cells.len() > 0 {
        let d = cells.drop_last();
        assert forall|j: int| 0 <= j < d.len() implies (#[trigger] d[j]).mass >= 0 by {
            assert(d[j] == cells[j]);
        }
        lemma_total_nonneg(d);
    }
}

proof fn lemma_slot_mass_nonneg(p: Particle, k: nat)
    requires
        k <= 9,
        forall|j: int| 0 <= j < 9 ==> (#[trigger] p.contributions@[j]).mass >= 0,
    ensures
        0 <= slot_mass(p, k),
    decreases k,
{
    if k > 0 {
        lemma_slot_mass_nonneg(p, (k - 1) as nat);
    }
}

proof fn lemma_slot_mass_mono(p: Particle, k: nat, m: nat)
    requires
        k <= m <= 9,
        forall|j: int| 0 <= j < 9 ==> (#[trigger] p.contributions@[j]).mass >= 0,
    ensures
        0 <= slot_mass(p, k) <= slot_mass(p, m),
    decreases m - k,
{
    lemma_slot_mass_nonneg(p, k);
    if k < m {
        lemma_slot_mass_mono(p, k, (m - 1) as nat);
    }
}

/// Adding a particle's non-negative slot masses adds their sum to the total,
/// as long as that sum stays within `i64`.
proof fn lemma_add_slots_mass(cells: Seq<Cell>, p: Particle, k: nat)
    requires
        k <= 9,
        nonneg_cells(cells),
        forall|j: int| 0 <= j < 9 ==> (#[trigger] p.contributions@[j]).mass >= 0,
        forall|j: int| 0 <= j < 9 ==> (#[trigger] p.contributions@[j]).index < cells.len(),
        total_mass(cells) + slot_mass(p, 9) <= i64::MAX,
    ensures
        add_slots(cells, p, k, true).len() == cells.len(),
        nonneg_cells(add_slots(cells, p, k, true)),
        total_mass(add_slots(cells, p, k, true)) == total_mass(cells) + slot_mass(p, k),
    decreases k,
{
    if k > 0 {
        lemma_add_slots_mass(cells, p, (k - 1) as nat);
        lemma_slot_mass_mono(p, k, 9);
        let before = add_slots(cells, p, (k - 1) as nat, true);
        let c = p.contributions@[k - 1];
        let i = c.index as int;
        lemma_cell_within_total(before, i);
        let sum = before[i].mass + c.mass;
        assert(fx_add(before[i].mass as int, c.mass as int) == sum);
        let new_cell = Cell { velocity: crate::linalg::vec_add(before[i].velocity, c.momentum), mass: sum as i64 };
        assert(add_change(before, c, true) == before.update(i, new_cell));
        lemma_total_update(before, i, new_cell);
        let after = before.update(i, new_cell);
        assert forall|j: int| 0 <= j < after.len() implies (#[trigger] after[j]).mass >= 0 by {
            if j != i {
                assert(after[j] == before[j]);
            }
        }
    }
}

/// The nine stencil weights of a particle in the domain sum to between
/// `WEIGHT_ONE - 8` and `WEIGHT_ONE`.
proof fn lemma_stencil_weight_sum(p: crate::linalg::Vec2, width: int)
    requires
        3 <= width <= MAX_WIDTH,
        crate::kernel::in_domain(p, width),
    ensures
        WEIGHT_ONE - 8 <= stencil_weight(p, 0) + stencil_weight(p, 1) + stencil_weight(p, 2)
            + stencil_weight(p, 3) + stencil_weight(p, 4) + stencil_weight(p, 5) + stencil_weight(p, 6)
            + stencil_weight(p, 7) + stencil_weight(p, 8) <= WEIGHT_ONE,
{
    lemma_stencil_bounds(p, width, 0);
    let dx = cell_diff(p.x as int);
    let dy = cell_diff(p.y as int);
    lemma_weights_sum_to_one(dx, dy);
    let one = ONE as int;
    assert forall|k: int| 0 <= k < 9 implies ({
        let a = axis_weight(dx, slot_gx(k)) * axis_weight(dy, slot_gy(k));
        one * #[trigger] stencil_weight(p, k) <= a < one * stencil_weight(p, k) + one
    }) by {
        let a = axis_weight(dx, slot_gx(k)) * axis_weight(dy, slot_gy(k));
        vstd::arithmetic::div_mod::lemma_fundamental_div_mod(a, one);
    }
    assert(slot_gx(0) == 0 && slot_gy(0) == 0);
    assert(slot_gx(1) == 1 && slot_gy(1) == 0);
    assert(slot_gx(2) == 2 && slot_gy(2) == 0);
    assert(slot_gx(3) == 0 && slot_gy(3) == 1);
    assert(slot_gx(4) == 1 && slot_gy(4) == 1);
    assert(slot_gx(5) == 2 && slot_gy(5) == 1);
    assert(slot_gx(6) == 0 && slot_gy(6) == 2);
    assert(slot_gx(7) == 1 && slot_gy(7) == 2);
    assert(slot_gx(8) == 2 && slot_gy(8) == 2);
    assert(crate::kernel::AXIS_ONE * crate::kernel::AXIS_ONE == WEIGHT_ONE * one);
}

/// What slot `k` of a particle's buffer holds after the mass scatter, in the
/// terms the conservation proof needs.
spec fn slot_facts(before: Particle, after: Particle, width: int, k: int) -> bool {
    let w = stencil_weight(before.position, k);
    let m = before.mass as int;
    let mk = after.contributions@[k].mass as int;
    &&& 0 <= w <= WEIGHT_ONE
    &&& WEIGHT_ONE * mk <= m * w < WEIGHT_ONE * mk + WEIGHT_ONE
    &&& 0 <= mk <= m
    &&& after.contributions@[k].index < width * width
}

/// Each particle's buffer carries its own mass: a particle of non-negative
/// mass whose stencil lies in the grid scatters nine non-negative masses,
/// each to a cell of the grid, that sum to its mass up to rounding, which takes
/// off less than 25 units (of `1 / ONE`) and never adds any.
pub proof fn lemma_scattered_mass(before: Particle, after: Particle, width: int)
    requires
        3 <= width <= MAX_WIDTH,
        in_domain(before.position, width),
        before.mass >= 0,
        forall|k: int|
            0 <= k < 9 ==> #[trigger] after.contributions@[k] == mass_momentum_change(before, width, k),
    ensures
        forall|k: int| 0 <= k < 9 ==> (#[trigger] after.contributions@[k]).mass >= 0,
        forall|k: int| 0 <= k < 9 ==> (#[trigger] after.contributions@[k]).index < width * width,
        before.mass - 25 < slot_mass(after, 9) <= before.mass,
{
    let m = before.mass as int;
    let big = WEIGHT_ONE as int;
    assert forall|k: int| 0 <= k < 9 implies #[trigger] slot_facts(before, after, width, k) by {
        lemma_stencil_bounds(before.position, width, k);
        let w = stencil_weight(before.position, k);
        vstd::arithmetic::div_mod::lemma_fundamental_div_mod(m * w, big);
        assert(0 <= m * w <= m * big) by (nonlinear_arith)
            requires
                0 <= w <= big,
                m >= 0,
        ;
        vstd::arithmetic::div_mod::lemma_div_is_ordered(m * w, m * big, big);
        vstd::arithmetic::div_mod::lemma_div_by_multiple(m, big);
        vstd::arithmetic::div_mod::lemma_div_pos_is_pos(m * w, big);
        assert(after.contributions@[k] == mass_momentum_change(before, width, k));
    }
    assert forall|k: int| 0 <= k < 9 implies (#[trigger] after.contributions@[k]).mass >= 0 by {
        assert(slot_facts(before, after, width, k));
    }
    assert forall|k: int| 0 <= k < 9 implies (#[trigger] after.contributions@[k]).index < width
        * width by {
        assert(slot_facts(before, after, width, k));
    }
    assert(slot_facts(before, after, width, 0));
    assert(slot_facts(before, after, width, 1));
    assert(slot_facts(before, after, width, 2));
    assert(slot_facts(before, after, width, 3));
    assert(slot_facts(before, after, width, 4));
    assert(slot_facts(before, after, width, 5));
    assert(slot_facts(before, after, width, 6));
    assert(slot_facts(before, after, width, 7));
    assert(slot_facts(before, after, width, 8));
    lemma_stencil_weight_sum(before.position, width);
    let p = before.position;
    let (w0, w1, w2) = (stencil_weight(p, 0), stencil_weight(p, 1), stencil_weight(p, 2));
    let (w3, w4, w5) = (stencil_weight(p, 3), stencil_weight(p, 4), stencil_weight(p, 5));
    let (w6, w7, w8) = (stencil_weight(p, 6), stencil_weight(p, 7), stencil_weight(p, 8));
    let sw = w0 + w1 + w2 + w3 + w4 + w5 + w6 + w7 + w8;
    assert(m * w0 + m * w1 + m * w2 + m * w3 + m * w4 + m * w5 + m * w6 + m * w7 + m * w8 == m * sw)
        by (nonlinear_arith)
        requires
            sw == w0 + w1 + w2 + w3 + w4 + w5 + w6 + w7 + w8,
    ;
    assert(m * (big - 8) <= m * sw <= m * big) by (nonlinear_arith)
        requires
            big - 8 <= sw <= big,
            m >= 0,
    ;
    reveal_with_fuel(slot_mass, 10);
}

/// Every cell of `cells` is empty of mass.
proof fn lemma_total_of_empty(cells: Seq<Cell>)
    requires
        forall|i: int| 0 <= i < cells.len() ==> (#[trigger] cells[i]).mass == 0,
    ensures
        total_mass(cells) == 0,
    decreases cells.len(),
{
    if cells.len() > 0 {
        let d = cells.drop_last();
        assert forall|j: int| 0 <= j < d.len() implies (#[trigger] d[j]).mass == 0 by {
            assert(d[j] == cells[j]);
        }
        lemma_total_of_empty(d);
    }
}

proof fn lemma_scatter_total(cells: Seq<Cell>, before: Seq<Particle>, after: Seq<Particle>, width: int)
    requires
        3 <= width <= MAX_WIDTH,
        cells.len() == width * width,
        forall|i: int| 0 <= i < cells.len() ==> (#[trigger] cells[i]).mass == 0,
        store_wf(before, width),
        after.len() == before.len(),
        forall|i: int, k: int|
            0 <= i < before.len() && 0 <= k < 9 ==> (#[trigger] after[i].contributions@[k])
                == mass_momentum_change(before[i], width, k),
        forall|i: int| 0 <= i < before.len() ==> (#[trigger] before[i]).mass >= 0,
        particles_mass(before) <= i64::MAX,
    ensures
        add_particles(cells, after, true).len() == cells.len(),
        nonneg_cells(add_particles(cells, after, true)),
        particles_mass(before) - 25 * before.len() <= total_mass(add_particles(cells, after, true))
            <= particles_mass(before),
    decreases before.len(),
{
    if before.len() == 0 {
        lemma_total_of_empty(cells);
        assert(nonneg_cells(cells));
    } else {
        let b = before.drop_last();
        let a = after.drop_last();
        let last = before.len() - 1;
        assert(store_wf(b, width)) by {
            assert forall|i: int| 0 <= i < b.len() implies in_domain(#[trigger] b[i].position, width) by {
                assert(b[i] == before[i]);
            }
            assert forall|i: int, k: int|
                0 <= i < b.len() && 0 <= k < 9 implies (#[trigger] b[i].contributions@[k]).index
                < width * width by {
                assert(b[i] == before[i]);
            }
        }
        assert forall|i: int, k: int|
            0 <= i < b.len() && 0 <= k < 9 implies (#[trigger] a[i].contributions@[k])
            == mass_momentum_change(b[i], width, k) by {
            assert(a[i] == after[i]);
            assert(b[i] == before[i]);
        }
        assert forall|i: int| 0 <= i < b.len() implies (#[trigger] b[i]).mass >= 0 by {
            assert(b[i] == before[i]);
        }
        assert(before.last().mass >= 0) by {
            assert(before[last].mass >= 0);
        }
        lemma_scatter_total(cells, b, a, width);
        assert(in_domain(before[last].position, width));
        assert forall|k: int|
            0 <= k < 9 implies #[trigger] after.last().contributions@[k] == mass_momentum_change(
            before.last(),
            width,
            k,
        ) by {
            assert(after[last].contributions@[k] == mass_momentum_change(before[last], width, k));
        }
        lemma_scattered_mass(before.last(), after.last(), width);
        let mid = add_particles(cells, a, true);
        lemma_add_slots_mass(mid, after.last(), 9);
        assert(add_particles(cells, after, true) == add_slots(mid, after.last(), 9, true));
        assert(particles_mass(before) == particles_mass(b) + before.last().mass);
        assert(b.len() == before.len() - 1);
    }
}

/// Mass is conserved by the mass scatter and its apply step: from an emptied
/// grid, with particles of non-negative mass whose sum fits in `i64`, the mass
/// on the grid equals the particles' mass up to rounding, which takes off at
/// most 25 units (of `1 / ONE`) per particle and never adds any.
pub proof fn lemma_mass_conservation(
    cells: Seq<Cell>,
    before: Seq<Particle>,
    after: Seq<Particle>,
    width: int,
)
    requires
        3 <= width <= MAX_WIDTH,
        cells.len() == width * width,
        forall|i: int| 0 <= i < cells.len() ==> (#[trigger] cells[i]).mass == 0,
        store_wf(before, width),
        after.len() == before.len(),
        forall|i: int, k: int|
            0 <= i < before.len() && 0 <= k < 9 ==> (#[trigger] after[i].contributions@[k])
                == mass_momentum_change(before[i], width, k),
        forall|i: int| 0 <= i < before.len() ==> (#[trigger] before[i]).mass >= 0,
        particles_mass(before) <= i64::MAX,
    ensures
        particles_mass(before) - 25 * before.len() <= total_mass(add_particles(cells, after, true))
            <= particles_mass(before),
{
    lemma_scatter_total(cells, before, after, width);
}

} // verus!
