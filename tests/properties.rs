use mlsmpm::fixed::{fixed_add, fixed_div, fixed_mul, fixed_pow, HALF, ONE};
use mlsmpm::gather::{grid_to_particles, update_deformation_gradients};
use mlsmpm::grid::{Grid, GridError};
use mlsmpm::kernel::{quadratic_interpolation_weights, AXIS_ONE};
use mlsmpm::linalg::{Mat2, Vec2};
use mlsmpm::models::{fluid_momentum_term, solid_jacobians, solid_momentum_term, PRESSURE_FLOOR};
use mlsmpm::particle::{
    delete_old_entities, is_expired, spawn, steel_properties, water_properties, wood_properties,
    Material, NeoHookeanHyperElasticModel, Particle, SpawnError, DEFAULT_MAX_AGE,
};
use mlsmpm::step::tick;
use mlsmpm::transfer::{apply_update_cell_computations, update_cells};
use mlsmpm::world::{Boundary, WorldError, WorldState, DEFAULT_DT, DEFAULT_GRAVITY};

/// A real number in fixed point, truncated toward zero.
fn fx(v: f64) -> i64 {
    (v * ONE as f64) as i64
}

fn v2(x: f64, y: f64) -> Vec2 {
    Vec2::new(fx(x), fx(y))
}

fn spawned(grid: &Grid, specs: &[(f64, f64, f64, f64, f64)], material: Material) -> Vec<Particle> {
    let mut particles = Vec::new();
    for &(x, y, vx, vy, m) in specs {
        spawn(&mut particles, grid.width, v2(x, y), v2(vx, vy), fx(m), material, 0, DEFAULT_MAX_AGE)
            .unwrap();
    }
    particles
}

#[test]
fn weights_sum_to_one_on_samples() {
    let offsets = [-HALF, -HALF / 3, 0, 1, 12345, HALF - 1, HALF];
    for &dx in &offsets {
        for &dy in &offsets {
            let w = quadratic_interpolation_weights(Vec2::new(dx, dy));
            let mut sum: i128 = 0;
            for gx in 0..3 {
                for gy in 0..3 {
                    sum += w[gx].x as i128 * w[gy].y as i128;
                }
            }
            assert_eq!(sum, AXIS_ONE as i128 * AXIS_ONE as i128);
        }
    }
}

#[test]
fn centred_particle_weights() {
    // at the centre of its cell: 1/8, 3/4, 1/8 on each axis
    let w = quadratic_interpolation_weights(Vec2::new(0, 0));
    assert_eq!(w[0], Vec2::new(AXIS_ONE / 8, AXIS_ONE / 8));
    assert_eq!(w[1], Vec2::new(AXIS_ONE * 3 / 4, AXIS_ONE * 3 / 4));
    assert_eq!(w[2], Vec2::new(AXIS_ONE / 8, AXIS_ONE / 8));
}

#[test]
fn mass_is_conserved_by_scatter() {
    let mut grid = Grid::new(16).unwrap();
    let specs = [
        (5.3, 7.9, 1.0, 0.0, 1.0),
        (5.31, 7.2, 0.0, -2.0, 1.5),
        (9.7, 3.1, 0.5, 0.5, 0.25),
        (12.02, 12.99, -1.0, 3.0, 2.0),
    ];
    let mut particles = spawned(&grid, &specs, Material::Fluid(water_properties()));
    grid.reset();
    update_cells(&grid, &mut particles);
    apply_update_cell_computations(&mut grid, &particles);
    let on_grid: i64 = grid.cells.iter().map(|c| c.mass).sum();
    let in_particles: i64 = particles.iter().map(|p| p.mass).sum();
    assert!(on_grid <= in_particles);
    assert!(on_grid >= in_particles - 25 * particles.len() as i64);
}

#[test]
fn zero_affine_scatter_is_pic() {
    let grid = Grid::new(12).unwrap();
    let mut particles = spawned(&grid, &[(4.3, 6.6, 1.5, -0.75, 1.2)], Material::Fluid(water_properties()));
    assert_eq!(particles[0].affine_momentum, Mat2::zero());
    update_cells(&grid, &mut particles);
    let p = &particles[0];
    for slot in p.contributions.iter() {
        assert_eq!(slot.momentum, p.velocity.scale(slot.mass));
    }
}

#[test]
fn reset_twice_equals_once() {
    let mut a = Grid::new(6).unwrap();
    a.cells[3].mass = fx(2.0);
    a.cells[20].velocity = v2(-1.0, 4.0);
    a.reset();
    let once = a.cells.clone();
    a.reset();
    assert_eq!(a.cells, once);
    assert!(a.cells.iter().all(|c| c.mass == 0 && c.velocity == Vec2::zero()));
}

#[test]
fn left_wall_keeps_inward_velocity() {
    let mut grid = Grid::new(10).unwrap();
    let i = grid.index_at(0, 5);
    grid.cells[i].mass = fx(2.0);
    grid.cells[i].velocity = v2(1.0, 0.0);
    grid.update(fx(0.1), 0);
    assert_eq!(grid.cells[i].velocity.x, fx(0.5));
}

#[test]
fn left_wall_zeroes_outward_velocity() {
    let mut grid = Grid::new(10).unwrap();
    let i = grid.index_at(0, 5);
    grid.cells[i].mass = fx(2.0);
    grid.cells[i].velocity = v2(-1.0, 0.0);
    grid.update(fx(0.1), 0);
    assert_eq!(grid.cells[i].velocity.x, 0);
}

#[test]
fn other_walls_clamp_their_outward_components() {
    let mut grid = Grid::new(10).unwrap();
    let right = grid.index_at(8, 5);
    let top = grid.index_at(5, 9);
    let bottom = grid.index_at(5, 1);
    for &i in &[right, top, bottom] {
        grid.cells[i].mass = ONE;
        grid.cells[i].velocity = v2(1.0, 1.0);
    }
    grid.cells[bottom].velocity = v2(1.0, -1.0);
    grid.update(fx(0.1), 0);
    assert_eq!(grid.cells[right].velocity, Vec2::new(0, ONE));
    assert_eq!(grid.cells[top].velocity, Vec2::new(ONE, 0));
    assert_eq!(grid.cells[bottom].velocity, Vec2::new(ONE, 0));
}

#[test]
fn empty_cells_are_left_alone_by_update() {
    let mut grid = Grid::new(5).unwrap();
    grid.cells[12].velocity = v2(3.0, -3.0);
    grid.update(fx(0.1), fx(-9.8));
    assert_eq!(grid.cells[12].velocity, v2(3.0, -3.0));
}

#[test]
fn free_fall_scenario_cell_four_four() {
    let mut grid = Grid::new(10).unwrap();
    let mut particles = spawned(&grid, &[(5.0, 5.0, 0.0, -1.0, 1.06)], Material::Fluid(water_properties()));
    particles[0].affine_momentum = Mat2::from_cols(v2(-0.4838, 0.01124), v2(-0.0248, 0.169));
    let before = particles[0];
    update_cells(&grid, &mut particles);
    apply_update_cell_computations(&mut grid, &particles);
    let c = grid.cells[grid.index_at(4, 4)];
    assert!((c.mass - fx(0.265)).abs() <= 1);
    assert!((c.velocity.x - fx(0.06739)).abs() <= fx(1e-4));
    assert_eq!(particles[0].position, before.position);
    assert_eq!(particles[0].velocity, before.velocity);
    assert_eq!(particles[0].affine_momentum, before.affine_momentum);
}

#[test]
fn deformation_update_is_isotropic_dilation() {
    let grid = Grid::new(10).unwrap();
    let mut particles = spawned(&grid, &[(5.0, 5.0, 0.0, 0.0, 1.0)], Material::Solid(wood_properties()));
    let k = fx(2.0);
    particles[0].affine_momentum = Mat2::from_cols(Vec2::new(k, 0), Vec2::new(0, k));
    let world = WorldState::new(fx(0.25), 0, false).unwrap();
    update_deformation_gradients(&mut particles, &world);
    match particles[0].material {
        Material::Solid(s) => {
            assert_eq!(s.deformation_gradient, Mat2::from_cols(v2(1.5, 0.0), v2(0.0, 1.5)));
        }
        Material::Fluid(_) => panic!("material changed"),
    }
}

#[test]
fn deformation_order_is_update_times_old() {
    // (I + dt C) F differs from F (I + dt C) when they do not commute
    let grid = Grid::new(10).unwrap();
    let mut particles = spawned(&grid, &[(5.0, 5.0, 0.0, 0.0, 1.0)], Material::Solid(steel_properties()));
    if let Material::Solid(s) = particles[0].material {
        particles[0].material = Material::Solid(NeoHookeanHyperElasticModel {
            deformation_gradient: Mat2::from_cols(v2(1.0, 0.0), v2(1.0, 1.0)),
            ..s
        });
    }
    particles[0].affine_momentum = Mat2::from_cols(v2(0.0, 1.0), v2(0.0, 0.0));
    let world = WorldState::new(ONE, 0, false).unwrap();
    update_deformation_gradients(&mut particles, &world);
    match particles[0].material {
        Material::Solid(s) => {
            assert_eq!(s.deformation_gradient, Mat2::from_cols(v2(1.0, 1.0), v2(1.0, 2.0)));
        }
        Material::Fluid(_) => panic!("material changed"),
    }
}

#[test]
fn fluids_keep_their_model_in_deformation_update() {
    let grid = Grid::new(10).unwrap();
    let mut particles = spawned(&grid, &[(5.0, 5.0, 0.0, 0.0, 1.0)], Material::Fluid(water_properties()));
    particles[0].affine_momentum = Mat2::from_cols(v2(3.0, 1.0), v2(0.0, 2.0));
    let world = WorldState::new(fx(0.1), 0, false).unwrap();
    update_deformation_gradients(&mut particles, &world);
    assert_eq!(particles[0].material, Material::Fluid(water_properties()));
}

#[test]
fn particle_expiry_at_tick_boundary() {
    assert!(!is_expired(0, 100, 100));
    assert!(is_expired(0, 100, 101));
    let grid = Grid::new(10).unwrap();
    let mut particles = Vec::new();
    spawn(&mut particles, grid.width, v2(5.0, 5.0), Vec2::zero(), ONE, Material::Fluid(water_properties()), 0, 100)
        .unwrap();
    spawn(&mut particles, grid.width, v2(6.0, 5.0), Vec2::zero(), ONE, Material::Fluid(water_properties()), 50, 100)
        .unwrap();
    delete_old_entities(&mut particles, 100);
    assert_eq!(particles.len(), 2);
    delete_old_entities(&mut particles, 101);
    assert_eq!(particles.len(), 1);
    assert_eq!(particles[0].created_at, 50);
}

#[test]
fn grid_new_rejects_narrow_widths() {
    assert_eq!(Grid::new(0).err(), Some(GridError::TooNarrow));
    assert_eq!(Grid::new(2).err(), Some(GridError::TooNarrow));
    let g = Grid::new(3).unwrap();
    assert_eq!(g.cells.len(), 9);
}

#[test]
fn grid_new_rejects_wide_widths() {
    assert_eq!(Grid::new(65536).err(), Some(GridError::TooWide));
    assert!(Grid::new(1000).is_ok());
}

#[test]
fn index_is_row_major_by_x() {
    let g = Grid::new(10).unwrap();
    assert_eq!(g.index_at(4, 4), 44);
    assert_eq!(g.index_at(6, 5), 65);
    assert_eq!(g.index_at(0, 9), 9);
}

#[test]
fn world_new_rejects_zero_step() {
    assert_eq!(WorldState::new(0, fx(-9.8), true), Err(WorldError::ZeroStep));
    let w = WorldState::new(fx(0.1), fx(-0.3), true).unwrap();
    assert_eq!(w.current_tick, 0);
}

#[test]
fn world_defaults_and_gravity_toggle() {
    let mut w = WorldState::default();
    assert_eq!((w.dt, w.gravity, w.gravity_enabled, w.current_tick), (DEFAULT_DT, DEFAULT_GRAVITY, true, 0));
    assert_eq!(w.effective_gravity(), DEFAULT_GRAVITY);
    w.toggle_gravity();
    assert_eq!(w.effective_gravity(), 0);
    w.update();
    assert_eq!(w.current_tick, 1);
}

#[test]
fn spawn_rejects_positions_outside_grid() {
    let grid = Grid::new(10).unwrap();
    let mut particles = Vec::new();
    let fluid = Material::Fluid(water_properties());
    let outside = [v2(0.5, 5.0), v2(5.0, 9.0), v2(9.5, 9.5), v2(-1.0, 5.0)];
    for &pos in &outside {
        let r = spawn(&mut particles, grid.width, pos, Vec2::zero(), ONE, fluid, 0, 10);
        assert_eq!(r, Err(SpawnError::OutsideGrid));
    }
    assert!(particles.is_empty());
    assert_eq!(spawn(&mut particles, grid.width, v2(1.0, 8.99), Vec2::zero(), ONE, fluid, 0, 10), Ok(()));
    assert_eq!(particles.len(), 1);
}

#[test]
fn fixed_point_arithmetic_values() {
    assert_eq!(fixed_mul(fx(1.5), fx(2.0)), fx(3.0));
    assert_eq!(fixed_mul(3, HALF), 1);
    assert_eq!(fixed_mul(-3, HALF), -2);
    assert_eq!(fixed_div(fx(3.0), fx(2.0)), fx(1.5));
    assert_eq!(fixed_div(fx(3.0), -fx(2.0)), -fx(1.5));
    assert_eq!(fixed_div(fx(3.0), 0), 0);
    assert_eq!(fixed_pow(fx(2.0), 4), fx(16.0));
    assert_eq!(fixed_pow(fx(5.0), 0), ONE);
    assert_eq!(fixed_add(i64::MAX, 1), i64::MAX);
    assert_eq!(fixed_mul(i64::MIN, fx(4.0)), i64::MIN);
}

#[test]
fn fluid_term_without_density_is_zero() {
    let m = water_properties();
    let affine = Mat2::from_cols(v2(1.0, 2.0), v2(3.0, 4.0));
    assert_eq!(fluid_momentum_term(m, affine, ONE, 0, fx(0.1)), Mat2::zero());
}

#[test]
fn fluid_term_at_low_density_uses_pressure_floor() {
    let m = water_properties();
    // density 1 with rest density 4: the equation of state gives far below the floor
    let term = fluid_momentum_term(m, Mat2::zero(), ONE, ONE, fx(0.25));
    // stress 0.1 * I, factor -1 * 4 * 0.25 = -1
    assert_eq!(term, Mat2::from_cols(Vec2::new(PRESSURE_FLOOR, 0), Vec2::new(0, PRESSURE_FLOOR)));
}

#[test]
fn solid_term_at_rest_is_zero() {
    let s = steel_properties();
    assert_eq!(solid_momentum_term(s, ONE, ONE, 0, fx(0.1)), Mat2::zero());
}

#[test]
fn solid_term_with_singular_gradient_is_zero() {
    let mut s = wood_properties();
    s.deformation_gradient = Mat2::from_cols(v2(1.0, 1.0), v2(1.0, 1.0));
    assert_eq!(solid_momentum_term(s, ONE, ONE, fx(0.3), fx(0.1)), Mat2::zero());
}

#[test]
fn solid_term_under_min_jacobian_is_zero() {
    let mut s = wood_properties();
    // J = 0.005, under the default threshold of 0.01
    s.deformation_gradient = Mat2::from_cols(v2(0.1, 0.0), v2(0.0, 0.05));
    assert_eq!(solid_momentum_term(s, ONE, ONE, fx(-5.3), fx(0.1)), Mat2::zero());
    // J = 0.5 is above it
    s.deformation_gradient = Mat2::from_cols(v2(1.0, 0.0), v2(0.0, 0.5));
    assert_ne!(solid_momentum_term(s, ONE, ONE, fx(-0.69), fx(0.1)), Mat2::zero());
}

#[test]
fn solid_jacobians_are_determinants() {
    let grid = Grid::new(10).unwrap();
    let mut particles = spawned(&grid, &[(5.0, 5.0, 0.0, 0.0, 1.0)], Material::Solid(steel_properties()));
    particles.extend(spawned(&grid, &[(6.0, 6.0, 0.0, 0.0, 1.0)], Material::Fluid(water_properties())));
    if let Material::Solid(s) = particles[0].material {
        particles[0].material = Material::Solid(NeoHookeanHyperElasticModel {
            deformation_gradient: Mat2::from_cols(v2(2.0, 0.0), v2(0.5, 1.5)),
            ..s
        });
    }
    assert_eq!(solid_jacobians(&particles), vec![fx(3.0), ONE]);
}

#[test]
fn gather_clamps_escaping_particles() {
    let mut grid = Grid::new(10).unwrap();
    for c in grid.cells.iter_mut() {
        c.velocity = v2(-100.0, 100.0);
    }
    let world = WorldState::new(fx(0.1), 0, false).unwrap();
    let mut particles = spawned(&grid, &[(2.0, 7.5, 0.0, 0.0, 1.0)], Material::Fluid(water_properties()));
    grid_to_particles(&grid, &mut particles, &world, Boundary::standard());
    assert_eq!(particles[0].position, Vec2::new(ONE, 8 * ONE));
}

#[test]
fn tick_advances_and_keeps_particles_in_grid() {
    let mut grid = Grid::new(16).unwrap();
    let mut world = WorldState::new(fx(0.01), fx(-9.8), true).unwrap();
    let mut particles = spawned(
        &grid,
        &[(5.0, 5.0, 1.0, 0.0, 1.0), (5.5, 5.2, 0.0, 0.0, 1.0), (6.0, 5.0, -1.0, 0.0, 1.0)],
        Material::Fluid(water_properties()),
    );
    particles.extend(spawned(&grid, &[(9.0, 9.0, 0.0, 0.0, 1.5)], Material::Solid(steel_properties())));
    for _ in 0..20 {
        let logs = vec![0; particles.len()];
        tick(&mut grid, &mut particles, &mut world, Boundary::standard(), &logs);
    }
    assert_eq!(world.current_tick, 20);
    assert_eq!(particles.len(), 4);
    let lo = ONE;
    let hi = 14 * ONE;
    for p in &particles {
        assert!(lo <= p.position.x && p.position.x <= hi);
        assert!(lo <= p.position.y && p.position.y <= hi);
    }
    // gravity pulls the free particles down
    assert!(particles[0].position.y < fx(5.0));
}

#[test]
fn tick_removes_expired_particles() {
    let mut grid = Grid::new(8).unwrap();
    let mut world = WorldState::new(fx(0.01), 0, false).unwrap();
    let mut particles = Vec::new();
    let fluid = Material::Fluid(water_properties());
    spawn(&mut particles, grid.width, v2(3.0, 3.0), Vec2::zero(), ONE, fluid, 0, 1).unwrap();
    spawn(&mut particles, grid.width, v2(4.0, 4.0), Vec2::zero(), ONE, fluid, 0, 5).unwrap();
    for _ in 0..2 {
        let logs = vec![0; particles.len()];
        tick(&mut grid, &mut particles, &mut world, Boundary::standard(), &logs);
    }
    assert_eq!(particles.len(), 1);
    assert_eq!(particles[0].max_age, 5);
}

#[test]
fn window_is_borderless_and_named() {
    let w = mlsmpm::display::setup_windows();
    assert_eq!(w.title, "mlsmpm-particles-rs");
    assert!(w.borderless_fullscreen);
}

#[test]
fn sprites_follow_particles() {
    let grid = Grid::new(10).unwrap();
    let particles = spawned(&grid, &[(2.5, 3.5, 0.0, 0.0, 1.0), (7.25, 1.5, 0.0, 0.0, 1.0)], Material::Fluid(water_properties()));
    let mut sprites = vec![Vec2::zero(); 2];
    mlsmpm::display::update_sprites(&mut sprites, &particles);
    assert_eq!(sprites, vec![v2(2.5, 3.5), v2(7.25, 1.5)]);
}
