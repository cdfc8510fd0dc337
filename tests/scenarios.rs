use mlsmpm::fixed::{fixed_mul, HALF, ONE};
use mlsmpm::gather::grid_to_particles;
use mlsmpm::grid::{Cell, Grid};
use mlsmpm::kernel::{quadratic_interpolation_weights, weighted_velocity_and_cell_dist_to_term, AXIS_ONE};
use mlsmpm::linalg::{Mat2, Vec2};
use mlsmpm::models::particles_to_grid_fluids;
use mlsmpm::particle::{
    water_properties, GridMassAndMomentumChange, Material, NewtonianFluidModel, Particle,
};
use mlsmpm::step::update_grid;
use mlsmpm::transfer::{apply_update_cell_computations, update_cells};
use mlsmpm::world::{Boundary, WorldState};

const TEST_GRID_WIDTH: usize = 10;

/// A real number in fixed point, truncated toward zero.
fn fx(v: f64) -> i64 {
    (v * ONE as f64) as i64
}

fn to_real(v: i64) -> f64 {
    v as f64 / ONE as f64
}

/// Equal up to the resolution of the fixed-point representation.
fn assert_exact(expected: f64, actual: i64) {
    let diff = (to_real(actual) - expected).abs();
    assert!(diff <= 1.0 / ONE as f64, "expected {expected}, got {}", to_real(actual));
}

fn assert_near(expected: f64, actual: i64, epsilon: f64) {
    let diff = (to_real(actual) - expected).abs();
    assert!(diff <= epsilon, "expected {expected} within {epsilon}, got {}", to_real(actual));
}

fn v2(x: f64, y: f64) -> Vec2 {
    Vec2::new(fx(x), fx(y))
}

fn test_affine() -> Mat2 {
    Mat2::from_cols(v2(-0.4838, 0.01124), v2(-0.0248, 0.169))
}

fn empty_grid() -> Grid {
    Grid::new(TEST_GRID_WIDTH).unwrap()
}

fn particle(position: Vec2, velocity: Vec2, mass: f64, material: Material) -> Particle {
    Particle {
        position,
        velocity,
        mass: fx(mass),
        affine_momentum: test_affine(),
        material,
        contributions: [GridMassAndMomentumChange { index: 0, mass: 0, momentum: Vec2::zero() }; 9],
        created_at: 0,
        max_age: 5000,
    }
}

#[test]
fn test_quadratic_interpolation_weights() {
    let cell_diff = Vec2::new(-HALF, -HALF);
    let weights = quadratic_interpolation_weights(cell_diff);
    assert_eq!(
        [
            Vec2::new(AXIS_ONE / 2, AXIS_ONE / 2),
            Vec2::new(AXIS_ONE / 2, AXIS_ONE / 2),
            Vec2::new(0, 0)
        ],
        weights
    );
}

#[test]
fn test_weighted_velocity_and_cell_dist_to_term_x_zero() {
    let zm = Mat2::from_cols(v2(0.0, 0.0), v2(1.0, 1.0));
    assert_eq!(weighted_velocity_and_cell_dist_to_term(v2(1.0, 1.0), v2(0.0, 1.0)), zm);
    assert_eq!(0, zm.determinant());
}

#[test]
fn test_weighted_velocity_and_cell_dist_to_term_y_zero() {
    let zm = Mat2::from_cols(v2(1.0, 1.0), v2(0.0, 0.0));
    assert_eq!(weighted_velocity_and_cell_dist_to_term(v2(1.0, 1.0), v2(1.0, 0.0)), zm);
    assert_eq!(0, zm.determinant());
}

#[test]
fn test_weighted_velocity_and_cell_dist_to_term() {
    let a = fx(0.22);
    let b = fx(0.77);
    let zm = Mat2::from_cols(
        Vec2::new(fixed_mul(a, fx(2.0)), fixed_mul(b, fx(2.0))),
        Vec2::new(fixed_mul(a, fx(-1.0)), fixed_mul(b, fx(-1.0))),
    );
    assert_eq!(weighted_velocity_and_cell_dist_to_term(Vec2::new(a, b), v2(2.0, -1.0)), zm);
    assert_eq!(0, zm.determinant());
    assert_eq!(zm.row(0).x, fixed_mul(a, fx(2.0)));
    assert_eq!(zm.row(1).x, fixed_mul(b, fx(2.0)));
}

#[test]
// a single particle in free fall gives mass and momentum to the cells around it
fn test_update_cells_iteration() {
    let mut grid = empty_grid();
    let mut particles = vec![particle(
        v2(5.0, 5.0),
        v2(0.0, -1.0),
        1.06,
        Material::Fluid(water_properties()),
    )];

    update_cells(&grid, &mut particles);
    apply_update_cell_computations(&mut grid, &particles);

    // the particle is only read
    let p = &particles[0];
    assert_eq!(p.position, v2(5.0, 5.0));
    assert_eq!(p.velocity, v2(0.0, -1.0));
    assert_eq!(p.affine_momentum.x_axis.x, fx(-0.4838));
    assert_eq!(p.affine_momentum.x_axis.y, fx(0.01124));
    assert_eq!(p.affine_momentum.y_axis.x, fx(-0.0248));
    assert_eq!(p.affine_momentum.y_axis.y, fx(0.169));
    // access row major
    assert_eq!(p.affine_momentum.row(0).x, fx(-0.4838));
    assert_eq!(p.affine_momentum.row(0).y, fx(-0.0248));
    assert_eq!(p.affine_momentum.row(1).x, fx(0.01124));
    assert_eq!(p.affine_momentum.row(1).y, fx(0.169));

    let gr = &grid;
    assert_exact(0.265, gr.cells[44].mass);
    assert_exact(0.265, gr.cells[45].mass);
    assert_eq!(gr.cells[46].mass, 0);
    assert_exact(0.265, gr.cells[54].mass);
    assert_exact(0.265, gr.cells[55].mass);
    assert_eq!(gr.cells[56].mass, 0);
    assert_eq!(gr.cells[64].mass, 0);
    assert_eq!(gr.cells[65].mass, 0);
    assert_eq!(gr.cells[66].mass, 0);

    assert_exact(-0.28888178, gr.cells[44].velocity.y);
    assert_near(0.0673895, gr.cells[44].velocity.x, 1e-4);
    assert_near(-0.2888818, gr.cells[44].velocity.y, 1e-4);
    assert_near(0.0608175, gr.cells[45].velocity.x, 1e-4);
    assert_near(-0.2440968, gr.cells[45].velocity.y, 1e-4);
    assert_eq!(gr.cells[46].velocity, Vec2::zero());
    assert_near(-0.0608175, gr.cells[54].velocity.x, 1e-4);
    assert_near(-0.2859032, gr.cells[54].velocity.y, 1e-4);
    assert_near(-0.0673895, gr.cells[55].velocity.x, 1e-4);
    assert_near(-0.2411182, gr.cells[55].velocity.y, 1e-4);
    assert_eq!(gr.cells[56].velocity, Vec2::zero());
    assert_eq!(gr.cells[64].velocity, Vec2::zero());
    assert_eq!(gr.cells[65].velocity, Vec2::zero());
    assert_eq!(gr.cells[66].velocity, Vec2::zero());
}

#[test]
// a single fluid particle scatters its stress as momentum into the cells around it
fn test_particles_to_grid_iteration() {
    let mut grid = empty_grid();
    let particle_cell_index = grid.index_at(5, 5);
    grid.cells[particle_cell_index].mass = fx(0.25);
    let mut world = WorldState::new(fx(0.1), fx(-0.3), true).unwrap();

    let model = NewtonianFluidModel {
        rest_density: fx(4.0),
        dynamic_viscosity: fx(0.1),
        eos_stiffness: fx(10.0),
        eos_power: 4,
    };
    let mut particles = vec![particle(v2(5.0, 5.0), v2(0.0, -1.0), 1.06, Material::Fluid(model))];

    particles_to_grid_fluids(&grid, &mut particles, &world);
    update_grid(&mut grid, &particles, &mut world);

    let p = &particles[0];
    assert_eq!(p.position, v2(5.0, 5.0));
    assert_eq!(p.velocity, v2(0.0, -1.0));
    assert_eq!(p.affine_momentum.x_axis.x, fx(-0.4838));
    assert_eq!(p.affine_momentum.x_axis.y, fx(0.01124));
    assert_eq!(p.affine_momentum.y_axis.x, fx(-0.0248));
    assert_eq!(p.affine_momentum.y_axis.y, fx(0.169));

    let gr = &grid;
    assert_near(0.042623872, gr.cells[44].velocity.x, 1e-4);
    assert_near(0.097981312, gr.cells[44].velocity.y, 1e-4);
    assert_near(0.044923648, gr.cells[45].velocity.x, 1e-4);
    assert_near(-0.100281088, gr.cells[45].velocity.y, 1e-4);
    assert_eq!(gr.cells[46].velocity, Vec2::zero());
    assert_near(-0.044923648, gr.cells[54].velocity.x, 1e-4);
    assert_near(0.100281088, gr.cells[54].velocity.y, 1e-4);
    assert_near(-0.1704955, gr.cells[55].velocity.x, 1e-4);
    assert_near(-0.42192528, gr.cells[55].velocity.y, 1e-4);
    assert_eq!(gr.cells[56].velocity, Vec2::zero());
    assert_eq!(gr.cells[64].velocity, Vec2::zero());
    assert_eq!(gr.cells[65].velocity, Vec2::zero());
    assert_eq!(gr.cells[66].velocity, Vec2::zero());
}

#[test]
// two particles take their velocity from the cells around them
fn test_grid_to_particles_iteration() {
    let mut grid = empty_grid();
    let world = WorldState::new(fx(0.1), fx(-0.3), true).unwrap();
    let fluid = Material::Fluid(water_properties());
    let mut particles = vec![
        particle(v2(5.2, 5.3), v2(3.3, 3.0), 1.06, fluid),
        particle(v2(6.6, 5.9), v2(1.2, -1.0), 1.23, fluid),
    ];

    let particle_1_cell_index = grid.index_at(5, 5);
    let particle_2_cell_index = grid.index_at(6, 5);
    grid.cells[particle_1_cell_index].velocity = v2(1.0, 1.0);
    grid.cells[particle_1_cell_index].mass = fx(0.25);
    grid.cells[particle_2_cell_index].velocity = v2(2.0, 2.0);
    grid.cells[particle_2_cell_index].mass = fx(0.25);

    grid_to_particles(&grid, &mut particles, &world, Boundary::standard());

    let first = &particles[0];
    let second = &particles[1];
    assert_near(5.2497, first.position.x, 1e-4);
    assert_near(5.3497, first.position.y, 1e-4);
    assert_near(0.497, first.velocity.x, 1e-4);
    assert_near(0.497, first.velocity.y, 1e-4);
    assert_eq!(first.mass, fx(1.06));
    assert_near(0.71, first.affine_momentum.x_axis.x, 1e-4);
    assert_near(0.71, first.affine_momentum.x_axis.y, 1e-4);
    assert_near(0.3976, first.affine_momentum.y_axis.x, 1e-4);
    assert_near(0.3976, first.affine_momentum.y_axis.y, 1e-4);
    assert_near(6.692, second.position.x, 1e-4);
    assert_near(5.992, second.position.y, 1e-4);
    assert_near(0.13631988, second.velocity.x, 1e-4);
    assert_near(0.8363197, second.velocity.y, 1e-4);
    assert_eq!(second.mass, fx(1.23));
    assert_near(-0.557, second.affine_momentum.x_axis.x, 1e-4);
    assert_near(-0.557, second.affine_momentum.x_axis.y, 1e-4);
    assert_near(-1.47264, second.affine_momentum.y_axis.x, 1e-4);
    assert_near(-1.47264, second.affine_momentum.y_axis.y, 1e-4);
}

#[test]
// reset zeroes the cells
fn test_reset_grid() {
    let mut gr = empty_grid();
    gr.cells[7].mass = fx(0.25);
    gr.cells[7].velocity = v2(1.2, 2.3);

    gr.reset();

    assert_eq!(gr.cells[7].mass, 0);
    assert_eq!(gr.cells[7].velocity.x, 0);
    assert_eq!(gr.cells[7].velocity.y, 0);
}

#[test]
// the grid update turns momentum into velocity and applies the walls
fn test_update_grid() {
    let mut gr = empty_grid();

    let border_cell_index = gr.index_at(3, 0);
    gr.cells[border_cell_index] = Cell { velocity: v2(2.2, -2.4), mass: fx(1.17171717) };

    let middle_cell_index = gr.index_at(5, 5);
    gr.cells[middle_cell_index] = Cell { velocity: v2(3.7333, -1.111), mass: fx(3.333) };

    gr.update(fx(0.1), fx(-0.3));

    assert_near(1.8775, gr.cells[border_cell_index].velocity.x, 1e-4);
    assert_near(0.0, gr.cells[border_cell_index].velocity.y, 1e-8);
    assert_near(1.17171717, gr.cells[border_cell_index].mass, 1e-4);

    assert_near(1.1201, gr.cells[middle_cell_index].velocity.x, 1e-4);
    assert_near(-0.3633, gr.cells[middle_cell_index].velocity.y, 1e-4);
    assert_near(3.3329, gr.cells[middle_cell_index].mass, 1e-4);
}
