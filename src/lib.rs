//! Material point simulation (MLS-MPM with affine particle-in-cell transfer) of
//! fluids and hyperelastic solids on a 2D grid.
//!
//! All quantities are fixed-point integers (`fixed::ONE` steps per unit), and
//! every operation is stated exactly by a spec function, rounding and
//! saturation included. A tick runs, in order: `step::reset_grid`,
//! `transfer::update_cells`, `transfer::apply_update_cell_computations`,
//! `models::particles_to_grid_fluids`, `models::particles_to_grid_solids`,
//! `step::update_grid`, `gather::grid_to_particles`,
//! `gather::update_deformation_gradients` and `particle::delete_old_entities`;
//! `step::tick` runs them all.
pub mod fixed;
pub mod linalg;
pub mod kernel;
pub mod grid;
pub mod particle;
pub mod world;
pub mod transfer;
pub mod gather;
pub mod models;
pub mod step;
pub mod conservation;
pub mod display;
