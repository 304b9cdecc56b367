//! Procedural animation of a cubic grid of cubes: each cube's position,
//! size and colour as exact functions of its grid coordinate and of the
//! trigonometric readings of the current frame, plus an orbiting camera.
//!
//! All quantities are exact fractions. Sine and cosine readings enter as
//! integers in millionths (see `fixed::UNIT`); everything derived from them
//! is computed without rounding.

pub mod camera;
pub mod fixed;
pub mod frame;
pub mod grid;
pub mod motion;

pub use fixed::{Ratio, UNIT};
pub use grid::{color_of, grid_cells, hue_of, CellColor, GridCell};
pub use motion::{block_scale, breath, cell_position, cell_scale, scatter_phase, Point3};
pub use camera::{orbit, ORBIT_HEIGHT, ORBIT_RADIUS};
pub use frame::{frame_color, tick, CellTransform, ColorMode, Frame};
