//! Deterministic fixed-step physics for box-shaped bodies in a static tile
//! grid, as used by a 2D side-scrolling platformer: a semi-implicit Euler
//! integrator, a broad/narrow-phase body-body collision solver with
//! mass-weighted position correction and restitution, a side-aware swept
//! tile-grid collision detector and resolver, and the movement/jump state
//! glue that turns directional intent into forces.
//!
//! All quantities are fixed-point integers: world coordinates and velocities
//! are plain `i64` units (a caller picks the subpixel scale), dimensionless
//! coefficients such as drag and restitution are scaled by [`num::COEF_ONE`],
//! and the tick duration is `1 / tps` seconds. Intermediate arithmetic is
//! exact over mathematical integers; every stored result saturates at the
//! `i64` range, and the contracts state the saturation explicitly.

pub mod aabb;
pub mod body;
pub mod detect;
pub mod go;
pub mod jump;
pub mod laws;
pub mod level;
pub mod movement;
pub mod num;
pub mod obstruct;
pub mod sim;
pub mod systems;
pub mod tile_table;
pub mod tiles;
pub mod vec2;
