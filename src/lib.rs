//! Simulation core of a 2D arcade space-combat game: damage and death, meteor
//! fragmentation, arena wraparound, gravity, weapon firing, the entity registry
//! and the run/pause gate.
//!
//! Geometry is fixed-point: lengths, positions and speeds are integers in
//! thousandths of a pixel, and densities are in thousandths. Random draws come
//! from `rand`; each function that draws states what holds of every outcome, and
//! the computation after the draw stands in a function of its own that takes
//! the drawn values and has an exact contract.
pub mod boundary;
pub mod damage;
pub mod fragmentation;
pub mod geometry;
pub mod meteor_field;
pub mod meteors;
pub mod planets;
pub mod player;
mod randomness;
pub mod registry;
pub mod simulation;
pub mod spawning;
pub mod sprites;
pub mod timing;
pub mod weapons;
pub mod world;
