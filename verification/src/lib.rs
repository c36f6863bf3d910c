//! The computational core of a particle simulation.
//!
//! Every particle moves by a model of its own and leaves a trail of its
//! recent positions. This library holds what is decided about a particle
//! from tick to tick, and leaves the arithmetic of the motion to its caller:
//!
//! - [`sampler`]: which steps of a particle are recorded;
//! - [`tail_buffer`]: the trail, a ring of the positions recorded last;
//! - [`sphere`]: one particle, dormant until a draw activates it, and
//!   recording its steps from then on;
//! - [`population`]: the particles of a simulation, in a fixed order;
//! - [`controls`]: what the keyboard and the mouse do to a running
//!   simulation;
//! - [`mesh`]: the triangles of the sphere that a particle is drawn as;
//! - [`error`]: the reasons for which a construction is refused.
//!
//! The library is generic in the type of a position and never looks inside
//! one.

pub mod controls;
pub mod error;
pub mod mesh;
mod modular;
pub mod population;
pub mod sampler;
pub mod sphere;
pub mod tail_buffer;
