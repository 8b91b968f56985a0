//! Particle emitters: which of them are spawned, what they are owed, when they run, freeze, drain
//! and go, and how their quads are laid out.
pub mod cloud;
pub mod emission;
pub mod emitter;
pub mod material;
pub mod quads;
pub mod rng;
pub mod sim;
