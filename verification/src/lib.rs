pub mod game;
pub mod geometry;
pub mod laws;
pub(crate) mod rng;
