//! Decision logic of a full-screen particle animation: animation kinds, the
//! layered resolution of settings, the discrete attributes of a particle
//! population and the life cycle of one run.

pub mod canvas;
pub mod color;
pub mod config;
pub mod particle;
pub mod random;
pub mod text;
pub mod types;
