//! Geodetic model definitions, text parsing for model and surface descriptions,
//! and a small deterministic pseudo-random generator.

pub mod gen;
pub mod prng;
pub mod model;
pub mod models;
pub mod error;
pub mod orientation;
pub mod great_circle;
pub mod internal;
pub mod spherical;
