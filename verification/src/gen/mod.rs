//! Parsing of model and surface descriptions, and generation of the Rust source that
//! declares them.

pub mod text;
pub mod words;
pub mod model;
pub mod surface;
pub mod driver;
