//! A verified generator of typestate builders.
pub mod model;
pub mod text;
pub mod attrs;
pub mod analysis;
pub mod categorize;
pub mod expansion;
pub mod generate;
pub mod laws;
pub mod parse;
pub mod field_laws;
