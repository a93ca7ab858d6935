//! The generators: one module for each version of identifier.

pub mod v2;
pub mod v3;
