//! Trait implementations on std and other common crates.

pub mod std_types;
pub mod tokio_types;
