//! Builders of the generated test sources.
pub mod signature_generator;
